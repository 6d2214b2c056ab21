//! The accessibility description a widget publishes: a plain record
//! that the platform layer turns into its own node type.

use vstd::prelude::*;

verus! {

/// The role a node announces to assistive technology.
#[derive(Clone, Copy, Debug, PartialEq, Eq, Structural)]
pub enum Role {
    Unknown,
    Button,
    Group,
    GenericContainer,
    Grid,
    Image,
    ListItem,
    SearchInput,
    RadioButton,
    RadioGroup,
    Status,
    Time,
}

/// Layout axis reported for grouped controls.
#[derive(Clone, Copy, Debug, PartialEq, Eq, Structural)]
pub enum Orientation {
    Horizontal,
    Vertical,
}

/// An accessibility node.
#[derive(Debug)]
pub struct AccessNode {
    pub role: Role,
    pub label: Option<String>,
    pub value: Option<String>,
    pub description: Option<String>,
    /// Checked state of a toggle-like node.
    pub toggled: Option<bool>,
    /// Zero-based position among siblings.
    pub position_in_set: Option<usize>,
    pub size_of_set: Option<usize>,
    pub orientation: Option<Orientation>,
    pub disabled: bool,
    pub busy: bool,
    /// Whether the node advertises the click action.
    pub click_action: bool,
    /// Whether the node advertises the focus action.
    pub focus_action: bool,
    /// Whether the node advertises the set-value action.
    pub set_value_action: bool,
    /// Whether activating the node opens a menu.
    pub has_popup_menu: bool,
}

impl AccessNode {
    /// A node with `role` and nothing else set.
    pub open spec fn blank(role: Role) -> AccessNode {
        AccessNode {
            role,
            label: None,
            value: None,
            description: None,
            toggled: None,
            position_in_set: None,
            size_of_set: None,
            orientation: None,
            disabled: false,
            busy: false,
            click_action: false,
            focus_action: false,
            set_value_action: false,
            has_popup_menu: false,
        }
    }

    /// A node with `role` and nothing else set.
    pub fn new(role: Role) -> (n: AccessNode)
        ensures
            n == AccessNode::blank(role),
    {
        AccessNode {
            role,
            label: None,
            value: None,
            description: None,
            toggled: None,
            position_in_set: None,
            size_of_set: None,
            orientation: None,
            disabled: false,
            busy: false,
            click_action: false,
            focus_action: false,
            set_value_action: false,
            has_popup_menu: false,
        }
    }
}

} // verus!
