//! The widgets.

pub mod ribbon;
pub mod rubber_band;
pub mod ruler;
pub mod sankey;
pub mod scratch_card;
pub mod scrollview;
pub mod search_field;
pub mod segmented;
pub mod separator;
pub mod settings_row;
pub mod signal_strength;
pub mod skeleton;
pub mod slider;
pub mod social_card;
pub mod sparkline;
pub mod speed_dial;
pub mod spinbox;
pub mod split_button;
pub mod split_flap;
pub mod split_view;
pub mod stack;
pub mod stack_light;
pub mod statistic;
pub mod status_bar;
pub mod status_dot;
pub mod step_sequencer;
pub mod steps;
pub mod stopwatch;

pub use ribbon::RibbonCorner;
pub use rubber_band::{BandCommand, RubberBand};
pub use ruler::{RulerInput, RulerOrientation};
pub use sankey::{Sankey, SankeyLink};
pub use scratch_card::ScratchCard;
pub use scrollview::{ScrollInput, ScrollOutcome, ScrollZone};
pub use search_field::{FieldRoute, SearchBar, SearchField};
pub use segmented::{FlexDirection, Segment, Segmented};
pub use separator::Separator;
pub use settings_row::{RowZone, SettingsGroup, SettingsRow};
pub use signal_strength::SignalStrength;
pub use skeleton::{Skeleton, SkeletonShape};
pub use slider::{SliderCommand, SliderInput, SliderOrientation};
pub use social_card::{CardAction, SocialCard};
pub use sparkline::SparkStyle;
pub use speed_dial::SpeedDial;
pub use spinbox::{SpinCommand, SpinInput, SpinOutcome, SpinZone};
pub use split_button::{SplitButton, SplitZone};
pub use split_flap::SplitFlap;
pub use split_view::{SplitCommand, SplitInput, SplitOrientation};
pub use stack::StackAlignment;
pub use stack_light::{Lamp, StackLight};
pub use statistic::{Statistic, Trend};
pub use status_bar::StatusBar;
pub use status_dot::{Status, StatusDot};
pub use step_sequencer::StepSequencer;
pub use steps::{Step, Steps};
pub use stopwatch::Stopwatch;
