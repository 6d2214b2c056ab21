use martensite::access::Role;
use martensite::widgets::segmented::FlexDirection;
use martensite::widgets::separator::Separator;

#[test]
fn separator_directions() {
    let sep = Separator::horizontal();
    assert_eq!(sep.direction, FlexDirection::Row);
    assert_eq!(Separator::vertical().direction, FlexDirection::Column);
    assert_eq!(sep.accessibility().role, Role::GenericContainer);
    assert_eq!(sep.accessibility().label, None);
}
