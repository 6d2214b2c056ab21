use martensite::widgets::{
    RibbonCorner, RulerOrientation, SliderOrientation, SparkStyle, SplitOrientation,
    StackAlignment,
};

#[test]
fn enum_defaults() {
    assert_eq!(RibbonCorner::default(), RibbonCorner::TopEnd);
    assert_eq!(SliderOrientation::default(), SliderOrientation::Horizontal);
    assert_eq!(SparkStyle::default(), SparkStyle::Line);
    assert_eq!(SplitOrientation::default(), SplitOrientation::Horizontal);
    assert_eq!(StackAlignment::default(), StackAlignment::TopStart);
    assert_ne!(RulerOrientation::Horizontal, RulerOrientation::Vertical);
    assert_ne!(SparkStyle::Area, SparkStyle::Bars);
}
