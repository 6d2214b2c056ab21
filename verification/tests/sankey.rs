use martensite::event::EventResponse;
use martensite::widgets::sankey::{dim, Sankey};

#[test]
fn builds_and_layers() {
    let mut s = Sankey::<f32>::new()
        .node("src")
        .node("mid")
        .node("sink")
        .link("src", "mid", 3.0, 3.0 > 0.0)
        .link("mid", "sink", 3.0, 3.0 > 0.0);
    s.layer_columns();
    assert_eq!(s.column_of(0), 0);
    assert_eq!(s.column_of(1), 1);
    assert_eq!(s.column_of(2), 2);
}

#[test]
fn unknown_endpoints_ignored() {
    let s = Sankey::<f32>::new().node("a").link("a", "ghost", 1.0, 1.0 > 0.0).link("a", "a", 1.0, 1.0 > 0.0);
    assert_eq!(s.link_count(), 0);
}

#[test]
fn hover_ribbon_parks_index() {
    let mut s = Sankey::<f32>::new().node("a").node("b").link("a", "b", 4.0, 4.0 > 0.0);
    s.layer_columns();
    assert_eq!(s.pointer_moved(Some(0)), EventResponse::RequestRepaint);
    assert_eq!(s.take_hovered(), Some(0));
}

#[test]
fn smoke() {
    let mut s = Sankey::<f32>::new()
        .node("gen")
        .node("grid")
        .node("use")
        .link("gen", "grid", 8.0, 8.0 > 0.0)
        .link("grid", "use", 6.0, 6.0 > 0.0)
        .label("Power");
    s.layer_columns();
    assert_eq!(s.node_count(), 3);
    assert_eq!(s.link_count(), 2);
}

#[test]
fn sankey_doc_example_counts_and_weights() {
    let s = Sankey::<f32>::new().node("in").node("out").link("in", "out", 4.0, 4.0 > 0.0);
    assert_eq!(s.node_count(), 2);
    assert_eq!(s.link_at(0).unwrap().1, 4.0);
    assert_eq!(Sankey::<f32>::new().node("x").node_name(0), "x");
    assert_eq!(Sankey::<f32>::new().node_name(3), "");
    assert_eq!(Sankey::<f32>::new().label("Energy").label, "Energy");
}

#[test]
fn sankey_pinned_column_wins() {
    let s = Sankey::<f32>::new().node_at("a", Some(2));
    assert_eq!(s.column_of(0), 2);
    let mut s = Sankey::<f32>::new()
        .node("a")
        .node_at("b", Some(5))
        .node("c")
        .link("a", "b", 1.0, 1.0 > 0.0)
        .link("b", "c", 1.0, 1.0 > 0.0);
    s.layer_columns();
    assert_eq!(s.column_of(1), 5);
    // `c` sits right of its pinned source at once.
    assert_eq!(s.column_of(2), 6);
    s.layer_columns();
    assert_eq!(s.column_of(2), 6);
    let mut s = Sankey::<f32>::new().node_at("a", Some(2)).node("b").link("a", "b", 1.0, 1.0 > 0.0);
    s.layer_columns();
    assert_eq!((s.column_of(0), s.column_of(1)), (2, 3));
    s.layer_columns();
    assert_eq!((s.column_of(0), s.column_of(1)), (2, 3));
}

#[test]
fn sankey_cycles_stay_at_column_zero() {
    let mut s = Sankey::<f32>::new()
        .node("a")
        .node("b")
        .node("c")
        .link("a", "b", 1.0, 1.0 > 0.0)
        .link("b", "a", 1.0, 1.0 > 0.0)
        .link("b", "c", 1.0, 1.0 > 0.0);
    s.layer_columns();
    assert_eq!((s.column_of(0), s.column_of(1)), (0, 0));
    // Fed from the cycle, `c` never settles either.
    assert_eq!(s.column_of(2), 0);
    s.layer_columns();
    assert_eq!((s.column_of(0), s.column_of(1), s.column_of(2)), (0, 0, 0));
}

#[test]
fn sankey_longest_path_layering() {
    // a -> b -> d and a -> d: d sits after the longest chain.
    let mut s = Sankey::<f32>::new()
        .node("a")
        .node("b")
        .node("c")
        .node("d")
        .link("a", "d", 1.0, 1.0 > 0.0)
        .link("b", "d", 1.0, 1.0 > 0.0)
        .link("a", "b", 1.0, 1.0 > 0.0)
        .link("c", "b", 1.0, 1.0 > 0.0);
    s.layer_columns();
    assert_eq!(s.column_of(0), 0);
    assert_eq!(s.column_of(1), 1);
    assert_eq!(s.column_of(2), 0);
    assert_eq!(s.column_of(3), 2);
    // Layering again changes nothing.
    s.layer_columns();
    assert_eq!(s.column_of(3), 2);
}

#[test]
fn sankey_zero_weight_and_links() {
    let s = Sankey::<f32>::new().node("a").node("b").link("a", "b", 0.0, 0.0 > 0.0);
    assert_eq!(s.link_count(), 0);
    let s = s.link("b", "a", 7.0, 7.0 > 0.0);
    let (l, w) = s.link_at(0).unwrap();
    assert_eq!((l.from, l.to, w), (1, 0, 7.0));
    assert!(s.link_at(1).is_none());
    // Fractional weights are kept as given.
    let s = s.link("a", "b", 0.5, 0.5 > 0.0);
    assert_eq!(s.link_at(1).unwrap().1, 0.5);
}

#[test]
fn sankey_duplicate_names_use_first() {
    let s = Sankey::<f32>::new().node("a").node("a").node("b").link("a", "b", 2.0, 2.0 > 0.0);
    let (l, _) = s.link_at(0).unwrap();
    assert_eq!(l.from, 0);
}

#[test]
fn sankey_hover_and_leave() {
    let mut s = Sankey::<f32>::new().node("a").node("b").link("a", "b", 4.0, 4.0 > 0.0);
    assert_eq!(s.pointer_moved(None), EventResponse::Ignored);
    assert_eq!(s.take_hovered(), None);
    assert_eq!(s.pointer_moved(Some(0)), EventResponse::RequestRepaint);
    assert_eq!(s.pointer_moved(Some(0)), EventResponse::Ignored);
    assert_eq!(s.pointer_leave(), EventResponse::RequestRepaint);
    assert_eq!(s.pointer_leave(), EventResponse::Ignored);
    assert_eq!(s.take_hovered(), Some(0));
    assert_eq!(s.take_hovered(), None);
}

#[test]
fn sankey_accessibility_label() {
    let s = Sankey::<f32>::new().node("a").node("b").link("a", "b", 1.0, 1.0 > 0.0).label("Power");
    let n = s.accessibility();
    assert_eq!(n.label.as_deref(), Some("Power — 2 nodes, 1 links"));
    assert!(!Sankey::<f32>::default().accessibility().disabled);
}

#[test]
fn sankey_dim_replaces_alpha() {
    assert_eq!(dim([110, 170, 230, 255], 200), [110, 170, 230, 200]);
}
