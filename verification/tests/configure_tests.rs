use spell_framework::configure::{
    edge_exclusive_zone, layer_settings, BuildError, KeyboardInteractivity, Layer, LayerAnchor,
    WindowConf,
};

#[test]
fn anchor_bits() {
    assert_eq!(LayerAnchor::top().bits(), 1);
    assert_eq!(LayerAnchor::bottom().bits(), 2);
    assert_eq!(LayerAnchor::left().bits(), 4);
    assert_eq!(LayerAnchor::right().bits(), 8);
    assert_eq!(LayerAnchor::top().union(LayerAnchor::left()).bits(), 5);
    assert_eq!(LayerAnchor::from_bits_truncate(0xff).bits(), 15);
}

#[test]
fn anchor_union_order_and_repeat() {
    let a = LayerAnchor::top();
    let b = LayerAnchor::right();
    assert_eq!(a.union(b), b.union(a));
    assert_eq!(a.union(a), a);
}

#[test]
fn builder_builds_with_defaults() {
    let conf = WindowConf::builder().width(376u32).height(576u32).build().unwrap();
    assert_eq!(conf.width, 376);
    assert_eq!(conf.height, 576);
    assert_eq!(conf.layer_type, Layer::Top);
    assert_eq!(conf.board_interactivity, KeyboardInteractivity::NoFocus);
    assert_eq!(conf.anchor, (None, None));
    assert_eq!(conf.margin, (0, 0, 0, 0));
    assert_eq!(conf.exclusive_zone, None);
    assert_eq!(conf.monitor_name, None);
    assert!(!conf.natural_scroll);
}

#[test]
fn builder_keeps_every_part() {
    let conf = WindowConf::builder()
        .width(100u32)
        .height(50u32)
        .anchor_1(LayerAnchor::top())
        .anchor_2(LayerAnchor::left())
        .margins(5, 0, 0, 10)
        .layer_type(Layer::Overlay)
        .board_interactivity(KeyboardInteractivity::OnDemand)
        .exclusive_zone(30)
        .monitor("DP-1".to_string())
        .natural_scroll(true)
        .build()
        .unwrap();
    assert_eq!(conf.anchor, (Some(LayerAnchor::top()), Some(LayerAnchor::left())));
    assert_eq!(conf.margin, (5, 0, 0, 10));
    assert_eq!(conf.layer_type, Layer::Overlay);
    assert_eq!(conf.board_interactivity, KeyboardInteractivity::OnDemand);
    assert_eq!(conf.exclusive_zone, Some(30));
    assert_eq!(conf.monitor_name, Some("DP-1".to_string()));
    assert!(conf.natural_scroll);
}

#[test]
fn builder_without_width_fails() {
    let err = WindowConf::builder().height(10u32).build().unwrap_err();
    assert_eq!(err, BuildError::MissingWidth);
    assert_eq!(err.message(), "width is either not defined or set to zero");
}

#[test]
fn builder_without_height_fails() {
    let err = WindowConf::builder().width(10u32).build().unwrap_err();
    assert_eq!(err, BuildError::MissingHeight);
    assert_eq!(err.message(), "height is either not defined or set to zero");
}

#[test]
fn builder_zero_width_reported_first() {
    assert_eq!(WindowConf::builder().build().unwrap_err(), BuildError::MissingWidth);
}

#[test]
fn window_conf_new() {
    let conf = WindowConf::new(
        376,
        576,
        (Some(LayerAnchor::top()), None),
        (1, 2, 3, 4),
        Layer::Bottom,
        KeyboardInteractivity::Exclusive,
        Some(9),
    );
    assert_eq!(conf.width, 376);
    assert_eq!(conf.layer_type, Layer::Bottom);
    assert_eq!(conf.monitor_name, None);
    assert!(!conf.natural_scroll);
    let copy = conf.clone();
    assert_eq!(copy.exclusive_zone, Some(9));
}

#[test]
fn layer_settings_combine_anchors() {
    let conf = WindowConf::new(
        10,
        20,
        (Some(LayerAnchor::bottom()), Some(LayerAnchor::right())),
        (0, 0, 0, 0),
        Layer::Top,
        KeyboardInteractivity::NoFocus,
        Some(20),
    );
    let s = layer_settings(&conf);
    assert_eq!(s.size, (10, 20));
    assert_eq!(s.anchor.map(|a| a.bits()), Some(10));
    assert_eq!(s.exclusive_zone, Some(20));
    let none = WindowConf::new(1, 1, (None, None), (0, 0, 0, 0), Layer::Top, KeyboardInteractivity::NoFocus, None);
    assert!(layer_settings(&none).anchor.is_none());
}

#[test]
fn edge_exclusive_zone_follows_single_edge() {
    let left = (Some(LayerAnchor::left()), None);
    let top = (None, Some(LayerAnchor::top()));
    let corner = (Some(LayerAnchor::top()), Some(LayerAnchor::left()));
    assert_eq!(edge_exclusive_zone(left, true, 40, 900), Some(40));
    assert_eq!(edge_exclusive_zone(top, true, 1920, 30), Some(30));
    assert_eq!(edge_exclusive_zone(corner, true, 1, 2), None);
    assert_eq!(edge_exclusive_zone(left, false, 40, 900), None);
    assert_eq!(edge_exclusive_zone((None, None), true, 40, 900), None);
    let two = (Some(LayerAnchor::top().union(LayerAnchor::left())), None);
    assert_eq!(edge_exclusive_zone(two, true, 40, 900), None);
}
