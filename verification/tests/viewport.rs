use mutter::viewport_info::{DisplayDirection, MetaViewportInfo, Rectangle};

fn two_side_by_side() -> MetaViewportInfo {
    let views = [Rectangle::new(0, 0, 1920, 1080), Rectangle::new(1920, 0, 1280, 1024)];
    MetaViewportInfo::new(&views, false)
}

#[test]
fn neighbors_left_and_right() {
    let info = two_side_by_side();
    assert_eq!(info.get_num_views(), 2);
    assert_eq!(info.get_neighbor(0, DisplayDirection::Right), Some(1));
    assert_eq!(info.get_neighbor(1, DisplayDirection::Left), Some(0));
    assert_eq!(info.get_neighbor(0, DisplayDirection::Left), None);
    assert_eq!(info.get_neighbor(0, DisplayDirection::Up), None);
    assert_eq!(info.get_neighbor(0, DisplayDirection::Down), None);
    assert_eq!(info.get_neighbor(5, DisplayDirection::Right), None);
}

#[test]
fn neighbors_above_and_below() {
    let views = [
        Rectangle::new(0, 0, 800, 600),
        Rectangle::new(0, 600, 800, 600),
        Rectangle::new(800, 600, 800, 600),
    ];
    let info = MetaViewportInfo::new(&views, true);
    assert!(info.is_views_scaled());
    assert_eq!(info.get_neighbor(0, DisplayDirection::Down), Some(1));
    assert_eq!(info.get_neighbor(1, DisplayDirection::Up), Some(0));
    assert_eq!(info.get_neighbor(2, DisplayDirection::Up), None);
    assert_eq!(info.get_neighbor(1, DisplayDirection::Right), Some(2));
}

#[test]
fn touching_corners_are_not_neighbors() {
    let views = [Rectangle::new(0, 0, 100, 100), Rectangle::new(100, 100, 100, 100)];
    let info = MetaViewportInfo::new(&views, false);
    assert_eq!(info.get_neighbor(0, DisplayDirection::Right), None);
    assert_eq!(info.get_neighbor(0, DisplayDirection::Down), None);
}

#[test]
fn extents_span_all_views() {
    let info = two_side_by_side();
    assert_eq!(info.get_extents(), (3200, 1080));
    let views = [Rectangle::new(-100, 50, 200, 100), Rectangle::new(300, -20, 10, 10)];
    let info = MetaViewportInfo::new(&views, false);
    assert_eq!(info.get_extents(), (410, 170));
}

#[test]
fn view_info_by_index() {
    let info = two_side_by_side();
    assert_eq!(info.get_view_info(1), Some(Rectangle::new(1920, 0, 1280, 1024)));
    assert_eq!(info.get_view_info(2), None);
}
