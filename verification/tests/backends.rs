use mutter::viewport_info::Rectangle;
use mutter::virtual_monitor::MetaVirtualMonitorInfo;
use mutter::virtual_monitor_native::MetaVirtualMonitorNative;

#[test]
fn rectangle_overlaps() {
    let a = Rectangle::new(0, 0, 10, 10);
    let b = Rectangle::new(5, 20, 10, 10);
    assert!(a.horiz_overlap(&b));
    assert!(!a.vert_overlap(&b));
    let c = Rectangle::new(10, 0, 5, 5);
    assert!(!a.horiz_overlap(&c));
    assert!(a.vert_overlap(&c));
    assert!(c.vert_overlap(&a));
}

#[test]
fn virtual_monitor_identification() {
    let m = MetaVirtualMonitorNative::new(42);
    assert_eq!(m.get_id(), 42);
    assert_eq!(MetaVirtualMonitorNative::default().get_id(), 0);
    let info = MetaVirtualMonitorInfo::new(Some("ACME".into()), None, Some("1".into()));
    assert_eq!(info.vendor.as_deref(), Some("ACME"));
    assert_eq!(info.product, None);
    let inactive = MetaVirtualMonitorInfo::new_inactive(None, Some("P".into()), None);
    assert_eq!(inactive.product.as_deref(), Some("P"));
}
