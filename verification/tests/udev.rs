use mutter::udev::{
    backlight_find, backlight_find_for_connector, backlight_find_type, is_udev_device_boot_vga,
    is_udev_device_disable_modifiers, is_udev_device_ignore, is_udev_device_platform_device,
    is_udev_device_preferred_primary, is_udev_test_device, DeviceNodeType, Udev, UdevDevice,
    UdevDeviceType, UdevSignal,
};

fn drm_card(seat: Option<&str>) -> UdevDevice {
    let mut d = UdevDevice::default();
    d.name = "card0".into();
    d.subsystem = "drm".into();
    d.node_type = DeviceNodeType::Char;
    d.device_file = Some("/dev/dri/card0".into());
    d.set_property("DEVTYPE", "drm_minor");
    if let Some(s) = seat {
        d.set_property("ID_SEAT", s);
    }
    d
}

fn backlight(name: &str, kind: &str) -> UdevDevice {
    let mut d = UdevDevice::default();
    d.name = name.into();
    d.subsystem = "backlight".into();
    d.set_sysfs_attr("type", kind);
    d
}

fn connector_parent(name: &str, enabled: &str) -> Box<UdevDevice> {
    let mut p = UdevDevice::default();
    p.name = name.into();
    p.subsystem = "drm".into();
    p.set_sysfs_attr("enabled", enabled);
    Box::new(p)
}

#[test]
fn properties_and_attributes() {
    let mut d = UdevDevice::default();
    d.set_property("HOTPLUG", "1");
    d.set_property("LEASE", "yes");
    d.set_property("HOTPLUG", "0");
    d.set_sysfs_attr("boot_vga", "1");
    d.set_sysfs_attr("bad", "12a");
    d.set_sysfs_attr("neg", "-42");
    // A property set again takes the later value.
    assert_eq!(d.property("HOTPLUG"), Some("0"));
    assert!(!d.property_as_bool("HOTPLUG"));
    d.set_property("HOTPLUG", "true");
    assert!(d.property_as_bool("HOTPLUG"));
    assert_eq!(d.properties.len(), 2);
    assert!(!d.property_as_bool("LEASE"));
    assert!(!d.property_as_bool("MISSING"));
    assert_eq!(d.sysfs_attr("boot_vga"), Some("1"));
    assert_eq!(d.sysfs_attr_as_int("boot_vga"), 1);
    assert_eq!(d.sysfs_attr_as_int("bad"), 0);
    assert_eq!(d.sysfs_attr_as_int("neg"), -42);
    assert_eq!(d.sysfs_attr_as_int("absent"), 0);
}

#[test]
fn parents_and_classification() {
    let mut pci = UdevDevice::default();
    pci.set_sysfs_attr("boot_vga", "1");
    let mut d = drm_card(None);
    assert!(!is_udev_device_boot_vga(&d));
    d.set_parent("pci", pci);
    assert!(is_udev_device_boot_vga(&d));
    assert!(d.parent_with_subsystem("pci").is_some());
    assert!(!is_udev_device_platform_device(&d));
    let mut plat = UdevDevice::default();
    plat.tags.push("mutter-device-ignore".into());
    d.set_parent("platform", plat);
    assert!(is_udev_device_platform_device(&d));
    assert!(is_udev_device_ignore(&d));
    assert!(!is_udev_device_disable_modifiers(&d));
    d.tags.push("mutter-device-disable-kms-modifiers".into());
    assert!(is_udev_device_disable_modifiers(&d));
}

#[test]
fn drm_parent_boot_display() {
    let mut drm = UdevDevice::default();
    drm.set_sysfs_attr("boot_display", "1");
    let mut d = UdevDevice::default();
    d.set_parent("drm", drm);
    assert!(is_udev_device_boot_vga(&d));
}

#[test]
fn test_and_primary_devices() {
    let mut d = UdevDevice::default();
    assert!(!is_udev_test_device(&d));
    d.set_property("DEVPATH", "/devices/faux/vkms/drm/card1");
    assert!(is_udev_test_device(&d));
    let mut e = UdevDevice::default();
    e.set_property("ID_PATH", "platform-vkms");
    assert!(is_udev_test_device(&e));
    assert!(!is_udev_device_preferred_primary(&e));
    e.current_tags.push("mutter-device-preferred-primary".into());
    assert!(is_udev_device_preferred_primary(&e));
}

#[test]
fn drm_device_seat_filtering() {
    let mut udev = Udev::new();
    let card = drm_card(None);
    let other = drm_card(Some("seat1"));
    // No seat known: the session is on seat0.
    assert!(udev.is_drm_device(&card));
    assert!(udev.is_drm_device(&drm_card(Some("seat0"))));
    assert!(!udev.is_drm_device(&other));
    udev.set_seat_id(Some("seat0".into()));
    assert!(udev.is_drm_device(&card));
    assert!(!udev.is_drm_device(&other));
    udev.set_seat_id(Some("seat1".into()));
    assert!(!udev.is_drm_device(&card));
    assert!(udev.is_drm_device(&other));
    udev.set_seat_id(Some("seat0".into()));
    udev.set_headless(true);
    assert!(udev.is_drm_device(&other));
    let mut block = drm_card(None);
    block.node_type = DeviceNodeType::Block;
    assert!(!udev.is_drm_device(&block));
    let listed = udev.list_drm_devices(UdevDeviceType::Card, vec![drm_card(None), block, drm_card(Some("seat1"))]);
    assert_eq!(listed.len(), 2);
}

#[test]
fn uevents_become_signals() {
    let mut udev = Udev::default();
    let mut card = drm_card(None);
    card.set_property("HOTPLUG", "1");
    assert_eq!(udev.handle_uevent("add", &card), vec![UdevSignal::DeviceAdded, UdevSignal::Hotplug]);
    assert_eq!(udev.handle_uevent("change", &card), vec![UdevSignal::Hotplug]);
    card.set_property("LEASE", "true");
    assert_eq!(udev.handle_uevent("remove", &card), vec![UdevSignal::DeviceRemoved, UdevSignal::Hotplug, UdevSignal::Lease]);
    card.device_file = None;
    assert!(udev.handle_uevent("add", &card).is_empty());
    let bl = backlight("intel_backlight", "raw");
    assert_eq!(udev.handle_uevent("change", &bl), vec![UdevSignal::BacklightChanged]);
    assert!(udev.handle_uevent("add", &bl).is_empty());
    udev.pause();
    assert!(udev.handle_uevent("change", &bl).is_empty());
    udev.resume();
    assert_eq!(udev.handle_uevent("change", &bl).len(), 1);
}

#[test]
fn backlight_selection() {
    let mut raw = backlight("raw0", "raw");
    raw.set_parent("drm/drm_connector", *connector_parent("card0-eDP-1", "enabled"));
    let mut raw_off = backlight("raw1", "raw");
    raw_off.set_parent("drm/drm_connector", *connector_parent("card0-HDMI-A-1", "disabled"));
    let platform = backlight("plat", "platform");
    let firmware = backlight("fw", "firmware");

    let devices = vec![raw_off, raw, platform, firmware];
    assert_eq!(backlight_find_type(&devices, "platform").unwrap().name, "plat");
    assert!(backlight_find_type(&devices, "nothing").is_none());
    assert_eq!(backlight_find_for_connector(&devices, "eDP-1").unwrap().name, "raw0");
    assert!(backlight_find_for_connector(&devices, "HDMI-A-1").is_none());
    assert_eq!(backlight_find(&devices, "eDP-1", true).unwrap().name, "fw");
    assert_eq!(backlight_find(&devices, "eDP-1", false).unwrap().name, "raw0");
    assert!(backlight_find(&devices, "DP-2", false).is_none());
    assert_eq!(backlight_find(&devices[..2], "DP-2", true).unwrap().name, "raw1");
    assert!(backlight_find(&[], "eDP-1", true).is_none());
}
