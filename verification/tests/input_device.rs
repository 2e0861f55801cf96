use mutter::input_device::{InputCapabilities, InputDevice, InputDeviceType};

#[test]
fn default_is_pointer_no_caps() {
    let d = InputDevice::default();
    assert_eq!(d.device_type(), InputDeviceType::Pointer);
    assert!(d.capabilities().is_empty());
}

#[test]
fn new_infers_capabilities_when_empty() {
    let d = InputDevice::new(
        InputDeviceType::Touchpad,
        InputCapabilities::none(),
        None,
        0,
        0,
        0,
        None,
        0,
        0,
        0,
        0,
        0,
    );
    assert!(d.capabilities().contains(InputCapabilities::pointer()));
    assert!(d.capabilities().contains(InputCapabilities::touchpad()));
}

#[test]
fn new_keeps_explicit_capabilities() {
    let d = InputDevice::new(
        InputDeviceType::Pointer,
        InputCapabilities::keyboard(),
        None,
        0,
        0,
        0,
        None,
        0,
        0,
        0,
        0,
        0,
    );
    assert_eq!(d.capabilities(), InputCapabilities::keyboard());
}

#[test]
fn infer_capabilities_matches_constructed_switch() {
    assert_eq!(
        InputDevice::infer_capabilities(InputDeviceType::Pointer),
        InputCapabilities::pointer()
    );
    assert_eq!(
        InputDevice::infer_capabilities(InputDeviceType::Keyboard),
        InputCapabilities::keyboard()
    );
    assert_eq!(
        InputDevice::infer_capabilities(InputDeviceType::Touchscreen),
        InputCapabilities::touch()
    );
    assert_eq!(
        InputDevice::infer_capabilities(InputDeviceType::Pad),
        InputCapabilities::tablet_pad()
    );
    let tab = InputDevice::infer_capabilities(InputDeviceType::Tablet);
    assert_eq!(tab, InputCapabilities::tablet_tool());
    let tp = InputDevice::infer_capabilities(InputDeviceType::Touchpad);
    assert!(tp.contains(InputCapabilities::pointer()));
    assert!(tp.contains(InputCapabilities::touchpad()));
}

#[test]
fn debug_name_falls_back_to_type() {
    let d = InputDevice::default();
    assert_eq!(d.debug_name(), "pointer");
    let mut d = d;
    d.device_name = Some("Logitech MX".into());
    assert_eq!(d.debug_name(), "Logitech MX");
}

#[test]
fn accessors_return_fields() {
    let d = InputDevice::new(
        InputDeviceType::Pad,
        InputCapabilities::none(),
        Some("Pad".into()),
        0x56a,
        0x300,
        3,
        Some("/dev/input/event5".into()),
        1,
        2,
        3,
        4,
        9,
    );
    assert_eq!(d.device_name(), Some("Pad"));
    assert_eq!(d.vendor_id(), 0x56a);
    assert_eq!(d.product_id(), 0x300);
    assert_eq!(d.bus_type(), 3);
    assert_eq!(d.node_path(), Some("/dev/input/event5"));
    assert_eq!(d.n_rings(), 1);
    assert_eq!(d.n_strips(), 2);
    assert_eq!(d.n_dials(), 3);
    assert_eq!(d.n_mode_groups(), 4);
    assert_eq!(d.n_buttons(), 9);
    assert_eq!(d.capabilities(), InputCapabilities::tablet_pad());
}

#[test]
fn types_without_capabilities_and_names() {
    assert!(InputDevice::infer_capabilities(InputDeviceType::Joystick).is_empty());
    assert!(InputDevice::infer_capabilities(InputDeviceType::Extension).is_empty());
    assert!(InputDevice::infer_capabilities(InputDeviceType::NDeviceTypes).is_empty());
    assert_eq!(InputDevice::infer_capabilities(InputDeviceType::Eraser), InputCapabilities::tablet_tool());
    let mut d = InputDevice::default();
    d.device_type = InputDeviceType::NDeviceTypes;
    assert_eq!(d.debug_name(), "unknown");
    d.device_type = InputDeviceType::Touchscreen;
    assert_eq!(d.debug_name(), "touchscreen");
}
