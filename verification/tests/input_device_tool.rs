use mutter::input_device_tool::{InputAxisFlags, InputDeviceTool, InputDeviceToolType};

#[test]
fn default_is_none_tool() {
    let t = InputDeviceTool::default();
    assert_eq!(t.tool_type(), InputDeviceToolType::NoTool);
    assert_eq!(t.serial(), 0);
    assert_eq!(t.id(), 0);
    assert!(t.axes().is_empty());
}

#[test]
fn new_sets_fields() {
    let axes = InputAxisFlags(InputAxisFlags::x().0 | InputAxisFlags::y().0 | InputAxisFlags::pressure().0);
    let t = InputDeviceTool::new(InputDeviceToolType::Pen, 0x12345, 42, axes);
    assert_eq!(t.tool_type(), InputDeviceToolType::Pen);
    assert_eq!(t.serial(), 0x12345);
    assert_eq!(t.id(), 42);
    assert!(t.axes().contains(InputAxisFlags::pressure()));
}

#[test]
fn axes_bitfield_contains() {
    let axes = InputAxisFlags(InputAxisFlags::x().0 | InputAxisFlags::pressure().0);
    assert!(axes.contains(InputAxisFlags::x()));
    assert!(axes.contains(InputAxisFlags::pressure()));
    assert!(!axes.contains(InputAxisFlags::wheel()));
}

#[test]
fn tool_type_display() {
    assert_eq!(InputDeviceToolType::Pen.to_string(), "pen");
    assert_eq!(InputDeviceToolType::Eraser.to_string(), "eraser");
}

#[test]
fn all_tool_names_and_axis_bits() {
    assert_eq!(InputDeviceToolType::NoTool.to_string(), "none");
    assert_eq!(InputDeviceToolType::Airbrush.to_string(), "airbrush");
    assert_eq!(InputDeviceToolType::Lens.to_string(), "lens");
    assert_eq!(InputAxisFlags::slider().0, 1 << 8);
    assert!(InputAxisFlags::none().is_empty());
    assert!(InputAxisFlags::distance().contains(InputAxisFlags::none()));
}
