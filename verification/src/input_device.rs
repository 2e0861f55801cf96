//! Input devices: their type, capabilities and identification.
use vstd::prelude::*;

verus! {

/// The kind of an input device. `NDeviceTypes` counts the kinds.
#[derive(Debug, Clone, Copy, PartialEq, Eq, Structural, Hash, Default)]
pub enum InputDeviceType {
    #[default]
    Pointer,
    Keyboard,
    Extension,
    Joystick,
    Tablet,
    Touchpad,
    Touchscreen,
    Pen,
    Eraser,
    Cursor,
    Pad,
    NDeviceTypes,
}

/// The capabilities of an input device, as a bit set.
#[derive(Debug, Clone, Copy, PartialEq, Eq, Structural, Hash, Default)]
pub struct InputCapabilities(pub u32);

impl InputCapabilities {
    /// No capability.
    pub fn none() -> (r: Self)
        ensures
            r.0 == 0,
    {
        InputCapabilities(0)
    }

    /// Moves a pointer.
    pub fn pointer() -> (r: Self)
        ensures
            r.0 == 1,
    {
        InputCapabilities(1)
    }

    /// Produces key events.
    pub fn keyboard() -> (r: Self)
        ensures
            r.0 == 2,
    {
        InputCapabilities(2)
    }

    /// Is a touchpad.
    pub fn touchpad() -> (r: Self)
        ensures
            r.0 == 4,
    {
        InputCapabilities(4)
    }

    /// Is a touchscreen.
    pub fn touch() -> (r: Self)
        ensures
            r.0 == 8,
    {
        InputCapabilities(8)
    }

    /// Is a tablet tool.
    pub fn tablet_tool() -> (r: Self)
        ensures
            r.0 == 16,
    {
        InputCapabilities(16)
    }

    /// Is a tablet pad.
    pub fn tablet_pad() -> (r: Self)
        ensures
            r.0 == 32,
    {
        InputCapabilities(32)
    }

    /// Whether every bit of `other` is set in `self`.
    pub fn contains(self, other: Self) -> (r: bool)
        ensures
            r == (self.0 & other.0 == other.0),
    {
        (self.0 & other.0) == other.0
    }

    /// Whether no bit is set.
    pub fn is_empty(self) -> (r: bool)
        ensures
            r == (self.0 == 0),
    {
        self.0 == 0
    }

}

/// The capabilities that a device of type `t` has when none are given.
pub open spec fn spec_infer_capabilities(t: InputDeviceType) -> u32 {
    match t {
        InputDeviceType::Pointer => 1,
        InputDeviceType::Keyboard => 2,
        InputDeviceType::Touchpad => 5,
        InputDeviceType::Touchscreen => 8,
        InputDeviceType::Tablet | InputDeviceType::Pen | InputDeviceType::Eraser
        | InputDeviceType::Cursor => 16,
        InputDeviceType::Pad => 32,
        InputDeviceType::Extension | InputDeviceType::Joystick | InputDeviceType::NDeviceTypes => 0,
    }
}

/// The name by which a device without a name of its own is known.
pub open spec fn spec_type_name(t: InputDeviceType) -> Seq<char> {
    match t {
        InputDeviceType::Pointer => "pointer"@,
        InputDeviceType::Keyboard => "keyboard"@,
        InputDeviceType::Extension => "extension"@,
        InputDeviceType::Joystick => "joystick"@,
        InputDeviceType::Tablet => "tablet"@,
        InputDeviceType::Touchpad => "touchpad"@,
        InputDeviceType::Touchscreen => "touchscreen"@,
        InputDeviceType::Pen => "pen"@,
        InputDeviceType::Eraser => "eraser"@,
        InputDeviceType::Cursor => "cursor"@,
        InputDeviceType::Pad => "pad"@,
        InputDeviceType::NDeviceTypes => "unknown"@,
    }
}

/// An input device.
#[derive(Debug, Clone)]
pub struct InputDevice {
    pub device_type: InputDeviceType,
    pub capabilities: InputCapabilities,
    pub device_name: Option<String>,
    pub vendor_id: u32,
    pub product_id: u32,
    pub bus_type: u32,
    pub node_path: Option<String>,
    pub n_rings: i32,
    pub n_strips: i32,
    pub n_dials: i32,
    pub n_mode_groups: i32,
    pub n_buttons: i32,
}

impl Default for InputDevice {
    /// A pointer with no capabilities, no name and no controls.
    fn default() -> (d: Self)
        ensures
            d.device_type == InputDeviceType::Pointer,
            d.capabilities.0 == 0,
            d.device_name is None,
            d.vendor_id == 0,
            d.product_id == 0,
            d.bus_type == 0,
            d.node_path is None,
            d.n_rings == 0,
            d.n_strips == 0,
            d.n_dials == 0,
            d.n_mode_groups == 0,
            d.n_buttons == 0,
    {
        InputDevice {
            device_type: InputDeviceType::Pointer,
            capabilities: InputCapabilities(0),
            device_name: None,
            vendor_id: 0,
            product_id: 0,
            bus_type: 0,
            node_path: None,
            n_rings: 0,
            n_strips: 0,
            n_dials: 0,
            n_mode_groups: 0,
            n_buttons: 0,
        }
    }
}

impl InputDevice {
    /// A device with the given fields; empty `capabilities` are replaced by
    /// those inferred from the device type.
    pub fn new(
        device_type: InputDeviceType,
        capabilities: InputCapabilities,
        device_name: Option<String>,
        vendor_id: u32,
        product_id: u32,
        bus_type: u32,
        node_path: Option<String>,
        n_rings: i32,
        n_strips: i32,
        n_dials: i32,
        n_mode_groups: i32,
        n_buttons: i32,
    ) -> (d: Self)
        ensures
            d.device_type == device_type,
            d.capabilities.0 == if capabilities.0 == 0 {
                spec_infer_capabilities(device_type)
            } else {
                capabilities.0
            },
            d.device_name == device_name,
            d.vendor_id == vendor_id,
            d.product_id == product_id,
            d.bus_type == bus_type,
            d.node_path == node_path,
            d.n_rings == n_rings,
            d.n_strips == n_strips,
            d.n_dials == n_dials,
            d.n_mode_groups == n_mode_groups,
            d.n_buttons == n_buttons,
    {
        let capabilities = if capabilities.is_empty() {
            Self::infer_capabilities(device_type)
        } else {
            capabilities
        };
        InputDevice {
            device_type,
            capabilities,
            device_name,
            vendor_id,
            product_id,
            bus_type,
            node_path,
            n_rings,
            n_strips,
            n_dials,
            n_mode_groups,
            n_buttons,
        }
    }

    /// The capabilities that a device of the given type has by nature.
    pub fn infer_capabilities(device_type: InputDeviceType) -> (c: InputCapabilities)
        ensures
            c.0 == spec_infer_capabilities(device_type),
    {
        match device_type {
            InputDeviceType::Pointer => InputCapabilities::pointer(),
            InputDeviceType::Keyboard => InputCapabilities::keyboard(),
            InputDeviceType::Touchpad => {
                let c = InputCapabilities(InputCapabilities::pointer().0 | InputCapabilities::touchpad().0);
                assert(1u32 | 4u32 == 5u32) by (bit_vector);
                c
            },
            InputDeviceType::Touchscreen => InputCapabilities::touch(),
            InputDeviceType::Tablet
            | InputDeviceType::Pen
            | InputDeviceType::Eraser
            | InputDeviceType::Cursor => InputCapabilities::tablet_tool(),
            InputDeviceType::Pad => InputCapabilities::tablet_pad(),
            InputDeviceType::Extension | InputDeviceType::Joystick => InputCapabilities::none(),
            InputDeviceType::NDeviceTypes => InputCapabilities::none(),
        }
    }

    /// The device type.
    pub fn device_type(&self) -> (r: InputDeviceType)
        ensures
            r == self.device_type,
    {
        self.device_type
    }

    /// The capabilities.
    pub fn capabilities(&self) -> (r: InputCapabilities)
        ensures
            r == self.capabilities,
    {
        self.capabilities
    }

    /// The device name.
    pub fn device_name(&self) -> (r: Option<&str>)
        ensures
            self.device_name is None ==> r is None,
            self.device_name matches Some(n) ==> r is Some && r.unwrap()@ == n@,
    {
        match &self.device_name {
            Some(n) => Some(n.as_str()),
            None => None,
        }
    }

    /// The vendor id.
    pub fn vendor_id(&self) -> (r: u32)
        ensures
            r == self.vendor_id,
    {
        self.vendor_id
    }

    /// The product id.
    pub fn product_id(&self) -> (r: u32)
        ensures
            r == self.product_id,
    {
        self.product_id
    }

    /// The bus type.
    pub fn bus_type(&self) -> (r: u32)
        ensures
            r == self.bus_type,
    {
        self.bus_type
    }

    /// The node path.
    pub fn node_path(&self) -> (r: Option<&str>)
        ensures
            self.node_path is None ==> r is None,
            self.node_path matches Some(n) ==> r is Some && r.unwrap()@ == n@,
    {
        match &self.node_path {
            Some(n) => Some(n.as_str()),
            None => None,
        }
    }

    /// The number of rings.
    pub fn n_rings(&self) -> (r: i32)
        ensures
            r == self.n_rings,
    {
        self.n_rings
    }

    /// The number of strips.
    pub fn n_strips(&self) -> (r: i32)
        ensures
            r == self.n_strips,
    {
        self.n_strips
    }

    /// The number of dials.
    pub fn n_dials(&self) -> (r: i32)
        ensures
            r == self.n_dials,
    {
        self.n_dials
    }

    /// The number of mode groups.
    pub fn n_mode_groups(&self) -> (r: i32)
        ensures
            r == self.n_mode_groups,
    {
        self.n_mode_groups
    }

    /// The number of buttons.
    pub fn n_buttons(&self) -> (r: i32)
        ensures
            r == self.n_buttons,
    {
        self.n_buttons
    }

    /// The device's name, or else the name of its type.
    pub fn debug_name(&self) -> (r: String)
        ensures
            self.device_name matches Some(n) ==> r@ == n@,
            self.device_name is None ==> r@ == spec_type_name(self.device_type),
    {
        match &self.device_name {
            Some(n) => n.clone(),
            None => match self.device_type {
            InputDeviceType::Pointer => String::from_str("pointer"),
            InputDeviceType::Keyboard => String::from_str("keyboard"),
            InputDeviceType::Extension => String::from_str("extension"),
            InputDeviceType::Joystick => String::from_str("joystick"),
            InputDeviceType::Tablet => String::from_str("tablet"),
            InputDeviceType::Touchpad => String::from_str("touchpad"),
            InputDeviceType::Touchscreen => String::from_str("touchscreen"),
            InputDeviceType::Pen => String::from_str("pen"),
            InputDeviceType::Eraser => String::from_str("eraser"),
            InputDeviceType::Cursor => String::from_str("cursor"),
            InputDeviceType::Pad => String::from_str("pad"),
            InputDeviceType::NDeviceTypes => String::from_str("unknown"),
            },
        }
    }
}

/// A device given explicit capabilities keeps them; a device given none
/// has the ones of its type, and a touchpad is also a pointer.
pub proof fn law_capabilities_inferred_only_when_empty(t: InputDeviceType, given: u32)
    ensures
        given != 0 ==> (if given == 0 { spec_infer_capabilities(t) } else { given }) == given,
        t == InputDeviceType::Touchpad ==> (spec_infer_capabilities(t) & 1u32 == 1u32
            && spec_infer_capabilities(t) & 4u32 == 4u32),
{
    assert(5u32 & 1u32 == 1u32 && 5u32 & 4u32 == 4u32) by (bit_vector);
}

/// Every tablet tool (a tablet, a pen, an eraser or a puck cursor) is
/// inferred to have exactly the tablet-tool capability, and no device of
/// another type has it.
pub proof fn law_tablet_tools_infer_tablet_tool(t: InputDeviceType)
    ensures
        (t == InputDeviceType::Tablet || t == InputDeviceType::Pen || t == InputDeviceType::Eraser || t
            == InputDeviceType::Cursor) ==> spec_infer_capabilities(t) == 16,
        spec_infer_capabilities(t) == 16 ==> (t == InputDeviceType::Tablet || t == InputDeviceType::Pen || t
            == InputDeviceType::Eraser || t == InputDeviceType::Cursor),
        spec_infer_capabilities(InputDeviceType::Pen) == spec_infer_capabilities(InputDeviceType::Tablet),
        spec_infer_capabilities(InputDeviceType::Eraser) == spec_infer_capabilities(InputDeviceType::Tablet),
        spec_infer_capabilities(InputDeviceType::Cursor) == spec_infer_capabilities(InputDeviceType::Tablet),
{
}

/// The capabilities inferred for each kind of device: a pointer points, a
/// keyboard types, a touchpad points and is a touchpad, a touchscreen
/// takes touches, a pad is a tablet pad, and an extension device or a
/// joystick has none of these.
pub proof fn law_inferred_capabilities_by_kind()
    ensures
        spec_infer_capabilities(InputDeviceType::Pointer) == 1,
        spec_infer_capabilities(InputDeviceType::Keyboard) == 2,
        spec_infer_capabilities(InputDeviceType::Touchpad) == (1u32 | 4u32),
        spec_infer_capabilities(InputDeviceType::Touchscreen) == 8,
        spec_infer_capabilities(InputDeviceType::Pad) == 32,
        spec_infer_capabilities(InputDeviceType::Extension) == 0,
        spec_infer_capabilities(InputDeviceType::Joystick) == 0,
{
    assert(1u32 | 4u32 == 5u32) by (bit_vector);
}

} // verus!
