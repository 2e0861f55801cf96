//! Tablet tools: pens, erasers and the like, with the axes they report.
use vstd::prelude::*;

verus! {

/// The kind of a tablet tool. `NoTool` stands for the absence of a tool.
#[derive(Debug, Clone, Copy, PartialEq, Eq, Structural, Hash, Default)]
pub enum InputDeviceToolType {
    #[default]
    NoTool,
    Pen,
    Eraser,
    Brush,
    Pencil,
    Airbrush,
    Finger,
    Lens,
}

/// The printed name of a tool type.
pub open spec fn spec_tool_type_name(t: InputDeviceToolType) -> Seq<char> {
    match t {
        InputDeviceToolType::NoTool => "none"@,
        InputDeviceToolType::Pen => "pen"@,
        InputDeviceToolType::Eraser => "eraser"@,
        InputDeviceToolType::Brush => "brush"@,
        InputDeviceToolType::Pencil => "pencil"@,
        InputDeviceToolType::Airbrush => "airbrush"@,
        InputDeviceToolType::Finger => "finger"@,
        InputDeviceToolType::Lens => "lens"@,
    }
}

impl InputDeviceToolType {
    /// The printed name of the tool type: "none", "pen", "eraser", ...
    pub fn to_string(&self) -> (r: String)
        ensures
            r@ == spec_tool_type_name(*self),
    {
        match self {
            InputDeviceToolType::NoTool => String::from_str("none"),
            InputDeviceToolType::Pen => String::from_str("pen"),
            InputDeviceToolType::Eraser => String::from_str("eraser"),
            InputDeviceToolType::Brush => String::from_str("brush"),
            InputDeviceToolType::Pencil => String::from_str("pencil"),
            InputDeviceToolType::Airbrush => String::from_str("airbrush"),
            InputDeviceToolType::Finger => String::from_str("finger"),
            InputDeviceToolType::Lens => String::from_str("lens"),
        }
    }
}

/// The axes that a tablet tool reports, as a bit set.
#[derive(Debug, Clone, Copy, PartialEq, Eq, Structural, Hash, Default)]
pub struct InputAxisFlags(pub u32);

impl InputAxisFlags {
    /// No axis.
    pub fn none() -> (r: Self)
        ensures
            r.0 == 0,
    {
        InputAxisFlags(0)
    }

    /// The X position.
    pub fn x() -> (r: Self)
        ensures
            r.0 == 1,
    {
        InputAxisFlags(1)
    }

    /// The Y position.
    pub fn y() -> (r: Self)
        ensures
            r.0 == 2,
    {
        InputAxisFlags(2)
    }

    /// Pressure.
    pub fn pressure() -> (r: Self)
        ensures
            r.0 == 4,
    {
        InputAxisFlags(4)
    }

    /// Tilt along X.
    pub fn xtilt() -> (r: Self)
        ensures
            r.0 == 8,
    {
        InputAxisFlags(8)
    }

    /// Tilt along Y.
    pub fn ytilt() -> (r: Self)
        ensures
            r.0 == 16,
    {
        InputAxisFlags(16)
    }

    /// The wheel.
    pub fn wheel() -> (r: Self)
        ensures
            r.0 == 32,
    {
        InputAxisFlags(32)
    }

    /// Distance from the surface.
    pub fn distance() -> (r: Self)
        ensures
            r.0 == 64,
    {
        InputAxisFlags(64)
    }

    /// Rotation.
    pub fn rotation() -> (r: Self)
        ensures
            r.0 == 128,
    {
        InputAxisFlags(128)
    }

    /// The slider.
    pub fn slider() -> (r: Self)
        ensures
            r.0 == 256,
    {
        InputAxisFlags(256)
    }

    /// Whether every bit of `other` is set in `self`.
    pub fn contains(self, other: Self) -> (r: bool)
        ensures
            r == (self.0 & other.0 == other.0),
    {
        (self.0 & other.0) == other.0
    }

    /// Whether no bit is set.
    pub fn is_empty(self) -> (r: bool)
        ensures
            r == (self.0 == 0),
    {
        self.0 == 0
    }

}

/// A tablet tool: its type, serial number, id and reported axes.
#[derive(Debug, Clone)]
pub struct InputDeviceTool {
    pub tool_type: InputDeviceToolType,
    pub serial: u64,
    pub id: u64,
    pub axes: InputAxisFlags,
}

impl Default for InputDeviceTool {
    /// No tool, serial 0, id 0, no axes.
    fn default() -> (t: Self)
        ensures
            t.tool_type == InputDeviceToolType::NoTool,
            t.serial == 0,
            t.id == 0,
            t.axes.0 == 0,
    {
        InputDeviceTool { tool_type: InputDeviceToolType::NoTool, serial: 0, id: 0, axes: InputAxisFlags(0) }
    }
}

impl InputDeviceTool {
    /// A tool with the given fields.
    pub fn new(tool_type: InputDeviceToolType, serial: u64, id: u64, axes: InputAxisFlags) -> (t: Self)
        ensures
            t.tool_type == tool_type,
            t.serial == serial,
            t.id == id,
            t.axes == axes,
    {
        InputDeviceTool { tool_type, serial, id, axes }
    }

    /// The serial.
    pub fn serial(&self) -> (r: u64)
        ensures
            r == self.serial,
    {
        self.serial
    }

    /// The tool type.
    pub fn tool_type(&self) -> (r: InputDeviceToolType)
        ensures
            r == self.tool_type,
    {
        self.tool_type
    }

    /// The id.
    pub fn id(&self) -> (r: u64)
        ensures
            r == self.id,
    {
        self.id
    }

    /// The axes.
    pub fn axes(&self) -> (r: InputAxisFlags)
        ensures
            r == self.axes,
    {
        self.axes
    }
}

} // verus!
