//! A virtual input device of the native backend.
use vstd::prelude::*;

verus! {

/// A virtual input device of the native backend; it holds no state.
pub struct MetaVirtualInputDeviceNative;

impl MetaVirtualInputDeviceNative {
    /// The device.
    pub fn new() -> (d: Self) {
        MetaVirtualInputDeviceNative
    }
}

impl Default for MetaVirtualInputDeviceNative {
    fn default() -> (d: Self) {
        MetaVirtualInputDeviceNative
    }
}

} // verus!
