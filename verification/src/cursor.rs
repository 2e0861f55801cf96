//! Cursor enumerations.
use vstd::prelude::*;

verus! {

/// The transform of a monitor.
#[derive(Debug, Clone, Copy, PartialEq, Eq, Structural, Default)]
pub enum MonitorTransform {
    #[default]
    Normal,
    Rotate90,
    Rotate180,
    Rotate270,
    FlipNormal,
    FlipRotate90,
    FlipRotate180,
    FlipRotate270,
}

} // verus!
