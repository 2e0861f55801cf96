//! The fixed layout manager, which keeps children where they are.
use vstd::prelude::*;

verus! {

/// The fixed layout manager. It keeps no state.
#[derive(Debug, Default)]
pub struct FixedLayout;

impl FixedLayout {
    /// The layout manager.
    pub fn new() -> (l: Self) {
        FixedLayout
    }
}

} // verus!
