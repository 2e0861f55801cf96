//! The bin layout manager, which stacks its children.
use vstd::prelude::*;

verus! {

/// The bin layout manager. It keeps no state.
#[derive(Debug, Default)]
pub struct BinLayout;

impl BinLayout {
    /// The layout manager.
    pub fn new() -> (l: Self) {
        BinLayout
    }
}

} // verus!
