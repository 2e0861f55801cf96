//! A virtual monitor of the native backend.
use vstd::prelude::*;

verus! {

/// A virtual monitor of the native backend, known by its id.
pub struct MetaVirtualMonitorNative {
    id: u64,
}

impl MetaVirtualMonitorNative {
    /// The monitor's id.
    pub closed spec fn spec_id(&self) -> u64 {
        self.id
    }

    /// The monitor with id `id`.
    pub fn new(id: u64) -> (m: Self)
        ensures
            m.spec_id() == id,
    {
        MetaVirtualMonitorNative { id }
    }

    /// The monitor's id.
    pub fn get_id(&self) -> (r: u64)
        ensures
            r == self.spec_id(),
    {
        self.id
    }
}

impl Default for MetaVirtualMonitorNative {
    /// The monitor with id 0.
    fn default() -> (m: Self)
        ensures
            m.spec_id() == 0,
    {
        MetaVirtualMonitorNative { id: 0 }
    }
}

} // verus!
