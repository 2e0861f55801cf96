//! Virtual monitors and their identification.
use vstd::prelude::*;

verus! {

/// The identification of a virtual monitor: vendor, product and serial.
#[derive(Debug, Clone)]
pub struct MetaVirtualMonitorInfo {
    pub vendor: Option<String>,
    pub product: Option<String>,
    pub serial: Option<String>,
}

impl MetaVirtualMonitorInfo {
    /// A virtual monitor with the given identification.
    pub fn new(vendor: Option<String>, product: Option<String>, serial: Option<String>) -> (m: Self)
        ensures
            m.vendor == vendor,
            m.product == product,
            m.serial == serial,
    {
        MetaVirtualMonitorInfo { vendor, product, serial }
    }

    /// A virtual monitor without modes, with the given identification.
    pub fn new_inactive(
        vendor: Option<String>,
        product: Option<String>,
        serial: Option<String>,
    ) -> (m: Self)
        ensures
            m.vendor == vendor,
            m.product == product,
            m.serial == serial,
    {
        MetaVirtualMonitorInfo { vendor, product, serial }
    }
}

impl Default for MetaVirtualMonitorInfo {
    /// No vendor, product or serial.
    fn default() -> (m: Self)
        ensures
            m.vendor is None,
            m.product is None,
            m.serial is None,
    {
        MetaVirtualMonitorInfo { vendor: None, product: None, serial: None }
    }
}

/// A virtual monitor.
pub struct MetaVirtualMonitor;

impl MetaVirtualMonitor {
    /// A virtual monitor.
    pub fn new() -> (m: Self) {
        MetaVirtualMonitor
    }
}

impl Default for MetaVirtualMonitor {
    fn default() -> (m: Self) {
        MetaVirtualMonitor
    }
}

} // verus!
