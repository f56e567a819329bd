//! Pertinent info on a monitor, used for selection before a capture
//! session is built for it.

use vstd::prelude::*;

verus! {

/// The name, description and index of one monitor attached to the
/// system.
pub struct MonitorInfo {
    /// The device name of the adapter or monitor.
    pub name: String,
    /// The description of the display adapter or the display monitor.
    pub description: String,
    /// The monitor index, over all monitors of the system.
    pub index: u32,
}

impl MonitorInfo {
    /// Bundle a monitor's name, description and index.
    pub fn new(name: String, desc: String, index: u32) -> (r: MonitorInfo)
        ensures
            r.name@ == name@,
            r.description@ == desc@,
            r.index == index,
    {
        MonitorInfo { name, description: desc, index }
    }
}

} // verus!
