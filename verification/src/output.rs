//! The output-format selector a caller may pass when activating a
//! video device.

use vstd::prelude::*;

verus! {

/// Which pixel format the device hands back: the raw native format, or
/// a fixed RGB format the platform converts to.
#[derive(Clone, Copy, Debug, PartialEq, Eq, Structural)]
pub enum Output {
    /// Raw unprocessed data directly from the device.
    NV12,
    /// Data converted to RGB32.
    RGB32,
}

impl Default for Output {
    /// The default output format is the raw native one.
    fn default() -> (r: Output)
        ensures
            r == Output::NV12,
    {
        Output::NV12
    }
}

} // verus!
