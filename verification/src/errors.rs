//! The error surface a capture session reports to its callers.

use vstd::prelude::*;

verus! {

/// Everything a capture session can report to a caller: the two state
/// errors from `start`/`stop`, a construction failure when the source
/// cannot report its frame size, a fatal platform failure carrying the
/// platform's status code, and a failed channel send (consumer gone).
#[derive(Clone, Copy, Debug, PartialEq, Eq, Structural)]
pub enum CaptureError {
    /// `start` was called while the session was already capturing.
    AlreadyCapturing,
    /// `stop` was called while the session was already idle.
    AlreadyStopped,
    /// The source could not report its frame dimensions.
    DimensionsUnavailable,
    /// Acquiring or querying a frame failed fatally; carries the
    /// platform status code (or the offending region count when a
    /// metadata query reports more regions than the buffer holds).
    AcquisitionFailed(u32),
    /// The frame channel's receiving side is gone.
    SendFailed,
}

} // verus!
