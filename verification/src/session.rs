//! The uniform capability contract both capture engines implement,
//! and the shared vocabulary of the per-iteration loop driver.

use vstd::prelude::*;

use crate::channel::Frame;
use crate::device_size::DeviceSize;
use crate::errors::CaptureError;
use crate::guard::{guard_after_start, guard_after_stop, start_outcome, stop_outcome};

verus! {

/// What the producer loop does next, once an iteration's event has
/// been classified.
pub enum IterationStep {
    /// Transient: no frame this iteration; loop again without
    /// surfacing an error.
    Retry,
    /// The iteration goes on: query, extract and send this frame.
    Proceed,
    /// Fatal: the loop terminates and surfaces this error. Any held
    /// native frame handle must still be released before returning.
    Fail(CaptureError),
}

/// What became of a frame handed to the session's channel.
pub enum PushOutcome {
    /// The frame is buffered for the consumer.
    Pushed,
    /// The consumer has not taken the previous frame yet: the producer
    /// must suspend and retry with the returned frame. Nothing was
    /// dropped or overwritten.
    SlotBusy(Frame),
    /// The consumer is gone: fatal, the session went idle.
    Fail(CaptureError),
}

/// The held-handle flag after a release: clear, whatever it was.
pub open spec fn release_transition(holding: bool) -> bool {
    false
}

/// Releasing the native frame handle is idempotent: a second release
/// in sequence leaves exactly the held-handle state the first one
/// left, so the release path may run again on teardown after an error
/// path already ran it.
pub proof fn lemma_release_idempotent(holding: bool)
    ensures
        release_transition(release_transition(holding)) == release_transition(holding),
{
}

/// The uniform contract of a capture session: fixed dimensions, the
/// idempotency-guarded `start`/`stop` pair, and exclusive access to
/// the receiving end of the session's frame channel.
pub trait CaptureSession: Sized {
    /// Whether a producer loop is admitted right now.
    spec fn capturing(&self) -> bool;

    /// The frame size the source reported at construction.
    spec fn dims(&self) -> DeviceSize;

    /// The frame buffered in the session's channel, if any.
    spec fn buffered(&self) -> Option<Seq<u8>>;

    /// The source's frame size, fixed for the session's lifetime.
    fn dimensions(&self) -> (r: Result<DeviceSize, CaptureError>)
        ensures
            r == Ok::<DeviceSize, CaptureError>(self.dims()),
    ;

    /// Admit a producer loop; refused with `AlreadyCapturing` while
    /// one is already admitted, leaving the session capturing.
    fn start(&mut self) -> (r: Result<(), CaptureError>)
        ensures
            final(self).capturing() == guard_after_start(old(self).capturing()),
            r == start_outcome(old(self).capturing()),
            final(self).dims() == old(self).dims(),
            final(self).buffered() == old(self).buffered(),
    ;

    /// Order the producer loop to exit; refused with `AlreadyStopped`
    /// while the session is idle, leaving it idle.
    fn stop(&mut self) -> (r: Result<(), CaptureError>)
        ensures
            final(self).capturing() == guard_after_stop(old(self).capturing()),
            r == stop_outcome(old(self).capturing()),
            final(self).dims() == old(self).dims(),
            final(self).buffered() == old(self).buffered(),
    ;

    /// Read the session's channel: take the buffered frame out, if
    /// one is pending. This is the consumer's side; one consumer task
    /// should read at a time.
    fn take_frame(&mut self) -> (r: Option<Frame>)
        ensures
            final(self).buffered() is None,
            final(self).capturing() == old(self).capturing(),
            final(self).dims() == old(self).dims(),
            (match old(self).buffered() {
                Some(b) => r matches Some(f) && f@ == b,
                None => r is None,
            }),
    ;
}

} // verus!
