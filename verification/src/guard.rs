//! The capturing flag that admits at most one producer loop per session.

use vstd::prelude::*;

use crate::errors::CaptureError;

verus! {

/// The flag after a start attempt: capturing, whatever it was before.
pub open spec fn guard_after_start(capturing: bool) -> bool {
    true
}

/// What a start attempt returns: refused when already capturing.
pub open spec fn start_outcome(capturing: bool) -> Result<(), CaptureError> {
    if capturing {
        Err(CaptureError::AlreadyCapturing)
    } else {
        Ok(())
    }
}

/// The flag after a stop attempt: idle, whatever it was before.
pub open spec fn guard_after_stop(capturing: bool) -> bool {
    false
}

/// What a stop attempt returns: refused when already idle.
pub open spec fn stop_outcome(capturing: bool) -> Result<(), CaptureError> {
    if capturing {
        Ok(())
    } else {
        Err(CaptureError::AlreadyStopped)
    }
}

/// Guards a session's producer loop: `try_start` succeeds only from
/// idle and `try_stop` only from capturing, so at most one loop runs
/// per session and both calls are idempotency-checked.
pub struct CaptureStateGuard {
    capturing: bool,
}

impl CaptureStateGuard {
    /// Whether the guard currently admits a running producer loop.
    pub closed spec fn spec_capturing(self) -> bool {
        self.capturing
    }

    /// A fresh guard is idle.
    pub fn new() -> (r: CaptureStateGuard)
        ensures
            !r.spec_capturing(),
    {
        CaptureStateGuard { capturing: false }
    }

    /// Non-blocking read of the flag.
    pub fn is_capturing(&self) -> (r: bool)
        ensures
            r == self.spec_capturing(),
    {
        self.capturing
    }

    /// Transition to capturing; refused with `AlreadyCapturing` if a
    /// loop is already running.
    pub fn try_start(&mut self) -> (r: Result<(), CaptureError>)
        ensures
            final(self).spec_capturing() == guard_after_start(old(self).spec_capturing()),
            r == start_outcome(old(self).spec_capturing()),
    {
        if self.capturing {
            Err(CaptureError::AlreadyCapturing)
        } else {
            self.capturing = true;
            Ok(())
        }
    }

    /// Return to idle unconditionally: the producer loop terminated on
    /// a fatal error.
    pub fn force_idle(&mut self)
        ensures
            !final(self).spec_capturing(),
    {
        self.capturing = false;
    }

    /// Transition to idle; refused with `AlreadyStopped` if no loop is
    /// running.
    pub fn try_stop(&mut self) -> (r: Result<(), CaptureError>)
        ensures
            final(self).spec_capturing() == guard_after_stop(old(self).spec_capturing()),
            r == stop_outcome(old(self).spec_capturing()),
    {
        if self.capturing {
            self.capturing = false;
            Ok(())
        } else {
            Err(CaptureError::AlreadyStopped)
        }
    }
}

/// Starting twice without an intervening stop: whatever the state
/// before the first call, the second attempt is refused with
/// `AlreadyCapturing` and the guard remains capturing.
pub proof fn lemma_second_start_refused(capturing: bool)
    ensures
        start_outcome(guard_after_start(capturing)) == Err::<(), CaptureError>(
            CaptureError::AlreadyCapturing,
        ),
        guard_after_start(guard_after_start(capturing)),
{
}

/// Stopping an idle guard is refused with `AlreadyStopped` and leaves
/// the guard idle.
pub proof fn lemma_stop_while_idle_refused()
    ensures
        stop_outcome(false) == Err::<(), CaptureError>(CaptureError::AlreadyStopped),
        !guard_after_stop(false),
{
}

} // verus!
