//! The screen-capture engine: the state machine that drives the
//! display-duplication protocol — acquire with a bounded wait, grow
//! and query change metadata, copy to the staging buffer, extract
//! bytes honoring the row stride, send, release.

use vstd::prelude::*;

use crate::change_metadata::{grown, ChangeMetadata};
use crate::channel::{Frame, FrameChannel, SendOutcome};
use crate::device_size::DeviceSize;
use crate::errors::CaptureError;
use crate::frame_bytes;
use crate::frame_bytes::frame_len;
use crate::guard::{
    guard_after_start, guard_after_stop, start_outcome, stop_outcome, CaptureStateGuard,
};
use crate::session::{release_transition, CaptureSession, IterationStep, PushOutcome};

verus! {

/// The bounded wait for one frame acquisition, in milliseconds.
pub const ACQUIRE_TIMEOUT_MS: u32 = 500;

/// The platform status code for an acquisition that timed out: the
/// one transient acquisition failure.
pub const ACQUIRE_WAIT_TIMEOUT: u32 = 0x887A_0027;

/// What one bounded-wait frame acquisition reported.
pub enum AcquireOutcome {
    /// The acquisition failed with this platform status code. A
    /// timeout code is transient; every other code is fatal.
    Failed(u32),
    /// A frame was acquired — the session now holds its native
    /// handle — and the platform reported this required
    /// change-metadata size.
    Acquired { required_metadata_size: u32 },
}

/// A screen-capture session: duplicates one monitor's display into a
/// stream of raw frames. Holds the fixed dimensions the staging
/// buffer was allocated for, the capturing guard, the single-slot
/// frame channel, the reusable change-metadata lists and the
/// held-native-frame flag.
pub struct Monitor {
    guard: CaptureStateGuard,
    channel: FrameChannel,
    metadata: ChangeMetadata,
    size: DeviceSize,
    holding_frame: bool,
    /// The device name of the duplicated monitor.
    pub name: String,
}

impl Monitor {
    /// Whether a producer loop is admitted right now.
    pub closed spec fn spec_capturing(self) -> bool {
        self.guard.spec_capturing()
    }

    /// The dimensions reported by the source at construction.
    pub closed spec fn spec_dims(self) -> DeviceSize {
        self.size
    }

    /// The frame buffered in the channel, if any.
    pub closed spec fn spec_buffered(self) -> Option<Seq<u8>> {
        self.channel.buffered()
    }

    /// Whether the channel's receiving side is gone.
    pub closed spec fn spec_channel_closed(self) -> bool {
        self.channel.is_closed()
    }

    /// Whether a native frame handle is currently held.
    pub closed spec fn spec_holding(self) -> bool {
        self.holding_frame
    }

    /// The change-metadata state.
    pub closed spec fn spec_metadata(self) -> ChangeMetadata {
        self.metadata
    }

    /// The device name of the duplicated monitor.
    pub closed spec fn spec_name(self) -> Seq<char> {
        self.name@
    }

    /// The session's invariant: its metadata lists are well formed.
    pub open spec fn wf(self) -> bool {
        self.spec_metadata().wf()
    }

    /// Build a session for a monitor whose reported size is `size`,
    /// or refuse with `DimensionsUnavailable` when the source could
    /// not report one. A fresh session is idle, holds no native
    /// frame, has an empty open channel and zero metadata capacity.
    pub fn new(size: Option<DeviceSize>, name: String) -> (r: Result<Monitor, CaptureError>)
        ensures
            size is None ==> r == Err::<Monitor, CaptureError>(CaptureError::DimensionsUnavailable),
            size matches Some(s) ==> (r matches Ok(m) && m.wf() && m.spec_dims() == s
                && !m.spec_capturing() && m.spec_buffered() is None && !m.spec_channel_closed()
                && !m.spec_holding() && m.spec_metadata().spec_capacity() == 0 && m.spec_name() == name@),
    {
        match size {
            None => Err(CaptureError::DimensionsUnavailable),
            Some(s) => Ok(
                Monitor {
                    guard: CaptureStateGuard::new(),
                    channel: FrameChannel::new(),
                    metadata: ChangeMetadata::new(),
                    size: s,
                    holding_frame: false,
                    name,
                },
            ),
        }
    }

    /// Non-blocking read of the capturing flag, as the producer loop
    /// polls it at the top of each iteration.
    pub fn is_capturing(&self) -> (r: bool)
        ensures
            r == self.spec_capturing(),
    {
        self.guard.is_capturing()
    }

    /// Whether a native frame handle is currently held.
    pub fn holding(&self) -> (r: bool)
        ensures
            r == self.spec_holding(),
    {
        self.holding_frame
    }

    /// Begin cloning the monitor: admit the producer loop. Refused
    /// with `AlreadyCapturing` while a loop is already admitted;
    /// nothing else about the session changes either way.
    pub fn start_cloning(&mut self) -> (r: Result<(), CaptureError>)
        ensures
            final(self).spec_capturing() == guard_after_start(old(self).spec_capturing()),
            r == start_outcome(old(self).spec_capturing()),
            only_flag_differs(*old(self), *final(self)),
    {
        self.guard.try_start()
    }

    /// Order the producer loop to exit; it observes the flag at the
    /// top of its next iteration. Refused with `AlreadyStopped` while
    /// idle; nothing else about the session changes either way.
    pub fn stop_cloning(&mut self) -> (r: Result<(), CaptureError>)
        ensures
            final(self).spec_capturing() == guard_after_stop(old(self).spec_capturing()),
            r == stop_outcome(old(self).spec_capturing()),
            only_flag_differs(*old(self), *final(self)),
    {
        self.guard.try_stop()
    }

    /// Classify one acquisition outcome. A timeout is transient: the
    /// session is untouched and the loop retries. Any other failure
    /// is fatal: the session goes idle and the error surfaces. A
    /// successful acquisition records the held native handle and
    /// grows the change-metadata lists to the reported required size
    /// — never shrinking them. Acquiring before the previous handle
    /// was released is a programming error, which the precondition
    /// excludes.
    pub fn on_acquire(&mut self, outcome: AcquireOutcome) -> (r: IterationStep)
        requires
            old(self).wf(),
            outcome is Acquired ==> !old(self).spec_holding(),
        ensures
            final(self).wf(),
            final(self).spec_dims() == old(self).spec_dims(),
            final(self).spec_buffered() == old(self).spec_buffered(),
            final(self).spec_channel_closed() == old(self).spec_channel_closed(),
            final(self).spec_name() == old(self).spec_name(),
            outcome matches AcquireOutcome::Failed(code) ==> (if code == ACQUIRE_WAIT_TIMEOUT {
                *final(self) == *old(self) && (r matches IterationStep::Retry)
            } else {
                (r matches IterationStep::Fail(e) && e == CaptureError::AcquisitionFailed(code))
                    && !final(self).spec_capturing() && final(self).spec_holding() == old(self).spec_holding() && final(self).spec_metadata() == old(self).spec_metadata()
            }),
            outcome matches AcquireOutcome::Acquired { required_metadata_size } ==> (r matches
                IterationStep::Proceed) && final(self).spec_capturing() == old(self).spec_capturing() && final(self).spec_holding() && final(self).spec_metadata().spec_capacity() == grown(
                old(self).spec_metadata().spec_capacity() as nat,
                required_metadata_size as nat,
            ) && final(self).spec_metadata().spec_moved_count() == old(self).spec_metadata().spec_moved_count() && final(self).spec_metadata().spec_dirty_count()
                == old(self).spec_metadata().spec_dirty_count(),
    {
        match outcome {
            AcquireOutcome::Failed(code) => {
                if code == ACQUIRE_WAIT_TIMEOUT {
                    IterationStep::Retry
                } else {
                    self.guard.force_idle();
                    IterationStep::Fail(CaptureError::AcquisitionFailed(code))
                }
            },
            AcquireOutcome::Acquired { required_metadata_size } => {
                self.holding_frame = true;
                self.metadata.ensure_capacity(required_metadata_size);
                IterationStep::Proceed
            },
        }
    }

    /// Record the occupancy the two region queries reported for this
    /// frame. A count beyond the just-grown capacity would have run
    /// past the lists: it is flagged as a fatal metadata failure
    /// carrying the offending count, and the session goes idle.
    pub fn record_region_counts(&mut self, moved_count: u32, dirty_count: u32) -> (r:
        IterationStep)
        requires
            old(self).wf(),
        ensures
            final(self).wf(),
            final(self).spec_dims() == old(self).spec_dims(),
            final(self).spec_buffered() == old(self).spec_buffered(),
            final(self).spec_channel_closed() == old(self).spec_channel_closed(),
            final(self).spec_holding() == old(self).spec_holding(),
            final(self).spec_name() == old(self).spec_name(),
            (moved_count <= old(self).spec_metadata().spec_capacity() && dirty_count <= old(self).spec_metadata().spec_capacity()) ==> (r matches IterationStep::Proceed) && final(self).spec_capturing() == old(self).spec_capturing() && final(self).spec_metadata().spec_capacity() == old(self).spec_metadata().spec_capacity() && final(self).spec_metadata().spec_moved_count() == moved_count && final(self).spec_metadata().spec_dirty_count() == dirty_count,
            (moved_count > old(self).spec_metadata().spec_capacity() || dirty_count > old(self).spec_metadata().spec_capacity()) ==> (r matches IterationStep::Fail(e) && e
                == CaptureError::AcquisitionFailed(
                if moved_count > old(self).spec_metadata().spec_capacity() {
                    moved_count
                } else {
                    dirty_count
                },
            )) && !final(self).spec_capturing() && final(self).spec_metadata() == old(self).spec_metadata(),
    {
        let capacity: u32 = self.metadata.capacity();
        if self.metadata.record_counts(moved_count, dirty_count) {
            IterationStep::Proceed
        } else {
            self.guard.force_idle();
            let detail: u32 = if moved_count > capacity {
                moved_count
            } else {
                dirty_count
            };
            IterationStep::Fail(CaptureError::AcquisitionFailed(detail))
        }
    }

    /// Extract this frame's bytes from the mapped staging buffer,
    /// honoring the reported row stride: exactly stride times the
    /// session height bytes. Refused when the mapped buffer is
    /// declared valid for fewer bytes.
    pub fn extract(&self, mapped: &[u8], row_pitch: u32) -> (r: Option<Vec<u8>>)
        ensures
            frame_len(row_pitch as nat, self.spec_dims().height as nat) <= mapped@.len() ==> (
            r matches Some(v) && v@ == mapped@.subrange(
                0,
                frame_len(row_pitch as nat, self.spec_dims().height as nat) as int,
            )),
            frame_len(row_pitch as nat, self.spec_dims().height as nat) > mapped@.len()
                ==> r is None,
    {
        frame_bytes::extract_frame(mapped, row_pitch, self.size.height)
    }

    /// Push one extracted frame toward the consumer. While the single
    /// slot is occupied the frame comes back (`SlotBusy`): the
    /// producer suspends, nothing is dropped or overwritten. A gone
    /// consumer is fatal: `SendFailed`, and the session goes idle.
    pub fn push_frame(&mut self, frame: Frame) -> (r: PushOutcome)
        ensures
            final(self).spec_dims() == old(self).spec_dims(),
            final(self).spec_holding() == old(self).spec_holding(),
            final(self).spec_metadata() == old(self).spec_metadata(),
            final(self).spec_channel_closed() == old(self).spec_channel_closed(),
            final(self).spec_name() == old(self).spec_name(),
            old(self).spec_channel_closed() ==> (r matches PushOutcome::Fail(e) && e
                == CaptureError::SendFailed) && !final(self).spec_capturing() && final(self).spec_buffered() == old(self).spec_buffered(),
            (!old(self).spec_channel_closed() && old(self).spec_buffered() is Some) ==> (r matches
                PushOutcome::SlotBusy(f) && f@ == frame@) && final(self).spec_buffered() == old(self).spec_buffered() && final(self).spec_capturing() == old(self).spec_capturing(),
            (!old(self).spec_channel_closed() && old(self).spec_buffered() is None) ==> (r matches
                PushOutcome::Pushed) && final(self).spec_buffered() == Some(frame@) && final(self).spec_capturing() == old(self).spec_capturing(),
    {
        match self.channel.try_send(frame) {
            SendOutcome::Sent => PushOutcome::Pushed,
            SendOutcome::Busy(f) => PushOutcome::SlotBusy(f),
            SendOutcome::Disconnected(_) => {
                self.guard.force_idle();
                PushOutcome::Fail(CaptureError::SendFailed)
            },
        }
    }

    /// Release the native frame handle, clearing the held state
    /// before the next acquisition. Runs on every exit path, error
    /// paths included, and is idempotent: releasing while nothing is
    /// held changes nothing.
    pub fn release_frame(&mut self)
        ensures
            final(self).spec_holding() == release_transition(old(self).spec_holding()),
            final(self).spec_capturing() == old(self).spec_capturing(),
            final(self).spec_dims() == old(self).spec_dims(),
            final(self).spec_buffered() == old(self).spec_buffered(),
            final(self).spec_channel_closed() == old(self).spec_channel_closed(),
            final(self).spec_metadata() == old(self).spec_metadata(),
            final(self).spec_name() == old(self).spec_name(),
    {
        self.holding_frame = false;
    }

    /// Read the channel's consumer side: take the buffered frame out.
    pub fn take_frame(&mut self) -> (r: Option<Frame>)
        ensures
            final(self).spec_buffered() is None,
            final(self).spec_capturing() == old(self).spec_capturing(),
            final(self).spec_dims() == old(self).spec_dims(),
            final(self).spec_holding() == old(self).spec_holding(),
            final(self).spec_metadata() == old(self).spec_metadata(),
            final(self).spec_channel_closed() == old(self).spec_channel_closed(),
            final(self).spec_name() == old(self).spec_name(),
            (match old(self).spec_buffered() {
                Some(b) => r matches Some(f) && f@ == b,
                None => r is None,
            }),
    {
        self.channel.try_recv()
    }

    /// Mark the consumer as gone: every later push is refused with
    /// `SendFailed`.
    pub fn close_channel(&mut self)
        ensures
            final(self).spec_channel_closed(),
            final(self).spec_buffered() == old(self).spec_buffered(),
            final(self).spec_capturing() == old(self).spec_capturing(),
            final(self).spec_dims() == old(self).spec_dims(),
            final(self).spec_holding() == old(self).spec_holding(),
            final(self).spec_metadata() == old(self).spec_metadata(),
            final(self).spec_name() == old(self).spec_name(),
    {
        self.channel.close()
    }

    /// The change metadata the last frame recorded.
    pub fn metadata(&self) -> (r: &ChangeMetadata)
        ensures
            *r == self.spec_metadata(),
    {
        &self.metadata
    }
}

/// Everything observable about a screen session except the capturing
/// flag is the same.
pub open spec fn only_flag_differs(pre: Monitor, post: Monitor) -> bool {
    &&& post.spec_dims() == pre.spec_dims()
    &&& post.spec_buffered() == pre.spec_buffered()
    &&& post.spec_channel_closed() == pre.spec_channel_closed()
    &&& post.spec_holding() == pre.spec_holding()
    &&& post.spec_metadata() == pre.spec_metadata()
    &&& post.spec_name() == pre.spec_name()
}

impl CaptureSession for Monitor {
    open spec fn capturing(&self) -> bool {
        self.spec_capturing()
    }

    open spec fn dims(&self) -> DeviceSize {
        self.spec_dims()
    }

    open spec fn buffered(&self) -> Option<Seq<u8>> {
        self.spec_buffered()
    }

    fn dimensions(&self) -> (r: Result<DeviceSize, CaptureError>) {
        Ok(self.size)
    }

    fn start(&mut self) -> (r: Result<(), CaptureError>) {
        self.start_cloning()
    }

    fn stop(&mut self) -> (r: Result<(), CaptureError>) {
        self.stop_cloning()
    }

    fn take_frame(&mut self) -> (r: Option<Frame>) {
        Monitor::take_frame(self)
    }
}

} // verus!
