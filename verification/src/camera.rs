//! The device-capture engine: the state machine that drives a
//! discrete video source — read one sample per iteration, copy its
//! contiguous buffer out, send. No staging buffer and no change
//! metadata; an empty read is the transient case.

use vstd::prelude::*;

use crate::channel::{Frame, FrameChannel, SendOutcome};
use crate::device_size::DeviceSize;
use crate::errors::CaptureError;
use crate::guard::{
    guard_after_start, guard_after_stop, start_outcome, stop_outcome, CaptureStateGuard,
};
use crate::output::Output;
use crate::session::{CaptureSession, IterationStep, PushOutcome};

verus! {

/// What one sample read from the source reader reported.
pub enum ReadOutcome {
    /// No sample was available this iteration: transient, the loop
    /// goes on without an error.
    NoSample,
    /// The read failed with this platform status code: fatal.
    Failed(u32),
    /// A sample arrived; its contiguous buffer is ready to copy out.
    Sample,
}

/// A device-capture session: streams raw sample bytes from one
/// activated video device. Holds the fixed dimensions negotiated at
/// construction, the output-format tag, the capturing guard and the
/// single-slot frame channel.
pub struct Camera {
    guard: CaptureStateGuard,
    channel: FrameChannel,
    size: DeviceSize,
    output: Output,
    /// The friendly name the device reported before activation.
    pub name: String,
}

impl Camera {
    /// Whether a producer loop is admitted right now.
    pub closed spec fn spec_capturing(self) -> bool {
        self.guard.spec_capturing()
    }

    /// The dimensions negotiated at construction.
    pub closed spec fn spec_dims(self) -> DeviceSize {
        self.size
    }

    /// The frame buffered in the channel, if any.
    pub closed spec fn spec_buffered(self) -> Option<Seq<u8>> {
        self.channel.buffered()
    }

    /// Whether the channel's receiving side is gone.
    pub closed spec fn spec_channel_closed(self) -> bool {
        self.channel.is_closed()
    }

    /// The output format the device was asked for.
    pub closed spec fn spec_output(self) -> Output {
        self.output
    }

    /// The friendly name the device reported.
    pub closed spec fn spec_name(self) -> Seq<char> {
        self.name@
    }

    /// Build a session for a device whose negotiated frame size is
    /// `size`, or refuse with `DimensionsUnavailable` when the source
    /// could not report one. The output format defaults to the raw
    /// native one. A fresh session is idle with an empty open
    /// channel.
    pub fn new(name: String, size: Option<DeviceSize>, output: Option<Output>) -> (r: Result<
        Camera,
        CaptureError,
    >)
        ensures
            size is None ==> r == Err::<Camera, CaptureError>(CaptureError::DimensionsUnavailable),
            size matches Some(s) ==> (r matches Ok(c) && c.spec_dims() == s
                && !c.spec_capturing() && c.spec_buffered() is None && !c.spec_channel_closed()
                && c.spec_name() == name@ && c.spec_output() == (match output {
                Some(o) => o,
                None => Output::NV12,
            })),
    {
        let chosen = match output {
            Some(o) => o,
            None => Output::NV12,
        };
        match size {
            None => Err(CaptureError::DimensionsUnavailable),
            Some(s) => Ok(
                Camera {
                    guard: CaptureStateGuard::new(),
                    channel: FrameChannel::new(),
                    size: s,
                    output: chosen,
                    name,
                },
            ),
        }
    }

    /// Non-blocking read of the capturing flag, as the producer loop
    /// polls it at the top of each iteration.
    pub fn is_capturing(&self) -> (r: bool)
        ensures
            r == self.spec_capturing(),
    {
        self.guard.is_capturing()
    }

    /// The output format the device was asked for.
    pub fn output(&self) -> (r: Output)
        ensures
            r == self.spec_output(),
    {
        self.output
    }

    /// Begin capturing: admit the producer loop. Refused with
    /// `AlreadyCapturing` while a loop is already admitted; nothing
    /// else about the session changes either way.
    pub fn start_capturing(&mut self) -> (r: Result<(), CaptureError>)
        ensures
            final(self).spec_capturing() == guard_after_start(old(self).spec_capturing()),
            r == start_outcome(old(self).spec_capturing()),
            camera_only_flag_differs(*old(self), *final(self)),
    {
        self.guard.try_start()
    }

    /// Order the producer loop to exit; it observes the flag at the
    /// top of its next iteration. Refused with `AlreadyStopped` while
    /// idle; nothing else about the session changes either way.
    pub fn stop_capturing(&mut self) -> (r: Result<(), CaptureError>)
        ensures
            final(self).spec_capturing() == guard_after_stop(old(self).spec_capturing()),
            r == stop_outcome(old(self).spec_capturing()),
            camera_only_flag_differs(*old(self), *final(self)),
    {
        self.guard.try_stop()
    }

    /// Classify one sample read. An empty read is transient: the
    /// session is untouched and the loop retries without an error. A
    /// failed read is fatal: the session goes idle and the error
    /// surfaces. A sample means the iteration goes on to copy the
    /// buffer out and send it.
    pub fn on_read(&mut self, outcome: ReadOutcome) -> (r: IterationStep)
        ensures
            final(self).spec_dims() == old(self).spec_dims(),
            final(self).spec_buffered() == old(self).spec_buffered(),
            final(self).spec_channel_closed() == old(self).spec_channel_closed(),
            final(self).spec_output() == old(self).spec_output(),
            final(self).spec_name() == old(self).spec_name(),
            outcome is NoSample ==> *final(self) == *old(self) && (r matches IterationStep::Retry),
            outcome matches ReadOutcome::Failed(code) ==> (r matches IterationStep::Fail(e) && e
                == CaptureError::AcquisitionFailed(code)) && !final(self).spec_capturing(),
            outcome is Sample ==> *final(self) == *old(self) && (r matches IterationStep::Proceed),
    {
        match outcome {
            ReadOutcome::NoSample => IterationStep::Retry,
            ReadOutcome::Failed(code) => {
                self.guard.force_idle();
                IterationStep::Fail(CaptureError::AcquisitionFailed(code))
            },
            ReadOutcome::Sample => IterationStep::Proceed,
        }
    }

    /// Push one copied-out sample buffer toward the consumer. While
    /// the single slot is occupied the frame comes back (`SlotBusy`):
    /// the producer suspends, nothing is dropped or overwritten. A
    /// gone consumer is fatal: `SendFailed`, and the session goes
    /// idle.
    pub fn push_frame(&mut self, frame: Frame) -> (r: PushOutcome)
        ensures
            final(self).spec_dims() == old(self).spec_dims(),
            final(self).spec_channel_closed() == old(self).spec_channel_closed(),
            final(self).spec_output() == old(self).spec_output(),
            final(self).spec_name() == old(self).spec_name(),
            old(self).spec_channel_closed() ==> (r matches PushOutcome::Fail(e) && e
                == CaptureError::SendFailed) && !final(self).spec_capturing() && final(self).spec_buffered() == old(self).spec_buffered(),
            (!old(self).spec_channel_closed() && old(self).spec_buffered() is Some) ==> (r matches
                PushOutcome::SlotBusy(f) && f@ == frame@) && final(self).spec_buffered() == old(self).spec_buffered() && final(self).spec_capturing() == old(self).spec_capturing(),
            (!old(self).spec_channel_closed() && old(self).spec_buffered() is None) ==> (r matches
                PushOutcome::Pushed) && final(self).spec_buffered() == Some(frame@) && final(self).spec_capturing() == old(self).spec_capturing(),
    {
        match self.channel.try_send(frame) {
            SendOutcome::Sent => PushOutcome::Pushed,
            SendOutcome::Busy(f) => PushOutcome::SlotBusy(f),
            SendOutcome::Disconnected(_) => {
                self.guard.force_idle();
                PushOutcome::Fail(CaptureError::SendFailed)
            },
        }
    }

    /// Read the channel's consumer side: take the buffered frame out.
    pub fn take_frame(&mut self) -> (r: Option<Frame>)
        ensures
            final(self).spec_buffered() is None,
            final(self).spec_capturing() == old(self).spec_capturing(),
            final(self).spec_dims() == old(self).spec_dims(),
            final(self).spec_channel_closed() == old(self).spec_channel_closed(),
            final(self).spec_output() == old(self).spec_output(),
            final(self).spec_name() == old(self).spec_name(),
            (match old(self).spec_buffered() {
                Some(b) => r matches Some(f) && f@ == b,
                None => r is None,
            }),
    {
        self.channel.try_recv()
    }

    /// Mark the consumer as gone: every later push is refused with
    /// `SendFailed`.
    pub fn close_channel(&mut self)
        ensures
            final(self).spec_channel_closed(),
            final(self).spec_buffered() == old(self).spec_buffered(),
            final(self).spec_capturing() == old(self).spec_capturing(),
            final(self).spec_dims() == old(self).spec_dims(),
            final(self).spec_output() == old(self).spec_output(),
            final(self).spec_name() == old(self).spec_name(),
    {
        self.channel.close()
    }
}

/// Everything observable about a device session except the capturing
/// flag is the same.
pub open spec fn camera_only_flag_differs(pre: Camera, post: Camera) -> bool {
    &&& post.spec_dims() == pre.spec_dims()
    &&& post.spec_buffered() == pre.spec_buffered()
    &&& post.spec_channel_closed() == pre.spec_channel_closed()
    &&& post.spec_output() == pre.spec_output()
    &&& post.spec_name() == pre.spec_name()
}

impl CaptureSession for Camera {
    open spec fn capturing(&self) -> bool {
        self.spec_capturing()
    }

    open spec fn dims(&self) -> DeviceSize {
        self.spec_dims()
    }

    open spec fn buffered(&self) -> Option<Seq<u8>> {
        self.spec_buffered()
    }

    fn dimensions(&self) -> (r: Result<DeviceSize, CaptureError>) {
        Ok(self.size)
    }

    fn start(&mut self) -> (r: Result<(), CaptureError>) {
        self.start_capturing()
    }

    fn stop(&mut self) -> (r: Result<(), CaptureError>) {
        self.stop_capturing()
    }

    fn take_frame(&mut self) -> (r: Option<Frame>) {
        Camera::take_frame(self)
    }
}

} // verus!
