//! A single-slot producer-to-consumer frame channel: the backpressure
//! mechanism by which a slow consumer stalls the producer instead of
//! losing frames.

use vstd::prelude::*;

verus! {

/// One captured image as an owned raw byte buffer.
pub type Frame = Vec<u8>;

/// What a send attempt did. A refused frame is handed back to the
/// caller unchanged: nothing is ever dropped or overwritten.
pub enum SendOutcome {
    /// The frame now occupies the slot.
    Sent,
    /// The slot still holds an unconsumed frame; the caller must wait
    /// for the consumer and retry with the returned frame.
    Busy(Frame),
    /// The receiving side is gone; the frame is handed back.
    Disconnected(Frame),
}

/// A bounded channel of capacity one. The producer is refused (`Busy`)
/// while a frame is buffered; the consumer takes frames out one at a
/// time.
pub struct FrameChannel {
    slot: Option<Frame>,
    closed: bool,
}

impl FrameChannel {
    /// The bytes of the buffered frame, if one is pending.
    pub closed spec fn buffered(self) -> Option<Seq<u8>> {
        match self.slot {
            Some(f) => Some(f@),
            None => None,
        }
    }

    /// Whether the receiving side is gone.
    pub closed spec fn is_closed(self) -> bool {
        self.closed
    }

    /// How many frames the channel buffers.
    pub open spec fn buffered_count(self) -> nat {
        if self.buffered() is Some {
            1
        } else {
            0
        }
    }

    /// An open channel with an empty slot.
    pub fn new() -> (r: FrameChannel)
        ensures
            r.buffered() is None,
            !r.is_closed(),
    {
        FrameChannel { slot: None, closed: false }
    }

    /// Attempt to place `frame` into the slot. While the slot is
    /// occupied the frame comes back as `Busy` and the channel is
    /// untouched; on a closed channel it comes back as `Disconnected`.
    pub fn try_send(&mut self, frame: Frame) -> (r: SendOutcome)
        ensures
            old(self).is_closed() ==> *final(self) == *old(self) && (r matches SendOutcome::Disconnected(f) && f@ == frame@),
            (!old(self).is_closed() && old(self).buffered() is Some) ==> *final(self) == *old(self) && (r matches SendOutcome::Busy(f) && f@ == frame@),
            (!old(self).is_closed() && old(self).buffered() is None) ==> (r matches SendOutcome::Sent) && final(self).buffered() == Some(frame@) && !final(self).is_closed(),
    {
        if self.closed {
            SendOutcome::Disconnected(frame)
        } else if self.slot.is_some() {
            SendOutcome::Busy(frame)
        } else {
            self.slot = Some(frame);
            SendOutcome::Sent
        }
    }

    /// Take the buffered frame out, leaving the slot empty.
    pub fn try_recv(&mut self) -> (r: Option<Frame>)
        ensures
            final(self).buffered() is None,
            final(self).is_closed() == old(self).is_closed(),
            match old(self).buffered() {
                Some(b) => r matches Some(f) && f@ == b,
                None => r is None,
            },
    {
        self.slot.take()
    }

    /// Mark the receiving side as gone; every later send is refused.
    pub fn close(&mut self)
        ensures
            final(self).is_closed(),
            final(self).buffered() == old(self).buffered(),
    {
        self.closed = true;
    }
}

/// A frame channel never buffers more than one frame.
pub proof fn lemma_capacity_one(c: FrameChannel)
    ensures
        c.buffered_count() <= 1,
{
}

} // verus!
