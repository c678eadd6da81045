//! The hand-off channel between the capture loop and the caller: one slot,
//! never overwritten, closed for good from either side.
//!
//! The channel is a sequential value. Its operations never wait: a send that
//! finds the slot taken hands the frame back, and the sender waits outside and
//! offers the frame again once the slot has been drained.

use vstd::prelude::*;

verus! {

/// The channel as a mathematical value: the frames that were deposited and not
/// yet picked up, oldest first, and which of the two sides are still there.
#[verifier::ext_equal]
pub ghost struct ChannelState {
    pub pending: Seq<Seq<u8>>,
    pub producer_open: bool,
    pub consumer_open: bool,
}

/// What a send meets when it reaches the channel.
pub ghost enum SendVerdict {
    /// The slot is free and both sides are there: the frame is deposited.
    Accepted,
    /// Both sides are there, but the slot holds a frame that was not picked up.
    Full,
    /// One of the two sides has closed.
    Disconnected,
}

/// What a receive meets when it reaches the channel.
pub ghost enum ReceiveVerdict {
    /// A frame is waiting and is handed out.
    Frame(Seq<u8>),
    /// Nothing is waiting, more may come.
    Empty,
    /// Nothing is waiting and the producer has closed: nothing will come.
    Disconnected,
}

impl ChannelState {
    /// A channel that was just made: empty, both sides there.
    pub open spec fn fresh() -> ChannelState {
        ChannelState { pending: Seq::empty(), producer_open: true, consumer_open: true }
    }

    /// The channel holds no more than its one slot allows.
    pub open spec fn within_capacity(self) -> bool {
        self.pending.len() <= 1
    }

    /// Both sides are there.
    pub open spec fn connected(self) -> bool {
        self.producer_open && self.consumer_open
    }

    /// Nothing is waiting and nothing will come.
    pub open spec fn drained_and_closed(self) -> bool {
        self.pending.len() == 0 && !self.producer_open
    }

    /// What a send meets in this state. Disconnection is looked for first: a
    /// full slot does not hide it.
    pub open spec fn send_verdict(self) -> SendVerdict {
        if !self.connected() {
            SendVerdict::Disconnected
        } else if self.pending.len() >= 1 {
            SendVerdict::Full
        } else {
            SendVerdict::Accepted
        }
    }

    /// The channel after a send of `frame`: the frame is appended where the
    /// send is accepted, and nothing changes where it is not.
    pub open spec fn after_send(self, frame: Seq<u8>) -> ChannelState {
        if self.send_verdict() is Accepted {
            ChannelState { pending: self.pending.push(frame), ..self }
        } else {
            self
        }
    }

    /// What a receive meets in this state. A waiting frame is handed out even
    /// after the producer has closed; the disconnection shows once the slot is
    /// empty.
    pub open spec fn receive_verdict(self) -> ReceiveVerdict {
        if self.pending.len() > 0 {
            ReceiveVerdict::Frame(self.pending.first())
        } else if self.producer_open {
            ReceiveVerdict::Empty
        } else {
            ReceiveVerdict::Disconnected
        }
    }

    /// The channel after a receive: the oldest waiting frame is gone.
    pub open spec fn after_receive(self) -> ChannelState {
        if self.pending.len() > 0 {
            ChannelState { pending: self.pending.drop_first(), ..self }
        } else {
            self
        }
    }

    /// The channel after the producer has closed its side.
    pub open spec fn after_close_producer(self) -> ChannelState {
        ChannelState { producer_open: false, ..self }
    }

    /// The channel after the consumer has closed its side.
    pub open spec fn after_close_consumer(self) -> ChannelState {
        ChannelState { consumer_open: false, ..self }
    }
}

/// Why a send did not deposit its frame. Either way the frame comes back.
#[derive(Debug, PartialEq, Eq)]
pub enum TrySendError {
    /// The slot still holds the previous frame.
    Full(Vec<u8>),
    /// A side of the channel has closed: the channel takes no frame any more.
    Disconnected(Vec<u8>),
}

/// Why a receive will never yield a frame again.
#[derive(Debug, Clone, Copy, PartialEq, Eq)]
pub enum ReceiveError {
    /// The producer has closed and the slot is empty.
    Disconnected,
}

/// A single-slot channel for frames.
#[derive(Debug)]
pub struct FrameChannel {
    slot: Option<Vec<u8>>,
    producer_open: bool,
    consumer_open: bool,
}

impl View for FrameChannel {
    type V = ChannelState;

    closed spec fn view(&self) -> ChannelState {
        ChannelState {
            pending: match self.slot {
                Some(frame) => seq![frame@],
                None => Seq::empty(),
            },
            producer_open: self.producer_open,
            consumer_open: self.consumer_open,
        }
    }
}

impl FrameChannel {
    /// Whatever was done to a channel, it holds at most one frame.
    pub proof fn lemma_within_capacity(&self)
        ensures
            self@.within_capacity(),
    {
    }

    /// An empty channel with both sides there.
    pub fn new() -> (channel: FrameChannel)
        ensures
            channel@ == ChannelState::fresh(),
    {
        FrameChannel { slot: None, producer_open: true, consumer_open: true }
    }

    /// Deposits `frame` if the slot is free and both sides are there.
    /// Otherwise the channel stays as it is and the frame is handed back:
    /// as `Full` while both sides are there, as `Disconnected` once one has
    /// closed.
    pub fn try_send(&mut self, frame: Vec<u8>) -> (outcome: Result<(), TrySendError>)
        ensures
            final(self)@ == old(self)@.after_send(frame@),
            match outcome {
                Ok(()) => old(self)@.send_verdict() is Accepted,
                Err(TrySendError::Full(back)) => old(self)@.send_verdict() is Full && back@
                    == frame@,
                Err(TrySendError::Disconnected(back)) => old(self)@.send_verdict() is Disconnected
                    && back@ == frame@,
            },
    {
        if !(self.producer_open && self.consumer_open) {
            Err(TrySendError::Disconnected(frame))
        } else if self.slot.is_some() {
            Err(TrySendError::Full(frame))
        } else {
            self.slot = Some(frame);
            Ok(())
        }
    }

    /// Takes the waiting frame out of the slot, if there is one. With an empty
    /// slot the answer is `Ok(None)` while the producer is there and
    /// `Disconnected` once it has closed. Never waits.
    pub fn try_receive(&mut self) -> (outcome: Result<Option<Vec<u8>>, ReceiveError>)
        ensures
            final(self)@ == old(self)@.after_receive(),
            match outcome {
                Ok(Some(frame)) => old(self)@.receive_verdict() == ReceiveVerdict::Frame(frame@),
                Ok(None) => old(self)@.receive_verdict() is Empty,
                Err(ReceiveError::Disconnected) => old(self)@.receive_verdict() is Disconnected,
            },
    {
        match self.slot.take() {
            Some(frame) => Ok(Some(frame)),
            None => {
                if self.producer_open {
                    Ok(None)
                } else {
                    Err(ReceiveError::Disconnected)
                }
            },
        }
    }

    /// Closes the producer side for good. A frame that waits in the slot can
    /// still be picked up.
    pub fn close_producer(&mut self)
        ensures
            final(self)@ == old(self)@.after_close_producer(),
    {
        self.producer_open = false;
    }

    /// Closes the consumer side for good.
    pub fn close_consumer(&mut self)
        ensures
            final(self)@ == old(self)@.after_close_consumer(),
    {
        self.consumer_open = false;
    }
}

} // verus!
