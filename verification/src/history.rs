//! Runs of channel operations, and what holds of every run.
//!
//! A run is a sequence of the four things that can be done to a channel: a
//! send, a receive, and the closing of either side. The functions here say
//! where a run leaves the channel, which frames it deposited and which it
//! handed out; the lemmas state the guarantees of the hand-off over all runs.

use crate::channel::{ChannelState, ReceiveVerdict};
use vstd::prelude::*;

verus! {

/// One operation on a channel.
pub ghost enum ChannelOp {
    /// A send of the given frame.
    Send(Seq<u8>),
    /// A receive.
    Receive,
    /// The producer closes its side.
    CloseProducer,
    /// The consumer closes its side.
    CloseConsumer,
}

impl ChannelState {
    /// The channel after one operation.
    pub open spec fn step(self, op: ChannelOp) -> ChannelState {
        match op {
            ChannelOp::Send(frame) => self.after_send(frame),
            ChannelOp::Receive => self.after_receive(),
            ChannelOp::CloseProducer => self.after_close_producer(),
            ChannelOp::CloseConsumer => self.after_close_consumer(),
        }
    }

    /// The channel after the operations of `ops`, first to last.
    pub open spec fn run(self, ops: Seq<ChannelOp>) -> ChannelState
        decreases ops.len(),
    {
        if ops.len() == 0 {
            self
        } else {
            self.run(ops.drop_last()).step(ops.last())
        }
    }

    /// The frames that the sends of `ops` deposited, in the order of the sends.
    pub open spec fn accepted(self, ops: Seq<ChannelOp>) -> Seq<Seq<u8>>
        decreases ops.len(),
    {
        if ops.len() == 0 {
            Seq::empty()
        } else {
            let earlier = self.accepted(ops.drop_last());
            match ops.last() {
                ChannelOp::Send(frame) => {
                    if self.run(ops.drop_last()).send_verdict() is Accepted {
                        earlier.push(frame)
                    } else {
                        earlier
                    }
                },
                _ => earlier,
            }
        }
    }

    /// The frames that the receives of `ops` handed out, in the order of the
    /// receives.
    pub open spec fn delivered(self, ops: Seq<ChannelOp>) -> Seq<Seq<u8>>
        decreases ops.len(),
    {
        if ops.len() == 0 {
            Seq::empty()
        } else {
            let earlier = self.delivered(ops.drop_last());
            match ops.last() {
                ChannelOp::Receive => {
                    match self.run(ops.drop_last()).receive_verdict() {
                        ReceiveVerdict::Frame(frame) => earlier.push(frame),
                        _ => earlier,
                    }
                },
                _ => earlier,
            }
        }
    }
}

/// The run in which each frame of `frames` is sent and then received before
/// the next one is sent.
pub open spec fn lockstep(frames: Seq<Seq<u8>>) -> Seq<ChannelOp>
    decreases frames.len(),
{
    if frames.len() == 0 {
        Seq::empty()
    } else {
        lockstep(frames.drop_last()).push(ChannelOp::Send(frames.last())).push(ChannelOp::Receive)
    }
}

/// A run that starts within the capacity ends within it.
proof fn lemma_run_keeps_capacity(start: ChannelState, ops: Seq<ChannelOp>)
    requires
        start.within_capacity(),
    ensures
        start.run(ops).within_capacity(),
    decreases ops.len(),
{
    if ops.len() > 0 {
        lemma_run_keeps_capacity(start, ops.drop_last());
    }
}

/// Whatever is done to a channel, and in whatever order, at no point does it
/// hold more than one frame.
pub proof fn lemma_never_more_than_one_pending(start: ChannelState, ops: Seq<ChannelOp>)
    requires
        start.within_capacity(),
    ensures
        forall|n: int|
            0 <= n <= ops.len() ==> (#[trigger] start.run(ops.take(n))).within_capacity(),
{
    assert forall|n: int| 0 <= n <= ops.len() implies (#[trigger] start.run(
        ops.take(n),
    )).within_capacity() by {
        lemma_run_keeps_capacity(start, ops.take(n));
    }
}

/// Frames are neither lost, nor repeated, nor reordered: at the end of any
/// run, what was waiting at its start followed by what its sends deposited is
/// what its receives handed out followed by what is still waiting.
pub proof fn lemma_frames_conserved(start: ChannelState, ops: Seq<ChannelOp>)
    ensures
        start.pending + start.accepted(ops) == start.delivered(ops) + start.run(ops).pending,
    decreases ops.len(),
{
    if ops.len() > 0 {
        lemma_frames_conserved(start, ops.drop_last());
    }
    assert(start.pending + start.accepted(ops) =~= start.delivered(ops) + start.run(ops).pending);
}

/// The producer is never more than one frame ahead of the consumer: of the
/// frames deposited on an empty channel, all but the one that may still wait
/// were handed out.
pub proof fn lemma_producer_at_most_one_frame_ahead(start: ChannelState, ops: Seq<ChannelOp>)
    requires
        start.pending.len() == 0,
    ensures
        start.delivered(ops).len() <= start.accepted(ops).len() <= start.delivered(ops).len() + 1,
{
    lemma_frames_conserved(start, ops);
    lemma_run_keeps_capacity(start, ops);
    assert(start.pending + start.accepted(ops) =~= start.accepted(ops));
}

/// Sent one at a time and picked up in between, every frame arrives, in the
/// order of sending, and the channel is left as it was found.
pub proof fn lemma_lockstep_delivers_every_frame(start: ChannelState, frames: Seq<Seq<u8>>)
    requires
        start.send_verdict() is Accepted,
    ensures
        start.accepted(lockstep(frames)) == frames,
        start.delivered(lockstep(frames)) == frames,
        start.run(lockstep(frames)) == start,
    decreases frames.len(),
{
    if frames.len() == 0 {
        assert(start.accepted(lockstep(frames)) =~= frames);
        assert(start.delivered(lockstep(frames)) =~= frames);
    } else {
        let shorter = frames.drop_last();
        lemma_lockstep_delivers_every_frame(start, shorter);
        let sent = lockstep(shorter).push(ChannelOp::Send(frames.last()));
        assert(lockstep(frames).drop_last() =~= sent);
        assert(sent.drop_last() =~= lockstep(shorter));
        assert(start.run(sent).pending.drop_first() =~= start.pending);
        assert(start.accepted(sent) =~= frames);
        assert(start.delivered(sent) =~= shorter);
        assert(start.accepted(lockstep(frames)) =~= frames);
        assert(start.delivered(lockstep(frames)) =~= frames);
    }
}

/// A run from a drained and closed channel leaves it drained and closed.
proof fn lemma_run_stays_drained_and_closed(closed: ChannelState, ops: Seq<ChannelOp>)
    requires
        closed.drained_and_closed(),
    ensures
        closed.run(ops).drained_and_closed(),
        closed.delivered(ops).len() == 0,
    decreases ops.len(),
{
    if ops.len() > 0 {
        lemma_run_stays_drained_and_closed(closed, ops.drop_last());
    }
}

/// Once the producer has closed and the frame it may have left is picked up,
/// the channel is drained for good: whatever is done next, a receive at any
/// later point is answered with the disconnection, and no receive hands out a
/// frame.
pub proof fn lemma_disconnection_is_terminal(closed: ChannelState, ops: Seq<ChannelOp>)
    requires
        !closed.producer_open,
        closed.within_capacity(),
    ensures
        closed.after_receive().drained_and_closed(),
        forall|n: int|
            0 <= n <= ops.len() ==> (#[trigger] closed.after_receive().run(
                ops.take(n),
            )).receive_verdict() is Disconnected,
        closed.after_receive().delivered(ops).len() == 0,
{
    let drained = closed.after_receive();
    assert forall|n: int| 0 <= n <= ops.len() implies (#[trigger] drained.run(
        ops.take(n),
    )).receive_verdict() is Disconnected by {
        lemma_run_stays_drained_and_closed(drained, ops.take(n));
    }
    lemma_run_stays_drained_and_closed(drained, ops);
}

/// Sends and receives alone never disconnect a channel: it stays connected
/// until one of its sides is closed.
pub proof fn lemma_only_closing_disconnects(start: ChannelState, ops: Seq<ChannelOp>)
    requires
        start.connected(),
        forall|i: int| 0 <= i < ops.len() ==> ops[i] is Send || ops[i] is Receive,
    ensures
        start.run(ops).connected(),
    decreases ops.len(),
{
    if ops.len() > 0 {
        lemma_only_closing_disconnects(start, ops.drop_last());
    }
}

/// A side that has closed stays closed, and a disconnected channel takes no
/// frame: after any run from it both closures still hold and nothing was
/// deposited.
pub proof fn lemma_closing_is_for_good(closed: ChannelState, ops: Seq<ChannelOp>)
    requires
        !closed.connected(),
    ensures
        !closed.producer_open ==> !closed.run(ops).producer_open,
        !closed.consumer_open ==> !closed.run(ops).consumer_open,
        closed.accepted(ops).len() == 0,
        closed.run(ops).pending.len() <= closed.pending.len(),
    decreases ops.len(),
{
    if ops.len() > 0 {
        lemma_closing_is_for_good(closed, ops.drop_last());
    }
}

/// While the slot holds a frame, a second send deposits nothing and changes
/// nothing. Once the first frame is picked up the second is accepted, and is
/// then the next frame to be received.
pub proof fn lemma_full_slot_holds_the_sender_back(
    start: ChannelState,
    first: Seq<u8>,
    second: Seq<u8>,
)
    requires
        start.send_verdict() is Accepted,
    ensures
        ({
            let full = start.after_send(first);
            let drained = full.after_receive();
            &&& full.send_verdict() is Full
            &&& full.after_send(second) == full
            &&& full.receive_verdict() == ReceiveVerdict::Frame(first)
            &&& drained.send_verdict() is Accepted
            &&& drained.after_send(second).receive_verdict() == ReceiveVerdict::Frame(second)
        }),
{
    assert(start.after_send(first).pending.drop_first() =~= start.pending);
}

} // verus!
