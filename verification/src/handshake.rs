//! A one-shot liveness barrier gating dependent tasks until the host is
//! confirmed live.
//!
//! The barrier repeats: send a ping under a bounded timeout; on timeout,
//! retry; otherwise await a reply under a bounded timeout; if the reply
//! times out or is not a pong, retry — until a pong is observed. Then the
//! readiness signal fires once and gated tasks may start. The caller's
//! loop performs each send and wait and reports what happened as an
//! event; the barrier decides everything else.

use vstd::prelude::*;

use crate::message::Message;
use crate::message::MessageModel;

verus! {

/// Where the barrier stands.
#[derive(Debug, Copy, Clone, PartialEq, Eq, Structural)]
pub enum GateState {
    /// A ping is owed to the host.
    PingDue,
    /// A ping went out; a reply is awaited under a bounded timeout.
    AwaitingReply,
    /// A pong was observed: the host is live, gated tasks may start.
    Ready,
}

/// What the barrier asks of the caller's loop next.
#[derive(Debug, Copy, Clone, PartialEq, Eq, Structural)]
pub enum GateAction {
    /// Send a ping under a bounded timeout.
    SendPing,
    /// Wait for a reply under a bounded timeout.
    AwaitReply,
    /// Nothing: the barrier is open.
    Done,
}

/// What the caller's loop observed.
pub enum GateEvent {
    /// The ping send completed within its bound.
    PingSent,
    /// The ping send timed out.
    SendTimedOut,
    /// A reply arrived within its bound.
    Reply(Message),
    /// No reply arrived within its bound.
    ReplyTimedOut,
}

/// The mathematical value of a gate event.
pub enum GateEventModel {
    PingSent,
    SendTimedOut,
    Reply(MessageModel),
    ReplyTimedOut,
}

impl View for GateEvent {
    type V = GateEventModel;

    open spec fn view(&self) -> GateEventModel {
        match self {
            GateEvent::PingSent => GateEventModel::PingSent,
            GateEvent::SendTimedOut => GateEventModel::SendTimedOut,
            GateEvent::Reply(m) => GateEventModel::Reply(m@),
            GateEvent::ReplyTimedOut => GateEventModel::ReplyTimedOut,
        }
    }
}

/// The state one event leads to. A pong while awaiting a reply opens
/// the barrier; once open it never closes; every other event returns it
/// to owing a ping, except a completed send, which leaves it awaiting.
pub open spec fn gate_step(state: GateState, event: GateEventModel) -> GateState {
    match state {
        GateState::Ready => GateState::Ready,
        GateState::PingDue => match event {
            GateEventModel::PingSent => GateState::AwaitingReply,
            _ => GateState::PingDue,
        },
        GateState::AwaitingReply => match event {
            GateEventModel::PingSent => GateState::AwaitingReply,
            GateEventModel::Reply(m) => if m is Pong {
                GateState::Ready
            } else {
                GateState::PingDue
            },
            _ => GateState::PingDue,
        },
    }
}

/// The state a whole event trace leads to.
pub open spec fn gate_run(state: GateState, events: Seq<GateEventModel>) -> GateState
    decreases events.len(),
{
    if events.len() == 0 {
        state
    } else {
        gate_run(gate_step(state, events.first()), events.drop_first())
    }
}

/// An open barrier stays open under any further events.
pub proof fn lemma_ready_absorbing(events: Seq<GateEventModel>)
    ensures
        gate_run(GateState::Ready, events) == GateState::Ready,
    decreases events.len(),
{
    if events.len() > 0 {
        lemma_ready_absorbing(events.drop_first());
    }
}

/// Running a trace is running a prefix, then the rest.
proof fn lemma_gate_run_split(state: GateState, events: Seq<GateEventModel>, k: int)
    requires
        0 <= k <= events.len(),
    ensures
        gate_run(state, events) == gate_run(gate_run(state, events.take(k)), events.skip(k)),
    decreases k,
{
    if k == 0 {
        assert(events.take(0) =~= Seq::<GateEventModel>::empty());
        assert(events.skip(0) =~= events);
    } else {
        let state1 = gate_step(state, events.first());
        let rest = events.drop_first();
        assert(events.take(k).first() == events.first());
        assert(events.take(k).drop_first() =~= rest.take(k - 1));
        assert(events.skip(k) =~= rest.skip(k - 1));
        lemma_gate_run_split(state1, rest, k - 1);
    }
}

/// Liveness of the handshake: if some ping send completes and the host
/// replies with a pong right after it, the barrier ends open — whatever
/// state it was in, however many earlier pings or replies timed out,
/// and whatever events follow.
pub proof fn lemma_gate_liveness(state: GateState, events: Seq<GateEventModel>, i: int)
    requires
        0 <= i,
        i + 1 < events.len(),
        events[i] == GateEventModel::PingSent,
        events[i + 1] matches GateEventModel::Reply(m) && m is Pong,
    ensures
        gate_run(state, events) == GateState::Ready,
{
    lemma_gate_run_split(state, events, i);
    let mid = gate_run(state, events.take(i));
    let tail = events.skip(i);
    assert(tail.len() >= 2);
    assert(tail.first() == events[i]);
    let after_send = gate_step(mid, tail.first());
    assert(after_send == GateState::AwaitingReply || after_send == GateState::Ready);
    let tail2 = tail.drop_first();
    assert(tail2.first() == events[i + 1]);
    let after_reply = gate_step(after_send, tail2.first());
    assert(after_reply == GateState::Ready);
    assert(gate_run(mid, tail) == gate_run(after_send, tail2));
    assert(gate_run(after_send, tail2) == gate_run(after_reply, tail2.drop_first()));
    lemma_ready_absorbing(tail2.drop_first());
}

/// The barrier itself: the state, advanced one observed event at a
/// time by the caller's loop.
pub struct HandshakeGate {
    pub state: GateState,
}

impl HandshakeGate {
    /// The barrier starts owing the host a ping.
    pub fn new() -> (r: HandshakeGate)
        ensures
            r.state == GateState::PingDue,
    {
        HandshakeGate { state: GateState::PingDue }
    }

    /// What the caller's loop should do next.
    pub fn pending_action(&self) -> (r: GateAction)
        ensures
            r == match self.state {
                GateState::PingDue => GateAction::SendPing,
                GateState::AwaitingReply => GateAction::AwaitReply,
                GateState::Ready => GateAction::Done,
            },
    {
        match self.state {
            GateState::PingDue => GateAction::SendPing,
            GateState::AwaitingReply => GateAction::AwaitReply,
            GateState::Ready => GateAction::Done,
        }
    }

    /// Advances the barrier by one observed event.
    pub fn on_event(&mut self, event: GateEvent)
        ensures
            final(self).state == gate_step(old(self).state, event@),
    {
        self.state = match self.state {
            GateState::Ready => GateState::Ready,
            GateState::PingDue => match event {
                GateEvent::PingSent => GateState::AwaitingReply,
                _ => GateState::PingDue,
            },
            GateState::AwaitingReply => match event {
                GateEvent::PingSent => GateState::AwaitingReply,
                GateEvent::Reply(m) => match m {
                    Message::Pong { value } => GateState::Ready,
                    _ => GateState::PingDue,
                },
                _ => GateState::PingDue,
            },
        };
    }

    /// The one-shot readiness signal dependent tasks wait on.
    pub fn is_ready(&self) -> (r: bool)
        ensures
            r == (self.state is Ready),
    {
        match self.state {
            GateState::Ready => true,
            _ => false,
        }
    }
}

} // verus!
