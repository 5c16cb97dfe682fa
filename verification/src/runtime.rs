//! The appliance operating state machine and the application-level
//! message routing layered above the transport.
//!
//! Every state transition is validated against an explicit table; a
//! rejected transition returns an error naming the rejected pair and
//! leaves the state unchanged. Routing forwards sensor readings verbatim
//! to the outbound queue, answers an inbound ping with a pong, and
//! answers an unsolicited pong with a ping.

use vstd::prelude::*;

use crate::fabric::queue_contents;
use crate::fabric::BoundedQueue;
use crate::fabric::QUEUE_CAPACITY;
use crate::message::Message;
use crate::message::MessageModel;

verus! {

/// A brew profile selected by the host.
#[derive(Debug, Copy, Clone, PartialEq, Eq, Structural)]
pub enum Profile {
    Manual,
    Automatic,
}

/// The operating state of the appliance.
#[derive(Debug, Copy, Clone, PartialEq, Eq, Structural)]
pub enum State {
    Reset,
    Standby,
    Brewing(Profile),
    Steaming,
}

/// A command asking the runtime to change state.
#[derive(Debug, Copy, Clone, PartialEq, Eq, Structural)]
pub enum Command {
    Initialize,
    StartBrew(Profile),
    Steam,
    Reset,
}

/// The rejected state and command pair of an invalid transition.
#[derive(Debug, Copy, Clone, PartialEq, Eq, Structural)]
pub struct TransitionError {
    pub state: State,
    pub command: Command,
}

/// The transition table: the state a command leads to, or nothing where
/// the pair is invalid.
pub open spec fn next_state(state: State, command: Command) -> Option<State> {
    match (state, command) {
        (State::Reset, Command::Initialize) => Some(State::Standby),
        (State::Standby, Command::StartBrew(profile)) => Some(State::Brewing(profile)),
        (State::Standby, Command::Steam) => Some(State::Steaming),
        _ => None,
    }
}

/// The status bytes a pong reply carries.
pub open spec fn pong_status() -> Seq<u8> {
    seq![80u8, 111u8, 110u8, 103u8, 33u8]
}

/// The reply the runtime owes for an inbound message: a pong for a ping,
/// a ping for an unsolicited pong, a sensor reading forwarded unchanged,
/// and nothing for a brew-switch change.
pub open spec fn route_spec(m: MessageModel) -> Option<MessageModel> {
    match m {
        MessageModel::Ping => Some(MessageModel::Pong { value: pong_status() }),
        MessageModel::Pong { value } => Some(MessageModel::Ping),
        MessageModel::ThermocoupleReading { value } => Some(m),
        MessageModel::AdsReading { value } => Some(m),
        MessageModel::BrewSwitch { is_on } => None,
    }
}

/// The status bytes of the pong reply, as a fresh vector.
fn pong_status_bytes() -> (v: Vec<u8>)
    ensures
        v@ == pong_status(),
{
    let mut v: Vec<u8> = Vec::new();
    v.push(80);
    v.push(111);
    v.push(110);
    v.push(103);
    v.push(33);
    proof {
        assert(v@ =~= pong_status());
    }
    v
}

/// The reply owed for one inbound message, if any.
pub fn route(message: Message) -> (r: Option<Message>)
    ensures
        match route_spec(message@) {
            Some(mm) => r matches Some(reply) && reply@ == mm,
            None => r is None,
        },
{
    match message {
        Message::Ping => Some(Message::Pong { value: pong_status_bytes() }),
        Message::Pong { value } => Some(Message::Ping),
        Message::ThermocoupleReading { value } => Some(
            Message::ThermocoupleReading { value },
        ),
        Message::AdsReading { value } => Some(Message::AdsReading { value }),
        Message::BrewSwitch { is_on } => None,
    }
}

/// The runtime state machine. Only [`Runtime::handle`] mutates the state.
pub struct Runtime {
    pub state: State,
}

impl Runtime {
    /// A runtime starts in the reset state.
    pub fn new() -> (r: Runtime)
        ensures
            r.state == State::Reset,
    {
        Runtime { state: State::Reset }
    }

    /// Advances the state by one command. An invalid pair returns the
    /// explicit transition error and leaves the state unchanged; it is
    /// never treated as fatal.
    pub fn handle(&mut self, command: Command) -> (r: Result<(), TransitionError>)
        ensures
            match next_state(old(self).state, command) {
                Some(next) => r is Ok && final(self).state == next,
                None => {
                    &&& r == Err::<(), TransitionError>(
                        TransitionError { state: old(self).state, command },
                    )
                    &&& final(self).state == old(self).state
                },
            },
    {
        match (self.state, command) {
            (State::Reset, Command::Initialize) => {
                self.state = State::Standby;
                Ok(())
            },
            (State::Standby, Command::StartBrew(profile)) => {
                self.state = State::Brewing(profile);
                Ok(())
            },
            (State::Standby, Command::Steam) => {
                self.state = State::Steaming;
                Ok(())
            },
            (state, command) => Err(TransitionError { state, command }),
        }
    }

    /// Routes one inbound message, publishing the owed reply on the
    /// outbound queue. A full queue hands the reply back so the caller's
    /// loop can retry once the writer has drained a slot.
    pub fn receive(&self, message: Message, outbound: &mut BoundedQueue) -> (r: Result<
        (),
        Message,
    >)
        ensures
            match route_spec(message@) {
                None => r is Ok && queue_contents(*final(outbound)) == queue_contents(
                    *old(outbound),
                ),
                Some(mm) => {
                    if queue_contents(*old(outbound)).len() < QUEUE_CAPACITY {
                        &&& r is Ok
                        &&& queue_contents(*final(outbound)) == queue_contents(
                            *old(outbound),
                        ).push(mm)
                    } else {
                        &&& (r matches Err(m) && m@ == mm)
                        &&& queue_contents(*final(outbound)) == queue_contents(*old(outbound))
                    }
                },
            },
    {
        match route(message) {
            Some(reply) => outbound.try_send(reply),
            None => Ok(()),
        }
    }
}

} // verus!
