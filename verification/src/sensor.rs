//! The decision core of a sensor task.
//!
//! A sensor task configures its chip, then samples it on a fixed period
//! and posts each reading into the message fabric. A bus error is never
//! propagated upward: a failed configuration is retried after a delay,
//! and a failed read sends the task back to reconfiguring. The caller's
//! loop does the waiting and the bus work and reports what happened; the
//! policy lives here.

use vstd::prelude::*;

use crate::fabric::queue_contents;
use crate::fabric::BoundedQueue;
use crate::fabric::QUEUE_CAPACITY;
use crate::message::Message;
use crate::message::MessageModel;

verus! {

/// Which sensor a task serves, and so which reading it publishes.
#[derive(Debug, Copy, Clone, PartialEq, Eq, Structural)]
pub enum SensorKind {
    Thermocouple,
    Ads,
}

/// Where a sensor task stands.
#[derive(Debug, Copy, Clone, PartialEq, Eq, Structural)]
pub enum SensorState {
    /// The chip still owes a successful configuration.
    NeedsInit,
    /// The chip is configured and sampling on its period.
    Sampling,
}

/// What the caller's loop observed.
#[derive(Debug, Copy, Clone, PartialEq, Eq, Structural)]
pub enum SensorEvent {
    /// The configuration write succeeded.
    InitSucceeded,
    /// The configuration write failed; retry after the fixed delay.
    InitFailed,
    /// One sample came back, as a fixed-point value in hundredths.
    ReadSucceeded(i32),
    /// The read failed; go back to reconfiguring the chip.
    ReadFailed,
}

/// What the caller's loop should do next.
#[derive(Debug, Copy, Clone, PartialEq, Eq, Structural)]
pub enum SensorAction {
    /// Configure the chip.
    Initialize,
    /// Wait out the sampling period, then read one sample.
    Sample,
}

/// The state one event leads to: a successful configuration starts the
/// sampling; a failed read is not fatal, it sends the task back to
/// configuring; everything else keeps the task where it was.
pub open spec fn sensor_step(state: SensorState, event: SensorEvent) -> SensorState {
    match (state, event) {
        (SensorState::NeedsInit, SensorEvent::InitSucceeded) => SensorState::Sampling,
        (SensorState::NeedsInit, _) => SensorState::NeedsInit,
        (SensorState::Sampling, SensorEvent::ReadFailed) => SensorState::NeedsInit,
        (SensorState::Sampling, _) => SensorState::Sampling,
    }
}

/// The message a sensor of this kind publishes for one reading.
pub open spec fn reading_model(kind: SensorKind, value: i32) -> MessageModel {
    match kind {
        SensorKind::Thermocouple => MessageModel::ThermocoupleReading { value },
        SensorKind::Ads => MessageModel::AdsReading { value },
    }
}

/// One sensor task's policy state.
pub struct SensorTask {
    pub kind: SensorKind,
    pub state: SensorState,
}

impl SensorTask {
    /// A task starts owing its chip a configuration.
    pub fn new(kind: SensorKind) -> (r: SensorTask)
        ensures
            r.kind == kind,
            r.state == SensorState::NeedsInit,
    {
        SensorTask { kind, state: SensorState::NeedsInit }
    }

    /// What the caller's loop should do next.
    pub fn next_action(&self) -> (r: SensorAction)
        ensures
            r == match self.state {
                SensorState::NeedsInit => SensorAction::Initialize,
                SensorState::Sampling => SensorAction::Sample,
            },
    {
        match self.state {
            SensorState::NeedsInit => SensorAction::Initialize,
            SensorState::Sampling => SensorAction::Sample,
        }
    }

    /// Advances the task by one observed event, publishing the reading a
    /// successful sample carries. A full queue hands the reading back as
    /// a message so the caller's loop can retry the post alone; the task
    /// keeps sampling either way.
    pub fn on_event(&mut self, event: SensorEvent, readings: &mut BoundedQueue) -> (r: Result<
        (),
        Message,
    >)
        ensures
            final(self).kind == old(self).kind,
            final(self).state == sensor_step(old(self).state, event),
            match (old(self).state, event) {
                (SensorState::Sampling, SensorEvent::ReadSucceeded(value)) => {
                    let m = reading_model(old(self).kind, value);
                    if queue_contents(*old(readings)).len() < QUEUE_CAPACITY {
                        &&& r is Ok
                        &&& queue_contents(*final(readings)) == queue_contents(
                            *old(readings),
                        ).push(m)
                    } else {
                        &&& (r matches Err(back) && back@ == m)
                        &&& queue_contents(*final(readings)) == queue_contents(*old(readings))
                    }
                },
                _ => r is Ok && queue_contents(*final(readings)) == queue_contents(
                    *old(readings),
                ),
            },
    {
        let publish = match (self.state, event) {
            (SensorState::Sampling, SensorEvent::ReadSucceeded(value)) => Some(
                match self.kind {
                    SensorKind::Thermocouple => Message::ThermocoupleReading { value },
                    SensorKind::Ads => Message::AdsReading { value },
                },
            ),
            _ => None,
        };
        self.state = match (self.state, event) {
            (SensorState::NeedsInit, SensorEvent::InitSucceeded) => SensorState::Sampling,
            (SensorState::NeedsInit, _) => SensorState::NeedsInit,
            (SensorState::Sampling, SensorEvent::ReadFailed) => SensorState::NeedsInit,
            (SensorState::Sampling, _) => SensorState::Sampling,
        };
        match publish {
            Some(message) => readings.try_send(message),
            None => Ok(()),
        }
    }
}

} // verus!
