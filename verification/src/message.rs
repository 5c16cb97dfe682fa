//! The unit of exchange between the runtime, the sensor tasks and the host.

use vstd::prelude::*;

verus! {

/// One application-level message. Sensor readings carry a fixed-point
/// value in hundredths of a unit; the pong reply carries a short status
/// payload as raw bytes.
#[derive(Debug, Clone, PartialEq, Eq)]
pub enum Message {
    Ping,
    Pong { value: Vec<u8> },
    ThermocoupleReading { value: i32 },
    AdsReading { value: i32 },
    BrewSwitch { is_on: bool },
}

/// The mathematical value of a `Message`: the same variants, with the
/// payload bytes abstracted to a sequence.
pub enum MessageModel {
    Ping,
    Pong { value: Seq<u8> },
    ThermocoupleReading { value: i32 },
    AdsReading { value: i32 },
    BrewSwitch { is_on: bool },
}

impl View for Message {
    type V = MessageModel;

    open spec fn view(&self) -> MessageModel {
        match self {
            Message::Ping => MessageModel::Ping,
            Message::Pong { value } => MessageModel::Pong { value: value@ },
            Message::ThermocoupleReading { value } => MessageModel::ThermocoupleReading {
                value: *value,
            },
            Message::AdsReading { value } => MessageModel::AdsReading { value: *value },
            Message::BrewSwitch { is_on } => MessageModel::BrewSwitch { is_on: *is_on },
        }
    }
}

} // verus!
