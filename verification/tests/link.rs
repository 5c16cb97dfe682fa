//! End-to-end behavior of the host link: codec, fabric, transport,
//! handshake and runtime routing.

use axis_core::codec;
use axis_core::codec::CodecError;
use axis_core::fabric::BoundedQueue;
use axis_core::handshake::GateAction;
use axis_core::handshake::GateEvent;
use axis_core::handshake::GateState;
use axis_core::handshake::HandshakeGate;
use axis_core::message::Message;
use axis_core::runtime::Command;
use axis_core::sensor::SensorAction;
use axis_core::sensor::SensorEvent;
use axis_core::sensor::SensorKind;
use axis_core::sensor::SensorState;
use axis_core::sensor::SensorTask;
use axis_core::runtime::Profile;
use axis_core::runtime::Runtime;
use axis_core::runtime::State;
use axis_core::runtime::TransitionError;
use axis_core::transport::LinkReader;
use axis_core::transport::LinkState;
use axis_core::transport::LinkWriter;
use axis_core::transport::ReaderOutcome;

fn round_trip(message: Message) -> Message {
    let envelope = codec::encode(42, message).expect("encodes");
    let bytes = envelope.to_bytes();
    let (sequence, decoded) = codec::decode(&bytes).expect("decodes");
    assert_eq!(sequence, 42);
    decoded
}

#[test]
fn encode_decode_round_trip_ping() {
    assert_eq!(round_trip(Message::Ping), Message::Ping);
}

#[test]
fn encode_decode_round_trip_pong() {
    let m = Message::Pong { value: b"Pong!".to_vec() };
    assert_eq!(round_trip(m.clone()), m);
}

#[test]
fn encode_decode_round_trip_readings() {
    let t = Message::ThermocoupleReading { value: -12345 };
    assert_eq!(round_trip(t.clone()), t);
    let a = Message::AdsReading { value: 2_000_000_000 };
    assert_eq!(round_trip(a.clone()), a);
}

#[test]
fn encode_decode_round_trip_brew_switch() {
    let on = Message::BrewSwitch { is_on: true };
    assert_eq!(round_trip(on.clone()), on);
    let off = Message::BrewSwitch { is_on: false };
    assert_eq!(round_trip(off.clone()), off);
}

#[test]
fn encode_wire_layout() {
    let envelope = codec::encode(7, Message::ThermocoupleReading { value: 0x01020304 })
        .expect("encodes");
    assert_eq!(envelope.sequence, 7);
    assert_eq!(envelope.message_id, codec::THERMOCOUPLE_ID);
    assert_eq!(envelope.to_bytes(), vec![7, codec::THERMOCOUPLE_ID, 1, 2, 3, 4]);
}

#[test]
fn encode_rejects_oversized_payload() {
    let value = vec![0u8; 63];
    let r = codec::encode(0, Message::Pong { value });
    assert!(matches!(r, Err(CodecError::OversizedPayload)));
    let fits = vec![0u8; 62];
    assert!(codec::encode(0, Message::Pong { value: fits }).is_ok());
}

#[test]
fn decode_rejects_short_and_long_packets() {
    assert!(matches!(codec::decode(&[]), Err(CodecError::MalformedHeader)));
    assert!(matches!(codec::decode(&[0]), Err(CodecError::MalformedHeader)));
    let long = vec![0u8; 65];
    assert!(matches!(codec::decode(&long), Err(CodecError::MalformedHeader)));
}

#[test]
fn decode_rejects_unknown_message_id() {
    assert!(matches!(codec::decode(&[0, 9]), Err(CodecError::UnknownMessageId)));
}

#[test]
fn decode_rejects_wrong_payload_shape() {
    // a ping with a payload
    assert!(matches!(codec::decode(&[0, 0, 1]), Err(CodecError::MalformedHeader)));
    // a reading with three payload bytes instead of four
    assert!(matches!(codec::decode(&[0, 2, 1, 2, 3]), Err(CodecError::MalformedHeader)));
    // a brew switch with a byte that is neither zero nor one
    assert!(matches!(codec::decode(&[0, 4, 2]), Err(CodecError::MalformedHeader)));
}

#[test]
fn capacity_one_queue_bounds_in_flight_messages() {
    let mut q = BoundedQueue::new();
    assert_eq!(q.len(), 0);
    assert!(q.try_send(Message::Ping).is_ok());
    assert_eq!(q.len(), 1);
    // the second send is turned away until the first is received
    let refused = q.try_send(Message::BrewSwitch { is_on: true });
    assert_eq!(refused, Err(Message::BrewSwitch { is_on: true }));
    assert_eq!(q.len(), 1);
    assert_eq!(q.try_receive(), Some(Message::Ping));
    assert_eq!(q.len(), 0);
    assert!(q.try_send(Message::BrewSwitch { is_on: true }).is_ok());
    assert_eq!(q.len(), 1);
}

#[test]
fn queue_is_first_in_first_out_and_empty_receives_nothing() {
    let mut q = BoundedQueue::new();
    assert_eq!(q.try_receive(), None);
    assert!(q.try_send(Message::AdsReading { value: 5 }).is_ok());
    assert_eq!(q.try_receive(), Some(Message::AdsReading { value: 5 }));
    assert_eq!(q.try_receive(), None);
}

#[test]
fn runtime_rejects_brew_from_reset() {
    let mut runtime = Runtime::new();
    assert_eq!(runtime.state, State::Reset);
    let r = runtime.handle(Command::StartBrew(Profile::Manual));
    assert_eq!(
        r,
        Err(TransitionError { state: State::Reset, command: Command::StartBrew(Profile::Manual) })
    );
    assert_eq!(runtime.state, State::Reset);
}

#[test]
fn runtime_walks_the_transition_table() {
    let mut runtime = Runtime::new();
    assert!(runtime.handle(Command::Initialize).is_ok());
    assert_eq!(runtime.state, State::Standby);
    assert!(runtime.handle(Command::StartBrew(Profile::Automatic)).is_ok());
    assert_eq!(runtime.state, State::Brewing(Profile::Automatic));
    // steaming is only reachable from standby
    let r = runtime.handle(Command::Steam);
    assert_eq!(
        r,
        Err(TransitionError {
            state: State::Brewing(Profile::Automatic),
            command: Command::Steam,
        })
    );
    assert_eq!(runtime.state, State::Brewing(Profile::Automatic));
    let mut steaming = Runtime::new();
    assert!(steaming.handle(Command::Initialize).is_ok());
    assert!(steaming.handle(Command::Steam).is_ok());
    assert_eq!(steaming.state, State::Steaming);
}

#[test]
fn runtime_routes_ping_to_pong_and_pong_to_ping() {
    let runtime = Runtime::new();
    let mut outbound = BoundedQueue::new();
    assert!(runtime.receive(Message::Ping, &mut outbound).is_ok());
    assert_eq!(outbound.try_receive(), Some(Message::Pong { value: b"Pong!".to_vec() }));
    assert!(runtime.receive(Message::Pong { value: vec![1, 2] }, &mut outbound).is_ok());
    assert_eq!(outbound.try_receive(), Some(Message::Ping));
}

#[test]
fn runtime_drops_brew_switch_and_reports_backpressure() {
    let runtime = Runtime::new();
    let mut outbound = BoundedQueue::new();
    // a brew-switch change is not forwarded anywhere
    assert!(runtime.receive(Message::BrewSwitch { is_on: true }, &mut outbound).is_ok());
    assert_eq!(outbound.len(), 0);
    // a full outbound queue hands the routed reply back
    assert!(runtime.receive(Message::Ping, &mut outbound).is_ok());
    let r = runtime.receive(Message::Ping, &mut outbound);
    assert_eq!(r, Err(Message::Pong { value: b"Pong!".to_vec() }));
    assert_eq!(outbound.len(), 1);
}

#[test]
fn ping_packet_becomes_pong_packet() {
    // inbound packet [seq=0][id=Ping][] reaches the runtime and the writer
    // transmits the pong reply
    let mut reader = LinkReader::new();
    reader.on_connection();
    let mut inbound = BoundedQueue::new();
    let packet: Vec<u8> = vec![0, codec::PING_ID];
    let outcome = reader.on_packet(&packet, &mut inbound);
    assert!(matches!(outcome, ReaderOutcome::Delivered));

    let runtime = Runtime::new();
    let mut outbound = BoundedQueue::new();
    let message = inbound.try_receive().expect("delivered inbound");
    assert_eq!(message, Message::Ping);
    assert!(runtime.receive(message, &mut outbound).is_ok());

    let mut writer = LinkWriter::new();
    let bytes = writer.next_packet(&mut outbound).expect("a packet to send");
    assert_eq!(bytes, vec![0, codec::PONG_ID, b'P', b'o', b'n', b'g', b'!']);
    assert_eq!(writer.sequence, 1);
}

#[test]
fn sensor_reading_is_forwarded_unchanged() {
    // a sensor task publishes a fixed-point reading of 23.40 units; the
    // runtime forwards it verbatim and the writer transmits it unchanged
    let reading = Message::ThermocoupleReading { value: 2340 };
    let mut inbound = BoundedQueue::new();
    assert!(inbound.try_send(reading.clone()).is_ok());

    let runtime = Runtime::new();
    let mut outbound = BoundedQueue::new();
    let message = inbound.try_receive().expect("the reading");
    assert!(runtime.receive(message, &mut outbound).is_ok());

    let mut writer = LinkWriter::new();
    let bytes = writer.next_packet(&mut outbound).expect("a packet to send");
    let (sequence, decoded) = codec::decode(&bytes).expect("decodes");
    assert_eq!(sequence, 0);
    assert_eq!(decoded, reading);
}

#[test]
fn reader_survives_bad_packets_and_disconnects() {
    let mut reader = LinkReader::new();
    assert_eq!(reader.state, LinkState::Disconnected);
    reader.on_connection();
    assert_eq!(reader.state, LinkState::Connected);
    let mut inbound = BoundedQueue::new();
    let outcome = reader.on_packet(&[0, 9], &mut inbound);
    assert!(matches!(outcome, ReaderOutcome::Rejected(CodecError::UnknownMessageId)));
    assert_eq!(reader.state, LinkState::Connected);
    assert_eq!(inbound.len(), 0);
    // a good packet still goes through after a bad one
    let outcome = reader.on_packet(&[1, codec::PING_ID], &mut inbound);
    assert!(matches!(outcome, ReaderOutcome::Delivered));
    reader.on_disconnect();
    assert_eq!(reader.state, LinkState::Disconnected);
}

#[test]
fn reader_reports_backpressure_with_the_message() {
    let mut reader = LinkReader::new();
    reader.on_connection();
    let mut inbound = BoundedQueue::new();
    assert!(inbound.try_send(Message::Ping).is_ok());
    let outcome = reader.on_packet(&[0, codec::BREW_SWITCH_ID, 1], &mut inbound);
    match outcome {
        ReaderOutcome::QueueFull(m) => assert_eq!(m, Message::BrewSwitch { is_on: true }),
        _ => panic!("expected backpressure"),
    }
    assert_eq!(inbound.len(), 1);
}

#[test]
fn writer_skips_oversized_messages_without_consuming_a_sequence() {
    let mut outbound = BoundedQueue::new();
    assert!(outbound.try_send(Message::Pong { value: vec![0u8; 63] }).is_ok());
    let mut writer = LinkWriter::new();
    assert_eq!(writer.next_packet(&mut outbound), None);
    assert_eq!(writer.sequence, 0);
    assert_eq!(outbound.len(), 0);
    // an empty queue also yields nothing
    assert_eq!(writer.next_packet(&mut outbound), None);
}

#[test]
fn writer_sequence_numbers_count_up() {
    let mut outbound = BoundedQueue::new();
    let mut writer = LinkWriter::new();
    for expected in 0..3u8 {
        assert!(outbound.try_send(Message::Ping).is_ok());
        let bytes = writer.next_packet(&mut outbound).expect("a packet");
        assert_eq!(bytes[0], expected);
    }
}

#[test]
fn handshake_reaches_ready_despite_timeouts() {
    let mut gate = HandshakeGate::new();
    assert_eq!(gate.state, GateState::PingDue);
    assert_eq!(gate.pending_action(), GateAction::SendPing);
    assert!(!gate.is_ready());
    // the first ping send times out; the barrier retries
    gate.on_event(GateEvent::SendTimedOut);
    assert_eq!(gate.state, GateState::PingDue);
    // the second ping goes out, but no reply arrives in time
    gate.on_event(GateEvent::PingSent);
    assert_eq!(gate.state, GateState::AwaitingReply);
    assert_eq!(gate.pending_action(), GateAction::AwaitReply);
    gate.on_event(GateEvent::ReplyTimedOut);
    assert_eq!(gate.state, GateState::PingDue);
    // the third ping is answered with something other than a pong
    gate.on_event(GateEvent::PingSent);
    gate.on_event(GateEvent::Reply(Message::ThermocoupleReading { value: 1 }));
    assert_eq!(gate.state, GateState::PingDue);
    // the host finally answers the pong: the barrier opens and stays open
    gate.on_event(GateEvent::PingSent);
    gate.on_event(GateEvent::Reply(Message::Pong { value: b"Pong!".to_vec() }));
    assert_eq!(gate.state, GateState::Ready);
    assert!(gate.is_ready());
    assert_eq!(gate.pending_action(), GateAction::Done);
    gate.on_event(GateEvent::SendTimedOut);
    assert!(gate.is_ready());
}

#[test]
fn writer_sequence_wraps_at_a_byte() {
    let mut outbound = BoundedQueue::new();
    let mut writer = LinkWriter::new();
    // burn through the whole byte of sequence numbers
    for _ in 0..255 {
        assert!(outbound.try_send(Message::Ping).is_ok());
        assert!(writer.next_packet(&mut outbound).is_some());
    }
    assert_eq!(writer.sequence, 255);
    assert!(outbound.try_send(Message::Ping).is_ok());
    let bytes = writer.next_packet(&mut outbound).expect("a packet");
    assert_eq!(bytes[0], 255);
    assert_eq!(writer.sequence, 0);
}

#[test]
fn envelope_bytes_carry_header_then_payload() {
    let envelope = codec::encode(9, Message::Ping).expect("encodes");
    assert_eq!(envelope.to_bytes(), vec![9, codec::PING_ID]);
    assert_eq!(envelope.payload.len(), 0);
}

#[test]
fn sensor_task_retries_init_and_survives_read_errors() {
    let mut task = SensorTask::new(SensorKind::Ads);
    let mut readings = BoundedQueue::new();
    assert_eq!(task.next_action(), SensorAction::Initialize);
    // a failed configuration is retried, never propagated
    assert!(task.on_event(SensorEvent::InitFailed, &mut readings).is_ok());
    assert_eq!(task.state, SensorState::NeedsInit);
    assert!(task.on_event(SensorEvent::InitSucceeded, &mut readings).is_ok());
    assert_eq!(task.next_action(), SensorAction::Sample);
    // a sample is published into the fabric
    assert!(task.on_event(SensorEvent::ReadSucceeded(9150), &mut readings).is_ok());
    assert_eq!(readings.try_receive(), Some(Message::AdsReading { value: 9150 }));
    // a failed read sends the task back to configuring
    assert!(task.on_event(SensorEvent::ReadFailed, &mut readings).is_ok());
    assert_eq!(task.next_action(), SensorAction::Initialize);
    assert_eq!(readings.len(), 0);
}

#[test]
fn sensor_task_hands_back_readings_under_backpressure() {
    let mut task = SensorTask::new(SensorKind::Thermocouple);
    let mut readings = BoundedQueue::new();
    assert!(task.on_event(SensorEvent::InitSucceeded, &mut readings).is_ok());
    assert!(task.on_event(SensorEvent::ReadSucceeded(2340), &mut readings).is_ok());
    // the queue is full: the reading comes back and the task keeps sampling
    let r = task.on_event(SensorEvent::ReadSucceeded(2350), &mut readings);
    assert_eq!(r, Err(Message::ThermocoupleReading { value: 2350 }));
    assert_eq!(task.state, SensorState::Sampling);
    assert_eq!(readings.try_receive(), Some(Message::ThermocoupleReading { value: 2340 }));
}
