use tokio::sync::broadcast::error::TryRecvError;
use worterbuch_client::codec::Decoded;
use worterbuch_client::inbound::{
    Delivery, InboundAction, InboundEvent, InboundPump, InboundState, Skipped,
};
use worterbuch_client::outbound::{OutboundAction, OutboundEvent};
use worterbuch_client::session::open;
use worterbuch_client::transport::{Frame, FrameRead};
use worterbuch_client::SessionParameters;
use worterbuch_common::error::DecodeError;
use worterbuch_common::{
    encode_ack_message, encode_handshake_message, encode_state_message, Ack, Handshake,
    KeyValuePair, ProtocolVersion, ServerMessage, State,
};

fn ack(transaction_id: u64) -> ServerMessage {
    ServerMessage::Ack(Ack { transaction_id })
}

fn ack_frame(transaction_id: u64) -> FrameRead<String> {
    FrameRead::Frame(Frame::binary(encode_ack_message(&Ack { transaction_id }).unwrap()))
}

fn state(transaction_id: u64, key: &str, value: &str) -> State {
    State {
        transaction_id,
        key_value: KeyValuePair { key: key.to_owned(), value: value.to_owned() },
    }
}

fn parameters() -> SessionParameters {
    SessionParameters::new('/', '+', '#')
}

#[test]
fn decoded_message_is_published() {
    let mut pump = InboundPump::new();
    match pump.receive(ack_frame(3)) {
        InboundAction::Publish(message) => assert_eq!(message, ack(3)),
        other => panic!("expected a message, got {:?}", other),
    }
    let frame = encode_state_message(&state(4, "a/b", "1")).unwrap();
    match pump.receive::<String>(FrameRead::Frame(Frame::binary(frame))) {
        InboundAction::Publish(message) => {
            assert_eq!(message, ServerMessage::State(state(4, "a/b", "1")))
        }
        other => panic!("expected a message, got {:?}", other),
    }
    assert_eq!(pump.state(), InboundState::Running);
}

#[test]
fn later_handshake_is_published_like_any_message() {
    let handshake = Handshake {
        protocol_version: ProtocolVersion { major: 1, minor: 0 },
        separator: '/',
        wildcard: '+',
        multi_wildcard: '#',
    };
    let frame = encode_handshake_message(&handshake).unwrap();
    let mut pump = InboundPump::new();
    match pump.receive::<String>(FrameRead::Frame(Frame::binary(frame))) {
        InboundAction::Publish(message) => assert_eq!(message, ServerMessage::Handshake(handshake)),
        other => panic!("expected a message, got {:?}", other),
    }
}

#[test]
fn malformed_frame_is_skipped_and_the_next_event_delivered() {
    let session = open(parameters());
    let mut subscriber = session.connection.subscribe();
    let mut pump = session.inbound;
    let bad: FrameRead<String> = FrameRead::Frame(Frame::binary(vec![0, 0, 0, 1, 0x7f]));
    match pump.deliver(&session.publisher, bad) {
        Delivery::Skipped(Skipped::Malformed(DecodeError::UndefinedType(kind))) => {
            assert_eq!(kind, 0x7f)
        }
        other => panic!("expected a skipped frame, got {:?}", other),
    }
    assert!(pump.is_running());
    assert!(matches!(pump.deliver(&session.publisher, ack_frame(8)), Delivery::Published(_)));
    assert_eq!(subscriber.try_recv(), Ok(ack(8)));
    assert_eq!(subscriber.try_recv(), Err(TryRecvError::Empty));
}

#[test]
fn end_of_session_disconnects_once() {
    let session = open(parameters());
    let mut subscriber = session.connection.subscribe();
    let mut pump = session.inbound;
    let mut disconnects = 0;
    let reads: Vec<FrameRead<String>> = vec![
        ack_frame(1),
        FrameRead::Frame(Frame::binary(Vec::new())),
        ack_frame(2),
        FrameRead::Frame(Frame::binary(Vec::new())),
        FrameRead::Frame(Frame::binary(Vec::new())),
        ack_frame(3),
    ];
    for read in reads {
        if let Delivery::Disconnected = pump.deliver(&session.publisher, read) {
            disconnects += 1;
        }
    }
    assert_eq!(disconnects, 1);
    assert_eq!(pump.state(), InboundState::Stopped);
    assert!(!pump.is_running());
    assert_eq!(subscriber.try_recv(), Ok(ack(1)));
    assert_eq!(subscriber.try_recv(), Err(TryRecvError::Empty));
}

#[test]
fn ended_pump_is_halted() {
    let mut pump = InboundPump::new();
    assert!(matches!(
        pump.step::<String>(InboundEvent::Decoded(Decoded::EndOfSession)),
        InboundAction::Disconnect
    ));
    assert!(matches!(pump.receive(ack_frame(1)), InboundAction::Halted));
    assert!(matches!(pump.receive::<String>(FrameRead::Closed), InboundAction::Halted));
    assert!(matches!(
        pump.step::<String>(InboundEvent::Decoded(Decoded::EndOfSession)),
        InboundAction::Halted
    ));
    let session = open(parameters());
    assert!(matches!(pump.deliver(&session.publisher, ack_frame(1)), Delivery::Halted));
}

#[test]
fn reads_without_a_message_are_skipped() {
    let mut pump = InboundPump::new();
    assert!(matches!(
        pump.receive::<String>(FrameRead::Closed),
        InboundAction::Skip(Skipped::NoFrame)
    ));
    match pump.receive(FrameRead::Failed(String::from("timed out"))) {
        InboundAction::Skip(Skipped::ReadFailed(error)) => assert_eq!(error, "timed out"),
        other => panic!("expected a skipped read, got {:?}", other),
    }
    let ping: FrameRead<String> = FrameRead::Frame(Frame::control(vec![1, 2, 3]));
    assert!(matches!(pump.receive(ping), InboundAction::Skip(Skipped::NotBinary)));
    assert!(matches!(
        pump.step::<String>(InboundEvent::Control),
        InboundAction::Skip(Skipped::NotBinary)
    ));
    assert_eq!(pump.state(), InboundState::Running);
}

#[test]
fn frame_that_is_not_binary_is_not_decoded() {
    let mut pump = InboundPump::new();
    let text: FrameRead<String> =
        FrameRead::Frame(Frame::control(encode_ack_message(&Ack { transaction_id: 1 }).unwrap()));
    assert!(matches!(pump.receive(text), InboundAction::Skip(Skipped::NotBinary)));
    let empty: FrameRead<String> = FrameRead::Frame(Frame::control(Vec::new()));
    assert!(matches!(pump.receive(empty), InboundAction::Skip(Skipped::NotBinary)));
    assert!(pump.is_running());
}

#[test]
fn subscribers_receive_events_in_order() {
    let session = open(parameters());
    let mut early = session.connection.subscribe();
    let mut pump = session.inbound;
    assert!(matches!(pump.deliver(&session.publisher, ack_frame(1)), Delivery::Published(_)));
    let mut late = session.connection.subscribe();
    assert!(matches!(pump.deliver(&session.publisher, ack_frame(2)), Delivery::Published(_)));
    assert!(matches!(pump.deliver(&session.publisher, ack_frame(3)), Delivery::Published(_)));

    assert_eq!(early.try_recv(), Ok(ack(1)));
    assert_eq!(early.try_recv(), Ok(ack(2)));
    assert_eq!(early.try_recv(), Ok(ack(3)));
    assert_eq!(early.try_recv(), Err(TryRecvError::Empty));

    assert_eq!(late.try_recv(), Ok(ack(2)));
    assert_eq!(late.try_recv(), Ok(ack(3)));
    assert_eq!(late.try_recv(), Err(TryRecvError::Empty));
}

#[test]
fn delivery_follows_the_answer_of_the_bus() {
    assert!(matches!(Delivery::<String>::of_publication(Ok(4)), Delivery::Published(4)));
    match Delivery::<String>::of_publication(Err(ack(2))) {
        Delivery::Unheard(message) => assert_eq!(message, ack(2)),
        other => panic!("expected an unheard message, got {:?}", other),
    }
}

#[test]
fn delivery_counts_the_subscribers() {
    let session = open(parameters());
    let mut pump = session.inbound;
    // the session's first subscription is the one receiver
    assert!(matches!(pump.deliver(&session.publisher, ack_frame(1)), Delivery::Published(1)));
    let _second = session.connection.subscribe();
    let _third = session.connection.subscribe();
    assert!(matches!(pump.deliver(&session.publisher, ack_frame(2)), Delivery::Published(3)));
}

#[test]
fn bus_without_subscribers_does_not_end_the_pump() {
    let session = open(parameters());
    let mut pump = session.inbound;
    drop(session.first_subscription);
    match pump.deliver(&session.publisher, ack_frame(5)) {
        Delivery::Unheard(message) => assert_eq!(message, ack(5)),
        other => panic!("expected an unheard message, got {:?}", other),
    }
    assert!(pump.is_running());
    let mut subscriber = session.connection.subscribe();
    assert!(matches!(pump.deliver(&session.publisher, ack_frame(6)), Delivery::Published(1)));
    assert_eq!(subscriber.try_recv(), Ok(ack(6)));
}

#[test]
fn bus_keeps_its_first_subscription_when_the_outbound_pump_ends() {
    for end in [
        OutboundEvent::QueueClosed,
        OutboundEvent::WriteFailed,
        OutboundEvent::Command(None),
    ] {
        let session = open(parameters());
        let mut outbound = session.outbound;
        let mut inbound = session.inbound;
        assert!(matches!(outbound.step(end), OutboundAction::Stop));
        assert!(!outbound.is_running());
        drop(outbound);
        drop(session.commands);
        // no subscriber of the application's, and publishing still succeeds
        assert!(matches!(
            inbound.deliver(&session.publisher, ack_frame(1)),
            Delivery::Published(1)
        ));
        assert!(matches!(
            inbound.deliver(&session.publisher, ack_frame(2)),
            Delivery::Published(1)
        ));
        assert!(inbound.is_running());
    }
}

#[test]
fn bus_keeps_its_first_subscription_when_the_handle_is_dropped() {
    let session = open(parameters());
    let mut inbound = session.inbound;
    drop(session.connection);
    assert!(matches!(inbound.deliver(&session.publisher, ack_frame(1)), Delivery::Published(1)));
}
