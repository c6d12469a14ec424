use mqtt::client::{ListenStep, MqttClient};
use mqtt::codec::{encode_publish, encode_subscribe};
use mqtt::error::TransportFailure;
use mqtt::mode::{select_mode, Mode};
use mqtt::packet::ConnectPacket;
use mqtt::server::{
    client_id_from, decimal_string, handle_connect, parse_packet_type, parse_publish,
    parse_subscribe, FanOut, HandlerStep, MqttBroker, Session, Subscriptions, DEFAULT_ADDRESS,
    FAN_OUT_CAPACITY, READ_LIMIT,
};

#[test]
fn packet_type_is_the_high_nibble() {
    assert_eq!(parse_packet_type(0x10), Some(1));
    assert_eq!(parse_packet_type(0x82), Some(8));
    assert_eq!(parse_packet_type(0x3F), Some(3));
    assert_eq!(parse_packet_type(0x00), Some(0));
    assert_eq!(parse_packet_type(0xFF), Some(15));
}

#[test]
fn numbers_are_written_in_decimal() {
    assert_eq!(decimal_string(0), "0");
    assert_eq!(decimal_string(7), "7");
    assert_eq!(decimal_string(10), "10");
    assert_eq!(decimal_string(1234567890), "1234567890");
    assert_eq!(decimal_string(u32::MAX), "4294967295");
    for number in [9u32, 99, 100, 101, 65535, 1_000_000] {
        assert_eq!(decimal_string(number), number.to_string());
    }
}

#[test]
fn client_ids_are_made_from_numbers() {
    assert_eq!(client_id_from(0), "client-0");
    assert_eq!(client_id_from(42), "client-42");
    assert_eq!(client_id_from(u32::MAX), "client-4294967295");
}

#[test]
fn connect_is_answered_with_connack_and_an_identifier() {
    let connect = ConnectPacket::new("c".to_string()).encode();
    let (connack, client_id) = handle_connect(&connect);
    assert_eq!(connack, vec![0x20, 0x02, 0x00, 0x00]);
    let digits = client_id.strip_prefix("client-").unwrap();
    let number: u32 = digits.parse().unwrap();
    assert_eq!(client_id, client_id_from(number));
}

#[test]
fn broker_decodes_publish() {
    assert_eq!(
        parse_publish(&[0x30, 0x07, 0x00, 0x03, b'a', b'/', b'b', b'h', b'i']),
        Some(("a/b".to_string(), "hi".to_string()))
    );
    assert_eq!(
        parse_publish(&encode_publish("room1", "hello")),
        Some(("room1".to_string(), "hello".to_string()))
    );
    assert_eq!(
        parse_publish(&[0x30, 0x03, 0x00, 0x00, b'x']),
        Some((String::new(), "x".to_string()))
    );
    assert_eq!(
        parse_publish(&[0x30, 0x03, 0x00, 0x00, b'x', b'y', b'z']),
        Some((String::new(), "x".to_string()))
    );
}

#[test]
fn broker_ends_the_message_where_the_packet_ends() {
    assert_eq!(
        parse_publish(&[0x30, 0x04, 0x00, 0x01, 0x61, 0x62, 0x63]),
        Some(("a".to_string(), "b".to_string()))
    );
    assert_eq!(
        parse_publish(&[0x30, 0x04, 0x00, 0x01, 0x61, 0x62]),
        Some(("a".to_string(), "b".to_string()))
    );
    let mut received = encode_publish("room1", "hello");
    received.extend_from_slice(&encode_publish("room2", "other"));
    assert_eq!(parse_publish(&received), Some(("room1".to_string(), "hello".to_string())));
}

#[test]
fn broker_passes_over_publish_whose_topic_runs_past_the_packet() {
    assert_eq!(parse_publish(&[0x30, 0x00, 0x00, 0x01, 0x61, 0x62]), None);
    assert_eq!(parse_publish(&[0x30, 0x03, 0x00, 0x01, 0x61, 0x62]), None);
    assert_eq!(parse_publish(&[0x30, 0x02, 0x00, 0x00, 0x61]), None);
}

#[test]
fn broker_passes_over_malformed_publish() {
    assert_eq!(parse_publish(&[]), None);
    assert_eq!(parse_publish(&[0x30, 0x02, 0x00, 0x00]), None);
    assert_eq!(parse_publish(&[0x30, 0x04, 0x00, 0x00, b'x']), None);
    assert_eq!(parse_publish(&[0x30, 0x03, 0x00, 0x01, b't']), None);
    assert_eq!(parse_publish(&[0x30, 0x03, 0x00, 0x02, b't']), None);
    assert_eq!(parse_publish(&[0x30, 0x03, 0x01, 0x00, b't', b'm']), None);
}

#[test]
fn broker_decodes_subscribe() {
    assert_eq!(
        parse_subscribe(&[0x82, 0x08, 0x00, 0x01, 0x00, 0x03, b'a', b'/', b'b', 0x00]),
        Some("a/b".to_string())
    );
    assert_eq!(parse_subscribe(&encode_subscribe("room1")), Some("room1".to_string()));
    assert_eq!(parse_subscribe(&[0x82, 0x04, 0x00, 0x01, 0x00, 0x00]), Some(String::new()));
    assert_eq!(
        parse_subscribe(&[0x82, 0x04, 0x00, 0x01, 0x00, 0x01, 0xFF]),
        Some("\u{FFFD}".to_string())
    );
}

#[test]
fn broker_passes_over_malformed_subscribe() {
    assert_eq!(parse_subscribe(&[]), None);
    assert_eq!(parse_subscribe(&[0x82, 0x03, 0x00, 0x01, 0x00]), None);
    assert_eq!(parse_subscribe(&[0x82, 0x05, 0x00, 0x01, 0x00, 0x00]), None);
    assert_eq!(parse_subscribe(&[0x82, 0x04, 0x00, 0x01, 0x00, 0x02, b't']), None);
}

#[test]
fn subscribing_is_idempotent() {
    let mut subscriptions = Subscriptions::new();
    assert!(!subscriptions.is_subscribed("room1", "client-1"));
    subscriptions.subscribe("room1".to_string(), "client-1");
    assert!(subscriptions.is_subscribed("room1", "client-1"));
    subscriptions.subscribe("room1".to_string(), "client-1");
    subscriptions.subscribe("room1".to_string(), "client-2");
    subscriptions.subscribe("room2".to_string(), "client-1");
    assert!(subscriptions.is_subscribed("room1", "client-1"));
    assert!(subscriptions.is_subscribed("room1", "client-2"));
    assert!(subscriptions.is_subscribed("room2", "client-1"));
    assert!(!subscriptions.is_subscribed("room2", "client-2"));
    assert!(!subscriptions.is_subscribed("room3", "client-1"));
    assert!(!subscriptions.is_subscribed("room1", "client-"));
}

#[test]
fn new_session_has_no_identifier() {
    assert_eq!(Session::new().client_id(), "");
    assert_eq!(DEFAULT_ADDRESS, "127.0.0.1:1883");
    assert_eq!(FAN_OUT_CAPACITY, 100);
    assert_eq!(READ_LIMIT, 1024);
}

#[test]
fn handler_ends_when_the_peer_closes_or_the_read_fails() {
    let mut broker = MqttBroker::new();
    let mut session = Session::new();
    assert!(matches!(
        broker.handle_read(&mut session, Ok(Vec::new())),
        HandlerStep::Stop(Ok(()))
    ));
    assert!(matches!(
        broker.handle_read(&mut session, Err(TransportFailure::Receive)),
        HandlerStep::Stop(Err(TransportFailure::Receive))
    ));
}

#[test]
fn handler_accepts_connect_and_names_the_session() {
    let mut broker = MqttBroker::new();
    let mut session = Session::new();
    let connect = ConnectPacket::new("c".to_string()).encode().to_vec();
    match broker.handle_read(&mut session, Ok(connect)) {
        HandlerStep::Accept { connack } => assert_eq!(connack, vec![0x20, 0x02, 0x00, 0x00]),
        other => panic!("unexpected step {:?}", other),
    }
    assert!(session.client_id().starts_with("client-"));
    assert!(session.client_id()["client-".len()..].parse::<u32>().is_ok());
}

#[test]
fn handler_acknowledges_subscribe_and_echoes_the_packet_identifier() {
    let mut broker = MqttBroker::new();
    let mut session = Session::new();
    let subscribe = vec![0x82, 0x06, 0xAB, 0xCD, 0x00, 0x01, b't', 0x00];
    match broker.handle_read(&mut session, Ok(subscribe)) {
        HandlerStep::Acknowledge { suback } => {
            assert_eq!(suback, vec![0x90, 0x03, 0xAB, 0xCD, 0x00])
        }
        other => panic!("unexpected step {:?}", other),
    }
    assert!(broker.is_subscribed("t", ""));
}

#[test]
fn handler_passes_over_other_and_malformed_packets() {
    let mut broker = MqttBroker::new();
    let mut session = Session::new();
    for data in [
        vec![0xC0, 0x00],
        vec![0xE0, 0x00],
        vec![0x90, 0x03, 0x00, 0x01, 0x00],
        vec![0x30],
        vec![0x30, 0x7F, 0x00, 0x01, b't', b'm'],
        vec![0x82, 0x00],
        vec![0x82, 0x04, 0x00, 0x01, 0x00, 0x05, b't'],
        vec![0x00],
    ] {
        assert!(matches!(broker.handle_read(&mut session, Ok(data)), HandlerStep::Continue));
    }
    assert_eq!(session.client_id(), "");
    assert!(!broker.is_subscribed("t", ""));
}

#[test]
fn lagging_receiver_goes_on_and_closed_channel_ends_the_handler() {
    let broker = MqttBroker::new();
    let session = Session::new();
    assert!(matches!(broker.handle_broadcast(&session, FanOut::Lagged), HandlerStep::Continue));
    assert!(matches!(
        broker.handle_broadcast(&session, FanOut::Closed),
        HandlerStep::Stop(Ok(()))
    ));
}

#[test]
fn published_message_reaches_the_subscriber_only() {
    let mut broker = MqttBroker::new();

    let mut session_a = Session::new();
    let mut session_b = Session::new();
    let session_c = Session::new();
    for session in [&mut session_a, &mut session_b] {
        let connect = ConnectPacket::new("c".to_string()).encode().to_vec();
        assert!(matches!(
            broker.handle_read(session, Ok(connect)),
            HandlerStep::Accept { .. }
        ));
    }

    let mut client_a = MqttClient::new("a".to_string());
    assert!(client_a.connect(DEFAULT_ADDRESS).is_ok());
    assert_eq!(client_a.complete_connect(Ok(vec![0x20, 0x02, 0x00, 0x00])), Ok(()));
    client_a.on_message("room1".to_string(), 1);
    let subscribe = client_a.subscribe("room1".to_string()).unwrap();
    let suback = match broker.handle_read(&mut session_a, Ok(subscribe.packet().clone())) {
        HandlerStep::Acknowledge { suback } => suback,
        other => panic!("unexpected step {:?}", other),
    };
    assert_eq!(suback, vec![0x90, 0x03, 0x00, 0x01, 0x00]);
    assert_eq!(client_a.complete_subscribe(Ok(suback)), Ok(()));
    assert!(broker.is_subscribed("room1", session_a.client_id()));
    assert!(!broker.is_subscribed("room1", session_c.client_id()));

    let mut client_b = MqttClient::new("b".to_string());
    assert!(client_b.connect(DEFAULT_ADDRESS).is_ok());
    assert_eq!(client_b.complete_connect(Ok(vec![0x20, 0x02, 0x00, 0x00])), Ok(()));
    let publish = client_b.publish("room1".to_string(), "hello".to_string()).unwrap();
    let (topic, message) = match broker.handle_read(&mut session_b, Ok(publish.packet().clone()))
    {
        HandlerStep::Publish { topic, message } => (topic, message),
        other => panic!("unexpected step {:?}", other),
    };
    assert_eq!(topic, "room1");
    assert_eq!(message, "hello");

    let event = || FanOut::Message { topic: topic.clone(), message: message.clone() };
    let forwarded = match broker.handle_broadcast(&session_a, event()) {
        HandlerStep::Forward { publish } => publish,
        other => panic!("unexpected step {:?}", other),
    };
    assert_eq!(forwarded, encode_publish("room1", "hello"));
    assert!(matches!(broker.handle_broadcast(&session_c, event()), HandlerStep::Continue));

    match client_a.receive(Ok(forwarded)) {
        ListenStep::Deliver { topic, message, handlers } => {
            assert_eq!(topic, "room1");
            assert_eq!(message, "hello");
            assert_eq!(handlers, vec![1]);
        }
        other => panic!("unexpected step {:?}", other),
    }
}

#[test]
fn subscriber_gets_nothing_on_other_topics() {
    let mut broker = MqttBroker::new();
    let mut session = Session::new();
    let connect = ConnectPacket::new("c".to_string()).encode().to_vec();
    broker.handle_read(&mut session, Ok(connect));
    broker.handle_read(&mut session, Ok(encode_subscribe("room1")));
    let event = FanOut::Message { topic: "room2".to_string(), message: "hello".to_string() };
    assert!(matches!(broker.handle_broadcast(&session, event), HandlerStep::Continue));
    let event = FanOut::Message { topic: "room1".to_string(), message: "hello".to_string() };
    assert!(matches!(
        broker.handle_broadcast(&session, event),
        HandlerStep::Forward { .. }
    ));
}

#[test]
fn mode_is_chosen_by_the_first_argument() {
    assert_eq!(select_mode(Some("server")), Mode::Server);
    assert_eq!(select_mode(Some("client")), Mode::Client);
    assert_eq!(select_mode(Some("Server")), Mode::Client);
    assert_eq!(select_mode(Some("")), Mode::Client);
    assert_eq!(select_mode(Some("anything")), Mode::Client);
    assert_eq!(select_mode(None), Mode::Client);
}
