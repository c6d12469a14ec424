use bytes::BytesMut;
use mqtt::codec::{
    encode_connack, encode_disconnect, encode_publish, encode_remaining_length,
    encode_suback, encode_subscribe, extract_publish_payload, header_byte, parse_packet,
};
use mqtt::protocol::PacketType;
use mqtt::text::str_eq;

fn remaining_length(length: usize) -> Vec<u8> {
    let mut buffer = BytesMut::new();
    encode_remaining_length(&mut buffer, length);
    buffer.to_vec()
}

#[test]
fn remaining_length_examples() {
    assert_eq!(remaining_length(0), vec![0x00]);
    assert_eq!(remaining_length(1), vec![0x01]);
    assert_eq!(remaining_length(127), vec![0x7F]);
    assert_eq!(remaining_length(128), vec![0x80, 0x01]);
    assert_eq!(remaining_length(16383), vec![0xFF, 0x7F]);
    assert_eq!(remaining_length(16384), vec![0x80, 0x80, 0x01]);
    assert_eq!(remaining_length(2_097_151), vec![0xFF, 0xFF, 0x7F]);
    assert_eq!(remaining_length(2_097_152), vec![0x80, 0x80, 0x80, 0x01]);
    assert_eq!(remaining_length(268_435_455), vec![0xFF, 0xFF, 0xFF, 0x7F]);
}

#[test]
fn remaining_length_is_appended_to_what_the_buffer_holds() {
    let mut buffer = BytesMut::new();
    buffer.extend_from_slice(&[0xAA, 0xBB]);
    encode_remaining_length(&mut buffer, 321);
    assert_eq!(buffer.to_vec(), vec![0xAA, 0xBB, 0xC1, 0x02]);
}

#[test]
fn remaining_length_decodes_to_the_length() {
    for length in [0usize, 5, 127, 128, 300, 16383, 16384, 70_000, 2_097_151, 5_000_000] {
        let field = remaining_length(length);
        let mut value: usize = 0;
        let mut scale: usize = 1;
        for (index, byte) in field.iter().enumerate() {
            value += (*byte as usize & 0x7F) * scale;
            scale *= 128;
            assert_eq!(*byte >= 128, index + 1 < field.len());
        }
        assert_eq!(value, length);
    }
}

#[test]
fn header_bytes() {
    assert_eq!(header_byte(PacketType::CONNECT, 0), 0x10);
    assert_eq!(header_byte(PacketType::SUBSCRIBE, 0b0010), 0x82);
    assert_eq!(header_byte(PacketType::PUBLISH, 0), 0x30);
    assert_eq!(header_byte(PacketType::DISCONNECT, 0), 0xE0);
    assert_eq!(header_byte(PacketType::DISCONNECT, 15), 0xEF);
}

#[test]
fn first_bytes_of_encoded_packets() {
    assert_eq!(encode_subscribe("test/topic")[0], 0x82);
    assert_eq!(encode_publish("test/topic", "Hello, MQTT!")[0], 0x30);
    assert_eq!(encode_disconnect()[0], 0xE0);
    assert_eq!(encode_connack()[0], 0x20);
}

#[test]
fn subscribe_packet_is_byte_exact() {
    assert_eq!(
        encode_subscribe("a/b"),
        vec![0x82, 0x08, 0x00, 0x01, 0x00, 0x03, b'a', b'/', b'b', 0x00]
    );
    assert_eq!(encode_subscribe(""), vec![0x82, 0x05, 0x00, 0x01, 0x00, 0x00, 0x00]);
}

#[test]
fn publish_packet_is_byte_exact() {
    assert_eq!(
        encode_publish("a/b", "hi"),
        vec![0x30, 0x07, 0x00, 0x03, b'a', b'/', b'b', b'h', b'i']
    );
    assert_eq!(encode_publish("", ""), vec![0x30, 0x02, 0x00, 0x00]);
}

#[test]
fn long_publish_has_a_longer_remaining_length() {
    let message = "m".repeat(300);
    let packet = encode_publish("topic", &message);
    assert_eq!(&packet[..3], &[0x30, 0xB3, 0x02]);
    assert_eq!(&packet[3..5], &[0x00, 0x05]);
    assert_eq!(packet.len(), 3 + 2 + 5 + 300);
}

#[test]
fn long_topic_has_a_two_byte_length() {
    let topic = "t".repeat(0x0123);
    let packet = encode_subscribe(&topic);
    let body = 2 + 2 + 0x0123 + 1;
    assert_eq!(&packet[..3], &[0x82, (body % 128) as u8 | 0x80, (body / 128) as u8]);
    assert_eq!(&packet[3..7], &[0x00, 0x01, 0x01, 0x23]);
    assert_eq!(packet[packet.len() - 1], 0x00);
}

#[test]
fn topic_length_is_written_modulo_65536() {
    let topic = "t".repeat(65536 + 3);
    let packet = encode_publish(&topic, "");
    assert_eq!(packet[0], 0x30);
    assert_eq!(&packet[1..5], &[0x85, 0x80, 0x04, 0x00]);
    assert_eq!(&packet[5..7], &[0x03, b't']);
    assert_eq!(packet.len(), 1 + 3 + 2 + 65539);
}

#[test]
fn disconnect_connack_and_suback_are_fixed() {
    assert_eq!(encode_disconnect(), vec![0xE0, 0x00]);
    assert_eq!(encode_connack(), vec![0x20, 0x02, 0x00, 0x00]);
    assert_eq!(
        encode_suback(&[0x82, 0x06, 0x12, 0x34, 0x00, 0x01, b't', 0x00]),
        vec![0x90, 0x03, 0x12, 0x34, 0x00]
    );
    assert_eq!(encode_suback(&[0x82, 0x06, 0x12, 0x34]), vec![0x90, 0x03, 0x12, 0x34, 0x00]);
    assert_eq!(encode_suback(&[0x82, 0x06, 0x12]), vec![0x90, 0x03, 0x00, 0x01, 0x00]);
    assert_eq!(encode_suback(&[]), vec![0x90, 0x03, 0x00, 0x01, 0x00]);
}

#[test]
fn parse_packet_examples() {
    assert_eq!(parse_packet(&[0x10, 0x00]), Some((1, Vec::new())));
    assert_eq!(parse_packet(&[0x32, 0x02, 0xAA, 0xBB]), Some((3, vec![0xAA, 0xBB])));
    assert_eq!(parse_packet(&[0xE0, 0x01, 0x07, 0x08, 0x09]), Some((14, vec![0x07])));
    assert_eq!(parse_packet(&[0xFF, 0x7F, 0x00]), None);
}

#[test]
fn short_buffers_decode_to_nothing() {
    assert_eq!(parse_packet(&[]), None);
    assert_eq!(parse_packet(&[0x10]), None);
    assert_eq!(parse_packet(&[0x10, 0x01]), None);
    assert_eq!(parse_packet(&[0x30, 0x03, 0x00, 0x01]), None);
}

#[test]
fn encoded_packets_decode_to_their_type_and_body() {
    let packet = encode_publish("topic", "message");
    let (packet_type, body) = parse_packet(&packet).unwrap();
    assert_eq!(packet_type, 3);
    assert_eq!(body, packet[2..].to_vec());
    assert_eq!(
        extract_publish_payload(&body),
        Some(("topic".to_string(), "message".to_string()))
    );
    let packet = encode_subscribe("topic");
    let (packet_type, body) = parse_packet(&packet).unwrap();
    assert_eq!(packet_type, 8);
    assert_eq!(body, vec![0x00, 0x01, 0x00, 0x05, b't', b'o', b'p', b'i', b'c', 0x00]);
}

#[test]
fn publish_payload_examples() {
    assert_eq!(
        extract_publish_payload(&[0x00, 0x05, b't', b'o', b'p', b'i', b'c', b'm']),
        Some(("topic".to_string(), "m".to_string()))
    );
    assert_eq!(
        extract_publish_payload(&[0x00, 0x00, b'a', b'b']),
        Some((String::new(), "ab".to_string()))
    );
    assert_eq!(
        extract_publish_payload(&[0x00, 0x01, b't', b'a', b'b']),
        Some(("t".to_string(), "ab".to_string()))
    );
}

#[test]
fn publish_payload_with_a_length_mismatch_gives_nothing() {
    assert_eq!(extract_publish_payload(&[]), None);
    assert_eq!(extract_publish_payload(&[0x00, 0x00, b'a']), None);
    assert_eq!(extract_publish_payload(&[0x00, 0x01, b't']), None);
    assert_eq!(extract_publish_payload(&[0x00, 0x02, b't', b'o']), None);
    assert_eq!(extract_publish_payload(&[0x00, 0x05, b't', b'o', b'p', b'i', b'c']), None);
    assert_eq!(extract_publish_payload(&[0x01, 0x00, b't', b'o', b'p', b'i', b'c']), None);
}

#[test]
fn received_text_is_decoded_lossily() {
    let parts = extract_publish_payload(&[0x00, 0x02, 0xC3, 0xA9, 0xFF, b'a']);
    assert_eq!(parts, Some(("é".to_string(), "\u{FFFD}a".to_string())));
    let parts = extract_publish_payload(&[0x00, 0x01, 0xC3, 0xA9, b'a']);
    assert_eq!(parts, Some(("\u{FFFD}".to_string(), "\u{FFFD}a".to_string())));
}

#[test]
fn strings_are_compared_by_their_text() {
    assert!(str_eq("", ""));
    assert!(str_eq("Connect", "Connect"));
    assert!(!str_eq("Connect", "Connec"));
    assert!(!str_eq("Connect", "Connecu"));
    assert!(!str_eq("é", "e"));
    assert!(str_eq("é", "é"));
}
