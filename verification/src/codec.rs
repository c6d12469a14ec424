//! The packet codec: the wire format as functions on byte sequences, and the
//! encoders and decoders that are proved to follow it.

use crate::buffer::{
    as_slice, be16, buffer_bytes, buffer_len, extend_from_slice, new_buffer, put_u16, put_u8,
};
use crate::protocol::PacketType;
use crate::text::{lossy_text, string_from_utf8_lossy};
use bytes::BytesMut;
use vstd::prelude::*;
use vstd::slice::slice_to_vec;
use vstd::utf8::encode_utf8;

verus! {

/// The first byte of a packet: the type's code in the high four bits, the
/// flags in the low four.
pub open spec fn fixed_header(packet_type: PacketType, flags: u8) -> u8
    recommends
        flags < 16,
{
    (packet_type.code() * 16 + flags) as u8
}

/// The remaining-length field for `length`: seven bits to a byte, least
/// significant group first, with the top bit set on every byte but the last.
pub open spec fn remaining_length_bytes(length: nat) -> Seq<u8>
    decreases length,
{
    if length < 128 {
        seq![length as u8]
    } else {
        seq![(length % 128 + 128) as u8] + remaining_length_bytes(length / 128)
    }
}

/// A string field: its length in two bytes, big-endian, then its bytes. A
/// length of 65536 or more is written modulo 65536.
pub open spec fn length_prefixed(bytes: Seq<u8>) -> Seq<u8> {
    be16((bytes.len() % 0x10000) as u16) + bytes
}

/// A whole packet: the fixed header byte, the length of the body as a
/// remaining-length field, and the body.
pub open spec fn framed(header: u8, body: Seq<u8>) -> Seq<u8> {
    seq![header] + remaining_length_bytes(body.len()) + body
}

/// The body of SUBSCRIBE: packet identifier 1, the topic, and the requested
/// quality of service 0.
pub open spec fn subscribe_body(topic: Seq<char>) -> Seq<u8> {
    be16(1) + length_prefixed(encode_utf8(topic)) + seq![0u8]
}

/// The SUBSCRIBE packet for a topic. Its header flags are `0b0010`.
pub open spec fn subscribe_packet(topic: Seq<char>) -> Seq<u8> {
    framed(fixed_header(PacketType::SUBSCRIBE, 2), subscribe_body(topic))
}

/// The body of PUBLISH: the topic, then the message up to the end of the
/// packet, with no length of its own.
pub open spec fn publish_body(topic: Seq<char>, message: Seq<char>) -> Seq<u8> {
    length_prefixed(encode_utf8(topic)) + encode_utf8(message)
}

/// The PUBLISH packet for a topic and a message, at quality of service 0.
pub open spec fn publish_packet(topic: Seq<char>, message: Seq<char>) -> Seq<u8> {
    framed(fixed_header(PacketType::PUBLISH, 0), publish_body(topic, message))
}

/// The DISCONNECT packet: a header byte and a remaining length of zero.
pub open spec fn disconnect_packet() -> Seq<u8> {
    seq![fixed_header(PacketType::DISCONNECT, 0), 0u8]
}

/// The CONNACK packet that accepts a connection: always four bytes, with
/// flags 0 and return code 0.
pub open spec fn connack_packet() -> Seq<u8> {
    seq![fixed_header(PacketType::CONNACK, 0), 0x02u8, 0x00u8, 0x00u8]
}

/// The SUBACK packet that answers a received SUBSCRIBE: always five bytes.
/// It echoes the packet identifier, the third and fourth byte of what was
/// received, or holds identifier 1 where less than four bytes were received.
/// Its return code grants quality of service 0.
pub open spec fn suback_packet(subscribe: Seq<u8>) -> Seq<u8> {
    if subscribe.len() >= 4 {
        seq![fixed_header(PacketType::SUBACK, 0), 0x03u8, subscribe[2], subscribe[3], 0x00u8]
    } else {
        seq![fixed_header(PacketType::SUBACK, 0), 0x03u8, 0x00u8, 0x01u8, 0x00u8]
    }
}

/// The value of two bytes read as a big-endian number.
pub open spec fn be16_value(high: u8, low: u8) -> int {
    high * 256 + low
}

/// What a received buffer decodes to: the packet type and the body, where
/// the buffer holds the two header bytes and at least as many further bytes
/// as its second byte declares. A shorter buffer decodes to nothing.
pub open spec fn parsed_packet(data: Seq<u8>) -> Option<(u8, Seq<u8>)> {
    if data.len() >= 2 && data.len() >= 2 + data[1] {
        Some((data[0] / 16, data.subrange(2, 2 + data[1])))
    } else {
        None
    }
}

/// Where the body of a PUBLISH divides into topic and message. The body must
/// hold at least four bytes, and at least one byte of message after the
/// topic whose length its first two bytes give.
pub open spec fn publish_payload_parts(payload: Seq<u8>) -> Option<(Seq<u8>, Seq<u8>)> {
    if payload.len() >= 4 && payload.len() > 2 + be16_value(payload[0], payload[1]) {
        let topic_end = 2 + be16_value(payload[0], payload[1]);
        Some((payload.subrange(2, topic_end), payload.subrange(topic_end, payload.len() as int)))
    } else {
        None
    }
}

/// The header byte for a packet type and its flags.
pub fn header_byte(packet_type: PacketType, flags: u8) -> (header: u8)
    requires
        flags < 16,
    ensures
        header == fixed_header(packet_type, flags),
        header / 16 == packet_type.code(),
        header % 16 == flags,
{
    packet_type.as_u8() * 16 + flags
}

/// Appends the remaining-length field for `length` to the buffer.
pub fn encode_remaining_length(buffer: &mut BytesMut, length: usize)
    ensures
        buffer_bytes(*final(buffer)) == buffer_bytes(*old(buffer)) + remaining_length_bytes(
            length as nat,
        ),
{
    let ghost before = buffer_bytes(*buffer);
    let mut remaining: usize = length;
    loop
        invariant_except_break
            buffer_bytes(*buffer) + remaining_length_bytes(remaining as nat) == before
                + remaining_length_bytes(length as nat),
        ensures
            buffer_bytes(*buffer) == before + remaining_length_bytes(length as nat),
        decreases remaining,
    {
        let digit: usize = remaining % 128;
        let rest: usize = remaining / 128;
        let ghost so_far = buffer_bytes(*buffer);
        if rest > 0 {
            put_u8(buffer, (digit + 128) as u8);
            assert(buffer_bytes(*buffer) + remaining_length_bytes(rest as nat) == so_far
                + remaining_length_bytes(remaining as nat)) by {
                assert(so_far.push((digit + 128) as u8) + remaining_length_bytes(rest as nat)
                    =~= so_far + (seq![(digit + 128) as u8] + remaining_length_bytes(
                    rest as nat,
                )));
            }
            remaining = rest;
        } else {
            put_u8(buffer, digit as u8);
            assert(so_far.push(digit as u8) =~= so_far + remaining_length_bytes(
                remaining as nat,
            ));
            break ;
        }
    }
}

/// Appends a string field to the buffer: the length prefix, then the text's
/// UTF-8 bytes.
pub(crate) fn put_string(buffer: &mut BytesMut, text: &str)
    ensures
        buffer_bytes(*final(buffer)) == buffer_bytes(*old(buffer)) + length_prefixed(
            encode_utf8(text@),
        ),
{
    let ghost before = buffer_bytes(*buffer);
    let bytes = text.as_bytes();
    let prefix: u16 = (bytes.len() % 0x10000) as u16;
    put_u16(buffer, prefix);
    extend_from_slice(buffer, bytes);
    assert(buffer_bytes(*buffer) =~= before + length_prefixed(encode_utf8(text@)));
}

/// Puts the header and the remaining-length field in front of a body.
pub(crate) fn frame(header: u8, body: &BytesMut) -> (packet: BytesMut)
    ensures
        buffer_bytes(packet) == framed(header, buffer_bytes(*body)),
{
    let mut packet = new_buffer();
    put_u8(&mut packet, header);
    encode_remaining_length(&mut packet, buffer_len(body));
    extend_from_slice(&mut packet, as_slice(body));
    assert(buffer_bytes(packet) =~= framed(header, buffer_bytes(*body)));
    packet
}

/// Encodes the SUBSCRIBE packet for a topic.
pub fn encode_subscribe(topic: &str) -> (packet: Vec<u8>)
    ensures
        packet@ == subscribe_packet(topic@),
        packet@[0] == 0x82,
{
    let mut body = new_buffer();
    put_u16(&mut body, 1);
    put_string(&mut body, topic);
    put_u8(&mut body, 0);
    assert(buffer_bytes(body) =~= subscribe_body(topic@));
    let packet = frame(header_byte(PacketType::SUBSCRIBE, 2), &body);
    slice_to_vec(as_slice(&packet))
}

/// Encodes the PUBLISH packet for a topic and a message.
pub fn encode_publish(topic: &str, message: &str) -> (packet: Vec<u8>)
    ensures
        packet@ == publish_packet(topic@, message@),
        packet@[0] == 0x30,
{
    let mut body = new_buffer();
    put_string(&mut body, topic);
    extend_from_slice(&mut body, message.as_bytes());
    assert(buffer_bytes(body) =~= publish_body(topic@, message@));
    let packet = frame(header_byte(PacketType::PUBLISH, 0), &body);
    slice_to_vec(as_slice(&packet))
}

/// Encodes the DISCONNECT packet.
pub fn encode_disconnect() -> (packet: Vec<u8>)
    ensures
        packet@ == disconnect_packet(),
        packet@ == seq![0xE0u8, 0x00u8],
{
    let mut packet: Vec<u8> = Vec::new();
    packet.push(header_byte(PacketType::DISCONNECT, 0));
    packet.push(0x00);
    assert(packet@ =~= disconnect_packet());
    packet
}

/// Encodes the CONNACK packet that accepts a connection.
pub fn encode_connack() -> (packet: Vec<u8>)
    ensures
        packet@ == connack_packet(),
        packet@ == seq![0x20u8, 0x02u8, 0x00u8, 0x00u8],
{
    let mut packet: Vec<u8> = Vec::new();
    packet.push(header_byte(PacketType::CONNACK, 0));
    packet.push(0x02);
    packet.push(0x00);
    packet.push(0x00);
    assert(packet@ =~= connack_packet());
    packet
}

/// Encodes the SUBACK packet that answers a received SUBSCRIBE.
pub fn encode_suback(subscribe_packet: &[u8]) -> (packet: Vec<u8>)
    ensures
        packet@ == suback_packet(subscribe_packet@),
        packet@.len() == 5,
        packet@[0] == 0x90,
{
    let mut packet: Vec<u8> = Vec::new();
    packet.push(header_byte(PacketType::SUBACK, 0));
    packet.push(0x03);
    if subscribe_packet.len() >= 4 {
        packet.push(subscribe_packet[2]);
        packet.push(subscribe_packet[3]);
    } else {
        packet.push(0x00);
        packet.push(0x01);
    }
    packet.push(0x00);
    assert(packet@ =~= suback_packet(subscribe_packet@));
    packet
}

/// Decodes a received buffer into packet type and body. A buffer that is too
/// short for what it declares gives `None`, so that a caller may read on.
pub fn parse_packet(data: &[u8]) -> (packet: Option<(u8, Vec<u8>)>)
    ensures
        packet is Some <==> parsed_packet(data@) is Some,
        packet matches Some((packet_type, payload)) ==> parsed_packet(data@) == Some(
            (packet_type, payload@),
        ),
{
    if data.len() < 2 {
        return None;
    }
    let first: u8 = data[0];
    let packet_type: u8 = first >> 4;
    assert(first >> 4 == first / 16) by (bit_vector);
    let remaining_length: usize = data[1] as usize;
    if data.len() < 2 + remaining_length {
        return None;
    }
    let payload = slice_to_vec(&data[2..2 + remaining_length]);
    Some((packet_type, payload))
}

/// Divides the body of a PUBLISH into topic and message, each read as text.
pub fn extract_publish_payload(payload: &[u8]) -> (parts: Option<(String, String)>)
    ensures
        parts is Some <==> publish_payload_parts(payload@) is Some,
        parts matches Some((topic, message)) ==> publish_payload_parts(payload@) matches Some(
            (topic_bytes, message_bytes),
        ) && topic@ == lossy_text(topic_bytes) && message@ == lossy_text(message_bytes),
{
    if payload.len() < 4 {
        return None;
    }
    let topic_len: usize = (payload[0] as usize) * 256 + (payload[1] as usize);
    if payload.len() < 2 + topic_len {
        return None;
    }
    let message_start: usize = 2 + topic_len;
    if message_start >= payload.len() {
        return None;
    }
    let topic = string_from_utf8_lossy(&payload[2..message_start]);
    let message = string_from_utf8_lossy(&payload[message_start..payload.len()]);
    Some((topic, message))
}

} // verus!
