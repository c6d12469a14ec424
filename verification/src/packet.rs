//! The CONNECT packet.

use crate::buffer::{be16, buffer_bytes, new_buffer, put_u16, put_u8};
use crate::codec::{
    encode_remaining_length, fixed_header, frame, framed, header_byte, length_prefixed,
    put_string, remaining_length_bytes,
};
use crate::protocol::{
    protocol_name_is_four_bytes, PacketType, CLEAN_SESSION, MQTT_PROTOCOL_NAME,
    MQTT_PROTOCOL_VERSION,
};
use bytes::BytesMut;
use vstd::prelude::*;
use vstd::utf8::encode_utf8;

verus! {

/// What a client sends first on a new connection.
#[derive(Debug)]
pub struct ConnectPacket {
    pub protocol_name: String,
    pub protocol_version: u8,
    pub connect_flags: u8,
    pub keep_alive: u16,
    pub client_id: String,
    pub username: Option<String>,
    pub password: Option<String>,
}

/// The bytes of a field that may be absent: a string field, or nothing.
pub open spec fn optional_field(text: Option<String>) -> Seq<u8> {
    match text {
        Some(t) => length_prefixed(encode_utf8(t@)),
        None => Seq::empty(),
    }
}

/// The number of bytes that a field which may be absent takes.
pub open spec fn optional_field_len(text: Option<String>) -> nat {
    match text {
        Some(t) => 2 + encode_utf8(t@).len(),
        None => 0,
    }
}

impl ConnectPacket {
    /// The variable header and payload: protocol name, protocol level,
    /// connect flags, keep-alive, client identifier, then user name and
    /// password where they are present.
    pub open spec fn body(&self) -> Seq<u8> {
        length_prefixed(encode_utf8(self.protocol_name@)) + seq![
            self.protocol_version,
            self.connect_flags,
        ] + be16(self.keep_alive) + length_prefixed(encode_utf8(self.client_id@)) + optional_field(
            self.username,
        ) + optional_field(self.password)
    }

    /// The packet on the wire.
    pub open spec fn encoded(&self) -> Seq<u8> {
        framed(fixed_header(PacketType::CONNECT, 0), self.body())
    }

    /// The byte count of variable header and payload, field by field.
    pub open spec fn remaining_length(&self) -> nat {
        2 + encode_utf8(self.protocol_name@).len() + 1 + 1 + 2 + 2 + encode_utf8(
            self.client_id@,
        ).len() + optional_field_len(self.username) + optional_field_len(self.password)
    }

    /// The remaining length that is declared is the length of what follows.
    pub proof fn body_has_remaining_length(&self)
        ensures
            self.body().len() == self.remaining_length(),
            self.encoded() == seq![0x10u8] + remaining_length_bytes(self.remaining_length())
                + self.body(),
    {
    }

    /// A CONNECT for the given client identifier with the defaults: protocol
    /// "MQTT" at level 4, a clean session, 60 seconds of keep-alive, and no
    /// credentials.
    pub fn new(client_id: String) -> (packet: Self)
        ensures
            packet.protocol_name@ == MQTT_PROTOCOL_NAME@,
            packet.protocol_version == MQTT_PROTOCOL_VERSION,
            packet.connect_flags == CLEAN_SESSION,
            packet.keep_alive == 60,
            packet.client_id == client_id,
            packet.username is None,
            packet.password is None,
            packet.remaining_length() == 12 + encode_utf8(client_id@).len(),
    {
        proof {
            protocol_name_is_four_bytes();
        }
        ConnectPacket {
            protocol_name: MQTT_PROTOCOL_NAME.to_owned(),
            protocol_version: MQTT_PROTOCOL_VERSION,
            connect_flags: CLEAN_SESSION,
            keep_alive: 60,
            client_id,
            username: None,
            password: None,
        }
    }

    /// Encodes the packet.
    pub fn encode(&self) -> (buffer: BytesMut)
        ensures
            buffer_bytes(buffer) == self.encoded(),
            buffer_bytes(buffer)[0] == 0x10,
    {
        let mut body = new_buffer();
        put_string(&mut body, self.protocol_name.as_str());
        put_u8(&mut body, self.protocol_version);
        put_u8(&mut body, self.connect_flags);
        put_u16(&mut body, self.keep_alive);
        put_string(&mut body, self.client_id.as_str());
        if let Some(ref username) = self.username {
            put_string(&mut body, username.as_str());
        }
        if let Some(ref password) = self.password {
            put_string(&mut body, password.as_str());
        }
        assert(buffer_bytes(body) =~= self.body());
        frame(header_byte(PacketType::CONNECT, 0), &body)
    }

    /// The remaining length of the packet: the number of bytes that follow
    /// the fixed header.
    pub fn calculate_remaining_length(&self) -> (length: usize)
        requires
            self.remaining_length() <= usize::MAX,
        ensures
            length == self.remaining_length(),
            length == self.body().len(),
    {
        let mut length: usize = 2 + self.protocol_name.as_str().as_bytes().len() + 1 + 1 + 2 + 2
            + self.client_id.as_str().as_bytes().len();
        if let Some(ref username) = self.username {
            length += 2 + username.as_str().as_bytes().len();
        }
        if let Some(ref password) = self.password {
            length += 2 + password.as_str().as_bytes().len();
        }
        length
    }

    /// Appends the remaining-length field for `length` to the buffer.
    pub fn encode_remaining_length(&self, buffer: &mut BytesMut, length: usize)
        ensures
            buffer_bytes(*final(buffer)) == buffer_bytes(*old(buffer)) + remaining_length_bytes(
                length as nat,
            ),
    {
        encode_remaining_length(buffer, length);
    }
}

} // verus!
