//! Protocol constants and the control packet types.

use vstd::prelude::*;
use vstd::utf8::{encode_utf8, is_ascii_chars, is_ascii_chars_encode_utf8};

verus! {

/// Protocol name carried in the variable header of CONNECT.
pub const MQTT_PROTOCOL_NAME: &'static str = "MQTT";

/// Protocol level of MQTT 3.1.1.
pub const MQTT_PROTOCOL_VERSION: u8 = 4;

/// Connect flag: a user name follows in the payload.
pub const USERNAME_FLAG: u8 = 0b10000000;

/// Connect flag: a password follows in the payload.
pub const PASSWORD_FLAG: u8 = 0b01000000;

/// Connect flag: the will message is to be retained.
pub const WILL_RETAIN: u8 = 0b00100000;

/// Connect flags: the two bits of the will's quality of service.
pub const WILL_QOS_MASK: u8 = 0b00011000;

/// Connect flag: a will message is present.
pub const WILL_FLAG: u8 = 0b00000100;

/// Connect flag: the broker is to discard any earlier session.
pub const CLEAN_SESSION: u8 = 0b00000010;

/// The fourteen control packet types, in the order of their wire codes 1 to 14.
#[allow(non_camel_case_types)]
#[derive(Debug, Clone, Copy, PartialEq, Eq, Structural)]
pub enum PacketType {
    CONNECT,
    CONNACK,
    PUBLISH,
    PUBACK,
    PUBREC,
    PUBREL,
    PUBCOMP,
    SUBSCRIBE,
    SUBACK,
    UNSUBSCRIBE,
    UNSUBACK,
    PINGREQ,
    PINGRESP,
    DISCONNECT,
}

impl PacketType {
    /// The four-bit code that stands for this packet type in a fixed header.
    pub open spec fn code(self) -> u8 {
        match self {
            PacketType::CONNECT => 1,
            PacketType::CONNACK => 2,
            PacketType::PUBLISH => 3,
            PacketType::PUBACK => 4,
            PacketType::PUBREC => 5,
            PacketType::PUBREL => 6,
            PacketType::PUBCOMP => 7,
            PacketType::SUBSCRIBE => 8,
            PacketType::SUBACK => 9,
            PacketType::UNSUBSCRIBE => 10,
            PacketType::UNSUBACK => 11,
            PacketType::PINGREQ => 12,
            PacketType::PINGRESP => 13,
            PacketType::DISCONNECT => 14,
        }
    }

    /// The wire code of this packet type.
    pub fn as_u8(self) -> (c: u8)
        ensures
            c == self.code(),
            1 <= c <= 14,
    {
        match self {
            PacketType::CONNECT => 1,
            PacketType::CONNACK => 2,
            PacketType::PUBLISH => 3,
            PacketType::PUBACK => 4,
            PacketType::PUBREC => 5,
            PacketType::PUBREL => 6,
            PacketType::PUBCOMP => 7,
            PacketType::SUBSCRIBE => 8,
            PacketType::SUBACK => 9,
            PacketType::UNSUBSCRIBE => 10,
            PacketType::UNSUBACK => 11,
            PacketType::PINGREQ => 12,
            PacketType::PINGRESP => 13,
            PacketType::DISCONNECT => 14,
        }
    }

    /// The packet type with the given wire code: one exists exactly for the
    /// codes 1 to 14, and it is the one whose code is `value`.
    pub fn from_u8(value: u8) -> (t: Option<PacketType>)
        ensures
            t is Some <==> 1 <= value <= 14,
            t matches Some(found) ==> found.code() == value,
    {
        match value {
            1 => Some(PacketType::CONNECT),
            2 => Some(PacketType::CONNACK),
            3 => Some(PacketType::PUBLISH),
            4 => Some(PacketType::PUBACK),
            5 => Some(PacketType::PUBREC),
            6 => Some(PacketType::PUBREL),
            7 => Some(PacketType::PUBCOMP),
            8 => Some(PacketType::SUBSCRIBE),
            9 => Some(PacketType::SUBACK),
            10 => Some(PacketType::UNSUBSCRIBE),
            11 => Some(PacketType::UNSUBACK),
            12 => Some(PacketType::PINGREQ),
            13 => Some(PacketType::PINGRESP),
            14 => Some(PacketType::DISCONNECT),
            _ => None,
        }
    }
}

/// The protocol name on the wire: the four bytes of `MQTT`.
pub proof fn protocol_name_is_four_bytes()
    ensures
        encode_utf8(MQTT_PROTOCOL_NAME@) == seq![0x4Du8, 0x51u8, 0x54u8, 0x54u8],
{
    reveal_strlit("MQTT");
    let name = MQTT_PROTOCOL_NAME@;
    assert(name.len() == 4);
    assert(name[0] == 'M' && name[1] == 'Q' && name[2] == 'T' && name[3] == 'T');
    assert(is_ascii_chars(name));
    is_ascii_chars_encode_utf8(name);
    let bytes = encode_utf8(name);
    assert(bytes[0] == name[0] as u8);
    assert(bytes[1] == name[1] as u8);
    assert(bytes[2] == name[2] as u8);
    assert(bytes[3] == name[3] as u8);
    assert(bytes =~= seq![0x4Du8, 0x51u8, 0x54u8, 0x54u8]);
}

/// No two packet types share a wire code, so a code names at most one type.
pub proof fn packet_type_code_is_injective(a: PacketType, b: PacketType)
    requires
        a.code() == b.code(),
    ensures
        a == b,
{
}

} // verus!
