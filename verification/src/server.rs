//! The broker engine: what a connection handler does with each packet it
//! reads and with each message that the fan-out channel delivers, and the
//! registry of subscriptions that all handlers share.
//!
//! The engine owns no socket and no channel. Every published message goes to
//! every handler; each handler decides for itself, by the registry, whether
//! its own client is to get it.

use crate::codec::{
    be16_value, connack_packet, encode_connack, encode_publish, encode_suback, publish_packet,
    suback_packet,
};
use crate::client::{reply_view, Reply};
use crate::error::TransportFailure;
use crate::protocol::PacketType;
use crate::text::{lossy_text, string_from_utf8_lossy};
use vstd::hash_map::StringHashMap;
use vstd::prelude::*;
use vstd::string::StringExecFns;

verus! {

/// The address on which the broker listens, and to which a client connects,
/// where none is given.
pub const DEFAULT_ADDRESS: &'static str = "127.0.0.1:1883";

/// How many published messages the fan-out channel holds for a receiver
/// that has fallen behind.
pub const FAN_OUT_CAPACITY: usize = 100;

/// How many bytes a connection handler reads at most at a time.
pub const READ_LIMIT: usize = 1024;

/// `rand::random::<u32>()`: a number drawn from the thread's random number
/// generator. Any value may come back.
#[verifier::external_body]
pub(crate) fn random_u32() -> u32 {
    rand::random::<u32>()
}

/// The decimal digit for a number below ten.
pub open spec fn digit(value: nat) -> char {
    if value == 0 {
        '0'
    } else if value == 1 {
        '1'
    } else if value == 2 {
        '2'
    } else if value == 3 {
        '3'
    } else if value == 4 {
        '4'
    } else if value == 5 {
        '5'
    } else if value == 6 {
        '6'
    } else if value == 7 {
        '7'
    } else if value == 8 {
        '8'
    } else {
        '9'
    }
}

/// A number in decimal, without leading zeros.
pub open spec fn decimal(value: nat) -> Seq<char>
    decreases value,
{
    if value < 10 {
        seq![digit(value)]
    } else {
        decimal(value / 10).push(digit(value % 10))
    }
}

/// The client identifier that is made from a number: `client-` and the
/// number in decimal.
pub open spec fn client_id_text(number: u32) -> Seq<char> {
    "client-"@ + decimal(number as nat)
}

/// The packet type that a first byte carries in its high four bits.
pub open spec fn packet_type_of(first_byte: u8) -> u8 {
    first_byte / 16
}

/// Where a received PUBLISH divides into topic and message. The buffer must
/// hold at least five bytes and the whole packet, which ends where its
/// second byte, the remaining length, says. The topic, whose length the
/// third and fourth byte give, must end before the packet does, so that at
/// least one byte of message is left. The message runs to the end of the
/// packet: what was received after the packet is no part of it.
pub open spec fn received_publish_parts(data: Seq<u8>) -> Option<(Seq<u8>, Seq<u8>)> {
    if data.len() >= 5 && data.len() >= 2 + data[1] && 2 + data[1] > 4 + be16_value(
        data[2],
        data[3],
    ) {
        let topic_end = 4 + be16_value(data[2], data[3]);
        Some((data.subrange(4, topic_end), data.subrange(topic_end, 2 + data[1])))
    } else {
        None
    }
}

/// The topic bytes of a received SUBSCRIBE. The buffer must hold at least
/// six bytes and as many as its second byte declares; the topic follows the
/// packet identifier and its own length, the fifth and sixth byte.
pub open spec fn received_subscribe_topic(data: Seq<u8>) -> Option<Seq<u8>> {
    if data.len() >= 6 && data.len() >= 2 + data[1] && data.len() >= 6 + be16_value(
        data[4],
        data[5],
    ) {
        Some(data.subrange(6, 6 + be16_value(data[4], data[5])))
    } else {
        None
    }
}

/// The packet type of a packet, from its first byte.
pub fn parse_packet_type(first_byte: u8) -> (packet_type: Option<u8>)
    ensures
        packet_type == Some(packet_type_of(first_byte)),
{
    assert(first_byte >> 4 == first_byte / 16) by (bit_vector);
    Some(first_byte >> 4)
}

/// The one-character string for a digit.
fn digit_str(value: u32) -> (text: &'static str)
    requires
        value < 10,
    ensures
        text@ == seq![digit(value as nat)],
{
    proof {
        reveal_strlit("0");
        reveal_strlit("1");
        reveal_strlit("2");
        reveal_strlit("3");
        reveal_strlit("4");
        reveal_strlit("5");
        reveal_strlit("6");
        reveal_strlit("7");
        reveal_strlit("8");
        reveal_strlit("9");
    }
    let text = if value == 0 {
        "0"
    } else if value == 1 {
        "1"
    } else if value == 2 {
        "2"
    } else if value == 3 {
        "3"
    } else if value == 4 {
        "4"
    } else if value == 5 {
        "5"
    } else if value == 6 {
        "6"
    } else if value == 7 {
        "7"
    } else if value == 8 {
        "8"
    } else {
        "9"
    };
    assert(text@ =~= seq![digit(value as nat)]);
    text
}

/// A number written in decimal.
pub fn decimal_string(value: u32) -> (text: String)
    ensures
        text@ == decimal(value as nat),
    decreases value,
{
    if value < 10 {
        String::from_str(digit_str(value))
    } else {
        let text = decimal_string(value / 10).concat(digit_str(value % 10));
        assert(text@ =~= decimal(value as nat));
        text
    }
}

/// The client identifier that is made from a number.
pub fn client_id_from(number: u32) -> (client_id: String)
    ensures
        client_id@ == client_id_text(number),
{
    let digits = decimal_string(number);
    String::from_str("client-").concat(digits.as_str())
}

/// Answers a CONNECT: the CONNACK that accepts the connection, and the
/// identifier under which the connection is known from now on, made from a
/// random number. What the CONNECT holds is not looked at.
pub fn handle_connect(_data: &[u8]) -> (answer: (Vec<u8>, String))
    ensures
        answer.0@ == connack_packet(),
        exists|number: u32| answer.1@ == client_id_text(number),
{
    let number: u32 = random_u32();
    let client_id = client_id_from(number);
    (encode_connack(), client_id)
}

/// Decodes a received PUBLISH into topic and message.
pub fn parse_publish(data: &[u8]) -> (parts: Option<(String, String)>)
    ensures
        parts is Some <==> received_publish_parts(data@) is Some,
        parts matches Some((topic, message)) ==> received_publish_parts(data@) matches Some(
            (topic_bytes, message_bytes),
        ) && topic@ == lossy_text(topic_bytes) && message@ == lossy_text(message_bytes),
{
    if data.len() < 5 {
        return None;
    }
    let remaining_length: usize = data[1] as usize;
    let packet_end: usize = 2 + remaining_length;
    if data.len() < packet_end {
        return None;
    }
    let topic_len: usize = (data[2] as usize) * 256 + (data[3] as usize);
    let message_start: usize = 4 + topic_len;
    if message_start >= packet_end {
        return None;
    }
    let topic = string_from_utf8_lossy(&data[4..message_start]);
    let message = string_from_utf8_lossy(&data[message_start..packet_end]);
    Some((topic, message))
}

/// Decodes the topic of a received SUBSCRIBE.
pub fn parse_subscribe(data: &[u8]) -> (topic: Option<String>)
    ensures
        topic is Some <==> received_subscribe_topic(data@) is Some,
        topic matches Some(text) ==> received_subscribe_topic(data@) matches Some(topic_bytes)
            && text@ == lossy_text(topic_bytes),
{
    if data.len() < 6 {
        return None;
    }
    let remaining_length: usize = data[1] as usize;
    if data.len() < 2 + remaining_length {
        return None;
    }
    let topic_len: usize = (data[4] as usize) * 256 + (data[5] as usize);
    if data.len() < 6 + topic_len {
        return None;
    }
    Some(string_from_utf8_lossy(&data[6..6 + topic_len]))
}

/// The registry of subscriptions: for each topic, the clients that are
/// subscribed to it.
pub struct Subscriptions {
    topics: StringHashMap<Vec<String>>,
}

/// Whether a list of client identifiers holds the given one.
pub open spec fn holds(clients: Seq<String>, client_id: Seq<char>) -> bool {
    exists|i: int| 0 <= i < clients.len() && #[trigger] clients[i]@ == client_id
}

impl View for Subscriptions {
    /// The pairs of topic and client identifier that are subscribed.
    type V = Set<(Seq<char>, Seq<char>)>;

    closed spec fn view(&self) -> Set<(Seq<char>, Seq<char>)> {
        Set::new(
            |pair: (Seq<char>, Seq<char>)|
                self.topics@.contains_key(pair.0) && holds(self.topics@[pair.0]@, pair.1),
        )
    }
}

impl Subscriptions {
    /// A registry without subscriptions.
    pub fn new() -> (subscriptions: Self)
        ensures
            subscriptions@ == Set::<(Seq<char>, Seq<char>)>::empty(),
    {
        let subscriptions = Subscriptions { topics: StringHashMap::new() };
        assert(subscriptions@ =~= Set::<(Seq<char>, Seq<char>)>::empty());
        subscriptions
    }

    /// Whether the client is subscribed to the topic.
    pub fn is_subscribed(&self, topic: &str, client_id: &str) -> (subscribed: bool)
        ensures
            subscribed == self@.contains((topic@, client_id@)),
    {
        match self.topics.get(topic) {
            Some(clients) => contains_client(clients, client_id),
            None => false,
        }
    }

    /// Subscribes the client to the topic. A client that is subscribed to
    /// the topic already stays so: nothing changes.
    pub fn subscribe(&mut self, topic: String, client_id: &str)
        ensures
            final(self)@ == old(self)@.insert((topic@, client_id@)),
    {
        let mut clients: Vec<String> = Vec::new();
        match self.topics.get(topic.as_str()) {
            Some(known) => {
                if contains_client(known, client_id) {
                    assert(self@ =~= old(self)@.insert((topic@, client_id@)));
                    return ;
                }
                let mut i: usize = 0;
                while i < known.len()
                    invariant
                        0 <= i <= known.len(),
                        clients@.len() == i,
                        forall|j: int| 0 <= j < i ==> #[trigger] clients@[j]@ == known@[j]@,
                    decreases known.len() - i,
                {
                    clients.push(known[i].clone());
                    i += 1;
                }
                assert forall|client: Seq<char>| holds(clients@, client) == holds(
                    known@,
                    client,
                ) by {
                    if holds(clients@, client) {
                        let i = choose|i: int|
                            0 <= i < clients@.len() && #[trigger] clients@[i]@ == client;
                        assert(known@[i]@ == client);
                    }
                    if holds(known@, client) {
                        let i = choose|i: int|
                            0 <= i < known@.len() && #[trigger] known@[i]@ == client;
                        assert(clients@[i]@ == client);
                    }
                }
            },
            None => {},
        }
        let ghost copied = clients@;
        let ghost known_before = self.topics@.contains_key(topic@);
        assert(forall|client: Seq<char>|
            holds(copied, client) == (known_before && holds(self.topics@[topic@]@, client)));
        clients.push(String::from_str(client_id));
        assert forall|client: Seq<char>| holds(clients@, client) == (holds(copied, client)
            || client == client_id@) by {
            if holds(clients@, client) {
                let i = choose|i: int|
                    0 <= i < clients@.len() && #[trigger] clients@[i]@ == client;
                if i < copied.len() {
                    assert(copied[i]@ == client);
                }
            }
            if holds(copied, client) {
                let i = choose|i: int| 0 <= i < copied.len() && #[trigger] copied[i]@ == client;
                assert(clients@[i]@ == client);
            }
            if client == client_id@ {
                assert(clients@[copied.len() as int]@ == client);
            }
        }
        let ghost added = clients@;
        self.topics.insert(topic, clients);
        assert forall|pair: (Seq<char>, Seq<char>)|
            self@.contains(pair) == old(self)@.insert((topic@, client_id@)).contains(pair) by {
            if pair.0 == topic@ {
                assert(self.topics@[pair.0]@ == added);
                assert(holds(added, pair.1) == (holds(copied, pair.1) || pair.1 == client_id@));
                assert(holds(copied, pair.1) == (known_before && holds(
                    old(self).topics@[topic@]@,
                    pair.1,
                )));
            }
        }
        assert(self@ =~= old(self)@.insert((topic@, client_id@)));
    }
}

/// Whether a list of client identifiers holds the given one.
fn contains_client(clients: &Vec<String>, client_id: &str) -> (found: bool)
    ensures
        found == holds(clients@, client_id@),
{
    let mut i: usize = 0;
    while i < clients.len()
        invariant
            0 <= i <= clients.len(),
            forall|j: int| 0 <= j < i ==> #[trigger] clients@[j]@ != client_id@,
        decreases clients.len() - i,
    {
        if crate::text::str_eq(clients[i].as_str(), client_id) {
            return true;
        }
        i += 1;
    }
    false
}

/// What a connection handler does next.
#[derive(Debug)]
pub enum HandlerStep {
    /// Write the CONNACK. If that fails, the handler ends with the failure.
    Accept { connack: Vec<u8> },
    /// Hand topic and message to the fan-out channel, for every handler.
    Publish { topic: String, message: String },
    /// Write the SUBACK. A failure is noted and the handler goes on.
    Acknowledge { suback: Vec<u8> },
    /// Write the PUBLISH to this connection's own socket. A failure is noted
    /// and the handler goes on.
    Forward { publish: Vec<u8> },
    /// Nothing is due: go on.
    Continue,
    /// The handler ends: in order where the peer or the channel has closed,
    /// with the failure where reading failed.
    Stop(Result<(), TransportFailure>),
}

/// A [`HandlerStep`] as plain values.
pub enum HandlerStepView {
    Accept { connack: Seq<u8> },
    Publish { topic: Seq<char>, message: Seq<char> },
    Acknowledge { suback: Seq<u8> },
    Forward { publish: Seq<u8> },
    Continue,
    Stop(Result<(), TransportFailure>),
}

impl View for HandlerStep {
    type V = HandlerStepView;

    open spec fn view(&self) -> HandlerStepView {
        match *self {
            HandlerStep::Accept { connack } => HandlerStepView::Accept { connack: connack@ },
            HandlerStep::Publish { topic, message } => HandlerStepView::Publish {
                topic: topic@,
                message: message@,
            },
            HandlerStep::Acknowledge { suback } => HandlerStepView::Acknowledge {
                suback: suback@,
            },
            HandlerStep::Forward { publish } => HandlerStepView::Forward { publish: publish@ },
            HandlerStep::Continue => HandlerStepView::Continue,
            HandlerStep::Stop(end) => HandlerStepView::Stop(end),
        }
    }
}

/// What the fan-out channel handed to a receiver.
#[derive(Debug)]
pub enum FanOut {
    /// A message that some client has published.
    Message { topic: String, message: String },
    /// The receiver had fallen behind, and messages were dropped for it.
    Lagged,
    /// The channel has no sender left.
    Closed,
}

/// A [`FanOut`] as plain values.
pub enum FanOutView {
    Message { topic: Seq<char>, message: Seq<char> },
    Lagged,
    Closed,
}

impl View for FanOut {
    type V = FanOutView;

    open spec fn view(&self) -> FanOutView {
        match *self {
            FanOut::Message { topic, message } => FanOutView::Message {
                topic: topic@,
                message: message@,
            },
            FanOut::Lagged => FanOutView::Lagged,
            FanOut::Closed => FanOutView::Closed,
        }
    }
}

/// A broker and one of its connections as plain values: the subscribed
/// pairs of topic and client identifier, and the connection's own
/// identifier.
pub struct HandlerView {
    pub subscriptions: Set<(Seq<char>, Seq<char>)>,
    pub client_id: Seq<char>,
}

/// What a handler does with what it read, and what is known afterwards.
///
/// A failed read ends the handler with the failure, an empty one ends it in
/// order. CONNECT is answered with CONNACK, and the connection gets
/// `fresh_id` as its identifier. A PUBLISH that decodes goes to the fan-out
/// channel as it is, for every handler. A SUBSCRIBE that decodes subscribes
/// this connection to the topic and is answered with SUBACK. Everything else
/// is passed over.
pub open spec fn read_step(
    before: HandlerView,
    read: Result<Seq<u8>, TransportFailure>,
    fresh_id: Seq<char>,
) -> (HandlerView, HandlerStepView) {
    match read {
        Err(failure) => (before, HandlerStepView::Stop(Err(failure))),
        Ok(data) => if data.len() == 0 {
            (before, HandlerStepView::Stop(Ok(())))
        } else if packet_type_of(data[0]) == PacketType::CONNECT.code() {
            (
                HandlerView { client_id: fresh_id, ..before },
                HandlerStepView::Accept { connack: connack_packet() },
            )
        } else if packet_type_of(data[0]) == PacketType::PUBLISH.code() {
            match received_publish_parts(data) {
                Some((topic, message)) => (
                    before,
                    HandlerStepView::Publish {
                        topic: lossy_text(topic),
                        message: lossy_text(message),
                    },
                ),
                None => (before, HandlerStepView::Continue),
            }
        } else if packet_type_of(data[0]) == PacketType::SUBSCRIBE.code() {
            match received_subscribe_topic(data) {
                Some(topic) => (
                    HandlerView {
                        subscriptions: before.subscriptions.insert(
                            (lossy_text(topic), before.client_id),
                        ),
                        ..before
                    },
                    HandlerStepView::Acknowledge { suback: suback_packet(data) },
                ),
                None => (before, HandlerStepView::Continue),
            }
        } else {
            (before, HandlerStepView::Continue)
        },
    }
}

/// What a handler does with what the fan-out channel handed it. A message
/// is forwarded as a PUBLISH where this connection is subscribed to its
/// topic, and passed over where it is not. A receiver that had fallen behind
/// goes on; a closed channel ends the handler.
pub open spec fn fan_out_step(handler: HandlerView, event: FanOutView) -> HandlerStepView {
    match event {
        FanOutView::Message { topic, message } => if handler.subscriptions.contains(
            (topic, handler.client_id),
        ) {
            HandlerStepView::Forward { publish: publish_packet(topic, message) }
        } else {
            HandlerStepView::Continue
        },
        FanOutView::Lagged => HandlerStepView::Continue,
        FanOutView::Closed => HandlerStepView::Stop(Ok(())),
    }
}

/// What a broker knows of one connection: the client identifier, which is
/// empty until a CONNECT has been answered.
pub struct Session {
    client_id: String,
}

impl View for Session {
    type V = Seq<char>;

    closed spec fn view(&self) -> Seq<char> {
        self.client_id@
    }
}

impl Session {
    /// A connection on which no CONNECT was answered yet.
    pub fn new() -> (session: Self)
        ensures
            session@ == Seq::<char>::empty(),
    {
        Session { client_id: String::new() }
    }

    /// The identifier of the connection's client.
    pub fn client_id(&self) -> (client_id: &str)
        ensures
            client_id@ == self@,
    {
        self.client_id.as_str()
    }
}

/// The broker without its listener: the registry that its connection
/// handlers share, and the rules by which each of them works.
pub struct MqttBroker {
    subscriptions: Subscriptions,
}

impl View for MqttBroker {
    /// The pairs of topic and client identifier that are subscribed.
    type V = Set<(Seq<char>, Seq<char>)>;

    closed spec fn view(&self) -> Set<(Seq<char>, Seq<char>)> {
        self.subscriptions@
    }
}

impl MqttBroker {
    /// A broker without subscriptions.
    pub fn new() -> (broker: Self)
        ensures
            broker@ == Set::<(Seq<char>, Seq<char>)>::empty(),
    {
        MqttBroker { subscriptions: Subscriptions::new() }
    }

    /// Whether the client is subscribed to the topic.
    pub fn is_subscribed(&self, topic: &str, client_id: &str) -> (subscribed: bool)
        ensures
            subscribed == self@.contains((topic@, client_id@)),
    {
        self.subscriptions.is_subscribed(topic, client_id)
    }

    /// Says what the handler of a connection does with what it read from
    /// its socket, and takes note of it: of the identifier after CONNECT,
    /// of the subscription after SUBSCRIBE. The identifier is made from a
    /// random number.
    pub fn handle_read(&mut self, session: &mut Session, read: Reply) -> (step: HandlerStep)
        ensures
            exists|number: u32|
                read_step(
                    HandlerView { subscriptions: old(self)@, client_id: old(session)@ },
                    reply_view(read),
                    #[trigger] client_id_text(number),
                ) == (
                    HandlerView { subscriptions: final(self)@, client_id: final(session)@ },
                    step@,
                ),
    {
        let ghost before = HandlerView { subscriptions: self@, client_id: session@ };
        let data = match read {
            Err(failure) => {
                assert(read_step(before, reply_view(read), client_id_text(0)) == (
                    before,
                    HandlerStepView::Stop(Err(failure)),
                ));
                return HandlerStep::Stop(Err(failure));
            },
            Ok(data) => data,
        };
        if data.len() == 0 {
            assert(read_step(before, reply_view(read), client_id_text(0)) == (
                before,
                HandlerStepView::Stop(Ok(())),
            ));
            return HandlerStep::Stop(Ok(()));
        }
        let packet_type: u8 = match parse_packet_type(data[0]) {
            Some(packet_type) => packet_type,
            None => 0,
        };
        if packet_type == PacketType::CONNECT.as_u8() {
            let (connack, client_id) = handle_connect(data.as_slice());
            session.client_id = client_id;
            let ghost number = choose|number: u32| session@ == client_id_text(number);
            assert(read_step(before, reply_view(read), client_id_text(number)) == (
                HandlerView { subscriptions: self@, client_id: session@ },
                HandlerStepView::Accept { connack: connack@ },
            ));
            HandlerStep::Accept { connack }
        } else if packet_type == PacketType::PUBLISH.as_u8() {
            let step = match parse_publish(data.as_slice()) {
                Some((topic, message)) => HandlerStep::Publish { topic, message },
                None => HandlerStep::Continue,
            };
            assert(read_step(before, reply_view(read), client_id_text(0)) == (before, step@));
            step
        } else if packet_type == PacketType::SUBSCRIBE.as_u8() {
            let step = match parse_subscribe(data.as_slice()) {
                Some(topic) => {
                    self.subscriptions.subscribe(topic, session.client_id.as_str());
                    HandlerStep::Acknowledge { suback: encode_suback(data.as_slice()) }
                },
                None => HandlerStep::Continue,
            };
            assert(read_step(before, reply_view(read), client_id_text(0)) == (
                HandlerView { subscriptions: self@, client_id: session@ },
                step@,
            ));
            step
        } else {
            assert(read_step(before, reply_view(read), client_id_text(0)) == (
                before,
                HandlerStepView::Continue,
            ));
            HandlerStep::Continue
        }
    }

    /// Says what the handler of a connection does with what the fan-out
    /// channel handed it.
    pub fn handle_broadcast(&self, session: &Session, event: FanOut) -> (step: HandlerStep)
        ensures
            step@ == fan_out_step(
                HandlerView { subscriptions: self@, client_id: session@ },
                event@,
            ),
    {
        match event {
            FanOut::Message { topic, message } => {
                if self.subscriptions.is_subscribed(topic.as_str(), session.client_id.as_str()) {
                    HandlerStep::Forward {
                        publish: encode_publish(topic.as_str(), message.as_str()),
                    }
                } else {
                    HandlerStep::Continue
                }
            },
            FanOut::Lagged => HandlerStep::Continue,
            FanOut::Closed => HandlerStep::Stop(Ok(())),
        }
    }
}

} // verus!
