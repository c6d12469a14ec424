//! What holds of the engine as a whole: of the codec read against itself,
//! of the client walking through its states, and of a message on its way
//! from a publisher through the broker to a subscriber.

use crate::client::{
    begin, complete, connack_verdict, connect_packet, finish, listen_step, suback_verdict,
    verdict, ClientView, ListenStepView, RequestView,
};
use crate::codec::{
    connack_packet, disconnect_packet, framed, parsed_packet, publish_body, publish_packet,
    publish_payload_parts, remaining_length_bytes, suback_packet, subscribe_body,
    subscribe_packet,
};
use crate::error::{ClientError, TransportFailure};
use crate::patterns::commands::{CommandKind, Intent};
use crate::patterns::states::ClientState;
use crate::protocol::protocol_name_is_four_bytes;
use crate::server::{
    fan_out_step, read_step, received_publish_parts, received_subscribe_topic, FanOutView,
    HandlerStepView, HandlerView,
};
use crate::text::{lossy_text, lossy_text_of_encoded};
use vstd::prelude::*;
use vstd::utf8::encode_utf8;

verus! {

/// The number that a remaining-length field stands for: each byte gives
/// seven bits, least significant group first, and a byte below 128 ends the
/// field.
pub open spec fn remaining_length_value(bytes: Seq<u8>) -> nat
    decreases bytes.len(),
{
    if bytes.len() == 0 {
        0
    } else if bytes[0] < 128 {
        bytes[0] as nat
    } else {
        (bytes[0] - 128) as nat + 128 * remaining_length_value(bytes.drop_first())
    }
}

/// A remaining-length field stands for the length it was made from: nothing
/// is lost in encoding, however long the packet.
pub proof fn remaining_length_round_trip(length: nat)
    ensures
        remaining_length_value(remaining_length_bytes(length)) == length,
        remaining_length_bytes(length).len() >= 1,
    decreases length,
{
    if length >= 128 {
        remaining_length_round_trip(length / 128);
        let field = remaining_length_bytes(length);
        assert(field.drop_first() =~= remaining_length_bytes(length / 128));
    }
}

/// A length below 128 takes one byte, the length itself; a length from 128
/// up to 16383 takes two.
pub proof fn remaining_length_of_short_packets(length: nat)
    ensures
        length < 128 ==> remaining_length_bytes(length) == seq![length as u8],
        128 <= length < 16384 ==> remaining_length_bytes(length) == seq![
            (length % 128 + 128) as u8,
            (length / 128) as u8,
        ],
{
    if 128 <= length < 16384 {
        assert(remaining_length_bytes(length / 128) == seq![(length / 128) as u8]);
        assert(remaining_length_bytes(length) =~= seq![
            (length % 128 + 128) as u8,
            (length / 128) as u8,
        ]);
    }
}

/// A packet whose body is no longer than 127 bytes decodes to the type in
/// its header and to its body.
pub proof fn framed_packet_parses(header: u8, body: Seq<u8>)
    requires
        body.len() <= 127,
    ensures
        parsed_packet(framed(header, body)) == Some((header / 16, body)),
{
    let data = framed(header, body);
    assert(data[1] == body.len());
    assert(data.subrange(2, 2 + data[1]) =~= body);
}

/// The body of a PUBLISH divides again into the topic and the message it was
/// made from, where the topic's length fits its two bytes and the message is
/// not empty, and what is read back is the text that was sent.
pub proof fn publish_body_divides(topic: Seq<char>, message: Seq<char>)
    requires
        encode_utf8(topic).len() <= 0xFFFF,
        encode_utf8(message).len() >= 1,
        encode_utf8(topic).len() + encode_utf8(message).len() >= 2,
    ensures
        publish_payload_parts(publish_body(topic, message)) == Some(
            (encode_utf8(topic), encode_utf8(message)),
        ),
        lossy_text(encode_utf8(topic)) == topic,
        lossy_text(encode_utf8(message)) == message,
{
    let t = encode_utf8(topic);
    let m = encode_utf8(message);
    let body = publish_body(topic, message);
    let size = t.len() as int;
    assert(size % 0x10000 == size);
    assert(body[0] == ((size as u16) / 256) as u8);
    assert(body[1] == ((size as u16) % 256) as u8);
    assert(body[0] * 256 + body[1] == size);
    assert(body.subrange(2, 2 + size) =~= t);
    assert(body.subrange(2 + size, body.len() as int) =~= m);
    lossy_text_of_encoded(topic);
    lossy_text_of_encoded(message);
}

/// The broker reads from a client's PUBLISH the topic and the message that
/// the client published, where the packet's body is no longer than 127
/// bytes and the message is not empty.
pub proof fn broker_reads_publish(topic: Seq<char>, message: Seq<char>)
    requires
        encode_utf8(message).len() >= 1,
        2 + encode_utf8(topic).len() + encode_utf8(message).len() <= 127,
    ensures
        publish_packet(topic, message)[0] == 0x30,
        received_publish_parts(publish_packet(topic, message)) == Some(
            (encode_utf8(topic), encode_utf8(message)),
        ),
{
    let t = encode_utf8(topic);
    let m = encode_utf8(message);
    let data = publish_packet(topic, message);
    let body = publish_body(topic, message);
    let size = t.len() as int;
    assert(body.len() == 2 + size + m.len());
    assert(data[1] == body.len());
    assert(size % 0x10000 == size);
    assert(data[2] == body[0]);
    assert(data[3] == body[1]);
    assert(data[2] * 256 + data[3] == size);
    assert(data.len() == 2 + data[1]);
    assert(data.subrange(4, 4 + size) =~= t);
    assert(data.subrange(4 + size, 2 + data[1]) =~= m);
}

/// The broker and a client read a PUBLISH alike: where a client finds a
/// PUBLISH in a buffer and divides its body into topic and message, the
/// broker reads the same topic and the same message from that buffer.
/// Neither takes what was received after the packet for a part of it.
pub proof fn broker_and_client_read_publish_alike(
    data: Seq<u8>,
    packet_type: u8,
    payload: Seq<u8>,
)
    requires
        parsed_packet(data) == Some((packet_type, payload)),
        publish_payload_parts(payload) is Some,
    ensures
        received_publish_parts(data) == publish_payload_parts(payload),
{
    let topic_end = 2 + (payload[0] * 256 + payload[1]);
    assert(payload[0] == data[2]);
    assert(payload[1] == data[3]);
    assert(payload.subrange(2, topic_end) =~= data.subrange(4, 2 + topic_end));
    assert(payload.subrange(topic_end, payload.len() as int) =~= data.subrange(
        2 + topic_end,
        2 + data[1],
    ));
}

/// The broker reads from a client's SUBSCRIBE the topic that the client
/// subscribed to, where the packet's body is no longer than 127 bytes.
pub proof fn broker_reads_subscribe(topic: Seq<char>)
    requires
        5 + encode_utf8(topic).len() <= 127,
    ensures
        subscribe_packet(topic)[0] == 0x82,
        received_subscribe_topic(subscribe_packet(topic)) == Some(encode_utf8(topic)),
{
    let t = encode_utf8(topic);
    let data = subscribe_packet(topic);
    let body = subscribe_body(topic);
    let size = t.len() as int;
    assert(body.len() == 5 + size);
    assert(data[1] == body.len());
    assert(size % 0x10000 == size);
    assert(data[4] == body[2]);
    assert(data[5] == body[3]);
    assert(data[4] * 256 + data[5] == size);
    assert(data.subrange(6, 6 + size) =~= t);
}

/// The CONNECT packet of a client whose identifier takes at most 115 bytes,
/// byte by byte: the header, the remaining length in one byte, the protocol
/// name `MQTT` with its length, protocol level 4, the clean-session flag, a
/// keep-alive of 60 seconds, and the identifier with its length.
pub proof fn connect_packet_layout(client_id: Seq<char>)
    requires
        encode_utf8(client_id).len() <= 115,
    ensures
        connect_packet(client_id) == seq![
            0x10u8,
            (12 + encode_utf8(client_id).len()) as u8,
            0x00u8,
            0x04u8,
            0x4Du8,
            0x51u8,
            0x54u8,
            0x54u8,
            0x04u8,
            0x02u8,
            0x00u8,
            60u8,
            0x00u8,
            encode_utf8(client_id).len() as u8,
        ] + encode_utf8(client_id),
{
    protocol_name_is_four_bytes();
    let id = encode_utf8(client_id);
    let size = id.len() as int;
    assert(size % 0x10000 == size);
    assert(connect_packet(client_id) =~= seq![
        0x10u8,
        (12 + size) as u8,
        0x00u8,
        0x04u8,
        0x4Du8,
        0x51u8,
        0x54u8,
        0x54u8,
        0x04u8,
        0x02u8,
        0x00u8,
        60u8,
        0x00u8,
        size as u8,
    ] + id);
}

/// The broker answers a client's CONNECT with the CONNACK that the client
/// takes for success, and gives the connection its new identifier. It knows
/// a CONNECT by its first byte alone.
pub proof fn broker_accepts_connect(
    handler: HandlerView,
    client_id: Seq<char>,
    fresh_id: Seq<char>,
)
    ensures
        read_step(handler, Ok(connect_packet(client_id)), fresh_id) == (
            HandlerView { client_id: fresh_id, ..handler },
            HandlerStepView::Accept { connack: connack_packet() },
        ),
        verdict(CommandKind::Connect, Ok(connack_packet())) is Ok,
{
    assert(connect_packet(client_id)[0] == 0x10);
}

/// A client takes the broker's answers for success: the CONNACK that the
/// broker sends accepts the connection, and the SUBACK that it sends for
/// whatever SUBSCRIBE it read acknowledges the subscription.
pub proof fn client_accepts_the_brokers_answers(subscribe: Seq<u8>)
    ensures
        connack_verdict(connack_packet()) is Ok,
        suback_verdict(suback_packet(subscribe)) is Ok,
{
    let suback = suback_packet(subscribe);
    assert(suback.len() == 5);
    assert(suback[1] == 3);
    assert(suback[0] == 0x90);
}

/// A command that the state does not allow is refused before any I/O: the
/// client is left as it was, and the error is a state violation that holds
/// the command and the state.
pub proof fn refused_command_changes_nothing(client: ClientView, intent: Intent)
    requires
        !client.state.allows(intent.kind()),
    ensures
        begin(client, intent) == (
            client,
            Err::<RequestView, ClientError>(
                ClientError::StateViolation { command: intent.kind(), state: client.state },
            ),
        ),
{
}

/// A publish that is attempted while Disconnected fails with a state
/// violation whose message names Publish and Disconnected.
pub proof fn publish_while_disconnected_is_refused(
    client: ClientView,
    topic: Seq<char>,
    message: Seq<char>,
)
    requires
        client.state == ClientState::Disconnected,
    ensures
        begin(client, Intent::Publish(topic, message)).0 == client,
        begin(client, Intent::Publish(topic, message)).1 matches Err(error) && error.text()
            == "Cannot execute Publish command in Disconnected state"@,
{
    reveal_strlit("Cannot execute Publish command in Disconnected state");
    reveal_strlit("Cannot execute ");
    reveal_strlit("Publish");
    reveal_strlit(" command in ");
    reveal_strlit("Disconnected");
    reveal_strlit(" state");
    let error = ClientError::StateViolation {
        command: CommandKind::Publish,
        state: ClientState::Disconnected,
    };
    assert(error.text() =~= "Cannot execute Publish command in Disconnected state"@);
}

/// A client's life from connecting to disconnecting. From Disconnected, a
/// connect is accepted and makes the client Connecting; a CONNACK that
/// accepts makes it Connected. A publish then succeeds and changes nothing.
/// A disconnect makes the client Disconnecting, and its end Disconnected,
/// whatever the transport reported.
pub proof fn connection_walks_through_its_states(
    client: ClientView,
    addr: Seq<char>,
    connack: Seq<u8>,
    topic: Seq<char>,
    message: Seq<char>,
    farewell: Result<Seq<u8>, TransportFailure>,
)
    requires
        client.state == ClientState::Disconnected,
        connack_verdict(connack) is Ok,
    ensures
        ({
            let connecting = begin(client, Intent::Connect(addr));
            let connected = complete(connecting.0, CommandKind::Connect, Ok(connack));
            let published = begin(connected, Intent::Publish(topic, message));
            let disconnecting = begin(connected, Intent::Disconnect);
            let disconnected = complete(disconnecting.0, CommandKind::Disconnect, farewell);
            &&& connecting.1 is Ok
            &&& connecting.0.state == ClientState::Connecting
            &&& connected.state == ClientState::Connected
            &&& connected.transport_open
            &&& finish(connecting.0, CommandKind::Connect, Ok(connack)) == connected
            &&& published.0 == connected
            &&& published.1 == Ok::<RequestView, ClientError>(
                RequestView::Publish { packet: publish_packet(topic, message) },
            )
            &&& disconnecting.1 == Ok::<RequestView, ClientError>(
                RequestView::Disconnect { packet: disconnect_packet() },
            )
            &&& disconnecting.0.state == ClientState::Disconnecting
            &&& disconnected.state == ClientState::Disconnected
            &&& !disconnected.transport_open
        }),
{
}

/// A connect that fails leaves the client Disconnected, whatever state it
/// was in and whatever the failure; and a CONNACK whose return code is not
/// zero is such a failure.
pub proof fn failed_connect_ends_disconnected(
    client: ClientView,
    reply: Result<Seq<u8>, TransportFailure>,
)
    ensures
        verdict(CommandKind::Connect, reply) is Err ==> complete(
            client,
            CommandKind::Connect,
            reply,
        ).state == ClientState::Disconnected && finish(client, CommandKind::Connect, reply).state
            == ClientState::Disconnected,
        reply matches Ok(data) && data.len() >= 4 && data[3] != 0 ==> verdict(
            CommandKind::Connect,
            reply,
        ) is Err,
{
}

/// Whether a client that is Connected holds a transport.
pub open spec fn connected_has_transport(client: ClientView) -> bool {
    client.state == ClientState::Connected ==> client.transport_open
}

/// A Connected client always holds a transport. That holds of a new client,
/// and no operation, however it ends, makes it fail: so Subscribe and
/// Publish, which are allowed only while Connected, never find the
/// transport missing.
pub proof fn connected_client_holds_a_transport(
    client: ClientView,
    intent: Intent,
    command: CommandKind,
    reply: Result<Seq<u8>, TransportFailure>,
)
    requires
        connected_has_transport(client),
    ensures
        connected_has_transport(begin(client, intent).0),
        connected_has_transport(complete(client, command, reply)),
        connected_has_transport(finish(client, command, reply)),
        begin(client, intent).1 != Err::<RequestView, ClientError>(ClientError::NotConnected),
{
}

/// A message on its way. A client subscribes to a topic, and the broker
/// acknowledges in a way the client accepts. When some client publishes a
/// message on that topic, the broker hands it to the fan-out channel as it
/// is. The subscriber's handler forwards it as a PUBLISH, from which the
/// subscriber reads the topic and the message that were published and finds
/// the handlers registered for the topic. The handler of a client that is
/// not subscribed to the topic forwards nothing.
pub proof fn published_message_reaches_subscribers(
    subscriptions: Set<(Seq<char>, Seq<char>)>,
    subscriber: Seq<char>,
    publisher: Seq<char>,
    bystander: Seq<char>,
    fresh_id: Seq<char>,
    topic: Seq<char>,
    message: Seq<char>,
    listener: ClientView,
)
    requires
        5 + encode_utf8(topic).len() <= 127,
        2 + encode_utf8(topic).len() + encode_utf8(message).len() <= 127,
        encode_utf8(message).len() >= 1,
        encode_utf8(topic).len() + encode_utf8(message).len() >= 2,
        bystander != subscriber,
        !subscriptions.contains((topic, bystander)),
    ensures
        ({
            let subscribed = read_step(
                HandlerView { subscriptions, client_id: subscriber },
                Ok(subscribe_packet(topic)),
                fresh_id,
            );
            let published = read_step(
                HandlerView { subscriptions: subscribed.0.subscriptions, client_id: publisher },
                Ok(publish_packet(topic, message)),
                fresh_id,
            );
            let event = FanOutView::Message { topic, message };
            &&& subscribed.1 == HandlerStepView::Acknowledge {
                suback: suback_packet(subscribe_packet(topic)),
            }
            &&& suback_verdict(suback_packet(subscribe_packet(topic))) is Ok
            &&& subscribed.0.subscriptions == subscriptions.insert((topic, subscriber))
            &&& published.1 == HandlerStepView::Publish { topic, message }
            &&& published.0.subscriptions == subscribed.0.subscriptions
            &&& fan_out_step(
                HandlerView { subscriptions: published.0.subscriptions, client_id: subscriber },
                event,
            ) == HandlerStepView::Forward { publish: publish_packet(topic, message) }
            &&& fan_out_step(
                HandlerView { subscriptions: published.0.subscriptions, client_id: bystander },
                event,
            ) == HandlerStepView::Continue
            &&& listen_step(listener, Ok(publish_packet(topic, message)))
                == ListenStepView::Deliver {
                topic,
                message,
                handlers: listener.handlers_of(topic),
            }
        }),
{
    broker_reads_subscribe(topic);
    broker_reads_publish(topic, message);
    client_accepts_the_brokers_answers(subscribe_packet(topic));
    publish_body_divides(topic, message);
    framed_packet_parses(0x30, publish_body(topic, message));
    lossy_text_of_encoded(topic);
    lossy_text_of_encoded(message);
    assert(publish_packet(topic, message).len() > 0);
    assert(subscribe_packet(topic).len() > 0);
}

} // verus!
