//! The client engine: the connection state machine, the packets that each
//! operation sends, the verdict on each response, and the registry of
//! message handlers.
//!
//! The engine owns no socket. An operation is asked for first: the engine
//! checks the state and answers with a [`Request`], the I/O that is now due.
//! The caller performs it and reports what the transport gave back; the
//! engine then decides how the operation ended and which state follows.

use crate::buffer::{as_slice, be16, buffer_bytes};
use crate::codec::{
    disconnect_packet, encode_disconnect, encode_publish, encode_remaining_length,
    encode_subscribe, extract_publish_payload, fixed_header, framed, length_prefixed,
    parse_packet, parsed_packet, publish_packet, publish_payload_parts, remaining_length_bytes,
    subscribe_packet,
};
use crate::error::{ClientError, TransportFailure};
use crate::packet::ConnectPacket;
use crate::patterns::commands::{Command, CommandKind, Intent};
use crate::patterns::states::ClientState;
use crate::protocol::{PacketType, CLEAN_SESSION, MQTT_PROTOCOL_NAME, MQTT_PROTOCOL_VERSION};
use crate::text::lossy_text;
use bytes::BytesMut;
use vstd::hash_map::StringHashMap;
use vstd::prelude::*;
use vstd::slice::slice_to_vec;
use vstd::utf8::encode_utf8;

verus! {

/// Names a message handler that the caller keeps.
pub type HandlerId = u64;

/// How many bytes are read at most for the response to CONNECT.
pub const CONNACK_READ_LIMIT: usize = 4;

/// How many bytes are read at most for the response to SUBSCRIBE.
pub const SUBACK_READ_LIMIT: usize = 20;

/// How many bytes are read at most in one step of listening.
pub const LISTEN_READ_LIMIT: usize = 1024;

/// What the transport gave back: the bytes that were read, or the step that
/// failed. No bytes at all means that the peer has closed the connection.
pub type Reply = Result<Vec<u8>, TransportFailure>;

/// The I/O that is due after an operation was accepted.
#[derive(Debug)]
pub enum Request {
    /// Open a transport to `addr`, write `packet`, and read the response.
    Connect { addr: String, packet: Vec<u8> },
    /// Write `packet` and read the response.
    Subscribe { packet: Vec<u8> },
    /// Write `packet`. No response is waited for.
    Publish { packet: Vec<u8> },
    /// Write `packet` and shut the transport down, ignoring failures of
    /// either, then let go of the transport.
    Disconnect { packet: Vec<u8> },
}

/// A [`Request`] as plain values.
pub enum RequestView {
    Connect { addr: Seq<char>, packet: Seq<u8> },
    Subscribe { packet: Seq<u8> },
    Publish { packet: Seq<u8> },
    Disconnect { packet: Seq<u8> },
}

impl View for Request {
    type V = RequestView;

    open spec fn view(&self) -> RequestView {
        match *self {
            Request::Connect { addr, packet } => RequestView::Connect {
                addr: addr@,
                packet: packet@,
            },
            Request::Subscribe { packet } => RequestView::Subscribe { packet: packet@ },
            Request::Publish { packet } => RequestView::Publish { packet: packet@ },
            Request::Disconnect { packet } => RequestView::Disconnect { packet: packet@ },
        }
    }
}

impl RequestView {
    /// The packet that is to be written.
    pub open spec fn packet(self) -> Seq<u8> {
        match self {
            RequestView::Connect { packet, .. } => packet,
            RequestView::Subscribe { packet } => packet,
            RequestView::Publish { packet } => packet,
            RequestView::Disconnect { packet } => packet,
        }
    }

    /// How many bytes of response are to be read at most: none where no
    /// response is waited for.
    pub open spec fn read_limit(self) -> usize {
        match self {
            RequestView::Connect { .. } => CONNACK_READ_LIMIT,
            RequestView::Subscribe { .. } => SUBACK_READ_LIMIT,
            RequestView::Publish { .. } => 0,
            RequestView::Disconnect { .. } => 0,
        }
    }
}

impl Request {
    /// The packet that is to be written.
    pub fn packet(&self) -> (packet: &Vec<u8>)
        ensures
            packet@ == self@.packet(),
    {
        match self {
            Request::Connect { packet, .. } => packet,
            Request::Subscribe { packet } => packet,
            Request::Publish { packet } => packet,
            Request::Disconnect { packet } => packet,
        }
    }

    /// How many bytes of response are to be read at most: 4 after CONNECT,
    /// 20 after SUBSCRIBE, and none where no response is waited for.
    pub fn read_limit(&self) -> (limit: usize)
        ensures
            limit == self@.read_limit(),
    {
        match self {
            Request::Connect { .. } => CONNACK_READ_LIMIT,
            Request::Subscribe { .. } => SUBACK_READ_LIMIT,
            Request::Publish { .. } => 0,
            Request::Disconnect { .. } => 0,
        }
    }
}

/// The outcome of asking for an operation, as plain values.
pub open spec fn outcome_view(outcome: Result<Request, ClientError>) -> Result<
    RequestView,
    ClientError,
> {
    match outcome {
        Ok(request) => Ok(request@),
        Err(error) => Err(error),
    }
}

/// What the transport gave back, as plain values.
pub open spec fn reply_view(reply: Reply) -> Result<Seq<u8>, TransportFailure> {
    match reply {
        Ok(data) => Ok(data@),
        Err(failure) => Err(failure),
    }
}

/// A client as plain values.
#[verifier::ext_equal]
pub struct ClientView {
    pub client_id: Seq<char>,
    pub state: ClientState,
    /// Whether the client holds a transport.
    pub transport_open: bool,
    /// For each topic with handlers, the handlers in the order in which they
    /// were registered.
    pub handlers: Map<Seq<char>, Seq<HandlerId>>,
}

impl ClientView {
    /// The handlers that are called for a message on `topic`, in order.
    pub open spec fn handlers_of(self, topic: Seq<char>) -> Seq<HandlerId> {
        if self.handlers.contains_key(topic) {
            self.handlers[topic]
        } else {
            Seq::empty()
        }
    }

    /// The client in the state that a request to go to `target` leaves it in.
    pub open spec fn moved_to(self, target: ClientState) -> ClientView {
        ClientView { state: self.state.after(target), ..self }
    }
}

/// The CONNECT packet that a client with the given identifier sends.
pub open spec fn connect_packet(client_id: Seq<char>) -> Seq<u8> {
    framed(
        fixed_header(PacketType::CONNECT, 0),
        length_prefixed(encode_utf8(MQTT_PROTOCOL_NAME@)) + seq![
            MQTT_PROTOCOL_VERSION,
            CLEAN_SESSION,
        ] + be16(60) + length_prefixed(encode_utf8(client_id)),
    )
}

/// The verdict on the response to CONNECT. It must be a CONNACK of at least
/// four bytes whose return code, the fourth byte, is zero.
pub open spec fn connack_verdict(data: Seq<u8>) -> Result<(), ClientError> {
    if data.len() == 0 {
        Err(ClientError::NoResponse(CommandKind::Connect))
    } else if data[0] / 16 != PacketType::CONNACK.code() || data.len() < 4 {
        Err(ClientError::InvalidResponse(CommandKind::Connect))
    } else if data[3] != 0 {
        Err(ClientError::ConnectionRejected(data[3]))
    } else {
        Ok(())
    }
}

/// The verdict on the response to SUBSCRIBE. A SUBACK is success, and so is
/// a PUBLISH that arrives before it.
pub open spec fn suback_verdict(data: Seq<u8>) -> Result<(), ClientError> {
    if data.len() == 0 {
        Err(ClientError::NoResponse(CommandKind::Subscribe))
    } else {
        match parsed_packet(data) {
            None => Err(ClientError::InvalidResponse(CommandKind::Subscribe)),
            Some((packet_type, _)) => if packet_type == PacketType::SUBACK.code() || packet_type
                == PacketType::PUBLISH.code() {
                Ok(())
            } else {
                Err(ClientError::UnexpectedResponse(packet_type))
            },
        }
    }
}

/// Asking for an operation: the client afterwards, and the I/O that is due
/// or the reason why the operation was refused.
///
/// An operation that the state does not allow is refused with a state
/// violation and changes nothing. Connect moves the client to Connecting,
/// Disconnect to Disconnecting. Subscribe and Publish need a transport.
pub open spec fn begin(before: ClientView, intent: Intent) -> (
    ClientView,
    Result<RequestView, ClientError>,
) {
    if !before.state.allows(intent.kind()) {
        (
            before,
            Err(ClientError::StateViolation { command: intent.kind(), state: before.state }),
        )
    } else {
        match intent {
            Intent::Connect(addr) => (
                before.moved_to(ClientState::Connecting),
                Ok(RequestView::Connect { addr, packet: connect_packet(before.client_id) }),
            ),
            Intent::Subscribe(topic) => if before.transport_open {
                (before, Ok(RequestView::Subscribe { packet: subscribe_packet(topic) }))
            } else {
                (before, Err(ClientError::NotConnected))
            },
            Intent::Publish(topic, message) => if before.transport_open {
                (before, Ok(RequestView::Publish { packet: publish_packet(topic, message) }))
            } else {
                (before, Err(ClientError::NotConnected))
            },
            Intent::Disconnect => (
                before.moved_to(ClientState::Disconnecting),
                Ok(RequestView::Disconnect { packet: disconnect_packet() }),
            ),
        }
    }
}

/// How an operation ends, given what the transport gave back.
pub open spec fn verdict(command: CommandKind, reply: Result<Seq<u8>, TransportFailure>) -> Result<
    (),
    ClientError,
> {
    match command {
        CommandKind::Disconnect => Ok(()),
        _ => match reply {
            Err(failure) => Err(ClientError::Transport(failure)),
            Ok(data) => match command {
                CommandKind::Connect => connack_verdict(data),
                CommandKind::Subscribe => suback_verdict(data),
                _ => Ok(()),
            },
        },
    }
}

/// The client after an operation has ended.
///
/// Connect ends in Connected on success and in Disconnected on any failure,
/// and the client holds a transport from the moment one was opened.
/// Disconnect lets go of the transport and ends in Disconnected, whatever
/// the transport reported. Subscribe and Publish change nothing.
pub open spec fn complete(
    before: ClientView,
    command: CommandKind,
    reply: Result<Seq<u8>, TransportFailure>,
) -> ClientView {
    match command {
        CommandKind::Connect => ClientView {
            state: before.state.after(
                if verdict(command, reply) is Ok {
                    ClientState::Connected
                } else {
                    ClientState::Disconnected
                },
            ),
            transport_open: before.transport_open || reply != Err::<
                Seq<u8>,
                TransportFailure,
            >(TransportFailure::Open),
            ..before
        },
        CommandKind::Disconnect => ClientView {
            state: before.state.after(ClientState::Disconnected),
            transport_open: false,
            ..before
        },
        _ => before,
    }
}

/// The client after a command has ended. It is the client after the
/// operation has ended, but that a Connect which succeeded leaves the client
/// in Connected whatever state it was in before.
pub open spec fn finish(
    before: ClientView,
    command: CommandKind,
    reply: Result<Seq<u8>, TransportFailure>,
) -> ClientView {
    if command == CommandKind::Connect && verdict(command, reply) is Ok {
        ClientView { state: ClientState::Connected, ..complete(before, command, reply) }
    } else {
        complete(before, command, reply)
    }
}

/// What one read means to a listening client.
#[derive(Debug)]
pub enum ListenStep {
    /// A message arrived: call these handlers in this order, each with the
    /// topic and the message, then read on.
    Deliver { topic: String, message: String, handlers: Vec<HandlerId> },
    /// Nothing to deliver: read on.
    Continue,
    /// Listening is over: cleanly where the peer closed the connection, with
    /// an error where the read failed.
    Stop(Result<(), ClientError>),
}

/// A [`ListenStep`] as plain values.
pub enum ListenStepView {
    Deliver { topic: Seq<char>, message: Seq<char>, handlers: Seq<HandlerId> },
    Continue,
    Stop(Result<(), ClientError>),
}

impl View for ListenStep {
    type V = ListenStepView;

    open spec fn view(&self) -> ListenStepView {
        match *self {
            ListenStep::Deliver { topic, message, handlers } => ListenStepView::Deliver {
                topic: topic@,
                message: message@,
                handlers: handlers@,
            },
            ListenStep::Continue => ListenStepView::Continue,
            ListenStep::Stop(end) => ListenStepView::Stop(end),
        }
    }
}

/// What one read means to a listening client: a failed read ends listening
/// with an error, an empty one ends it cleanly, a PUBLISH whose body divides
/// into topic and message is delivered to the topic's handlers in the order
/// of their registration, and anything else is passed over.
pub open spec fn listen_step(client: ClientView, reply: Result<Seq<u8>, TransportFailure>)
    -> ListenStepView {
    match reply {
        Err(failure) => ListenStepView::Stop(Err(ClientError::Transport(failure))),
        Ok(data) => if data.len() == 0 {
            ListenStepView::Stop(Ok(()))
        } else {
            match parsed_packet(data) {
                Some((packet_type, payload)) => if packet_type == PacketType::PUBLISH.code() {
                    match publish_payload_parts(payload) {
                        Some((topic, message)) => ListenStepView::Deliver {
                            topic: lossy_text(topic),
                            message: lossy_text(message),
                            handlers: client.handlers_of(lossy_text(topic)),
                        },
                        None => ListenStepView::Continue,
                    }
                } else {
                    ListenStepView::Continue
                },
                None => ListenStepView::Continue,
            }
        },
    }
}

/// An MQTT client without its socket.
pub struct MqttClient {
    client_id: String,
    transport_open: bool,
    subscriptions: StringHashMap<Vec<HandlerId>>,
    state: ClientState,
}

impl View for MqttClient {
    type V = ClientView;

    closed spec fn view(&self) -> ClientView {
        ClientView {
            client_id: self.client_id@,
            state: self.state,
            transport_open: self.transport_open,
            handlers: Map::new(
                |topic: Seq<char>| self.subscriptions@.contains_key(topic),
                |topic: Seq<char>| self.subscriptions@[topic]@,
            ),
        }
    }
}

impl MqttClient {
    /// A client that is Disconnected, holds no transport and has no handlers.
    pub fn new(client_id: String) -> (client: Self)
        ensures
            client@ == (ClientView {
                client_id: client_id@,
                state: ClientState::Disconnected,
                transport_open: false,
                handlers: Map::empty(),
            }),
    {
        let client = MqttClient {
            client_id,
            transport_open: false,
            subscriptions: StringHashMap::new(),
            state: ClientState::Disconnected,
        };
        assert(client@.handlers =~= Map::empty());
        client
    }

    /// The state the client is in.
    pub fn get_state(&self) -> (state: ClientState)
        ensures
            state == self@.state,
    {
        self.state
    }

    /// Whether the client holds a transport.
    pub fn has_transport(&self) -> (open: bool)
        ensures
            open == self@.transport_open,
    {
        self.transport_open
    }

    /// Puts the client into `state` without asking the transition table.
    fn set_state(&mut self, state: ClientState)
        ensures
            final(self)@ == (ClientView { state, ..old(self)@ }),
    {
        self.state = state;
    }

    /// Asks for a transition. One that the table does not hold is rejected,
    /// and the client stays in the state it was in.
    fn transition_to(&mut self, target_state: ClientState)
        ensures
            final(self)@ == old(self)@.moved_to(target_state),
    {
        if let Some(new_state) = self.state.transition_to(target_state) {
            self.state = new_state;
        }
    }

    /// Asks to execute a command.
    ///
    /// Permission is looked up under the command's canonical name. A command
    /// that the state does not allow is refused with a state violation that
    /// holds the command and the state; the client is left as it was and no
    /// I/O is due. An allowed command is handed the client. When the I/O of
    /// the request is done, `complete_command` is to be called.
    pub fn execute_command<C: Command>(&mut self, command: &C) -> (outcome: Result<
        Request,
        ClientError,
    >)
        ensures
            final(self)@ == begin(old(self)@, command.intent()).0,
            outcome_view(outcome) == begin(old(self)@, command.intent()).1,
    {
        proof {
            command.intent().kind().names_are_distinct();
        }
        match CommandKind::from_name(command.get_name()) {
            Some(kind) => {
                if !self.state.can_execute(kind) {
                    return Err(ClientError::StateViolation { command: kind, state: self.state });
                }
            },
            None => {},
        }
        command.execute(self)
    }

    /// Ends a command with what the transport gave back.
    ///
    /// The operation is ended as `complete_connect`, `complete_subscribe`,
    /// `complete_publish` or `complete_disconnect` ends it. After a Connect
    /// that succeeded the client is put into Connected.
    pub fn complete_command<C: Command>(&mut self, command: &C, reply: Reply) -> (outcome: Result<
        (),
        ClientError,
    >)
        ensures
            outcome == verdict(command.intent().kind(), reply_view(reply)),
            final(self)@ == finish(old(self)@, command.intent().kind(), reply_view(reply)),
    {
        proof {
            command.intent().kind().names_are_distinct();
        }
        match CommandKind::from_name(command.get_name()) {
            Some(CommandKind::Connect) => {
                let outcome = self.complete_connect(reply);
                if outcome.is_ok() {
                    self.set_state(ClientState::Connected);
                }
                outcome
            },
            Some(CommandKind::Subscribe) => self.complete_subscribe(reply),
            Some(CommandKind::Publish) => self.complete_publish(reply),
            _ => {
                self.complete_disconnect();
                Ok(())
            },
        }
    }

    /// Asks to connect to the broker at `addr`.
    ///
    /// Allowed only while Disconnected: the client then becomes Connecting,
    /// and the request holds the CONNECT packet for this client's
    /// identifier. The response is to be reported to `complete_connect`.
    pub fn connect(&mut self, addr: &str) -> (outcome: Result<Request, ClientError>)
        ensures
            final(self)@ == begin(old(self)@, Intent::Connect(addr@)).0,
            outcome_view(outcome) == begin(old(self)@, Intent::Connect(addr@)).1,
    {
        if !self.state.can_execute(CommandKind::Connect) {
            return Err(
                ClientError::StateViolation { command: CommandKind::Connect, state: self.state },
            );
        }
        self.transition_to(ClientState::Connecting);
        let connect = ConnectPacket::new(self.client_id.clone());
        let encoded_packet = connect.encode();
        let packet = slice_to_vec(as_slice(&encoded_packet));
        assert(packet@ =~= connect_packet(self@.client_id));
        Ok(Request::Connect { addr: addr.to_owned(), packet })
    }

    /// Ends a connect with what the transport gave back.
    ///
    /// The client becomes Connected where the response is a CONNACK of four
    /// bytes that accepts the connection. After a transport failure, no
    /// response, a response of another kind or length, or a return code
    /// other than zero, it becomes Disconnected and the error says which.
    pub fn complete_connect(&mut self, reply: Reply) -> (outcome: Result<(), ClientError>)
        ensures
            outcome == verdict(CommandKind::Connect, reply_view(reply)),
            final(self)@ == complete(old(self)@, CommandKind::Connect, reply_view(reply)),
    {
        let outcome = match reply {
            Err(failure) => {
                match failure {
                    TransportFailure::Open => {},
                    _ => {
                        self.transport_open = true;
                    },
                }
                Err(ClientError::Transport(failure))
            },
            Ok(data) => {
                self.transport_open = true;
                Self::check_connack(data.as_slice())
            },
        };
        match outcome {
            Ok(_) => self.transition_to(ClientState::Connected),
            Err(_) => self.transition_to(ClientState::Disconnected),
        }
        outcome
    }

    /// The verdict on the response to CONNECT.
    pub fn check_connack(data: &[u8]) -> (outcome: Result<(), ClientError>)
        ensures
            outcome == connack_verdict(data@),
    {
        if data.len() == 0 {
            return Err(ClientError::NoResponse(CommandKind::Connect));
        }
        let first: u8 = data[0];
        let packet_type: u8 = first >> 4;
        assert(first >> 4 == first / 16) by (bit_vector);
        if packet_type != PacketType::CONNACK.as_u8() {
            return Err(ClientError::InvalidResponse(CommandKind::Connect));
        }
        if data.len() < 4 {
            return Err(ClientError::InvalidResponse(CommandKind::Connect));
        }
        let return_code: u8 = data[3];
        if return_code == 0x00 {
            Ok(())
        } else {
            Err(ClientError::ConnectionRejected(return_code))
        }
    }

    /// Asks to subscribe to `topic`.
    ///
    /// Allowed only while Connected, and the client must hold a transport.
    /// The request holds the SUBSCRIBE packet; the response is to be
    /// reported to `complete_subscribe`.
    pub fn subscribe(&mut self, topic: String) -> (outcome: Result<Request, ClientError>)
        ensures
            final(self)@ == begin(old(self)@, Intent::Subscribe(topic@)).0,
            outcome_view(outcome) == begin(old(self)@, Intent::Subscribe(topic@)).1,
    {
        if !self.state.can_execute(CommandKind::Subscribe) {
            return Err(
                ClientError::StateViolation { command: CommandKind::Subscribe, state: self.state },
            );
        }
        let packet = Self::create_subscribe_packet(topic.as_str());
        if self.transport_open {
            Ok(Request::Subscribe { packet })
        } else {
            Err(ClientError::NotConnected)
        }
    }

    /// Ends a subscribe with what the transport gave back. The client is
    /// left as it was, whatever the verdict.
    pub fn complete_subscribe(&self, reply: Reply) -> (outcome: Result<(), ClientError>)
        ensures
            outcome == verdict(CommandKind::Subscribe, reply_view(reply)),
    {
        match reply {
            Err(failure) => Err(ClientError::Transport(failure)),
            Ok(data) => Self::check_suback(data.as_slice()),
        }
    }

    /// The verdict on the response to SUBSCRIBE.
    pub fn check_suback(data: &[u8]) -> (outcome: Result<(), ClientError>)
        ensures
            outcome == suback_verdict(data@),
    {
        if data.len() == 0 {
            return Err(ClientError::NoResponse(CommandKind::Subscribe));
        }
        match Self::parse_packet(data) {
            Some((packet_type, _payload)) => {
                if packet_type == PacketType::SUBACK.as_u8() {
                    Ok(())
                } else if packet_type == PacketType::PUBLISH.as_u8() {
                    Ok(())
                } else {
                    Err(ClientError::UnexpectedResponse(packet_type))
                }
            },
            None => Err(ClientError::InvalidResponse(CommandKind::Subscribe)),
        }
    }

    /// Asks to publish `message` on `topic`.
    ///
    /// Allowed only while Connected, and the client must hold a transport.
    /// The request holds the PUBLISH packet. No acknowledgement follows.
    pub fn publish(&mut self, topic: String, message: String) -> (outcome: Result<
        Request,
        ClientError,
    >)
        ensures
            final(self)@ == begin(old(self)@, Intent::Publish(topic@, message@)).0,
            outcome_view(outcome) == begin(old(self)@, Intent::Publish(topic@, message@)).1,
    {
        if !self.state.can_execute(CommandKind::Publish) {
            return Err(
                ClientError::StateViolation { command: CommandKind::Publish, state: self.state },
            );
        }
        let packet = Self::create_publish_packet(topic.as_str(), message.as_str());
        if self.transport_open {
            Ok(Request::Publish { packet })
        } else {
            Err(ClientError::NotConnected)
        }
    }

    /// Ends a publish: it has failed where the packet could not be written.
    pub fn complete_publish(&self, reply: Reply) -> (outcome: Result<(), ClientError>)
        ensures
            outcome == verdict(CommandKind::Publish, reply_view(reply)),
    {
        match reply {
            Err(failure) => Err(ClientError::Transport(failure)),
            Ok(_) => Ok(()),
        }
    }

    /// Asks to disconnect.
    ///
    /// Allowed only while Connected: the client then becomes Disconnecting,
    /// and the request holds the DISCONNECT packet. When the transport has
    /// been shut down, `complete_disconnect` is to be called.
    pub fn disconnect(&mut self) -> (outcome: Result<Request, ClientError>)
        ensures
            final(self)@ == begin(old(self)@, Intent::Disconnect).0,
            outcome_view(outcome) == begin(old(self)@, Intent::Disconnect).1,
    {
        if !self.state.can_execute(CommandKind::Disconnect) {
            return Err(
                ClientError::StateViolation { command: CommandKind::Disconnect, state: self.state },
            );
        }
        self.transition_to(ClientState::Disconnecting);
        let packet = Self::create_disconnect_packet();
        Ok(Request::Disconnect { packet })
    }

    /// Ends a disconnect: the client lets go of its transport and becomes
    /// Disconnected, whether or not the packet could be sent.
    pub fn complete_disconnect(&mut self)
        ensures
            final(self)@ == (ClientView {
                state: ClientState::Disconnected,
                transport_open: false,
                ..old(self)@
            }),
            final(self)@ == complete(
                old(self)@,
                CommandKind::Disconnect,
                Ok::<Seq<u8>, TransportFailure>(Seq::empty()),
            ),
    {
        self.transport_open = false;
        self.transition_to(ClientState::Disconnected);
    }

    /// Registers a handler for the messages on `topic`, after those that are
    /// registered for it already.
    pub fn on_message(&mut self, topic: String, handler: HandlerId)
        ensures
            final(self)@ == (ClientView {
                handlers: old(self)@.handlers.insert(
                    topic@,
                    old(self)@.handlers_of(topic@).push(handler),
                ),
                ..old(self)@
            }),
    {
        let mut handlers = self.handlers_for(topic.as_str());
        handlers.push(handler);
        self.subscriptions.insert(topic, handlers);
        assert(self@.handlers =~= old(self)@.handlers.insert(
            topic@,
            old(self)@.handlers_of(topic@).push(handler),
        ));
    }

    /// The handlers that are registered for `topic`, in the order of their
    /// registration.
    pub fn handlers_for(&self, topic: &str) -> (handlers: Vec<HandlerId>)
        ensures
            handlers@ == self@.handlers_of(topic@),
    {
        let mut handlers: Vec<HandlerId> = Vec::new();
        match self.subscriptions.get(topic) {
            Some(registered) => {
                let mut i: usize = 0;
                while i < registered.len()
                    invariant
                        0 <= i <= registered.len(),
                        handlers@ == registered@.subrange(0, i as int),
                    decreases registered.len() - i,
                {
                    handlers.push(registered[i]);
                    assert(handlers@ =~= registered@.subrange(0, i + 1));
                    i += 1;
                }
                assert(handlers@ =~= registered@);
            },
            None => {},
        }
        handlers
    }

    /// Asks to listen for messages, which needs a transport. While
    /// listening, every read is to be reported to `receive`.
    pub fn start_listening(&self) -> (outcome: Result<(), ClientError>)
        ensures
            outcome == (if self@.transport_open {
                Ok::<(), ClientError>(())
            } else {
                Err::<(), ClientError>(ClientError::NotConnected)
            }),
    {
        if self.transport_open {
            Ok(())
        } else {
            Err(ClientError::NotConnected)
        }
    }

    /// Says what one read means to a listening client.
    pub fn receive(&self, reply: Reply) -> (step: ListenStep)
        ensures
            step@ == listen_step(self@, reply_view(reply)),
    {
        match reply {
            Err(failure) => ListenStep::Stop(Err(ClientError::Transport(failure))),
            Ok(data) => {
                if data.len() == 0 {
                    return ListenStep::Stop(Ok(()));
                }
                match Self::parse_packet(data.as_slice()) {
                    Some((packet_type, payload)) => {
                        if packet_type == PacketType::PUBLISH.as_u8() {
                            match Self::extract_publish_payload(payload.as_slice()) {
                                Some((topic, message)) => {
                                    let handlers = self.handlers_for(topic.as_str());
                                    ListenStep::Deliver { topic, message, handlers }
                                },
                                None => ListenStep::Continue,
                            }
                        } else {
                            ListenStep::Continue
                        }
                    },
                    None => ListenStep::Continue,
                }
            },
        }
    }

    /// The SUBSCRIBE packet for a topic.
    pub fn create_subscribe_packet(topic: &str) -> (packet: Vec<u8>)
        ensures
            packet@ == subscribe_packet(topic@),
            packet@[0] == 0x82,
    {
        encode_subscribe(topic)
    }

    /// The PUBLISH packet for a topic and a message.
    pub fn create_publish_packet(topic: &str, message: &str) -> (packet: Vec<u8>)
        ensures
            packet@ == publish_packet(topic@, message@),
            packet@[0] == 0x30,
    {
        encode_publish(topic, message)
    }

    /// The DISCONNECT packet.
    pub fn create_disconnect_packet() -> (packet: Vec<u8>)
        ensures
            packet@ == disconnect_packet(),
    {
        encode_disconnect()
    }

    /// Appends the remaining-length field for `length` to the buffer.
    pub fn encode_remaining_length_static(buffer: &mut BytesMut, length: usize)
        ensures
            buffer_bytes(*final(buffer)) == buffer_bytes(*old(buffer)) + remaining_length_bytes(
                length as nat,
            ),
    {
        encode_remaining_length(buffer, length);
    }

    /// Decodes a received buffer into packet type and body.
    pub fn parse_packet(data: &[u8]) -> (packet: Option<(u8, Vec<u8>)>)
        ensures
            packet is Some <==> parsed_packet(data@) is Some,
            packet matches Some((packet_type, payload)) ==> parsed_packet(data@) == Some(
                (packet_type, payload@),
            ),
    {
        parse_packet(data)
    }

    /// Divides the body of a PUBLISH into topic and message.
    pub fn extract_publish_payload(payload: &[u8]) -> (parts: Option<(String, String)>)
        ensures
            parts is Some <==> publish_payload_parts(payload@) is Some,
            parts matches Some((topic, message)) ==> publish_payload_parts(payload@) matches Some(
                (topic_bytes, message_bytes),
            ) && topic@ == lossy_text(topic_bytes) && message@ == lossy_text(message_bytes),
    {
        extract_publish_payload(payload)
    }
}

} // verus!
