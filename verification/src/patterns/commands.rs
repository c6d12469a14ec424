//! The commands a client can be asked to execute.

use crate::client::{begin, outcome_view, MqttClient, Request};
use crate::error::ClientError;
use crate::text::str_eq;
use vstd::prelude::*;

verus! {

/// Which of the four commands a command is.
#[derive(Debug, Clone, Copy, PartialEq, Eq, Structural)]
pub enum CommandKind {
    Connect,
    Subscribe,
    Publish,
    Disconnect,
}

/// What a command asks for, as plain values.
pub enum Intent {
    /// Connect to the broker at this address.
    Connect(Seq<char>),
    /// Subscribe to this topic.
    Subscribe(Seq<char>),
    /// Publish, on this topic, this message.
    Publish(Seq<char>, Seq<char>),
    /// Disconnect.
    Disconnect,
}

impl Intent {
    /// Which of the four commands asks for this.
    pub open spec fn kind(self) -> CommandKind {
        match self {
            Intent::Connect(_) => CommandKind::Connect,
            Intent::Subscribe(_) => CommandKind::Subscribe,
            Intent::Publish(_, _) => CommandKind::Publish,
            Intent::Disconnect => CommandKind::Disconnect,
        }
    }
}

impl CommandKind {
    /// The canonical name under which permission is looked up.
    pub open spec fn name(self) -> Seq<char> {
        match self {
            CommandKind::Connect => "Connect"@,
            CommandKind::Subscribe => "Subscribe"@,
            CommandKind::Publish => "Publish"@,
            CommandKind::Disconnect => "Disconnect"@,
        }
    }

    /// The verb for the command in messages about its failure.
    pub open spec fn verb(self) -> Seq<char> {
        match self {
            CommandKind::Connect => "connect"@,
            CommandKind::Subscribe => "subscribe"@,
            CommandKind::Publish => "publish"@,
            CommandKind::Disconnect => "disconnect"@,
        }
    }

    /// The command that a name stands for, if it is a command's name.
    pub open spec fn named(name: Seq<char>) -> Option<CommandKind> {
        if name == "Connect"@ {
            Some(CommandKind::Connect)
        } else if name == "Subscribe"@ {
            Some(CommandKind::Subscribe)
        } else if name == "Publish"@ {
            Some(CommandKind::Publish)
        } else if name == "Disconnect"@ {
            Some(CommandKind::Disconnect)
        } else {
            None
        }
    }

    /// The four names differ, so each names its own command.
    pub proof fn names_are_distinct(self)
        ensures
            Self::named(self.name()) == Some(self),
    {
        reveal_strlit("Connect");
        reveal_strlit("Subscribe");
        reveal_strlit("Publish");
        reveal_strlit("Disconnect");
        assert("Connect"@.len() == 7);
        assert("Subscribe"@.len() == 9);
        assert("Publish"@.len() == 7);
        assert("Disconnect"@.len() == 10);
        assert("Connect"@[0] == 'C');
        assert("Publish"@[0] == 'P');
    }

    /// The canonical name of the command.
    pub fn get_name(self) -> (name: &'static str)
        ensures
            name@ == self.name(),
    {
        match self {
            CommandKind::Connect => "Connect",
            CommandKind::Subscribe => "Subscribe",
            CommandKind::Publish => "Publish",
            CommandKind::Disconnect => "Disconnect",
        }
    }

    /// The verb for the command in messages about its failure.
    pub fn get_verb(self) -> (verb: &'static str)
        ensures
            verb@ == self.verb(),
    {
        match self {
            CommandKind::Connect => "connect",
            CommandKind::Subscribe => "subscribe",
            CommandKind::Publish => "publish",
            CommandKind::Disconnect => "disconnect",
        }
    }

    /// The command with the given canonical name.
    pub fn from_name(name: &str) -> (kind: Option<CommandKind>)
        ensures
            kind == Self::named(name@),
    {
        if str_eq(name, "Connect") {
            Some(CommandKind::Connect)
        } else if str_eq(name, "Subscribe") {
            Some(CommandKind::Subscribe)
        } else if str_eq(name, "Publish") {
            Some(CommandKind::Publish)
        } else if str_eq(name, "Disconnect") {
            Some(CommandKind::Disconnect)
        } else {
            None
        }
    }
}

/// An operation of the client as an object: it knows its canonical name,
/// and it can ask a client for the operation.
pub trait Command {
    /// What the command asks for.
    spec fn intent(&self) -> Intent;

    /// Asks the client for the operation. The client checks its state: it
    /// answers with the I/O that is due, or refuses and stays as it was.
    fn execute(&self, client: &mut MqttClient) -> (outcome: Result<Request, ClientError>)
        ensures
            final(client)@ == begin(old(client)@, self.intent()).0,
            outcome_view(outcome) == begin(old(client)@, self.intent()).1,
    ;

    /// The canonical name, by which permission is looked up.
    fn get_name(&self) -> (name: &'static str)
        ensures
            name@ == self.intent().kind().name(),
    ;
}

/// Connect to the broker at an address.
pub struct ConnectCommand {
    addr: String,
}

impl ConnectCommand {
    /// The command to connect to the broker at `addr`.
    pub fn new(addr: String) -> (command: Self)
        ensures
            command.intent() == Intent::Connect(addr@),
    {
        ConnectCommand { addr }
    }
}

impl Command for ConnectCommand {
    closed spec fn intent(&self) -> Intent {
        Intent::Connect(self.addr@)
    }

    fn execute(&self, client: &mut MqttClient) -> (outcome: Result<Request, ClientError>) {
        client.connect(self.addr.as_str())
    }

    fn get_name(&self) -> (name: &'static str) {
        "Connect"
    }
}

/// Disconnect from the broker.
pub struct DisconnectCommand;

impl DisconnectCommand {
    /// The command to disconnect.
    pub fn new() -> (command: Self)
        ensures
            command.intent() == Intent::Disconnect,
    {
        DisconnectCommand
    }
}

impl Command for DisconnectCommand {
    open spec fn intent(&self) -> Intent {
        Intent::Disconnect
    }

    fn execute(&self, client: &mut MqttClient) -> (outcome: Result<Request, ClientError>) {
        client.disconnect()
    }

    fn get_name(&self) -> (name: &'static str) {
        "Disconnect"
    }
}

/// Publish a message on a topic.
pub struct PublishCommand {
    topic: String,
    message: String,
}

impl PublishCommand {
    /// The command to publish `message` on `topic`.
    pub fn new(topic: String, message: String) -> (command: Self)
        ensures
            command.intent() == Intent::Publish(topic@, message@),
    {
        PublishCommand { topic, message }
    }
}

impl Command for PublishCommand {
    closed spec fn intent(&self) -> Intent {
        Intent::Publish(self.topic@, self.message@)
    }

    fn execute(&self, client: &mut MqttClient) -> (outcome: Result<Request, ClientError>) {
        client.publish(self.topic.clone(), self.message.clone())
    }

    fn get_name(&self) -> (name: &'static str) {
        "Publish"
    }
}

/// Subscribe to a topic.
pub struct SubscribeCommand {
    topic: String,
}

impl SubscribeCommand {
    /// The command to subscribe to `topic`.
    pub fn new(topic: String) -> (command: Self)
        ensures
            command.intent() == Intent::Subscribe(topic@),
    {
        SubscribeCommand { topic }
    }
}

impl Command for SubscribeCommand {
    closed spec fn intent(&self) -> Intent {
        Intent::Subscribe(self.topic@)
    }

    fn execute(&self, client: &mut MqttClient) -> (outcome: Result<Request, ClientError>) {
        client.subscribe(self.topic.clone())
    }

    fn get_name(&self) -> (name: &'static str) {
        "Subscribe"
    }
}

} // verus!
