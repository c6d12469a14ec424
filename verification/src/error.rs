//! Why an operation of the client failed.

use crate::patterns::commands::CommandKind;
use crate::patterns::states::ClientState;
use vstd::prelude::*;
use vstd::string::StringExecFns;

verus! {

/// The step at which the transport failed.
#[derive(Debug, Clone, Copy, PartialEq, Eq, Structural)]
pub enum TransportFailure {
    /// The connection could not be opened.
    Open,
    /// A packet could not be written.
    Send,
    /// The response could not be read.
    Receive,
}

/// A failed operation of the client.
#[derive(Debug, Clone, Copy, PartialEq, Eq, Structural)]
pub enum ClientError {
    /// The command is not allowed in the state the client was in. Nothing
    /// was sent and nothing has changed.
    StateViolation { command: CommandKind, state: ClientState },
    /// The client holds no transport to send on.
    NotConnected,
    /// The transport failed.
    Transport(TransportFailure),
    /// The peer closed the connection where a response was due.
    NoResponse(CommandKind),
    /// The response was too short or of the wrong kind.
    InvalidResponse(CommandKind),
    /// A SUBSCRIBE was answered with a packet of this type, which is neither
    /// SUBACK nor PUBLISH.
    UnexpectedResponse(u8),
    /// The broker answered CONNECT with this return code, which is not zero.
    ConnectionRejected(u8),
}

impl TransportFailure {
    /// The words for the step that failed.
    pub open spec fn step(self) -> Seq<char> {
        match self {
            TransportFailure::Open => "open"@,
            TransportFailure::Send => "send"@,
            TransportFailure::Receive => "receive"@,
        }
    }

    fn step_name(self) -> (name: &'static str)
        ensures
            name@ == self.step(),
    {
        match self {
            TransportFailure::Open => "open",
            TransportFailure::Send => "send",
            TransportFailure::Receive => "receive",
        }
    }
}

impl ClientError {
    /// The message that describes the failure. A state violation names the
    /// command and the state.
    pub open spec fn text(self) -> Seq<char> {
        match self {
            ClientError::StateViolation { command, state } => "Cannot execute "@ + command.name()
                + " command in "@ + state.name() + " state"@,
            ClientError::NotConnected => "Not connected to broker"@,
            ClientError::Transport(failure) => "Transport failure: "@ + failure.step(),
            ClientError::NoResponse(command) => "Failed to "@ + command.verb() + ": No response"@,
            ClientError::InvalidResponse(command) => "Failed to "@ + command.verb()
                + ": Invalid response"@,
            ClientError::UnexpectedResponse(_) => "Failed to subscribe: Unexpected response"@,
            ClientError::ConnectionRejected(_) => "Connection rejected by broker"@,
        }
    }

    /// The message that describes the failure.
    pub fn message(&self) -> (message: String)
        ensures
            message@ == self.text(),
    {
        match self {
            ClientError::StateViolation { command, state } => {
                String::from_str("Cannot execute ").concat(command.get_name()).concat(
                    " command in ",
                ).concat(state.get_name()).concat(" state")
            },
            ClientError::NotConnected => String::from_str("Not connected to broker"),
            ClientError::Transport(failure) => {
                String::from_str("Transport failure: ").concat(failure.step_name())
            },
            ClientError::NoResponse(command) => {
                String::from_str("Failed to ").concat(command.get_verb()).concat(": No response")
            },
            ClientError::InvalidResponse(command) => {
                String::from_str("Failed to ").concat(command.get_verb()).concat(
                    ": Invalid response",
                )
            },
            ClientError::UnexpectedResponse(_) => {
                String::from_str("Failed to subscribe: Unexpected response")
            },
            ClientError::ConnectionRejected(_) => String::from_str("Connection rejected by broker"),
        }
    }
}

} // verus!
