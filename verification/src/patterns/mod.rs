//! The two patterns that drive the client: states that say which commands
//! are allowed, and commands that are checked against the state before they
//! run.

pub mod commands;
pub mod states;

pub use commands::{
    Command, CommandKind, ConnectCommand, DisconnectCommand, Intent, PublishCommand,
    SubscribeCommand,
};
pub use states::{
    ClientState, ConnectedState, ConnectingState, DisconnectedState, DisconnectingState, State,
};
