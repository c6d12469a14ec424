//! The connection state machine.
//!
//! | State         | Allowed commands               | Transitions out            |
//! |---------------|--------------------------------|----------------------------|
//! | Disconnected  | Connect                        | Connecting                 |
//! | Connecting    | none                           | Connected, Disconnected    |
//! | Connected     | Publish, Subscribe, Disconnect | Disconnecting, Disconnected|
//! | Disconnecting | none                           | Disconnected               |

use crate::patterns::commands::CommandKind;
use vstd::prelude::*;

verus! {

/// The state of a client's connection.
#[derive(Debug, Clone, Copy, PartialEq, Eq, Structural)]
pub enum ClientState {
    Disconnected,
    Connecting,
    Connected,
    Disconnecting,
}

impl ClientState {
    /// Whether a command may be executed in this state.
    pub open spec fn allows(self, command: CommandKind) -> bool {
        match self {
            ClientState::Disconnected => command == CommandKind::Connect,
            ClientState::Connecting => false,
            ClientState::Connected => command != CommandKind::Connect,
            ClientState::Disconnecting => false,
        }
    }

    /// Whether the machine may go from this state to `target`.
    pub open spec fn leads_to(self, target: ClientState) -> bool {
        match self {
            ClientState::Disconnected => target == ClientState::Connecting,
            ClientState::Connecting => target == ClientState::Connected || target
                == ClientState::Disconnected,
            ClientState::Connected => target == ClientState::Disconnecting || target
                == ClientState::Disconnected,
            ClientState::Disconnecting => target == ClientState::Disconnected,
        }
    }

    /// The state after a request to go to `target`: the target where the
    /// transition is allowed, and no state where it is not.
    pub open spec fn next(self, target: ClientState) -> Option<ClientState> {
        if self.leads_to(target) {
            Some(target)
        } else {
            None
        }
    }

    /// The state in which a machine is after a request to go to `target`: a
    /// request that is rejected leaves it where it was.
    pub open spec fn after(self, target: ClientState) -> ClientState {
        if self.leads_to(target) {
            target
        } else {
            self
        }
    }

    /// The state's name as it appears in messages.
    pub open spec fn name(self) -> Seq<char> {
        match self {
            ClientState::Disconnected => "Disconnected"@,
            ClientState::Connecting => "Connecting"@,
            ClientState::Connected => "Connected"@,
            ClientState::Disconnecting => "Disconnecting"@,
        }
    }

    /// Whether `command` may be executed in this state.
    pub fn can_execute(self, command: CommandKind) -> (allowed: bool)
        ensures
            allowed == self.allows(command),
    {
        match self {
            ClientState::Disconnected => match command {
                CommandKind::Connect => true,
                _ => false,
            },
            ClientState::Connected => match command {
                CommandKind::Publish => true,
                CommandKind::Subscribe => true,
                CommandKind::Disconnect => true,
                CommandKind::Connect => false,
            },
            ClientState::Connecting => false,
            ClientState::Disconnecting => false,
        }
    }

    /// Asks for a transition to `target`. A transition that the table does
    /// not hold is rejected: there is then no new state.
    pub fn transition_to(self, target: ClientState) -> (next: Option<ClientState>)
        ensures
            next == self.next(target),
            next is Some <==> self.leads_to(target),
    {
        let allowed = match self {
            ClientState::Disconnected => match target {
                ClientState::Connecting => true,
                _ => false,
            },
            ClientState::Connecting => match target {
                ClientState::Connected => true,
                ClientState::Disconnected => true,
                _ => false,
            },
            ClientState::Connected => match target {
                ClientState::Disconnecting => true,
                ClientState::Disconnected => true,
                _ => false,
            },
            ClientState::Disconnecting => match target {
                ClientState::Disconnected => true,
                _ => false,
            },
        };
        if allowed {
            Some(target)
        } else {
            None
        }
    }

    /// The state's name, for messages.
    pub fn get_name(self) -> (name: &'static str)
        ensures
            name@ == self.name(),
    {
        match self {
            ClientState::Disconnected => "Disconnected",
            ClientState::Connecting => "Connecting",
            ClientState::Connected => "Connected",
            ClientState::Disconnecting => "Disconnecting",
        }
    }
}

/// What every state object answers: which state it is, whether a command
/// given by name may run in it, and where a transition request leads.
pub trait State {
    /// The state that this object stands for.
    spec fn state(&self) -> ClientState;

    fn get_state(&self) -> (state: ClientState)
        ensures
            state == self.state(),
    ;

    /// Whether the command of that name may be executed. A name that is no
    /// command's name is allowed nowhere.
    fn can_execute_command(&self, command_name: &str) -> (allowed: bool)
        ensures
            allowed == (CommandKind::named(command_name@) matches Some(command)
                && self.state().allows(command)),
    ;

    /// The state that a request to go to `target_state` leads to, if the
    /// table allows the transition.
    fn transition_to(&self, target_state: ClientState) -> (next: Option<ClientState>)
        ensures
            next == self.state().next(target_state),
    ;
}

/// Whether the command of the given name may be executed in `state`.
fn name_allowed(state: ClientState, command_name: &str) -> (allowed: bool)
    ensures
        allowed == (CommandKind::named(command_name@) matches Some(command) && state.allows(
            command,
        )),
{
    match CommandKind::from_name(command_name) {
        Some(command) => state.can_execute(command),
        None => false,
    }
}

/// No connection: only Connect is allowed.
pub struct DisconnectedState;

impl State for DisconnectedState {
    open spec fn state(&self) -> ClientState {
        ClientState::Disconnected
    }

    fn get_state(&self) -> (state: ClientState) {
        ClientState::Disconnected
    }

    fn can_execute_command(&self, command_name: &str) -> (allowed: bool) {
        name_allowed(ClientState::Disconnected, command_name)
    }

    fn transition_to(&self, target_state: ClientState) -> (next: Option<ClientState>) {
        ClientState::Disconnected.transition_to(target_state)
    }
}

/// A connection is being set up: no command is allowed.
pub struct ConnectingState;

impl State for ConnectingState {
    open spec fn state(&self) -> ClientState {
        ClientState::Connecting
    }

    fn get_state(&self) -> (state: ClientState) {
        ClientState::Connecting
    }

    fn can_execute_command(&self, command_name: &str) -> (allowed: bool) {
        name_allowed(ClientState::Connecting, command_name)
    }

    fn transition_to(&self, target_state: ClientState) -> (next: Option<ClientState>) {
        ClientState::Connecting.transition_to(target_state)
    }
}

/// Connected: Publish, Subscribe and Disconnect are allowed.
pub struct ConnectedState;

impl State for ConnectedState {
    open spec fn state(&self) -> ClientState {
        ClientState::Connected
    }

    fn get_state(&self) -> (state: ClientState) {
        ClientState::Connected
    }

    fn can_execute_command(&self, command_name: &str) -> (allowed: bool) {
        name_allowed(ClientState::Connected, command_name)
    }

    fn transition_to(&self, target_state: ClientState) -> (next: Option<ClientState>) {
        ClientState::Connected.transition_to(target_state)
    }
}

/// The connection is being closed: no command is allowed.
pub struct DisconnectingState;

impl State for DisconnectingState {
    open spec fn state(&self) -> ClientState {
        ClientState::Disconnecting
    }

    fn get_state(&self) -> (state: ClientState) {
        ClientState::Disconnecting
    }

    fn can_execute_command(&self, command_name: &str) -> (allowed: bool) {
        name_allowed(ClientState::Disconnecting, command_name)
    }

    fn transition_to(&self, target_state: ClientState) -> (next: Option<ClientState>) {
        ClientState::Disconnecting.transition_to(target_state)
    }
}

/// The table of allowed commands, pair by pair: Connect where there is no
/// connection, Publish, Subscribe and Disconnect where there is one, and
/// nothing while a connection is being set up or closed.
pub proof fn allowed_commands_table(state: ClientState, command: CommandKind)
    ensures
        state.allows(command) <==> (state == ClientState::Disconnected && command
            == CommandKind::Connect) || (state == ClientState::Connected && (command
            == CommandKind::Publish || command == CommandKind::Subscribe || command
            == CommandKind::Disconnect)),
{
}

/// From every state some transition leads on, none leads back to the state
/// itself, and every state but Disconnected can fall back to Disconnected in
/// one step: so a request to go to Disconnected always ends there.
pub proof fn disconnected_is_always_in_reach(state: ClientState)
    ensures
        state != ClientState::Disconnected ==> state.leads_to(ClientState::Disconnected),
        state.after(ClientState::Disconnected) == ClientState::Disconnected,
        !state.leads_to(state),
        exists|target: ClientState| state.leads_to(target),
{
    match state {
        ClientState::Disconnected => {
            assert(state.leads_to(ClientState::Connecting));
        },
        _ => {
            assert(state.leads_to(ClientState::Disconnected));
        },
    }
}

} // verus!
