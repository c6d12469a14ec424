use mqtt::patterns::{
    ClientState, CommandKind, ConnectedState, ConnectingState, DisconnectedState,
    DisconnectingState, State,
};

#[test]
fn test_client_state_enum() {
    assert_eq!(ClientState::Disconnected, ClientState::Disconnected);
    assert_ne!(ClientState::Connected, ClientState::Disconnected);
}

#[test]
fn test_state_transitions() {
    let disconnected = DisconnectedState;
    let connected = ConnectedState;

    assert_eq!(disconnected.get_state(), ClientState::Disconnected);
    assert_eq!(connected.get_state(), ClientState::Connected);
}

#[test]
fn test_command_permissions() {
    let disconnected = DisconnectedState;
    let connected = ConnectedState;

    assert!(disconnected.can_execute_command("Connect"));
    assert!(!disconnected.can_execute_command("Publish"));
    assert!(!disconnected.can_execute_command("Subscribe"));

    assert!(connected.can_execute_command("Publish"));
    assert!(connected.can_execute_command("Subscribe"));
    assert!(!connected.can_execute_command("Connect"));
}

#[test]
fn test_state_transitions_logic() {
    let disconnected = DisconnectedState;
    let connecting = ConnectingState;
    let connected = ConnectedState;
    let disconnecting = DisconnectingState;

    assert!(disconnected.transition_to(ClientState::Connecting).is_some());
    assert!(disconnected.transition_to(ClientState::Connected).is_none());

    assert!(connecting.transition_to(ClientState::Connected).is_some());
    assert!(connecting.transition_to(ClientState::Disconnected).is_some());
    assert!(connecting.transition_to(ClientState::Disconnecting).is_none());

    assert!(connected.transition_to(ClientState::Disconnecting).is_some());
    assert!(connected.transition_to(ClientState::Disconnected).is_some());
    assert!(connected.transition_to(ClientState::Connecting).is_none());

    assert!(disconnecting.transition_to(ClientState::Disconnected).is_some());
    assert!(disconnecting.transition_to(ClientState::Connected).is_none());
}

const STATES: [ClientState; 4] = [
    ClientState::Disconnected,
    ClientState::Connecting,
    ClientState::Connected,
    ClientState::Disconnecting,
];

const COMMANDS: [CommandKind; 4] = [
    CommandKind::Connect,
    CommandKind::Subscribe,
    CommandKind::Publish,
    CommandKind::Disconnect,
];

#[test]
fn permissions_match_the_table_for_every_pair() {
    for state in STATES {
        for command in COMMANDS {
            let expected = match (state, command) {
                (ClientState::Disconnected, CommandKind::Connect) => true,
                (ClientState::Connected, CommandKind::Publish) => true,
                (ClientState::Connected, CommandKind::Subscribe) => true,
                (ClientState::Connected, CommandKind::Disconnect) => true,
                _ => false,
            };
            assert_eq!(state.can_execute(command), expected);
        }
    }
}

#[test]
fn state_objects_answer_by_name_as_the_table_does() {
    let objects: [(&dyn State, ClientState); 4] = [
        (&DisconnectedState, ClientState::Disconnected),
        (&ConnectingState, ClientState::Connecting),
        (&ConnectedState, ClientState::Connected),
        (&DisconnectingState, ClientState::Disconnecting),
    ];
    for (object, state) in objects {
        assert_eq!(object.get_state(), state);
        for command in COMMANDS {
            assert_eq!(
                object.can_execute_command(command.get_name()),
                state.can_execute(command)
            );
        }
        for target in STATES {
            assert_eq!(object.transition_to(target), state.transition_to(target));
        }
    }
}

#[test]
fn unknown_command_names_are_allowed_nowhere() {
    assert!(!ConnectedState.can_execute_command("connect"));
    assert!(!ConnectedState.can_execute_command("Ping"));
    assert!(!ConnectedState.can_execute_command(""));
    assert!(!DisconnectedState.can_execute_command("Connect "));
    assert!(!ConnectingState.can_execute_command("Connect"));
    assert!(!DisconnectingState.can_execute_command("Disconnect"));
}

#[test]
fn transitions_match_the_table_for_every_pair() {
    for from in STATES {
        for to in STATES {
            let expected = match (from, to) {
                (ClientState::Disconnected, ClientState::Connecting) => true,
                (ClientState::Connecting, ClientState::Connected) => true,
                (ClientState::Connecting, ClientState::Disconnected) => true,
                (ClientState::Connected, ClientState::Disconnecting) => true,
                (ClientState::Connected, ClientState::Disconnected) => true,
                (ClientState::Disconnecting, ClientState::Disconnected) => true,
                _ => false,
            };
            let next = from.transition_to(to);
            assert_eq!(next.is_some(), expected);
            if expected {
                assert_eq!(next, Some(to));
            }
        }
    }
}

#[test]
fn states_have_their_names() {
    assert_eq!(ClientState::Disconnected.get_name(), "Disconnected");
    assert_eq!(ClientState::Connecting.get_name(), "Connecting");
    assert_eq!(ClientState::Connected.get_name(), "Connected");
    assert_eq!(ClientState::Disconnecting.get_name(), "Disconnecting");
}
