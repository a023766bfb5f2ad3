use beacn_utility::connection::{
    endpoint, Connection, ConnectionAction, ConnectionEvent, ConnectionState, StatusScreen,
};

#[test]
fn three_refused_connections_back_off_thrice_and_draw_the_screen_once() {
    let mut connection = Connection::new();
    let mut actions = connection.handle(ConnectionEvent::Start);
    for _ in 0..3 {
        assert_eq!(connection.state(), ConnectionState::Connecting);
        actions.extend(connection.handle(ConnectionEvent::ConnectFailed { refused: true }));
        assert_eq!(connection.state(), ConnectionState::Disconnected);
        actions.extend(connection.handle(ConnectionEvent::BackoffElapsed));
    }
    let backoffs = actions.iter().filter(|a| **a == ConnectionAction::Backoff(5)).count();
    let warnings = actions.iter().filter(|a| **a == ConnectionAction::Warn).count();
    let screens = actions
        .iter()
        .filter(|a| **a == ConnectionAction::ShowStatus(StatusScreen::FailedToConnect))
        .count();
    let connects = actions.iter().filter(|a| **a == ConnectionAction::Connect).count();
    assert_eq!(backoffs, 3);
    assert_eq!(warnings, 0);
    assert_eq!(screens, 1);
    assert_eq!(connects, 4);
}

#[test]
fn the_session_starts_with_the_loading_screen() {
    let mut connection = Connection::new();
    assert_eq!(connection.state(), ConnectionState::Disconnected);
    assert_eq!(
        connection.handle(ConnectionEvent::Start),
        vec![
            ConnectionAction::ShowStatus(StatusScreen::Loading),
            ConnectionAction::BlankLights,
            ConnectionAction::Connect,
        ]
    );
}

#[test]
fn another_failure_than_a_refusal_is_warned_of() {
    let mut connection = Connection::new();
    connection.handle(ConnectionEvent::Start);
    assert_eq!(
        connection.handle(ConnectionEvent::ConnectFailed { refused: false }),
        vec![
            ConnectionAction::Warn,
            ConnectionAction::ShowStatus(StatusScreen::FailedToConnect),
            ConnectionAction::BlankLights,
            ConnectionAction::Backoff(5),
        ]
    );
    connection.handle(ConnectionEvent::BackoffElapsed);
    assert_eq!(
        connection.handle(ConnectionEvent::ConnectFailed { refused: false }),
        vec![ConnectionAction::Warn, ConnectionAction::Backoff(5)]
    );
}

#[test]
fn a_connection_asks_for_the_status_and_goes_live() {
    let mut connection = Connection::new();
    connection.handle(ConnectionEvent::Start);
    assert_eq!(
        connection.handle(ConnectionEvent::Connected),
        vec![ConnectionAction::RequestStatus(0)]
    );
    assert_eq!(connection.state(), ConnectionState::Syncing);
    assert_eq!(connection.handle(ConnectionEvent::KeepAliveTick), vec![]);
    assert_eq!(connection.handle(ConnectionEvent::StatusReceived), vec![]);
    assert_eq!(connection.state(), ConnectionState::Live);
    assert_eq!(
        connection.handle(ConnectionEvent::KeepAliveTick),
        vec![ConnectionAction::KeepAlive]
    );
}

#[test]
fn a_lost_connection_is_shown_once_and_tried_again() {
    let mut connection = Connection::new();
    connection.handle(ConnectionEvent::Start);
    connection.handle(ConnectionEvent::Connected);
    connection.handle(ConnectionEvent::StatusReceived);
    assert_eq!(
        connection.handle(ConnectionEvent::SessionFailed),
        vec![
            ConnectionAction::Warn,
            ConnectionAction::Close,
            ConnectionAction::ShowStatus(StatusScreen::ConnectionLost),
            ConnectionAction::BlankLights,
            ConnectionAction::Backoff(5),
        ]
    );
    assert_eq!(connection.state(), ConnectionState::Disconnected);
    assert_eq!(connection.handle(ConnectionEvent::BackoffElapsed), vec![ConnectionAction::Connect]);
    assert_eq!(
        connection.handle(ConnectionEvent::ConnectFailed { refused: true }),
        vec![ConnectionAction::Backoff(5)]
    );
    connection.handle(ConnectionEvent::BackoffElapsed);
    connection.handle(ConnectionEvent::Connected);
    assert_eq!(
        connection.handle(ConnectionEvent::SessionFailed),
        vec![
            ConnectionAction::Warn,
            ConnectionAction::Close,
            ConnectionAction::ShowStatus(StatusScreen::ConnectionLost),
            ConnectionAction::BlankLights,
            ConnectionAction::Backoff(5),
        ]
    );
}

#[test]
fn closed_input_ends_the_session_for_good() {
    let mut connection = Connection::new();
    connection.handle(ConnectionEvent::Start);
    connection.handle(ConnectionEvent::Connected);
    assert_eq!(connection.handle(ConnectionEvent::InputClosed), vec![ConnectionAction::Stop]);
    assert_eq!(connection.state(), ConnectionState::Stopped);
    assert_eq!(connection.handle(ConnectionEvent::Start), vec![]);
    assert_eq!(connection.handle(ConnectionEvent::BackoffElapsed), vec![]);
    assert_eq!(connection.handle(ConnectionEvent::InputClosed), vec![]);
    assert_eq!(connection.state(), ConnectionState::Stopped);
}

#[test]
fn an_event_that_does_not_fit_changes_nothing() {
    let mut connection = Connection::new();
    assert_eq!(connection.handle(ConnectionEvent::Connected), vec![]);
    assert_eq!(connection.handle(ConnectionEvent::SessionFailed), vec![]);
    assert_eq!(connection.handle(ConnectionEvent::ConnectFailed { refused: false }), vec![]);
    assert_eq!(connection.state(), ConnectionState::Disconnected);
    connection.handle(ConnectionEvent::Start);
    assert_eq!(connection.handle(ConnectionEvent::Start), vec![]);
    assert_eq!(connection.handle(ConnectionEvent::StatusReceived), vec![]);
    assert_eq!(connection.state(), ConnectionState::Connecting);
}

#[test]
fn the_daemon_listens_on_the_local_machine() {
    assert_eq!(endpoint(), "ws://localhost:14565/api/websocket");
}

#[test]
fn each_status_screen_has_its_line() {
    assert_eq!(StatusScreen::Loading.line(), "Loading\u{2026}");
    assert_eq!(StatusScreen::FailedToConnect.line(), "Failed to connect to Pipeweaver");
    assert_eq!(StatusScreen::ConnectionLost.line(), "Connection to Pipeweaver lost");
}
