//! The life of the connection to the daemon: connecting, fetching the
//! status, staying live, and starting over after a failure.
//!
//! The caller owns the socket and the clock.  It reports what happened, and
//! carries out the actions it gets back, in order.

use vstd::prelude::*;

verus! {

/// Seconds to wait after a failure before connecting again.
pub const RECONNECT_BACKOFF_SECS: u64 = 5;

/// Seconds between two keep-alive commands to the console.
pub const KEEP_ALIVE_SECS: u64 = 10;

/// Number of the request for the full status.
pub const STATUS_REQUEST_ID: u64 = 0;

/// Address of the daemon.
pub fn endpoint() -> (url: &'static str)
    ensures
        url@ == "ws://localhost:14565/api/websocket"@,
{
    "ws://localhost:14565/api/websocket"
}

/// Where the connection stands.
#[derive(Debug, Clone, Copy, PartialEq, Eq, Structural)]
pub enum ConnectionState {
    /// Not connected; waiting to try again.
    Disconnected,
    /// A connection attempt is under way.
    Connecting,
    /// Connected; the answer to the status request is awaited.
    Syncing,
    /// The status is known and patches are applied as they arrive.
    Live,
    /// The console is gone for good.
    Stopped,
}

/// The line under the splash picture while the display has nothing to show.
#[derive(Debug, Clone, Copy, PartialEq, Eq, Structural)]
pub enum StatusScreen {
    Loading,
    FailedToConnect,
    ConnectionLost,
}

impl StatusScreen {
    /// The line itself.
    pub fn line(&self) -> (line: &'static str)
        ensures
            line@ == match self {
                StatusScreen::Loading => "Loading\u{2026}"@,
                StatusScreen::FailedToConnect => "Failed to connect to Pipeweaver"@,
                StatusScreen::ConnectionLost => "Connection to Pipeweaver lost"@,
            },
    {
        match self {
            StatusScreen::Loading => "Loading\u{2026}",
            StatusScreen::FailedToConnect => "Failed to connect to Pipeweaver",
            StatusScreen::ConnectionLost => "Connection to Pipeweaver lost",
        }
    }
}

/// Something that happened to the connection.
#[derive(Debug, Clone, Copy, PartialEq, Eq, Structural)]
pub enum ConnectionEvent {
    /// The session begins.
    Start,
    /// The connection attempt failed; `refused` where nothing listens at
    /// the daemon's address, which is the case whenever the daemon is not
    /// running.
    ConnectFailed { refused: bool },
    /// The connection stands.
    Connected,
    /// The answer to the status request arrived and was understood.
    StatusReceived,
    /// Reading, decoding or applying a frame failed, or the console refused
    /// a command.
    SessionFailed,
    /// The wait after a failure is over.
    BackoffElapsed,
    /// The keep-alive timer fired.
    KeepAliveTick,
    /// The console's input is closed for good.
    InputClosed,
}

/// Something for the caller to do.
#[derive(Debug, Clone, Copy, PartialEq, Eq, Structural)]
pub enum ConnectionAction {
    /// Open the connection to the daemon.
    Connect,
    /// Close the connection.
    Close,
    /// Send the request for the full status under this number.
    RequestStatus(u64),
    /// Show the splash picture with this line.
    ShowStatus(StatusScreen),
    /// Turn every light off.
    BlankLights,
    /// Write a warning to the log.
    Warn,
    /// Wait this many seconds, then report `BackoffElapsed`.
    Backoff(u64),
    /// Send a keep-alive command to the console.
    KeepAlive,
    /// End the session.
    Stop,
}

/// The connection as mathematical values: where it stands, and whether a
/// failure screen is on the display.
pub struct ConnectionView {
    pub state: ConnectionState,
    pub failure_shown: bool,
}

/// A failure screen and dark lights, unless a failure screen is showing
/// already.
pub open spec fn failure_screen(shown: bool, screen: StatusScreen) -> Seq<ConnectionAction> {
    if shown {
        Seq::empty()
    } else {
        seq![ConnectionAction::ShowStatus(screen), ConnectionAction::BlankLights]
    }
}

/// A warning, unless the failure is a refused connection.
pub open spec fn failure_warning(refused: bool) -> Seq<ConnectionAction> {
    if refused {
        Seq::empty()
    } else {
        seq![ConnectionAction::Warn]
    }
}

/// The connection after `event`, and what the caller has to do.  An event
/// that does not fit the state changes nothing and asks for nothing.
pub open spec fn step(connection: ConnectionView, event: ConnectionEvent) -> (
    ConnectionView,
    Seq<ConnectionAction>,
) {
    match (connection.state, event) {
        (ConnectionState::Stopped, _) => (connection, Seq::empty()),
        (_, ConnectionEvent::InputClosed) => (
            ConnectionView { state: ConnectionState::Stopped, ..connection },
            seq![ConnectionAction::Stop],
        ),
        (ConnectionState::Disconnected, ConnectionEvent::Start) => (
            ConnectionView { state: ConnectionState::Connecting, ..connection },
            seq![
                ConnectionAction::ShowStatus(StatusScreen::Loading),
                ConnectionAction::BlankLights,
                ConnectionAction::Connect,
            ],
        ),
        (ConnectionState::Disconnected, ConnectionEvent::BackoffElapsed) => (
            ConnectionView { state: ConnectionState::Connecting, ..connection },
            seq![ConnectionAction::Connect],
        ),
        (ConnectionState::Connecting, ConnectionEvent::ConnectFailed { refused }) => (
            ConnectionView { state: ConnectionState::Disconnected, failure_shown: true },
            failure_warning(refused) + failure_screen(
                connection.failure_shown,
                StatusScreen::FailedToConnect,
            ) + seq![ConnectionAction::Backoff(RECONNECT_BACKOFF_SECS)],
        ),
        (ConnectionState::Connecting, ConnectionEvent::Connected) => (
            ConnectionView { state: ConnectionState::Syncing, failure_shown: false },
            seq![ConnectionAction::RequestStatus(STATUS_REQUEST_ID)],
        ),
        (ConnectionState::Syncing, ConnectionEvent::StatusReceived) => (
            ConnectionView { state: ConnectionState::Live, ..connection },
            Seq::empty(),
        ),
        (ConnectionState::Syncing, ConnectionEvent::SessionFailed)
        | (ConnectionState::Live, ConnectionEvent::SessionFailed) => (
            ConnectionView { state: ConnectionState::Disconnected, failure_shown: true },
            seq![ConnectionAction::Warn, ConnectionAction::Close] + failure_screen(
                connection.failure_shown,
                StatusScreen::ConnectionLost,
            ) + seq![ConnectionAction::Backoff(RECONNECT_BACKOFF_SECS)],
        ),
        (ConnectionState::Live, ConnectionEvent::KeepAliveTick) => (
            connection,
            seq![ConnectionAction::KeepAlive],
        ),
        _ => (connection, Seq::empty()),
    }
}

/// The connection to the daemon.
#[derive(Debug)]
pub struct Connection {
    state: ConnectionState,
    failure_shown: bool,
}

impl View for Connection {
    type V = ConnectionView;

    closed spec fn view(&self) -> ConnectionView {
        ConnectionView { state: self.state, failure_shown: self.failure_shown }
    }
}

/// Appends a failure screen and dark lights, unless a failure screen is
/// showing already.
fn push_failure_screen(actions: &mut Vec<ConnectionAction>, shown: bool, screen: StatusScreen)
    ensures
        final(actions)@ == old(actions)@ + failure_screen(shown, screen),
{
    if !shown {
        actions.push(ConnectionAction::ShowStatus(screen));
        actions.push(ConnectionAction::BlankLights);
    }
    assert(actions@ =~= old(actions)@ + failure_screen(shown, screen));
}

impl Connection {
    /// A connection that has not been tried yet.
    pub fn new() -> (connection: Connection)
        ensures
            connection@ == (ConnectionView {
                state: ConnectionState::Disconnected,
                failure_shown: false,
            }),
    {
        Connection { state: ConnectionState::Disconnected, failure_shown: false }
    }

    /// Where the connection stands.
    pub fn state(&self) -> (state: ConnectionState)
        ensures
            state == self@.state,
    {
        self.state
    }

    /// Takes in `event` and returns what the caller has to do.
    pub fn handle(&mut self, event: ConnectionEvent) -> (actions: Vec<ConnectionAction>)
        ensures
            (final(self)@, actions@) == step(old(self)@, event),
    {
        let mut actions: Vec<ConnectionAction> = Vec::new();
        match (self.state, event) {
            (ConnectionState::Stopped, _) => {},
            (_, ConnectionEvent::InputClosed) => {
                self.state = ConnectionState::Stopped;
                actions.push(ConnectionAction::Stop);
            },
            (ConnectionState::Disconnected, ConnectionEvent::Start) => {
                self.state = ConnectionState::Connecting;
                actions.push(ConnectionAction::ShowStatus(StatusScreen::Loading));
                actions.push(ConnectionAction::BlankLights);
                actions.push(ConnectionAction::Connect);
            },
            (ConnectionState::Disconnected, ConnectionEvent::BackoffElapsed) => {
                self.state = ConnectionState::Connecting;
                actions.push(ConnectionAction::Connect);
            },
            (ConnectionState::Connecting, ConnectionEvent::ConnectFailed { refused }) => {
                if !refused {
                    actions.push(ConnectionAction::Warn);
                }
                push_failure_screen(&mut actions, self.failure_shown, StatusScreen::FailedToConnect);
                actions.push(ConnectionAction::Backoff(RECONNECT_BACKOFF_SECS));
                self.state = ConnectionState::Disconnected;
                self.failure_shown = true;
            },
            (ConnectionState::Connecting, ConnectionEvent::Connected) => {
                self.state = ConnectionState::Syncing;
                self.failure_shown = false;
                actions.push(ConnectionAction::RequestStatus(STATUS_REQUEST_ID));
            },
            (ConnectionState::Syncing, ConnectionEvent::StatusReceived) => {
                self.state = ConnectionState::Live;
            },
            (ConnectionState::Syncing, ConnectionEvent::SessionFailed)
            | (ConnectionState::Live, ConnectionEvent::SessionFailed) => {
                actions.push(ConnectionAction::Warn);
                actions.push(ConnectionAction::Close);
                push_failure_screen(&mut actions, self.failure_shown, StatusScreen::ConnectionLost);
                actions.push(ConnectionAction::Backoff(RECONNECT_BACKOFF_SECS));
                self.state = ConnectionState::Disconnected;
                self.failure_shown = true;
            },
            (ConnectionState::Live, ConnectionEvent::KeepAliveTick) => {
                actions.push(ConnectionAction::KeepAlive);
            },
            _ => {},
        }
        assert(actions@ =~= step(old(self)@, event).1);
        actions
    }
}

/// While a failure screen is showing, no event draws a status screen, and
/// the screen keeps showing until a connection stands.
pub proof fn lemma_failure_screen_drawn_once(connection: ConnectionView, event: ConnectionEvent)
    requires
        connection.failure_shown,
    ensures
        forall|screen: StatusScreen|
            !(#[trigger] step(connection, event).1.contains(ConnectionAction::ShowStatus(screen)))
                || (connection.state == ConnectionState::Disconnected && event
                == ConnectionEvent::Start),
        step(connection, event).0.failure_shown || (connection.state == ConnectionState::Connecting
            && event == ConnectionEvent::Connected),
{
    let actions = step(connection, event).1;
    assert forall|screen: StatusScreen|
        !(#[trigger] actions.contains(ConnectionAction::ShowStatus(screen))) || (connection.state
            == ConnectionState::Disconnected && event == ConnectionEvent::Start) by {
        if actions.contains(ConnectionAction::ShowStatus(screen)) {
            let k = choose|k: int|
                0 <= k < actions.len() && actions[k] == ConnectionAction::ShowStatus(screen);
            assert(actions[k] == ConnectionAction::ShowStatus(screen));
        }
    }
}

/// How often `action` occurs among the first `upto` of `actions`.
pub open spec fn occurrences(actions: Seq<ConnectionAction>, action: ConnectionAction, upto: int) -> int
    decreases upto,
{
    if upto <= 0 {
        0
    } else {
        occurrences(actions, action, upto - 1) + if actions[upto - 1] == action {
            1int
        } else {
            0int
        }
    }
}

/// How often `action` occurs in `actions`.
pub open spec fn count(actions: Seq<ConnectionAction>, action: ConnectionAction) -> int {
    occurrences(actions, action, actions.len() as int)
}

/// The connection after `attempts` attempts in a row that were refused, each
/// followed by the end of its wait, and all the actions they ask for.
pub open spec fn after_refusals(connection: ConnectionView, attempts: nat) -> (
    ConnectionView,
    Seq<ConnectionAction>,
)
    decreases attempts,
{
    if attempts == 0 {
        (connection, Seq::empty())
    } else {
        let (failed, first) = step(connection, ConnectionEvent::ConnectFailed { refused: true });
        let (waited, second) = step(failed, ConnectionEvent::BackoffElapsed);
        let rest = after_refusals(waited, (attempts - 1) as nat);
        (rest.0, first + second + rest.1)
    }
}

/// Occurrences in a list add up over its parts.
proof fn lemma_count_of_parts(
    first: Seq<ConnectionAction>,
    second: Seq<ConnectionAction>,
    action: ConnectionAction,
)
    ensures
        count(first + second, action) == count(first, action) + count(second, action),
{
    lemma_occurrences_of_parts(first, second, action, second.len() as int);
    lemma_occurrences_of_prefix(first, second, action, first.len() as int);
}

/// Occurrences among the first part of a list do not depend on what follows.
proof fn lemma_occurrences_of_prefix(
    first: Seq<ConnectionAction>,
    second: Seq<ConnectionAction>,
    action: ConnectionAction,
    upto: int,
)
    requires
        0 <= upto <= first.len(),
    ensures
        occurrences(first + second, action, upto) == occurrences(first, action, upto),
    decreases upto,
{
    if upto > 0 {
        lemma_occurrences_of_prefix(first, second, action, upto - 1);
    }
}

/// Occurrences up to a place in the second part of a list.
proof fn lemma_occurrences_of_parts(
    first: Seq<ConnectionAction>,
    second: Seq<ConnectionAction>,
    action: ConnectionAction,
    upto: int,
)
    requires
        0 <= upto <= second.len(),
    ensures
        occurrences(first + second, action, first.len() + upto) == occurrences(
            first + second,
            action,
            first.len() as int,
        ) + occurrences(second, action, upto),
    decreases upto,
{
    if upto > 0 {
        lemma_occurrences_of_parts(first, second, action, upto - 1);
        assert((first + second)[first.len() + upto - 1] == second[upto - 1]);
    }
}

/// However often the connection is refused in a row, every attempt is
/// followed by one wait of five seconds, no warning is written, and the
/// "failed to connect" screen is drawn once: at the first refusal, unless a
/// failure screen is showing already.  Afterwards the next attempt is under
/// way.
pub proof fn lemma_refusals_in_a_row(connection: ConnectionView, attempts: nat)
    requires
        connection.state == ConnectionState::Connecting,
    ensures
        after_refusals(connection, attempts).0.state == ConnectionState::Connecting,
        count(
            after_refusals(connection, attempts).1,
            ConnectionAction::Backoff(RECONNECT_BACKOFF_SECS),
        ) == attempts,
        count(after_refusals(connection, attempts).1, ConnectionAction::Warn) == 0,
        count(
            after_refusals(connection, attempts).1,
            ConnectionAction::ShowStatus(StatusScreen::FailedToConnect),
        ) == if attempts == 0 || connection.failure_shown {
            0int
        } else {
            1int
        },
        count(after_refusals(connection, attempts).1, ConnectionAction::Connect) == attempts,
    decreases attempts,
{
    if attempts > 0 {
        let (failed, first) = step(connection, ConnectionEvent::ConnectFailed { refused: true });
        let (waited, second) = step(failed, ConnectionEvent::BackoffElapsed);
        let rest = after_refusals(waited, (attempts - 1) as nat);
        lemma_refusals_in_a_row(waited, (attempts - 1) as nat);
        let backoff = ConnectionAction::Backoff(RECONNECT_BACKOFF_SECS);
        let screen = ConnectionAction::ShowStatus(StatusScreen::FailedToConnect);
        lemma_count_of_parts(first + second, rest.1, backoff);
        lemma_count_of_parts(first + second, rest.1, ConnectionAction::Warn);
        lemma_count_of_parts(first + second, rest.1, screen);
        lemma_count_of_parts(first + second, rest.1, ConnectionAction::Connect);
        lemma_count_of_parts(first, second, backoff);
        lemma_count_of_parts(first, second, ConnectionAction::Warn);
        lemma_count_of_parts(first, second, screen);
        lemma_count_of_parts(first, second, ConnectionAction::Connect);
        assert(second =~= seq![ConnectionAction::Connect]);
        if connection.failure_shown {
            assert(first =~= seq![backoff]);
        } else {
            assert(first =~= seq![screen, ConnectionAction::BlankLights, backoff]);
        }
        reveal_with_fuel(occurrences, 4);
    }
}

/// The session ends only when the console's input is closed, and once ended
/// it stays ended and asks for nothing more.
pub proof fn lemma_stops_only_on_closed_input(connection: ConnectionView, event: ConnectionEvent)
    ensures
        step(connection, event).0.state == ConnectionState::Stopped ==> connection.state
            == ConnectionState::Stopped || event == ConnectionEvent::InputClosed,
        connection.state == ConnectionState::Stopped ==> step(connection, event) == (
            connection,
            Seq::<ConnectionAction>::empty(),
        ),
        event == ConnectionEvent::InputClosed ==> step(connection, event).0.state
            == ConnectionState::Stopped,
{
}

/// Every failure is followed by a wait of five seconds: a failed attempt
/// and a failed session both end with that wait and leave the connection
/// disconnected; and a refused connection writes no warning.
pub proof fn lemma_failure_backs_off(connection: ConnectionView, event: ConnectionEvent)
    requires
        (connection.state == ConnectionState::Connecting && event is ConnectFailed) || ((
        connection.state == ConnectionState::Syncing || connection.state == ConnectionState::Live)
            && event == ConnectionEvent::SessionFailed),
    ensures
        step(connection, event).0.state == ConnectionState::Disconnected,
        step(connection, event).0.failure_shown,
        step(connection, event).1.len() > 0,
        step(connection, event).1.last() == ConnectionAction::Backoff(RECONNECT_BACKOFF_SECS),
        event == (ConnectionEvent::ConnectFailed { refused: true }) ==> !step(
            connection,
            event,
        ).1.contains(ConnectionAction::Warn),
{
    let actions = step(connection, event).1;
    if event == (ConnectionEvent::ConnectFailed { refused: true }) {
        if actions.contains(ConnectionAction::Warn) {
            let k = choose|k: int| 0 <= k < actions.len() && actions[k] == ConnectionAction::Warn;
            assert(actions[k] == ConnectionAction::Warn);
        }
    }
}

} // verus!
