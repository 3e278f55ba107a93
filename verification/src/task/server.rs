//! Lifecycle of a server.
//!
//! A server accepts connections on one listening socket, hands each of them
//! to a handler task and, when asked to shut down, stops accepting, notifies
//! the handlers and waits until they are done:
//!
//! ```text
//!                     +--------+
//!                     | Server |
//!                     +--------+
//!                         |
//!                         v
//!                     +--------+
//!                +--- | Select | ---+
//!                |    +--------+    |
//!                v                  v
//!          +----------+       +----------+
//!          |  Accept  |       | Shutdown |
//!          +----------+       +----------+
//!                |                  |
//!                v                  v
//!          +----------+       +----------+
//!          |  Spawn   |       |  Notify  |
//!          +----------+       +----------+
//!                |                  |
//!                v                  v
//! +--------+   +--------+   +--------+   +--------+
//! | Task 1 |   | Task 2 |   | Task 3 |   | Task 4 |
//! +--------+   +--------+   +--------+   +--------+
//! ```
//!
//! The task that runs a server performs the waiting: it reads the permits,
//! acquires one, accepts, spawns, broadcasts and collects. After each of
//! these it tells the [`Server`] what happened ([`Event`]) and is told what
//! to do next ([`Action`]).

use crate::config;
use crate::config::SocketAddress;
use crate::sync::notify::Notification;
use vstd::prelude::*;
use vstd::string::StringExecFns;

verus! {

/// Represents the current state of the server.
#[derive(Debug, PartialEq, Eq, Clone, Copy, Structural)]
pub enum State {
    /// Server has started but is not accepting connections yet.
    Starting,
    /// Server is accepting incoming connections.
    Listening,
    /// Maximum number of connections reached.
    MaxConnectionsReached(usize),
    /// Server is gracefully shutting down.
    ShuttingDown(ShutdownState),
}

/// Represents a state in the graceful shutdown process.
#[derive(Debug, PartialEq, Eq, Clone, Copy, Structural)]
pub enum ShutdownState {
    /// The server has received the shutdown signal and won't accept more
    /// connections, but it will still process data for currently connected
    /// sockets.
    PendingConnections(usize),
    /// Shutdown process complete.
    Done,
}

impl State {
    /// How far a server in this state has come: it starts, then listens
    /// (with or without free permits), then waits for its handlers, then is
    /// done.
    pub open spec fn progress(self) -> nat {
        match self {
            State::Starting => 0,
            State::Listening => 1,
            State::MaxConnectionsReached(_) => 1,
            State::ShuttingDown(ShutdownState::PendingConnections(_)) => 2,
            State::ShuttingDown(ShutdownState::Done) => 3,
        }
    }
}

/// Why a connection could not be accepted.
#[derive(Debug, PartialEq, Eq, Clone, Copy, Structural)]
pub enum AcceptFailure {
    /// The connection was aborted, reset or refused before it was accepted.
    ConnectionLost,
    /// The wait for a connection was interrupted or timed out, or there was
    /// nothing to wait for.
    Interrupted,
    /// The process or the system has no resources left for one more
    /// connection.
    OutOfResources,
    /// Anything else: the listening socket itself is at fault.
    Listener,
}

impl AcceptFailure {
    /// After a fatal failure the listening socket cannot be used any more.
    /// A failure that concerns a single connection, or that passes with
    /// time, is not fatal.
    pub open spec fn is_fatal(self) -> bool {
        self is Listener
    }

    /// Tells whether the failure is fatal.
    pub fn fatal(&self) -> (fatal: bool)
        ensures
            fatal == self.is_fatal(),
    {
        match self {
            AcceptFailure::Listener => true,
            _ => false,
        }
    }
}

/// The kinds of errors that accepting a connection ends with.
#[derive(Debug, PartialEq, Eq, Clone, Copy, Structural)]
pub enum AcceptError {
    /// The connection was aborted by the peer.
    ConnectionAborted,
    /// The connection was reset by the peer.
    ConnectionReset,
    /// The connection was refused.
    ConnectionRefused,
    /// The wait was interrupted.
    Interrupted,
    /// There was nothing to wait for.
    WouldBlock,
    /// The wait timed out.
    TimedOut,
    /// No memory is left.
    OutOfMemory,
    /// Any other kind of error.
    Other,
}

impl AcceptError {
    /// What an error of this kind means for the accept loop.
    pub open spec fn failure(self) -> AcceptFailure {
        match self {
            AcceptError::ConnectionAborted => AcceptFailure::ConnectionLost,
            AcceptError::ConnectionReset => AcceptFailure::ConnectionLost,
            AcceptError::ConnectionRefused => AcceptFailure::ConnectionLost,
            AcceptError::Interrupted => AcceptFailure::Interrupted,
            AcceptError::WouldBlock => AcceptFailure::Interrupted,
            AcceptError::TimedOut => AcceptFailure::Interrupted,
            AcceptError::OutOfMemory => AcceptFailure::OutOfResources,
            AcceptError::Other => AcceptFailure::Listener,
        }
    }

    /// Tells what an error of this kind means for the accept loop. An error
    /// of a kind that is not known to pass is taken to be the listening
    /// socket's.
    pub fn classify(&self) -> (failure: AcceptFailure)
        ensures
            failure == self.failure(),
    {
        match self {
            AcceptError::ConnectionAborted => AcceptFailure::ConnectionLost,
            AcceptError::ConnectionReset => AcceptFailure::ConnectionLost,
            AcceptError::ConnectionRefused => AcceptFailure::ConnectionLost,
            AcceptError::Interrupted => AcceptFailure::Interrupted,
            AcceptError::WouldBlock => AcceptFailure::Interrupted,
            AcceptError::TimedOut => AcceptFailure::Interrupted,
            AcceptError::OutOfMemory => AcceptFailure::OutOfResources,
            AcceptError::Other => AcceptFailure::Listener,
        }
    }
}

/// What the task that runs a server has observed.
#[derive(Debug, PartialEq, Eq, Clone, Copy, Structural)]
pub enum Event {
    /// The server was asked to run.
    Started,
    /// The number of permits that are free at the moment.
    Permits(usize),
    /// A permit was acquired.
    PermitAcquired,
    /// A connection was accepted.
    Accepted,
    /// Accepting a connection failed.
    AcceptFailed(AcceptFailure),
    /// The shutdown trigger fired.
    ShutdownRequested,
    /// The shutdown notification was broadcast to this many handlers, the
    /// number of those that were running at that moment.
    Notified(usize),
    /// Every handler that was notified has acknowledged or gone away.
    Drained,
}

/// What the task that runs a server has to do next.
#[derive(Debug, PartialEq, Eq, Clone, Copy, Structural)]
pub enum Action {
    /// Read the number of free permits and report it.
    CheckPermits,
    /// Wait for a permit.
    AcquirePermit,
    /// Wait for a connection, holding the permit just acquired.
    Accept,
    /// Subscribe to the notifier and spawn a handler for the connection just
    /// accepted. The handler takes the permit and the subscription with it
    /// and lets go of both when it ends. Then read the permits again.
    Serve,
    /// Log the error, let go of the permit and read the permits again.
    Retry,
    /// Drop the listening socket, together with a permit that is still held,
    /// and broadcast the shutdown notification.
    Notify,
    /// Wait until every notified handler has acknowledged or gone away.
    CollectAcknowledgements,
    /// Leave; `failed` says whether a fatal error ended the server.
    Exit { failed: bool },
    /// The event does not belong here; go on as if it had not been reported.
    Ignore,
}

/// Where the task that runs a server stands.
#[derive(Debug, PartialEq, Eq, Clone, Copy, Structural)]
pub enum Stage {
    /// Not running yet.
    Created,
    /// Reading the number of free permits.
    CheckingPermits,
    /// Waiting for a permit.
    AcquiringPermit,
    /// Waiting for a connection, with a permit in hand.
    Accepting,
    /// Broadcasting the shutdown notification.
    Notifying,
    /// Waiting for the handlers.
    Draining,
    /// Done.
    Finished,
}

/// The part of a [`Server`] that its lifecycle depends on.
pub struct Lifecycle {
    /// Where the task stands.
    pub stage: Stage,
    /// The state shown to observers.
    pub state: State,
    /// Connections limit.
    pub limit: usize,
    /// A fatal error ended the accept loop.
    pub failed: bool,
}

impl Lifecycle {
    /// The state shown to observers fits the stage of the task.
    pub open spec fn well_formed(self) -> bool {
        match self.stage {
            Stage::Created => self.state == State::Starting && !self.failed,
            Stage::CheckingPermits | Stage::Accepting => self.state == State::Listening
                && !self.failed,
            Stage::AcquiringPermit => !self.failed && (self.state == State::Listening
                || self.state == State::MaxConnectionsReached(self.limit)),
            Stage::Notifying => self.state.progress() == 1,
            Stage::Draining => self.state is ShuttingDown && self.state.progress() == 2,
            Stage::Finished => self.state == State::ShuttingDown(ShutdownState::Done),
        }
    }

    /// A lifecycle like this one at another stage and in another state.
    pub open spec fn at(self, stage: Stage, state: State) -> Lifecycle {
        Lifecycle { stage, state, ..self }
    }

    /// The shutdown sequence begins: the listening socket goes away and the
    /// handlers are notified.
    pub open spec fn wind_down(self, failed: bool) -> (Lifecycle, Action) {
        (Lifecycle { stage: Stage::Notifying, failed, ..self }, Action::Notify)
    }

    /// The lifecycle after `event`, and what to do next.
    ///
    /// - A server that is started reads the permits. When none is free it
    ///   shows `MaxConnectionsReached` with its limit while it waits for one,
    ///   and `Listening` again as soon as it has one. With the permit it
    ///   accepts one connection, which it hands to a handler together with
    ///   the permit.
    /// - After a failure to accept that is not fatal the server tries again;
    ///   a fatal one ends the accept loop and begins the shutdown sequence.
    /// - The shutdown trigger ends the accept loop wherever it stands. The
    ///   listening socket is dropped and the handlers are notified. With `k`
    ///   handlers notified the server shows `PendingConnections(k)` and
    ///   waits for them, which takes no time if there is none; then it is
    ///   done.
    /// - An event that the task cannot have observed at its stage changes
    ///   nothing.
    pub open spec fn next(self, event: Event) -> (Lifecycle, Action) {
        match (self.stage, event) {
            (Stage::Created, Event::Started) => (
                self.at(Stage::CheckingPermits, State::Listening),
                Action::CheckPermits,
            ),
            (Stage::CheckingPermits, Event::Permits(free)) => (
                self.at(
                    Stage::AcquiringPermit,
                    if free == 0 {
                        State::MaxConnectionsReached(self.limit)
                    } else {
                        self.state
                    },
                ),
                Action::AcquirePermit,
            ),
            (Stage::AcquiringPermit, Event::PermitAcquired) => (
                self.at(Stage::Accepting, State::Listening),
                Action::Accept,
            ),
            (Stage::Accepting, Event::Accepted) => (
                self.at(Stage::CheckingPermits, self.state),
                Action::Serve,
            ),
            (Stage::Accepting, Event::AcceptFailed(failure)) => if failure.is_fatal() {
                self.wind_down(true)
            } else {
                (self.at(Stage::CheckingPermits, self.state), Action::Retry)
            },
            (Stage::CheckingPermits, Event::ShutdownRequested) => self.wind_down(false),
            (Stage::AcquiringPermit, Event::ShutdownRequested) => self.wind_down(false),
            (Stage::Accepting, Event::ShutdownRequested) => self.wind_down(false),
            (Stage::Notifying, Event::Notified(handlers)) => (
                self.at(
                    Stage::Draining,
                    State::ShuttingDown(ShutdownState::PendingConnections(handlers)),
                ),
                Action::CollectAcknowledgements,
            ),
            (Stage::Draining, Event::Drained) => (
                self.at(Stage::Finished, State::ShuttingDown(ShutdownState::Done)),
                Action::Exit { failed: self.failed },
            ),
            _ => (self, Action::Ignore),
        }
    }

    /// The lifecycle after all of `events`, one after another.
    pub open spec fn after(self, events: Seq<Event>) -> Lifecycle
        decreases events.len(),
    {
        if events.len() == 0 {
            self
        } else {
            self.after(events.drop_last()).next(events.last()).0
        }
    }

    /// The task stops accepting for good: it has begun to shut down.
    pub open spec fn closed(self) -> bool {
        self.stage == Stage::Notifying || self.stage == Stage::Draining || self.stage
            == Stage::Finished
    }
}

/// The state shown always fits the stage.
pub proof fn lemma_next_well_formed(lifecycle: Lifecycle, event: Event)
    requires
        lifecycle.well_formed(),
    ensures
        lifecycle.next(event).0.well_formed(),
        lifecycle.next(event).0.limit == lifecycle.limit,
{
}

/// The state never goes back: after `Starting` comes `Listening`, which may
/// alternate with `MaxConnectionsReached`, then `ShuttingDown`, first with
/// pending connections and at last `Done`, which is final.
pub proof fn lemma_state_is_monotone(lifecycle: Lifecycle, event: Event)
    requires
        lifecycle.well_formed(),
    ensures
        lifecycle.next(event).0.state.progress() >= lifecycle.state.progress(),
        lifecycle.state == State::ShuttingDown(ShutdownState::Done) ==> lifecycle.next(event)
            == (lifecycle, Action::Ignore),
{
}

/// The same over any number of events.
pub proof fn lemma_state_is_monotone_over(lifecycle: Lifecycle, events: Seq<Event>)
    requires
        lifecycle.well_formed(),
    ensures
        lifecycle.after(events).well_formed(),
        lifecycle.after(events).state.progress() >= lifecycle.state.progress(),
    decreases events.len(),
{
    if events.len() > 0 {
        lemma_state_is_monotone_over(lifecycle, events.drop_last());
        lemma_next_well_formed(lifecycle.after(events.drop_last()), events.last());
        lemma_state_is_monotone(lifecycle.after(events.drop_last()), events.last());
    }
}

/// One permit for each connection. The server accepts only with a permit
/// that it has just acquired, every accepted connection is handed to a
/// handler together with that permit, and the next connection needs a permit
/// of its own.
pub proof fn lemma_one_permit_per_connection(lifecycle: Lifecycle, event: Event)
    ensures
        lifecycle.next(event).1 == Action::Accept ==> lifecycle.stage == Stage::AcquiringPermit
            && event == Event::PermitAcquired,
        lifecycle.next(event).1 == Action::Serve ==> lifecycle.stage == Stage::Accepting && event
            == Event::Accepted,
        lifecycle.next(event).0.stage == Stage::Accepting ==> lifecycle.next(event).1
            == Action::Accept || (lifecycle.stage == Stage::Accepting && lifecycle.next(event).1
            == Action::Ignore),
{
}

/// Once the shutdown trigger has fired the server never accepts again:
/// whatever is reported afterwards, it neither asks for a permit nor for a
/// connection nor for a handler.
pub proof fn lemma_no_accept_after_shutdown(lifecycle: Lifecycle, events: Seq<Event>, event: Event)
    requires
        lifecycle.closed(),
    ensures
        lifecycle.after(events).closed(),
        lifecycle.after(events).next(event).1 != Action::CheckPermits,
        lifecycle.after(events).next(event).1 != Action::AcquirePermit,
        lifecycle.after(events).next(event).1 != Action::Accept,
        lifecycle.after(events).next(event).1 != Action::Serve,
        lifecycle.after(events).next(event).1 != Action::Retry,
    decreases events.len(),
{
    if events.len() > 0 {
        lemma_no_accept_after_shutdown(lifecycle, events.drop_last(), events.last());
    }
}

/// A server that shuts down always shows how many connections are pending,
/// be it none, before it shows that it is done: it is done only after it
/// has waited for its handlers, and it waits for them only after it has
/// shown their number.
pub proof fn lemma_pending_is_shown_before_done(lifecycle: Lifecycle, event: Event)
    requires
        lifecycle.well_formed(),
    ensures
        lifecycle.next(event).0.state == State::ShuttingDown(ShutdownState::Done) && lifecycle.state
            != State::ShuttingDown(ShutdownState::Done) ==> lifecycle.state is ShuttingDown && event
            == Event::Drained,
        lifecycle.next(event).0.state is ShuttingDown && !(lifecycle.state is ShuttingDown)
            ==> event is Notified && lifecycle.next(event).0.state == State::ShuttingDown(
            ShutdownState::PendingConnections(event->Notified_0),
        ),
{
}

/// The shutdown trigger closes a running server at every stage.
pub proof fn lemma_shutdown_closes(lifecycle: Lifecycle)
    requires
        lifecycle.stage != Stage::Created,
    ensures
        lifecycle.next(Event::ShutdownRequested).0.closed(),
{
}

} // verus!

verus! {

/// How the listening socket of a server is to be set up.
#[derive(Debug, PartialEq, Eq, Clone, Copy, Structural)]
pub struct SocketOptions {
    /// Address to bind the socket to.
    pub address: SocketAddress,
    /// Whether the socket is an IPv4 socket; otherwise it is an IPv6 socket.
    pub ipv4: bool,
    /// Allow binding to an address that is still in use by closed sockets.
    pub reuse_address: bool,
    /// Maximum number of connections that wait to be accepted.
    pub backlog: u32,
}

/// The name of a server in log lines: its address, followed by the name that
/// the user gave it, if any, in parentheses.
pub open spec fn log_name_of(address: Seq<char>, name: Option<Seq<char>>) -> Seq<char> {
    match name {
        Some(name) => address + " ("@ + name + ")"@,
        None => address,
    }
}

/// The name of a server in log lines.
pub fn log_name(address: &str, name: &Option<String>) -> (log_name: String)
    ensures
        log_name@ == log_name_of(address@, config::optional_text(*name)),
{
    let mut log_name = String::from_str(address);
    match name {
        Some(name) => {
            log_name.append(" (");
            log_name.append(name.as_str());
            log_name.append(")");
        },
        None => {},
    }
    log_name
}

/// The [`Server`] struct represents a particular `[[server]]` instance from the
/// config file. It decides when to accept new connections and when to spawn
/// handlers for them, as well as how to stop gracefully: the handlers are
/// notified, and the server is done when all of them are.
#[derive(Debug)]
pub struct Server {
    /// Configuration for this server.
    config: config::Server,
    /// Socket address used by this server to listen for incoming connections.
    address: SocketAddress,
    /// Where the task that runs this server stands.
    stage: Stage,
    /// State shown to observers.
    state: State,
    /// A fatal error ended the accept loop.
    failed: bool,
}

impl Server {
    /// The lifecycle of this server.
    pub closed spec fn lifecycle(&self) -> Lifecycle {
        Lifecycle {
            stage: self.stage,
            state: self.state,
            limit: self.config.max_connections,
            failed: self.failed,
        }
    }

    /// The configuration of this server.
    pub closed spec fn spec_config(&self) -> config::Server {
        self.config
    }

    /// The address of the listening socket.
    pub closed spec fn spec_socket_address(&self) -> SocketAddress {
        self.address
    }

    /// The socket of a server listens on the address of the replica, is of
    /// the kind that the address asks for, may reuse the address and queues
    /// up to 1024 connections.
    pub fn socket_options(config: &config::Server) -> (options: SocketOptions)
        requires
            config.replica < config.listen@.len(),
        ensures
            options == (SocketOptions {
                address: config.listen@[config.replica as int],
                ipv4: config.listen@[config.replica as int] is V4,
                reuse_address: true,
                backlog: 1024,
            }),
    {
        let address = config.address();
        SocketOptions { address, ipv4: address.is_ipv4(), reuse_address: true, backlog: 1024 }
    }

    /// Initializes a [`Server`] with the given `config`, once its socket is
    /// bound. `address` is the address that the socket got, which differs
    /// from the configured one if port 0 was asked for, and `address_text` is
    /// the same address in writing. The server does not accept connections
    /// yet: it is `Starting`, and has as many permits to give as the
    /// configuration allows connections.
    pub fn init(config: config::Server, address: SocketAddress, address_text: &str) -> (server:
        Self)
        ensures
            server.lifecycle() == (Lifecycle {
                stage: Stage::Created,
                state: State::Starting,
                limit: config.max_connections,
                failed: false,
            }),
            server.spec_socket_address() == address,
            server.spec_config()@ == (config::ServerView {
                log_name: log_name_of(address_text@, config::optional_text(config.name)),
                ..config@
            }),
            server.spec_config().patterns == config.patterns,
    {
        let mut config = config;
        config.log_name = log_name(address_text, &config.name);
        Self { config, address, stage: Stage::Created, state: State::Starting, failed: false }
    }

    /// Address of the listening socket. This is necessary for obtaining the
    /// actual address in cases port 0 was used.
    pub fn socket_address(&self) -> (address: SocketAddress)
        ensures
            address == self.spec_socket_address(),
    {
        self.address
    }

    /// The configuration of this server.
    pub fn config(&self) -> (config: &config::Server)
        ensures
            *config == self.spec_config(),
    {
        &self.config
    }

    /// The current state of the server, as shown to observers.
    pub fn state(&self) -> (state: State)
        ensures
            state == self.lifecycle().state,
    {
        self.state
    }

    /// Number of permits of this server: one for each connection that it may
    /// serve at the same time.
    pub fn permits(&self) -> (permits: usize)
        ensures
            permits == self.lifecycle().limit,
    {
        self.config.max_connections
    }

    /// This is the entry point. The task that runs the server reports
    /// `Started` first and then each thing that it observes, and does what it
    /// is told; see [`Lifecycle::next`] for the rules.
    pub fn run(&mut self, event: Event) -> (action: Action)
        ensures
            (final(self).lifecycle(), action) == old(self).lifecycle().next(event),
            final(self).spec_config() == old(self).spec_config(),
            final(self).spec_socket_address() == old(self).spec_socket_address(),
    {
        match (self.stage, event) {
            (Stage::Created, Event::Started) => {
                self.stage = Stage::CheckingPermits;
                self.state = State::Listening;
                Action::CheckPermits
            },
            (Stage::CheckingPermits, Event::Permits(free)) => {
                self.stage = Stage::AcquiringPermit;
                if free == 0 {
                    self.state = State::MaxConnectionsReached(self.config.max_connections);
                }
                Action::AcquirePermit
            },
            (Stage::AcquiringPermit, Event::PermitAcquired) => {
                self.stage = Stage::Accepting;
                self.state = State::Listening;
                Action::Accept
            },
            (Stage::Accepting, Event::Accepted) => {
                self.stage = Stage::CheckingPermits;
                Action::Serve
            },
            (Stage::Accepting, Event::AcceptFailed(failure)) => {
                if failure.fatal() {
                    self.stage = Stage::Notifying;
                    self.failed = true;
                    Action::Notify
                } else {
                    self.stage = Stage::CheckingPermits;
                    Action::Retry
                }
            },
            (Stage::CheckingPermits, Event::ShutdownRequested)
            | (Stage::AcquiringPermit, Event::ShutdownRequested)
            | (Stage::Accepting, Event::ShutdownRequested) => {
                self.stage = Stage::Notifying;
                self.failed = false;
                Action::Notify
            },
            (Stage::Notifying, Event::Notified(handlers)) => {
                self.stage = Stage::Draining;
                self.state = State::ShuttingDown(ShutdownState::PendingConnections(handlers));
                Action::CollectAcknowledgements
            },
            (Stage::Draining, Event::Drained) => {
                self.stage = Stage::Finished;
                self.state = State::ShuttingDown(ShutdownState::Done);
                Action::Exit { failed: self.failed }
            },
            _ => Action::Ignore,
        }
    }
}

} // verus!

verus! {

/// What the task that handles a connection has observed.
#[derive(Debug, PartialEq, Eq, Clone, Copy, Structural)]
pub enum Served {
    /// Serving HTTP over the connection is over. `tunnels` is the number of
    /// tunnels that were set up for upgraded requests of the connection.
    Connection { tunnels: usize },
    /// All the tunnels of the connection have ended.
    TunnelsEnded,
    /// What the subscription of the handler had to say when it was read.
    Notification(Option<Notification>),
    /// The acknowledgement is out.
    Acknowledged,
}

/// What the task that handles a connection has to do next.
#[derive(Debug, PartialEq, Eq, Clone, Copy, Structural)]
pub enum Farewell {
    /// Wait until all the tunnels of the connection have ended.
    AwaitTunnels,
    /// Read the subscription: has a shutdown notification been sent?
    ReadNotification,
    /// Acknowledge the shutdown notification.
    Acknowledge,
    /// Let go of the subscription and of the permit, and end.
    Release,
    /// The report does not belong here; go on as if it had not been made.
    Ignore,
}

/// Where the task that handles a connection stands. It starts `Serving` and
/// holds the permit of its connection until it is `Gone`.
#[derive(Debug, PartialEq, Eq, Clone, Copy, Structural)]
pub enum Handler {
    /// Serving HTTP over the connection.
    Serving,
    /// Waiting for the tunnels of the connection to end.
    Tunnelling,
    /// Nothing is left to serve; about to read the subscription.
    Leaving,
    /// Acknowledging the shutdown notification.
    Acknowledging,
    /// The permit is released.
    Gone,
}

impl Handler {
    /// The handler after `served`, and what to do next. A handler holds its
    /// permit for as long as it serves its connection, requests, responses
    /// and tunnels. Only when all of that is over it looks for a
    /// notification, acknowledges the one it finds, and lets go of the
    /// permit last.
    pub open spec fn next(self, served: Served) -> (Handler, Farewell) {
        match (self, served) {
            (Handler::Serving, Served::Connection { tunnels }) => if tunnels > 0 {
                (Handler::Tunnelling, Farewell::AwaitTunnels)
            } else {
                (Handler::Leaving, Farewell::ReadNotification)
            },
            (Handler::Tunnelling, Served::TunnelsEnded) => (
                Handler::Leaving,
                Farewell::ReadNotification,
            ),
            (Handler::Leaving, Served::Notification(Some(_))) => (
                Handler::Acknowledging,
                Farewell::Acknowledge,
            ),
            (Handler::Leaving, Served::Notification(None)) => (Handler::Gone, Farewell::Release),
            (Handler::Acknowledging, Served::Acknowledged) => (Handler::Gone, Farewell::Release),
            _ => (self, Farewell::Ignore),
        }
    }

    /// The handler after all of `reports`, one after another.
    pub open spec fn after(self, reports: Seq<Served>) -> Handler
        decreases reports.len(),
    {
        if reports.len() == 0 {
            self
        } else {
            self.after(reports.drop_last()).next(reports.last()).0
        }
    }

    /// Whether the handler holds the permit of its connection.
    pub open spec fn holds_permit(self) -> bool {
        self != Handler::Gone
    }

    /// Takes in what was observed and says what to do next.
    pub fn farewell(&mut self, served: Served) -> (step: Farewell)
        ensures
            (*final(self), step) == old(self).next(served),
    {
        match (*self, served) {
            (Handler::Serving, Served::Connection { tunnels }) => {
                if tunnels > 0 {
                    *self = Handler::Tunnelling;
                    Farewell::AwaitTunnels
                } else {
                    *self = Handler::Leaving;
                    Farewell::ReadNotification
                }
            },
            (Handler::Tunnelling, Served::TunnelsEnded) => {
                *self = Handler::Leaving;
                Farewell::ReadNotification
            },
            (Handler::Leaving, Served::Notification(Some(_))) => {
                *self = Handler::Acknowledging;
                Farewell::Acknowledge
            },
            (Handler::Leaving, Served::Notification(None)) => {
                *self = Handler::Gone;
                Farewell::Release
            },
            (Handler::Acknowledging, Served::Acknowledged) => {
                *self = Handler::Gone;
                Farewell::Release
            },
            _ => Farewell::Ignore,
        }
    }
}

/// The permit outlasts the connection. A handler lets go of its permit
/// exactly when it is told to release, which it is only after serving is
/// over and, if there were tunnels, after they have ended; and once the
/// permit is gone it is not released again.
pub proof fn lemma_permit_outlasts_connection(handler: Handler, served: Served)
    ensures
        handler.next(served).1 == Farewell::Release <==> handler.holds_permit()
            && !handler.next(served).0.holds_permit(),
        handler.next(served).1 == Farewell::Release ==> handler == Handler::Leaving || handler
            == Handler::Acknowledging,
        handler.next(served).0 == Handler::Leaving ==> handler == Handler::Leaving || (handler
            == Handler::Serving && served == (Served::Connection { tunnels: 0 })) || (handler
            == Handler::Tunnelling && served == Served::TunnelsEnded),
        handler == Handler::Serving && served is Connection && served->tunnels > 0
            ==> handler.next(served) == (Handler::Tunnelling, Farewell::AwaitTunnels),
        !handler.holds_permit() ==> handler.next(served) == (handler, Farewell::Ignore),
{
}

/// Where the permits of a server are: with the accept loop, with the
/// handlers, or free.
pub struct Permits {
    /// Number of permits of the server: its limit of connections.
    pub limit: nat,
    /// Whether the accept loop holds a permit for the connection to come.
    pub held: bool,
    /// Number of handlers that hold a permit, each for one connection.
    pub handlers: nat,
}

/// What can happen to a permit.
pub enum Handover {
    /// The accept loop acquires a free permit ([`Action::Accept`] follows).
    Acquire,
    /// The accept loop hands its permit to the handler of the connection
    /// that it has accepted ([`Action::Serve`]).
    Serve,
    /// The accept loop lets go of its permit ([`Action::Retry`],
    /// [`Action::Notify`]).
    Release,
    /// A handler lets go of its permit ([`Farewell::Release`]).
    Farewell,
}

impl Permits {
    /// Number of permits in use.
    pub open spec fn taken(self) -> nat {
        self.handlers + if self.held {
            1nat
        } else {
            0nat
        }
    }

    /// Number of permits that are free.
    pub open spec fn available(self) -> int {
        self.limit - self.taken()
    }

    /// No more permits are in use than there are.
    pub open spec fn well_formed(self) -> bool {
        self.taken() <= self.limit
    }

    /// Whether `handover` can happen: a permit is acquired only if one is
    /// free and the loop has none, only a permit that is held is handed on
    /// or released, and only a handler that holds one can let go of it.
    pub open spec fn allows(self, handover: Handover) -> bool {
        match handover {
            Handover::Acquire => !self.held && self.available() > 0,
            Handover::Serve => self.held,
            Handover::Release => self.held,
            Handover::Farewell => self.handlers > 0,
        }
    }

    /// The permits after `handover`.
    pub open spec fn after(self, handover: Handover) -> Permits {
        match handover {
            Handover::Acquire => Permits { held: true, ..self },
            Handover::Serve => Permits { held: false, handlers: self.handlers + 1, ..self },
            Handover::Release => Permits { held: false, ..self },
            Handover::Farewell => Permits { handlers: (self.handlers - 1) as nat, ..self },
        }
    }

    /// The permits after all of `handovers` that can happen, one after
    /// another; one that cannot happen changes nothing.
    pub open spec fn after_all(self, handovers: Seq<Handover>) -> Permits
        decreases handovers.len(),
    {
        if handovers.len() == 0 {
            self
        } else {
            let before = self.after_all(handovers.drop_last());
            if before.allows(handovers.last()) {
                before.after(handovers.last())
            } else {
                before
            }
        }
    }
}

/// One permit for each connection. Whatever happens, the handlers are never
/// more than the limit of connections, every handler holds exactly one
/// permit, and the permits in use and the free ones add up to the limit. A
/// handler comes into being with the permit that the accept loop acquired
/// for it, and with each handler that ends one permit is free again.
pub proof fn lemma_permits_follow_connections(permits: Permits, handovers: Seq<Handover>)
    requires
        permits.well_formed(),
    ensures
        permits.after_all(handovers).well_formed(),
        permits.after_all(handovers).limit == permits.limit,
        permits.after_all(handovers).handlers <= permits.limit,
        permits.after_all(handovers).available() + permits.after_all(handovers).taken()
            == permits.limit,
    decreases handovers.len(),
{
    if handovers.len() > 0 {
        lemma_permits_follow_connections(permits, handovers.drop_last());
    }
}

/// Each handover moves exactly one permit.
pub proof fn lemma_handover_moves_one_permit(permits: Permits, handover: Handover)
    requires
        permits.well_formed(),
        permits.allows(handover),
    ensures
        handover is Acquire ==> permits.after(handover).taken() == permits.taken() + 1
            && permits.after(handover).handlers == permits.handlers,
        handover is Serve ==> permits.after(handover).taken() == permits.taken()
            && permits.after(handover).handlers == permits.handlers + 1,
        handover is Release ==> permits.after(handover).taken() == permits.taken() - 1
            && permits.after(handover).handlers == permits.handlers,
        handover is Farewell ==> permits.after(handover).taken() == permits.taken() - 1
            && permits.after(handover).handlers == permits.handlers - 1,
{
}

} // verus!
