//! The master owns all the servers.
//!
//! The master task is responsible for creating, spawning and shutting down
//! all the [`Server`] instances described in the configuration file. It is
//! the only one that listens to the shutdown trigger, and forwards the
//! signal to each server once:
//!
//! ```text
//!                         +--------+
//!                         | CTRL-C |
//!                         +--------+
//!                              |
//!                              | Shutdown event (SIGINT)
//!                              V
//!                         +--------+
//!                         | Master |
//!                         +--------+
//!                              |
//!                              | Forward the signal to each server.
//!                              |
//!               +--------------+--------------+
//!               |                             |
//!               v                             v
//!          +----------+                 +----------+
//!          | Server 1 |                 | Server 2 |
//!          +----------+                 +----------+
//!               |                             |
//!               | Notify request handlers     |
//!               |                             |
//!       +-------+-------+             +-------+-------+
//!       |               |             |               |
//!       v               v             v               v
//! +----------+   +----------+   +----------+   +----------+
//! | Task 1.1 |   | Task 1.2 |   | Task 2.1 |   | Task 2.2 |
//! +----------+   +----------+   +----------+   +----------+
//! ```
//!
//! A server that listens on several addresses is replicated beforehand, so
//! that every server has one listener only and the master does not have to
//! care.

use crate::config::SocketAddress;
use crate::task::server::Server;
use crate::Error;
use vstd::prelude::*;

verus! {

/// What the master task has observed.
#[derive(Debug)]
pub enum Report {
    /// The master was asked to run.
    Started,
    /// A server has ended, with or without an error.
    ServerExited(Result<(), Error>),
    /// The shutdown trigger fired.
    ShutdownRequested,
    /// The shutdown signal has been sent to the servers.
    SignalSent,
}

/// What the master task has to do next.
#[derive(Debug, PartialEq, Eq, Clone, Copy, Structural)]
pub enum Order {
    /// Spawn every server, then wait for the shutdown trigger or for a
    /// server to end, whichever comes first.
    Spawn,
    /// Keep waiting.
    Wait,
    /// Send the shutdown signal to every server, then wait for the servers
    /// to end.
    Signal,
    /// Every server has ended: return.
    Return,
    /// The report does not belong here; go on as if it had not been made.
    Ignore,
}

/// Where the master task stands.
#[derive(Debug, PartialEq, Eq, Clone, Copy, Structural)]
pub enum Phase {
    /// Not running yet.
    Created,
    /// The servers run; nothing has gone wrong and nobody has asked to stop.
    Running,
    /// The shutdown signal is being sent.
    Signalling,
    /// The shutdown signal is out; servers are ending.
    Draining,
    /// All servers have ended.
    Finished,
}

/// The part of a [`Master`] that decides.
pub struct Supervision {
    /// Where the master task stands.
    pub phase: Phase,
    /// Number of servers that have not ended yet.
    pub running: nat,
    /// The first error that a server ended with.
    pub first_error: Option<Error>,
}

/// The error that `outcome` brings, unless there was one before.
pub open spec fn first_of(first_error: Option<Error>, outcome: Result<(), Error>) -> Option<
    Error,
> {
    match (first_error, outcome) {
        (None, Err(error)) => Some(error),
        _ => first_error,
    }
}

impl Supervision {
    /// The supervision after `report`, and what to do next.
    ///
    /// - Once started, the master waits. The shutdown trigger makes it send
    ///   the shutdown signal, and so does the first server that ends with an
    ///   error. A server that ends without one is no reason to stop.
    /// - The signal is sent once, to all servers. Afterwards the master
    ///   waits until every server has ended.
    /// - Of the errors that servers end with, the first is kept and the
    ///   others are dropped.
    pub open spec fn next(self, report: Report) -> (Supervision, Order) {
        match (self.phase, report) {
            (Phase::Created, Report::Started) => (
                Supervision { phase: Phase::Running, ..self },
                Order::Spawn,
            ),
            (Phase::Running, Report::ShutdownRequested) => (
                Supervision { phase: Phase::Signalling, ..self },
                Order::Signal,
            ),
            (Phase::Running, Report::ServerExited(outcome)) => if self.running == 0 {
                (self, Order::Ignore)
            } else if outcome is Err {
                (
                    Supervision {
                        phase: Phase::Signalling,
                        running: (self.running - 1) as nat,
                        first_error: first_of(self.first_error, outcome),
                    },
                    Order::Signal,
                )
            } else {
                (Supervision { running: (self.running - 1) as nat, ..self }, Order::Wait)
            },
            (Phase::Signalling, Report::SignalSent) => if self.running == 0 {
                (Supervision { phase: Phase::Finished, ..self }, Order::Return)
            } else {
                (Supervision { phase: Phase::Draining, ..self }, Order::Wait)
            },
            (Phase::Draining, Report::ServerExited(outcome)) => if self.running == 0 {
                (self, Order::Ignore)
            } else if self.running == 1 {
                (
                    Supervision {
                        phase: Phase::Finished,
                        running: 0,
                        first_error: first_of(self.first_error, outcome),
                    },
                    Order::Return,
                )
            } else {
                (
                    Supervision {
                        phase: Phase::Draining,
                        running: (self.running - 1) as nat,
                        first_error: first_of(self.first_error, outcome),
                    },
                    Order::Wait,
                )
            },
            _ => (self, Order::Ignore),
        }
    }

    /// The supervision after all of `reports`, one after another.
    pub open spec fn after(self, reports: Seq<Report>) -> Supervision
        decreases reports.len(),
    {
        if reports.len() == 0 {
            self
        } else {
            self.after(reports.drop_last()).next(reports.last()).0
        }
    }

    /// The shutdown signal has been ordered.
    pub open spec fn signalled(self) -> bool {
        self.phase == Phase::Signalling || self.phase == Phase::Draining || self.phase
            == Phase::Finished
    }

    /// A master that is done drains or has no server left, and an error
    /// before the signal is impossible.
    pub open spec fn well_formed(self) -> bool {
        &&& self.phase == Phase::Draining ==> self.running > 0
        &&& self.phase == Phase::Finished ==> self.running == 0
        &&& (self.phase == Phase::Created || self.phase == Phase::Running)
            ==> self.first_error is None
    }
}

/// The first error wins: whatever is reported after a server has ended with
/// an error, that error stays the one that the master returns.
pub proof fn lemma_first_error_is_kept(supervision: Supervision, reports: Seq<Report>)
    requires
        supervision.first_error is Some,
    ensures
        supervision.after(reports).first_error == supervision.first_error,
    decreases reports.len(),
{
    if reports.len() > 0 {
        lemma_first_error_is_kept(supervision, reports.drop_last());
    }
}

/// The shutdown signal is sent once: it is ordered when the trigger fires
/// or when the first server ends with an error, and never again afterwards.
pub proof fn lemma_signal_is_sent_once(
    supervision: Supervision,
    reports: Seq<Report>,
    report: Report,
)
    requires
        supervision.signalled(),
    ensures
        supervision.after(reports).signalled(),
        supervision.after(reports).next(report).1 != Order::Signal,
        supervision.after(reports).next(report).1 != Order::Spawn,
    decreases reports.len(),
{
    if reports.len() > 0 {
        lemma_signal_is_sent_once(supervision, reports.drop_last(), reports.last());
    }
}

/// What makes the master send the signal: the trigger, or a server that
/// ends with an error, which then is the first error.
pub proof fn lemma_signal_causes(supervision: Supervision, report: Report)
    requires
        supervision.well_formed(),
    ensures
        supervision.next(report).0.well_formed(),
        supervision.next(report).1 == Order::Signal ==> supervision.phase == Phase::Running && (
        report is ShutdownRequested || (report matches Report::ServerExited(Err(error))
            && supervision.next(report).0.first_error == Some(error))),
        supervision.next(report).1 == Order::Return ==> supervision.next(report).0.running == 0
            && supervision.signalled(),
{
}

/// The master task is responsible for creating, spawning and shutting down all
/// the [`Server`] instances described in the configuration file.
#[derive(Debug)]
pub struct Master {
    /// All the servers that the master is going to spawn.
    servers: Vec<Server>,
    /// The listening address of each server.
    sockets: Vec<SocketAddress>,
    /// Where the master task stands.
    phase: Phase,
    /// Number of servers that have not ended yet.
    running: usize,
    /// The first error that a server ended with.
    first_error: Option<Error>,
}

/// The listening addresses of `servers`, in the same order.
pub open spec fn addresses_of(servers: Seq<Server>) -> Seq<SocketAddress> {
    Seq::new(servers.len(), |i: int| servers[i].spec_socket_address())
}

/// The servers among `bound`, as long as there is no error before them.
pub open spec fn bound_servers(bound: Seq<Result<Server, Error>>) -> Seq<Server> {
    Seq::new(bound.len(), |i: int| bound[i]->Ok_0)
}

/// The first error in `bound` is at index `at`.
pub open spec fn is_first_failure(bound: Seq<Result<Server, Error>>, at: int) -> bool {
    &&& 0 <= at < bound.len()
    &&& bound[at] is Err
    &&& forall|i: int| 0 <= i < at ==> (#[trigger] bound[i]) is Ok
}

impl Master {
    /// What the master decides on.
    pub closed spec fn supervision(&self) -> Supervision {
        Supervision {
            phase: self.phase,
            running: self.running as nat,
            first_error: self.first_error,
        }
    }

    /// The servers that wait to be spawned.
    pub closed spec fn spec_servers(&self) -> Seq<Server> {
        self.servers@
    }

    /// The listening addresses of all the servers.
    pub closed spec fn spec_sockets(&self) -> Seq<SocketAddress> {
        self.sockets@
    }

    /// Takes over the servers of the configuration file, each of them
    /// initialized on its socket or failed in the attempt. If any server
    /// failed, none is started and the first failure is returned.
    pub fn init(bound: Vec<Result<Server, Error>>) -> (master: Result<Self, Error>)
        ensures
            match master {
                Ok(master) => {
                    &&& forall|i: int| 0 <= i < bound@.len() ==> (#[trigger] bound@[i]) is Ok
                    &&& master.spec_servers() == bound_servers(bound@)
                    &&& master.spec_sockets() == addresses_of(bound_servers(bound@))
                    &&& master.supervision() == (Supervision {
                        phase: Phase::Created,
                        running: bound@.len(),
                        first_error: None,
                    })
                },
                Err(error) => exists|at: int|
                    is_first_failure(bound@, at) && #[trigger] bound@[at] == Err::<Server, Error>(
                        error,
                    ),
            },
    {
        let mut servers: Vec<Server> = Vec::new();
        let mut sockets: Vec<SocketAddress> = Vec::new();
        let mut rest = bound;
        let ghost total = bound@.len();
        while rest.len() > 0
            invariant
                total == bound@.len(),
                servers@.len() + rest@.len() == total,
                sockets@.len() == servers@.len(),
                forall|i: int| 0 <= i < servers@.len() ==> (#[trigger] bound@[i]) is Ok,
                forall|i: int|
                    0 <= i < servers@.len() ==> servers@[i] == (#[trigger] bound@[i])->Ok_0,
                forall|i: int|
                    0 <= i < servers@.len() ==> #[trigger] sockets@[i]
                        == servers@[i].spec_socket_address(),
                forall|i: int| 0 <= i < rest@.len() ==> rest@[i] == bound@[servers@.len() + i],
            decreases rest@.len(),
        {
            let ghost done = servers@.len() as int;
            match rest.remove(0) {
                Ok(server) => {
                    sockets.push(server.socket_address());
                    servers.push(server);
                },
                Err(error) => {
                    assert(is_first_failure(bound@, done));
                    assert(bound@[done] == Err::<Server, Error>(error));
                    return Err(error);
                },
            }
        }
        assert(servers@ =~= bound_servers(bound@));
        assert(sockets@ =~= addresses_of(bound_servers(bound@)));
        let running = servers.len();
        Ok(Self { servers, sockets, phase: Phase::Created, running, first_error: None })
    }

    /// Returns all the listening sockets.
    pub fn sockets(&self) -> (sockets: Vec<SocketAddress>)
        ensures
            sockets@ == self.spec_sockets(),
    {
        let sockets = self.sockets.clone();
        assert(sockets@ =~= self.sockets@);
        sockets
    }

    /// Hands out the servers, to be spawned. The master keeps none.
    pub fn servers(&mut self) -> (servers: Vec<Server>)
        ensures
            servers@ == old(self).spec_servers(),
            final(self).spec_servers() == Seq::<Server>::empty(),
            final(self).spec_sockets() == old(self).spec_sockets(),
            final(self).supervision() == old(self).supervision(),
    {
        let mut servers: Vec<Server> = Vec::new();
        std::mem::swap(&mut servers, &mut self.servers);
        servers
    }

    /// This is the entry point. The task that runs the master reports
    /// `Started` first and then each thing that it observes, and does what it
    /// is told; see [`Supervision::next`] for the rules.
    pub fn run(&mut self, report: Report) -> (order: Order)
        ensures
            (final(self).supervision(), order) == old(self).supervision().next(report),
            final(self).spec_servers() == old(self).spec_servers(),
            final(self).spec_sockets() == old(self).spec_sockets(),
    {
        match (self.phase, report) {
            (Phase::Created, Report::Started) => {
                self.phase = Phase::Running;
                Order::Spawn
            },
            (Phase::Running, Report::ShutdownRequested) => {
                self.phase = Phase::Signalling;
                Order::Signal
            },
            (Phase::Running, Report::ServerExited(outcome)) => {
                if self.running == 0 {
                    return Order::Ignore;
                }
                match outcome {
                    Err(error) => {
                        self.running = self.running - 1;
                        self.phase = Phase::Signalling;
                        if self.first_error.is_none() {
                            self.first_error = Some(error);
                        }
                        Order::Signal
                    },
                    Ok(()) => {
                        self.running = self.running - 1;
                        Order::Wait
                    },
                }
            },
            (Phase::Signalling, Report::SignalSent) => {
                if self.running == 0 {
                    self.phase = Phase::Finished;
                    Order::Return
                } else {
                    self.phase = Phase::Draining;
                    Order::Wait
                }
            },
            (Phase::Draining, Report::ServerExited(outcome)) => {
                if self.running == 0 {
                    return Order::Ignore;
                }
                self.running = self.running - 1;
                match outcome {
                    Err(error) => {
                        if self.first_error.is_none() {
                            self.first_error = Some(error);
                        }
                    },
                    Ok(()) => {},
                }
                if self.running == 0 {
                    self.phase = Phase::Finished;
                    Order::Return
                } else {
                    Order::Wait
                }
            },
            _ => Order::Ignore,
        }
    }

    /// The result of the run: the first error that a server ended with, if
    /// there was one.
    pub fn finish(self) -> (result: Result<(), Error>)
        ensures
            match self.supervision().first_error {
                Some(error) => result == Err::<(), Error>(error),
                None => result is Ok,
            },
    {
        match self.first_error {
            Some(error) => Err(error),
            None => Ok(()),
        }
    }
}

} // verus!
