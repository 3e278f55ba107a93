//! Configuration of the proxy: the servers to run, the patterns that each of
//! them matches requests against and what to do when a pattern matches.

pub mod default;
pub mod deser;

use crate::sched::wrr::{cycle_of, lemma_cycle_len, lemma_total_weight_grows, total_weight};
use crate::sched::{self, Scheduler};
use vstd::prelude::*;

verus! {

/// Address of a socket: IP address, port and, for IPv6, flow information and
/// scope. The IP address is held as the integer made of its bytes in network
/// order, so `127.0.0.1` is `0x7f00_0001`.
#[allow(inconsistent_fields)]
#[derive(Clone, Copy, Debug, PartialEq, Eq, Structural, Hash)]
pub enum SocketAddress {
    /// IPv4 socket address.
    V4 { ip: u32, port: u16 },
    /// IPv6 socket address.
    V6 { ip: u128, port: u16, flowinfo: u32, scope_id: u32 },
}

impl SocketAddress {
    /// Returns `true` if the IP address of this socket is an IPv4 address.
    pub fn is_ipv4(&self) -> (v4: bool)
        ensures
            v4 == (*self is V4),
    {
        match self {
            SocketAddress::V4 { .. } => true,
            SocketAddress::V6 { .. } => false,
        }
    }

    /// Port number of this socket address.
    pub fn port(&self) -> (port: u16)
        ensures
            port == match *self {
                SocketAddress::V4 { port, .. } => port,
                SocketAddress::V6 { port, .. } => port,
            },
    {
        match self {
            SocketAddress::V4 { port, .. } => *port,
            SocketAddress::V6 { port, .. } => *port,
        }
    }
}

/// One element in the "forward" list. This represents an upstream server and
/// when multiple of them are present load balancing has to be performed.
///
/// ```toml
/// [[server]]
///
/// listen = "127.0.0.1:8000"
/// forward = [
///     { address = "127.0.0.1:8080", weight = 1 }, # This is a Backend
///     { address = "127.0.0.1:8081", weight = 2 }, # This is another Backend
/// ]
/// ```
#[derive(Clone, Copy, Debug, PartialEq, Eq, Structural)]
pub struct Backend {
    /// Address of the upstream server.
    pub address: SocketAddress,
    /// Some algorithms such as WRR (Weighted Round Robin) require each server
    /// to define a weight. For example, a server with 4 cores can have a weight
    /// of 1 while a server with 8 cores can have a weight of 2.
    pub weight: usize,
}

/// Algorithm that should be used for load balancing. For now only WRR exists,
/// so there's no point in specifying this, but the syntax is as follows:
///
/// ```toml
/// [[server]]
///
/// listen = "127.0.0.1:8000"
///
/// [[server.forward]]
///
/// algorithm = "WRR"
/// backends = [
///     { address = "127.0.0.1:8080", weight = 1 },
///     { address = "127.0.0.1:8081", weight = 2 },
/// ]
/// ```
#[derive(Clone, Copy, Debug, PartialEq, Eq, Structural)]
pub enum Algorithm {
    /// Weighted Round Robin.
    Wrr,
}

} // verus!

verus! {

/// Proxy specific configuration.
///
/// ```toml
/// [[server]]
///
/// # This is the Forward struct
/// [[server.forward]]
///
/// algorithm = "WRR"
/// backends = [
///     { address = "127.0.0.1:8080", weight = 1 },
///     { address = "127.0.0.1:8081", weight = 2 },
/// ]
/// ```
#[derive(Debug)]
pub struct Forward {
    /// Upstream servers.
    pub backends: Vec<Backend>,
    /// Algorithm used for load balancing.
    pub algorithm: Algorithm,
    /// Load balancing scheduler.
    pub scheduler: Scheduler,
}

/// What the configuration file says about a [`Forward`].
pub struct ForwardView {
    pub backends: Seq<Backend>,
    pub algorithm: Algorithm,
}

impl View for Forward {
    type V = ForwardView;

    open spec fn view(&self) -> ForwardView {
        ForwardView { backends: self.backends@, algorithm: self.algorithm }
    }
}

impl Forward {
    /// The scheduler is the one that [`sched::make`] builds for the algorithm
    /// and the backends, and the weights of the backends are not all zero, so
    /// that the scheduler always has a server to offer.
    pub open spec fn well_formed(&self) -> bool {
        &&& self.scheduler.spec_algorithm() == self.algorithm
        &&& self.scheduler@ == cycle_of(self.backends@)
        &&& total_weight(self.backends@) > 0
    }

    /// Creates the configuration of a proxy together with its scheduler.
    pub fn new(backends: Vec<Backend>, algorithm: Algorithm) -> (forward: Self)
        ensures
            forward@ == (ForwardView { backends: backends@, algorithm }),
            forward.scheduler.spec_algorithm() == algorithm,
            forward.scheduler@ == cycle_of(backends@),
    {
        let scheduler = sched::make(algorithm, &backends);
        Self { backends, algorithm, scheduler }
    }

    /// A well formed [`Forward`] has a scheduler that is never out of servers.
    pub proof fn lemma_scheduler_ready(&self)
        requires
            self.well_formed(),
        ensures
            self.scheduler@.len() > 0,
    {
        lemma_cycle_len(self.backends@);
    }

    /// Tells whether the weights of the backends are not all zero.
    pub fn has_servers(&self) -> (yes: bool)
        ensures
            yes == (total_weight(self.backends@) > 0),
    {
        let mut i: usize = 0;
        while i < self.backends.len()
            invariant
                i <= self.backends@.len(),
                total_weight(self.backends@.take(i as int)) == 0,
            decreases self.backends@.len() - i,
        {
            proof {
                let taken = self.backends@.take(i + 1);
                assert(taken.drop_last() =~= self.backends@.take(i as int));
                lemma_total_weight_grows(taken, self.backends@);
            }
            if self.backends[i].weight > 0 {
                return true;
            }
            i += 1;
        }
        assert(self.backends@.take(i as int) =~= self.backends@);
        false
    }
}

impl Clone for Forward {
    /// The copy has the same backends and algorithm and a scheduler of its
    /// own, which starts at the beginning of the cycle.
    fn clone(&self) -> (copy: Self)
        ensures
            copy@ == self@,
            copy.scheduler.spec_algorithm() == self.algorithm,
            copy.scheduler@ == cycle_of(self.backends@),
            self.well_formed() ==> copy.well_formed(),
    {
        let backends = self.backends.clone();
        assert(backends@ =~= self.backends@);
        Self {
            scheduler: sched::make(self.algorithm, &backends),
            algorithm: self.algorithm,
            backends,
        }
    }
}

/// Describes what should be done when a request matches a pattern.
///
/// ```toml
/// [[server]]
///
/// listen = "127.0.0.1:8000"
///
/// match = [
///     { uri = "/front", serve = "/home/website" },    # Serve action
///     { uri = "/brack", forward = "127.0.0.1:9001" }, # Forward action
/// ]
/// ```
#[derive(Debug)]
pub enum Action {
    /// Forward the request to an upstream server or load balance between
    /// multiple of them.
    Forward(Forward),
    /// Serve static files from a root directory.
    Serve(String),
}

/// What the configuration file says about an [`Action`].
pub enum ActionView {
    Forward(ForwardView),
    Serve(Seq<char>),
}

impl View for Action {
    type V = ActionView;

    open spec fn view(&self) -> ActionView {
        match *self {
            Action::Forward(forward) => ActionView::Forward(forward@),
            Action::Serve(root) => ActionView::Serve(root@),
        }
    }
}

impl Action {
    /// A forward action is well formed if its [`Forward`] is; a serve action
    /// always is.
    pub open spec fn well_formed(&self) -> bool {
        match *self {
            Action::Forward(forward) => forward.well_formed(),
            Action::Serve(_) => true,
        }
    }
}

impl Clone for Action {
    fn clone(&self) -> (copy: Self)
        ensures
            copy@ == self@,
            self.well_formed() ==> copy.well_formed(),
    {
        match self {
            Action::Forward(forward) => Action::Forward(forward.clone()),
            Action::Serve(root) => Action::Serve(root.clone()),
        }
    }
}

/// This is a single element of a `match` list in the configuration of a server.
///
/// ```toml
/// [[server]]
///
/// listen = "127.0.0.1:8000"
///
/// match = [
///     { uri = "/front", serve = "/home/website" },    # This is a Pattern
///     { uri = "/brack", forward = "127.0.0.1:9001" }, # This is another Pattern
/// ]
/// ```
#[derive(Debug)]
pub struct Pattern {
    /// URI prefix to match against.
    pub uri: String,
    /// Action to execute if this pattern matches the request.
    pub action: Action,
}

/// What the configuration file says about a [`Pattern`].
pub struct PatternView {
    pub uri: Seq<char>,
    pub action: ActionView,
}

impl View for Pattern {
    type V = PatternView;

    open spec fn view(&self) -> PatternView {
        PatternView { uri: self.uri@, action: self.action@ }
    }
}

impl Clone for Pattern {
    fn clone(&self) -> (copy: Self)
        ensures
            copy@ == self@,
            self.action.well_formed() ==> copy.action.well_formed(),
    {
        Self { uri: self.uri.clone(), action: self.action.clone() }
    }
}

/// The views of `patterns`, in the same order.
pub open spec fn pattern_views(patterns: Seq<Pattern>) -> Seq<PatternView> {
    Seq::new(patterns.len(), |i: int| patterns[i]@)
}

/// Every action in `patterns` is well formed.
pub open spec fn patterns_well_formed(patterns: Seq<Pattern>) -> bool {
    forall|i: int| 0 <= i < patterns.len() ==> (#[trigger] patterns[i]).action.well_formed()
}

/// Copies a list of patterns; the schedulers of the copy start afresh.
pub fn clone_patterns(patterns: &Vec<Pattern>) -> (copy: Vec<Pattern>)
    ensures
        pattern_views(copy@) == pattern_views(patterns@),
        patterns_well_formed(patterns@) ==> patterns_well_formed(copy@),
{
    let mut copy: Vec<Pattern> = Vec::new();
    let mut i: usize = 0;
    while i < patterns.len()
        invariant
            i <= patterns.len(),
            copy@.len() == i,
            forall|j: int| 0 <= j < i ==> (#[trigger] copy@[j])@ == patterns@[j]@,
            forall|j: int|
                0 <= j < i && patterns@[j].action.well_formed() ==> (
                #[trigger] copy@[j]).action.well_formed(),
        decreases patterns.len() - i,
    {
        copy.push(patterns[i].clone());
        i += 1;
    }
    assert(pattern_views(copy@) =~= pattern_views(patterns@));
    copy
}

} // verus!

verus! {

/// Description of a single server instance in the config file. The server can
/// have multiple listening addresses and allows a "simple" pattern or multiple
/// patterns. For example:
///
/// ```toml
/// # Simple pattern, multiple addresses.
///
/// [[server]]
///
/// listen = ["127.0.0.1:7000", "127.0.0.1:8000"]
/// forward = "127.0.0.1:9000"
/// uri = "/api"
///
/// # Multiple patterns using "match", single address.
///
/// [[server]]
///
/// listen = "128.0.01:6000"
///
/// match = [
///     { uri = "/front", serve = "/home/website" },
///     { uri = "/brack", forward = "127.0.0.1:9001" },
/// ]
/// ```
///
/// # Replicas
///
/// The configuration file allows a server to listen on multiple addresses.
/// At runtime it is easier to reason about multiple servers each listening on
/// one address only, so a server is replicated as many times as it has
/// addresses. Each replica stores all the listening addresses and also a
/// *replica number*, which is the index of its own address among them. This
/// also allows each replica to know the addresses of its peers.
#[derive(Debug)]
pub struct Server {
    /// Socket addresses where this server listens.
    pub listen: Vec<SocketAddress>,
    /// Replica number. Must be in the range `0..self.listen.len()`.
    pub replica: usize,
    /// Patterns that this server should match against.
    pub patterns: Vec<Pattern>,
    /// Connections limit.
    pub max_connections: usize,
    /// Optional server name to show in logs and forwarded requests.
    pub name: Option<String>,
    /// Log name includes the IP address of the listening socket and also the
    /// optional name set by the user.
    pub log_name: String,
}

/// What the configuration says about a [`Server`].
pub struct ServerView {
    pub listen: Seq<SocketAddress>,
    pub replica: nat,
    pub patterns: Seq<PatternView>,
    pub max_connections: nat,
    pub name: Option<Seq<char>>,
    pub log_name: Seq<char>,
}

/// The text of an optional string.
pub open spec fn optional_text(text: Option<String>) -> Option<Seq<char>> {
    match text {
        Some(text) => Some(text@),
        None => None,
    }
}

impl View for Server {
    type V = ServerView;

    open spec fn view(&self) -> ServerView {
        ServerView {
            listen: self.listen@,
            replica: self.replica as nat,
            patterns: pattern_views(self.patterns@),
            max_connections: self.max_connections as nat,
            name: optional_text(self.name),
            log_name: self.log_name@,
        }
    }
}

/// The replicas of `server`: one for each listening address, in the order of
/// the addresses, all else unchanged.
pub open spec fn replicas_of(server: ServerView) -> Seq<ServerView> {
    Seq::new(server.listen.len(), |replica: int| ServerView { replica: replica as nat, ..server })
}

/// The replicas of all `servers`, in the order of the servers.
pub open spec fn replicas_of_all(servers: Seq<ServerView>) -> Seq<ServerView>
    decreases servers.len(),
{
    if servers.len() == 0 {
        Seq::empty()
    } else {
        replicas_of_all(servers.drop_last()) + replicas_of(servers.last())
    }
}

/// All the listening addresses of `servers`, in the order in which the
/// configuration names them.
pub open spec fn listening_addresses(servers: Seq<ServerView>) -> Seq<SocketAddress>
    decreases servers.len(),
{
    if servers.len() == 0 {
        Seq::empty()
    } else {
        listening_addresses(servers.drop_last()) + servers.last().listen
    }
}

/// The address that each of `replicas` listens on: the one among its
/// listening addresses that its replica number designates.
pub open spec fn replica_addresses(replicas: Seq<ServerView>) -> Seq<SocketAddress> {
    Seq::new(replicas.len(), |i: int| replicas[i].listen[replicas[i].replica as int])
}

/// One server for each listening address. After replication there are as
/// many servers as the configuration names listening addresses, and they
/// listen on these addresses one by one, in the same order.
pub proof fn lemma_one_replica_for_each_address(servers: Seq<ServerView>)
    ensures
        replica_addresses(replicas_of_all(servers)) == listening_addresses(servers),
        forall|i: int|
            0 <= i < replicas_of_all(servers).len() ==> (#[trigger] replicas_of_all(
                servers,
            )[i]).replica < replicas_of_all(servers)[i].listen.len(),
    decreases servers.len(),
{
    if servers.len() > 0 {
        lemma_one_replica_for_each_address(servers.drop_last());
        let before = replicas_of_all(servers.drop_last());
        let added = replicas_of(servers.last());
        assert(replica_addresses(added) =~= servers.last().listen);
        assert(replica_addresses(before + added) =~= replica_addresses(before)
            + replica_addresses(added));
    } else {
        assert(replica_addresses(replicas_of_all(servers)) =~= listening_addresses(servers));
    }
}

impl Server {
    /// The replica number designates one of the listening addresses and
    /// every action is well formed.
    pub open spec fn well_formed(&self) -> bool {
        &&& self.replica < self.listen@.len()
        &&& patterns_well_formed(self.patterns@)
    }

    /// The address that this replica listens on.
    pub fn address(&self) -> (address: SocketAddress)
        requires
            self.replica < self.listen@.len(),
        ensures
            address == self.listen@[self.replica as int],
    {
        self.listen[self.replica]
    }

    /// Tells whether every proxy of this server has a server to forward to:
    /// whether the weights of its backends are not all zero.
    pub fn has_servers(&self) -> (yes: bool)
        ensures
            yes == forall|i: int|
                0 <= i < self.patterns@.len() ==> (
                #[trigger] self.patterns@[i].action matches Action::Forward(forward)
                    ==> total_weight(forward.backends@) > 0),
    {
        let mut i: usize = 0;
        while i < self.patterns.len()
            invariant
                i <= self.patterns@.len(),
                forall|j: int|
                    0 <= j < i ==> (#[trigger] self.patterns@[j].action matches Action::Forward(
                        forward,
                    ) ==> total_weight(forward.backends@) > 0),
            decreases self.patterns@.len() - i,
        {
            match &self.patterns[i].action {
                Action::Forward(forward) => {
                    if !forward.has_servers() {
                        return false;
                    }
                },
                Action::Serve(_) => {},
            }
            i += 1;
        }
        true
    }

    /// One replica of this server for each of its listening addresses.
    pub fn replicate(&self) -> (replicas: Vec<Self>)
        ensures
            server_views(replicas@) == replicas_of(self@),
            patterns_well_formed(self.patterns@) ==> forall|r: int|
                0 <= r < replicas@.len() ==> (#[trigger] replicas@[r]).well_formed(),
    {
        let mut replicas: Vec<Self> = Vec::new();
        let mut replica: usize = 0;
        while replica < self.listen.len()
            invariant
                replica <= self.listen@.len(),
                replicas@.len() == replica,
                forall|r: int|
                    0 <= r < replica ==> (#[trigger] replicas@[r])@ == (ServerView {
                        replica: r as nat,
                        ..self@
                    }),
                patterns_well_formed(self.patterns@) ==> forall|r: int|
                    0 <= r < replica ==> (#[trigger] replicas@[r]).well_formed(),
            decreases self.listen@.len() - replica,
        {
            let mut copy = self.clone();
            copy.replica = replica;
            replicas.push(copy);
            replica += 1;
        }
        assert(server_views(replicas@) =~= replicas_of(self@));
        replicas
    }
}

impl Clone for Server {
    fn clone(&self) -> (copy: Self)
        ensures
            copy@ == self@,
            patterns_well_formed(self.patterns@) ==> patterns_well_formed(copy.patterns@),
    {
        let listen = self.listen.clone();
        assert(listen@ =~= self.listen@);
        Self {
            listen,
            replica: self.replica,
            patterns: clone_patterns(&self.patterns),
            max_connections: self.max_connections,
            name: match &self.name {
                Some(name) => Some(name.clone()),
                None => None,
            },
            log_name: self.log_name.clone(),
        }
    }
}

/// The views of `servers`, in the same order.
pub open spec fn server_views(servers: Seq<Server>) -> Seq<ServerView> {
    Seq::new(servers.len(), |i: int| servers[i]@)
}

/// This struct represents the entire configuration file, which describes a list
/// of servers and their particular configuration options. For example, this
/// configuration:
///
/// ```toml
/// [[server]]
///
/// listen = ["127.0.0.1:7000", "127.0.0.1:8000"]
/// forward = "127.0.0.1:8080"
///
/// [[server]]
///
/// listen = "127.0.0.1:9000"
/// serve = "/home/user/website"
/// ```
///
/// results in two [`Server`] elements. Further processing is necessary to
/// account for server instances with multiple listening addresses, see
/// [`Config::replicate_servers`].
#[derive(Debug)]
pub struct Config {
    /// List of all servers.
    pub servers: Vec<Server>,
}

impl View for Config {
    type V = Seq<ServerView>;

    open spec fn view(&self) -> Seq<ServerView> {
        server_views(self.servers@)
    }
}

impl Config {
    /// Every server is well formed.
    pub open spec fn well_formed(&self) -> bool {
        forall|i: int| 0 <= i < self.servers@.len() ==> (#[trigger] self.servers@[i]).well_formed()
    }

    /// Every action of every server is well formed.
    pub open spec fn actions_well_formed(&self) -> bool {
        forall|i: int|
            0 <= i < self.servers@.len() ==> patterns_well_formed(
                (#[trigger] self.servers@[i]).patterns@,
            )
    }

    /// Replaces every server by its replicas, so that afterwards there is one
    /// server for each listening address.
    pub fn replicate_servers(self) -> (replicated: Self)
        ensures
            replicated@ == replicas_of_all(self@),
            self.actions_well_formed() ==> replicated.well_formed(),
    {
        let mut servers: Vec<Server> = Vec::new();
        let mut i: usize = 0;
        while i < self.servers.len()
            invariant
                i <= self.servers@.len(),
                server_views(servers@) == replicas_of_all(self@.take(i as int)),
                self.actions_well_formed() ==> forall|j: int|
                    0 <= j < servers@.len() ==> (#[trigger] servers@[j]).well_formed(),
            decreases self.servers@.len() - i,
        {
            let ghost before = servers@;
            let mut replicas = self.servers[i].replicate();
            let ghost added = replicas@;
            servers.append(&mut replicas);
            proof {
                let taken = self@.take(i + 1);
                assert(taken.drop_last() =~= self@.take(i as int));
                assert(taken.last() == self.servers@[i as int]@);
                assert(servers@ == before + added);
                assert(server_views(before + added) =~= server_views(before) + server_views(
                    added,
                ));
            }
            i += 1;
        }
        assert(self@.take(i as int) =~= self@);
        Self { servers }
    }
}

} // verus!
