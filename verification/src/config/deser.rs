//! Reading one `[[server]]` table of the configuration file.
//!
//! The file format allows several spellings of the same thing, and some
//! combinations of keys exclude each other. The types of this module stand
//! for the spellings, and [`ServerVisitor`] applies the rules: it is shown
//! the keys of the table one by one, in the order in which they are written,
//! and either builds a [`Server`] or says what is wrong with the table.

use super::{
    pattern_views, patterns_well_formed, Action, ActionView, Algorithm, Backend, Forward,
    ForwardView, Pattern, PatternView, Server, ServerView, SocketAddress,
};
use crate::sched::wrr::cycle_of;
use vstd::prelude::*;
use vstd::std_specs::convert::FromSpecImpl;
use vstd::string::StringExecFns;

verus! {

/// Either a single value or a list of them. See [`one_or_many`] for details.
#[derive(Debug)]
pub enum OneOrMany<T> {
    One(T),
    Many(Vec<T>),
}

impl<T> OneOrMany<T> {
    /// The values, written as a list.
    pub open spec fn items(self) -> Seq<T> {
        match self {
            OneOrMany::One(item) => seq![item],
            OneOrMany::Many(items) => items@,
        }
    }
}

impl<T> FromSpecImpl<OneOrMany<T>> for Vec<T> {
    open spec fn obeys_from_spec() -> bool {
        false
    }

    open spec fn from_spec(value: OneOrMany<T>) -> Self {
        arbitrary()
    }
}

impl<T> From<OneOrMany<T>> for Vec<T> {
    /// A single value becomes a list of one element, a list stays as it is.
    fn from(value: OneOrMany<T>) -> (items: Self)
        ensures
            items@ == value.items(),
    {
        match value {
            OneOrMany::One(item) => {
                let mut items = Vec::new();
                items.push(item);
                items
            },
            OneOrMany::Many(items) => items,
        }
    }
}

/// Turns any value of type `T` or list of them into a [`Vec<T>`]. This is
/// useful for configurations that allow omitting the array syntax. For
/// example this TOML:
///
/// ```toml
/// [[server]]
///
/// listen = "127.0.0.1:8100"
/// ```
///
/// is read as if an array was written instead:
///
/// ```toml
/// [[server]]
///
/// listen = ["127.0.0.1:8100"]
/// ```
pub fn one_or_many<T>(value: OneOrMany<T>) -> (items: Vec<T>)
    ensures
        items@ == value.items(),
{
    Vec::from(value)
}

/// Allows specifying the upstream servers in a proxy configuration as a socket
/// address or an object containing the address and weight.
///
/// ```toml
/// [[server]]
///
/// listen = "127.0.0.1:8000"
///
/// # As a socket.
/// forward = ["127.0.0.1:8080", "127.0.0.1:8081"]
///
/// [[server]]
///
/// listen = "127.0.0.1:8001"
///
/// # Weighted servers example.
/// forward = [
///     { address = "127.0.0.1:8080", weight = 1 },
///     { address = "127.0.0.1:8081", weight = 3 },
/// ]
/// ```
#[derive(Clone, Copy, Debug)]
pub enum BackendOption {
    Simple(SocketAddress),
    Weighted { address: SocketAddress, weight: usize },
}

impl FromSpecImpl<BackendOption> for Backend {
    open spec fn obeys_from_spec() -> bool {
        true
    }

    /// A backend that is given by its address alone has weight 1.
    open spec fn from_spec(value: BackendOption) -> Self {
        match value {
            BackendOption::Simple(address) => Backend { address, weight: 1 },
            BackendOption::Weighted { address, weight } => Backend { address, weight },
        }
    }
}

impl From<BackendOption> for Backend {
    fn from(value: BackendOption) -> (backend: Self) {
        let (address, weight) = match value {
            BackendOption::Simple(address) => (address, 1),
            BackendOption::Weighted { address, weight } => (address, weight),
        };
        Self { address, weight }
    }
}

/// Forward can be written as a single socket, list of sockets, list of objects
/// describing the weight and address of each backend server, or an object
/// describing the load balancing algorithm and the backend servers. These are
/// all the legal patterns:
///
/// ```toml
/// [[server]]
///
/// listen = "127.0.0.1:8000"
///
/// # Single socket.
/// forward = "127.0.0.1:8080"
///
/// [[server]]
///
/// listen = "127.0.0.1:8001"
///
/// # List of sockets.
/// forward = ["127.0.0.1:8080", "127.0.0.1:8081"]
///
/// [[server]]
///
/// listen = "127.0.0.1:8002"
///
/// # List of weighted servers.
/// forward = [
///     { address = "127.0.0.1:8080", weight = 1 },
///     { address = "127.0.0.1:8081", weight = 3 },
/// ]
///
/// [[server]]
///
/// listen = "127.0.0.1:8003"
///
/// # As an object.
/// [[server.forward]]
///
/// algorithm = "WRR"
/// backends = [
///     { address = "127.0.0.1:8080", weight = 1 },
///     { address = "127.0.0.1:8081", weight = 2 },
/// ]
/// ```
#[derive(Debug)]
pub enum ForwardOption {
    Simple(Vec<Backend>),
    WithAlgorithm { algorithm: Algorithm, backends: Vec<Backend> },
}

impl ForwardOption {
    /// What this spelling says: without an algorithm, WRR is meant.
    pub open spec fn meaning(self) -> ForwardView {
        match self {
            ForwardOption::Simple(backends) => ForwardView {
                backends: backends@,
                algorithm: Algorithm::Wrr,
            },
            ForwardOption::WithAlgorithm { algorithm, backends } => ForwardView {
                backends: backends@,
                algorithm,
            },
        }
    }
}

impl FromSpecImpl<ForwardOption> for Forward {
    open spec fn obeys_from_spec() -> bool {
        false
    }

    open spec fn from_spec(value: ForwardOption) -> Self {
        arbitrary()
    }
}

impl From<ForwardOption> for Forward {
    /// Builds the proxy configuration that `value` stands for, with a fresh
    /// scheduler for its backends.
    fn from(value: ForwardOption) -> (forward: Self)
        ensures
            forward@ == value.meaning(),
            forward.scheduler.spec_algorithm() == forward.algorithm,
            forward.scheduler@ == cycle_of(forward.backends@),
    {
        let (backends, algorithm) = match value {
            ForwardOption::Simple(backends) => (backends, Algorithm::Wrr),
            ForwardOption::WithAlgorithm { algorithm, backends } => (backends, algorithm),
        };
        Forward::new(backends, algorithm)
    }
}

} // verus!

verus! {

/// Possible keys of a server instance in the config file.
#[derive(Clone, Copy, Debug, PartialEq, Eq, Structural)]
pub enum Field {
    Listen,
    Match,
    Forward,
    Serve,
    Uri,
    Name,
    Connections,
}

impl Field {
    /// The key as it is written in the configuration file.
    pub open spec fn spec_name(self) -> Seq<char> {
        match self {
            Field::Listen => "listen"@,
            Field::Match => "match"@,
            Field::Forward => "forward"@,
            Field::Serve => "serve"@,
            Field::Uri => "uri"@,
            Field::Name => "name"@,
            Field::Connections => "connections"@,
        }
    }

    /// The key as it is written in the configuration file.
    pub fn name(&self) -> (name: &'static str)
        ensures
            name@ == self.spec_name(),
    {
        match self {
            Field::Listen => "listen",
            Field::Match => "match",
            Field::Forward => "forward",
            Field::Serve => "serve",
            Field::Uri => "uri",
            Field::Name => "name",
            Field::Connections => "connections",
        }
    }
}

/// Combinations of keys that a server table must not hold.
#[derive(Clone, Copy, Debug, PartialEq, Eq, Structural)]
pub enum Error {
    /// The config file allows either a `match` key assigned to an array of
    /// patterns or a simple untagged pattern:
    ///
    /// ```toml
    /// # Simple pattern example.
    ///
    /// [[server]]
    ///
    /// listen = "127.0.0.1:8000"
    /// forward = "127.0.0.1:9000"
    /// uri = "/api"
    ///
    /// # Match clause example.
    ///
    /// [[server]]
    ///
    /// listen = "128.0.01:8001"
    ///
    /// match = [
    ///     { uri = "/front", serve = "/home/website" },
    ///     { uri = "/brack", forward = "127.0.0.1:9001" },
    /// ]
    /// ```
    ///
    /// Both at the same time are not allowed.
    MixedSimpleAndMatch,
    /// Simple patterns can't mix different actions. This is incorrect:
    ///
    /// ```toml
    /// [[server]]
    ///
    /// listen = "127.0.0.1:8000"
    /// forward = "127.0.0.1:9000"
    /// serve = "/home/user/website"
    /// ```
    MixedActions,
    /// Couldn't find `match` clause or simple pattern.
    MissingConfig,
}

impl Error {
    /// The message shown to the user.
    pub open spec fn spec_message(self) -> Seq<char> {
        match self {
            Error::MixedSimpleAndMatch =>
                "either use 'match' for multiple patterns or describe a single pattern"@,
            Error::MixedActions =>
                "use either 'forward' or 'serve', if you need multiple patterns use 'match'"@,
            Error::MissingConfig => "missing 'match' or simple configuration"@,
        }
    }

    /// The message shown to the user.
    pub fn message(&self) -> (message: &'static str)
        ensures
            message@ == self.spec_message(),
    {
        match self {
            Error::MixedSimpleAndMatch => {
                "either use 'match' for multiple patterns or describe a single pattern"
            },
            Error::MixedActions => {
                "use either 'forward' or 'serve', if you need multiple patterns use 'match'"
            },
            Error::MissingConfig => "missing 'match' or simple configuration",
        }
    }
}

/// Why a server table was turned down.
#[derive(Clone, Copy, Debug, PartialEq, Eq, Structural)]
pub enum VisitError {
    /// The table holds the key more than once.
    DuplicateField(Field),
    /// The table lacks a key that every server needs.
    MissingField(Field),
    /// The keys of the table exclude each other.
    Custom(Error),
}

/// A key of the server table together with the value written for it.
#[derive(Debug)]
pub enum Entry {
    Listen(OneOrMany<SocketAddress>),
    Match(Vec<Pattern>),
    Forward(Forward),
    Serve(String),
    Uri(String),
    Name(String),
    Connections(usize),
}

/// What the configuration file says in an [`Entry`].
pub enum EntryView {
    Listen(Seq<SocketAddress>),
    Match(Seq<PatternView>),
    Forward(ForwardView),
    Serve(Seq<char>),
    Uri(Seq<char>),
    Name(Seq<char>),
    Connections(nat),
}

impl EntryView {
    /// The key of this entry.
    pub open spec fn field(self) -> Field {
        match self {
            EntryView::Listen(_) => Field::Listen,
            EntryView::Match(_) => Field::Match,
            EntryView::Forward(_) => Field::Forward,
            EntryView::Serve(_) => Field::Serve,
            EntryView::Uri(_) => Field::Uri,
            EntryView::Name(_) => Field::Name,
            EntryView::Connections(_) => Field::Connections,
        }
    }
}

impl View for Entry {
    type V = EntryView;

    open spec fn view(&self) -> EntryView {
        match *self {
            Entry::Listen(listen) => EntryView::Listen(listen.items()),
            Entry::Match(patterns) => EntryView::Match(pattern_views(patterns@)),
            Entry::Forward(forward) => EntryView::Forward(forward@),
            Entry::Serve(root) => EntryView::Serve(root@),
            Entry::Uri(uri) => EntryView::Uri(uri@),
            Entry::Name(name) => EntryView::Name(name@),
            Entry::Connections(limit) => EntryView::Connections(limit as nat),
        }
    }
}

impl Entry {
    /// Every action that this entry brings is well formed.
    pub open spec fn well_formed(&self) -> bool {
        match *self {
            Entry::Match(patterns) => patterns_well_formed(patterns@),
            Entry::Forward(forward) => forward.well_formed(),
            _ => true,
        }
    }

    /// The key of this entry.
    pub fn field(&self) -> (field: Field)
        ensures
            field == self@.field(),
    {
        match self {
            Entry::Listen(_) => Field::Listen,
            Entry::Match(_) => Field::Match,
            Entry::Forward(_) => Field::Forward,
            Entry::Serve(_) => Field::Serve,
            Entry::Uri(_) => Field::Uri,
            Entry::Name(_) => Field::Name,
            Entry::Connections(_) => Field::Connections,
        }
    }
}

/// The views of `entries`, in the same order.
pub open spec fn entry_views(entries: Seq<Entry>) -> Seq<EntryView> {
    Seq::new(entries.len(), |i: int| entries[i]@)
}

/// What a [`ServerVisitor`] has gathered from the keys that it has seen.
pub struct Draft {
    /// Whether a `listen` key was seen.
    pub listen_seen: bool,
    /// Addresses of the `listen` key; empty until one is seen.
    pub listen: Seq<SocketAddress>,
    /// Whether a `match` key was seen.
    pub match_seen: bool,
    /// Patterns of the `match` key; empty until one is seen.
    pub patterns: Seq<PatternView>,
    /// Action of a `forward` or `serve` key, if one was seen.
    pub simple: Option<ActionView>,
    /// Value of the `name` key, if one was seen.
    pub name: Option<Seq<char>>,
    /// Value of the last `connections` key, else the default.
    pub max_connections: nat,
    /// Whether a `uri` key was seen.
    pub uri_seen: bool,
    /// Value of the last `uri` key, else the default.
    pub uri: Seq<char>,
}

/// The draft before any key has been seen.
pub open spec fn empty_draft() -> Draft {
    Draft {
        listen_seen: false,
        listen: Seq::empty(),
        match_seen: false,
        patterns: Seq::empty(),
        simple: None,
        name: None,
        max_connections: 1024,
        uri_seen: false,
        uri: "/"@,
    }
}

impl Draft {
    /// A key of the single pattern that a table may describe without
    /// `match` was seen: `forward`, `serve` or `uri`.
    pub open spec fn shorthand_seen(self) -> bool {
        self.simple is Some || self.uri_seen
    }

    /// Of `match` and the keys of a single pattern at most one kind was
    /// seen, and nothing is held for a key that was not seen.
    pub open spec fn well_formed(self) -> bool {
        &&& !(self.match_seen && self.shorthand_seen())
        &&& !self.match_seen ==> self.patterns.len() == 0
        &&& !self.listen_seen ==> self.listen.len() == 0
    }
}

/// Says whether `key` may follow the keys that led to `draft`, and if not,
/// why. The value of a key that is turned down is never looked at.
///
/// - `listen`, `match` and `name` may be given once.
/// - A table describes its patterns either with `match` or with the keys of
///   a single pattern, `forward`, `serve` and `uri`, and not with both,
///   whichever comes first.
/// - Only one of `forward` and `serve` may be given, and only once.
/// - `connections` is always welcome.
pub open spec fn refusal(draft: Draft, key: Field) -> Option<VisitError> {
    match key {
        Field::Listen => if draft.listen_seen {
            Some(VisitError::DuplicateField(Field::Listen))
        } else {
            None
        },
        Field::Match => if draft.match_seen {
            Some(VisitError::DuplicateField(Field::Match))
        } else if draft.shorthand_seen() {
            Some(VisitError::Custom(Error::MixedSimpleAndMatch))
        } else {
            None
        },
        Field::Forward => if draft.match_seen {
            Some(VisitError::Custom(Error::MixedSimpleAndMatch))
        } else {
            match draft.simple {
                Some(ActionView::Forward(_)) => Some(VisitError::DuplicateField(Field::Forward)),
                Some(ActionView::Serve(_)) => Some(VisitError::Custom(Error::MixedActions)),
                None => None,
            }
        },
        Field::Serve => if draft.match_seen {
            Some(VisitError::Custom(Error::MixedSimpleAndMatch))
        } else {
            match draft.simple {
                Some(ActionView::Forward(_)) => Some(VisitError::Custom(Error::MixedActions)),
                Some(ActionView::Serve(_)) => Some(VisitError::DuplicateField(Field::Serve)),
                None => None,
            }
        },
        Field::Uri => if draft.match_seen {
            Some(VisitError::Custom(Error::MixedSimpleAndMatch))
        } else {
            None
        },
        Field::Name => if draft.name is Some {
            Some(VisitError::DuplicateField(Field::Name))
        } else {
            None
        },
        Field::Connections => None,
    }
}

/// The draft after the value of an admitted key has been taken in.
pub open spec fn record(draft: Draft, entry: EntryView) -> Draft {
    match entry {
        EntryView::Listen(listen) => Draft { listen_seen: true, listen, ..draft },
        EntryView::Match(patterns) => Draft { match_seen: true, patterns, ..draft },
        EntryView::Forward(forward) => Draft {
            simple: Some(ActionView::Forward(forward)),
            ..draft
        },
        EntryView::Serve(root) => Draft { simple: Some(ActionView::Serve(root)), ..draft },
        EntryView::Uri(uri) => Draft { uri_seen: true, uri, ..draft },
        EntryView::Name(name) => Draft { name: Some(name), ..draft },
        EntryView::Connections(max_connections) => Draft { max_connections, ..draft },
    }
}

/// The draft after `entry`, or the reason why its key is turned down.
pub open spec fn visit(draft: Draft, entry: EntryView) -> Result<Draft, VisitError> {
    match refusal(draft, entry.field()) {
        Some(error) => Err(error),
        None => Ok(record(draft, entry)),
    }
}

/// The patterns that a complete draft describes: those of `match`, followed
/// by the simple pattern, if there is one, under the URI of the `uri` key.
pub open spec fn drafted_patterns(draft: Draft) -> Seq<PatternView> {
    match draft.simple {
        Some(action) => draft.patterns.push(PatternView { uri: draft.uri, action }),
        None => draft.patterns,
    }
}

/// The server that a draft describes once all keys have been seen. A server
/// needs at least one pattern and at least one listening address; when both
/// are missing, the patterns are asked for.
pub open spec fn conclude(draft: Draft) -> Result<ServerView, VisitError> {
    if drafted_patterns(draft).len() == 0 {
        Err(VisitError::Custom(Error::MissingConfig))
    } else if draft.listen.len() == 0 {
        Err(VisitError::MissingField(Field::Listen))
    } else {
        Ok(
            ServerView {
                listen: draft.listen,
                replica: 0,
                patterns: drafted_patterns(draft),
                max_connections: draft.max_connections,
                name: draft.name,
                log_name: "unnamed"@,
            },
        )
    }
}

/// The outcome of reading a whole table: the keys are visited in the order
/// in which they are written, the first one that is turned down ends the
/// visit, and when none is, the draft is concluded.
pub open spec fn visit_all(draft: Draft, entries: Seq<EntryView>) -> Result<ServerView, VisitError>
    decreases entries.len(),
{
    if entries.len() == 0 {
        conclude(draft)
    } else {
        match visit(draft, entries.first()) {
            Ok(next) => visit_all(next, entries.drop_first()),
            Err(error) => Err(error),
        }
    }
}

/// A server that was read from a table listens somewhere and has something
/// to do: it has at least one listening address, of which it is the first
/// replica, and at least one pattern. Its limit of connections is 1024
/// unless the table says otherwise.
pub proof fn lemma_visited_server_is_complete(draft: Draft, entries: Seq<EntryView>)
    ensures
        visit_all(draft, entries) matches Ok(server) ==> {
            &&& server.listen.len() > 0
            &&& server.replica == 0
            &&& server.patterns.len() > 0
            &&& server.log_name == "unnamed"@
        },
        (forall|i: int| 0 <= i < entries.len() ==> !((#[trigger] entries[i]) is Connections))
            ==> (visit_all(draft, entries) matches Ok(server) ==> server.max_connections
            == draft.max_connections),
    decreases entries.len(),
{
    if entries.len() > 0 {
        match visit(draft, entries.first()) {
            Ok(next) => {
                lemma_visited_server_is_complete(next, entries.drop_first());
                assert forall|i: int| 0 <= i < entries.drop_first().len() implies (
                #[trigger] entries.drop_first()[i]) == entries[i + 1] by {}
                if forall|i: int|
                    0 <= i < entries.len() ==> !((#[trigger] entries[i]) is Connections) {
                    assert(!(entries[0] is Connections));
                    assert forall|i: int| 0 <= i < entries.drop_first().len() implies !((
                    #[trigger] entries.drop_first()[i]) is Connections) by {
                        assert(entries.drop_first()[i] == entries[i + 1]);
                    }
                }
            },
            Err(_) => {},
        }
    }
}

impl EntryView {
    /// This entry is for one of the keys of a single pattern: `forward`,
    /// `serve` or `uri`.
    pub open spec fn is_shorthand(self) -> bool {
        self is Forward || self is Serve || self is Uri
    }
}

/// Either `match` or a single pattern, in any order. A table that holds the
/// `match` key and also one of the keys `forward`, `serve` and `uri` is
/// turned down, whichever of them comes first and whatever stands between
/// them.
pub proof fn lemma_match_excludes_shorthand(entries: Seq<EntryView>, matching: int, short: int)
    requires
        0 <= matching < entries.len(),
        0 <= short < entries.len(),
        entries[matching] is Match,
        entries[short].is_shorthand(),
    ensures
        visit_all(empty_draft(), entries) is Err,
{
    lemma_mixed_is_turned_down(empty_draft(), entries);
}

/// Either `forward` or `serve`, in any order. A table that holds both keys
/// is turned down, whichever of them comes first.
pub proof fn lemma_forward_excludes_serve(entries: Seq<EntryView>, forward: int, serve: int)
    requires
        0 <= forward < entries.len(),
        0 <= serve < entries.len(),
        entries[forward] is Forward,
        entries[serve] is Serve,
    ensures
        visit_all(empty_draft(), entries) is Err,
{
    lemma_two_actions_are_turned_down(empty_draft(), entries);
}

/// A visit that has seen, or is still to see, both `match` and a key of a
/// single pattern ends in an error.
proof fn lemma_mixed_is_turned_down(draft: Draft, entries: Seq<EntryView>)
    requires
        draft.well_formed(),
        draft.match_seen || exists|i: int|
            0 <= i < entries.len() && (#[trigger] entries[i]) is Match,
        draft.shorthand_seen() || exists|i: int|
            0 <= i < entries.len() && (#[trigger] entries[i]).is_shorthand(),
    ensures
        visit_all(draft, entries) is Err,
    decreases entries.len(),
{
    if entries.len() > 0 {
        let first = entries.first();
        let rest = entries.drop_first();
        match visit(draft, first) {
            Ok(next) => {
                assert(next.well_formed());
                if !next.match_seen {
                    let i = choose|i: int|
                        0 <= i < entries.len() && (#[trigger] entries[i]) is Match;
                    assert(rest[i - 1] == entries[i]);
                }
                if !next.shorthand_seen() {
                    let i = choose|i: int|
                        0 <= i < entries.len() && (#[trigger] entries[i]).is_shorthand();
                    assert(rest[i - 1] == entries[i]);
                }
                lemma_mixed_is_turned_down(next, rest);
            },
            Err(_) => {},
        }
    }
}

/// A visit that has seen, or is still to see, both `forward` and `serve`
/// ends in an error.
proof fn lemma_two_actions_are_turned_down(draft: Draft, entries: Seq<EntryView>)
    requires
        (draft.simple is Some && draft.simple->Some_0 is Forward) || exists|i: int|
            0 <= i < entries.len() && (#[trigger] entries[i]) is Forward,
        (draft.simple is Some && draft.simple->Some_0 is Serve) || exists|i: int|
            0 <= i < entries.len() && (#[trigger] entries[i]) is Serve,
    ensures
        visit_all(draft, entries) is Err,
    decreases entries.len(),
{
    if entries.len() > 0 {
        let first = entries.first();
        let rest = entries.drop_first();
        match visit(draft, first) {
            Ok(next) => {
                if !(next.simple is Some && next.simple->Some_0 is Forward) {
                    let i = choose|i: int|
                        0 <= i < entries.len() && (#[trigger] entries[i]) is Forward;
                    assert(rest[i - 1] == entries[i]);
                }
                if !(next.simple is Some && next.simple->Some_0 is Serve) {
                    let i = choose|i: int|
                        0 <= i < entries.len() && (#[trigger] entries[i]) is Serve;
                    assert(rest[i - 1] == entries[i]);
                }
                lemma_two_actions_are_turned_down(next, rest);
            },
            Err(_) => {},
        }
    }
}

} // verus!

verus! {

/// Reads the keys of one server table and builds the [`Server`] that they
/// describe.
#[derive(Debug)]
pub struct ServerVisitor {
    listen_seen: bool,
    listen: Vec<SocketAddress>,
    match_seen: bool,
    patterns: Vec<Pattern>,
    simple: Option<Action>,
    name: Option<String>,
    max_connections: usize,
    uri_seen: bool,
    uri: String,
}

impl View for ServerVisitor {
    type V = Draft;

    closed spec fn view(&self) -> Draft {
        Draft {
            listen_seen: self.listen_seen,
            listen: self.listen@,
            match_seen: self.match_seen,
            patterns: pattern_views(self.patterns@),
            simple: match self.simple {
                Some(action) => Some(action@),
                None => None,
            },
            name: super::optional_text(self.name),
            max_connections: self.max_connections as nat,
            uri_seen: self.uri_seen,
            uri: self.uri@,
        }
    }
}

impl ServerVisitor {
    /// Every action gathered so far is well formed.
    pub closed spec fn well_formed(&self) -> bool {
        &&& patterns_well_formed(self.patterns@)
        &&& match self.simple {
            Some(action) => action.well_formed(),
            None => true,
        }
    }

    /// A visitor that has not seen any key.
    pub fn new() -> (visitor: Self)
        ensures
            visitor@ == empty_draft(),
            visitor.well_formed(),
    {
        let visitor = Self {
            listen_seen: false,
            listen: Vec::new(),
            match_seen: false,
            patterns: Vec::new(),
            simple: None,
            name: None,
            max_connections: crate::config::default::max_connections(),
            uri_seen: false,
            uri: crate::config::default::uri(),
        };
        assert(visitor@.patterns =~= Seq::empty());
        visitor
    }

    /// What a server table is expected to hold.
    pub fn expecting() -> (message: &'static str)
        ensures
            message@ == "at least 'listen' and 'forward' or 'serve' fields"@,
    {
        "at least 'listen' and 'forward' or 'serve' fields"
    }

    /// Decides whether the value of `key` is to be read, given the keys seen
    /// so far.
    pub fn visit_key(&self, key: Field) -> (admitted: Result<(), VisitError>)
        ensures
            match refusal(self@, key) {
                Some(error) => admitted == Err::<(), VisitError>(error),
                None => admitted is Ok,
            },
    {
        match key {
            Field::Listen => {
                if self.listen_seen {
                    return Err(VisitError::DuplicateField(Field::Listen));
                }
            },
            Field::Match => {
                if self.match_seen {
                    return Err(VisitError::DuplicateField(Field::Match));
                }
                if self.simple.is_some() || self.uri_seen {
                    return Err(VisitError::Custom(Error::MixedSimpleAndMatch));
                }
            },
            Field::Forward => {
                if self.match_seen {
                    return Err(VisitError::Custom(Error::MixedSimpleAndMatch));
                }
                match &self.simple {
                    Some(Action::Forward(_)) => {
                        return Err(VisitError::DuplicateField(Field::Forward));
                    },
                    Some(Action::Serve(_)) => {
                        return Err(VisitError::Custom(Error::MixedActions));
                    },
                    None => {},
                }
            },
            Field::Serve => {
                if self.match_seen {
                    return Err(VisitError::Custom(Error::MixedSimpleAndMatch));
                }
                match &self.simple {
                    Some(Action::Forward(_)) => {
                        return Err(VisitError::Custom(Error::MixedActions));
                    },
                    Some(Action::Serve(_)) => {
                        return Err(VisitError::DuplicateField(Field::Serve));
                    },
                    None => {},
                }
            },
            Field::Uri => {
                if self.match_seen {
                    return Err(VisitError::Custom(Error::MixedSimpleAndMatch));
                }
            },
            Field::Name => {
                if self.name.is_some() {
                    return Err(VisitError::DuplicateField(Field::Name));
                }
            },
            Field::Connections => {},
        }
        Ok(())
    }

    /// Visits one key with its value: the key is checked against the keys
    /// seen before, and if it is admitted the value is taken in. A key that
    /// is turned down leaves the visitor as it was.
    pub fn visit_entry(&mut self, entry: Entry) -> (visited: Result<(), VisitError>)
        ensures
            match visit(old(self)@, entry@) {
                Ok(next) => visited is Ok && final(self)@ == next,
                Err(error) => visited == Err::<(), VisitError>(error) && final(self)@ == old(
                    self,
                )@,
            },
            old(self).well_formed() && entry.well_formed() ==> final(self).well_formed(),
    {
        match self.visit_key(entry.field()) {
            Err(error) => Err(error),
            Ok(()) => {
                match entry {
                    Entry::Listen(listen) => {
                        self.listen_seen = true;
                        self.listen = one_or_many(listen);
                    },
                    Entry::Match(patterns) => {
                        self.match_seen = true;
                        self.patterns = patterns;
                    },
                    Entry::Forward(forward) => {
                        self.simple = Some(Action::Forward(forward));
                    },
                    Entry::Serve(root) => {
                        self.simple = Some(Action::Serve(root));
                    },
                    Entry::Uri(uri) => {
                        self.uri_seen = true;
                        self.uri = uri;
                    },
                    Entry::Name(name) => {
                        self.name = Some(name);
                    },
                    Entry::Connections(limit) => {
                        self.max_connections = limit;
                    },
                }
                Ok(())
            },
        }
    }

    /// Builds the server from the keys seen, or says what is missing.
    pub fn finish(self) -> (server: Result<Server, VisitError>)
        ensures
            match conclude(self@) {
                Ok(view) => server is Ok && server->Ok_0@ == view,
                Err(error) => server is Err && server->Err_0 == error,
            },
            self.well_formed() && server is Ok ==> server->Ok_0.well_formed(),
    {
        let ghost draft = self@;
        let Self { listen, mut patterns, simple, name, max_connections, uri, .. } = self;
        if let Some(action) = simple {
            patterns.push(Pattern { uri, action });
        }
        assert(pattern_views(patterns@) =~= drafted_patterns(draft));
        if patterns.len() == 0 {
            return Err(VisitError::Custom(Error::MissingConfig));
        }
        if listen.len() == 0 {
            return Err(VisitError::MissingField(Field::Listen));
        }
        Ok(
            Server {
                listen,
                replica: 0,
                patterns,
                max_connections,
                name,
                log_name: String::from_str("unnamed"),
            },
        )
    }

    /// Reads a whole server table, given as the list of its keys and values
    /// in the order in which they are written.
    pub fn visit_map(entries: Vec<Entry>) -> (server: Result<Server, VisitError>)
        ensures
            match visit_all(empty_draft(), entry_views(entries@)) {
                Ok(view) => server is Ok && server->Ok_0@ == view,
                Err(error) => server is Err && server->Err_0 == error,
            },
            (forall|i: int| 0 <= i < entries@.len() ==> (#[trigger] entries@[i]).well_formed())
                && server is Ok ==> server->Ok_0.well_formed(),
    {
        let mut visitor = Self::new();
        let mut rest = entries;
        let ghost sound = forall|i: int|
            0 <= i < entries@.len() ==> (#[trigger] entries@[i]).well_formed();
        while rest.len() > 0
            invariant
                visit_all(empty_draft(), entry_views(entries@)) == visit_all(
                    visitor@,
                    entry_views(rest@),
                ),
                sound ==> visitor.well_formed(),
                sound ==> forall|i: int|
                    0 <= i < rest@.len() ==> (#[trigger] rest@[i]).well_formed(),
            decreases rest@.len(),
        {
            let ghost before = rest@;
            let ghost draft = visitor@;
            let entry = rest.remove(0);
            proof {
                assert(entry == before[0]);
                assert(entry_views(before).first() == entry@);
                assert(entry_views(before).drop_first() =~= entry_views(rest@));
                assert(forall|i: int|
                    0 <= i < rest@.len() ==> #[trigger] rest@[i] == before[i + 1]);
                assert(visit_all(draft, entry_views(before)) == match visit(draft, entry@) {
                    Ok(next) => visit_all(next, entry_views(rest@)),
                    Err(error) => Err(error),
                });
            }
            match visitor.visit_entry(entry) {
                Ok(()) => {},
                Err(error) => {
                    return Err(error);
                },
            }
        }
        assert(entry_views(rest@).len() == 0);
        visitor.finish()
    }
}

} // verus!
