//! Each accepted connection is handled by an [`Rxh`] service, which decides
//! for every request of the connection what is to be done with it. The
//! configuration of the server that accepted the connection might contain
//! multiple actions such as "serve files from this directory if the URI
//! starts with /website" or "forward the request to an upstream server
//! otherwise".

pub mod files;
pub mod proxy;

use crate::config::{self, pattern_views, Action, PatternView, SocketAddress};
use crate::http::request::ProxyRequest;
use crate::sched::wrr::cycle_of;
use crate::text::starts_with;
use vstd::prelude::*;
use vstd::string::{StrSliceExecFns, StringExecFns};

verus! {

/// The pattern at index `chosen` matches `uri` and no pattern before it does.
pub open spec fn is_first_match(patterns: Seq<PatternView>, uri: Seq<char>, chosen: int) -> bool {
    &&& 0 <= chosen < patterns.len()
    &&& patterns[chosen].uri.is_prefix_of(uri)
    &&& forall|earlier: int|
        0 <= earlier < chosen ==> !(#[trigger] patterns[earlier]).uri.is_prefix_of(uri)
}

/// No pattern matches `uri`.
pub open spec fn no_match(patterns: Seq<PatternView>, uri: Seq<char>) -> bool {
    forall|i: int| 0 <= i < patterns.len() ==> !(#[trigger] patterns[i]).uri.is_prefix_of(uri)
}

/// Finds the pattern for a request: the first one, in declaration order,
/// whose URI is a prefix of the URI of the request.
pub fn find_pattern(patterns: &Vec<config::Pattern>, uri: &str) -> (found: Option<usize>)
    ensures
        match found {
            Some(chosen) => is_first_match(pattern_views(patterns@), uri@, chosen as int),
            None => no_match(pattern_views(patterns@), uri@),
        },
{
    let mut i: usize = 0;
    while i < patterns.len()
        invariant
            i <= patterns@.len(),
            forall|earlier: int|
                0 <= earlier < i ==> !(#[trigger] pattern_views(
                    patterns@,
                )[earlier]).uri.is_prefix_of(uri@),
        decreases patterns@.len() - i,
    {
        if starts_with(uri, patterns[i].uri.as_str()) {
            return Some(i);
        }
        i += 1;
    }
    None
}

/// The path of a request, taken as relative to a root directory: without its
/// leading separator, if it has one.
pub open spec fn relative(path: Seq<char>) -> Seq<char> {
    if path.len() > 0 && path[0] == '/' {
        path.skip(1)
    } else {
        path
    }
}

/// Makes the path of a request relative by stripping one leading separator.
pub fn relative_path(path: &str) -> (stripped: &str)
    ensures
        stripped@ == relative(path@),
{
    let len = path.unicode_len();
    if len > 0 && path.get_char(0) == '/' {
        path.substring_char(1, len)
    } else {
        path
    }
}

/// What is to be done with a request.
#[derive(Debug, PartialEq, Eq)]
pub enum Dispatch {
    /// No pattern matches: answer `404 Not Found` with an empty body.
    NotFound,
    /// The pattern at index `pattern` matches and asks to forward the
    /// request: send it to the upstream server at `to`.
    Forward { pattern: usize, to: SocketAddress },
    /// The pattern at index `pattern` matches and asks to serve files: send
    /// the file at `path`, relative to the directory `root`.
    Serve { pattern: usize, path: String, root: String },
}

/// Decides what is to be done with the requests of one connection.
#[derive(Debug)]
pub struct Rxh<'a> {
    /// Reference to the configuration of the server that accepted the
    /// connection.
    config: &'a config::Server,
    /// Socket address of the connected client.
    client_addr: SocketAddress,
    /// Listening socket address.
    server_addr: SocketAddress,
}

impl<'a> Rxh<'a> {
    /// The configuration that requests are matched against.
    pub closed spec fn spec_config(&self) -> config::Server {
        *self.config
    }

    /// Socket address of the connected client.
    pub closed spec fn spec_client_addr(&self) -> SocketAddress {
        self.client_addr
    }

    /// Listening socket address.
    pub closed spec fn spec_server_addr(&self) -> SocketAddress {
        self.server_addr
    }

    /// Creates a new [`Rxh`] service.
    pub fn new(
        config: &'a config::Server,
        client_addr: SocketAddress,
        server_addr: SocketAddress,
    ) -> (service: Self)
        ensures
            service.spec_config() == *config,
            service.spec_client_addr() == client_addr,
            service.spec_server_addr() == server_addr,
    {
        Self { config, client_addr, server_addr }
    }

    /// Socket address of the connected client.
    pub fn client_addr(&self) -> (address: SocketAddress)
        ensures
            address == self.spec_client_addr(),
    {
        self.client_addr
    }

    /// Listening socket address.
    pub fn server_addr(&self) -> (address: SocketAddress)
        ensures
            address == self.spec_server_addr(),
    {
        self.server_addr
    }

    /// Decides what is to be done with `request`, see [`Rxh::route`]. The
    /// patterns are matched against the path and query of the request; a
    /// request without them has nothing to match but the empty prefix.
    pub fn call<T>(&self, request: &ProxyRequest<T>) -> (dispatch: Dispatch)
        requires
            config::patterns_well_formed(self.spec_config().patterns@),
        ensures
            self.routed(
                match request.spec_path_and_query() {
                    Some(target) => target,
                    None => Seq::empty(),
                },
                request.spec_path(),
                dispatch,
            ),
    {
        let target = match request.path_and_query() {
            Some(target) => target,
            None => String::new(),
        };
        let path = request.path();
        self.route(target.as_str(), path.as_str())
    }

    /// `dispatch` is what is to be done with a request for `uri` whose path
    /// is `path`.
    pub open spec fn routed(&self, uri: Seq<char>, path: Seq<char>, dispatch: Dispatch) -> bool {
        match dispatch {
            Dispatch::NotFound => no_match(self.spec_config()@.patterns, uri),
            Dispatch::Forward { pattern, to } => {
                &&& is_first_match(self.spec_config()@.patterns, uri, pattern as int)
                &&& self.spec_config().patterns@[pattern as int].action matches Action::Forward(
                    forward,
                )
                &&& cycle_of(forward.backends@).contains(to)
            },
            Dispatch::Serve { pattern, path: file, root } => {
                &&& is_first_match(self.spec_config()@.patterns, uri, pattern as int)
                &&& self.spec_config().patterns@[pattern as int].action matches Action::Serve(
                    directory,
                )
                &&& root@ == directory@
                &&& file@ == relative(path)
            },
        }
    }

    /// Decides what is to be done with a request, given its URI (path and
    /// query) and its path alone. The first pattern whose URI is a prefix of
    /// the URI of the request decides. If it forwards, the scheduler of the
    /// pattern chooses the upstream server among the backends of the
    /// pattern; if it serves files, the path of the request is taken as
    /// relative to the root directory of the pattern.
    pub fn route(&self, uri: &str, path: &str) -> (dispatch: Dispatch)
        requires
            config::patterns_well_formed(self.spec_config().patterns@),
        ensures
            self.routed(uri@, path@, dispatch),
    {
        match find_pattern(&self.config.patterns, uri) {
            None => Dispatch::NotFound,
            Some(pattern) => {
                match &self.config.patterns[pattern].action {
                    Action::Forward(forward) => {
                        proof {
                            forward.lemma_scheduler_ready();
                        }
                        Dispatch::Forward { pattern, to: forward.scheduler.next_server() }
                    },
                    Action::Serve(directory) => Dispatch::Serve {
                        pattern,
                        path: String::from_str(relative_path(path)),
                        root: directory.clone(),
                    },
                }
            },
        }
    }
}

} // verus!
