//! RXH is a reverse proxy, load balancer and static files server.
//!
//! This crate holds the decisions of the proxy: how the configuration is
//! read and normalised, which pattern a request falls under, where it is
//! sent, what the `Forwarded` header says, which file may be served, and
//! how servers and their master start, run and shut down. Every function
//! carries a contract that is checked statically.

pub mod config;
pub mod http;
pub mod movable;
pub mod sched;
pub mod service;
pub mod sync;
pub mod task;
mod text;

pub use task::master::Master;
pub use task::server::{Server, ShutdownState, State};

use vstd::prelude::*;
use vstd::string::StringExecFns;

verus! {

/// RXH version.
pub const VERSION: &'static str = "0.1.0";

/// Top level error to use for return types in the public API. Each kind
/// carries what the error that occurred has to say for itself.
#[derive(Debug, PartialEq, Eq)]
pub enum Error {
    /// Mostly related to reading or writing on sockets.
    Io(String),
    /// An error while deserializing the config file.
    Toml(String),
    /// Error while processing HTTP requests.
    Http(String),
}

impl Error {
    /// The description of the error: the kind of error first, then what the
    /// error has to say for itself.
    pub open spec fn description(&self) -> Seq<char> {
        match *self {
            Error::Io(error) => "IO error: "@ + error@,
            Error::Toml(error) => "TOML parse error: "@ + error@,
            Error::Http(error) => "HTTP error: "@ + error@,
        }
    }

    /// Describes the error.
    pub fn describe(&self) -> (description: String)
        ensures
            description@ == self.description(),
    {
        let (mut description, error) = match self {
            Error::Io(error) => (String::from_str("IO error: "), error),
            Error::Toml(error) => (String::from_str("TOML parse error: "), error),
            Error::Http(error) => (String::from_str("HTTP error: "), error),
        };
        description.append(error.as_str());
        description
    }
}

} // verus!
