//! Load balancing and scheduler implementations.

pub mod wrr;

pub use wrr::WeightedRoundRobin;

use crate::config::{Algorithm, Backend, SocketAddress};
use vstd::prelude::*;

verus! {

/// A scheduler provides an algorithm for load balancing between multiple
/// backend servers. Its view is the cycle of addresses that it walks through.
#[derive(Debug)]
pub enum Scheduler {
    /// Weighted Round Robin.
    Wrr(WeightedRoundRobin),
}

impl View for Scheduler {
    type V = Seq<SocketAddress>;

    open spec fn view(&self) -> Seq<SocketAddress> {
        match *self {
            Scheduler::Wrr(wrr) => wrr@,
        }
    }
}

impl Scheduler {
    /// The algorithm that this scheduler implements.
    pub fn algorithm(&self) -> (algorithm: Algorithm)
        ensures
            algorithm == self.spec_algorithm(),
    {
        match self {
            Scheduler::Wrr(_) => Algorithm::Wrr,
        }
    }

    /// The algorithm that this scheduler implements.
    pub open spec fn spec_algorithm(&self) -> Algorithm {
        match *self {
            Scheduler::Wrr(_) => Algorithm::Wrr,
        }
    }

    /// Returns the address of the server that should process the next
    /// request. The scheduler must have at least one address to choose from.
    pub fn next_server(&self) -> (address: SocketAddress)
        requires
            self@.len() > 0,
        ensures
            self@.contains(address),
    {
        match self {
            Scheduler::Wrr(wrr) => wrr.next_server(),
        }
    }
}

/// [`Scheduler`] factory.
pub fn make(algorithm: Algorithm, backends: &Vec<Backend>) -> (scheduler: Scheduler)
    ensures
        scheduler.spec_algorithm() == algorithm,
        scheduler@ == wrr::cycle_of(backends@),
{
    match algorithm {
        Algorithm::Wrr => Scheduler::Wrr(WeightedRoundRobin::new(backends)),
    }
}

} // verus!
