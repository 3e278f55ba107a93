//! Weighted Round Robin.

use crate::config::{Backend, SocketAddress};
use crate::sync::ring::{lemma_window_is_rotation, rotation, slot, window, Ring};
use vstd::prelude::*;

verus! {

/// Classical Weighted Round Robin (WRR) algorithm. Each backend server is
/// assigned a weight to distinguish its processing capabilities from others.
/// The normal Round Robin (RR) algorithm doesn't care about the processing
/// power of each server, so if we have 3 backend servers A, B and C and receive
/// 6 requests, this is how RR schedules them: `[A, B, C, A, B, C]`.
///
/// On the other hand, WRR sends more requests to the servers that have more
/// computing power. If we have 3 servers A, B and C with weights 1, 3 and 2,
/// this is how WRR would schedule the 6 requests from before:
/// `[A, B, B, B, C, C]`.
#[derive(Debug)]
pub struct WeightedRoundRobin {
    /// Pre-computed complete cycle of requests. We know exactly where each
    /// request is going to be sent just by looking at the weight of each server
    /// once, so we can calculate one cycle at the beginning of the program and
    /// then return values from it.
    cycle: Ring<SocketAddress>,
}

impl View for WeightedRoundRobin {
    type V = Seq<SocketAddress>;

    /// The cycle of addresses that requests are sent to, one after another.
    closed spec fn view(&self) -> Seq<SocketAddress> {
        self.cycle@
    }
}

/// `count` copies of `address`.
pub open spec fn repeat(address: SocketAddress, count: nat) -> Seq<SocketAddress> {
    Seq::new(count, |i: int| address)
}

/// The complete cycle for `backends`: the address of each backend as many
/// times as its weight says, in declaration order.
pub open spec fn cycle_of(backends: Seq<Backend>) -> Seq<SocketAddress>
    decreases backends.len(),
{
    if backends.len() == 0 {
        Seq::empty()
    } else {
        cycle_of(backends.drop_last()) + repeat(
            backends.last().address,
            backends.last().weight as nat,
        )
    }
}

/// Sum of the weights of `backends`.
pub open spec fn total_weight(backends: Seq<Backend>) -> nat
    decreases backends.len(),
{
    if backends.len() == 0 {
        0
    } else {
        total_weight(backends.drop_last()) + backends.last().weight as nat
    }
}

/// Sum of the weights of those `backends` that listen on `address`.
pub open spec fn weight_of(backends: Seq<Backend>, address: SocketAddress) -> nat
    decreases backends.len(),
{
    if backends.len() == 0 {
        0
    } else {
        weight_of(backends.drop_last(), address) + if backends.last().address == address {
            backends.last().weight as nat
        } else {
            0
        }
    }
}

/// Number of times that `address` occurs in `addresses`.
pub open spec fn occurrences(addresses: Seq<SocketAddress>, address: SocketAddress) -> nat
    decreases addresses.len(),
{
    if addresses.len() == 0 {
        0
    } else {
        occurrences(addresses.drop_last(), address) + if addresses.last() == address {
            1nat
        } else {
            0nat
        }
    }
}

/// Occurrences add up over concatenation.
pub proof fn lemma_occurrences_concat(
    left: Seq<SocketAddress>,
    right: Seq<SocketAddress>,
    address: SocketAddress,
)
    ensures
        occurrences(left + right, address) == occurrences(left, address) + occurrences(
            right,
            address,
        ),
    decreases right.len(),
{
    if right.len() == 0 {
        assert(left + right =~= left);
    } else {
        assert((left + right).drop_last() =~= left + right.drop_last());
        lemma_occurrences_concat(left, right.drop_last(), address);
    }
}

/// A run of equal addresses holds that address as often as it is long, and
/// no other.
pub proof fn lemma_occurrences_repeat(repeated: SocketAddress, count: nat, address: SocketAddress)
    ensures
        occurrences(repeat(repeated, count), address) == if repeated == address {
            count
        } else {
            0
        },
    decreases count,
{
    if count > 0 {
        assert(repeat(repeated, count).drop_last() =~= repeat(repeated, (count - 1) as nat));
        lemma_occurrences_repeat(repeated, (count - 1) as nat, address);
    }
}

/// The weights of the first backends are at most the weights of all.
pub proof fn lemma_total_weight_grows(first: Seq<Backend>, all: Seq<Backend>)
    requires
        first.is_prefix_of(all),
    ensures
        total_weight(first) <= total_weight(all),
    decreases all.len(),
{
    if first.len() < all.len() {
        assert(first.is_prefix_of(all.drop_last()));
        lemma_total_weight_grows(first, all.drop_last());
    } else {
        assert(first =~= all);
    }
}

/// The cycle is as long as the weights are in total.
pub proof fn lemma_cycle_len(backends: Seq<Backend>)
    ensures
        cycle_of(backends).len() == total_weight(backends),
    decreases backends.len(),
{
    if backends.len() > 0 {
        lemma_cycle_len(backends.drop_last());
    }
}

/// One complete cycle sends to every address as many requests as the weights
/// of the backends on that address add up to.
pub proof fn lemma_cycle_respects_weights(backends: Seq<Backend>, address: SocketAddress)
    ensures
        occurrences(cycle_of(backends), address) == weight_of(backends, address),
    decreases backends.len(),
{
    if backends.len() > 0 {
        let last = backends.last();
        lemma_cycle_respects_weights(backends.drop_last(), address);
        lemma_occurrences_concat(
            cycle_of(backends.drop_last()),
            repeat(last.address, last.weight as nat),
            address,
        );
        lemma_occurrences_repeat(last.address, last.weight as nat, address);
    }
}

/// Weighted fairness. Take any run of consecutive requests that is as long
/// as the weights are in total, starting with the request that holds ticket
/// `first`. Then every address receives exactly as many of these requests as
/// the weights of the backends on that address add up to, wherever the run
/// starts. Which task draws which ticket does not matter: the run is a
/// rotation of the cycle. Tickets are machine integers, so the run must end
/// before the ticket counter wraps around.
pub proof fn lemma_weighted_fairness(backends: Seq<Backend>, first: nat, address: SocketAddress)
    requires
        total_weight(backends) > 0,
        first + total_weight(backends) - 1 <= usize::MAX,
    ensures
        window(cycle_of(backends), first).len() == total_weight(backends),
        occurrences(window(cycle_of(backends), first), address) == weight_of(backends, address),
{
    let cycle = cycle_of(backends);
    lemma_cycle_len(backends);
    lemma_window_is_rotation(cycle, first);
    let start = slot(first, cycle.len()) as int;
    lemma_occurrences_concat(cycle.skip(start), cycle.take(start), address);
    lemma_occurrences_concat(cycle.take(start), cycle.skip(start), address);
    assert(cycle.take(start) + cycle.skip(start) =~= cycle);
    lemma_cycle_respects_weights(backends, address);
}

impl WeightedRoundRobin {
    /// Creates and initializes a new [`WeightedRoundRobin`] scheduler.
    pub fn new(backends: &Vec<Backend>) -> (wrr: Self)
        ensures
            wrr@ == cycle_of(backends@),
    {
        let mut cycle: Vec<SocketAddress> = Vec::new();
        let mut served: usize = 0;
        while served < backends.len()
            invariant
                served <= backends.len(),
                cycle@ == cycle_of(backends@.take(served as int)),
            decreases backends.len() - served,
        {
            let backend = backends[served];
            let ghost before = cycle@;
            let mut weight: usize = backend.weight;
            while weight > 0
                invariant
                    weight <= backend.weight,
                    cycle@ == before + repeat(backend.address, (backend.weight - weight) as nat),
                decreases weight,
            {
                cycle.push(backend.address);
                weight -= 1;
                assert(cycle@ =~= before + repeat(
                    backend.address,
                    (backend.weight - weight) as nat,
                ));
            }
            proof {
                let taken = backends@.take(served + 1);
                assert(taken.drop_last() =~= backends@.take(served as int));
                assert(taken.last() == backend);
            }
            served += 1;
        }
        assert(backends@.take(served as int) =~= backends@);
        Self { cycle: Ring::new(cycle) }
    }

    /// Returns the address of the server that should process the next
    /// request. There must be at least one address in the cycle.
    pub fn next_server(&self) -> (address: SocketAddress)
        requires
            self@.len() > 0,
        ensures
            self@.contains(address),
    {
        self.cycle.next_as_owned()
    }
}

} // verus!
