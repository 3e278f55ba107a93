//! Circular read-only access to the elements of a vector.

use std::sync::atomic::{AtomicUsize, Ordering};
use vstd::prelude::*;

verus! {

/// Provides circular read-only access to the elements of a vector. Schedulers
/// that can compute a complete cycle in advance store it in a ring and then
/// hand out its values one after another; after the last value the ring
/// starts again from the beginning. Several tasks may ask at the same time,
/// so the position is kept in an atomic counter: every request draws a
/// ticket from the counter and is served from the position that belongs to
/// that ticket.
#[derive(Debug)]
pub struct Ring<T> {
    /// All the elements in this ring.
    values: Vec<T>,
    /// Ticket that the next request will draw.
    next: AtomicUsize,
}

impl<T> View for Ring<T> {
    type V = Seq<T>;

    /// The values of the ring, in the order in which they are handed out.
    closed spec fn view(&self) -> Seq<T> {
        self.values@
    }
}

/// Position in a ring of `len` values from which the request holding
/// `ticket` is served.
pub open spec fn slot(ticket: nat, len: nat) -> nat {
    ticket % len
}

/// The values handed out to the `len` requests that hold the tickets
/// `first`, `first + 1`, and so on, where `len` is the length of `cycle`.
pub open spec fn window<T>(cycle: Seq<T>, first: nat) -> Seq<T> {
    Seq::new(cycle.len(), |k: int| cycle[slot((first + k) as nat, cycle.len()) as int])
}

/// Rotation of `cycle` that starts at position `start`.
pub open spec fn rotation<T>(cycle: Seq<T>, start: nat) -> Seq<T> {
    cycle.skip(start as int) + cycle.take(start as int)
}

/// A window of consecutive tickets as long as the ring walks through the
/// whole ring once, starting at the slot of the first ticket.
pub proof fn lemma_window_is_rotation<T>(cycle: Seq<T>, first: nat)
    requires
        cycle.len() > 0,
    ensures
        window(cycle, first) == rotation(cycle, slot(first, cycle.len())),
{
    let len = cycle.len() as int;
    let start = (first % cycle.len()) as int;
    let turned = rotation(cycle, start as nat);
    assert(turned.len() == len);
    let laps = first as int / len;
    assert(first == laps * len + start) by {
        vstd::arithmetic::div_mod::lemma_fundamental_div_mod(first as int, len);
        vstd::arithmetic::mul::lemma_mul_is_commutative(laps, len);
    }
    assert forall|k: int| 0 <= k < len implies window(cycle, first)[k] == turned[k] by {
        if k < len - start {
            vstd::arithmetic::div_mod::lemma_fundamental_div_mod_converse(
                first + k,
                len,
                laps,
                start + k,
            );
        } else {
            assert((laps + 1) * len == laps * len + len) by (nonlinear_arith);
            vstd::arithmetic::div_mod::lemma_fundamental_div_mod_converse(
                first + k,
                len,
                laps + 1,
                start + k - len,
            );
        }
    }
    assert(window(cycle, first) =~= turned);
}

impl<T> Ring<T> {
    /// Creates a new [`Ring`]. The request that holds ticket 0 is served
    /// from index 0 of `values`, the next one from index 1 and so on until
    /// the last value is reached; after that the ring starts again from the
    /// beginning.
    pub fn new(values: Vec<T>) -> (ring: Self)
        ensures
            ring@ == values@,
    {
        Self { values, next: AtomicUsize::new(0) }
    }

    /// Draws the next ticket. Tickets are handed out in increasing order and
    /// wrap around after `usize::MAX`; which one a caller gets depends on the
    /// requests made by other tasks, so nothing is promised about it.
    fn draw_ticket(&self) -> usize {
        self.next.fetch_add(1, Ordering::Relaxed)
    }

    /// Index of the value that the request holding `ticket` is served from.
    pub fn index_of(&self, ticket: usize) -> (index: usize)
        requires
            self@.len() > 0,
        ensures
            index == slot(ticket as nat, self@.len()),
    {
        ticket % self.values.len()
    }

    /// Computes the index of the next value that has to be returned. A ring
    /// with a single value always answers 0 and leaves the counter alone.
    #[inline]
    pub fn next_index(&self) -> (index: usize)
        requires
            self@.len() > 0,
        ensures
            index < self@.len(),
    {
        if self.values.len() == 1 {
            0
        } else {
            let ticket = self.draw_ticket();
            self.index_of(ticket)
        }
    }

    /// Returns a reference to the next value in the ring.
    #[inline]
    pub fn next_as_ref(&self) -> (value: &T)
        requires
            self@.len() > 0,
        ensures
            self@.contains(*value),
    {
        &self.values[self.next_index()]
    }
}

impl<T: Copy> Ring<T> {
    /// Returns the next value in the ring by making a copy.
    #[inline]
    pub fn next_as_owned(&self) -> (value: T)
        requires
            self@.len() > 0,
        ensures
            self@.contains(value),
    {
        *self.next_as_ref()
    }
}

impl<T: Clone> Ring<T> {
    /// Returns the next value in the ring by cloning it.
    #[inline]
    pub fn next_as_cloned(&self) -> (value: T)
        requires
            self@.len() > 0,
        ensures
            exists|index: int| 0 <= index < self@.len() && cloned(#[trigger] self@[index], value),
    {
        self.next_as_ref().clone()
    }
}

} // verus!
