//! Taking ownership of a value that sits behind a mutable reference.

use vstd::prelude::*;

verus! {

/// Holds a value that can be moved out exactly once through `&mut self`.
///
/// Request handlers receive `&mut self` but have to hand owned data to the
/// future they return; wrapping that data in a [`Movable`] lets them do so.
pub struct Movable<T> {
    inner: Option<T>,
}

/// Errors that can happen while moving out of the inner value.
#[derive(Debug, PartialEq, Eq, Structural, Clone, Copy)]
pub enum Error {
    /// The value was moved out by an earlier call.
    AlreadyTaken,
}

impl<T> View for Movable<T> {
    type V = Option<T>;

    /// The value still held, if any.
    closed spec fn view(&self) -> Option<T> {
        self.inner
    }
}

impl<T> Movable<T> {
    /// Creates a new [`Movable`] that holds the given `value`.
    pub fn new(value: T) -> (movable: Self)
        ensures
            movable@ == Some(value),
    {
        Self { inner: Some(value) }
    }

    /// Moves out of the inner value and returns it as owned. If the value
    /// has already been taken an error is returned instead. Either way the
    /// container is empty afterwards.
    pub fn take(&mut self) -> (taken: Result<T, Error>)
        ensures
            final(self)@ is None,
            match old(self)@ {
                Some(value) => taken == Ok::<T, Error>(value),
                None => taken == Err::<T, Error>(Error::AlreadyTaken),
            },
    {
        match self.inner.take() {
            Some(value) => Ok(value),
            None => Err(Error::AlreadyTaken),
        }
    }
}

} // verus!
