//! Single-use capability objects for guarded values.
//!
//! A [`Token`] proves the exclusive right to take a guarded value out of its
//! container; a [`ConsumedToken`] is the token's terminal state after a
//! successful commit, witnessing that the staged mutation became durable.
use vstd::prelude::*;

verus! {

/// A single-use capability carrying a guarded value out of its container.
///
/// A token is minted at most once per container instance (the container is
/// consumed by the minting operation) and is itself move-only: it has no
/// duplication operation, so the type system makes reuse unreachable. The
/// view of a token is the guarded value it carries.
pub struct Token<T> {
    value: T,
}

impl<T> View for Token<T> {
    type V = T;

    closed spec fn view(&self) -> T {
        self.value
    }
}

impl<T> Token<T> {
    /// Mints the capability for `value`. Intended for container types that
    /// implement the one-time extraction accessor: the container alone is
    /// responsible for calling this at most once per instance.
    pub fn new(value: T) -> (t: Self)
        ensures
            t@ == value,
    {
        Token { value }
    }

    /// Borrows the guarded value without spending the capability.
    pub fn peek(&self) -> (r: &T)
        ensures
            *r == self@,
    {
        &self.value
    }

    /// Spends the capability, yielding ownership of the guarded value.
    pub fn into_inner(self) -> (r: T)
        ensures
            r == self@,
    {
        self.value
    }

    /// Marks the capability as spent by a successful commit. The resulting
    /// [`ConsumedToken`] carries the durably committed value and no further
    /// rights.
    pub fn consume(self) -> (c: ConsumedToken<T>)
        ensures
            c@ == self@,
    {
        ConsumedToken { value: self.value }
    }
}

/// The terminal state of a [`Token`] after a successful commit.
///
/// Holding one proves the guarded value was durably replaced by the staged
/// mutation and that the transaction is finished; it grants no further
/// extraction rights. Its view is the committed value.
pub struct ConsumedToken<T> {
    value: T,
}

impl<T> View for ConsumedToken<T> {
    type V = T;

    closed spec fn view(&self) -> T {
        self.value
    }
}

impl<T> ConsumedToken<T> {
    /// Borrows the committed value.
    pub fn peek(&self) -> (r: &T)
        ensures
            *r == self@,
    {
        &self.value
    }

    /// Yields ownership of the committed value.
    pub fn into_inner(self) -> (r: T)
        ensures
            r == self@,
    {
        self.value
    }
}

} // verus!
