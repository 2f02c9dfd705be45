//! Capability accessors: the interfaces a container type implements to guard
//! a value, and one ready-made container, [`Slot`].
use vstd::prelude::*;

use crate::token::Token;

verus! {

/// Borrowed access to a guarded component of type `Target`.
///
/// `current` is the specification-level view of the component; `take_ref`
/// reads it and `put` replaces it. A container implements this for its
/// guarded value; other holders may implement it for further components.
pub trait Take<Target>: Sized {
    /// The component currently held.
    spec fn current(&self) -> Target;

    /// Borrows the held component.
    fn take_ref(&self) -> (r: &Target)
        ensures
            *r == self.current(),
    ;

    /// Replaces the held component with `v`.
    fn put(&mut self, v: Target)
        ensures
            final(self).current() == v,
    ;
}

/// One-time, destructive extraction of the capability for a guarded value.
///
/// Consuming the container is what makes the extraction one-time: once the
/// token is out, no further access runs through this container. An
/// implementing type is solely responsible for minting at most one token per
/// instance; the rest of the library trusts that discipline rather than
/// checking it.
pub trait TakeOwned<T>: Take<T> {
    /// Consumes the container and yields the capability for its value.
    fn take_owned(self) -> (t: Token<T>)
        ensures
            t@ == self.current(),
    ;
}

/// The simplest container: a slot owning one guarded value.
pub struct Slot<T> {
    value: T,
}

impl<T> Slot<T> {
    /// Wraps `value` in a fresh slot.
    pub fn new(value: T) -> (s: Self)
        ensures
            s.current() == value,
    {
        Slot { value }
    }
}

impl<T> Take<T> for Slot<T> {
    closed spec fn current(&self) -> T {
        self.value
    }

    fn take_ref(&self) -> (r: &T) {
        &self.value
    }

    fn put(&mut self, v: T) {
        self.value = v;
    }
}

impl<T> TakeOwned<T> for Slot<T> {
    fn take_owned(self) -> (t: Token<T>) {
        Token::new(self.value)
    }
}

} // verus!
