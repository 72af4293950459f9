//! Duck typing over properties and actions.
//!
//! A *tag* is a type that names one property or one action and carries the
//! value that goes with it. A *host* is any type to which tags are attached.
//! Three operations make up the protocol: reading a property ([`Get::get`]),
//! writing one ([`Put::set`]) and performing an action ([`Action::action`]).
//! Attaching the tag `T` to the host `H` means implementing for `H` the
//! traits of the operations that it supports, any of the three.
//!
//! Which implementation a call reaches is settled by the pair `(T, H)` when
//! the program is built: there is one at most, and nothing is looked up while
//! the program runs. `<H as Get<T>>::get(&host)` names the pair in full;
//! `host.get()` is the same call in method form.
//!
//! Generic code asks for hosts by what they can do (`H: GetSet<X> +
//! Action<Reset>`), never by what they are. The modules [`boxed`], [`ptr`] and
//! [`refcell`] carry every capability of a host over to the host behind a
//! box, a reference or a cell, layer by layer and to any depth, so that such
//! code takes either. A host is only borrowed for the length of one call.
//!
//! Each capability comes with a spec relation that says which outcomes an
//! operation admits. It is a relation, not a function, because a host may sit
//! in a cell whose content no contract can name. A host that states nothing
//! admits every outcome. The module [`laws`] states what the wrappers keep of
//! a host's own behaviour.
use vstd::prelude::*;

pub mod boxed;
pub mod laws;
pub mod ptr;
pub mod refcell;

verus! {

/// A host from which the property `T` can be read.
///
/// Reading is total: where the host has nothing to show in its present state
/// (an empty collection, say), the implementation returns a default that it
/// documents.
pub trait Get<T> {
    /// Whether reading the property from `self` may give `val`.
    open spec fn get_spec(&self, val: T) -> bool {
        true
    }

    /// Reads the property.
    fn get(&self) -> (val: T)
        ensures
            self.get_spec(val),
    ;
}

/// A host into which the property `T` can be written.
///
/// Writing is total: where the host has no place for the value in its present
/// state, the implementation leaves the host as it is.
pub trait Put<T> {
    /// Whether writing `val` into `self` may leave the host as `after`.
    open spec fn set_spec(&self, val: T, after: &Self) -> bool {
        true
    }

    /// Writes the property.
    fn set(&mut self, val: T)
        ensures
            (*old(self)).set_spec(val, final(self)),
    ;
}

/// A host from which the property `T` can be read and into which it can be
/// written. Every such host has this trait; it only shortens bounds.
pub trait GetSet<T>: Get<T> + Put<T> {}

impl<T, H> GetSet<T> for H where H: Get<T> + Put<T> {}

/// A host on which the action `T` can be performed.
pub trait Action<T> {
    /// What performing the action gives back. Nothing is asked of its shape:
    /// it may tell success from failure or be `()`.
    type Result;

    /// Whether performing `val` on `self` may leave the host as `after` and
    /// give back `res`.
    open spec fn action_spec(&self, val: T, after: &Self, res: Self::Result) -> bool {
        true
    }

    /// Performs the action.
    fn action(&mut self, val: T) -> (res: Self::Result)
        ensures
            (*old(self)).action_spec(val, final(self), res),
    ;
}

} // verus!
