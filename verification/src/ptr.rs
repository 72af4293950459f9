//! Hosts behind a reference.
//!
//! An exclusive reference carries all three capabilities. A shared reference
//! carries reading only: writing and acting need the host exclusively.
//!
//! Since a reference to a host is a host too, a contract that means the host
//! behind `h: &mut H` says so: `(*old(h)).set_spec(..)`. Without the `*` the
//! relation would be that of the reference.
use vstd::prelude::*;
use crate::Action;
use crate::Get;
use crate::Put;

verus! {

impl<'a, T, H: Get<T>> Get<T> for &'a mut H {
    /// Reading through the reference admits what reading from the host admits.
    open spec fn get_spec(&self, val: T) -> bool {
        (**self).get_spec(val)
    }

    #[inline(always)]
    fn get(&self) -> (val: T)
        ensures
            (*old(*self)).get_spec(val),
    {
        (**self).get()
    }
}

impl<'a, T, H: Put<T>> Put<T> for &'a mut H {
    /// Writing through the reference admits what writing into the host admits.
    open spec fn set_spec(&self, val: T, after: &Self) -> bool {
        (**self).set_spec(val, &**after)
    }

    /// The reference still stands for the same borrow afterwards.
    #[inline(always)]
    fn set(&mut self, val: T)
        ensures
            (**old(self)).set_spec(val, &**final(self)),
            *final(*final(self)) == *final(*old(self)),
    {
        (**self).set(val)
    }
}

impl<'a, T, H: Action<T>> Action<T> for &'a mut H {
    type Result = H::Result;

    /// Acting through the reference admits what acting on the host admits.
    open spec fn action_spec(&self, val: T, after: &Self, res: H::Result) -> bool {
        (**self).action_spec(val, &**after, res)
    }

    /// The reference still stands for the same borrow afterwards.
    #[inline(always)]
    fn action(&mut self, val: T) -> (res: H::Result)
        ensures
            (**old(self)).action_spec(val, &**final(self), res),
            *final(*final(self)) == *final(*old(self)),
    {
        (**self).action(val)
    }
}

impl<'a, T, H: Get<T>> Get<T> for &'a H {
    /// Reading through the reference admits what reading from the host admits.
    open spec fn get_spec(&self, val: T) -> bool {
        (**self).get_spec(val)
    }

    #[inline(always)]
    fn get(&self) -> (val: T)
        ensures
            (**self).get_spec(val),
    {
        (**self).get()
    }
}

} // verus!
