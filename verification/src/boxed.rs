//! Hosts behind a `Box`.
use vstd::prelude::*;
use crate::Action;
use crate::Get;
use crate::Put;

verus! {

impl<T, H: Get<T>> Get<T> for Box<H> {
    /// Reading from the box admits what reading from the boxed host admits.
    open spec fn get_spec(&self, val: T) -> bool {
        (**self).get_spec(val)
    }

    #[inline(always)]
    fn get(&self) -> (val: T)
        ensures
            (**self).get_spec(val),
    {
        (**self).get()
    }
}

impl<T, H: Put<T>> Put<T> for Box<H> {
    /// Writing into the box admits what writing into the boxed host admits.
    open spec fn set_spec(&self, val: T, after: &Self) -> bool {
        (**self).set_spec(val, &**after)
    }

    #[inline(always)]
    fn set(&mut self, val: T)
        ensures
            (**old(self)).set_spec(val, &**final(self)),
    {
        (**self).set(val)
    }
}

impl<T, H: Action<T>> Action<T> for Box<H> {
    type Result = H::Result;

    /// Acting on the box admits what acting on the boxed host admits.
    open spec fn action_spec(&self, val: T, after: &Self, res: H::Result) -> bool {
        (**self).action_spec(val, &**after, res)
    }

    #[inline(always)]
    fn action(&mut self, val: T) -> (res: H::Result)
        ensures
            (**old(self)).action_spec(val, &**final(self), res),
    {
        (**self).action(val)
    }
}

} // verus!
