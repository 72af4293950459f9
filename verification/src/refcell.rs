//! Hosts in a `RefCell`.
//!
//! A cell hands its host out under a borrow that it checks while the program
//! runs. Each operation here takes the borrow it needs (shared to read,
//! exclusive to write or act), hands the host to the host's own
//! implementation, and gives the borrow back when it returns. Taking a borrow
//! that conflicts with one still held elsewhere panics, as the cell has it;
//! nothing here catches that or tries again.
//!
//! To a contract a cell is a handle: what it holds at a given moment is not a
//! function of the handle, since every owner of a shared cell can change it.
//! So an operation through a cell states that the handle stays the same and
//! that the outcome is one that the host's implementation admits on the state
//! it was handed.
use vstd::prelude::*;
use std::cell::Ref;
use std::cell::RefCell;
use std::cell::RefMut;
use std::ops::Deref;
use std::ops::DerefMut;
use std::rc::Rc;
use crate::Action;
use crate::Get;
use crate::Put;

verus! {

/// `std::cell::RefCell`, carried as an opaque handle.
#[verifier::external_type_specification]
#[verifier::external_body]
#[verifier::reject_recursive_types(T)]
pub struct ExRefCell<T: ?Sized>(RefCell<T>);

/// `std::cell::Ref`, the shared borrow that a cell hands out.
#[verifier::external_type_specification]
#[verifier::external_body]
#[verifier::reject_recursive_types(T)]
pub struct ExRef<'b, T: ?Sized>(Ref<'b, T>);

/// `std::cell::RefMut`, the exclusive borrow that a cell hands out.
#[verifier::external_type_specification]
#[verifier::external_body]
#[verifier::reject_recursive_types(T)]
pub struct ExRefMut<'b, T: ?Sized + 'b>(RefMut<'b, T>);

/// `RefCell::borrow`: a shared borrow of what the cell holds, given back when
/// the guard is dropped. Nothing is claimed of the guard or of the host that
/// it leads to. The call does not return but unwinds where the cell is
/// exclusively borrowed at that moment.
pub assume_specification<'a, T: ?Sized>[ RefCell::<T>::borrow ](cell: &'a RefCell<T>) -> (guard:
    Ref<'a, T>)
;

/// `RefCell::borrow_mut`: an exclusive borrow of what the cell holds, given
/// back when the guard is dropped. Nothing is claimed of the guard or of the
/// host that it leads to. The call does not return but unwinds where the cell
/// is borrowed at that moment, shared or exclusively.
pub assume_specification<'a, T: ?Sized>[ RefCell::<T>::borrow_mut ](cell: &'a RefCell<T>) -> (guard:
    RefMut<'a, T>)
;

/// `Deref::deref` of `Ref`: the host that a shared borrow leads to. Nothing is
/// claimed of it.
#[verifier::external_body]
fn host_of<'a, 'b, U>(guard: &'a Ref<'b, U>) -> (host: &'a U) {
    guard.deref()
}

/// `DerefMut::deref_mut` of `RefMut`: the host that an exclusive borrow leads
/// to. Nothing is claimed of it, before or after.
#[verifier::external_body]
fn host_of_mut<'a, 'b, U>(guard: &'a mut RefMut<'b, U>) -> (host: &'a mut U) {
    guard.deref_mut()
}

/// Whether a host of type `U`, in some state, admits reading `val`.
pub open spec fn some_host_gets<T, U: Get<T>>(val: T) -> bool {
    exists|host: U| #[trigger] host.get_spec(val)
}

/// Whether a host of type `U`, in some state, admits writing `val`.
pub open spec fn some_host_sets<T, U: Put<T>>(val: T) -> bool {
    exists|host: U, after: U| #[trigger] host.set_spec(val, &after)
}

/// Whether a host of type `U`, in some state, admits performing `val` with
/// the result `res`.
pub open spec fn some_host_acts<T, U: Action<T>>(val: T, res: U::Result) -> bool {
    exists|host: U, after: U| #[trigger] host.action_spec(val, &after, res)
}

impl<T, U: Get<T>> Get<T> for RefCell<U> {
    /// Reading from the cell admits what reading from the host admits in some
    /// state.
    open spec fn get_spec(&self, val: T) -> bool {
        some_host_gets::<T, U>(val)
    }

    #[inline(always)]
    fn get(&self) -> (val: T)
        ensures
            some_host_gets::<T, U>(val),
    {
        host_of(&self.borrow()).get()
    }
}

impl<T, U: Put<T>> Put<T> for RefCell<U> {
    /// Writing into the cell keeps the handle and admits what writing into
    /// the host admits in some state.
    open spec fn set_spec(&self, val: T, after: &Self) -> bool {
        *after == *self && some_host_sets::<T, U>(val)
    }

    #[inline(always)]
    fn set(&mut self, val: T)
        ensures
            *final(self) == *old(self),
            some_host_sets::<T, U>(val),
    {
        host_of_mut(&mut self.borrow_mut()).set(val)
    }
}

impl<T, U: Action<T>> Action<T> for RefCell<U> {
    type Result = U::Result;

    /// Acting on the cell keeps the handle and admits what acting on the host
    /// admits in some state.
    open spec fn action_spec(&self, val: T, after: &Self, res: U::Result) -> bool {
        *after == *self && some_host_acts::<T, U>(val, res)
    }

    #[inline(always)]
    fn action(&mut self, val: T) -> (res: U::Result)
        ensures
            *final(self) == *old(self),
            some_host_acts::<T, U>(val, res),
    {
        host_of_mut(&mut self.borrow_mut()).action(val)
    }
}

impl<'a, T, U: Put<T>> Put<T> for &'a RefCell<U> {
    /// Writing through a shared reference to the cell keeps the reference and
    /// admits what writing into the host admits in some state.
    open spec fn set_spec(&self, val: T, after: &Self) -> bool {
        *after == *self && some_host_sets::<T, U>(val)
    }

    #[inline(always)]
    fn set(&mut self, val: T)
        ensures
            *final(self) == *old(self),
            some_host_sets::<T, U>(val),
    {
        host_of_mut(&mut self.borrow_mut()).set(val)
    }
}

impl<'a, T, U: Action<T>> Action<T> for &'a RefCell<U> {
    type Result = U::Result;

    /// Acting through a shared reference to the cell keeps the reference and
    /// admits what acting on the host admits in some state.
    open spec fn action_spec(&self, val: T, after: &Self, res: U::Result) -> bool {
        *after == *self && some_host_acts::<T, U>(val, res)
    }

    #[inline(always)]
    fn action(&mut self, val: T) -> (res: U::Result)
        ensures
            *final(self) == *old(self),
            some_host_acts::<T, U>(val, res),
    {
        host_of_mut(&mut self.borrow_mut()).action(val)
    }
}

impl<T, U: Get<T>> Get<T> for Rc<RefCell<U>> {
    /// Reading from the shared cell admits what reading from the host admits
    /// in some state.
    open spec fn get_spec(&self, val: T) -> bool {
        some_host_gets::<T, U>(val)
    }

    #[inline(always)]
    fn get(&self) -> (val: T)
        ensures
            some_host_gets::<T, U>(val),
    {
        host_of(&self.borrow()).get()
    }
}

impl<T, U: Put<T>> Put<T> for Rc<RefCell<U>> {
    /// Writing into the shared cell keeps the handle and admits what writing
    /// into the host admits in some state.
    open spec fn set_spec(&self, val: T, after: &Self) -> bool {
        *after == *self && some_host_sets::<T, U>(val)
    }

    #[inline(always)]
    fn set(&mut self, val: T)
        ensures
            *final(self) == *old(self),
            some_host_sets::<T, U>(val),
    {
        host_of_mut(&mut self.borrow_mut()).set(val)
    }
}

impl<T, U: Action<T>> Action<T> for Rc<RefCell<U>> {
    type Result = U::Result;

    /// Acting on the shared cell keeps the handle and admits what acting on
    /// the host admits in some state.
    open spec fn action_spec(&self, val: T, after: &Self, res: U::Result) -> bool {
        *after == *self && some_host_acts::<T, U>(val, res)
    }

    #[inline(always)]
    fn action(&mut self, val: T) -> (res: U::Result)
        ensures
            *final(self) == *old(self),
            some_host_acts::<T, U>(val, res),
    {
        host_of_mut(&mut self.borrow_mut()).action(val)
    }
}

} // verus!
