//! What holds of hosts behind wrappers.
//!
//! One layer of wrapping admits what the host admits; two layers admit what
//! one admits; and a box or an exclusive reference keeps two things that a
//! host may have of its own: that a property reads back as written, and that
//! an action done twice leaves what it leaves done once. Of a cell only the
//! first two are stated: what a cell holds between two calls is open to every
//! owner of it.
use vstd::prelude::*;
use std::cell::RefCell;
use std::rc::Rc;
use crate::Action;
use crate::Get;
use crate::GetSet;
use crate::Put;

verus! {

/// Reading through one layer admits what reading from the host admits:
/// exactly that behind a box or a reference, and in a cell what the host
/// admits in some state.
pub proof fn lemma_get_through_one_layer<T, H: Get<T>>(
    boxed: Box<H>,
    shared: &H,
    cell: RefCell<H>,
    counted: Rc<RefCell<H>>,
    val: T,
)
    ensures
        boxed.get_spec(val) <==> (*boxed).get_spec(val),
        (&shared).get_spec(val) <==> (*shared).get_spec(val),
        forall|r: &mut H| #[trigger] r.get_spec(val) <==> (*r).get_spec(val),
        cell.get_spec(val) <==> exists|host: H| #[trigger] host.get_spec(val),
        counted.get_spec(val) <==> exists|host: H| #[trigger] host.get_spec(val),
{
}

/// Writing through one layer admits what writing into the host admits:
/// exactly that behind a box or an exclusive reference; a cell keeps its
/// handle and admits what the host admits in some state.
pub proof fn lemma_set_through_one_layer<T, H: Put<T>>(
    boxed: Box<H>,
    boxed_after: Box<H>,
    cell: RefCell<H>,
    cell_after: RefCell<H>,
    by_ref: &RefCell<H>,
    by_ref_after: &RefCell<H>,
    counted: Rc<RefCell<H>>,
    counted_after: Rc<RefCell<H>>,
    val: T,
)
    ensures
        boxed.set_spec(val, &boxed_after) <==> (*boxed).set_spec(val, &*boxed_after),
        forall|r: &mut H, after: &mut H| #[trigger]
            r.set_spec(val, &after) <==> (*r).set_spec(val, &*after),
        cell.set_spec(val, &cell_after) <==> cell_after == cell && exists|host: H, after: H|
            #[trigger] host.set_spec(val, &after),
        (&by_ref).set_spec(val, &by_ref_after) <==> by_ref_after == by_ref && exists|
            host: H,
            after: H,
        | #[trigger] host.set_spec(val, &after),
        counted.set_spec(val, &counted_after) <==> counted_after == counted && exists|
            host: H,
            after: H,
        | #[trigger] host.set_spec(val, &after),
{
}

/// Acting through one layer admits what acting on the host admits, with the
/// result unchanged: exactly that behind a box or an exclusive reference; a
/// cell keeps its handle and admits what the host admits in some state.
pub proof fn lemma_action_through_one_layer<T, H: Action<T>>(
    boxed: Box<H>,
    boxed_after: Box<H>,
    cell: RefCell<H>,
    cell_after: RefCell<H>,
    by_ref: &RefCell<H>,
    by_ref_after: &RefCell<H>,
    counted: Rc<RefCell<H>>,
    counted_after: Rc<RefCell<H>>,
    val: T,
    res: H::Result,
)
    ensures
        boxed.action_spec(val, &boxed_after, res) <==> (*boxed).action_spec(
            val,
            &*boxed_after,
            res,
        ),
        forall|r: &mut H, after: &mut H| #[trigger]
            r.action_spec(val, &after, res) <==> (*r).action_spec(val, &*after, res),
        cell.action_spec(val, &cell_after, res) <==> cell_after == cell && exists|
            host: H,
            after: H,
        | #[trigger] host.action_spec(val, &after, res),
        (&by_ref).action_spec(val, &by_ref_after, res) <==> by_ref_after == by_ref && exists|
            host: H,
            after: H,
        | #[trigger] host.action_spec(val, &after, res),
        counted.action_spec(val, &counted_after, res) <==> counted_after == counted && exists|
            host: H,
            after: H,
        | #[trigger] host.action_spec(val, &after, res),
{
}

/// Reading through two layers admits what reading through one admits: a box
/// in a box reads as the host does, and a shared cell that holds a box reads
/// as a shared cell that holds the host.
pub proof fn lemma_get_through_two_layers<T, H: Get<T>>(
    boxes: Box<Box<H>>,
    cell_of_box: Rc<RefCell<Box<H>>>,
    cell: Rc<RefCell<H>>,
    val: T,
)
    ensures
        boxes.get_spec(val) <==> (**boxes).get_spec(val),
        cell_of_box.get_spec(val) <==> cell.get_spec(val),
{
    if cell_of_box.get_spec(val) {
        let boxed = choose|boxed: Box<H>| #[trigger] boxed.get_spec(val);
        assert((*boxed).get_spec(val));
    }
    if cell.get_spec(val) {
        let host = choose|host: H| #[trigger] host.get_spec(val);
        assert(Box::new(host).get_spec(val));
    }
}

/// Writing through two layers admits what writing through one admits: a box
/// in a box is written as the host is, and a shared cell that holds a box is
/// written as a shared cell that holds the host.
pub proof fn lemma_set_through_two_layers<T, H: Put<T>>(
    boxes: Box<Box<H>>,
    boxes_after: Box<Box<H>>,
    cell_of_box: Rc<RefCell<Box<H>>>,
    cell: Rc<RefCell<H>>,
    val: T,
)
    ensures
        boxes.set_spec(val, &boxes_after) <==> (**boxes).set_spec(val, &**boxes_after),
        cell_of_box.set_spec(val, &cell_of_box) <==> cell.set_spec(val, &cell),
{
    if cell_of_box.set_spec(val, &cell_of_box) {
        let (boxed, after) = choose|boxed: Box<H>, after: Box<H>| #[trigger]
            boxed.set_spec(val, &after);
        assert((*boxed).set_spec(val, &*after));
    }
    if cell.set_spec(val, &cell) {
        let (host, after) = choose|host: H, after: H| #[trigger] host.set_spec(val, &after);
        assert(Box::new(host).set_spec(val, &Box::new(after)));
    }
}

/// Acting through two layers admits what acting through one admits: a box in
/// a box is acted on as the host is, and a shared cell that holds a box is
/// acted on as a shared cell that holds the host.
pub proof fn lemma_action_through_two_layers<T, H: Action<T>>(
    boxes: Box<Box<H>>,
    boxes_after: Box<Box<H>>,
    cell_of_box: Rc<RefCell<Box<H>>>,
    cell: Rc<RefCell<H>>,
    val: T,
    res: H::Result,
)
    ensures
        boxes.action_spec(val, &boxes_after, res) <==> (**boxes).action_spec(
            val,
            &**boxes_after,
            res,
        ),
        cell_of_box.action_spec(val, &cell_of_box, res) <==> cell.action_spec(val, &cell, res),
{
    if cell_of_box.action_spec(val, &cell_of_box, res) {
        let (boxed, after) = choose|boxed: Box<H>, after: Box<H>| #[trigger]
            boxed.action_spec(val, &after, res);
        assert((*boxed).action_spec(val, &*after, res));
    }
    if cell.action_spec(val, &cell, res) {
        let (host, after) = choose|host: H, after: H| #[trigger]
            host.action_spec(val, &after, res);
        assert(Box::new(host).action_spec(val, &Box::new(after), res));
    }
}

/// Whether reading the property `T` back from `host` right after writing
/// `val` into it gives `val`: every value that the host admits as read from
/// any state that the write may leave is `val`.
pub open spec fn round_trip<T, H: GetSet<T>>(host: &H, val: T) -> bool {
    forall|after: H, back: T| #![trigger host.set_spec(val, &after), after.get_spec(back)]
        host.set_spec(val, &after) && after.get_spec(back) ==> back == val
}

/// Whether performing `val` on `host` twice leaves what performing it once
/// leaves, whatever state and result the host admits for each of the two.
pub open spec fn idempotent<T, H: Action<T>>(host: &H, val: T) -> bool {
    forall|once: H, first: H::Result, twice: H, second: H::Result|
        #![trigger host.action_spec(val, &once, first), once.action_spec(val, &twice, second)]
        host.action_spec(val, &once, first) && once.action_spec(val, &twice, second) ==> twice
            == once
}

/// A boxed host gives back what was written into it exactly where the host
/// itself does.
pub proof fn lemma_round_trip_in_box<T, H: GetSet<T>>(host: Box<H>, val: T)
    ensures
        round_trip::<T, Box<H>>(&host, val) <==> round_trip::<T, H>(&*host, val),
{
    if round_trip::<T, Box<H>>(&host, val) {
        assert forall|after: H, back: T| (*host).set_spec(val, &after) && after.get_spec(
            back,
        ) implies back == val by {
            let boxed = Box::new(after);
            assert(host.set_spec(val, &boxed) && boxed.get_spec(back));
        }
    }
    if round_trip::<T, H>(&*host, val) {
        assert forall|after: Box<H>, back: T| host.set_spec(val, &after) && after.get_spec(
            back,
        ) implies back == val by {
            assert((*host).set_spec(val, &*after) && (*after).get_spec(back));
        }
    }
}

/// A host that gives back what was written into it still does so behind
/// every exclusive reference to it.
pub proof fn lemma_round_trip_behind_mut<T, H: GetSet<T>>(host: H, val: T)
    requires
        round_trip::<T, H>(&host, val),
    ensures
        forall|r: &mut H| *r == host ==> #[trigger] round_trip::<T, &mut H>(&r, val),
{
    assert forall|r: &mut H| *r == host implies #[trigger] round_trip::<T, &mut H>(&r, val) by {
        assert forall|after: &mut H, back: T| r.set_spec(val, &after) && after.get_spec(
            back,
        ) implies back == val by {
            assert(host.set_spec(val, &*after) && (*after).get_spec(back));
        }
    }
}

/// An action is idempotent on a boxed host exactly where it is on the host
/// itself: the box neither makes a repeated action collapse nor keeps it
/// from doing so.
pub proof fn lemma_idempotent_in_box<T, H: Action<T>>(host: Box<H>, val: T)
    ensures
        idempotent::<T, Box<H>>(&host, val) <==> idempotent::<T, H>(&*host, val),
{
    if idempotent::<T, Box<H>>(&host, val) {
        assert forall|once: H, first: H::Result, twice: H, second: H::Result|
            (*host).action_spec(val, &once, first) && once.action_spec(
                val,
                &twice,
                second,
            ) implies twice == once by {
            let once_boxed = Box::new(once);
            let twice_boxed = Box::new(twice);
            assert(host.action_spec(val, &once_boxed, first) && once_boxed.action_spec(
                val,
                &twice_boxed,
                second,
            ));
        }
    }
    if idempotent::<T, H>(&*host, val) {
        assert forall|once: Box<H>, first: H::Result, twice: Box<H>, second: H::Result|
            host.action_spec(val, &once, first) && once.action_spec(
                val,
                &twice,
                second,
            ) implies twice == once by {
            assert((*host).action_spec(val, &*once, first) && (*once).action_spec(
                val,
                &*twice,
                second,
            ));
        }
    }
}

/// An action that is idempotent on a host is so behind every exclusive
/// reference to it: the host that the reference leads to after two runs is
/// the host that it leads to after one.
pub proof fn lemma_idempotent_behind_mut<T, H: Action<T>>(host: H, val: T)
    requires
        idempotent::<T, H>(&host, val),
    ensures
        forall|r: &mut H, once: &mut H, first: H::Result, twice: &mut H, second: H::Result|
            #![trigger r.action_spec(val, &once, first), once.action_spec(val, &twice, second)]
            *r == host && r.action_spec(val, &once, first) && once.action_spec(
                val,
                &twice,
                second,
            ) ==> *twice == *once,
{
    assert forall|r: &mut H, once: &mut H, first: H::Result, twice: &mut H, second: H::Result|
        #![trigger r.action_spec(val, &once, first), once.action_spec(val, &twice, second)]
        *r == host && r.action_spec(val, &once, first) && once.action_spec(
            val,
            &twice,
            second,
        ) implies *twice == *once by {
        assert(host.action_spec(val, &*once, first) && (*once).action_spec(val, &*twice, second));
    }
}

} // verus!
