//! The balance of reference counts over any number of wrappers.
//!
//! The engine keeps one count for each object. The core never sees it, but
//! it can say what its own calls do to it. These laws take any collection
//! of wrappers and any count that covers the units they hold, and show
//! that every operation of the bridge keeps the count covered: as long as
//! one owner of an object is left, the count of that object is at least
//! one, so the object is alive and every other wrapper of it can be used.

use vstd::prelude::*;
use crate::engine::{Machine, Reply, Step};
use crate::handle::Handle;
use crate::object::Object;

verus! {

broadcast use crate::object::group_object;

/// The units of `object`'s count that one wrapper holds.
pub open spec fn holds(wrapper: Object, object: Handle) -> int {
    if wrapper.handle() == object {
        wrapper.bridge().units()
    } else {
        0
    }
}

/// The units of `object`'s count that a collection of wrappers holds.
pub open spec fn held(wrappers: Seq<Object>, object: Handle) -> int
    decreases wrappers.len(),
{
    if wrappers.len() == 0 {
        0
    } else {
        held(wrappers.drop_last(), object) + holds(wrappers.last(), object)
    }
}

/// With one more wrapper, a collection holds what that wrapper holds more.
pub proof fn lemma_held_push(wrappers: Seq<Object>, wrapper: Object, object: Handle)
    ensures
        held(wrappers.push(wrapper), object) == held(wrappers, object) + holds(wrapper, object),
{
    assert(wrappers.push(wrapper).drop_last() =~= wrappers);
}

/// Replacing one wrapper changes what the collection holds by the
/// difference between the two.
pub proof fn lemma_held_update(wrappers: Seq<Object>, i: int, wrapper: Object, object: Handle)
    requires
        0 <= i < wrappers.len(),
    ensures
        held(wrappers.update(i, wrapper), object) == held(wrappers, object) - holds(
            wrappers[i],
            object,
        ) + holds(wrapper, object),
    decreases wrappers.len(),
{
    let updated = wrappers.update(i, wrapper);
    if i == wrappers.len() - 1 {
        assert(updated.drop_last() =~= wrappers.drop_last());
    } else {
        lemma_held_update(wrappers.drop_last(), i, wrapper, object);
        assert(updated.drop_last() =~= wrappers.drop_last().update(i, wrapper));
    }
}

/// What a collection holds is never negative, and covers each wrapper.
pub proof fn lemma_held_covers(wrappers: Seq<Object>, i: int, object: Handle)
    requires
        0 <= i < wrappers.len(),
    ensures
        held(wrappers, object) >= holds(wrappers[i], object) >= 0,
    decreases wrappers.len(),
{
    lemma_held_nonnegative(wrappers.drop_last(), object);
    if i < wrappers.len() - 1 {
        lemma_held_covers(wrappers.drop_last(), i, object);
    }
}

/// What a collection holds is never negative.
pub proof fn lemma_held_nonnegative(wrappers: Seq<Object>, object: Handle)
    ensures
        held(wrappers, object) >= 0,
    decreases wrappers.len(),
{
    if wrappers.len() > 0 {
        lemma_held_nonnegative(wrappers.drop_last(), object);
    }
}

/// While an owner is left, the object is alive: a count that covers what
/// the wrappers hold is at least one as long as one of them owns the object.
pub proof fn law_alive_while_owned(wrappers: Seq<Object>, i: int, count: int)
    requires
        0 <= i < wrappers.len(),
        wrappers[i].bridge() is Owning,
        count >= held(wrappers, wrappers[i].handle()),
    ensures
        count >= 1,
{
    lemma_held_covers(wrappers, i, wrappers[i].handle());
}

/// Taking a reference keeps every count covered. The new owner joins the
/// wrappers, the count of its object goes up by the one unit that the call
/// takes, no other count moves, and no other wrapper changes.
pub proof fn law_reference_keeps_balance(
    wrappers: Seq<Object>,
    i: int,
    reply: Reply,
    object: Handle,
    count: int,
)
    requires
        0 <= i < wrappers.len(),
        wrappers[i].live(),
        count >= held(wrappers, object),
    ensures
        wrappers[i].referenced() matches Step::Call(machine, take) && machine.resumed(
            reply,
        ) matches Step::Done(copy) && {
            &&& copy.handle() == wrappers[i].handle()
            &&& copy.bridge() is Owning
            &&& take.units(object) == holds(copy, object)
            &&& held(wrappers.push(copy), object) == held(wrappers, object) + take.units(object)
            &&& count + take.units(object) >= held(wrappers.push(copy), object)
        },
{
    let copy = Object::wrap(wrappers[i].handle(), crate::object::Ownership::Owning);
    lemma_held_push(wrappers, copy, object);
}

/// Releasing a wrapper keeps every count covered, whatever the wrapper is.
/// An owner gives back the one unit it held and holds none after; any other
/// wrapper gives back nothing. No other wrapper changes, so the units that
/// the others hold are still counted.
pub proof fn law_release_keeps_balance(
    wrappers: Seq<Object>,
    i: int,
    object: Handle,
    count: int,
)
    requires
        0 <= i < wrappers.len(),
        count >= held(wrappers, object),
    ensures
        ({
            let given = match wrappers[i].released() {
                Step::Call(_, give) => give.units(object),
                Step::Done(_) => 0,
            };
            let after = wrappers.update(i, wrappers[i].spent());
            &&& given == -holds(wrappers[i], object)
            &&& held(after, object) == held(wrappers, object) + given
            &&& count + given >= held(after, object)
            &&& holds(after[i], object) == 0
            &&& after[i].released() is Done
            &&& forall|j: int| 0 <= j < wrappers.len() && j != i ==> after[j] == wrappers[j]
        }),
{
    lemma_held_update(wrappers, i, wrappers[i].spent(), object);
}

/// Handing an owner's object over to the engine makes no call and leaves
/// every count as it is: the unit that the wrapper held is now the
/// engine's own, and the wrapper gives nothing back for it.
pub proof fn law_transfer_keeps_balance(
    wrappers: Seq<Object>,
    i: int,
    object: Handle,
    count: int,
)
    requires
        0 <= i < wrappers.len(),
        wrappers[i].bridge() is Owning,
        count >= held(wrappers, object),
    ensures
        ({
            let after = wrappers.update(i, wrappers[i].spent());
            &&& after[i].bridge() is Transferred
            &&& held(after, object) == held(wrappers, object) - holds(wrappers[i], object)
            &&& count >= held(after, object)
            &&& after[i].released() is Done
        }),
{
    lemma_held_update(wrappers, i, wrappers[i].spent(), object);
    lemma_held_covers(wrappers, i, object);
}

} // verus!
