//! What holds of sequences of operations on a cell.
//!
//! Each law is stated over the states and steps of `model`, in which the contracts of the
//! operations are written: `new(v)` makes a cell in state `Some(v)`, `new_uninitialized()` one
//! in state `None`, and every other operation says which step it takes.

use crate::model::after_put;
use crate::model::after_take;
use crate::model::after_write;
use crate::model::value;
use vstd::prelude::*;

verus! {

/// A cell made from `v` holds a value, so it may be dereferenced, and dereferencing it hands
/// out `v`.
pub proof fn lemma_new_then_deref<T>(v: T)
    ensures
        Some(v) is Some,
        value(Some(v)) == v,
{
}

/// Taking from a cell made from `v` hands out `v` and leaves a cell that holds nothing, so a
/// checked look into it finds nothing.
pub proof fn lemma_new_then_take<T>(v: T)
    ensures
        value(Some(v)) == v,
        after_take(Some(v)) == None::<T>,
{
}

/// Taking from a cell leaves it holding nothing, whatever it held, so a second checked take
/// finds nothing.
pub proof fn lemma_take_leaves_nothing<T>(state: Option<T>)
    ensures
        after_take(state) == None::<T>,
        after_take(after_take(state)) == None::<T>,
{
}

/// Putting `first` into a cell that holds nothing leaves it holding `first`; putting `second`
/// into it then leaves it holding `second`. Each put hands out the state it found: nothing the
/// first time, `first` the second time.
pub proof fn lemma_put_then_put<T>(first: T, second: T)
    ensures
        after_put(None, first) == Some(first),
        after_put(after_put(None, first), second) == Some(second),
{
}

/// Taking the value out of a cell that holds one and putting the same value back restores the
/// cell: it is in the state in which it started, and dereferencing it hands out the same
/// value.
pub proof fn lemma_take_then_put_restores<T>(state: Option<T>)
    requires
        state is Some,
    ensures
        after_put(after_take(state), value(state)) == state,
        value(after_put(after_take(state), value(state))) == value(state),
{
}

/// What is written through a mutable borrow of the held value is what the cell hands out when
/// it is dereferenced next.
pub proof fn lemma_write_then_deref<T>(state: Option<T>, last: T)
    requires
        state is Some,
    ensures
        after_write(state, last) is Some,
        value(after_write(state, last)) == last,
{
}

/// A borrower that writes nothing leaves the cell in the state in which it was lent.
pub proof fn lemma_borrow_without_write<T>(state: Option<T>)
    requires
        state is Some,
    ensures
        after_write(state, value(state)) == state,
{
}

/// A cell that holds nothing lends nothing, and still holds nothing afterwards.
pub proof fn lemma_write_to_nothing<T>(last: T)
    ensures
        after_write(None, last) == None::<T>,
{
}

} // verus!
