//! The cell as a state machine.
//!
//! The state of a cell is an `Option`: `Some(v)` for a cell that holds `v`, `None` for a cell
//! that holds nothing. A cell starts in either state, and the functions below give the state
//! after each step. The contracts of the cell's operations are written over them.

use vstd::prelude::*;

verus! {

/// The value that a cell in `state` hands out when it is dereferenced. Only a cell that holds
/// a value can be dereferenced.
pub open spec fn value<T>(state: Option<T>) -> T
    recommends
        state is Some,
{
    state->0
}

/// The state after the value was taken out: the cell holds nothing, whatever it held before.
pub open spec fn after_take<T>(state: Option<T>) -> Option<T> {
    None
}

/// The state after `val` was put in: the cell holds `val`, whatever it held before.
pub open spec fn after_put<T>(state: Option<T>, val: T) -> Option<T> {
    Some(val)
}

/// The state after a mutable borrow of the held value has ended, where `last` is the value
/// that the borrower left behind. A cell that holds nothing lends nothing and stays as it is.
pub open spec fn after_write<T>(state: Option<T>, last: T) -> Option<T> {
    match state {
        Some(_) => Some(last),
        None => None,
    }
}

} // verus!
