//! The cell and its operations.

use crate::handler::DefaultExceptionHandler;
use crate::handler::ExceptionHandler;
use crate::model::after_put;
use crate::model::after_take;
use crate::model::after_write;
use crate::model::value;
use core::marker::PhantomData;
use core::mem::swap;
use vstd::pervasive::unreached;
use vstd::prelude::*;

verus! {

/// A value that might be missing, but most probably is not.
///
/// The cell holds a value or nothing, and it owns the value while it holds it. Its view is the
/// `Option` of what it holds. `H` decides how the task ends if the cell is dereferenced or
/// taken from while it holds nothing; it takes no room in the cell.
#[derive(Debug)]
pub struct DangerousOption<T, H: ExceptionHandler = DefaultExceptionHandler>(
    Option<T>,
    PhantomData<H>,
);

impl<T, H: ExceptionHandler> View for DangerousOption<T, H> {
    type V = Option<T>;

    closed spec fn view(&self) -> Option<T> {
        self.0
    }
}

impl<T, H: ExceptionHandler> DangerousOption<T, H> {
    /// Makes a cell that holds `val`.
    pub fn new(val: T) -> (cell: Self)
        ensures
            cell@ == Some(val),
        no_unwind
    {
        DangerousOption(Some(val), PhantomData)
    }

    /// Makes a cell that holds nothing. It must be filled with `put` before it is dereferenced.
    pub fn new_uninitialized() -> (cell: Self)
        ensures
            cell@ == None::<T>,
        no_unwind
    {
        DangerousOption(None, PhantomData)
    }

    /// Hands out the held value.
    ///
    /// The cell must hold one. A caller that is not verified and passes a cell that holds
    /// nothing ends in `H::bad_deref`.
    #[allow(unreachable_code)]
    pub fn deref(&self) -> (held: &T)
        requires
            self@ is Some,
        ensures
            *held == value(self@),
        no_unwind
    {
        match &self.0 {
            Some(val) => val,
            None => {
                H::bad_deref();
                unreached()
            },
        }
    }

    /// Lends the held value for writing. What the borrower leaves behind is what the cell
    /// holds afterwards.
    ///
    /// The cell must hold a value. A caller that is not verified and passes a cell that holds
    /// nothing ends in `H::bad_deref`.
    #[allow(unreachable_code)]
    pub fn deref_mut(&mut self) -> (held: &mut T)
        requires
            old(self)@ is Some,
        ensures
            *held == value(old(self)@),
            final(self)@ == after_write(old(self)@, *final(held)),
        no_unwind
    {
        match &mut self.0 {
            Some(val) => val,
            None => {
                H::bad_deref();
                unreached()
            },
        }
    }

    /// Takes the value out and leaves the cell holding nothing.
    ///
    /// The cell must hold a value. A caller that is not verified and passes a cell that holds
    /// nothing ends in `H::bad_take`.
    #[allow(unreachable_code)]
    pub fn take_unchecked(this: &mut Self) -> (taken: T)
        requires
            old(this)@ is Some,
        ensures
            taken == value(old(this)@),
            final(this)@ == after_take(old(this)@),
        no_unwind
    {
        match Self::take_checked(this) {
            Some(val) => val,
            None => {
                H::bad_take();
                unreached()
            },
        }
    }

    /// Takes out what the cell holds, which is nothing if the cell holds nothing, and leaves
    /// the cell holding nothing.
    pub fn take_checked(this: &mut Self) -> (taken: Option<T>)
        ensures
            taken == old(this)@,
            final(this)@ == after_take(old(this)@),
        no_unwind
    {
        let mut taken = None;
        swap(&mut this.0, &mut taken);
        taken
    }

    /// Hands out the held value, or `None` if the cell holds nothing.
    pub fn try_ref(this: &Self) -> (held: Option<&T>)
        ensures
            (match held {
                Some(val) => this@ == Some(*val),
                None => this@ is None,
            }),
        no_unwind
    {
        match &this.0 {
            Some(val) => Some(val),
            None => None,
        }
    }

    /// Lends the held value for writing, or hands out `None` if the cell holds nothing. What
    /// the borrower leaves behind is what the cell holds afterwards.
    pub fn try_mut(this: &mut Self) -> (held: Option<&mut T>)
        ensures
            (match held {
                Some(val) => {
                    &&& old(this)@ == Some(*val)
                    &&& final(this)@ == after_write(old(this)@, *final(val))
                },
                None => old(this)@ is None && final(this)@ is None,
            }),
        no_unwind
    {
        match &mut this.0 {
            Some(val) => Some(val),
            None => None,
        }
    }

    /// Puts `val` into the cell and hands out what the cell held before, which is nothing if
    /// it held nothing.
    pub fn put(this: &mut Self, val: T) -> (previous: Option<T>)
        ensures
            previous == old(this)@,
            final(this)@ == after_put(old(this)@, val),
        no_unwind
    {
        let mut previous = Some(val);
        swap(&mut this.0, &mut previous);
        previous
    }
}

impl<T: Clone, H: ExceptionHandler> Clone for DangerousOption<T, H> {
    /// Makes a second cell, with the same handler, in the state of this one: it holds a clone
    /// of the held value, or nothing if this cell holds nothing. No handler is called.
    fn clone(&self) -> (copy: Self)
        ensures
            copy@ is Some <==> self@ is Some,
            self@ is Some ==> cloned(value(self@), value(copy@)),
    {
        DangerousOption(self.0.clone(), PhantomData)
    }
}

} // verus!
