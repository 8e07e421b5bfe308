//! `DangerousOption`: an `Option` that is meant to be dereferenced as if it always held a value.
//!
//! The cell is for a value that is known to be there at the point of use (it is set a little
//! later than the cell is made, or it is reached only through trusted paths), although the
//! types cannot show it. Using a cell that holds nothing is a bug of the caller, and the bug
//! sits where the cell was left without a value, not where it was dereferenced. The few
//! functions that leave a cell empty therefore carry long names that are easy to search for:
//! `new_uninitialized`, `take_unchecked`, `take_checked`.
//!
//! Dereferencing and `take_unchecked` require a cell that holds a value. Under that
//! requirement the operations of the cell are proved not to unwind; `clone` alone is not, for
//! it runs the `clone` of the held value. A caller that is not verified and breaks the
//! requirement reaches the cell's `ExceptionHandler`, which ends the task; the handler is a
//! type parameter, so each use site can say in its own words what went wrong.
//!
//! The modules: `handler` holds the handler and its default, `model` the states of a cell and
//! the steps between them, `cell` the cell itself, and `laws` what follows for sequences of
//! operations.

pub mod cell;
pub mod handler;
pub mod laws;
pub mod model;

pub use cell::DangerousOption;
pub use handler::DefaultExceptionHandler;
pub use handler::ExceptionHandler;
