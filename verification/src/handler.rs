//! What happens when a cell that holds nothing is used as if it held a value.

use core::convert::Infallible;
use vstd::pervasive::allow_panic;
use vstd::prelude::*;

verus! {

/// Ends the task when a cell that holds nothing is dereferenced or taken from.
///
/// A handler has no state and no instance: a cell names it as a type parameter, and different
/// cells of one program may name different handlers. Neither function returns, which the result
/// type says: `Infallible` has no values. An implementation may log what it knows of the use
/// site before it ends the task.
///
/// Both functions require `allow_panic()`, which vstd holds false unless it is built to allow
/// panics. Verified code can therefore call a handler only where it proves that the call is
/// never reached: a cell calls its handler where the caller broke the cell's requirement, and
/// nowhere else.
pub trait ExceptionHandler {
    /// Called when a cell that holds nothing is dereferenced.
    fn bad_deref() -> Infallible
        requires
            allow_panic(),
    ;

    /// Called when a value is taken, unchecked, from a cell that holds nothing.
    fn bad_take() -> Infallible
        requires
            allow_panic(),
    ;
}

/// The handler of a cell that names no other: it panics with a fixed message that tells the
/// two failures apart.
pub struct DefaultExceptionHandler;

impl ExceptionHandler for DefaultExceptionHandler {
    fn bad_deref() -> Infallible {
        abort("Dereferenced uninitialized DangerousOption")
    }

    fn bad_take() -> Infallible {
        abort("Attempt to take value from uninitialized DangerousOption")
    }
}

/// Ends the task with a panic that carries `message`.
///
/// The call is `Option::expect` on `None`, which panics with its argument as the message and
/// hands nothing back. It panics on every call, so it requires `allow_panic()` as the handlers
/// do, and nothing is claimed of a result, for there is none.
#[verifier::external_body]
fn abort(message: &str) -> Infallible
    requires
        allow_panic(),
{
    None.expect(message)
}

} // verus!
