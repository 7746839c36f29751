//! What can go wrong around a coroutine.

use vstd::prelude::*;

verus! {

/// The stack of a new coroutine could not be allocated. Nothing has run and
/// nothing was changed when this is returned.
#[verifier::external_type_specification]
#[verifier::external_body]
pub struct ExStackError(context::stack::StackError);

/// A wait was torn down before its future resolved: the reactor went away
/// while the coroutine was suspended.
#[derive(Debug, Clone, Copy, PartialEq, Eq, Structural)]
pub struct Dropped;

/// Why a coroutine has no result. `P` is what a fault carries.
#[derive(Debug)]
pub enum TaskFailed<P> {
    /// The task raised a fault, which was caught at the coroutine's boundary.
    Panicked(P),
    /// The result channel was closed without a result in it.
    Lost,
}

} // verus!
