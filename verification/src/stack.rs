//! Stacks for coroutines: guarded regions of memory of a fixed size, which
//! the `context` crate allocates and frees.

use vstd::prelude::*;
use context::stack::{ProtectedFixedSizeStack, Stack, StackError};

verus! {

/// The stack of one coroutine. It is owned by the coroutine's record while the
/// coroutine lives and is freed when the value is dropped, so it has to be
/// dropped by code that runs on another stack.
#[verifier::external_type_specification]
#[verifier::external_body]
pub struct ExProtectedFixedSizeStack(ProtectedFixedSizeStack);

/// Calls `context::stack::Stack::default_size`, the stack size that the crate
/// suggests for this platform. It is computed from the machine's page size
/// and its limit on stacks, so nothing is claimed of the number.
#[verifier::external_body]
pub(crate) fn default_size() -> (size: usize) {
    Stack::default_size()
}

/// Calls `context::stack::ProtectedFixedSizeStack::new`, which maps memory
/// for a stack of at least `size` bytes and a guard page below it. Whether it
/// succeeds is up to the machine (its limit on stacks, the memory left), so
/// nothing is claimed of the outcome. The call is taken to return for every
/// `size`: the crate computes with the machine's limit on stacks without a
/// check only where that limit is below two pages.
#[verifier::external_body]
pub(crate) fn allocate(size: usize) -> (allocated: Result<ProtectedFixedSizeStack, StackError>) {
    ProtectedFixedSizeStack::new(size)
}

} // verus!
