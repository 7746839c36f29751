//! The reactor that drives the futures which coroutines wait for: the event
//! loop of the `tokio_core` crate, of which this crate holds handles.

use vstd::prelude::*;
use tokio_core::reactor::Handle;

verus! {

/// A handle to the reactor. It is opaque here: the engine keeps one in the
/// record of each coroutine, copies it and hands it on.
#[verifier::external_type_specification]
#[verifier::external_body]
pub struct ExHandle(Handle);

/// `Handle`'s own `clone`, as `tokio_core` derives it: the copy refers to the
/// same reactor. Nothing can be stated of an opaque handle, so the contracts
/// that copy one say only that the copy came from this call.
pub assume_specification[ <Handle as Clone>::clone ](handle: &Handle) -> (copy: Handle);

} // verus!
