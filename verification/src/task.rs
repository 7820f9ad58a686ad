//! The handle by which a sampling task is cancelled.

use tokio::task::AbortHandle;
use vstd::prelude::*;

verus! {

/// `tokio::task::AbortHandle`, carried through as an opaque value.
#[verifier::external_type_specification]
#[verifier::external_body]
pub struct ExAbortHandle(AbortHandle);

/// `AbortHandle::abort` asks the runtime to cancel the task behind the handle.
/// It returns nothing and does nothing for a task that is already cancelled
/// or complete, so nothing is claimed of it.
pub assume_specification[ AbortHandle::abort ](task: &AbortHandle)
;

} // verus!
