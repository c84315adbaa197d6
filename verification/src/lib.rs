//! Single-use callables as owned wrappers, with verified contracts.
//!
//! [`DynFnOnce`] owns the captured state of a callable that may run at most
//! once: the wrapper is a linear resource that is either consumed by its one
//! invocation or released when it is abandoned. Invoking it consumes the
//! wrapper by value, so a second invocation or a release after invocation
//! cannot even be written down; abandoning it without invoking releases the
//! captured state through ordinary ownership, exactly once. [`DynFnOnceSend`]
//! layers a thread-transferability guarantee on top, established at
//! construction time by a bound on the callable's type.
//!
//! The contracts pin invocation down completely: the wrapper holds exactly
//! the callable it was built from, and invoking it admits exactly the
//! outcomes of that callable on the given arguments — nothing is caught,
//! wrapped, or added on the way through.

mod dyn_fn_once;
pub use crate::dyn_fn_once::DynFnOnce;
pub use crate::dyn_fn_once::lemma_erasure_is_faithful;

mod dyn_fn_once_send;
pub use crate::dyn_fn_once_send::DynFnOnceSend;
pub use crate::dyn_fn_once_send::lemma_send_erasure_is_faithful;
