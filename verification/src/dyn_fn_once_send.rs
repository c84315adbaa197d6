use vstd::prelude::*;

use crate::dyn_fn_once::DynFnOnce;

verus! {

/// A [`DynFnOnce`] whose captured state may cross thread boundaries.
///
/// Construction demands a callable that is safe to move to another thread;
/// the wrapper is then itself transferable, and carries no state beyond the
/// wrapped value.
#[verifier::reject_recursive_types(Return)]
pub struct DynFnOnceSend<Args, Return, F> where F: FnOnce(Args) -> Return {
    /// The wrapped single-use callable.
    inner: DynFnOnce<Args, Return, F>,
}

impl<Args, Return, F> DynFnOnceSend<Args, Return, F> where F: FnOnce(Args) -> Return {
    /// The callable this wrapper was constructed from.
    pub closed spec fn callable(self) -> F {
        self.inner.callable()
    }

    /// Wraps a single-use callable that may move to another thread.
    ///
    /// The `Send` bound on the callable is the whole precondition: it is
    /// checked against the concrete type here, at construction, and the
    /// wrapper is transferable exactly because its only state is that
    /// callable's captured state.
    pub fn from(value: F) -> (result: Self)
        where F: Send
        ensures
            result.callable() == value,
    {
        DynFnOnceSend { inner: DynFnOnce::from(value) }
    }

    /// Runs the wrapped callable on `args`, consuming the wrapper.
    ///
    /// Delegates to [`DynFnOnce::call`] with an identical contract.
    pub fn call(self, args: Args) -> (result: Return)
        requires
            call_requires(self.callable(), (args,)),
        ensures
            call_ensures(self.callable(), (args,), result),
    {
        self.inner.call(args)
    }
}

/// Law: the transferable wrapper is as faithful as the plain one. A wrapper
/// holding `original` — which is what [`DynFnOnceSend::from`] returns —
/// accepts an invocation exactly when the callable itself accepts the
/// arguments, and its invocation's possible results are exactly the
/// callable's own possible results on those arguments.
pub proof fn lemma_send_erasure_is_faithful<Args, Return, F: FnOnce(Args) -> Return>(
    wrapped: DynFnOnceSend<Args, Return, F>,
    original: F,
    args: Args,
    result: Return,
)
    requires
        wrapped.callable() == original,
    ensures
        call_requires(wrapped.callable(), (args,)) <==> call_requires(original, (args,)),
        call_ensures(wrapped.callable(), (args,), result) <==> call_ensures(
            original,
            (args,),
            result,
        ),
{
}

} // verus!
