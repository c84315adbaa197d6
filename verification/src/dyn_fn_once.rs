use vstd::prelude::*;

verus! {

/// An owned single-use callable: invoked at most once, released exactly once.
///
/// - `Args` - the type of the arguments to the callable. A callable of several
///   arguments packs them into one tuple-typed argument.
/// - `Return` - the type of the value the callable produces.
/// - `F` - the concrete callable whose captured state the wrapper owns.
///
/// Construction moves the captured state onto the heap. From then on exactly
/// one of two things happens to it: [`DynFnOnce::call`] moves it back out and
/// runs the callable, or the wrapper is dropped and the captured state is
/// released without running. Both `call` and dropping consume the wrapper by
/// value, so neither can happen twice, and never both.
#[verifier::reject_recursive_types(Return)]
pub struct DynFnOnce<Args, Return, F> where F: FnOnce(Args) -> Return {
    /// The callable's captured state, moved to the heap at construction.
    state: Box<F>,
    /// Marker tying the otherwise unused argument and return types in.
    marker: core::marker::PhantomData<(Args, Return)>,
}

impl<Args, Return, F> DynFnOnce<Args, Return, F> where F: FnOnce(Args) -> Return {
    /// The callable this wrapper was constructed from.
    pub closed spec fn callable(self) -> F {
        *self.state
    }

    /// Wraps a single-use callable, moving its captured state to the heap.
    ///
    /// Construction cannot fail, and the wrapper holds exactly the callable
    /// it was given.
    pub fn from(value: F) -> (result: Self)
        ensures
            result.callable() == value,
    {
        DynFnOnce { state: Box::new(value), marker: core::marker::PhantomData }
    }

    /// Runs the wrapped callable on `args`, consuming the wrapper.
    ///
    /// The result is exactly a result of the wrapped callable applied to
    /// `args`: nothing is caught, wrapped, or added. Invocation moves the
    /// captured state out of the wrapper, so no release runs afterwards.
    pub fn call(self, args: Args) -> (result: Return)
        requires
            call_requires(self.callable(), (args,)),
        ensures
            call_ensures(self.callable(), (args,), result),
    {
        let f = *self.state;
        f(args)
    }
}

/// Law: erasure is faithful. A wrapper holding `original` — which is what
/// [`DynFnOnce::from`] returns — accepts an invocation exactly when the
/// callable itself accepts the arguments, and every result its invocation
/// can produce is a result the callable itself can produce on those
/// arguments, and conversely.
pub proof fn lemma_erasure_is_faithful<Args, Return, F: FnOnce(Args) -> Return>(
    wrapped: DynFnOnce<Args, Return, F>,
    original: F,
    args: Args,
    result: Return,
)
    requires
        wrapped.callable() == original,
    ensures
        call_requires(wrapped.callable(), (args,)) <==> call_requires(original, (args,)),
        call_ensures(wrapped.callable(), (args,), result) <==> call_ensures(
            original,
            (args,),
            result,
        ),
{
}

} // verus!
