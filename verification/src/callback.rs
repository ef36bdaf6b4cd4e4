//! Callback wrappers: closures handed to the host as invokable values.
use vstd::prelude::*;

verus! {

/// Wraps a capturing closure as a value the host can invoke. The wrapper
/// owns the captured state, so it stays alive for exactly as long as the
/// host holds the wrapper — across re-renders, until the host itself
/// discards it. The host may invoke it any number of times, in any order
/// relative to renders; each invocation converts one input to one output
/// independently of the others.
#[verifier::reject_recursive_types(I)]
#[verifier::reject_recursive_types(O)]
pub struct Callback<I, O, F> where F: Fn(I) -> O {
    pub handler: F,
    pub phantom: core::marker::PhantomData<(I, O)>,
}

impl<I, O, F> Callback<I, O, F> where F: Fn(I) -> O {
    /// Wraps the closure, taking ownership of everything it captured.
    pub fn new(handler: F) -> (r: Callback<I, O, F>)
        ensures
            r.handler == handler,
    {
        Callback { handler, phantom: core::marker::PhantomData }
    }

    /// One host invocation: the input the host converted for us goes in,
    /// the closure's answer for exactly that input comes back. Nothing is
    /// retained from one invocation to the next.
    pub fn invoke(&self, input: I) -> (r: O)
        requires
            call_requires(self.handler, (input,)),
        ensures
            call_ensures(self.handler, (input,), r),
    {
        (self.handler)(input)
    }
}

} // verus!
