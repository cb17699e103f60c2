//! Owned containers with fallible heap allocation.
//!
//! Every operation that may need memory reports failure through a return
//! value instead of aborting.  The containers are built on a pluggable
//! allocator capability, modelled by the [`allocator`] module; the
//! single-value container lives in [`boxed`] and the growable sequence
//! container in [`vec`].

use vstd::prelude::*;

pub mod allocator;
pub mod boxed;
pub mod vec;

verus! {

/// How a caller turns a propagated allocation failure into either a
/// fatal stop or a continuable signal.  The containers never decide
/// this: they only return structured failures, and the caller picks a
/// strategy at the call site.
///
/// Each strategy says which outcomes it admits and what it turns them
/// into.  [`Recover`] admits every outcome and passes it through.
/// [`Panic`] stands for the fatal choice; since nothing in this crate
/// aborts, it admits only success, so a caller must have ruled the
/// failure out — or chosen [`Recover`] — before applying it.
pub trait PanicStrategy<E>: Sized {
    /// What the strategy hands back to the caller.
    type ReturnType;

    /// Which outcomes this strategy can be applied to.
    spec fn admits(r: Result<(), E>) -> bool;

    /// What the strategy hands back for an admitted outcome.
    spec fn outcome(r: Result<(), E>) -> Self::ReturnType;

    /// Applies the strategy to an outcome.
    fn handle(r: Result<(), E>) -> (out: Self::ReturnType)
        requires
            Self::admits(r),
        ensures
            out == Self::outcome(r),
    ;

    /// The strategy applied to success.
    fn ok() -> (out: Self::ReturnType)
        ensures
            out == Self::outcome(Ok::<(), E>(())),
    ;
}

/// The fatal strategy: a failure stops the program, so only success is
/// admitted here and nothing needs to be handed back.
pub struct Panic;

/// The continuable strategy: every outcome is admitted and handed back
/// unchanged for the caller to propagate.
pub struct Recover;

impl<E> PanicStrategy<E> for Panic {
    type ReturnType = ();

    open spec fn admits(r: Result<(), E>) -> bool {
        r is Ok
    }

    open spec fn outcome(r: Result<(), E>) -> () {
        ()
    }

    fn handle(r: Result<(), E>) -> (out: ()) {
        ()
    }

    fn ok() -> (out: ()) {
        ()
    }
}

impl<E> PanicStrategy<E> for Recover {
    type ReturnType = Result<(), E>;

    open spec fn admits(r: Result<(), E>) -> bool {
        true
    }

    open spec fn outcome(r: Result<(), E>) -> Result<(), E> {
        r
    }

    fn handle(r: Result<(), E>) -> (out: Result<(), E>) {
        r
    }

    fn ok() -> (out: Result<(), E>) {
        Ok(())
    }
}

} // verus!
