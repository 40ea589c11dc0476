//! The trait implemented by generator instances **with resume arguments**.
//!
//! A [`Coroutine`] is a [`Generator`](crate::generator::Generator) enhanced
//! with support for resume arguments, carried here as an associated type
//! instead of a trait parameter.

use vstd::prelude::*;

use crate::generator::{Generator, GeneratorState};
use crate::generator_fn::GeneratorFn;
use crate::suspend::Suspendable;

verus! {

/// A resumable state machine that receives a value at each resumption.
///
/// The spec functions play the same roles as those of
/// [`Generator`](crate::generator::Generator): `co_inv` is the preserved
/// invariant, `co_done` marks the terminal state, `co_arg_ok` restricts the
/// accepted resume arguments, and `resume_with_rel` is the transition
/// relation of one resumption.
pub trait Coroutine: Sized {
    /// The type of value this coroutine yields at each suspension.
    type Yield;

    /// The type of the stateful resume argument.
    type ResumeArg;

    /// The type of value this coroutine returns on completion.
    type Return;

    /// Well-formedness of the coroutine's state.
    spec fn co_inv(&self) -> bool;

    /// Whether the coroutine has already returned its terminal value.
    spec fn co_done(&self) -> bool;

    /// Which resume arguments the coroutine accepts in its current state.
    spec fn co_arg_ok(&self, resume_arg: Self::ResumeArg) -> bool;

    /// The transition relation of one resumption.
    spec fn resume_with_rel(
        pre: Self,
        resume_arg: Self::ResumeArg,
        post: Self,
        outcome: GeneratorState<Self::Yield, Self::Return>,
    ) -> bool;

    /// Resumes the execution of this coroutine, handing it `resume_arg` at
    /// its current suspension point.
    fn resume_with(&mut self, resume_arg: Self::ResumeArg) -> (outcome: GeneratorState<
        Self::Yield,
        Self::Return,
    >)
        requires
            old(self).co_inv(),
            !old(self).co_done(),
            old(self).co_arg_ok(resume_arg),
        ensures
            final(self).co_inv(),
            Self::resume_with_rel(*old(self), resume_arg, *final(self), outcome),
            (outcome is Returned) <==> final(self).co_done(),
    ;
}

impl<C: Suspendable> Coroutine for GeneratorFn<C> {
    type Yield = C::Yield;

    type ResumeArg = C::ResumeArg;

    type Return = C::Return;

    open spec fn co_inv(&self) -> bool {
        self.gen_inv()
    }

    open spec fn co_done(&self) -> bool {
        self.gen_done()
    }

    open spec fn co_arg_ok(&self, resume_arg: C::ResumeArg) -> bool {
        self.resume_arg_ok(resume_arg)
    }

    open spec fn resume_with_rel(
        pre: Self,
        resume_arg: C::ResumeArg,
        post: Self,
        outcome: GeneratorState<C::Yield, C::Return>,
    ) -> bool {
        Self::resume_rel(pre, resume_arg, post, outcome)
    }

    fn resume_with(&mut self, resume_arg: C::ResumeArg) -> (outcome: GeneratorState<
        C::Yield,
        C::Return,
    >) {
        <Self as Generator<C::ResumeArg>>::resume(self, resume_arg)
    }
}

} // verus!
