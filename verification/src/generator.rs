//! The driver-facing generator interface: the outcome of one resumption
//! ([`GeneratorState`]) and the [`Generator`] trait implemented by resumable
//! state machines.

use vstd::prelude::*;

use crate::iter::IterPin;

verus! {

/// Value obtained when resuming a generator: either a suspension point with a
/// yielded value, or a termination point with the final return value.
#[derive(Debug, Clone, Copy, PartialEq, Eq, PartialOrd, Ord, Hash)]
pub enum GeneratorState<Yield, Return = ()> {
    /// The generator suspended with a value.
    Yielded(Yield),

    /// The generator completed with a return value. Once this has been
    /// produced, resuming the generator again is a contract violation.
    Returned(Return),
}

/// A resumable state machine driven by `resume`.
///
/// Each implementation describes its own abstract behaviour through the spec
/// functions of this trait:
///
/// - [`gen_inv`](Generator::gen_inv) is the well-formedness invariant that
///   `resume` preserves;
/// - [`gen_done`](Generator::gen_done) holds exactly once the generator has
///   produced [`GeneratorState::Returned`]; resuming a done generator is a
///   contract violation, ruled out by `resume`'s precondition;
/// - [`resume_arg_ok`](Generator::resume_arg_ok) restricts which resume
///   arguments the generator accepts in its current state;
/// - [`resume_rel`](Generator::resume_rel) is the transition relation tying
///   the state before a resumption, the resume argument, the state after, and
///   the outcome together.
pub trait Generator<ResumeArg>: Sized {
    /// The type of value this generator yields at each suspension.
    type Yield;

    /// The type of value this generator returns on completion.
    type Return;

    /// Well-formedness of the generator's state.
    spec fn gen_inv(&self) -> bool;

    /// Whether the generator has already returned its terminal value.
    spec fn gen_done(&self) -> bool;

    /// Which resume arguments the generator accepts in its current state.
    spec fn resume_arg_ok(&self, resume_arg: ResumeArg) -> bool;

    /// The transition relation of one resumption.
    spec fn resume_rel(
        pre: Self,
        resume_arg: ResumeArg,
        post: Self,
        outcome: GeneratorState<Self::Yield, Self::Return>,
    ) -> bool;

    /// Resumes the execution of this generator.
    ///
    /// The generator runs until it either suspends with a yielded value or
    /// completes with a return value; one of the two happens before the call
    /// returns.
    fn resume(&mut self, resume_arg: ResumeArg) -> (outcome: GeneratorState<
        Self::Yield,
        Self::Return,
    >)
        requires
            old(self).gen_inv(),
            !old(self).gen_done(),
            old(self).resume_arg_ok(resume_arg),
        ensures
            final(self).gen_inv(),
            Self::resume_rel(*old(self), resume_arg, *final(self), outcome),
            (outcome is Returned) <==> final(self).gen_done(),
    ;
}

/// A complete run fragment of a generator: starting from `pre`, the
/// resumptions listed in `steps` — each a resume argument paired with the
/// outcome it produced — are related one by one by the generator's transition
/// relation, never resuming a completed generator, and end at `post`.
pub open spec fn gen_runs_to<ResumeArg, G: Generator<ResumeArg>>(
    pre: G,
    steps: Seq<(ResumeArg, GeneratorState<G::Yield, G::Return>)>,
    post: G,
) -> bool
    decreases steps.len(),
{
    if steps.len() == 0 {
        post == pre
    } else {
        &&& !pre.gen_done()
        &&& exists|mid: G|
            #[trigger] G::resume_rel(pre, steps[0].0, mid, steps[0].1) && gen_runs_to(
                mid,
                steps.drop_first(),
                post,
            )
    }
}

/// A generator behind a heap placement is driven through the placement.
impl<ResumeArg, G: Generator<ResumeArg>> Generator<ResumeArg> for Box<G> {
    type Yield = G::Yield;

    type Return = G::Return;

    open spec fn gen_inv(&self) -> bool {
        (**self).gen_inv()
    }

    open spec fn gen_done(&self) -> bool {
        (**self).gen_done()
    }

    open spec fn resume_arg_ok(&self, resume_arg: ResumeArg) -> bool {
        (**self).resume_arg_ok(resume_arg)
    }

    open spec fn resume_rel(
        pre: Self,
        resume_arg: ResumeArg,
        post: Self,
        outcome: GeneratorState<G::Yield, G::Return>,
    ) -> bool {
        G::resume_rel(*pre, resume_arg, *post, outcome)
    }

    fn resume(&mut self, resume_arg: ResumeArg) -> (outcome: GeneratorState<
        G::Yield,
        G::Return,
    >) {
        (&mut **self).resume(resume_arg)
    }
}

/// Extension trait with convenience methods available on every [`Generator`].
pub trait GeneratorExt<ResumeArg>: Generator<ResumeArg> {
    /// Resumes the generator; an alias for [`Generator::resume`] kept for
    /// callers that hold the generator directly rather than behind a
    /// placement.
    fn resume_unpin(&mut self, resume_arg: ResumeArg) -> (outcome: GeneratorState<
        Self::Yield,
        Self::Return,
    >)
        requires
            old(self).gen_inv(),
            !old(self).gen_done(),
            old(self).resume_arg_ok(resume_arg),
        ensures
            final(self).gen_inv(),
            Self::resume_rel(*old(self), resume_arg, *final(self), outcome),
            (outcome is Returned) <==> final(self).gen_done(),
    {
        self.resume(resume_arg)
    }

    /// Converts a generator with unit resume arguments into its iteration
    /// view.
    fn gen_into_iter(self) -> (it: IterPin<Self>) where Self: Generator<()>
        ensures
            it.0 == self,
    {
        IterPin(self)
    }

    /// Converts a heap-placed generator with unit resume arguments into its
    /// iteration view.
    fn boxed_gen_into_iter(self: Box<Self>) -> (it: IterPin<Box<Self>>) where Self: Generator<()>
        ensures
            it.0 == self,
    {
        IterPin(self)
    }
}

impl<ResumeArg, G: Generator<ResumeArg>> GeneratorExt<ResumeArg> for G {

}

} // verus!
