//! The generator state machine: owns the transfer slot and, once
//! initialized, the underlying suspendable computation, and drives it through
//! the suspend/resume protocol.

use vstd::prelude::*;

use crate::generator::{gen_runs_to, Generator, GeneratorState};
use crate::suspend::{poll_once, runs_to, ItemSlot, Poll, Suspendable, TransferBox, YieldSlot};

verus! {

/// An instance of a generator: the storage shared with the generator body
/// plus, once initialized, the body itself.
///
/// Instances are created in a two-step fashion: first an
/// [`empty()`](GeneratorFn::empty) instance reserves the storage, then
/// [`init`](GeneratorFn::init) invokes a factory with a suspension handle
/// referencing that storage and attaches the computation the factory
/// returns. [`resume`](GeneratorFn::resume) then advances the computation
/// one suspension at a time.
///
/// Resuming before initialization, initializing twice, and resuming after
/// the terminal [`GeneratorState::Returned`] are contract violations, ruled
/// out by the preconditions below; they never silently misbehave.
///
/// The suspension handle is an owned capability rather than a reference into
/// the instance, so the instance holds no self-references: it needs no
/// address pinning and may be moved freely between resumptions, onto the
/// heap or to another thread.
pub struct GeneratorFn<C: Suspendable> {
    /// The storage shared with the suspension handle: the transfer slot and
    /// the handle's release flag.
    pub item_slot: ItemSlot<C::Yield, C::ResumeArg>,
    /// The underlying suspendable computation; `None` until initialized.
    pub computation: Option<C>,
}

impl<C: Suspendable> GeneratorFn<C> {
    /// Whether a computation has been attached.
    pub open spec fn is_initialized(&self) -> bool {
        self.computation is Some
    }

    /// Well-formedness between resumptions: nothing is in transit in the
    /// transfer slot, the attached computation satisfies its own invariant,
    /// and the suspension handle has been released exactly when the
    /// computation has completed.
    pub open spec fn wf(&self) -> bool {
        &&& self.item_slot.transfer_box is Empty
        &&& match self.computation {
            Some(computation) => computation.inv() && (self.item_slot.yield_slot_dropped
                <==> computation.done()),
            None => !self.item_slot.yield_slot_dropped,
        }
    }

    /// Reserves the storage for an empty generator, with no computation
    /// attached yet.
    pub fn empty() -> (generator: Self)
        ensures
            generator.wf(),
            !generator.is_initialized(),
    {
        GeneratorFn {
            item_slot: ItemSlot { transfer_box: TransferBox::Empty, yield_slot_dropped: false },
            computation: None,
        }
    }

    /// Attaches a computation to an empty generator by invoking `generator_fn`
    /// with a fresh suspension handle referencing this instance's storage,
    /// and the packed arguments.
    ///
    /// Initializing twice is a contract violation, ruled out by the
    /// precondition.
    pub fn init<Args, F: FnOnce(YieldSlot<C::Yield, C::ResumeArg>, Args) -> C>(
        &mut self,
        generator_fn: F,
        args: Args,
    )
        requires
            !old(self).is_initialized(),
            old(self).wf(),
            forall|handle: YieldSlot<C::Yield, C::ResumeArg>|
                call_requires(generator_fn, (handle, args)),
        ensures
            final(self).is_initialized(),
            final(self).item_slot == old(self).item_slot,
            final(self).computation matches Some(computation) && exists|
                handle: YieldSlot<C::Yield, C::ResumeArg>,
            | call_ensures(generator_fn, (handle, args), computation),
    {
        let handle = YieldSlot::new();
        let ghost spec_handle = handle;
        let computation = generator_fn(handle, args);
        self.computation = Some(computation);
        proof {
            assert(self.computation matches Some(attached) && call_ensures(
                generator_fn,
                (spec_handle, args),
                attached,
            ));
        }
    }

    /// Resumes the execution of this generator; an associated-method version
    /// of [`Generator::resume`].
    pub fn resume(&mut self, resume_arg: C::ResumeArg) -> (outcome: GeneratorState<
        C::Yield,
        C::Return,
    >)
        requires
            old(self).gen_inv(),
            !old(self).gen_done(),
            old(self).resume_arg_ok(resume_arg),
        ensures
            final(self).gen_inv(),
            Self::resume_rel(*old(self), resume_arg, *final(self), outcome),
            (outcome is Returned) <==> final(self).gen_done(),
    {
        <Self as Generator<C::ResumeArg>>::resume(self, resume_arg)
    }
}

impl<C: Suspendable> Generator<C::ResumeArg> for GeneratorFn<C> {
    type Yield = C::Yield;

    type Return = C::Return;

    /// The generator is well formed and has a computation attached.
    open spec fn gen_inv(&self) -> bool {
        self.wf() && self.is_initialized()
    }

    /// The generator has produced its terminal value.
    open spec fn gen_done(&self) -> bool {
        self.computation matches Some(computation) && computation.done()
    }

    /// The resume argument is acceptable to the attached computation.
    open spec fn resume_arg_ok(&self, resume_arg: C::ResumeArg) -> bool {
        self.computation matches Some(computation) && computation.arg_ok(resume_arg)
    }

    /// One resumption of the generator is one step of its computation.
    open spec fn resume_rel(
        pre: Self,
        resume_arg: C::ResumeArg,
        post: Self,
        outcome: GeneratorState<C::Yield, C::Return>,
    ) -> bool {
        &&& pre.computation matches Some(pre_computation)
        &&& post.computation matches Some(post_computation)
        &&& C::step_rel(pre_computation, resume_arg, post_computation, outcome)
    }

    /// Deposits the resume argument into the transfer slot, drives the
    /// computation one step, and hands back what came out: the yielded item
    /// picked up from the slot on a suspension, or the return value on
    /// completion.
    fn resume(&mut self, resume_arg: C::ResumeArg) -> (outcome: GeneratorState<
        C::Yield,
        C::Return,
    >) {
        self.item_slot.transfer_box = TransferBox::ResumeArg(resume_arg);
        let mut computation = match self.computation.take() {
            Some(computation) => computation,
            None => vstd::pervasive::unreached(),
        };
        let polled = poll_once(&mut computation, &mut self.item_slot);
        self.computation = Some(computation);
        match polled {
            Poll::Pending => {
                // The computation suspended: the slot now holds the item it
                // yielded.
                match TransferBox::take(&mut self.item_slot.transfer_box) {
                    TransferBox::YieldedItem(yielded_item) => GeneratorState::Yielded(yielded_item),
                    _ => vstd::pervasive::unreached(),
                }
            },
            Poll::Ready(returned) => {
                // The computation completed; its contract guarantees that it
                // surrendered the suspension handle on the way out, so the
                // handle cannot dangle.
                assert(self.item_slot.yield_slot_dropped);
                GeneratorState::Returned(returned)
            },
        }
    }
}

/// Leak-freedom law: a well-formed generator that has completed has provably
/// had its suspension handle surrendered — the contract of
/// [`Suspendable::step`] makes it impossible for a verified body to finish
/// while still holding the handle. A driver's teardown check for a dangling
/// handle can therefore never fire on a verified body; it guards only
/// against bodies written outside the verifier.
pub proof fn lemma_no_leak_on_completion<C: Suspendable>(generator: GeneratorFn<C>)
    requires
        generator.gen_inv(),
    ensures
        generator.gen_done() ==> generator.item_slot.yield_slot_dropped,
{
}

/// A run of the engine is exactly a run of its body: driving an initialized
/// [`GeneratorFn`] through a sequence of resumptions relates its attached
/// computations by the body-level run relation, with the same arguments and
/// the same outcomes. The sequencing laws stated over generator bodies
/// therefore apply unchanged to what [`Generator::resume`] hands back.
pub proof fn lemma_run_reflects_body_run<C: Suspendable>(
    pre: GeneratorFn<C>,
    steps: Seq<(C::ResumeArg, GeneratorState<C::Yield, C::Return>)>,
    post: GeneratorFn<C>,
)
    requires
        pre.is_initialized(),
        gen_runs_to(pre, steps, post),
    ensures
        pre.computation matches Some(pre_body) && post.computation matches Some(post_body)
            && runs_to(pre_body, steps, post_body),
    decreases steps.len(),
{
    if steps.len() > 0 {
        let mid = choose|mid: GeneratorFn<C>|
            #[trigger] GeneratorFn::<C>::resume_rel(pre, steps[0].0, mid, steps[0].1)
                && gen_runs_to(mid, steps.drop_first(), post);
        lemma_run_reflects_body_run(mid, steps.drop_first(), post);
        assert(C::step_rel(pre.computation->0, steps[0].0, mid.computation->0, steps[0].1));
    }
}

/// One-step instantiation of a heap-placed generator: sugar for reserving an
/// empty [`GeneratorFn`] on the heap and initializing it with the factory and
/// the packed arguments.
///
/// Heap placement is what lets the generator instance itself be returned from
/// the function that created it.
pub trait CallBoxed<Args, C: Suspendable>: Sized where
    Self: FnOnce(YieldSlot<C::Yield, C::ResumeArg>, Args) -> C,
 {
    /// Calls `self` as a generator factory, placing the instance on the heap.
    fn call_boxed(self, args: Args) -> (generator: Box<GeneratorFn<C>>)
        requires
            forall|handle: YieldSlot<C::Yield, C::ResumeArg>| call_requires(self, (handle, args)),
        ensures
            generator.is_initialized(),
            generator.item_slot.transfer_box is Empty,
            !generator.item_slot.yield_slot_dropped,
            generator.computation matches Some(computation) && exists|
                handle: YieldSlot<C::Yield, C::ResumeArg>,
            | call_ensures(self, (handle, args), computation),
    ;
}

impl<
    Args,
    C: Suspendable,
    Factory: FnOnce(YieldSlot<C::Yield, C::ResumeArg>, Args) -> C,
> CallBoxed<Args, C> for Factory {
    fn call_boxed(self, args: Args) -> (generator: Box<GeneratorFn<C>>) {
        let mut generator = GeneratorFn::empty();
        generator.init(self, args);
        Box::new(generator)
    }
}

} // verus!
