//! The suspend/resume protocol: the three-way transfer slot shared between a
//! generator body and its driver, the suspension handle given to generator
//! bodies, and the trait implemented by suspendable computations.
//!
//! The same physical slot is reused for both directions of traffic, so it is
//! a three-way discriminated union rather than a pair of cells: at any
//! instant it holds a yielded item, a resume argument, or nothing. Yields and
//! resumptions never overlap in time, which the contracts below enforce.

use vstd::prelude::*;

use crate::generator::GeneratorState;

verus! {

/// The result of driving a suspendable computation one step: it either
/// suspended (after depositing a yielded item in the slot) or completed with
/// its return value.
pub enum Poll<Return> {
    /// The computation suspended at a yield point.
    Pending,
    /// The computation ran to completion.
    Ready(Return),
}

/// The three-way transfer slot: a yielded item travelling out, a resume
/// argument travelling in, or nothing.
pub enum TransferBox<YieldedItem, ResumeArg> {
    /// The generator body has deposited a value for the driver.
    YieldedItem(YieldedItem),
    /// The driver has deposited a value for the generator body.
    ResumeArg(ResumeArg),
    /// Nothing is in transit.
    Empty,
}

impl<YieldedItem, ResumeArg> TransferBox<YieldedItem, ResumeArg> {
    /// Empties the slot, returning its previous contents.
    pub fn take(this: &mut TransferBox<YieldedItem, ResumeArg>) -> (prev: TransferBox<
        YieldedItem,
        ResumeArg,
    >)
        ensures
            prev == *old(this),
            *final(this) is Empty,
    {
        let mut out = TransferBox::Empty;
        core::mem::swap(this, &mut out);
        out
    }
}

/// The storage shared between a generator state machine and the suspension
/// handle it hands to its body: the transfer slot, plus the flag recording
/// that the handle has been released.
///
/// The fields are an implementation detail of the protocol; code outside this
/// crate should only ever reach them through [`YieldSlot`] and the generator
/// state machine.
pub struct ItemSlot<YieldedItem, ResumeArg> {
    /// The value currently in transit, if any.
    pub transfer_box: TransferBox<YieldedItem, ResumeArg>,
    /// Set once the suspension handle derived from this slot has been
    /// surrendered. A computation that completes without surrendering its
    /// handle has let the handle escape; the driver must treat that as fatal.
    pub yield_slot_dropped: bool,
}

/// The suspension handle ("yield slot") passed into a generator body: the
/// capability to deposit yielded items into, and drain resume arguments from,
/// the [`ItemSlot`] of the generator that created it.
///
/// The handle must never outlive the generator state machine it was created
/// for: a body surrenders it through [`YieldSlot::release`] when it
/// completes, which sets the slot's release flag. The contracts of
/// [`Suspendable::step`] make a verified body incapable of leaking the
/// handle; an unverified body that does leak it leaves the flag unset, which
/// a driver can observe and must treat as fatal.
pub struct YieldSlot<YieldedItem, ResumeArg> {
    _items: core::marker::PhantomData<YieldedItem>,
    _resume_args: core::marker::PhantomData<ResumeArg>,
}

impl<YieldedItem, ResumeArg> YieldSlot<YieldedItem, ResumeArg> {
    /// Creates the handle for a generator being initialized. Only generator
    /// state machines should call this; bodies receive the handle from their
    /// factory.
    pub fn new() -> (slot: Self) {
        YieldSlot { _items: core::marker::PhantomData, _resume_args: core::marker::PhantomData }
    }

    /// Deposits a yielded item into the slot. The slot must have been drained
    /// first: a yield never overwrites a value still in transit.
    ///
    /// This is the low-level suspend operation: after calling it, the body
    /// reports [`Poll::Pending`] from its current step, and the driver picks
    /// the item up.
    pub fn __put(&self, item_slot: &mut ItemSlot<YieldedItem, ResumeArg>, yielded_item: YieldedItem)
        requires
            old(item_slot).transfer_box is Empty,
        ensures
            final(item_slot).transfer_box == TransferBox::<YieldedItem, ResumeArg>::YieldedItem(
                yielded_item,
            ),
            final(item_slot).yield_slot_dropped == old(item_slot).yield_slot_dropped,
    {
        item_slot.transfer_box = TransferBox::YieldedItem(yielded_item);
    }

    /// Checks whether the driver has drained the previously yielded item and
    /// refilled the slot with a resume argument.
    ///
    /// Returns `Some` with the resume argument (draining it) once the driver
    /// has deposited one; returns `None`, leaving the slot untouched, while
    /// the previously yielded item is still in transit. Polling an empty slot
    /// is a protocol violation and is ruled out by the precondition.
    pub fn poll_resume(&self, item_slot: &mut ItemSlot<YieldedItem, ResumeArg>) -> (resumed: Option<
        ResumeArg,
    >)
        requires
            !(old(item_slot).transfer_box is Empty),
        ensures
            final(item_slot).yield_slot_dropped == old(item_slot).yield_slot_dropped,
            match resumed {
                Some(resume_arg) => old(item_slot).transfer_box == TransferBox::<
                    YieldedItem,
                    ResumeArg,
                >::ResumeArg(resume_arg) && final(item_slot).transfer_box is Empty,
                None => old(item_slot).transfer_box is YieldedItem && *final(item_slot) == *old(
                    item_slot,
                ),
            },
    {
        match TransferBox::take(&mut item_slot.transfer_box) {
            TransferBox::YieldedItem(yielded_item) => {
                // Still suspended: put the item back for the driver.
                item_slot.transfer_box = TransferBox::YieldedItem(yielded_item);
                None
            },
            TransferBox::ResumeArg(resume_arg) => Some(resume_arg),
            TransferBox::Empty => vstd::pervasive::unreached(),
        }
    }

    /// Takes the resume argument supplied by the very first resumption off
    /// the slot, before the body has yielded anything.
    pub fn __take_initial_arg(&self, item_slot: &mut ItemSlot<YieldedItem, ResumeArg>) -> (arg:
        ResumeArg)
        requires
            old(item_slot).transfer_box is ResumeArg,
        ensures
            old(item_slot).transfer_box == TransferBox::<YieldedItem, ResumeArg>::ResumeArg(arg),
            final(item_slot).transfer_box is Empty,
            final(item_slot).yield_slot_dropped == old(item_slot).yield_slot_dropped,
    {
        match TransferBox::take(&mut item_slot.transfer_box) {
            TransferBox::ResumeArg(resume_arg) => resume_arg,
            _ => vstd::pervasive::unreached(),
        }
    }

    /// Surrenders the handle, marking it released in the slot it belongs to.
    ///
    /// A body must call this exactly when it completes; the release flag is
    /// what lets the generator's teardown tell an orderly completion from a
    /// handle that escaped the body.
    pub fn release(self, item_slot: &mut ItemSlot<YieldedItem, ResumeArg>)
        ensures
            final(item_slot).transfer_box == old(item_slot).transfer_box,
            final(item_slot).yield_slot_dropped,
    {
        item_slot.yield_slot_dropped = true;
    }
}

/// A suspendable computation: a generator body written as an explicit state
/// machine, holding its locals as fields and communicating with its driver
/// through the [`ItemSlot`] it is stepped with.
///
/// Each implementation describes its own abstract behaviour through the spec
/// functions of this trait, in the same style as
/// [`Generator`](crate::generator::Generator):
///
/// - [`inv`](Suspendable::inv) is the well-formedness invariant of the
///   captured state;
/// - [`done`](Suspendable::done) holds exactly once the computation has
///   completed; stepping a completed computation is a contract violation;
/// - [`arg_ok`](Suspendable::arg_ok) restricts which resume arguments the
///   computation accepts in its current state;
/// - [`step_rel`](Suspendable::step_rel) is the transition relation of one
///   step.
///
/// The contract of [`step`](Suspendable::step) is the suspend/resume
/// protocol itself. On entry the slot holds the resume argument the driver
/// deposited. If the computation suspends, the slot holds the yielded item
/// on exit; if it completes, the slot is empty and the suspension handle has
/// been released. In particular a verified computation cannot complete while
/// still holding its handle, which is what makes the handle unable to
/// dangle.
pub trait Suspendable: Sized {
    /// The type of value this computation yields at each suspension.
    type Yield;

    /// The type of resume argument this computation receives.
    type ResumeArg;

    /// The type of value this computation returns on completion.
    type Return;

    /// Well-formedness of the computation's captured state.
    spec fn inv(&self) -> bool;

    /// Whether the computation has already completed.
    spec fn done(&self) -> bool;

    /// Which resume arguments the computation accepts in its current state.
    spec fn arg_ok(&self, resume_arg: Self::ResumeArg) -> bool;

    /// The transition relation of one step.
    spec fn step_rel(
        pre: Self,
        resume_arg: Self::ResumeArg,
        post: Self,
        outcome: GeneratorState<Self::Yield, Self::Return>,
    ) -> bool;

    /// Runs the computation from its current suspension point until it either
    /// deposits a yielded item into the slot and suspends, or completes.
    fn step(&mut self, item_slot: &mut ItemSlot<Self::Yield, Self::ResumeArg>) -> (polled: Poll<
        Self::Return,
    >)
        requires
            old(self).inv(),
            !old(self).done(),
            !old(item_slot).yield_slot_dropped,
            old(item_slot).transfer_box matches TransferBox::ResumeArg(resume_arg) && old(
                self,
            ).arg_ok(resume_arg),
        ensures
            final(self).inv(),
            old(item_slot).transfer_box matches TransferBox::ResumeArg(resume_arg) ==> match polled {
                Poll::Pending => {
                    &&& !final(self).done()
                    &&& !final(item_slot).yield_slot_dropped
                    &&& final(item_slot).transfer_box matches TransferBox::YieldedItem(yielded_item)
                        && Self::step_rel(
                        *old(self),
                        resume_arg,
                        *final(self),
                        GeneratorState::Yielded(yielded_item),
                    )
                },
                Poll::Ready(returned) => {
                    &&& final(self).done()
                    &&& final(item_slot).yield_slot_dropped
                    &&& final(item_slot).transfer_box is Empty
                    &&& Self::step_rel(
                        *old(self),
                        resume_arg,
                        *final(self),
                        GeneratorState::Returned(returned),
                    )
                },
            },
    ;
}

/// A complete run fragment of a suspendable computation: starting from
/// `pre`, the resumptions listed in `steps` — each a resume argument paired
/// with the outcome it produced — are related one by one by the body's
/// transition relation, never stepping a completed computation, and end at
/// `post`.
pub open spec fn runs_to<C: Suspendable>(
    pre: C,
    steps: Seq<(C::ResumeArg, GeneratorState<C::Yield, C::Return>)>,
    post: C,
) -> bool
    decreases steps.len(),
{
    if steps.len() == 0 {
        post == pre
    } else {
        &&& !pre.done()
        &&& exists|mid: C|
            #[trigger] C::step_rel(pre, steps[0].0, mid, steps[0].1) && runs_to(
                mid,
                steps.drop_first(),
                post,
            )
    }
}

/// The single-step driver primitive: synchronously runs one step of a
/// suspendable computation on the caller's thread, with no scheduling of any
/// kind. The only "not ready" outcome is the intentional suspension of the
/// protocol above.
pub fn poll_once<C: Suspendable>(
    computation: &mut C,
    item_slot: &mut ItemSlot<C::Yield, C::ResumeArg>,
) -> (polled: Poll<C::Return>)
    requires
        old(computation).inv(),
        !old(computation).done(),
        !old(item_slot).yield_slot_dropped,
        old(item_slot).transfer_box matches TransferBox::ResumeArg(resume_arg) && old(
            computation,
        ).arg_ok(resume_arg),
    ensures
        final(computation).inv(),
        old(item_slot).transfer_box matches TransferBox::ResumeArg(resume_arg) ==> match polled {
            Poll::Pending => {
                &&& !final(computation).done()
                &&& !final(item_slot).yield_slot_dropped
                &&& final(item_slot).transfer_box matches TransferBox::YieldedItem(yielded_item)
                    && C::step_rel(
                    *old(computation),
                    resume_arg,
                    *final(computation),
                    GeneratorState::Yielded(yielded_item),
                )
            },
            Poll::Ready(returned) => {
                &&& final(computation).done()
                &&& final(item_slot).yield_slot_dropped
                &&& final(item_slot).transfer_box is Empty
                &&& C::step_rel(
                    *old(computation),
                    resume_arg,
                    *final(computation),
                    GeneratorState::Returned(returned),
                )
            },
        },
{
    computation.step(item_slot)
}

} // verus!
