//! Ready-made generator bodies, written as explicit state machines over the
//! suspend/resume protocol: the captured locals are fields, and each
//! [`Suspendable::step`] runs from one suspension point to the next.
//!
//! These are the bodies a surface-syntax transform would produce from
//! `yield`-style generator functions; here they are written by hand, each
//! with an exact transition relation.

use vstd::prelude::*;

use crate::generator::GeneratorState;
use crate::suspend::{runs_to, ItemSlot, Poll, Suspendable, YieldSlot};

verus! {

/// A generator body that yields the numbers `current, current + 1, ...` up to
/// (excluding) `end`, then returns `()`.
pub struct RangeGen {
    /// The next number to yield.
    pub current: u8,
    /// The first number not yielded.
    pub end: u8,
    /// The suspension handle, surrendered on completion.
    pub token: Option<YieldSlot<u8, ()>>,
}

impl Suspendable for RangeGen {
    type Yield = u8;

    type ResumeArg = ();

    type Return = ();

    open spec fn inv(&self) -> bool {
        true
    }

    open spec fn done(&self) -> bool {
        self.token is None
    }

    open spec fn arg_ok(&self, resume_arg: ()) -> bool {
        true
    }

    /// Below `end`, one step yields `current` and increments it; at `end`,
    /// the body completes.
    open spec fn step_rel(
        pre: Self,
        resume_arg: (),
        post: Self,
        outcome: GeneratorState<u8, ()>,
    ) -> bool {
        if pre.current < pre.end {
            &&& outcome == GeneratorState::<u8, ()>::Yielded(pre.current)
            &&& post.current == pre.current + 1
            &&& post.end == pre.end
            &&& !post.done()
        } else {
            &&& outcome == GeneratorState::<u8, ()>::Returned(())
            &&& post.current == pre.current
            &&& post.end == pre.end
            &&& post.done()
        }
    }

    fn step(&mut self, item_slot: &mut ItemSlot<u8, ()>) -> (polled: Poll<()>) {
        let token = match self.token.take() {
            Some(token) => token,
            None => vstd::pervasive::unreached(),
        };
        let _ = token.poll_resume(item_slot);
        if self.current < self.end {
            let value: u8 = self.current;
            token.__put(item_slot, value);
            self.current = value + 1;
            self.token = Some(token);
            Poll::Pending
        } else {
            token.release(item_slot);
            Poll::Ready(())
        }
    }
}

/// The generator function for [`RangeGen`]: a factory handing the suspension
/// handle and the packed `(start, end)` arguments to a fresh body.
pub fn range(yield_slot: YieldSlot<u8, ()>, args: (u8, u8)) -> (body: RangeGen)
    ensures
        body == (RangeGen { current: args.0, end: args.1, token: Some(yield_slot) }),
{
    RangeGen { current: args.0, end: args.1, token: Some(yield_slot) }
}

/// A generator body that yields the elements of `items` from the front, one
/// per resumption, then returns `ret`.
///
/// With an empty `items` it is the empty generator: it suspends zero times
/// and returns `ret` on the very first resumption.
pub struct VecGen<T, R> {
    /// The values not yet yielded.
    pub items: Vec<T>,
    /// The value to return on completion; consumed by the final step.
    pub ret: Option<R>,
    /// The suspension handle, surrendered on completion.
    pub token: Option<YieldSlot<T, ()>>,
}

impl<T, R> Suspendable for VecGen<T, R> {
    type Yield = T;

    type ResumeArg = ();

    type Return = R;

    open spec fn inv(&self) -> bool {
        self.token is Some ==> self.ret is Some
    }

    open spec fn done(&self) -> bool {
        self.token is None
    }

    open spec fn arg_ok(&self, resume_arg: ()) -> bool {
        true
    }

    /// While items remain, one step yields the front item; once they are
    /// exhausted, the body completes with `ret`.
    open spec fn step_rel(
        pre: Self,
        resume_arg: (),
        post: Self,
        outcome: GeneratorState<T, R>,
    ) -> bool {
        if pre.items@.len() > 0 {
            &&& outcome == GeneratorState::<T, R>::Yielded(pre.items@[0])
            &&& post.items@ == pre.items@.drop_first()
            &&& post.ret == pre.ret
            &&& !post.done()
        } else {
            &&& pre.ret matches Some(ret) && outcome == GeneratorState::<T, R>::Returned(ret)
            &&& post.items@ == pre.items@
            &&& post.done()
        }
    }

    fn step(&mut self, item_slot: &mut ItemSlot<T, ()>) -> (polled: Poll<R>) {
        let token = match self.token.take() {
            Some(token) => token,
            None => vstd::pervasive::unreached(),
        };
        let _ = token.poll_resume(item_slot);
        if self.items.len() > 0 {
            let item = self.items.remove(0);
            proof {
                assert(self.items@ =~= old(self).items@.drop_first());
            }
            token.__put(item_slot, item);
            self.token = Some(token);
            Poll::Pending
        } else {
            token.release(item_slot);
            match self.ret.take() {
                Some(ret) => Poll::Ready(ret),
                None => vstd::pervasive::unreached(),
            }
        }
    }
}

/// The generator function for [`VecGen`]: a factory handing the suspension
/// handle and the packed `(items, ret)` arguments to a fresh body.
pub fn yield_vec<T, R>(yield_slot: YieldSlot<T, ()>, args: (Vec<T>, R)) -> (body: VecGen<T, R>)
    ensures
        body == (VecGen { items: args.0, ret: Some(args.1), token: Some(yield_slot) }),
{
    VecGen { items: args.0, ret: Some(args.1), token: Some(yield_slot) }
}

/// Sequencing law: a run of a [`VecGen`] holding items `v1, ..., vn` and
/// return value `r`, taken from its fresh state to completion, consists of
/// exactly `n + 1` resumptions whose outcomes are `Yielded(v1)`, ...,
/// `Yielded(vn)`, then `Returned(r)`, in that order — and, since a run never
/// steps a completed body, no further resumption is part of any run.
pub proof fn lemma_sequencing<T, R>(
    pre: VecGen<T, R>,
    steps: Seq<((), GeneratorState<T, R>)>,
    post: VecGen<T, R>,
)
    requires
        !pre.done(),
        runs_to(pre, steps, post),
        post.done(),
    ensures
        steps.len() == pre.items@.len() + 1,
        forall|i: int|
            0 <= i < pre.items@.len() ==> steps[i].1 == GeneratorState::<T, R>::Yielded(
                pre.items@[i],
            ),
        pre.ret matches Some(ret) && steps.last().1 == GeneratorState::<T, R>::Returned(ret),
    decreases steps.len(),
{
    let mid = choose|mid: VecGen<T, R>|
        #[trigger] VecGen::<T, R>::step_rel(pre, steps[0].0, mid, steps[0].1) && runs_to(
            mid,
            steps.drop_first(),
            post,
        );
    if pre.items@.len() > 0 {
        lemma_sequencing(mid, steps.drop_first(), post);
        assert forall|i: int| 0 <= i < pre.items@.len() implies steps[i].1 == GeneratorState::<
            T,
            R,
        >::Yielded(pre.items@[i]) by {
            if i > 0 {
                assert(steps.drop_first()[i - 1].1 == GeneratorState::<T, R>::Yielded(
                    mid.items@[i - 1],
                ));
            }
        }
        assert(steps.last() == steps.drop_first().last());
    } else {
        assert(steps.drop_first().len() == 0);
    }
}

/// Empty-generator law: a [`VecGen`] holding no items completes on its very
/// first resumption with `Returned(ret)`, and never yields.
pub proof fn lemma_empty_generator<T, R>(
    pre: VecGen<T, R>,
    resume_arg: (),
    post: VecGen<T, R>,
    outcome: GeneratorState<T, R>,
)
    requires
        pre.items@.len() == 0,
        VecGen::<T, R>::step_rel(pre, resume_arg, post, outcome),
    ensures
        pre.ret matches Some(ret) && outcome == GeneratorState::<T, R>::Returned(ret),
        !(outcome is Yielded),
        post.done(),
{
}

/// A generator body that accumulates each resume argument until it is handed
/// `0`: a nonzero argument is pushed onto `resume_args` and echoed back
/// (truncated to a byte) as the yielded value; `0` completes the body, which
/// returns everything accumulated.
pub struct AccumGen {
    /// The nonzero resume arguments received so far, in order.
    pub resume_args: Vec<i32>,
    /// The suspension handle, surrendered on completion.
    pub token: Option<YieldSlot<u8, i32>>,
}

impl Suspendable for AccumGen {
    type Yield = u8;

    type ResumeArg = i32;

    type Return = Vec<i32>;

    open spec fn inv(&self) -> bool {
        true
    }

    open spec fn done(&self) -> bool {
        self.token is None
    }

    open spec fn arg_ok(&self, resume_arg: i32) -> bool {
        true
    }

    /// A nonzero argument is recorded and echoed back; a zero argument
    /// completes the body with the record.
    open spec fn step_rel(
        pre: Self,
        resume_arg: i32,
        post: Self,
        outcome: GeneratorState<u8, Vec<i32>>,
    ) -> bool {
        if resume_arg != 0 {
            &&& outcome == GeneratorState::<u8, Vec<i32>>::Yielded(resume_arg as u8)
            &&& post.resume_args@ == pre.resume_args@.push(resume_arg)
            &&& !post.done()
        } else {
            &&& outcome matches GeneratorState::Returned(ret) && ret@ == pre.resume_args@
            &&& post.done()
        }
    }

    fn step(&mut self, item_slot: &mut ItemSlot<u8, i32>) -> (polled: Poll<Vec<i32>>) {
        let token = match self.token.take() {
            Some(token) => token,
            None => vstd::pervasive::unreached(),
        };
        let resume_arg: i32 = match token.poll_resume(item_slot) {
            Some(resume_arg) => resume_arg,
            None => vstd::pervasive::unreached(),
        };
        if resume_arg != 0 {
            self.resume_args.push(resume_arg);
            token.__put(item_slot, #[verifier::truncate] (resume_arg as u8));
            self.token = Some(token);
            Poll::Pending
        } else {
            token.release(item_slot);
            let mut collected: Vec<i32> = Vec::new();
            core::mem::swap(&mut collected, &mut self.resume_args);
            Poll::Ready(collected)
        }
    }
}

/// Resume-argument threading law: driving an [`AccumGen`] with nonzero
/// arguments followed by a final `0`, every intermediate resumption reports
/// `Yielded` of exactly the argument just supplied, and the final resumption
/// returns everything accumulated so far followed by the supplied arguments,
/// in order.
pub proof fn lemma_resume_threading(
    pre: AccumGen,
    steps: Seq<(i32, GeneratorState<u8, Vec<i32>>)>,
    post: AccumGen,
)
    requires
        !pre.done(),
        runs_to(pre, steps, post),
        post.done(),
        forall|i: int| 0 <= i < steps.len() - 1 ==> steps[i].0 != 0,
    ensures
        steps.len() >= 1,
        steps.last().0 == 0,
        forall|i: int|
            0 <= i < steps.len() - 1 ==> steps[i].1 == GeneratorState::<u8, Vec<i32>>::Yielded(
                steps[i].0 as u8,
            ),
        steps.last().1 matches GeneratorState::Returned(ret) && ret@ == pre.resume_args@
            + Seq::new((steps.len() - 1) as nat, |i: int| steps[i].0),
    decreases steps.len(),
{
    let mid = choose|mid: AccumGen|
        #[trigger] AccumGen::step_rel(pre, steps[0].0, mid, steps[0].1) && runs_to(
            mid,
            steps.drop_first(),
            post,
        );
    if steps.len() == 1 {
        // A nonzero argument would have left the body suspended, contradicting
        // completion; so the only resumption is the final zero.
        assert(steps[0].0 == 0);
        assert(steps.last().1 matches GeneratorState::Returned(ret) && ret@ == pre.resume_args@
            + Seq::new(0, |i: int| steps[i].0)) by {
            assert(pre.resume_args@ + Seq::new(0, |i: int| steps[i].0) =~= pre.resume_args@);
        }
    } else {
        assert(steps[0].0 != 0);
        lemma_resume_threading(mid, steps.drop_first(), post);
        let tail = steps.drop_first();
        assert(steps.last() == tail.last());
        assert forall|i: int| 0 <= i < steps.len() - 1 implies steps[i].1 == GeneratorState::<
            u8,
            Vec<i32>,
        >::Yielded(steps[i].0 as u8) by {
            if i > 0 {
                assert(tail[i - 1].1 == GeneratorState::<u8, Vec<i32>>::Yielded(tail[i - 1].0 as u8));
            }
        }
        assert(steps.last().1 matches GeneratorState::Returned(ret) && ret@ == pre.resume_args@
            + Seq::new((steps.len() - 1) as nat, |i: int| steps[i].0)) by {
            assert(tail.last().1 matches GeneratorState::Returned(ret) && ret@ == mid.resume_args@
                + Seq::new((tail.len() - 1) as nat, |i: int| tail[i].0));
            assert(mid.resume_args@ + Seq::new((tail.len() - 1) as nat, |i: int| tail[i].0)
                =~= pre.resume_args@ + Seq::new((steps.len() - 1) as nat, |i: int| steps[i].0));
        }
    }
}

/// The generator function for [`AccumGen`]: a factory handing the suspension
/// handle (and no arguments) to a fresh body.
pub fn accumulate(yield_slot: YieldSlot<u8, i32>, args: ()) -> (body: AccumGen)
    ensures
        body.resume_args@ == Seq::<i32>::empty(),
        body.token == Some(yield_slot),
{
    AccumGen { resume_args: Vec::new(), token: Some(yield_slot) }
}

/// An adaptor body that yields, in order, the elements of `src` on which
/// `predicate` answers `true`, then returns `()`.
#[verifier::reject_recursive_types(T)]
pub struct FilterGen<T: Copy, P: Fn(T) -> bool> {
    /// The elements not yet examined, front first.
    pub src: Vec<T>,
    /// Decides which elements are passed through.
    pub predicate: P,
    /// The suspension handle, surrendered on completion.
    pub token: Option<YieldSlot<T, ()>>,
}

impl<T: Copy, P: Fn(T) -> bool> Suspendable for FilterGen<T, P> {
    type Yield = T;

    type ResumeArg = ();

    type Return = ();

    /// The predicate must be callable on every element.
    open spec fn inv(&self) -> bool {
        forall|x: T| call_requires(self.predicate, (x,))
    }

    open spec fn done(&self) -> bool {
        self.token is None
    }

    open spec fn arg_ok(&self, resume_arg: ()) -> bool {
        true
    }

    /// One step examines a prefix of the remaining elements, on each of which
    /// the predicate answered `false`. If an element then answered `true`, it
    /// is yielded and everything up to and including it is consumed;
    /// otherwise the whole remainder answered `false` and the body completes.
    open spec fn step_rel(
        pre: Self,
        resume_arg: (),
        post: Self,
        outcome: GeneratorState<T, ()>,
    ) -> bool {
        &&& post.predicate == pre.predicate
        &&& match outcome {
            GeneratorState::Yielded(item) => {
                let examined = pre.src@.len() - post.src@.len() - 1;
                &&& 0 <= examined < pre.src@.len()
                &&& item == pre.src@[examined]
                &&& post.src@ == pre.src@.subrange(examined + 1, pre.src@.len() as int)
                &&& forall|j: int|
                    0 <= j < examined ==> #[trigger] call_ensures(
                        pre.predicate,
                        (pre.src@[j],),
                        false,
                    )
                &&& call_ensures(pre.predicate, (item,), true)
                &&& !post.done()
            },
            GeneratorState::Returned(unit) => {
                &&& forall|j: int|
                    0 <= j < pre.src@.len() ==> #[trigger] call_ensures(
                        pre.predicate,
                        (pre.src@[j],),
                        false,
                    )
                &&& post.src@.len() == 0
                &&& post.done()
            },
        }
    }

    fn step(&mut self, item_slot: &mut ItemSlot<T, ()>) -> (polled: Poll<()>) {
        let token = match self.token.take() {
            Some(token) => token,
            None => vstd::pervasive::unreached(),
        };
        let _ = token.poll_resume(item_slot);
        let ghost mut examined: int = 0;
        loop
            invariant
                0 <= examined <= old(self).src@.len(),
                self.src@ == old(self).src@.subrange(examined, old(self).src@.len() as int),
                forall|j: int|
                    0 <= j < examined ==> #[trigger] call_ensures(
                        old(self).predicate,
                        (old(self).src@[j],),
                        false,
                    ),
                self.predicate == old(self).predicate,
                self.token is None,
                forall|x: T| call_requires(self.predicate, (x,)),
                item_slot.transfer_box is Empty,
                item_slot.yield_slot_dropped == old(item_slot).yield_slot_dropped,
                !item_slot.yield_slot_dropped,
            decreases self.src@.len(),
        {
            if self.src.len() == 0 {
                token.release(item_slot);
                proof {
                    assert(old(self).src@.subrange(examined, old(self).src@.len() as int).len()
                        == 0);
                    assert(Self::step_rel(
                        *old(self),
                        (),
                        *self,
                        GeneratorState::<T, ()>::Returned(()),
                    ));
                }
                return Poll::Ready(());
            }
            let item: T = self.src.remove(0);
            proof {
                assert(item == old(self).src@[examined]);
                assert(self.src@ =~= old(self).src@.subrange(
                    examined + 1,
                    old(self).src@.len() as int,
                ));
            }
            if (self.predicate)(item) {
                token.__put(item_slot, item);
                self.token = Some(token);
                proof {
                    assert(Self::step_rel(
                        *old(self),
                        (),
                        *self,
                        GeneratorState::<T, ()>::Yielded(item),
                    ));
                }
                return Poll::Pending;
            }
            proof {
                examined = examined + 1;
            }
        }
    }
}

/// The generator function for [`FilterGen`]: a factory handing the
/// suspension handle and the packed `(predicate, elements)` arguments to a
/// fresh body.
pub fn filter<T: Copy, P: Fn(T) -> bool>(yield_slot: YieldSlot<T, ()>, args: (P, Vec<T>)) -> (body:
    FilterGen<T, P>)
    ensures
        body == (FilterGen { src: args.1, predicate: args.0, token: Some(yield_slot) }),
{
    FilterGen { src: args.1, predicate: args.0, token: Some(yield_slot) }
}

/// An adaptor body that yields `func` applied to each element of `src`, in
/// order, then returns `()`.
#[verifier::reject_recursive_types(T)]
#[verifier::reject_recursive_types(U)]
pub struct MapGen<T: Copy, U, F: Fn(T) -> U> {
    /// The elements not yet mapped, front first.
    pub src: Vec<T>,
    /// Applied to each element before it is yielded.
    pub func: F,
    /// The suspension handle, surrendered on completion.
    pub token: Option<YieldSlot<U, ()>>,
}

impl<T: Copy, U, F: Fn(T) -> U> Suspendable for MapGen<T, U, F> {
    type Yield = U;

    type ResumeArg = ();

    type Return = ();

    /// The function must be callable on every element.
    open spec fn inv(&self) -> bool {
        forall|x: T| call_requires(self.func, (x,))
    }

    open spec fn done(&self) -> bool {
        self.token is None
    }

    open spec fn arg_ok(&self, resume_arg: ()) -> bool {
        true
    }

    /// While elements remain, one step yields an image of the front element
    /// under `func`; once they are exhausted, the body completes.
    open spec fn step_rel(
        pre: Self,
        resume_arg: (),
        post: Self,
        outcome: GeneratorState<U, ()>,
    ) -> bool {
        if pre.src@.len() > 0 {
            &&& outcome matches GeneratorState::Yielded(image) && call_ensures(
                pre.func,
                (pre.src@[0],),
                image,
            )
            &&& post.src@ == pre.src@.drop_first()
            &&& post.func == pre.func
            &&& !post.done()
        } else {
            &&& outcome == GeneratorState::<U, ()>::Returned(())
            &&& post.src@ == pre.src@
            &&& post.done()
        }
    }

    fn step(&mut self, item_slot: &mut ItemSlot<U, ()>) -> (polled: Poll<()>) {
        let token = match self.token.take() {
            Some(token) => token,
            None => vstd::pervasive::unreached(),
        };
        let _ = token.poll_resume(item_slot);
        if self.src.len() > 0 {
            let item: T = self.src.remove(0);
            proof {
                assert(self.src@ =~= old(self).src@.drop_first());
            }
            let image: U = (self.func)(item);
            token.__put(item_slot, image);
            self.token = Some(token);
            Poll::Pending
        } else {
            token.release(item_slot);
            Poll::Ready(())
        }
    }
}

/// The generator function for [`MapGen`]: a factory handing the suspension
/// handle and the packed `(func, elements)` arguments to a fresh body.
pub fn map<T: Copy, U, F: Fn(T) -> U>(yield_slot: YieldSlot<U, ()>, args: (F, Vec<T>)) -> (body:
    MapGen<T, U, F>)
    ensures
        body == (MapGen { src: args.1, func: args.0, token: Some(yield_slot) }),
{
    MapGen { src: args.1, func: args.0, token: Some(yield_slot) }
}

} // verus!
