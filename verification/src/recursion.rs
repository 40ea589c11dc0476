//! The recursion-via-suspension pattern: unbounded native call-stack
//! recursion replaced by an explicit, heap-backed stack of suspended
//! generator instances.
//!
//! A recursive computation can be seen as a suspendable one: where it would
//! recurse, it suspends and yields the smaller argument, asking its driver to
//! compute that sub-problem. The driver keeps the suspended frames on an
//! explicit stack; when the innermost frame returns instead of yielding, the
//! driver feeds that result to the most recently suspended frame, resuming
//! it. The recursion depth is then bounded by available heap memory, not by
//! native stack size.
//!
//! The pattern is shown on triangular numbers, whose recursion is one
//! self-call deep per frame.

use vstd::prelude::*;

use crate::generator::{Generator, GeneratorState};
use crate::generator_fn::GeneratorFn;
use crate::suspend::{ItemSlot, Poll, Suspendable, YieldSlot};

verus! {

/// The n-th triangular number `0 + 1 + ... + n`.
pub open spec fn triangular_number(n: nat) -> nat
    decreases n,
{
    if n == 0 {
        0
    } else {
        n + triangular_number((n - 1) as nat)
    }
}

/// Triangular numbers grow monotonically with their index.
pub proof fn lemma_triangular_number_monotone(smaller: nat, larger: nat)
    requires
        smaller <= larger,
    ensures
        triangular_number(smaller) <= triangular_number(larger),
    decreases larger,
{
    if smaller < larger {
        lemma_triangular_number_monotone(smaller, (larger - 1) as nat);
    }
}

/// The closed form of the triangular numbers: twice the n-th triangular
/// number is `n * (n + 1)`.
pub proof fn lemma_triangular_number_closed_form(n: nat)
    ensures
        2 * triangular_number(n) == n * (n + 1),
    decreases n,
{
    if n > 0 {
        let smaller = (n - 1) as nat;
        lemma_triangular_number_closed_form(smaller);
        assert(2 * triangular_number(n) == 2 * n + smaller * (smaller + 1));
        assert(2 * n + smaller * (smaller + 1) == n * (n + 1)) by (nonlinear_arith)
            requires
                smaller == n - 1,
                n >= 1,
        ;
    } else {
        assert(n * (n + 1) == 0) by (nonlinear_arith)
            requires
                n == 0,
        ;
    }
}

/// One frame of the recursion: a generator body that computes the `n`-th
/// triangular number by suspending once to request the `(n - 1)`-th from its
/// driver (unless `n` is zero) and adding `n` to the result it is resumed
/// with.
pub struct TriangularGen {
    /// The argument of this frame.
    pub n: u64,
    /// Whether the frame has already yielded its sub-request.
    pub started: bool,
    /// The suspension handle, surrendered on completion.
    pub token: Option<YieldSlot<u64, u64>>,
}

impl Suspendable for TriangularGen {
    type Yield = u64;

    type ResumeArg = u64;

    type Return = u64;

    open spec fn inv(&self) -> bool {
        self.started ==> self.n > 0
    }

    open spec fn done(&self) -> bool {
        self.token is None
    }

    /// Once suspended, the frame adds its argument to the resume argument, so
    /// the sum must fit.
    open spec fn arg_ok(&self, resume_arg: u64) -> bool {
        self.started ==> self.n + resume_arg <= u64::MAX
    }

    /// A fresh frame with `n == 0` completes at once with `0`; a fresh frame
    /// with positive `n` yields the sub-request `n - 1`; a resumed frame
    /// completes with `n` plus the sub-result it was handed.
    open spec fn step_rel(
        pre: Self,
        resume_arg: u64,
        post: Self,
        outcome: GeneratorState<u64, u64>,
    ) -> bool {
        if !pre.started {
            if pre.n == 0 {
                &&& outcome == GeneratorState::<u64, u64>::Returned(0u64)
                &&& post.done()
            } else {
                &&& outcome == GeneratorState::<u64, u64>::Yielded((pre.n - 1) as u64)
                &&& post.n == pre.n
                &&& post.started
                &&& !post.done()
            }
        } else {
            &&& outcome == GeneratorState::<u64, u64>::Returned((pre.n + resume_arg) as u64)
            &&& post.done()
        }
    }

    fn step(&mut self, item_slot: &mut ItemSlot<u64, u64>) -> (polled: Poll<u64>) {
        let token = match self.token.take() {
            Some(token) => token,
            None => vstd::pervasive::unreached(),
        };
        if !self.started {
            let _ = token.__take_initial_arg(item_slot);
            if self.n == 0 {
                token.release(item_slot);
                Poll::Ready(0)
            } else {
                token.__put(item_slot, self.n - 1);
                self.started = true;
                self.token = Some(token);
                Poll::Pending
            }
        } else {
            let sub_result: u64 = match token.poll_resume(item_slot) {
                Some(sub_result) => sub_result,
                None => vstd::pervasive::unreached(),
            };
            token.release(item_slot);
            Poll::Ready(self.n + sub_result)
        }
    }
}

/// The generator function for [`TriangularGen`]: a factory handing the
/// suspension handle and the packed `(n,)` argument to a fresh frame.
pub fn triangular_frame(yield_slot: YieldSlot<u64, u64>, args: (u64,)) -> (body: TriangularGen)
    ensures
        body == (TriangularGen { n: args.0, started: false, token: Some(yield_slot) }),
{
    TriangularGen { n: args.0, started: false, token: Some(yield_slot) }
}

/// How many more resumptions a frame will take before completing, counting
/// the whole sub-recursion a fresh frame still has to spawn; the driver loop
/// terminates because this, plus the number of suspended frames, shrinks at
/// every resumption.
pub open spec fn frame_measure(generator: GeneratorFn<TriangularGen>) -> int {
    match generator.computation {
        Some(frame) => if frame.started {
            1int
        } else {
            2 * (frame.n as int) + 1
        },
        None => 0int,
    }
}

/// Computes the `n`-th triangular number with the recursion-via-suspension
/// pattern: each recursive call becomes a fresh, heap-placed generator frame,
/// and the suspended callers wait on an explicit stack.
pub fn triangular(n: u64) -> (result: u64)
    requires
        triangular_number(n as nat) <= u64::MAX,
    ensures
        result as nat == triangular_number(n as nat),
{
    let mut suspended: Vec<GeneratorFn<TriangularGen>> = Vec::new();
    let mut current: GeneratorFn<TriangularGen> = GeneratorFn::empty();
    current.init(triangular_frame, (n,));
    let mut carried: u64 = 0;
    loop
        invariant
            triangular_number(n as nat) <= u64::MAX,
            current.gen_inv(),
            !current.gen_done(),
            current.computation matches Some(frame) && {
                &&& frame.n + suspended@.len() == n
                &&& (frame.started ==> carried as nat == triangular_number((frame.n - 1) as nat))
            },
            forall|i: int|
                0 <= i < suspended@.len() ==> {
                    &&& (#[trigger] suspended@[i]).gen_inv()
                    &&& !suspended@[i].gen_done()
                    &&& suspended@[i].computation matches Some(waiting) && waiting.started
                        && waiting.n == n - i
                },
        decreases frame_measure(current) + suspended@.len(),
    {
        proof {
            // The resume argument is acceptable: a suspended frame adds its
            // argument to the carried sub-result, and that sum is the frame's
            // own triangular number, bounded by the outermost one.
            let frame = current.computation->0;
            if frame.started {
                assert(carried as nat == triangular_number((frame.n - 1) as nat));
                lemma_triangular_number_monotone(frame.n as nat, n as nat);
            }
        }
        let outcome = current.resume(carried);
        match outcome {
            GeneratorState::Yielded(sub_request) => {
                suspended.push(current);
                let mut next_frame: GeneratorFn<TriangularGen> = GeneratorFn::empty();
                next_frame.init(triangular_frame, (sub_request,));
                current = next_frame;
                carried = 0;
            },
            GeneratorState::Returned(sub_total) => {
                match suspended.pop() {
                    None => {
                        return sub_total;
                    },
                    Some(waiting) => {
                        current = waiting;
                        carried = sub_total;
                    },
                }
            },
        }
    }
}

} // verus!
