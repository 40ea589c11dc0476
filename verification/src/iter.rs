//! The iteration adapter: a pull-based view over any generator with unit
//! resume arguments, for callers that only care about the yielded values and
//! not the final return value.

use vstd::prelude::*;

use crate::generator::{Generator, GeneratorState};

verus! {

/// The iteration view of one resumption outcome: a yielded value is an item,
/// the terminal return value is the end of the sequence.
pub open spec fn iter_view<Yield, Return>(outcome: GeneratorState<Yield, Return>) -> Option<
    Yield,
> {
    match outcome {
        GeneratorState::Yielded(yielded) => Some(yielded),
        GeneratorState::Returned(_) => None,
    }
}

/// Round trip of the iteration view: an outcome carries a yielded value
/// exactly when its view does, and the view is empty exactly on the terminal
/// outcome. Together with the contract of [`IterPin::next`], collecting the
/// iteration view of a finite generator therefore produces the same sequence
/// of yielded values as resuming it by hand and discarding the terminal
/// return value.
pub proof fn lemma_iter_view_round_trip<Yield, Return>(outcome: GeneratorState<Yield, Return>)
    ensures
        forall|yielded: Yield|
            (iter_view(outcome) == Some(yielded)) <==> (outcome == GeneratorState::<
                Yield,
                Return,
            >::Yielded(yielded)),
        (iter_view(outcome) is None) <==> (outcome is Returned),
{
}

/// A single-pass iteration view over a generator with unit resume arguments.
///
/// Each [`next`](IterPin::next) call performs one resumption with the unit
/// argument and maps the outcome through [`iter_view`]: yielded values come
/// out one by one, and the terminal return value is discarded and reported as
/// the end of the sequence. The view is finite exactly when the underlying
/// generator eventually returns; a generator that never returns yields
/// forever.
pub struct IterPin<P>(pub P) where P: Generator<()>;

impl<P: Generator<()>> IterPin<P> {
    /// Advances the underlying generator once and hands back the iteration
    /// view of the outcome.
    ///
    /// The round trip is exact: `next` returns `Some(y)` for precisely the
    /// resumptions on which the generator would have reported
    /// `Yielded(y)`, and `None` for precisely the one on which it would have
    /// reported `Returned(_)`.
    pub fn next(&mut self) -> (item: Option<P::Yield>)
        requires
            old(self).0.gen_inv(),
            !old(self).0.gen_done(),
            old(self).0.resume_arg_ok(()),
        ensures
            final(self).0.gen_inv(),
            exists|outcome: GeneratorState<P::Yield, P::Return>|
                P::resume_rel(old(self).0, (), final(self).0, outcome) && item == iter_view(
                    outcome,
                ),
            (item is None) <==> final(self).0.gen_done(),
    {
        let outcome = self.0.resume(());
        let ghost spec_outcome = outcome;
        match outcome {
            GeneratorState::Yielded(yielded) => {
                proof {
                    assert(P::resume_rel(old(self).0, (), self.0, spec_outcome) && Some(yielded)
                        == iter_view(spec_outcome));
                }
                Some(yielded)
            },
            GeneratorState::Returned(_) => {
                proof {
                    assert(P::resume_rel(old(self).0, (), self.0, spec_outcome)
                        && Option::<P::Yield>::None == iter_view(spec_outcome));
                }
                None
            },
        }
    }
}

} // verus!
