//! An iteration view specialized to generators whose return type is unit:
//! the terminal value carries no information, so the view loses nothing.

use vstd::prelude::*;

use crate::generator::{Generator, GeneratorState};

verus! {

/// A single-pass iteration view over a generator with unit resume arguments
/// and unit return value.
pub struct Iter<G>(pub G) where G: Generator<(), Return = ()>;

impl<G: Generator<(), Return = ()>> Iter<G> {
    /// Advances the underlying generator once: yielded values come out one by
    /// one, and the unit return marks the end of the sequence.
    pub fn next(&mut self) -> (item: Option<G::Yield>)
        requires
            old(self).0.gen_inv(),
            !old(self).0.gen_done(),
            old(self).0.resume_arg_ok(()),
        ensures
            final(self).0.gen_inv(),
            match item {
                Some(yielded) => G::resume_rel(
                    old(self).0,
                    (),
                    final(self).0,
                    GeneratorState::Yielded(yielded),
                ),
                None => exists|ret: G::Return|
                    G::resume_rel(old(self).0, (), final(self).0, GeneratorState::Returned(ret)),
            },
            (item is None) <==> final(self).0.gen_done(),
    {
        let outcome = self.0.resume(());
        match outcome {
            GeneratorState::Yielded(yielded) => {
                proof {
                    assert(G::resume_rel(old(self).0, (), self.0, GeneratorState::Yielded(yielded)));
                }
                Some(yielded)
            },
            GeneratorState::Returned(ret) => {
                proof {
                    assert(G::resume_rel(old(self).0, (), self.0, GeneratorState::Returned(ret)));
                }
                None
            },
        }
    }
}

} // verus!
