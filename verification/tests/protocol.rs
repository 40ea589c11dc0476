//! The protocol pieces one by one: the transfer cell, the empty generator,
//! the iteration round trip, moving an instance mid-drive, the release flag,
//! and the triangular-number driver on small inputs.

use next_gen::bodies;
use next_gen::cell_option::CellOption;
use next_gen::coroutine::Coroutine;
use next_gen::generator::{GeneratorExt, GeneratorState};
use next_gen::generator_fn::GeneratorFn;
use next_gen::iter::IterPin;
use next_gen::iterator::Iter;
use next_gen::recursion;
use next_gen::suspend::{ItemSlot, Poll, Suspendable, TransferBox, YieldSlot};

#[test]
fn cell_option_set_and_take() {
    let mut cell: CellOption<u32> = CellOption::new_none();
    assert!(!cell.is_some());
    assert_eq!(cell.set(5), None);
    assert!(cell.is_some());
    assert_eq!(cell.set(7), Some(5));
    assert_eq!(cell.take(), Some(7));
    assert!(!cell.is_some());
    assert_eq!(cell.take(), None);

    let mut full: CellOption<u32> = CellOption::new_some(3);
    assert!(full.is_some());
    assert_eq!(full.take(), Some(3));

    let defaulted: CellOption<u32> = Default::default();
    assert!(!defaulted.is_some());
}

#[test]
fn empty_generator_returns_at_once() {
    // A generator that suspends zero times: the very first resumption
    // reports the return value, and nothing is ever yielded.
    let mut generator = GeneratorFn::empty();
    let no_items: Vec<u8> = Vec::new();
    generator.init(bodies::yield_vec, (no_items, 7i32));
    match generator.resume(()) {
        GeneratorState::Yielded(_) => panic!("an empty generator must not yield"),
        GeneratorState::Returned(ret) => assert_eq!(ret, 7),
    }
}

#[test]
fn sequencing_order() {
    // The yielded values come out in deposit order, then the return value.
    let mut generator = GeneratorFn::empty();
    generator.init(bodies::yield_vec, (vec![10u8, 20, 30], 99i32));
    assert!(matches!(generator.resume(()), GeneratorState::Yielded(10)));
    assert!(matches!(generator.resume(()), GeneratorState::Yielded(20)));
    assert!(matches!(generator.resume(()), GeneratorState::Yielded(30)));
    assert!(matches!(generator.resume(()), GeneratorState::Returned(99)));
}

#[test]
fn iteration_round_trip() {
    // Collecting the iteration view gives the same sequence as resuming by
    // hand and discarding the terminal return value.
    let mut by_hand: Vec<u8> = Vec::new();
    let mut generator = GeneratorFn::empty();
    generator.init(bodies::range, (3u8, 9u8));
    loop {
        match generator.resume(()) {
            GeneratorState::Yielded(value) => by_hand.push(value),
            GeneratorState::Returned(()) => break,
        }
    }

    let mut viewed = GeneratorFn::empty();
    viewed.init(bodies::range, (3u8, 9u8));
    let mut it = IterPin(viewed);
    let mut collected: Vec<u8> = Vec::new();
    while let Some(value) = it.next() {
        collected.push(value);
    }

    assert_eq!(collected, by_hand);
}

#[test]
fn unit_return_iteration() {
    let mut generator = GeneratorFn::empty();
    generator.init(bodies::range, (0u8, 3u8));
    let mut it = Iter(generator);
    let mut got: Vec<u8> = Vec::new();
    while let Some(value) = it.next() {
        got.push(value);
    }
    assert_eq!(got, vec![0, 1, 2]);
}

#[test]
fn resume_with_threads_arguments() {
    // The coroutine view: resume arguments flow in through resume_with.
    let mut generator = GeneratorFn::empty();
    generator.init(bodies::accumulate, ());
    assert!(matches!(generator.resume_with(5), GeneratorState::Yielded(5)));
    assert!(matches!(generator.resume_with(9), GeneratorState::Yielded(9)));
    match generator.resume_with(0) {
        GeneratorState::Returned(ret) => assert_eq!(ret, vec![5, 9]),
        GeneratorState::Yielded(_) => panic!("zero must complete the accumulator"),
    }
}

#[test]
fn resume_unpin_alias() {
    let mut generator = GeneratorFn::empty();
    generator.init(bodies::range, (1u8, 3u8));
    assert!(matches!(generator.resume_unpin(()), GeneratorState::Yielded(1)));
    assert!(matches!(generator.resume_unpin(()), GeneratorState::Yielded(2)));
    assert!(matches!(generator.resume_unpin(()), GeneratorState::Returned(())));
}

#[test]
fn into_iter_adapters() {
    let mut generator = GeneratorFn::empty();
    generator.init(bodies::range, (4u8, 6u8));
    let mut it = generator.gen_into_iter();
    assert_eq!(it.next(), Some(4));
    assert_eq!(it.next(), Some(5));
    assert_eq!(it.next(), None);

    let mut boxed = GeneratorFn::empty();
    boxed.init(bodies::range, (7u8, 9u8));
    let mut boxed_it = Box::new(boxed).boxed_gen_into_iter();
    assert_eq!(boxed_it.next(), Some(7));
    assert_eq!(boxed_it.next(), Some(8));
    assert_eq!(boxed_it.next(), None);
}

#[test]
fn moved_instance_continues() {
    // A partially advanced instance can be moved to a new owner (here through
    // the heap and back) and driven on, producing the same results as an
    // uninterrupted run.
    let mut generator = GeneratorFn::empty();
    generator.init(bodies::range, (1u8, 8u8));
    assert!(matches!(generator.resume(()), GeneratorState::Yielded(1)));

    let parked: Box<GeneratorFn<bodies::RangeGen>> = Box::new(generator);
    let mut moved = *parked;
    let mut got: Vec<u8> = Vec::new();
    loop {
        match moved.resume(()) {
            GeneratorState::Yielded(value) => got.push(value),
            GeneratorState::Returned(()) => break,
        }
    }
    assert_eq!(got, (2..8).collect::<Vec<u8>>());
}

#[test]
fn triangular_small_inputs() {
    assert_eq!(recursion::triangular(0), 0);
    assert_eq!(recursion::triangular(1), 1);
    assert_eq!(recursion::triangular(5), 15);
    assert_eq!(recursion::triangular(10), 55);
}

struct LeakyGen {
    token: Option<YieldSlot<u8, ()>>,
}

impl Suspendable for LeakyGen {
    type Yield = u8;
    type ResumeArg = ();
    type Return = YieldSlot<u8, ()>;

    // The compiled trait keeps erased stubs of the specification functions;
    // nothing ever calls them.
    fn inv(&self) -> bool {
        true
    }

    fn done(&self) -> bool {
        self.token.is_none()
    }

    fn arg_ok(&self, _resume_arg: ()) -> bool {
        true
    }

    fn step_rel(
        _pre: Self,
        _resume_arg: (),
        _post: Self,
        _outcome: GeneratorState<u8, YieldSlot<u8, ()>>,
    ) -> bool {
        true
    }

    // An unverified body that completes while letting its suspension handle
    // escape in the return value, instead of surrendering it.
    fn step(&mut self, item_slot: &mut ItemSlot<u8, ()>) -> Poll<YieldSlot<u8, ()>> {
        let _ = TransferBox::take(&mut item_slot.transfer_box);
        Poll::Ready(self.token.take().unwrap())
    }
}

#[test]
fn leaked_handle_is_detectable() {
    // The body above breaks the contract of `Suspendable::step` (tests are
    // not verified), so nothing it smuggles out is trustworthy; the release
    // flag stays unset, which is exactly what a driver's teardown check
    // observes before aborting the process.
    let mut generator = GeneratorFn::empty();
    generator.init(|token, ()| LeakyGen { token: Some(token) }, ());
    let leaked = match generator.resume(()) {
        GeneratorState::Returned(handle) => handle,
        GeneratorState::Yielded(_) => panic!("the leaky body never yields"),
    };
    let _ = leaked;
    assert!(!generator.item_slot.yield_slot_dropped);

    // A well-behaved body leaves the flag set once it has completed.
    let mut sound = GeneratorFn::empty();
    let no_items: Vec<u8> = Vec::new();
    sound.init(bodies::yield_vec, (no_items, ()));
    assert!(matches!(sound.resume(()), GeneratorState::Returned(())));
    assert!(sound.item_slot.yield_slot_dropped);
}
