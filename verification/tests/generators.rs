//! Driving the generator engine end to end: sequencing, resume arguments,
//! ranges, adaptors, and the recursion pattern.

use next_gen::bodies;
use next_gen::generator::GeneratorState;
use next_gen::generator_fn::{CallBoxed, GeneratorFn};
use next_gen::iter::IterPin;
use next_gen::recursion;

#[test]
fn basic() {
    let mut generator = GeneratorFn::empty();
    generator.init(bodies::yield_vec, (vec![42u8, 0, 27], ()));
    let mut it = IterPin(generator);
    let mut got: Vec<u8> = Vec::new();
    while let Some(value) = it.next() {
        got.push(value);
    }
    assert_eq!(got, vec![42, 0, 27]);
}

#[test]
fn resume_args() {
    let mut generator = GeneratorFn::empty();
    generator.init(bodies::accumulate, ());
    let mut resume = |arg: i32| match generator.resume(arg) {
        GeneratorState::Yielded(yielded_value) => {
            assert_eq!(yielded_value as i32, arg);
            None
        }
        GeneratorState::Returned(ret) => {
            assert_eq!(arg, 0);
            Some(ret)
        }
    };

    resume(12);
    resume(17);
    resume(47);
    assert_eq!(resume(0).unwrap(), vec![12, 17, 47]);
}

#[test]
fn tests_resume_args() {
    // The same protocol, driven through a heap-placed instance.
    let mut generator = bodies::accumulate.call_boxed(());
    let mut resume = |arg: i32| match generator.resume(arg) {
        GeneratorState::Yielded(yielded_value) => {
            assert_eq!(yielded_value as i32, arg);
            None
        }
        GeneratorState::Returned(ret) => {
            assert_eq!(arg, 0);
            Some(ret)
        }
    };

    resume(12);
    resume(17);
    resume(47);
    assert_eq!(resume(0).unwrap(), vec![12, 17, 47]);
}

#[test]
fn range() {
    let mut generator = GeneratorFn::empty();
    generator.init(bodies::range, (2u8, 8u8));
    let mut it = IterPin(generator);
    let mut got: Vec<u8> = Vec::new();
    while let Some(value) = it.next() {
        got.push(value);
    }
    assert_eq!(got, (2..8).collect::<Vec<u8>>());
}

#[test]
fn tests_range() {
    let mut generator = GeneratorFn::empty();
    generator.init(bodies::range, (2u8, 8u8));
    let mut got: Vec<u8> = Vec::new();
    loop {
        match generator.resume(()) {
            GeneratorState::Yielded(value) => got.push(value),
            GeneratorState::Returned(()) => break,
        }
    }
    assert_eq!(got, (2..8).collect::<Vec<u8>>());
}

#[test]
fn gen_iter() {
    let mut generator = GeneratorFn::empty();
    let questions: Vec<&'static str> =
        vec!["What is the answer to life, the universe and everything?"];
    generator.init(bodies::yield_vec, (questions, 42i32));

    let ret;
    loop {
        match generator.resume(()) {
            GeneratorState::Yielded(question) => {
                assert_eq!(
                    question,
                    "What is the answer to life, the universe and everything?",
                );
            }
            GeneratorState::Returned(answer) => {
                ret = answer;
                break;
            }
        }
    }
    assert_eq!(ret, 42);
}

fn collect_range(start: u8, end: u8) -> Vec<u8> {
    let mut generator = GeneratorFn::empty();
    generator.init(bodies::range, (start, end));
    let mut it = IterPin(generator);
    let mut got: Vec<u8> = Vec::new();
    while let Some(value) = it.next() {
        got.push(value);
    }
    got
}

#[test]
fn filter_range() {
    let mut generator = GeneratorFn::empty();
    generator.init(bodies::filter, (|x: u8| x % 2 == 0, collect_range(2, 7)));
    let mut it = IterPin(generator);
    let mut got: Vec<u8> = Vec::new();
    while let Some(value) = it.next() {
        got.push(value);
    }
    assert_eq!(got, [2, 4, 6]);
}

#[test]
fn filter_map_range() {
    let mut evens = GeneratorFn::empty();
    evens.init(bodies::filter, (|x: u8| x % 2 == 0, collect_range(2, 7)));
    let mut filtered: Vec<u8> = Vec::new();
    let mut evens_it = IterPin(evens);
    while let Some(value) = evens_it.next() {
        filtered.push(value);
    }

    let mut squares = GeneratorFn::empty();
    squares.init(bodies::map, (|x: u8| x * x, filtered));
    let mut got: Vec<u8> = Vec::new();
    let mut squares_it = IterPin(squares);
    while let Some(value) = squares_it.next() {
        got.push(value);
    }
    assert_eq!(got, [4, 16, 36]);
}

#[test]
fn auto_heap_state() {
    let n: u64 = 1_u64 << 16;
    assert_eq!(recursion::triangular(n), 2147516416);
}
