//! A generator (coroutine) abstraction: imperative computations that can
//! suspend mid-execution, hand a value to their driver, and later be resumed
//! exactly where they left off, optionally receiving a value back at each
//! resumption.
//!
//! The engine is built from explicit, verified pieces:
//!
//! - a single-slot transfer cell ([`cell_option::CellOption`]) and a
//!   three-way transfer slot ([`suspend::TransferBox`]) through which values
//!   are handed between a generator body and its driver;
//! - a suspension handle ([`suspend::YieldSlot`]) offering the low-level
//!   suspend/resume protocol to generator bodies;
//! - a state machine ([`generator_fn::GeneratorFn`]) that owns the slot and
//!   the underlying suspendable computation and exposes `resume`;
//! - an iteration adapter ([`iter::IterPin`]) over generators with unit
//!   resume arguments;
//! - ready-made generator bodies ([`bodies`]) written as explicit state
//!   machines, and a recursion-via-suspension pattern ([`recursion`]).

pub mod bodies;
pub mod cell_option;
pub mod coroutine;
pub mod generator;
pub mod generator_fn;
pub mod iter;
pub mod iterator;
pub mod recursion;
pub mod suspend;
