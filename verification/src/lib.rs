//! Generation and lifecycle orchestration of user-level timer units.
//!
//! The library synthesizes unit definition files (a service and a timer)
//! from a declarative [`timers::Timer`] description, resolves the directory
//! that holds them from an environment snapshot, keeps a deduplicated ledger
//! of single-use timer names, and decides every step of the create and
//! remove sequences as a state machine.  All filesystem and subprocess work
//! is performed by the caller, which feeds each step's outcome back in.

pub mod create;
pub mod escape;
pub mod events;
pub mod generate;
pub mod ledger;
pub mod ops;
pub mod remove;
pub mod resolve;
pub mod timers;
pub mod trim;
