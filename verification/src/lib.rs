//! The lifecycle engine of a cooperative node: a file-named proposal queue with
//! its status state machine, the append-only vertex ledger, the execution
//! coordinator, the watch and dispatch rules, and the federation broadcast plan.
//!
//! Everything here works on plain values. Reading the disk and the network, and
//! running the engine, is left to the caller, who hands the results in and
//! carries the actions out. The clock and the source of random identifiers are
//! read here, in functions that say what holds whatever they gave; beside each
//! stands a function that takes the moment or the identifier as an argument.

pub mod clock;
pub mod dag;
pub mod dispatch;
pub mod error;
pub mod executor;
pub mod federation;
pub mod queue;
pub mod state;
pub mod text;
