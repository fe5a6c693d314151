//! Core of a system-wide text-expansion engine: a classifier from physical
//! keys to buffer actions, a keyword -> expansion store, and the state machine
//! that accumulates typed characters and decides what synthetic input to emit.

pub mod commands;
pub mod expander;
pub mod keys;
pub mod snippets;
