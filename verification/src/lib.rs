//! Core of a terminal session manager: an ordered registry of named
//! sessions, a reconciliation engine that re-derives the registry from
//! fresh snapshots of the external store while preserving the user's
//! selection, a literal-substring filter engine with a stable match
//! pointer, and the modal interaction state machine that drives all of
//! it from discrete key events.
//!
//! Everything that talks to the outside world (the store commands, the
//! terminal, key capture, rendering) lives outside this crate; the
//! functions here are pure state transitions over plain values.

pub mod app;
pub mod buffer;
pub mod filter;
pub mod handler;
pub mod hotkeys;
pub mod registry;
pub mod rows;
pub mod session;
