//! A generic finite-state-machine engine.
//!
//! States and events are payloads paired with an identifier. A machine holds
//! one current state and a table of transitions, and moves when it is fed an
//! event.

pub mod dispatch;
pub mod dynamic_state_machine;
pub mod error;
pub mod event;
pub mod ident;
pub mod primitives;
pub mod registry;
pub mod static_state_machine;
pub mod state;
pub mod state_machine;
