//! Client-side workflow engine for setting up and joining a session of a
//! turn-based, team-based game served by a remote backend.
//!
//! The heart of the crate is a finite-state machine ([`state::GlobalState`])
//! that walks an operator through choosing a map, creating a game, creating a
//! character and waiting for the other participants.  Every transition is a
//! pure function from the current state and a normalized input event to a
//! [`state::Transition`]; remote calls are surfaced as request variants of
//! that type, and the surrounding (unverified) driving loop feeds the
//! responses back through the `apply_*` functions.

pub mod game;
pub mod grid;
pub mod input;
pub mod laws;
pub mod model;
pub mod state;
pub mod state_machine;
pub mod wire;
