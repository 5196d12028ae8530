//! Deterministic rollback core of a two-player breakout match: input codec,
//! fixed-point tick stepper, snapshots and the session state machine.

pub mod components;
pub mod config;
pub mod game;
pub mod geometry;
pub mod input;
pub mod netcode;
pub mod realm;
pub mod snapshot;
