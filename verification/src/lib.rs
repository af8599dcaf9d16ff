//! A streak-aware prediction-market settlement engine.
//!
//! Users stake value on one of several outcomes of a question, an authority
//! later declares the winning outcome, and winners receive a payout scaled by
//! a personal, cross-market winning-streak multiplier. This crate holds the
//! full state-transition and payout logic: market creation, stake placement,
//! resolution, and claim settlement, including the streak-multiplier algorithm
//! and the pool-insufficiency fallback. Durable keyed-record storage, caller
//! signature verification, the wall clock and the raw value-transfer primitive
//! are external collaborators: callers hand in plain values (records,
//! identities, timestamps) and receive the updated records and the amount to
//! transfer.

pub mod betting;
pub mod engine;
pub mod errors;
pub mod laws;
pub mod market;
pub mod settlement;
pub mod state;
