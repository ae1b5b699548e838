//! Deterministic decision core of a round-based wagering game.
//!
//! A player stakes tokens against a shared pot. A draw in `[0, 6)` is derived
//! from a secret persistent seed mixed with public block data; the draw is
//! compared with a rotating round counter to decide win or loss, and the pot
//! and round advance accordingly. All state transitions are pure functions
//! over an explicit [`contract::State`] record; host plumbing (storage,
//! message envelopes, transfers) lives outside this crate.

pub mod contract;
pub mod expiration;
pub mod msg;
pub mod rand;
