//! A verified model of a small terminal pet.
//!
//! The pet lives on a bounded playground, drifts a little on every tick,
//! gets hungrier and less happy as time passes, and can be steered with
//! the keyboard. This crate holds the state, the input handling and the
//! tick update, all with proved contracts, together with the geometry
//! that the surrounding terminal program draws from.

pub mod laws;
pub mod render;
pub mod state;
