//! Collaborative chess by vote: any number of anonymous players vote on the
//! next move within a fixed window, the most voted move is played, and every
//! observer sees the latest state of the game.
//!
//! The chess rules come from the `chess` crate, behind the contracts of
//! [`engine`] and [`notation`]. Everything around them (the vote tally, the
//! round state machine, the latest-value broadcast and the registry of
//! games) is verified here against those contracts.

pub mod status;
pub mod notation;
pub mod keyed;
pub mod tally;
pub mod engine;
pub mod session;
pub mod registry;
pub mod links;
pub mod laws;
