//! The rules of the card game Mighty: bidding, choosing a friend, playing
//! tricks and scoring.

pub mod card;
pub mod command;
pub mod deal;
pub mod election;
pub mod error;
pub mod friend;
pub mod hand;
pub mod laws;
pub mod list;
pub mod next;
pub mod play;
pub mod preservation;
mod random;
pub mod rule;
pub mod server;
pub mod state;
pub mod valid;
pub mod vecs;
