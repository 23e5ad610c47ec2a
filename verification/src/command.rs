//! What a player can do.
use vstd::prelude::*;
use crate::card::{Card, Pattern, Rush};
use crate::state::FriendFunc;

verus! {

/// A player's move.
pub enum Command {
    /// A bid: a trump suit (or none) and a number of points, or a pass.
    Pledge(Option<(Option<Pattern>, u8)>),
    /// The declarer's cards to drop and the way the friend is named.
    SelectFriend(Vec<Card>, FriendFunc),
    /// The declarer changes the trump suit.
    ChangePledge(Option<Pattern>),
    /// A card to play, the suit a leading joker asks for, and whether a
    /// leading joker-call card calls the joker.
    Go(Card, Rush, bool),
    /// A random move on the player's behalf.
    Random,
}

} // verus!
