//! Why a command was refused.
use vstd::prelude::*;

verus! {

/// The command that the current phase of the game expects.
#[derive(Clone, Copy, Debug, PartialEq, Eq, Structural, Hash)]
pub enum Expected {
    /// A bid (also named in the friend phase).
    Pledge,
    /// A card to play.
    Go,
}

/// Why a command was refused.
#[derive(Clone, Copy, Debug, PartialEq, Eq, Structural, Hash)]
pub enum Error {
    /// Not this player's turn to bid.
    InvalidOrder,
    /// A bid out of the rule's range (`true`, with the bound), or too low
    /// (`false`, with the bid it had to reach).
    InvalidPledge(bool, u8),
    /// Nobody has bid yet and the rule forbids passing first.
    PassFirst,
    /// The command does not belong to this phase.
    InvalidCommand(Expected),
    /// The declarer drops the wrong number of cards.
    DropCard,
    /// The card is not in the player's hand.
    NotInDeck,
    /// The rule forbids this way of naming the friend.
    InvalidFriendFunc,
    /// The new trump suit is the old one.
    SameGiruda,
    /// The joker was called and the player holds it but plays another card.
    JokerCall,
    /// The card may not be played now.
    WrongCard,
    /// The joker leads a suit outside its colour.
    WrongPattern,
    /// The score could not be computed.
    Internal,
}

impl Error {
    /// A text that says what went wrong, without the numbers.
    pub open spec fn spec_message(self) -> Seq<char> {
        match self {
            Error::InvalidOrder => "it is not your turn"@,
            Error::InvalidPledge(true, _) => "the pledge is out of range"@,
            Error::InvalidPledge(false, _) => "the pledge is too low"@,
            Error::PassFirst => "you cannot pass first"@,
            Error::InvalidCommand(_) => "this command is not expected now"@,
            Error::DropCard => "wrong number of cards to drop"@,
            Error::NotInDeck => "the card is not in your hand"@,
            Error::InvalidFriendFunc => "this friend is not allowed"@,
            Error::SameGiruda => "the giruda is the same"@,
            Error::JokerCall => "the joker is called"@,
            Error::WrongCard => "this card cannot be played now"@,
            Error::WrongPattern => "the joker cannot lead this pattern"@,
            Error::Internal => "internal error occurred when calculating score"@,
        }
    }

    /// A text that says what went wrong, without the numbers.
    pub fn message(&self) -> (m: &'static str)
        ensures
            m@ == self.spec_message(),
    {
        match self {
            Error::InvalidOrder => "it is not your turn",
            Error::InvalidPledge(true, _) => "the pledge is out of range",
            Error::InvalidPledge(false, _) => "the pledge is too low",
            Error::PassFirst => "you cannot pass first",
            Error::InvalidCommand(_) => "this command is not expected now",
            Error::DropCard => "wrong number of cards to drop",
            Error::NotInDeck => "the card is not in your hand",
            Error::InvalidFriendFunc => "this friend is not allowed",
            Error::SameGiruda => "the giruda is the same",
            Error::JokerCall => "the joker is called",
            Error::WrongCard => "this card cannot be played now",
            Error::WrongPattern => "the joker cannot lead this pattern",
            Error::Internal => "internal error occurred when calculating score",
        }
    }
}

} // verus!
