//! Cards, suits, colours and the suit sets that a trick is played in.
use vstd::prelude::*;

verus! {

/// The four suits of the deck.
#[derive(Clone, Copy, Debug, PartialEq, Eq, Structural, Hash)]
pub enum Pattern {
    Spade,
    Diamond,
    Heart,
    Clover,
}

/// The colour of a suit, and of a joker.
#[derive(Clone, Copy, Debug, PartialEq, Eq, Structural, Hash)]
pub enum Color {
    Black,
    Red,
}

/// A playing card: a suited card with its rank (0 is the ace, 1 the two, ...,
/// 12 the king), or a joker of a colour.
#[derive(Clone, Copy, Debug, PartialEq, Eq, Structural, Hash)]
pub enum Card {
    Normal(Pattern, u8),
    Joker(Color),
}

/// A set of suits, kept as four flag bits (spade, diamond, heart, clover).
#[derive(Clone, Copy, Debug, PartialEq, Eq, Structural, Hash)]
pub struct Rush {
    pub bits: u8,
}

/// The colour of a suit: spades and clovers are black, diamonds and hearts red.
pub open spec fn spec_color_of(p: Pattern) -> Color {
    match p {
        Pattern::Spade => Color::Black,
        Pattern::Clover => Color::Black,
        Pattern::Diamond => Color::Red,
        Pattern::Heart => Color::Red,
    }
}

/// The colour of a set of suits: black when it holds a black suit, else red.
pub open spec fn spec_current_color(r: Rush) -> Color {
    if r.bits & 9u8 != 0 {
        Color::Black
    } else {
        Color::Red
    }
}

/// The flag bit of a suit.
pub open spec fn spec_pattern_bits(p: Pattern) -> u8 {
    match p {
        Pattern::Spade => 1u8,
        Pattern::Diamond => 2u8,
        Pattern::Heart => 4u8,
        Pattern::Clover => 8u8,
    }
}

/// The suits of a colour.
pub open spec fn spec_color_bits(c: Color) -> u8 {
    match c {
        Color::Black => 9u8,
        Color::Red => 6u8,
    }
}

/// The suit set of a card: the suit of a suited card, the suits of its colour
/// for a joker.
pub open spec fn spec_card_rush(c: Card) -> Rush {
    match c {
        Card::Normal(p, _) => Rush { bits: spec_pattern_bits(p) },
        Card::Joker(col) => Rush { bits: spec_color_bits(col) },
    }
}

/// The cards that count as points: aces, tens, jacks, queens and kings.
pub open spec fn spec_is_score(c: Card) -> bool {
    match c {
        Card::Normal(_, n) => n == 0 || n >= 9,
        Card::Joker(_) => false,
    }
}

impl Color {
    /// The colour of a suit.
    pub fn from_pattern(p: Pattern) -> (c: Color)
        ensures
            c == spec_color_of(p),
    {
        match p {
            Pattern::Spade => Color::Black,
            Pattern::Clover => Color::Black,
            Pattern::Diamond => Color::Red,
            Pattern::Heart => Color::Red,
        }
    }
}

impl Color {
    /// The colour of a set of suits.
    pub fn from_rush(r: Rush) -> (c: Color)
        ensures
            c == spec_current_color(r),
    {
        if r.bits & 9u8 != 0 {
            Color::Black
        } else {
            Color::Red
        }
    }
}

impl Card {
    /// Whether the card counts as a point.
    pub fn is_score(&self) -> (b: bool)
        ensures
            b == spec_is_score(*self),
    {
        match self {
            Card::Normal(_, n) => *n == 0 || *n >= 9,
            Card::Joker(_) => false,
        }
    }
}

impl Rush {
    /// Whether every suit of `other` is in `self`.
    pub open spec fn spec_contains(self, other: Rush) -> bool {
        self.bits & other.bits == other.bits
    }

    /// The suits that are not in `self`.
    pub open spec fn spec_complement(self) -> Rush {
        Rush { bits: (!self.bits) & 15u8 }
    }

    /// The empty set of suits.
    pub fn empty() -> (r: Rush)
        ensures
            r.bits == 0,
    {
        Rush { bits: 0u8 }
    }

    /// All four suits.
    pub fn all() -> (r: Rush)
        ensures
            r.bits == 15,
    {
        Rush { bits: 15u8 }
    }

    /// The black suits: spades and clovers.
    pub fn black() -> (r: Rush)
        ensures
            r.bits == spec_color_bits(Color::Black),
    {
        Rush { bits: 9u8 }
    }

    /// The red suits: diamonds and hearts.
    pub fn red() -> (r: Rush)
        ensures
            r.bits == spec_color_bits(Color::Red),
    {
        Rush { bits: 6u8 }
    }

    /// Whether every suit of `other` is in `self`.
    pub fn contains(&self, other: Rush) -> (b: bool)
        ensures
            b == self.spec_contains(other),
    {
        self.bits & other.bits == other.bits
    }

    /// The suits that are not in `self`.
    pub fn complement(&self) -> (r: Rush)
        ensures
            r == self.spec_complement(),
    {
        Rush { bits: (!self.bits) & 15u8 }
    }

    /// The set holding one suit.
    pub fn from_pattern(p: Pattern) -> (r: Rush)
        ensures
            r.bits == spec_pattern_bits(p),
    {
        match p {
            Pattern::Spade => Rush { bits: 1u8 },
            Pattern::Diamond => Rush { bits: 2u8 },
            Pattern::Heart => Rush { bits: 4u8 },
            Pattern::Clover => Rush { bits: 8u8 },
        }
    }

    /// The suits of a colour.
    pub fn from_color(c: Color) -> (r: Rush)
        ensures
            r.bits == spec_color_bits(c),
    {
        match c {
            Color::Black => Rush { bits: 9u8 },
            Color::Red => Rush { bits: 6u8 },
        }
    }

    /// The suit set of a card.
    pub fn from_card(c: Card) -> (r: Rush)
        ensures
            r == spec_card_rush(c),
    {
        match c {
            Card::Normal(p, _) => Rush::from_pattern(p),
            Card::Joker(col) => Rush::from_color(col),
        }
    }
}

} // verus!
