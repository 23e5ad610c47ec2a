//! The state of a game, its model, and the card comparisons of a trick.
use vstd::prelude::*;
use crate::card::{Card, Color, Pattern, Rush, spec_color_of, spec_current_color, spec_pattern_bits};
use crate::rule::{CardPolicy, Rule};

verus! {

/// How the declarer names the friend.
#[derive(Clone, Copy, Debug, PartialEq, Eq, Structural, Hash)]
pub enum FriendFunc {
    /// No friend: the declarer plays alone.
    NoFriend,
    /// The holder of a card.
    ByCard(Card),
    /// A player by number.
    ByUser(usize),
    /// The winner of the first trick.
    First,
    /// The winner of the last trick.
    Last,
}

/// A bid: a trump suit (or none) and a number of points.
pub type Bid = (Option<Pattern>, u8);

/// The phases of a game.
#[derive(Clone, Debug, PartialEq, Eq, Hash)]
pub enum State {
    /// Bidding for the right to declare.
    Election {
        /// Each player's bid, if any.
        pledge: Vec<Option<Bid>>,
        /// Which players have passed.
        done: Vec<bool>,
        curr_user: usize,
        start_user: Option<usize>,
        /// The five hands.
        deck: Vec<Vec<Card>>,
        /// The kitty.
        left: Vec<Card>,
    },
    /// The declarer drops cards and names the friend.
    SelectFriend {
        president: usize,
        giruda: Option<Pattern>,
        pledge: u8,
        deck: Vec<Vec<Card>>,
    },
    /// The tricks are played.
    InGame {
        president: usize,
        friend_func: FriendFunc,
        friend: Option<usize>,
        is_friend_known: bool,
        giruda: Option<Pattern>,
        pledge: u8,
        deck: Vec<Vec<Card>>,
        /// The point cards that each player has won.
        score_deck: Vec<Vec<Card>>,
        /// The number of tricks played, 0 to 9.
        turn_count: u8,
        /// The card in front of each player, with whether it can win.
        placed_cards: Vec<(Card, CardPolicy)>,
        start_user: usize,
        current_user: usize,
        current_pattern: Rush,
        joker_call_card: Option<Card>,
        joker_call_effect: bool,
    },
    /// The game is over.
    GameEnded {
        /// One bit for each winner.
        winner: u8,
        president: usize,
        friend: Option<usize>,
        score: u8,
        pledge: u8,
        giruda: Option<Pattern>,
    },
}

/// The mathematical model of a state: the same phases, with sequences for vectors.
pub enum StateView {
    Election {
        pledge: Seq<Option<Bid>>,
        done: Seq<bool>,
        curr_user: usize,
        start_user: Option<usize>,
        deck: Seq<Seq<Card>>,
        left: Seq<Card>,
    },
    SelectFriend { president: usize, giruda: Option<Pattern>, pledge: u8, deck: Seq<Seq<Card>> },
    InGame {
        president: usize,
        friend_func: FriendFunc,
        friend: Option<usize>,
        is_friend_known: bool,
        giruda: Option<Pattern>,
        pledge: u8,
        deck: Seq<Seq<Card>>,
        score_deck: Seq<Seq<Card>>,
        turn_count: u8,
        placed_cards: Seq<(Card, CardPolicy)>,
        start_user: usize,
        current_user: usize,
        current_pattern: Rush,
        joker_call_card: Option<Card>,
        joker_call_effect: bool,
    },
    GameEnded {
        winner: u8,
        president: usize,
        friend: Option<usize>,
        score: u8,
        pledge: u8,
        giruda: Option<Pattern>,
    },
}

/// The hands of a vector of hands.
pub open spec fn decks_view(d: Vec<Vec<Card>>) -> Seq<Seq<Card>> {
    d@.map_values(|h: Vec<Card>| h@)
}

impl View for State {
    type V = StateView;

    open spec fn view(&self) -> StateView {
        match self {
            State::Election { pledge, done, curr_user, start_user, deck, left } => StateView::Election {
                pledge: pledge@,
                done: done@,
                curr_user: *curr_user,
                start_user: *start_user,
                deck: decks_view(*deck),
                left: left@,
            },
            State::SelectFriend { president, giruda, pledge, deck } => StateView::SelectFriend {
                president: *president,
                giruda: *giruda,
                pledge: *pledge,
                deck: decks_view(*deck),
            },
            State::InGame {
                president,
                friend_func,
                friend,
                is_friend_known,
                giruda,
                pledge,
                deck,
                score_deck,
                turn_count,
                placed_cards,
                start_user,
                current_user,
                current_pattern,
                joker_call_card,
                joker_call_effect,
            } => StateView::InGame {
                president: *president,
                friend_func: *friend_func,
                friend: *friend,
                is_friend_known: *is_friend_known,
                giruda: *giruda,
                pledge: *pledge,
                deck: decks_view(*deck),
                score_deck: decks_view(*score_deck),
                turn_count: *turn_count,
                placed_cards: placed_cards@,
                start_user: *start_user,
                current_user: *current_user,
                current_pattern: *current_pattern,
                joker_call_card: *joker_call_card,
                joker_call_effect: *joker_call_effect,
            },
            State::GameEnded { winner, president, friend, score, pledge, giruda } => StateView::GameEnded {
                winner: *winner,
                president: *president,
                friend: *friend,
                score: *score,
                pledge: *pledge,
                giruda: *giruda,
            },
        }
    }
}

/// The model of a result.
pub open spec fn result_view<E>(r: Result<State, E>) -> Result<StateView, E> {
    match r {
        Ok(s) => Ok(s@),
        Err(e) => Err(e),
    }
}

impl StateView {
    /// Whether the joker has been called in this trick.
    pub open spec fn is_joker_called(self) -> bool {
        match self {
            StateView::InGame { joker_call_card, .. } => joker_call_card is Some,
            _ => false,
        }
    }

    /// The suit of this trick (spades outside the play).
    pub open spec fn current_pattern(self) -> Rush {
        match self {
            StateView::InGame { current_pattern, .. } => current_pattern,
            _ => Rush { bits: spec_pattern_bits(Pattern::Spade) },
        }
    }

    /// The trump suit during play.
    pub open spec fn giruda(self) -> Option<Pattern> {
        match self {
            StateView::InGame { giruda, .. } => giruda,
            _ => None,
        }
    }

    /// The mighty: the ace of diamonds when spades are trump, else the ace of spades.
    pub open spec fn mighty(self) -> Card {
        match self {
            StateView::InGame { giruda: Some(Pattern::Spade), .. } => Card::Normal(Pattern::Diamond, 0),
            _ => Card::Normal(Pattern::Spade, 0),
        }
    }

    /// Whether a card with this policy pair may not be played now (first
    /// policy in the first trick, second one otherwise).
    pub open spec fn card_invalid(self, c: (CardPolicy, CardPolicy)) -> bool {
        match self {
            StateView::InGame { turn_count, start_user, current_user, .. } => {
                let p = if turn_count == 0 { c.0 } else { c.1 };
                p == CardPolicy::Invalid || (p == CardPolicy::InvalidForFirst && current_user == start_user)
            },
            _ => false,
        }
    }

    /// Whether a card with this policy pair loses its power now.
    pub open spec fn card_no_effect(self, c: (CardPolicy, CardPolicy)) -> bool {
        match self {
            StateView::InGame { turn_count, .. } => (turn_count == 0 && c.0 == CardPolicy::NoEffect) || (
            turn_count == 9 && c.1 == CardPolicy::NoEffect),
            _ => false,
        }
    }

    /// Whether `rhs` beats `lhs` in the current trick.
    pub open spec fn beats(self, lhs: Card, rhs: Card) -> bool {
        let mighty = self.mighty();
        let cur = self.current_pattern();
        let giruda = self.giruda();
        if lhs == mighty {
            false
        } else if rhs == mighty {
            true
        } else {
            match (lhs, rhs) {
                (Card::Normal(c1, n1), Card::Normal(c2, n2)) => {
                    if giruda is Some && c1 == giruda->0 && c2 == giruda->0 {
                        spec_rank_lower(n1, n2)
                    } else if giruda is Some && (c1 == giruda->0 || c2 == giruda->0) {
                        c2 == giruda->0
                    } else {
                        let in1 = cur.spec_contains(Rush { bits: spec_pattern_bits(c1) });
                        let in2 = cur.spec_contains(Rush { bits: spec_pattern_bits(c2) });
                        if in1 && in2 {
                            spec_rank_lower(n1, n2)
                        } else if in1 || in2 {
                            in2
                        } else {
                            true
                        }
                    }
                },
                (Card::Normal(c1, _), Card::Joker(c2)) => {
                    if c2 != spec_current_color(cur) || self.is_joker_called() {
                        false
                    } else if giruda is Some && c1 == giruda->0 {
                        c2 == spec_color_of(giruda->0)
                    } else {
                        true
                    }
                },
                (Card::Joker(c1), Card::Normal(c2, _)) => {
                    if c1 != spec_current_color(cur) || self.is_joker_called() {
                        true
                    } else if giruda is Some && c2 == giruda->0 {
                        c1 != spec_color_of(giruda->0)
                    } else {
                        false
                    }
                },
                (Card::Joker(_), Card::Joker(c2)) => c2 == spec_current_color(cur),
            }
        }
    }
}

/// Whether rank `n1` is below rank `n2`: the ace (0) is the highest, the
/// other ranks go by number.
pub open spec fn spec_rank_lower(n1: u8, n2: u8) -> bool {
    if n1 == 0 {
        false
    } else if n2 == 0 {
        true
    } else {
        n1 < n2
    }
}

} // verus!

verus! {

/// The total length of a sequence of hands.
pub open spec fn total_len(d: Seq<Seq<Card>>) -> int
    decreases d.len(),
{
    if d.len() == 0 {
        0
    } else {
        total_len(d.drop_last()) + d.last().len()
    }
}

impl StateView {
    /// The shape that every state of a five-player game has: one entry per
    /// player in each per-player sequence, the declarer and the players to
    /// move below five, at most nine tricks played, and at most five point
    /// cards won per trick. A friend named by number is not bounded here;
    /// only scoring reads the friend's pile.
    pub open spec fn wf(self) -> bool {
        match self {
            StateView::Election { pledge, done, curr_user, start_user, deck, left } => {
                &&& pledge.len() == 5
                &&& done.len() == 5
                &&& curr_user < 5
                &&& (start_user matches Some(u) ==> u < 5)
                &&& deck.len() == 5
            },
            StateView::SelectFriend { president, pledge, deck, .. } => {
                &&& president < 5
                &&& deck.len() == 5
            },
            StateView::InGame {
                president,
                friend,
                deck,
                score_deck,
                turn_count,
                placed_cards,
                start_user,
                current_user,
                pledge,
                ..
            } => {
                &&& president < 5
                &&& deck.len() == 5
                &&& score_deck.len() == 5
                &&& placed_cards.len() == 5
                &&& start_user < 5
                &&& current_user < 5
                &&& turn_count <= 9
                &&& total_len(score_deck) <= 5 * turn_count
            },
            StateView::GameEnded { .. } => true,
        }
    }

    /// Whether `valid_users` can compute its mask: every shifted player
    /// number is below eight.
    pub open spec fn valid_users_defined(self, user_cnt: u8, ordered: bool) -> bool {
        match self {
            StateView::Election { curr_user, .. } => if ordered {
                curr_user < 8
            } else {
                user_cnt <= 8
            },
            StateView::SelectFriend { president, .. } => president < 8,
            StateView::InGame { current_user, .. } => current_user < 8,
            StateView::GameEnded { .. } => true,
        }
    }

    /// One bit for each player who may act next.
    pub open spec fn valid_users(self, user_cnt: u8, ordered: bool) -> u8 {
        match self {
            StateView::Election { curr_user, .. } => if ordered {
                1u8 << (curr_user as u8)
            } else {
                ((1u16 << user_cnt) - 1) as u8
            },
            StateView::SelectFriend { president, .. } => 1u8 << (president as u8),
            StateView::InGame { current_user, .. } => 1u8 << (current_user as u8),
            StateView::GameEnded { .. } => 0,
        }
    }
}

impl State {
    /// Whether the joker has been called in this trick.
    pub fn is_joker_called(&self) -> (b: bool)
        ensures
            b == self@.is_joker_called(),
    {
        if let State::InGame { joker_call_card, .. } = self {
            joker_call_card.is_some()
        } else {
            false
        }
    }

    /// The suit of this trick (spades outside the play).
    pub fn get_current_pattern(&self) -> (r: Rush)
        ensures
            r == self@.current_pattern(),
    {
        match self {
            State::InGame { current_pattern, .. } => *current_pattern,
            _ => Rush::from_pattern(Pattern::Spade),
        }
    }

    /// The trump suit during play.
    pub fn get_giruda(&self) -> (g: Option<Pattern>)
        ensures
            g == self@.giruda(),
    {
        match self {
            State::InGame { giruda, .. } => *giruda,
            _ => None,
        }
    }

    /// The mighty of this game.
    pub fn get_mighty(&self) -> (c: Card)
        ensures
            c == self@.mighty(),
    {
        match self {
            State::InGame { giruda: Some(Pattern::Spade), .. } => Card::Normal(Pattern::Diamond, 0),
            _ => Card::Normal(Pattern::Spade, 0),
        }
    }

    /// Whether a card with this policy pair may not be played now.
    pub fn check_card_valid(&self, c: (CardPolicy, CardPolicy)) -> (b: bool)
        ensures
            b == self@.card_invalid(c),
    {
        match self {
            State::InGame { turn_count, start_user, current_user, .. } => {
                if *turn_count == 0 {
                    c.0 == CardPolicy::Invalid || (c.0 == CardPolicy::InvalidForFirst && *current_user
                        == *start_user)
                } else {
                    c.1 == CardPolicy::Invalid || (c.1 == CardPolicy::InvalidForFirst && *current_user
                        == *start_user)
                }
            },
            _ => false,
        }
    }

    /// Whether a card with this policy pair loses its power now.
    pub fn check_card_effect(&self, c: (CardPolicy, CardPolicy)) -> (b: bool)
        ensures
            b == self@.card_no_effect(c),
    {
        match self {
            State::InGame { turn_count, .. } => {
                (*turn_count == 0 && c.0 == CardPolicy::NoEffect) || (*turn_count == 9 && c.1
                    == CardPolicy::NoEffect)
            },
            _ => false,
        }
    }

    /// Whether `rhs` beats `lhs` in the current trick.
    pub fn compare_cards(&self, lhs: &Card, rhs: &Card) -> (b: bool)
        ensures
            b == self@.beats(*lhs, *rhs),
    {
        let mighty = self.get_mighty();
        if *lhs == mighty {
            return false;
        }
        if *rhs == mighty {
            return true;
        }
        let cur_pat = self.get_current_pattern();
        let cur_color = Color::from_rush(cur_pat);
        let giruda = self.get_giruda();
        match *lhs {
            Card::Normal(c1, n1) => match *rhs {
                Card::Normal(c2, n2) => {
                    if let Some(g) = giruda {
                        if c1 == g && c2 == g {
                            return rank_lower(n1, n2);
                        } else if c1 == g || c2 == g {
                            return c2 == g;
                        }
                    }
                    let in1 = cur_pat.contains(Rush::from_pattern(c1));
                    let in2 = cur_pat.contains(Rush::from_pattern(c2));
                    if in1 && in2 {
                        rank_lower(n1, n2)
                    } else if in1 || in2 {
                        in2
                    } else {
                        true
                    }
                },
                Card::Joker(c2) => {
                    if c2 != cur_color || self.is_joker_called() {
                        false
                    } else if let Some(g) = giruda {
                        if c1 == g {
                            c2 == Color::from_pattern(g)
                        } else {
                            true
                        }
                    } else {
                        true
                    }
                },
            },
            Card::Joker(c1) => match *rhs {
                Card::Normal(c2, _) => {
                    if c1 != cur_color || self.is_joker_called() {
                        true
                    } else if let Some(g) = giruda {
                        if c2 == g {
                            c1 != Color::from_pattern(g)
                        } else {
                            false
                        }
                    } else {
                        false
                    }
                },
                Card::Joker(c2) => c2 == cur_color,
            },
        }
    }

    /// One bit for each player who may act next: the bidder whose turn it
    /// is (every player when bidding is not in turn), the declarer while
    /// naming the friend, the player to play; none once the game is over.
    pub fn valid_users(&self, rule: &Rule) -> (r: u8)
        requires
            self@.valid_users_defined(rule.user_cnt, rule.election.ordered),
        ensures
            r == self@.valid_users(rule.user_cnt, rule.election.ordered),
    {
        match self {
            State::Election { curr_user, .. } => {
                if rule.election.ordered {
                    1u8 << (*curr_user as u8)
                } else {
                    let k = rule.user_cnt as u16;
                    assert((1u16 << k) >= 1) by (bit_vector)
                        requires
                            k <= 8,
                    ;
                    ((1u16 << k) - 1) as u8
                }
            },
            State::SelectFriend { president, .. } => 1u8 << (*president as u8),
            State::InGame { current_user, .. } => 1u8 << (*current_user as u8),
            _ => 0,
        }
    }
}

/// Whether rank `n1` is below rank `n2`.
pub fn rank_lower(n1: u8, n2: u8) -> (b: bool)
    ensures
        b == spec_rank_lower(n1, n2),
{
    if n1 == 0 {
        false
    } else if n2 == 0 {
        true
    } else {
        n1 < n2
    }
}

} // verus!
