//! The friend phase: the declarer drops cards, may change the trump suit,
//! and names the friend.
use vstd::prelude::*;
use crate::card::{Card, Pattern, Rush, spec_pattern_bits};
use crate::error::Error;
use crate::hand::{drop_all, holder, spec_drop_all, spec_holder};
use crate::rule::{CardPolicy, Rule};
use crate::state::{FriendFunc, State, StateView, decks_view, result_view};
use crate::vecs::{copy_decks, set_hand};

verus! {

/// The number of cards the player must drop: his hand's excess over the
/// next player's hand.
pub open spec fn drop_count(deck: Seq<Seq<Card>>, user_id: usize, rule: &Rule) -> int {
    deck[user_id as int].len() - deck[((user_id + 1) % (rule.user_cnt as int))].len()
}

/// Five empty point piles.
pub open spec fn empty_piles() -> Seq<Seq<Card>> {
    seq![Seq::empty(), Seq::empty(), Seq::empty(), Seq::empty(), Seq::empty()]
}

/// The placed cards before the first trick.
pub open spec fn initial_placed() -> Seq<(Card, CardPolicy)> {
    let e = (Card::Normal(Pattern::Spade, 0), CardPolicy::Valid);
    seq![e, e, e, e, e]
}

/// The first trick, led by the declarer.
pub open spec fn spec_start_play(
    president: usize,
    giruda: Option<Pattern>,
    pledge: u8,
    deck: Seq<Seq<Card>>,
    ff: FriendFunc,
    friend: Option<usize>,
) -> StateView {
    StateView::InGame {
        president,
        friend_func: ff,
        friend,
        is_friend_known: ff is NoFriend || ff is ByUser,
        giruda,
        pledge,
        deck,
        score_deck: empty_piles(),
        turn_count: 0,
        placed_cards: initial_placed(),
        start_user: president,
        current_user: president,
        current_pattern: Rush { bits: spec_pattern_bits(Pattern::Spade) },
        joker_call_card: None,
        joker_call_effect: false,
    }
}

/// The declarer `user_id` drops `drops` and names the friend by `ff`: the
/// number of cards must be right, each card must be in the hand, and the
/// rule must allow the way the friend is named (a card in the declarer's
/// own hand only when the rule allows a fake).
pub open spec fn spec_select_friend(
    s: StateView,
    user_id: usize,
    drops: Seq<Card>,
    ff: FriendFunc,
    rule: &Rule,
) -> Result<StateView, Error> {
    match s {
        StateView::SelectFriend { president, giruda, pledge, deck } => {
            if drops.len() != drop_count(deck, user_id, rule) {
                Err(Error::DropCard)
            } else {
                match spec_drop_all(deck[user_id as int], drops) {
                    None => Err(Error::NotInDeck),
                    Some(h) => {
                        let deck2 = deck.update(user_id as int, h);
                        match ff {
                            FriendFunc::ByCard(c) => {
                                if !rule.friend.card {
                                    Err(Error::InvalidFriendFunc)
                                } else {
                                    let t = spec_holder(deck2, c)->0;
                                    if t == president && !rule.friend.fake {
                                        Err(Error::InvalidFriendFunc)
                                    } else {
                                        Ok(spec_start_play(president, giruda, pledge, deck2, ff, Some(t as usize)))
                                    }
                                }
                            },
                            FriendFunc::ByUser(u) => Ok(
                                spec_start_play(
                                    president,
                                    giruda,
                                    pledge,
                                    deck2,
                                    ff,
                                    if u != president {
                                        Some(u)
                                    } else {
                                        None
                                    },
                                ),
                            ),
                            FriendFunc::NoFriend => {
                                if !rule.friend.none {
                                    Err(Error::InvalidFriendFunc)
                                } else {
                                    Ok(spec_start_play(president, giruda, pledge, deck2, ff, None))
                                }
                            },
                            _ => Ok(spec_start_play(president, giruda, pledge, deck2, ff, None)),
                        }
                    },
                }
            }
        },
        _ => Err(Error::Internal),
    }
}

/// The inputs on which choosing the friend runs without fault: the
/// player's hand is not smaller than the next player's, and a friend named
/// by a card that the rule allows is held by somebody after the drop.
pub open spec fn select_friend_defined(
    s: StateView,
    user_id: usize,
    drops: Seq<Card>,
    ff: FriendFunc,
    rule: &Rule,
) -> bool {
    match s {
        StateView::SelectFriend { deck, .. } => {
            &&& drop_count(deck, user_id, rule) >= 0
            &&& (drops.len() == drop_count(deck, user_id, rule) && rule.friend.card && ff is ByCard
                && spec_drop_all(deck[user_id as int], drops) is Some) ==> spec_holder(
                deck.update(user_id as int, spec_drop_all(deck[user_id as int], drops)->0),
                ff->ByCard_0,
            ) is Some
        },
        _ => true,
    }
}

/// The bid after the declarer changes the trump suit from `giruda` to
/// `new_giruda`: the change cost is added, and the no-trump offset is taken
/// off or put on when no trump is left or taken.
pub open spec fn changed_pledge(pledge: u8, giruda: Option<Pattern>, new_giruda: Option<Pattern>, rule: &Rule) -> u8 {
    let ngo = rule.pledge.no_giruda_offset as int;
    let cc = rule.pledge.change_cost as int;
    if giruda is None {
        (pledge as int - ngo + cc) as u8
    } else if new_giruda is None {
        (pledge as int + ngo + cc) as u8
    } else {
        (pledge as int + cc) as u8
    }
}

/// The declarer changes the trump suit to `new_giruda`.
pub open spec fn spec_change_pledge(s: StateView, new_giruda: Option<Pattern>, rule: &Rule) -> Result<
    StateView,
    Error,
> {
    match s {
        StateView::SelectFriend { president, giruda, pledge, deck } => {
            if giruda == new_giruda {
                Err(Error::SameGiruda)
            } else {
                let np = changed_pledge(pledge, giruda, new_giruda, rule);
                if np > rule.pledge.max {
                    Err(Error::InvalidPledge(true, rule.pledge.max))
                } else {
                    Ok(StateView::SelectFriend { president, giruda: new_giruda, pledge: np, deck })
                }
            }
        },
        _ => Err(Error::Internal),
    }
}

/// Five empty piles.
fn empty_piles_of() -> (r: Vec<Vec<Card>>)
    ensures
        decks_view(r) == empty_piles(),
        r@.len() == 5,
{
    let mut r: Vec<Vec<Card>> = Vec::new();
    r.push(Vec::new());
    r.push(Vec::new());
    r.push(Vec::new());
    r.push(Vec::new());
    r.push(Vec::new());
    assert(decks_view(r) =~= empty_piles());
    r
}

fn start_play(
    president: usize,
    giruda: Option<Pattern>,
    pledge: u8,
    deck: Vec<Vec<Card>>,
    ff: FriendFunc,
    friend: Option<usize>,
) -> (s: State)
    ensures
        s@ == spec_start_play(president, giruda, pledge, decks_view(deck), ff, friend),
{
    let e = (Card::Normal(Pattern::Spade, 0), CardPolicy::Valid);
    let mut placed: Vec<(Card, CardPolicy)> = Vec::new();
    placed.push(e);
    placed.push(e);
    placed.push(e);
    placed.push(e);
    placed.push(e);
    assert(placed@ =~= initial_placed());
    let is_friend_known = match ff {
        FriendFunc::NoFriend => true,
        FriendFunc::ByUser(_) => true,
        _ => false,
    };
    State::InGame {
        president,
        friend_func: ff,
        friend,
        is_friend_known,
        giruda,
        pledge,
        deck,
        score_deck: empty_piles_of(),
        turn_count: 0,
        placed_cards: placed,
        start_user: president,
        current_user: president,
        current_pattern: Rush::from_pattern(Pattern::Spade),
        joker_call_card: None,
        joker_call_effect: false,
    }
}

impl State {
    /// The declarer `user_id` drops `drops` and names the friend by `ff`.
    pub fn select_friend(&self, user_id: usize, drops: &Vec<Card>, ff: FriendFunc, rule: &Rule) -> (r: Result<
        State,
        Error,
    >)
        requires
            self@ is SelectFriend,
            self@.wf(),
            user_id < 5,
            rule.wf(),
            select_friend_defined(self@, user_id, drops@, ff, rule),
        ensures
            result_view(r) == spec_select_friend(self@, user_id, drops@, ff, rule),
    {
        match self {
            State::SelectFriend { president, giruda, pledge, deck } => {
                let next = (user_id + 1) % (rule.user_cnt as usize);
                if drops.len() != deck[user_id].len() - deck[next].len() {
                    return Err(Error::DropCard);
                }
                let h = match drop_all(&deck[user_id], drops) {
                    Some(h) => h,
                    None => {
                        return Err(Error::NotInDeck);
                    },
                };
                let mut deck2 = copy_decks(deck);
                set_hand(&mut deck2, user_id, h);
                let friend = match ff {
                    FriendFunc::ByCard(c) => {
                        if !rule.friend.card {
                            return Err(Error::InvalidFriendFunc);
                        }
                        let t = holder(&deck2, c).unwrap();
                        if t == *president && !rule.friend.fake {
                            return Err(Error::InvalidFriendFunc);
                        }
                        Some(t)
                    },
                    FriendFunc::ByUser(u) => if u != *president {
                        Some(u)
                    } else {
                        None
                    },
                    FriendFunc::NoFriend => {
                        if !rule.friend.none {
                            return Err(Error::InvalidFriendFunc);
                        }
                        None
                    },
                    _ => None,
                };
                Ok(start_play(*president, *giruda, *pledge, deck2, ff, friend))
            },
            _ => Err(Error::Internal),
        }
    }

    /// The declarer changes the trump suit to `new_giruda`.
    pub fn change_pledge(&self, new_giruda: Option<Pattern>, rule: &Rule) -> (r: Result<State, Error>)
        requires
            self@ is SelectFriend,
        ensures
            result_view(r) == spec_change_pledge(self@, new_giruda, rule),
    {
        match self {
            State::SelectFriend { president, giruda, pledge, deck } => {
                if *giruda == new_giruda {
                    return Err(Error::SameGiruda);
                }
                let ngo = rule.pledge.no_giruda_offset as i16;
                let cc = rule.pledge.change_cost as i16;
                let p = *pledge as i16;
                let v: i16 = if giruda.is_none() {
                    p - ngo + cc
                } else if new_giruda.is_none() {
                    p + ngo + cc
                } else {
                    p + cc
                };
                let np = v as u8;
                if np > rule.pledge.max {
                    return Err(Error::InvalidPledge(true, rule.pledge.max));
                }
                Ok(State::SelectFriend { president: *president, giruda: new_giruda, pledge: np, deck: copy_decks(deck) })
            },
            _ => Err(Error::Internal),
        }
    }
}

} // verus!
