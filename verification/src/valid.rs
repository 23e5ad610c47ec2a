//! Checking a move before it is sent, as a player's client does.
use vstd::prelude::*;
use crate::card::{Card, Pattern, Rush, spec_card_rush};
use crate::command::Command;
use crate::election::{max_bid, max_bid_of, required_bid, required_bid_of};
use crate::error::{Error, Expected};
use crate::friend::spec_change_pledge;
use crate::hand::{drop_all, holder, position, spec_drop_all, spec_holder};
use crate::play::{
    all_complement,
    all_complement_of,
    is_giruda_rush,
    only_called_or,
    only_called_or_of,
    spec_lead,
};
use crate::rule::{Rule, lookup, spec_lookup};
use crate::state::{FriendFunc, State, StateView, decks_view};
use crate::vecs::{copy_decks, set_hand};

verus! {

/// The joker-call cards as a client reckons them: of each pair, the first
/// card when its suit is the trump's, else the second (the game itself
/// takes the pair the other way round, see `joker_calls`).
pub open spec fn client_joker_calls(cards: Seq<(Card, Card)>, giruda: Option<Pattern>) -> Seq<Card> {
    cards.map_values(
        |p: (Card, Card)|
            if is_giruda_rush(giruda, spec_card_rush(p.0)) {
                p.0
            } else {
                p.1
            },
    )
}

/// The client's joker-call card of one pair.
fn client_joker_call(p: (Card, Card), giruda: Option<Pattern>) -> (c: Card)
    ensures
        c == (if is_giruda_rush(giruda, spec_card_rush(p.0)) {
            p.0
        } else {
            p.1
        }),
{
    let same = match giruda {
        Some(y) => Rush::from_pattern(y) == Rush::from_card(p.0),
        None => false,
    };
    if same {
        p.0
    } else {
        p.1
    }
}

/// The bid check of a client: as in the bidding, except that the turn is
/// not checked and the minimum is raised before the offsets are applied.
pub open spec fn spec_bid_valid(s: StateView, user_id: usize, c: Option<crate::card::Pattern>, p: u8, rule: &Rule) -> Result<
    (),
    Error,
> {
    match s {
        StateView::Election { pledge, done, start_user, .. } => {
            if p > rule.pledge.max {
                Err(Error::InvalidPledge(true, rule.pledge.max))
            } else if c is None && !rule.election.no_giruda_exist {
                Err(Error::InvalidPledge(true, 0))
            } else if done[user_id as int] {
                Err(Error::InvalidPledge(true, 0))
            } else {
                let su = match start_user {
                    Some(u) => u,
                    None => user_id,
                };
                let m = max_bid(pledge);
                let base = if m > rule.pledge.min { m } else { rule.pledge.min };
                let need = required_bid(base, c, su == user_id, rule);
                if p < need {
                    Err(Error::InvalidPledge(false, need))
                } else if p == need && rule.election.increasing {
                    Err(Error::InvalidPledge(false, need))
                } else {
                    Ok(())
                }
            }
        },
        _ => Err(Error::Internal),
    }
}

/// The friend check of a client: as when naming the friend, without the
/// count of dropped cards.
pub open spec fn spec_select_valid(s: StateView, user_id: usize, drops: Seq<Card>, ff: FriendFunc, rule: &Rule) -> Result<
    (),
    Error,
> {
    match s {
        StateView::SelectFriend { president, deck, .. } => match spec_drop_all(deck[user_id as int], drops) {
            None => Err(Error::NotInDeck),
            Some(h) => {
                let deck2 = deck.update(user_id as int, h);
                match ff {
                    FriendFunc::ByCard(c) => if !rule.friend.card {
                        Err(Error::InvalidFriendFunc)
                    } else if spec_holder(deck2, c)->0 == president && !rule.friend.fake {
                        Err(Error::InvalidFriendFunc)
                    } else {
                        Ok(())
                    },
                    FriendFunc::NoFriend => if !rule.friend.none {
                        Err(Error::InvalidFriendFunc)
                    } else {
                        Ok(())
                    },
                    _ => Ok(()),
                }
            },
        },
        _ => Err(Error::Internal),
    }
}

/// The first- and last-trick check of a client: the mighty or a listed card
/// that may not be played, then a trump, a joker-call card that calls, or a
/// joker that may not be played.
pub open spec fn spec_edge_valid(s: StateView, card: Card, ujc: bool, jcalls: Seq<Card>, rule: &Rule) -> bool {
    let cp = rule.card_policy;
    if (card == s.mighty() && s.card_invalid(cp.mighty)) || (spec_lookup(cp.card@, card) matches Some(y)
        && s.card_invalid(y)) {
        false
    } else {
        match card {
            Card::Normal(t, _) => !(Some(t) == s.giruda() && s.card_invalid(cp.giruda)) && !(jcalls.contains(
                card,
            ) && ujc && s.card_invalid(cp.joker_call)),
            Card::Joker(_) => !s.card_invalid(cp.joker),
        }
    }
}

/// The play check of a client: the joker call, the hand, the first and
/// last trick, the leader's trump and joker suit, and the follower's suit
/// (with no exception for the mighty). The joker-call cards are taken from
/// the first two pairs of the rule as `client_joker_calls` says.
pub open spec fn spec_go_valid(s: StateView, user_id: usize, card: Card, rush_type: Rush, ujc: bool, rule: &Rule) -> Result<
    (),
    Error,
> {
    match s {
        StateView::InGame {
            giruda,
            deck,
            turn_count,
            start_user,
            current_user,
            current_pattern,
            joker_call_card,
            ..
        } => {
            let jcalls = client_joker_calls(rule.joker_call.cards@.take(2), giruda);
            let hand = deck[user_id as int];
            if joker_call_card is Some && !only_called_or(hand, joker_call_card, card) {
                Err(Error::JokerCall)
            } else if hand.index_of_first(card) is None {
                Err(Error::NotInDeck)
            } else if (turn_count == 0 || turn_count == 9) && !spec_edge_valid(s, card, ujc, jcalls, rule) {
                Err(Error::WrongCard)
            } else if current_user == start_user {
                match spec_lead(s, hand, card, rush_type, ujc, jcalls, rule) {
                    Err(e) => Err(e),
                    Ok(_) => Ok(()),
                }
            } else if !all_complement(hand, current_pattern) && current_pattern.spec_complement()
                == spec_card_rush(card) {
                Err(Error::WrongCard)
            } else {
                Ok(())
            }
        },
        _ => Err(Error::Internal),
    }
}

/// Whether `user_id` may make the move `cmd`, as a player's client checks
/// it before sending: the checks of `next` without the turn order while
/// bidding, without the count of dropped cards, and without random moves.
pub open spec fn spec_is_valid_command(s: StateView, user_id: usize, cmd: Command, rule: &Rule) -> Result<
    (),
    Error,
> {
    match s {
        StateView::Election { start_user, .. } => match cmd {
            Command::Pledge(Some((c, p))) => spec_bid_valid(s, user_id, c, p, rule),
            Command::Pledge(None) => if !rule.election.pass_first && start_user is None {
                Err(Error::PassFirst)
            } else {
                Ok(())
            },
            _ => Err(Error::InvalidCommand(Expected::Pledge)),
        },
        StateView::SelectFriend { .. } => match cmd {
            Command::SelectFriend(drops, ff) => spec_select_valid(s, user_id, drops@, ff, rule),
            Command::ChangePledge(ng) => match spec_change_pledge(s, ng, rule) {
                Ok(_) => Ok(()),
                Err(e) => Err(e),
            },
            _ => Err(Error::InvalidCommand(Expected::Pledge)),
        },
        StateView::InGame { .. } => match cmd {
            Command::Go(card, rush_type, ujc) => spec_go_valid(s, user_id, card, rush_type, ujc, rule),
            _ => Err(Error::InvalidCommand(Expected::Go)),
        },
        StateView::GameEnded { .. } => Ok(()),
    }
}

/// The inputs on which the client check runs without fault: a friend named
/// by a card that the rule allows is held by somebody after the drop, and
/// the rule lists at least two joker-call pairs for a play.
pub open spec fn is_valid_command_defined(s: StateView, user_id: usize, cmd: Command, rule: &Rule) -> bool {
    match s {
        StateView::SelectFriend { deck, .. } => match cmd {
            Command::SelectFriend(drops, ff) => (rule.friend.card && ff is ByCard && spec_drop_all(
                deck[user_id as int],
                drops@,
            ) is Some) ==> spec_holder(
                deck.update(user_id as int, spec_drop_all(deck[user_id as int], drops@)->0),
                ff->ByCard_0,
            ) is Some,
            _ => true,
        },
        StateView::InGame { .. } => match cmd {
            Command::Go(..) => rule.joker_call.cards@.len() >= 2,
            _ => true,
        },
        _ => true,
    }
}

/// Whether the client check reads a player's entry of the state (and so
/// needs the shape of a five-player game): a bid, naming the friend, and a
/// play.
pub open spec fn check_reads_players(s: StateView, cmd: Command) -> bool {
    match s {
        StateView::Election { .. } => cmd matches Command::Pledge(Some(_)),
        StateView::SelectFriend { .. } => cmd is SelectFriend,
        StateView::InGame { .. } => cmd is Go,
        StateView::GameEnded { .. } => false,
    }
}

impl State {
    /// Whether `user_id` may make the move `cmd` (see `spec_is_valid_command`).
    pub fn is_valid_command(&self, user_id: usize, cmd: Command, rule: &Rule) -> (r: Result<(), Error>)
        requires
            check_reads_players(self@, cmd) ==> self@.wf() && user_id < 5,
            check_reads_players(self@, cmd) && !(self@ is InGame) ==> rule.wf(),
            is_valid_command_defined(self@, user_id, cmd, rule),
        ensures
            r == spec_is_valid_command(self@, user_id, cmd, rule),
    {
        match self {
            State::Election { pledge, done, start_user, .. } => match cmd {
                Command::Pledge(Some((c, p))) => {
                    if p > rule.pledge.max {
                        return Err(Error::InvalidPledge(true, rule.pledge.max));
                    }
                    if c.is_none() && !rule.election.no_giruda_exist {
                        return Err(Error::InvalidPledge(true, 0));
                    }
                    if done[user_id] {
                        return Err(Error::InvalidPledge(true, 0));
                    }
                    let su = match start_user {
                        Some(u) => *u,
                        None => user_id,
                    };
                    let m = max_bid_of(pledge);
                    let base = if m > rule.pledge.min { m } else { rule.pledge.min };
                    let need = required_bid_of(base, c, su == user_id, rule);
                    if p < need {
                        return Err(Error::InvalidPledge(false, need));
                    }
                    if p == need && rule.election.increasing {
                        return Err(Error::InvalidPledge(false, need));
                    }
                    Ok(())
                },
                Command::Pledge(None) => {
                    if !rule.election.pass_first && start_user.is_none() {
                        return Err(Error::PassFirst);
                    }
                    Ok(())
                },
                _ => Err(Error::InvalidCommand(Expected::Pledge)),
            },
            State::SelectFriend { president, deck, .. } => match cmd {
                Command::SelectFriend(drops, ff) => {
                    let h = match drop_all(&deck[user_id], &drops) {
                        Some(h) => h,
                        None => {
                            return Err(Error::NotInDeck);
                        },
                    };
                    let mut deck2 = copy_decks(deck);
                    set_hand(&mut deck2, user_id, h);
                    match ff {
                        FriendFunc::ByCard(c) => {
                            if !rule.friend.card {
                                return Err(Error::InvalidFriendFunc);
                            }
                            let t = holder(&deck2, c).unwrap();
                            if t == *president && !rule.friend.fake {
                                return Err(Error::InvalidFriendFunc);
                            }
                        },
                        FriendFunc::NoFriend => {
                            if !rule.friend.none {
                                return Err(Error::InvalidFriendFunc);
                            }
                        },
                        _ => {},
                    }
                    Ok(())
                },
                Command::ChangePledge(ng) => match self.change_pledge(ng, rule) {
                    Ok(_) => Ok(()),
                    Err(e) => Err(e),
                },
                _ => Err(Error::InvalidCommand(Expected::Pledge)),
            },
            State::InGame {
                giruda,
                deck,
                turn_count,
                start_user,
                current_user,
                current_pattern,
                joker_call_card,
                ..
            } => match cmd {
                Command::Go(card, rush_type, ujc) => {
                    let mut jcalls: Vec<Card> = Vec::new();
                    jcalls.push(client_joker_call(rule.joker_call.cards[0], *giruda));
                    jcalls.push(client_joker_call(rule.joker_call.cards[1], *giruda));
                    assert(jcalls@ =~= client_joker_calls(rule.joker_call.cards@.take(2), *giruda));
                    let hand = &deck[user_id];
                    assert(hand@ == decks_view(*deck)[user_id as int]);
                    if joker_call_card.is_some() && !only_called_or_of(hand, *joker_call_card, card) {
                        return Err(Error::JokerCall);
                    }
                    if position(hand, card).is_none() {
                        return Err(Error::NotInDeck);
                    }
                    if *turn_count == 0 || *turn_count == 9 {
                        if !self.edge_valid(card, ujc, &jcalls, rule) {
                            return Err(Error::WrongCard);
                        }
                    }
                    if *current_user == *start_user {
                        match self.lead(hand, card, rush_type, ujc, &jcalls, rule) {
                            Err(e) => Err(e),
                            Ok(_) => Ok(()),
                        }
                    } else if !all_complement_of(hand, *current_pattern) && current_pattern.complement()
                        == Rush::from_card(card) {
                        Err(Error::WrongCard)
                    } else {
                        Ok(())
                    }
                },
                _ => Err(Error::InvalidCommand(Expected::Go)),
            },
            State::GameEnded { .. } => Ok(()),
        }
    }

    /// The first- and last-trick check of a client.
    pub fn edge_valid(&self, card: Card, ujc: bool, jcalls: &Vec<Card>, rule: &Rule) -> (b: bool)
        ensures
            b == spec_edge_valid(self@, card, ujc, jcalls@, rule),
    {
        let cp = &rule.card_policy;
        let listed_invalid = match lookup(&cp.card, card) {
            Some(y) => self.check_card_valid(y),
            None => false,
        };
        if (card == self.get_mighty() && self.check_card_valid(cp.mighty)) || listed_invalid {
            return false;
        }
        match card {
            Card::Normal(t, _) => {
                !(Some(t) == self.get_giruda() && self.check_card_valid(cp.giruda)) && !(
                crate::hand::contains_card(jcalls, card) && ujc && self.check_card_valid(cp.joker_call))
            },
            Card::Joker(_) => !self.check_card_valid(cp.joker),
        }
    }
}

} // verus!
