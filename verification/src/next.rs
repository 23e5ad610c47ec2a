//! A player's move applied to the state.
use vstd::prelude::*;
use crate::card::{Card, spec_card_rush};
use crate::command::Command;
use crate::election::{Roll, pass_leaves_nobody, pick, spec_election_move};
use crate::error::{Error, Expected};
use crate::friend::{drop_count, select_friend_defined, spec_change_pledge, spec_select_friend};
use crate::play::{closes_game, friend_seated, spec_go};
use crate::random::{choose_multiple, choose_one};
use crate::rule::Rule;
use crate::state::{FriendFunc, State, StateView, result_view};

verus! {

/// The cards a random declarer drops: `d` when it is a choice of the right
/// number of cards from the hand, else the first cards of the hand.
pub open spec fn random_drop(deck: Seq<Seq<Card>>, user_id: usize, rule: &Rule, d: Seq<Card>) -> Seq<Card> {
    let hand = deck[user_id as int];
    let k = drop_count(deck, user_id, rule);
    if d.len() == k && d.to_multiset().subset_of(hand.to_multiset()) {
        d
    } else {
        hand.take(k)
    }
}

/// The state after `user_id` makes the move `cmd`, with `roll` for the
/// random outcomes: bids and passes while bidding (a random move passes);
/// dropping cards and naming the friend, or changing the trump suit, while
/// naming the friend (a random move drops random cards and plays alone);
/// playing a card during play (a random move plays a random card of the
/// hand, leading its own suit set, without calling the joker). A finished
/// game stays as it is.
pub open spec fn spec_next(s: StateView, user_id: usize, cmd: Command, rule: &Rule, roll: Roll) -> Result<
    StateView,
    Error,
> {
    match s {
        StateView::Election { .. } => match cmd {
            Command::Pledge(x) => spec_election_move(s, user_id, x, rule, roll),
            Command::Random => spec_election_move(s, user_id, None, rule, roll),
            _ => Err(Error::InvalidCommand(Expected::Pledge)),
        },
        StateView::SelectFriend { deck, .. } => match cmd {
            Command::SelectFriend(drops, ff) => spec_select_friend(s, user_id, drops@, ff, rule),
            Command::ChangePledge(ng) => spec_change_pledge(s, ng, rule),
            Command::Random => spec_select_friend(
                s,
                user_id,
                random_drop(deck, user_id, rule, roll.drop),
                FriendFunc::NoFriend,
                rule,
            ),
            _ => Err(Error::InvalidCommand(Expected::Pledge)),
        },
        StateView::InGame { deck, .. } => match cmd {
            Command::Go(card, rush_type, ujc) => spec_go(s, user_id, card, rush_type, ujc, rule),
            Command::Random => {
                let c = pick(deck[user_id as int], roll.card);
                spec_go(s, user_id, c, spec_card_rush(c), false, rule)
            },
            _ => Err(Error::InvalidCommand(Expected::Go)),
        },
        StateView::GameEnded { .. } => Ok(s),
    }
}

/// Whether a move is a pass (a bid of nothing, or a random move).
pub open spec fn is_pass(cmd: Command) -> bool {
    match cmd {
        Command::Pledge(None) => true,
        Command::Random => true,
        _ => false,
    }
}

/// The inputs on which a move runs without fault: a pass that ends the
/// bidding leaves somebody to choose as declarer; the dropping player's hand
/// is not smaller than the next one and a friend named by a card is held by
/// somebody; a random card is played from a hand that is not empty.
pub open spec fn next_defined(s: StateView, user_id: usize, cmd: Command, rule: &Rule) -> bool {
    match s {
        StateView::Election { curr_user, start_user, .. } => {
            (is_pass(cmd) && (curr_user == user_id || !rule.election.ordered) && (rule.election.pass_first
                || start_user is Some)) ==> !pass_leaves_nobody(s, user_id, rule)
        },
        StateView::SelectFriend { deck, .. } => match cmd {
            Command::SelectFriend(drops, ff) => select_friend_defined(s, user_id, drops@, ff, rule),
            Command::Random => drop_count(deck, user_id, rule) >= 0,
            _ => true,
        },
        StateView::InGame { deck, .. } => match cmd {
            Command::Random => deck[user_id as int].len() > 0,
            _ => true,
        },
        StateView::GameEnded { .. } => true,
    }
}

/// Whether the move reads a player's entry of the state (and so needs the
/// shape of a five-player game): every move of the phase except a move of the wrong kind, a bid or pass
/// out of turn when bids go in turn, and a pass before any bid where that
/// is not allowed (these are refused at once) and any move once the game is
/// over. Changing the trump suit reads no player's data.
pub open spec fn next_reads_players(s: StateView, user_id: usize, cmd: Command, rule: &Rule) -> bool {
    match s {
        StateView::Election { curr_user, start_user, .. } => match cmd {
            Command::Pledge(x) => !(curr_user != user_id && rule.election.ordered) && !(x is None
                && !rule.election.pass_first && start_user is None),
            Command::Random => !(curr_user != user_id && rule.election.ordered) && !(!rule.election.pass_first
                && start_user is None),
            _ => false,
        },
        StateView::SelectFriend { .. } => cmd is SelectFriend || cmd is Random,
        StateView::InGame { .. } => cmd is Go || cmd is Random,
        StateView::GameEnded { .. } => false,
    }
}

impl State {
    /// The state after `user_id` makes the move `cmd` (see `spec_next`);
    /// the random outcomes are drawn by the `rand` crate.
    pub fn next(&self, user_id: usize, cmd: Command, rule: &Rule) -> (r: Result<State, Error>)
        requires
            next_reads_players(self@, user_id, cmd, rule) ==> self@.wf() && user_id < 5,
            next_reads_players(self@, user_id, cmd, rule) && !(self@ is InGame) ==> rule.wf(),
            next_reads_players(self@, user_id, cmd, rule) && closes_game(self@) ==> friend_seated(self@),
            next_defined(self@, user_id, cmd, rule),
        ensures
            exists|roll: Roll| result_view(r) == #[trigger] spec_next(self@, user_id, cmd, rule, roll),
    {
        let ghost any = Roll { president: 0, bid: (None, 0), drop: Seq::empty(), card: Card::Joker(crate::card::Color::Black) };
        match self {
            State::Election { curr_user, .. } => {
                let x = match cmd {
                    Command::Pledge(x) => x,
                    Command::Random => None,
                    _ => {
                        let r = Err(Error::InvalidCommand(Expected::Pledge));
                        assert(result_view(r) == spec_next(self@, user_id, cmd, rule, any));
                        return r;
                    },
                };
                if *curr_user != user_id && rule.election.ordered {
                    let r = Err(Error::InvalidOrder);
                    assert(result_view(r) == spec_next(self@, user_id, cmd, rule, any));
                    return r;
                }
                match x {
                    Some((c, p)) => {
                        let r = self.bid(user_id, c, p, rule);
                        assert(result_view(r) == spec_next(self@, user_id, cmd, rule, any));
                        r
                    },
                    None => {
                        if !rule.election.pass_first && match self {
                            State::Election { start_user, .. } => start_user.is_none(),
                            _ => false,
                        } {
                            let r = Err(Error::PassFirst);
                            assert(result_view(r) == spec_next(self@, user_id, cmd, rule, any));
                            return r;
                        }
                        let r = self.pass(user_id, rule);
                        let ghost roll = choose|roll: Roll| result_view(r) == crate::election::spec_pass(self@, user_id, rule, roll);
                        assert(result_view(r) == spec_next(self@, user_id, cmd, rule, roll));
                        r
                    },
                }
            },
            State::SelectFriend { deck, .. } => match cmd {
                Command::SelectFriend(drops, ff) => {
                    let r = self.select_friend(user_id, &drops, ff, rule);
                    assert(result_view(r) == spec_next(self@, user_id, cmd, rule, any));
                    r
                },
                Command::ChangePledge(ng) => {
                    let r = self.change_pledge(ng, rule);
                    assert(result_view(r) == spec_next(self@, user_id, cmd, rule, any));
                    r
                },
                Command::Random => {
                    let next = (user_id + 1) % (rule.user_cnt as usize);
                    let k = deck[user_id].len() - deck[next].len();
                    let drops = choose_multiple(&deck[user_id], k);
                    let ghost roll = Roll { drop: drops@, ..any };
                    assert(random_drop(crate::state::decks_view(*deck), user_id, rule, roll.drop) == drops@);
                    let r = self.select_friend(user_id, &drops, FriendFunc::NoFriend, rule);
                    assert(result_view(r) == spec_next(self@, user_id, cmd, rule, roll));
                    r
                },
                _ => {
                    let r = Err(Error::InvalidCommand(Expected::Pledge));
                    assert(result_view(r) == spec_next(self@, user_id, cmd, rule, any));
                    r
                },
            },
            State::InGame { deck, .. } => match cmd {
                Command::Go(card, rush_type, ujc) => {
                    let r = self.go(user_id, card, rush_type, ujc, rule);
                    assert(result_view(r) == spec_next(self@, user_id, cmd, rule, any));
                    r
                },
                Command::Random => {
                    let c = choose_one(&deck[user_id]).unwrap();
                    let ghost roll = Roll { card: c, ..any };
                    let r = self.go(user_id, c, crate::card::Rush::from_card(c), false, rule);
                    assert(result_view(r) == spec_next(self@, user_id, cmd, rule, roll));
                    r
                },
                _ => {
                    let r = Err(Error::InvalidCommand(Expected::Go));
                    assert(result_view(r) == spec_next(self@, user_id, cmd, rule, any));
                    r
                },
            },
            State::GameEnded { winner, president, friend, score, pledge, giruda } => {
                let r = Ok(
                    State::GameEnded {
                        winner: *winner,
                        president: *president,
                        friend: *friend,
                        score: *score,
                        pledge: *pledge,
                        giruda: *giruda,
                    },
                );
                assert(result_view(r) == spec_next(self@, user_id, cmd, rule, any));
                r
            },
        }
    }
}

} // verus!
