//! Every move keeps the shape of a five-player game.
use vstd::prelude::*;
use crate::card::Card;
use crate::command::Command;
use crate::election::{
    Roll,
    election_result,
    fallback_bids,
    lemma_not_done_bounded,
    lemma_top_bidders,
    not_done,
    pass_leaves_nobody,
    pick,
    spec_bid,
    spec_pass,
};
use crate::friend::{empty_piles, select_friend_defined, spec_change_pledge, spec_select_friend};
use crate::hand::spec_holder;
use crate::next::{next_defined, random_drop, spec_next};
use crate::play::{
    lemma_score_cards_len,
    lemma_total_len_update,
    score_cards,
    spec_go,
    trick_winner,
    winner_scan,
    winner_scan_all,
};
use crate::rule::{CardPolicy, Rule};
use crate::state::{Bid, FriendFunc, StateView, total_len};

verus! {

/// An accepted bid keeps the shape of the bidding.
proof fn lemma_bid_wf(s: StateView, user_id: usize, c: Option<crate::card::Pattern>, p: u8, rule: &Rule)
    requires
        s is Election,
        s.wf(),
        rule.wf(),
        user_id < 5,
    ensures
        spec_bid(s, user_id, c, p, rule) matches Ok(s2) ==> s2.wf(),
{
}

/// Whether player `k` holds a bid of `top`.
spec fn holds_bid(pl: Seq<Option<Bid>>, k: usize, top: u8) -> bool {
    pl[k as int] matches Some(b) && b.1 == top
}

/// The candidates at the end of the bidding are player numbers, and each
/// holds the winning bid when it is not 0.
proof fn lemma_election_result(pl: Seq<Option<Bid>>, done: Seq<bool>, rule: &Rule)
    requires
        pl.len() == 5,
        done.len() == 5,
        rule.user_cnt == 5,
    ensures
        election_result(pl, done, rule) matches Some((cand, top)) ==> forall|i: int|
            0 <= i < cand.len() ==> #[trigger] cand[i] < 5 && (top != 0 ==> holds_bid(pl, cand[i], top)),
{
    lemma_not_done_bounded(done);
    lemma_top_bidders(pl, 5);
    let nd = not_done(done);
    if rule.election.ordered && nd.len() == 1 {
        assert(nd[0] < 5);
    }
}

/// A pass keeps the shape of the game, given somebody to choose as
/// declarer.
proof fn lemma_pass_wf(s: StateView, user_id: usize, rule: &Rule, roll: Roll)
    requires
        s is Election,
        s.wf(),
        rule.wf(),
        user_id < 5,
        !pass_leaves_nobody(s, user_id, rule),
    ensures
        spec_pass(s, user_id, rule, roll) matches Ok(s2) ==> s2.wf(),
{
    let pl = s->Election_pledge;
    let done2 = s->Election_done.update(user_id as int, true);
    lemma_election_result(pl, done2, rule);
    if let Some((cand, top)) = election_result(pl, done2, rule) {
        let president = pick(cand, roll.president);
        assert(cand.len() > 0);
        if cand.contains(roll.president) {
            let k = choose|k: int| 0 <= k < cand.len() && cand[k] == roll.president;
            assert(cand[k] < 5);
        } else {
            assert(cand[0] < 5);
        }
        assert(president < 5);
        if top != 0 {
            let k = choose|k: int| 0 <= k < cand.len() && cand[k] == president;
            assert(cand[k] < 5);
            assert(holds_bid(pl, president, top));
        }
    }
}

/// The holder of a card is a player number.
proof fn lemma_holder_bounded(deck: Seq<Seq<Card>>, c: Card)
    ensures
        spec_holder(deck, c) matches Some(i) ==> 0 <= i < deck.len(),
{
    deck.map_values(|h: Seq<Card>| h.contains(c)).index_of_first_ensures(true);
}

/// Naming the friend keeps the shape of the game.
proof fn lemma_select_friend_wf(s: StateView, user_id: usize, drops: Seq<Card>, ff: FriendFunc, rule: &Rule)
    requires
        s is SelectFriend,
        s.wf(),
        rule.wf(),
        user_id < 5,
        select_friend_defined(s, user_id, drops, ff, rule),
    ensures
        spec_select_friend(s, user_id, drops, ff, rule) matches Ok(s2) ==> s2.wf(),
{
    if let Ok(s2) = spec_select_friend(s, user_id, drops, ff, rule) {
        let deck = s->SelectFriend_deck;
        let h = crate::hand::spec_drop_all(deck[user_id as int], drops)->0;
        lemma_holder_bounded(deck.update(user_id as int, h), ff->ByCard_0);
        assert(total_len(empty_piles()) == 0) by {
            reveal_with_fuel(total_len, 6);
        }
    }
}

/// Changing the trump suit keeps the shape of the game.
proof fn lemma_change_pledge_wf(s: StateView, ng: Option<crate::card::Pattern>, rule: &Rule)
    requires
        s is SelectFriend,
        s.wf(),
        rule.wf(),
    ensures
        spec_change_pledge(s, ng, rule) matches Ok(s2) ==> s2.wf(),
{
}

/// The scans of a trick give a player number, and the scan that ignores
/// powers always gives one.
proof fn lemma_winner_scans(s: StateView, placed: Seq<(Card, CardPolicy)>, n: int)
    requires
        0 <= n,
    ensures
        winner_scan(s, placed, n) matches Some(j) ==> 0 <= j < n,
        winner_scan_all(s, placed, n) matches Some(j) ==> 0 <= j < n,
        n > 0 ==> winner_scan_all(s, placed, n) is Some,
    decreases n,
{
    if n > 0 {
        lemma_winner_scans(s, placed, n - 1);
    }
}

/// Playing a card keeps the shape of the game.
proof fn lemma_go_wf(s: StateView, user_id: usize, card: Card, rt: crate::card::Rush, ujc: bool, rule: &Rule)
    requires
        s is InGame,
        s.wf(),
        rule.wf(),
        user_id < 5,
    ensures
        spec_go(s, user_id, card, rt, ujc, rule) matches Ok(s2) ==> s2.wf(),
{
    if let Ok(s2) = spec_go(s, user_id, card, rt, ujc, rule) {
        if s2 is InGame {
            let placed = s2->InGame_placed_cards;
            let w = trick_winner(s, placed);
            lemma_winner_scans(s, placed, 5);
            assert(0 <= w < 5);
            let sd = s->InGame_score_deck;
            lemma_score_cards_len(placed);
            lemma_total_len_update(sd, w, score_cards(placed));
        }
    }
}

/// Every accepted move keeps the shape of a five-player game (five hands,
/// five bids, five point piles, five placed cards, player numbers below
/// five, at most nine tricks played, at most five point cards won per
/// trick), whatever the random outcomes.
pub proof fn lemma_next_keeps_wf(s: StateView, user_id: usize, cmd: Command, rule: &Rule, roll: Roll)
    requires
        s.wf(),
        rule.wf(),
        user_id < 5,
        next_defined(s, user_id, cmd, rule),
    ensures
        spec_next(s, user_id, cmd, rule, roll) matches Ok(s2) ==> s2.wf(),
{
    match s {
        StateView::Election { curr_user, start_user, .. } => {
            match cmd {
                Command::Pledge(Some((c, p))) => lemma_bid_wf(s, user_id, c, p, rule),
                Command::Pledge(None) | Command::Random => {
                    if (curr_user == user_id || !rule.election.ordered) && (rule.election.pass_first
                        || start_user is Some) {
                        lemma_pass_wf(s, user_id, rule, roll);
                    }
                },
                _ => {},
            }
        },
        StateView::SelectFriend { deck, .. } => match cmd {
            Command::SelectFriend(drops, ff) => lemma_select_friend_wf(s, user_id, drops@, ff, rule),
            Command::ChangePledge(ng) => lemma_change_pledge_wf(s, ng, rule),
            Command::Random => lemma_select_friend_wf(
                s,
                user_id,
                random_drop(deck, user_id, rule, roll.drop),
                FriendFunc::NoFriend,
                rule,
            ),
            _ => {},
        },
        StateView::InGame { deck, .. } => match cmd {
            Command::Go(card, rt, ujc) => lemma_go_wf(s, user_id, card, rt, ujc, rule),
            Command::Random => {
                let c = pick(deck[user_id as int], roll.card);
                lemma_go_wf(s, user_id, c, crate::card::spec_card_rush(c), false, rule);
            },
            _ => {},
        },
        StateView::GameEnded { .. } => {},
    }
}

} // verus!
