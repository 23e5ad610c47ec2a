//! Properties of the game that hold across its operations.
use vstd::prelude::*;
use crate::card::{Card, Pattern, Rush, spec_pattern_bits};
use crate::deal::spec_chunks;
use crate::election::spec_bid;
use crate::play::{party_mask, spec_go, trick_winner, winner_scan, winner_scan_all};
use crate::rule::{CardPolicy, Rule};
use crate::state::{Bid, StateView};

verus! {

/// The mighty beats every other card, and no card beats it.
pub proof fn lemma_mighty_beats_all(s: StateView, x: Card)
    requires
        x != s.mighty(),
    ensures
        s.beats(x, s.mighty()),
        !s.beats(s.mighty(), x),
{
}

/// Outside the mighty, a trump beats every suited card of another suit.
pub proof fn lemma_giruda_beats_other_suits(s: StateView, p: Pattern, n1: u8, n2: u8)
    requires
        s.giruda() matches Some(g) && p != g,
        Card::Normal(p, n1) != s.mighty(),
        Card::Normal(s.giruda()->0, n2) != s.mighty(),
    ensures
        s.beats(Card::Normal(p, n1), Card::Normal(s.giruda()->0, n2)),
        !s.beats(Card::Normal(s.giruda()->0, n2), Card::Normal(p, n1)),
{
}

/// An accepted bid is recorded for its bidder and lies between the rule's
/// minimum and maximum.
pub proof fn lemma_accepted_bid_in_range(s: StateView, user_id: usize, c: Option<Pattern>, p: u8, rule: &Rule)
    requires
        s is Election,
        s.wf(),
        user_id < 5,
        spec_bid(s, user_id, c, p, rule) is Ok,
    ensures
        rule.pledge.min <= p <= rule.pledge.max,
        spec_bid(s, user_id, c, p, rule)->Ok_0->Election_pledge[user_id as int] == Some::<Bid>((c, p)),
{
}

/// A finished game is won either by the declarer's side or by all the
/// other players.
pub proof fn lemma_game_end_winners(s: StateView, user_id: usize, card: Card, rush_type: crate::card::Rush, ujc: bool, rule: &Rule)
    requires
        spec_go(s, user_id, card, rush_type, ujc, rule) matches Ok(StateView::GameEnded { .. }),
    ensures
        ({
            let e = spec_go(s, user_id, card, rush_type, ujc, rule)->Ok_0;
            let m = party_mask(e->GameEnded_president, e->GameEnded_friend);
            e->GameEnded_winner == m as u8 || e->GameEnded_winner == (32 - m) as u8
        }),
{
}

/// Dealing loses and adds no card: the piles, joined in order, are the cards
/// that were dealt; every pile but the last holds `n` cards and the last
/// holds between one and `n`.
pub proof fn lemma_deal_keeps_cards(s: Seq<Card>, n: int)
    requires
        0 < n,
    ensures
        spec_chunks(s, n).flatten() == s,
        forall|i: int| 0 <= i < spec_chunks(s, n).len() - 1 ==> (#[trigger] spec_chunks(s, n)[i]).len() == n,
        spec_chunks(s, n).len() > 0 ==> 0 < spec_chunks(s, n).last().len() <= n,
    decreases s.len(),
{
    let c = spec_chunks(s, n);
    if s.len() == 0 {
    } else if s.len() <= n {
        assert(c.drop_first() =~= Seq::<Seq<Card>>::empty());
        assert(Seq::<Seq<Card>>::empty().flatten() =~= Seq::<Card>::empty());
        assert(c.flatten() =~= s + Seq::<Card>::empty());
    } else {
        let r = spec_chunks(s.skip(n), n);
        lemma_deal_keeps_cards(s.skip(n), n);
        assert(c.drop_first() =~= r);
        assert(s.take(n) + s.skip(n) =~= s);
        assert(c.flatten() == s.take(n) + r.flatten());
        assert forall|i: int| 0 <= i < c.len() - 1 implies (#[trigger] c[i]).len() == n by {
            if i > 0 {
                assert(c[i] == r[i - 1]);
            }
        }
        if r.len() == 0 {
            assert(s.skip(n).len() > 0);
        }
        assert(c.last() == r.last());
    }
}

} // verus!

verus! {

/// A played card leaves its player's hand (its first copy there) and the
/// other hands stay as they were.
pub proof fn lemma_play_removes_card(
    s: StateView,
    user_id: usize,
    card: Card,
    rush_type: crate::card::Rush,
    ujc: bool,
    rule: &Rule,
)
    requires
        s.wf(),
        user_id < 5,
        spec_go(s, user_id, card, rush_type, ujc, rule) matches Ok(StateView::InGame { .. }),
    ensures
        ({
            let hand = s->InGame_deck[user_id as int];
            let d2 = spec_go(s, user_id, card, rush_type, ujc, rule)->Ok_0->InGame_deck;
            &&& hand.contains(card)
            &&& d2 == s->InGame_deck.update(user_id as int, hand.remove(hand.index_of_first(card)->0))
            &&& d2[user_id as int].len() == hand.len() - 1
        }),
{
    let hand = s->InGame_deck[user_id as int];
    hand.index_of_first_ensures(card);
}

} // verus!

verus! {

/// In a game of five, the players who may act are among the five: the mask
/// has no bit above the fifth, and it is the full mask of five bits exactly
/// when anybody may bid.
pub proof fn lemma_valid_users_five_bits(s: StateView, ordered: bool)
    requires
        s.wf(),
    ensures
        s.valid_users(5, ordered) < 32,
        (s is Election && !ordered) ==> s.valid_users(5, ordered) == 31,
{
    let k: u8 = match s {
        StateView::Election { curr_user, .. } => curr_user as u8,
        StateView::SelectFriend { president, .. } => president as u8,
        StateView::InGame { current_user, .. } => current_user as u8,
        StateView::GameEnded { .. } => 0,
    };
    assert((1u8 << k) < 32u8) by (bit_vector)
        requires
            k < 5,
    ;
    assert(((1u16 << 5u8) - 1) as u8 == 31u8) by (bit_vector);
}

} // verus!

verus! {

/// The client check accepts every move that the game accepts (a client
/// never blocks a legal move), for moves other than random ones, given
/// that a bid comes after the top bid has reached the minimum, and that a
/// card played is not the mighty, has no policy of its own, and the rule
/// has exactly two joker-call pairs (the client knows only the first two),
/// and the client and the game agree on whether the card calls the joker.
pub proof fn lemma_client_accepts_accepted_moves(
    s: StateView,
    user_id: usize,
    cmd: crate::command::Command,
    rule: &Rule,
    roll: crate::election::Roll,
)
    requires
        s.wf(),
        rule.wf(),
        user_id < 5,
        crate::valid::is_valid_command_defined(s, user_id, cmd, rule),
        !(cmd is Random),
        (s is Election && cmd matches crate::command::Command::Pledge(Some(_))) ==> crate::election::max_bid(
            s->Election_pledge,
        ) >= rule.pledge.min,
        cmd matches crate::command::Command::Go(card, _, _) ==> card != s.mighty()
            && crate::rule::spec_lookup(rule.card_policy.card@, card) is None,
        cmd is Go ==> rule.joker_call.cards@.len() == 2,
        cmd matches crate::command::Command::Go(card, _, _) ==> (s is InGame ==> crate::play::joker_calls(
            rule.joker_call.cards@,
            s->InGame_giruda,
        ).contains(card) == crate::valid::client_joker_calls(rule.joker_call.cards@, s->InGame_giruda).contains(
            card,
        )),
    ensures
        crate::next::spec_next(s, user_id, cmd, rule, roll) is Ok ==> crate::valid::spec_is_valid_command(
            s,
            user_id,
            cmd,
            rule,
        ) is Ok,
{
    if cmd is Go {
        assert(rule.joker_call.cards@.take(2) =~= rule.joker_call.cards@);
    }
}

/// The phase of a game: bidding, naming the friend, playing, finished.
pub open spec fn phase(s: StateView) -> int {
    match s {
        StateView::Election { .. } => 0,
        StateView::SelectFriend { .. } => 1,
        StateView::InGame { .. } => 2,
        StateView::GameEnded { .. } => 3,
    }
}

/// A move never takes the game back: the game stays in its phase or goes
/// on to the next one, and a finished game stays as it is.
#[verifier::spinoff_prover]
#[verifier::rlimit(40)]
pub proof fn lemma_phases_only_advance(
    s: StateView,
    user_id: usize,
    cmd: crate::command::Command,
    rule: &Rule,
    roll: crate::election::Roll,
)
    ensures
        crate::next::spec_next(s, user_id, cmd, rule, roll) matches Ok(t) ==> phase(t) == phase(s) || phase(t)
            == phase(s) + 1,
        s is GameEnded ==> crate::next::spec_next(s, user_id, cmd, rule, roll) == Ok::<StateView, crate::error::Error>(s),
{
}

/// One suit contains another exactly when they are the same suit.
proof fn lemma_single_suit_contains(p: Pattern, q: Pattern)
    ensures
        (Rush { bits: spec_pattern_bits(p) }).spec_contains(Rush { bits: spec_pattern_bits(q) }) == (p == q),
{
    assert(forall|x: u8, y: u8|
        (x == 1u8 || x == 2u8 || x == 4u8 || x == 8u8) && (y == 1u8 || y == 2u8 || y == 4u8 || y == 8u8) ==> ((x
            & y == y) <==> x == y)) by (bit_vector);
    let x = spec_pattern_bits(p);
    let y = spec_pattern_bits(q);
    assert((x & y == y) <==> x == y);
}

/// Among different cards in a trick whose suit set is one suit: of two
/// cards one beats the other, and a card that `b` beats is beaten by every
/// card that `b` does not beat.
proof fn lemma_trick_order(s: StateView, lead: Pattern, a: Card, b: Card, c: Card)
    requires
        s.current_pattern() == (Rush { bits: spec_pattern_bits(lead) }),
        a != c,
        b != c,
    ensures
        !s.beats(c, b) ==> s.beats(b, c),
        s.beats(a, b) && !s.beats(c, b) ==> s.beats(a, c),
{
    if a is Normal {
        lemma_single_suit_contains(lead, a->Normal_0);
    }
    if b is Normal {
        lemma_single_suit_contains(lead, b->Normal_0);
    }
    if c is Normal {
        lemma_single_suit_contains(lead, c->Normal_0);
    }
}

/// The scan over the first `n` cards ends on a card that keeps its power
/// and beats every other such card before it.
proof fn lemma_scan_beats(s: StateView, lead: Pattern, placed: Seq<(Card, CardPolicy)>, n: int)
    requires
        0 <= n <= placed.len(),
        s.current_pattern() == (Rush { bits: spec_pattern_bits(lead) }),
        forall|i: int, j: int| 0 <= i < j < placed.len() ==> placed[i].0 != placed[j].0,
    ensures
        winner_scan(s, placed, n) matches Some(w) ==> {
            &&& 0 <= w < n
            &&& placed[w].1 != CardPolicy::NoEffect
            &&& forall|i: int|
                0 <= i < n && i != w && placed[i].1 != CardPolicy::NoEffect ==> s.beats(
                    (#[trigger] placed[i]).0,
                    placed[w].0,
                )
        },
        winner_scan(s, placed, n) is None ==> forall|i: int| 0 <= i < n ==> (#[trigger] placed[i]).1 == CardPolicy::NoEffect,
    decreases n,
{
    if n > 0 {
        lemma_scan_beats(s, lead, placed, n - 1);
        let i = n - 1;
        if let Some(j) = winner_scan(s, placed, n - 1) {
            if placed[i].1 != CardPolicy::NoEffect && !s.beats(placed[i].0, placed[j].0) {
                assert forall|k: int|
                    0 <= k < n && k != i && placed[k].1 != CardPolicy::NoEffect implies s.beats(
                    (#[trigger] placed[k]).0,
                    placed[i].0,
                ) by {
                    lemma_trick_order(s, lead, placed[k].0, placed[j].0, placed[i].0);
                }
            }
        }
    }
}

/// The scan over the first `n` cards with powers ignored ends on a card that
/// beats every other card before it.
proof fn lemma_scan_all_beats(s: StateView, lead: Pattern, placed: Seq<(Card, CardPolicy)>, n: int)
    requires
        0 <= n <= placed.len(),
        s.current_pattern() == (Rush { bits: spec_pattern_bits(lead) }),
        forall|i: int, j: int| 0 <= i < j < placed.len() ==> placed[i].0 != placed[j].0,
    ensures
        n > 0 ==> winner_scan_all(s, placed, n) is Some,
        winner_scan_all(s, placed, n) matches Some(w) ==> {
            &&& 0 <= w < n
            &&& forall|i: int| 0 <= i < n && i != w ==> s.beats((#[trigger] placed[i]).0, placed[w].0)
        },
    decreases n,
{
    if n > 0 {
        lemma_scan_all_beats(s, lead, placed, n - 1);
        let i = n - 1;
        if let Some(j) = winner_scan_all(s, placed, n - 1) {
            if !s.beats(placed[i].0, placed[j].0) {
                assert forall|k: int| 0 <= k < n && k != i implies s.beats((#[trigger] placed[k]).0, placed[i].0) by {
                    lemma_trick_order(s, lead, placed[k].0, placed[j].0, placed[i].0);
                }
            }
        }
    }
}

/// In a trick of five different cards whose suit set is one suit, the
/// trick goes to a card that beats every other card that keeps its power;
/// the winner keeps its power unless every card lost it, and then it beats
/// every other card.
pub proof fn lemma_trick_winner_beats_rest(s: StateView, lead: Pattern, placed: Seq<(Card, CardPolicy)>)
    requires
        placed.len() == 5,
        s.current_pattern() == (Rush { bits: spec_pattern_bits(lead) }),
        forall|i: int, j: int| 0 <= i < j < 5 ==> placed[i].0 != placed[j].0,
    ensures
        0 <= trick_winner(s, placed) < 5,
        (exists|i: int| 0 <= i < 5 && (#[trigger] placed[i]).1 != CardPolicy::NoEffect) ==> placed[trick_winner(
            s,
            placed,
        )].1 != CardPolicy::NoEffect,
        forall|i: int|
            0 <= i < 5 && i != trick_winner(s, placed) && placed[i].1 != CardPolicy::NoEffect ==> s.beats(
                (#[trigger] placed[i]).0,
                placed[trick_winner(s, placed)].0,
            ),
        (forall|i: int| 0 <= i < 5 ==> (#[trigger] placed[i]).1 == CardPolicy::NoEffect) ==> forall|i: int|
            0 <= i < 5 && i != trick_winner(s, placed) ==> s.beats(
                (#[trigger] placed[i]).0,
                placed[trick_winner(s, placed)].0,
            ),
{
    lemma_scan_beats(s, lead, placed, 5);
    lemma_scan_all_beats(s, lead, placed, 5);
}

/// Once the friend is known to the other players, the friend stays known
/// for the rest of the play.
#[verifier::spinoff_prover]
#[verifier::rlimit(40)]
pub proof fn lemma_known_friend_stays_known(
    s: StateView,
    user_id: usize,
    cmd: crate::command::Command,
    rule: &Rule,
    roll: crate::election::Roll,
)
    requires
        s matches StateView::InGame { is_friend_known, .. } && is_friend_known,
    ensures
        crate::next::spec_next(s, user_id, cmd, rule, roll) matches Ok(t) ==> (t matches StateView::InGame {
            is_friend_known,
            ..
        } ==> is_friend_known),
{
}

/// A bid in turn gets the same answer from the client check as from the
/// game, errors included, once the top bid has reached the minimum and the
/// number the bid must reach is not below the minimum (the client raises
/// the top bid to the minimum before the offsets, the game after).
pub proof fn lemma_client_bid_agrees(
    s: StateView,
    user_id: usize,
    c: Option<Pattern>,
    p: u8,
    rule: &Rule,
    roll: crate::election::Roll,
)
    requires
        s matches StateView::Election { curr_user, .. } && !(curr_user != user_id && rule.election.ordered),
        crate::election::max_bid(s->Election_pledge) >= rule.pledge.min,
        crate::election::required_bid(
            crate::election::max_bid(s->Election_pledge),
            c,
            (match s->Election_start_user {
                Some(u) => u,
                None => user_id,
            }) == user_id,
            rule,
        ) >= rule.pledge.min,
    ensures
        crate::valid::spec_is_valid_command(s, user_id, crate::command::Command::Pledge(Some((c, p))), rule) == match crate::next::spec_next(
            s,
            user_id,
            crate::command::Command::Pledge(Some((c, p))),
            rule,
            roll,
        ) {
            Ok(_) => Ok::<(), crate::error::Error>(()),
            Err(e) => Err(e),
        },
{
}

/// A play in turn in the middle of the game, with no joker called, gets the
/// same answer from the client check as from the game, errors included,
/// unless a follower plays the mighty (the client has no exception for it).
#[verifier::spinoff_prover]
#[verifier::rlimit(60)]
pub proof fn lemma_client_play_agrees(
    s: StateView,
    user_id: usize,
    card: Card,
    rush_type: Rush,
    ujc: bool,
    rule: &Rule,
    roll: crate::election::Roll,
)
    requires
        s.wf(),
        s matches StateView::InGame { turn_count, current_user, start_user, joker_call_card, .. } && {
            &&& 1 <= turn_count <= 8
            &&& joker_call_card is None
            &&& current_user == user_id
            &&& (current_user != start_user ==> card != s.mighty())
        },
        rule.joker_call.cards@.len() >= 2,
    ensures
        crate::valid::spec_is_valid_command(s, user_id, crate::command::Command::Go(card, rush_type, ujc), rule)
            == match crate::next::spec_next(s, user_id, crate::command::Command::Go(card, rush_type, ujc), rule, roll) {
            Ok(_) => Ok::<(), crate::error::Error>(()),
            Err(e) => Err(e),
        },
{
}

/// The scan over the first `n` cards ends on a card that keeps its power,
/// and finds none only when every one of them lost it.
proof fn lemma_scan_keeps_power(s: StateView, placed: Seq<(Card, CardPolicy)>, n: int)
    requires
        0 <= n <= placed.len(),
    ensures
        winner_scan(s, placed, n) matches Some(w) ==> 0 <= w < n && placed[w].1 != CardPolicy::NoEffect,
        winner_scan(s, placed, n) is None ==> forall|i: int| 0 <= i < n ==> (#[trigger] placed[i]).1 == CardPolicy::NoEffect,
    decreases n,
{
    if n > 0 {
        lemma_scan_keeps_power(s, placed, n - 1);
    }
}

/// A trick where some card keeps its power goes to a card that keeps it.
pub proof fn lemma_trick_winner_keeps_power(s: StateView, placed: Seq<(Card, CardPolicy)>)
    requires
        placed.len() == 5,
        exists|i: int| 0 <= i < 5 && (#[trigger] placed[i]).1 != CardPolicy::NoEffect,
    ensures
        0 <= trick_winner(s, placed) < 5,
        placed[trick_winner(s, placed)].1 != CardPolicy::NoEffect,
{
    lemma_scan_keeps_power(s, placed, 5);
}

/// In the first trick (and in the last), a joker played while the rule
/// takes the joker's power away in that trick is placed without power, and
/// when it closes the trick the trick does not go to it as long as another
/// placed card keeps its power.
pub proof fn lemma_powerless_joker_at_edges(
    s: StateView,
    user_id: usize,
    card: Card,
    rush_type: Rush,
    ujc: bool,
    rule: &Rule,
    roll: crate::election::Roll,
)
    requires
        s.wf(),
        user_id < 5,
        card is Joker,
        crate::rule::spec_lookup(rule.card_policy.card@, card) is None,
        s matches StateView::InGame { turn_count, .. } && ((turn_count == 0 && rule.card_policy.joker.0
            == CardPolicy::NoEffect) || (turn_count == 9 && rule.card_policy.joker.1 == CardPolicy::NoEffect)),
    ensures
        crate::next::spec_next(s, user_id, crate::command::Command::Go(card, rush_type, ujc), rule, roll) matches Ok(t)
            ==> (t matches StateView::InGame { placed_cards, start_user, .. } ==> {
            &&& placed_cards[user_id as int] == (card, CardPolicy::NoEffect)
            &&& ((s->InGame_current_user + 1) % 5 == s->InGame_start_user && exists|i: int|
                0 <= i < 5 && i != user_id && (#[trigger] placed_cards[i]).1 != CardPolicy::NoEffect)
                ==> start_user != user_id
        }),
{
    let r = crate::next::spec_next(s, user_id, crate::command::Command::Go(card, rush_type, ujc), rule, roll);
    if let Ok(t) = r {
        if let StateView::InGame { placed_cards, start_user, .. } = t {
            if (s->InGame_current_user + 1) % 5 == s->InGame_start_user && exists|i: int|
                0 <= i < 5 && i != user_id && (#[trigger] placed_cards[i]).1 != CardPolicy::NoEffect {
                lemma_trick_winner_keeps_power(s, placed_cards);
            }
        }
    }
}

/// While the joker is called in the trick, a joker has no power against a
/// suited card: no joker beats a suited card other than the mighty, and
/// every suited card beats a joker.
pub proof fn lemma_called_joker_is_powerless(s: StateView, x: Card, c: crate::card::Color)
    requires
        s matches StateView::InGame { joker_call_card, .. } && joker_call_card is Some,
        x is Normal,
        x != s.mighty(),
    ensures
        !s.beats(x, Card::Joker(c)),
        s.beats(Card::Joker(c), x),
{
}

/// The declarer's side wins exactly when its points reach the bid; else
/// all the other players win. The game's other facts carry over.
pub proof fn lemma_game_end_side(
    president: usize,
    friend: Option<usize>,
    ff: crate::state::FriendFunc,
    giruda: Option<Pattern>,
    pledge: u8,
    sd: Seq<Seq<Card>>,
)
    ensures
        crate::play::spec_game_end(president, friend, ff, giruda, pledge, sd) matches Ok(e) ==> {
            &&& e matches StateView::GameEnded { winner, president: p2, friend: f2, pledge: b2, giruda: g2, .. }
            &&& winner == if crate::play::party_points(president, friend, sd) >= pledge {
                party_mask(president, friend) as u8
            } else {
                (32 - party_mask(president, friend)) as u8
            }
            &&& p2 == president && f2 == friend && b2 == pledge && g2 == giruda
        },
{
}

/// Candidates of the highest bid: the top is the highest bid among the
/// first `n` slots, and somebody holds it when it is not 0.
proof fn lemma_top_is_max(pl: Seq<Option<Bid>>, n: int)
    requires
        0 <= n <= pl.len(),
    ensures
        crate::election::top_bidders(pl, n).1 == crate::election::max_bid(pl.take(n)),
        crate::election::top_bidders(pl, n).1 > 0 ==> crate::election::top_bidders(pl, n).0.len() > 0,
    decreases n,
{
    if n > 0 {
        lemma_top_is_max(pl, n - 1);
        assert(pl.take(n).drop_last() =~= pl.take(n - 1));
        assert(pl.take(n).last() == pl[n - 1]);
    }
}

/// When bidding out of turn ends, the declarer holds the highest bid: when
/// somebody bid, the declarer's bid is the highest bid, and it becomes the
/// bid and trump of the game.
pub proof fn lemma_declarer_holds_top_bid(
    s: StateView,
    user_id: usize,
    cmd: crate::command::Command,
    rule: &Rule,
    roll: crate::election::Roll,
)
    requires
        s.wf(),
        !rule.election.ordered,
        s is Election,
        crate::election::max_bid(s->Election_pledge) > 0,
    ensures
        crate::next::spec_next(s, user_id, cmd, rule, roll) matches Ok(t) ==> (t matches StateView::SelectFriend {
            president,
            giruda,
            pledge,
            ..
        } ==> {
            &&& president < 5
            &&& s->Election_pledge[president as int] == Some::<Bid>((giruda, pledge))
            &&& pledge == crate::election::max_bid(s->Election_pledge)
        }),
{
    let pl = s->Election_pledge;
    lemma_top_is_max(pl, pl.len() as int);
    crate::election::lemma_top_bidders(pl, pl.len() as int);
    assert(pl.take(pl.len() as int) =~= pl);
    let (cand, top) = crate::election::top_bidders(pl, pl.len() as int);
    if cand.contains(roll.president) {
        let k = choose|k: int| 0 <= k < cand.len() && cand[k] == roll.president;
        assert(cand[k] == roll.president);
    } else {
        assert(cand[0] == cand[0]);
    }
}

/// The client refuses a play while the joker is called exactly as the game
/// does: when the hand holds a card that is neither the called card nor
/// the card played, both answer `JokerCall`.
pub proof fn lemma_joker_call_refused_alike(
    s: StateView,
    user_id: usize,
    card: Card,
    rush_type: Rush,
    ujc: bool,
    rule: &Rule,
    roll: crate::election::Roll,
)
    requires
        s matches StateView::InGame { joker_call_card, deck, .. } && joker_call_card is Some && exists|i: int|
            0 <= i < deck[user_id as int].len() && joker_call_card != Some(#[trigger] deck[user_id as int][i])
                && deck[user_id as int][i] != card,
    ensures
        crate::valid::spec_is_valid_command(s, user_id, crate::command::Command::Go(card, rush_type, ujc), rule)
            == Err::<(), crate::error::Error>(crate::error::Error::JokerCall),
        crate::next::spec_next(s, user_id, crate::command::Command::Go(card, rush_type, ujc), rule, roll) == Err::<
            StateView,
            crate::error::Error,
        >(crate::error::Error::JokerCall),
{
}

/// The policy of a pair that holds in the current trick: the first for
/// the first trick, the second otherwise.
pub open spec fn trick_policy(s: StateView, p: (CardPolicy, CardPolicy)) -> CardPolicy {
    if s->InGame_turn_count == 0 {
        p.0
    } else {
        p.1
    }
}

/// In the first and the last trick, a card whose policy for that trick
/// takes its power away (the mighty's, a listed card's, the joker's, or the
/// trump suit's) is placed without power.
pub proof fn lemma_edge_policy_takes_power(
    s: StateView,
    user_id: usize,
    card: Card,
    rush_type: Rush,
    ujc: bool,
    rule: &Rule,
    roll: crate::election::Roll,
)
    requires
        s.wf(),
        user_id < 5,
        s matches StateView::InGame { turn_count, .. } && (turn_count == 0 || turn_count == 9),
        ({
            let cp = rule.card_policy;
            let listed = crate::rule::spec_lookup(cp.card@, card);
            ||| card == s.mighty() && trick_policy(s, cp.mighty) == CardPolicy::NoEffect
            ||| card != s.mighty() && (listed matches Some(y) && trick_policy(s, y) == CardPolicy::NoEffect)
            ||| card != s.mighty() && listed is None && card is Joker && trick_policy(s, cp.joker)
                == CardPolicy::NoEffect
            ||| card != s.mighty() && listed is None && (card matches Card::Normal(t, _) && s.giruda() == Some(t)
                && trick_policy(s, cp.giruda) == CardPolicy::NoEffect)
        }),
    ensures
        crate::next::spec_next(s, user_id, crate::command::Command::Go(card, rush_type, ujc), rule, roll) matches Ok(t)
            ==> (t matches StateView::InGame { placed_cards, .. } ==> placed_cards[user_id as int] == (
            card,
            CardPolicy::NoEffect,
        )),
{
}

/// Between the first and the last trick every card played keeps its power.
pub proof fn lemma_mid_game_cards_keep_power(
    s: StateView,
    user_id: usize,
    card: Card,
    rush_type: Rush,
    ujc: bool,
    rule: &Rule,
    roll: crate::election::Roll,
)
    requires
        s.wf(),
        user_id < 5,
        s matches StateView::InGame { turn_count, .. } && 1 <= turn_count <= 8,
    ensures
        crate::next::spec_next(s, user_id, crate::command::Command::Go(card, rush_type, ujc), rule, roll) matches Ok(t)
            ==> (t matches StateView::InGame { placed_cards, .. } ==> placed_cards[user_id as int] == (
            card,
            CardPolicy::Valid,
        )),
{
}

/// While the joker is not called, a joker of the trick's colour beats every
/// suited card that is neither the mighty nor a trump, and a joker of the
/// other colour beats no suited card.
pub proof fn lemma_uncalled_joker_power(s: StateView, x: Card, c: crate::card::Color)
    requires
        s matches StateView::InGame { joker_call_card, .. } && joker_call_card is None,
        x matches Card::Normal(t, _) && x != s.mighty() && s.giruda() != Some(t),
    ensures
        c == crate::card::spec_current_color(s.current_pattern()) ==> s.beats(x, Card::Joker(c)) && !s.beats(
            Card::Joker(c),
            x,
        ),
        c != crate::card::spec_current_color(s.current_pattern()) ==> !s.beats(x, Card::Joker(c)) && s.beats(
            Card::Joker(c),
            x,
        ),
{
}

/// A card that is not in the player's hand is refused alike by the client
/// and by the game, when no joker is called.
pub proof fn lemma_not_in_hand_refused_alike(
    s: StateView,
    user_id: usize,
    card: Card,
    rush_type: Rush,
    ujc: bool,
    rule: &Rule,
    roll: crate::election::Roll,
)
    requires
        s matches StateView::InGame { joker_call_card, deck, .. } && joker_call_card is None && !deck[user_id as int].contains(card),
    ensures
        crate::valid::spec_is_valid_command(s, user_id, crate::command::Command::Go(card, rush_type, ujc), rule)
            == Err::<(), crate::error::Error>(crate::error::Error::NotInDeck),
        crate::next::spec_next(s, user_id, crate::command::Command::Go(card, rush_type, ujc), rule, roll) == Err::<
            StateView,
            crate::error::Error,
        >(crate::error::Error::NotInDeck),
{
    let hand = s->InGame_deck[user_id as int];
    hand.index_of_first_ensures(card);
}

/// The score of a finished game: a side that reached its bid scores its
/// points above 10, doubled without trump, doubled without friend and
/// doubled for all 20 points; otherwise the other players score the
/// shortfall, doubled when the side made 10 points or fewer.
pub proof fn lemma_game_end_score(
    president: usize,
    friend: Option<usize>,
    ff: crate::state::FriendFunc,
    giruda: Option<Pattern>,
    pledge: u8,
    sd: Seq<Seq<Card>>,
)
    ensures
        crate::play::spec_game_end(president, friend, ff, giruda, pledge, sd) matches Ok(e) ==> ({
            let pts = crate::play::party_points(president, friend, sd);
            let m1: int = if giruda is None { 2 } else { 1 };
            let m2: int = if ff is NoFriend { 2 } else { 1 };
            let m3: int = if pts == 20 { 2 } else { 1 };
            e->GameEnded_score == if pts >= pledge {
                m1 * m2 * m3 * (pts - 10)
            } else if pts <= 10 {
                2 * (pledge - pts)
            } else {
                pledge - pts
            }
        }),
{
}

/// Whether a policy pair forbids a card in the current trick: `Invalid`,
/// or `InvalidForFirst` for the player who leads.
pub open spec fn trick_forbids(s: StateView, p: (CardPolicy, CardPolicy)) -> bool {
    trick_policy(s, p) == CardPolicy::Invalid || (trick_policy(s, p) == CardPolicy::InvalidForFirst
        && s->InGame_current_user == s->InGame_start_user)
}

/// In the first and the last trick, a card that its policy forbids there
/// (the mighty's, a listed card's, the joker's, or the trump suit's) is
/// refused with `WrongCard` by the game and by the client alike, once the
/// joker call and the hand allow it.
pub proof fn lemma_edge_policy_forbids(
    s: StateView,
    user_id: usize,
    card: Card,
    rush_type: Rush,
    ujc: bool,
    rule: &Rule,
    roll: crate::election::Roll,
)
    requires
        s matches StateView::InGame { turn_count, joker_call_card, deck, .. } && (turn_count == 0 || turn_count
            == 9) && joker_call_card is None && deck[user_id as int].contains(card),
        ({
            let cp = rule.card_policy;
            let listed = crate::rule::spec_lookup(cp.card@, card);
            ||| card == s.mighty() && trick_forbids(s, cp.mighty)
            ||| card != s.mighty() && (listed matches Some(y) && trick_forbids(s, y))
            ||| card != s.mighty() && listed is None && card is Joker && trick_forbids(s, cp.joker)
            ||| card != s.mighty() && listed is None && (card matches Card::Normal(t, _) && s.giruda() == Some(t)
                && trick_forbids(s, cp.giruda))
        }),
    ensures
        crate::next::spec_next(s, user_id, crate::command::Command::Go(card, rush_type, ujc), rule, roll) == Err::<
            StateView,
            crate::error::Error,
        >(crate::error::Error::WrongCard),
        crate::valid::spec_is_valid_command(s, user_id, crate::command::Command::Go(card, rush_type, ujc), rule)
            == Err::<(), crate::error::Error>(crate::error::Error::WrongCard),
{
    let hand = s->InGame_deck[user_id as int];
    hand.index_of_first_ensures(card);
}

/// The strength of a rank within a suit: the ace highest, then the king
/// down to the two.
pub open spec fn rank_strength(n: u8) -> int {
    if n == 0 {
        13
    } else {
        n as int
    }
}

/// Between two cards of one suit that counts in the trick (the trump or
/// one of the trick's suits), neither the mighty, the higher rank wins.
pub proof fn lemma_higher_rank_wins(s: StateView, p: Pattern, a: u8, b: u8)
    requires
        s is InGame,
        s.giruda() == Some(p) || s.current_pattern().spec_contains(Rush { bits: spec_pattern_bits(p) }),
        a < 13,
        b < 13,
        a != b,
        Card::Normal(p, a) != s.mighty(),
        Card::Normal(p, b) != s.mighty(),
    ensures
        s.beats(Card::Normal(p, a), Card::Normal(p, b)) <==> rank_strength(b) > rank_strength(a),
{
}

/// A suited card outside the trump and the trick's suits loses to every
/// card of the trick's suits, the mighty aside.
pub proof fn lemma_off_suit_loses(s: StateView, p: Pattern, a: u8, q: Pattern, b: u8)
    requires
        s is InGame,
        s.giruda() != Some(p),
        !s.current_pattern().spec_contains(Rush { bits: spec_pattern_bits(p) }),
        s.current_pattern().spec_contains(Rush { bits: spec_pattern_bits(q) }),
        Card::Normal(p, a) != s.mighty(),
        Card::Normal(q, b) != s.mighty(),
    ensures
        s.beats(Card::Normal(p, a), Card::Normal(q, b)),
        !s.beats(Card::Normal(q, b), Card::Normal(p, a)),
{
}

/// No bid is above the highest bid.
proof fn lemma_max_bid_upper(pl: Seq<Option<Bid>>)
    ensures
        forall|k: int| 0 <= k < pl.len() ==> crate::election::bid_value(#[trigger] pl[k]) <= crate::election::max_bid(pl),
    decreases pl.len(),
{
    if pl.len() > 0 {
        lemma_max_bid_upper(pl.drop_last());
        assert forall|k: int| 0 <= k < pl.len() implies crate::election::bid_value(#[trigger] pl[k])
            <= crate::election::max_bid(pl) by {
            if k < pl.len() - 1 {
                assert(pl[k] == pl.drop_last()[k]);
            }
        }
    }
}

/// Every holder of the highest bid among the first `n` slots is a candidate.
proof fn lemma_top_holders_are_candidates(pl: Seq<Option<Bid>>, n: int)
    requires
        0 <= n <= pl.len(),
        n <= usize::MAX,
    ensures
        forall|k: int|
            0 <= k < n && crate::election::bid_value(#[trigger] pl[k]) == crate::election::top_bidders(pl, n).1
                && pl[k] is Some ==> crate::election::top_bidders(pl, n).0.contains(k as usize),
    decreases n,
{
    if n > 0 {
        lemma_top_holders_are_candidates(pl, n - 1);
        lemma_top_is_max(pl, n - 1);
        lemma_max_bid_upper(pl.take(n - 1));
        let (cand, top) = crate::election::top_bidders(pl, n - 1);
        let r = crate::election::top_bidders(pl, n);
        assert forall|k: int|
            0 <= k < n && crate::election::bid_value(#[trigger] pl[k]) == r.1 && pl[k] is Some implies r.0.contains(
            k as usize,
        ) by {
            if k == n - 1 {
                match pl[n - 1] {
                    Some((_, c)) => {
                        if c > top {
                            assert(r.0[0] == (n - 1) as usize);
                        } else {
                            assert(r.0[cand.len() as int] == (n - 1) as usize);
                        }
                    },
                    None => {},
                }
            } else {
                assert(pl.take(n - 1)[k] == pl[k]);
                match pl[n - 1] {
                    Some((_, c)) => {
                        if c > top {
                        } else if c == top {
                            let j = choose|j: int| 0 <= j < cand.len() && cand[j] == k as usize;
                            assert(r.0[j] == k as usize);
                        } else {
                        }
                    },
                    None => {},
                }
            }
        }
    }
}

/// When bidding out of turn ends, any holder of the highest bid may be the
/// declarer: the draw that names a holder makes that holder the declarer.
pub proof fn lemma_any_top_holder_may_declare(
    s: StateView,
    user_id: usize,
    cmd: crate::command::Command,
    rule: &Rule,
    roll: crate::election::Roll,
    k: usize,
)
    requires
        s.wf(),
        !rule.election.ordered,
        s is Election,
        crate::election::max_bid(s->Election_pledge) > 0,
        k < 5,
        s->Election_pledge[k as int] is Some,
        crate::election::bid_value(s->Election_pledge[k as int]) == crate::election::max_bid(s->Election_pledge),
        roll.president == k,
    ensures
        crate::next::spec_next(s, user_id, cmd, rule, roll) matches Ok(t) ==> (t matches StateView::SelectFriend {
            president,
            ..
        } ==> president == k),
{
    let pl = s->Election_pledge;
    lemma_top_is_max(pl, pl.len() as int);
    lemma_top_holders_are_candidates(pl, pl.len() as int);
    assert(pl.take(pl.len() as int) =~= pl);
    assert(crate::election::bid_value(pl[k as int]) == crate::election::max_bid(pl));
}

proof fn lemma_scan_all_bounded(s: StateView, placed: Seq<(Card, CardPolicy)>, n: int)
    requires
        0 <= n <= placed.len(),
    ensures
        n > 0 ==> (winner_scan_all(s, placed, n) matches Some(w) && 0 <= w < n),
    decreases n,
{
    if n > 0 {
        lemma_scan_all_bounded(s, placed, n - 1);
    }
}

/// The point cards of a trick: its aces, tens, jacks, queens and kings, in
/// seat order.
pub open spec fn trick_points(placed: Seq<(Card, CardPolicy)>) -> Seq<Card> {
    placed.map_values(placed_card()).filter(is_point_card())
}

/// The card of a placed pair.
pub open spec fn placed_card() -> spec_fn((Card, CardPolicy)) -> Card {
    |p: (Card, CardPolicy)| p.0
}

/// Whether a card counts a point.
pub open spec fn is_point_card() -> spec_fn(Card) -> bool {
    |c: Card| crate::card::spec_is_score(c)
}

proof fn lemma_score_cards_are_points(placed: Seq<(Card, CardPolicy)>)
    ensures
        crate::play::score_cards(placed) == trick_points(placed),
    decreases placed.len(),
{
    if placed.len() > 0 {
        lemma_score_cards_are_points(placed.drop_last());
        let m = placed.map_values(placed_card());
        assert(m.drop_last() =~= placed.drop_last().map_values(placed_card()));
        assert(m.last() == placed.last().0);
        reveal(Seq::filter);
        assert(m.filter(is_point_card()) == if is_point_card()(m.last()) {
            m.drop_last().filter(is_point_card()).push(m.last())
        } else {
            m.drop_last().filter(is_point_card())
        });
    } else {
        reveal(Seq::filter);
        assert(trick_points(placed) =~= Seq::<Card>::empty());
    }
}

/// The card that closes a trick before the last one hands the trick to its
/// winner: the winner leads the next trick, the trick count goes up by one,
/// the trick's point cards join the winner's pile in seat order, and the
/// other piles stay as they were.
pub proof fn lemma_trick_goes_to_winner(
    s: StateView,
    user_id: usize,
    card: Card,
    rush_type: Rush,
    ujc: bool,
    rule: &Rule,
    roll: crate::election::Roll,
)
    requires
        s.wf(),
        user_id < 5,
        s matches StateView::InGame { turn_count, start_user, current_user, .. } && turn_count < 9 && (current_user
            + 1) % 5 == start_user,
    ensures
        crate::next::spec_next(s, user_id, crate::command::Command::Go(card, rush_type, ujc), rule, roll) matches Ok(t)
            ==> (t matches StateView::InGame { score_deck, turn_count, start_user, current_user, placed_cards, .. } && {
            &&& start_user == trick_winner(s, placed_cards)
            &&& start_user < 5
            &&& current_user == start_user
            &&& turn_count == s->InGame_turn_count + 1
            &&& placed_cards[user_id as int].0 == card
            &&& score_deck[start_user as int] == s->InGame_score_deck[start_user as int] + trick_points(placed_cards)
            &&& forall|i: int| 0 <= i < 5 && i != start_user ==> #[trigger] score_deck[i] == s->InGame_score_deck[i]
        }),
{
    let r = crate::next::spec_next(s, user_id, crate::command::Command::Go(card, rush_type, ujc), rule, roll);
    if let Ok(t) = r {
        if let StateView::InGame { placed_cards, .. } = t {
            lemma_score_cards_are_points(placed_cards);
            lemma_scan_keeps_power(s, placed_cards, 5);
            lemma_scan_all_bounded(s, placed_cards, 5);
        }
    }
}

/// When the friend is the first trick's winner, the first trick reveals
/// him: its winner becomes the friend unless he is the declarer, and the
/// friend is known from then on.
pub proof fn lemma_first_trick_reveals_friend(
    s: StateView,
    user_id: usize,
    card: Card,
    rush_type: Rush,
    ujc: bool,
    rule: &Rule,
    roll: crate::election::Roll,
)
    requires
        s.wf(),
        user_id < 5,
        s matches StateView::InGame { friend_func, friend, turn_count, start_user, current_user, .. }
            && friend_func == crate::state::FriendFunc::First && friend is None && turn_count == 0 && (current_user
            + 1) % 5 == start_user,
    ensures
        crate::next::spec_next(s, user_id, crate::command::Command::Go(card, rush_type, ujc), rule, roll) matches Ok(t)
            ==> (t matches StateView::InGame { friend, is_friend_known, start_user, president, .. } && {
            &&& is_friend_known
            &&& friend == if start_user != president {
                Some(start_user)
            } else {
                None
            }
        }),
{
    let r = crate::next::spec_next(s, user_id, crate::command::Command::Go(card, rush_type, ujc), rule, roll);
    if let Ok(t) = r {
        if let StateView::InGame { placed_cards, .. } = t {
            lemma_scan_keeps_power(s, placed_cards, 5);
            lemma_scan_all_bounded(s, placed_cards, 5);
        }
    }
}

/// Playing the card that names the friend makes the friend known.
pub proof fn lemma_friend_card_reveals(
    s: StateView,
    user_id: usize,
    card: Card,
    rush_type: Rush,
    ujc: bool,
    rule: &Rule,
    roll: crate::election::Roll,
)
    requires
        s matches StateView::InGame { friend_func, .. } && friend_func == crate::state::FriendFunc::ByCard(card),
    ensures
        crate::next::spec_next(s, user_id, crate::command::Command::Go(card, rush_type, ujc), rule, roll) matches Ok(t)
            ==> (t matches StateView::InGame { is_friend_known, .. } ==> is_friend_known),
{
}

/// When nobody bid, the game is played at the minimum bid: the minimum with
/// a trump, or the minimum with the no-trump offset without one, which the
/// rule must allow.
pub proof fn lemma_no_bid_plays_minimum(
    s: StateView,
    user_id: usize,
    cmd: crate::command::Command,
    rule: &Rule,
    roll: crate::election::Roll,
)
    requires
        s.wf(),
        rule.wf(),
        s is Election,
        crate::election::max_bid(s->Election_pledge) == 0,
    ensures
        crate::next::spec_next(s, user_id, cmd, rule, roll) matches Ok(t) ==> (t matches StateView::SelectFriend {
            giruda,
            pledge,
            ..
        } ==> {
            &&& giruda is Some ==> pledge == rule.pledge.min
            &&& giruda is None ==> rule.election.no_giruda_exist && pledge == (rule.pledge.min as int
                + rule.pledge.no_giruda_offset as int) as u8
        }),
{
    let pl = s->Election_pledge;
    lemma_top_is_max(pl, pl.len() as int);
    lemma_max_bid_upper(pl);
    assert(pl.take(pl.len() as int) =~= pl);
    crate::election::lemma_not_done_bounded(s->Election_done.update(user_id as int, true));
    let fb = crate::election::fallback_bids(rule);
    if fb.contains(roll.bid) {
        let k = choose|k: int| 0 <= k < fb.len() && fb[k] == roll.bid;
        assert(fb[k] == roll.bid);
        if k < 4 {
            assert(fb[k].0 is Some && fb[k].1 == rule.pledge.min);
        } else {
            assert(rule.election.no_giruda_exist && fb[k].0 is None);
        }
    }
}

/// Between two jokers, the one of the trick's colour wins.
pub proof fn lemma_joker_against_joker(s: StateView, a: crate::card::Color, b: crate::card::Color)
    ensures
        s.beats(Card::Joker(a), Card::Joker(b)) == (b == crate::card::spec_current_color(s.current_pattern())),
{
}

} // verus!
