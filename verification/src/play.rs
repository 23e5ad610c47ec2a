//! The play phase: a card is played, the trick is taken, the game is scored.
use vstd::prelude::*;
use crate::card::{Card, Pattern, Rush, spec_card_rush, spec_color_bits, spec_is_score, spec_pattern_bits};
use crate::error::Error;
use crate::hand::position;
use crate::rule::{CardPolicy, Rule, lookup, spec_lookup};
use crate::state::{FriendFunc, State, StateView, decks_view, result_view, total_len};
use crate::vecs::{copy_decks, copy_vec, set_hand};

verus! {

/// Whether the trump suit exists and its suit set is `r`.
pub open spec fn is_giruda_rush(giruda: Option<Pattern>, r: Rush) -> bool {
    match giruda {
        Some(y) => (Rush { bits: spec_pattern_bits(y) }) == r,
        None => false,
    }
}

/// The cards that call the joker under trump `giruda`.
pub open spec fn joker_calls(cards: Seq<(Card, Card)>, giruda: Option<Pattern>) -> Seq<Card> {
    cards.map_values(
        |p: (Card, Card)|
            if is_giruda_rush(giruda, spec_card_rush(p.0)) {
                p.1
            } else {
                p.0
            },
    )
}

/// Whether every card of the hand is the called card or the played card.
pub open spec fn only_called_or(hand: Seq<Card>, called: Option<Card>, card: Card) -> bool {
    forall|i: int| 0 <= i < hand.len() ==> called == Some(#[trigger] hand[i]) || hand[i] == card
}

/// Whether every suited card of the hand is the mighty or a trump.
pub open spec fn only_strong(hand: Seq<Card>, mighty: Card, giruda: Option<Pattern>) -> bool {
    forall|i: int|
        0 <= i < hand.len() ==> match #[trigger] hand[i] {
            Card::Normal(t, _) => hand[i] == mighty || giruda == Some(t),
            Card::Joker(_) => true,
        }
}

/// Whether the suit set of every card of the hand is the complement of `cp`.
pub open spec fn all_complement(hand: Seq<Card>, cp: Rush) -> bool {
    forall|i: int| 0 <= i < hand.len() ==> cp.spec_complement() == spec_card_rush(#[trigger] hand[i])
}

/// The checks of the first and the last trick: whether the card may be
/// played, and whether it loses its power (`ne` is whether it already did).
pub open spec fn spec_edge_check(s: StateView, card: Card, ujc: bool, jcalls: Seq<Card>, rule: &Rule, ne: bool) -> Result<
    bool,
    Error,
> {
    let cp = rule.card_policy;
    if card == s.mighty() {
        if s.card_invalid(cp.mighty) {
            Err(Error::WrongCard)
        } else {
            Ok(ne || s.card_no_effect(cp.mighty))
        }
    } else if spec_lookup(cp.card@, card) matches Some(y) && s.card_invalid(y) {
        Err(Error::WrongCard)
    } else if spec_lookup(cp.card@, card) matches Some(y) && s.card_no_effect(y) {
        Ok(true)
    } else {
        match card {
            Card::Normal(t, _) => {
                if Some(t) == s.giruda() && s.card_invalid(cp.giruda) {
                    Err(Error::WrongCard)
                } else if jcalls.contains(card) && ujc && s.card_invalid(cp.joker_call) {
                    Err(Error::WrongCard)
                } else {
                    Ok(ne || (Some(t) == s.giruda() && s.card_no_effect(cp.giruda)))
                }
            },
            Card::Joker(_) => {
                if s.card_invalid(cp.joker) {
                    Err(Error::WrongCard)
                } else {
                    Ok(ne || s.card_no_effect(cp.joker))
                }
            },
        }
    }
}

/// The trick's suit, the called joker and whether the call takes effect,
/// after the leader plays `card` from `hand`. A trump may not be led from a
/// hand with other suited cards when the rule makes trumps invalid for the
/// leader; a joker leads a suit set of its colour.
pub open spec fn spec_lead(
    s: StateView,
    hand: Seq<Card>,
    card: Card,
    rush_type: Rush,
    ujc: bool,
    jcalls: Seq<Card>,
    rule: &Rule,
) -> Result<(Rush, Option<Card>, bool), Error> {
    match s {
        StateView::InGame { giruda, turn_count, .. } => {
            let cp = spec_card_rush(card);
            let jp = rule.card_policy.joker_call;
            if !only_strong(hand, s.mighty(), giruda) && is_giruda_rush(giruda, cp)
                && rule.card_policy.giruda.0 == CardPolicy::InvalidForFirst {
                Err(Error::WrongCard)
            } else {
                match card {
                    Card::Normal(..) => if jcalls.contains(card) && ujc {
                        Ok(
                            (
                                cp,
                                Some(card),
                                !(jp.0 == CardPolicy::NoEffect && turn_count == 0 || jp.1 == CardPolicy::NoEffect
                                    && turn_count == 9),
                            ),
                        )
                    } else {
                        Ok((cp, None, false))
                    },
                    Card::Joker(t) => if (Rush { bits: spec_color_bits(t) }).spec_contains(rush_type) {
                        Ok((rush_type, None, false))
                    } else {
                        Err(Error::WrongPattern)
                    },
                }
            }
        },
        _ => Err(Error::Internal),
    }
}

/// Whether a follower may play `card` from `hand`: the mighty always; any
/// card unless the complement of the trick's suit set equals the card's suit
/// set while not every card of the hand has that suit set.
pub open spec fn spec_follow_ok(s: StateView, hand: Seq<Card>, card: Card) -> bool {
    let cp = s.current_pattern();
    card == s.mighty() || !(!all_complement(hand, cp) && cp.spec_complement() == spec_card_rush(card))
}

/// The winner among the first `n` placed cards that keep their power.
pub open spec fn winner_scan(s: StateView, placed: Seq<(Card, CardPolicy)>, n: int) -> Option<int>
    decreases n,
{
    if n <= 0 {
        None
    } else {
        let w = winner_scan(s, placed, n - 1);
        let i = n - 1;
        if placed[i].1 == CardPolicy::NoEffect {
            w
        } else {
            match w {
                Some(j) => if placed[j].1 != CardPolicy::NoEffect && s.beats(placed[i].0, placed[j].0) {
                    Some(j)
                } else {
                    Some(i)
                },
                None => Some(i),
            }
        }
    }
}

/// The winner among the first `n` placed cards, powers ignored.
pub open spec fn winner_scan_all(s: StateView, placed: Seq<(Card, CardPolicy)>, n: int) -> Option<int>
    decreases n,
{
    if n <= 0 {
        None
    } else {
        let w = winner_scan_all(s, placed, n - 1);
        let i = n - 1;
        match w {
            Some(j) => if s.beats(placed[i].0, placed[j].0) {
                Some(j)
            } else {
                Some(i)
            },
            None => Some(i),
        }
    }
}

/// The winner of a trick of five cards: the best card that keeps its power,
/// or the best card when none does.
pub open spec fn trick_winner(s: StateView, placed: Seq<(Card, CardPolicy)>) -> int {
    match winner_scan(s, placed, 5) {
        Some(w) => w,
        None => winner_scan_all(s, placed, 5)->0,
    }
}

/// The point cards among the placed cards, in order.
pub open spec fn score_cards(placed: Seq<(Card, CardPolicy)>) -> Seq<Card>
    decreases placed.len(),
{
    if placed.len() == 0 {
        Seq::empty()
    } else if spec_is_score(placed.last().0) {
        score_cards(placed.drop_last()).push(placed.last().0)
    } else {
        score_cards(placed.drop_last())
    }
}

/// The bit of player `k`.
pub open spec fn player_bit(k: usize) -> u8 {
    1u8 << (k as u8)
}

/// The declarer's side: his bit and the friend's (one bit when he is his
/// own friend).
pub open spec fn party_mask(president: usize, friend: Option<usize>) -> int {
    match friend {
        Some(f) => (player_bit(president) | player_bit(f)) as int,
        None => player_bit(president) as int,
    }
}

/// The points of the declarer's side: 20 less what the other players won.
pub open spec fn party_points(president: usize, friend: Option<usize>, sd: Seq<Seq<Card>>) -> int {
    let others = match friend {
        Some(f) => total_len(sd) - sd[f as int].len(),
        None => total_len(sd),
    };
    20 - others + sd[president as int].len()
}

/// The end of the game. The declarer's side wins when its points reach the
/// bid and scores (points - 10) times a factor (doubled without trump,
/// without friend, and for all 20 points); otherwise the other players win
/// and score the shortfall, doubled when the side made 10 or fewer. The
/// score is `Internal` when it does not fit the game's byte arithmetic.
pub open spec fn spec_game_end(
    president: usize,
    friend: Option<usize>,
    ff: FriendFunc,
    giruda: Option<Pattern>,
    pledge: u8,
    sd: Seq<Seq<Card>>,
) -> Result<StateView, Error> {
    let others = match friend {
        Some(f) => total_len(sd) - sd[f as int].len(),
        None => total_len(sd),
    };
    let mul1: int = (if giruda is None { 2int } else { 1int }) * (if ff is NoFriend { 2int } else { 1int });
    let mask = party_mask(president, friend);
    if others > 20 {
        Err(Error::Internal)
    } else {
        let points = party_points(president, friend, sd);
        let mul = if points == 20 { mul1 * 2 } else { mul1 };
        if points >= pledge {
            if points < 10 || mul * (points - 10) > 255 {
                Err(Error::Internal)
            } else {
                Ok(StateView::GameEnded {
                    winner: mask as u8,
                    president,
                    friend,
                    score: (mul * (points - 10)) as u8,
                    pledge,
                    giruda,
                })
            }
        } else if points <= 10 && 2 * (pledge - points) > 255 {
            Err(Error::Internal)
        } else {
            Ok(StateView::GameEnded {
                winner: (32 - mask) as u8,
                president,
                friend,
                score: (if points <= 10 { 2 * (pledge - points) } else { pledge - points }) as u8,
                pledge,
                giruda,
            })
        }
    }
}

/// The state after the card is played: the next player's turn, or, when the
/// trick is complete, the trick goes to its winner (with its point cards),
/// who leads the next trick, or the game ends after the tenth trick.
pub open spec fn spec_after_play(
    s: StateView,
    placed: Seq<(Card, CardPolicy)>,
    is_friend_known: bool,
    deck: Seq<Seq<Card>>,
    cp: Rush,
    jcc: Option<Card>,
    jce: bool,
) -> Result<StateView, Error> {
    match s {
        StateView::InGame {
            president,
            friend_func,
            friend,
            giruda,
            pledge,
            score_deck,
            turn_count,
            start_user,
            current_user,
            ..
        } => {
            let next_user = ((current_user + 1) % 5) as usize;
            if next_user != start_user {
                Ok(StateView::InGame {
                    president,
                    friend_func,
                    friend,
                    is_friend_known,
                    giruda,
                    pledge,
                    deck,
                    score_deck,
                    turn_count,
                    placed_cards: placed,
                    start_user,
                    current_user: next_user,
                    current_pattern: cp,
                    joker_call_card: jcc,
                    joker_call_effect: jce,
                })
            } else {
                let w = trick_winner(s, placed);
                let (friend2, known2) = match friend_func {
                    FriendFunc::First => (
                        if friend is Some {
                            friend
                        } else if turn_count == 0 && w != president {
                            Some(w as usize)
                        } else {
                            None
                        },
                        is_friend_known || turn_count == 0,
                    ),
                    FriendFunc::Last => (
                        if friend is Some {
                            friend
                        } else if turn_count == 9 && w != president {
                            Some(w as usize)
                        } else {
                            None
                        },
                        is_friend_known || turn_count == 9,
                    ),
                    _ => (friend, is_friend_known),
                };
                let sd2 = score_deck.update(w, score_deck[w] + score_cards(placed));
                if turn_count + 1 == 10 {
                    spec_game_end(president, friend2, friend_func, giruda, pledge, sd2)
                } else {
                    Ok(StateView::InGame {
                        president,
                        friend_func,
                        friend: friend2,
                        is_friend_known: known2,
                        giruda,
                        pledge,
                        deck,
                        score_deck: sd2,
                        turn_count: (turn_count + 1) as u8,
                        placed_cards: placed,
                        start_user: w as usize,
                        current_user: w as usize,
                        current_pattern: cp,
                        joker_call_card: jcc,
                        joker_call_effect: jce,
                    })
                }
            }
        },
        _ => Err(Error::Internal),
    }
}

/// `user_id` plays `card` (with the suit set a leading joker asks for, and
/// whether a leading joker-call card calls the joker).
pub open spec fn spec_go(s: StateView, user_id: usize, card: Card, rush_type: Rush, ujc: bool, rule: &Rule) -> Result<
    StateView,
    Error,
> {
    match s {
        StateView::InGame {
            friend_func,
            is_friend_known,
            giruda,
            deck,
            turn_count,
            placed_cards,
            start_user,
            current_user,
            current_pattern,
            joker_call_card,
            joker_call_effect,
            ..
        } => {
            let placed1 = placed_cards.update(user_id as int, (card, CardPolicy::Valid));
            let known1 = match friend_func {
                FriendFunc::ByCard(c) => is_friend_known || c == card,
                _ => is_friend_known,
            };
            let jcalls = joker_calls(rule.joker_call.cards@, giruda);
            let hand = deck[user_id as int];
            let edge = turn_count == 0 || turn_count == 9;
            if joker_call_card is Some && !only_called_or(hand, joker_call_card, card) {
                Err(Error::JokerCall)
            } else if hand.index_of_first(card) is None {
                Err(Error::NotInDeck)
            } else {
                let idx = hand.index_of_first(card)->0;
                let ne0 = joker_call_card is Some && joker_call_effect;
                let chk = if edge {
                    spec_edge_check(s, card, ujc, jcalls, rule, ne0)
                } else {
                    Ok(false)
                };
                match chk {
                    Err(e) => Err(e),
                    Ok(ne) => {
                        let placed2 = if edge && ne {
                            placed1.update(user_id as int, (card, CardPolicy::NoEffect))
                        } else {
                            placed1
                        };
                        let lead = if current_user == start_user {
                            spec_lead(s, hand, card, rush_type, ujc, jcalls, rule)
                        } else if spec_follow_ok(s, hand, card) {
                            Ok((current_pattern, joker_call_card, joker_call_effect))
                        } else {
                            Err(Error::WrongCard)
                        };
                        match lead {
                            Err(e) => Err(e),
                            Ok((cp, jcc, jce)) => spec_after_play(
                                s,
                                placed2,
                                known1,
                                deck.update(user_id as int, hand.remove(idx)),
                                cp,
                                jcc,
                                jce,
                            ),
                        }
                    },
                }
            }
        },
        _ => Err(Error::Internal),
    }
}

} // verus!

verus! {

/// The bit of a player below five is at most 16.
pub proof fn lemma_player_bit(k: usize)
    requires
        k < 5,
    ensures
        1 <= player_bit(k) <= 16,
{
    let b = k as u8;
    assert(1u8 <= (1u8 << b) <= 16u8) by (bit_vector)
        requires
            b < 5,
    ;
}

/// The total length of a sequence of hands grows by the length of what is
/// added to one of them.
pub proof fn lemma_total_len_update(d: Seq<Seq<Card>>, w: int, x: Seq<Card>)
    requires
        0 <= w < d.len(),
    ensures
        total_len(d.update(w, d[w] + x)) == total_len(d) + x.len(),
    decreases d.len(),
{
    if w < d.len() - 1 {
        lemma_total_len_update(d.drop_last(), w, x);
        assert(d.update(w, d[w] + x).drop_last() =~= d.drop_last().update(w, d[w] + x));
    } else {
        assert(d.update(w, d[w] + x).drop_last() =~= d.drop_last());
    }
}

/// Each hand is at most the total.
pub proof fn lemma_total_len_bounds(d: Seq<Seq<Card>>, f: int)
    requires
        0 <= f < d.len(),
    ensures
        d[f].len() <= total_len(d),
        0 <= total_len(d),
    decreases d.len(),
{
    lemma_total_len_nonneg(d.drop_last());
    if f < d.len() - 1 {
        lemma_total_len_bounds(d.drop_last(), f);
    }
}

/// The total is not negative.
pub proof fn lemma_total_len_nonneg(d: Seq<Seq<Card>>)
    ensures
        0 <= total_len(d),
    decreases d.len(),
{
    if d.len() > 0 {
        lemma_total_len_nonneg(d.drop_last());
    }
}

/// There are no more point cards than placed cards.
pub proof fn lemma_score_cards_len(placed: Seq<(Card, CardPolicy)>)
    ensures
        score_cards(placed).len() <= placed.len(),
    decreases placed.len(),
{
    if placed.len() > 0 {
        lemma_score_cards_len(placed.drop_last());
    }
}

/// The total length of a sequence of hands.
pub fn total_len_of(d: &Vec<Vec<Card>>) -> (t: usize)
    requires
        total_len(decks_view(*d)) <= 1000,
    ensures
        t == total_len(decks_view(*d)),
{
    let mut t: usize = 0;
    let mut i: usize = 0;
    while i < d.len()
        invariant
            i <= d.len(),
            total_len(decks_view(*d)) <= 1000,
            t == total_len(decks_view(*d).take(i as int)),
        decreases d.len() - i,
    {
        assert(decks_view(*d).take(i + 1).drop_last() =~= decks_view(*d).take(i as int));
        proof {
            lemma_total_len_prefix(decks_view(*d), i + 1);
        }
        t = t + d[i].len();
        i = i + 1;
    }
    assert(decks_view(*d).take(i as int) =~= decks_view(*d));
    t
}

/// A prefix has no more cards than the whole.
pub proof fn lemma_total_len_prefix(d: Seq<Seq<Card>>, n: int)
    requires
        0 <= n <= d.len(),
    ensures
        total_len(d.take(n)) <= total_len(d),
    decreases d.len(),
{
    if n < d.len() {
        assert(d.take(n) =~= d.drop_last().take(n));
        lemma_total_len_prefix(d.drop_last(), n);
        lemma_total_len_nonneg(d.drop_last());
    } else {
        assert(d.take(n) =~= d);
    }
}

/// The cards that call the joker under trump `giruda`.
pub fn joker_calls_of(cards: &Vec<(Card, Card)>, giruda: Option<Pattern>) -> (r: Vec<Card>)
    ensures
        r@ == joker_calls(cards@, giruda),
{
    let mut r: Vec<Card> = Vec::new();
    let mut i: usize = 0;
    while i < cards.len()
        invariant
            i <= cards.len(),
            r@ =~= joker_calls(cards@.take(i as int), giruda),
        decreases cards.len() - i,
    {
        let (a, b) = cards[i];
        let same = match giruda {
            Some(y) => Rush::from_pattern(y) == Rush::from_card(a),
            None => false,
        };
        r.push(if same { b } else { a });
        assert(joker_calls(cards@.take(i + 1), giruda) =~= joker_calls(cards@.take(i as int), giruda).push(
            r@[i as int],
        ));
        i = i + 1;
    }
    assert(cards@.take(i as int) =~= cards@);
    r
}

/// Whether `jcalls` holds `card`.
fn calls_contain(jcalls: &Vec<Card>, card: Card) -> (b: bool)
    ensures
        b == jcalls@.contains(card),
{
    crate::hand::contains_card(jcalls, card)
}

/// Whether every card of the hand is the called card or the played card.
pub fn only_called_or_of(hand: &Vec<Card>, called: Option<Card>, card: Card) -> (b: bool)
    ensures
        b == only_called_or(hand@, called, card),
{
    let mut i: usize = 0;
    while i < hand.len()
        invariant
            i <= hand.len(),
            forall|k: int| 0 <= k < i ==> called == Some(#[trigger] hand@[k]) || hand@[k] == card,
        decreases hand.len() - i,
    {
        let x = hand[i];
        if !(called == Some(x) || x == card) {
            return false;
        }
        i = i + 1;
    }
    true
}

/// Whether every suited card of the hand is the mighty or a trump.
pub fn only_strong_of(hand: &Vec<Card>, mighty: Card, giruda: Option<Pattern>) -> (b: bool)
    ensures
        b == only_strong(hand@, mighty, giruda),
{
    let mut i: usize = 0;
    while i < hand.len()
        invariant
            i <= hand.len(),
            forall|k: int|
                0 <= k < i ==> match #[trigger] hand@[k] {
                    Card::Normal(t, _) => hand@[k] == mighty || giruda == Some(t),
                    Card::Joker(_) => true,
                },
        decreases hand.len() - i,
    {
        let x = hand[i];
        let ok = match x {
            Card::Normal(t, _) => x == mighty || giruda == Some(t),
            Card::Joker(_) => true,
        };
        if !ok {
            return false;
        }
        i = i + 1;
    }
    true
}

/// Whether the suit set of every card of the hand is the complement of `cp`.
pub fn all_complement_of(hand: &Vec<Card>, cp: Rush) -> (b: bool)
    ensures
        b == all_complement(hand@, cp),
{
    let comp = cp.complement();
    let mut i: usize = 0;
    while i < hand.len()
        invariant
            i <= hand.len(),
            comp == cp.spec_complement(),
            forall|k: int| 0 <= k < i ==> cp.spec_complement() == spec_card_rush(#[trigger] hand@[k]),
        decreases hand.len() - i,
    {
        if comp != Rush::from_card(hand[i]) {
            return false;
        }
        i = i + 1;
    }
    true
}

/// The point cards among the placed cards.
pub fn score_cards_of(placed: &Vec<(Card, CardPolicy)>) -> (r: Vec<Card>)
    ensures
        r@ == score_cards(placed@),
{
    let mut r: Vec<Card> = Vec::new();
    let mut i: usize = 0;
    while i < placed.len()
        invariant
            i <= placed.len(),
            r@ == score_cards(placed@.take(i as int)),
        decreases placed.len() - i,
    {
        assert(placed@.take(i + 1).drop_last() =~= placed@.take(i as int));
        let c = placed[i].0;
        if c.is_score() {
            r.push(c);
        }
        i = i + 1;
    }
    assert(placed@.take(i as int) =~= placed@);
    r
}

/// Whether the current player's card closes the last trick.
pub open spec fn closes_game(s: StateView) -> bool {
    s matches StateView::InGame { turn_count, start_user, current_user, .. } && turn_count == 9 && (current_user
        + 1) % 5 == start_user
}

/// Whether the friend, if there is one, is a player number.
pub open spec fn friend_seated(s: StateView) -> bool {
    s matches StateView::InGame { friend, .. } ==> (friend matches Some(f) ==> f < 5)
}

/// The end of the game, scored.
pub fn game_end(
    president: usize,
    friend: Option<usize>,
    ff: FriendFunc,
    giruda: Option<Pattern>,
    pledge: u8,
    sd: &Vec<Vec<Card>>,
) -> (r: Result<State, Error>)
    requires
        president < 5,
        friend matches Some(f) ==> f < 5,
        sd@.len() == 5,
        total_len(decks_view(*sd)) <= 50,
    ensures
        result_view(r) == spec_game_end(president, friend, ff, giruda, pledge, decks_view(*sd)),
{
    let ghost d = decks_view(*sd);
    proof {
        lemma_total_len_bounds(d, president as int);
        lemma_player_bit(president);
    }
    let total = total_len_of(sd);
    let mut mul: u64 = 1;
    if giruda.is_none() {
        mul = mul * 2;
    }
    match ff {
        FriendFunc::NoFriend => {
            mul = mul * 2;
        },
        _ => {},
    }
    let mut mask: u8 = 1u8 << (president as u8);
    let others: usize = match friend {
        Some(f) => {
            proof {
                lemma_total_len_bounds(d, f as int);
                lemma_player_bit(f);
            }
            let pb = president as u8;
            let fb = f as u8;
            assert(((1u8 << pb) | (1u8 << fb)) <= 31u8) by (bit_vector)
                requires
                    pb < 5,
                    fb < 5,
            ;
            mask = mask | (1u8 << (f as u8));
            total - sd[f].len()
        },
        None => total,
    };
    assert(mask == party_mask(president, friend));
    if others > 20 {
        return Err(Error::Internal);
    }
    let points: u64 = (20 - others + sd[president].len()) as u64;
    assert(points == party_points(president, friend, d));
    assert(mul <= 4);
    if points == 20 {
        mul = mul * 2;
    }
    assert(mul <= 8 && points <= 70);
    if points >= pledge as u64 {
        if points >= 10 {
            assert(mul * (points - 10) <= 8 * 60) by (nonlinear_arith)
                requires
                    mul <= 8,
                    10 <= points <= 70,
            ;
        }
        if points < 10 || mul * (points - 10) > 255 {
            return Err(Error::Internal);
        }
        let score = (mul * (points - 10)) as u8;
        Ok(State::GameEnded { winner: mask, president, friend, score, pledge, giruda })
    } else {
        let p = pledge as u64;
        if points <= 10 && 2 * (p - points) > 255 {
            return Err(Error::Internal);
        }
        let score = if points <= 10 { (2 * (p - points)) as u8 } else { (p - points) as u8 };
        Ok(State::GameEnded { winner: 32 - mask, president, friend, score, pledge, giruda })
    }
}

} // verus!

verus! {

impl State {
    /// The checks of the first and the last trick for `card`.
    pub fn edge_check(&self, card: Card, ujc: bool, jcalls: &Vec<Card>, rule: &Rule, ne: bool) -> (r: Result<
        bool,
        Error,
    >)
        ensures
            r == spec_edge_check(self@, card, ujc, jcalls@, rule, ne),
    {
        let cp = &rule.card_policy;
        if card == self.get_mighty() {
            if self.check_card_valid(cp.mighty) {
                return Err(Error::WrongCard);
            }
            return Ok(ne || self.check_card_effect(cp.mighty));
        }
        let found = lookup(&cp.card, card);
        if let Some(y) = found {
            if self.check_card_valid(y) {
                return Err(Error::WrongCard);
            }
            if self.check_card_effect(y) {
                return Ok(true);
            }
        }
        match card {
            Card::Normal(t, _) => {
                let is_giruda = Some(t) == self.get_giruda();
                if is_giruda && self.check_card_valid(cp.giruda) {
                    return Err(Error::WrongCard);
                }
                if calls_contain(jcalls, card) && ujc && self.check_card_valid(cp.joker_call) {
                    return Err(Error::WrongCard);
                }
                Ok(ne || (is_giruda && self.check_card_effect(cp.giruda)))
            },
            Card::Joker(_) => {
                if self.check_card_valid(cp.joker) {
                    return Err(Error::WrongCard);
                }
                Ok(ne || self.check_card_effect(cp.joker))
            },
        }
    }

    /// The trick's suit, the called joker and whether the call takes effect
    /// after the leader plays `card` from `hand`.
    pub fn lead(
        &self,
        hand: &Vec<Card>,
        card: Card,
        rush_type: Rush,
        ujc: bool,
        jcalls: &Vec<Card>,
        rule: &Rule,
    ) -> (r: Result<(Rush, Option<Card>, bool), Error>)
        requires
            self@ is InGame,
        ensures
            r == spec_lead(self@, hand@, card, rush_type, ujc, jcalls@, rule),
    {
        match self {
            State::InGame { giruda, turn_count, .. } => {
                let cp = Rush::from_card(card);
                let giruda_lead = match giruda {
                    Some(y) => Rush::from_pattern(*y) == cp,
                    None => false,
                };
                if !only_strong_of(hand, self.get_mighty(), *giruda) && giruda_lead
                    && rule.card_policy.giruda.0 == CardPolicy::InvalidForFirst {
                    return Err(Error::WrongCard);
                }
                let jp = rule.card_policy.joker_call;
                match card {
                    Card::Normal(..) => {
                        if calls_contain(jcalls, card) && ujc {
                            let effect = !(jp.0 == CardPolicy::NoEffect && *turn_count == 0 || jp.1
                                == CardPolicy::NoEffect && *turn_count == 9);
                            Ok((cp, Some(card), effect))
                        } else {
                            Ok((cp, None, false))
                        }
                    },
                    Card::Joker(t) => {
                        if Rush::from_color(t).contains(rush_type) {
                            Ok((rush_type, None, false))
                        } else {
                            Err(Error::WrongPattern)
                        }
                    },
                }
            },
            _ => Err(Error::Internal),
        }
    }

    /// The winner of a trick of five placed cards.
    pub fn trick_winner_of(&self, placed: &Vec<(Card, CardPolicy)>) -> (w: usize)
        requires
            placed@.len() == 5,
        ensures
            w == trick_winner(self@, placed@),
            w < 5,
    {
        let mut w: Option<usize> = None;
        let mut i: usize = 0;
        while i < 5
            invariant
                i <= 5,
                placed@.len() == 5,
                match w {
                    Some(j) => winner_scan(self@, placed@, i as int) == Some(j as int) && j < i,
                    None => winner_scan(self@, placed@, i as int) is None,
                },
            decreases 5 - i,
        {
            if placed[i].1 != CardPolicy::NoEffect {
                w = match w {
                    Some(j) => {
                        if placed[j].1 != CardPolicy::NoEffect && self.compare_cards(&placed[i].0, &placed[j].0) {
                            Some(j)
                        } else {
                            Some(i)
                        }
                    },
                    None => Some(i),
                };
            }
            i = i + 1;
        }
        match w {
            Some(j) => j,
            None => {
                let mut v: Option<usize> = None;
                let mut k: usize = 0;
                while k < 5
                    invariant
                        k <= 5,
                        placed@.len() == 5,
                        winner_scan(self@, placed@, 5) is None,
                        match v {
                            Some(j) => winner_scan_all(self@, placed@, k as int) == Some(j as int) && j < k,
                            None => winner_scan_all(self@, placed@, k as int) is None && k == 0,
                        },
                    decreases 5 - k,
                {
                    v = match v {
                        Some(j) => {
                            if self.compare_cards(&placed[k].0, &placed[j].0) {
                                Some(j)
                            } else {
                                Some(k)
                            }
                        },
                        None => Some(k),
                    };
                    k = k + 1;
                }
                v.unwrap()
            },
        }
    }
}

} // verus!

verus! {

impl State {
    /// The state after a card is played (see `spec_after_play`).
    pub fn after_play(
        &self,
        placed: Vec<(Card, CardPolicy)>,
        known: bool,
        deck: Vec<Vec<Card>>,
        cp: Rush,
        jcc: Option<Card>,
        jce: bool,
    ) -> (r: Result<State, Error>)
        requires
            self@ is InGame,
            self@.wf(),
            closes_game(self@) ==> friend_seated(self@),
            placed@.len() == 5,
        ensures
            result_view(r) == spec_after_play(self@, placed@, known, decks_view(deck), cp, jcc, jce),
    {
        match self {
            State::InGame {
                president,
                friend_func,
                friend,
                giruda,
                pledge,
                score_deck,
                turn_count,
                start_user,
                current_user,
                ..
            } => {
                let next_user = (*current_user + 1) % 5;
                if next_user != *start_user {
                    return Ok(
                        State::InGame {
                            president: *president,
                            friend_func: *friend_func,
                            friend: *friend,
                            is_friend_known: known,
                            giruda: *giruda,
                            pledge: *pledge,
                            deck,
                            score_deck: copy_decks(score_deck),
                            turn_count: *turn_count,
                            placed_cards: placed,
                            start_user: *start_user,
                            current_user: next_user,
                            current_pattern: cp,
                            joker_call_card: jcc,
                            joker_call_effect: jce,
                        },
                    );
                }
                let w = self.trick_winner_of(&placed);
                let (friend2, known2) = match friend_func {
                    FriendFunc::First => (
                        if friend.is_some() {
                            *friend
                        } else if *turn_count == 0 && w != *president {
                            Some(w)
                        } else {
                            None
                        },
                        known || *turn_count == 0,
                    ),
                    FriendFunc::Last => (
                        if friend.is_some() {
                            *friend
                        } else if *turn_count == 9 && w != *president {
                            Some(w)
                        } else {
                            None
                        },
                        known || *turn_count == 9,
                    ),
                    _ => (*friend, known),
                };
                let sc = score_cards_of(&placed);
                proof {
                    lemma_score_cards_len(placed@);
                }
                let mut sd2 = copy_decks(score_deck);
                let mut pile = copy_vec(&sd2[w]);
                let mut i: usize = 0;
                while i < sc.len()
                    invariant
                        i <= sc.len(),
                        w < 5,
                        sd2@.len() == 5,
                        pile@ =~= decks_view(sd2)[w as int] + sc@.take(i as int),
                    decreases sc.len() - i,
                {
                    pile.push(sc[i]);
                    i = i + 1;
                }
                assert(sc@.take(i as int) =~= sc@);
                let ghost before = decks_view(sd2);
                set_hand(&mut sd2, w, pile);
                proof {
                    lemma_total_len_update(before, w as int, sc@);
                }
                if *turn_count + 1 == 10 {
                    return game_end(*president, friend2, *friend_func, *giruda, *pledge, &sd2);
                }
                Ok(
                    State::InGame {
                        president: *president,
                        friend_func: *friend_func,
                        friend: friend2,
                        is_friend_known: known2,
                        giruda: *giruda,
                        pledge: *pledge,
                        deck,
                        score_deck: sd2,
                        turn_count: *turn_count + 1,
                        placed_cards: placed,
                        start_user: w,
                        current_user: w,
                        current_pattern: cp,
                        joker_call_card: jcc,
                        joker_call_effect: jce,
                    },
                )
            },
            _ => Err(Error::Internal),
        }
    }

    /// `user_id` plays `card` (see `spec_go`).
    pub fn go(&self, user_id: usize, card: Card, rush_type: Rush, ujc: bool, rule: &Rule) -> (r: Result<
        State,
        Error,
    >)
        requires
            self@ is InGame,
            self@.wf(),
            closes_game(self@) ==> friend_seated(self@),
            user_id < 5,
        ensures
            result_view(r) == spec_go(self@, user_id, card, rush_type, ujc, rule),
    {
        match self {
            State::InGame {
                friend_func,
                is_friend_known,
                giruda,
                deck,
                turn_count,
                placed_cards,
                start_user,
                current_user,
                current_pattern,
                joker_call_card,
                joker_call_effect,
                ..
            } => {
                let mut placed = copy_vec(placed_cards);
                placed.set(user_id, (card, CardPolicy::Valid));
                let known1 = match friend_func {
                    FriendFunc::ByCard(c) => *is_friend_known || *c == card,
                    _ => *is_friend_known,
                };
                let jcalls = joker_calls_of(&rule.joker_call.cards, *giruda);
                let hand = &deck[user_id];
                assert(hand@ == decks_view(*deck)[user_id as int]);
                if joker_call_card.is_some() && !only_called_or_of(hand, *joker_call_card, card) {
                    return Err(Error::JokerCall);
                }
                let idx = match position(hand, card) {
                    Some(i) => i,
                    None => {
                        return Err(Error::NotInDeck);
                    },
                };
                let ne0 = joker_call_card.is_some() && *joker_call_effect;
                let edge = *turn_count == 0 || *turn_count == 9;
                if edge {
                    match self.edge_check(card, ujc, &jcalls, rule, ne0) {
                        Err(e) => {
                            return Err(e);
                        },
                        Ok(ne) => {
                            if ne {
                                placed.set(user_id, (card, CardPolicy::NoEffect));
                            }
                        },
                    }
                }
                let (cp, jcc, jce) = if *current_user == *start_user {
                    match self.lead(hand, card, rush_type, ujc, &jcalls, rule) {
                        Ok(x) => x,
                        Err(e) => {
                            return Err(e);
                        },
                    }
                } else if card == self.get_mighty() || !(!all_complement_of(hand, *current_pattern)
                    && current_pattern.complement() == Rush::from_card(card)) {
                    (*current_pattern, *joker_call_card, *joker_call_effect)
                } else {
                    return Err(Error::WrongCard);
                };
                let mut new_hand = copy_vec(hand);
                new_hand.remove(idx);
                let mut deck2 = copy_decks(deck);
                set_hand(&mut deck2, user_id, new_hand);
                self.after_play(placed, known1, deck2, cp, jcc, jce)
            },
            _ => Err(Error::Internal),
        }
    }
}

} // verus!
