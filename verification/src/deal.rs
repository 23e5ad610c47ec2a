//! Dealing the cards and starting a game.
use vstd::prelude::*;
use crate::card::Card;
use crate::rule::Rule;
use crate::random::shuffle_cards;
use crate::state::{Bid, State, StateView, decks_view};

verus! {

/// The cards of `s` cut into piles of `n` in order: every pile but the last
/// holds `n` cards, the last holds the rest (between one and `n`).
pub open spec fn spec_chunks(s: Seq<Card>, n: int) -> Seq<Seq<Card>>
    decreases s.len(),
{
    if n <= 0 || s.len() == 0 {
        Seq::empty()
    } else if s.len() <= n {
        seq![s]
    } else {
        seq![s.take(n)] + spec_chunks(s.skip(n), n)
    }
}

/// Whether a pile of exactly `n` cards is a missed deal under the rule.
pub open spec fn spec_pile_missed(rule: &Rule, pile: Seq<Card>, n: int) -> bool {
    pile.len() == n && rule.missed_deal.spec_is_missed_deal(pile)
}

/// Whether some full pile of the deal is a missed deal.
pub open spec fn spec_deal_missed(rule: &Rule, piles: Seq<Seq<Card>>) -> bool {
    exists|i: int|
        0 <= i < piles.len() && spec_pile_missed(rule, #[trigger] piles[i], rule.card_cnt_per_user as int)
}

/// Whether the piles are the rule's deck, in the order `order`, cut into
/// piles of the rule's hand size.
pub open spec fn spec_is_deal_of_deck(rule: &Rule, piles: Seq<Seq<Card>>, order: Seq<Card>) -> bool {
    &&& order.to_multiset() == rule.deck@.to_multiset()
    &&& piles == spec_chunks(order, rule.card_cnt_per_user as int)
}

/// The cards from position `lo` up to `hi`.
fn copy_range(cards: &Vec<Card>, lo: usize, hi: usize) -> (r: Vec<Card>)
    requires
        lo <= hi <= cards.len(),
    ensures
        r@ == cards@.subrange(lo as int, hi as int),
{
    let mut r: Vec<Card> = Vec::new();
    let mut i = lo;
    while i < hi
        invariant
            lo <= i <= hi <= cards.len(),
            r@ =~= cards@.subrange(lo as int, i as int),
        decreases hi - i,
    {
        r.push(cards[i]);
        i = i + 1;
    }
    r
}

/// Cuts the cards in order into piles of `n`; the last pile holds what is
/// left over.
pub fn deal(cards: &Vec<Card>, n: usize) -> (piles: Vec<Vec<Card>>)
    requires
        0 < n,
    ensures
        decks_view(piles) == spec_chunks(cards@, n as int),
{
    let mut piles: Vec<Vec<Card>> = Vec::new();
    let mut start: usize = 0;
    assert(cards@.skip(0) =~= cards@);
    assert(decks_view(piles) =~= Seq::<Seq<Card>>::empty());
    assert(Seq::<Seq<Card>>::empty() + spec_chunks(cards@, n as int) =~= spec_chunks(cards@, n as int));
    while start < cards.len()
        invariant
            0 < n,
            start <= cards.len(),
            decks_view(piles) + spec_chunks(cards@.skip(start as int), n as int) == spec_chunks(cards@, n as int),
        decreases cards.len() - start,
    {
        let end: usize = if cards.len() - start <= n { cards.len() } else { start + n };
        let pile = copy_range(cards, start, end);
        let ghost rest = cards@.skip(start as int);
        let ghost before = decks_view(piles);
        proof {
            if rest.len() <= n {
                assert(pile@ =~= rest);
                assert(cards@.skip(end as int) =~= Seq::<Card>::empty());
                assert(spec_chunks(cards@.skip(end as int), n as int) =~= Seq::<Seq<Card>>::empty());
                assert(spec_chunks(rest, n as int) == seq![rest]);
            } else {
                assert(pile@ =~= rest.take(n as int));
                assert(rest.skip(n as int) =~= cards@.skip(end as int));
                assert(spec_chunks(rest, n as int) == seq![rest.take(n as int)] + spec_chunks(rest.skip(n as int), n as int));
            }
        }
        piles.push(pile);
        proof {
            assert(decks_view(piles) =~= before.push(pile@));
            assert(decks_view(piles) + spec_chunks(cards@.skip(end as int), n as int) =~= before + spec_chunks(rest, n as int));
        }
        start = end;
    }
    proof {
        assert(cards@.skip(start as int) =~= Seq::<Card>::empty());
        assert(decks_view(piles) + Seq::<Seq<Card>>::empty() =~= decks_view(piles));
    }
    piles
}

/// Whether some full pile of the deal is a missed deal.
pub fn deal_missed(rule: &Rule, piles: &Vec<Vec<Card>>) -> (b: bool)
    ensures
        b == spec_deal_missed(rule, decks_view(*piles)),
{
    let n = rule.card_cnt_per_user as usize;
    let mut i: usize = 0;
    while i < piles.len()
        invariant
            i <= piles.len(),
            n == rule.card_cnt_per_user,
            forall|k: int| 0 <= k < i ==> !spec_pile_missed(rule, #[trigger] decks_view(*piles)[k], n as int),
        decreases piles.len() - i,
    {
        if piles[i].len() == n && rule.missed_deal.is_missed_deal(&piles[i]) {
            assert(spec_pile_missed(rule, decks_view(*piles)[i as int], n as int));
            return true;
        }
        i = i + 1;
    }
    false
}

/// The deck in the rule's order.
fn copy_deck(cards: &Vec<Card>) -> (r: Vec<Card>)
    ensures
        r@ == cards@,
{
    copy_range(cards, 0, cards.len())
}

/// Whether no order of the rule's deck gives a deal with a missed deal in
/// it, so that the first shuffle is always kept.
pub open spec fn spec_never_missed(rule: &Rule) -> bool {
    forall|order: Seq<Card>|
        #![trigger spec_chunks(order, rule.card_cnt_per_user as int)]
        order.to_multiset() == rule.deck@.to_multiset() ==> !spec_deal_missed(
            rule,
            spec_chunks(order, rule.card_cnt_per_user as int),
        )
}

/// Shuffles the rule's deck and cuts it into piles of the hand size,
/// shuffling again while a full pile is a missed deal. A deal that comes
/// back has no missed deal in it; where no order of the deck gives a missed
/// deal a deal always comes back, and `None` comes only after `u64::MAX`
/// shuffles that all gave one.
pub fn get_random_deck(rule: &Rule) -> (piles: Option<Vec<Vec<Card>>>)
    requires
        rule.card_cnt_per_user > 0,
    ensures
        piles matches Some(p) ==> {
            &&& !spec_deal_missed(rule, decks_view(p))
            &&& exists|order: Seq<Card>| spec_is_deal_of_deck(rule, decks_view(p), order)
        },
        spec_never_missed(rule) ==> piles is Some,
{
    let mut attempts: u64 = 0;
    while attempts < u64::MAX
        invariant
            rule.card_cnt_per_user > 0,
            spec_never_missed(rule) ==> attempts == 0,
        decreases u64::MAX - attempts,
    {
        let mut cards = copy_deck(&rule.deck);
        shuffle_cards(&mut cards);
        proof {
            cards@.to_multiset_ensures();
            rule.deck@.to_multiset_ensures();
        }
        let piles = deal(&cards, rule.card_cnt_per_user as usize);
        assert(spec_is_deal_of_deck(rule, decks_view(piles), cards@));
        if !deal_missed(rule, &piles) {
            return Some(piles);
        }
        attempts = attempts + 1;
    }
    None
}

/// `k * n < s.len() <= (k + 1) * n` cuts `s` into `k + 1` piles.
pub proof fn lemma_chunks_len(s: Seq<Card>, n: int, k: nat)
    requires
        0 < n,
        k * n < s.len() <= (k + 1) * n,
    ensures
        spec_chunks(s, n).len() == k + 1,
    decreases k,
{
    if k == 0 {
        assert(k * n == 0 && (k + 1) * n == n) by (nonlinear_arith)
            requires
                k == 0,
        ;
    } else {
        assert(n <= k * n && (k - 1) * n == k * n - n && k * n == (k + 1) * n - n) by (nonlinear_arith)
            requires
                0 < n,
                k >= 1,
        ;
        lemma_chunks_len(s.skip(n), n, (k - 1) as nat);
    }
}

/// Five empty bids.
fn no_bids() -> (v: Vec<Option<Bid>>)
    ensures
        v@ =~= seq![None, None, None, None, None],
{
    let mut v: Vec<Option<Bid>> = Vec::new();
    v.push(None);
    v.push(None);
    v.push(None);
    v.push(None);
    v.push(None);
    v
}

/// Five players who have not passed.
fn none_done() -> (v: Vec<bool>)
    ensures
        v@ =~= seq![false, false, false, false, false],
{
    let mut v: Vec<bool> = Vec::new();
    v.push(false);
    v.push(false);
    v.push(false);
    v.push(false);
    v.push(false);
    v
}

/// The bidding phase at the start of a game over the given piles: no bids,
/// nobody passed, player 0 to bid, every pile but the last as a hand and the
/// last as the kitty.
pub open spec fn spec_start(piles: Seq<Seq<Card>>) -> StateView {
    StateView::Election {
        pledge: seq![None, None, None, None, None],
        done: seq![false, false, false, false, false],
        curr_user: 0,
        start_user: None,
        deck: piles.drop_last(),
        left: piles.last(),
    }
}

impl State {
    /// A new game: the deck is shuffled and dealt (see `get_random_deck`),
    /// and the bidding starts: every hand holds the hand size and the kitty
    /// the rest (one card up to the hand size). Where no order of the deck gives a missed
    /// deal a game always starts. When the deck makes five full hands and a
    /// smaller kitty, the state has the shape of a game.
    pub fn new(rule: &Rule) -> (s: Option<State>)
        requires
            rule.card_cnt_per_user > 0,
            rule.deck.len() > 0,
        ensures
            s matches Some(st) ==> {
                &&& exists|order: Seq<Card>|
                    #![trigger spec_chunks(order, rule.card_cnt_per_user as int)]
                    {
                        &&& order.to_multiset() == rule.deck@.to_multiset()
                        &&& !spec_deal_missed(rule, spec_chunks(order, rule.card_cnt_per_user as int))
                        &&& st@ == spec_start(spec_chunks(order, rule.card_cnt_per_user as int))
                    }
                &&& st@ matches StateView::Election { deck, left, .. } && {
                    &&& forall|i: int| 0 <= i < deck.len() ==> (#[trigger] deck[i]).len() == rule.card_cnt_per_user
                    &&& 0 < left.len() <= rule.card_cnt_per_user
                }
                &&& 5 * (rule.card_cnt_per_user as int) < rule.deck.len() <= 6 * (rule.card_cnt_per_user as int)
                    ==> st@.wf()
            },
            spec_never_missed(rule) ==> s is Some,
    {
        match get_random_deck(rule) {
            None => None,
            Some(deck) => {
                let mut deck = deck;
                let ghost piles = decks_view(deck);
                let ghost n = rule.card_cnt_per_user as int;
                let ghost order = choose|order: Seq<Card>| spec_is_deal_of_deck(rule, piles, order);
                proof {
                    order.to_multiset_ensures();
                    rule.deck@.to_multiset_ensures();
                    assert(order.len() > 0);
                    assert(piles.len() > 0);
                    crate::laws::lemma_deal_keeps_cards(order, n);
                    if 5 * n < rule.deck.len() <= 6 * n {
                        lemma_chunks_len(order, n, 5);
                    }
                }
                let left = deck.pop().unwrap();
                assert(decks_view(deck) =~= piles.drop_last());
                let s = State::Election {
                    pledge: no_bids(),
                    done: none_done(),
                    curr_user: 0,
                    start_user: None,
                    deck,
                    left,
                };
                assert(s@ == spec_start(spec_chunks(order, n)));
                Some(s)
            },
        }
    }
}

} // verus!
