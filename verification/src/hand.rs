//! Searching and removing cards in hands.
use vstd::prelude::*;
use crate::card::Card;
use crate::state::decks_view;

verus! {

/// The first position of `c` in `hand`.
pub fn position(hand: &Vec<Card>, c: Card) -> (r: Option<usize>)
    ensures
        match r {
            Some(i) => hand@.index_of_first(c) == Some(i as int),
            None => hand@.index_of_first(c) is None,
        },
        r matches Some(i) ==> i < hand@.len() && hand@[i as int] == c,
{
    let mut i: usize = 0;
    while i < hand.len()
        invariant
            i <= hand.len(),
            forall|j: int| 0 <= j < i ==> hand@[j] != c,
        decreases hand.len() - i,
    {
        if hand[i] == c {
            proof {
                hand@.index_of_first_ensures(c);
                match hand@.index_of_first(c) {
                    Some(k) => {
                        assert(!(k < i));
                        assert(!(k > i));
                    },
                    None => {
                        assert(hand@.contains(c));
                    },
                }
            }
            return Some(i);
        }
        i = i + 1;
    }
    proof {
        hand@.index_of_first_ensures(c);
        if hand@.contains(c) {
            let k = choose|k: int| 0 <= k < hand@.len() && hand@[k] == c;
            assert(hand@[k] != c);
        }
    }
    None
}

/// Whether `hand` holds `c`.
pub fn contains_card(hand: &Vec<Card>, c: Card) -> (b: bool)
    ensures
        b == hand@.contains(c),
{
    proof {
        hand@.index_of_first_ensures(c);
    }
    position(hand, c).is_some()
}

/// `hand` without the cards of `drops`, taken one after the other at their
/// first position; `None` when a card is not there.
pub open spec fn spec_drop_all(hand: Seq<Card>, drops: Seq<Card>) -> Option<Seq<Card>>
    decreases drops.len(),
{
    if drops.len() == 0 {
        Some(hand)
    } else {
        match hand.index_of_first(drops[0]) {
            Some(i) => spec_drop_all(hand.remove(i), drops.drop_first()),
            None => None,
        }
    }
}

/// `hand` without the cards of `drops`.
pub fn drop_all(hand: &Vec<Card>, drops: &Vec<Card>) -> (r: Option<Vec<Card>>)
    ensures
        match r {
            Some(h) => spec_drop_all(hand@, drops@) == Some(h@),
            None => spec_drop_all(hand@, drops@) is None,
        },
{
    let mut h: Vec<Card> = Vec::new();
    let mut k: usize = 0;
    while k < hand.len()
        invariant
            k <= hand.len(),
            h@ =~= hand@.take(k as int),
        decreases hand.len() - k,
    {
        h.push(hand[k]);
        k = k + 1;
    }
    assert(hand@.take(k as int) =~= hand@);
    let mut i: usize = 0;
    assert(drops@.skip(0) =~= drops@);
    while i < drops.len()
        invariant
            i <= drops.len(),
            spec_drop_all(h@, drops@.skip(i as int)) == spec_drop_all(hand@, drops@),
        decreases drops.len() - i,
    {
        let ghost rest = drops@.skip(i as int);
        assert(rest[0] == drops@[i as int]);
        assert(rest.drop_first() =~= drops@.skip(i + 1));
        match position(&h, drops[i]) {
            Some(idx) => {
                h.remove(idx);
            },
            None => {
                return None;
            },
        }
        i = i + 1;
    }
    assert(drops@.skip(i as int).len() == 0);
    Some(h)
}

/// The first player whose hand holds `c`.
pub open spec fn spec_holder(deck: Seq<Seq<Card>>, c: Card) -> Option<int> {
    deck.map_values(|h: Seq<Card>| h.contains(c)).index_of_first(true)
}

/// The first player whose hand holds `c`.
pub fn holder(deck: &Vec<Vec<Card>>, c: Card) -> (r: Option<usize>)
    ensures
        match r {
            Some(i) => spec_holder(decks_view(*deck), c) == Some(i as int),
            None => spec_holder(decks_view(*deck), c) is None,
        },
{
    let ghost flags = decks_view(*deck).map_values(|h: Seq<Card>| h.contains(c));
    let mut i: usize = 0;
    while i < deck.len()
        invariant
            i <= deck.len(),
            flags.len() == deck@.len(),
            flags == decks_view(*deck).map_values(|h: Seq<Card>| h.contains(c)),
            forall|j: int| 0 <= j < i ==> flags[j] != true,
        decreases deck.len() - i,
    {
        if contains_card(&deck[i], c) {
            assert(flags[i as int] == true);
            proof {
                flags.index_of_first_ensures(true);
                match flags.index_of_first(true) {
                    Some(k) => {
                        assert(!(k < i));
                        assert(!(k > i));
                    },
                    None => {
                        assert(flags.contains(true));
                    },
                }
            }
            return Some(i);
        }
        assert(flags[i as int] != true);
        i = i + 1;
    }
    proof {
        flags.index_of_first_ensures(true);
        if flags.contains(true) {
            let k = choose|k: int| 0 <= k < flags.len() && flags[k] == true;
            assert(flags[k] != true);
        }
    }
    None
}

} // verus!
