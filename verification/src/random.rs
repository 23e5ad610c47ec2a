//! Random choices, made by the `rand` crate.
use vstd::prelude::*;
use rand::seq::SliceRandom;
use crate::card::Card;

verus! {

/// Shuffles the cards in place with `rand::seq::SliceRandom::shuffle` on the
/// thread's generator. Claimed: the cards come out in some order, the same
/// cards as before (the shuffle only swaps). Which order is left open.
#[verifier::external_body]
pub(crate) fn shuffle_cards(cards: &mut Vec<Card>)
    ensures
        final(cards)@.to_multiset() == old(cards)@.to_multiset(),
{
    cards.shuffle(&mut rand::thread_rng());
}

/// Picks one item with `rand::seq::SliceRandom::choose` on the thread's
/// generator. Claimed: `None` exactly for an empty vector, else one of its
/// items. Which one is left open.
#[verifier::external_body]
pub(crate) fn choose_one<T: Copy>(items: &Vec<T>) -> (r: Option<T>)
    ensures
        r is Some <==> items@.len() > 0,
        r matches Some(x) ==> items@.contains(x),
{
    items.choose(&mut rand::thread_rng()).copied()
}

/// Picks `amount` items (all of them when there are fewer) at distinct
/// positions with `rand::seq::SliceRandom::choose_multiple` on the thread's
/// generator. Claimed: the number of items, and that they are drawn without
/// repetition from the vector. Which ones, and their order, is left open.
#[verifier::external_body]
pub(crate) fn choose_multiple<T: Copy>(items: &Vec<T>, amount: usize) -> (r: Vec<T>)
    ensures
        r@.len() == if amount < items@.len() { amount as int } else { items@.len() as int },
        r@.to_multiset().subset_of(items@.to_multiset()),
{
    items.choose_multiple(&mut rand::thread_rng(), amount).copied().collect()
}

} // verus!
