//! Copies of the vectors that the game state holds.
use vstd::prelude::*;
use crate::card::Card;
use crate::state::decks_view;

verus! {

/// A copy of a vector of plain values.
pub fn copy_vec<T: Copy>(v: &Vec<T>) -> (r: Vec<T>)
    ensures
        r@ == v@,
{
    let mut r: Vec<T> = Vec::new();
    let mut i: usize = 0;
    while i < v.len()
        invariant
            i <= v.len(),
            r@ =~= v@.take(i as int),
        decreases v.len() - i,
    {
        r.push(v[i]);
        i = i + 1;
    }
    assert(v@.take(i as int) =~= v@);
    r
}

/// A copy of a vector of hands.
pub fn copy_decks(d: &Vec<Vec<Card>>) -> (r: Vec<Vec<Card>>)
    ensures
        decks_view(r) == decks_view(*d),
        r@.len() == d@.len(),
{
    let mut r: Vec<Vec<Card>> = Vec::new();
    let mut i: usize = 0;
    while i < d.len()
        invariant
            i <= d.len(),
            r@.len() == i,
            forall|k: int| 0 <= k < i ==> #[trigger] r@[k]@ == d@[k]@,
        decreases d.len() - i,
    {
        let h = copy_vec(&d[i]);
        r.push(h);
        i = i + 1;
    }
    assert(decks_view(r) =~= decks_view(*d));
    r
}

/// `d` with `h` in place of hand `i`.
pub fn set_hand(d: &mut Vec<Vec<Card>>, i: usize, h: Vec<Card>)
    requires
        i < old(d)@.len(),
    ensures
        decks_view(*final(d)) == decks_view(*old(d)).update(i as int, h@),
        final(d)@.len() == old(d)@.len(),
{
    let ghost before = decks_view(*d);
    d.set(i, h);
    assert(decks_view(*d) =~= before.update(i as int, h@));
}

} // verus!
