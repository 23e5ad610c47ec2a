//! The bidding phase: bids, passes, and the choice of the declarer.
use vstd::prelude::*;
use crate::card::{Card, Pattern};
use crate::error::Error;
use crate::random::choose_one;
use crate::rule::Rule;
use crate::state::{Bid, State, StateView, decks_view, result_view};
use crate::vecs::{copy_decks, copy_vec, set_hand};

verus! {

/// What a bid slot is worth: its number, or 0 without a bid.
pub open spec fn bid_value(b: Option<Bid>) -> u8 {
    match b {
        Some((_, p)) => p,
        None => 0,
    }
}

/// The highest bid so far (0 without any).
pub open spec fn max_bid(pl: Seq<Option<Bid>>) -> u8
    decreases pl.len(),
{
    if pl.len() == 0 {
        0
    } else {
        let m = max_bid(pl.drop_last());
        let v = bid_value(pl.last());
        if v > m {
            v
        } else {
            m
        }
    }
}

/// The number a bid must reach against the bid `base`: the no-trump offset
/// for a bid without trump, plus the first-bid offset for the player who
/// opened the bidding, as the rule gives them.
pub open spec fn required_bid(base: u8, c: Option<Pattern>, first: bool, rule: &Rule) -> u8 {
    let offset: int = if c is None { rule.pledge.no_giruda_offset as int } else { 0 };
    let first_offset: int = if first { rule.pledge.first_offset as int } else { 0 };
    (base as int + offset + first_offset) as u8
}

/// The players who have not passed, in order.
pub open spec fn not_done(d: Seq<bool>) -> Seq<usize>
    decreases d.len(),
{
    if d.len() == 0 {
        Seq::empty()
    } else if !d.last() {
        not_done(d.drop_last()).push((d.len() - 1) as usize)
    } else {
        not_done(d.drop_last())
    }
}

/// The players who hold the highest bid among the first `n` slots, and that
/// bid (0 and nobody when there is no bid).
pub open spec fn top_bidders(pl: Seq<Option<Bid>>, n: int) -> (Seq<usize>, u8)
    decreases n,
{
    if n <= 0 {
        (Seq::empty(), 0u8)
    } else {
        let (cand, top) = top_bidders(pl, n - 1);
        match pl[n - 1] {
            Some((_, c)) => if c > top {
                (seq![(n - 1) as usize], c)
            } else if c == top {
                (cand.push((n - 1) as usize), top)
            } else {
                (cand, top)
            },
            None => (cand, top),
        }
    }
}

/// Every player, in order.
pub open spec fn all_players(user_cnt: u8) -> Seq<usize> {
    Seq::new(user_cnt as nat, |i: int| i as usize)
}

/// The candidates for declarer and the bid they won with (0 when nobody
/// bid), when the bidding is over after `done`; `None` while it goes on.
pub open spec fn election_result(pl: Seq<Option<Bid>>, done: Seq<bool>, rule: &Rule) -> Option<
    (Seq<usize>, u8),
> {
    let nd = not_done(done);
    if rule.election.ordered && nd.len() == 1 {
        match pl[nd[0] as int] {
            Some((_, c)) => Some((seq![nd[0]], c)),
            None => Some((all_players(rule.user_cnt), 0u8)),
        }
    } else if !rule.election.ordered && nd.len() == 0 {
        Some(top_bidders(pl, pl.len() as int))
    } else {
        None
    }
}

/// The bids drawn from when nobody bid: each suit at the minimum, and no
/// trump at the minimum with its offset when the rule allows it.
pub open spec fn fallback_bids(rule: &Rule) -> Seq<Bid> {
    let min = rule.pledge.min;
    let suits = seq![
        (Some(Pattern::Spade), min),
        (Some(Pattern::Diamond), min),
        (Some(Pattern::Heart), min),
        (Some(Pattern::Clover), min),
    ];
    if rule.election.no_giruda_exist {
        suits.push((None, (min as int + rule.pledge.no_giruda_offset as int) as u8))
    } else {
        suits
    }
}

/// The random outcomes that a move may use: the declarer among the
/// candidates, the bid when nobody bid, the cards a random declarer drops,
/// and the card a random player plays. An outcome that is not allowed
/// stands for the first allowed one.
pub struct Roll {
    pub president: usize,
    pub bid: Bid,
    pub drop: Seq<Card>,
    pub card: Card,
}

/// Picks `x` when allowed, else the first item.
pub open spec fn pick<T>(items: Seq<T>, x: T) -> T {
    if items.contains(x) {
        x
    } else {
        items[0]
    }
}

/// The end of the bidding: the declarer picked among the candidates, his bid
/// (a picked fallback bid when the top bid is 0), and the kitty added to his
/// hand.
pub open spec fn spec_finish_election(
    pl: Seq<Option<Bid>>,
    deck: Seq<Seq<Card>>,
    left: Seq<Card>,
    cand: Seq<usize>,
    top: u8,
    rule: &Rule,
    roll: Roll,
) -> StateView {
    let president = pick(cand, roll.president);
    let bid: Bid = if top == 0 {
        pick(fallback_bids(rule), roll.bid)
    } else {
        pl[president as int]->0
    };
    StateView::SelectFriend {
        president,
        giruda: bid.0,
        pledge: bid.1,
        deck: deck.update(president as int, deck[president as int] + left),
    }
}

/// A bid of `p` points with trump `c` by `user_id`.
pub open spec fn spec_bid(s: StateView, user_id: usize, c: Option<Pattern>, p: u8, rule: &Rule) -> Result<
    StateView,
    Error,
> {
    match s {
        StateView::Election { pledge, done, curr_user, start_user, deck, left } => {
            if p > rule.pledge.max {
                Err(Error::InvalidPledge(true, rule.pledge.max))
            } else if c is None && !rule.election.no_giruda_exist {
                Err(Error::InvalidPledge(true, 0))
            } else if done[user_id as int] {
                Err(Error::InvalidPledge(true, 0))
            } else {
                let su = match start_user {
                    Some(u) => u,
                    None => user_id,
                };
                let need = required_bid(max_bid(pledge), c, su == user_id, rule);
                let floor = if need > rule.pledge.min { need } else { rule.pledge.min };
                if p < floor {
                    Err(Error::InvalidPledge(false, need))
                } else if p == need && rule.election.increasing {
                    Err(Error::InvalidPledge(false, need))
                } else {
                    Ok(
                        StateView::Election {
                            pledge: pledge.update(user_id as int, Some((c, p))),
                            done,
                            curr_user: ((user_id + 1) % (rule.user_cnt as int)) as usize,
                            start_user: Some(su),
                            deck,
                            left,
                        },
                    )
                }
            }
        },
        _ => Err(Error::Internal),
    }
}

/// A pass by `user_id`.
pub open spec fn spec_pass(s: StateView, user_id: usize, rule: &Rule, roll: Roll) -> Result<
    StateView,
    Error,
> {
    match s {
        StateView::Election { pledge, done, curr_user, start_user, deck, left } => {
            if !rule.election.pass_first && start_user is None {
                Err(Error::PassFirst)
            } else {
                let done2 = done.update(user_id as int, true);
                match election_result(pledge, done2, rule) {
                    Some((cand, top)) => Ok(spec_finish_election(pledge, deck, left, cand, top, rule, roll)),
                    None => Ok(
                        StateView::Election {
                            pledge,
                            done: done2,
                            curr_user: ((user_id + 1) % (rule.user_cnt as int)) as usize,
                            start_user,
                            deck,
                            left,
                        },
                    ),
                }
            }
        },
        _ => Err(Error::Internal),
    }
}

/// A bid or a pass by `user_id` in the bidding.
pub open spec fn spec_election_move(
    s: StateView,
    user_id: usize,
    bid: Option<Bid>,
    rule: &Rule,
    roll: Roll,
) -> Result<StateView, Error> {
    match s {
        StateView::Election { curr_user, .. } => {
            if curr_user != user_id && rule.election.ordered {
                Err(Error::InvalidOrder)
            } else {
                match bid {
                    Some((c, p)) => spec_bid(s, user_id, c, p, rule),
                    None => spec_pass(s, user_id, rule, roll),
                }
            }
        },
        _ => Err(Error::Internal),
    }
}

/// Whether a pass by `user_id` can end the bidding with nobody to choose
/// from (every player passed without a bid, bidding out of turn).
pub open spec fn pass_leaves_nobody(s: StateView, user_id: usize, rule: &Rule) -> bool {
    match s {
        StateView::Election { pledge, done, .. } => match election_result(
            pledge,
            done.update(user_id as int, true),
            rule,
        ) {
            Some((cand, _)) => cand.len() == 0,
            None => false,
        },
        _ => false,
    }
}

} // verus!

verus! {

/// The highest bid so far.
pub fn max_bid_of(pl: &Vec<Option<Bid>>) -> (m: u8)
    ensures
        m == max_bid(pl@),
{
    let mut m: u8 = 0;
    let mut i: usize = 0;
    while i < pl.len()
        invariant
            i <= pl.len(),
            m == max_bid(pl@.take(i as int)),
        decreases pl.len() - i,
    {
        assert(pl@.take(i + 1).drop_last() =~= pl@.take(i as int));
        let v = match pl[i] {
            Some((_, p)) => p,
            None => 0,
        };
        if v > m {
            m = v;
        }
        i = i + 1;
    }
    assert(pl@.take(i as int) =~= pl@);
    m
}

/// The number a bid must reach against the bid `base`.
pub fn required_bid_of(base: u8, c: Option<Pattern>, first: bool, rule: &Rule) -> (r: u8)
    ensures
        r == required_bid(base, c, first, rule),
{
    let offset: i16 = if c.is_none() { rule.pledge.no_giruda_offset as i16 } else { 0 };
    let first_offset: i16 = if first { rule.pledge.first_offset as i16 } else { 0 };
    let v: i16 = base as i16 + offset + first_offset;
    v as u8
}

/// The players who have not passed.
pub fn not_done_of(d: &Vec<bool>) -> (r: Vec<usize>)
    ensures
        r@ == not_done(d@),
{
    let mut r: Vec<usize> = Vec::new();
    let mut i: usize = 0;
    while i < d.len()
        invariant
            i <= d.len(),
            r@ == not_done(d@.take(i as int)),
        decreases d.len() - i,
    {
        assert(d@.take(i + 1).drop_last() =~= d@.take(i as int));
        if !d[i] {
            r.push(i);
        }
        i = i + 1;
    }
    assert(d@.take(i as int) =~= d@);
    r
}

/// The players holding the highest bid, and that bid.
pub fn top_bidders_of(pl: &Vec<Option<Bid>>) -> (r: (Vec<usize>, u8))
    ensures
        (r.0@, r.1) == top_bidders(pl@, pl@.len() as int),
{
    let mut cand: Vec<usize> = Vec::new();
    let mut top: u8 = 0;
    let mut i: usize = 0;
    while i < pl.len()
        invariant
            i <= pl.len(),
            (cand@, top) == top_bidders(pl@, i as int),
        decreases pl.len() - i,
    {
        match pl[i] {
            Some((_, c)) => {
                if c > top {
                    cand = Vec::new();
                    cand.push(i);
                    top = c;
                    assert(cand@ =~= seq![i]);
                } else if c == top {
                    cand.push(i);
                }
            },
            None => {},
        }
        i = i + 1;
    }
    (cand, top)
}

/// The candidates for declarer and their bid, when the bidding is over.
pub fn election_result_of(pl: &Vec<Option<Bid>>, done: &Vec<bool>, rule: &Rule) -> (r: Option<
    (Vec<usize>, u8),
>)
    requires
        pl@.len() == 5,
        done@.len() == 5,
        rule.user_cnt == 5,
    ensures
        match r {
            Some((cand, top)) => election_result(pl@, done@, rule) == Some((cand@, top)),
            None => election_result(pl@, done@, rule) is None,
        },
{
    let nd = not_done_of(done);
    proof {
        lemma_not_done_bounded(done@);
    }
    if rule.election.ordered && nd.len() == 1 {
        let k = nd[0];
        match pl[k] {
            Some((_, c)) => {
                let mut cand: Vec<usize> = Vec::new();
                cand.push(k);
                assert(cand@ =~= seq![k]);
                Some((cand, c))
            },
            None => {
                let mut cand: Vec<usize> = Vec::new();
                let mut i: u8 = 0;
                while i < rule.user_cnt
                    invariant
                        i <= rule.user_cnt,
                        cand@ =~= all_players(i),
                    decreases rule.user_cnt - i,
                {
                    cand.push(i as usize);
                    i = i + 1;
                }
                Some((cand, 0))
            },
        }
    } else if !rule.election.ordered && nd.len() == 0 {
        Some(top_bidders_of(pl))
    } else {
        None
    }
}

/// The players who have not passed are player numbers of the sequence.
pub proof fn lemma_not_done_bounded(d: Seq<bool>)
    ensures
        forall|i: int| 0 <= i < not_done(d).len() ==> #[trigger] not_done(d)[i] < d.len(),
        not_done(d).len() <= d.len(),
    decreases d.len(),
{
    if d.len() > 0 {
        lemma_not_done_bounded(d.drop_last());
    }
}

/// Every candidate of the highest bid is a player number and holds that bid.
pub proof fn lemma_top_bidders(pl: Seq<Option<Bid>>, n: int)
    requires
        0 <= n <= pl.len(),
        n <= usize::MAX,
    ensures
        forall|i: int|
            0 <= i < top_bidders(pl, n).0.len() ==> {
                let k = #[trigger] top_bidders(pl, n).0[i];
                &&& k < n
                &&& pl[k as int] matches Some(b) && b.1 == top_bidders(pl, n).1
            },
    decreases n,
{
    if n > 0 {
        lemma_top_bidders(pl, n - 1);
        let (cand, top) = top_bidders(pl, n - 1);
        let r = top_bidders(pl, n);
        assert forall|i: int| 0 <= i < r.0.len() implies {
            let k = #[trigger] r.0[i];
            &&& k < n
            &&& pl[k as int] matches Some(b) && b.1 == r.1
        } by {
            match pl[n - 1] {
                Some((_, c)) => {
                    if c > top {
                        assert(r.0[i] == (n - 1) as usize);
                    } else if c == top {
                        if i < cand.len() {
                            assert(r.0[i] == cand[i]);
                        }
                    } else {
                    }
                },
                None => {},
            }
        }
    }
}

/// The bids drawn from when nobody bid.
pub fn fallback_bids_of(rule: &Rule) -> (r: Vec<Bid>)
    ensures
        r@ == fallback_bids(rule),
{
    let min = rule.pledge.min;
    let mut r: Vec<Bid> = Vec::new();
    r.push((Some(Pattern::Spade), min));
    r.push((Some(Pattern::Diamond), min));
    r.push((Some(Pattern::Heart), min));
    r.push((Some(Pattern::Clover), min));
    if rule.election.no_giruda_exist {
        let v: i16 = min as i16 + rule.pledge.no_giruda_offset as i16;
        r.push((None, v as u8));
    }
    assert(r@ =~= fallback_bids(rule));
    r
}

/// The end of the bidding with `president` as declarer and `bid` as his
/// bid: the kitty joins his hand and the friend phase starts.
pub fn finish_election(deck: &Vec<Vec<Card>>, left: &Vec<Card>, president: usize, bid: Bid) -> (s: State)
    requires
        president < deck@.len(),
    ensures
        s@ == (StateView::SelectFriend {
            president,
            giruda: bid.0,
            pledge: bid.1,
            deck: decks_view(*deck).update(president as int, decks_view(*deck)[president as int] + left@),
        }),
{
    let mut deck2 = copy_decks(deck);
    let mut hand = copy_vec(&deck2[president]);
    let mut i: usize = 0;
    while i < left.len()
        invariant
            i <= left.len(),
            hand@ =~= decks_view(*deck)[president as int] + left@.take(i as int),
        decreases left.len() - i,
    {
        hand.push(left[i]);
        i = i + 1;
    }
    assert(left@.take(i as int) =~= left@);
    set_hand(&mut deck2, president, hand);
    State::SelectFriend { president, giruda: bid.0, pledge: bid.1, deck: deck2 }
}

impl State {
    /// A bid of `p` points with trump `c` by `user_id`.
    pub fn bid(&self, user_id: usize, c: Option<Pattern>, p: u8, rule: &Rule) -> (r: Result<State, Error>)
        requires
            self@ is Election,
            self@.wf(),
            user_id < 5,
            rule.wf(),
        ensures
            result_view(r) == spec_bid(self@, user_id, c, p, rule),
    {
        match self {
            State::Election { pledge, done, curr_user, start_user, deck, left } => {
                if p > rule.pledge.max {
                    return Err(Error::InvalidPledge(true, rule.pledge.max));
                }
                if c.is_none() && !rule.election.no_giruda_exist {
                    return Err(Error::InvalidPledge(true, 0));
                }
                if done[user_id] {
                    return Err(Error::InvalidPledge(true, 0));
                }
                let su = match start_user {
                    Some(u) => *u,
                    None => user_id,
                };
                let need = required_bid_of(max_bid_of(pledge), c, su == user_id, rule);
                let floor = if need > rule.pledge.min { need } else { rule.pledge.min };
                if p < floor {
                    return Err(Error::InvalidPledge(false, need));
                }
                if p == need && rule.election.increasing {
                    return Err(Error::InvalidPledge(false, need));
                }
                let mut pledge2 = copy_vec(pledge);
                pledge2.set(user_id, Some((c, p)));
                Ok(
                    State::Election {
                        pledge: pledge2,
                        done: copy_vec(done),
                        curr_user: (user_id + 1) % (rule.user_cnt as usize),
                        start_user: Some(su),
                        deck: copy_decks(deck),
                        left: copy_vec(left),
                    },
                )
            },
            _ => Err(Error::Internal),
        }
    }

    /// A pass by `user_id`; when it ends the bidding, the declarer (and the
    /// bid, when nobody bid) is drawn at random.
    pub fn pass(&self, user_id: usize, rule: &Rule) -> (r: Result<State, Error>)
        requires
            self@ is Election,
            self@.wf(),
            user_id < 5,
            rule.wf(),
            (rule.election.pass_first || self@->Election_start_user is Some) ==> !pass_leaves_nobody(
                self@,
                user_id,
                rule,
            ),
        ensures
            exists|roll: Roll| result_view(r) == spec_pass(self@, user_id, rule, roll),
    {
        match self {
            State::Election { pledge, done, curr_user, start_user, deck, left } => {
                if !rule.election.pass_first && start_user.is_none() {
                    let ghost roll = Roll { president: 0, bid: (None, 0), drop: Seq::empty(), card: Card::Normal(Pattern::Spade, 0) };
                    assert(result_view(Err::<State, Error>(Error::PassFirst)) == spec_pass(self@, user_id, rule, roll));
                    return Err(Error::PassFirst);
                }
                let mut done2 = copy_vec(done);
                done2.set(user_id, true);
                match election_result_of(pledge, &done2, rule) {
                    Some((cand, top)) => {
                        let president = choose_one(&cand).unwrap();
                        proof {
                            lemma_not_done_bounded(done2@);
                            lemma_top_bidders(pledge@, 5);
                        }
                        assert(president < 5);
                        let bid: Bid = if top == 0 {
                            let fb = fallback_bids_of(rule);
                            choose_one(&fb).unwrap()
                        } else {
                            pledge[president].unwrap()
                        };
                        let s = finish_election(deck, left, president, bid);
                        let ghost roll = Roll { president, bid, drop: Seq::empty(), card: Card::Normal(Pattern::Spade, 0) };
                        assert(result_view(Ok::<State, Error>(s)) == spec_pass(self@, user_id, rule, roll));
                        Ok(s)
                    },
                    None => {
                        let s = State::Election {
                            pledge: copy_vec(pledge),
                            done: done2,
                            curr_user: (user_id + 1) % (rule.user_cnt as usize),
                            start_user: *start_user,
                            deck: copy_decks(deck),
                            left: copy_vec(left),
                        };
                        let ghost roll = Roll { president: 0, bid: (None, 0), drop: Seq::empty(), card: Card::Normal(Pattern::Spade, 0) };
                        assert(result_view(Ok::<State, Error>(s)) == spec_pass(self@, user_id, rule, roll));
                        Ok(s)
                    },
                }
            },
            _ => Err(Error::Internal),
        }
    }
}

} // verus!
