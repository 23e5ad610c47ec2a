//! The rule set that a game is played under.
use vstd::prelude::*;
use crate::card::{Card, Color, Pattern, spec_is_score};

verus! {

/// What a card may do in the first or the last trick.
#[derive(Clone, Copy, Debug, PartialEq, Eq, Structural, Hash)]
pub enum CardPolicy {
    /// The card may be played and takes effect.
    Valid,
    /// The card may not be played.
    Invalid,
    /// The card may not be played by the player who leads the trick.
    InvalidForFirst,
    /// The card may be played but cannot win the trick.
    NoEffect,
}

/// How the bidding goes.
#[derive(Clone, Copy, Debug, PartialEq, Eq, Structural, Hash)]
pub struct Election {
    /// Players bid in turn.
    pub ordered: bool,
    /// A bid must exceed the highest bid so far.
    pub increasing: bool,
    /// A bid without a trump suit is allowed.
    pub no_giruda_exist: bool,
    /// A player may pass before anyone has bid.
    pub pass_first: bool,
}

/// The limits on a bid.
#[derive(Clone, Copy, Debug, PartialEq, Eq, Structural, Hash)]
pub struct Pledge {
    pub min: u8,
    pub max: u8,
    /// What a bid without a trump suit is worth against a bid with one.
    pub no_giruda_offset: i8,
    /// What the first bidder's bid is worth against the minimum.
    pub first_offset: i8,
    /// What changing the trump suit after the bidding costs.
    pub change_cost: u8,
}

/// Which ways of naming the friend are allowed.
#[derive(Clone, Copy, Debug, PartialEq, Eq, Structural, Hash)]
pub struct Friend {
    /// Playing alone.
    pub none: bool,
    /// Naming the holder of a card.
    pub card: bool,
    /// Naming a card that the declarer holds.
    pub fake: bool,
}

/// The cards that call the joker: for each pair, the first one, or the second
/// one when the trump suit is the suit of the first.
pub struct JokerCall {
    pub cards: Vec<(Card, Card)>,
}

/// What special cards may do in the first and the last trick, each as a pair
/// (first trick, last trick).
pub struct CardPolicyRule {
    pub mighty: (CardPolicy, CardPolicy),
    pub giruda: (CardPolicy, CardPolicy),
    pub joker_call: (CardPolicy, CardPolicy),
    pub joker: (CardPolicy, CardPolicy),
    /// Policies of single cards; the first entry of a card is the one that counts.
    pub card: Vec<(Card, (CardPolicy, CardPolicy))>,
}

/// When a dealt hand is too weak to play: each card is worth its value in
/// `card` if it is listed there, else `score` if it is a point card, else 0;
/// a hand worth at most `limit` is a missed deal.
pub struct MissedDeal {
    pub card: Vec<(Card, i8)>,
    pub score: i8,
    pub limit: i8,
}

/// A complete rule set.
pub struct Rule {
    pub user_cnt: u8,
    pub card_cnt_per_user: u8,
    pub deck: Vec<Card>,
    pub missed_deal: MissedDeal,
    pub election: Election,
    pub pledge: Pledge,
    pub friend: Friend,
    pub joker_call: JokerCall,
    pub card_policy: CardPolicyRule,
}

/// The rule sets that come with the library.
#[derive(Clone, Copy, Debug, PartialEq, Eq, Structural, Hash)]
pub enum Preset {
    Default5,
    Gshs5,
}

/// The entry of `c` in a list keyed by cards: the first one.
pub open spec fn spec_lookup<V>(list: Seq<(Card, V)>, c: Card) -> Option<V>
    decreases list.len(),
{
    if list.len() == 0 {
        None
    } else if list[0].0 == c {
        Some(list[0].1)
    } else {
        spec_lookup(list.drop_first(), c)
    }
}

/// Whether no card is listed twice, so that a list keyed by cards is a map
/// from cards.
pub open spec fn keys_unique<V>(list: Seq<(Card, V)>) -> bool {
    forall|i: int, j: int| 0 <= i < j < list.len() ==> list[i].0 != list[j].0
}

/// In a list where no card is listed twice, what is found for a card is
/// its one entry.
pub proof fn lemma_lookup_unique<V>(list: Seq<(Card, V)>, k: int)
    requires
        keys_unique(list),
        0 <= k < list.len(),
    ensures
        spec_lookup(list, list[k].0) == Some(list[k].1),
    decreases list.len(),
{
    if k > 0 {
        assert(list[0].0 != list[k].0);
        let rest = list.drop_first();
        assert(keys_unique(rest)) by {
            assert forall|i: int, j: int| 0 <= i < j < rest.len() implies rest[i].0 != rest[j].0 by {
                assert(rest[i] == list[i + 1] && rest[j] == list[j + 1]);
            }
        }
        assert(rest[k - 1] == list[k]);
        lemma_lookup_unique(rest, k - 1);
    }
}

/// The entry of `c` in a list keyed by cards.
pub fn lookup<V: Copy>(list: &Vec<(Card, V)>, c: Card) -> (r: Option<V>)
    ensures
        r == spec_lookup(list@, c),
{
    let mut i: usize = 0;
    assert(list@.skip(0) =~= list@);
    while i < list.len()
        invariant
            i <= list.len(),
            spec_lookup(list@.skip(i as int), c) == spec_lookup(list@, c),
        decreases list.len() - i,
    {
        assert(list@.skip(i as int).drop_first() =~= list@.skip(i + 1));
        if list[i].0 == c {
            return Some(list[i].1);
        }
        i = i + 1;
    }
    assert(list@.skip(i as int).len() == 0);
    None
}

impl MissedDeal {
    /// What a card is worth for the missed-deal test.
    pub open spec fn spec_value(&self, c: Card) -> int {
        match spec_lookup(self.card@, c) {
            Some(v) => v as int,
            None => if spec_is_score(c) { self.score as int } else { 0 },
        }
    }

    /// What a hand is worth for the missed-deal test.
    pub open spec fn spec_hand_value(&self, hand: Seq<Card>) -> int
        decreases hand.len(),
    {
        if hand.len() == 0 {
            0
        } else {
            self.spec_hand_value(hand.drop_last()) + self.spec_value(hand.last())
        }
    }

    /// Whether a hand is a missed deal.
    pub open spec fn spec_is_missed_deal(&self, hand: Seq<Card>) -> bool {
        self.spec_hand_value(hand) <= self.limit
    }

    /// Whether a hand is a missed deal.
    pub fn is_missed_deal(&self, hand: &Vec<Card>) -> (b: bool)
        requires
            hand.len() <= 1000,
        ensures
            b == self.spec_is_missed_deal(hand@),
    {
        let mut total: i64 = 0;
        let mut i: usize = 0;
        while i < hand.len()
            invariant
                i <= hand.len(),
                hand.len() <= 1000,
                total == self.spec_hand_value(hand@.take(i as int)),
                -128 * i <= total <= 127 * i,
            decreases hand.len() - i,
        {
            let c = hand[i];
            let v: i8 = match lookup(&self.card, c) {
                Some(v) => v,
                None => if c.is_score() { self.score } else { 0i8 },
            };
            assert(hand@.take(i + 1).drop_last() =~= hand@.take(i as int));
            total = total + v as i64;
            i = i + 1;
        }
        assert(hand@.take(i as int) =~= hand@);
        total <= self.limit as i64
    }
}

/// The 52 suited cards, suit by suit, each from the ace to the king.
pub open spec fn spec_suited_card(i: int) -> Card {
    Card::Normal(spec_pattern_at(i / 13), (i % 13) as u8)
}

/// The suits in deck order.
pub open spec fn spec_pattern_at(i: int) -> Pattern {
    if i == 0 {
        Pattern::Spade
    } else if i == 1 {
        Pattern::Diamond
    } else if i == 2 {
        Pattern::Heart
    } else {
        Pattern::Clover
    }
}

fn pattern_at(i: usize) -> (p: Pattern)
    ensures
        p == spec_pattern_at(i as int),
{
    if i == 0 {
        Pattern::Spade
    } else if i == 1 {
        Pattern::Diamond
    } else if i == 2 {
        Pattern::Heart
    } else {
        Pattern::Clover
    }
}

/// The 52 suited cards followed by the jokers of the given colours.
pub open spec fn spec_full_deck(jokers: Seq<Color>) -> Seq<Card> {
    Seq::new(52, |i: int| spec_suited_card(i)) + jokers.map_values(|c: Color| Card::Joker(c))
}

fn full_deck(jokers: &Vec<Color>) -> (deck: Vec<Card>)
    ensures
        deck@ == spec_full_deck(jokers@),
{
    let mut deck: Vec<Card> = Vec::new();
    let mut i: usize = 0;
    while i < 52
        invariant
            i <= 52,
            deck@ =~= Seq::new(i as nat, |k: int| spec_suited_card(k)),
        decreases 52 - i,
    {
        deck.push(Card::Normal(pattern_at(i / 13), (i % 13) as u8));
        i = i + 1;
    }
    let mut j: usize = 0;
    while j < jokers.len()
        invariant
            j <= jokers.len(),
            deck@ =~= Seq::new(52, |k: int| spec_suited_card(k)) + jokers@.take(j as int).map_values(
                |c: Color| Card::Joker(c),
            ),
        decreases jokers.len() - j,
    {
        deck.push(Card::Joker(jokers[j]));
        j = j + 1;
    }
    assert(jokers@.take(j as int) =~= jokers@);
    deck
}

/// The settings of a preset other than its deck. Both are for five players
/// with ten cards each, may pass first and bid without trump (one point
/// less), cost two points to change the trump suit, allow every way of
/// naming the friend, make a trump unplayable in the first trick and a
/// joker powerless in the first and the last, count a point card 1, a
/// joker -1 and the ace of spades 0 for a missed deal (a hand worth 0 or
/// less). `Default5` bids in turn with rising bids from 13, its joker call
/// being the three of clovers (the three of spades under clover trump);
/// `Gshs5` bids in any order from 14 and the three of hearts (of diamonds
/// under heart trump) also calls.
pub open spec fn spec_preset_rule(preset: Preset, rule: Rule) -> bool {
    let c3 = Card::Normal(Pattern::Clover, 2);
    let s3 = Card::Normal(Pattern::Spade, 2);
    let h3 = Card::Normal(Pattern::Heart, 2);
    let d3 = Card::Normal(Pattern::Diamond, 2);
    let default5 = preset == Preset::Default5;
    &&& rule.user_cnt == 5
    &&& rule.card_cnt_per_user == 10
    &&& rule.election == (Election {
        ordered: default5,
        increasing: default5,
        no_giruda_exist: true,
        pass_first: true,
    })
    &&& rule.pledge == (Pledge {
        min: if default5 { 13u8 } else { 14u8 },
        max: 20u8,
        no_giruda_offset: -1i8,
        first_offset: 0i8,
        change_cost: 2u8,
    })
    &&& rule.friend == (Friend { none: true, card: true, fake: true })
    &&& rule.joker_call.cards@ == if default5 {
        seq![(c3, s3), (c3, s3)]
    } else {
        seq![(c3, s3), (h3, d3)]
    }
    &&& rule.card_policy.mighty == (CardPolicy::Valid, CardPolicy::Valid)
    &&& rule.card_policy.giruda == (CardPolicy::Invalid, CardPolicy::Valid)
    &&& rule.card_policy.joker_call == (CardPolicy::Valid, CardPolicy::Valid)
    &&& rule.card_policy.joker == (CardPolicy::NoEffect, CardPolicy::NoEffect)
    &&& rule.card_policy.card@ == Seq::<(Card, (CardPolicy, CardPolicy))>::empty()
    &&& rule.missed_deal.score == 1
    &&& rule.missed_deal.limit == 0
    &&& rule.missed_deal.card@ == if default5 {
        seq![(Card::Joker(Color::Black), -1i8), (Card::Normal(Pattern::Spade, 0), 0i8)]
    } else {
        seq![
            (Card::Joker(Color::Black), -1i8),
            (Card::Joker(Color::Red), -1i8),
            (Card::Normal(Pattern::Spade, 0), 0i8),
        ]
    }
}

impl Rule {
    /// The game logic is for five players: the per-player sequences of a
    /// state have five entries and the turn passes round five seats.
    pub open spec fn wf(&self) -> bool {
        &&& self.user_cnt == 5
    }

    /// The rule set of a preset (see `spec_preset_rule`), with the full
    /// deck of its jokers.
    pub fn from_preset(preset: Preset) -> (rule: Rule)
        ensures
            rule.wf(),
            spec_preset_rule(preset, rule),
            keys_unique(rule.card_policy.card@),
            keys_unique(rule.missed_deal.card@),
            preset == Preset::Default5 ==> rule.deck@ == spec_full_deck(seq![Color::Black]),
            preset == Preset::Gshs5 ==> rule.deck@ == spec_full_deck(seq![Color::Black, Color::Red]),
    {
        let clover_three = Card::Normal(Pattern::Clover, 2);
        let spade_three = Card::Normal(Pattern::Spade, 2);
        match preset {
            Preset::Default5 => {
                let jokers = vec![Color::Black];
                let deck = full_deck(&jokers);
                proof {
                    assert(jokers@ =~= seq![Color::Black]);
                }
                Rule {
                    user_cnt: 5,
                    card_cnt_per_user: 10,
                    deck,
                    missed_deal: MissedDeal {
                        card: vec![(Card::Joker(Color::Black), -1i8), (Card::Normal(Pattern::Spade, 0), 0i8)],
                        score: 1,
                        limit: 0,
                    },
                    election: Election {
                        ordered: true,
                        increasing: true,
                        no_giruda_exist: true,
                        pass_first: true,
                    },
                    pledge: Pledge {
                        min: 13,
                        max: 20,
                        no_giruda_offset: -1,
                        first_offset: 0,
                        change_cost: 2,
                    },
                    friend: Friend { none: true, card: true, fake: true },
                    joker_call: JokerCall {
                        cards: vec![(clover_three, spade_three), (clover_three, spade_three)],
                    },
                    card_policy: CardPolicyRule {
                        mighty: (CardPolicy::Valid, CardPolicy::Valid),
                        giruda: (CardPolicy::Invalid, CardPolicy::Valid),
                        joker_call: (CardPolicy::Valid, CardPolicy::Valid),
                        joker: (CardPolicy::NoEffect, CardPolicy::NoEffect),
                        card: Vec::new(),
                    },
                }
            },
            Preset::Gshs5 => {
                let jokers = vec![Color::Black, Color::Red];
                let deck = full_deck(&jokers);
                proof {
                    assert(jokers@ =~= seq![Color::Black, Color::Red]);
                }
                Rule {
                    user_cnt: 5,
                    card_cnt_per_user: 10,
                    deck,
                    missed_deal: MissedDeal {
                        card: vec![
                            (Card::Joker(Color::Black), -1i8),
                            (Card::Joker(Color::Red), -1i8),
                            (Card::Normal(Pattern::Spade, 0), 0i8),
                        ],
                        score: 1,
                        limit: 0,
                    },
                    election: Election {
                        ordered: false,
                        increasing: false,
                        no_giruda_exist: true,
                        pass_first: true,
                    },
                    pledge: Pledge {
                        min: 14,
                        max: 20,
                        no_giruda_offset: -1,
                        first_offset: 0,
                        change_cost: 2,
                    },
                    friend: Friend { none: true, card: true, fake: true },
                    joker_call: JokerCall {
                        cards: vec![
                            (clover_three, spade_three),
                            (Card::Normal(Pattern::Heart, 2), Card::Normal(Pattern::Diamond, 2)),
                        ],
                    },
                    card_policy: CardPolicyRule {
                        mighty: (CardPolicy::Valid, CardPolicy::Valid),
                        giruda: (CardPolicy::Invalid, CardPolicy::Valid),
                        joker_call: (CardPolicy::Valid, CardPolicy::Valid),
                        joker: (CardPolicy::NoEffect, CardPolicy::NoEffect),
                        card: Vec::new(),
                    },
                }
            },
        }
    }
}

} // verus!
