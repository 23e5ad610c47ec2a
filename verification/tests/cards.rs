use mighty::card::{Card, Color, Pattern, Rush};
use mighty::deal::{deal, deal_missed, get_random_deck};
use mighty::error::{Error, Expected};
use mighty::rule::{lookup, CardPolicy, MissedDeal, Preset, Rule};
use mighty::server::Server;
use mighty::state::{rank_lower, State};
use uuid::Uuid;

#[test]
fn rush_sets() {
    let spade = Rush::from_pattern(Pattern::Spade);
    let clover = Rush::from_pattern(Pattern::Clover);
    assert_eq!(spade.bits, 1);
    assert_eq!(Rush::from_pattern(Pattern::Diamond).bits, 2);
    assert_eq!(Rush::from_pattern(Pattern::Heart).bits, 4);
    assert_eq!(clover.bits, 8);
    assert!(Rush::black().contains(spade));
    assert!(Rush::black().contains(clover));
    assert!(!Rush::red().contains(spade));
    assert!(Rush::black().contains(Rush::empty()));
    assert_eq!(spade.complement().bits, 14);
    assert_eq!(Rush::all().complement(), Rush::empty());
    assert_eq!(Rush::from_card(Card::Joker(Color::Red)), Rush::red());
    assert_eq!(Rush::from_card(Card::Normal(Pattern::Heart, 3)).bits, 4);
}

#[test]
fn colors_and_points() {
    assert_eq!(Color::from_pattern(Pattern::Spade), Color::Black);
    assert_eq!(Color::from_pattern(Pattern::Heart), Color::Red);
    assert_eq!(Color::from_rush(Rush::red()), Color::Red);
    assert_eq!(Color::from_rush(Rush::from_pattern(Pattern::Clover)), Color::Black);
    assert_eq!(Color::from_rush(Rush::empty()), Color::Red);
    assert!(Card::Normal(Pattern::Spade, 0).is_score());
    assert!(Card::Normal(Pattern::Spade, 9).is_score());
    assert!(Card::Normal(Pattern::Spade, 12).is_score());
    assert!(!Card::Normal(Pattern::Spade, 8).is_score());
    assert!(!Card::Joker(Color::Black).is_score());
}

#[test]
fn ranks() {
    assert!(!rank_lower(0, 5));
    assert!(rank_lower(5, 0));
    assert!(rank_lower(3, 7));
    assert!(!rank_lower(7, 3));
    assert!(!rank_lower(0, 0));
}

#[test]
fn presets() {
    let d = Rule::from_preset(Preset::Default5);
    assert_eq!(d.deck.len(), 53);
    assert_eq!(d.deck[0], Card::Normal(Pattern::Spade, 0));
    assert_eq!(d.deck[13], Card::Normal(Pattern::Diamond, 0));
    assert_eq!(d.deck[51], Card::Normal(Pattern::Clover, 12));
    assert_eq!(d.deck[52], Card::Joker(Color::Black));
    assert_eq!(d.pledge.min, 13);
    assert!(d.election.ordered);
    let g = Rule::from_preset(Preset::Gshs5);
    assert_eq!(g.deck.len(), 54);
    assert_eq!(g.deck[53], Card::Joker(Color::Red));
    assert_eq!(g.pledge.min, 14);
    assert!(!g.election.ordered);
}

#[test]
fn card_lookup() {
    let list = vec![
        (Card::Normal(Pattern::Spade, 1), (CardPolicy::Invalid, CardPolicy::Valid)),
        (Card::Normal(Pattern::Spade, 1), (CardPolicy::NoEffect, CardPolicy::Valid)),
    ];
    assert_eq!(
        lookup(&list, Card::Normal(Pattern::Spade, 1)),
        Some((CardPolicy::Invalid, CardPolicy::Valid))
    );
    assert_eq!(lookup(&list, Card::Normal(Pattern::Spade, 2)), None);
}

#[test]
fn missed_deals() {
    let md = MissedDeal {
        card: vec![(Card::Joker(Color::Black), -1), (Card::Normal(Pattern::Spade, 0), 0)],
        score: 1,
        limit: 0,
    };
    assert!(md.is_missed_deal(&vec![Card::Normal(Pattern::Heart, 2)]));
    assert!(md.is_missed_deal(&vec![Card::Normal(Pattern::Spade, 0), Card::Normal(Pattern::Heart, 2)]));
    assert!(md.is_missed_deal(&vec![Card::Joker(Color::Black), Card::Normal(Pattern::Heart, 0)]));
    assert!(!md.is_missed_deal(&vec![Card::Normal(Pattern::Heart, 0)]));
    assert!(!md.is_missed_deal(&vec![Card::Normal(Pattern::Heart, 0), Card::Normal(Pattern::Heart, 10)]));
}

#[test]
fn deal_splits_in_order() {
    let rule = Rule::from_preset(Preset::Default5);
    let piles = deal(&rule.deck, 10);
    assert_eq!(piles.len(), 6);
    for i in 0..5 {
        assert_eq!(piles[i].len(), 10);
    }
    assert_eq!(piles[5].len(), 3);
    let joined: Vec<Card> = piles.iter().flatten().cloned().collect();
    assert_eq!(joined, rule.deck);
}

#[test]
fn deal_missed_detects_weak_hand() {
    let rule = Rule::from_preset(Preset::Default5);
    // deck order: the second pile is the jack of spades to the seven of
    // diamonds: J, Q, K of spades and the ace of diamonds are points.
    let piles = deal(&rule.deck, 10);
    assert!(!rule.missed_deal.is_missed_deal(&piles[1]));
    let mut weak = piles.clone();
    weak[2] = vec![Card::Normal(Pattern::Heart, 1); 10];
    assert!(deal_missed(&rule, &weak));
}

#[test]
fn new_game_deals_the_whole_deck() {
    let rule = Rule::from_preset(Preset::Default5);
    let state = State::new(&rule).unwrap();
    if let State::Election { pledge, done, curr_user, start_user, deck, left } = &state {
        assert_eq!(pledge, &vec![None; 5]);
        assert_eq!(done, &vec![false; 5]);
        assert_eq!(*curr_user, 0);
        assert_eq!(*start_user, None);
        assert_eq!(deck.len(), 5);
        for h in deck {
            assert_eq!(h.len(), 10);
            assert!(!rule.missed_deal.is_missed_deal(h));
        }
        assert_eq!(left.len(), 3);
        let mut all: Vec<Card> = deck.iter().flatten().cloned().collect();
        all.extend(left.iter().cloned());
        let key = |c: &Card| match c {
            Card::Normal(p, n) => (*p as u8) as u32 * 100 + *n as u32,
            Card::Joker(c) => 1000 + *c as u32,
        };
        let mut a = all.clone();
        a.sort_by_key(key);
        let mut b = rule.deck.clone();
        b.sort_by_key(key);
        assert_eq!(a, b);
    } else {
        panic!("a new game starts with the bidding");
    }
}

#[test]
fn error_messages() {
    assert_eq!(Error::InvalidPledge(false, 3).message(), Error::InvalidPledge(false, 13).message());
    assert_ne!(Error::InvalidPledge(true, 3).message(), Error::InvalidPledge(false, 3).message());
    assert_eq!(Error::InvalidOrder.message(), "it is not your turn");
    assert_eq!(Error::InvalidCommand(Expected::Go).message(), "this command is not expected now");
    assert_eq!(Error::Internal.message(), "internal error occurred when calculating score");
}

#[test]
fn server_ids() {
    let mut server = Server::new();
    let a = server.generate_uuid("room", 42);
    let b = server.generate_uuid("room", 42);
    assert_eq!(a, Uuid::new_v5(&Uuid::NAMESPACE_OID, "room-42-1".as_bytes()));
    assert_eq!(b, Uuid::new_v5(&Uuid::NAMESPACE_OID, "room-42-2".as_bytes()));
    assert_ne!(a, b);
}

#[test]
fn deal_cuts_the_rest_into_a_short_last_pile() {
    let cards: Vec<Card> = (0..7u8).map(|n| Card::Normal(Pattern::Clover, n)).collect();
    let piles = deal(&cards, 3);
    assert_eq!(piles.len(), 3);
    assert_eq!(piles[0], cards[0..3].to_vec());
    assert_eq!(piles[1], cards[3..6].to_vec());
    assert_eq!(piles[2], cards[6..7].to_vec());
    assert_eq!(deal(&Vec::new(), 4).len(), 0);
}

#[test]
fn random_deck_has_no_missed_deal() {
    let rule = Rule::from_preset(Preset::Default5);
    let piles = get_random_deck(&rule).unwrap();
    assert_eq!(piles.len(), 6);
    for p in &piles[..5] {
        assert_eq!(p.len(), 10);
        assert!(!rule.missed_deal.is_missed_deal(p));
    }
    assert_eq!(piles[5].len(), 3);
}

#[test]
fn server_id_text_spells_numbers_in_decimal() {
    let mut server = Server::new();
    let a = server.generate_uuid("game", 1234567890123);
    assert_eq!(a, Uuid::new_v5(&Uuid::NAMESPACE_OID, "game-1234567890123-1".as_bytes()));
    let b = server.generate_uuid("room", 0);
    assert_eq!(b, Uuid::new_v5(&Uuid::NAMESPACE_OID, "room-0-2".as_bytes()));
    assert_ne!(a, b);
}

#[test]
fn lobby_tag_and_default_server() {
    assert_eq!(mighty::list::List::tag(), "list");
    let mut server = Server::default();
    let a = server.generate_uuid("room", 7);
    assert_eq!(a, Uuid::new_v5(&Uuid::NAMESPACE_OID, "room-7-1".as_bytes()));
}

#[test]
fn random_deck_always_comes_when_no_deal_can_miss() {
    let mut rule = Rule::from_preset(Preset::Gshs5);
    rule.missed_deal.limit = -100;
    for _ in 0..20 {
        assert!(get_random_deck(&rule).is_some());
        assert!(State::new(&rule).is_some());
    }
}
