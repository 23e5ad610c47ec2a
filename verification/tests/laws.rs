use mighty::card::{Card, Pattern, Rush};
use mighty::command::Command;
use mighty::error::Error;
use mighty::rule::{CardPolicy, Preset, Rule};
use mighty::state::{FriendFunc, State};
use rand::seq::SliceRandom;

fn shape_ok(s: &State) -> bool {
    match s {
        State::Election { pledge, done, curr_user, start_user, deck, .. } => {
            pledge.len() == 5 && done.len() == 5 && *curr_user < 5 && start_user.map_or(true, |u| u < 5) && deck.len() == 5
        }
        State::SelectFriend { president, deck, .. } => *president < 5 && deck.len() == 5,
        State::InGame { president, friend, deck, score_deck, turn_count, placed_cards, start_user, current_user, .. } => {
            let total: usize = score_deck.iter().map(|d| d.len()).sum();
            *president < 5
                && friend.map_or(true, |f| f < 5)
                && deck.len() == 5
                && score_deck.len() == 5
                && placed_cards.len() == 5
                && *start_user < 5
                && *current_user < 5
                && *turn_count <= 9
                && total <= 5 * *turn_count as usize
        }
        State::GameEnded { .. } => true,
    }
}

#[test]
fn random_game_keeps_shape() {
    let rule = Rule::from_preset(Preset::Default5);
    let mut s = State::new(&rule).unwrap();
    assert!(shape_ok(&s));
    s = s.next(0, Command::Pledge(Some((Some(Pattern::Heart), 14))), &rule).unwrap();
    assert!(shape_ok(&s));
    for u in 1..5 {
        s = s.next(u, Command::Random, &rule).unwrap();
        assert!(shape_ok(&s));
    }
    let drops: Vec<Card> = if let State::SelectFriend { deck, .. } = &s {
        deck[0].choose_multiple(&mut rand::thread_rng(), 3).cloned().collect()
    } else {
        panic!("the friend phase starts")
    };
    s = s.next(0, Command::SelectFriend(drops, FriendFunc::Last), &rule).unwrap();
    assert!(shape_ok(&s));
    let mut moves = 0;
    while let State::InGame { current_user, turn_count, .. } = &s {
        let u = *current_user;
        let before = *turn_count;
        let candidates: Vec<Card> = if let State::InGame { deck, giruda, .. } = &s {
            deck[u]
                .iter()
                .filter(|c| before != 0 || !matches!(c, Card::Normal(t, _) if Some(*t) == *giruda))
                .cloned()
                .collect()
        } else {
            unreachable!()
        };
        let c = candidates[0];
        s = s.next(u, Command::Go(c, Rush::from_card(c), false), &rule).unwrap();
        assert!(shape_ok(&s));
        moves += 1;
    }
    assert_eq!(moves, 50);
    if let State::GameEnded { winner, president, friend, .. } = s {
        let side = (1u8 << president) + friend.map_or(0, |f| 1u8 << f);
        assert!(winner == side || winner == 32 - side);
    } else {
        panic!("the game is over");
    }
}

#[test]
fn client_accepts_legal_moves() {
    let rule = Rule::from_preset(Preset::Default5);
    let s = State::new(&rule)
        .unwrap()
        .next(0, Command::Pledge(Some((Some(Pattern::Heart), 14))), &rule)
        .unwrap();
    // after the top bid reached the minimum, what the game accepts the client accepts
    for p in 13..=20u8 {
        for g in [Some(Pattern::Spade), None] {
            if s.next(1, Command::Pledge(Some((g, p))), &rule).is_ok() {
                assert_eq!(s.is_valid_command(1, Command::Pledge(Some((g, p))), &rule), Ok(()));
            }
        }
    }
    // the opening bid of the minimum: the game takes it, the client raises
    // the minimum by the offsets first and refuses it as not higher
    let fresh = State::new(&rule).unwrap();
    assert!(fresh.next(0, Command::Pledge(Some((Some(Pattern::Heart), 13))), &rule).is_ok());
    assert_eq!(
        fresh.is_valid_command(0, Command::Pledge(Some((Some(Pattern::Heart), 13))), &rule),
        Err(Error::InvalidPledge(false, 13))
    );
}

#[test]
fn dealt_cards_are_the_deck() {
    let rule = Rule::from_preset(Preset::Gshs5);
    let s = State::new(&rule).unwrap();
    if let State::Election { deck, left, .. } = &s {
        let mut count = 0;
        for c in &rule.deck {
            let held = deck.iter().filter(|h| h.contains(c)).count() + left.iter().filter(|x| *x == c).count();
            assert_eq!(held, 1);
            count += 1;
        }
        assert_eq!(count, 54);
        assert_eq!(left.len(), 4);
    } else {
        panic!("a new game starts with the bidding");
    }
}

#[test]
fn trick_winner_beats_the_rest() {
    let rule = Rule::from_preset(Preset::Default5);
    let n = |p, r| Card::Normal(p, r);
    let game = |pattern: Rush| State::InGame {
        president: 0,
        friend_func: FriendFunc::ByUser(1),
        friend: Some(1),
        is_friend_known: true,
        giruda: Some(Pattern::Diamond),
        pledge: 14,
        deck: vec![
            vec![n(Pattern::Heart, 4), n(Pattern::Spade, 6)],
            vec![n(Pattern::Heart, 12), n(Pattern::Spade, 7)],
            vec![n(Pattern::Clover, 5), n(Pattern::Spade, 8)],
            vec![n(Pattern::Heart, 0), n(Pattern::Spade, 9)],
            vec![n(Pattern::Diamond, 3), n(Pattern::Spade, 10)],
        ],
        score_deck: vec![vec![]; 5],
        turn_count: 3,
        placed_cards: vec![(n(Pattern::Spade, 1), CardPolicy::Valid); 5],
        start_user: 0,
        current_user: 0,
        current_pattern: pattern,
        joker_call_card: None,
        joker_call_effect: false,
    };
    let played = [n(Pattern::Heart, 4), n(Pattern::Heart, 12), n(Pattern::Clover, 5), n(Pattern::Heart, 0), n(Pattern::Diamond, 3)];
    let mut s = game(Rush::empty());
    for (u, c) in played.iter().enumerate() {
        s = s.next(u, Command::Go(*c, Rush::empty(), false), &rule).unwrap();
    }
    // the four of diamonds is the only trump: it takes the trick and beats
    // each other card of it
    if let State::InGame { start_user, .. } = &s {
        assert_eq!(*start_user, 4);
    } else {
        panic!("the game goes on");
    }
    let led = game(Rush::from_pattern(Pattern::Heart));
    for c in &played[..4] {
        assert!(led.compare_cards(c, &played[4]));
    }
}
