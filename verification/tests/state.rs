use mighty::card::{Card, Color, Pattern, Rush};
use mighty::command::Command;
use mighty::error::Error;
use mighty::rule::{Preset, Rule};
use mighty::state::{FriendFunc, State};
use rand::prelude::IteratorRandom;
use rand::seq::SliceRandom;

fn clover_test_hands() -> (Vec<Vec<Card>>, Vec<Card>) {
    let mut new_deck: Vec<Vec<Card>> = Vec::new();

    let mut dec1: Vec<Card> = Vec::new();
    let mut dec2: Vec<Card> = Vec::new();
    let mut dec3: Vec<Card> = Vec::new();
    let mut dec4: Vec<Card> = Vec::new();
    let mut dec5: Vec<Card> = Vec::new();
    let mut trash: Vec<Card> = Vec::new();

    for i in 0..10 {
        dec2.push(Card::Normal(Pattern::Spade, i));
        dec3.push(Card::Normal(Pattern::Clover, i));
        dec4.push(Card::Normal(Pattern::Heart, i));
        dec5.push(Card::Normal(Pattern::Diamond, i));
    }
    for i in 10..12 {
        dec1.push(Card::Normal(Pattern::Spade, i));
        dec1.push(Card::Normal(Pattern::Clover, i));
        dec1.push(Card::Normal(Pattern::Heart, i));
        dec1.push(Card::Normal(Pattern::Diamond, i));
    }
    dec1.push(Card::Normal(Pattern::Spade, 12));
    dec1.push(Card::Joker(Color::Black));
    trash.push(Card::Normal(Pattern::Clover, 12));
    trash.push(Card::Normal(Pattern::Heart, 12));
    trash.push(Card::Normal(Pattern::Diamond, 12));
    new_deck.push(dec1);
    new_deck.push(dec2);
    new_deck.push(dec3);
    new_deck.push(dec4);
    new_deck.push(dec5);
    (new_deck, trash)
}

#[test]
fn compare_cards_test_clover() {
    let (new_deck, trash) = clover_test_hands();

    let rule = Rule::from_preset(Preset::Default5);

    let mut state = State::new(&rule).unwrap();

    if let State::Election { deck, left, .. } = &mut state {
        *deck = new_deck;
        *left = trash;
    }

    state = state
        .next(0, Command::Pledge(Some((Some(Pattern::Clover), 13))), &rule)
        .unwrap();

    //pre-test
    assert_eq!(state.is_joker_called(), false);
    assert_eq!(state.get_current_pattern(), Rush::from_pattern(Pattern::Spade));
    assert_eq!(state.get_giruda(), None);
    assert_eq!(state.check_card_valid(rule.card_policy.mighty), false);
    assert_eq!(state.check_card_effect(rule.card_policy.mighty), false);

    state = state.next(1, Command::Pledge(None), &rule).unwrap();
    state = state.next(2, Command::Pledge(None), &rule).unwrap();
    state = state.next(3, Command::Pledge(None), &rule).unwrap();
    state = state.next(4, Command::Pledge(None), &rule).unwrap();

    let mut drop_card = Vec::new();
    if let State::SelectFriend { president, deck, .. } = &state {
        drop_card = deck[*president]
            .choose_multiple(&mut rand::thread_rng(), 3)
            .cloned()
            .collect();
    }
    state = state
        .next(0, Command::SelectFriend(drop_card, FriendFunc::ByUser(1)), &rule)
        .unwrap();
    assert!(state.compare_cards(&Card::Normal(Pattern::Clover, 0), &Card::Normal(Pattern::Spade, 0)));
    assert!(state.compare_cards(&Card::Normal(Pattern::Clover, 1), &Card::Normal(Pattern::Clover, 0)));
    assert!(state.compare_cards(&Card::Normal(Pattern::Clover, 1), &Card::Normal(Pattern::Clover, 2)));
    assert!(state.compare_cards(&Card::Normal(Pattern::Heart, 2), &Card::Normal(Pattern::Clover, 1)));

    let mut next_state = None;
    if let State::InGame { deck, current_user, .. } = &state {
        let card = deck[*current_user]
            .iter()
            .filter(|c| matches!(c, Card::Normal(Pattern::Diamond, _)))
            .choose(&mut rand::thread_rng())
            .cloned()
            .unwrap();
        next_state = Some(
            state
                .next(*current_user, Command::Go(card, Rush::empty(), false), &rule)
                .unwrap(),
        );
    }
    state = next_state.unwrap();

    assert!(state.compare_cards(&Card::Normal(Pattern::Spade, 12), &Card::Normal(Pattern::Diamond, 3)));
    assert!(state.compare_cards(&Card::Normal(Pattern::Diamond, 5), &Card::Normal(Pattern::Clover, 3)));
    //in-game test
    assert_eq!(state.is_joker_called(), false);
    assert_eq!(state.get_current_pattern(), Rush::from_pattern(Pattern::Diamond));
    assert_eq!(state.get_giruda().unwrap(), Pattern::Clover);
}

#[test]
fn compare_cards_test_spade() {
    let rule = Rule::from_preset(Preset::Default5);
    let mut state = State::new(&rule).unwrap();
    state = state
        .next(0, Command::Pledge(Some((Some(Pattern::Clover), 13))), &rule)
        .unwrap();
    state = state
        .next(1, Command::Pledge(Some((Some(Pattern::Spade), 14))), &rule)
        .unwrap();
    state = state.next(2, Command::Pledge(None), &rule).unwrap();
    state = state.next(3, Command::Pledge(None), &rule).unwrap();
    state = state.next(4, Command::Pledge(None), &rule).unwrap();
    state = state.next(0, Command::Pledge(None), &rule).unwrap();
    let mut drop_card = Vec::new();
    if let State::SelectFriend { president, deck, .. } = &state {
        drop_card = deck[*president]
            .choose_multiple(&mut rand::thread_rng(), 3)
            .cloned()
            .collect();
    }

    state = state
        .next(1, Command::SelectFriend(drop_card, FriendFunc::ByUser(0)), &rule)
        .unwrap();
    assert!(state.compare_cards(&Card::Normal(Pattern::Spade, 0), &Card::Normal(Pattern::Diamond, 0)));
    assert!(state.compare_cards(&Card::Normal(Pattern::Spade, 1), &Card::Normal(Pattern::Spade, 0)));
    assert!(state.compare_cards(&Card::Normal(Pattern::Spade, 1), &Card::Normal(Pattern::Spade, 5)));
    assert!(state.compare_cards(&Card::Normal(Pattern::Heart, 10), &Card::Normal(Pattern::Spade, 5)));
}

#[test]
fn joker_call_test_spade() {
    //joker call with spade giruda
    let (new_deck, trash) = clover_test_hands();

    let rule = Rule::from_preset(Preset::Default5);

    let mut state = State::new(&rule).unwrap();

    if let State::Election { deck, left, .. } = &mut state {
        *deck = new_deck;
        *left = trash.clone();
    }

    state = state.next(0, Command::Pledge(None), &rule).unwrap();
    state = state.next(1, Command::Pledge(None), &rule).unwrap();
    state = state
        .next(2, Command::Pledge(Some((Some(Pattern::Spade), 13))), &rule)
        .unwrap();
    state = state.next(3, Command::Pledge(None), &rule).unwrap();
    state = state.next(4, Command::Pledge(None), &rule).unwrap();

    let mut drop_card = Vec::new();
    if let State::SelectFriend { .. } = state {
        drop_card = trash;
    }

    state = state
        .next(2, Command::SelectFriend(drop_card, FriendFunc::ByUser(1)), &rule)
        .unwrap();

    let mut next_state = None;
    if let State::InGame { current_user, .. } = &state {
        let card = Card::Normal(Pattern::Clover, 2);
        next_state = Some(
            state
                .next(*current_user, Command::Go(card, Rush::empty(), true), &rule)
                .unwrap(),
        );
    }
    state = next_state.unwrap();

    //compare_card_test
    assert!(state.compare_cards(&Card::Normal(Pattern::Diamond, 12), &Card::Normal(Pattern::Spade, 3)));
    assert!(state.compare_cards(&Card::Normal(Pattern::Heart, 5), &Card::Normal(Pattern::Clover, 3)));
    assert!(state.compare_cards(&Card::Normal(Pattern::Diamond, 5), &Card::Normal(Pattern::Heart, 6)));
    //joker_call_test
    assert_eq!(state.get_giruda().unwrap(), Pattern::Spade);
    assert_eq!(state.get_current_pattern(), Rush::from_pattern(Pattern::Clover));
    assert_eq!(state.is_joker_called(), true);
}

fn play_random_game(mut state: State, rule: &Rule) -> State {
    for i in 0..50 {
        let mut next_state = None;
        if let State::InGame {
            giruda,
            deck,
            current_user,
            ..
        } = &state
        {
            let card = deck[*current_user]
                .iter()
                .filter(|c| match c {
                    Card::Normal(t, _) => Some(*t) != *giruda || i >= 5,
                    _ => true,
                })
                .choose(&mut rand::thread_rng())
                .cloned()
                .unwrap();
            next_state = Some(
                state
                    .next(*current_user, Command::Go(card, Rush::empty(), false), rule)
                    .unwrap(),
            );
        }
        if let Some(s) = next_state {
            state = s;
        }
    }
    state
}

#[test]
fn next_default_test1() {
    let rule = Rule::from_preset(Preset::Default5);
    let mut state = State::new(&rule).unwrap();
    if let Err(x) = state.next(0, Command::Pledge(Some((Some(Pattern::Clover), 12))), &rule) {
        assert_eq!(x.message(), Error::InvalidPledge(false, 13).message())
    }
    state = state
        .next(0, Command::Pledge(Some((Some(Pattern::Clover), 13))), &rule)
        .unwrap();
    if let Err(x) = state.next(1, Command::Pledge(Some((Some(Pattern::Clover), 13))), &rule) {
        assert_eq!(x.message(), Error::InvalidPledge(false, 13).message())
    }
    state = state
        .next(1, Command::Pledge(Some((Some(Pattern::Clover), 14))), &rule)
        .unwrap();
    if let Err(x) = state.next(1, Command::Pledge(Some((Some(Pattern::Clover), 13))), &rule) {
        assert_eq!(x.message(), Error::InvalidOrder.message())
    }
    state = state.next(2, Command::Pledge(None), &rule).unwrap();
    state = state.next(3, Command::Pledge(None), &rule).unwrap();
    state = state.next(4, Command::Pledge(None), &rule).unwrap();
    state = state.next(0, Command::Pledge(None), &rule).unwrap();
    let mut drop_card = Vec::new();
    if let State::SelectFriend {
        president,
        pledge,
        giruda,
        deck,
        ..
    } = &state
    {
        assert_eq!(*president, 1usize);
        assert_eq!(*pledge, 14u8);
        assert_eq!(format!("{:?}", giruda.unwrap()), format!("{:?}", Pattern::Clover));
        drop_card = deck[*president]
            .choose_multiple(&mut rand::thread_rng(), 3)
            .cloned()
            .collect();
    }
    if let Err(x) = state.next(1, Command::ChangePledge(Some(Pattern::Clover)), &rule) {
        assert_eq!(x.message(), Error::SameGiruda.message())
    }
    state = state
        .next(1, Command::ChangePledge(Some(Pattern::Spade)), &rule)
        .unwrap();
    state = state
        .next(1, Command::SelectFriend(drop_card, FriendFunc::ByUser(2)), &rule)
        .unwrap();
    state = play_random_game(state, &rule);
    if let State::GameEnded {
        winner,
        president,
        friend,
        ..
    } = state
    {
        assert!(winner == 6 || winner == 26);
        assert_eq!(president, 1);
        assert_eq!(friend, Some(2));
    }
}

#[test]
fn next_gshs5_test1() {
    let rule = Rule::from_preset(Preset::Gshs5);
    let mut state = State::new(&rule).unwrap();
    if let Err(x) = state.next(0, Command::Pledge(Some((Some(Pattern::Clover), 13))), &rule) {
        assert_eq!(x.message(), Error::InvalidPledge(false, 14).message())
    }
    state = state.next(0, Command::Pledge(None), &rule).unwrap();
    state = state
        .next(3, Command::Pledge(Some((Some(Pattern::Clover), 14))), &rule)
        .unwrap();
    if let Err(x) = state.next(2, Command::Pledge(Some((Some(Pattern::Clover), 13))), &rule) {
        assert_eq!(x.message(), Error::InvalidPledge(false, 13).message())
    }
    state = state
        .next(2, Command::Pledge(Some((Some(Pattern::Spade), 14))), &rule)
        .unwrap();
    state = state
        .next(2, Command::Pledge(Some((Some(Pattern::Clover), 14))), &rule)
        .unwrap();
    state = state.next(1, Command::Pledge(None), &rule).unwrap();
    state = state.next(4, Command::Pledge(None), &rule).unwrap();
    state = state.next(3, Command::Pledge(None), &rule).unwrap();
    state = state.next(2, Command::Pledge(None), &rule).unwrap();
    let mut setup = None;
    if let State::SelectFriend {
        president,
        giruda,
        deck,
        ..
    } = &state
    {
        let drop_card: Vec<Card> = deck[*president]
            .choose_multiple(&mut rand::thread_rng(), 4)
            .cloned()
            .collect();
        setup = Some((*president, *giruda, drop_card));
    }
    if let Some((president, giruda, drop_card)) = setup {
        if let Err(x) = state.next(president, Command::ChangePledge(giruda), &rule) {
            assert_eq!(x.message(), Error::SameGiruda.message())
        }
        state = state
            .next(
                president,
                Command::SelectFriend(drop_card, FriendFunc::ByUser(0)),
                &rule,
            )
            .unwrap();
        state = play_random_game(state, &rule);
    }
}
