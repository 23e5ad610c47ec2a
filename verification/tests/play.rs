use mighty::card::{Card, Color, Pattern, Rush};
use mighty::command::Command;
use mighty::error::{Error, Expected};
use mighty::rule::{CardPolicy, Preset, Rule};
use mighty::state::{FriendFunc, State};

fn n(p: Pattern, r: u8) -> Card {
    Card::Normal(p, r)
}

/// A game in play: trump `giruda`, declarer 0 with friend 1, trick
/// `turn_count`, player `current` to play, `start` leading.
fn in_game(
    giruda: Option<Pattern>,
    deck: Vec<Vec<Card>>,
    turn_count: u8,
    start: usize,
    current: usize,
    pattern: Rush,
    placed: Vec<(Card, CardPolicy)>,
    score_deck: Vec<Vec<Card>>,
) -> State {
    State::InGame {
        president: 0,
        friend_func: FriendFunc::ByUser(1),
        friend: Some(1),
        is_friend_known: true,
        giruda,
        pledge: 14,
        deck,
        score_deck,
        turn_count,
        placed_cards: placed,
        start_user: start,
        current_user: current,
        current_pattern: pattern,
        joker_call_card: None,
        joker_call_effect: false,
    }
}

fn empty_placed() -> Vec<(Card, CardPolicy)> {
    vec![(n(Pattern::Spade, 0), CardPolicy::Valid); 5]
}

fn hands() -> Vec<Vec<Card>> {
    vec![
        vec![n(Pattern::Heart, 5), n(Pattern::Clover, 4), Card::Joker(Color::Black)],
        vec![n(Pattern::Heart, 7), n(Pattern::Spade, 0), n(Pattern::Clover, 2)],
        vec![n(Pattern::Heart, 0), n(Pattern::Diamond, 3), n(Pattern::Clover, 9)],
        vec![n(Pattern::Diamond, 11), n(Pattern::Clover, 1), n(Pattern::Heart, 1)],
        vec![n(Pattern::Clover, 12), n(Pattern::Heart, 10), n(Pattern::Spade, 3)],
    ]
}

#[test]
fn mighty_beats_everything() {
    let rule = Rule::from_preset(Preset::Default5);
    let _ = rule;
    let s = in_game(Some(Pattern::Clover), hands(), 3, 0, 0, Rush::from_pattern(Pattern::Heart), empty_placed(), vec![vec![]; 5]);
    let mighty = s.get_mighty();
    assert_eq!(mighty, n(Pattern::Spade, 0));
    for c in [n(Pattern::Clover, 0), n(Pattern::Heart, 0), Card::Joker(Color::Black), Card::Joker(Color::Red)] {
        assert!(s.compare_cards(&c, &mighty));
        assert!(!s.compare_cards(&mighty, &c));
    }
    let s2 = in_game(Some(Pattern::Spade), hands(), 3, 0, 0, Rush::from_pattern(Pattern::Heart), empty_placed(), vec![vec![]; 5]);
    assert_eq!(s2.get_mighty(), n(Pattern::Diamond, 0));
}

#[test]
fn trump_beats_other_suits() {
    let s = in_game(Some(Pattern::Clover), hands(), 3, 0, 0, Rush::from_pattern(Pattern::Heart), empty_placed(), vec![vec![]; 5]);
    assert!(s.compare_cards(&n(Pattern::Heart, 0), &n(Pattern::Clover, 1)));
    assert!(!s.compare_cards(&n(Pattern::Clover, 1), &n(Pattern::Heart, 0)));
    // within the trick's suit the ace is highest
    assert!(s.compare_cards(&n(Pattern::Heart, 12), &n(Pattern::Heart, 0)));
    assert!(!s.compare_cards(&n(Pattern::Heart, 0), &n(Pattern::Heart, 12)));
    // off-suit cards lose to the trick's suit
    assert!(s.compare_cards(&n(Pattern::Diamond, 0), &n(Pattern::Heart, 1)));
    assert!(!s.compare_cards(&n(Pattern::Heart, 1), &n(Pattern::Diamond, 0)));
}

#[test]
fn jokers_in_tricks() {
    let heart = Rush::from_pattern(Pattern::Heart);
    let s = in_game(Some(Pattern::Clover), hands(), 3, 0, 0, heart, empty_placed(), vec![vec![]; 5]);
    // a red joker in a heart trick beats suited cards, a black one does not
    assert!(s.compare_cards(&n(Pattern::Heart, 0), &Card::Joker(Color::Red)));
    assert!(!s.compare_cards(&n(Pattern::Heart, 0), &Card::Joker(Color::Black)));
    assert!(s.compare_cards(&Card::Joker(Color::Black), &n(Pattern::Heart, 2)));
    // a red joker loses to a trump, since the trump is black
    assert!(s.compare_cards(&Card::Joker(Color::Red), &n(Pattern::Clover, 2)));
    assert!(s.compare_cards(&Card::Joker(Color::Black), &Card::Joker(Color::Red)));
}

#[test]
fn valid_users_bits() {
    let d = Rule::from_preset(Preset::Default5);
    let g = Rule::from_preset(Preset::Gshs5);
    let state = State::new(&d).unwrap();
    assert_eq!(state.valid_users(&d), 1);
    assert_eq!(state.valid_users(&g), 31);
    let s = in_game(None, hands(), 0, 3, 3, Rush::empty(), empty_placed(), vec![vec![]; 5]);
    assert_eq!(s.valid_users(&d), 8);
    let sf = State::SelectFriend { president: 2, giruda: None, pledge: 14, deck: hands() };
    assert_eq!(sf.valid_users(&d), 4);
    let end = State::GameEnded { winner: 3, president: 0, friend: Some(1), score: 4, pledge: 14, giruda: None };
    assert_eq!(end.valid_users(&d), 0);
    let mut eight = Rule::from_preset(Preset::Gshs5);
    eight.user_cnt = 8;
    assert_eq!(state.valid_users(&eight), 255);
}

#[test]
fn play_removes_card_and_passes_turn() {
    let rule = Rule::from_preset(Preset::Default5);
    let s = in_game(Some(Pattern::Clover), hands(), 3, 0, 0, Rush::empty(), empty_placed(), vec![vec![]; 5]);
    let s2 = s.next(0, Command::Go(n(Pattern::Heart, 5), Rush::empty(), false), &rule).unwrap();
    if let State::InGame { deck, current_user, current_pattern, placed_cards, .. } = &s2 {
        assert_eq!(deck[0], vec![n(Pattern::Clover, 4), Card::Joker(Color::Black)]);
        assert_eq!(deck[1].len(), 3);
        assert_eq!(*current_user, 1);
        assert_eq!(*current_pattern, Rush::from_pattern(Pattern::Heart));
        assert_eq!(placed_cards[0], (n(Pattern::Heart, 5), CardPolicy::Valid));
    } else {
        panic!("the trick goes on");
    }
}

#[test]
fn trick_goes_to_winner_with_points() {
    let rule = Rule::from_preset(Preset::Default5);
    let mut s = in_game(Some(Pattern::Clover), hands(), 3, 0, 0, Rush::empty(), empty_placed(), vec![vec![]; 5]);
    let plays = [
        (0, n(Pattern::Heart, 5)),
        (1, n(Pattern::Heart, 7)),
        (2, n(Pattern::Heart, 0)),
        (3, n(Pattern::Heart, 1)),
        (4, n(Pattern::Heart, 10)),
    ];
    for (u, c) in plays {
        s = s.next(u, Command::Go(c, Rush::empty(), false), &rule).unwrap();
    }
    if let State::InGame { score_deck, turn_count, start_user, current_user, .. } = &s {
        assert_eq!(*turn_count, 4);
        assert_eq!(*start_user, 2);
        assert_eq!(*current_user, 2);
        assert_eq!(score_deck[2], vec![n(Pattern::Heart, 0), n(Pattern::Heart, 10)]);
        assert!(score_deck[0].is_empty());
    } else {
        panic!("the game goes on");
    }
}

#[test]
fn last_trick_scores_the_game() {
    let rule = Rule::from_preset(Preset::Default5);
    // the declarer's side (0 and 1) holds 16 points before the last trick
    let mut score_deck: Vec<Vec<Card>> = vec![vec![], vec![], vec![], vec![], vec![]];
    for r in [0u8, 9, 10, 11, 12] {
        score_deck[0].push(n(Pattern::Spade, r));
        score_deck[0].push(n(Pattern::Diamond, r));
        score_deck[1].push(n(Pattern::Heart, r));
    }
    score_deck[1].truncate(1);
    score_deck[2].push(n(Pattern::Clover, 0));
    let deck = vec![
        vec![n(Pattern::Clover, 9)],
        vec![n(Pattern::Clover, 10)],
        vec![n(Pattern::Heart, 9)],
        vec![n(Pattern::Heart, 10)],
        vec![n(Pattern::Clover, 11)],
    ];
    let mut s = in_game(Some(Pattern::Clover), deck, 9, 0, 0, Rush::empty(), empty_placed(), score_deck);
    for u in 0..5 {
        let c = if let State::InGame { deck, .. } = &s { deck[u][0] } else { panic!() };
        s = s.next(u, Command::Go(c, Rush::empty(), false), &rule).unwrap();
    }
    // player 4 takes the last trick (queen of clovers) with five points, so
    // the piles hold 10, 1, 1, 0 and 5 points: the side counts
    // 20 - (17 - 1) + 10 = 14 against a bid of 14, wins, and scores
    // 14 - 10 = 4.
    if let State::GameEnded { winner, president, friend, score, pledge, giruda } = s {
        assert_eq!(winner, 3);
        assert_eq!(president, 0);
        assert_eq!(friend, Some(1));
        assert_eq!(score, 4);
        assert_eq!(pledge, 14);
        assert_eq!(giruda, Some(Pattern::Clover));
    } else {
        panic!("the game is over");
    }
}

#[test]
fn lost_game_goes_to_the_others() {
    let rule = Rule::from_preset(Preset::Default5);
    let mut score_deck: Vec<Vec<Card>> = vec![vec![], vec![], vec![], vec![], vec![]];
    for r in [0u8, 9, 10, 11, 12] {
        score_deck[2].push(n(Pattern::Spade, r));
        score_deck[3].push(n(Pattern::Diamond, r));
    }
    let deck = vec![
        vec![n(Pattern::Clover, 2)],
        vec![n(Pattern::Clover, 3)],
        vec![n(Pattern::Heart, 2)],
        vec![n(Pattern::Heart, 3)],
        vec![n(Pattern::Clover, 4)],
    ];
    let mut s = in_game(Some(Pattern::Clover), deck, 9, 0, 0, Rush::empty(), empty_placed(), score_deck);
    for u in 0..5 {
        let c = if let State::InGame { deck, .. } = &s { deck[u][0] } else { panic!() };
        s = s.next(u, Command::Go(c, Rush::empty(), false), &rule).unwrap();
    }
    // the others hold 10 points: the side counts 10 against 14, loses, and
    // the others score 2 * (14 - 10) = 8.
    if let State::GameEnded { winner, score, .. } = s {
        assert_eq!(winner, 32 - 3);
        assert_eq!(score, 8);
    } else {
        panic!("the game is over");
    }
}

#[test]
fn impossible_score_is_internal() {
    let rule = Rule::from_preset(Preset::Default5);
    let mut score_deck: Vec<Vec<Card>> = vec![vec![], vec![], vec![], vec![], vec![]];
    for i in 0..25u8 {
        score_deck[2 + (i % 3) as usize].push(n(Pattern::Spade, 0));
    }
    let deck = vec![
        vec![n(Pattern::Clover, 2)],
        vec![n(Pattern::Clover, 3)],
        vec![n(Pattern::Heart, 2)],
        vec![n(Pattern::Heart, 3)],
        vec![n(Pattern::Clover, 4)],
    ];
    let mut s = in_game(Some(Pattern::Clover), deck, 9, 0, 0, Rush::empty(), empty_placed(), score_deck);
    let mut last = Ok(());
    for u in 0..5 {
        let c = if let State::InGame { deck, .. } = &s { deck[u][0] } else { panic!() };
        match s.next(u, Command::Go(c, Rush::empty(), false), &rule) {
            Ok(t) => s = t,
            Err(e) => {
                last = Err(e);
                break;
            }
        }
    }
    assert_eq!(last, Err(Error::Internal));
}

#[test]
fn play_errors() {
    let rule = Rule::from_preset(Preset::Default5);
    // first trick: a trump may not be played
    let s0 = in_game(Some(Pattern::Clover), hands(), 0, 0, 0, Rush::empty(), empty_placed(), vec![vec![]; 5]);
    assert_eq!(s0.next(0, Command::Go(n(Pattern::Clover, 4), Rush::empty(), false), &rule).err(), Some(Error::WrongCard));
    assert_eq!(s0.is_valid_command(0, Command::Go(n(Pattern::Clover, 4), Rush::empty(), false), &rule), Err(Error::WrongCard));
    // a card that is not in the hand
    assert_eq!(s0.next(0, Command::Go(n(Pattern::Spade, 7), Rush::empty(), false), &rule).err(), Some(Error::NotInDeck));
    // a black joker cannot lead hearts
    let s3 = in_game(Some(Pattern::Clover), hands(), 3, 0, 0, Rush::empty(), empty_placed(), vec![vec![]; 5]);
    assert_eq!(
        s3.next(0, Command::Go(Card::Joker(Color::Black), Rush::from_pattern(Pattern::Heart), false), &rule).err(),
        Some(Error::WrongPattern)
    );
    let led = s3.next(0, Command::Go(Card::Joker(Color::Black), Rush::from_pattern(Pattern::Spade), false), &rule).unwrap();
    assert_eq!(led.get_current_pattern(), Rush::from_pattern(Pattern::Spade));
    // bidding commands are refused during play
    assert_eq!(s3.next(0, Command::Pledge(None), &rule).err(), Some(Error::InvalidCommand(Expected::Go)));
}

#[test]
fn joker_call_forces_joker() {
    let rule = Rule::from_preset(Preset::Default5);
    // player 1 leads the three of clovers and calls the joker
    let s = in_game(Some(Pattern::Heart), hands(), 3, 1, 1, Rush::empty(), empty_placed(), vec![vec![]; 5]);
    let s2 = s.next(1, Command::Go(n(Pattern::Clover, 2), Rush::empty(), true), &rule).unwrap();
    assert!(s2.is_joker_called());
    let mut h = hands();
    h[2] = vec![Card::Joker(Color::Black), n(Pattern::Heart, 4)];
    let s3 = if let State::InGame { joker_call_card, joker_call_effect, .. } = &s2 {
        let mut t = in_game(Some(Pattern::Heart), h, 3, 1, 2, Rush::from_pattern(Pattern::Clover), empty_placed(), vec![vec![]; 5]);
        if let State::InGame { joker_call_card: j, joker_call_effect: e, .. } = &mut t {
            *j = *joker_call_card;
            *e = *joker_call_effect;
        }
        t
    } else {
        panic!()
    };
    // while the call stands, every other card of the hand must be the calling card
    assert_eq!(s3.next(2, Command::Go(n(Pattern::Heart, 4), Rush::empty(), false), &rule).err(), Some(Error::JokerCall));
    assert_eq!(s3.next(2, Command::Go(Card::Joker(Color::Black), Rush::empty(), false), &rule).err(), Some(Error::JokerCall));
    let single = if let State::InGame { deck, .. } = &s3 {
        let mut d = deck.clone();
        d[2] = vec![Card::Joker(Color::Black)];
        d
    } else {
        panic!()
    };
    let mut s4 = s3;
    if let State::InGame { deck, .. } = &mut s4 {
        *deck = single;
    }
    assert!(s4.next(2, Command::Go(Card::Joker(Color::Black), Rush::empty(), false), &rule).is_ok());
}

#[test]
fn random_play_removes_a_card() {
    let rule = Rule::from_preset(Preset::Default5);
    let s = in_game(Some(Pattern::Clover), hands(), 3, 0, 0, Rush::empty(), empty_placed(), vec![vec![]; 5]);
    let s2 = s.next(0, Command::Random, &rule).unwrap();
    if let State::InGame { deck, current_user, placed_cards, .. } = &s2 {
        assert_eq!(deck[0].len(), 2);
        assert_eq!(*current_user, 1);
        assert!(hands()[0].contains(&placed_cards[0].0));
        assert!(!deck[0].contains(&placed_cards[0].0));
    } else {
        panic!("the trick goes on");
    }
}

#[test]
fn ended_game_stays() {
    let rule = Rule::from_preset(Preset::Default5);
    let end = State::GameEnded { winner: 3, president: 0, friend: Some(1), score: 4, pledge: 14, giruda: None };
    let again = end.next(2, Command::Random, &rule).unwrap();
    if let State::GameEnded { winner, score, .. } = again {
        assert_eq!((winner, score), (3, 4));
    } else {
        panic!();
    }
    assert_eq!(end.is_valid_command(2, Command::Random, &rule), Ok(()));
}

#[test]
fn declarer_as_own_friend_wins_alone() {
    let rule = Rule::from_preset(Preset::Default5);
    let mut score_deck: Vec<Vec<Card>> = vec![vec![], vec![], vec![], vec![], vec![]];
    for p in [Pattern::Spade, Pattern::Diamond, Pattern::Heart, Pattern::Clover] {
        for r in [0u8, 9, 10, 11, 12] {
            score_deck[0].push(n(p, r));
        }
    }
    let deck = vec![
        vec![n(Pattern::Clover, 1)],
        vec![n(Pattern::Clover, 3)],
        vec![n(Pattern::Clover, 4)],
        vec![n(Pattern::Clover, 5)],
        vec![n(Pattern::Clover, 6)],
    ];
    let mut s = in_game(Some(Pattern::Clover), deck, 9, 0, 0, Rush::empty(), empty_placed(), score_deck);
    if let State::InGame { friend, friend_func, .. } = &mut s {
        *friend = Some(0);
        *friend_func = FriendFunc::ByCard(n(Pattern::Spade, 0));
    }
    for u in 0..5 {
        let c = if let State::InGame { deck, .. } = &s { deck[u][0] } else { panic!() };
        s = s.next(u, Command::Go(c, Rush::empty(), false), &rule).unwrap();
    }
    if let State::GameEnded { winner, president, friend, .. } = s {
        assert_eq!(winner, 1);
        assert_eq!(president, 0);
        assert_eq!(friend, Some(0));
    } else {
        panic!("the game is over");
    }
}

#[test]
fn known_friend_stays_known() {
    let rule = Rule::from_preset(Preset::Default5);
    let mut s = in_game(Some(Pattern::Clover), hands(), 3, 0, 0, Rush::empty(), empty_placed(), vec![vec![]; 5]);
    if let State::InGame { friend_func, .. } = &mut s {
        *friend_func = FriendFunc::ByCard(n(Pattern::Spade, 0));
    }
    let s2 = s.next(0, Command::Go(n(Pattern::Heart, 5), Rush::empty(), false), &rule).unwrap();
    if let State::InGame { is_friend_known, .. } = &s2 {
        assert!(*is_friend_known);
    } else {
        panic!("the trick goes on");
    }
}

#[test]
fn client_and_game_take_joker_call_pairs_differently() {
    let mut rule = Rule::from_preset(Preset::Default5);
    rule.card_policy.joker_call = (CardPolicy::Invalid, CardPolicy::Valid);
    let spade_three = n(Pattern::Spade, 2);
    let clover_three = n(Pattern::Clover, 2);
    let deck = vec![
        vec![spade_three, clover_three, n(Pattern::Heart, 4)],
        vec![n(Pattern::Heart, 7), n(Pattern::Spade, 5), n(Pattern::Clover, 8)],
        vec![n(Pattern::Heart, 6), n(Pattern::Diamond, 3), n(Pattern::Clover, 9)],
        vec![n(Pattern::Diamond, 11), n(Pattern::Clover, 1), n(Pattern::Heart, 1)],
        vec![n(Pattern::Clover, 12), n(Pattern::Heart, 10), n(Pattern::Spade, 3)],
    ];
    let s = in_game(None, deck, 0, 0, 0, Rush::empty(), empty_placed(), vec![vec![]; 5]);
    // without a trump the game's joker call is the three of clovers, the
    // client's the three of spades
    let spade = || Command::Go(spade_three, Rush::from_pattern(Pattern::Spade), true);
    assert!(s.next(0, spade(), &rule).is_ok());
    assert_eq!(s.is_valid_command(0, spade(), &rule), Err(Error::WrongCard));
    let clover = || Command::Go(clover_three, Rush::from_pattern(Pattern::Clover), true);
    assert!(matches!(s.next(0, clover(), &rule), Err(Error::WrongCard)));
    assert_eq!(s.is_valid_command(0, clover(), &rule), Ok(()));
}

#[test]
fn play_does_not_read_the_player_count() {
    let mut rule = Rule::from_preset(Preset::Default5);
    rule.user_cnt = 3;
    let s = |deck0: Vec<Card>, placed0: Card| State::InGame {
        president: 1,
        friend_func: FriendFunc::ByUser(2),
        friend: Some(2),
        is_friend_known: true,
        giruda: Some(Pattern::Heart),
        pledge: 14,
        deck: vec![deck0, vec![n(Pattern::Clover, 4)], vec![n(Pattern::Clover, 5)], vec![n(Pattern::Diamond, 4)], vec![n(Pattern::Clover, 6)]],
        score_deck: vec![vec![]; 5],
        turn_count: 8,
        placed_cards: vec![
            (placed0, CardPolicy::Valid),
            (n(Pattern::Spade, 5), CardPolicy::Valid),
            (n(Pattern::Spade, 12), CardPolicy::Valid),
            (n(Pattern::Heart, 1), CardPolicy::Valid),
            (n(Pattern::Spade, 9), CardPolicy::Valid),
        ],
        start_user: 1,
        current_user: 0,
        current_pattern: Rush::from_pattern(Pattern::Spade),
        joker_call_card: None,
        joker_call_effect: false,
    };
    let before = s(vec![n(Pattern::Spade, 3), n(Pattern::Diamond, 7)], n(Pattern::Clover, 1));
    let t = before.next(0, Command::Go(n(Pattern::Spade, 3), Rush::empty(), false), &rule).unwrap();
    let mut expected = s(vec![n(Pattern::Diamond, 7)], n(Pattern::Spade, 3));
    if let State::InGame { score_deck, turn_count, start_user, current_user, .. } = &mut expected {
        score_deck[3] = vec![n(Pattern::Spade, 12), n(Pattern::Spade, 9)];
        *turn_count = 9;
        *start_user = 3;
        *current_user = 3;
    }
    assert_eq!(t, expected);
}

#[test]
fn client_and_game_agree_mid_game() {
    let rule = Rule::from_preset(Preset::Default5);
    let s = in_game(Some(Pattern::Clover), hands(), 3, 0, 1, Rush::from_pattern(Pattern::Heart), empty_placed(), vec![vec![]; 5]);
    for c in hands()[1].iter().chain([n(Pattern::Diamond, 3)].iter()) {
        let client = s.is_valid_command(1, Command::Go(*c, Rush::empty(), false), &rule);
        let game = s.next(1, Command::Go(*c, Rush::empty(), false), &rule).map(|_| ());
        assert_eq!(client, game);
    }
}

#[test]
fn play_goes_on_with_a_friend_named_outside_the_table() {
    let rule = Rule::from_preset(Preset::Default5);
    let mut s = in_game(Some(Pattern::Clover), hands(), 3, 0, 0, Rush::empty(), empty_placed(), vec![vec![]; 5]);
    if let State::InGame { friend, friend_func, .. } = &mut s {
        *friend = Some(7);
        *friend_func = FriendFunc::ByUser(7);
    }
    let t = s.next(0, Command::Go(n(Pattern::Heart, 5), Rush::empty(), false), &rule).unwrap();
    if let State::InGame { friend, current_user, .. } = &t {
        assert_eq!(*friend, Some(7));
        assert_eq!(*current_user, 1);
    } else {
        panic!("the trick goes on");
    }
}
