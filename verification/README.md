# mighty

The rules of Mighty, the Korean trick-taking card game for five players,
as a library whose behaviour is stated in contracts and proved with Verus.

A game goes through four phases (`state::State`): bidding for the right to
declare (`Election`), the declarer dropping cards and naming a friend
(`SelectFriend`), ten tricks (`InGame`), and the result (`GameEnded`).
`State::new` shuffles and deals a deck; `State::next` applies a player's
move; `State::is_valid_command` is the lighter check a client makes before
sending a move; `State::valid_users` says who may act.

Layout of `src/`:

- `card.rs`: suits, colours, cards, suit sets (`Rush`).
- `rule.rs`: rule sets and the two presets.
- `state.rs`: the state, its model (`StateView`), its shape (`wf`), and how
  cards compare within a trick.
- `deal.rs`: dealing and the start of a game.
- `election.rs`, `friend.rs`, `play.rs`: the three phases, each as a model
  (`spec_*`) and the code proved to follow it.
- `next.rs`, `valid.rs`: moves and the client check.
- `hand.rs`, `vecs.rs`: searching and copying hands.
- `random.rs`: the random draws, made with the `rand` crate.
- `server.rs`: identifiers for rooms and games, made with the `uuid` crate.
- `list.rs`: the lobby session's tag.
- `laws.rs`, `preservation.rs`: properties across operations, such as every
  move keeping the shape of a five-player game.
