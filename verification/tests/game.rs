use crowd_chess::{
    one_near, parse_side_to_move, Contract, GameError, GameRecord, Outcome, Side, Tally,
    STARTING_POSITION, VOTING_PERIOD_INTERVAL, YOCTO_PER_NEAR,
};
use near_sdk::{AccountId, NearToken};

fn name(text: &str) -> String {
    text.to_string()
}

fn start() -> String {
    STARTING_POSITION.to_string()
}

/// A game with buy-in 10 and periods of 30 that began at time 100, with
/// alice and carol on white and bob on black.
fn three_players() -> Contract {
    let mut game = Contract::new(10, 30, 100);
    assert_eq!(game.add_player(name("alice"), 10), Ok(()));
    assert_eq!(game.add_player(name("bob"), 10), Ok(()));
    assert_eq!(game.add_player(name("carol"), 12), Ok(()));
    game
}

#[test]
fn board_fen_should_be_starting_fen() {
    let one_near_token = NearToken::from_near(1).as_yoctonear();
    let contract = Contract::new(one_near_token, VOTING_PERIOD_INTERVAL, 0);
    assert_eq!(contract.get_fen(), STARTING_POSITION.to_string());
}

#[test]
#[should_panic(expected = "send more coin")]
fn bob_cannot_buyin_without_deposit() {
    let bob: AccountId = "bob_near".parse().unwrap();
    let mut contract = Contract::new(
        NearToken::from_near(1).as_yoctonear(),
        VOTING_PERIOD_INTERVAL,
        0,
    );
    if let Err(refusal) = contract.add_player(bob.to_string(), 0) {
        panic!("{}", refusal.message());
    }
}

#[test]
fn buyin_without_deposit_is_insufficient_payment() {
    let mut contract = Contract::with_defaults(0);
    assert_eq!(
        contract.add_player(name("bob_near"), 0),
        Err(GameError::InsufficientPayment)
    );
    assert_eq!(contract.side_of(&name("bob_near")), None);
}

#[test]
fn one_near_is_ten_to_the_24_yocto() {
    assert_eq!(one_near(), 1_000_000_000_000_000_000_000_000u128);
    assert_eq!(one_near(), YOCTO_PER_NEAR);
    assert_eq!(one_near(), NearToken::from_near(1).as_yoctonear());
}

#[test]
fn default_game_costs_one_near_and_runs_periods_of_30() {
    let game = Contract::with_defaults(1_000);
    assert_eq!(game.buyin_amount(), 1_000_000_000_000_000_000_000_000u128);
    assert_eq!(game.base_voting_interval(), 30);
    assert_eq!(game.next_period_timestamp(), 1_030);
    assert!(game.is_active());
    assert_eq!(game.get_fen(), start());
}

#[test]
fn new_game_is_empty_and_open() {
    let game = Contract::new(10, 30, 100);
    assert!(game.is_active());
    assert_eq!(game.buyin_amount(), 10);
    assert_eq!(game.base_voting_interval(), 30);
    assert_eq!(game.next_period_timestamp(), 130);
    let record = game.into_record();
    assert!(record.votes.is_empty());
    assert!(record.voted_this_period.is_empty());
    assert!(record.white_players.is_empty());
    assert!(record.black_players.is_empty());
}

#[test]
fn players_alternate_white_black() {
    let mut game = Contract::new(10, 30, 0);
    assert_eq!(game.joining_side(), Side::White);
    assert_eq!(game.add_player(name("a"), 10), Ok(()));
    assert_eq!(game.joining_side(), Side::Black);
    assert_eq!(game.add_player(name("b"), 10), Ok(()));
    assert_eq!(game.joining_side(), Side::White);
    assert_eq!(game.add_player(name("c"), 10), Ok(()));
    assert_eq!(game.joining_side(), Side::Black);
    assert_eq!(game.add_player(name("d"), 10), Ok(()));
    assert_eq!(game.add_player(name("e"), 10), Ok(()));
    assert_eq!(game.side_of(&name("a")), Some(Side::White));
    assert_eq!(game.side_of(&name("b")), Some(Side::Black));
    assert_eq!(game.side_of(&name("c")), Some(Side::White));
    assert_eq!(game.side_of(&name("d")), Some(Side::Black));
    assert_eq!(game.side_of(&name("e")), Some(Side::White));
    assert_eq!(game.side_of(&name("f")), None);
    let record = game.into_record();
    assert_eq!(record.white_players, vec![name("a"), name("c"), name("e")]);
    assert_eq!(record.black_players, vec![name("b"), name("d")]);
}

#[test]
fn joined_player_sits_on_exactly_one_roster() {
    let game = three_players();
    let record = game.into_record();
    for player in ["alice", "bob", "carol"] {
        let white = record.white_players.contains(&name(player));
        let black = record.black_players.contains(&name(player));
        assert!(white != black);
    }
}

#[test]
fn join_with_exact_buy_in_succeeds_and_below_fails() {
    let mut game = Contract::new(10, 30, 0);
    assert_eq!(game.add_player(name("a"), 9), Err(GameError::InsufficientPayment));
    assert!(!game.voting_rights(&name("a")));
    assert_eq!(game.add_player(name("a"), 10), Ok(()));
    assert!(game.voting_rights(&name("a")));
}

#[test]
fn free_game_takes_players_without_payment() {
    let mut game = Contract::new(0, 30, 0);
    assert_eq!(game.add_player(name("a"), 0), Ok(()));
}

#[test]
fn joining_twice_is_refused() {
    let mut game = three_players();
    assert_eq!(game.add_player(name("alice"), 10), Err(GameError::AlreadyJoined));
    assert_eq!(game.add_player(name("bob"), 10), Err(GameError::AlreadyJoined));
    let record = game.into_record();
    assert_eq!(record.white_players.len(), 2);
    assert_eq!(record.black_players.len(), 1);
}

#[test]
fn finished_game_takes_no_players() {
    let mut game = three_players();
    assert_eq!(game.finish_game(Outcome::Draw), Ok(()));
    assert_eq!(game.add_player(name("dave"), 10), Err(GameError::GameNotJoinable));
    assert_eq!(game.side_of(&name("dave")), None);
}

#[test]
fn join_checks_payment_before_anything_else() {
    let mut game = three_players();
    assert_eq!(game.add_player(name("alice"), 1), Err(GameError::InsufficientPayment));
    assert_eq!(game.finish_game(Outcome::WhiteWin), Ok(()));
    assert_eq!(game.add_player(name("dave"), 1), Err(GameError::InsufficientPayment));
    assert_eq!(game.add_player(name("alice"), 10), Err(GameError::GameNotJoinable));
}

#[test]
fn vote_on_stale_position_is_refused_first() {
    let mut game = three_players();
    assert_eq!(
        game.cast_vote(name("nobody"), name("old board"), name("e4")),
        Err(GameError::StalePosition)
    );
    assert_eq!(
        game.cast_vote(name("alice"), name("old board"), name("e4")),
        Err(GameError::StalePosition)
    );
    assert_eq!(game.votes_for(&name("e4")), 0);
}

#[test]
fn vote_of_a_stranger_is_refused() {
    let mut game = three_players();
    assert_eq!(
        game.cast_vote(name("mallory"), start(), name("e4")),
        Err(GameError::NotAParticipant)
    );
    assert!(!game.has_voted(&name("mallory")));
}

#[test]
fn vote_out_of_turn_is_refused() {
    let mut game = three_players();
    assert_eq!(game.can_vote(&name("bob")), Ok(false));
    assert_eq!(game.can_vote(&name("alice")), Ok(true));
    assert_eq!(game.cast_vote(name("bob"), start(), name("e4")), Err(GameError::NotYourTurn));
    assert!(!game.has_voted(&name("bob")));
    assert_eq!(game.votes_for(&name("e4")), 0);
}

#[test]
fn second_vote_in_a_period_is_refused() {
    let mut game = three_players();
    assert_eq!(game.cast_vote(name("alice"), start(), name("e4")), Ok(()));
    assert_eq!(game.cast_vote(name("alice"), start(), name("e4")), Err(GameError::AlreadyVoted));
    assert_eq!(game.cast_vote(name("alice"), start(), name("d4")), Err(GameError::AlreadyVoted));
    assert_eq!(game.votes_for(&name("e4")), 1);
    assert_eq!(game.votes_for(&name("d4")), 0);
}

#[test]
fn second_vote_is_refused_after_others_joined() {
    let mut game = three_players();
    assert_eq!(game.cast_vote(name("alice"), start(), name("e4")), Ok(()));
    assert_eq!(game.add_player(name("dave"), 10), Ok(()));
    assert_eq!(game.cast_vote(name("alice"), start(), name("e4")), Err(GameError::AlreadyVoted));
}

#[test]
fn vote_may_be_cast_again_after_a_tally() {
    let mut game = three_players();
    let next = "board w next".to_string();
    assert_eq!(game.cast_vote(name("alice"), start(), next.clone()), Ok(()));
    assert_eq!(game.tally_votes(131), Ok(()));
    assert!(!game.has_voted(&name("alice")));
    assert_eq!(game.cast_vote(name("alice"), next.clone(), name("d4")), Ok(()));
    assert_eq!(game.votes_for(&name("d4")), 1);
}

#[test]
fn votes_are_counted_per_proposal() {
    let mut game = Contract::new(1, 30, 0);
    for player in ["w1", "b1", "w2", "b2", "w3", "b3"] {
        assert_eq!(game.add_player(name(player), 1), Ok(()));
    }
    assert_eq!(game.cast_vote(name("w1"), start(), name("e4")), Ok(()));
    assert_eq!(game.cast_vote(name("w2"), start(), name("d4")), Ok(()));
    assert_eq!(game.cast_vote(name("w3"), start(), name("e4")), Ok(()));
    assert_eq!(game.votes_for(&name("e4")), 2);
    assert_eq!(game.votes_for(&name("d4")), 1);
    assert_eq!(game.votes_for(&name("c4")), 0);
    let record = game.into_record();
    assert_eq!(
        record.votes,
        vec![Tally { proposal: name("e4"), count: 2 }, Tally { proposal: name("d4"), count: 1 }]
    );
    assert_eq!(record.voted_this_period, vec![name("w1"), name("w2"), name("w3")]);
}

#[test]
fn vote_on_a_position_without_side_is_malformed() {
    let mut game = three_players();
    assert_eq!(game.cast_vote(name("alice"), start(), name("e4")), Ok(()));
    assert_eq!(game.tally_votes(131), Ok(()));
    assert_eq!(game.get_fen(), "e4");
    assert_eq!(game.can_vote(&name("alice")), Err(GameError::MalformedPosition));
    assert_eq!(
        game.cast_vote(name("alice"), name("e4"), name("d4")),
        Err(GameError::MalformedPosition)
    );
    assert_eq!(
        game.cast_vote(name("mallory"), name("e4"), name("d4")),
        Err(GameError::NotAParticipant)
    );
}

#[test]
fn black_votes_when_black_is_to_move() {
    let mut game = three_players();
    let black_to_move = "rnbqkbnr/pppppppp/8/8/4P3/8/PPPP1PPP/RNBQKBNR b KQkq - 0 1".to_string();
    assert_eq!(game.cast_vote(name("alice"), start(), black_to_move.clone()), Ok(()));
    assert_eq!(game.tally_votes(131), Ok(()));
    assert_eq!(game.get_fen(), black_to_move);
    assert_eq!(game.can_vote(&name("bob")), Ok(true));
    assert_eq!(
        game.cast_vote(name("alice"), black_to_move.clone(), name("x")),
        Err(GameError::NotYourTurn)
    );
    assert_eq!(game.cast_vote(name("bob"), black_to_move.clone(), name("x")), Ok(()));
}

#[test]
fn vote_on_a_finished_game_is_refused_last() {
    let mut game = three_players();
    assert_eq!(game.finish_game(Outcome::BlackResign), Ok(()));
    assert_eq!(game.cast_vote(name("alice"), name("old"), name("e4")), Err(GameError::StalePosition));
    assert_eq!(game.cast_vote(name("bob"), start(), name("e4")), Err(GameError::NotYourTurn));
    assert_eq!(game.cast_vote(name("alice"), start(), name("e4")), Err(GameError::GameAlreadyOver));
    assert!(!game.has_voted(&name("alice")));
}

#[test]
fn tally_before_the_deadline_changes_nothing() {
    let mut game = three_players();
    assert_eq!(game.cast_vote(name("alice"), start(), name("e4")), Ok(()));
    assert_eq!(game.tally_votes(0), Err(GameError::PeriodNotElapsed));
    assert_eq!(game.tally_votes(129), Err(GameError::PeriodNotElapsed));
    assert_eq!(game.tally_votes(130), Err(GameError::PeriodNotElapsed));
    assert_eq!(game.get_fen(), start());
    assert_eq!(game.next_period_timestamp(), 130);
    assert_eq!(game.votes_for(&name("e4")), 1);
    assert!(game.has_voted(&name("alice")));
}

#[test]
fn tally_before_the_deadline_of_a_finished_game_is_period_not_elapsed() {
    let mut game = three_players();
    assert_eq!(game.finish_game(Outcome::Stalemate), Ok(()));
    assert_eq!(game.tally_votes(130), Err(GameError::PeriodNotElapsed));
    assert_eq!(game.tally_votes(131), Err(GameError::GameAlreadyOver));
    assert_eq!(game.next_period_timestamp(), 130);
}

#[test]
fn tally_after_the_deadline_opens_a_fresh_period() {
    let mut game = three_players();
    assert_eq!(game.cast_vote(name("alice"), start(), name("e4")), Ok(()));
    assert_eq!(game.tally_votes(500), Ok(()));
    assert_eq!(game.get_fen(), "e4");
    assert_eq!(game.next_period_timestamp(), 530);
    assert_eq!(game.votes_for(&name("e4")), 0);
    assert!(!game.has_voted(&name("alice")));
    assert_eq!(game.base_voting_interval(), 30);
    let record = game.into_record();
    assert!(record.votes.is_empty());
    assert!(record.voted_this_period.is_empty());
    assert_eq!(record.white_players, vec![name("alice"), name("carol")]);
    assert_eq!(record.black_players, vec![name("bob")]);
}

#[test]
fn tally_without_votes_keeps_the_position() {
    let mut game = three_players();
    assert_eq!(game.tally_votes(131), Ok(()));
    assert_eq!(game.get_fen(), start());
    assert_eq!(game.next_period_timestamp(), 161);
}

#[test]
fn tally_with_period_length_zero_still_moves_the_deadline_on() {
    let mut game = Contract::new(0, 0, 7);
    assert_eq!(game.next_period_timestamp(), 7);
    assert_eq!(game.tally_votes(7), Err(GameError::PeriodNotElapsed));
    assert_eq!(game.tally_votes(8), Ok(()));
    assert_eq!(game.next_period_timestamp(), 8);
}

#[test]
fn most_votes_win_even_when_cast_later() {
    let mut game = Contract::new(1, 30, 0);
    for player in ["w1", "b1", "w2", "b2", "w3", "b3"] {
        assert_eq!(game.add_player(name(player), 1), Ok(()));
    }
    assert_eq!(game.cast_vote(name("w1"), start(), name("e4")), Ok(()));
    assert_eq!(game.cast_vote(name("w2"), start(), name("d4")), Ok(()));
    assert_eq!(game.cast_vote(name("w3"), start(), name("d4")), Ok(()));
    assert_eq!(game.tally_votes(31), Ok(()));
    assert_eq!(game.get_fen(), "d4");
}

#[test]
fn tie_goes_to_the_proposal_voted_for_first() {
    for _ in 0..5 {
        let mut game = three_players();
        assert_eq!(game.cast_vote(name("alice"), start(), name("e4")), Ok(()));
        assert_eq!(game.cast_vote(name("carol"), start(), name("d4")), Ok(()));
        assert_eq!(game.tally_votes(131), Ok(()));
        assert_eq!(game.get_fen(), "e4");
    }
    for _ in 0..5 {
        let mut game = three_players();
        assert_eq!(game.cast_vote(name("carol"), start(), name("d4")), Ok(()));
        assert_eq!(game.cast_vote(name("alice"), start(), name("e4")), Ok(()));
        assert_eq!(game.tally_votes(131), Ok(()));
        assert_eq!(game.get_fen(), "d4");
    }
}

#[test]
fn position_is_the_same_on_every_read() {
    let mut game = three_players();
    assert_eq!(game.get_fen(), game.get_fen());
    assert_eq!(game.get_fen(), start());
    assert_eq!(game.cast_vote(name("alice"), start(), name("e4")), Ok(()));
    assert_eq!(game.get_fen(), start());
    assert_eq!(game.tally_votes(131), Ok(()));
    assert_eq!(game.get_fen(), game.get_fen());
    assert_eq!(game.get_fen(), "e4");
}

#[test]
fn two_players_vote_and_tally() {
    let mut game = Contract::new(10, 30, 0);
    assert_eq!(game.add_player(name("A"), 10), Ok(()));
    assert_eq!(game.side_of(&name("A")), Some(Side::White));
    assert_eq!(game.add_player(name("B"), 10), Ok(()));
    assert_eq!(game.side_of(&name("B")), Some(Side::Black));
    assert_eq!(game.cast_vote(name("A"), start(), name("P1")), Ok(()));
    assert_eq!(game.cast_vote(name("B"), start(), name("P1")), Err(GameError::NotYourTurn));
    let before = game.next_period_timestamp();
    assert_eq!(before, 30);
    assert_eq!(game.tally_votes(31), Ok(()));
    assert_eq!(game.get_fen(), "P1");
    assert_eq!(game.votes_for(&name("P1")), 0);
    assert!(!game.has_voted(&name("A")));
    assert_eq!(game.next_period_timestamp(), 31 + 30);
}

#[test]
fn finishing_works_once() {
    let mut game = three_players();
    assert!(game.is_active());
    assert_eq!(game.finish_game(Outcome::WhiteWin), Ok(()));
    assert!(!game.is_active());
    assert_eq!(game.finish_game(Outcome::WhiteWin), Err(GameError::GameAlreadyOver));
    assert_eq!(game.finish_game(Outcome::BlackWin), Err(GameError::GameAlreadyOver));
    assert!(!game.is_active());
    assert_eq!(game.get_fen(), start());
    assert!(game.voting_rights(&name("alice")));
}

#[test]
fn side_to_move_is_the_second_field() {
    assert_eq!(parse_side_to_move(STARTING_POSITION), Some(Side::White));
    assert_eq!(parse_side_to_move("board w"), Some(Side::White));
    assert_eq!(parse_side_to_move("board b"), Some(Side::Black));
    assert_eq!(parse_side_to_move("board b KQkq - 0 1"), Some(Side::Black));
    assert_eq!(parse_side_to_move(" w"), Some(Side::White));
    assert_eq!(parse_side_to_move(" b "), Some(Side::Black));
}

#[test]
fn side_to_move_must_be_exactly_w_or_b() {
    assert_eq!(parse_side_to_move(""), None);
    assert_eq!(parse_side_to_move("w"), None);
    assert_eq!(parse_side_to_move("board"), None);
    assert_eq!(parse_side_to_move("board "), None);
    assert_eq!(parse_side_to_move("board  w"), None);
    assert_eq!(parse_side_to_move("board W"), None);
    assert_eq!(parse_side_to_move("board wb"), None);
    assert_eq!(parse_side_to_move("board ww rest"), None);
    assert_eq!(parse_side_to_move("board x w"), None);
    assert_eq!(parse_side_to_move("board\tw"), None);
    assert_eq!(parse_side_to_move("b\u{e9}ard \u{e9}"), None);
    assert_eq!(parse_side_to_move("b\u{e9}ard w"), Some(Side::White));
}

#[test]
fn every_error_has_its_message() {
    assert_eq!(GameError::InsufficientPayment.message(), "send more coin lol");
    assert_eq!(GameError::AlreadyJoined.message(), "player already joined this game");
    assert_eq!(GameError::GameNotJoinable.message(), "game takes no more players");
    assert_eq!(GameError::StalePosition.message(), "out of date board state");
    assert_eq!(GameError::NotAParticipant.message(), "player can't vote in this game");
    assert_eq!(GameError::AlreadyVoted.message(), "player already voted this period");
    assert_eq!(GameError::NotYourTurn.message(), "it's not your turn");
    assert_eq!(GameError::PeriodNotElapsed.message(), "current voting period not over");
    assert_eq!(GameError::GameAlreadyOver.message(), "game is already over");
    assert_eq!(GameError::MalformedPosition.message(), "malformed FEN");
}

fn sample_record() -> GameRecord {
    GameRecord {
        game_active: true,
        board_fen: "board w".to_string(),
        buyin_amount: 5,
        base_voting_interval: 30,
        next_period_timestamp: 90,
        votes: vec![
            Tally { proposal: name("e4"), count: 1 },
            Tally { proposal: name("d4"), count: 2 },
        ],
        voted_this_period: vec![name("a"), name("c"), name("e")],
        white_players: vec![name("a"), name("c"), name("e")],
        black_players: vec![name("b"), name("d")],
    }
}

#[test]
fn valid_record_is_restored_as_it_is() {
    assert!(sample_record().is_valid());
    let mut game = Contract::restore(sample_record()).unwrap();
    assert_eq!(game.get_fen(), "board w");
    assert_eq!(game.buyin_amount(), 5);
    assert_eq!(game.next_period_timestamp(), 90);
    assert_eq!(game.votes_for(&name("d4")), 2);
    assert!(game.has_voted(&name("c")));
    assert_eq!(game.side_of(&name("d")), Some(Side::Black));
    assert_eq!(game.tally_votes(91), Ok(()));
    assert_eq!(game.get_fen(), "d4");
}

#[test]
fn game_survives_the_way_through_a_record() {
    let mut game = three_players();
    assert_eq!(game.cast_vote(name("carol"), start(), name("Nf3")), Ok(()));
    let record = game.into_record();
    assert!(record.is_valid());
    let back = Contract::restore(record.clone()).unwrap();
    assert_eq!(back.into_record(), record);
    let mut back = Contract::restore(record).unwrap();
    assert_eq!(back.votes_for(&name("Nf3")), 1);
    assert!(back.has_voted(&name("carol")));
    assert_eq!(back.side_of(&name("bob")), Some(Side::Black));
    assert_eq!(back.next_period_timestamp(), 130);
    assert_eq!(back.cast_vote(name("carol"), start(), name("Nf3")), Err(GameError::AlreadyVoted));
}

#[test]
fn record_with_a_player_on_both_sides_is_rejected() {
    let mut record = sample_record();
    record.black_players.push(name("a"));
    assert!(!record.is_valid());
    assert!(Contract::restore(record).is_none());
}

#[test]
fn record_with_a_player_twice_on_a_side_is_rejected() {
    let mut record = sample_record();
    record.black_players.push(name("b"));
    assert!(Contract::restore(record).is_none());
    let mut record = sample_record();
    record.white_players.push(name("a"));
    assert!(Contract::restore(record).is_none());
}

#[test]
fn record_with_a_voter_who_is_no_player_is_rejected() {
    let mut record = sample_record();
    record.voted_this_period = vec![name("a"), name("c"), name("zed")];
    assert!(Contract::restore(record).is_none());
}

#[test]
fn record_with_a_voter_twice_is_rejected() {
    let mut record = sample_record();
    record.voted_this_period = vec![name("a"), name("c"), name("a")];
    assert!(Contract::restore(record).is_none());
}

#[test]
fn record_with_a_proposal_twice_is_rejected() {
    let mut record = sample_record();
    record.votes = vec![
        Tally { proposal: name("e4"), count: 1 },
        Tally { proposal: name("e4"), count: 2 },
    ];
    assert!(Contract::restore(record).is_none());
}

#[test]
fn record_with_an_entry_without_votes_is_rejected() {
    let mut record = sample_record();
    record.votes = vec![
        Tally { proposal: name("e4"), count: 3 },
        Tally { proposal: name("d4"), count: 0 },
    ];
    assert!(Contract::restore(record).is_none());
}

#[test]
fn record_whose_votes_do_not_add_up_is_rejected() {
    let mut record = sample_record();
    record.votes[1].count = 3;
    assert!(Contract::restore(record).is_none());
    let mut record = sample_record();
    record.votes[1].count = 1;
    assert!(Contract::restore(record).is_none());
    let mut record = sample_record();
    record.votes[0].count = u64::MAX;
    record.votes[1].count = 4;
    assert!(Contract::restore(record).is_none());
}
