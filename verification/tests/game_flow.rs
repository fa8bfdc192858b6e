use tic_tac_tui::{
    cancel_ready_up, check_move, claim_timeout, initialize_game, join_game, make_move, ready_up,
    terminate_game, GameError, GameState, GameStatus, Key, RoundResult, TIMEOUT_SLOTS,
};

fn p1() -> Key {
    Key::new([1u8; 32])
}

fn p2() -> Key {
    Key::new([2u8; 32])
}

fn outsider() -> Key {
    Key::new([9u8; 32])
}

fn joined() -> GameState {
    let mut g = initialize_game(p1(), 42, 1_000, 254);
    join_game(&mut g, p2()).unwrap();
    g
}

fn active() -> GameState {
    let mut g = joined();
    ready_up(&mut g, p1(), 100).unwrap();
    ready_up(&mut g, p2(), 110).unwrap();
    g
}

/// Plays the given cells alternately, player 1 first, at slots 200, 201, ...
fn play(g: &mut GameState, cells: &[u8]) -> Result<Option<RoundResult>, GameError> {
    let mut last = Ok(None);
    for (i, &c) in cells.iter().enumerate() {
        let signer = if i % 2 == 0 { p1() } else { p2() };
        last = make_move(g, signer, c, 200 + i as u64);
        if last.is_err() {
            return last;
        }
    }
    last
}

#[test]
fn initialize_game_sets_up_a_fresh_game() {
    let g = initialize_game(p1(), 42, 1_000, 254);
    assert_eq!(g.player1, p1());
    assert_eq!(g.player2, None);
    assert_eq!(g.p1_score, 0);
    assert_eq!(g.p2_score, 0);
    assert_eq!(g.status, GameStatus::AwaitingPlayerToJoinGame);
    assert_eq!(g.game_id, 42);
    assert_eq!(g.wager_per_round, 1_000);
    assert_eq!(g.round, 0);
    assert_eq!(g.bump, 254);
    assert!(!g.p1_ready && !g.p2_ready);
    assert_eq!(g.board, [0u8; 9]);
    assert_eq!(g.turn, 0);
    assert_eq!(g.move_count, 0);
    assert_eq!(g.last_move_slot, 0);
    assert_eq!(g.last_round_result, None);
}

#[test]
fn join_game_admits_player_two() {
    let g = joined();
    assert_eq!(g.player2, Some(p2()));
    assert_eq!(g.status, GameStatus::BetweenRounds);
}

#[test]
fn join_game_refuses_player_one() {
    let mut g = initialize_game(p1(), 42, 1_000, 254);
    let before = g;
    assert_eq!(join_game(&mut g, p1()), Err(GameError::InvalidAction));
    assert_eq!(g, before);
}

#[test]
fn join_game_refuses_a_second_join() {
    let mut g = joined();
    let before = g;
    assert_eq!(join_game(&mut g, outsider()), Err(GameError::StaleState));
    assert_eq!(g, before);
}

#[test]
fn ready_up_first_player_pays_the_wager() {
    let mut g = joined();
    assert_eq!(ready_up(&mut g, p2(), 100), Ok(1_000));
    assert!(g.p2_ready && !g.p1_ready);
    assert_eq!(g.status, GameStatus::BetweenRounds);
}

#[test]
fn ready_up_second_player_starts_the_round() {
    let mut g = joined();
    assert_eq!(ready_up(&mut g, p1(), 100), Ok(1_000));
    assert!(g.p1_ready);
    assert_eq!(ready_up(&mut g, p2(), 110), Ok(1_000));
    assert_eq!(g.status, GameStatus::RoundActive);
    assert_eq!(g.board, [0u8; 9]);
    assert_eq!(g.turn, 1);
    assert_eq!(g.move_count, 0);
    assert_eq!(g.round, 1);
    assert_eq!(g.last_move_slot, 110);
    assert!(!g.p1_ready && !g.p2_ready);
}

#[test]
fn ready_up_refuses_without_player_two() {
    let mut g = initialize_game(p1(), 42, 1_000, 254);
    assert_eq!(ready_up(&mut g, p1(), 1), Err(GameError::MissingPlayer));
}

#[test]
fn ready_up_refuses_an_outsider() {
    let mut g = joined();
    let before = g;
    assert_eq!(ready_up(&mut g, outsider(), 1), Err(GameError::Unauthorized));
    assert_eq!(g, before);
}

#[test]
fn ready_up_refuses_a_repeated_signal() {
    let mut g = joined();
    ready_up(&mut g, p1(), 1).unwrap();
    let before = g;
    assert_eq!(ready_up(&mut g, p1(), 2), Err(GameError::InvalidAction));
    assert_eq!(g, before);
}

#[test]
fn ready_up_refuses_during_a_round() {
    let mut g = active();
    assert_eq!(ready_up(&mut g, p1(), 1), Err(GameError::InvalidAction));
}

#[test]
fn cancel_ready_up_refunds_the_wager() {
    let mut g = joined();
    let before = g;
    ready_up(&mut g, p1(), 5).unwrap();
    assert_eq!(cancel_ready_up(&mut g, p1()), Ok(1_000));
    assert_eq!(g, before);
}

#[test]
fn cancel_ready_up_refuses_when_nobody_is_ready() {
    let mut g = joined();
    assert_eq!(cancel_ready_up(&mut g, p1()), Err(GameError::InvalidAction));
}

#[test]
fn cancel_ready_up_refuses_the_other_player() {
    let mut g = joined();
    ready_up(&mut g, p2(), 5).unwrap();
    let before = g;
    assert_eq!(cancel_ready_up(&mut g, p1()), Err(GameError::InvalidAction));
    assert_eq!(g, before);
    assert_eq!(cancel_ready_up(&mut g, p2()), Ok(1_000));
    assert!(!g.p2_ready);
}

#[test]
fn cancel_ready_up_refuses_outsiders_and_missing_player() {
    let mut g = initialize_game(p1(), 1, 10, 0);
    assert_eq!(cancel_ready_up(&mut g, p1()), Err(GameError::MissingPlayer));
    let mut g = joined();
    assert_eq!(cancel_ready_up(&mut g, outsider()), Err(GameError::Unauthorized));
    let mut g = active();
    assert_eq!(cancel_ready_up(&mut g, p1()), Err(GameError::InvalidAction));
}

#[test]
fn make_move_places_marks_and_alternates() {
    let mut g = active();
    assert_eq!(make_move(&mut g, p1(), 4, 300), Ok(None));
    assert_eq!(g.board, [0, 0, 0, 0, 1, 0, 0, 0, 0]);
    assert_eq!(g.turn, 2);
    assert_eq!(g.move_count, 1);
    assert_eq!(g.last_move_slot, 300);
    assert_eq!(make_move(&mut g, p2(), 0, 301), Ok(None));
    assert_eq!(g.board, [2, 0, 0, 0, 1, 0, 0, 0, 0]);
    assert_eq!(g.turn, 1);
    assert_eq!(g.move_count, 2);
}

#[test]
fn make_move_player_one_wins_a_row() {
    let mut g = active();
    // X: 3, 4, 5 (middle row); O: 0, 1
    assert_eq!(play(&mut g, &[3, 0, 4, 1, 5]), Ok(Some(RoundResult::Player1Won)));
    assert_eq!(g.status, GameStatus::BetweenRounds);
    assert_eq!(g.p1_score, 1);
    assert_eq!(g.p2_score, 0);
    assert_eq!(g.last_round_result, Some(RoundResult::Player1Won));
    assert_eq!(g.move_count, 5);
    assert_eq!(g.turn, 2);
}

#[test]
fn make_move_player_two_wins_a_diagonal() {
    let mut g = active();
    // X: 1, 3, 5; O: 2, 4, 6 (anti-diagonal)
    assert_eq!(play(&mut g, &[1, 2, 3, 4, 5, 6]), Ok(Some(RoundResult::Player2Won)));
    assert_eq!(g.p2_score, 1);
    assert_eq!(g.p1_score, 0);
    assert_eq!(g.status, GameStatus::BetweenRounds);
}

#[test]
fn make_move_full_board_is_a_draw() {
    let mut g = active();
    // X O X / X O O / O X X
    assert_eq!(play(&mut g, &[0, 1, 2, 4, 3, 5, 7, 6, 8]), Ok(Some(RoundResult::Draw)));
    assert_eq!(g.board, [1, 2, 1, 1, 2, 2, 2, 1, 1]);
    assert_eq!(g.p1_score, 0);
    assert_eq!(g.p2_score, 0);
    assert_eq!(g.status, GameStatus::BetweenRounds);
    assert_eq!(g.last_round_result, Some(RoundResult::Draw));
    assert_eq!(g.move_count, 9);
}

#[test]
fn make_move_win_on_the_last_cell_beats_the_draw() {
    let mut g = active();
    // X O X / O X O / O X X : the ninth mark completes the main diagonal
    assert_eq!(play(&mut g, &[0, 1, 2, 3, 4, 5, 7, 6, 8]), Ok(Some(RoundResult::Player1Won)));
}

#[test]
fn make_move_refuses_the_wrong_turn() {
    let mut g = active();
    let before = g;
    assert_eq!(make_move(&mut g, p2(), 0, 1), Err(GameError::PlayerWrongTurn));
    assert_eq!(g, before);
    make_move(&mut g, p1(), 0, 1).unwrap();
    assert_eq!(make_move(&mut g, p1(), 1, 2), Err(GameError::PlayerWrongTurn));
}

#[test]
fn make_move_refuses_taken_and_missing_cells() {
    let mut g = active();
    make_move(&mut g, p1(), 4, 1).unwrap();
    let before = g;
    assert_eq!(make_move(&mut g, p2(), 4, 2), Err(GameError::InvalidGameMove));
    assert_eq!(make_move(&mut g, p2(), 9, 2), Err(GameError::InvalidGameMove));
    assert_eq!(make_move(&mut g, p2(), 255, 2), Err(GameError::InvalidGameMove));
    assert_eq!(g, before);
}

#[test]
fn make_move_refuses_outside_a_round() {
    let mut g = joined();
    assert_eq!(make_move(&mut g, p1(), 0, 1), Err(GameError::InvalidAction));
    let mut g = initialize_game(p1(), 1, 1, 1);
    assert_eq!(make_move(&mut g, p1(), 0, 1), Err(GameError::MissingPlayer));
    let mut g = active();
    assert_eq!(make_move(&mut g, outsider(), 0, 1), Err(GameError::Unauthorized));
}

#[test]
fn check_move_reports_the_first_failing_check() {
    let g = active();
    assert_eq!(check_move(&g, p1(), 0), Ok(()));
    assert_eq!(check_move(&g, p2(), 0), Err(GameError::PlayerWrongTurn));
    assert_eq!(check_move(&g, outsider(), 20), Err(GameError::Unauthorized));
    assert_eq!(check_move(&g, p1(), 20), Err(GameError::InvalidGameMove));
}

#[test]
fn second_round_after_a_win() {
    let mut g = active();
    play(&mut g, &[3, 0, 4, 1, 5]).unwrap();
    ready_up(&mut g, p2(), 500).unwrap();
    ready_up(&mut g, p1(), 501).unwrap();
    assert_eq!(g.status, GameStatus::RoundActive);
    assert_eq!(g.round, 2);
    assert_eq!(g.board, [0u8; 9]);
    assert_eq!(g.turn, 1);
    assert_eq!(g.p1_score, 1);
    assert_eq!(g.last_move_slot, 501);
}

#[test]
fn claim_timeout_needs_more_than_the_timeout() {
    let mut g = active();
    make_move(&mut g, p1(), 4, 1_000).unwrap();
    let before = g;
    assert_eq!(claim_timeout(&mut g, p1(), 1_000 + TIMEOUT_SLOTS), Err(GameError::StaleState));
    assert_eq!(claim_timeout(&mut g, p1(), 999), Err(GameError::StaleState));
    assert_eq!(claim_timeout(&mut g, p1(), 1_100), Err(GameError::StaleState));
    assert_eq!(g, before);
    assert_eq!(claim_timeout(&mut g, p1(), 1_151), Ok(RoundResult::Player1Won));
    assert_eq!(g.p1_score, 1);
    assert_eq!(g.status, GameStatus::BetweenRounds);
    assert_eq!(g.last_round_result, Some(RoundResult::Player1Won));
}

#[test]
fn claim_timeout_goes_to_the_waiting_player() {
    // Player 1 is on turn at the start of a round, so player 2 is waiting.
    let mut g = active();
    let before = g;
    assert_eq!(claim_timeout(&mut g, p1(), 10_000), Err(GameError::InvalidAction));
    assert_eq!(g, before);
    assert_eq!(claim_timeout(&mut g, p2(), 10_000), Ok(RoundResult::Player2Won));
    assert_eq!(g.p2_score, 1);
    assert_eq!(g.p1_score, 0);
    assert_eq!(g.status, GameStatus::BetweenRounds);
}

#[test]
fn claim_timeout_refuses_the_player_on_turn() {
    let mut g = active();
    make_move(&mut g, p1(), 4, 1_000).unwrap();
    let before = g;
    assert_eq!(claim_timeout(&mut g, p2(), 5_000), Err(GameError::InvalidAction));
    assert_eq!(g, before);
}

#[test]
fn claim_timeout_refuses_an_outsider() {
    let mut g = active();
    let before = g;
    assert_eq!(claim_timeout(&mut g, outsider(), 10_000), Err(GameError::Unauthorized));
    assert_eq!(g, before);
}

#[test]
fn claim_timeout_refuses_outside_a_round() {
    let mut g = joined();
    let before = g;
    assert_eq!(claim_timeout(&mut g, p1(), u64::MAX), Err(GameError::StaleState));
    assert_eq!(g, before);
}

#[test]
fn terminate_game_between_rounds_splits_the_escrow() {
    let mut g = joined();
    ready_up(&mut g, p1(), 3).unwrap();
    assert_eq!(terminate_game(&mut g, p2(), 1_001), Ok((501, 500)));
    assert_eq!(g.status, GameStatus::Terminated);
    assert!(g.p1_ready);
    assert_eq!(terminate_game(&mut g, p1(), 0), Ok((0, 0)));
    assert_eq!(g.status, GameStatus::Terminated);
}

#[test]
fn terminate_game_refuses_an_outsider() {
    let mut g = joined();
    let before = g;
    assert_eq!(terminate_game(&mut g, outsider(), 500), Err(GameError::Unauthorized));
    assert_eq!(g, before);
    let mut g = initialize_game(p1(), 1, 1, 1);
    assert_eq!(terminate_game(&mut g, p2(), 0), Err(GameError::Unauthorized));
    assert_eq!(g.status, GameStatus::AwaitingPlayerToJoinGame);
}

#[test]
fn terminate_game_refuses_during_a_round() {
    let mut g = active();
    let before = g;
    assert_eq!(terminate_game(&mut g, p1(), 2_000), Err(GameError::StaleState));
    assert_eq!(terminate_game(&mut g, outsider(), 2_000), Err(GameError::StaleState));
    assert_eq!(g, before);
}

#[test]
fn terminate_game_before_player_two_joins_returns_all_to_player_one() {
    let mut g = initialize_game(p1(), 1, 1, 1);
    assert_eq!(terminate_game(&mut g, p1(), 7), Ok((7, 0)));
    assert_eq!(g.status, GameStatus::Terminated);
    assert_eq!(join_game(&mut g, p2()), Err(GameError::StaleState));
}

#[test]
fn terminated_game_refuses_every_other_action() {
    let mut g = joined();
    terminate_game(&mut g, p1(), 0).unwrap();
    let before = g;
    assert_eq!(join_game(&mut g, outsider()), Err(GameError::StaleState));
    assert_eq!(ready_up(&mut g, p1(), 1), Err(GameError::InvalidAction));
    assert_eq!(cancel_ready_up(&mut g, p1()), Err(GameError::InvalidAction));
    assert_eq!(make_move(&mut g, p1(), 0, 1), Err(GameError::InvalidAction));
    assert_eq!(claim_timeout(&mut g, p1(), u64::MAX), Err(GameError::StaleState));
    assert_eq!(g, before);
}
