use vstd::prelude::*;

use crate::board::{
    count_marked, has_line_through, is_full, lemma_count_marked_bounds,
    lemma_count_marked_update, line_filled, on_line, EMPTY,
};
use crate::key::Key;
use crate::state::{
    board_result, empty_board, next_turn, round_in_progress, GameError, GameState,
    GameStatus, RoundResult, PLAYER1_MARK, PLAYER2_MARK,
};

verus! {

/// How many slots may pass after the last move before the waiting player
/// may claim the round.
pub const TIMEOUT_SLOTS: u64 = 150;

/// A new game created by `player1`, with the given id, stake per round and
/// account bump; every other field starts at zero, `false` or `None`.
///
/// Status: _ -> AwaitingPlayerToJoinGame
pub fn initialize_game(player1: Key, game_id: u64, wager: u64, bump: u8) -> (game: GameState)
    ensures
        game.board@ == empty_board(),
        game == (GameState {
            player1,
            player2: None,
            p1_score: 0,
            p2_score: 0,
            status: GameStatus::AwaitingPlayerToJoinGame,
            game_id,
            wager_per_round: wager,
            round: 0,
            bump,
            p1_ready: false,
            p2_ready: false,
            board: game.board,
            turn: 0,
            move_count: 0,
            last_move_slot: 0,
            last_round_result: None,
        }),
        game.well_formed(),
{
    let game = GameState {
        player1,
        player2: None,
        p1_score: 0,
        p2_score: 0,
        status: GameStatus::AwaitingPlayerToJoinGame,
        game_id,
        wager_per_round: wager,
        round: 0,
        bump,
        p1_ready: false,
        p2_ready: false,
        board: [EMPTY; 9],
        turn: 0,
        move_count: 0,
        last_move_slot: 0,
        last_round_result: None,
    };
    assert(game.board@ =~= empty_board());
    game
}

/// Why `join_game` refuses `signer`, if it does.
pub open spec fn join_error(game: GameState, signer: Key) -> Option<GameError> {
    if signer@ == game.player1@ {
        Some(GameError::InvalidAction)
    } else if game.status != GameStatus::AwaitingPlayerToJoinGame {
        Some(GameError::StaleState)
    } else {
        None
    }
}

/// Called by player 2 to join the game.
///
/// Status: AwaitingPlayerToJoinGame -> BetweenRounds
pub fn join_game(game: &mut GameState, signer: Key) -> (r: Result<(), GameError>)
    ensures
        match join_error(*old(game), signer) {
            Some(e) => r == Err::<(), GameError>(e) && *final(game) == *old(game),
            None => r == Ok::<(), GameError>(()) && *final(game) == (GameState {
                player2: Some(signer),
                status: GameStatus::BetweenRounds,
                ..*old(game)
            }),
        },
        r is Ok ==> old(game).status == GameStatus::AwaitingPlayerToJoinGame,
        old(game).status != GameStatus::AwaitingPlayerToJoinGame ==> r is Err && *final(game)
            == *old(game),
        old(game).well_formed() ==> final(game).well_formed(),
{
    if signer == game.player1 {
        return Err(GameError::InvalidAction);
    }
    if game.status != GameStatus::AwaitingPlayerToJoinGame {
        return Err(GameError::StaleState);
    }
    game.player2 = Some(signer);
    game.status = GameStatus::BetweenRounds;
    Ok(())
}

/// Whether `signer` gets past the checks of `ready_up` and `cancel_ready_up`
/// that come before the ready signals are read.
pub open spec fn ready_checks_pass(game: GameState, signer: Key) -> bool {
    &&& game.player2 is Some
    &&& game.is_player(signer)
    &&& game.status == GameStatus::BetweenRounds
}

/// Why `ready_up` refuses `signer`, if it does: player 2 must have joined,
/// the signer must be a player, the game must be between rounds, and a
/// player who is already ready may not ready up again.
pub open spec fn ready_up_error(game: GameState, signer: Key) -> Option<GameError> {
    match game.player2 {
        None => Some(GameError::MissingPlayer),
        Some(p2) => if !game.is_player(signer) {
            Some(GameError::Unauthorized)
        } else if game.status != GameStatus::BetweenRounds {
            Some(GameError::InvalidAction)
        } else if game.p1_ready && !game.p2_ready && signer@ != p2@ {
            Some(GameError::InvalidAction)
        } else if !game.p1_ready && game.p2_ready && signer@ != game.player1@ {
            Some(GameError::InvalidAction)
        } else {
            None
        },
    }
}

/// The state once `signer` has signalled readiness while neither player was
/// ready: player 1's signal if player 1 signs, else player 2's.
pub open spec fn readied(game: GameState, signer: Key) -> GameState {
    if signer@ == game.player1@ {
        GameState { p1_ready: true, ..game }
    } else {
        GameState { p2_ready: true, ..game }
    }
}

/// The state once a ready signal has been withdrawn: neither player is ready.
pub open spec fn unreadied(game: GameState) -> GameState {
    GameState { p1_ready: false, p2_ready: false, ..game }
}

/// A player signals they are ready to play, paying the stake of the round
/// into escrow. When the second player readies up the round starts at
/// `slot`. On success the result is the number of lamports that the signer
/// pays into escrow: the stake per round.
///
/// Status: BetweenRounds -> BetweenRounds | RoundActive
pub fn ready_up(game: &mut GameState, signer: Key, slot: u64) -> (r: Result<u64, GameError>)
    requires
        ready_checks_pass(*old(game), signer) ==> !(old(game).p1_ready && old(game).p2_ready),
    ensures
        match ready_up_error(*old(game), signer) {
            Some(e) => r == Err::<u64, GameError>(e) && *final(game) == *old(game),
            None => {
                &&& r == Ok::<u64, GameError>(old(game).wager_per_round)
                &&& if !old(game).p1_ready && !old(game).p2_ready {
                    *final(game) == readied(*old(game), signer)
                } else {
                    (GameState { p1_ready: true, p2_ready: true, ..*old(game) }).started(
                        *final(game),
                        slot,
                    )
                }
            },
        },
        r is Ok ==> old(game).status == GameStatus::BetweenRounds && old(game).player2 is Some
            && old(game).is_player(signer),
        old(game).player2 is Some && old(game).is_player(signer) && old(game).status
            == GameStatus::BetweenRounds && old(game).p1_ready && !old(game).p2_ready && !(old(
            game,
        ).player2 matches Some(p2) && signer@ == p2@) ==> r == Err::<u64, GameError>(
            GameError::InvalidAction,
        ) && *final(game) == *old(game),
        old(game).player2 is Some && old(game).is_player(signer) && old(game).status
            == GameStatus::BetweenRounds && !old(game).p1_ready && old(game).p2_ready && signer@
            != old(game).player1@ ==> r == Err::<u64, GameError>(GameError::InvalidAction)
            && *final(game) == *old(game),
        r is Ok && final(game).status == GameStatus::RoundActive ==> (old(game).p1_ready
            && !old(game).p2_ready && (old(game).player2 matches Some(p2) && signer@ == p2@)) || (
        !old(game).p1_ready && old(game).p2_ready && signer@ == old(game).player1@),
        r is Ok && final(game).status != GameStatus::RoundActive ==> !old(game).p1_ready
            && !old(game).p2_ready,
        old(game).well_formed() ==> final(game).well_formed(),
{
    let player_1 = game.player1;
    let player_2 = match game.player2 {
        Some(p2) => p2,
        None => {
            return Err(GameError::MissingPlayer);
        },
    };
    let wager = game.wager_per_round;
    if !(signer == player_1 || signer == player_2) {
        return Err(GameError::Unauthorized);
    }
    if game.status != GameStatus::BetweenRounds {
        return Err(GameError::InvalidAction);
    }
    if !game.p1_ready && !game.p2_ready {
        if signer == player_1 {
            game.p1_ready = true;
        } else {
            game.p2_ready = true;
        }
    } else if game.p1_ready {
        if !(signer == player_2) {
            return Err(GameError::InvalidAction);
        }
        game.p2_ready = true;
        let started = game.start_round(slot);
        assert(started is Ok);
    } else {
        if !(signer == player_1) {
            return Err(GameError::InvalidAction);
        }
        game.p1_ready = true;
        let started = game.start_round(slot);
        assert(started is Ok);
    }
    proof {
        if game.status == GameStatus::RoundActive {
            lemma_empty_board_round();
        }
    }
    Ok(wager)
}

/// Why `cancel_ready_up` refuses `signer`, if it does: player 2 must have
/// joined, the signer must be a player, the game must be between rounds, and
/// the signer must be the one player who is ready.
pub open spec fn cancel_ready_up_error(game: GameState, signer: Key) -> Option<GameError> {
    match game.player2 {
        None => Some(GameError::MissingPlayer),
        Some(p2) => if !game.is_player(signer) {
            Some(GameError::Unauthorized)
        } else if game.status != GameStatus::BetweenRounds {
            Some(GameError::InvalidAction)
        } else if !game.p1_ready && !game.p2_ready {
            Some(GameError::InvalidAction)
        } else if game.p1_ready && !game.p2_ready && signer@ != game.player1@ {
            Some(GameError::InvalidAction)
        } else if !game.p1_ready && game.p2_ready && signer@ != p2@ {
            Some(GameError::InvalidAction)
        } else {
            None
        },
    }
}

/// A player cancels their ready-up signal, getting back their stake from
/// escrow. On success the result is the number of lamports refunded from
/// escrow to the signer: the stake per round.
///
/// Status: BetweenRounds -> BetweenRounds
pub fn cancel_ready_up(game: &mut GameState, signer: Key) -> (r: Result<u64, GameError>)
    requires
        ready_checks_pass(*old(game), signer) ==> !(old(game).p1_ready && old(game).p2_ready),
    ensures
        match cancel_ready_up_error(*old(game), signer) {
            Some(e) => r == Err::<u64, GameError>(e) && *final(game) == *old(game),
            None => {
                &&& r == Ok::<u64, GameError>(old(game).wager_per_round)
                &&& *final(game) == unreadied(*old(game))
            },
        },
        r is Ok ==> (signer@ == old(game).player1@ && old(game).p1_ready && !old(game).p2_ready)
            || (old(game).player2 matches Some(p2) && signer@ == p2@ && old(game).p2_ready
            && !old(game).p1_ready),
        r is Ok ==> !final(game).p1_ready && !final(game).p2_ready,
        old(game).well_formed() ==> final(game).well_formed(),
{
    let player_1 = game.player1;
    let player_2 = match game.player2 {
        Some(p2) => p2,
        None => {
            return Err(GameError::MissingPlayer);
        },
    };
    let wager = game.wager_per_round;
    if !(signer == player_1 || signer == player_2) {
        return Err(GameError::Unauthorized);
    }
    if game.status != GameStatus::BetweenRounds {
        return Err(GameError::InvalidAction);
    }
    if !game.p1_ready && !game.p2_ready {
        return Err(GameError::InvalidAction);
    } else if game.p1_ready {
        if !(signer == player_1) {
            return Err(GameError::InvalidAction);
        }
        game.p1_ready = false;
    } else {
        if !(signer == player_2) {
            return Err(GameError::InvalidAction);
        }
        game.p2_ready = false;
    }
    Ok(wager)
}

/// Whether `signer` gets past the checks of `make_move` that come before
/// the turn is read.
pub open spec fn move_checks_pass(game: GameState, signer: Key) -> bool {
    &&& game.player2 is Some
    &&& game.is_player(signer)
    &&& game.status == GameStatus::RoundActive
}

/// Why `make_move` refuses `signer`'s move on `cell`, if it does: player 2
/// must have joined, the signer must be a player, a round must be active,
/// it must be the signer's turn, and `cell` must be an empty cell.
pub open spec fn move_error(game: GameState, signer: Key, cell: u8) -> Option<GameError> {
    match game.player2 {
        None => Some(GameError::MissingPlayer),
        Some(p2) => if !game.is_player(signer) {
            Some(GameError::Unauthorized)
        } else if game.status != GameStatus::RoundActive {
            Some(GameError::InvalidAction)
        } else if game.turn == PLAYER1_MARK && signer@ != game.player1@ {
            Some(GameError::PlayerWrongTurn)
        } else if game.turn != PLAYER1_MARK && signer@ != p2@ {
            Some(GameError::PlayerWrongTurn)
        } else if !(cell < 9 && game.board@[cell as int] == EMPTY) {
            Some(GameError::InvalidGameMove)
        } else {
            None
        },
    }
}

/// Checks that `signer` may place a mark on `cell`: player 2 has joined, the
/// signer is a player, a round is active, it is the signer's turn, and
/// `cell` is an empty cell (0 to 8).
pub fn check_move(game: &GameState, signer: Key, cell: u8) -> (r: Result<(), GameError>)
    requires
        move_checks_pass(*game, signer) ==> (game.turn == PLAYER1_MARK || game.turn
            == PLAYER2_MARK),
    ensures
        r == match move_error(*game, signer, cell) {
            Some(e) => Err::<(), GameError>(e),
            None => Ok(()),
        },
{
    let player_1 = game.player1;
    let player_2 = match game.player2 {
        Some(p2) => p2,
        None => {
            return Err(GameError::MissingPlayer);
        },
    };
    if !(signer == player_1 || signer == player_2) {
        return Err(GameError::Unauthorized);
    }
    if game.status != GameStatus::RoundActive {
        return Err(GameError::InvalidAction);
    }
    // Check that it is the signer's turn.
    if game.turn == PLAYER1_MARK {
        if !(signer == player_1) {
            return Err(GameError::PlayerWrongTurn);
        }
    } else {
        if !(signer == player_2) {
            return Err(GameError::PlayerWrongTurn);
        }
    }
    // Check that the cell exists and is free.
    if !(cell < 9 && game.board[cell as usize] == EMPTY) {
        return Err(GameError::InvalidGameMove);
    }
    Ok(())
}

/// The state after the mover's mark was placed on `cell`, before the round
/// result is applied: one more move, the other player's turn, and `slot` as
/// the time of the last move.
pub open spec fn moved(game: GameState, board: [u8; 9], slot: u64) -> GameState {
    GameState {
        board,
        move_count: (game.move_count + 1) as u8,
        last_move_slot: slot,
        turn: next_turn(game.turn),
        ..game
    }
}

/// Either player makes a move on the game board at `slot`. Validates the
/// turn, places the mover's mark on `cell` (0 to 8), checks for a completed
/// line or a draw, and ends the round if it is decided. On success the
/// result is how the round ended, if it did; on a win the mover receives the
/// whole escrow (see `round_payout`), on a draw it stays for the next round.
///
/// Status: RoundActive -> RoundActive | BetweenRounds
pub fn make_move(game: &mut GameState, signer: Key, cell: u8, slot: u64) -> (r: Result<
    Option<RoundResult>,
    GameError,
>)
    requires
        move_checks_pass(*old(game), signer) ==> (old(game).turn == PLAYER1_MARK || old(
            game,
        ).turn == PLAYER2_MARK),
        move_error(*old(game), signer, cell) is None ==> old(game).move_count < u8::MAX,
    ensures
        match move_error(*old(game), signer, cell) {
            Some(e) => r == Err::<Option<RoundResult>, GameError>(e) && *final(game) == *old(game),
            None => {
                let placed = old(game).board@.update(cell as int, old(game).turn);
                let outcome = board_result(placed, cell as int, old(game).turn);
                let after_move = moved(*old(game), final(game).board, slot);
                &&& r == Ok::<Option<RoundResult>, GameError>(outcome)
                &&& final(game).board@ == placed
                &&& *final(game) == match outcome {
                    Some(result) => after_move.ended(result),
                    None => after_move,
                }
            },
        },
        old(game).well_formed() ==> final(game).well_formed(),
{
    match check_move(game, signer, cell) {
        Ok(()) => {},
        Err(e) => {
            return Err(e);
        },
    }
    let ghost before = *game;
    let turn = game.turn;
    game.apply_move(cell, turn);
    let round_result = game.check_board(cell, game.turn);
    game.move_count = game.move_count + 1;
    game.last_move_slot = slot;
    game.turn = if game.turn == PLAYER1_MARK {
        PLAYER2_MARK
    } else {
        PLAYER1_MARK
    };
    proof {
        if before.well_formed() && round_result is None {
            lemma_move_keeps_round(before.board@, before.move_count, before.turn, cell as int);
        }
    }
    if let Some(result) = round_result {
        match game.end_round(result) {
            Ok(()) => {},
            Err(e) => {
                return Err(e);
            },
        }
    }
    Ok(round_result)
}

/// Whether more than `TIMEOUT_SLOTS` slots separate `current_slot` from the
/// game's last move.
pub open spec fn timed_out(game: GameState, current_slot: u64) -> bool {
    current_slot > game.last_move_slot + TIMEOUT_SLOTS
}

/// Whether `signer` is the player waiting for the other to move: player 2
/// while player 1 is on turn, player 1 while player 2 is on turn.
pub open spec fn is_waiting_player(game: GameState, signer: Key) -> bool {
    if game.turn == PLAYER1_MARK {
        game.player2 matches Some(p2) && signer@ == p2@
    } else {
        signer@ == game.player1@
    }
}

/// The result of a round claimed on timeout: a win for the waiting player,
/// whose opponent let the time run out.
pub open spec fn claimed_result(game: GameState) -> RoundResult {
    if game.turn == PLAYER1_MARK {
        RoundResult::Player2Won
    } else {
        RoundResult::Player1Won
    }
}

/// Why `claim_timeout` refuses `signer` at `current_slot`, if it does: more
/// than `TIMEOUT_SLOTS` slots must have passed since the last move, a round
/// must be active, the signer must be a player, and it must be the player
/// waiting for the other's move.
pub open spec fn claim_error(game: GameState, signer: Key, current_slot: u64) -> Option<
    GameError,
> {
    if !timed_out(game, current_slot) {
        Some(GameError::StaleState)
    } else if game.status != GameStatus::RoundActive {
        Some(GameError::StaleState)
    } else if !game.is_player(signer) {
        Some(GameError::Unauthorized)
    } else if !is_waiting_player(game, signer) {
        Some(GameError::InvalidAction)
    } else {
        None
    }
}

/// The waiting player claims the active round as won once more than
/// `TIMEOUT_SLOTS` slots have passed since the last move, at
/// `current_slot`, and receives the whole escrow (see `round_payout`). The
/// player on turn, who let the time run out, and anyone who is not a player
/// are refused. On success the result is how the round ended.
///
/// Status: RoundActive -> BetweenRounds
pub fn claim_timeout(game: &mut GameState, signer: Key, current_slot: u64) -> (r: Result<
    RoundResult,
    GameError,
>)
    ensures
        match claim_error(*old(game), signer, current_slot) {
            Some(e) => r == Err::<RoundResult, GameError>(e) && *final(game) == *old(game),
            None => {
                &&& r == Ok::<RoundResult, GameError>(claimed_result(*old(game)))
                &&& *final(game) == old(game).ended(claimed_result(*old(game)))
            },
        },
        old(game).well_formed() ==> final(game).well_formed(),
{
    let elapsed = match current_slot.checked_sub(game.last_move_slot) {
        Some(d) => d,
        None => {
            return Err(GameError::StaleState);
        },
    };
    if !(elapsed > TIMEOUT_SLOTS) {
        return Err(GameError::StaleState);
    }
    if game.status != GameStatus::RoundActive {
        return Err(GameError::StaleState);
    }
    let is_player2 = match game.player2 {
        Some(p2) => signer == p2,
        None => false,
    };
    if !(signer == game.player1 || is_player2) {
        return Err(GameError::Unauthorized);
    }
    // The round goes to the player waiting for the opponent who timed out.
    let result = if game.turn == PLAYER1_MARK {
        if !is_player2 {
            return Err(GameError::InvalidAction);
        }
        RoundResult::Player2Won
    } else {
        if !(signer == game.player1) {
            return Err(GameError::InvalidAction);
        }
        RoundResult::Player1Won
    };
    match game.end_round(result) {
        Ok(()) => {},
        Err(e) => {
            return Err(e);
        },
    }
    Ok(result)
}

/// How `escrow` lamports are returned when `game` ends: split between the
/// two players as `split_escrow` says, or all to player 1 while nobody has
/// joined. The result is `(player 1's share, player 2's share)`.
pub open spec fn termination_shares(game: GameState, escrow: u64) -> (u64, u64) {
    if game.player2 is Some {
        ((escrow / 2 + escrow % 2) as u64, (escrow / 2) as u64)
    } else {
        (escrow, 0)
    }
}

/// This is called unilaterally whenever one of the players, `signer`, wants
/// to end the game. Cannot be called while a round is active; outside a
/// round anyone but a player is refused. It marks the game as over, and the
/// `escrow` lamports held for it are returned 50/50 to the players (see
/// `split_escrow`). On success the result is
/// `(player 1's share, player 2's share)` of the escrow.
///
/// Status: BetweenRounds | AwaitingPlayerToJoinGame | Terminated -> Terminated
pub fn terminate_game(game: &mut GameState, signer: Key, escrow: u64) -> (r: Result<
    (u64, u64),
    GameError,
>)
    ensures
        if old(game).status == GameStatus::RoundActive {
            r == Err::<(u64, u64), GameError>(GameError::StaleState) && *final(game) == *old(game)
        } else if !old(game).is_player(signer) {
            r == Err::<(u64, u64), GameError>(GameError::Unauthorized) && *final(game) == *old(
                game,
            )
        } else {
            &&& r == Ok::<(u64, u64), GameError>(termination_shares(*old(game), escrow))
            &&& *final(game) == (GameState { status: GameStatus::Terminated, ..*old(game) })
        },
        r matches Ok(shares) ==> shares.0 + shares.1 == escrow,
        r matches Ok(shares) ==> (old(game).player2 is Some ==> shares.0 == escrow / 2 + escrow
            % 2 && shares.1 == escrow / 2),
        r matches Ok(shares) ==> (old(game).player2 is None ==> shares.0 == escrow && shares.1
            == 0),
        old(game).well_formed() ==> final(game).well_formed(),
{
    if game.status == GameStatus::RoundActive {
        return Err(GameError::StaleState);
    }
    let is_player2 = match game.player2 {
        Some(p2) => signer == p2,
        None => false,
    };
    if !(signer == game.player1 || is_player2) {
        return Err(GameError::Unauthorized);
    }
    game.status = GameStatus::Terminated;
    if game.player2.is_some() {
        Ok(split_escrow(escrow))
    } else {
        Ok((escrow, 0))
    }
}

/// How an escrow of `escrow` lamports is returned when the game ends: half
/// to each player, the odd lamport to player 1. The result is
/// `(player 1's share, player 2's share)`.
pub fn split_escrow(escrow: u64) -> (shares: (u64, u64))
    ensures
        shares.0 == escrow / 2 + escrow % 2,
        shares.1 == escrow / 2,
        shares.0 + shares.1 == escrow,
{
    let each = escrow / 2;
    let remainder = escrow % 2;
    (each + remainder, each)
}

/// The lamports held in escrow by an account holding `lamports`, of which
/// `min_rent` must stay for the account to remain rent-exempt: the excess,
/// or nothing.
pub fn escrow_balance(lamports: u64, min_rent: u64) -> (escrow: u64)
    ensures
        escrow == if lamports > min_rent {
            lamports - min_rent
        } else {
            0
        },
{
    lamports.saturating_sub(min_rent)
}

/// What the signer of a move or claim receives when a round ends with
/// `result` while `escrow` lamports are in escrow: all of it on a win,
/// nothing on a draw (the stakes then stay for the next round).
pub fn round_payout(result: RoundResult, escrow: u64) -> (payout: u64)
    ensures
        payout == if result == RoundResult::Draw {
            0
        } else {
            escrow
        },
{
    match result {
        RoundResult::Draw => 0,
        _ => escrow,
    }
}

/// An empty board satisfies the round invariant for the opening move.
proof fn lemma_empty_board_round()
    ensures
        round_in_progress(empty_board(), 0, PLAYER1_MARK),
{
    let b = empty_board();
    assert(count_marked(b) == 0) by {
        lemma_count_marked_bounds(b);
        lemma_count_zero(b);
    }
    assert(!is_full(b)) by {
        assert(b[0] == EMPTY);
    }
    assert forall|k: int| 0 <= k < 8 implies !#[trigger] line_filled(b, k, PLAYER1_MARK) by {
        let (x, y, z) = crate::board::line_cells(k);
        assert(b[x] == EMPTY);
    }
    assert forall|k: int| 0 <= k < 8 implies !#[trigger] line_filled(b, k, PLAYER2_MARK) by {
        let (x, y, z) = crate::board::line_cells(k);
        assert(b[x] == EMPTY);
    }
}

/// A board with no marks has a count of zero.
proof fn lemma_count_zero(b: Seq<u8>)
    requires
        forall|i: int| 0 <= i < b.len() ==> #[trigger] b[i] == EMPTY,
    ensures
        count_marked(b) == 0,
    decreases b.len(),
{
    if b.len() > 0 {
        let init = b.drop_last();
        assert forall|i: int| 0 <= i < init.len() implies #[trigger] init[i] == EMPTY by {
            assert(init[i] == b[i]);
        }
        lemma_count_zero(init);
    }
}

/// A move that decides nothing keeps the round invariant, with one more
/// move and the other player to move.
proof fn lemma_move_keeps_round(board: Seq<u8>, move_count: u8, turn: u8, cell: int)
    requires
        board.len() == 9,
        round_in_progress(board, move_count, turn),
        0 <= cell < 9,
        board[cell] == EMPTY,
        board_result(board.update(cell, turn), cell, turn) is None,
    ensures
        move_count + 1 < 256,
        round_in_progress(board.update(cell, turn), (move_count + 1) as u8, next_turn(turn)),
{
    let placed = board.update(cell, turn);
    lemma_count_marked_update(board, cell, turn);
    lemma_count_marked_bounds(placed);
    let other = next_turn(turn);
    assert forall|k: int| 0 <= k < 8 implies !#[trigger] line_filled(placed, k, turn) by {
        if line_filled(placed, k, turn) {
            if on_line(k, cell) {
                assert(has_line_through(placed, turn, cell));
            } else {
                assert(line_filled(board, k, turn));
            }
        }
    }
    assert forall|k: int| 0 <= k < 8 implies !#[trigger] line_filled(placed, k, other) by {
        if line_filled(placed, k, other) {
            if on_line(k, cell) {
                assert(placed[cell] == turn);
            } else {
                assert(line_filled(board, k, other));
            }
        }
    }
}

} // verus!
