use vstd::prelude::*;

use crate::board::{has_line, has_line_through, line_filled, on_line, EMPTY};
use crate::key::Key;
use crate::program::{
    termination_shares, cancel_ready_up_error, join_error, move_checks_pass, move_error, ready_checks_pass,
    ready_up_error, readied, unreadied, claim_error, claimed_result,
};
use crate::state::{
    GameError, board_result, next_turn, round_in_progress, GameState, GameStatus, RoundResult, PLAYER1_MARK,
    PLAYER2_MARK,
};

verus! {

/// In every well-formed state the actions never reach a point where they
/// would panic: when `ready_up` or `cancel_ready_up` read the ready signals
/// the two players are not both ready, when `make_move` reads the turn it is
/// player 1's or player 2's, and an accepted move never overflows the move
/// counter.
pub proof fn lemma_well_formed_never_panics(game: GameState, signer: Key, cell: u8)
    requires
        game.well_formed(),
    ensures
        ready_checks_pass(game, signer) ==> !(game.p1_ready && game.p2_ready),
        move_checks_pass(game, signer) ==> (game.turn == PLAYER1_MARK || game.turn
            == PLAYER2_MARK),
        move_error(game, signer, cell) is None ==> game.move_count < u8::MAX,
{
    if game.status == GameStatus::RoundActive {
        crate::board::lemma_count_marked_bounds(game.board@);
    }
}

/// The winner of a round decided by a move is always the player who made it.
pub proof fn lemma_winner_is_mover(game: GameState, signer: Key, cell: u8)
    requires
        game.well_formed(),
        move_error(game, signer, cell) is None,
    ensures
        board_result(game.board@.update(cell as int, game.turn), cell as int, game.turn)
            == Some(RoundResult::Player1Won) ==> signer@ == game.player1@,
        board_result(game.board@.update(cell as int, game.turn), cell as int, game.turn)
            == Some(RoundResult::Player2Won) ==> (game.player2 matches Some(p2) && signer@
            == p2@),
{
}

/// Withdrawing a ready signal undoes it: when neither player was ready and
/// `signer` readies up, the same signer may cancel, gets back the stake that
/// was paid, and the game is as it was before.
pub proof fn lemma_cancel_undoes_ready(game: GameState, signer: Key)
    requires
        game.well_formed(),
        ready_up_error(game, signer) is None,
        !game.p1_ready,
        !game.p2_ready,
    ensures
        cancel_ready_up_error(readied(game, signer), signer) is None,
        unreadied(readied(game, signer)) == game,
        readied(game, signer).wager_per_round == game.wager_per_round,
{
}

/// Checking only the lines through the cell just played finds every win:
/// during a round no line is complete, so after a move a line of the mover's
/// mark exists exactly when one passes through the cell played.
pub proof fn lemma_win_detected(board: Seq<u8>, move_count: u8, turn: u8, cell: int)
    requires
        board.len() == 9,
        round_in_progress(board, move_count, turn),
        0 <= cell < 9,
        board[cell] == EMPTY,
    ensures
        has_line_through(board.update(cell, turn), turn, cell) <==> has_line(
            board.update(cell, turn),
            turn,
        ),
{
    let placed = board.update(cell, turn);
    if has_line(placed, turn) {
        let k = choose|k: int| 0 <= k < 8 && #[trigger] line_filled(placed, k, turn);
        if !on_line(k, cell) {
            assert(line_filled(board, k, turn));
        }
    }
}

/// While a round is active no line is complete and the board has a free
/// cell, so the round is always still open.
pub proof fn lemma_active_round_undecided(game: GameState)
    requires
        game.well_formed(),
        game.status == GameStatus::RoundActive,
    ensures
        !has_line(game.board@, PLAYER1_MARK),
        !has_line(game.board@, PLAYER2_MARK),
        !crate::board::is_full(game.board@),
        game.move_count < 9,
{
    crate::board::lemma_count_marked_bounds(game.board@);
}

/// A terminated game stays terminated: joining, readying up, cancelling and
/// moving are all refused, and a timeout cannot be claimed since no round is
/// active.
pub proof fn lemma_terminated_is_final(game: GameState, signer: Key, cell: u8, slot: u64)
    requires
        game.status == GameStatus::Terminated,
    ensures
        join_error(game, signer) is Some,
        ready_up_error(game, signer) is Some,
        cancel_ready_up_error(game, signer) is Some,
        move_error(game, signer, cell) is Some,
        claim_error(game, signer, slot) is Some,
{
}

/// A round claimed on timeout goes to the player who was waiting: player 1
/// wins only on player 1's claim while player 2 was on turn, and player 2
/// wins only on player 2's claim while player 1 was on turn. A player whose
/// turn it is, or anyone who is not a player, never wins a round this way.
pub proof fn lemma_timeout_goes_to_waiting_player(game: GameState, signer: Key, slot: u64)
    requires
        game.well_formed(),
        claim_error(game, signer, slot) is None,
    ensures
        game.is_player(signer),
        claimed_result(game) == RoundResult::Player1Won ==> signer@ == game.player1@
            && game.turn == PLAYER2_MARK,
        claimed_result(game) == RoundResult::Player2Won ==> (game.player2 matches Some(p2)
            && signer@ == p2@) && game.turn == PLAYER1_MARK,
{
}

/// An accepted move changes exactly one cell, an empty one, to the mover's
/// mark: marks already on the board stay, every cell still holds 0, 1 or 2,
/// and the turn passes to player 1 or player 2. This needs only that, while
/// a round is active, the turn is 1 or 2 and every cell holds 0, 1 or 2.
pub proof fn lemma_move_changes_one_empty_cell(game: GameState, signer: Key, cell: u8)
    requires
        game.status == GameStatus::RoundActive ==> (game.turn == PLAYER1_MARK || game.turn
            == PLAYER2_MARK) && (forall|i: int| 0 <= i < 9 ==> #[trigger] game.board@[i]
            <= PLAYER2_MARK),
        move_error(game, signer, cell) is None,
    ensures
        cell < 9,
        game.board@[cell as int] == EMPTY,
        forall|i: int|
            0 <= i < 9 ==> #[trigger] game.board@.update(cell as int, game.turn)[i]
                <= PLAYER2_MARK,
        forall|i: int|
            0 <= i < 9 && i != cell ==> #[trigger] game.board@.update(cell as int, game.turn)[i]
                == game.board@[i],
        game.board@.update(cell as int, game.turn)[cell as int] == game.turn,
        game.turn != EMPTY,
        next_turn(game.turn) == PLAYER1_MARK || next_turn(game.turn) == PLAYER2_MARK,
{
}

/// Whether `cell` is one of the cells `a`, `b`, `c` and all three hold `mark`.
pub open spec fn through_filled(board: Seq<u8>, mark: u8, cell: int, a: int, b: int, c: int) -> bool {
    &&& cell == a || cell == b || cell == c
    &&& board[a] == mark && board[b] == mark && board[c] == mark
}

/// Whether `mark` fills one of the eight lines of tic-tac-toe (the rows
/// 0-1-2, 3-4-5, 6-7-8, the columns 0-3-6, 1-4-7, 2-5-8 and the diagonals
/// 0-4-8, 2-4-6) that passes through `cell`.
pub open spec fn completes_a_line(board: Seq<u8>, mark: u8, cell: int) -> bool {
    ||| through_filled(board, mark, cell, 0, 1, 2)
    ||| through_filled(board, mark, cell, 3, 4, 5)
    ||| through_filled(board, mark, cell, 6, 7, 8)
    ||| through_filled(board, mark, cell, 0, 3, 6)
    ||| through_filled(board, mark, cell, 1, 4, 7)
    ||| through_filled(board, mark, cell, 2, 5, 8)
    ||| through_filled(board, mark, cell, 0, 4, 8)
    ||| through_filled(board, mark, cell, 2, 4, 6)
}

/// How a round stands after a mark, read off the rules of tic-tac-toe: the
/// player who placed `mark` on `cell` wins exactly when the mark completes
/// one of the eight lines through `cell` (player 1 for mark 1, player 2
/// otherwise); otherwise the round is drawn exactly when no cell is empty;
/// otherwise it goes on.
pub proof fn lemma_round_result_follows_the_lines(board: Seq<u8>, mark: u8, cell: int)
    requires
        board.len() == 9,
        0 <= cell < 9,
    ensures
        completes_a_line(board, mark, cell) ==> board_result(board, cell, mark) == Some(
            if mark == PLAYER1_MARK {
                RoundResult::Player1Won
            } else {
                RoundResult::Player2Won
            },
        ),
        !completes_a_line(board, mark, cell) && (forall|i: int| 0 <= i < 9 ==> board[i] != EMPTY)
            ==> board_result(board, cell, mark) == Some(RoundResult::Draw),
        !completes_a_line(board, mark, cell) && (exists|i: int| 0 <= i < 9 && board[i] == EMPTY)
            ==> board_result(board, cell, mark) is None,
{
    if completes_a_line(board, mark, cell) {
        if through_filled(board, mark, cell, 0, 1, 2) {
            assert(on_line(0, cell) && line_filled(board, 0, mark));
        }
        if through_filled(board, mark, cell, 3, 4, 5) {
            assert(on_line(1, cell) && line_filled(board, 1, mark));
        }
        if through_filled(board, mark, cell, 6, 7, 8) {
            assert(on_line(2, cell) && line_filled(board, 2, mark));
        }
        if through_filled(board, mark, cell, 0, 3, 6) {
            assert(on_line(3, cell) && line_filled(board, 3, mark));
        }
        if through_filled(board, mark, cell, 1, 4, 7) {
            assert(on_line(4, cell) && line_filled(board, 4, mark));
        }
        if through_filled(board, mark, cell, 2, 5, 8) {
            assert(on_line(5, cell) && line_filled(board, 5, mark));
        }
        if through_filled(board, mark, cell, 0, 4, 8) {
            assert(on_line(6, cell) && line_filled(board, 6, mark));
        }
        if through_filled(board, mark, cell, 2, 4, 6) {
            assert(on_line(7, cell) && line_filled(board, 7, mark));
        }
    } else {
        if has_line_through(board, mark, cell) {
            let k = choose|k: int| 0 <= k < 8 && on_line(k, cell) && #[trigger] line_filled(board, k, mark);
            assert(completes_a_line(board, mark, cell));
        }
        if exists|i: int| 0 <= i < 9 && board[i] == EMPTY {
            let i = choose|i: int| 0 <= i < 9 && board[i] == EMPTY;
            assert(board[i] == EMPTY);
        }
    }
}

/// A round starts only after each player readied up once: while exactly one
/// player is ready, a ready-up by anyone but the other player is refused
/// (with `InvalidAction` once the signer is a player of a game between
/// rounds), and an accepted ready-up that leaves both players ready is
/// always by the player who was not ready yet.
pub proof fn lemma_ready_up_needs_each_player_once(game: GameState, signer: Key)
    ensures
        game.p1_ready && !game.p2_ready && !((game.player2 matches Some(p2) && signer@ == p2@))
            ==> ready_up_error(game, signer) is Some,
        !game.p1_ready && game.p2_ready && signer@ != game.player1@ ==> ready_up_error(
            game,
            signer,
        ) is Some,
        game.player2 is Some && game.is_player(signer) && game.status == GameStatus::BetweenRounds
            && (game.p1_ready != game.p2_ready) && !(game.p1_ready && (game.player2 matches Some(
            p2) && signer@ == p2@)) && !(game.p2_ready && signer@ == game.player1@)
            ==> ready_up_error(game, signer) == Some(GameError::InvalidAction),
        ready_up_error(game, signer) is None ==> game.status == GameStatus::BetweenRounds
            && game.is_player(signer),
{
}

/// Only the player whose own ready signal is set may cancel it: an accepted
/// cancel is by player 1 while only player 1 is ready, or by player 2 while
/// only player 2 is ready; anyone else, and anyone while nobody is ready, is
/// refused.
pub proof fn lemma_cancel_only_own_signal(game: GameState, signer: Key)
    requires
        !(game.p1_ready && game.p2_ready),
    ensures
        cancel_ready_up_error(game, signer) is None ==> (signer@ == game.player1@
            && game.p1_ready && !game.p2_ready) || ((game.player2 matches Some(p2) && signer@
            == p2@) && game.p2_ready && !game.p1_ready),
        !game.p1_ready && !game.p2_ready ==> cancel_ready_up_error(game, signer) is Some,
        game.p1_ready && signer@ != game.player1@ ==> cancel_ready_up_error(game, signer) is Some,
        game.p2_ready && !((game.player2 matches Some(p2) && signer@ == p2@))
            ==> cancel_ready_up_error(game, signer) is Some,
{
}

/// The escrow is returned 50/50 whatever else the game holds (scores,
/// rounds, results): player 1 gets half plus the odd lamport and player 2
/// half; only while nobody has joined does all of it go to player 1.
pub proof fn lemma_termination_shares_fifty_fifty(game: GameState, escrow: u64)
    ensures
        game.player2 is Some ==> termination_shares(game, escrow).0 == escrow / 2 + escrow % 2
            && termination_shares(game, escrow).1 == escrow / 2,
        game.player2 is None ==> termination_shares(game, escrow) == (escrow, 0u64),
        termination_shares(game, escrow).0 + termination_shares(game, escrow).1 == escrow,
{
}

/// Player 2 can join only a game that awaits them: in every other status
/// joining is refused.
pub proof fn lemma_join_only_while_awaiting(game: GameState, signer: Key)
    ensures
        game.status != GameStatus::AwaitingPlayerToJoinGame ==> join_error(game, signer) is Some,
        join_error(game, signer) is None ==> game.status == GameStatus::AwaitingPlayerToJoinGame
            && signer@ != game.player1@,
{
}

/// A timeout can be claimed only once more than 150 slots separate the
/// current slot from the last move, only while a round is active, and only
/// by a player; within 150 slots every claim is refused as stale.
pub proof fn lemma_timeout_threshold(game: GameState, signer: Key, current_slot: u64)
    ensures
        claim_error(game, signer, current_slot) is None ==> current_slot > game.last_move_slot
            + 150 && game.status == GameStatus::RoundActive && game.is_player(signer),
        current_slot <= game.last_move_slot + 150 ==> claim_error(game, signer, current_slot)
            == Some(GameError::StaleState),
{
}

/// A move is accepted only from a player of an active round whose turn it
/// is, on one of the nine cells, and only if that cell is empty.
pub proof fn lemma_move_rules(game: GameState, signer: Key, cell: u8)
    ensures
        move_error(game, signer, cell) is None ==> {
            &&& game.status == GameStatus::RoundActive
            &&& cell < 9
            &&& game.board@[cell as int] == EMPTY
            &&& game.turn == PLAYER1_MARK ==> signer@ == game.player1@
            &&& game.turn != PLAYER1_MARK ==> (game.player2 matches Some(p2) && signer@ == p2@)
        },
        cell >= 9 ==> move_error(game, signer, cell) is Some,
        cell < 9 && game.board@[cell as int] != EMPTY ==> move_error(game, signer, cell) is Some,
{
}

/// A round starts on an empty board with player 1 to move and no move made,
/// and counts one more round; a round ends with one more point for its
/// winner, none for anyone on a draw, and the game between rounds.
pub proof fn lemma_round_start_and_end(game: GameState, new: GameState, slot: u64)
    ensures
        game.started(new, slot) ==> {
            &&& forall|i: int| 0 <= i < 9 ==> #[trigger] new.board@[i] == 0
            &&& new.turn == 1
            &&& new.move_count == 0
            &&& new.status == GameStatus::RoundActive
            &&& new.last_move_slot == slot
            &&& !new.p1_ready && !new.p2_ready
            &&& game.round < 65535 ==> new.round == game.round + 1
            &&& new.p1_score == game.p1_score && new.p2_score == game.p2_score
        },
        game.p1_score < 65535 ==> game.ended(RoundResult::Player1Won).p1_score == game.p1_score
            + 1,
        game.ended(RoundResult::Player1Won).p2_score == game.p2_score,
        game.p2_score < 65535 ==> game.ended(RoundResult::Player2Won).p2_score == game.p2_score
            + 1,
        game.ended(RoundResult::Player2Won).p1_score == game.p1_score,
        game.ended(RoundResult::Draw).p1_score == game.p1_score,
        game.ended(RoundResult::Draw).p2_score == game.p2_score,
        game.ended(RoundResult::Draw).status == GameStatus::BetweenRounds,
        game.ended(RoundResult::Player1Won).status == GameStatus::BetweenRounds,
        game.ended(RoundResult::Player2Won).status == GameStatus::BetweenRounds,
{
}

} // verus!
