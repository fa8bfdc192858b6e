use vstd::prelude::*;

use crate::board::{count_marked, full, has_line, has_line_through, is_full, line_through, EMPTY};
use crate::key::Key;

verus! {

/// Where a game stands.
#[derive(Clone, Copy, Debug, PartialEq, Eq, Structural)]
pub enum GameStatus {
    /// Player 1 has created the game and we're awaiting player 2 to join.
    AwaitingPlayerToJoinGame,
    /// A round has finished and we're waiting for the next one to start.
    BetweenRounds,
    /// A round is currently in progress.
    RoundActive,
    /// The game is over, accounts can be closed.
    Terminated,
}

/// How a round ended.
#[derive(Clone, Copy, Debug, PartialEq, Eq, Structural)]
pub enum RoundResult {
    Player1Won,
    Player2Won,
    Draw,
}

/// Why an action was refused.
#[derive(Clone, Copy, Debug, PartialEq, Eq, Structural)]
pub enum GameError {
    /// Player is not allowed to perform an action at this time.
    InvalidAction,
    /// Player is not allowed to make a move at this time.
    PlayerWrongTurn,
    /// Player 2 is missing from the game state.
    MissingPlayer,
    /// Game move is not valid (`cell` must be below 9 and not already played).
    InvalidGameMove,
    /// Signer does not have permission to perform actions in this game.
    Unauthorized,
    /// The game state is stale and does not match the expected state for this action.
    StaleState,
}

impl GameError {
    /// The message shown to a user for this error.
    pub fn message(&self) -> (m: &'static str)
        ensures
            m@ == self.spec_message(),
    {
        match self {
            GameError::InvalidAction => "Player is not allowed to perform an action at this time",
            GameError::PlayerWrongTurn => "Player is not allowed to make a move at this time",
            GameError::MissingPlayer => "Player 2 is missing from the game state",
            GameError::InvalidGameMove =>
                "Game move is not valid (`cell` must be an integer between 1 and 9 and not already played)",
            GameError::Unauthorized =>
                "Signer does not have permission to perform actions in this game",
            GameError::StaleState =>
                "The game state is stale and does not match the expected state for this action",
        }
    }

    pub open spec fn spec_message(&self) -> Seq<char> {
        match self {
            GameError::InvalidAction => "Player is not allowed to perform an action at this time"@,
            GameError::PlayerWrongTurn => "Player is not allowed to make a move at this time"@,
            GameError::MissingPlayer => "Player 2 is missing from the game state"@,
            GameError::InvalidGameMove =>
                "Game move is not valid (`cell` must be an integer between 1 and 9 and not already played)"@,
            GameError::Unauthorized =>
                "Signer does not have permission to perform actions in this game"@,
            GameError::StaleState =>
                "The game state is stale and does not match the expected state for this action"@,
        }
    }
}

/// The mark that player 1 places, and the turn number while player 1 is to move.
pub const PLAYER1_MARK: u8 = 1;

/// The mark that player 2 places, and the turn number while player 2 is to move.
pub const PLAYER2_MARK: u8 = 2;

/// The state of one game: its two players, the score, the current round
/// and board, and the stake per round.
#[derive(Clone, Copy, Debug, PartialEq, Eq)]
pub struct GameState {
    pub player1: Key,
    pub player2: Option<Key>,
    pub p1_score: u16,
    pub p2_score: u16,
    pub status: GameStatus,
    pub game_id: u64,
    pub wager_per_round: u64,
    /// The number of rounds started so far.
    pub round: u16,
    pub bump: u8,
    pub p1_ready: bool,
    pub p2_ready: bool,
    /// 0 = empty, 1 = player 1's mark (X), 2 = player 2's mark (O).
    pub board: [u8; 9],
    /// 1 or 2: whose move it is while a round is active.
    pub turn: u8,
    /// The number of moves made in the current (or last) round.
    pub move_count: u8,
    /// The slot of the last move, or of the start of the round.
    pub last_move_slot: u64,
    pub last_round_result: Option<RoundResult>,
}

/// The result that a win by the player who places `mark` gives.
pub open spec fn win_for(mark: u8) -> RoundResult {
    if mark == PLAYER1_MARK {
        RoundResult::Player1Won
    } else {
        RoundResult::Player2Won
    }
}

/// How a round stands after `mark` was placed on `cell` of `board`: won by
/// that player if it completed a line through `cell`, else drawn if the board
/// is full, else still open.
pub open spec fn board_result(board: Seq<u8>, cell: int, mark: u8) -> Option<RoundResult> {
    if has_line_through(board, mark, cell) {
        Some(win_for(mark))
    } else if is_full(board) {
        Some(RoundResult::Draw)
    } else {
        None
    }
}

/// The mark of the player who moves after the player of `turn`.
pub open spec fn next_turn(turn: u8) -> u8 {
    if turn == PLAYER1_MARK {
        PLAYER2_MARK
    } else {
        PLAYER1_MARK
    }
}

/// Whose turn it is after `moves` moves of a round: player 1 opens.
pub open spec fn turn_after(moves: int) -> u8 {
    if moves % 2 == 0 {
        PLAYER1_MARK
    } else {
        PLAYER2_MARK
    }
}

/// An empty board.
pub open spec fn empty_board() -> Seq<u8> {
    Seq::new(9, |i: int| EMPTY)
}

/// What holds of a round in progress: the move count is the number of
/// marks, players alternate starting with player 1, no line is complete
/// and some cell is still free.
pub open spec fn round_in_progress(board: Seq<u8>, move_count: u8, turn: u8) -> bool {
    &&& move_count == count_marked(board)
    &&& turn == turn_after(move_count as int)
    &&& !is_full(board)
    &&& !has_line(board, PLAYER1_MARK)
    &&& !has_line(board, PLAYER2_MARK)
}

impl GameState {
    /// Whether `signer` is one of the two players.
    pub open spec fn is_player(self, signer: Key) -> bool {
        signer@ == self.player1@ || (self.player2 matches Some(p2) && signer@ == p2@)
    }

    /// The invariant of every game state that the actions of this crate
    /// produce from a newly initialized game.
    pub open spec fn well_formed(self) -> bool {
        &&& forall|i: int| 0 <= i < 9 ==> #[trigger] self.board@[i] <= PLAYER2_MARK
        &&& (self.player2 matches Some(p2) ==> p2@ != self.player1@)
        &&& match self.status {
            GameStatus::AwaitingPlayerToJoinGame => {
                &&& self.player2 is None
                &&& !self.p1_ready
                &&& !self.p2_ready
            },
            GameStatus::BetweenRounds => {
                &&& self.player2 is Some
                &&& !(self.p1_ready && self.p2_ready)
            },
            GameStatus::RoundActive => {
                &&& self.player2 is Some
                &&& !self.p1_ready
                &&& !self.p2_ready
                &&& round_in_progress(self.board@, self.move_count, self.turn)
            },
            GameStatus::Terminated => true,
        }
    }

    /// The state once a new round has started at `slot`.
    pub open spec fn started(self, new: GameState, slot: u64) -> bool {
        &&& new.board@ == empty_board()
        &&& new == (GameState {
            board: new.board,
            status: GameStatus::RoundActive,
            turn: PLAYER1_MARK,
            move_count: 0,
            p1_ready: false,
            p2_ready: false,
            round: self.round.saturating_add(1),
            last_move_slot: slot,
            ..self
        })
    }

    /// The state once the active round has ended with `result`.
    pub open spec fn ended(self, result: RoundResult) -> GameState {
        GameState {
            status: GameStatus::BetweenRounds,
            p1_score: if result == RoundResult::Player1Won {
                self.p1_score.saturating_add(1)
            } else {
                self.p1_score
            },
            p2_score: if result == RoundResult::Player2Won {
                self.p2_score.saturating_add(1)
            } else {
                self.p2_score
            },
            last_round_result: Some(result),
            ..self
        }
    }

    /// Starts a round once both players are ready: clears the board, gives
    /// the first move to player 1, counts the round (saturating at
    /// `u16::MAX`), consumes both ready signals and records `slot` as the
    /// time of the last move.
    ///
    /// Status: BetweenRounds -> RoundActive
    pub fn start_round(&mut self, slot: u64) -> (r: Result<(), GameError>)
        ensures
            r is Ok <==> (old(self).status == GameStatus::BetweenRounds && old(self).p1_ready
                && old(self).p2_ready),
            r is Err ==> r == Err::<(), GameError>(GameError::InvalidAction) && *final(self)
                == *old(self),
            r is Ok ==> old(self).started(*final(self), slot),
    {
        if !(self.status == GameStatus::BetweenRounds && self.p1_ready && self.p2_ready) {
            return Err(GameError::InvalidAction);
        }
        self.board = [EMPTY; 9];
        self.status = GameStatus::RoundActive;
        self.turn = PLAYER1_MARK;
        self.move_count = 0;
        self.p1_ready = false;
        self.p2_ready = false;
        self.round = self.round.saturating_add(1);
        self.last_move_slot = slot;
        assert(self.board@ =~= empty_board());
        Ok(())
    }

    /// Places `turn`'s mark on `cell`.
    pub fn apply_move(&mut self, cell: u8, turn: u8)
        requires
            cell < 9,
        ensures
            final(self).board@ == old(self).board@.update(cell as int, turn),
            *final(self) == (GameState { board: final(self).board, ..*old(self) }),
    {
        self.board[cell as usize] = turn;
    }

    /// How the round stands after `turn`'s mark was placed on `cell`: won by
    /// that player if the mark completed a line through `cell`, drawn if the
    /// board is full, otherwise still open.
    pub fn check_board(&self, cell: u8, turn: u8) -> (r: Option<RoundResult>)
        ensures
            r == board_result(self.board@, cell as int, turn),
    {
        if line_through(&self.board, turn, cell as usize) {
            if turn == PLAYER1_MARK {
                Some(RoundResult::Player1Won)
            } else {
                Some(RoundResult::Player2Won)
            }
        } else if full(&self.board) {
            Some(RoundResult::Draw)
        } else {
            None
        }
    }

    /// Ends the active round with `result`: the winner's score goes up by
    /// one (saturating at `u16::MAX`), the result is recorded and the game
    /// waits for the next round. Refused unless a round is active.
    ///
    /// Status: RoundActive -> BetweenRounds
    pub fn end_round(&mut self, result: RoundResult) -> (r: Result<(), GameError>)
        ensures
            r is Ok <==> old(self).status == GameStatus::RoundActive,
            r is Err ==> r == Err::<(), GameError>(GameError::StaleState) && *final(self)
                == *old(self),
            r is Ok ==> *final(self) == old(self).ended(result),
    {
        if self.status != GameStatus::RoundActive {
            return Err(GameError::StaleState);
        }
        match result {
            RoundResult::Player1Won => {
                self.p1_score = self.p1_score.saturating_add(1);
            },
            RoundResult::Player2Won => {
                self.p2_score = self.p2_score.saturating_add(1);
            },
            RoundResult::Draw => {},
        }
        self.status = GameStatus::BetweenRounds;
        self.last_round_result = Some(result);
        Ok(())
    }
}

} // verus!
