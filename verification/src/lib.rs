//! The rules of a two-player tic-tac-toe match played for a stake per
//! round: who may join, ready up, move, claim a timeout or end the match,
//! and what each of these does to the game state and to the escrow.
//!
//! Every action takes the game state and the plain values it needs (the
//! signer's key, the current slot) and either refuses with a `GameError`,
//! leaving the state as it was, or changes the state and says what moves
//! between the players and the escrow.

pub mod board;
pub mod key;
pub mod laws;
pub mod program;
pub mod state;

pub use key::Key;
pub use program::{
    cancel_ready_up, check_move, claim_timeout, escrow_balance, initialize_game, join_game, make_move,
    ready_up, round_payout, split_escrow, terminate_game, TIMEOUT_SLOTS,
};
pub use state::{GameError, GameState, GameStatus, RoundResult};
