# tic_tac_tui

The rules of a two-player tic-tac-toe match played on chain for a stake per
round, as a Verus-verified library, with the Anchor program around it.

- `src/key.rs`: the 32-byte player key and its equality.
- `src/board.rs`: the board, its eight lines, win and full-board checks.
- `src/state.rs`: game status, round results, errors and the game state with
  its invariant (`well_formed`) and round operations.
- `src/program.rs`: the instructions (`initialize_game`, `join_game`,
  `ready_up`, `cancel_ready_up`, `make_move`, `claim_timeout`,
  `terminate_game`) as functions from state and inputs to a new state or an
  error, plus the escrow arithmetic.
- `src/laws.rs`: properties that span several operations.
- `app/lib.rs`: the Anchor program: accounts, sysvar reads (clock, rent) and
  lamport transfers, calling the library for every decision.
