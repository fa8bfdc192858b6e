use vstd::prelude::*;

verus! {

/// The mark of an empty cell.
pub const EMPTY: u8 = 0;

/// The number of cells on the board.
pub const CELLS: usize = 9;

/// The three cells of line `k` of the board: rows `0..3`, columns `3..6`,
/// diagonals `6..8`. Cells are numbered row by row from 0 to 8.
pub open spec fn line_cells(k: int) -> (int, int, int) {
    if k == 0 {
        (0, 1, 2)
    } else if k == 1 {
        (3, 4, 5)
    } else if k == 2 {
        (6, 7, 8)
    } else if k == 3 {
        (0, 3, 6)
    } else if k == 4 {
        (1, 4, 7)
    } else if k == 5 {
        (2, 5, 8)
    } else if k == 6 {
        (0, 4, 8)
    } else {
        (2, 4, 6)
    }
}

/// Whether `cell` is one of the three cells of line `k`.
pub open spec fn on_line(k: int, cell: int) -> bool {
    let (a, b, c) = line_cells(k);
    cell == a || cell == b || cell == c
}

/// Whether all three cells of line `k` hold `mark`.
pub open spec fn line_filled(board: Seq<u8>, k: int, mark: u8) -> bool {
    let (a, b, c) = line_cells(k);
    board[a] == mark && board[b] == mark && board[c] == mark
}

/// Whether some line of the board is filled with `mark`.
pub open spec fn has_line(board: Seq<u8>, mark: u8) -> bool {
    exists|k: int| 0 <= k < 8 && #[trigger] line_filled(board, k, mark)
}

/// Whether some line through `cell` is filled with `mark`.
pub open spec fn has_line_through(board: Seq<u8>, mark: u8, cell: int) -> bool {
    exists|k: int| 0 <= k < 8 && on_line(k, cell) && #[trigger] line_filled(board, k, mark)
}

/// Whether no cell of the board is empty.
pub open spec fn is_full(board: Seq<u8>) -> bool {
    forall|i: int| 0 <= i < board.len() ==> #[trigger] board[i] != EMPTY
}

/// The number of marked (non-empty) cells of the board.
pub open spec fn count_marked(board: Seq<u8>) -> nat
    decreases board.len(),
{
    if board.len() == 0 {
        0
    } else {
        count_marked(board.drop_last()) + if board.last() != EMPTY {
            1nat
        } else {
            0nat
        }
    }
}

/// There are never more marked cells than cells, and every cell is marked
/// exactly when the count reaches the length.
pub proof fn lemma_count_marked_bounds(board: Seq<u8>)
    ensures
        count_marked(board) <= board.len(),
        count_marked(board) == board.len() <==> is_full(board),
    decreases board.len(),
{
    if board.len() > 0 {
        let init = board.drop_last();
        lemma_count_marked_bounds(init);
        if is_full(board) {
            assert forall|i: int| 0 <= i < init.len() implies #[trigger] init[i] != EMPTY by {
                assert(init[i] == board[i]);
            }
        }
        if count_marked(board) == board.len() {
            assert forall|i: int| 0 <= i < board.len() implies #[trigger] board[i] != EMPTY by {
                if i < board.len() - 1 {
                    assert(board[i] == init[i]);
                }
            }
        }
    }
}

/// Marking an empty cell adds one to the count of marked cells.
pub proof fn lemma_count_marked_update(board: Seq<u8>, cell: int, mark: u8)
    requires
        0 <= cell < board.len(),
        board[cell] == EMPTY,
        mark != EMPTY,
    ensures
        count_marked(board.update(cell, mark)) == count_marked(board) + 1,
    decreases board.len(),
{
    let updated = board.update(cell, mark);
    if cell == board.len() - 1 {
        assert(updated.drop_last() =~= board.drop_last());
    } else {
        lemma_count_marked_update(board.drop_last(), cell, mark);
        assert(updated.drop_last() =~= board.drop_last().update(cell, mark));
    }
}

/// The cells of line `k` (for `k` in `0..8`), as executable indices.
pub fn line_at(k: usize) -> (cells: (usize, usize, usize))
    requires
        k < 8,
    ensures
        cells.0 as int == line_cells(k as int).0,
        cells.1 as int == line_cells(k as int).1,
        cells.2 as int == line_cells(k as int).2,
        cells.0 < CELLS && cells.1 < CELLS && cells.2 < CELLS,
{
    if k == 0 {
        (0, 1, 2)
    } else if k == 1 {
        (3, 4, 5)
    } else if k == 2 {
        (6, 7, 8)
    } else if k == 3 {
        (0, 3, 6)
    } else if k == 4 {
        (1, 4, 7)
    } else if k == 5 {
        (2, 5, 8)
    } else if k == 6 {
        (0, 4, 8)
    } else {
        (2, 4, 6)
    }
}

/// Whether some line through `cell` is filled with `mark`.
pub fn line_through(board: &[u8; 9], mark: u8, cell: usize) -> (r: bool)
    ensures
        r == has_line_through(board@, mark, cell as int),
{
    let mut k: usize = 0;
    while k < 8
        invariant
            k <= 8,
            forall|j: int|
                0 <= j < k ==> !(on_line(j, cell as int) && #[trigger] line_filled(board@, j, mark)),
        decreases 8 - k,
    {
        let (a, b, c) = line_at(k);
        if (cell == a || cell == b || cell == c) && board[a] == mark && board[b] == mark
            && board[c] == mark {
            assert(on_line(k as int, cell as int) && line_filled(board@, k as int, mark));
            return true;
        }
        k = k + 1;
    }
    false
}

/// Whether no cell of the board is empty.
pub fn full(board: &[u8; 9]) -> (r: bool)
    ensures
        r == is_full(board@),
{
    let mut i: usize = 0;
    while i < CELLS
        invariant
            i <= CELLS,
            board@.len() == CELLS,
            forall|j: int| 0 <= j < i ==> #[trigger] board@[j] != EMPTY,
        decreases CELLS - i,
    {
        if board[i] == EMPTY {
            return false;
        }
        i = i + 1;
    }
    true
}

} // verus!
