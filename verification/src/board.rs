//! The playfield: a fixed 10x22 grid of cells, row 0 at the top, row index
//! increasing downward, and the line-compaction step that runs after a piece
//! locks.

use vstd::prelude::*;
use crate::graphics::Color;

verus! {

pub const BOARD_WIDTH: usize = 10;
pub const BOARD_HEIGHT: usize = 22;

/// One cell of the playfield: empty, or locked with a piece's color.
#[derive(Debug, Clone, Copy, PartialEq, Eq)]
pub enum BlockState {
    Block(Color),
    Empty,
}

/// The playfield. Cells are stored column-major: column `x`, row `y` is
/// `cells[x * 22 + y]`.
#[derive(Debug, Clone)]
pub struct Board {
    pub cells: Vec<BlockState>,
}

impl View for Board {
    type V = Seq<BlockState>;

    open spec fn view(&self) -> Seq<BlockState> {
        self.cells@
    }
}

/// The cell of column `x`, row `y` in a column-major cell sequence.
pub open spec fn grid(s: Seq<BlockState>, x: int, y: int) -> BlockState {
    s[x * 22 + y]
}

/// A row is full when all 10 of its cells are occupied.
pub open spec fn is_full_row(s: Seq<BlockState>, j: int) -> bool {
    forall|i: int| 0 <= i < 10 ==> !(#[trigger] grid(s, i, j) is Empty)
}

/// How many of the rows `0..j` are full.
pub open spec fn full_count(s: Seq<BlockState>, j: int) -> int
    decreases j,
{
    if j <= 0 {
        0
    } else {
        full_count(s, j - 1) + if is_full_row(s, j - 1) {
            1int
        } else {
            0int
        }
    }
}

/// The largest full row index among rows `0..j`, or 0 if none is full.
pub open spec fn clear_end(s: Seq<BlockState>, j: int) -> int
    decreases j,
{
    if j <= 0 {
        0
    } else if is_full_row(s, j - 1) {
        j - 1
    } else {
        clear_end(s, j - 1)
    }
}

/// The cell of column `x`, row `y` after compaction: with `k` full rows, the
/// last of them at row `m`, every row below `m` is untouched, the top `k`
/// rows become empty, and each row `j` with `k <= j <= m` receives the old
/// row `j - k`.
pub open spec fn compacted_cell(s: Seq<BlockState>, x: int, y: int) -> BlockState {
    let k = full_count(s, 22);
    let m = clear_end(s, 22);
    if y > m {
        grid(s, x, y)
    } else if y < k {
        BlockState::Empty
    } else {
        grid(s, x, y - k)
    }
}

/// The whole compacted grid, as a column-major cell sequence.
pub open spec fn compact_seq(s: Seq<BlockState>) -> Seq<BlockState> {
    Seq::new(220, |idx: int| compacted_cell(s, idx / 22, idx % 22))
}

proof fn lemma_grid_index(idx: int)
    requires
        0 <= idx < 220,
    ensures
        0 <= idx / 22 < 10,
        0 <= idx % 22 < 22,
        (idx / 22) * 22 + idx % 22 == idx,
{
    vstd::arithmetic::div_mod::lemma_fundamental_div_mod(idx, 22);
}

pub proof fn lemma_full_count_bounds(s: Seq<BlockState>, j: int)
    ensures
        0 <= full_count(s, j) <= if j <= 0 {
            0int
        } else {
            j
        },
    decreases j,
{
    if j > 0 {
        lemma_full_count_bounds(s, j - 1);
    }
}

pub proof fn lemma_clear_end_bounds(s: Seq<BlockState>, j: int)
    ensures
        0 <= clear_end(s, j),
        clear_end(s, j) <= if j <= 0 {
            0int
        } else {
            j - 1
        },
    decreases j,
{
    if j > 0 && !is_full_row(s, j - 1) {
        lemma_clear_end_bounds(s, j - 1);
    }
}

/// How many of the first `i` cells of row `j` are occupied.
pub open spec fn row_filled_count(s: Seq<BlockState>, j: int, i: int) -> int
    decreases i,
{
    if i <= 0 {
        0
    } else {
        row_filled_count(s, j, i - 1) + if grid(s, i - 1, j) is Empty {
            0int
        } else {
            1int
        }
    }
}

/// How many cells of rows `lo..hi` are occupied.
pub open spec fn rows_count(s: Seq<BlockState>, lo: int, hi: int) -> int
    decreases hi - lo,
{
    if lo >= hi {
        0
    } else {
        row_filled_count(s, lo, 10) + rows_count(s, lo + 1, hi)
    }
}

/// How many cells of the whole grid are occupied.
pub open spec fn filled_total(s: Seq<BlockState>) -> int {
    rows_count(s, 0, 22)
}

proof fn lemma_row_count_eq(a: Seq<BlockState>, b: Seq<BlockState>, j1: int, j2: int, i: int)
    requires
        forall|x: int| 0 <= x < 10 ==> #[trigger] grid(a, x, j1) == grid(b, x, j2),
        i <= 10,
    ensures
        row_filled_count(a, j1, i) == row_filled_count(b, j2, i),
    decreases i,
{
    if i > 0 {
        lemma_row_count_eq(a, b, j1, j2, i - 1);
    }
}

proof fn lemma_row_full_count(s: Seq<BlockState>, j: int, i: int)
    requires
        is_full_row(s, j),
        0 <= i <= 10,
    ensures
        row_filled_count(s, j, i) == i,
    decreases i,
{
    if i > 0 {
        lemma_row_full_count(s, j, i - 1);
        assert(!(grid(s, i - 1, j) is Empty));
    }
}

proof fn lemma_row_empty_count(s: Seq<BlockState>, j: int, i: int)
    requires
        forall|x: int| 0 <= x < 10 ==> #[trigger] grid(s, x, j) is Empty,
        i <= 10,
    ensures
        row_filled_count(s, j, i) == 0,
    decreases i,
{
    if i > 0 {
        lemma_row_empty_count(s, j, i - 1);
    }
}

proof fn lemma_rows_split(s: Seq<BlockState>, lo: int, mid: int, hi: int)
    requires
        lo <= mid <= hi,
    ensures
        rows_count(s, lo, hi) == rows_count(s, lo, mid) + rows_count(s, mid, hi),
    decreases mid - lo,
{
    if lo < mid {
        lemma_rows_split(s, lo + 1, mid, hi);
    }
}

proof fn lemma_rows_count_shift(a: Seq<BlockState>, b: Seq<BlockState>, lo: int, hi: int, d: int)
    requires
        forall|x: int, j: int|
            0 <= x < 10 && lo <= j < hi ==> #[trigger] grid(a, x, j) == grid(b, x, j - d),
    ensures
        rows_count(a, lo, hi) == rows_count(b, lo - d, hi - d),
    decreases hi - lo,
{
    if lo < hi {
        assert forall|x: int| 0 <= x < 10 implies #[trigger] grid(a, x, lo) == grid(b, x, lo - d) by {}
        lemma_row_count_eq(a, b, lo, lo - d, 10);
        lemma_rows_count_shift(a, b, lo + 1, hi, d);
    }
}

proof fn lemma_rows_all_full(s: Seq<BlockState>, lo: int, hi: int)
    requires
        forall|j: int| lo <= j < hi ==> #[trigger] is_full_row(s, j),
    ensures
        rows_count(s, lo, hi) == 10 * (if hi >= lo {
            hi - lo
        } else {
            0int
        }),
    decreases hi - lo,
{
    if lo < hi {
        lemma_row_full_count(s, lo, 10);
        lemma_rows_all_full(s, lo + 1, hi);
    }
}

proof fn lemma_full_count_contig(s: Seq<BlockState>, k: int, m: int, j: int)
    requires
        1 <= k,
        0 <= m < 22,
        k <= m + 1,
        forall|r: int| 0 <= r < 22 ==> (#[trigger] is_full_row(s, r) <==> m - k < r <= m),
        0 <= j <= 22,
    ensures
        full_count(s, j) == if j <= m - k + 1 {
            0int
        } else if j <= m + 1 {
            j - (m - k + 1)
        } else {
            k
        },
    decreases j,
{
    if j > 0 {
        lemma_full_count_contig(s, k, m, j - 1);
    }
}

proof fn lemma_clear_end_contig(s: Seq<BlockState>, k: int, m: int, j: int)
    requires
        1 <= k,
        0 <= m < 22,
        k <= m + 1,
        forall|r: int| 0 <= r < 22 ==> (#[trigger] is_full_row(s, r) <==> m - k < r <= m),
        m + 1 <= j <= 22,
    ensures
        clear_end(s, j) == m,
    decreases j,
{
    if j > m + 1 {
        lemma_clear_end_contig(s, k, m, j - 1);
    } else {
        assert(is_full_row(s, m));
    }
}

/// Cell-level reading of the compacted grid.
pub proof fn lemma_compact_seq_grid(s: Seq<BlockState>)
    ensures
        forall|x: int, y: int|
            0 <= x < 10 && 0 <= y < 22 ==> #[trigger] grid(compact_seq(s), x, y) == compacted_cell(
                s,
                x,
                y,
            ),
{
    assert forall|x: int, y: int| 0 <= x < 10 && 0 <= y < 22 implies #[trigger] grid(
        compact_seq(s),
        x,
        y,
    ) == compacted_cell(s, x, y) by {
        vstd::arithmetic::div_mod::lemma_fundamental_div_mod(x * 22 + y, 22);
    }
}

/// When the full rows form one contiguous band — the common case of a piece
/// completing adjacent rows — compaction behaves exactly like deleting those
/// `k` rows and prepending `k` empty rows: the total count of occupied cells
/// drops by exactly `10 * k`.
pub proof fn lemma_compaction_contiguous(s: Seq<BlockState>, k: int, m: int)
    requires
        s.len() == 220,
        1 <= k,
        0 <= m < 22,
        k <= m + 1,
        forall|r: int| 0 <= r < 22 ==> (#[trigger] is_full_row(s, r) <==> m - k < r <= m),
    ensures
        full_count(s, 22) == k,
        clear_end(s, 22) == m,
        forall|x: int, y: int|
            0 <= x < 10 && 0 <= y < k ==> #[trigger] grid(compact_seq(s), x, y) is Empty,
        forall|x: int, y: int|
            0 <= x < 10 && k <= y <= m ==> #[trigger] grid(compact_seq(s), x, y) == grid(
                s,
                x,
                y - k,
            ),
        forall|x: int, y: int|
            0 <= x < 10 && m < y < 22 ==> #[trigger] grid(compact_seq(s), x, y) == grid(s, x, y),
        filled_total(compact_seq(s)) == filled_total(s) - 10 * k,
{
    lemma_full_count_contig(s, k, m, 22);
    lemma_clear_end_contig(s, k, m, 22);
    lemma_compact_seq_grid(s);
    let t = compact_seq(s);

    // the compacted grid, range by range
    lemma_rows_split(t, 0, k, 22);
    lemma_rows_split(t, k, m + 1, 22);
    assert(rows_count(t, 0, 22) == rows_count(t, 0, k) + rows_count(t, k, m + 1) + rows_count(
        t,
        m + 1,
        22,
    ));

    // the top k rows are empty
    assert forall|j: int| 0 <= j < k implies rows_count_row_empty(t, j) by {
        assert forall|x: int| 0 <= x < 10 implies #[trigger] grid(t, x, j) is Empty by {}
    }
    lemma_rows_empty_range(t, 0, k);

    // rows k..=m hold the old rows 0..=m-k
    assert forall|x: int, j: int| 0 <= x < 10 && k <= j < m + 1 implies #[trigger] grid(t, x, j)
        == grid(s, x, j - k) by {}
    lemma_rows_count_shift(t, s, k, m + 1, k);

    // rows below m are untouched
    assert forall|x: int, j: int| 0 <= x < 10 && m + 1 <= j < 22 implies #[trigger] grid(t, x, j)
        == grid(s, x, j - 0) by {}
    lemma_rows_count_shift(t, s, m + 1, 22, 0);

    // the grid before compaction, range by range
    lemma_rows_split(s, 0, m - k + 1, 22);
    lemma_rows_split(s, m - k + 1, m + 1, 22);
    assert forall|j: int| m - k + 1 <= j < m + 1 implies #[trigger] is_full_row(s, j) by {}
    lemma_rows_all_full(s, m - k + 1, m + 1);
}

spec fn rows_count_row_empty(s: Seq<BlockState>, j: int) -> bool {
    forall|x: int| 0 <= x < 10 ==> #[trigger] grid(s, x, j) is Empty
}

proof fn lemma_rows_empty_range(s: Seq<BlockState>, lo: int, hi: int)
    requires
        forall|j: int| lo <= j < hi ==> #[trigger] rows_count_row_empty(s, j),
    ensures
        rows_count(s, lo, hi) == 0,
    decreases hi - lo,
{
    if lo < hi {
        assert(rows_count_row_empty(s, lo));
        lemma_row_empty_count(s, lo, 10);
        lemma_rows_empty_range(s, lo + 1, hi);
    }
}

impl Board {
    pub open spec fn wf(self) -> bool {
        self.cells@.len() == 220
    }

    /// An all-empty playfield.
    pub fn new() -> (b: Board)
        ensures
            b.wf(),
            b@ == Seq::new(220, |i: int| BlockState::Empty),
    {
        let mut cells: Vec<BlockState> = Vec::new();
        let mut i: usize = 0;
        while i < 220
            invariant
                i <= 220,
                cells@.len() == i,
                forall|k: int| 0 <= k < i ==> cells@[k] == BlockState::Empty,
            decreases 220 - i,
        {
            cells.push(BlockState::Empty);
            i += 1;
        }
        let b = Board { cells };
        assert(b@ =~= Seq::new(220, |i: int| BlockState::Empty));
        b
    }

    /// The cell of column `x`, row `y`.
    pub fn get_cell(&self, x: usize, y: usize) -> (r: BlockState)
        requires
            self.wf(),
            x < 10,
            y < 22,
        ensures
            r == grid(self@, x as int, y as int),
    {
        self.cells[x * BOARD_HEIGHT + y]
    }

    /// Overwrite the cell of column `x`, row `y`.
    pub fn set_cell(&mut self, x: usize, y: usize, v: BlockState)
        requires
            old(self).wf(),
            x < 10,
            y < 22,
        ensures
            final(self).wf(),
            final(self)@ == old(self)@.update(x * 22 + y, v),
    {
        self.cells[x * BOARD_HEIGHT + y] = v;
    }

    /// Remove full rows: every row below the last full row is untouched; each
    /// other row receives the row `k` places above it, where `k` is the number
    /// of full rows; the top `k` rows become empty. Returns `k`.
    pub fn compact(&mut self) -> (k: usize)
        requires
            old(self).wf(),
        ensures
            final(self).wf(),
            k == full_count(old(self)@, 22),
            k <= 22,
            final(self)@ == compact_seq(old(self)@),
            forall|x: int, y: int|
                0 <= x < 10 && 0 <= y < 22 ==> #[trigger] grid(final(self)@, x, y)
                    == compacted_cell(old(self)@, x, y),
    {
        let ghost s0 = self@;
        proof {
            lemma_full_count_bounds(s0, 22);
            lemma_clear_end_bounds(s0, 22);
        }

        // scan for full rows
        let mut amt: usize = 0;
        let mut end: usize = 0;
        let mut j: usize = 0;
        while j < BOARD_HEIGHT
            invariant
                self@ == s0,
                self.wf(),
                j <= 22,
                amt == full_count(s0, j as int),
                end == clear_end(s0, j as int),
                amt <= 22,
                end <= 21,
            decreases 22 - j,
        {
            let mut all_covered = true;
            let mut i: usize = 0;
            while i < BOARD_WIDTH
                invariant
                    self@ == s0,
                    self.wf(),
                    j < 22,
                    i <= 10,
                    all_covered == forall|i2: int|
                        0 <= i2 < i ==> !(#[trigger] grid(s0, i2, j as int) is Empty),
                decreases 10 - i,
            {
                if let BlockState::Empty = self.get_cell(i, j) {
                    all_covered = false;
                }
                i += 1;
            }
            proof {
                lemma_full_count_bounds(s0, j as int);
                lemma_clear_end_bounds(s0, j as int);
            }
            if all_covered {
                amt += 1;
                end = j;
            }
            j += 1;
        }

        // rebuild the grid with the full rows compacted away
        let ghost k = amt as int;
        let ghost m = end as int;
        let mut cells: Vec<BlockState> = Vec::new();
        let mut x: usize = 0;
        while x < BOARD_WIDTH
            invariant
                self@ == s0,
                self.wf(),
                amt == full_count(s0, 22),
                end == clear_end(s0, 22),
                amt <= 22,
                end <= 21,
                x <= 10,
                cells@.len() == x * 22,
                forall|xi: int, yi: int|
                    0 <= xi < x && 0 <= yi < 22 ==> #[trigger] cells@[xi * 22 + yi]
                        == compacted_cell(s0, xi, yi),
            decreases 10 - x,
        {
            let mut y: usize = 0;
            while y < BOARD_HEIGHT
                invariant
                    self@ == s0,
                    self.wf(),
                    amt == full_count(s0, 22),
                    end == clear_end(s0, 22),
                    amt <= 22,
                    end <= 21,
                    x < 10,
                    y <= 22,
                    cells@.len() == x * 22 + y,
                    forall|xi: int, yi: int|
                        0 <= xi < 10 && 0 <= yi < 22 && xi * 22 + yi < x * 22 + y
                            ==> #[trigger] cells@[xi * 22 + yi] == compacted_cell(s0, xi, yi),
                decreases 22 - y,
            {
                let v = if y > end {
                    self.get_cell(x, y)
                } else if y < amt {
                    BlockState::Empty
                } else {
                    self.get_cell(x, y - amt)
                };
                assert(v == compacted_cell(s0, x as int, y as int));
                cells.push(v);
                y += 1;
            }
            x += 1;
        }
        proof {
            assert forall|idx: int| 0 <= idx < 220 implies cells@[idx] == compact_seq(s0)[idx] by {
                lemma_grid_index(idx);
                assert(cells@[(idx / 22) * 22 + idx % 22] == compacted_cell(s0, idx / 22, idx % 22));
            }
            assert(cells@ =~= compact_seq(s0));
        }
        self.cells = cells;
        amt
    }
}

} // verus!
