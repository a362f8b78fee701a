//! The collision engine: resolving the 4 absolute cells of a piece from its
//! anchor, kind, and rotation, and validating them against the playfield's
//! bounds and occupancy.

use vstd::prelude::*;
use crate::board::{Board, BlockState, BOARD_WIDTH, BOARD_HEIGHT, grid};
use crate::piece::{BlockType, BlockRotation, piece_offset};

verus! {

/// The 4 absolute cells of a resolved piece, anchor first, the rest in table
/// order.
pub type BlockList = Vec<(usize, usize)>;

/// The absolute cell `i` of a piece anchored at `(x, y)`.
pub open spec fn piece_cell(x: int, y: int, t: BlockType, r: BlockRotation, i: int) -> (int, int) {
    (x + piece_offset(t, r, i).0, y + piece_offset(t, r, i).1)
}

/// Cell `i` of the piece is on the board and lands on an empty cell.
pub open spec fn cell_ok(s: Seq<BlockState>, x: int, y: int, t: BlockType, r: BlockRotation, i: int) -> bool {
    let c = piece_cell(x, y, t, r, i);
    &&& 0 <= c.0 < 10
    &&& 0 <= c.1 < 22
    &&& grid(s, c.0, c.1) is Empty
}

/// A piece anchored at `(x, y)` may stand on the board: every one of its 4
/// cells is in bounds and empty.
pub open spec fn place_ok(s: Seq<BlockState>, x: int, y: int, t: BlockType, r: BlockRotation) -> bool {
    forall|i: int| 0 <= i < 4 ==> #[trigger] cell_ok(s, x, y, t, r, i)
}

/// The 4 absolute cells of a piece anchored at `(x, y)`, in table order.
pub open spec fn cells_of(x: int, y: int, t: BlockType, r: BlockRotation) -> Seq<(usize, usize)> {
    Seq::new(
        4,
        |i: int|
            ((x + piece_offset(t, r, i).0) as usize, (y + piece_offset(t, r, i).1) as usize),
    )
}

/// The failure sentinel comes exactly when some derived cell leaves the board
/// or lands on an occupied cell; success comes exactly when none does.
pub proof fn lemma_place_ok_characterization(
    s: Seq<BlockState>,
    x: int,
    y: int,
    t: BlockType,
    r: BlockRotation,
)
    ensures
        !place_ok(s, x, y, t, r) <==> exists|i: int|
            0 <= i < 4 && {
                let c = #[trigger] piece_cell(x, y, t, r, i);
                c.0 >= 10 || c.1 >= 22 || c.0 < 0 || c.1 < 0 || !(grid(s, c.0, c.1) is Empty)
            },
{
    if !place_ok(s, x, y, t, r) {
        let i = choose|i: int| 0 <= i < 4 && !#[trigger] cell_ok(s, x, y, t, r, i);
        assert(0 <= i < 4 && {
            let c = piece_cell(x, y, t, r, i);
            c.0 >= 10 || c.1 >= 22 || c.0 < 0 || c.1 < 0 || !(grid(s, c.0, c.1) is Empty)
        });
    }
    if exists|i: int|
        0 <= i < 4 && {
            let c = #[trigger] piece_cell(x, y, t, r, i);
            c.0 >= 10 || c.1 >= 22 || c.0 < 0 || c.1 < 0 || !(grid(s, c.0, c.1) is Empty)
        } {
        let i = choose|i: int|
            0 <= i < 4 && {
                let c = #[trigger] piece_cell(x, y, t, r, i);
                c.0 >= 10 || c.1 >= 22 || c.0 < 0 || c.1 < 0 || !(grid(s, c.0, c.1) is Empty)
            };
        assert(!cell_ok(s, x, y, t, r, i));
    }
}

/// Resolve the piece anchored at `(x, y)`: the list of its 4 absolute cells,
/// or the failure sentinel if any cell is out of bounds or intersects a
/// locked block.
pub fn list(board: &Board, x: usize, y: usize, block_type: BlockType, r: BlockRotation) -> (res:
    Option<BlockList>)
    requires
        board.wf(),
    ensures
        match res {
            Some(cells) => {
                &&& place_ok(board@, x as int, y as int, block_type, r)
                &&& cells@.len() == 4
                &&& cells@ == cells_of(x as int, y as int, block_type, r)
                &&& forall|i: int|
                    0 <= i < 4 ==> (#[trigger] cells@[i]).0 < 10 && cells@[i].1 < 22
            },
            None => !place_ok(board@, x as int, y as int, block_type, r),
        },
{
    if y >= BOARD_HEIGHT || x >= BOARD_WIDTH {
        proof {
            crate::piece::lemma_offset_zero(block_type, r);
            assert(!cell_ok(board@, x as int, y as int, block_type, r, 0));
        }
        return None;
    }
    let mut cells: Vec<(usize, usize)> = Vec::new();
    let mut i: usize = 0;
    while i < 4
        invariant
            board.wf(),
            x < 10,
            y < 22,
            i <= 4,
            cells@.len() == i,
            forall|j: int| 0 <= j < i ==> #[trigger] cell_ok(board@, x as int, y as int, block_type, r, j),
            forall|j: int| 0 <= j < i ==> #[trigger] cells@[j] == cells_of(x as int, y as int, block_type, r)[j],
        decreases 4 - i,
    {
        let d = r.offset_of(block_type, i);
        let cx = x as i32 + d.0;
        let cy = y as i32 + d.1;
        if cx < 0 || cx >= 10 || cy < 0 || cy >= 22 {
            assert(!cell_ok(board@, x as int, y as int, block_type, r, i as int));
            return None;
        }
        if let BlockState::Block(_) = board.get_cell(cx as usize, cy as usize) {
            assert(!cell_ok(board@, x as int, y as int, block_type, r, i as int));
            return None;
        }
        cells.push((cx as usize, cy as usize));
        i += 1;
    }
    assert(cells@ =~= cells_of(x as int, y as int, block_type, r));
    assert forall|i: int| 0 <= i < 4 implies (#[trigger] cells@[i]).0 < 10 && cells@[i].1 < 22 by {
        assert(cell_ok(board@, x as int, y as int, block_type, r, i));
        assert(cells@[i] == cells_of(x as int, y as int, block_type, r)[i]);
    }
    Some(cells)
}

} // verus!
