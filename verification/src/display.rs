//! Drawing the game onto a frame: the border outline, the locked board cells
//! (two display columns per game column), the falling piece, the score line,
//! and the end-of-game message. Every drawing step has a functional
//! specification, so a whole render pass is a mathematical function of the
//! session and the starting frame.

use vstd::prelude::*;
use vstd::string::StringSliceAdditionalSpecFns;
use crate::graphics::{
    TTYFrame, TTYBounds, FrameModel, Color, hline_spec, vline_spec, write_spec, set_bounds_spec,
    dec_rep, decimal_digits, bounds_ok, put_cell, square_spec, solid_block, char_block, bump_row,
    GraphicBlock,
};
use crate::board::{Board, BlockState, BOARD_WIDTH, BOARD_HEIGHT, grid};
use crate::block_list::BlockList;
use crate::input::{Key, KeyboardState};

verus! {

/// One locked or falling cell at game column `x`, game row `y`: two display
/// cells on row `y + 1`, columns `2x + 2` and `2x + 3`.
pub open spec fn block_spec(m: FrameModel, x: int, y: int, c: Color) -> FrameModel {
    hline_spec(m, y + 1, 2 * x + 2, 2 * x + 3, c)
}

/// The falling piece: its cells from index `i` on, drawn in order.
pub open spec fn shape_spec(m: FrameModel, c: Color, cells: Seq<(usize, usize)>, i: int) -> FrameModel
    decreases cells.len() - i,
{
    if i < 0 || i >= cells.len() {
        m
    } else {
        shape_spec(block_spec(m, cells[i].0 as int, cells[i].1 as int, c), c, cells, i + 1)
    }
}

/// The locked board cells from game position (x, y) on, in column-major
/// order: every occupied cell is drawn in its own color.
pub open spec fn stale_spec(m: FrameModel, s: Seq<BlockState>, x: int, y: int) -> FrameModel
    decreases 10 - x, 22 - y,
{
    if x < 0 || y < 0 || x >= 10 {
        m
    } else if y >= 22 {
        stale_spec(m, s, x + 1, 0)
    } else {
        let m1 = match grid(s, x, y) {
            BlockState::Block(c) => block_spec(m, x, y, c),
            BlockState::Empty => m,
        };
        stale_spec(m1, s, x, y + 1)
    }
}

/// The border outline around the playfield.
pub open spec fn outline_spec(m: FrameModel) -> FrameModel {
    let m1 = vline_spec(m, 0, 0, 22, Color::DarkGray);
    let m2 = vline_spec(m1, 1, 0, 22, Color::DarkGray);
    let m3 = vline_spec(m2, 22, 0, 22, Color::DarkGray);
    let m4 = vline_spec(m3, 23, 0, 22, Color::DarkGray);
    let m5 = hline_spec(m4, 0, 0, 21, Color::DarkGray);
    hline_spec(m5, 23, 0, 23, Color::DarkGray)
}

/// The one-line score readout.
pub open spec fn score_spec(m: FrameModel, lines: u64) -> FrameModel {
    write_spec(write_spec(m, ("lines cleares: ").spec_bytes(), 0), dec_rep(lines as nat), 0)
}

/// The end-of-game message with the final cleared-lines count.
pub open spec fn end_screen_spec(m: FrameModel, lines: u64) -> FrameModel {
    write_spec(
        write_spec(
            write_spec(m, ("game over, ").spec_bytes(), 0),
            dec_rep(lines as nat),
            0,
        ),
        (" lines cleared").spec_bytes(),
        0,
    )
}

pub open spec fn bool_bytes(b: bool) -> Seq<u8> {
    if b {
        ("true").spec_bytes()
    } else {
        ("false").spec_bytes()
    }
}

/// The debugging readout of the timer and the five key flags.
pub open spec fn keyboard_state_spec(m: FrameModel, current_time: u64, last_time: u64, k: KeyboardState) -> FrameModel {
    let m1 = write_spec(m, ("time is: ").spec_bytes(), 0);
    let m2 = write_spec(m1, dec_rep(current_time as nat), 0);
    let m3 = write_spec(m2, (", last is: ").spec_bytes(), 0);
    let m4 = write_spec(m3, dec_rep(last_time as nat), 0);
    let m5 = write_spec(m4, ("\nup arrow is down: ").spec_bytes(), 0);
    let m6 = write_spec(m5, bool_bytes(k.up), 0);
    let m7 = write_spec(m6, ("\ndown arrow is down: ").spec_bytes(), 0);
    let m8 = write_spec(m7, bool_bytes(k.down), 0);
    let m9 = write_spec(m8, ("\nleft arrow is down: ").spec_bytes(), 0);
    let m10 = write_spec(m9, bool_bytes(k.left), 0);
    let m11 = write_spec(m10, ("\nright arrow is down: ").spec_bytes(), 0);
    let m12 = write_spec(m11, bool_bytes(k.right), 0);
    let m13 = write_spec(m12, ("\nspace is down: ").spec_bytes(), 0);
    write_spec(m13, bool_bytes(k.space), 0)
}

/// The viewport the game sets before writing its score line.
pub open spec fn game_bounds() -> TTYBounds {
    TTYBounds { x: 30, y: 1, end_x: 79, end_y: 24 }
}

/// One full render pass of a live session: install the game viewport, write
/// the score, draw the falling piece, the locked cells, and the outline.
pub open spec fn render_pass(
    m: FrameModel,
    lines: u64,
    c: Color,
    cells: Seq<(usize, usize)>,
    board: Seq<BlockState>,
) -> FrameModel {
    let m1 = set_bounds_spec(m, game_bounds());
    let m2 = score_spec(m1, lines);
    let m3 = shape_spec(m2, c, cells, 0);
    let m4 = stale_spec(m3, board, 0, 0);
    outline_spec(m4)
}

impl TTYFrame {
    /// Draw the playfield border.
    pub fn render_outline(&mut self)
        requires
            old(self).wf(),
        ensures
            final(self).wf(),
            final(self).model() == outline_spec(old(self).model()),
    {
        self.draw_line_verticale(0, 0, BOARD_HEIGHT, Color::DarkGray);
        self.draw_line_verticale(1, 0, BOARD_HEIGHT, Color::DarkGray);
        self.draw_line_verticale(22, 0, BOARD_HEIGHT, Color::DarkGray);
        self.draw_line_verticale(23, 0, BOARD_HEIGHT, Color::DarkGray);
        self.draw_line_horizontal(0, 0, 21, Color::DarkGray);
        self.draw_line_horizontal(BOARD_HEIGHT + 1, 0, 23, Color::DarkGray);
    }

    /// Draw every locked cell of the board in its own color.
    pub fn render_stale(&mut self, board: &Board)
        requires
            old(self).wf(),
            board.wf(),
        ensures
            final(self).wf(),
            final(self).model() == stale_spec(old(self).model(), board@, 0, 0),
    {
        let ghost goal = stale_spec(self.model(), board@, 0, 0);
        let mut i: usize = 0;
        while i < BOARD_WIDTH
            invariant
                self.wf(),
                board.wf(),
                i <= 10,
                goal == stale_spec(self.model(), board@, i as int, 0),
            decreases 10 - i,
        {
            let mut j: usize = 0;
            while j < BOARD_HEIGHT
                invariant
                    self.wf(),
                    board.wf(),
                    i < 10,
                    j <= 22,
                    goal == stale_spec(self.model(), board@, i as int, j as int),
                decreases 22 - j,
            {
                if let BlockState::Block(color) = board.get_cell(i, j) {
                    self.render_block(i, j, color);
                }
                j += 1;
            }
            i += 1;
        }
    }

    /// Write the end-of-game message at the cursor.
    pub fn print_end_screen(&mut self, lines: u64)
        requires
            old(self).wf(),
        ensures
            final(self).wf(),
            final(self).model() == end_screen_spec(old(self).model(), lines),
    {
        self.write_text("game over, ");
        let digits = decimal_digits(lines);
        self.write_bytes(&digits);
        self.write_text(" lines cleared");
    }

    /// Write the score line at the cursor.
    pub fn print_score(&mut self, lines: u64)
        requires
            old(self).wf(),
        ensures
            final(self).wf(),
            final(self).model() == score_spec(old(self).model(), lines),
    {
        self.write_text("lines cleares: ");
        let digits = decimal_digits(lines);
        self.write_bytes(&digits);
    }

    /// Write the timer and key-flag readout at the cursor.
    pub fn print_keyboard_state(&mut self, current_time: u64, last_time: u64, keyboard: &KeyboardState)
        requires
            old(self).wf(),
        ensures
            final(self).wf(),
            final(self).model() == keyboard_state_spec(
                old(self).model(),
                current_time,
                last_time,
                *keyboard,
            ),
    {
        self.write_text("time is: ");
        let t = decimal_digits(current_time);
        self.write_bytes(&t);
        self.write_text(", last is: ");
        let l = decimal_digits(last_time);
        self.write_bytes(&l);
        self.write_text("\nup arrow is down: ");
        self.print_bool(keyboard.is_key_down(Key::UpArrow));
        self.write_text("\ndown arrow is down: ");
        self.print_bool(keyboard.is_key_down(Key::DownArrow));
        self.write_text("\nleft arrow is down: ");
        self.print_bool(keyboard.is_key_down(Key::LeftArrow));
        self.write_text("\nright arrow is down: ");
        self.print_bool(keyboard.is_key_down(Key::RightArrow));
        self.write_text("\nspace is down: ");
        self.print_bool(keyboard.is_key_down(Key::Space));
    }

    fn print_bool(&mut self, b: bool)
        requires
            old(self).wf(),
        ensures
            final(self).wf(),
            final(self).model() == write_spec(old(self).model(), bool_bytes(b), 0),
    {
        if b {
            self.write_text("true");
        } else {
            self.write_text("false");
        }
    }

    /// Draw the falling piece: each of its cells in the piece's color.
    pub fn render_shape(&mut self, color: Color, list: &BlockList)
        requires
            old(self).wf(),
            forall|i: int| 0 <= i < list@.len() ==> (#[trigger] list@[i]).0 < 10 && list@[i].1 < 22,
        ensures
            final(self).wf(),
            final(self).model() == shape_spec(old(self).model(), color, list@, 0),
    {
        let ghost goal = shape_spec(self.model(), color, list@, 0);
        let mut i: usize = 0;
        while i < list.len()
            invariant
                self.wf(),
                i <= list@.len(),
                forall|k: int| 0 <= k < list@.len() ==> (#[trigger] list@[k]).0 < 10 && list@[k].1 < 22,
                goal == shape_spec(self.model(), color, list@, i as int),
            decreases list@.len() - i,
        {
            let (x, y) = list[i];
            self.render_block(x, y, color);
            i += 1;
        }
    }

    /// One full render pass of a live session: install the game viewport,
    /// write the score, draw the falling piece, the locked cells, and the
    /// outline.
    pub fn render_game(&mut self, lines: u64, color: Color, list: &BlockList, board: &Board)
        requires
            old(self).wf(),
            board.wf(),
            forall|i: int| 0 <= i < list@.len() ==> (#[trigger] list@[i]).0 < 10 && list@[i].1 < 22,
        ensures
            final(self).wf(),
            final(self).model() == render_pass(old(self).model(), lines, color, list@, board@),
    {
        self.set_write_bounds(TTYBounds { y: 1, x: 30, end_x: 79, end_y: 24 });
        self.print_score(lines);
        self.render_shape(color, list);
        self.render_stale(board);
        self.render_outline();
    }

    /// Draw one cell at its logical game position.
    fn render_block(&mut self, x: usize, y: usize, color: Color)
        requires
            old(self).wf(),
            x < 10,
            y < 22,
        ensures
            final(self).wf(),
            final(self).model() == block_spec(old(self).model(), x as int, y as int, color),
    {
        self.draw_line_horizontal(y + 1, x * 2 + 2, x * 2 + 3, color);
    }
}

/// Two frames agree on cursor, viewport and cell count.
pub open spec fn same_pos(a: FrameModel, b: FrameModel) -> bool {
    &&& a.row == b.row
    &&& a.col == b.col
    &&& a.bounds == b.bounds
    &&& a.cells.len() == b.cells.len()
}

/// One drawing step taken on two frames writes the same cells with the same
/// values: afterwards the cursors agree, and every cell either holds the
/// same value in both results, or was left untouched in both.
pub open spec fn stable_step(m1: FrameModel, m2: FrameModel, r1: FrameModel, r2: FrameModel) -> bool {
    &&& same_pos(r1, r2)
    &&& r1.cells.len() == m1.cells.len()
    &&& r2.cells.len() == m2.cells.len()
    &&& forall|i: int|
        0 <= i < r1.cells.len() ==> (#[trigger] r1.cells[i]) == r2.cells[i] || (r1.cells[i]
            == m1.cells[i] && r2.cells[i] == m2.cells[i])
}

proof fn lemma_stable_refl(m1: FrameModel, m2: FrameModel)
    requires
        same_pos(m1, m2),
    ensures
        stable_step(m1, m2, m1, m2),
{
}

proof fn lemma_stable_trans(
    m1: FrameModel,
    m2: FrameModel,
    r1: FrameModel,
    r2: FrameModel,
    s1: FrameModel,
    s2: FrameModel,
)
    requires
        stable_step(m1, m2, r1, r2),
        stable_step(r1, r2, s1, s2),
    ensures
        stable_step(m1, m2, s1, s2),
{
    assert forall|i: int|
        0 <= i < s1.cells.len() implies (#[trigger] s1.cells[i]) == s2.cells[i] || (s1.cells[i]
            == m1.cells[i] && s2.cells[i] == m2.cells[i]) by {
        assert(r1.cells[i] == r2.cells[i] || (r1.cells[i] == m1.cells[i] && r2.cells[i]
            == m2.cells[i]));
        assert(s1.cells[i] == s2.cells[i] || (s1.cells[i] == r1.cells[i] && s2.cells[i]
            == r2.cells[i]));
    }
}

proof fn lemma_put_stable(m1: FrameModel, m2: FrameModel, x: int, y: int, b: GraphicBlock)
    requires
        same_pos(m1, m2),
        0 <= y * 80 + x < m1.cells.len(),
    ensures
        stable_step(m1, m2, put_cell(m1, x, y, b), put_cell(m2, x, y, b)),
{
}

proof fn lemma_hline_stable(m1: FrameModel, m2: FrameModel, y: int, x1: int, x2: int, c: Color)
    requires
        same_pos(m1, m2),
        m1.cells.len() == 2000,
        0 <= x1,
        x2 < 80,
        0 <= y < 25,
    ensures
        stable_step(m1, m2, hline_spec(m1, y, x1, x2, c), hline_spec(m2, y, x1, x2, c)),
    decreases x2 + 1 - x1,
{
    if x1 > x2 {
        lemma_stable_refl(m1, m2);
    } else {
        lemma_put_stable(m1, m2, x1, y, solid_block(c));
        let q1 = square_spec(m1, x1, y, c);
        let q2 = square_spec(m2, x1, y, c);
        lemma_hline_stable(q1, q2, y, x1 + 1, x2, c);
        lemma_stable_trans(
            m1,
            m2,
            q1,
            q2,
            hline_spec(q1, y, x1 + 1, x2, c),
            hline_spec(q2, y, x1 + 1, x2, c),
        );
    }
}

proof fn lemma_vline_stable(m1: FrameModel, m2: FrameModel, x: int, y1: int, y2: int, c: Color)
    requires
        same_pos(m1, m2),
        m1.cells.len() == 2000,
        0 <= y1,
        y2 < 25,
        0 <= x < 80,
    ensures
        stable_step(m1, m2, vline_spec(m1, x, y1, y2, c), vline_spec(m2, x, y1, y2, c)),
    decreases y2 + 1 - y1,
{
    if y1 > y2 {
        lemma_stable_refl(m1, m2);
    } else {
        lemma_put_stable(m1, m2, x, y1, solid_block(c));
        let q1 = square_spec(m1, x, y1, c);
        let q2 = square_spec(m2, x, y1, c);
        lemma_vline_stable(q1, q2, x, y1 + 1, y2, c);
        lemma_stable_trans(
            m1,
            m2,
            q1,
            q2,
            vline_spec(q1, x, y1 + 1, y2, c),
            vline_spec(q2, x, y1 + 1, y2, c),
        );
    }
}

proof fn lemma_write_stable(m1: FrameModel, m2: FrameModel, bytes: Seq<u8>, i: int)
    requires
        same_pos(m1, m2),
        m1.cells.len() == 2000,
        bounds_ok(m1.bounds),
        0 <= m1.row,
        0 <= m1.col,
    ensures
        stable_step(m1, m2, write_spec(m1, bytes, i), write_spec(m2, bytes, i)),
        write_spec(m1, bytes, i).bounds == m1.bounds,
        0 <= write_spec(m1, bytes, i).row,
        0 <= write_spec(m1, bytes, i).col,
    decreases bytes.len() - i,
{
    if i < 0 || i >= bytes.len() {
        lemma_stable_refl(m1, m2);
    } else if bytes[i] == 10 {
        let n1 = FrameModel { row: bump_row(m1), col: m1.bounds.x as int, ..m1 };
        let n2 = FrameModel { row: bump_row(m2), col: m2.bounds.x as int, ..m2 };
        lemma_write_stable(n1, n2, bytes, i + 1);
        lemma_stable_refl(m1, m2);
        lemma_stable_trans(
            m1,
            m2,
            n1,
            n2,
            write_spec(n1, bytes, i + 1),
            write_spec(n2, bytes, i + 1),
        );
    } else {
        let w1 = if m1.col > m1.bounds.end_x {
            FrameModel { row: bump_row(m1), col: m1.bounds.x as int, ..m1 }
        } else {
            m1
        };
        let w2 = if m2.col > m2.bounds.end_x {
            FrameModel { row: bump_row(m2), col: m2.bounds.x as int, ..m2 }
        } else {
            m2
        };
        if w1.row > w1.bounds.end_y {
            lemma_stable_refl(w1, w2);
        } else {
            let b = char_block(Color::Cyan, Color::Black, bytes[i]);
            lemma_put_stable(w1, w2, w1.col, w1.row, b);
            let n1 = FrameModel {
                cells: w1.cells.update(w1.row * 80 + w1.col, b),
                col: w1.col + 1,
                ..w1
            };
            let n2 = FrameModel {
                cells: w2.cells.update(w2.row * 80 + w2.col, b),
                col: w2.col + 1,
                ..w2
            };
            lemma_write_stable(n1, n2, bytes, i + 1);
            lemma_stable_trans(
                m1,
                m2,
                n1,
                n2,
                write_spec(n1, bytes, i + 1),
                write_spec(n2, bytes, i + 1),
            );
        }
    }
}

proof fn lemma_shape_stable(
    m1: FrameModel,
    m2: FrameModel,
    c: Color,
    cells: Seq<(usize, usize)>,
    i: int,
)
    requires
        same_pos(m1, m2),
        m1.cells.len() == 2000,
        forall|k: int| 0 <= k < cells.len() ==> (#[trigger] cells[k]).0 < 10 && cells[k].1 < 22,
    ensures
        stable_step(m1, m2, shape_spec(m1, c, cells, i), shape_spec(m2, c, cells, i)),
    decreases cells.len() - i,
{
    if i < 0 || i >= cells.len() {
        lemma_stable_refl(m1, m2);
    } else {
        lemma_hline_stable(
            m1,
            m2,
            cells[i].1 + 1,
            2 * (cells[i].0 as int) + 2,
            2 * (cells[i].0 as int) + 3,
            c,
        );
        let q1 = block_spec(m1, cells[i].0 as int, cells[i].1 as int, c);
        let q2 = block_spec(m2, cells[i].0 as int, cells[i].1 as int, c);
        lemma_shape_stable(q1, q2, c, cells, i + 1);
        lemma_stable_trans(
            m1,
            m2,
            q1,
            q2,
            shape_spec(q1, c, cells, i + 1),
            shape_spec(q2, c, cells, i + 1),
        );
    }
}

proof fn lemma_stale_stable(m1: FrameModel, m2: FrameModel, s: Seq<BlockState>, x: int, y: int)
    requires
        same_pos(m1, m2),
        m1.cells.len() == 2000,
    ensures
        stable_step(m1, m2, stale_spec(m1, s, x, y), stale_spec(m2, s, x, y)),
    decreases 10 - x, 22 - y,
{
    if x < 0 || y < 0 || x >= 10 {
        lemma_stable_refl(m1, m2);
    } else if y >= 22 {
        lemma_stale_stable(m1, m2, s, x + 1, 0);
    } else {
        match grid(s, x, y) {
            BlockState::Block(c) => {
                lemma_hline_stable(m1, m2, y + 1, 2 * x + 2, 2 * x + 3, c);
                let q1 = block_spec(m1, x, y, c);
                let q2 = block_spec(m2, x, y, c);
                lemma_stale_stable(q1, q2, s, x, y + 1);
                lemma_stable_trans(
                    m1,
                    m2,
                    q1,
                    q2,
                    stale_spec(q1, s, x, y + 1),
                    stale_spec(q2, s, x, y + 1),
                );
            },
            BlockState::Empty => {
                lemma_stale_stable(m1, m2, s, x, y + 1);
            },
        }
    }
}

proof fn lemma_outline_stable(m1: FrameModel, m2: FrameModel)
    requires
        same_pos(m1, m2),
        m1.cells.len() == 2000,
    ensures
        stable_step(m1, m2, outline_spec(m1), outline_spec(m2)),
{
    let a1 = vline_spec(m1, 0, 0, 22, Color::DarkGray);
    let a2 = vline_spec(m2, 0, 0, 22, Color::DarkGray);
    lemma_vline_stable(m1, m2, 0, 0, 22, Color::DarkGray);
    let b1 = vline_spec(a1, 1, 0, 22, Color::DarkGray);
    let b2 = vline_spec(a2, 1, 0, 22, Color::DarkGray);
    lemma_vline_stable(a1, a2, 1, 0, 22, Color::DarkGray);
    lemma_stable_trans(m1, m2, a1, a2, b1, b2);
    let c1 = vline_spec(b1, 22, 0, 22, Color::DarkGray);
    let c2 = vline_spec(b2, 22, 0, 22, Color::DarkGray);
    lemma_vline_stable(b1, b2, 22, 0, 22, Color::DarkGray);
    lemma_stable_trans(m1, m2, b1, b2, c1, c2);
    let d1 = vline_spec(c1, 23, 0, 22, Color::DarkGray);
    let d2 = vline_spec(c2, 23, 0, 22, Color::DarkGray);
    lemma_vline_stable(c1, c2, 23, 0, 22, Color::DarkGray);
    lemma_stable_trans(m1, m2, c1, c2, d1, d2);
    let e1 = hline_spec(d1, 0, 0, 21, Color::DarkGray);
    let e2 = hline_spec(d2, 0, 0, 21, Color::DarkGray);
    lemma_hline_stable(d1, d2, 0, 0, 21, Color::DarkGray);
    lemma_stable_trans(m1, m2, d1, d2, e1, e2);
    lemma_hline_stable(e1, e2, 23, 0, 23, Color::DarkGray);
    lemma_stable_trans(
        m1,
        m2,
        e1,
        e2,
        hline_spec(e1, 23, 0, 23, Color::DarkGray),
        hline_spec(e2, 23, 0, 23, Color::DarkGray),
    );
}

/// One render pass taken on two frames of the right size writes the same
/// cells with the same values, whatever the frames held before.
pub proof fn lemma_render_pass_stable(
    m1: FrameModel,
    m2: FrameModel,
    lines: u64,
    c: Color,
    cells: Seq<(usize, usize)>,
    board: Seq<BlockState>,
)
    requires
        m1.cells.len() == 2000,
        m2.cells.len() == 2000,
        forall|k: int| 0 <= k < cells.len() ==> (#[trigger] cells[k]).0 < 10 && cells[k].1 < 22,
    ensures
        stable_step(
            m1,
            m2,
            render_pass(m1, lines, c, cells, board),
            render_pass(m2, lines, c, cells, board),
        ),
{
    let b1 = set_bounds_spec(m1, game_bounds());
    let b2 = set_bounds_spec(m2, game_bounds());
    assert(stable_step(m1, m2, b1, b2));
    let w1 = write_spec(b1, ("lines cleares: ").spec_bytes(), 0);
    let w2 = write_spec(b2, ("lines cleares: ").spec_bytes(), 0);
    lemma_write_stable(b1, b2, ("lines cleares: ").spec_bytes(), 0);
    lemma_stable_trans(m1, m2, b1, b2, w1, w2);
    let v1 = write_spec(w1, dec_rep(lines as nat), 0);
    let v2 = write_spec(w2, dec_rep(lines as nat), 0);
    lemma_write_stable(w1, w2, dec_rep(lines as nat), 0);
    lemma_stable_trans(m1, m2, w1, w2, v1, v2);
    let p1 = shape_spec(v1, c, cells, 0);
    let p2 = shape_spec(v2, c, cells, 0);
    lemma_shape_stable(v1, v2, c, cells, 0);
    lemma_stable_trans(m1, m2, v1, v2, p1, p2);
    let t1 = stale_spec(p1, board, 0, 0);
    let t2 = stale_spec(p2, board, 0, 0);
    lemma_stale_stable(p1, p2, board, 0, 0);
    lemma_stable_trans(m1, m2, p1, p2, t1, t2);
    lemma_outline_stable(t1, t2);
    lemma_stable_trans(m1, m2, t1, t2, outline_spec(t1), outline_spec(t2));
}

/// Rendering is idempotent: running the render pass a second time, with an
/// unchanged session, over the frame the first pass produced, yields a
/// bit-identical frame.
pub proof fn lemma_render_idempotent(
    m: FrameModel,
    lines: u64,
    c: Color,
    cells: Seq<(usize, usize)>,
    board: Seq<BlockState>,
)
    requires
        m.cells.len() == 2000,
        forall|k: int| 0 <= k < cells.len() ==> (#[trigger] cells[k]).0 < 10 && cells[k].1 < 22,
    ensures
        render_pass(render_pass(m, lines, c, cells, board), lines, c, cells, board) == render_pass(
            m,
            lines,
            c,
            cells,
            board,
        ),
{
    let r1 = render_pass(m, lines, c, cells, board);
    lemma_render_pass_stable(m, m, lines, c, cells, board);
    lemma_render_pass_stable(m, r1, lines, c, cells, board);
    let r2 = render_pass(r1, lines, c, cells, board);
    assert forall|i: int| 0 <= i < r1.cells.len() implies r1.cells[i] == r2.cells[i] by {
        assert(r1.cells[i] == r2.cells[i] || (r1.cells[i] == m.cells[i] && r2.cells[i]
            == r1.cells[i]));
    }
    assert(r1.cells =~= r2.cells);
    assert(r1 =~= r2);
}

} // verus!
