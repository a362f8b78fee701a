//! A text-mode frame buffer: an 80x25 grid of character cells, each holding
//! one character code and a 4-bit foreground + 4-bit background color index.
//! Drawing is pure in-memory computation; pushing the finished frame to a
//! physical display is the caller's concern.

use vstd::prelude::*;
use vstd::string::StringSliceAdditionalSpecFns;
use vstd::string::StrSliceExecFns;

verus! {

pub const WIDTH: usize = 80;
pub const HEIGHT: usize = 25;

/// The 16-color text-mode palette.
#[derive(Debug, Clone, Copy, PartialEq, Eq)]
pub enum Color {
    Black,
    Blue,
    Green,
    Cyan,
    Red,
    Magenta,
    Brown,
    LightGray,
    DarkGray,
    LightBlue,
    LightGreen,
    LightCyan,
    LightRed,
    Pink,
    Yellow,
    White,
}

pub open spec fn color_code(c: Color) -> u8 {
    match c {
        Color::Black => 0,
        Color::Blue => 1,
        Color::Green => 2,
        Color::Cyan => 3,
        Color::Red => 4,
        Color::Magenta => 5,
        Color::Brown => 6,
        Color::LightGray => 7,
        Color::DarkGray => 8,
        Color::LightBlue => 9,
        Color::LightGreen => 10,
        Color::LightCyan => 11,
        Color::LightRed => 12,
        Color::Pink => 13,
        Color::Yellow => 14,
        Color::White => 15,
    }
}

impl Color {
    /// The 4-bit palette index of this color.
    pub fn code(self) -> (r: u8)
        ensures
            r == color_code(self),
    {
        match self {
            Color::Black => 0,
            Color::Blue => 1,
            Color::Green => 2,
            Color::Cyan => 3,
            Color::Red => 4,
            Color::Magenta => 5,
            Color::Brown => 6,
            Color::LightGray => 7,
            Color::DarkGray => 8,
            Color::LightBlue => 9,
            Color::LightGreen => 10,
            Color::LightCyan => 11,
            Color::LightRed => 12,
            Color::Pink => 13,
            Color::Yellow => 14,
            Color::White => 15,
        }
    }
}

/// One cell of the frame: a character code and a packed color byte
/// (background in the high nibble, foreground in the low nibble).
#[derive(Debug, Clone, Copy, PartialEq, Eq)]
pub struct GraphicBlock {
    pub character: u8,
    pub color: u8,
}

pub open spec fn solid_block(c: Color) -> GraphicBlock {
    GraphicBlock { character: 32u8, color: color_code(c) << 4 }
}

pub open spec fn char_block(foreground: Color, background: Color, c: u8) -> GraphicBlock {
    GraphicBlock { character: c, color: (color_code(background) << 4) | color_code(foreground) }
}

impl GraphicBlock {
    /// A cell showing character `c` in the given colors.
    pub fn with_char(foreground: Color, background: Color, c: u8) -> (r: GraphicBlock)
        ensures
            r == char_block(foreground, background, c),
    {
        let color = (background.code() << 4) | foreground.code();
        GraphicBlock { color, character: c }
    }

    /// A cell filled with a solid color.
    pub fn solid(color: Color) -> (r: GraphicBlock)
        ensures
            r == solid_block(color),
    {
        let color = color.code() << 4;
        GraphicBlock { color, character: 32u8 }
    }
}

impl Default for GraphicBlock {
    fn default() -> (r: GraphicBlock)
        ensures
            r == solid_block(Color::Black),
    {
        GraphicBlock::solid(Color::Black)
    }
}

/// A viewport constraining text writes: inclusive column range `x..=end_x`
/// and inclusive row range `y..=end_y`.
#[derive(Clone, Copy, Debug, PartialEq, Eq)]
pub struct TTYBounds {
    pub x: usize,
    pub y: usize,
    pub end_y: usize,
    pub end_x: usize,
}

pub open spec fn bounds_ok(b: TTYBounds) -> bool {
    &&& b.end_x < 80
    &&& b.end_y < 25
    &&& b.x <= b.end_x
    &&& b.y <= b.end_y
}

/// The mathematical value of a frame: its cells in row-major order
/// (index `row * 80 + col`), plus the text cursor and the viewport.
#[verifier::ext_equal]
pub ghost struct FrameModel {
    pub cells: Seq<GraphicBlock>,
    pub row: int,
    pub col: int,
    pub bounds: TTYBounds,
}

/// An in-memory frame, drawn into cell by cell and flushed as a whole.
pub struct TTYFrame {
    pub frame_data: Vec<GraphicBlock>,
    pub row: usize,
    pub col: usize,
    pub bounds: TTYBounds,
}

pub open spec fn put_cell(m: FrameModel, x: int, y: int, b: GraphicBlock) -> FrameModel {
    FrameModel { cells: m.cells.update(y * 80 + x, b), ..m }
}

pub open spec fn square_spec(m: FrameModel, x: int, y: int, c: Color) -> FrameModel {
    put_cell(m, x, y, solid_block(c))
}

pub open spec fn hline_spec(m: FrameModel, y: int, x1: int, x2: int, c: Color) -> FrameModel
    decreases x2 + 1 - x1,
{
    if x1 > x2 {
        m
    } else {
        hline_spec(square_spec(m, x1, y, c), y, x1 + 1, x2, c)
    }
}

pub open spec fn vline_spec(m: FrameModel, x: int, y1: int, y2: int, c: Color) -> FrameModel
    decreases y2 + 1 - y1,
{
    if y1 > y2 {
        m
    } else {
        vline_spec(square_spec(m, x, y1, c), x, y1 + 1, y2, c)
    }
}

/// The row advance used by text writing: one row down, capped just below
/// the viewport, so a cursor past the bottom edge never drifts further.
pub open spec fn bump_row(m: FrameModel) -> int {
    if m.row > m.bounds.end_y {
        m.bounds.end_y + 1
    } else {
        m.row + 1
    }
}

/// One pass of the text writer over `bytes`, starting at byte `i`:
/// a newline resets the column and advances the row; any other byte wraps at
/// the viewport's right edge, is dropped (with everything after it) once the
/// bottom edge is exceeded, and is otherwise drawn at the cursor.
pub open spec fn write_spec(m: FrameModel, bytes: Seq<u8>, i: int) -> FrameModel
    decreases bytes.len() - i,
{
    if i < 0 || i >= bytes.len() {
        m
    } else if bytes[i] == 10 {
        write_spec(FrameModel { row: bump_row(m), col: m.bounds.x as int, ..m }, bytes, i + 1)
    } else {
        let m1 = if m.col > m.bounds.end_x {
            FrameModel { row: bump_row(m), col: m.bounds.x as int, ..m }
        } else {
            m
        };
        if m1.row > m1.bounds.end_y {
            m1
        } else {
            let m2 = FrameModel {
                cells: m1.cells.update(
                    m1.row * 80 + m1.col,
                    char_block(Color::Cyan, Color::Black, bytes[i]),
                ),
                col: m1.col + 1,
                ..m1
            };
            write_spec(m2, bytes, i + 1)
        }
    }
}

pub open spec fn set_bounds_spec(m: FrameModel, b: TTYBounds) -> FrameModel {
    FrameModel { bounds: b, row: b.y as int, col: b.x as int, ..m }
}

pub open spec fn blank_model() -> FrameModel {
    FrameModel {
        cells: Seq::new(2000, |i: int| solid_block(Color::Black)),
        row: 0,
        col: 0,
        bounds: TTYBounds { x: 0, y: 0, end_x: 79, end_y: 24 },
    }
}

/// The decimal digits of `n`, most significant first, as ASCII bytes.
pub open spec fn dec_rep(n: nat) -> Seq<u8>
    decreases n,
{
    if n < 10 {
        seq![(n + 48) as u8]
    } else {
        dec_rep(n / 10).push((n % 10 + 48) as u8)
    }
}

/// The decimal digits of `n`, most significant first, as ASCII bytes.
pub fn decimal_digits(n: u64) -> (r: Vec<u8>)
    ensures
        r@ == dec_rep(n as nat),
    decreases n,
{
    if n < 10 {
        let mut v: Vec<u8> = Vec::new();
        v.push((n as u8) + 48);
        assert(v@ =~= dec_rep(n as nat));
        v
    } else {
        let mut v = decimal_digits(n / 10);
        v.push(((n % 10) as u8) + 48);
        assert(v@ =~= dec_rep(n as nat));
        v
    }
}

impl TTYFrame {
    pub open spec fn model(self) -> FrameModel {
        FrameModel {
            cells: self.frame_data@,
            row: self.row as int,
            col: self.col as int,
            bounds: self.bounds,
        }
    }

    pub open spec fn wf(self) -> bool {
        &&& self.frame_data@.len() == 2000
        &&& bounds_ok(self.bounds)
        &&& self.row <= 25
        &&& self.col <= 80
    }

    /// A blank frame: all cells solid black, full-screen viewport,
    /// cursor at the top-left corner.
    pub fn new() -> (r: TTYFrame)
        ensures
            r.wf(),
            r.model() == blank_model(),
    {
        let mut data: Vec<GraphicBlock> = Vec::new();
        let mut i: usize = 0;
        while i < 2000
            invariant
                i <= 2000,
                data@.len() == i,
                forall|k: int| 0 <= k < i ==> data@[k] == solid_block(Color::Black),
            decreases 2000 - i,
        {
            data.push(GraphicBlock::solid(Color::Black));
            i += 1;
        }
        let r = TTYFrame {
            frame_data: data,
            row: 0,
            col: 0,
            bounds: TTYBounds { x: 0, y: 0, end_x: WIDTH - 1, end_y: HEIGHT - 1 },
        };
        assert(r.model().cells =~= blank_model().cells);
        r
    }

    /// The cell at column `x`, row `y`.
    pub fn cell_at(&self, x: usize, y: usize) -> (r: GraphicBlock)
        requires
            self.wf(),
            x < 80,
            y < 25,
        ensures
            r == self.model().cells[y * 80 + x],
    {
        self.frame_data[y * WIDTH + x]
    }

    /// Fill the cell at column `x`, row `y` with a solid color.
    pub fn draw_square(&mut self, x: usize, y: usize, color: Color)
        requires
            old(self).wf(),
            x < 80,
            y < 25,
        ensures
            final(self).wf(),
            final(self).model() == square_spec(old(self).model(), x as int, y as int, color),
    {
        self.frame_data[y * WIDTH + x] = GraphicBlock::solid(color);
    }

    /// Put character `c` at column `x`, row `y` in the standard text colors.
    pub fn draw_char(&mut self, x: usize, y: usize, c: u8)
        requires
            old(self).wf(),
            x < 80,
            y < 25,
        ensures
            final(self).wf(),
            final(self).model() == put_cell(
                old(self).model(),
                x as int,
                y as int,
                char_block(Color::Cyan, Color::Black, c),
            ),
    {
        self.frame_data[y * WIDTH + x] = GraphicBlock::with_char(Color::Cyan, Color::Black, c);
    }

    /// Fill the cells at rows `y1..=y2` of column `x`.
    pub fn draw_line_verticale(&mut self, x: usize, y1: usize, y2: usize, color: Color)
        requires
            old(self).wf(),
            x < 80,
            y2 < 25,
        ensures
            final(self).wf(),
            final(self).model() == vline_spec(
                old(self).model(),
                x as int,
                y1 as int,
                y2 as int,
                color,
            ),
    {
        let ghost goal = vline_spec(self.model(), x as int, y1 as int, y2 as int, color);
        let mut y = y1;
        while y <= y2
            invariant
                self.wf(),
                x < 80,
                y2 < 25,
                goal == vline_spec(self.model(), x as int, y as int, y2 as int, color),
            decreases y2 + 1 - y,
        {
            self.draw_square(x, y, color);
            y += 1;
        }
    }

    /// Fill the cells at columns `x1..=x2` of row `y`.
    pub fn draw_line_horizontal(&mut self, y: usize, x1: usize, x2: usize, color: Color)
        requires
            old(self).wf(),
            y < 25,
            x2 < 80,
        ensures
            final(self).wf(),
            final(self).model() == hline_spec(
                old(self).model(),
                y as int,
                x1 as int,
                x2 as int,
                color,
            ),
    {
        let ghost goal = hline_spec(self.model(), y as int, x1 as int, x2 as int, color);
        let mut x = x1;
        while x <= x2
            invariant
                self.wf(),
                y < 25,
                x2 < 80,
                goal == hline_spec(self.model(), y as int, x as int, x2 as int, color),
            decreases x2 + 1 - x,
        {
            self.draw_square(x, y, color);
            x += 1;
        }
    }

    /// Install a new viewport and move the cursor to its top-left corner.
    pub fn set_write_bounds(&mut self, bounds: TTYBounds)
        requires
            old(self).wf(),
            bounds_ok(bounds),
        ensures
            final(self).wf(),
            final(self).model() == set_bounds_spec(old(self).model(), bounds),
    {
        self.bounds = bounds;
        self.row = bounds.y;
        self.col = bounds.x;
    }

    /// Write raw bytes at the cursor, wrapping at the viewport's right edge,
    /// treating a newline as column-reset + row-advance, and dropping the rest
    /// of the text once the bottom edge is exceeded.
    pub fn write_bytes(&mut self, bytes: &Vec<u8>)
        requires
            old(self).wf(),
        ensures
            final(self).wf(),
            final(self).model() == write_spec(old(self).model(), bytes@, 0),
    {
        let ghost goal = write_spec(self.model(), bytes@, 0);
        let mut i: usize = 0;
        while i < bytes.len()
            invariant
                self.wf(),
                i <= bytes@.len(),
                goal == write_spec(self.model(), bytes@, i as int),
            decreases bytes@.len() - i,
        {
            let c = bytes[i];
            if c == 10 {
                if self.row > self.bounds.end_y {
                    self.row = self.bounds.end_y + 1;
                } else {
                    self.row = self.row + 1;
                }
                self.col = self.bounds.x;
                i += 1;
            } else {
                if self.col > self.bounds.end_x {
                    self.col = self.bounds.x;
                    if self.row > self.bounds.end_y {
                        self.row = self.bounds.end_y + 1;
                    } else {
                        self.row = self.row + 1;
                    }
                }
                if self.row > self.bounds.end_y {
                    i = bytes.len();
                } else {
                    self.draw_char(self.col, self.row, c);
                    self.col = self.col + 1;
                    i += 1;
                }
            }
        }
    }

    /// Write an ASCII string at the cursor; see `write_bytes`.
    pub fn write_text(&mut self, s: &str)
        requires
            old(self).wf(),
        ensures
            final(self).wf(),
            final(self).model() == write_spec(old(self).model(), s.spec_bytes(), 0),
    {
        let bytes = s.as_bytes_vec();
        self.write_bytes(&bytes);
    }
}

/// A fresh full-screen frame holding just `message`, ready to be flushed.
pub fn quick_write_message(message: &str) -> (r: TTYFrame)
    ensures
        r.wf(),
        r.model() == write_spec(blank_model(), message.spec_bytes(), 0),
{
    let mut frame = TTYFrame::new();
    frame.write_text(message);
    frame
}

} // verus!
