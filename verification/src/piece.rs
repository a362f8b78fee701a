//! The tetromino catalog: the 7 piece kinds, their display colors, the 4
//! cyclic rotation states, and the hand-authored offset table giving the 4
//! occupied cells of each (kind, rotation) pair relative to the anchor.

use vstd::prelude::*;
use crate::graphics::Color;

verus! {

/// One of the 7 tetromino kinds.
#[derive(Debug, Clone, Copy, PartialEq, Eq)]
pub enum BlockType {
    I,
    Z,
    S,
    T,
    Square,
    J,
    L,
}

/// One of the 4 rotation states, advanced only by 90-degree clockwise steps.
#[derive(Debug, Clone, Copy, PartialEq, Eq)]
pub enum BlockRotation {
    Zero,
    Single,
    Double,
    Triple,
}

pub open spec fn block_color(t: BlockType) -> Color {
    match t {
        BlockType::I => Color::Cyan,
        BlockType::Z => Color::Red,
        BlockType::S => Color::Blue,
        BlockType::T => Color::Magenta,
        BlockType::Square => Color::Yellow,
        BlockType::J => Color::Green,
        BlockType::L => Color::Pink,
    }
}

/// The kind drawn from a tick count: the 7 kinds in a fixed cycle.
pub open spec fn random_kind(time: u64) -> BlockType {
    if time % 7 == 0 {
        BlockType::I
    } else if time % 7 == 1 {
        BlockType::Z
    } else if time % 7 == 2 {
        BlockType::S
    } else if time % 7 == 3 {
        BlockType::T
    } else if time % 7 == 4 {
        BlockType::Square
    } else if time % 7 == 5 {
        BlockType::J
    } else {
        BlockType::L
    }
}

pub open spec fn rotated_right(r: BlockRotation) -> BlockRotation {
    match r {
        BlockRotation::Zero => BlockRotation::Single,
        BlockRotation::Single => BlockRotation::Double,
        BlockRotation::Double => BlockRotation::Triple,
        BlockRotation::Triple => BlockRotation::Zero,
    }
}

/// The anchor-relative cell `i` (0..4) of a piece of the given kind and
/// rotation, as `(dx, dy)`. This table is ground truth for piece shapes.
pub open spec fn piece_offset(t: BlockType, r: BlockRotation, i: int) -> (int, int) {
    match t {
        BlockType::Square => if i == 0 {
            (0, 0)
        } else if i == 1 {
            (0, 1)
        } else if i == 2 {
            (1, 0)
        } else {
            (1, 1)
        },
        BlockType::I => match r {
            BlockRotation::Zero | BlockRotation::Double => if i == 0 {
                (0, 0)
            } else if i == 1 {
                (0, 1)
            } else if i == 2 {
                (0, 2)
            } else {
                (0, 3)
            },
            BlockRotation::Single | BlockRotation::Triple => if i == 0 {
                (0, 0)
            } else if i == 1 {
                (-1, 0)
            } else if i == 2 {
                (1, 0)
            } else {
                (2, 0)
            },
        },
        BlockType::T => match r {
            BlockRotation::Zero => if i == 0 {
                (0, 0)
            } else if i == 1 {
                (-1, 0)
            } else if i == 2 {
                (1, 0)
            } else {
                (0, 1)
            },
            BlockRotation::Single => if i == 0 {
                (0, 0)
            } else if i == 1 {
                (-1, 0)
            } else if i == 2 {
                (0, -1)
            } else {
                (0, 1)
            },
            BlockRotation::Double => if i == 0 {
                (0, 0)
            } else if i == 1 {
                (0, -1)
            } else if i == 2 {
                (-1, 0)
            } else {
                (1, 0)
            },
            BlockRotation::Triple => if i == 0 {
                (0, 0)
            } else if i == 1 {
                (1, 0)
            } else if i == 2 {
                (0, -1)
            } else {
                (0, 1)
            },
        },
        BlockType::S => match r {
            BlockRotation::Zero | BlockRotation::Double => if i == 0 {
                (0, 0)
            } else if i == 1 {
                (0, 1)
            } else if i == 2 {
                (-1, 1)
            } else {
                (1, 0)
            },
            BlockRotation::Single | BlockRotation::Triple => if i == 0 {
                (0, 0)
            } else if i == 1 {
                (1, 0)
            } else if i == 2 {
                (0, -1)
            } else {
                (1, 1)
            },
        },
        BlockType::Z => match r {
            BlockRotation::Zero | BlockRotation::Double => if i == 0 {
                (0, 0)
            } else if i == 1 {
                (-1, 0)
            } else if i == 2 {
                (0, 1)
            } else {
                (1, 1)
            },
            BlockRotation::Single | BlockRotation::Triple => if i == 0 {
                (0, 0)
            } else if i == 1 {
                (1, 0)
            } else if i == 2 {
                (1, -1)
            } else {
                (0, 1)
            },
        },
        BlockType::J => match r {
            BlockRotation::Zero => if i == 0 {
                (0, 0)
            } else if i == 1 {
                (1, -1)
            } else if i == 2 {
                (0, 1)
            } else {
                (0, -1)
            },
            BlockRotation::Single => if i == 0 {
                (0, 0)
            } else if i == 1 {
                (-1, 0)
            } else if i == 2 {
                (1, 0)
            } else {
                (1, 1)
            },
            BlockRotation::Double => if i == 0 {
                (0, 0)
            } else if i == 1 {
                (-1, 1)
            } else if i == 2 {
                (0, 1)
            } else {
                (0, -1)
            },
            BlockRotation::Triple => if i == 0 {
                (0, 0)
            } else if i == 1 {
                (-1, 0)
            } else if i == 2 {
                (1, 0)
            } else {
                (-1, -1)
            },
        },
        BlockType::L => match r {
            BlockRotation::Zero => if i == 0 {
                (0, 0)
            } else if i == 1 {
                (0, -1)
            } else if i == 2 {
                (0, 1)
            } else {
                (1, 1)
            },
            BlockRotation::Single => if i == 0 {
                (0, 0)
            } else if i == 1 {
                (-1, 0)
            } else if i == 2 {
                (-1, 1)
            } else {
                (1, 0)
            },
            BlockRotation::Double => if i == 0 {
                (0, 0)
            } else if i == 1 {
                (-1, -1)
            } else if i == 2 {
                (0, -1)
            } else {
                (0, 1)
            },
            BlockRotation::Triple => if i == 0 {
                (0, 0)
            } else if i == 1 {
                (1, -1)
            } else if i == 2 {
                (-1, 0)
            } else {
                (1, 0)
            },
        },
    }
}

/// Every piece occupies its own anchor: offset 0 is always (0, 0).
pub proof fn lemma_offset_zero(t: BlockType, r: BlockRotation)
    ensures
        piece_offset(t, r, 0) == (0int, 0int),
{
}

impl BlockType {
    /// The fixed display color of this kind.
    pub fn color(self) -> (c: Color)
        ensures
            c == block_color(self),
    {
        match self {
            BlockType::I => Color::Cyan,
            BlockType::Z => Color::Red,
            BlockType::S => Color::Blue,
            BlockType::T => Color::Magenta,
            BlockType::Square => Color::Yellow,
            BlockType::J => Color::Green,
            BlockType::L => Color::Pink,
        }
    }

    /// Pick a kind from a tick count; total over all 7 kinds by construction.
    pub fn random(time: u64) -> (t: BlockType)
        ensures
            t == random_kind(time),
    {
        let result = time % 7;
        if result == 0 {
            BlockType::I
        } else if result == 1 {
            BlockType::Z
        } else if result == 2 {
            BlockType::S
        } else if result == 3 {
            BlockType::T
        } else if result == 4 {
            BlockType::Square
        } else if result == 5 {
            BlockType::J
        } else {
            BlockType::L
        }
    }
}

impl BlockRotation {
    /// Advance one 90-degree clockwise step; cyclic over the 4 states.
    pub fn right_rotate(self) -> (r: BlockRotation)
        ensures
            r == rotated_right(self),
    {
        match self {
            BlockRotation::Zero => BlockRotation::Single,
            BlockRotation::Single => BlockRotation::Double,
            BlockRotation::Double => BlockRotation::Triple,
            BlockRotation::Triple => BlockRotation::Zero,
        }
    }

    /// The exec counterpart of the offset table: the anchor-relative cell `i`
    /// of a piece of kind `t` in rotation `self`.
    pub fn offset_of(self, t: BlockType, i: usize) -> (d: (i32, i32))
        requires
            i < 4,
        ensures
            d.0 as int == piece_offset(t, self, i as int).0,
            d.1 as int == piece_offset(t, self, i as int).1,
    {
        match t {
            BlockType::Square => {
                if i == 0 { (0, 0) } else if i == 1 { (0, 1) } else if i == 2 { (1, 0) } else { (1, 1) }
            },
            BlockType::I => match self {
                BlockRotation::Zero | BlockRotation::Double => {
                    if i == 0 { (0, 0) } else if i == 1 { (0, 1) } else if i == 2 { (0, 2) } else { (0, 3) }
                },
                BlockRotation::Single | BlockRotation::Triple => {
                    if i == 0 { (0, 0) } else if i == 1 { (-1, 0) } else if i == 2 { (1, 0) } else { (2, 0) }
                },
            },
            BlockType::T => match self {
                BlockRotation::Zero => {
                    if i == 0 { (0, 0) } else if i == 1 { (-1, 0) } else if i == 2 { (1, 0) } else { (0, 1) }
                },
                BlockRotation::Single => {
                    if i == 0 { (0, 0) } else if i == 1 { (-1, 0) } else if i == 2 { (0, -1) } else { (0, 1) }
                },
                BlockRotation::Double => {
                    if i == 0 { (0, 0) } else if i == 1 { (0, -1) } else if i == 2 { (-1, 0) } else { (1, 0) }
                },
                BlockRotation::Triple => {
                    if i == 0 { (0, 0) } else if i == 1 { (1, 0) } else if i == 2 { (0, -1) } else { (0, 1) }
                },
            },
            BlockType::S => match self {
                BlockRotation::Zero | BlockRotation::Double => {
                    if i == 0 { (0, 0) } else if i == 1 { (0, 1) } else if i == 2 { (-1, 1) } else { (1, 0) }
                },
                BlockRotation::Single | BlockRotation::Triple => {
                    if i == 0 { (0, 0) } else if i == 1 { (1, 0) } else if i == 2 { (0, -1) } else { (1, 1) }
                },
            },
            BlockType::Z => match self {
                BlockRotation::Zero | BlockRotation::Double => {
                    if i == 0 { (0, 0) } else if i == 1 { (-1, 0) } else if i == 2 { (0, 1) } else { (1, 1) }
                },
                BlockRotation::Single | BlockRotation::Triple => {
                    if i == 0 { (0, 0) } else if i == 1 { (1, 0) } else if i == 2 { (1, -1) } else { (0, 1) }
                },
            },
            BlockType::J => match self {
                BlockRotation::Zero => {
                    if i == 0 { (0, 0) } else if i == 1 { (1, -1) } else if i == 2 { (0, 1) } else { (0, -1) }
                },
                BlockRotation::Single => {
                    if i == 0 { (0, 0) } else if i == 1 { (-1, 0) } else if i == 2 { (1, 0) } else { (1, 1) }
                },
                BlockRotation::Double => {
                    if i == 0 { (0, 0) } else if i == 1 { (-1, 1) } else if i == 2 { (0, 1) } else { (0, -1) }
                },
                BlockRotation::Triple => {
                    if i == 0 { (0, 0) } else if i == 1 { (-1, 0) } else if i == 2 { (1, 0) } else { (-1, -1) }
                },
            },
            BlockType::L => match self {
                BlockRotation::Zero => {
                    if i == 0 { (0, 0) } else if i == 1 { (0, -1) } else if i == 2 { (0, 1) } else { (1, 1) }
                },
                BlockRotation::Single => {
                    if i == 0 { (0, 0) } else if i == 1 { (-1, 0) } else if i == 2 { (-1, 1) } else { (1, 0) }
                },
                BlockRotation::Double => {
                    if i == 0 { (0, 0) } else if i == 1 { (-1, -1) } else if i == 2 { (0, -1) } else { (0, 1) }
                },
                BlockRotation::Triple => {
                    if i == 0 { (0, 0) } else if i == 1 { (1, -1) } else if i == 2 { (-1, 0) } else { (1, 0) }
                },
            },
        }
    }
}

} // verus!
