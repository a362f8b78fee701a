//! The game state machine: one session object holding the board, the falling
//! piece, gravity timing, the previous input snapshot, and the cleared-lines
//! counter, advanced once per timer tick. Every transition is a mathematical
//! function of the old session, the tick count, and the input snapshot.

use vstd::prelude::*;
use crate::board::{Board, BlockState, full_count, compact_seq, lemma_full_count_bounds};
use crate::piece::{BlockType, BlockRotation, block_color, random_kind, rotated_right};
use crate::block_list::{BlockList, list, place_ok, cell_ok, cells_of};
use crate::input::{Key, KeyboardState};
use crate::graphics::{TTYFrame, FrameModel, Color};
use crate::display::{render_pass, end_screen_spec};

verus! {

/// One session. Created once, then mutated exclusively by `run`, once per
/// tick; frozen in place when `over` becomes true.
#[derive(Debug, Clone)]
pub struct GameState {
    pub board: Board,
    pub block_x: usize,
    pub block_y: usize,
    pub block_rotation: BlockRotation,
    pub block_type: BlockType,
    pub time_of_last_move: u64,
    pub last_keyboard: KeyboardState,
    pub lines_cleared: u64,
    pub over: bool,
}

/// The mathematical value of a session.
#[verifier::ext_equal]
pub ghost struct GameModel {
    pub board: Seq<BlockState>,
    pub x: int,
    pub y: int,
    pub rot: BlockRotation,
    pub kind: BlockType,
    pub tolm: int,
    pub last_kb: KeyboardState,
    pub lines: int,
    pub over: bool,
}

/// The board after the given cells are locked in color `c`, in order.
pub open spec fn place_seq(s: Seq<BlockState>, cells: Seq<(usize, usize)>, c: Color, n: int) -> Seq<
    BlockState,
>
    decreases n,
{
    if n <= 0 {
        s
    } else {
        place_seq(s, cells, c, n - 1).update(
            cells[n - 1].0 * 22 + cells[n - 1].1,
            BlockState::Block(c),
        )
    }
}

/// Locking a piece: its cells are written to the board in the old kind's
/// color, the board is compacted, the cleared-lines counter grows by the
/// number of full rows, and the next piece spawns at (5, 1) in rotation zero
/// with the kind drawn from `time`.
pub open spec fn solidify_model(s: GameModel, cells: Seq<(usize, usize)>, time: u64) -> GameModel {
    let placed = place_seq(s.board, cells, block_color(s.kind), cells.len() as int);
    GameModel {
        board: compact_seq(placed),
        x: 5,
        y: 1,
        kind: random_kind(time),
        rot: BlockRotation::Zero,
        lines: s.lines + full_count(placed, 22),
        ..s
    }
}

/// The lowest anchor row at or below `y` from which no further one-cell
/// descent is valid.
pub open spec fn drop_y(s: Seq<BlockState>, x: int, y: int, t: BlockType, r: BlockRotation) -> int
    decreases 22 - y,
{
    if y < 21 && place_ok(s, x, y + 1, t, r) {
        drop_y(s, x, y + 1, t, r)
    } else {
        y
    }
}

/// The held-Down rule: if Down is held in both this snapshot and the
/// previous one, one descent is attempted; it is applied iff valid.
pub open spec fn down_model(s: GameModel, kb: KeyboardState) -> GameModel {
    if kb.down && s.last_kb.down && place_ok(s.board, s.x, s.y + 1, s.kind, s.rot) {
        GameModel { y: s.y + 1, ..s }
    } else {
        s
    }
}

/// The hard-drop rule: descend while valid, then lock at the landing
/// position if that position itself is valid.
pub open spec fn space_model(s: GameModel, time: u64) -> GameModel {
    let yd = drop_y(s.board, s.x, s.y, s.kind, s.rot);
    let s2 = GameModel { y: yd, ..s };
    if place_ok(s2.board, s2.x, s2.y, s2.kind, s2.rot) {
        solidify_model(s2, cells_of(s2.x, s2.y, s2.kind, s2.rot), time)
    } else {
        s2
    }
}

pub open spec fn left_model(s: GameModel) -> GameModel {
    if place_ok(s.board, s.x - 1, s.y, s.kind, s.rot) {
        GameModel { x: s.x - 1, ..s }
    } else {
        s
    }
}

pub open spec fn right_model(s: GameModel) -> GameModel {
    if place_ok(s.board, s.x + 1, s.y, s.kind, s.rot) {
        GameModel { x: s.x + 1, ..s }
    } else {
        s
    }
}

pub open spec fn up_model(s: GameModel) -> GameModel {
    if place_ok(s.board, s.x, s.y, s.kind, rotated_right(s.rot)) {
        GameModel { rot: rotated_right(s.rot), ..s }
    } else {
        s
    }
}

/// The whole input step: the held-Down rule always runs; Space, Left, Right
/// and Up run in that order, and only when a new input edge arrived since
/// the previous tick (the snapshot versions differ).
pub open spec fn hk_model(s: GameModel, kb: KeyboardState, time: u64) -> GameModel {
    let s1 = down_model(s, kb);
    if s1.last_kb.version != kb.version {
        let s2 = if kb.space {
            space_model(s1, time)
        } else {
            s1
        };
        let s3 = if kb.left {
            left_model(s2)
        } else {
            s2
        };
        let s4 = if kb.right {
            right_model(s3)
        } else {
            s3
        };
        if kb.up {
            up_model(s4)
        } else {
            s4
        }
    } else {
        s1
    }
}

/// One whole tick. A finished session is frozen. Otherwise: apply input;
/// if the piece's own position is no longer valid, the session is over;
/// otherwise gravity fires when more than 4 ticks passed since the last
/// gravity move — one descent if valid, else the piece locks (kind drawn
/// from `time / 4`) — and finally the snapshot is stored for the next tick.
pub open spec fn tick_model(s: GameModel, time: u64, kb: KeyboardState) -> GameModel {
    if s.over {
        s
    } else {
        let s1 = hk_model(s, kb, time);
        if !place_ok(s1.board, s1.x, s1.y, s1.kind, s1.rot) {
            GameModel { over: true, ..s1 }
        } else {
            let s2 = if time - s1.tolm > 4 {
                let s2a = if place_ok(s1.board, s1.x, s1.y + 1, s1.kind, s1.rot) {
                    GameModel { y: s1.y + 1, ..s1 }
                } else {
                    solidify_model(s1, cells_of(s1.x, s1.y, s1.kind, s1.rot), time / 4)
                };
                GameModel { tolm: time as int, ..s2a }
            } else {
                s1
            };
            GameModel { last_kb: kb, ..s2 }
        }
    }
}

/// What one tick draws: a finished session always gets the same terminal
/// message; a tick that just ended the session draws nothing; a live tick
/// renders the score, the falling piece at its pre-gravity position, the
/// locked cells, and the outline.
pub open spec fn run_frame_spec(s: GameModel, m: FrameModel, time: u64, kb: KeyboardState) -> FrameModel {
    if s.over {
        end_screen_spec(m, s.lines as u64)
    } else {
        let s1 = hk_model(s, kb, time);
        if !place_ok(s1.board, s1.x, s1.y, s1.kind, s1.rot) {
            m
        } else {
            let s2 = if time - s1.tolm > 4 {
                if place_ok(s1.board, s1.x, s1.y + 1, s1.kind, s1.rot) {
                    GameModel { y: s1.y + 1, ..s1 }
                } else {
                    solidify_model(s1, cells_of(s1.x, s1.y, s1.kind, s1.rot), time / 4)
                }
            } else {
                s1
            };
            render_pass(
                m,
                s2.lines as u64,
                block_color(s2.kind),
                cells_of(s1.x, s1.y, s1.kind, s1.rot),
                s2.board,
            )
        }
    }
}

impl GameState {
    pub open spec fn model(self) -> GameModel {
        GameModel {
            board: self.board@,
            x: self.block_x as int,
            y: self.block_y as int,
            rot: self.block_rotation,
            kind: self.block_type,
            tolm: self.time_of_last_move as int,
            last_kb: self.last_keyboard,
            lines: self.lines_cleared as int,
            over: self.over,
        }
    }

    pub open spec fn wf(self) -> bool {
        &&& self.board.wf()
        &&& self.block_x <= 9
        &&& self.block_y <= 21
    }

    /// A fresh session: empty board, a square at anchor (4, 1) in rotation
    /// zero, gravity clock and counters at zero, no input seen yet.
    pub fn new() -> (s: GameState)
        ensures
            s.wf(),
            s.board@ == Seq::new(220, |i: int| BlockState::Empty),
            s.block_x == 4,
            s.block_y == 1,
            s.block_rotation == BlockRotation::Zero,
            s.block_type == BlockType::Square,
            s.time_of_last_move == 0,
            s.last_keyboard == (KeyboardState {
                up: false,
                down: false,
                left: false,
                right: false,
                space: false,
                version: 0u64,
            }),
            s.lines_cleared == 0,
            !s.over,
    {
        GameState {
            board: Board::new(),
            block_x: 4,
            block_y: 1,
            block_rotation: BlockRotation::Zero,
            block_type: BlockType::Square,
            time_of_last_move: 0,
            last_keyboard: KeyboardState::blank(),
            lines_cleared: 0,
            over: false,
        }
    }
}

/// Resolve the current piece displaced by `(x_trans, y_trans)`: its 4
/// absolute cells, or the failure sentinel if the displaced position leaves
/// the board or intersects a locked block (a negative coordinate included).
pub fn translated_list(state: &GameState, x_trans: isize, y_trans: isize) -> (res: Option<
    BlockList,
>)
    requires
        state.wf(),
        -1 <= x_trans <= 1,
        -1 <= y_trans <= 1,
    ensures
        match res {
            Some(cells) => {
                &&& place_ok(
                    state.board@,
                    state.block_x + x_trans,
                    state.block_y + y_trans,
                    state.block_type,
                    state.block_rotation,
                )
                &&& cells@.len() == 4
                &&& cells@ == cells_of(
                    state.block_x + x_trans,
                    state.block_y + y_trans,
                    state.block_type,
                    state.block_rotation,
                )
                &&& forall|i: int|
                    0 <= i < 4 ==> (#[trigger] cells@[i]).0 < 10 && cells@[i].1 < 22
            },
            None => !place_ok(
                state.board@,
                state.block_x + x_trans,
                state.block_y + y_trans,
                state.block_type,
                state.block_rotation,
            ),
        },
{
    if (state.block_x as isize) + x_trans < 0 || (state.block_y as isize) + y_trans < 0 {
        proof {
            crate::piece::lemma_offset_zero(state.block_type, state.block_rotation);
            assert(!cell_ok(
                state.board@,
                state.block_x + x_trans,
                state.block_y + y_trans,
                state.block_type,
                state.block_rotation,
                0,
            ));
        }
        return None;
    }
    let x = ((state.block_x as isize) + x_trans) as usize;
    let y = ((state.block_y as isize) + y_trans) as usize;
    list(&state.board, x, y, state.block_type, state.block_rotation)
}

/// Lock the piece's 4 cells into the board in the piece's color, compact
/// full rows, and spawn the next piece, its kind drawn from `time`.
pub fn solidify_piece(state: &mut GameState, piece_list: &BlockList, time: u64)
    requires
        old(state).wf(),
        piece_list@.len() == 4,
        forall|i: int| 0 <= i < 4 ==> (#[trigger] piece_list@[i]).0 < 10 && piece_list@[i].1 < 22,
        old(state).lines_cleared + 22 <= u64::MAX,
    ensures
        final(state).wf(),
        final(state).model() == solidify_model(old(state).model(), piece_list@, time),
{
    let ghost s0 = state.model();
    let color = state.block_type.color();
    let mut i: usize = 0;
    while i < 4
        invariant
            state.board.wf(),
            state.block_x == old(state).block_x,
            state.block_y == old(state).block_y,
            state.block_rotation == old(state).block_rotation,
            state.block_type == old(state).block_type,
            state.time_of_last_move == old(state).time_of_last_move,
            state.last_keyboard == old(state).last_keyboard,
            state.lines_cleared == old(state).lines_cleared,
            state.over == old(state).over,
            old(state).wf(),
            old(state).lines_cleared + 22 <= u64::MAX,
            color == block_color(s0.kind),
            s0 == old(state).model(),
            piece_list@.len() == 4,
            forall|k: int|
                0 <= k < 4 ==> (#[trigger] piece_list@[k]).0 < 10 && piece_list@[k].1 < 22,
            i <= 4,
            state.board@ == place_seq(s0.board, piece_list@, block_color(s0.kind), i as int),
        decreases 4 - i,
    {
        let (x, y) = piece_list[i];
        state.board.set_cell(x, y, BlockState::Block(color));
        i += 1;
    }
    state.block_y = 1;
    state.block_x = 5;
    state.block_type = BlockType::random(time);
    state.block_rotation = BlockRotation::Zero;
    let ghost placed = state.board@;
    let k = state.board.compact();
    proof {
        lemma_full_count_bounds(placed, 22);
    }
    state.lines_cleared = state.lines_cleared + (k as u64);
    assert(state.model() =~= solidify_model(s0, piece_list@, time));
}

/// One attempted descent: applied iff the cell below is free.
fn soft_drop(state: &mut GameState)
    requires
        old(state).wf(),
    ensures
        final(state).wf(),
        final(state).model() == if place_ok(
            old(state).board@,
            old(state).block_x as int,
            old(state).block_y + 1,
            old(state).block_type,
            old(state).block_rotation,
        ) {
            GameModel { y: old(state).model().y + 1, ..old(state).model() }
        } else {
            old(state).model()
        },
{
    match translated_list(state, 0, 1) {
        Some(_) => {
            proof {
                crate::piece::lemma_offset_zero(state.block_type, state.block_rotation);
                assert(cell_ok(
                    state.board@,
                    state.block_x as int,
                    state.block_y + 1,
                    state.block_type,
                    state.block_rotation,
                    0,
                ));
            }
            state.block_y = state.block_y + 1;
        },
        None => {},
    }
}

/// One attempted shift to the left: applied iff the shifted position is
/// valid.
fn move_left(state: &mut GameState)
    requires
        old(state).wf(),
    ensures
        final(state).wf(),
        final(state).model() == left_model(old(state).model()),
{
    match translated_list(state, -1, 0) {
        Some(_) => {
            proof {
                crate::piece::lemma_offset_zero(state.block_type, state.block_rotation);
                assert(cell_ok(
                    state.board@,
                    state.block_x - 1,
                    state.block_y as int,
                    state.block_type,
                    state.block_rotation,
                    0,
                ));
            }
            state.block_x = state.block_x - 1;
        },
        None => {},
    }
}

/// One attempted shift to the right: applied iff the shifted position is
/// valid.
fn move_right(state: &mut GameState)
    requires
        old(state).wf(),
    ensures
        final(state).wf(),
        final(state).model() == right_model(old(state).model()),
{
    match translated_list(state, 1, 0) {
        Some(_) => {
            proof {
                crate::piece::lemma_offset_zero(state.block_type, state.block_rotation);
                assert(cell_ok(
                    state.board@,
                    state.block_x + 1,
                    state.block_y as int,
                    state.block_type,
                    state.block_rotation,
                    0,
                ));
            }
            state.block_x = state.block_x + 1;
        },
        None => {},
    }
}

/// One attempted clockwise rotation at the unchanged anchor: applied iff the
/// rotated shape is fully valid there; no wall-kick search.
fn rotate_piece(state: &mut GameState)
    requires
        old(state).wf(),
    ensures
        final(state).wf(),
        final(state).model() == up_model(old(state).model()),
{
    let rotation = state.block_rotation.right_rotate();
    match list(&state.board, state.block_x, state.block_y, state.block_type, rotation) {
        Some(_) => {
            state.block_rotation = rotation;
        },
        None => {},
    }
}

/// Descend while valid, then lock at the landing position if that position
/// itself is valid.
fn hard_drop(state: &mut GameState, time: u64)
    requires
        old(state).wf(),
        old(state).lines_cleared + 22 <= u64::MAX,
    ensures
        final(state).wf(),
        final(state).model() == space_model(old(state).model(), time),
{
    let ghost s1 = state.model();
    loop
        invariant
            state.wf(),
            state.board@ == s1.board,
            state.block_x as int == s1.x,
            state.block_rotation == s1.rot,
            state.block_type == s1.kind,
            state.time_of_last_move as int == s1.tolm,
            state.last_keyboard == s1.last_kb,
            state.lines_cleared as int == s1.lines,
            state.over == s1.over,
            drop_y(s1.board, s1.x, s1.y, s1.kind, s1.rot) == drop_y(
                state.board@,
                state.block_x as int,
                state.block_y as int,
                state.block_type,
                state.block_rotation,
            ),
        ensures
            state.wf(),
            state.model() == (GameModel { y: drop_y(s1.board, s1.x, s1.y, s1.kind, s1.rot), ..s1 }),
        decreases 22 - state.block_y,
    {
        match translated_list(state, 0, 1) {
            Some(_) => {
                proof {
                    crate::piece::lemma_offset_zero(state.block_type, state.block_rotation);
                    assert(cell_ok(
                        state.board@,
                        state.block_x as int,
                        state.block_y + 1,
                        state.block_type,
                        state.block_rotation,
                        0,
                    ));
                }
                state.block_y = state.block_y + 1;
            },
            None => {
                assert(state.model() =~= GameModel {
                    y: drop_y(s1.board, s1.x, s1.y, s1.kind, s1.rot),
                    ..s1
                });
                break;
            },
        }
    }
    match translated_list(state, 0, 0) {
        Some(l) => {
            let ghost sd = state.model();
            solidify_piece(state, &l, time);
            proof {
                assert(l@ == cells_of(sd.x, sd.y, sd.kind, sd.rot));
                assert(state.model() =~= space_model(s1, time));
            }
        },
        None => {},
    }
}

/// The input step of one tick; see `hk_model` for the two rules.
pub fn handle_keyboard(state: &mut GameState, keyboard: &KeyboardState, time: u64)
    requires
        old(state).wf(),
        old(state).lines_cleared + 22 <= u64::MAX,
    ensures
        final(state).wf(),
        final(state).model() == hk_model(old(state).model(), *keyboard, time),
{
    let ghost s0 = state.model();

    // move down on hold, even if pressed before
    if keyboard.is_key_down(Key::DownArrow) && state.last_keyboard.is_key_down(Key::DownArrow) {
        soft_drop(state);
    }
    let ghost s1 = down_model(s0, *keyboard);
    assert(state.model() =~= s1);

    // handle all the other ones, only if an actual event occured
    if state.last_keyboard.input_version() != keyboard.input_version() {
        if keyboard.is_key_down(Key::Space) {
            hard_drop(state, time);
        }
        let ghost s2 = if keyboard.space {
            space_model(s1, time)
        } else {
            s1
        };
        assert(state.model() == s2);

        if keyboard.is_key_down(Key::LeftArrow) {
            move_left(state);
        }
        let ghost s3 = if keyboard.left {
            left_model(s2)
        } else {
            s2
        };
        assert(state.model() == s3);

        if keyboard.is_key_down(Key::RightArrow) {
            move_right(state);
        }
        let ghost s4 = if keyboard.right {
            right_model(s3)
        } else {
            s3
        };
        assert(state.model() == s4);

        if keyboard.is_key_down(Key::UpArrow) {
            rotate_piece(state);
        }
        assert(state.model() == hk_model(s0, *keyboard, time));
    }
}

/// The input step never moves the gravity clock, and can raise the
/// cleared-lines counter by at most one full board.
pub proof fn lemma_hk_bounds(s: GameModel, kb: KeyboardState, time: u64)
    ensures
        hk_model(s, kb, time).tolm == s.tolm,
        s.lines <= hk_model(s, kb, time).lines <= s.lines + 22,
{
    let s1 = down_model(s, kb);
    if s1.last_kb.version != kb.version && kb.space {
        let yd = drop_y(s1.board, s1.x, s1.y, s1.kind, s1.rot);
        let s2 = GameModel { y: yd, ..s1 };
        if place_ok(s2.board, s2.x, s2.y, s2.kind, s2.rot) {
            let cells = cells_of(s2.x, s2.y, s2.kind, s2.rot);
            lemma_full_count_bounds(
                place_seq(s2.board, cells, block_color(s2.kind), cells.len() as int),
                22,
            );
        }
    }
}

/// One engine tick; see `tick_model` for the state transition and
/// `run_frame_spec` for what is drawn.
#[verifier::rlimit(60)]
pub fn run(state: &mut GameState, current_time: u64, keyboard: KeyboardState, frame: &mut TTYFrame)
    requires
        old(state).wf(),
        old(frame).wf(),
        current_time >= old(state).time_of_last_move,
        old(state).lines_cleared + 44 <= u64::MAX,
    ensures
        final(state).wf(),
        final(frame).wf(),
        final(state).model() == tick_model(old(state).model(), current_time, keyboard),
        final(frame).model() == run_frame_spec(
            old(state).model(),
            old(frame).model(),
            current_time,
            keyboard,
        ),
{
    let ghost s0 = state.model();

    if state.over {
        frame.print_end_screen(state.lines_cleared);
        return;
    }

    handle_keyboard(state, &keyboard, current_time);
    let ghost s1 = hk_model(s0, keyboard, current_time);
    proof {
        lemma_hk_bounds(s0, keyboard, current_time);
    }

    // if it was moved with the keyboard,
    // then it needs to be recalculated to the new position
    let down_list = translated_list(state, 0, 1);
    let current_list = match translated_list(state, 0, 0) {
        Some(l) => l,
        None => {
            state.over = true;
            assert(state.model() =~= tick_model(s0, current_time, keyboard));
            return;
        },
    };
    let ghost sc = state.model();
    proof {
        assert(sc == s1);
        assert(current_list@ == cells_of(sc.x, sc.y, sc.kind, sc.rot));
    }

    if current_time - state.time_of_last_move > 4 {
        match down_list {
            Some(_) => {
                proof {
                    crate::piece::lemma_offset_zero(state.block_type, state.block_rotation);
                    assert(cell_ok(sc.board, sc.x, sc.y + 1, sc.kind, sc.rot, 0));
                }
                state.block_y = state.block_y + 1;
            },
            None => {
                solidify_piece(state, &current_list, current_time / 4);
            },
        }
        state.time_of_last_move = current_time;
    }
    let ghost s2 = tick_model(s0, current_time, keyboard);
    assert(state.model() =~= GameModel { last_kb: s0.last_kb, ..s2 });

    frame.render_game(state.lines_cleared, state.block_type.color(), &current_list, &state.board);

    state.last_keyboard = keyboard;
    assert(state.model() =~= s2);
}

/// Holding Down across two consecutive ticks, with no new input edge,
/// applies exactly one descent — when valid — and changes nothing else.
pub proof fn lemma_down_repeat(s: GameModel, kb: KeyboardState, time: u64)
    requires
        kb.down,
        s.last_kb.down,
        kb.version == s.last_kb.version,
    ensures
        hk_model(s, kb, time) == if place_ok(s.board, s.x, s.y + 1, s.kind, s.rot) {
            GameModel { y: s.y + 1, ..s }
        } else {
            s
        },
{
}

/// With no new input edge (equal snapshot versions), Space, Left, Right and
/// Up have no effect, whatever their held-flags: only the held-Down rule can
/// change the state.
pub proof fn lemma_edge_triggered(s: GameModel, kb: KeyboardState, time: u64)
    requires
        kb.version == s.last_kb.version,
    ensures
        hk_model(s, kb, time) == down_model(s, kb),
{
}

} // verus!
