use tetris::block_list::list;
use tetris::board::{BlockState, Board};
use tetris::game::{run, GameState};
use tetris::graphics::{Color, TTYFrame};
use tetris::input::KeyboardState;
use tetris::piece::{BlockRotation, BlockType};

fn keys(
    up: bool,
    down: bool,
    left: bool,
    right: bool,
    space: bool,
    version: u64,
) -> KeyboardState {
    KeyboardState { up, down, left, right, space, version }
}

fn filled_cells(board: &Board) -> usize {
    let mut n = 0;
    for x in 0..10 {
        for y in 0..22 {
            if let BlockState::Block(_) = board.get_cell(x, y) {
                n += 1;
            }
        }
    }
    n
}

#[test]
fn resolve_square_at_spawn() {
    let board = Board::new();
    let cells = list(&board, 4, 1, BlockType::Square, BlockRotation::Zero).unwrap();
    assert_eq!(cells, vec![(4, 1), (4, 2), (5, 1), (5, 2)]);
}

#[test]
fn resolve_rejects_right_edge() {
    let board = Board::new();
    // the square occupies column x+1 = 10, off the board
    assert!(list(&board, 9, 1, BlockType::Square, BlockRotation::Zero).is_none());
    assert!(list(&board, 8, 1, BlockType::Square, BlockRotation::Zero).is_some());
}

#[test]
fn resolve_rejects_bottom_edge() {
    let board = Board::new();
    assert!(list(&board, 4, 21, BlockType::Square, BlockRotation::Zero).is_none());
    assert!(list(&board, 4, 20, BlockType::Square, BlockRotation::Zero).is_some());
    // the vertical bar reaches y+3
    assert!(list(&board, 4, 19, BlockType::I, BlockRotation::Zero).is_none());
    assert!(list(&board, 4, 18, BlockType::I, BlockRotation::Zero).is_some());
}

#[test]
fn resolve_rejects_negative_cells() {
    let board = Board::new();
    // T in rotation Single occupies x-1: invalid at the left wall
    assert!(list(&board, 0, 5, BlockType::T, BlockRotation::Single).is_none());
    assert!(list(&board, 1, 5, BlockType::T, BlockRotation::Single).is_some());
    // J in rotation Zero occupies y-1: invalid at the top row
    assert!(list(&board, 4, 0, BlockType::J, BlockRotation::Zero).is_none());
    assert!(list(&board, 4, 1, BlockType::J, BlockRotation::Zero).is_some());
}

#[test]
fn resolve_rejects_occupied_cell() {
    let mut board = Board::new();
    board.set_cell(5, 2, BlockState::Block(Color::Red));
    assert!(list(&board, 4, 1, BlockType::Square, BlockRotation::Zero).is_none());
    assert!(list(&board, 3, 1, BlockType::Square, BlockRotation::Zero).is_some());
}

#[test]
fn resolve_anchor_off_board() {
    let board = Board::new();
    assert!(list(&board, 10, 1, BlockType::Square, BlockRotation::Zero).is_none());
    assert!(list(&board, 4, 22, BlockType::Square, BlockRotation::Zero).is_none());
}

#[test]
fn compaction_no_full_rows() {
    let mut board = Board::new();
    board.set_cell(3, 21, BlockState::Block(Color::Blue));
    let k = board.compact();
    assert_eq!(k, 0);
    assert_eq!(filled_cells(&board), 1);
    assert!(matches!(board.get_cell(3, 21), BlockState::Block(_)));
}

#[test]
fn compaction_contiguous_bottom_rows() {
    let mut board = Board::new();
    for x in 0..10 {
        board.set_cell(x, 20, BlockState::Block(Color::Red));
        board.set_cell(x, 21, BlockState::Block(Color::Red));
    }
    board.set_cell(0, 19, BlockState::Block(Color::Blue));
    let k = board.compact();
    assert_eq!(k, 2);
    // the lone survivor moved down by two rows; 20 cells vanished
    assert_eq!(filled_cells(&board), 1);
    assert!(matches!(board.get_cell(0, 21), BlockState::Block(_)));
}

#[test]
fn compaction_rows_5_and_10() {
    let mut board = Board::new();
    for x in 0..10 {
        board.set_cell(x, 5, BlockState::Block(Color::Green));
        board.set_cell(x, 10, BlockState::Block(Color::Green));
    }
    let k = board.compact();
    assert_eq!(k, 2);
    // per the compaction rule, row j receives old row j-2 for 2 <= j <= 10:
    // the old full row 5 survives, relocated to row 7; rows below 10 are
    // untouched; so 10 of the 20 occupied cells remain
    assert_eq!(filled_cells(&board), 10);
    for x in 0..10 {
        assert!(matches!(board.get_cell(x, 7), BlockState::Block(_)));
    }
}

#[test]
fn down_repeat_one_descent_per_tick() {
    let mut state = GameState::new();
    let mut frame = TTYFrame::new();
    let held = keys(false, true, false, false, false, 0);

    // first tick: the previous snapshot does not hold Down yet
    run(&mut state, 0, held, &mut frame);
    assert_eq!(state.block_y, 1);

    // held across two consecutive ticks: exactly one descent per tick
    run(&mut state, 0, held, &mut frame);
    assert_eq!(state.block_y, 2);
    run(&mut state, 0, held, &mut frame);
    assert_eq!(state.block_y, 3);
}

#[test]
fn edge_triggered_keys_need_new_version() {
    let mut state = GameState::new();
    let mut frame = TTYFrame::new();
    // everything pressed, but the version matches the stored snapshot (0)
    let stale = keys(true, false, true, true, true, 0);
    run(&mut state, 0, stale, &mut frame);
    assert_eq!(state.block_x, 4);
    assert_eq!(state.block_y, 1);
    assert!(matches!(state.block_rotation, BlockRotation::Zero));
    assert!(matches!(state.block_type, BlockType::Square));
    assert_eq!(state.lines_cleared, 0);
    assert!(!state.over);
    assert_eq!(filled_cells(&state.board), 0);
}

#[test]
fn left_and_right_moves() {
    let mut state = GameState::new();
    let mut frame = TTYFrame::new();
    run(&mut state, 0, keys(false, false, true, false, false, 1), &mut frame);
    assert_eq!(state.block_x, 3);
    run(&mut state, 0, keys(false, false, false, true, false, 2), &mut frame);
    assert_eq!(state.block_x, 4);
}

#[test]
fn left_move_blocked_at_wall() {
    let mut state = GameState::new();
    state.block_x = 0;
    let mut frame = TTYFrame::new();
    run(&mut state, 0, keys(false, false, true, false, false, 1), &mut frame);
    assert_eq!(state.block_x, 0);
}

#[test]
fn rotation_applied_when_valid() {
    let mut state = GameState::new();
    state.block_type = BlockType::I;
    let mut frame = TTYFrame::new();
    run(&mut state, 0, keys(true, false, false, false, false, 1), &mut frame);
    assert!(matches!(state.block_rotation, BlockRotation::Single));
}

#[test]
fn rotation_retained_when_blocked() {
    let mut state = GameState::new();
    state.block_type = BlockType::I;
    state.block_x = 0;
    // the horizontal bar would occupy x-1
    let mut frame = TTYFrame::new();
    run(&mut state, 0, keys(true, false, false, false, false, 1), &mut frame);
    assert!(matches!(state.block_rotation, BlockRotation::Zero));
}

#[test]
fn hard_drop_locks_at_bottom() {
    let mut state = GameState::new();
    let mut frame = TTYFrame::new();
    run(&mut state, 0, keys(false, false, false, false, true, 1), &mut frame);
    // the square fell from (4, 1) to (4, 20) and locked there
    assert_eq!(filled_cells(&state.board), 4);
    assert!(matches!(state.board.get_cell(4, 20), BlockState::Block(_)));
    assert!(matches!(state.board.get_cell(4, 21), BlockState::Block(_)));
    assert!(matches!(state.board.get_cell(5, 20), BlockState::Block(_)));
    assert!(matches!(state.board.get_cell(5, 21), BlockState::Block(_)));
    // the next piece spawned at (5, 1) with the kind drawn from the tick
    assert_eq!(state.block_x, 5);
    assert_eq!(state.block_y, 1);
    assert!(matches!(state.block_type, BlockType::I));
    assert!(matches!(state.block_rotation, BlockRotation::Zero));
    assert!(!state.over);
}

#[test]
fn gravity_waits_five_ticks() {
    let mut state = GameState::new();
    let mut frame = TTYFrame::new();
    let idle = keys(false, false, false, false, false, 0);
    run(&mut state, 4, idle, &mut frame);
    assert_eq!(state.block_y, 1);
    assert_eq!(state.time_of_last_move, 0);
    run(&mut state, 5, idle, &mut frame);
    assert_eq!(state.block_y, 2);
    assert_eq!(state.time_of_last_move, 5);
}

#[test]
fn gravity_locks_and_clears_line() {
    let mut state = GameState::new();
    // a full bottom row except the two columns the square will fill
    for x in 0..10 {
        if x != 4 && x != 5 {
            state.board.set_cell(x, 20, BlockState::Block(Color::Red));
            state.board.set_cell(x, 21, BlockState::Block(Color::Red));
        }
    }
    state.block_y = 19;
    let mut frame = TTYFrame::new();
    let idle = keys(false, false, false, false, false, 0);
    // gravity descends once: (4, 20)..(5, 21) now rest on the floor
    run(&mut state, 5, idle, &mut frame);
    assert_eq!(state.block_y, 20);
    // next gravity step finds no room below and locks; both rows clear
    run(&mut state, 10, idle, &mut frame);
    assert_eq!(state.lines_cleared, 2);
    assert_eq!(filled_cells(&state.board), 0);
    assert_eq!(state.block_x, 5);
    assert_eq!(state.block_y, 1);
    // tick 10 / 4 = 2 picks the third kind
    assert!(matches!(state.block_type, BlockType::S));
}

#[test]
fn game_over_on_blocked_spawn() {
    let mut state = GameState::new();
    // the piece that will spawn after the lock is Z (tick 5 / 4 = 1), whose
    // spawn cells include (5, 1); pre-fill it
    state.board.set_cell(5, 1, BlockState::Block(Color::White));
    // park the current square on the floor so gravity locks it
    state.block_y = 20;
    let mut frame = TTYFrame::new();
    let idle = keys(false, false, false, false, false, 0);
    run(&mut state, 5, idle, &mut frame);
    assert!(!state.over);
    assert_eq!(filled_cells(&state.board), 5);

    // the fresh piece overlaps the pre-filled cell: the next tick ends the game
    run(&mut state, 6, idle, &mut frame);
    assert!(state.over);

    // later ticks freeze the session
    let board_before = filled_cells(&state.board);
    let lines_before = state.lines_cleared;
    run(&mut state, 7, idle, &mut frame);
    run(&mut state, 8, idle, &mut frame);
    assert!(state.over);
    assert_eq!(filled_cells(&state.board), board_before);
    assert_eq!(state.lines_cleared, lines_before);
}

#[test]
fn game_over_message_is_stable() {
    let mut state = GameState::new();
    state.over = true;
    state.lines_cleared = 3;
    let idle = keys(false, false, false, false, false, 0);

    let mut frame1 = TTYFrame::new();
    run(&mut state, 9, idle, &mut frame1);
    let mut frame2 = TTYFrame::new();
    run(&mut state, 10, idle, &mut frame2);
    for y in 0..25 {
        for x in 0..80 {
            assert_eq!(frame1.cell_at(x, y), frame2.cell_at(x, y));
        }
    }
    // the message text starts at the frame's top-left corner
    assert_eq!(frame1.cell_at(0, 0).character, b'g');
    assert_eq!(frame1.cell_at(11, 0).character, b'3');
}
