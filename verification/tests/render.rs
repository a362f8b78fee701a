use tetris::board::{BlockState, Board};
use tetris::game::{run, GameState};
use tetris::graphics::{quick_write_message, Color, GraphicBlock, TTYBounds, TTYFrame, decimal_digits};
use tetris::input::KeyboardState;

fn idle_keys() -> KeyboardState {
    KeyboardState { up: false, down: false, left: false, right: false, space: false, version: 0 }
}

fn snapshot(frame: &TTYFrame) -> Vec<GraphicBlock> {
    let mut cells = Vec::new();
    for y in 0..25 {
        for x in 0..80 {
            cells.push(frame.cell_at(x, y));
        }
    }
    cells
}

#[test]
fn solid_cell_packs_background_nibble() {
    let b = GraphicBlock::solid(Color::Yellow);
    assert_eq!(b.character, b' ');
    assert_eq!(b.color, 14 << 4);
}

#[test]
fn char_cell_packs_both_nibbles() {
    let b = GraphicBlock::with_char(Color::Cyan, Color::DarkGray, b'x');
    assert_eq!(b.character, b'x');
    assert_eq!(b.color, (8 << 4) | 3);
}

#[test]
fn fresh_frame_is_black() {
    let frame = TTYFrame::new();
    for y in 0..25 {
        for x in 0..80 {
            assert_eq!(frame.cell_at(x, y), GraphicBlock::solid(Color::Black));
        }
    }
}

#[test]
fn decimal_digits_exact() {
    assert_eq!(decimal_digits(0), b"0".to_vec());
    assert_eq!(decimal_digits(7), b"7".to_vec());
    assert_eq!(decimal_digits(42), b"42".to_vec());
    assert_eq!(decimal_digits(90210), b"90210".to_vec());
    assert_eq!(decimal_digits(u64::MAX), b"18446744073709551615".to_vec());
}

#[test]
fn quick_message_writes_from_origin() {
    let frame = quick_write_message("hi");
    assert_eq!(frame.cell_at(0, 0).character, b'h');
    assert_eq!(frame.cell_at(1, 0).character, b'i');
    assert_eq!(frame.cell_at(2, 0), GraphicBlock::solid(Color::Black));
}

#[test]
fn text_wraps_at_right_edge() {
    let mut frame = TTYFrame::new();
    frame.set_write_bounds(TTYBounds { x: 78, y: 0, end_x: 79, end_y: 24 });
    let bytes = vec![b'a', b'b', b'c'];
    frame.write_bytes(&bytes);
    assert_eq!(frame.cell_at(78, 0).character, b'a');
    assert_eq!(frame.cell_at(79, 0).character, b'b');
    assert_eq!(frame.cell_at(78, 1).character, b'c');
}

#[test]
fn newline_resets_column() {
    let mut frame = TTYFrame::new();
    frame.set_write_bounds(TTYBounds { x: 10, y: 2, end_x: 79, end_y: 24 });
    let bytes = vec![b'a', b'\n', b'b'];
    frame.write_bytes(&bytes);
    assert_eq!(frame.cell_at(10, 2).character, b'a');
    assert_eq!(frame.cell_at(10, 3).character, b'b');
}

#[test]
fn text_dropped_below_bottom_edge() {
    let mut frame = TTYFrame::new();
    frame.set_write_bounds(TTYBounds { x: 0, y: 0, end_x: 1, end_y: 0 });
    let bytes = vec![b'a', b'b', b'c', b'd'];
    frame.write_bytes(&bytes);
    assert_eq!(frame.cell_at(0, 0).character, b'a');
    assert_eq!(frame.cell_at(1, 0).character, b'b');
    // 'c' wrapped past the bottom edge: it and everything after is dropped
    assert_eq!(frame.cell_at(0, 1), GraphicBlock::solid(Color::Black));
    assert_eq!(frame.cell_at(1, 1), GraphicBlock::solid(Color::Black));
}

#[test]
fn live_tick_draws_border_piece_and_score() {
    let mut state = GameState::new();
    state.board.set_cell(0, 21, BlockState::Block(Color::Red));
    let mut frame = TTYFrame::new();
    run(&mut state, 0, idle_keys(), &mut frame);

    let gray = GraphicBlock::solid(Color::DarkGray);
    // border: double vertical walls and the top/bottom rails
    for y in 0..23 {
        assert_eq!(frame.cell_at(0, y), gray);
        assert_eq!(frame.cell_at(1, y), gray);
        assert_eq!(frame.cell_at(22, y), gray);
        assert_eq!(frame.cell_at(23, y), gray);
    }
    for x in 0..22 {
        assert_eq!(frame.cell_at(x, 0), gray);
    }
    for x in 0..24 {
        assert_eq!(frame.cell_at(x, 23), gray);
    }
    // the falling square at game (4..6, 1..3): two display columns per cell
    let yellow = GraphicBlock::solid(Color::Yellow);
    for gx in 4..6 {
        for gy in 1..3 {
            assert_eq!(frame.cell_at(2 * gx + 2, gy + 1), yellow);
            assert_eq!(frame.cell_at(2 * gx + 3, gy + 1), yellow);
        }
    }
    // the locked cell at game (0, 21)
    let red = GraphicBlock::solid(Color::Red);
    assert_eq!(frame.cell_at(2, 22), red);
    assert_eq!(frame.cell_at(3, 22), red);
    // the score line at the game viewport's origin
    assert_eq!(frame.cell_at(30, 1).character, b'l');
    assert_eq!(frame.cell_at(45, 1).character, b'0');
}

#[test]
fn render_twice_is_bit_identical() {
    let mut state = GameState::new();
    state.board.set_cell(3, 21, BlockState::Block(Color::Green));

    // the same unchanged session, rendered into two fresh frames
    let mut frame1 = TTYFrame::new();
    run(&mut state, 0, idle_keys(), &mut frame1);
    let mut frame2 = TTYFrame::new();
    run(&mut state, 0, idle_keys(), &mut frame2);
    assert_eq!(snapshot(&frame1), snapshot(&frame2));

    // and rendering again over an already-rendered frame changes nothing
    let before = snapshot(&frame1);
    run(&mut state, 0, idle_keys(), &mut frame1);
    assert_eq!(snapshot(&frame1), before);
}

#[test]
fn keyboard_readout_prints_flags() {
    let mut frame = TTYFrame::new();
    let kb = KeyboardState {
        up: true,
        down: false,
        left: false,
        right: false,
        space: false,
        version: 9,
    };
    frame.print_keyboard_state(12, 7, &kb);
    assert_eq!(frame.cell_at(0, 0).character, b't');
    assert_eq!(frame.cell_at(9, 0).character, b'1');
    assert_eq!(frame.cell_at(10, 0).character, b'2');
    // second line ends with the word "true" for the held Up arrow
    assert_eq!(frame.cell_at(18, 1).character, b't');
    assert_eq!(frame.cell_at(21, 1).character, b'e');
}
