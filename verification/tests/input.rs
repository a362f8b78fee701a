use tetris::graphics::Color;
use tetris::input::{Key, KeyboardState};
use tetris::piece::{BlockRotation, BlockType};

#[test]
fn blank_snapshot_holds_nothing() {
    let k = KeyboardState::blank();
    assert!(!k.is_key_down(Key::UpArrow));
    assert!(!k.is_key_down(Key::DownArrow));
    assert!(!k.is_key_down(Key::LeftArrow));
    assert!(!k.is_key_down(Key::RightArrow));
    assert!(!k.is_key_down(Key::Space));
    assert_eq!(k.input_version(), 0);
}

#[test]
fn press_codes_set_one_key_each() {
    let cases: Vec<(u8, Key)> = vec![
        (72, Key::UpArrow),
        (80, Key::DownArrow),
        (77, Key::RightArrow),
        (75, Key::LeftArrow),
        (57, Key::Space),
    ];
    let all = vec![Key::UpArrow, Key::DownArrow, Key::LeftArrow, Key::RightArrow, Key::Space];
    for (code, key) in cases {
        let mut k = KeyboardState::blank();
        k.apply_scan_code(code);
        for other in &all {
            assert_eq!(k.is_key_down(*other), matches!((key, other),
                (Key::UpArrow, Key::UpArrow)
                | (Key::DownArrow, Key::DownArrow)
                | (Key::LeftArrow, Key::LeftArrow)
                | (Key::RightArrow, Key::RightArrow)
                | (Key::Space, Key::Space)));
        }
        assert_eq!(k.input_version(), 1);
    }
}

#[test]
fn release_code_clears_keys() {
    let mut k = KeyboardState::blank();
    k.apply_scan_code(80);
    assert!(k.is_key_down(Key::DownArrow));
    k.apply_scan_code(208);
    assert!(!k.is_key_down(Key::DownArrow));
    assert_eq!(k.input_version(), 2);
}

#[test]
fn unknown_code_still_bumps_version() {
    let mut k = KeyboardState::blank();
    k.apply_scan_code(1);
    assert!(!k.is_key_down(Key::UpArrow));
    assert!(!k.is_key_down(Key::Space));
    assert_eq!(k.input_version(), 1);
}

#[test]
fn rotation_cycles_in_four_steps() {
    let r = BlockRotation::Zero;
    let r1 = r.right_rotate();
    let r2 = r1.right_rotate();
    let r3 = r2.right_rotate();
    let r4 = r3.right_rotate();
    assert!(matches!(r1, BlockRotation::Single));
    assert!(matches!(r2, BlockRotation::Double));
    assert!(matches!(r3, BlockRotation::Triple));
    assert!(matches!(r4, BlockRotation::Zero));
}

#[test]
fn kind_selection_cycles_over_seven() {
    assert!(matches!(BlockType::random(0), BlockType::I));
    assert!(matches!(BlockType::random(1), BlockType::Z));
    assert!(matches!(BlockType::random(2), BlockType::S));
    assert!(matches!(BlockType::random(3), BlockType::T));
    assert!(matches!(BlockType::random(4), BlockType::Square));
    assert!(matches!(BlockType::random(5), BlockType::J));
    assert!(matches!(BlockType::random(6), BlockType::L));
    assert!(matches!(BlockType::random(7), BlockType::I));
    assert!(matches!(BlockType::random(700), BlockType::I));
}

#[test]
fn piece_colors_are_fixed() {
    assert_eq!(BlockType::I.color(), Color::Cyan);
    assert_eq!(BlockType::Z.color(), Color::Red);
    assert_eq!(BlockType::S.color(), Color::Blue);
    assert_eq!(BlockType::T.color(), Color::Magenta);
    assert_eq!(BlockType::Square.color(), Color::Yellow);
    assert_eq!(BlockType::J.color(), Color::Green);
    assert_eq!(BlockType::L.color(), Color::Pink);
}
