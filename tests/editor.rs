use ophelia::{
    draw_welcome_message, print_rows, terminal_coord, welcome_message, Editor, Key, Op, Position,
    Size,
};

fn size(width: u16, height: u16) -> Size {
    Size { width, height }
}

fn farewell() -> Vec<Op> {
    vec![
        Op::HideCursor,
        Op::ClearScreen,
        Op::MoveTo(1, 1),
        Op::ClearScreen,
        Op::WriteLine("bye!.".to_string()),
        Op::Flush,
        Op::ShowCursor,
    ]
}

#[test]
fn default_state() {
    let e = Editor::default();
    assert!(!e.is_quit());
    assert_eq!(e.cursor(), Position { x: 0, y: 0 });
}

#[test]
fn banner_text() {
    assert_eq!(welcome_message(), "Ophelia text editor -- version 0.1.0");
}

#[test]
fn banner_centered_on_wide_terminal() {
    let line = draw_welcome_message(80);
    let expected = format!("~{}Ophelia text editor -- version 0.1.0", " ".repeat(21));
    assert_eq!(line, expected);
    assert_eq!(line.len(), 58);
}

#[test]
fn banner_with_one_space_of_gap() {
    assert_eq!(draw_welcome_message(40), "~ Ophelia text editor -- version 0.1.0");
}

#[test]
fn banner_without_gap() {
    assert_eq!(draw_welcome_message(37), "~Ophelia text editor -- version 0.1.0");
}

#[test]
fn banner_truncated_on_narrow_terminal() {
    assert_eq!(draw_welcome_message(20), "~Ophelia text editor");
    assert_eq!(draw_welcome_message(5), "~Ophe");
    assert_eq!(draw_welcome_message(1), "~");
    assert_eq!(draw_welcome_message(0), "");
}

#[test]
fn banner_never_wider_than_terminal() {
    for w in 1..=300u16 {
        assert!(draw_welcome_message(w).chars().count() <= w as usize);
    }
}

#[test]
fn up_and_left_stop_at_origin() {
    let mut e = Editor::default();
    for _ in 0..5 {
        e.key_input(Key::Up, size(80, 24));
        e.key_input(Key::Left, size(80, 24));
    }
    assert_eq!(e.cursor(), Position { x: 0, y: 0 });
}

#[test]
fn up_and_left_step_back() {
    let mut e = Editor::default();
    for _ in 0..4 {
        e.key_input(Key::Down, size(80, 24));
        e.key_input(Key::Right, size(80, 24));
    }
    e.key_input(Key::Up, size(80, 24));
    e.key_input(Key::Left, size(80, 24));
    e.key_input(Key::Left, size(80, 24));
    assert_eq!(e.cursor(), Position { x: 2, y: 3 });
}

#[test]
fn down_converges_to_twice_the_height() {
    let mut e = Editor::default();
    for _ in 0..100 {
        e.key_input(Key::Down, size(80, 24));
    }
    assert_eq!(e.cursor().y, 46);
    e.key_input(Key::Down, size(80, 24));
    assert_eq!(e.cursor().y, 46);
}

#[test]
fn down_on_one_row_terminal_stays() {
    let mut e = Editor::default();
    e.key_input(Key::Down, size(1, 1));
    e.key_input(Key::Down, size(1, 0));
    assert_eq!(e.cursor().y, 0);
}

#[test]
fn right_two_hundred_times_then_quit() {
    let mut e = Editor::default();
    let s = size(80, 24);
    for _ in 0..200 {
        e.key_input(Key::Right, s);
    }
    assert_eq!(e.cursor().x, 158);
    e.key_input(Key::Ctrl('w'), s);
    assert!(e.is_quit());
    assert_eq!(e.clear_screen(s), farewell());
}

#[test]
fn resize_is_honoured_on_next_motion() {
    let mut e = Editor::default();
    for _ in 0..30 {
        e.key_input(Key::Right, size(80, 24));
    }
    assert_eq!(e.cursor().x, 30);
    e.key_input(Key::Right, size(10, 24));
    assert_eq!(e.cursor().x, 30);
    e.key_input(Key::Left, size(10, 24));
    assert_eq!(e.cursor().x, 29);
}

#[test]
fn quit_key_from_any_state() {
    let mut e = Editor::default();
    e.key_input(Key::Down, size(80, 24));
    e.key_input(Key::Ctrl('w'), size(80, 24));
    assert!(e.is_quit());
    assert_eq!(e.clear_screen(size(3, 3)), farewell());
    e.key_input(Key::Char('x'), size(80, 24));
    assert!(e.is_quit());
}

#[test]
fn other_keys_are_ignored() {
    let mut e = Editor::default();
    e.key_input(Key::Right, size(80, 24));
    for key in [Key::Char('w'), Key::Ctrl('q'), Key::Char('q'), Key::Other] {
        e.key_input(key, size(80, 24));
    }
    assert!(!e.is_quit());
    assert_eq!(e.cursor(), Position { x: 1, y: 0 });
}

#[test]
fn move_cursor_ignores_non_arrows() {
    let mut e = Editor::default();
    e.move_cursor(Key::Char('a'), size(80, 24));
    e.move_cursor(Key::Right, size(80, 24));
    assert_eq!(e.cursor(), Position { x: 1, y: 0 });
}

#[test]
fn rendering_twice_gives_same_frame() {
    let mut e = Editor::default();
    e.key_input(Key::Right, size(80, 24));
    let first = e.clear_screen(size(80, 24));
    let second = e.clear_screen(size(80, 24));
    assert_eq!(first, second);
    assert_eq!(first[0], Op::HideCursor);
    assert_eq!(first[first.len() - 1], Op::ShowCursor);
}

#[test]
fn canvas_frame_layout() {
    let mut e = Editor::default();
    let s = size(80, 4);
    for _ in 0..3 {
        e.key_input(Key::Right, s);
    }
    for _ in 0..2 {
        e.key_input(Key::Down, s);
    }
    let frame = e.clear_screen(s);
    let expected = vec![
        Op::HideCursor,
        Op::ClearScreen,
        Op::MoveTo(1, 1),
        Op::ClearLine,
        Op::WriteLine(draw_welcome_message(80)),
        Op::ClearLine,
        Op::WriteLine("~".to_string()),
        Op::ClearLine,
        Op::WriteLine("~".to_string()),
        Op::MoveTo(4, 3),
        Op::Flush,
        Op::ShowCursor,
    ];
    assert_eq!(frame, expected);
}

#[test]
fn full_terminal_frame_length() {
    let frame = Editor::default().clear_screen(size(80, 24));
    assert_eq!(frame.len(), 3 + 2 * 23 + 3);
}

#[test]
fn one_by_one_terminal_renders_no_rows() {
    assert!(print_rows(size(1, 1)).is_empty());
    let frame = Editor::default().clear_screen(size(1, 1));
    let expected = vec![
        Op::HideCursor,
        Op::ClearScreen,
        Op::MoveTo(1, 1),
        Op::MoveTo(1, 1),
        Op::Flush,
        Op::ShowCursor,
    ];
    assert_eq!(frame, expected);
    assert!(draw_welcome_message(1).len() <= 1);
}

#[test]
fn zero_height_terminal_renders_no_rows() {
    assert!(print_rows(size(0, 0)).is_empty());
}

#[test]
fn rows_of_small_terminal() {
    let rows = print_rows(size(6, 3));
    let expected = vec![
        Op::ClearLine,
        Op::WriteLine("~Ophel".to_string()),
        Op::ClearLine,
        Op::WriteLine("~".to_string()),
    ];
    assert_eq!(rows, expected);
}

#[test]
fn terminal_coordinates_are_one_based_and_held() {
    assert_eq!(terminal_coord(0), 1);
    assert_eq!(terminal_coord(157), 158);
    assert_eq!(terminal_coord(65534), 65535);
    assert_eq!(terminal_coord(65535), 65535);
    assert_eq!(terminal_coord(usize::MAX), 65535);
}
