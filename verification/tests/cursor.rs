use crossterm::cursor::{cursor, AnsiCursor, CursorBackend, NativeCursor, TerminalCursor};
use crossterm::error::ErrorKind;
use crossterm::output::Screen;

#[test]
fn goto_emits_one_based_sequence() {
    let mut screen = Screen::default();
    let c = AnsiCursor::new();
    c.goto(10, 24, &mut screen).unwrap();
    assert_eq!(screen.stdout.buffer, b"\x1b[25;11H".to_vec());
    assert_eq!(screen.stdout.state.cursor_x, 10);
    assert_eq!(screen.stdout.state.cursor_y, 24);
}

#[test]
fn goto_then_pos_round_trip() {
    let mut screen = Screen::default();
    let c = AnsiCursor::new();
    c.goto(3, 7, &mut screen).unwrap();
    assert_eq!(c.pos(&screen.stdout).unwrap(), (3, 7));
}

#[test]
fn move_up_then_down_returns_to_origin() {
    let mut screen = Screen::default();
    let c = AnsiCursor::new();
    c.goto(5, 9, &mut screen).unwrap();
    c.move_up(4, &mut screen).unwrap();
    c.move_down(4, &mut screen).unwrap();
    assert_eq!(c.pos(&screen.stdout).unwrap(), (5, 9));
}

#[test]
fn move_up_clamps_at_top_edge() {
    let mut screen = Screen::default();
    let c = AnsiCursor::new();
    c.goto(0, 2, &mut screen).unwrap();
    c.move_up(5, &mut screen).unwrap();
    assert_eq!(c.pos(&screen.stdout).unwrap(), (0, 0));
}

#[test]
fn moves_emit_count_sequences() {
    let mut screen = Screen::default();
    let c = AnsiCursor::new();
    c.move_up(2, &mut screen).unwrap();
    c.move_down(3, &mut screen).unwrap();
    c.move_right(4, &mut screen).unwrap();
    c.move_left(5, &mut screen).unwrap();
    assert_eq!(screen.stdout.buffer, b"\x1b[2A\x1b[3B\x1b[4C\x1b[5D".to_vec());
}

#[test]
fn save_and_reset_position() {
    let mut screen = Screen::default();
    let c = AnsiCursor::new();
    c.goto(4, 6, &mut screen).unwrap();
    c.save_position(&mut screen).unwrap();
    c.goto(1, 1, &mut screen).unwrap();
    c.reset_position(&mut screen).unwrap();
    assert_eq!(c.pos(&screen.stdout).unwrap(), (4, 6));
    assert_eq!(
        screen.stdout.buffer,
        b"\x1b[7;5H\x1b[s\x1b[2;2H\x1b[u".to_vec()
    );
}

#[test]
fn hide_show_blink_sequences_and_state() {
    let mut screen = Screen::default();
    let c = AnsiCursor::new();
    c.hide_cursor(&mut screen).unwrap();
    assert!(!screen.stdout.state.cursor_visible);
    c.show_cursor(&mut screen).unwrap();
    assert!(screen.stdout.state.cursor_visible);
    c.blink(true, &mut screen).unwrap();
    assert!(screen.stdout.state.cursor_blink);
    c.blink(false, &mut screen).unwrap();
    assert!(!screen.stdout.state.cursor_blink);
    assert_eq!(
        screen.stdout.buffer,
        b"\x1b[?25l\x1b[?25h\x1b[?12h\x1b[?12l".to_vec()
    );
}

#[test]
fn write_failure_surfaces_and_queries_time_out() {
    let mut screen = Screen::default();
    let c = AnsiCursor::new();
    c.goto(1, 1, &mut screen).unwrap();
    let before = screen.stdout.buffer.clone();
    screen.stdout.mark_write_failure();
    assert_eq!(
        c.goto(2, 2, &mut screen),
        Err(ErrorKind::DeviceWriteFailure)
    );
    assert_eq!(screen.stdout.buffer, before);
    assert_eq!(c.pos(&screen.stdout), Err(ErrorKind::DeviceQueryTimeout));
}

#[test]
fn cursor_facade_selects_backend_from_probe() {
    assert!(matches!(TerminalCursor::new().cursor, CursorBackend::Ansi(_)));
    assert!(matches!(cursor().cursor, CursorBackend::Ansi(_)));
    assert!(matches!(
        TerminalCursor::new_with_probe(true, true).cursor,
        CursorBackend::Ansi(_)
    ));
    assert!(matches!(
        TerminalCursor::new_with_probe(true, false).cursor,
        CursorBackend::Native(_)
    ));
    assert!(matches!(
        TerminalCursor::new_with_probe(false, false).cursor,
        CursorBackend::Ansi(_)
    ));
    assert!(matches!(
        TerminalCursor::new_with_probe(false, true).cursor,
        CursorBackend::Ansi(_)
    ));
}

#[test]
fn goto_at_largest_coordinates() {
    let mut screen = Screen::default();
    let c = AnsiCursor::new();
    c.goto(65534, 65534, &mut screen).unwrap();
    assert_eq!(screen.stdout.buffer, b"\x1b[65535;65535H".to_vec());
    assert_eq!(c.pos(&screen.stdout).unwrap(), (65534, 65534));
}

#[test]
fn move_down_saturates_at_largest_row() {
    let mut screen = Screen::default();
    let c = AnsiCursor::new();
    c.goto(0, 65534, &mut screen).unwrap();
    c.move_down(5, &mut screen).unwrap();
    assert_eq!(c.pos(&screen.stdout).unwrap(), (0, 65535));
}

#[test]
fn native_cursor_moves_without_bytes() {
    let mut screen = Screen::default();
    let c = NativeCursor::new();
    c.goto(6, 2, &mut screen).unwrap();
    c.move_down(3, &mut screen).unwrap();
    assert_eq!(c.pos(&screen.stdout).unwrap(), (6, 5));
    assert!(screen.stdout.buffer.is_empty());
}

#[test]
fn facade_forwards_to_selected_backend() {
    let mut screen = Screen::default();
    let t = TerminalCursor::new();
    t.goto(2, 3, &mut screen).unwrap();
    assert_eq!(screen.stdout.buffer, b"\x1b[4;3H".to_vec());
    assert_eq!(t.pos(&screen.stdout).unwrap(), (2, 3));

    let mut native_screen = Screen::default();
    let n = TerminalCursor::new_with_probe(true, false);
    n.goto(2, 3, &mut native_screen).unwrap();
    assert!(native_screen.stdout.buffer.is_empty());
    assert_eq!(n.pos(&native_screen.stdout).unwrap(), (2, 3));
}
