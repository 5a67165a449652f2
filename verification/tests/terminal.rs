use crossterm::cursor::AnsiCursor;
use crossterm::error::ErrorKind;
use crossterm::output::Screen;
use crossterm::terminal::{
    terminal, AnsiTerminal, ClearType, NativeTerminal, Terminal, TerminalBackend,
};

#[test]
fn resize_ansi() {
    let mut screen = Screen::default();
    let term = AnsiTerminal::new();

    term.set_size(50, 50, &mut screen).unwrap();

    let (x, y) = term.terminal_size(&screen.stdout);

    assert_eq!(x, 50);
    assert_eq!(y, 50);
}

#[test]
fn resize_native() {
    let mut screen = Screen::default();
    let term = NativeTerminal::new();

    term.set_size(10, 10, &mut screen).unwrap();

    let (x, y) = term.terminal_size(&screen.stdout);

    assert_eq!(x, 10);
    assert_eq!(y, 10);
}

#[test]
fn resize_emits_size_sequence() {
    let mut screen = Screen::default();
    let term = AnsiTerminal::new();
    term.set_size(80, 24, &mut screen).unwrap();
    assert_eq!(screen.stdout.buffer, b"\x1b[8;24;80t".to_vec());
}

#[test]
fn clear_all_clears_and_resets_cursor_in_one_call() {
    let mut screen = Screen::default();
    let cursor = AnsiCursor::new();
    let term = AnsiTerminal::new();
    cursor.goto(8, 5, &mut screen).unwrap();
    let before = screen.stdout.buffer.len();
    term.clear(ClearType::All, &mut screen).unwrap();
    assert_eq!(screen.stdout.buffer[before..].to_vec(), b"\x1b[2J\x1b[1;1H".to_vec());
    assert_eq!(cursor.pos(&screen.stdout).unwrap(), (0, 0));
}

#[test]
fn clear_variants_emit_their_sequences() {
    let cases: Vec<(ClearType, &[u8])> = vec![
        (ClearType::FromCursorDown, b"\x1b[J"),
        (ClearType::FromCursorUp, b"\x1b[1J"),
        (ClearType::CurrentLine, b"\x1b[2K"),
        (ClearType::UntilNewLine, b"\x1b[K"),
    ];
    for (clear_type, expected) in cases {
        let mut screen = Screen::default();
        AnsiTerminal::new().clear(clear_type, &mut screen).unwrap();
        assert_eq!(screen.stdout.buffer, expected.to_vec());
    }
}

#[test]
fn scrolling_emits_count_sequences_and_keeps_state() {
    let mut screen = Screen::default();
    let term = AnsiTerminal::new();
    let state_before = screen.stdout.state;
    term.scroll_up(5, &mut screen).unwrap();
    term.scroll_down(2, &mut screen).unwrap();
    assert_eq!(screen.stdout.buffer, b"\x1b[5S\x1b[2T".to_vec());
    assert_eq!(screen.stdout.state, state_before);
}

#[test]
fn raw_mode_teardown_on_exit() {
    let mut screen = Screen::default();
    screen.stdout.enable_raw_mode();
    assert!(screen.stdout.is_raw_mode_enabled());
    let term = Terminal::new();
    term.exit(&mut screen.stdout);
    assert!(!screen.stdout.is_raw_mode_enabled());
}

#[test]
fn exit_after_write_failure_still_disables_raw_mode() {
    let mut screen = Screen::default();
    screen.stdout.enable_raw_mode();
    screen.stdout.mark_write_failure();
    let term = Terminal::new();
    assert_eq!(
        term.clear(ClearType::All, &mut screen),
        Err(ErrorKind::DeviceWriteFailure)
    );
    term.exit(&mut screen.stdout);
    assert!(!screen.stdout.is_raw_mode_enabled());
}

#[test]
fn resize_then_size_through_facade() {
    let mut screen = Screen::default();
    let term = Terminal::new();
    term.resize(80, 24, &mut screen).unwrap();
    assert_eq!(term.terminal_size(&screen.stdout), (80, 24));
}

#[test]
fn terminal_facade_selects_backend_from_probe() {
    assert!(matches!(Terminal::new().terminal, TerminalBackend::Ansi(_)));
    assert!(matches!(terminal().terminal, TerminalBackend::Ansi(_)));
    assert!(matches!(
        Terminal::new_with_probe(true, true).terminal,
        TerminalBackend::Ansi(_)
    ));
    assert!(matches!(
        Terminal::new_with_probe(true, false).terminal,
        TerminalBackend::Native(_)
    ));
    assert!(matches!(
        Terminal::new_with_probe(false, false).terminal,
        TerminalBackend::Ansi(_)
    ));
}

#[test]
fn native_clear_all_resets_cursor_without_bytes() {
    let mut screen = Screen::default();
    let cursor = AnsiCursor::new();
    cursor.goto(9, 9, &mut screen).unwrap();
    let bytes_before = screen.stdout.buffer.clone();
    let term = NativeTerminal::new();
    term.clear(ClearType::All, &mut screen).unwrap();
    assert_eq!(screen.stdout.buffer, bytes_before);
    assert_eq!(screen.stdout.state.cursor_x, 0);
    assert_eq!(screen.stdout.state.cursor_y, 0);
}

#[test]
fn raw_mode_toggles_without_bytes() {
    let mut screen = Screen::default();
    assert!(!screen.stdout.is_raw_mode_enabled());
    screen.stdout.enable_raw_mode();
    assert!(screen.stdout.is_raw_mode_enabled());
    screen.stdout.disable_raw_mode();
    assert!(!screen.stdout.is_raw_mode_enabled());
    assert!(screen.stdout.buffer.is_empty());
}

#[test]
fn flush_drains_buffer_once() {
    let mut screen = Screen::default();
    AnsiTerminal::new().scroll_up(1, &mut screen).unwrap();
    let drained = screen.stdout.flush();
    assert_eq!(drained, b"\x1b[1S".to_vec());
    assert!(screen.stdout.buffer.is_empty());
    assert!(screen.stdout.flush().is_empty());
}
