use crossterm::output::Screen;
use crossterm::style::{AnsiColor, Color, ColorBackend, TerminalColor};

#[test]
fn set_fg_emits_sgr_sequence() {
    let mut screen = Screen::default();
    let c = AnsiColor::new();
    c.set_fg(Color::Red, &mut screen).unwrap();
    assert_eq!(screen.stdout.buffer, b"\x1b[91m".to_vec());
    assert_eq!(screen.stdout.state.foreground, Some(Color::Red));
}

#[test]
fn set_fg_uses_fixed_code_table() {
    let mut screen = Screen::default();
    let c = AnsiColor::new();
    c.set_fg(Color::Black, &mut screen).unwrap();
    c.set_fg(Color::DarkRed, &mut screen).unwrap();
    c.set_fg(Color::White, &mut screen).unwrap();
    assert_eq!(screen.stdout.buffer, b"\x1b[30m\x1b[31m\x1b[97m".to_vec());
}

#[test]
fn set_bg_emits_shifted_code() {
    let mut screen = Screen::default();
    let c = AnsiColor::new();
    c.set_bg(Color::Blue, &mut screen).unwrap();
    assert_eq!(screen.stdout.buffer, b"\x1b[104m".to_vec());
    assert_eq!(screen.stdout.state.background, Some(Color::Blue));
}

#[test]
fn reset_emits_sgr_zero() {
    let mut screen = Screen::default();
    let c = AnsiColor::new();
    c.set_fg(Color::Green, &mut screen).unwrap();
    c.set_bg(Color::Cyan, &mut screen).unwrap();
    c.reset(&mut screen).unwrap();
    assert!(screen.stdout.buffer.ends_with(b"\x1b[0m"));
    assert_eq!(screen.stdout.state.foreground, None);
    assert_eq!(screen.stdout.state.background, None);
}

#[test]
fn color_reset_restores_attributes_before_set_fg() {
    let mut screen = Screen::default();
    let fg_before = screen.stdout.state.foreground;
    let bg_before = screen.stdout.state.background;
    let mut colored = TerminalColor::new();
    colored.set_fg(Color::Red, &mut screen).unwrap();
    colored.reset(&mut screen).unwrap();
    assert_eq!(screen.stdout.state.foreground, fg_before);
    assert_eq!(screen.stdout.state.background, bg_before);
}

#[test]
fn native_color_changes_state_without_bytes() {
    let mut screen = Screen::default();
    let mut colored = TerminalColor::new_with_probe(true, false);
    colored.set_fg(Color::Magenta, &mut screen).unwrap();
    colored.set_bg(Color::Grey, &mut screen).unwrap();
    assert!(screen.stdout.buffer.is_empty());
    assert_eq!(screen.stdout.state.foreground, Some(Color::Magenta));
    assert_eq!(screen.stdout.state.background, Some(Color::Grey));
    colored.reset(&mut screen).unwrap();
    assert_eq!(screen.stdout.state.foreground, None);
    assert_eq!(screen.stdout.state.background, None);
    assert!(screen.stdout.buffer.is_empty());
}

#[test]
fn color_facade_selects_backend_from_probe() {
    assert!(matches!(TerminalColor::new().color, ColorBackend::Ansi(_)));
    assert!(matches!(
        TerminalColor::new_with_probe(true, true).color,
        ColorBackend::Ansi(_)
    ));
    assert!(matches!(
        TerminalColor::new_with_probe(true, false).color,
        ColorBackend::Native(_)
    ));
    assert!(matches!(
        TerminalColor::new_with_probe(false, false).color,
        ColorBackend::Ansi(_)
    ));
}

#[test]
fn get_available_color_count_reads_description() {
    let colored = TerminalColor::new();
    assert_eq!(colored.get_available_color_count(None), 8);
    let deep = b"xterm-256color".to_vec();
    assert_eq!(colored.get_available_color_count(Some(&deep)), 256);
    let plain = b"xterm".to_vec();
    assert_eq!(colored.get_available_color_count(Some(&plain)), 8);
    let bare = b"256color".to_vec();
    assert_eq!(colored.get_available_color_count(Some(&bare)), 256);
    let empty = Vec::new();
    assert_eq!(colored.get_available_color_count(Some(&empty)), 8);
}
