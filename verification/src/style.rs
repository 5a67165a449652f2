//! Color-related actions: the closed set of named colors, the ANSI and
//! native color backends, and the [`TerminalColor`] facade that binds one
//! of them to the shared output sink.

use vstd::prelude::*;

use crate::ansi;
use crate::error::ErrorKind;
use crate::output::{DeviceState, Screen};

verus! {

/// The closed set of named colors. Colors are plain values, passed by
/// copy; every backend covers all of them.
#[derive(Clone, Copy, Debug, PartialEq, Eq)]
pub enum Color {
    Black,
    DarkGrey,
    Red,
    DarkRed,
    Green,
    DarkGreen,
    Yellow,
    DarkYellow,
    Blue,
    DarkBlue,
    Magenta,
    DarkMagenta,
    Cyan,
    DarkCyan,
    Grey,
    White,
}

/// The ANSI select-graphic-rendition code that sets `c` as the foreground
/// color.
pub open spec fn fg_code(c: Color) -> u16 {
    match c {
        Color::Black => 30,
        Color::DarkRed => 31,
        Color::DarkGreen => 32,
        Color::DarkYellow => 33,
        Color::DarkBlue => 34,
        Color::DarkMagenta => 35,
        Color::DarkCyan => 36,
        Color::Grey => 37,
        Color::DarkGrey => 90,
        Color::Red => 91,
        Color::Green => 92,
        Color::Yellow => 93,
        Color::Blue => 94,
        Color::Magenta => 95,
        Color::Cyan => 96,
        Color::White => 97,
    }
}

/// The code that sets `c` as the background color: the foreground code
/// shifted by ten, as the wire format fixes it.
pub open spec fn bg_code(c: Color) -> u16 {
    (fg_code(c) + 10) as u16
}

/// The sequence emitted to set the foreground color: `CSI {code} m`.
pub open spec fn set_fg_seq(c: Color) -> Seq<u8> {
    ansi::csi() + ansi::dec_seq(fg_code(c) as nat) + seq![109u8]
}

/// The sequence emitted to set the background color: `CSI {code} m`.
pub open spec fn set_bg_seq(c: Color) -> Seq<u8> {
    ansi::csi() + ansi::dec_seq(bg_code(c) as nat) + seq![109u8]
}

/// The sequence emitted to reset all attributes: `CSI 0 m`.
pub open spec fn reset_seq() -> Seq<u8> {
    ansi::csi() + seq![48u8, 109u8]
}

/// The device state after the foreground color is set to `c`.
pub open spec fn set_fg_state(s: DeviceState, c: Color) -> DeviceState {
    DeviceState { foreground: Some(c), ..s }
}

/// The device state after the background color is set to `c`.
pub open spec fn set_bg_state(s: DeviceState, c: Color) -> DeviceState {
    DeviceState { background: Some(c), ..s }
}

/// The device state after attributes are reset to the device defaults.
pub open spec fn reset_state(s: DeviceState) -> DeviceState {
    DeviceState { foreground: None, background: None, ..s }
}

/// The foreground code of `c`, as [`fg_code`] gives it.
pub fn fg_code_of(c: Color) -> (r: u16)
    ensures
        r == fg_code(c),
{
    match c {
        Color::Black => 30,
        Color::DarkRed => 31,
        Color::DarkGreen => 32,
        Color::DarkYellow => 33,
        Color::DarkBlue => 34,
        Color::DarkMagenta => 35,
        Color::DarkCyan => 36,
        Color::Grey => 37,
        Color::DarkGrey => 90,
        Color::Red => 91,
        Color::Green => 92,
        Color::Yellow => 93,
        Color::Blue => 94,
        Color::Magenta => 95,
        Color::Cyan => 96,
        Color::White => 97,
    }
}

/// The color backend that emits ANSI control sequences into the sink.
pub struct AnsiColor;

impl AnsiColor {
    /// Create the ANSI color backend; it is stateless beyond the sink it
    /// writes to.
    pub fn new() -> (r: AnsiColor) {
        AnsiColor {}
    }

    /// Emit `CSI {code} m` and record `c` as the foreground color.
    pub fn set_fg(&self, color: Color, screen: &mut Screen) -> (r: Result<(), ErrorKind>)
        ensures
            old(screen).stdout.state.device_failed ==> r == Err::<(), ErrorKind>(
                ErrorKind::DeviceWriteFailure,
            ) && *final(screen) == *old(screen),
            !old(screen).stdout.state.device_failed ==> r == Ok::<(), ErrorKind>(())
                && final(screen).stdout.buffer@ == old(screen).stdout.buffer@ + set_fg_seq(color)
                && final(screen).stdout.state == set_fg_state(old(screen).stdout.state, color),
    {
        let mut b = ansi::csi_buf();
        ansi::push_dec(&mut b, fg_code_of(color));
        b.push(109);
        assert(b@ =~= set_fg_seq(color));
        match screen.stdout.write_bytes(b) {
            Err(e) => Err(e),
            Ok(()) => {
                screen.stdout.state.foreground = Some(color);
                Ok(())
            },
        }
    }

    /// Emit `CSI {code} m` and record `c` as the background color.
    pub fn set_bg(&self, color: Color, screen: &mut Screen) -> (r: Result<(), ErrorKind>)
        ensures
            old(screen).stdout.state.device_failed ==> r == Err::<(), ErrorKind>(
                ErrorKind::DeviceWriteFailure,
            ) && *final(screen) == *old(screen),
            !old(screen).stdout.state.device_failed ==> r == Ok::<(), ErrorKind>(())
                && final(screen).stdout.buffer@ == old(screen).stdout.buffer@ + set_bg_seq(color)
                && final(screen).stdout.state == set_bg_state(old(screen).stdout.state, color),
    {
        let mut b = ansi::csi_buf();
        assert(fg_code(color) <= 97);
        ansi::push_dec(&mut b, fg_code_of(color) + 10);
        b.push(109);
        assert(b@ =~= set_bg_seq(color));
        match screen.stdout.write_bytes(b) {
            Err(e) => Err(e),
            Ok(()) => {
                screen.stdout.state.background = Some(color);
                Ok(())
            },
        }
    }

    /// Emit `CSI 0 m` and restore the default attributes.
    pub fn reset(&self, screen: &mut Screen) -> (r: Result<(), ErrorKind>)
        ensures
            old(screen).stdout.state.device_failed ==> r == Err::<(), ErrorKind>(
                ErrorKind::DeviceWriteFailure,
            ) && *final(screen) == *old(screen),
            !old(screen).stdout.state.device_failed ==> r == Ok::<(), ErrorKind>(())
                && final(screen).stdout.buffer@ == old(screen).stdout.buffer@ + reset_seq()
                && final(screen).stdout.state == reset_state(old(screen).stdout.state),
    {
        let mut b = ansi::csi_buf();
        b.push(48);
        b.push(109);
        assert(b@ =~= reset_seq());
        match screen.stdout.write_bytes(b) {
            Err(e) => Err(e),
            Ok(()) => {
                screen.stdout.state.foreground = None;
                screen.stdout.state.background = None;
                Ok(())
            },
        }
    }
}

/// The color backend that drives the host console directly: it changes the
/// device attributes without emitting bytes.
pub struct NativeColor;

impl NativeColor {
    /// Create the native color backend.
    pub fn new() -> (r: NativeColor) {
        NativeColor {}
    }

    /// Set the foreground attribute through the host console.
    pub fn set_fg(&self, color: Color, screen: &mut Screen) -> (r: Result<(), ErrorKind>)
        ensures
            old(screen).stdout.state.device_failed ==> r == Err::<(), ErrorKind>(
                ErrorKind::DeviceWriteFailure,
            ) && *final(screen) == *old(screen),
            !old(screen).stdout.state.device_failed ==> r == Ok::<(), ErrorKind>(())
                && final(screen).stdout.buffer == old(screen).stdout.buffer
                && final(screen).stdout.state == set_fg_state(old(screen).stdout.state, color),
    {
        if screen.stdout.state.device_failed {
            return Err(ErrorKind::DeviceWriteFailure);
        }
        screen.stdout.state.foreground = Some(color);
        Ok(())
    }

    /// Set the background attribute through the host console.
    pub fn set_bg(&self, color: Color, screen: &mut Screen) -> (r: Result<(), ErrorKind>)
        ensures
            old(screen).stdout.state.device_failed ==> r == Err::<(), ErrorKind>(
                ErrorKind::DeviceWriteFailure,
            ) && *final(screen) == *old(screen),
            !old(screen).stdout.state.device_failed ==> r == Ok::<(), ErrorKind>(())
                && final(screen).stdout.buffer == old(screen).stdout.buffer
                && final(screen).stdout.state == set_bg_state(old(screen).stdout.state, color),
    {
        if screen.stdout.state.device_failed {
            return Err(ErrorKind::DeviceWriteFailure);
        }
        screen.stdout.state.background = Some(color);
        Ok(())
    }

    /// Restore the default attributes through the host console.
    pub fn reset(&self, screen: &mut Screen) -> (r: Result<(), ErrorKind>)
        ensures
            old(screen).stdout.state.device_failed ==> r == Err::<(), ErrorKind>(
                ErrorKind::DeviceWriteFailure,
            ) && *final(screen) == *old(screen),
            !old(screen).stdout.state.device_failed ==> r == Ok::<(), ErrorKind>(())
                && final(screen).stdout.buffer == old(screen).stdout.buffer
                && final(screen).stdout.state == reset_state(old(screen).stdout.state),
    {
        if screen.stdout.state.device_failed {
            return Err(ErrorKind::DeviceWriteFailure);
        }
        screen.stdout.state.foreground = None;
        screen.stdout.state.background = None;
        Ok(())
    }
}

/// The color backend chosen for a facade: a sealed tagged choice, resolved
/// once at construction time and never re-probed.
pub enum ColorBackend {
    Ansi(AnsiColor),
    Native(NativeColor),
}

impl ColorBackend {
    /// Whether the ANSI backend was selected.
    pub open spec fn is_ansi(&self) -> bool {
        self is Ansi
    }
}

/// The marker that a terminal description carries when the host offers a
/// deep palette: the bytes of `256color`.
pub open spec fn deep_color_marker() -> Seq<u8> {
    seq![50u8, 53u8, 54u8, 99u8, 111u8, 108u8, 111u8, 114u8]
}

/// Whether `n` occurs contiguously inside `h`.
pub open spec fn contains_seq(h: Seq<u8>, n: Seq<u8>) -> bool {
    exists|i: int| 0 <= i && i + n.len() <= h.len() && #[trigger] h.subrange(i, i + n.len()) == n
}

/// Decide whether `n` occurs contiguously inside `h`.
pub fn contains_subseq(h: &Vec<u8>, n: &Vec<u8>) -> (r: bool)
    ensures
        r == contains_seq(h@, n@),
{
    if n.len() > h.len() {
        return false;
    }
    if n.len() == 0 {
        proof {
            let w: int = 0;
            assert(h@.subrange(w, w + n@.len()) =~= n@);
        }
        return true;
    }
    let end: usize = h.len() - n.len();
    let mut i: usize = 0;
    while i <= end
        invariant
            1 <= n@.len() <= h@.len() <= usize::MAX,
            end == h@.len() - n@.len(),
            i <= end + 1,
            forall|k: int| 0 <= k < i ==> #[trigger] h@.subrange(k, k + n@.len()) != n@,
        decreases end + 1 - i,
    {
        let mut j: usize = 0;
        let mut matched: bool = true;
        while j < n.len()
            invariant
                i + n@.len() <= h@.len() <= usize::MAX,
                j <= n@.len(),
                matched ==> forall|t: int| 0 <= t < j ==> h@[i + t] == n@[t],
                !matched ==> exists|t: int| 0 <= t < n@.len() && h@[i + t] != n@[t],
            decreases n@.len() - j,
        {
            if h[i + j] != n[j] {
                matched = false;
            }
            j += 1;
        }
        if matched {
            assert(h@.subrange(i as int, i + n@.len()) =~= n@);
            return true;
        }
        proof {
            let t = choose|t: int| 0 <= t < n@.len() && h@[i + t] != n@[t];
            assert(h@.subrange(i as int, i + n@.len())[t] == h@[i + t]);
            assert(h@.subrange(i as int, i + n@.len()) != n@);
        }
        i += 1;
    }
    false
}

/// The public facade for color actions: a backend selected once, bound at
/// each call to the shared output sink it acts on.
pub struct TerminalColor {
    /// The backend every call is forwarded to.
    pub color: ColorBackend,
}

impl TerminalColor {
    /// Create a color facade on a host whose terminals all understand ANSI
    /// sequences: the ANSI backend is selected unconditionally.
    pub fn new() -> (r: TerminalColor)
        ensures
            r.color.is_ansi(),
    {
        TerminalColor { color: ColorBackend::Ansi(AnsiColor::new()) }
    }

    /// Create a color facade on a host that carries a native backend, from
    /// the result of the one-time capability probe: the ANSI backend iff
    /// the probe enabled ANSI passthrough.
    pub fn new_with_probe(has_native: bool, ansi_enabled: bool) -> (r: TerminalColor)
        ensures
            r.color.is_ansi() == crate::functions::ansi_selected(has_native, ansi_enabled),
    {
        if has_native {
            TerminalColor {
                color: crate::functions::get_module(
                    ColorBackend::Native(NativeColor::new()),
                    ColorBackend::Ansi(AnsiColor::new()),
                    ansi_enabled,
                ),
            }
        } else {
            TerminalColor { color: ColorBackend::Ansi(AnsiColor::new()) }
        }
    }

    /// Set the foreground color of everything printed next.
    pub fn set_fg(&mut self, color: Color, screen: &mut Screen) -> (r: Result<(), ErrorKind>)
        ensures
            *final(self) == *old(self),
            old(screen).stdout.state.device_failed ==> r == Err::<(), ErrorKind>(
                ErrorKind::DeviceWriteFailure,
            ) && *final(screen) == *old(screen),
            !old(screen).stdout.state.device_failed ==> r == Ok::<(), ErrorKind>(())
                && final(screen).stdout.state == set_fg_state(old(screen).stdout.state, color)
                && (old(self).color.is_ansi() ==> final(screen).stdout.buffer@ == old(
                screen,
            ).stdout.buffer@ + set_fg_seq(color))
                && (!old(self).color.is_ansi() ==> final(screen).stdout.buffer == old(
                screen,
            ).stdout.buffer),
    {
        match &self.color {
            ColorBackend::Ansi(c) => c.set_fg(color, screen),
            ColorBackend::Native(c) => c.set_fg(color, screen),
        }
    }

    /// Set the background color of everything printed next.
    pub fn set_bg(&mut self, color: Color, screen: &mut Screen) -> (r: Result<(), ErrorKind>)
        ensures
            *final(self) == *old(self),
            old(screen).stdout.state.device_failed ==> r == Err::<(), ErrorKind>(
                ErrorKind::DeviceWriteFailure,
            ) && *final(screen) == *old(screen),
            !old(screen).stdout.state.device_failed ==> r == Ok::<(), ErrorKind>(())
                && final(screen).stdout.state == set_bg_state(old(screen).stdout.state, color)
                && (old(self).color.is_ansi() ==> final(screen).stdout.buffer@ == old(
                screen,
            ).stdout.buffer@ + set_bg_seq(color))
                && (!old(self).color.is_ansi() ==> final(screen).stdout.buffer == old(
                screen,
            ).stdout.buffer),
    {
        match &self.color {
            ColorBackend::Ansi(c) => c.set_bg(color, screen),
            ColorBackend::Native(c) => c.set_bg(color, screen),
        }
    }

    /// Reset foreground and background to the device defaults.
    pub fn reset(&mut self, screen: &mut Screen) -> (r: Result<(), ErrorKind>)
        ensures
            *final(self) == *old(self),
            old(screen).stdout.state.device_failed ==> r == Err::<(), ErrorKind>(
                ErrorKind::DeviceWriteFailure,
            ) && *final(screen) == *old(screen),
            !old(screen).stdout.state.device_failed ==> r == Ok::<(), ErrorKind>(())
                && final(screen).stdout.state == reset_state(old(screen).stdout.state)
                && (old(self).color.is_ansi() ==> final(screen).stdout.buffer@ == old(
                screen,
            ).stdout.buffer@ + reset_seq())
                && (!old(self).color.is_ansi() ==> final(screen).stdout.buffer == old(
                screen,
            ).stdout.buffer),
    {
        match &self.color {
            ColorBackend::Ansi(c) => c.reset(screen),
            ColorBackend::Native(c) => c.reset(screen),
        }
    }

    /// How many colors the host palette offers, judged from the terminal
    /// description the environment hands the process (the value of its
    /// `TERM` entry, as bytes): 256 when the description names a deep
    /// palette, 8 otherwise or when there is no description.
    pub fn get_available_color_count(&self, term: Option<&Vec<u8>>) -> (r: u16)
        ensures
            term matches Some(v) ==> r == (if contains_seq(v@, deep_color_marker()) {
                256u16
            } else {
                8u16
            }),
            term is None ==> r == 8,
    {
        match term {
            Some(v) => {
                let marker: Vec<u8> = vec![50, 53, 54, 99, 111, 108, 111, 114];
                assert(marker@ =~= deep_color_marker());
                if contains_subseq(v, &marker) {
                    256
                } else {
                    8
                }
            },
            None => 8,
        }
    }
}

} // verus!
