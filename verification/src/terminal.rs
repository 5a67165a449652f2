//! Terminal-related actions: clearing, scrolling, resizing, size queries
//! and session teardown, through the ANSI and native terminal backends and
//! the [`Terminal`] facade that binds one of them to the shared output
//! sink.

use vstd::prelude::*;

use crate::ansi;
use crate::cursor::{goto_seq, goto_state, AnsiCursor};
use crate::error::ErrorKind;
use crate::output::{DeviceState, Screen, TerminalOutput};

verus! {

/// The closed set of ways to clear: every terminal backend covers all of
/// them.
pub enum ClearType {
    /// Clear the whole visible area and reset the cursor to the origin,
    /// as one composite command.
    All,
    /// Clear from the cursor to the end of the screen.
    FromCursorDown,
    /// Clear from the cursor to the start of the screen.
    FromCursorUp,
    /// Clear the line the cursor is on.
    CurrentLine,
    /// Clear from the cursor to the end of its line.
    UntilNewLine,
}

/// The bytes emitted for each way of clearing. Clearing all is composite:
/// `CSI 2J` followed by the sequence that places the cursor at the origin.
pub open spec fn clear_seq(clear_type: ClearType) -> Seq<u8> {
    match clear_type {
        ClearType::All => ansi::csi() + seq![50u8, 74u8] + goto_seq(0, 0),
        ClearType::FromCursorDown => ansi::csi() + seq![74u8],
        ClearType::FromCursorUp => ansi::csi() + seq![49u8, 74u8],
        ClearType::CurrentLine => ansi::csi() + seq![50u8, 75u8],
        ClearType::UntilNewLine => ansi::csi() + seq![75u8],
    }
}

/// The device state after a clear: clearing all moves the cursor to the
/// origin; every other clear repaints content and leaves the state alone.
pub open spec fn clear_state(clear_type: ClearType, s: DeviceState) -> DeviceState {
    match clear_type {
        ClearType::All => goto_state(s, 0, 0),
        _ => s,
    }
}

/// The sequence emitted to scroll `n` lines up: `CSI {n} S`.
pub open spec fn scroll_up_seq(n: u16) -> Seq<u8> {
    ansi::csi() + ansi::dec_seq(n as nat) + seq![83u8]
}

/// The sequence emitted to scroll `n` lines down: `CSI {n} T`.
pub open spec fn scroll_down_seq(n: u16) -> Seq<u8> {
    ansi::csi() + ansi::dec_seq(n as nat) + seq![84u8]
}

/// The sequence emitted to resize the terminal: `CSI 8;{rows};{cols} t`.
pub open spec fn set_size_seq(width: u16, height: u16) -> Seq<u8> {
    ansi::csi() + seq![56u8, 59u8] + ansi::dec_seq(height as nat) + seq![59u8] + ansi::dec_seq(
        width as nat,
    ) + seq![116u8]
}

/// The device state after a resize.
pub open spec fn set_size_state(s: DeviceState, width: u16, height: u16) -> DeviceState {
    DeviceState { width, height, ..s }
}

/// The device state after session teardown: raw mode is off, whatever
/// else happened before.
pub open spec fn exit_state(s: DeviceState) -> DeviceState {
    DeviceState { raw_mode: false, ..s }
}

/// Clearing the whole screen always leaves the cursor at the origin: the
/// repaint and the cursor reset are one composite effect.
pub proof fn lemma_clear_all_resets_cursor(s: DeviceState)
    ensures
        clear_state(ClearType::All, s).cursor_x == 0,
        clear_state(ClearType::All, s).cursor_y == 0,
{
}

/// Session teardown leaves raw mode disabled in every starting state:
/// with raw mode on or off, and no matter whether a write has already
/// failed.
pub proof fn lemma_exit_disables_raw(s: DeviceState)
    ensures
        !exit_state(s).raw_mode,
{
}

/// The terminal backend that emits ANSI control sequences into the sink.
pub struct AnsiTerminal;

impl AnsiTerminal {
    /// Create the ANSI terminal backend; it is stateless beyond the sink
    /// it writes to.
    pub fn new() -> (r: AnsiTerminal) {
        AnsiTerminal {}
    }

    /// Emit the clear sequence for `clear_type`; clearing all also places
    /// the cursor at the origin in the same call.
    pub fn clear(&self, clear_type: ClearType, screen: &mut Screen) -> (r: Result<(), ErrorKind>)
        ensures
            old(screen).stdout.state.device_failed ==> r == Err::<(), ErrorKind>(
                ErrorKind::DeviceWriteFailure,
            ) && *final(screen) == *old(screen),
            !old(screen).stdout.state.device_failed ==> r == Ok::<(), ErrorKind>(())
                && final(screen).stdout.buffer@ == old(screen).stdout.buffer@ + clear_seq(
                clear_type,
            )
                && final(screen).stdout.state == clear_state(clear_type, old(
                screen,
            ).stdout.state),
    {
        match clear_type {
            ClearType::All => {
                let mut b = ansi::csi_buf();
                b.push(50);
                b.push(74);
                match screen.stdout.write_bytes(b) {
                    Err(e) => Err(e),
                    Ok(()) => {
                        let r = AnsiCursor::new().goto(0, 0, screen);
                        assert(r is Ok);
                        assert(final(screen).stdout.buffer@ =~= old(screen).stdout.buffer@
                            + clear_seq(ClearType::All));
                        r
                    },
                }
            },
            ClearType::FromCursorDown => {
                let mut b = ansi::csi_buf();
                b.push(74);
                assert(b@ =~= clear_seq(ClearType::FromCursorDown));
                screen.stdout.write_bytes(b)
            },
            ClearType::FromCursorUp => {
                let mut b = ansi::csi_buf();
                b.push(49);
                b.push(74);
                assert(b@ =~= clear_seq(ClearType::FromCursorUp));
                screen.stdout.write_bytes(b)
            },
            ClearType::CurrentLine => {
                let mut b = ansi::csi_buf();
                b.push(50);
                b.push(75);
                assert(b@ =~= clear_seq(ClearType::CurrentLine));
                screen.stdout.write_bytes(b)
            },
            ClearType::UntilNewLine => {
                let mut b = ansi::csi_buf();
                b.push(75);
                assert(b@ =~= clear_seq(ClearType::UntilNewLine));
                screen.stdout.write_bytes(b)
            },
        }
    }

    /// Answer the terminal size from the live device, columns before
    /// rows.
    pub fn terminal_size(&self, stdout: &TerminalOutput) -> (r: (u16, u16))
        ensures
            r.0 == stdout.state.width,
            r.1 == stdout.state.height,
    {
        (stdout.state.width, stdout.state.height)
    }

    /// Emit `CSI {n} S`, scrolling `count` lines up. Scrolling repaints
    /// content only, so the modeled device state does not change.
    pub fn scroll_up(&self, count: u16, screen: &mut Screen) -> (r: Result<(), ErrorKind>)
        ensures
            old(screen).stdout.state.device_failed ==> r == Err::<(), ErrorKind>(
                ErrorKind::DeviceWriteFailure,
            ) && *final(screen) == *old(screen),
            !old(screen).stdout.state.device_failed ==> r == Ok::<(), ErrorKind>(())
                && final(screen).stdout.buffer@ == old(screen).stdout.buffer@ + scroll_up_seq(
                count,
            )
                && final(screen).stdout.state == old(screen).stdout.state,
    {
        let mut b = ansi::csi_buf();
        ansi::push_dec(&mut b, count);
        b.push(83);
        assert(b@ =~= scroll_up_seq(count));
        screen.stdout.write_bytes(b)
    }

    /// Emit `CSI {n} T`, scrolling `count` lines down.
    pub fn scroll_down(&self, count: u16, screen: &mut Screen) -> (r: Result<(), ErrorKind>)
        ensures
            old(screen).stdout.state.device_failed ==> r == Err::<(), ErrorKind>(
                ErrorKind::DeviceWriteFailure,
            ) && *final(screen) == *old(screen),
            !old(screen).stdout.state.device_failed ==> r == Ok::<(), ErrorKind>(())
                && final(screen).stdout.buffer@ == old(screen).stdout.buffer@ + scroll_down_seq(
                count,
            )
                && final(screen).stdout.state == old(screen).stdout.state,
    {
        let mut b = ansi::csi_buf();
        ansi::push_dec(&mut b, count);
        b.push(84);
        assert(b@ =~= scroll_down_seq(count));
        screen.stdout.write_bytes(b)
    }

    /// Emit `CSI 8;{rows};{cols} t`, resizing the terminal to `width`
    /// columns by `height` rows.
    pub fn set_size(&self, width: u16, height: u16, screen: &mut Screen) -> (r: Result<
        (),
        ErrorKind,
    >)
        ensures
            old(screen).stdout.state.device_failed ==> r == Err::<(), ErrorKind>(
                ErrorKind::DeviceWriteFailure,
            ) && *final(screen) == *old(screen),
            !old(screen).stdout.state.device_failed ==> r == Ok::<(), ErrorKind>(())
                && final(screen).stdout.buffer@ == old(screen).stdout.buffer@ + set_size_seq(
                width,
                height,
            )
                && final(screen).stdout.state == set_size_state(old(
                screen,
            ).stdout.state, width, height),
    {
        let mut b = ansi::csi_buf();
        b.push(56);
        b.push(59);
        ansi::push_dec(&mut b, height);
        b.push(59);
        ansi::push_dec(&mut b, width);
        b.push(116);
        assert(b@ =~= set_size_seq(width, height));
        match screen.stdout.write_bytes(b) {
            Err(e) => Err(e),
            Ok(()) => {
                screen.stdout.state.width = width;
                screen.stdout.state.height = height;
                Ok(())
            },
        }
    }

    /// Tear the session down: raw mode is disabled before anything else
    /// may end the process, in every state, including after a write
    /// failure.
    pub fn exit(&self, stdout: &mut TerminalOutput)
        ensures
            final(stdout).buffer == old(stdout).buffer,
            final(stdout).state == exit_state(old(stdout).state),
    {
        stdout.disable_raw_mode();
    }
}

/// The terminal backend that drives the host console directly: it changes
/// the device state without emitting bytes.
pub struct NativeTerminal;

impl NativeTerminal {
    /// Create the native terminal backend.
    pub fn new() -> (r: NativeTerminal) {
        NativeTerminal {}
    }

    /// Clear through the host console; clearing all also places the
    /// cursor at the origin in the same call.
    pub fn clear(&self, clear_type: ClearType, screen: &mut Screen) -> (r: Result<(), ErrorKind>)
        ensures
            old(screen).stdout.state.device_failed ==> r == Err::<(), ErrorKind>(
                ErrorKind::DeviceWriteFailure,
            ) && *final(screen) == *old(screen),
            !old(screen).stdout.state.device_failed ==> r == Ok::<(), ErrorKind>(())
                && final(screen).stdout.buffer == old(screen).stdout.buffer
                && final(screen).stdout.state == clear_state(clear_type, old(
                screen,
            ).stdout.state),
    {
        if screen.stdout.state.device_failed {
            return Err(ErrorKind::DeviceWriteFailure);
        }
        match clear_type {
            ClearType::All => {
                screen.stdout.state.cursor_x = 0;
                screen.stdout.state.cursor_y = 0;
            },
            _ => {},
        }
        Ok(())
    }

    /// Answer the terminal size from the live device, columns before
    /// rows.
    pub fn terminal_size(&self, stdout: &TerminalOutput) -> (r: (u16, u16))
        ensures
            r.0 == stdout.state.width,
            r.1 == stdout.state.height,
    {
        (stdout.state.width, stdout.state.height)
    }

    /// Scroll `count` lines up through the host console; content only.
    pub fn scroll_up(&self, count: u16, screen: &mut Screen) -> (r: Result<(), ErrorKind>)
        ensures
            old(screen).stdout.state.device_failed ==> r == Err::<(), ErrorKind>(
                ErrorKind::DeviceWriteFailure,
            ) && *final(screen) == *old(screen),
            !old(screen).stdout.state.device_failed ==> r == Ok::<(), ErrorKind>(())
                && *final(screen) == *old(screen),
    {
        if screen.stdout.state.device_failed {
            return Err(ErrorKind::DeviceWriteFailure);
        }
        let _ = count;
        Ok(())
    }

    /// Scroll `count` lines down through the host console; content only.
    pub fn scroll_down(&self, count: u16, screen: &mut Screen) -> (r: Result<(), ErrorKind>)
        ensures
            old(screen).stdout.state.device_failed ==> r == Err::<(), ErrorKind>(
                ErrorKind::DeviceWriteFailure,
            ) && *final(screen) == *old(screen),
            !old(screen).stdout.state.device_failed ==> r == Ok::<(), ErrorKind>(())
                && *final(screen) == *old(screen),
    {
        if screen.stdout.state.device_failed {
            return Err(ErrorKind::DeviceWriteFailure);
        }
        let _ = count;
        Ok(())
    }

    /// Resize the console buffer through the host console.
    pub fn set_size(&self, width: u16, height: u16, screen: &mut Screen) -> (r: Result<
        (),
        ErrorKind,
    >)
        ensures
            old(screen).stdout.state.device_failed ==> r == Err::<(), ErrorKind>(
                ErrorKind::DeviceWriteFailure,
            ) && *final(screen) == *old(screen),
            !old(screen).stdout.state.device_failed ==> r == Ok::<(), ErrorKind>(())
                && final(screen).stdout.buffer == old(screen).stdout.buffer
                && final(screen).stdout.state == set_size_state(old(
                screen,
            ).stdout.state, width, height),
    {
        if screen.stdout.state.device_failed {
            return Err(ErrorKind::DeviceWriteFailure);
        }
        screen.stdout.state.width = width;
        screen.stdout.state.height = height;
        Ok(())
    }

    /// Tear the session down: raw mode is disabled before anything else
    /// may end the process, in every state.
    pub fn exit(&self, stdout: &mut TerminalOutput)
        ensures
            final(stdout).buffer == old(stdout).buffer,
            final(stdout).state == exit_state(old(stdout).state),
    {
        stdout.disable_raw_mode();
    }
}

/// The terminal backend chosen for a facade: a sealed tagged choice,
/// resolved once at construction time and never re-probed.
pub enum TerminalBackend {
    Ansi(AnsiTerminal),
    Native(NativeTerminal),
}

impl TerminalBackend {
    /// Whether the ANSI backend was selected.
    pub open spec fn is_ansi(&self) -> bool {
        self is Ansi
    }
}

/// The public facade for terminal actions: a backend selected once, bound
/// at each call to the shared output sink it acts on.
pub struct Terminal {
    /// The backend every call is forwarded to.
    pub terminal: TerminalBackend,
}

impl Terminal {
    /// Create a terminal facade on a host whose terminals all understand
    /// ANSI sequences: the ANSI backend is selected unconditionally.
    pub fn new() -> (r: Terminal)
        ensures
            r.terminal.is_ansi(),
    {
        Terminal { terminal: TerminalBackend::Ansi(AnsiTerminal::new()) }
    }

    /// Create a terminal facade on a host that carries a native backend,
    /// from the result of the one-time capability probe: the ANSI backend
    /// iff the probe enabled ANSI passthrough.
    pub fn new_with_probe(has_native: bool, ansi_enabled: bool) -> (r: Terminal)
        ensures
            r.terminal.is_ansi() == crate::functions::ansi_selected(has_native, ansi_enabled),
    {
        if has_native {
            Terminal {
                terminal: crate::functions::get_module(
                    TerminalBackend::Native(NativeTerminal::new()),
                    TerminalBackend::Ansi(AnsiTerminal::new()),
                    ansi_enabled,
                ),
            }
        } else {
            Terminal { terminal: TerminalBackend::Ansi(AnsiTerminal::new()) }
        }
    }

    /// Answer the terminal size from the live device, columns before
    /// rows.
    pub fn terminal_size(&self, stdout: &TerminalOutput) -> (r: (u16, u16))
        ensures
            r.0 == stdout.state.width,
            r.1 == stdout.state.height,
    {
        match &self.terminal {
            TerminalBackend::Ansi(t) => t.terminal_size(stdout),
            TerminalBackend::Native(t) => t.terminal_size(stdout),
        }
    }

    /// Clear as `clear_type` says; clearing all also places the cursor at
    /// the origin in the same call.
    pub fn clear(&self, clear_type: ClearType, screen: &mut Screen) -> (r: Result<(), ErrorKind>)
        ensures
            old(screen).stdout.state.device_failed ==> r == Err::<(), ErrorKind>(
                ErrorKind::DeviceWriteFailure,
            ) && *final(screen) == *old(screen),
            !old(screen).stdout.state.device_failed ==> r == Ok::<(), ErrorKind>(())
                && final(screen).stdout.state == clear_state(clear_type, old(screen).stdout.state)
                && (self.terminal.is_ansi() ==> final(screen).stdout.buffer@ == old(
                screen,
            ).stdout.buffer@ + clear_seq(clear_type))
                && (!self.terminal.is_ansi() ==> final(screen).stdout.buffer == old(
                screen,
            ).stdout.buffer),
    {
        match &self.terminal {
            TerminalBackend::Ansi(t) => t.clear(clear_type, screen),
            TerminalBackend::Native(t) => t.clear(clear_type, screen),
        }
    }

    /// Scroll `count` lines up.
    pub fn scroll_up(&self, count: u16, screen: &mut Screen) -> (r: Result<(), ErrorKind>)
        ensures
            old(screen).stdout.state.device_failed ==> r == Err::<(), ErrorKind>(
                ErrorKind::DeviceWriteFailure,
            ) && *final(screen) == *old(screen),
            !old(screen).stdout.state.device_failed ==> r == Ok::<(), ErrorKind>(())
                && final(screen).stdout.state == old(screen).stdout.state
                && (self.terminal.is_ansi() ==> final(screen).stdout.buffer@ == old(
                screen,
            ).stdout.buffer@ + scroll_up_seq(count))
                && (!self.terminal.is_ansi() ==> final(screen).stdout.buffer == old(
                screen,
            ).stdout.buffer),
    {
        match &self.terminal {
            TerminalBackend::Ansi(t) => t.scroll_up(count, screen),
            TerminalBackend::Native(t) => t.scroll_up(count, screen),
        }
    }

    /// Scroll `count` lines down.
    pub fn scroll_down(&self, count: u16, screen: &mut Screen) -> (r: Result<(), ErrorKind>)
        ensures
            old(screen).stdout.state.device_failed ==> r == Err::<(), ErrorKind>(
                ErrorKind::DeviceWriteFailure,
            ) && *final(screen) == *old(screen),
            !old(screen).stdout.state.device_failed ==> r == Ok::<(), ErrorKind>(())
                && final(screen).stdout.state == old(screen).stdout.state
                && (self.terminal.is_ansi() ==> final(screen).stdout.buffer@ == old(
                screen,
            ).stdout.buffer@ + scroll_down_seq(count))
                && (!self.terminal.is_ansi() ==> final(screen).stdout.buffer == old(
                screen,
            ).stdout.buffer),
    {
        match &self.terminal {
            TerminalBackend::Ansi(t) => t.scroll_down(count, screen),
            TerminalBackend::Native(t) => t.scroll_down(count, screen),
        }
    }

    /// Resize the terminal to `width` columns by `height` rows.
    pub fn resize(&self, width: u16, height: u16, screen: &mut Screen) -> (r: Result<
        (),
        ErrorKind,
    >)
        ensures
            old(screen).stdout.state.device_failed ==> r == Err::<(), ErrorKind>(
                ErrorKind::DeviceWriteFailure,
            ) && *final(screen) == *old(screen),
            !old(screen).stdout.state.device_failed ==> r == Ok::<(), ErrorKind>(())
                && final(screen).stdout.state == set_size_state(old(
                screen,
            ).stdout.state, width, height)
                && (self.terminal.is_ansi() ==> final(screen).stdout.buffer@ == old(
                screen,
            ).stdout.buffer@ + set_size_seq(width, height))
                && (!self.terminal.is_ansi() ==> final(screen).stdout.buffer == old(
                screen,
            ).stdout.buffer),
    {
        match &self.terminal {
            TerminalBackend::Ansi(t) => t.set_size(width, height, screen),
            TerminalBackend::Native(t) => t.set_size(width, height, screen),
        }
    }

    /// End the session: raw mode is guaranteed off when this returns, in
    /// every state, including after a prior write failure. Whoever ends
    /// the process must call this first; a dead process cannot clean up.
    pub fn exit(&self, stdout: &mut TerminalOutput)
        ensures
            final(stdout).buffer == old(stdout).buffer,
            final(stdout).state == exit_state(old(stdout).state),
            !final(stdout).state.raw_mode,
    {
        match &self.terminal {
            TerminalBackend::Ansi(t) => t.exit(stdout),
            TerminalBackend::Native(t) => t.exit(stdout),
        }
    }
}

/// A terminal facade for a host whose terminals all understand ANSI
/// sequences.
pub fn terminal() -> (r: Terminal)
    ensures
        r.terminal.is_ansi(),
{
    Terminal::new()
}

} // verus!
