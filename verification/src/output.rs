//! The shared output sink: the one mutable handle that stands for the live
//! terminal device. It buffers every byte a backend emits and carries the
//! observable device state those commands produce, so that the cursor,
//! color and terminal facades bound to the same sink stay consistent.

use vstd::prelude::*;

use crate::error::ErrorKind;
use crate::style::Color;

verus! {

/// The observable state of the device behind the sink.
///
/// The device is modeled as an unbounded grid: the cursor cannot move above
/// row zero or left of column zero, but is not clamped against the screen
/// size, so screen-edge clamping never hides the effect of a movement.
/// Screen contents are not modeled; commands that only repaint content
/// (scrolling, clearing) leave this state untouched except where they also
/// move the cursor.
#[derive(Clone, Copy, Debug, PartialEq, Eq)]
pub struct DeviceState {
    /// Whether raw input mode is currently active.
    pub raw_mode: bool,
    /// Whether a write to the real device has failed; once set, every
    /// further command fails with `DeviceWriteFailure` and queries time
    /// out, since a dead handle neither delivers nor answers.
    pub device_failed: bool,
    /// Cursor column, zero-based.
    pub cursor_x: u16,
    /// Cursor row, zero-based.
    pub cursor_y: u16,
    /// Column stored by the most recent save-position command.
    pub saved_x: u16,
    /// Row stored by the most recent save-position command.
    pub saved_y: u16,
    /// Width of the terminal in columns.
    pub width: u16,
    /// Height of the terminal in rows.
    pub height: u16,
    /// Foreground color; `None` is the device default.
    pub foreground: Option<Color>,
    /// Background color; `None` is the device default.
    pub background: Option<Color>,
    /// Whether the cursor is shown.
    pub cursor_visible: bool,
    /// Whether the cursor blinks.
    pub cursor_blink: bool,
}

impl DeviceState {
    /// The state of a freshly attached device: cooked mode, default
    /// attributes, cursor shown at the origin, size not yet known.
    pub open spec fn initial() -> DeviceState {
        DeviceState {
            raw_mode: false,
            device_failed: false,
            cursor_x: 0,
            cursor_y: 0,
            saved_x: 0,
            saved_y: 0,
            width: 0,
            height: 0,
            foreground: None,
            background: None,
            cursor_visible: true,
            cursor_blink: false,
        }
    }
}

/// The shared output sink. Backends append bytes to `buffer` and record
/// their effect in `state`; whoever owns the real device drains the buffer
/// with [`TerminalOutput::flush`] and reports a failed delivery with
/// [`TerminalOutput::mark_write_failure`].
pub struct TerminalOutput {
    /// Bytes emitted since the last flush, in emission order.
    pub buffer: Vec<u8>,
    /// The device state after every buffered command takes effect.
    pub state: DeviceState,
}

impl TerminalOutput {
    /// A sink for a freshly attached device, with an empty buffer.
    pub fn new() -> (r: TerminalOutput)
        ensures
            r.buffer@ == Seq::<u8>::empty(),
            r.state == DeviceState::initial(),
    {
        TerminalOutput {
            buffer: Vec::new(),
            state: DeviceState {
                raw_mode: false,
                device_failed: false,
                cursor_x: 0,
                cursor_y: 0,
                saved_x: 0,
                saved_y: 0,
                width: 0,
                height: 0,
                foreground: None,
                background: None,
                cursor_visible: true,
                cursor_blink: false,
            },
        }
    }

    /// Append `bytes` to the buffered output. Fails, emitting nothing, iff
    /// the device handle has already failed.
    pub fn write_bytes(&mut self, bytes: Vec<u8>) -> (r: Result<(), ErrorKind>)
        ensures
            old(self).state.device_failed ==> r == Err::<(), ErrorKind>(
                ErrorKind::DeviceWriteFailure,
            ) && *final(self) == *old(self),
            !old(self).state.device_failed ==> r == Ok::<(), ErrorKind>(())
                && final(self).buffer@ == old(self).buffer@ + bytes@
                && final(self).state == old(self).state,
    {
        if self.state.device_failed {
            return Err(ErrorKind::DeviceWriteFailure);
        }
        let mut incoming = bytes;
        self.buffer.append(&mut incoming);
        Ok(())
    }

    /// Switch the device to raw input mode. The toggle goes through the
    /// host's input pathway, not the byte stream, so no bytes are emitted.
    pub fn enable_raw_mode(&mut self)
        ensures
            final(self).buffer == old(self).buffer,
            final(self).state == (DeviceState { raw_mode: true, ..old(self).state }),
    {
        self.state.raw_mode = true;
    }

    /// Switch the device back to cooked input mode.
    pub fn disable_raw_mode(&mut self)
        ensures
            final(self).buffer == old(self).buffer,
            final(self).state == (DeviceState { raw_mode: false, ..old(self).state }),
    {
        self.state.raw_mode = false;
    }

    /// Whether raw input mode is currently active.
    pub fn is_raw_mode_enabled(&self) -> (r: bool)
        ensures
            r == self.state.raw_mode,
    {
        self.state.raw_mode
    }

    /// Record that delivering bytes to the real device failed. Every later
    /// command on this sink fails without effect.
    pub fn mark_write_failure(&mut self)
        ensures
            final(self).buffer == old(self).buffer,
            final(self).state == (DeviceState { device_failed: true, ..old(self).state }),
    {
        self.state.device_failed = true;
    }

    /// Hand out everything buffered so far, in emission order, leaving the
    /// buffer empty. The device state is unchanged: the buffered commands
    /// were already accounted for when they were emitted.
    pub fn flush(&mut self) -> (out: Vec<u8>)
        ensures
            out@ == old(self).buffer@,
            final(self).buffer@ == Seq::<u8>::empty(),
            final(self).state == old(self).state,
    {
        let mut out: Vec<u8> = Vec::new();
        out.append(&mut self.buffer);
        assert(out@ =~= old(self).buffer@);
        out
    }
}

/// A logical screen: the caller's top-level session object, owning the
/// sink that the facades operate on.
pub struct Screen {
    /// The shared output sink for this screen.
    pub stdout: TerminalOutput,
}

impl Screen {
    /// A screen over a freshly attached device.
    pub fn new() -> (r: Screen)
        ensures
            r.stdout.buffer@ == Seq::<u8>::empty(),
            r.stdout.state == DeviceState::initial(),
    {
        Screen { stdout: TerminalOutput::new() }
    }
}

impl Default for Screen {
    /// Same as [`Screen::new`].
    fn default() -> (r: Screen)
        ensures
            r.stdout.buffer@ == Seq::<u8>::empty(),
            r.stdout.state == DeviceState::initial(),
    {
        Screen::new()
    }
}

} // verus!
