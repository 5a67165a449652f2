//! Cursor-related actions: the ANSI and native cursor backends, and the
//! [`TerminalCursor`] facade that binds one of them to the shared output
//! sink. Coordinates are zero-based everywhere at this layer; the ANSI
//! backend alone converts to the one-based wire format at the moment a
//! sequence is emitted.

use vstd::prelude::*;

use crate::ansi;
use crate::error::ErrorKind;
use crate::output::{DeviceState, Screen, TerminalOutput};

verus! {

/// The sequence emitted to place the cursor: `CSI {row};{col} H`, row
/// before column, both one-based.
pub open spec fn goto_seq(x: u16, y: u16) -> Seq<u8> {
    ansi::csi() + ansi::dec_seq((y + 1) as nat) + seq![59u8] + ansi::dec_seq((x + 1) as nat)
        + seq![72u8]
}

/// The sequence emitted to move the cursor `n` rows up: `CSI {n} A`.
pub open spec fn move_up_seq(n: u16) -> Seq<u8> {
    ansi::csi() + ansi::dec_seq(n as nat) + seq![65u8]
}

/// The sequence emitted to move the cursor `n` rows down: `CSI {n} B`.
pub open spec fn move_down_seq(n: u16) -> Seq<u8> {
    ansi::csi() + ansi::dec_seq(n as nat) + seq![66u8]
}

/// The sequence emitted to move the cursor `n` columns right: `CSI {n} C`.
pub open spec fn move_right_seq(n: u16) -> Seq<u8> {
    ansi::csi() + ansi::dec_seq(n as nat) + seq![67u8]
}

/// The sequence emitted to move the cursor `n` columns left: `CSI {n} D`.
pub open spec fn move_left_seq(n: u16) -> Seq<u8> {
    ansi::csi() + ansi::dec_seq(n as nat) + seq![68u8]
}

/// The sequence emitted to save the cursor position: `CSI s`.
pub open spec fn save_position_seq() -> Seq<u8> {
    ansi::csi() + seq![115u8]
}

/// The sequence emitted to restore the saved position: `CSI u`.
pub open spec fn reset_position_seq() -> Seq<u8> {
    ansi::csi() + seq![117u8]
}

/// The sequence emitted to hide the cursor: `CSI ?25l`.
pub open spec fn hide_seq() -> Seq<u8> {
    ansi::csi() + seq![63u8, 50u8, 53u8, 108u8]
}

/// The sequence emitted to show the cursor: `CSI ?25h`.
pub open spec fn show_seq() -> Seq<u8> {
    ansi::csi() + seq![63u8, 50u8, 53u8, 104u8]
}

/// The sequence emitted to turn cursor blinking on or off: `CSI ?12h` or
/// `CSI ?12l`.
pub open spec fn blink_seq(blink: bool) -> Seq<u8> {
    ansi::csi() + seq![63u8, 49u8, 50u8, if blink { 104u8 } else { 108u8 }]
}

/// The device state after the cursor is placed at `(x, y)`.
pub open spec fn goto_state(s: DeviceState, x: u16, y: u16) -> DeviceState {
    DeviceState { cursor_x: x, cursor_y: y, ..s }
}

/// The device state after the cursor moves `n` rows up; the device stops
/// at row zero.
pub open spec fn move_up_state(s: DeviceState, n: u16) -> DeviceState {
    DeviceState {
        cursor_y: if n <= s.cursor_y {
            (s.cursor_y - n) as u16
        } else {
            0
        },
        ..s
    }
}

/// The device state after the cursor moves `n` rows down.
pub open spec fn move_down_state(s: DeviceState, n: u16) -> DeviceState {
    DeviceState {
        cursor_y: if s.cursor_y + n <= u16::MAX {
            (s.cursor_y + n) as u16
        } else {
            u16::MAX
        },
        ..s
    }
}

/// The device state after the cursor moves `n` columns right.
pub open spec fn move_right_state(s: DeviceState, n: u16) -> DeviceState {
    DeviceState {
        cursor_x: if s.cursor_x + n <= u16::MAX {
            (s.cursor_x + n) as u16
        } else {
            u16::MAX
        },
        ..s
    }
}

/// The device state after the cursor moves `n` columns left; the device
/// stops at column zero.
pub open spec fn move_left_state(s: DeviceState, n: u16) -> DeviceState {
    DeviceState {
        cursor_x: if n <= s.cursor_x {
            (s.cursor_x - n) as u16
        } else {
            0
        },
        ..s
    }
}

/// The device state after the cursor position is saved.
pub open spec fn save_position_state(s: DeviceState) -> DeviceState {
    DeviceState { saved_x: s.cursor_x, saved_y: s.cursor_y, ..s }
}

/// The device state after the cursor returns to the saved position.
pub open spec fn reset_position_state(s: DeviceState) -> DeviceState {
    DeviceState { cursor_x: s.saved_x, cursor_y: s.saved_y, ..s }
}

/// What a position query answers: the live cursor position, or a timeout
/// when the device handle has failed and can no longer respond.
pub open spec fn pos_result(s: DeviceState) -> Result<(u16, u16), ErrorKind> {
    if s.device_failed {
        Err(ErrorKind::DeviceQueryTimeout)
    } else {
        Ok((s.cursor_x, s.cursor_y))
    }
}

/// Placing the cursor and then querying its position round-trips: the
/// query answers exactly the coordinates that were set, whenever the
/// device can answer at all.
pub proof fn lemma_goto_then_pos(s: DeviceState, x: u16, y: u16)
    requires
        !s.device_failed,
    ensures
        pos_result(goto_state(s, x, y)) == Ok::<(u16, u16), ErrorKind>((x, y)),
{
}

/// Moving `n` rows up and then `n` rows down returns the device to exactly
/// the state it started in, as long as the upward move is not clamped at
/// the top edge.
pub proof fn lemma_move_up_down_round_trip(s: DeviceState, n: u16)
    requires
        n <= s.cursor_y,
    ensures
        move_down_state(move_up_state(s, n), n) == s,
{
}

/// The cursor backend that emits ANSI control sequences into the sink.
pub struct AnsiCursor;

impl AnsiCursor {
    /// Create the ANSI cursor backend; it is stateless beyond the sink it
    /// writes to.
    pub fn new() -> (r: AnsiCursor) {
        AnsiCursor {}
    }

    /// Emit `CSI {y+1};{x+1} H`, placing the cursor at the zero-based
    /// `(x, y)`.
    pub fn goto(&self, x: u16, y: u16, screen: &mut Screen) -> (r: Result<(), ErrorKind>)
        requires
            x < u16::MAX,
            y < u16::MAX,
        ensures
            old(screen).stdout.state.device_failed ==> r == Err::<(), ErrorKind>(
                ErrorKind::DeviceWriteFailure,
            ) && *final(screen) == *old(screen),
            !old(screen).stdout.state.device_failed ==> r == Ok::<(), ErrorKind>(())
                && final(screen).stdout.buffer@ == old(screen).stdout.buffer@ + goto_seq(x, y)
                && final(screen).stdout.state == goto_state(old(screen).stdout.state, x, y),
    {
        let mut b = ansi::csi_buf();
        ansi::push_dec(&mut b, y + 1);
        b.push(59);
        ansi::push_dec(&mut b, x + 1);
        b.push(72);
        assert(b@ =~= goto_seq(x, y));
        match screen.stdout.write_bytes(b) {
            Err(e) => Err(e),
            Ok(()) => {
                screen.stdout.state.cursor_x = x;
                screen.stdout.state.cursor_y = y;
                Ok(())
            },
        }
    }

    /// Answer the cursor position from the live device, zero-based.
    pub fn pos(&self, stdout: &TerminalOutput) -> (r: Result<(u16, u16), ErrorKind>)
        ensures
            r == pos_result(stdout.state),
    {
        if stdout.state.device_failed {
            Err(ErrorKind::DeviceQueryTimeout)
        } else {
            Ok((stdout.state.cursor_x, stdout.state.cursor_y))
        }
    }

    /// Emit `CSI {n} A`, moving the cursor `n` rows up.
    pub fn move_up(&self, count: u16, screen: &mut Screen) -> (r: Result<(), ErrorKind>)
        ensures
            old(screen).stdout.state.device_failed ==> r == Err::<(), ErrorKind>(
                ErrorKind::DeviceWriteFailure,
            ) && *final(screen) == *old(screen),
            !old(screen).stdout.state.device_failed ==> r == Ok::<(), ErrorKind>(())
                && final(screen).stdout.buffer@ == old(screen).stdout.buffer@ + move_up_seq(count)
                && final(screen).stdout.state == move_up_state(old(screen).stdout.state, count),
    {
        let mut b = ansi::csi_buf();
        ansi::push_dec(&mut b, count);
        b.push(65);
        assert(b@ =~= move_up_seq(count));
        match screen.stdout.write_bytes(b) {
            Err(e) => Err(e),
            Ok(()) => {
                let y: u16 = screen.stdout.state.cursor_y;
                screen.stdout.state.cursor_y = if count <= y {
                    y - count
                } else {
                    0
                };
                Ok(())
            },
        }
    }

    /// Emit `CSI {n} C`, moving the cursor `n` columns right.
    pub fn move_right(&self, count: u16, screen: &mut Screen) -> (r: Result<(), ErrorKind>)
        ensures
            old(screen).stdout.state.device_failed ==> r == Err::<(), ErrorKind>(
                ErrorKind::DeviceWriteFailure,
            ) && *final(screen) == *old(screen),
            !old(screen).stdout.state.device_failed ==> r == Ok::<(), ErrorKind>(())
                && final(screen).stdout.buffer@ == old(screen).stdout.buffer@ + move_right_seq(
                count,
            )
                && final(screen).stdout.state == move_right_state(old(screen).stdout.state, count),
    {
        let mut b = ansi::csi_buf();
        ansi::push_dec(&mut b, count);
        b.push(67);
        assert(b@ =~= move_right_seq(count));
        match screen.stdout.write_bytes(b) {
            Err(e) => Err(e),
            Ok(()) => {
                let x: u16 = screen.stdout.state.cursor_x;
                screen.stdout.state.cursor_x = if x <= u16::MAX - count {
                    x + count
                } else {
                    u16::MAX
                };
                Ok(())
            },
        }
    }

    /// Emit `CSI {n} B`, moving the cursor `n` rows down.
    pub fn move_down(&self, count: u16, screen: &mut Screen) -> (r: Result<(), ErrorKind>)
        ensures
            old(screen).stdout.state.device_failed ==> r == Err::<(), ErrorKind>(
                ErrorKind::DeviceWriteFailure,
            ) && *final(screen) == *old(screen),
            !old(screen).stdout.state.device_failed ==> r == Ok::<(), ErrorKind>(())
                && final(screen).stdout.buffer@ == old(screen).stdout.buffer@ + move_down_seq(
                count,
            )
                && final(screen).stdout.state == move_down_state(old(screen).stdout.state, count),
    {
        let mut b = ansi::csi_buf();
        ansi::push_dec(&mut b, count);
        b.push(66);
        assert(b@ =~= move_down_seq(count));
        match screen.stdout.write_bytes(b) {
            Err(e) => Err(e),
            Ok(()) => {
                let y: u16 = screen.stdout.state.cursor_y;
                screen.stdout.state.cursor_y = if y <= u16::MAX - count {
                    y + count
                } else {
                    u16::MAX
                };
                Ok(())
            },
        }
    }

    /// Emit `CSI {n} D`, moving the cursor `n` columns left.
    pub fn move_left(&self, count: u16, screen: &mut Screen) -> (r: Result<(), ErrorKind>)
        ensures
            old(screen).stdout.state.device_failed ==> r == Err::<(), ErrorKind>(
                ErrorKind::DeviceWriteFailure,
            ) && *final(screen) == *old(screen),
            !old(screen).stdout.state.device_failed ==> r == Ok::<(), ErrorKind>(())
                && final(screen).stdout.buffer@ == old(screen).stdout.buffer@ + move_left_seq(
                count,
            )
                && final(screen).stdout.state == move_left_state(old(screen).stdout.state, count),
    {
        let mut b = ansi::csi_buf();
        ansi::push_dec(&mut b, count);
        b.push(68);
        assert(b@ =~= move_left_seq(count));
        match screen.stdout.write_bytes(b) {
            Err(e) => Err(e),
            Ok(()) => {
                let x: u16 = screen.stdout.state.cursor_x;
                screen.stdout.state.cursor_x = if count <= x {
                    x - count
                } else {
                    0
                };
                Ok(())
            },
        }
    }

    /// Emit `CSI s`, saving the cursor position on the device.
    pub fn save_position(&self, screen: &mut Screen) -> (r: Result<(), ErrorKind>)
        ensures
            old(screen).stdout.state.device_failed ==> r == Err::<(), ErrorKind>(
                ErrorKind::DeviceWriteFailure,
            ) && *final(screen) == *old(screen),
            !old(screen).stdout.state.device_failed ==> r == Ok::<(), ErrorKind>(())
                && final(screen).stdout.buffer@ == old(screen).stdout.buffer@
                + save_position_seq()
                && final(screen).stdout.state == save_position_state(old(screen).stdout.state),
    {
        let mut b = ansi::csi_buf();
        b.push(115);
        assert(b@ =~= save_position_seq());
        match screen.stdout.write_bytes(b) {
            Err(e) => Err(e),
            Ok(()) => {
                screen.stdout.state.saved_x = screen.stdout.state.cursor_x;
                screen.stdout.state.saved_y = screen.stdout.state.cursor_y;
                Ok(())
            },
        }
    }

    /// Emit `CSI u`, returning the cursor to the saved position.
    pub fn reset_position(&self, screen: &mut Screen) -> (r: Result<(), ErrorKind>)
        ensures
            old(screen).stdout.state.device_failed ==> r == Err::<(), ErrorKind>(
                ErrorKind::DeviceWriteFailure,
            ) && *final(screen) == *old(screen),
            !old(screen).stdout.state.device_failed ==> r == Ok::<(), ErrorKind>(())
                && final(screen).stdout.buffer@ == old(screen).stdout.buffer@
                + reset_position_seq()
                && final(screen).stdout.state == reset_position_state(old(screen).stdout.state),
    {
        let mut b = ansi::csi_buf();
        b.push(117);
        assert(b@ =~= reset_position_seq());
        match screen.stdout.write_bytes(b) {
            Err(e) => Err(e),
            Ok(()) => {
                screen.stdout.state.cursor_x = screen.stdout.state.saved_x;
                screen.stdout.state.cursor_y = screen.stdout.state.saved_y;
                Ok(())
            },
        }
    }

    /// Emit `CSI ?25l`, hiding the cursor.
    pub fn hide_cursor(&self, screen: &mut Screen) -> (r: Result<(), ErrorKind>)
        ensures
            old(screen).stdout.state.device_failed ==> r == Err::<(), ErrorKind>(
                ErrorKind::DeviceWriteFailure,
            ) && *final(screen) == *old(screen),
            !old(screen).stdout.state.device_failed ==> r == Ok::<(), ErrorKind>(())
                && final(screen).stdout.buffer@ == old(screen).stdout.buffer@ + hide_seq()
                && final(screen).stdout.state == (DeviceState {
                cursor_visible: false,
                ..old(screen).stdout.state
            }),
    {
        let mut b = ansi::csi_buf();
        b.push(63);
        b.push(50);
        b.push(53);
        b.push(108);
        assert(b@ =~= hide_seq());
        match screen.stdout.write_bytes(b) {
            Err(e) => Err(e),
            Ok(()) => {
                screen.stdout.state.cursor_visible = false;
                Ok(())
            },
        }
    }

    /// Emit `CSI ?25h`, showing the cursor.
    pub fn show_cursor(&self, screen: &mut Screen) -> (r: Result<(), ErrorKind>)
        ensures
            old(screen).stdout.state.device_failed ==> r == Err::<(), ErrorKind>(
                ErrorKind::DeviceWriteFailure,
            ) && *final(screen) == *old(screen),
            !old(screen).stdout.state.device_failed ==> r == Ok::<(), ErrorKind>(())
                && final(screen).stdout.buffer@ == old(screen).stdout.buffer@ + show_seq()
                && final(screen).stdout.state == (DeviceState {
                cursor_visible: true,
                ..old(screen).stdout.state
            }),
    {
        let mut b = ansi::csi_buf();
        b.push(63);
        b.push(50);
        b.push(53);
        b.push(104);
        assert(b@ =~= show_seq());
        match screen.stdout.write_bytes(b) {
            Err(e) => Err(e),
            Ok(()) => {
                screen.stdout.state.cursor_visible = true;
                Ok(())
            },
        }
    }

    /// Emit `CSI ?12h` or `CSI ?12l`, turning cursor blinking on or off.
    pub fn blink(&self, blink: bool, screen: &mut Screen) -> (r: Result<(), ErrorKind>)
        ensures
            old(screen).stdout.state.device_failed ==> r == Err::<(), ErrorKind>(
                ErrorKind::DeviceWriteFailure,
            ) && *final(screen) == *old(screen),
            !old(screen).stdout.state.device_failed ==> r == Ok::<(), ErrorKind>(())
                && final(screen).stdout.buffer@ == old(screen).stdout.buffer@ + blink_seq(blink)
                && final(screen).stdout.state == (DeviceState {
                cursor_blink: blink,
                ..old(screen).stdout.state
            }),
    {
        let mut b = ansi::csi_buf();
        b.push(63);
        b.push(49);
        b.push(50);
        if blink {
            b.push(104);
        } else {
            b.push(108);
        }
        assert(b@ =~= blink_seq(blink));
        match screen.stdout.write_bytes(b) {
            Err(e) => Err(e),
            Ok(()) => {
                screen.stdout.state.cursor_blink = blink;
                Ok(())
            },
        }
    }
}

/// The cursor backend that drives the host console directly: it changes
/// the device state without emitting bytes.
pub struct NativeCursor;

impl NativeCursor {
    /// Create the native cursor backend.
    pub fn new() -> (r: NativeCursor) {
        NativeCursor {}
    }

    /// Place the cursor at the zero-based `(x, y)` through the host
    /// console.
    pub fn goto(&self, x: u16, y: u16, screen: &mut Screen) -> (r: Result<(), ErrorKind>)
        requires
            x < u16::MAX,
            y < u16::MAX,
        ensures
            old(screen).stdout.state.device_failed ==> r == Err::<(), ErrorKind>(
                ErrorKind::DeviceWriteFailure,
            ) && *final(screen) == *old(screen),
            !old(screen).stdout.state.device_failed ==> r == Ok::<(), ErrorKind>(())
                && final(screen).stdout.buffer == old(screen).stdout.buffer
                && final(screen).stdout.state == goto_state(old(screen).stdout.state, x, y),
    {
        if screen.stdout.state.device_failed {
            return Err(ErrorKind::DeviceWriteFailure);
        }
        screen.stdout.state.cursor_x = x;
        screen.stdout.state.cursor_y = y;
        Ok(())
    }

    /// Answer the cursor position from the live device, zero-based.
    pub fn pos(&self, stdout: &TerminalOutput) -> (r: Result<(u16, u16), ErrorKind>)
        ensures
            r == pos_result(stdout.state),
    {
        if stdout.state.device_failed {
            Err(ErrorKind::DeviceQueryTimeout)
        } else {
            Ok((stdout.state.cursor_x, stdout.state.cursor_y))
        }
    }

    /// Move the cursor `n` rows up through the host console.
    pub fn move_up(&self, count: u16, screen: &mut Screen) -> (r: Result<(), ErrorKind>)
        ensures
            old(screen).stdout.state.device_failed ==> r == Err::<(), ErrorKind>(
                ErrorKind::DeviceWriteFailure,
            ) && *final(screen) == *old(screen),
            !old(screen).stdout.state.device_failed ==> r == Ok::<(), ErrorKind>(())
                && final(screen).stdout.buffer == old(screen).stdout.buffer
                && final(screen).stdout.state == move_up_state(old(screen).stdout.state, count),
    {
        if screen.stdout.state.device_failed {
            return Err(ErrorKind::DeviceWriteFailure);
        }
        let y: u16 = screen.stdout.state.cursor_y;
        screen.stdout.state.cursor_y = if count <= y {
            y - count
        } else {
            0
        };
        Ok(())
    }

    /// Move the cursor `n` columns right through the host console.
    pub fn move_right(&self, count: u16, screen: &mut Screen) -> (r: Result<(), ErrorKind>)
        ensures
            old(screen).stdout.state.device_failed ==> r == Err::<(), ErrorKind>(
                ErrorKind::DeviceWriteFailure,
            ) && *final(screen) == *old(screen),
            !old(screen).stdout.state.device_failed ==> r == Ok::<(), ErrorKind>(())
                && final(screen).stdout.buffer == old(screen).stdout.buffer
                && final(screen).stdout.state == move_right_state(old(screen).stdout.state, count),
    {
        if screen.stdout.state.device_failed {
            return Err(ErrorKind::DeviceWriteFailure);
        }
        let x: u16 = screen.stdout.state.cursor_x;
        screen.stdout.state.cursor_x = if x <= u16::MAX - count {
            x + count
        } else {
            u16::MAX
        };
        Ok(())
    }

    /// Move the cursor `n` rows down through the host console.
    pub fn move_down(&self, count: u16, screen: &mut Screen) -> (r: Result<(), ErrorKind>)
        ensures
            old(screen).stdout.state.device_failed ==> r == Err::<(), ErrorKind>(
                ErrorKind::DeviceWriteFailure,
            ) && *final(screen) == *old(screen),
            !old(screen).stdout.state.device_failed ==> r == Ok::<(), ErrorKind>(())
                && final(screen).stdout.buffer == old(screen).stdout.buffer
                && final(screen).stdout.state == move_down_state(old(screen).stdout.state, count),
    {
        if screen.stdout.state.device_failed {
            return Err(ErrorKind::DeviceWriteFailure);
        }
        let y: u16 = screen.stdout.state.cursor_y;
        screen.stdout.state.cursor_y = if y <= u16::MAX - count {
            y + count
        } else {
            u16::MAX
        };
        Ok(())
    }

    /// Move the cursor `n` columns left through the host console.
    pub fn move_left(&self, count: u16, screen: &mut Screen) -> (r: Result<(), ErrorKind>)
        ensures
            old(screen).stdout.state.device_failed ==> r == Err::<(), ErrorKind>(
                ErrorKind::DeviceWriteFailure,
            ) && *final(screen) == *old(screen),
            !old(screen).stdout.state.device_failed ==> r == Ok::<(), ErrorKind>(())
                && final(screen).stdout.buffer == old(screen).stdout.buffer
                && final(screen).stdout.state == move_left_state(old(screen).stdout.state, count),
    {
        if screen.stdout.state.device_failed {
            return Err(ErrorKind::DeviceWriteFailure);
        }
        let x: u16 = screen.stdout.state.cursor_x;
        screen.stdout.state.cursor_x = if count <= x {
            x - count
        } else {
            0
        };
        Ok(())
    }

    /// Save the cursor position through the host console.
    pub fn save_position(&self, screen: &mut Screen) -> (r: Result<(), ErrorKind>)
        ensures
            old(screen).stdout.state.device_failed ==> r == Err::<(), ErrorKind>(
                ErrorKind::DeviceWriteFailure,
            ) && *final(screen) == *old(screen),
            !old(screen).stdout.state.device_failed ==> r == Ok::<(), ErrorKind>(())
                && final(screen).stdout.buffer == old(screen).stdout.buffer
                && final(screen).stdout.state == save_position_state(old(screen).stdout.state),
    {
        if screen.stdout.state.device_failed {
            return Err(ErrorKind::DeviceWriteFailure);
        }
        screen.stdout.state.saved_x = screen.stdout.state.cursor_x;
        screen.stdout.state.saved_y = screen.stdout.state.cursor_y;
        Ok(())
    }

    /// Return the cursor to the saved position through the host console.
    pub fn reset_position(&self, screen: &mut Screen) -> (r: Result<(), ErrorKind>)
        ensures
            old(screen).stdout.state.device_failed ==> r == Err::<(), ErrorKind>(
                ErrorKind::DeviceWriteFailure,
            ) && *final(screen) == *old(screen),
            !old(screen).stdout.state.device_failed ==> r == Ok::<(), ErrorKind>(())
                && final(screen).stdout.buffer == old(screen).stdout.buffer
                && final(screen).stdout.state == reset_position_state(old(screen).stdout.state),
    {
        if screen.stdout.state.device_failed {
            return Err(ErrorKind::DeviceWriteFailure);
        }
        screen.stdout.state.cursor_x = screen.stdout.state.saved_x;
        screen.stdout.state.cursor_y = screen.stdout.state.saved_y;
        Ok(())
    }

    /// Hide the cursor through the host console.
    pub fn hide_cursor(&self, screen: &mut Screen) -> (r: Result<(), ErrorKind>)
        ensures
            old(screen).stdout.state.device_failed ==> r == Err::<(), ErrorKind>(
                ErrorKind::DeviceWriteFailure,
            ) && *final(screen) == *old(screen),
            !old(screen).stdout.state.device_failed ==> r == Ok::<(), ErrorKind>(())
                && final(screen).stdout.buffer == old(screen).stdout.buffer
                && final(screen).stdout.state == (DeviceState {
                cursor_visible: false,
                ..old(screen).stdout.state
            }),
    {
        if screen.stdout.state.device_failed {
            return Err(ErrorKind::DeviceWriteFailure);
        }
        screen.stdout.state.cursor_visible = false;
        Ok(())
    }

    /// Show the cursor through the host console.
    pub fn show_cursor(&self, screen: &mut Screen) -> (r: Result<(), ErrorKind>)
        ensures
            old(screen).stdout.state.device_failed ==> r == Err::<(), ErrorKind>(
                ErrorKind::DeviceWriteFailure,
            ) && *final(screen) == *old(screen),
            !old(screen).stdout.state.device_failed ==> r == Ok::<(), ErrorKind>(())
                && final(screen).stdout.buffer == old(screen).stdout.buffer
                && final(screen).stdout.state == (DeviceState {
                cursor_visible: true,
                ..old(screen).stdout.state
            }),
    {
        if screen.stdout.state.device_failed {
            return Err(ErrorKind::DeviceWriteFailure);
        }
        screen.stdout.state.cursor_visible = true;
        Ok(())
    }

    /// Turn cursor blinking on or off through the host console.
    pub fn blink(&self, blink: bool, screen: &mut Screen) -> (r: Result<(), ErrorKind>)
        ensures
            old(screen).stdout.state.device_failed ==> r == Err::<(), ErrorKind>(
                ErrorKind::DeviceWriteFailure,
            ) && *final(screen) == *old(screen),
            !old(screen).stdout.state.device_failed ==> r == Ok::<(), ErrorKind>(())
                && final(screen).stdout.buffer == old(screen).stdout.buffer
                && final(screen).stdout.state == (DeviceState {
                cursor_blink: blink,
                ..old(screen).stdout.state
            }),
    {
        if screen.stdout.state.device_failed {
            return Err(ErrorKind::DeviceWriteFailure);
        }
        screen.stdout.state.cursor_blink = blink;
        Ok(())
    }
}

/// The cursor backend chosen for a facade: a sealed tagged choice,
/// resolved once at construction time and never re-probed.
pub enum CursorBackend {
    Ansi(AnsiCursor),
    Native(NativeCursor),
}

impl CursorBackend {
    /// Whether the ANSI backend was selected.
    pub open spec fn is_ansi(&self) -> bool {
        self is Ansi
    }
}

/// The public facade for cursor actions: a backend selected once, bound
/// at each call to the shared output sink it acts on. Inputs and outputs
/// are zero-based here without exception.
pub struct TerminalCursor {
    /// The backend every call is forwarded to.
    pub cursor: CursorBackend,
}

impl TerminalCursor {
    /// Create a cursor facade on a host whose terminals all understand
    /// ANSI sequences: the ANSI backend is selected unconditionally.
    pub fn new() -> (r: TerminalCursor)
        ensures
            r.cursor.is_ansi(),
    {
        TerminalCursor { cursor: CursorBackend::Ansi(AnsiCursor::new()) }
    }

    /// Create a cursor facade on a host that carries a native backend,
    /// from the result of the one-time capability probe: the ANSI backend
    /// iff the probe enabled ANSI passthrough.
    pub fn new_with_probe(has_native: bool, ansi_enabled: bool) -> (r: TerminalCursor)
        ensures
            r.cursor.is_ansi() == crate::functions::ansi_selected(has_native, ansi_enabled),
    {
        if has_native {
            TerminalCursor {
                cursor: crate::functions::get_module(
                    CursorBackend::Native(NativeCursor::new()),
                    CursorBackend::Ansi(AnsiCursor::new()),
                    ansi_enabled,
                ),
            }
        } else {
            TerminalCursor { cursor: CursorBackend::Ansi(AnsiCursor::new()) }
        }
    }

    /// Place the cursor at the zero-based `(x, y)`.
    pub fn goto(&self, x: u16, y: u16, screen: &mut Screen) -> (r: Result<(), ErrorKind>)
        requires
            x < u16::MAX,
            y < u16::MAX,
        ensures
            old(screen).stdout.state.device_failed ==> r == Err::<(), ErrorKind>(
                ErrorKind::DeviceWriteFailure,
            ) && *final(screen) == *old(screen),
            !old(screen).stdout.state.device_failed ==> r == Ok::<(), ErrorKind>(())
                && final(screen).stdout.state == goto_state(old(screen).stdout.state, x, y)
                && (self.cursor.is_ansi() ==> final(screen).stdout.buffer@ == old(
                screen,
            ).stdout.buffer@ + goto_seq(x, y))
                && (!self.cursor.is_ansi() ==> final(screen).stdout.buffer == old(
                screen,
            ).stdout.buffer),
    {
        match &self.cursor {
            CursorBackend::Ansi(c) => c.goto(x, y, screen),
            CursorBackend::Native(c) => c.goto(x, y, screen),
        }
    }

    /// Answer the cursor position from the live device, zero-based.
    pub fn pos(&self, stdout: &TerminalOutput) -> (r: Result<(u16, u16), ErrorKind>)
        ensures
            r == pos_result(stdout.state),
    {
        match &self.cursor {
            CursorBackend::Ansi(c) => c.pos(stdout),
            CursorBackend::Native(c) => c.pos(stdout),
        }
    }

    /// Move the cursor `count` rows up; the device stops at row zero.
    pub fn move_up(&self, count: u16, screen: &mut Screen) -> (r: Result<(), ErrorKind>)
        ensures
            old(screen).stdout.state.device_failed ==> r == Err::<(), ErrorKind>(
                ErrorKind::DeviceWriteFailure,
            ) && *final(screen) == *old(screen),
            !old(screen).stdout.state.device_failed ==> r == Ok::<(), ErrorKind>(())
                && final(screen).stdout.state == move_up_state(old(screen).stdout.state, count)
                && (self.cursor.is_ansi() ==> final(screen).stdout.buffer@ == old(
                screen,
            ).stdout.buffer@ + move_up_seq(count))
                && (!self.cursor.is_ansi() ==> final(screen).stdout.buffer == old(
                screen,
            ).stdout.buffer),
    {
        match &self.cursor {
            CursorBackend::Ansi(c) => c.move_up(count, screen),
            CursorBackend::Native(c) => c.move_up(count, screen),
        }
    }

    /// Move the cursor `count` columns right.
    pub fn move_right(&self, count: u16, screen: &mut Screen) -> (r: Result<(), ErrorKind>)
        ensures
            old(screen).stdout.state.device_failed ==> r == Err::<(), ErrorKind>(
                ErrorKind::DeviceWriteFailure,
            ) && *final(screen) == *old(screen),
            !old(screen).stdout.state.device_failed ==> r == Ok::<(), ErrorKind>(())
                && final(screen).stdout.state == move_right_state(old(screen).stdout.state, count)
                && (self.cursor.is_ansi() ==> final(screen).stdout.buffer@ == old(
                screen,
            ).stdout.buffer@ + move_right_seq(count))
                && (!self.cursor.is_ansi() ==> final(screen).stdout.buffer == old(
                screen,
            ).stdout.buffer),
    {
        match &self.cursor {
            CursorBackend::Ansi(c) => c.move_right(count, screen),
            CursorBackend::Native(c) => c.move_right(count, screen),
        }
    }

    /// Move the cursor `count` rows down.
    pub fn move_down(&self, count: u16, screen: &mut Screen) -> (r: Result<(), ErrorKind>)
        ensures
            old(screen).stdout.state.device_failed ==> r == Err::<(), ErrorKind>(
                ErrorKind::DeviceWriteFailure,
            ) && *final(screen) == *old(screen),
            !old(screen).stdout.state.device_failed ==> r == Ok::<(), ErrorKind>(())
                && final(screen).stdout.state == move_down_state(old(screen).stdout.state, count)
                && (self.cursor.is_ansi() ==> final(screen).stdout.buffer@ == old(
                screen,
            ).stdout.buffer@ + move_down_seq(count))
                && (!self.cursor.is_ansi() ==> final(screen).stdout.buffer == old(
                screen,
            ).stdout.buffer),
    {
        match &self.cursor {
            CursorBackend::Ansi(c) => c.move_down(count, screen),
            CursorBackend::Native(c) => c.move_down(count, screen),
        }
    }

    /// Move the cursor `count` columns left; the device stops at column
    /// zero.
    pub fn move_left(&self, count: u16, screen: &mut Screen) -> (r: Result<(), ErrorKind>)
        ensures
            old(screen).stdout.state.device_failed ==> r == Err::<(), ErrorKind>(
                ErrorKind::DeviceWriteFailure,
            ) && *final(screen) == *old(screen),
            !old(screen).stdout.state.device_failed ==> r == Ok::<(), ErrorKind>(())
                && final(screen).stdout.state == move_left_state(old(screen).stdout.state, count)
                && (self.cursor.is_ansi() ==> final(screen).stdout.buffer@ == old(
                screen,
            ).stdout.buffer@ + move_left_seq(count))
                && (!self.cursor.is_ansi() ==> final(screen).stdout.buffer == old(
                screen,
            ).stdout.buffer),
    {
        match &self.cursor {
            CursorBackend::Ansi(c) => c.move_left(count, screen),
            CursorBackend::Native(c) => c.move_left(count, screen),
        }
    }

    /// Save the cursor position on the device.
    pub fn save_position(&self, screen: &mut Screen) -> (r: Result<(), ErrorKind>)
        ensures
            old(screen).stdout.state.device_failed ==> r == Err::<(), ErrorKind>(
                ErrorKind::DeviceWriteFailure,
            ) && *final(screen) == *old(screen),
            !old(screen).stdout.state.device_failed ==> r == Ok::<(), ErrorKind>(())
                && final(screen).stdout.state == save_position_state(old(screen).stdout.state)
                && (self.cursor.is_ansi() ==> final(screen).stdout.buffer@ == old(
                screen,
            ).stdout.buffer@ + save_position_seq())
                && (!self.cursor.is_ansi() ==> final(screen).stdout.buffer == old(
                screen,
            ).stdout.buffer),
    {
        match &self.cursor {
            CursorBackend::Ansi(c) => c.save_position(screen),
            CursorBackend::Native(c) => c.save_position(screen),
        }
    }

    /// Return the cursor to the saved position.
    pub fn reset_position(&self, screen: &mut Screen) -> (r: Result<(), ErrorKind>)
        ensures
            old(screen).stdout.state.device_failed ==> r == Err::<(), ErrorKind>(
                ErrorKind::DeviceWriteFailure,
            ) && *final(screen) == *old(screen),
            !old(screen).stdout.state.device_failed ==> r == Ok::<(), ErrorKind>(())
                && final(screen).stdout.state == reset_position_state(old(screen).stdout.state)
                && (self.cursor.is_ansi() ==> final(screen).stdout.buffer@ == old(
                screen,
            ).stdout.buffer@ + reset_position_seq())
                && (!self.cursor.is_ansi() ==> final(screen).stdout.buffer == old(
                screen,
            ).stdout.buffer),
    {
        match &self.cursor {
            CursorBackend::Ansi(c) => c.reset_position(screen),
            CursorBackend::Native(c) => c.reset_position(screen),
        }
    }

    /// Hide the cursor.
    pub fn hide_cursor(&self, screen: &mut Screen) -> (r: Result<(), ErrorKind>)
        ensures
            old(screen).stdout.state.device_failed ==> r == Err::<(), ErrorKind>(
                ErrorKind::DeviceWriteFailure,
            ) && *final(screen) == *old(screen),
            !old(screen).stdout.state.device_failed ==> r == Ok::<(), ErrorKind>(())
                && final(screen).stdout.state == (DeviceState {
                cursor_visible: false,
                ..old(screen).stdout.state
            })
                && (self.cursor.is_ansi() ==> final(screen).stdout.buffer@ == old(
                screen,
            ).stdout.buffer@ + hide_seq())
                && (!self.cursor.is_ansi() ==> final(screen).stdout.buffer == old(
                screen,
            ).stdout.buffer),
    {
        match &self.cursor {
            CursorBackend::Ansi(c) => c.hide_cursor(screen),
            CursorBackend::Native(c) => c.hide_cursor(screen),
        }
    }

    /// Show the cursor.
    pub fn show_cursor(&self, screen: &mut Screen) -> (r: Result<(), ErrorKind>)
        ensures
            old(screen).stdout.state.device_failed ==> r == Err::<(), ErrorKind>(
                ErrorKind::DeviceWriteFailure,
            ) && *final(screen) == *old(screen),
            !old(screen).stdout.state.device_failed ==> r == Ok::<(), ErrorKind>(())
                && final(screen).stdout.state == (DeviceState {
                cursor_visible: true,
                ..old(screen).stdout.state
            })
                && (self.cursor.is_ansi() ==> final(screen).stdout.buffer@ == old(
                screen,
            ).stdout.buffer@ + show_seq())
                && (!self.cursor.is_ansi() ==> final(screen).stdout.buffer == old(
                screen,
            ).stdout.buffer),
    {
        match &self.cursor {
            CursorBackend::Ansi(c) => c.show_cursor(screen),
            CursorBackend::Native(c) => c.show_cursor(screen),
        }
    }

    /// Turn cursor blinking on or off.
    pub fn blink(&self, blink: bool, screen: &mut Screen) -> (r: Result<(), ErrorKind>)
        ensures
            old(screen).stdout.state.device_failed ==> r == Err::<(), ErrorKind>(
                ErrorKind::DeviceWriteFailure,
            ) && *final(screen) == *old(screen),
            !old(screen).stdout.state.device_failed ==> r == Ok::<(), ErrorKind>(())
                && final(screen).stdout.state == (DeviceState {
                cursor_blink: blink,
                ..old(screen).stdout.state
            })
                && (self.cursor.is_ansi() ==> final(screen).stdout.buffer@ == old(
                screen,
            ).stdout.buffer@ + blink_seq(blink))
                && (!self.cursor.is_ansi() ==> final(screen).stdout.buffer == old(
                screen,
            ).stdout.buffer),
    {
        match &self.cursor {
            CursorBackend::Ansi(c) => c.blink(blink, screen),
            CursorBackend::Native(c) => c.blink(blink, screen),
        }
    }
}

/// A cursor facade for a host whose terminals all understand ANSI
/// sequences.
pub fn cursor() -> (r: TerminalCursor)
    ensures
        r.cursor.is_ansi(),
{
    TerminalCursor::new()
}

} // verus!
