//! The bus signals that the driver emits, and the sequences that each
//! operation is made of.

use vstd::prelude::*;
use crate::command::{CLEAR_DISPLAY, ENTRY_MODE_INCREMENT, display_mode_byte};

verus! {

/// Width of the controller's data bus, fixed when the driver is built.
#[derive(Clone, Copy, Debug, PartialEq, Eq, Structural)]
pub enum BusMode {
    /// Eight data lines; a byte goes over the bus in one cycle.
    EightLine,
    /// Four data lines (DB4..DB7); a byte goes over the bus as two nibbles,
    /// high nibble first.
    FourLine,
}

/// One step of the electrical sequence on the controller's bus.
#[derive(Clone, Copy, Debug, PartialEq, Eq, Structural)]
pub enum Signal {
    /// Drive the register-select line: high selects display data, low an
    /// instruction.
    RegisterSelect(bool),
    /// Drive the enable line.
    Enable(bool),
    /// Drive data line `line` of the bus (line `i` carries bit `i`).
    Data { line: u8, high: bool },
    /// Wait at least this many microseconds.
    DelayUs(u16),
    /// Wait at least this many milliseconds.
    DelayMs(u8),
}

/// How long the enable line is held high; the datasheet asks for 450 ns.
pub const ENABLE_HOLD_US: u16 = 1;

/// Settle time after an ordinary instruction (datasheet: 37 us).
pub const COMMAND_SETTLE_US: u16 = 50;

/// Settle time after a data write and after each instruction of the power-on
/// sequence.
pub const DATA_SETTLE_US: u16 = 100;

/// Settle time after clear-display and return-home (datasheet: 1.52 ms).
pub const LONG_SETTLE_US: u16 = 2000;

/// Wait for the controller's own power-on reset (datasheet: 15 ms).
pub const POWER_ON_WAIT_MS: u8 = 15;

/// Wait after the first function set (datasheet: 4.1 ms).
pub const FUNCTION_SET_WAIT_MS: u8 = 5;

/// Number of data lines of a bus mode.
pub open spec fn bus_width(mode: BusMode) -> nat {
    match mode {
        BusMode::EightLine => 8,
        BusMode::FourLine => 4,
    }
}

/// The level of data line `line` when `value` is on the bus.
pub open spec fn line_level(value: u8, line: u8) -> bool {
    (value >> line) & 1u8 == 1u8
}

/// Driving the first `width` data lines from the bits of `value`, line 0 first.
pub open spec fn bus_trace(value: u8, width: nat) -> Seq<Signal> {
    Seq::new(width, |i: int| Signal::Data { line: i as u8, high: line_level(value, i as u8) })
}

/// The enable pulse that latches what is on the bus.
pub open spec fn pulse_trace() -> Seq<Signal> {
    seq![Signal::Enable(true), Signal::DelayUs(ENABLE_HOLD_US), Signal::Enable(false)]
}

/// One bus cycle: put `value` on `width` lines, then pulse enable.
pub open spec fn cycle_trace(value: u8, width: nat) -> Seq<Signal> {
    bus_trace(value, width) + pulse_trace()
}

/// Transferring a whole byte in the given mode.
pub open spec fn transfer_trace(mode: BusMode, byte: u8) -> Seq<Signal> {
    match mode {
        BusMode::EightLine => cycle_trace(byte, 8),
        BusMode::FourLine => cycle_trace(byte >> 4u8, 4) + cycle_trace(byte & 0x0Fu8, 4),
    }
}

/// An instruction: the byte transferred with register-select low, then a settle
/// delay.
pub open spec fn command_trace(mode: BusMode, byte: u8, settle_us: u16) -> Seq<Signal> {
    transfer_trace(mode, byte) + seq![Signal::DelayUs(settle_us)]
}

/// The byte that stands for a character on the bus: its code's low eight bits.
pub open spec fn char_byte(c: char) -> u8 {
    (c as u32 % 256) as u8
}

/// A data write: register-select high for the transfer, low again after it,
/// then a settle delay.
pub open spec fn char_trace(mode: BusMode, c: char) -> Seq<Signal> {
    seq![Signal::RegisterSelect(true)] + transfer_trace(mode, char_byte(c)) + seq![
        Signal::RegisterSelect(false),
        Signal::DelayUs(DATA_SETTLE_US),
    ]
}

/// Data writes of each character of `s`, in order.
pub open spec fn str_trace(mode: BusMode, s: Seq<char>) -> Seq<Signal>
    decreases s.len(),
{
    if s.len() == 0 {
        Seq::empty()
    } else {
        str_trace(mode, s.drop_last()) + char_trace(mode, s.last())
    }
}

/// The function-set byte: bus width, two display lines, 5x8 font.
pub open spec fn function_set_byte(mode: BusMode) -> u8 {
    match mode {
        BusMode::EightLine => 0b0011_1000,
        BusMode::FourLine => 0b0010_1000,
    }
}

/// The first function set, written raw while the controller still listens
/// on eight lines: a whole byte in eight-line mode, the high nibble alone in
/// four-line mode.
pub open spec fn wake_trace(mode: BusMode) -> Seq<Signal> {
    match mode {
        BusMode::EightLine => cycle_trace(0b0011_0000, 8),
        BusMode::FourLine => cycle_trace(0b0010, 4),
    }
}

/// The power-on sequence: control lines low and the power-on wait, the raw
/// function set and its wait, the full function set, display on with a
/// steady cursor, clear display, entry mode.
pub open spec fn init_trace(mode: BusMode) -> Seq<Signal> {
    seq![
        Signal::RegisterSelect(false),
        Signal::Enable(false),
        Signal::DelayMs(POWER_ON_WAIT_MS),
    ] + wake_trace(mode) + seq![Signal::DelayMs(FUNCTION_SET_WAIT_MS)] + command_trace(
        mode,
        function_set_byte(mode),
        DATA_SETTLE_US,
    ) + command_trace(mode, display_mode_byte(true, true, false) as u8, DATA_SETTLE_US)
        + command_trace(mode, CLEAR_DISPLAY, LONG_SETTLE_US) + command_trace(
        mode,
        ENTRY_MODE_INCREMENT,
        DATA_SETTLE_US,
    )
}

} // verus!
