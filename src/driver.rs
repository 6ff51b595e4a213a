//! The display driver: turns each operation into the bus signals that carry it.

use vstd::prelude::*;
use crate::signal::{
    BusMode, Signal, COMMAND_SETTLE_US, DATA_SETTLE_US, ENABLE_HOLD_US, FUNCTION_SET_WAIT_MS,
    LONG_SETTLE_US, POWER_ON_WAIT_MS, bus_trace, char_trace, command_trace,
    cycle_trace, init_trace, pulse_trace, str_trace, transfer_trace,
};
use crate::command::{
    CLEAR_DISPLAY, Direction, ENTRY_MODE_INCREMENT, RETURN_HOME, cursor_pos_byte,
    cursor_pos_command, cursor_shift_byte, cursor_shift_command, display_mode_byte,
    display_mode_command, display_shift_byte, display_shift_command,
};

verus! {

/// A driver for one HD44780 controller.
///
/// It owns the bus mode and the signals that its operations have produced and
/// that the owner of the pins has not taken yet.
pub struct HD44780 {
    mode: BusMode,
    signals: Vec<Signal>,
}

impl HD44780 {
    /// The bus mode chosen at construction.
    pub closed spec fn mode(&self) -> BusMode {
        self.mode
    }

    /// The signals produced and not yet taken, oldest first.
    pub closed spec fn pending(&self) -> Seq<Signal> {
        self.signals@
    }

    fn emit(&mut self, s: Signal)
        ensures
            final(self).mode == old(self).mode,
            final(self).signals@ == old(self).signals@ + seq![s],
    {
        self.signals.push(s);
        assert(self.signals@ =~= old(self).signals@ + seq![s]);
    }

    // Drives the first `width` data lines from the bits of `data`.
    fn set_bus_bits(&mut self, data: u8, width: u8)
        requires
            width <= 8,
        ensures
            final(self).mode == old(self).mode,
            final(self).signals@ == old(self).signals@ + bus_trace(data, width as nat),
    {
        let ghost start = self.signals@;
        for line in 0..width
            invariant
                width <= 8,
                self.mode == old(self).mode,
                self.signals@ == start + bus_trace(data, line as nat),
        {
            let high = (data >> line) & 1 == 1;
            self.emit(Signal::Data { line, high });
            assert(self.signals@ =~= start + bus_trace(data, (line + 1) as nat));
        }
    }

    // Pulses the enable pin, telling the controller to latch the bus.
    fn pulse_enable(&mut self)
        ensures
            final(self).mode == old(self).mode,
            final(self).signals@ == old(self).signals@ + pulse_trace(),
    {
        self.emit(Signal::Enable(true));
        self.emit(Signal::DelayUs(ENABLE_HOLD_US));
        self.emit(Signal::Enable(false));
        assert(self.signals@ =~= old(self).signals@ + pulse_trace());
    }

    // One bus cycle: `data` on the first `width` lines, then an enable pulse.
    fn send_cycle(&mut self, data: u8, width: u8)
        requires
            width <= 8,
        ensures
            final(self).mode == old(self).mode,
            final(self).signals@ == old(self).signals@ + cycle_trace(data, width as nat),
    {
        self.set_bus_bits(data, width);
        self.pulse_enable();
        assert(self.signals@ =~= old(self).signals@ + cycle_trace(data, width as nat));
    }

    // Sends a whole byte: in one cycle on eight lines, or high nibble then
    // low nibble on four.
    fn send_byte(&mut self, data: u8)
        ensures
            final(self).mode == old(self).mode,
            final(self).signals@ == old(self).signals@ + transfer_trace(old(self).mode, data),
    {
        match self.mode {
            BusMode::EightLine => {
                self.send_cycle(data, 8);
            },
            BusMode::FourLine => {
                self.send_cycle(data >> 4, 4);
                self.send_cycle(data & 0x0F, 4);
                assert(self.signals@ =~= old(self).signals@ + transfer_trace(self.mode, data));
            },
        }
    }

    // Sends an instruction byte and waits for it to be processed.
    fn send_command(&mut self, data: u8, settle_us: u16)
        ensures
            final(self).mode == old(self).mode,
            final(self).signals@ == old(self).signals@ + command_trace(
                old(self).mode,
                data,
                settle_us,
            ),
    {
        self.send_byte(data);
        self.emit(Signal::DelayUs(settle_us));
        assert(self.signals@ =~= old(self).signals@ + command_trace(self.mode, data, settle_us));
    }

    /// Creates a driver on an eight-line bus and runs the power-on sequence.
    pub fn new_8bit() -> (r: HD44780)
        ensures
            r.mode() == BusMode::EightLine,
            r.pending() == init_trace(BusMode::EightLine),
    {
        HD44780::new(BusMode::EightLine)
    }

    /// Creates a driver on a four-line bus and runs the power-on sequence.
    pub fn new_4bit() -> (r: HD44780)
        ensures
            r.mode() == BusMode::FourLine,
            r.pending() == init_trace(BusMode::FourLine),
    {
        HD44780::new(BusMode::FourLine)
    }

    /// Creates a driver for the given bus mode and runs the power-on sequence.
    pub fn new(mode: BusMode) -> (r: HD44780)
        ensures
            r.mode() == mode,
            r.pending() == init_trace(mode),
    {
        let mut hd = HD44780 { mode, signals: Vec::new() };
        hd.initialize();
        assert(hd.signals@ =~= init_trace(mode));
        hd
    }

    // The controller's power-on sequence, as the datasheet gives it.
    fn initialize(&mut self)
        ensures
            final(self).mode == old(self).mode,
            final(self).signals@ == old(self).signals@ + init_trace(old(self).mode),
    {
        self.emit(Signal::RegisterSelect(false));
        self.emit(Signal::Enable(false));
        // Wait for the controller to wake up if it was off.
        self.emit(Signal::DelayMs(POWER_ON_WAIT_MS));
        // Select the bus width while the controller still listens on eight lines.
        match self.mode {
            BusMode::EightLine => self.send_cycle(0b0011_0000, 8),
            BusMode::FourLine => self.send_cycle(0b0010, 4),
        }
        self.emit(Signal::DelayMs(FUNCTION_SET_WAIT_MS));
        let function_set: u8 = match self.mode {
            BusMode::EightLine => 0b0011_1000,
            BusMode::FourLine => 0b0010_1000,
        };
        self.send_command(function_set, DATA_SETTLE_US);
        self.send_command(display_mode_command(true, true, false), DATA_SETTLE_US);
        self.send_command(CLEAR_DISPLAY, LONG_SETTLE_US);
        self.send_command(ENTRY_MODE_INCREMENT, DATA_SETTLE_US);
        assert(self.signals@ =~= old(self).signals@ + init_trace(self.mode));
    }

    /// The bus mode chosen at construction.
    pub fn bus_mode(&self) -> (r: BusMode)
        ensures
            r == self.mode(),
    {
        self.mode
    }

    /// Hands out the signals produced so far, oldest first, and forgets them.
    pub fn take_signals(&mut self) -> (r: Vec<Signal>)
        ensures
            r@ == old(self).pending(),
            final(self).pending() == Seq::<Signal>::empty(),
            final(self).mode() == old(self).mode(),
    {
        let mut taken: Vec<Signal> = Vec::new();
        std::mem::swap(&mut taken, &mut self.signals);
        taken
    }

    /// Unshifts the display and sets the cursor position to 0.
    pub fn reset(&mut self)
        ensures
            final(self).mode() == old(self).mode(),
            final(self).pending() == old(self).pending() + command_trace(
                old(self).mode(),
                RETURN_HOME,
                LONG_SETTLE_US,
            ),
    {
        self.send_command(RETURN_HOME, LONG_SETTLE_US);
    }

    /// Clears the entire display.
    pub fn clear(&mut self)
        ensures
            final(self).mode() == old(self).mode(),
            final(self).pending() == old(self).pending() + command_trace(
                old(self).mode(),
                CLEAR_DISPLAY,
                LONG_SETTLE_US,
            ),
    {
        self.send_command(CLEAR_DISPLAY, LONG_SETTLE_US);
    }

    /// Sets whether the display is on, whether the cursor is visible and
    /// whether it blinks.
    pub fn set_display_mode(&mut self, display_on: bool, cursor_visible: bool, cursor_blink: bool)
        ensures
            final(self).mode() == old(self).mode(),
            final(self).pending() == old(self).pending() + command_trace(
                old(self).mode(),
                display_mode_byte(display_on, cursor_visible, cursor_blink) as u8,
                COMMAND_SETTLE_US,
            ),
    {
        let cmd = display_mode_command(display_on, cursor_visible, cursor_blink);
        self.send_command(cmd, COMMAND_SETTLE_US);
    }

    /// Sets the cursor position; only the low seven bits of `position` count.
    pub fn set_cursor_pos(&mut self, position: u8)
        ensures
            final(self).mode() == old(self).mode(),
            final(self).pending() == old(self).pending() + command_trace(
                old(self).mode(),
                cursor_pos_byte(position) as u8,
                COMMAND_SETTLE_US,
            ),
    {
        let cmd = cursor_pos_command(position);
        self.send_command(cmd, COMMAND_SETTLE_US);
    }

    /// Shifts just the cursor to the left or the right.
    pub fn shift_cursor(&mut self, dir: Direction)
        ensures
            final(self).mode() == old(self).mode(),
            final(self).pending() == old(self).pending() + command_trace(
                old(self).mode(),
                cursor_shift_byte(dir),
                COMMAND_SETTLE_US,
            ),
    {
        let cmd = cursor_shift_command(dir);
        self.send_command(cmd, COMMAND_SETTLE_US);
    }

    /// Shifts the entire display to the left or the right.
    pub fn shift_display(&mut self, dir: Direction)
        ensures
            final(self).mode() == old(self).mode(),
            final(self).pending() == old(self).pending() + command_trace(
                old(self).mode(),
                display_shift_byte(dir),
                COMMAND_SETTLE_US,
            ),
    {
        let cmd = display_shift_command(dir);
        self.send_command(cmd, COMMAND_SETTLE_US);
    }

    /// Writes a single character: its code's low eight bits, as display data.
    pub fn write_char(&mut self, data: char)
        ensures
            final(self).mode() == old(self).mode(),
            final(self).pending() == old(self).pending() + char_trace(old(self).mode(), data),
    {
        let code: u32 = data as u32;
        let byte: u8 = (code % 256) as u8;
        self.emit(Signal::RegisterSelect(true));
        self.send_byte(byte);
        self.emit(Signal::RegisterSelect(false));
        // Wait for the write to be processed.
        self.emit(Signal::DelayUs(DATA_SETTLE_US));
        assert(self.signals@ =~= old(self).signals@ + char_trace(self.mode, data));
    }

    /// Writes each character of `string`, in order.
    pub fn write_str(&mut self, string: &str)
        ensures
            final(self).mode() == old(self).mode(),
            final(self).pending() == old(self).pending() + str_trace(old(self).mode(), string@),
    {
        let ghost start = self.signals@;
        for c in it: string.chars()
            invariant
                self.mode == old(self).mode,
                it.seq() == string@,
                self.signals@ == start + str_trace(self.mode, it.seq().take(it.index() as int)),
        {
            let ghost done = it.seq().take(it.index() as int);
            self.write_char(c);
            assert(it.seq().take(it.index() as int + 1).drop_last() =~= done);
        }
        assert(string@.take(string@.len() as int) =~= string@);
    }
}

} // verus!
