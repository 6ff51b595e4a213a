//! Encoding of the controller's instruction bytes.

use vstd::prelude::*;

verus! {

/// Used in the direction argument for shifting the cursor and the display.
#[derive(Clone, Copy, Debug, PartialEq, Eq, Structural)]
pub enum Direction {
    Left,
    Right,
}

/// Clear display: blanks the whole DDRAM and returns the cursor home.
pub const CLEAR_DISPLAY: u8 = 0b0000_0001;

/// Return home: unshifts the display and moves the cursor to address 0.
pub const RETURN_HOME: u8 = 0b0000_0010;

/// Entry mode set: increment the address counter after each write, no shift.
pub const ENTRY_MODE_INCREMENT: u8 = 0b0000_0110;

/// 1 when the flag is set, 0 otherwise.
pub open spec fn flag(b: bool) -> int {
    if b {
        1
    } else {
        0
    }
}

/// The display on/off control byte `0b0000_1DCB`.
pub open spec fn display_mode_byte(display_on: bool, cursor_visible: bool, cursor_blink: bool) -> int {
    8 + 4 * flag(display_on) + 2 * flag(cursor_visible) + flag(cursor_blink)
}

/// The set-DDRAM-address byte `0b1AAAAAAA`, keeping the low seven bits of `pos`.
pub open spec fn cursor_pos_byte(pos: u8) -> int {
    128 + pos as int % 128
}

/// The cursor shift byte `0b0001_0D00`.
pub open spec fn cursor_shift_byte(dir: Direction) -> u8 {
    match dir {
        Direction::Left => 0b0001_0000,
        Direction::Right => 0b0001_0100,
    }
}

/// The display shift byte `0b0001_1D00`.
pub open spec fn display_shift_byte(dir: Direction) -> u8 {
    match dir {
        Direction::Left => 0b0001_1000,
        Direction::Right => 0b0001_1100,
    }
}

/// Encodes the display on/off control instruction.
pub fn display_mode_command(display_on: bool, cursor_visible: bool, cursor_blink: bool) -> (r: u8)
    ensures
        r as int == display_mode_byte(display_on, cursor_visible, cursor_blink),
{
    let display_bit: u8 = if display_on {
        0b0000_0100
    } else {
        0b0000_0000
    };
    let cursor_visible_bit: u8 = if cursor_visible {
        0b0000_0010
    } else {
        0b0000_0000
    };
    let cursor_blink_bit: u8 = if cursor_blink {
        0b0000_0001
    } else {
        0b0000_0000
    };
    let r = 0b0000_1000 | display_bit | cursor_visible_bit | cursor_blink_bit;
    assert(r == 8u8 + display_bit + cursor_visible_bit + cursor_blink_bit) by (bit_vector)
        requires
            r == 0b0000_1000u8 | display_bit | cursor_visible_bit | cursor_blink_bit,
            display_bit == 0u8 || display_bit == 4u8,
            cursor_visible_bit == 0u8 || cursor_visible_bit == 2u8,
            cursor_blink_bit == 0u8 || cursor_blink_bit == 1u8,
    ;
    r
}

/// Encodes the set-DDRAM-address instruction; the high bit of `pos` is dropped.
pub fn cursor_pos_command(pos: u8) -> (r: u8)
    ensures
        r as int == cursor_pos_byte(pos),
{
    let lower_7_bits = 0b0111_1111 & pos;
    let r = 0b1000_0000 | lower_7_bits;
    assert(r == 128u8 + pos % 128u8) by (bit_vector)
        requires
            r == 0b1000_0000u8 | (0b0111_1111u8 & pos),
    ;
    r
}

/// Encodes the instruction that moves the cursor one cell without touching DDRAM.
pub fn cursor_shift_command(dir: Direction) -> (r: u8)
    ensures
        r == cursor_shift_byte(dir),
{
    let bits: u8 = match dir {
        Direction::Left => 0b0000_0000,
        Direction::Right => 0b0000_0100,
    };
    assert(0b0001_0000u8 | 0u8 == 0b0001_0000u8 && 0b0001_0000u8 | 4u8 == 0b0001_0100u8)
        by (bit_vector);
    0b0001_0000 | bits
}

/// Encodes the instruction that shifts the whole visible window one cell.
pub fn display_shift_command(dir: Direction) -> (r: u8)
    ensures
        r == display_shift_byte(dir),
{
    let bits: u8 = match dir {
        Direction::Left => 0b0000_0000,
        Direction::Right => 0b0000_0100,
    };
    assert(0b0001_1000u8 | 0u8 == 0b0001_1000u8 && 0b0001_1000u8 | 4u8 == 0b0001_1100u8)
        by (bit_vector);
    0b0001_1000 | bits
}

} // verus!
