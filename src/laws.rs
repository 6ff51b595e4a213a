//! Properties of the signal sequences that hold across operations and inputs.

use vstd::prelude::*;
use crate::command::{CLEAR_DISPLAY, cursor_pos_byte, display_mode_byte, flag};
use crate::signal::{
    BusMode, Signal, LONG_SETTLE_US, bus_trace, char_byte, char_trace, command_trace, line_level,
    pulse_trace, str_trace, transfer_trace,
};

verus! {

/// The display on/off control byte carries the display flag in bit 2, the
/// cursor flag in bit 1 and the blink flag in bit 0, above a fixed bit 3.
pub proof fn display_mode_bit_order(display_on: bool, cursor_visible: bool, cursor_blink: bool)
    ensures
        ({
            let b = display_mode_byte(display_on, cursor_visible, cursor_blink) as u8;
            &&& b as int == display_mode_byte(display_on, cursor_visible, cursor_blink)
            &&& b >> 4u8 == 0u8
            &&& line_level(b, 3) == true
            &&& line_level(b, 2) == display_on
            &&& line_level(b, 1) == cursor_visible
            &&& line_level(b, 0) == cursor_blink
        }),
{
    let b = display_mode_byte(display_on, cursor_visible, cursor_blink) as u8;
    let (d, c, k) = (flag(display_on) as u8, flag(cursor_visible) as u8, flag(cursor_blink) as u8);
    assert(b == 8u8 + 4u8 * d + 2u8 * c + k);
    assert({
        &&& b >> 4u8 == 0u8
        &&& (b >> 3u8) & 1u8 == 1u8
        &&& ((b >> 2u8) & 1u8 == 1u8) == (d == 1u8)
        &&& ((b >> 1u8) & 1u8 == 1u8) == (c == 1u8)
        &&& ((b >> 0u8) & 1u8 == 1u8) == (k == 1u8)
    }) by (bit_vector)
        requires
            b == 8u8 + 4u8 * d + 2u8 * c + k,
            d <= 1u8,
            c <= 1u8,
            k <= 1u8,
    ;
}

/// The set-DDRAM-address byte is `0b1000_0000 | (pos & 0b0111_1111)`: two
/// positions that agree in their low seven bits give the same byte.
pub proof fn cursor_pos_masks_high_bit(pos: u8, other: u8)
    ensures
        cursor_pos_byte(pos) == (0b1000_0000u8 | (pos & 0b0111_1111u8)) as int,
        pos & 0b0111_1111u8 == other & 0b0111_1111u8 ==> cursor_pos_byte(pos) == cursor_pos_byte(
            other,
        ),
{
    assert(128u8 + pos % 128u8 == 0b1000_0000u8 | (pos & 0b0111_1111u8)
        && (pos & 0b0111_1111u8 == other & 0b0111_1111u8 ==> pos % 128u8 == other % 128u8))
        by (bit_vector);
}

/// On four lines a byte goes as two enable pulses: first with bits 4..7 on
/// lines 0..3, then with bits 0..3 on lines 0..3.
pub proof fn four_line_high_nibble_first(byte: u8)
    ensures
        transfer_trace(BusMode::FourLine, byte) == Seq::new(
            4,
            |i: int| Signal::Data { line: i as u8, high: line_level(byte, (i + 4) as u8) },
        ) + pulse_trace() + Seq::new(
            4,
            |i: int| Signal::Data { line: i as u8, high: line_level(byte, i as u8) },
        ) + pulse_trace(),
{
    assert forall|i: u8| i < 4 implies line_level(byte >> 4u8, i) == line_level(byte, (i + 4) as u8)
        && line_level(byte & 0x0Fu8, i) == line_level(byte, i) by {
        assert(((byte >> 4u8) >> i) & 1u8 == (byte >> (i + 4u8)) & 1u8 && ((byte & 0x0Fu8) >> i)
            & 1u8 == (byte >> i) & 1u8) by (bit_vector)
            requires
                i < 4u8,
        ;
    }
    let hi = Seq::new(4, |i: int| Signal::Data { line: i as u8, high: line_level(byte, (i + 4) as u8) });
    let lo = Seq::new(4, |i: int| Signal::Data { line: i as u8, high: line_level(byte, i as u8) });
    assert(bus_trace(byte >> 4u8, 4) =~= hi) by {
        assert forall|i: int| 0 <= i < 4 implies bus_trace(byte >> 4u8, 4)[i] == hi[i] by {
            assert(line_level(byte >> 4u8, i as u8) == line_level(byte, (i as u8 + 4) as u8));
        }
    }
    assert(bus_trace(byte & 0x0Fu8, 4) =~= lo) by {
        assert forall|i: int| 0 <= i < 4 implies bus_trace(byte & 0x0Fu8, 4)[i] == lo[i] by {
            assert(line_level(byte & 0x0Fu8, i as u8) == line_level(byte, i as u8));
        }
    }
    assert(transfer_trace(BusMode::FourLine, byte) =~= hi + pulse_trace() + lo + pulse_trace());
}

/// No byte transfer touches the register-select line.
pub proof fn transfer_keeps_register_select(mode: BusMode, byte: u8)
    ensures
        forall|i: int|
            0 <= i < transfer_trace(mode, byte).len() ==> !(transfer_trace(
                mode,
                byte,
            )[i] is RegisterSelect),
{
}

/// A data write raises register-select before its transfer and lowers it only
/// after the transfer has finished, before the settle delay.
pub proof fn data_write_holds_register_select(mode: BusMode, c: char)
    ensures
        ({
            let t = char_trace(mode, c);
            let n = t.len();
            &&& t[0] == Signal::RegisterSelect(true)
            &&& t[n - 2] == Signal::RegisterSelect(false)
            &&& t.subrange(1, n - 2) == transfer_trace(mode, char_byte(c))
            &&& t[n - 1] is DelayUs
        }),
{
    let t = char_trace(mode, c);
    assert(t.subrange(1, t.len() - 2) =~= transfer_trace(mode, char_byte(c)));
}

/// Writing `a` then `b` gives the same signals as writing `a + b`: one data
/// write per character, in order, with nothing in between.
pub proof fn write_str_concat(mode: BusMode, a: Seq<char>, b: Seq<char>)
    ensures
        str_trace(mode, a + b) == str_trace(mode, a) + str_trace(mode, b),
    decreases b.len(),
{
    if b.len() == 0 {
        assert(a + b =~= a);
        assert(str_trace(mode, a) + str_trace(mode, b) =~= str_trace(mode, a));
    } else {
        assert((a + b).drop_last() =~= a + b.drop_last());
        assert((a + b).last() == b.last());
        write_str_concat(mode, a, b.drop_last());
        assert(str_trace(mode, a + b) =~= str_trace(mode, a) + str_trace(mode, b));
    }
}

/// A string of two characters is written as two data writes, first one first.
pub proof fn write_str_two_chars(mode: BusMode, first: char, second: char)
    ensures
        str_trace(mode, seq![first, second]) == char_trace(mode, first) + char_trace(mode, second),
{
    let s = seq![first, second];
    assert(s.drop_last() =~= seq![first]);
    assert(seq![first].drop_last() =~= Seq::<char>::empty());
    assert(str_trace(mode, Seq::<char>::empty()) == Seq::<Signal>::empty());
    assert(seq![first].last() == first);
    assert(str_trace(mode, seq![first]) =~= char_trace(mode, first));
    assert(s.last() == second);
}

/// Clearing twice appends the same clear-display instruction twice, each with
/// the long settle delay: what came before changes nothing.
pub proof fn clear_twice(mode: BusMode, before: Seq<Signal>)
    ensures
        ({
            let one = command_trace(mode, CLEAR_DISPLAY, LONG_SETTLE_US);
            let once = before + one;
            let twice = once + one;
            &&& twice.subrange(before.len() as int, once.len() as int) == one
            &&& twice.subrange(once.len() as int, twice.len() as int) == one
            &&& one.last() == Signal::DelayUs(LONG_SETTLE_US)
            &&& LONG_SETTLE_US >= 1520
        }),
{
    let one = command_trace(mode, CLEAR_DISPLAY, LONG_SETTLE_US);
    let once = before + one;
    let twice = once + one;
    assert(twice.subrange(before.len() as int, once.len() as int) =~= one);
    assert(twice.subrange(once.len() as int, twice.len() as int) =~= one);
}

} // verus!
