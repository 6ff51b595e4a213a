use hd44780::command::{
    cursor_pos_command, cursor_shift_command, display_mode_command, display_shift_command,
};
use hd44780::driver::HD44780;
use hd44780::signal::{BusMode, Signal};
use hd44780::Direction;

// Reads back the bytes latched by each enable pulse, with the register-select
// level at that moment, from a signal sequence.
fn latched(signals: &[Signal], width: u8) -> Vec<(bool, u8)> {
    let mut rs = false;
    let mut lines = [false; 8];
    let mut out = Vec::new();
    for s in signals {
        match *s {
            Signal::RegisterSelect(level) => rs = level,
            Signal::Data { line, high } => {
                assert!(line < width);
                lines[line as usize] = high;
            }
            Signal::Enable(true) => {
                let mut v: u8 = 0;
                for i in 0..width {
                    if lines[i as usize] {
                        v |= 1 << i;
                    }
                }
                out.push((rs, v));
            }
            _ => {}
        }
    }
    out
}

fn command_bytes(signals: &[Signal]) -> Vec<u8> {
    latched(signals, 8).into_iter().map(|(_, b)| b).collect()
}

fn fresh(mode: BusMode) -> HD44780 {
    let mut hd = HD44780::new(mode);
    hd.take_signals();
    hd
}

#[test]
fn display_mode_all_flag_combinations() {
    let cases = [
        ((false, false, false), 0b0000_1000u8),
        ((false, false, true), 0b0000_1001),
        ((false, true, false), 0b0000_1010),
        ((false, true, true), 0b0000_1011),
        ((true, false, false), 0b0000_1100),
        ((true, false, true), 0b0000_1101),
        ((true, true, false), 0b0000_1110),
        ((true, true, true), 0b0000_1111),
    ];
    for ((d, c, b), expected) in cases {
        assert_eq!(display_mode_command(d, c, b), expected);
        let mut hd = fresh(BusMode::EightLine);
        hd.set_display_mode(d, c, b);
        let s = hd.take_signals();
        assert_eq!(command_bytes(&s), vec![expected]);
        assert_eq!(*s.last().unwrap(), Signal::DelayUs(50));
    }
}

#[test]
fn cursor_pos_drops_high_bit() {
    assert_eq!(cursor_pos_command(200), cursor_pos_command(72));
    assert_eq!(cursor_pos_command(72), 0b1100_1000);
    assert_eq!(cursor_pos_command(0), 0b1000_0000);
    assert_eq!(cursor_pos_command(127), 0b1111_1111);
    assert_eq!(cursor_pos_command(128), 0b1000_0000);
    assert_eq!(cursor_pos_command(255), 0b1111_1111);
    for p in 0..=255u8 {
        assert_eq!(cursor_pos_command(p), 0b1000_0000 | (p & 0b0111_1111));
    }
    let mut a = fresh(BusMode::EightLine);
    a.set_cursor_pos(200);
    let mut b = fresh(BusMode::EightLine);
    b.set_cursor_pos(72);
    let sa = a.take_signals();
    assert_eq!(sa, b.take_signals());
    assert_eq!(command_bytes(&sa), vec![0b1100_1000]);
}

#[test]
fn shift_encodings() {
    assert_eq!(cursor_shift_command(Direction::Left), 0b0001_0000);
    assert_eq!(cursor_shift_command(Direction::Right), 0b0001_0100);
    assert_eq!(display_shift_command(Direction::Left), 0b0001_1000);
    assert_eq!(display_shift_command(Direction::Right), 0b0001_1100);
    let mut hd = fresh(BusMode::EightLine);
    hd.shift_cursor(Direction::Left);
    hd.shift_cursor(Direction::Right);
    hd.shift_display(Direction::Left);
    hd.shift_display(Direction::Right);
    let s = hd.take_signals();
    assert_eq!(command_bytes(&s), vec![0b0001_0000, 0b0001_0100, 0b0001_1000, 0b0001_1100]);
}

#[test]
fn four_line_sends_high_nibble_first() {
    let mut hd = fresh(BusMode::FourLine);
    hd.write_char('\u{A5}');
    let s = hd.take_signals();
    let pulses = s.iter().filter(|x| **x == Signal::Enable(true)).count();
    assert_eq!(pulses, 2);
    assert_eq!(latched(&s, 4), vec![(true, 0xA), (true, 0x5)]);
    let expected = vec![
        Signal::RegisterSelect(true),
        Signal::Data { line: 0, high: false },
        Signal::Data { line: 1, high: true },
        Signal::Data { line: 2, high: false },
        Signal::Data { line: 3, high: true },
        Signal::Enable(true),
        Signal::DelayUs(1),
        Signal::Enable(false),
        Signal::Data { line: 0, high: true },
        Signal::Data { line: 1, high: false },
        Signal::Data { line: 2, high: true },
        Signal::Data { line: 3, high: false },
        Signal::Enable(true),
        Signal::DelayUs(1),
        Signal::Enable(false),
        Signal::RegisterSelect(false),
        Signal::DelayUs(100),
    ];
    assert_eq!(s, expected);
}

#[test]
fn write_str_two_characters_in_order() {
    let mut hd = fresh(BusMode::EightLine);
    hd.write_str("AB");
    let s = hd.take_signals();
    assert_eq!(latched(&s, 8), vec![(true, b'A'), (true, b'B')]);
    let rs: Vec<Signal> =
        s.iter().copied().filter(|x| matches!(x, Signal::RegisterSelect(_))).collect();
    assert_eq!(
        rs,
        vec![
            Signal::RegisterSelect(true),
            Signal::RegisterSelect(false),
            Signal::RegisterSelect(true),
            Signal::RegisterSelect(false),
        ]
    );
    assert_eq!(*s.last().unwrap(), Signal::DelayUs(100));
    let mut one_by_one = fresh(BusMode::EightLine);
    one_by_one.write_char('A');
    one_by_one.write_char('B');
    assert_eq!(one_by_one.take_signals(), s);
}

#[test]
fn clear_twice_is_identical() {
    for mode in [BusMode::EightLine, BusMode::FourLine] {
        let mut hd = fresh(mode);
        hd.clear();
        let first = hd.take_signals();
        hd.clear();
        let second = hd.take_signals();
        assert_eq!(first, second);
        assert_eq!(*first.last().unwrap(), Signal::DelayUs(2000));
    }
    let mut hd = fresh(BusMode::EightLine);
    hd.clear();
    assert_eq!(command_bytes(&hd.take_signals()), vec![0b0000_0001]);
}

#[test]
fn reset_returns_home() {
    let mut hd = fresh(BusMode::EightLine);
    hd.reset();
    let s = hd.take_signals();
    assert_eq!(latched(&s, 8), vec![(false, 0b0000_0010)]);
    assert_eq!(*s.last().unwrap(), Signal::DelayUs(2000));
}

fn init_commands_8() -> Vec<Signal> {
    let mut v = vec![
        Signal::RegisterSelect(false),
        Signal::Enable(false),
        Signal::DelayMs(15),
    ];
    let cycle = |v: &mut Vec<Signal>, b: u8| {
        for i in 0..8u8 {
            v.push(Signal::Data { line: i, high: (b >> i) & 1 == 1 });
        }
        v.push(Signal::Enable(true));
        v.push(Signal::DelayUs(1));
        v.push(Signal::Enable(false));
    };
    cycle(&mut v, 0b0011_0000);
    v.push(Signal::DelayMs(5));
    cycle(&mut v, 0b0011_1000);
    v.push(Signal::DelayUs(100));
    cycle(&mut v, 0b0000_1110);
    v.push(Signal::DelayUs(100));
    cycle(&mut v, 0b0000_0001);
    v.push(Signal::DelayUs(2000));
    cycle(&mut v, 0b0000_0110);
    v.push(Signal::DelayUs(100));
    v
}

#[test]
fn end_to_end_hi() {
    let mut hd = HD44780::new_8bit();
    assert_eq!(hd.bus_mode(), BusMode::EightLine);
    hd.write_str("Hi");
    let s = hd.take_signals();
    let init = init_commands_8();
    assert_eq!(&s[..init.len()], &init[..]);
    let rest = &s[init.len()..];
    assert_eq!(latched(rest, 8), vec![(true, b'H'), (true, b'i')]);
    assert_eq!(rest.len(), 2 * (1 + 8 + 3 + 2));
    assert_eq!(rest[0], Signal::RegisterSelect(true));
    assert_eq!(rest[12], Signal::RegisterSelect(false));
    assert_eq!(rest[14], Signal::RegisterSelect(true));
    assert_eq!(rest[26], Signal::RegisterSelect(false));
    assert!(hd.take_signals().is_empty());
}

#[test]
fn four_line_init_sequence() {
    let hd0 = HD44780::new_4bit();
    assert_eq!(hd0.bus_mode(), BusMode::FourLine);
    let mut hd = hd0;
    let s = hd.take_signals();
    assert_eq!(&s[..3], &[Signal::RegisterSelect(false), Signal::Enable(false), Signal::DelayMs(15)]);
    let nibbles: Vec<u8> = latched(&s, 4).into_iter().map(|(_, b)| b).collect();
    assert_eq!(nibbles, vec![0x2, 0x2, 0x8, 0x0, 0xE, 0x0, 0x1, 0x0, 0x6]);
    assert_eq!(s[3 + 4 + 3], Signal::DelayMs(5));
}

#[test]
fn write_char_keeps_low_byte_of_code() {
    let mut a = fresh(BusMode::EightLine);
    a.write_char('\u{141}');
    assert_eq!(latched(&a.take_signals(), 8), vec![(true, 0x41)]);
}

#[test]
fn write_empty_str_sends_nothing() {
    let mut hd = fresh(BusMode::FourLine);
    hd.write_str("");
    assert!(hd.take_signals().is_empty());
}
