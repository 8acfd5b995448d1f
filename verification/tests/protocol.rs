use embedded_hal::digital::v2::PinState;
use embedded_io_async::{ErrorKind, SeekFrom};
use hd44780::error::conclude;
use hd44780::nonblocking::Lcd;
use hd44780::{
    BusSend, DisplayControl, EntryMode, FullWidthBus, HalfWidthBus, IncrementMode, LcdIOError,
    LcdPinConfiguration, Lines, Pin, Step,
};

/// What a controller at the far end of the lines notices.
#[derive(Clone, Copy, Debug, PartialEq, Eq)]
enum Seen {
    /// A falling edge on enable, with register select and D7..D0 as they stood.
    Latch { rs: bool, data: u8 },
    Delay(u32),
}

fn watch(steps: &[Step]) -> Vec<Seen> {
    let mut en = false;
    let mut rs = false;
    let mut data = 0u8;
    let mut seen = Vec::new();
    for step in steps {
        match *step {
            Step::DelayUs { us } => seen.push(Seen::Delay(us)),
            Step::Drive { pin, state } => {
                let high = state == PinState::High;
                let index = match pin {
                    Pin::En => {
                        if en && !high {
                            seen.push(Seen::Latch { rs, data });
                        }
                        en = high;
                        continue;
                    }
                    Pin::Rs => {
                        rs = high;
                        continue;
                    }
                    Pin::Rw => {
                        assert!(!high);
                        continue;
                    }
                    Pin::D0 => 0,
                    Pin::D1 => 1,
                    Pin::D2 => 2,
                    Pin::D3 => 3,
                    Pin::D4 => 4,
                    Pin::D5 => 5,
                    Pin::D6 => 6,
                    Pin::D7 => 7,
                };
                data = (data & !(1 << index)) | ((high as u8) << index);
            }
        }
    }
    seen
}

fn nibble(rs: bool, value: u8) -> Seen {
    Seen::Latch { rs, data: value << 4 }
}

fn byte_as_nibbles(rs: bool, value: u8) -> [Seen; 2] {
    [nibble(rs, value >> 4), nibble(rs, value & 0x0f)]
}

fn half() -> LcdPinConfiguration<HalfWidthBus> {
    LcdPinConfiguration { bus: HalfWidthBus }
}

fn ready() -> Lcd<HalfWidthBus> {
    let mut boot = Vec::new();
    Lcd::new(half(), Lines::TwoLines, EntryMode::default(), &mut boot)
}

fn drive(pin: Pin, high: bool) -> Step {
    Step::Drive { pin, state: if high { PinState::High } else { PinState::Low } }
}

#[test]
fn pulse_is_enable_high_then_low() {
    let mut out = Vec::new();
    half().pulse(&mut out);
    assert_eq!(out, vec![drive(Pin::En, true), drive(Pin::En, false)]);
}

#[test]
fn nibble_goes_out_least_significant_bit_first_on_d4_to_d7() {
    let mut out = Vec::new();
    half().update(0b1010_0110, &mut out);
    assert_eq!(
        out,
        vec![
            drive(Pin::D4, false),
            drive(Pin::D5, true),
            drive(Pin::D6, true),
            drive(Pin::D7, false),
            drive(Pin::En, true),
            drive(Pin::En, false),
        ]
    );
}

#[test]
fn byte_goes_out_least_significant_bit_first_on_d0_to_d7() {
    let mut out = Vec::new();
    LcdPinConfiguration { bus: FullWidthBus }.update(0b1010_0110, &mut out);
    assert_eq!(
        out,
        vec![
            drive(Pin::D0, false),
            drive(Pin::D1, true),
            drive(Pin::D2, true),
            drive(Pin::D3, false),
            drive(Pin::D4, false),
            drive(Pin::D5, true),
            drive(Pin::D6, false),
            drive(Pin::D7, true),
            drive(Pin::En, true),
            drive(Pin::En, false),
        ]
    );
}

#[test]
fn half_width_send_is_high_nibble_then_low_nibble() {
    for byte in 0u8..=255 {
        for mode in [false, true] {
            let mut out = Vec::new();
            half().send(byte, mode, &mut out);
            assert_eq!(out.len(), 13);
            assert_eq!(out[0], drive(Pin::Rs, mode));
            assert_eq!(watch(&out), byte_as_nibbles(mode, byte));
        }
    }
}

#[test]
fn full_width_send_is_one_cycle() {
    for byte in 0u8..=255 {
        for mode in [false, true] {
            let mut out = Vec::new();
            LcdPinConfiguration { bus: FullWidthBus }.send(byte, mode, &mut out);
            assert_eq!(out.len(), 11);
            assert_eq!(watch(&out), [Seen::Latch { rs: mode, data: byte }]);
        }
    }
}

#[test]
fn command_nodelay_selects_the_instruction_register() {
    let mut out = Vec::new();
    half().command_nodelay(0x28, &mut out);
    assert_eq!(watch(&out), byte_as_nibbles(false, 0x28));
    let mut sent = Vec::new();
    half().send(0x28, false, &mut sent);
    assert_eq!(out, sent);
}

#[test]
fn steps_are_appended_to_what_is_there() {
    let mut out = vec![Step::DelayUs { us: 7 }];
    half().pulse(&mut out);
    ready().clear(&mut out);
    assert_eq!(out.len(), 1 + 2 + 14);
    assert_eq!(out[0], Step::DelayUs { us: 7 });
    assert_eq!(out[1], drive(Pin::En, true));
}

#[test]
fn initialization_of_a_two_line_display() {
    let mut out = Vec::new();
    let _lcd = Lcd::new(half(), Lines::TwoLines, EntryMode::default(), &mut out);
    assert_eq!(
        &out[..4],
        [
            drive(Pin::Rs, false),
            drive(Pin::En, false),
            drive(Pin::Rw, false),
            Step::DelayUs { us: 15000 },
        ]
    );
    assert_eq!(out.len(), 79);
    let mut expected = vec![
        Seen::Delay(15000),
        nibble(false, 0b0011),
        Seen::Delay(4100),
        nibble(false, 0b0011),
        Seen::Delay(4100),
        nibble(false, 0b0011),
        Seen::Delay(37),
        nibble(false, 0b0010),
    ];
    expected.extend(byte_as_nibbles(false, 0b0010_1000));
    expected.push(Seen::Delay(50));
    expected.extend(byte_as_nibbles(false, 0b0000_1000));
    expected.push(Seen::Delay(50));
    expected.extend(byte_as_nibbles(false, 0b0000_0001));
    expected.push(Seen::Delay(1520));
    expected.extend(byte_as_nibbles(false, 0b0000_0110));
    expected.push(Seen::Delay(50));
    assert_eq!(watch(&out), expected);
}

#[test]
fn initialization_carries_geometry_and_entry_mode() {
    let mut entry = EntryMode::default();
    entry.set_increment_mode(IncrementMode::Decremental);
    entry.set_scroll(true);
    let mut out = Vec::new();
    let _lcd = Lcd::new(half(), Lines::OneLine5x10, entry, &mut out);
    let seen = watch(&out);
    assert_eq!(seen[8..10], byte_as_nibbles(false, 0b0010_0100));
    assert_eq!(seen[17..19], byte_as_nibbles(false, 0b0000_0101));
    assert_eq!(seen.len(), 20);
}

#[test]
fn write_then_seek_then_write() {
    let lcd = ready();
    let mut out = Vec::new();
    assert_eq!(lcd.seek::<()>(SeekFrom::Start(0), &mut out), Ok(0));
    assert_eq!(lcd.write(b"HI", &mut out), 2);
    assert_eq!(lcd.seek::<()>(SeekFrom::Start(40), &mut out), Ok(40));
    assert_eq!(lcd.write(b"LO", &mut out), 2);
    let mut expected = Vec::new();
    expected.extend(byte_as_nibbles(false, 0b0000_0010));
    expected.push(Seen::Delay(1520));
    expected.extend(byte_as_nibbles(true, b'H'));
    expected.push(Seen::Delay(41));
    expected.extend(byte_as_nibbles(true, b'I'));
    expected.push(Seen::Delay(41));
    expected.extend(byte_as_nibbles(false, 0b1000_0000 | 40));
    expected.push(Seen::Delay(50));
    expected.extend(byte_as_nibbles(true, b'L'));
    expected.push(Seen::Delay(41));
    expected.extend(byte_as_nibbles(true, b'O'));
    expected.push(Seen::Delay(41));
    let seen = watch(&out);
    assert_eq!(seen, expected);
    let data = seen.iter().filter(|s| matches!(s, Seen::Latch { rs: true, .. })).count();
    let commands = seen.iter().filter(|s| matches!(s, Seen::Latch { rs: false, .. })).count();
    assert_eq!(data, 4 * 2);
    assert_eq!(commands, 2 * 2);
}

#[test]
fn write_of_nothing_appends_nothing() {
    let mut out = Vec::new();
    assert_eq!(ready().write(b"", &mut out), 0);
    assert!(out.is_empty());
}

#[test]
fn write_is_write_char_for_each_byte() {
    let lcd = ready();
    let mut whole = Vec::new();
    assert_eq!(lcd.write(&[0x00, 0xff, 0x41], &mut whole), 3);
    let mut single = Vec::new();
    lcd.write_char(0x00, &mut single);
    lcd.write_char(0xff, &mut single);
    lcd.write_char(0x41, &mut single);
    assert_eq!(whole, single);
}

#[test]
fn write_char_waits_41_microseconds() {
    let mut out = Vec::new();
    ready().write_char(b'x', &mut out);
    let [hi, lo] = byte_as_nibbles(true, b'x');
    assert_eq!(watch(&out), [hi, lo, Seen::Delay(41)]);
}

#[test]
fn clear_and_home_wait_1520_microseconds() {
    let mut out = Vec::new();
    ready().clear(&mut out);
    let [hi, lo] = byte_as_nibbles(false, 0x01);
    assert_eq!(watch(&out), [hi, lo, Seen::Delay(1520)]);
    let mut out = Vec::new();
    ready().home(&mut out);
    let [hi, lo] = byte_as_nibbles(false, 0x02);
    assert_eq!(watch(&out), [hi, lo, Seen::Delay(1520)]);
}

#[test]
fn display_control_and_entry_mode_wait_50_microseconds() {
    let mut control = DisplayControl::default();
    control.set_blink(true);
    let mut out = Vec::new();
    ready().display_control(control, &mut out);
    let [hi, lo] = byte_as_nibbles(false, 0b0000_1101);
    assert_eq!(watch(&out), [hi, lo, Seen::Delay(50)]);
    let mut again = Vec::new();
    ready().set_display_control(control, &mut again);
    assert_eq!(out, again);
    let mut out = Vec::new();
    ready().entry_mode_set(EntryMode::default(), &mut out);
    let [hi, lo] = byte_as_nibbles(false, 0b0000_0110);
    assert_eq!(watch(&out), [hi, lo, Seen::Delay(50)]);
}

#[test]
fn seek_from_start_is_the_offset_modulo_80() {
    let lcd = ready();
    for (offset, position) in
        [(1u64, 1u64), (40, 40), (79, 79), (81, 1), (159, 79), (161, 1), (u64::MAX, 15)]
    {
        let mut out = Vec::new();
        assert_eq!(lcd.seek::<()>(SeekFrom::Start(offset), &mut out), Ok(position));
        let [hi, lo] = byte_as_nibbles(false, 0x80 | position as u8);
        assert_eq!(watch(&out), [hi, lo, Seen::Delay(50)]);
    }
}

#[test]
fn seek_to_position_zero_goes_home() {
    let lcd = ready();
    for offset in [0u64, 80, 160, 8000] {
        let mut out = Vec::new();
        assert_eq!(lcd.seek::<()>(SeekFrom::Start(offset), &mut out), Ok(0));
        let mut home = Vec::new();
        lcd.home(&mut home);
        assert_eq!(out, home);
    }
}

#[test]
fn seek_from_end_adds_80_to_the_remainder() {
    let lcd = ready();
    for (offset, position) in [
        (0i64, 80u64),
        (1, 81),
        (5, 85),
        (79, 159),
        (80, 80),
        (-1, 79),
        (-79, 1),
        (-80, 80),
        (-81, 79),
        (i64::MAX, 127),
        (i64::MIN, 32),
    ] {
        let mut out = Vec::new();
        assert_eq!(lcd.seek::<()>(SeekFrom::End(offset), &mut out), Ok(position));
        let [hi, lo] = byte_as_nibbles(false, 0x80 | position as u8);
        assert_eq!(watch(&out), [hi, lo, Seen::Delay(50)]);
    }
}

#[test]
fn seek_from_current_is_unsupported() {
    let lcd = ready();
    for offset in [0i64, 1, -1, 80, i64::MIN, i64::MAX] {
        let mut out = vec![Step::DelayUs { us: 1 }];
        let r = lcd.seek::<u8>(SeekFrom::Current(offset), &mut out);
        assert_eq!(r, Err(LcdIOError(None, ErrorKind::Unsupported)));
        assert_eq!(r.unwrap_err().kind(), ErrorKind::Unsupported);
        assert_eq!(out, vec![Step::DelayUs { us: 1 }]);
    }
}

#[test]
fn line_errors_are_reported_as_other() {
    assert_eq!(conclude(40u64, Ok::<(), u8>(())), Ok(40));
    let failed = conclude(40u64, Err(9u8));
    assert_eq!(failed, Err(LcdIOError(Some(9u8), ErrorKind::Other)));
    assert_eq!(failed.unwrap_err().kind(), ErrorKind::Other);
}
