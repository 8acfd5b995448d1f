use embedded_hal::digital::v2::PinState;
use hd44780::bus::pin_state;
use hd44780::config::Command;
use hd44780::{Bus, DisplayControl, EntryMode, FullWidthBus, HalfWidthBus, IncrementMode, Lines};

#[test]
fn function_set_on_four_lines_is_the_geometry_alone() {
    assert_eq!(HalfWidthBus::function_set(Lines::FourLines), 0b0_1100);
    assert_eq!(HalfWidthBus::function_set(Lines::TwoLines), 0b0_1000);
    assert_eq!(HalfWidthBus::function_set(Lines::OneLine5x10), 0b0_0100);
    assert_eq!(HalfWidthBus::function_set(Lines::OneLine5x8), 0b0_0000);
}

#[test]
fn function_set_on_eight_lines_carries_the_width_bit() {
    assert_eq!(FullWidthBus::function_set(Lines::FourLines), 0b1_1100);
    assert_eq!(FullWidthBus::function_set(Lines::TwoLines), 0b1_1000);
    assert_eq!(FullWidthBus::function_set(Lines::OneLine5x10), 0b1_0100);
    assert_eq!(FullWidthBus::function_set(Lines::OneLine5x8), 0b1_0000);
}

#[test]
fn geometry_bits() {
    assert_eq!(Lines::FourLines.bits(), 0b1100);
    assert_eq!(Lines::TwoLines.bits(), 0b1000);
    assert_eq!(Lines::OneLine5x10.bits(), 0b0100);
    assert_eq!(Lines::OneLine5x8.bits(), 0b0000);
    assert_eq!(Lines::default(), Lines::OneLine5x8);
}

#[test]
fn display_control_default_is_display_on_only() {
    assert_eq!(DisplayControl::default().bits(), 0b100);
}

#[test]
fn entry_mode_default_is_increment_only() {
    assert_eq!(EntryMode::default().bits(), 0b10);
}

#[test]
fn display_control_setters_touch_one_bit_each() {
    for start in 0u8..8 {
        let mut base = DisplayControl::default();
        base.set_display_on(start & 0b100 != 0);
        base.set_cursor(start & 0b010 != 0);
        base.set_blink(start & 0b001 != 0);
        assert_eq!(base.bits(), start);
        for v in [false, true] {
            let mut c = base;
            c.set_display_on(v);
            assert_eq!(c.bits(), (start & 0b011) | if v { 0b100 } else { 0 });
            let mut c = base;
            c.set_cursor(v);
            assert_eq!(c.bits(), (start & 0b101) | if v { 0b010 } else { 0 });
            let mut c = base;
            c.set_blink(v);
            assert_eq!(c.bits(), (start & 0b110) | if v { 0b001 } else { 0 });
        }
    }
}

#[test]
fn entry_mode_setters_touch_one_bit_each() {
    for start in 0u8..4 {
        let mut base = EntryMode::default();
        base.set_increment_mode(if start & 0b10 != 0 {
            IncrementMode::Incremental
        } else {
            IncrementMode::Decremental
        });
        base.set_scroll(start & 0b01 != 0);
        assert_eq!(base.bits(), start);
        let mut e = base;
        e.set_increment_mode(IncrementMode::Incremental);
        assert_eq!(e.bits(), (start & 0b01) | 0b10);
        let mut e = base;
        e.set_increment_mode(IncrementMode::Decremental);
        assert_eq!(e.bits(), start & 0b01);
        for v in [false, true] {
            let mut e = base;
            e.set_scroll(v);
            assert_eq!(e.bits(), (start & 0b10) | if v { 0b01 } else { 0 });
        }
    }
}

#[test]
fn setting_a_flag_twice_is_setting_it_once() {
    let mut c = DisplayControl::default();
    c.set_cursor(true);
    c.set_cursor(true);
    assert_eq!(c.bits(), 0b110);
    c.set_display_on(false);
    c.set_display_on(false);
    assert_eq!(c.bits(), 0b010);
}

#[test]
fn instruction_codes() {
    assert_eq!(Command::ClearDisplay.code(), 0b0000_0001);
    assert_eq!(Command::ReturnHome.code(), 0b0000_0010);
    assert_eq!(Command::EntryModeSet.code(), 0b0000_0100);
    assert_eq!(Command::DisplayControl.code(), 0b0000_1000);
    assert_eq!(Command::CursorShift.code(), 0b0001_0000);
    assert_eq!(Command::FunctionSet.code(), 0b0010_0000);
    assert_eq!(Command::SetCGramAddr.code(), 0b0100_0000);
    assert_eq!(Command::SetDDRAMAddr.code(), 0b1000_0000);
}

#[test]
fn a_set_bit_is_a_high_level() {
    assert_eq!(pin_state(true), PinState::High);
    assert_eq!(pin_state(false), PinState::Low);
}
