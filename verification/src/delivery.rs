//! What reaches a controller wired with four data lines when the steps of
//! an operation are played: the laws that tie the operations of the driver
//! to the reading of the lines at the far end.

use vstd::prelude::*;
use embedded_hal::digital::v2::PinState;
use crate::bus::{
    function_set_bits, nibble_steps, pulse_steps, Bus, HalfWidthBus, LcdPinConfiguration, Pin,
    Step,
};
use crate::config::{Command, DisplayControl, DisplayFlags, EntryFlags, EntryMode, Lines};
use crate::model::{
    after, byte_nibbles, bytes_nibbles, lemma_delay, lemma_half_byte_received, lemma_nibble_cycle,
    lemma_one_more, lemma_pulse, lemma_received_in_turn, received, transfers, with_high_nibble,
    Nibble, Transfer, Wires,
};
use crate::nonblocking::{
    clear_steps, command_steps, delay_steps, display_control_steps, entry_mode_steps,
    half_reset_steps, home_steps, init_steps, power_on_steps, seek_steps, write_char_steps,
    write_steps, COMMAND_DELAY_US, LONG_COMMAND_DELAY_US, POWER_ON_DELAY_US, WAKE_DELAY_US,
    WAKE_LAST_DELAY_US, WRITE_DELAY_US,
};

verus! {

proof fn lemma_high_nibble_read(data: u8, value: u8)
    by (bit_vector)
    ensures
        with_high_nibble(data, value) >> 4 == value & 0x0f,
        with_high_nibble(data, 0b0011) >> 4 == 0b0011,
        with_high_nibble(data, 0b0010) >> 4 == 0b0010,
{
}

/// An instruction reaches the controller as its two nibbles, addressed to
/// the instruction register.
pub proof fn lemma_command_delivered(w: Wires, command: u8)
    ensures
        received(w, command_steps::<LcdPinConfiguration<HalfWidthBus>>(command)) == byte_nibbles(
            false,
            command,
        ),
        !after(w, command_steps::<LcdPinConfiguration<HalfWidthBus>>(command)).rs,
{
    lemma_half_byte_received(w, command, false, COMMAND_DELAY_US);
}

/// Clearing reaches the controller as instruction 0x01, returning home as
/// instruction 0x02.
pub proof fn lemma_clear_and_home_delivered(w: Wires)
    ensures
        received(w, clear_steps::<LcdPinConfiguration<HalfWidthBus>>()) == byte_nibbles(false, 0x01),
        received(w, home_steps::<LcdPinConfiguration<HalfWidthBus>>()) == byte_nibbles(false, 0x02),
{
    lemma_half_byte_received(w, 0x01, false, LONG_COMMAND_DELAY_US);
    lemma_half_byte_received(w, 0x02, false, LONG_COMMAND_DELAY_US);
}

/// A character reaches the controller as its two nibbles, addressed to the
/// data register.
pub proof fn lemma_write_char_delivered(w: Wires, c: u8)
    ensures
        received(w, write_char_steps::<LcdPinConfiguration<HalfWidthBus>>(c)) == byte_nibbles(
            true,
            c,
        ),
{
    lemma_half_byte_received(w, c, true, WRITE_DELAY_US);
}

/// A buffer reaches the controller as the nibbles of its bytes, in the
/// buffer's order, all addressed to the data register, and nothing else
/// does.
pub proof fn lemma_write_delivered(w: Wires, buf: Seq<u8>)
    ensures
        received(w, write_steps::<LcdPinConfiguration<HalfWidthBus>>(buf)) == bytes_nibbles(
            true,
            buf,
        ),
    decreases buf.len(),
{
    if buf.len() == 0 {
        assert(received(w, Seq::<Step>::empty()) =~= Seq::<Nibble>::empty());
    } else {
        let before = write_steps::<LcdPinConfiguration<HalfWidthBus>>(buf.drop_last());
        let last = write_char_steps::<LcdPinConfiguration<HalfWidthBus>>(buf.last());
        lemma_write_delivered(w, buf.drop_last());
        lemma_write_char_delivered(after(w, before), buf.last());
        lemma_received_in_turn(w, before, last);
    }
}

/// A seek reaches the controller as one instruction: return home for
/// position 0, set address with the position in its low bits for any other.
pub proof fn lemma_seek_delivered(w: Wires, target: u64)
    ensures
        received(w, seek_steps::<LcdPinConfiguration<HalfWidthBus>>(target)) == byte_nibbles(
            false,
            if target == 0 {
                0x02u8
            } else {
                0x80u8 | (target as u8)
            },
        ),
{
    if target == 0 {
        lemma_clear_and_home_delivered(w);
    } else {
        lemma_command_delivered(w, 0x80u8 | (target as u8));
    }
}

/// The wake-up handshake reaches the controller as the nibble 0b0011 three
/// times and then the nibble 0b0010, with register select as it stood.
pub proof fn lemma_reset_delivered(w: Wires)
    ensures
        received(w, half_reset_steps()) == seq![
            Nibble { rs: w.rs, value: 0b0011 },
            Nibble { rs: w.rs, value: 0b0011 },
            Nibble { rs: w.rs, value: 0b0011 },
            Nibble { rs: w.rs, value: 0b0010 },
        ],
        after(w, half_reset_steps()).rs == w.rs,
        !after(w, half_reset_steps()).en,
{
    let wake = nibble_steps(0b0011);
    let long = delay_steps(WAKE_DELAY_US);
    let short = delay_steps(WAKE_LAST_DELAY_US);
    let strobe = pulse_steps();
    let narrow = nibble_steps(0b0010);
    let r1 = wake;
    let r2 = r1 + long;
    let r3 = r2 + strobe;
    let r4 = r3 + long;
    let r5 = r4 + strobe;
    let r6 = r5 + short;
    let held = with_high_nibble(w.data, 0b0011);
    let w1 = Wires { en: false, rs: w.rs, data: held };
    lemma_high_nibble_read(w.data, 0b0011);
    lemma_high_nibble_read(held, 0b0010);
    lemma_nibble_cycle(w, 0b0011);
    lemma_delay(w1, WAKE_DELAY_US);
    lemma_received_in_turn(w, r1, long);
    lemma_pulse(w1);
    lemma_received_in_turn(w, r2, strobe);
    lemma_received_in_turn(w, r3, long);
    lemma_received_in_turn(w, r4, strobe);
    lemma_delay(w1, WAKE_LAST_DELAY_US);
    lemma_received_in_turn(w, r5, short);
    lemma_nibble_cycle(w1, 0b0010);
    lemma_received_in_turn(w, r6, narrow);
    let n3 = Nibble { rs: w.rs, value: 0b0011 };
    let n2 = Nibble { rs: w.rs, value: 0b0010 };
    let none = Seq::<Nibble>::empty();
    assert(received(w, wake) =~= seq![n3]);
    assert(received(w1, long) =~= none);
    assert(received(w1, short) =~= none);
    assert(received(w1, strobe) =~= seq![n3]);
    assert(received(w1, narrow) =~= seq![n2]);
    assert(received(w, r6 + narrow) =~= seq![n3, n3, n3, n2]);
}

/// With enable low at power-on, pulling the control lines low and waiting
/// reaches the controller as nothing at all, and leaves register select on
/// the instruction register.
pub proof fn lemma_power_on_delivered(w: Wires)
    requires
        !w.en,
    ensures
        received(w, power_on_steps()) == Seq::<Nibble>::empty(),
        after(w, power_on_steps()) == (Wires { en: false, rs: false, data: w.data }),
{
    let none = Seq::<Step>::empty();
    let s1 = none.push(Step::Drive { pin: Pin::Rs, state: PinState::Low });
    let s2 = s1.push(Step::Drive { pin: Pin::En, state: PinState::Low });
    let s3 = s2.push(Step::Drive { pin: Pin::Rw, state: PinState::Low });
    let s4 = s3.push(Step::DelayUs { us: POWER_ON_DELAY_US });
    lemma_one_more(w, none, Step::Drive { pin: Pin::Rs, state: PinState::Low });
    lemma_one_more(w, s1, Step::Drive { pin: Pin::En, state: PinState::Low });
    lemma_one_more(w, s2, Step::Drive { pin: Pin::Rw, state: PinState::Low });
    lemma_one_more(w, s3, Step::DelayUs { us: POWER_ON_DELAY_US });
    assert(power_on_steps() =~= s4);
    assert(transfers(w, none) =~= Seq::<Transfer>::empty());
    assert(received(w, power_on_steps()) =~= Seq::<Nibble>::empty());
}

/// From power-on with enable low, initialization reaches the controller as
/// the wake-up handshake followed by exactly four instructions, in this
/// order: function set with the geometry in its low bits, display control
/// with everything switched off, clear, and entry mode set with the entry
/// flags in its low bits.
pub proof fn lemma_init_delivered(w: Wires, lines: Lines, entry: EntryFlags)
    requires
        !w.en,
    ensures
        received(w, init_steps::<HalfWidthBus>(lines, entry)) == seq![
            Nibble { rs: false, value: 0b0011 },
            Nibble { rs: false, value: 0b0011 },
            Nibble { rs: false, value: 0b0011 },
            Nibble { rs: false, value: 0b0010 },
        ] + byte_nibbles(false, 0b0010_0000u8 | lines.bits()) + byte_nibbles(false, 0b0000_1000)
            + byte_nibbles(false, 0b0000_0001) + byte_nibbles(
            false,
            0b0000_0100u8 | EntryMode::encode(entry),
        ),
{
    let power = power_on_steps();
    let reset = half_reset_steps();
    let function = command_steps::<LcdPinConfiguration<HalfWidthBus>>(
        Command::FunctionSet.code() | function_set_bits(HalfWidthBus::width_tag(), lines),
    );
    let off = DisplayFlags { display_on: false, cursor: false, blink: false };
    let display = display_control_steps::<LcdPinConfiguration<HalfWidthBus>>(off);
    let clear = clear_steps::<LcdPinConfiguration<HalfWidthBus>>();
    let mode = entry_mode_steps::<LcdPinConfiguration<HalfWidthBus>>(entry);
    let i1 = power;
    let i2 = i1 + reset;
    let i3 = i2 + function;
    let i4 = i3 + display;
    let i5 = i4 + clear;
    lemma_power_on_delivered(w);
    lemma_reset_delivered(after(w, i1));
    lemma_received_in_turn(w, i1, reset);
    lemma_command_delivered(
        after(w, i2),
        Command::FunctionSet.code() | function_set_bits(HalfWidthBus::width_tag(), lines),
    );
    lemma_received_in_turn(w, i2, function);
    lemma_command_delivered(
        after(w, i3),
        Command::DisplayControl.code() | DisplayControl::encode(off),
    );
    lemma_received_in_turn(w, i3, display);
    lemma_clear_and_home_delivered(after(w, i4));
    lemma_received_in_turn(w, i4, clear);
    lemma_command_delivered(after(w, i5), Command::EntryModeSet.code() | EntryMode::encode(entry));
    lemma_received_in_turn(w, i5, mode);
    let l = lines.bits();
    assert(0b0010_0000u8 | (0u8 | l) == 0b0010_0000u8 | l) by (bit_vector);
    assert(0b0000_1000u8 | 0u8 == 0b0000_1000u8) by (bit_vector);
    assert(received(w, power) + received(after(w, i1), reset) =~= received(after(w, i1), reset));
}

} // verus!
