//! The output lines of the parallel bus and the transitions that carry one
//! nibble or byte across them.

use vstd::prelude::*;
use embedded_hal::digital::v2::PinState;
use crate::config::Lines;

verus! {

/// `embedded_hal::digital::v2::PinState`, taken with the two variants that
/// the crate gives it: `Low` and `High`.
#[verifier::external_type_specification]
pub struct ExPinState(PinState);

/// One of the output lines between the host and the controller.
#[derive(Clone, Copy, Debug, PartialEq, Eq, Structural)]
pub enum Pin {
    /// Enable: the controller latches the bus on its falling edge.
    En,
    /// Register select: low for instructions, high for display data.
    Rs,
    /// Read/write select: held low, the bus is only ever written.
    Rw,
    D0,
    D1,
    D2,
    D3,
    D4,
    D5,
    D6,
    D7,
}

/// One thing the host has to do, in order, to carry out an operation.
#[derive(Clone, Copy, Debug, PartialEq, Eq)]
pub enum Step {
    /// Drive `pin` to `state`.
    Drive { pin: Pin, state: PinState },
    /// Leave the lines alone for at least `us` microseconds.
    DelayUs { us: u32 },
}

/// The level that stands for a bit: high for one, low for zero.
pub open spec fn level(v: bool) -> PinState {
    if v {
        PinState::High
    } else {
        PinState::Low
    }
}

/// The level that puts bit `v` on a line.
pub fn pin_state(v: bool) -> (r: PinState)
    ensures
        r == level(v),
{
    match v {
        true => PinState::High,
        false => PinState::Low,
    }
}

/// Bit `index` of `byte`, counted from the least significant one.
pub open spec fn bit(byte: u8, index: u8) -> bool {
    (byte >> index) & 1 == 1
}

/// Driving `pin` to the level of bit `index` of `byte`.
pub open spec fn drive_bit(pin: Pin, byte: u8, index: u8) -> Step {
    Step::Drive { pin, state: level(bit(byte, index)) }
}

/// Enable high, then low: the edge on which the controller latches the bus.
pub open spec fn pulse_steps() -> Seq<Step> {
    seq![
        Step::Drive { pin: Pin::En, state: PinState::High },
        Step::Drive { pin: Pin::En, state: PinState::Low },
    ]
}

/// One cycle of the four-line bus: the low four bits of `byte` on D4..D7,
/// least significant first, then the strobe.
pub open spec fn nibble_steps(byte: u8) -> Seq<Step> {
    seq![
        drive_bit(Pin::D4, byte, 0),
        drive_bit(Pin::D5, byte, 1),
        drive_bit(Pin::D6, byte, 2),
        drive_bit(Pin::D7, byte, 3),
    ] + pulse_steps()
}

/// One cycle of the eight-line bus: all of `byte` on D0..D7, least
/// significant first, then the strobe.
pub open spec fn byte_steps(byte: u8) -> Seq<Step> {
    seq![
        drive_bit(Pin::D0, byte, 0),
        drive_bit(Pin::D1, byte, 1),
        drive_bit(Pin::D2, byte, 2),
        drive_bit(Pin::D3, byte, 3),
        drive_bit(Pin::D4, byte, 4),
        drive_bit(Pin::D5, byte, 5),
        drive_bit(Pin::D6, byte, 6),
        drive_bit(Pin::D7, byte, 7),
    ] + pulse_steps()
}

/// Bit of the function-set operand that announces an eight-line bus.
pub const FULL_WIDTH_BUS: u8 = 0b0001_0000;

/// The operand of the function-set instruction for a bus whose width bit is
/// `width_tag` and a panel of geometry `lines`.
pub open spec fn function_set_bits(width_tag: u8, lines: Lines) -> u8 {
    width_tag | lines.bits()
}

/// The four data lines D4..D7 of a controller wired in 4-bit mode.
#[derive(Clone, Copy, Debug, PartialEq, Eq, Structural)]
pub struct HalfWidthBus;

/// The eight data lines D0..D7 of a controller wired in 8-bit mode.
#[derive(Clone, Copy, Debug, PartialEq, Eq, Structural)]
pub struct FullWidthBus;

/// The width of a data bus, as far as the function-set instruction cares.
pub trait Bus {
    /// The width bit of the function-set operand: set for eight lines.
    spec fn width_tag() -> u8;

    /// The operand of the function-set instruction for this bus and `lines`.
    fn function_set(lines: Lines) -> (r: u8)
        ensures
            r == function_set_bits(Self::width_tag(), lines),
    ;
}

impl Bus for HalfWidthBus {
    open spec fn width_tag() -> u8 {
        0
    }

    fn function_set(lines: Lines) -> (r: u8) {
        let b: u8 = lines.bits();
        assert(b <= 0b1100 ==> b & !0b0001_0000u8 == 0u8 | b) by (bit_vector);
        b & !FULL_WIDTH_BUS
    }
}

impl Bus for FullWidthBus {
    open spec fn width_tag() -> u8 {
        FULL_WIDTH_BUS
    }

    fn function_set(lines: Lines) -> (r: u8) {
        let b: u8 = lines.bits();
        assert(b | 0b0001_0000u8 == 0b0001_0000u8 | b) by (bit_vector);
        b | FULL_WIDTH_BUS
    }
}

/// The function-set operand for every geometry on either bus: the geometry
/// bits alone on four lines, the geometry bits under the width bit on eight.
pub proof fn lemma_function_set_patterns(lines: Lines)
    ensures
        function_set_bits(HalfWidthBus::width_tag(), lines) == match lines {
            Lines::FourLines => 0b0_1100u8,
            Lines::TwoLines => 0b0_1000u8,
            Lines::OneLine5x10 => 0b0_0100u8,
            Lines::OneLine5x8 => 0b0_0000u8,
        },
        function_set_bits(FullWidthBus::width_tag(), lines) == match lines {
            Lines::FourLines => 0b1_1100u8,
            Lines::TwoLines => 0b1_1000u8,
            Lines::OneLine5x10 => 0b1_0100u8,
            Lines::OneLine5x8 => 0b1_0000u8,
        },
{
    assert(0u8 | 0b1100u8 == 0b1100u8 && 0u8 | 0b1000u8 == 0b1000u8 && 0u8 | 0b0100u8 == 0b0100u8
        && 0u8 | 0u8 == 0u8) by (bit_vector);
    assert(0b1_0000u8 | 0b1100u8 == 0b1_1100u8 && 0b1_0000u8 | 0b1000u8 == 0b1_1000u8 && 0b1_0000u8
        | 0b0100u8 == 0b1_0100u8 && 0b1_0000u8 | 0u8 == 0b1_0000u8) by (bit_vector);
}

/// The line group of one display, as far as its steps depend on it: enable,
/// register select and read/write select are the same on every board, the
/// data bus is a `B`.
#[derive(Debug, PartialEq, Eq)]
pub struct LcdPinConfiguration<B: Bus> {
    pub bus: B,
}

impl<B: Bus> LcdPinConfiguration<B> {
    /// Strobes the enable line.
    pub fn pulse(&self, out: &mut Vec<Step>)
        ensures
            final(out)@ == old(out)@ + pulse_steps(),
    {
        out.push(Step::Drive { pin: Pin::En, state: PinState::High });
        out.push(Step::Drive { pin: Pin::En, state: PinState::Low });
        assert(out@ =~= old(out)@ + pulse_steps());
    }
}

impl LcdPinConfiguration<HalfWidthBus> {
    /// Presents the low nibble of `byte` on the data lines and strobes.
    pub fn update(&self, byte: u8, out: &mut Vec<Step>)
        ensures
            final(out)@ == old(out)@ + nibble_steps(byte),
    {
        let mut rest: u8 = byte;
        out.push(Step::Drive { pin: Pin::D4, state: pin_state(rest & 1 == 1) });
        rest = rest >> 1;
        out.push(Step::Drive { pin: Pin::D5, state: pin_state(rest & 1 == 1) });
        rest = rest >> 1;
        out.push(Step::Drive { pin: Pin::D6, state: pin_state(rest & 1 == 1) });
        rest = rest >> 1;
        out.push(Step::Drive { pin: Pin::D7, state: pin_state(rest & 1 == 1) });
        let ghost mid = out@;
        self.pulse(out);
        proof {
            assert(byte >> 0 == byte && (byte >> 1) >> 1 == byte >> 2 && ((byte >> 1) >> 1) >> 1
                == byte >> 3) by (bit_vector);
            assert(mid =~= old(out)@ + seq![
                drive_bit(Pin::D4, byte, 0),
                drive_bit(Pin::D5, byte, 1),
                drive_bit(Pin::D6, byte, 2),
                drive_bit(Pin::D7, byte, 3),
            ]);
            assert(out@ =~= old(out)@ + nibble_steps(byte));
        }
    }
}

impl LcdPinConfiguration<FullWidthBus> {
    /// Presents all of `byte` on the data lines and strobes.
    pub fn update(&self, byte: u8, out: &mut Vec<Step>)
        ensures
            final(out)@ == old(out)@ + byte_steps(byte),
    {
        let mut rest: u8 = byte;
        out.push(Step::Drive { pin: Pin::D0, state: pin_state(rest & 1 == 1) });
        rest = rest >> 1;
        out.push(Step::Drive { pin: Pin::D1, state: pin_state(rest & 1 == 1) });
        rest = rest >> 1;
        out.push(Step::Drive { pin: Pin::D2, state: pin_state(rest & 1 == 1) });
        rest = rest >> 1;
        out.push(Step::Drive { pin: Pin::D3, state: pin_state(rest & 1 == 1) });
        rest = rest >> 1;
        out.push(Step::Drive { pin: Pin::D4, state: pin_state(rest & 1 == 1) });
        rest = rest >> 1;
        out.push(Step::Drive { pin: Pin::D5, state: pin_state(rest & 1 == 1) });
        rest = rest >> 1;
        out.push(Step::Drive { pin: Pin::D6, state: pin_state(rest & 1 == 1) });
        rest = rest >> 1;
        out.push(Step::Drive { pin: Pin::D7, state: pin_state(rest & 1 == 1) });
        let ghost mid = out@;
        self.pulse(out);
        proof {
            assert(byte >> 0 == byte && (byte >> 1) >> 1 == byte >> 2 && ((byte >> 1) >> 1) >> 1
                == byte >> 3 && (((byte >> 1) >> 1) >> 1) >> 1 == byte >> 4) by (bit_vector);
            assert((byte >> 4) >> 1 == byte >> 5 && ((byte >> 4) >> 1) >> 1 == byte >> 6 && (((byte
                >> 4) >> 1) >> 1) >> 1 == byte >> 7) by (bit_vector);
            assert(mid =~= old(out)@ + seq![
                drive_bit(Pin::D0, byte, 0),
                drive_bit(Pin::D1, byte, 1),
                drive_bit(Pin::D2, byte, 2),
                drive_bit(Pin::D3, byte, 3),
                drive_bit(Pin::D4, byte, 4),
                drive_bit(Pin::D5, byte, 5),
                drive_bit(Pin::D6, byte, 6),
                drive_bit(Pin::D7, byte, 7),
            ]);
            assert(out@ =~= old(out)@ + byte_steps(byte));
        }
    }
}

/// Selecting the register: high for display data, low for instructions.
pub open spec fn select_steps(mode: bool) -> Seq<Step> {
    seq![Step::Drive { pin: Pin::Rs, state: level(mode) }]
}

/// One byte over the four-line bus: register select, then the high nibble,
/// then the low nibble.
pub open spec fn half_send_steps(byte: u8, mode: bool) -> Seq<Step> {
    select_steps(mode) + nibble_steps(byte >> 4) + nibble_steps(byte)
}

/// One byte over the eight-line bus: register select, then the byte.
pub open spec fn full_send_steps(byte: u8, mode: bool) -> Seq<Step> {
    select_steps(mode) + byte_steps(byte)
}

/// A line group that can carry a whole byte to the controller.
pub trait BusSend {
    /// The transitions that carry `byte` to the data register (`mode` high)
    /// or to the instruction register (`mode` low).
    spec fn send_steps(byte: u8, mode: bool) -> Seq<Step>;

    /// Appends the transitions that carry `byte` to the register that `mode`
    /// selects.
    fn send(&self, byte: u8, mode: bool, out: &mut Vec<Step>)
        ensures
            final(out)@ == old(out)@ + Self::send_steps(byte, mode),
    ;

    /// Appends the transitions that carry the instruction `byte`, with no
    /// settle time after them.
    fn command_nodelay(&self, byte: u8, out: &mut Vec<Step>)
        ensures
            final(out)@ == old(out)@ + Self::send_steps(byte, false),
    {
        self.send(byte, false, out)
    }
}

impl BusSend for LcdPinConfiguration<HalfWidthBus> {
    open spec fn send_steps(byte: u8, mode: bool) -> Seq<Step> {
        half_send_steps(byte, mode)
    }

    fn send(&self, byte: u8, mode: bool, out: &mut Vec<Step>) {
        out.push(Step::Drive { pin: Pin::Rs, state: pin_state(mode) });
        self.update(byte >> 4, out);
        self.update(byte, out);
        assert(out@ =~= old(out)@ + half_send_steps(byte, mode));
    }
}

impl BusSend for LcdPinConfiguration<FullWidthBus> {
    open spec fn send_steps(byte: u8, mode: bool) -> Seq<Step> {
        full_send_steps(byte, mode)
    }

    fn send(&self, byte: u8, mode: bool, out: &mut Vec<Step>) {
        out.push(Step::Drive { pin: Pin::Rs, state: pin_state(mode) });
        self.update(byte, out);
        assert(out@ =~= old(out)@ + full_send_steps(byte, mode));
    }
}

} // verus!
