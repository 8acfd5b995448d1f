//! What the controller at the far end of the lines makes of a run of steps.
//!
//! The controller watches enable; on each falling edge it takes over the
//! register-select line and the data lines as they stand. Nothing in this
//! module is executable: it gives the steps of the other modules their
//! meaning and proves that they carry what they are meant to carry.

use vstd::prelude::*;
use embedded_hal::digital::v2::PinState;
use crate::bus::{
    bit, byte_steps, drive_bit, full_send_steps, half_send_steps, level, nibble_steps,
    pulse_steps, select_steps, Pin, Step,
};

verus! {

/// The levels of the lines that the controller reads. Bit `i` of `data` is
/// the level of line D`i`.
pub struct Wires {
    pub en: bool,
    pub rs: bool,
    pub data: u8,
}

/// What the controller takes over on one falling edge of enable.
pub struct Transfer {
    pub rs: bool,
    pub data: u8,
}

/// The number of the data line that `pin` is, if it is one.
pub open spec fn data_line(pin: Pin) -> Option<u8> {
    match pin {
        Pin::D0 => Some(0u8),
        Pin::D1 => Some(1u8),
        Pin::D2 => Some(2u8),
        Pin::D3 => Some(3u8),
        Pin::D4 => Some(4u8),
        Pin::D5 => Some(5u8),
        Pin::D6 => Some(6u8),
        Pin::D7 => Some(7u8),
        _ => None,
    }
}

/// `data` with line `index` put to `high`.
pub open spec fn with_line(data: u8, index: u8, high: bool) -> u8 {
    if high {
        data | (1u8 << index)
    } else {
        data & !(1u8 << index)
    }
}

/// The lines after one step.
pub open spec fn after_step(w: Wires, step: Step) -> Wires {
    match step {
        Step::DelayUs { us } => w,
        Step::Drive { pin, state } => {
            let high = state == PinState::High;
            match pin {
                Pin::En => Wires { en: high, ..w },
                Pin::Rs => Wires { rs: high, ..w },
                Pin::Rw => w,
                _ => Wires { data: with_line(w.data, data_line(pin)->0, high), ..w },
            }
        },
    }
}

/// Whether `step` is a falling edge of enable on lines that stand as `w`.
pub open spec fn latches(w: Wires, step: Step) -> bool {
    w.en && step == (Step::Drive { pin: Pin::En, state: PinState::Low })
}

/// The lines after all of `steps`, starting from `w`.
pub open spec fn after(w: Wires, steps: Seq<Step>) -> Wires
    decreases steps.len(),
{
    if steps.len() == 0 {
        w
    } else {
        after_step(after(w, steps.drop_last()), steps.last())
    }
}

/// What the controller takes over in the course of `steps`, starting from
/// lines that stand as `w`.
pub open spec fn transfers(w: Wires, steps: Seq<Step>) -> Seq<Transfer>
    decreases steps.len(),
{
    if steps.len() == 0 {
        Seq::empty()
    } else {
        let before = after(w, steps.drop_last());
        let earlier = transfers(w, steps.drop_last());
        if latches(before, steps.last()) {
            earlier.push(Transfer { rs: before.rs, data: before.data })
        } else {
            earlier
        }
    }
}

/// One more step at the end changes the lines by that step and adds a
/// transfer exactly if the step is a falling edge.
pub proof fn lemma_one_more(w: Wires, steps: Seq<Step>, step: Step)
    ensures
        after(w, steps.push(step)) == after_step(after(w, steps), step),
        transfers(w, steps.push(step)) == if latches(after(w, steps), step) {
            transfers(w, steps).push(Transfer { rs: after(w, steps).rs, data: after(w, steps).data })
        } else {
            transfers(w, steps)
        },
{
    assert(steps.push(step).drop_last() =~= steps);
}

/// Steps played one run after the other: the second run starts from the
/// lines that the first one leaves, and the transfers follow each other.
pub proof fn lemma_one_run_after_another(w: Wires, first: Seq<Step>, second: Seq<Step>)
    ensures
        after(w, first + second) == after(after(w, first), second),
        transfers(w, first + second) == transfers(w, first) + transfers(after(w, first), second),
    decreases second.len(),
{
    if second.len() == 0 {
        assert(first + second =~= first);
        assert(transfers(w, first) + Seq::<Transfer>::empty() =~= transfers(w, first));
    } else {
        let shorter = second.drop_last();
        lemma_one_run_after_another(w, first, shorter);
        assert((first + second).drop_last() =~= first + shorter);
        assert((first + second).last() == second.last());
        let mid = after(w, first);
        if latches(after(mid, shorter), second.last()) {
            assert((transfers(w, first) + transfers(mid, shorter)).push(
                Transfer { rs: after(mid, shorter).rs, data: after(mid, shorter).data },
            ) =~= transfers(w, first) + transfers(mid, second));
        }
    }
}

/// A strobe makes the controller take the lines over exactly once, as they
/// stand, and leaves enable low.
pub proof fn lemma_pulse(w: Wires)
    ensures
        transfers(w, pulse_steps()) == seq![Transfer { rs: w.rs, data: w.data }],
        after(w, pulse_steps()) == (Wires { en: false, ..w }),
{
    let up = Step::Drive { pin: Pin::En, state: PinState::High };
    let down = Step::Drive { pin: Pin::En, state: PinState::Low };
    let none = Seq::<Step>::empty();
    assert(pulse_steps() =~= none.push(up).push(down));
    lemma_one_more(w, none, up);
    lemma_one_more(w, none.push(up), down);
    assert(transfers(w, pulse_steps()) =~= seq![Transfer { rs: w.rs, data: w.data }]);
}

/// `data` with its high four lines replaced by the low four bits of `value`.
pub open spec fn with_high_nibble(data: u8, value: u8) -> u8 {
    (data & 0x0f) | ((value & 0x0f) << 4)
}

proof fn lemma_four_lines(data: u8, value: u8)
    by (bit_vector)
    ensures
        with_line(
            with_line(with_line(with_line(data, 4, bit(value, 0)), 5, bit(value, 1)), 6, bit(value, 2)),
            7,
            bit(value, 3),
        ) == with_high_nibble(data, value),
{
}

proof fn lemma_eight_lines(data: u8, value: u8)
    by (bit_vector)
    ensures
        with_line(
            with_line(
                with_line(
                    with_line(
                        with_line(
                            with_line(
                                with_line(with_line(data, 0, bit(value, 0)), 1, bit(value, 1)),
                                2,
                                bit(value, 2),
                            ),
                            3,
                            bit(value, 3),
                        ),
                        4,
                        bit(value, 4),
                    ),
                    5,
                    bit(value, 5),
                ),
                6,
                bit(value, 6),
            ),
            7,
            bit(value, 7),
        ) == value,
{
}

/// Putting one bit on a data line changes that line alone and is no
/// transfer.
proof fn lemma_one_more_bit(w: Wires, steps: Seq<Step>, pin: Pin, value: u8, index: u8)
    requires
        data_line(pin) is Some,
    ensures
        after(w, steps.push(drive_bit(pin, value, index))) == (Wires {
            data: with_line(after(w, steps).data, data_line(pin)->0, bit(value, index)),
            ..after(w, steps)
        }),
        transfers(w, steps.push(drive_bit(pin, value, index))) == transfers(w, steps),
{
    lemma_one_more(w, steps, drive_bit(pin, value, index));
}

/// One cycle of the four-line bus makes the controller take over, once, the
/// low four bits of `value` on D4..D7, with register select and D0..D3 as
/// they stood.
pub proof fn lemma_nibble_cycle(w: Wires, value: u8)
    ensures
        transfers(w, nibble_steps(value)) == seq![
            Transfer { rs: w.rs, data: with_high_nibble(w.data, value) },
        ],
        after(w, nibble_steps(value)) == (Wires {
            en: false,
            rs: w.rs,
            data: with_high_nibble(w.data, value),
        }),
{
    let none = Seq::<Step>::empty();
    let s1 = none.push(drive_bit(Pin::D4, value, 0));
    let s2 = s1.push(drive_bit(Pin::D5, value, 1));
    let s3 = s2.push(drive_bit(Pin::D6, value, 2));
    let s4 = s3.push(drive_bit(Pin::D7, value, 3));
    lemma_one_more_bit(w, none, Pin::D4, value, 0);
    lemma_one_more_bit(w, s1, Pin::D5, value, 1);
    lemma_one_more_bit(w, s2, Pin::D6, value, 2);
    lemma_one_more_bit(w, s3, Pin::D7, value, 3);
    lemma_four_lines(w.data, value);
    assert(nibble_steps(value) =~= s4 + pulse_steps());
    lemma_one_run_after_another(w, s4, pulse_steps());
    lemma_pulse(after(w, s4));
    assert(transfers(w, none) =~= Seq::<Transfer>::empty());
    assert(transfers(w, nibble_steps(value)) =~= seq![
        Transfer { rs: w.rs, data: with_high_nibble(w.data, value) },
    ]);
}

/// One cycle of the eight-line bus makes the controller take over, once,
/// all of `value`, with register select as it stood.
pub proof fn lemma_byte_cycle(w: Wires, value: u8)
    ensures
        transfers(w, byte_steps(value)) == seq![Transfer { rs: w.rs, data: value }],
        after(w, byte_steps(value)) == (Wires { en: false, rs: w.rs, data: value }),
{
    let none = Seq::<Step>::empty();
    let s1 = none.push(drive_bit(Pin::D0, value, 0));
    let s2 = s1.push(drive_bit(Pin::D1, value, 1));
    let s3 = s2.push(drive_bit(Pin::D2, value, 2));
    let s4 = s3.push(drive_bit(Pin::D3, value, 3));
    let s5 = s4.push(drive_bit(Pin::D4, value, 4));
    let s6 = s5.push(drive_bit(Pin::D5, value, 5));
    let s7 = s6.push(drive_bit(Pin::D6, value, 6));
    let s8 = s7.push(drive_bit(Pin::D7, value, 7));
    lemma_one_more_bit(w, none, Pin::D0, value, 0);
    lemma_one_more_bit(w, s1, Pin::D1, value, 1);
    lemma_one_more_bit(w, s2, Pin::D2, value, 2);
    lemma_one_more_bit(w, s3, Pin::D3, value, 3);
    lemma_one_more_bit(w, s4, Pin::D4, value, 4);
    lemma_one_more_bit(w, s5, Pin::D5, value, 5);
    lemma_one_more_bit(w, s6, Pin::D6, value, 6);
    lemma_one_more_bit(w, s7, Pin::D7, value, 7);
    lemma_eight_lines(w.data, value);
    assert(byte_steps(value) =~= s8 + pulse_steps());
    lemma_one_run_after_another(w, s8, pulse_steps());
    lemma_pulse(after(w, s8));
    assert(transfers(w, none) =~= Seq::<Transfer>::empty());
    assert(transfers(w, byte_steps(value)) =~= seq![Transfer { rs: w.rs, data: value }]);
}

/// The byte that a controller on four lines puts together from the data
/// lines of two transfers in a row: D7..D4 of the first above D7..D4 of the
/// second.
pub open spec fn joined(first: u8, second: u8) -> u8 {
    (first & 0xf0) | (second >> 4)
}

proof fn lemma_nibbles_join(data: u8, byte: u8)
    by (bit_vector)
    ensures
        joined(with_high_nibble(data, byte >> 4), with_high_nibble(data, byte)) == byte,
        with_high_nibble(with_high_nibble(data, byte >> 4), byte) == with_high_nibble(data, byte),
        with_high_nibble(data, byte >> 4) >> 4 == byte >> 4,
        with_high_nibble(data, byte) >> 4 == byte & 0x0f,
{
}

/// Selecting the register is no transfer and moves register select alone.
pub proof fn lemma_select(w: Wires, mode: bool)
    ensures
        transfers(w, select_steps(mode)) == Seq::<Transfer>::empty(),
        after(w, select_steps(mode)) == (Wires { rs: mode, ..w }),
{
    let none = Seq::<Step>::empty();
    lemma_one_more(w, none, Step::Drive { pin: Pin::Rs, state: level(mode) });
    assert(transfers(w, none) =~= Seq::<Transfer>::empty());
}

/// Waiting is no transfer and moves no line.
pub proof fn lemma_delay(w: Wires, us: u32)
    ensures
        transfers(w, seq![Step::DelayUs { us }]) == Seq::<Transfer>::empty(),
        after(w, seq![Step::DelayUs { us }]) == w,
{
    let none = Seq::<Step>::empty();
    lemma_one_more(w, none, Step::DelayUs { us });
    assert(transfers(w, none) =~= Seq::<Transfer>::empty());
}

/// A byte sent over four lines reaches the controller as two transfers to
/// the register that `mode` selects: first the high nibble on D7..D4, then
/// the low nibble; put together they are `byte`. D3..D0 stay as they stood.
pub proof fn lemma_half_send(w: Wires, byte: u8, mode: bool)
    ensures
        transfers(w, half_send_steps(byte, mode)) == seq![
            Transfer { rs: mode, data: with_high_nibble(w.data, byte >> 4) },
            Transfer { rs: mode, data: with_high_nibble(w.data, byte) },
        ],
        joined(with_high_nibble(w.data, byte >> 4), with_high_nibble(w.data, byte)) == byte,
        after(w, half_send_steps(byte, mode)) == (Wires {
            en: false,
            rs: mode,
            data: with_high_nibble(w.data, byte),
        }),
{
    let select = select_steps(mode);
    let high = nibble_steps(byte >> 4);
    let low = nibble_steps(byte);
    let w1 = Wires { rs: mode, ..w };
    lemma_select(w, mode);
    lemma_nibble_cycle(w1, byte >> 4);
    let w2 = after(w1, high);
    lemma_nibble_cycle(w2, byte);
    lemma_nibbles_join(w.data, byte);
    lemma_one_run_after_another(w, select, high);
    lemma_one_run_after_another(w, select + high, low);
    assert(transfers(w, half_send_steps(byte, mode)) =~= seq![
        Transfer { rs: mode, data: with_high_nibble(w.data, byte >> 4) },
        Transfer { rs: mode, data: with_high_nibble(w.data, byte) },
    ]);
}

/// A byte sent over eight lines reaches the controller as one transfer of
/// `byte` to the register that `mode` selects.
pub proof fn lemma_full_send(w: Wires, byte: u8, mode: bool)
    ensures
        transfers(w, full_send_steps(byte, mode)) == seq![Transfer { rs: mode, data: byte }],
        after(w, full_send_steps(byte, mode)) == (Wires { en: false, rs: mode, data: byte }),
{
    let w1 = Wires { rs: mode, ..w };
    lemma_select(w, mode);
    lemma_byte_cycle(w1, byte);
    lemma_one_run_after_another(w, select_steps(mode), byte_steps(byte));
    assert(transfers(w, full_send_steps(byte, mode)) =~= seq![Transfer { rs: mode, data: byte }]);
}

/// What a controller wired with four data lines reads on one falling edge
/// of enable: register select and D7..D4.
pub struct Nibble {
    pub rs: bool,
    pub value: u8,
}

/// What a controller wired with four data lines reads in the course of
/// `steps`, starting from lines that stand as `w`.
pub open spec fn received(w: Wires, steps: Seq<Step>) -> Seq<Nibble> {
    transfers(w, steps).map_values(|t: Transfer| Nibble { rs: t.rs, value: t.data >> 4 })
}

/// The two nibbles that make up `byte` on its way to the register that `rs`
/// selects, high one first.
pub open spec fn byte_nibbles(rs: bool, byte: u8) -> Seq<Nibble> {
    seq![Nibble { rs, value: byte >> 4 }, Nibble { rs, value: byte & 0x0f }]
}

/// The nibbles that make up all of `bytes`, first byte first.
pub open spec fn bytes_nibbles(rs: bool, bytes: Seq<u8>) -> Seq<Nibble>
    decreases bytes.len(),
{
    if bytes.len() == 0 {
        Seq::empty()
    } else {
        bytes_nibbles(rs, bytes.drop_last()) + byte_nibbles(rs, bytes.last())
    }
}

/// What is read over two runs of steps is what is read over the first,
/// followed by what is read over the second from where the first left the
/// lines.
pub proof fn lemma_received_in_turn(w: Wires, first: Seq<Step>, second: Seq<Step>)
    ensures
        received(w, first + second) == received(w, first) + received(after(w, first), second),
        after(w, first + second) == after(after(w, first), second),
{
    lemma_one_run_after_another(w, first, second);
    assert(received(w, first + second) =~= received(w, first) + received(
        after(w, first),
        second,
    ));
}

/// A byte sent over four lines and the wait that follows it: the controller
/// reads the byte's two nibbles, high one first, for the register that
/// `mode` selects, wherever the lines stood before.
pub proof fn lemma_half_byte_received(w: Wires, byte: u8, mode: bool, us: u32)
    ensures
        received(w, half_send_steps(byte, mode) + seq![Step::DelayUs { us }]) == byte_nibbles(
            mode,
            byte,
        ),
        after(w, half_send_steps(byte, mode) + seq![Step::DelayUs { us }]).rs == mode,
        !after(w, half_send_steps(byte, mode) + seq![Step::DelayUs { us }]).en,
{
    let send = half_send_steps(byte, mode);
    let wait = seq![Step::DelayUs { us }];
    lemma_half_send(w, byte, mode);
    lemma_delay(after(w, send), us);
    lemma_received_in_turn(w, send, wait);
    lemma_nibbles_join(w.data, byte);
    assert(received(w, send) =~= byte_nibbles(mode, byte));
    assert(received(after(w, send), wait) =~= Seq::<Nibble>::empty());
    assert(received(w, send + wait) =~= byte_nibbles(mode, byte));
}

} // verus!
