//! The controller protocol: which transitions and settle times make up each
//! operation, for a host that plays them without blocking on a busy flag.

use vstd::prelude::*;
use embedded_hal::digital::v2::PinState;
use embedded_io_async::{ErrorKind, SeekFrom};
use crate::bus::{
    function_set_bits, nibble_steps, pulse_steps, Bus, BusSend, HalfWidthBus, LcdPinConfiguration,
    Pin, Step,
};
use crate::config::{Command, DisplayControl, DisplayFlags, EntryFlags, EntryMode, Lines};
use crate::error::LcdIOError;
use vstd::arithmetic::div_mod::{
    lemma_add_mod_noop_right, lemma_fundamental_div_mod, lemma_fundamental_div_mod_converse_mod,
    lemma_mod_bound, lemma_mod_pos_bound, lemma_small_mod,
};

verus! {

/// `embedded_io::SeekFrom`, taken with the three variants that the crate
/// gives it: `Start(u64)`, `End(i64)` and `Current(i64)`.
#[verifier::external_type_specification]
pub struct ExSeekFrom(SeekFrom);

/// Settle time after power-on before the first instruction, in microseconds.
pub const POWER_ON_DELAY_US: u32 = 15000;

/// Settle time after each of the first two wake-up strobes.
pub const WAKE_DELAY_US: u32 = 4100;

/// Settle time after the third wake-up strobe.
pub const WAKE_LAST_DELAY_US: u32 = 37;

/// Settle time after an ordinary instruction.
pub const COMMAND_DELAY_US: u32 = 50;

/// Settle time after clearing the display or returning home.
pub const LONG_COMMAND_DELAY_US: u32 = 1520;

/// Settle time after writing one character.
pub const WRITE_DELAY_US: u32 = 41;

/// Number of positions in the controller's display-RAM window.
pub const ADDRESS_SPACE: u64 = 80;

/// A settle time of `us` microseconds.
pub open spec fn delay_steps(us: u32) -> Seq<Step> {
    seq![Step::DelayUs { us }]
}

/// An instruction followed by the ordinary settle time.
pub open spec fn command_steps<S: BusSend>(command: u8) -> Seq<Step> {
    S::send_steps(command, false) + delay_steps(COMMAND_DELAY_US)
}

/// The display-control instruction for `control`.
pub open spec fn display_control_steps<S: BusSend>(control: DisplayFlags) -> Seq<Step> {
    command_steps::<S>(Command::DisplayControl.code() | DisplayControl::encode(control))
}

/// The entry-mode instruction for `entry`.
pub open spec fn entry_mode_steps<S: BusSend>(entry: EntryFlags) -> Seq<Step> {
    command_steps::<S>(Command::EntryModeSet.code() | EntryMode::encode(entry))
}

/// The instruction that moves the address counter to `addr`.
pub open spec fn set_ram_addr_steps<S: BusSend>(addr: u8) -> Seq<Step> {
    command_steps::<S>(Command::SetDDRAMAddr.code() | addr)
}

/// Clearing the display, with the long settle time it needs.
pub open spec fn clear_steps<S: BusSend>() -> Seq<Step> {
    S::send_steps(Command::ClearDisplay.code(), false) + delay_steps(LONG_COMMAND_DELAY_US)
}

/// Returning the address counter to position 0, with the long settle time.
pub open spec fn home_steps<S: BusSend>() -> Seq<Step> {
    S::send_steps(Command::ReturnHome.code(), false) + delay_steps(LONG_COMMAND_DELAY_US)
}

/// One character to the data register, followed by its settle time.
pub open spec fn write_char_steps<S: BusSend>(c: u8) -> Seq<Step> {
    S::send_steps(c, true) + delay_steps(WRITE_DELAY_US)
}

/// The characters of `buf`, one after the other.
pub open spec fn write_steps<S: BusSend>(buf: Seq<u8>) -> Seq<Step>
    decreases buf.len(),
{
    if buf.len() == 0 {
        Seq::empty()
    } else {
        write_steps::<S>(buf.drop_last()) + write_char_steps::<S>(buf.last())
    }
}

/// The wake-up handshake of a controller wired with four data lines: the
/// 8-bit pattern latched three times, then the 4-bit pattern once.
pub open spec fn half_reset_steps() -> Seq<Step> {
    nibble_steps(0b0011) + delay_steps(WAKE_DELAY_US) + pulse_steps() + delay_steps(WAKE_DELAY_US)
        + pulse_steps() + delay_steps(WAKE_LAST_DELAY_US) + nibble_steps(0b0010)
}

/// The control lines pulled low, then the power-on settle time.
pub open spec fn power_on_steps() -> Seq<Step> {
    seq![
        Step::Drive { pin: Pin::Rs, state: PinState::Low },
        Step::Drive { pin: Pin::En, state: PinState::Low },
        Step::Drive { pin: Pin::Rw, state: PinState::Low },
        Step::DelayUs { us: POWER_ON_DELAY_US },
    ]
}

/// Everything between power-on and a ready display: the control lines low,
/// the wake-up handshake, function set, display off, clear, entry mode.
pub open spec fn init_steps<B: Bus>(lines: Lines, entry: EntryFlags) -> Seq<Step> where
    Lcd<B>: Reset,
    LcdPinConfiguration<B>: BusSend,
 {
    power_on_steps()
        + <Lcd<B> as Reset>::reset_steps()
        + command_steps::<LcdPinConfiguration<B>>(
            Command::FunctionSet.code() | function_set_bits(B::width_tag(), lines),
        )
        + display_control_steps::<LcdPinConfiguration<B>>(
            DisplayFlags { display_on: false, cursor: false, blink: false },
        )
        + clear_steps::<LcdPinConfiguration<B>>()
        + entry_mode_steps::<LcdPinConfiguration<B>>(entry)
}

/// The remainder of `v` by `m` that takes the sign of `v`.
pub open spec fn rem_toward_zero(v: int, m: int) -> int {
    if v >= 0 {
        v % m
    } else {
        -((-v) % m)
    }
}

/// The position that a seek request resolves to, if the controller alone can
/// resolve it: offsets from the start wrap at the window's size, offsets from
/// the end are reduced likewise and land in the window's second image.
pub open spec fn seek_target(pos: SeekFrom) -> Option<u64> {
    match pos {
        SeekFrom::Start(v) => Some(v % ADDRESS_SPACE),
        SeekFrom::End(v) => Some(
            (rem_toward_zero(v as int, ADDRESS_SPACE as int) + ADDRESS_SPACE) as u64,
        ),
        SeekFrom::Current(_) => None,
    }
}

/// Moving the address counter to `target`: the home instruction for
/// position 0, the address instruction for any other.
pub open spec fn seek_steps<S: BusSend>(target: u64) -> Seq<Step> {
    if target == 0 {
        home_steps::<S>()
    } else {
        set_ram_addr_steps::<S>(target as u8)
    }
}

/// The wake-up handshake that brings a controller into the mode its bus is
/// wired for.
pub trait Reset {
    /// The steps of the handshake.
    spec fn reset_steps() -> Seq<Step>;

    /// Appends the wake-up handshake.
    fn reset(&self, out: &mut Vec<Step>)
        ensures
            final(out)@ == old(out)@ + Self::reset_steps(),
    ;
}

/// A driver for one display whose data bus is a `B`.
///
/// The driver keeps no record of where the address counter stands: it is as
/// small as its line group. Use `seek` to change line and position.
pub struct Lcd<B: Bus> {
    pins: LcdPinConfiguration<B>,
}

impl<B: Bus> Lcd<B> {
    /// The line group that the driver was made for.
    pub closed spec fn pins(self) -> LcdPinConfiguration<B> {
        self.pins
    }
}

impl Reset for Lcd<HalfWidthBus> {
    open spec fn reset_steps() -> Seq<Step> {
        half_reset_steps()
    }

    fn reset(&self, out: &mut Vec<Step>) {
        self.pins.update(0b0011, out);
        out.push(Step::DelayUs { us: WAKE_DELAY_US });
        self.pins.pulse(out);
        out.push(Step::DelayUs { us: WAKE_DELAY_US });
        self.pins.pulse(out);
        out.push(Step::DelayUs { us: WAKE_LAST_DELAY_US });
        self.pins.update(0b0010, out);
        assert(out@ =~= old(out)@ + half_reset_steps());
    }
}

impl<B: Bus> Lcd<B> where Self: Reset, LcdPinConfiguration<B>: BusSend {
    /// Takes the line group of a display that has just been powered and
    /// appends everything that brings it to a cleared, switched-off display
    /// of geometry `lines` with entry mode `entry`.
    pub fn new(pins: LcdPinConfiguration<B>, lines: Lines, entry: EntryMode, out: &mut Vec<Step>)
        -> (lcd: Self)
        ensures
            lcd.pins() == pins,
            final(out)@ == old(out)@ + init_steps::<B>(lines, entry@),
    {
        let v = Lcd { pins };
        v.init(lines, entry, out);
        v
    }

    fn command(&self, command: u8, out: &mut Vec<Step>)
        ensures
            final(out)@ == old(out)@ + command_steps::<LcdPinConfiguration<B>>(command),
    {
        self.pins.command_nodelay(command, out);
        out.push(Step::DelayUs { us: COMMAND_DELAY_US });
        assert(out@ =~= old(out)@ + command_steps::<LcdPinConfiguration<B>>(command));
    }

    fn init(&self, lines: Lines, entry: EntryMode, out: &mut Vec<Step>)
        ensures
            final(out)@ == old(out)@ + init_steps::<B>(lines, entry@),
    {
        out.push(Step::Drive { pin: Pin::Rs, state: PinState::Low });
        out.push(Step::Drive { pin: Pin::En, state: PinState::Low });
        out.push(Step::Drive { pin: Pin::Rw, state: PinState::Low });
        out.push(Step::DelayUs { us: POWER_ON_DELAY_US });
        self.reset(out);
        self.command(Command::FunctionSet.code() | B::function_set(lines), out);
        let mut dc = DisplayControl::default();
        dc.set_display_on(false);
        self.display_control(dc, out);
        self.clear(out);
        self.entry_mode_set(entry, out);
        assert(out@ =~= old(out)@ + init_steps::<B>(lines, entry@));
    }

    fn set_ram_addr(&self, addr: u8, out: &mut Vec<Step>)
        ensures
            final(out)@ == old(out)@ + set_ram_addr_steps::<LcdPinConfiguration<B>>(addr),
    {
        self.command(Command::SetDDRAMAddr.code() | addr, out)
    }

    /// Appends the display-control instruction for `control`.
    pub fn display_control(&self, control: DisplayControl, out: &mut Vec<Step>)
        ensures
            final(out)@ == old(out)@ + display_control_steps::<LcdPinConfiguration<B>>(control@),
    {
        self.command(Command::DisplayControl.code() | control.bits(), out)
    }

    /// Appends the entry-mode instruction for `entry`.
    pub fn entry_mode_set(&self, entry: EntryMode, out: &mut Vec<Step>)
        ensures
            final(out)@ == old(out)@ + entry_mode_steps::<LcdPinConfiguration<B>>(entry@),
    {
        self.command(Command::EntryModeSet.code() | entry.bits(), out)
    }

    /// Appends the instruction that blanks the display and returns the
    /// address counter to position 0.
    pub fn clear(&self, out: &mut Vec<Step>)
        ensures
            final(out)@ == old(out)@ + clear_steps::<LcdPinConfiguration<B>>(),
    {
        self.pins.command_nodelay(Command::ClearDisplay.code(), out);
        out.push(Step::DelayUs { us: LONG_COMMAND_DELAY_US });
        assert(out@ =~= old(out)@ + clear_steps::<LcdPinConfiguration<B>>());
    }

    /// Appends the instruction that returns the address counter to position
    /// 0 and leaves the display's contents alone.
    pub fn home(&self, out: &mut Vec<Step>)
        ensures
            final(out)@ == old(out)@ + home_steps::<LcdPinConfiguration<B>>(),
    {
        self.pins.command_nodelay(Command::ReturnHome.code(), out);
        out.push(Step::DelayUs { us: LONG_COMMAND_DELAY_US });
        assert(out@ =~= old(out)@ + home_steps::<LcdPinConfiguration<B>>());
    }

    /// Appends the write of character `c` at the address counter.
    pub fn write_char(&self, c: u8, out: &mut Vec<Step>)
        ensures
            final(out)@ == old(out)@ + write_char_steps::<LcdPinConfiguration<B>>(c),
    {
        self.pins.send(c, true, out);
        out.push(Step::DelayUs { us: WRITE_DELAY_US });
        assert(out@ =~= old(out)@ + write_char_steps::<LcdPinConfiguration<B>>(c));
    }

    /// Appends the display-control instruction for `control`.
    pub fn set_display_control(&self, control: DisplayControl, out: &mut Vec<Step>)
        ensures
            final(out)@ == old(out)@ + display_control_steps::<LcdPinConfiguration<B>>(control@),
    {
        self.command(Command::DisplayControl.code() | control.bits(), out)
    }

    /// Appends the writes of all of `buf`, first byte first, and returns how
    /// many bytes that is.
    pub fn write(&self, buf: &[u8], out: &mut Vec<Step>) -> (wrote: usize)
        ensures
            wrote == buf@.len(),
            final(out)@ == old(out)@ + write_steps::<LcdPinConfiguration<B>>(buf@),
    {
        let mut i: usize = 0;
        while i < buf.len()
            invariant
                i <= buf@.len(),
                out@ == old(out)@ + write_steps::<LcdPinConfiguration<B>>(buf@.take(i as int)),
            decreases buf@.len() - i,
        {
            self.write_char(buf[i], out);
            proof {
                let next = buf@.take(i + 1);
                assert(next.drop_last() =~= buf@.take(i as int));
                assert(next.last() == buf@[i as int]);
                assert(out@ =~= old(out)@ + write_steps::<LcdPinConfiguration<B>>(next));
            }
            i = i + 1;
        }
        assert(buf@.take(i as int) =~= buf@);
        buf.len()
    }

    /// Resolves `pos` and appends the instruction that moves the address
    /// counter there; returns the position. A request relative to the current
    /// position is refused as unsupported, with nothing appended: the driver
    /// keeps no record of where the counter stands.
    pub fn seek<T>(&self, pos: SeekFrom, out: &mut Vec<Step>) -> (r: Result<u64, LcdIOError<T>>)
        ensures
            match seek_target(pos) {
                Some(target) => r == Ok::<u64, LcdIOError<T>>(target) && final(out)@ == old(out)@
                    + seek_steps::<LcdPinConfiguration<B>>(target),
                None => r == Err::<u64, LcdIOError<T>>(LcdIOError(None, ErrorKind::Unsupported))
                    && final(out)@ == old(out)@,
            },
    {
        let v: u64 = match pos {
            SeekFrom::Start(v) => v % ADDRESS_SPACE,
            SeekFrom::End(v) => {
                let m: i64 = v % (ADDRESS_SPACE as i64);
                (m + ADDRESS_SPACE as i64) as u64
            },
            SeekFrom::Current(_) => {
                return Err(LcdIOError(None, ErrorKind::Unsupported));
            },
        };
        if v == 0 {
            self.home(out);
            return Ok(0);
        }
        self.set_ram_addr(v as u8, out);
        Ok(v)
    }
}

/// Where the address counter stands after `wrote` more bytes went out from
/// `position`, in a window of `size` positions.
pub open spec fn advanced(position: u8, wrote: nat, size: u8) -> u8 {
    ((position + wrote) % (size as int)) as u8
}

/// The position that lies `offset` away from `position` in a window of `size`
/// positions that wraps at both ends.
pub open spec fn relative_target(position: u8, offset: int, size: u8) -> u8 {
    ((position + offset) % (size as int)) as u8
}

/// The low byte of a position that an inner seek reported.
pub open spec fn adopted(reported: u64) -> u8 {
    (reported % 256) as u8
}

/// Bookkeeping that mirrors the address counter of a display of `SIZE`
/// positions, for a host that routes every write and seek through it.
#[derive(Clone, Copy, Debug, PartialEq, Eq)]
pub struct TrackPosition<const SIZE: u8> {
    position: u8,
}

impl<const SIZE: u8> TrackPosition<SIZE> {
    #[verifier::type_invariant]
    closed spec fn window_not_empty(self) -> bool {
        SIZE > 0
    }

    pub closed spec fn position_spec(self) -> u8 {
        self.position
    }

    /// Bookkeeping for a display whose address counter stands at position 0,
    /// as it does after initialization.
    pub fn new() -> (r: Self)
        requires
            SIZE > 0,
        ensures
            r.position() == 0,
    {
        TrackPosition { position: 0 }
    }

    /// The position at which the address counter is believed to stand.
    #[verifier::when_used_as_spec(position_spec)]
    pub fn position(self) -> (r: u8)
        ensures
            r == self.position_spec(),
    {
        self.position
    }

    /// Takes note of what a write to the display reported: after `Ok(n)` the
    /// counter has moved on by `n`, wrapping at `SIZE`; after an error it is
    /// taken to stand where it stood. Hands the report on unchanged.
    pub fn write<E>(&mut self, written: Result<usize, E>) -> (r: Result<usize, E>)
        ensures
            r == written,
            final(self).position() == match written {
                Ok(n) => advanced(old(self).position(), n as nat, SIZE),
                Err(_) => old(self).position(),
            },
    {
        proof {
            use_type_invariant(&*self);
        }
        match written {
            Ok(wrote) => {
                let size: usize = SIZE as usize;
                let sum: usize = self.position as usize + wrote % size;
                proof {
                    lemma_add_mod_noop_right(self.position as int, wrote as int, size as int);
                }
                self.position = (sum % size) as u8;
                Ok(wrote)
            },
            Err(e) => Err(e),
        }
    }

    /// Decides what to ask of the display for the seek request `pos`. A
    /// request relative to the current position is resolved here: the
    /// tracked position moves by the offset, wrapping at `SIZE` in either
    /// direction, and the display is asked for that absolute position. Any
    /// other request is handed on as it is, and the tracked position waits
    /// for the display's reply.
    pub fn seek(&mut self, pos: SeekFrom) -> (request: SeekFrom)
        ensures
            match pos {
                SeekFrom::Current(offset) => {
                    &&& final(self).position() == relative_target(
                        old(self).position(),
                        offset as int,
                        SIZE,
                    )
                    &&& request == SeekFrom::Start(final(self).position() as u64)
                },
                _ => request == pos && final(self).position() == old(self).position(),
            },
    {
        proof {
            use_type_invariant(&*self);
        }
        match pos {
            SeekFrom::Current(offset) => {
                let size: i64 = SIZE as i64;
                let mut v: i64 = offset % size;
                if v < 0 {
                    v = v + size;
                }
                proof {
                    lemma_wrapped_offset(offset as int, size as int);
                    lemma_add_mod_noop_right(self.position as int, offset as int, size as int);
                }
                let sum: i64 = self.position as i64 + v;
                self.position = (sum % size) as u8;
                SeekFrom::Start(self.position as u64)
            },
            _ => pos,
        }
    }

    /// Takes note of the display's reply to the request that `seek` handed
    /// out for `pos`: a position reported for an absolute request becomes the
    /// tracked position, cut to its low byte. Hands the reply on unchanged.
    pub fn adopt<E>(&mut self, pos: SeekFrom, reply: Result<u64, E>) -> (r: Result<u64, E>)
        ensures
            r == reply,
            final(self).position() == match (pos, reply) {
                (SeekFrom::Current(_), _) => old(self).position(),
                (_, Ok(reported)) => adopted(reported),
                (_, Err(_)) => old(self).position(),
            },
    {
        proof {
            use_type_invariant(&*self);
        }
        match pos {
            SeekFrom::Current(_) => reply,
            _ => match reply {
                Ok(reported) => {
                    self.position = (reported % 256) as u8;
                    Ok(reported)
                },
                Err(e) => Err(e),
            },
        }
    }
}

/// The remainder that takes the sign of its dividend, pushed up by one
/// modulus where it is negative, is the remainder that never is negative.
proof fn lemma_wrapped_offset(offset: int, size: int)
    requires
        size > 0,
    ensures
        rem_toward_zero(offset, size) >= 0 ==> rem_toward_zero(offset, size) == offset % size,
        rem_toward_zero(offset, size) < 0 ==> rem_toward_zero(offset, size) + size == offset
            % size,
{
    if offset < 0 {
        let k = (-offset) % size;
        let q = (-offset) / size;
        lemma_fundamental_div_mod(-offset, size);
        lemma_mod_pos_bound(-offset, size);
        if k == 0 {
            assert(offset == (-q) * size + 0) by (nonlinear_arith)
                requires
                    -offset == size * q + k,
                    k == 0,
            ;
            lemma_fundamental_div_mod_converse_mod(offset, size, -q, 0);
        } else {
            assert(offset == (-q - 1) * size + (size - k)) by (nonlinear_arith)
                requires
                    -offset == size * q + k,
            ;
            lemma_fundamental_div_mod_converse_mod(offset, size, -q - 1, size - k);
        }
    }
}

/// An offset from the start resolves to its remainder by 80, which is
/// position 0 exactly for the multiples of 80. An offset from the end
/// resolves to its sign-keeping remainder by 80 plus 80: a position from 80
/// to 159 for an offset that is not negative, one from 1 to 80 for a negative
/// one, and so never position 0. An offset from the current position
/// resolves to nothing.
pub proof fn lemma_seek_targets(pos: SeekFrom)
    ensures
        match pos {
            SeekFrom::Start(v) => {
                &&& seek_target(pos) == Some((v % 80) as u64)
                &&& 0 <= v % 80 < 80
            },
            SeekFrom::End(v) => {
                &&& v >= 0 ==> seek_target(pos) == Some((v % 80 + 80) as u64)
                &&& v < 0 ==> seek_target(pos) == Some((80 - (-v) % 80) as u64)
                &&& seek_target(pos) is Some
                &&& 1 <= seek_target(pos)->0 <= 159
            },
            SeekFrom::Current(_) => seek_target(pos) is None,
        },
{
}

/// Moving to position 0 is done by the home instruction, moving anywhere
/// else by the address instruction, and the two differ in their first
/// transfer.
pub proof fn lemma_seek_home_iff_zero<S: BusSend>(target: u64)
    ensures
        target == 0 ==> seek_steps::<S>(target) == home_steps::<S>(),
        target != 0 ==> seek_steps::<S>(target) == set_ram_addr_steps::<S>(target as u8),
        Command::ReturnHome.code() != Command::SetDDRAMAddr.code() | (target as u8),
{
    let a = target as u8;
    assert(0b0000_0010u8 != 0b1000_0000u8 | a) by (bit_vector);
}

/// From position 0, a write of `len` bytes leaves the tracked position at
/// `len` modulo `size`, and a relative seek by 0 from there asks for that
/// very position.
pub proof fn lemma_write_then_stay(len: nat, size: u8)
    requires
        size > 0,
    ensures
        advanced(0, len, size) == len % (size as nat),
        relative_target(advanced(0, len, size), 0, size) == advanced(0, len, size),
{
    lemma_mod_pos_bound(len as int, size as int);
    lemma_small_mod((len % (size as nat)) as nat, size as nat);
}

/// A relative seek backwards by `k` from a position `p` inside the window
/// lands on `p - k` where that is not negative, and wraps to
/// `size - (k - p)` where `k` exceeds `p` by no more than the window's size;
/// the result always lies inside the window.
pub proof fn lemma_seek_backwards(p: u8, k: int, size: u8)
    requires
        size > 0,
        p < size,
        0 <= k,
    ensures
        k <= p ==> relative_target(p, -k, size) == p - k,
        p < k <= p + size ==> relative_target(p, -k, size) == size - (k - p),
        0 <= relative_target(p, -k, size) < size,
{
    let m = size as int;
    lemma_mod_bound(p - k, m);
    if k <= p {
        lemma_small_mod((p - k) as nat, m as nat);
    } else if k < p + size {
        lemma_fundamental_div_mod_converse_mod(p - k, m, -1, m - (k - p));
    } else if k == p + size {
        lemma_fundamental_div_mod_converse_mod(p - k, m, -1, 0);
    }
}

} // verus!
