//! Configuration values and their encoding as instruction bits.

use vstd::prelude::*;

verus! {

/// Instruction codes of the controller; operands are OR-ed into the low bits.
#[derive(Clone, Copy, Debug, PartialEq, Eq, Structural)]
pub enum Command {
    ClearDisplay,
    ReturnHome,
    EntryModeSet,
    DisplayControl,
    CursorShift,
    FunctionSet,
    SetCGramAddr,
    SetDDRAMAddr,
}

impl Command {
    pub open spec fn code_spec(self) -> u8 {
        match self {
            Command::ClearDisplay => 0b0000_0001u8,
            Command::ReturnHome => 0b0000_0010u8,
            Command::EntryModeSet => 0b0000_0100u8,
            Command::DisplayControl => 0b0000_1000u8,
            Command::CursorShift => 0b0001_0000u8,
            Command::FunctionSet => 0b0010_0000u8,
            Command::SetCGramAddr => 0b0100_0000u8,
            Command::SetDDRAMAddr => 0b1000_0000u8,
        }
    }

    /// The instruction byte with all operand bits clear.
    #[verifier::when_used_as_spec(code_spec)]
    pub fn code(self) -> (r: u8)
        ensures
            r == self.code_spec(),
    {
        match self {
            Command::ClearDisplay => 0b0000_0001u8,
            Command::ReturnHome => 0b0000_0010u8,
            Command::EntryModeSet => 0b0000_0100u8,
            Command::DisplayControl => 0b0000_1000u8,
            Command::CursorShift => 0b0001_0000u8,
            Command::FunctionSet => 0b0010_0000u8,
            Command::SetCGramAddr => 0b0100_0000u8,
            Command::SetDDRAMAddr => 0b1000_0000u8,
        }
    }
}

/// Direction in which the address counter moves after each data write.
#[derive(Clone, Copy, Debug, PartialEq, Eq, Structural)]
pub enum IncrementMode {
    Decremental,
    Incremental,
}

/// Display geometry: how many lines the panel shows and which font it uses.
#[derive(Clone, Copy, Debug, PartialEq, Eq, Structural)]
pub enum Lines {
    FourLines,
    TwoLines,
    OneLine5x10,
    OneLine5x8,
}

impl Lines {
    pub open spec fn bits_spec(self) -> u8 {
        match self {
            Lines::FourLines => 0b1100u8,
            Lines::TwoLines => 0b1000u8,
            Lines::OneLine5x10 => 0b0100u8,
            Lines::OneLine5x8 => 0b0000u8,
        }
    }

    /// The geometry bits as the function-set instruction carries them.
    #[verifier::when_used_as_spec(bits_spec)]
    pub fn bits(self) -> (r: u8)
        ensures
            r == self.bits_spec(),
    {
        match self {
            Lines::FourLines => 0b1100u8,
            Lines::TwoLines => 0b1000u8,
            Lines::OneLine5x10 => 0b0100u8,
            Lines::OneLine5x8 => 0b0000u8,
        }
    }
}

impl Default for Lines {
    fn default() -> (r: Self)
        ensures
            r == Lines::OneLine5x8,
    {
        Lines::OneLine5x8
    }
}

/// Bit of the display-control operand that switches the whole display on.
pub const DISPLAY_ON: u8 = 0b100;

/// Bit of the display-control operand that shows the cursor.
pub const CURSOR_ON: u8 = 0b010;

/// Bit of the display-control operand that makes the cursor blink.
pub const BLINK_ON: u8 = 0b001;

/// Bit of the entry-mode operand that selects incrementing addresses.
pub const INCREMENT: u8 = 0b010;

/// Bit of the entry-mode operand that scrolls the display on each write.
pub const SCROLL: u8 = 0b001;

/// `bits` with the single-bit mask `flag` forced to `v`.
pub open spec fn with_flag_spec(bits: u8, flag: u8, v: bool) -> u8 {
    if v {
        (bits & !flag) | flag
    } else {
        bits & !flag
    }
}

/// Forcing one of the three low flags touches that flag alone and keeps the
/// value below `limit` when `limit` is 4 or 8 and the flag lies under it.
proof fn lemma_with_flag(bits: u8, flag: u8, v: bool, other: u8)
    by (bit_vector)
    requires
        flag == 1 || flag == 2 || flag == 4,
        other == 1 || other == 2 || other == 4,
    ensures
        (with_flag_spec(bits, flag, v) & flag != 0) == v,
        other != flag ==> with_flag_spec(bits, flag, v) & other == bits & other,
        bits < 8 ==> with_flag_spec(bits, flag, v) < 8,
        bits < 4 && flag < 4 ==> with_flag_spec(bits, flag, v) < 4,
{
}

fn with_flag(bits: u8, flag: u8, v: bool) -> (r: u8)
    ensures
        r == with_flag_spec(bits, flag, v),
{
    let cleared: u8 = bits & !flag;
    if v {
        cleared | flag
    } else {
        cleared
    }
}

/// The three switches of the display-control instruction.
pub struct DisplayFlags {
    pub display_on: bool,
    pub cursor: bool,
    pub blink: bool,
}

/// Operand of the display-control instruction, kept in its wire encoding.
#[derive(Clone, Copy, Debug, PartialEq, Eq)]
pub struct DisplayControl(u8);

impl View for DisplayControl {
    type V = DisplayFlags;

    closed spec fn view(&self) -> DisplayFlags {
        DisplayFlags {
            display_on: self.0 & DISPLAY_ON != 0,
            cursor: self.0 & CURSOR_ON != 0,
            blink: self.0 & BLINK_ON != 0,
        }
    }
}

impl DisplayControl {
    #[verifier::type_invariant]
    closed spec fn in_range(self) -> bool {
        self.0 < 8
    }

    /// The operand bits that encode `flags`.
    pub open spec fn encode(flags: DisplayFlags) -> u8 {
        ((if flags.display_on { 4int } else { 0 })
            + (if flags.cursor { 2int } else { 0 })
            + (if flags.blink { 1int } else { 0 })) as u8
    }

    /// The operand bits as the instruction carries them.
    pub fn bits(self) -> (r: u8)
        ensures
            r == Self::encode(self@),
    {
        proof {
            use_type_invariant(&self);
            let b = self.0;
            assert(b < 8 ==> b == ((if b & 4 != 0 { 4int } else { 0 })
                + (if b & 2 != 0 { 2int } else { 0 })
                + (if b & 1 != 0 { 1int } else { 0 })) as u8) by (bit_vector);
        }
        self.0
    }

    /// Switches the whole display on or off; cursor and blink stay as they are.
    pub fn set_display_on(&mut self, v: bool)
        ensures
            final(self)@ == (DisplayFlags { display_on: v, ..old(self)@ }),
    {
        proof {
            use_type_invariant(&*self);
            lemma_with_flag(self.0, DISPLAY_ON, v, CURSOR_ON);
            lemma_with_flag(self.0, DISPLAY_ON, v, BLINK_ON);
        }
        self.0 = with_flag(self.0, DISPLAY_ON, v);
    }

    /// Shows or hides the cursor; display and blink stay as they are.
    pub fn set_cursor(&mut self, v: bool)
        ensures
            final(self)@ == (DisplayFlags { cursor: v, ..old(self)@ }),
    {
        proof {
            use_type_invariant(&*self);
            lemma_with_flag(self.0, CURSOR_ON, v, DISPLAY_ON);
            lemma_with_flag(self.0, CURSOR_ON, v, BLINK_ON);
        }
        self.0 = with_flag(self.0, CURSOR_ON, v);
    }

    /// Makes the cursor blink or not; display and cursor stay as they are.
    pub fn set_blink(&mut self, v: bool)
        ensures
            final(self)@ == (DisplayFlags { blink: v, ..old(self)@ }),
    {
        proof {
            use_type_invariant(&*self);
            lemma_with_flag(self.0, BLINK_ON, v, DISPLAY_ON);
            lemma_with_flag(self.0, BLINK_ON, v, CURSOR_ON);
        }
        self.0 = with_flag(self.0, BLINK_ON, v);
    }
}

impl Default for DisplayControl {
    /// Display on, cursor hidden, no blinking.
    fn default() -> (r: Self)
        ensures
            r@ == (DisplayFlags { display_on: true, cursor: false, blink: false }),
    {
        assert(0u8 & 4 == 0 && 0u8 & 2 == 0 && 0u8 & 1 == 0) by (bit_vector);
        let mut v = DisplayControl(0);
        v.set_display_on(true);
        v
    }
}

/// The two switches of the entry-mode instruction.
pub struct EntryFlags {
    pub increment_mode: IncrementMode,
    pub scroll: bool,
}

/// Operand of the entry-mode instruction, kept in its wire encoding.
#[derive(Clone, Copy, Debug, PartialEq, Eq)]
pub struct EntryMode(u8);

impl View for EntryMode {
    type V = EntryFlags;

    closed spec fn view(&self) -> EntryFlags {
        EntryFlags {
            increment_mode: if self.0 & INCREMENT != 0 {
                IncrementMode::Incremental
            } else {
                IncrementMode::Decremental
            },
            scroll: self.0 & SCROLL != 0,
        }
    }
}

impl EntryMode {
    #[verifier::type_invariant]
    closed spec fn in_range(self) -> bool {
        self.0 < 4
    }

    /// The operand bits that encode `flags`.
    pub open spec fn encode(flags: EntryFlags) -> u8 {
        ((if flags.increment_mode == IncrementMode::Incremental { 2int } else { 0 })
            + (if flags.scroll { 1int } else { 0 })) as u8
    }

    /// The operand bits as the instruction carries them.
    pub fn bits(self) -> (r: u8)
        ensures
            r == Self::encode(self@),
    {
        proof {
            use_type_invariant(&self);
            let b = self.0;
            assert(b < 4 ==> b == ((if b & 2 != 0 { 2int } else { 0 })
                + (if b & 1 != 0 { 1int } else { 0 })) as u8) by (bit_vector);
        }
        self.0
    }

    /// Chooses the addressing direction; the scroll switch stays as it is.
    pub fn set_increment_mode(&mut self, increment_mode: IncrementMode)
        ensures
            final(self)@ == (EntryFlags { increment_mode, ..old(self)@ }),
    {
        let v = increment_mode == IncrementMode::Incremental;
        proof {
            use_type_invariant(&*self);
            lemma_with_flag(self.0, INCREMENT, v, SCROLL);
        }
        self.0 = with_flag(self.0, INCREMENT, v);
    }

    /// Switches whole-display scrolling; the addressing direction stays as it is.
    pub fn set_scroll(&mut self, v: bool)
        ensures
            final(self)@ == (EntryFlags { scroll: v, ..old(self)@ }),
    {
        proof {
            use_type_invariant(&*self);
            lemma_with_flag(self.0, SCROLL, v, INCREMENT);
        }
        self.0 = with_flag(self.0, SCROLL, v);
    }
}

impl Default for EntryMode {
    /// Incrementing addresses, no scrolling.
    fn default() -> (r: Self)
        ensures
            r@ == (EntryFlags { increment_mode: IncrementMode::Incremental, scroll: false }),
    {
        assert(0u8 & 2 == 0 && 0u8 & 1 == 0) by (bit_vector);
        let mut v = EntryMode(0);
        v.set_increment_mode(IncrementMode::Incremental);
        v
    }
}

} // verus!
