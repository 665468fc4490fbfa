//! The processor status register: seven flags and one unused bit, kept in a
//! single byte and handled with masks.

use vstd::prelude::*;

verus! {

/// Whether every bit of `mask` is set in the status byte `p`.
pub open spec fn flag_on(p: u8, mask: u8) -> bool {
    p & mask == mask
}

/// The status byte `p` with the bits of `mask` set when `on`, cleared otherwise.
pub open spec fn with_flag(p: u8, mask: u8, on: bool) -> u8 {
    if on {
        p | mask
    } else {
        p & !mask
    }
}

/// The status byte after an instruction produced the byte `value`:
/// Zero is set exactly when `value` is 0, Negative follows bit 7 of `value`.
pub open spec fn with_negative_zero(p: u8, value: u8) -> u8 {
    with_flag(
        with_flag(p, ProcessorStatusFlags::ZERO, value == 0),
        ProcessorStatusFlags::NEGATIVE,
        value >= 0x80,
    )
}

/// `'1'` for a set flag, `'0'` for a clear one.
pub open spec fn flag_digit(p: u8, mask: u8) -> Seq<char> {
    if flag_on(p, mask) {
        "1"@
    } else {
        "0"@
    }
}

/// The text form of a status byte: every flag by its letter, high bit first.
pub open spec fn status_text(p: u8) -> Seq<char> {
    "N:"@ + flag_digit(p, ProcessorStatusFlags::NEGATIVE)
        + " V:"@ + flag_digit(p, ProcessorStatusFlags::OVERFLOW)
        + " -:"@ + flag_digit(p, ProcessorStatusFlags::UNUSED)
        + " B:"@ + flag_digit(p, ProcessorStatusFlags::BREAK)
        + " D:"@ + flag_digit(p, ProcessorStatusFlags::DECIMAL)
        + " I:"@ + flag_digit(p, ProcessorStatusFlags::INTERRUPT)
        + " Z:"@ + flag_digit(p, ProcessorStatusFlags::ZERO)
        + " C:"@ + flag_digit(p, ProcessorStatusFlags::CARRY)
}

/// The processor status byte. Flags are named by the mask constants below;
/// a mask may combine several flags with `|`.
#[derive(Clone, Copy, Debug, PartialEq, Eq, Structural)]
pub struct ProcessorStatusFlags(pub u8);

impl ProcessorStatusFlags {
    pub const CARRY: u8 = 0x01;

    pub const ZERO: u8 = 0x02;

    pub const INTERRUPT: u8 = 0x04;

    /// Tracked, but arithmetic never consults it.
    pub const DECIMAL: u8 = 0x08;

    pub const BREAK: u8 = 0x10;

    /// Has no meaning on the hardware.
    pub const UNUSED: u8 = 0x20;

    pub const OVERFLOW: u8 = 0x40;

    pub const NEGATIVE: u8 = 0x80;

    /// The status with no flag set.
    pub fn empty() -> (flags: Self)
        ensures
            flags.0 == 0,
    {
        ProcessorStatusFlags(0)
    }

    /// The status holding exactly the bits of `bits`.
    pub fn from_bits_retain(bits: u8) -> (flags: Self)
        ensures
            flags.0 == bits,
    {
        ProcessorStatusFlags(bits)
    }

    /// Every bit of the byte names a flag, so nothing is cut off.
    pub fn from_bits_truncate(bits: u8) -> (flags: Self)
        ensures
            flags.0 == bits,
    {
        ProcessorStatusFlags(bits)
    }

    /// The status as a byte.
    pub fn bits(&self) -> (bits: u8)
        ensures
            bits == self.0,
    {
        self.0
    }

    /// Whether no flag is set.
    pub fn is_empty(&self) -> (none: bool)
        ensures
            none == (self.0 == 0),
    {
        self.0 == 0
    }

    /// Whether all flags of `mask` are set.
    pub fn contains(&self, mask: u8) -> (all: bool)
        ensures
            all == flag_on(self.0, mask),
    {
        self.0 & mask == mask
    }

    /// Sets the flags of `mask`.
    pub fn insert(&mut self, mask: u8)
        ensures
            final(self).0 == with_flag(old(self).0, mask, true),
    {
        self.0 = self.0 | mask;
    }

    /// Clears the flags of `mask`.
    pub fn remove(&mut self, mask: u8)
        ensures
            final(self).0 == with_flag(old(self).0, mask, false),
    {
        self.0 = self.0 & !mask;
    }

    /// Sets the flags of `mask` when `on`, clears them otherwise.
    pub fn set(&mut self, mask: u8, on: bool)
        ensures
            final(self).0 == with_flag(old(self).0, mask, on),
    {
        if on {
            self.0 = self.0 | mask;
        } else {
            self.0 = self.0 & !mask;
        }
    }

    /// The status with the flags of `mask` added.
    pub fn union(&self, mask: u8) -> (flags: Self)
        ensures
            flags.0 == with_flag(self.0, mask, true),
    {
        ProcessorStatusFlags(self.0 | mask)
    }

    /// The status with every flag inverted.
    pub fn complement(&self) -> (flags: Self)
        ensures
            flags.0 == !self.0,
    {
        ProcessorStatusFlags(!self.0)
    }

    /// The status as text, `N:. V:. -:. B:. D:. I:. Z:. C:.` with 0 or 1 for each dot.
    pub fn to_text(&self) -> (text: String)
        ensures
            text@ == status_text(self.0),
    {
        let mut text = String::from_str("N:");
        text.append(self.digit(Self::NEGATIVE));
        text.append(" V:");
        text.append(self.digit(Self::OVERFLOW));
        text.append(" -:");
        text.append(self.digit(Self::UNUSED));
        text.append(" B:");
        text.append(self.digit(Self::BREAK));
        text.append(" D:");
        text.append(self.digit(Self::DECIMAL));
        text.append(" I:");
        text.append(self.digit(Self::INTERRUPT));
        text.append(" Z:");
        text.append(self.digit(Self::ZERO));
        text.append(" C:");
        text.append(self.digit(Self::CARRY));
        text
    }

    /// The digit that shows the flags of `mask`.
    fn digit(&self, mask: u8) -> (d: &'static str)
        ensures
            d@ == flag_digit(self.0, mask),
    {
        if self.contains(mask) {
            "1"
        } else {
            "0"
        }
    }
}

/// Setting or clearing a flag decides that flag and leaves every flag outside
/// the mask as it was.
pub proof fn lemma_with_flag(p: u8, mask: u8, on: bool, other: u8)
    by (bit_vector)
    requires
        mask != 0,
        other & mask == 0,
    ensures
        flag_on(with_flag(p, mask, on), mask) == on,
        flag_on(with_flag(p, mask, on), other) == flag_on(p, other),
{
}

/// After the Negative and Zero flags were set from a byte, Zero tells whether
/// the byte is 0, Negative is its bit 7, and the six other flags are untouched.
pub proof fn lemma_negative_zero(p: u8, value: u8)
    by (bit_vector)
    ensures
        flag_on(with_negative_zero(p, value), 0x02) == (value == 0),
        flag_on(with_negative_zero(p, value), 0x80) == ((value >> 7) & 1 == 1),
        with_negative_zero(p, value) & 0x7d == p & 0x7d,
{
}

} // verus!
