use vstd::prelude::*;

verus! {

pub const NEGATIVE: u8 = 0b1000_0000;

pub const OVERFLOW: u8 = 0b0100_0000;

pub const UNUSED: u8 = 0b0010_0000;

pub const BREAK: u8 = 0b0001_0000;

pub const DECIMAL: u8 = 0b0000_1000;

pub const INTERRUPT_DISABLE: u8 = 0b0000_0100;

pub const ZERO: u8 = 0b0000_0010;

pub const CARRY: u8 = 0b0000_0001;

/// `mask` selects exactly one of the eight status bits.
pub open spec fn is_flag(mask: u8) -> bool {
    mask == NEGATIVE || mask == OVERFLOW || mask == UNUSED || mask == BREAK || mask == DECIMAL
        || mask == INTERRUPT_DISABLE || mask == ZERO || mask == CARRY
}

/// The processor status `P`, packed as `NV-BDIZC`.
#[derive(Clone, Copy, Debug, PartialEq, Eq, Structural)]
pub struct StatusReg(pub u8);

impl StatusReg {
    /// Some bit of `mask` is set in the register.
    pub open spec fn has(self, mask: u8) -> bool {
        self.0 & mask != 0
    }

    /// The register with the bits of `mask` set or cleared.
    pub open spec fn with(self, mask: u8, on: bool) -> StatusReg {
        if on {
            StatusReg(self.0 | mask)
        } else {
            StatusReg(self.0 & !mask)
        }
    }

    /// The register with Z and N taken from `value`: Z when it is zero,
    /// N when it is negative as a signed byte.
    pub open spec fn with_zn(self, value: u8) -> StatusReg {
        self.with(ZERO, value == 0).with(NEGATIVE, value >= 0x80)
    }

    /// The byte that a push stores: bit 5 set, bit 4 set for `PHP` and
    /// `BRK` and clear for an interrupt.
    pub open spec fn pushed(self, software: bool) -> u8 {
        if software {
            self.0 | 0b0011_0000
        } else {
            (self.0 & 0b1110_1111) | 0b0010_0000
        }
    }

    /// The register after a pull of `byte`: bit 4 is dropped and bit 5 is
    /// set, whatever the stack held.
    pub open spec fn pulled(byte: u8) -> StatusReg {
        StatusReg((byte & 0b1100_1111) | 0b0010_0000)
    }

    /// The register after reset: I, B and bit 5 set.
    pub open spec fn reset_value() -> StatusReg {
        StatusReg(0b0011_0100)
    }

    pub fn new() -> (r: StatusReg)
        ensures
            r == Self::reset_value(),
    {
        StatusReg(0b0011_0100)
    }

    #[inline(always)]
    pub fn bits(&self) -> (b: u8)
        ensures
            b == self.0,
    {
        self.0
    }

    #[inline(always)]
    pub fn contains(&self, mask: u8) -> (b: bool)
        ensures
            b == self.has(mask),
    {
        self.0 & mask != 0
    }

    #[inline(always)]
    pub fn set(&mut self, mask: u8, on: bool)
        ensures
            *final(self) == old(self).with(mask, on),
    {
        if on {
            self.0 = self.0 | mask;
        } else {
            self.0 = self.0 & !mask;
        }
    }

    /// Sets Z and N from `value`.
    #[inline(always)]
    pub fn set_zn(&mut self, value: u8)
        ensures
            *final(self) == old(self).with_zn(value),
    {
        self.set(ZERO, value == 0);
        self.set(NEGATIVE, value >= 0x80);
    }

    #[inline(always)]
    pub fn push_value(&self, software: bool) -> (b: u8)
        ensures
            b == self.pushed(software),
    {
        if software {
            self.0 | 0b0011_0000
        } else {
            (self.0 & 0b1110_1111) | 0b0010_0000
        }
    }

    #[inline(always)]
    pub fn pull(byte: u8) -> (r: StatusReg)
        ensures
            r == Self::pulled(byte),
    {
        StatusReg((byte & 0b1100_1111) | 0b0010_0000)
    }

    /// One letter per flag in the order `NV-BDIZC`, upper case when the
    /// flag is set; bit 5 shows as `-`.
    pub open spec fn letters_spec(self) -> Seq<char> {
        seq![
            if self.has(NEGATIVE) { 'N' } else { 'n' },
            if self.has(OVERFLOW) { 'V' } else { 'v' },
            '-',
            if self.has(BREAK) { 'B' } else { 'b' },
            if self.has(DECIMAL) { 'D' } else { 'd' },
            if self.has(INTERRUPT_DISABLE) { 'I' } else { 'i' },
            if self.has(ZERO) { 'Z' } else { 'z' },
            if self.has(CARRY) { 'C' } else { 'c' },
        ]
    }

    pub fn letters(&self) -> (s: [char; 8])
        ensures
            s@ == self.letters_spec(),
    {
        let s = [
            if self.contains(NEGATIVE) { 'N' } else { 'n' },
            if self.contains(OVERFLOW) { 'V' } else { 'v' },
            '-',
            if self.contains(BREAK) { 'B' } else { 'b' },
            if self.contains(DECIMAL) { 'D' } else { 'd' },
            if self.contains(INTERRUPT_DISABLE) { 'I' } else { 'i' },
            if self.contains(ZERO) { 'Z' } else { 'z' },
            if self.contains(CARRY) { 'C' } else { 'c' },
        ];
        assert(s@ =~= self.letters_spec());
        s
    }
}

impl Default for StatusReg {
    fn default() -> (r: Self)
        ensures
            r == Self::reset_value(),
    {
        StatusReg::new()
    }
}

/// Setting or clearing one flag changes that flag and no other.
pub proof fn lemma_flag_update(status: StatusReg, mask: u8, on: bool, other: u8)
    requires
        is_flag(mask),
        is_flag(other),
    ensures
        status.with(mask, on).has(other) == if other == mask {
            on
        } else {
            status.has(other)
        },
{
    let b = status.0;
    assert(((b | mask) & other != 0) == (other == mask || b & other != 0)) by (bit_vector)
        requires
            mask == 0x80 || mask == 0x40 || mask == 0x20 || mask == 0x10 || mask == 0x08 || mask
                == 0x04 || mask == 0x02 || mask == 0x01,
            other == 0x80 || other == 0x40 || other == 0x20 || other == 0x10 || other == 0x08
                || other == 0x04 || other == 0x02 || other == 0x01,
    ;
    assert(((b & !mask) & other != 0) == (other != mask && b & other != 0)) by (bit_vector)
        requires
            mask == 0x80 || mask == 0x40 || mask == 0x20 || mask == 0x10 || mask == 0x08 || mask
                == 0x04 || mask == 0x02 || mask == 0x01,
            other == 0x80 || other == 0x40 || other == 0x20 || other == 0x10 || other == 0x08
                || other == 0x04 || other == 0x02 || other == 0x01,
    ;
}

/// Every copy of the status that reaches the stack has bit 5 set, and bit
/// 4 set exactly when software pushed it.
pub proof fn lemma_pushed_bits(status: StatusReg, software: bool)
    ensures
        status.pushed(software) & UNUSED == UNUSED,
        (status.pushed(software) & BREAK == BREAK) == software,
        status.pushed(software) & 0b1100_1111 == status.0 & 0b1100_1111,
{
    let b = status.0;
    assert((b | 0x30) & 0x20 == 0x20 && (b | 0x30) & 0x10 == 0x10 && (b | 0x30) & 0xCF == b
        & 0xCF && ((b & 0xEF) | 0x20) & 0x20 == 0x20 && ((b & 0xEF) | 0x20) & 0x10 != 0x10 && ((b
        & 0xEF) | 0x20) & 0xCF == b & 0xCF) by (bit_vector);
}

/// A pulled status has bit 5 set and bit 4 clear, and keeps the six flags
/// of the byte it was pulled from.
pub proof fn lemma_pulled_bits(byte: u8)
    ensures
        StatusReg::pulled(byte).has(UNUSED),
        !StatusReg::pulled(byte).has(BREAK),
        StatusReg::pulled(byte).0 & 0b1100_1111 == byte & 0b1100_1111,
{
    assert(((byte & 0xCF) | 0x20) & 0x20 != 0 && ((byte & 0xCF) | 0x20) & 0x10 == 0 && ((byte
        & 0xCF) | 0x20) & 0xCF == byte & 0xCF) by (bit_vector);
}

/// Pushing the status and pulling it again restores the six flags; of
/// bits 4 and 5 only bit 5 comes back, set.
pub proof fn lemma_push_pull(status: StatusReg, software: bool)
    ensures
        StatusReg::pulled(status.pushed(software)).0 == (status.0 & 0b1100_1111) | 0b0010_0000,
        forall|mask: u8|
            is_flag(mask) && mask != UNUSED && mask != BREAK ==> StatusReg::pulled(
                status.pushed(software),
            ).has(mask) == #[trigger] status.has(mask),
{
    let b = status.0;
    assert((((b | 0x30) & 0xCF) | 0x20) == (b & 0xCF) | 0x20 && ((((b & 0xEF) | 0x20) & 0xCF)
        | 0x20) == (b & 0xCF) | 0x20) by (bit_vector);
    assert forall|mask: u8| is_flag(mask) && mask != UNUSED && mask != BREAK implies (((b
        & 0xCF) | 0x20) & mask != 0) == (b & mask != 0) by {
        assert((((b & 0xCF) | 0x20) & mask != 0) == (b & mask != 0)) by (bit_vector)
            requires
                mask == 0x80 || mask == 0x40 || mask == 0x08 || mask == 0x04 || mask == 0x02
                    || mask == 0x01,
        ;
    }
}

} // verus!
