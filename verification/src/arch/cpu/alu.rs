use vstd::prelude::*;

verus! {

/// What an addition leaves: the low eight bits of the sum, the carry out
/// of bit 7, and whether the signed sum left the range of a signed byte.
#[derive(Copy, Clone, Debug, PartialEq, Eq, Structural)]
pub struct Sum {
    pub value: u8,
    pub carry: bool,
    pub overflow: bool,
}

/// What a shift or a rotation leaves: the new byte and the bit that left
/// it.
#[derive(Copy, Clone, Debug, PartialEq, Eq, Structural)]
pub struct Shifted {
    pub value: u8,
    pub carry: bool,
}

/// What a comparison leaves in C, Z and N.
#[derive(Copy, Clone, Debug, PartialEq, Eq, Structural)]
pub struct Compared {
    pub carry: bool,
    pub zero: bool,
    pub negative: bool,
}

/// The byte as a two's-complement number.
pub open spec fn signed(byte: u8) -> int {
    if byte >= 128 {
        byte - 256
    } else {
        byte as int
    }
}

/// The number 0 or 1 that a carry stands for.
pub open spec fn bit(carry: bool) -> int {
    if carry {
        1
    } else {
        0
    }
}

/// `a + m + c`: the sum modulo 256, with C when the unsigned sum does
/// not fit in a byte and V when the signed sum does not.
pub open spec fn sum_spec(a: u8, m: u8, carry: bool) -> Sum {
    let unsigned = a + m + bit(carry);
    let twos = signed(a) + signed(m) + bit(carry);
    Sum { value: (unsigned % 256) as u8, carry: unsigned >= 256, overflow: twos < -128 || twos > 127 }
}

/// `a - m - (1 - c)`, computed as the 6502 does: `a + (255 - m) + c`.
pub open spec fn difference_spec(a: u8, m: u8, carry: bool) -> Sum {
    sum_spec(a, (255 - m) as u8, carry)
}

/// The byte doubled; bit 7 leaves into the carry.
pub open spec fn asl_spec(value: u8) -> Shifted {
    Shifted { value: ((value * 2) % 256) as u8, carry: value >= 128 }
}

/// The byte halved; bit 0 leaves into the carry.
pub open spec fn lsr_spec(value: u8) -> Shifted {
    Shifted { value: value / 2, carry: value % 2 == 1 }
}

/// The byte doubled with the old carry in bit 0; bit 7 leaves into the
/// carry.
pub open spec fn rol_spec(value: u8, carry: bool) -> Shifted {
    Shifted { value: ((value * 2) % 256 + bit(carry)) as u8, carry: value >= 128 }
}

/// The byte halved with the old carry in bit 7; bit 0 leaves into the
/// carry.
pub open spec fn ror_spec(value: u8, carry: bool) -> Shifted {
    Shifted { value: (value / 2 + 128 * bit(carry)) as u8, carry: value % 2 == 1 }
}

/// `register - m` as a comparison: C when no borrow is needed, Z on
/// equality, N from bit 7 of the difference modulo 256.
pub open spec fn compare_spec(register: u8, m: u8) -> Compared {
    Compared {
        carry: register >= m,
        zero: register == m,
        negative: (register - m) % 256 >= 128,
    }
}

/// The address with `high` as its high byte and `low` as its low byte.
pub open spec fn concat_spec(high: u8, low: u8) -> u16 {
    (high * 256 + low) as u16
}

/// `pc` moved by `offset` as a signed byte, modulo 2^16.
pub open spec fn branch_target(pc: u16, offset: u8) -> u16 {
    ((pc + signed(offset)) % 0x1_0000) as u16
}

pub fn add_with_carry(a: u8, m: u8, carry: bool) -> (r: Sum)
    ensures
        r == sum_spec(a, m, carry),
{
    let c: u16 = if carry {
        1
    } else {
        0
    };
    let result: u16 = (a as u16) + (m as u16) + c;
    let low: u8 = (result % 256) as u8;
    assert(((result & 0x100 != 0) == (result >= 256)) && ((!(a ^ m) & (a ^ low) & 0x80 != 0) == ({
        let s = (if a >= 128 { a - 256 } else { a as int }) + (if m >= 128 { m - 256 } else { m as int }) + c;
        s < -128 || s > 127
    }))) by (bit_vector)
        requires
            result == (a as u16) + (m as u16) + c,
            c <= 1,
            low == (result % 256) as u8,
    ;
    Sum { value: low, carry: result & 0x100 != 0, overflow: (!(a ^ m) & (a ^ low) & 0x80) != 0 }
}

pub fn subtract_with_borrow(a: u8, m: u8, carry: bool) -> (r: Sum)
    ensures
        r == difference_spec(a, m, carry),
{
    assert(!m == 255 - m) by (bit_vector);
    add_with_carry(a, !m, carry)
}

pub fn shift_left(value: u8) -> (r: Shifted)
    ensures
        r == asl_spec(value),
{
    assert(value << 1 == (value * 2) % 256 && (value & 0x80 != 0) == (value >= 128)) by (bit_vector);
    Shifted { value: value << 1, carry: value & 0x80 != 0 }
}

pub fn shift_right(value: u8) -> (r: Shifted)
    ensures
        r == lsr_spec(value),
{
    assert(value >> 1 == value / 2 && (value & 0x01 != 0) == (value % 2 == 1)) by (bit_vector);
    Shifted { value: value >> 1, carry: value & 0x01 != 0 }
}

pub fn rotate_left(value: u8, carry: bool) -> (r: Shifted)
    ensures
        r == rol_spec(value, carry),
{
    let c: u8 = if carry {
        1
    } else {
        0
    };
    assert(((value << 1) & 0xFE) | c == (value * 2) % 256 + c && (value & 0x80 != 0) == (value
        >= 128)) by (bit_vector)
        requires
            c <= 1,
    ;
    Shifted { value: ((value << 1) & 0xFE) | c, carry: value & 0x80 != 0 }
}

pub fn rotate_right(value: u8, carry: bool) -> (r: Shifted)
    ensures
        r == ror_spec(value, carry),
{
    let c: u8 = if carry {
        1
    } else {
        0
    };
    assert((c << 7) | ((value >> 1) & 0x7F) == value / 2 + 128 * c && (value & 0x01 != 0) == (
    value % 2 == 1)) by (bit_vector)
        requires
            c <= 1,
    ;
    Shifted { value: (c << 7) | ((value >> 1) & 0x7F), carry: value & 0x01 != 0 }
}

pub fn compare(register: u8, m: u8) -> (r: Compared)
    ensures
        r == compare_spec(register, m),
{
    Compared {
        carry: register >= m,
        zero: register == m,
        negative: register.wrapping_sub(m) >= 0x80,
    }
}

#[inline(always)]
pub fn addr_concat(high: u8, low: u8) -> (addr: u16)
    ensures
        addr == concat_spec(high, low),
{
    assert(((high as u16) << 8) | (low as u16) == high * 256 + low) by (bit_vector);
    ((high as u16) << 8) | (low as u16)
}

/// The low byte of an address.
#[inline(always)]
pub fn low_byte(addr: u16) -> (low: u8)
    ensures
        low == addr % 256,
{
    (addr % 256) as u8
}

/// The high byte of an address.
#[inline(always)]
pub fn high_byte(addr: u16) -> (high: u8)
    ensures
        high == addr / 256,
{
    (addr / 256) as u8
}

/// Where a taken branch with `offset` goes from `pc`.
pub fn branch_to(pc: u16, offset: u8) -> (target: u16)
    ensures
        target == branch_target(pc, offset),
{
    if offset >= 128 {
        pc.wrapping_sub(256 - (offset as u16))
    } else {
        pc.wrapping_add(offset as u16)
    }
}

/// The overflow of an addition shows in the signs: V is set exactly when
/// both operands differ in sign from the result.
pub proof fn lemma_overflow_by_signs(a: u8, m: u8, carry: bool)
    ensures
        sum_spec(a, m, carry).overflow == ((a ^ sum_spec(a, m, carry).value) & (m ^ sum_spec(
            a,
            m,
            carry,
        ).value) & 0x80 != 0),
        sum_spec(a, m, carry).carry == (a + m + bit(carry) >= 256),
{
    let c: u16 = if carry {
        1
    } else {
        0
    };
    let result: u16 = (a + m + c) as u16;
    let r: u8 = (result % 256) as u8;
    assert(((a ^ r) & (m ^ r) & 0x80 != 0) == ({
        let s = (if a >= 128 { a - 256 } else { a as int }) + (if m >= 128 { m - 256 } else { m as int }) + c;
        s < -128 || s > 127
    })) by (bit_vector)
        requires
            result == (a as u16) + (m as u16) + c,
            c <= 1,
            r == (result % 256) as u8,
    ;
}

/// Subtraction with borrow is subtraction: the value is
/// `a - m - (1 - c)` modulo 256, and C is set exactly when that
/// difference is not negative.
pub proof fn lemma_difference(a: u8, m: u8, carry: bool)
    ensures
        difference_spec(a, m, carry).value == (a - m - (1 - bit(carry))) % 256,
        difference_spec(a, m, carry).carry == (a - m - (1 - bit(carry)) >= 0),
{
}

} // verus!
