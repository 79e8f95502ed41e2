//! The arithmetic-logic unit: pure functions from 8-bit operands to a result
//! byte and the four condition flags.

use vstd::prelude::*;

verus! {

/// The four condition flags as independent truth values. This is the
/// mathematical content of a flag byte, whose high nibble holds one bit per
/// flag and whose low nibble is always clear.
pub struct Flags {
    pub zero: bool,
    pub subtraction: bool,
    pub half_carry: bool,
    pub carry: bool,
}

impl Flags {
    /// No flag set.
    pub open spec fn none() -> Flags {
        Flags { zero: false, subtraction: false, half_carry: false, carry: false }
    }

    /// Every flag set.
    pub open spec fn every() -> Flags {
        Flags { zero: true, subtraction: true, half_carry: true, carry: true }
    }

    /// Only the zero flag.
    pub open spec fn only_zero() -> Flags {
        Flags { zero: true, ..Flags::none() }
    }

    /// Only the subtraction flag.
    pub open spec fn only_subtraction() -> Flags {
        Flags { subtraction: true, ..Flags::none() }
    }

    /// Only the half-carry flag.
    pub open spec fn only_half_carry() -> Flags {
        Flags { half_carry: true, ..Flags::none() }
    }

    /// Only the carry flag.
    pub open spec fn only_carry() -> Flags {
        Flags { carry: true, ..Flags::none() }
    }

    /// The flags that a byte holds in bits 7 to 4; bits 3 to 0 are ignored.
    pub open spec fn of_bits(bits: u8) -> Flags {
        Flags {
            zero: bits & 0x80 != 0,
            subtraction: bits & 0x40 != 0,
            half_carry: bits & 0x20 != 0,
            carry: bits & 0x10 != 0,
        }
    }

    /// The byte with exactly these flags in bits 7 to 4 and a clear low nibble.
    pub open spec fn bits(self) -> u8 {
        ((if self.zero { 0x80int } else { 0 }) + (if self.subtraction { 0x40int } else { 0 })
            + (if self.half_carry { 0x20int } else { 0 }) + (if self.carry { 0x10int } else { 0 })) as u8
    }

    /// The flags set in either operand.
    pub open spec fn union(self, other: Flags) -> Flags {
        Flags {
            zero: self.zero || other.zero,
            subtraction: self.subtraction || other.subtraction,
            half_carry: self.half_carry || other.half_carry,
            carry: self.carry || other.carry,
        }
    }

    /// The flags set in both operands.
    pub open spec fn intersection(self, other: Flags) -> Flags {
        Flags {
            zero: self.zero && other.zero,
            subtraction: self.subtraction && other.subtraction,
            half_carry: self.half_carry && other.half_carry,
            carry: self.carry && other.carry,
        }
    }

    /// The flags of `self` that `other` does not hold.
    pub open spec fn difference(self, other: Flags) -> Flags {
        Flags {
            zero: self.zero && !other.zero,
            subtraction: self.subtraction && !other.subtraction,
            half_carry: self.half_carry && !other.half_carry,
            carry: self.carry && !other.carry,
        }
    }

    /// Whether every flag of `other` is set in `self`.
    pub open spec fn includes(self, other: Flags) -> bool {
        &&& other.zero ==> self.zero
        &&& other.subtraction ==> self.subtraction
        &&& other.half_carry ==> self.half_carry
        &&& other.carry ==> self.carry
    }

    /// `self` with the flags of `other` switched on or off.
    pub open spec fn with(self, other: Flags, value: bool) -> Flags {
        if value {
            self.union(other)
        } else {
            self.difference(other)
        }
    }

    /// The masked commit: the flags in `mask` are cleared and then taken from
    /// `new`; the flags outside `mask` stay as they are.
    pub open spec fn commit(self, new: Flags, mask: Flags) -> Flags {
        self.difference(mask).union(new.intersection(mask))
    }
}

/// Bit 7, the zero flag.
pub const ZERO_BIT: u8 = 0x80;

/// Bit 6, the subtraction flag.
pub const SUBTRACTION_BIT: u8 = 0x40;

/// Bit 5, the half-carry flag.
pub const HALF_CARRY_BIT: u8 = 0x20;

/// Bit 4, the carry flag.
pub const CARRY_BIT: u8 = 0x10;

/// The four flag bits together.
pub const FLAG_BITS: u8 = 0xF0;

/// The flags held by the constant bytes.
pub proof fn lemma_flag_constants()
    ensures
        Flags::of_bits(0) == Flags::none(),
        Flags::of_bits(ZERO_BIT) == Flags::only_zero(),
        Flags::of_bits(SUBTRACTION_BIT) == Flags::only_subtraction(),
        Flags::of_bits(HALF_CARRY_BIT) == Flags::only_half_carry(),
        Flags::of_bits(CARRY_BIT) == Flags::only_carry(),
        Flags::of_bits(FLAG_BITS) == Flags::every(),
{
    assert(0u8 & 0x80 == 0 && 0u8 & 0x40 == 0 && 0u8 & 0x20 == 0 && 0u8 & 0x10 == 0)
        by (bit_vector);
    assert(0x80u8 & 0x80 != 0 && 0x80u8 & 0x40 == 0 && 0x80u8 & 0x20 == 0 && 0x80u8 & 0x10 == 0)
        by (bit_vector);
    assert(0x40u8 & 0x80 == 0 && 0x40u8 & 0x40 != 0 && 0x40u8 & 0x20 == 0 && 0x40u8 & 0x10 == 0)
        by (bit_vector);
    assert(0x20u8 & 0x80 == 0 && 0x20u8 & 0x40 == 0 && 0x20u8 & 0x20 != 0 && 0x20u8 & 0x10 == 0)
        by (bit_vector);
    assert(0x10u8 & 0x80 == 0 && 0x10u8 & 0x40 == 0 && 0x10u8 & 0x20 == 0 && 0x10u8 & 0x10 != 0)
        by (bit_vector);
    assert(0xF0u8 & 0x80 != 0 && 0xF0u8 & 0x40 != 0 && 0xF0u8 & 0x20 != 0 && 0xF0u8 & 0x10 != 0)
        by (bit_vector);
}

/// A byte with a clear low nibble is determined by its flags.
pub proof fn lemma_flag_bits(a: u8)
    requires
        a & 0x0F == 0,
    ensures
        Flags::of_bits(a).bits() == a,
{
    assert(a == (if a & 0x80 != 0 { 0x80u8 } else { 0 }) + (if a & 0x40 != 0 { 0x40u8 } else { 0 })
        + (if a & 0x20 != 0 { 0x20u8 } else { 0 }) + (if a & 0x10 != 0 { 0x10u8 } else { 0 }))
        by (bit_vector)
        requires
            a & 0x0F == 0,
    ;
}

/// Masking a byte to its high nibble keeps its flags and clears the rest.
pub proof fn lemma_flag_truncate(a: u8)
    ensures
        (a & 0xF0) & 0x0F == 0,
        Flags::of_bits(a & 0xF0) == Flags::of_bits(a),
{
    assert((a & 0xF0) & 0x0F == 0 && (a & 0xF0) & 0x80 == a & 0x80 && (a & 0xF0) & 0x40 == a & 0x40
        && (a & 0xF0) & 0x20 == a & 0x20 && (a & 0xF0) & 0x10 == a & 0x10) by (bit_vector);
}

/// Bitwise OR of two flag bytes is the union of their flags.
pub proof fn lemma_flag_union(a: u8, b: u8)
    ensures
        Flags::of_bits(a | b) == Flags::of_bits(a).union(Flags::of_bits(b)),
        a & 0x0F == 0 && b & 0x0F == 0 ==> (a | b) & 0x0F == 0,
{
    assert(((a | b) & 0x80 != 0 <==> a & 0x80 != 0 || b & 0x80 != 0) && ((a | b) & 0x40 != 0 <==> a
        & 0x40 != 0 || b & 0x40 != 0) && ((a | b) & 0x20 != 0 <==> a & 0x20 != 0 || b & 0x20 != 0)
        && ((a | b) & 0x10 != 0 <==> a & 0x10 != 0 || b & 0x10 != 0) && (a & 0x0F == 0 && b & 0x0F
        == 0 ==> (a | b) & 0x0F == 0)) by (bit_vector);
}

/// Bitwise AND of two flag bytes is the intersection of their flags.
pub proof fn lemma_flag_intersection(a: u8, b: u8)
    ensures
        Flags::of_bits(a & b) == Flags::of_bits(a).intersection(Flags::of_bits(b)),
        a & 0x0F == 0 ==> (a & b) & 0x0F == 0,
{
    assert(((a & b) & 0x80 != 0 <==> a & 0x80 != 0 && b & 0x80 != 0) && ((a & b) & 0x40 != 0 <==> a
        & 0x40 != 0 && b & 0x40 != 0) && ((a & b) & 0x20 != 0 <==> a & 0x20 != 0 && b & 0x20 != 0)
        && ((a & b) & 0x10 != 0 <==> a & 0x10 != 0 && b & 0x10 != 0) && (a & 0x0F == 0 ==> (a & b)
        & 0x0F == 0)) by (bit_vector);
}

/// Masking out the bits of a second flag byte is the difference of their flags.
pub proof fn lemma_flag_difference(a: u8, b: u8)
    ensures
        Flags::of_bits(a & !b) == Flags::of_bits(a).difference(Flags::of_bits(b)),
        a & 0x0F == 0 ==> (a & !b) & 0x0F == 0,
{
    assert(((a & !b) & 0x80 != 0 <==> a & 0x80 != 0 && b & 0x80 == 0) && ((a & !b) & 0x40 != 0 <==> a
        & 0x40 != 0 && b & 0x40 == 0) && ((a & !b) & 0x20 != 0 <==> a & 0x20 != 0 && b & 0x20 == 0)
        && ((a & !b) & 0x10 != 0 <==> a & 0x10 != 0 && b & 0x10 == 0) && (a & 0x0F == 0 ==> (a
        & !b) & 0x0F == 0)) by (bit_vector);
}

/// A flag byte covers another exactly when it holds each of the other's flags.
pub proof fn lemma_flag_includes(a: u8, b: u8)
    requires
        b & 0x0F == 0,
    ensures
        (a & b == b) <==> Flags::of_bits(a).includes(Flags::of_bits(b)),
{
    assert((a & b == b) <==> ((b & 0x80 != 0 ==> a & 0x80 != 0) && (b & 0x40 != 0 ==> a & 0x40 != 0)
        && (b & 0x20 != 0 ==> a & 0x20 != 0) && (b & 0x10 != 0 ==> a & 0x10 != 0))) by (bit_vector)
        requires
            b & 0x0F == 0,
    ;
}

/// The flags that an ALU operation reports, one bit per flag in the high
/// nibble of a byte.
#[derive(Clone, Copy, Debug, PartialEq, Eq)]
pub struct AluResultInfo {
    bits: u8,
}

impl View for AluResultInfo {
    type V = Flags;

    closed spec fn view(&self) -> Flags {
        Flags::of_bits(self.bits)
    }
}

impl AluResultInfo {
    #[verifier::type_invariant]
    closed spec fn low_nibble_clear(self) -> bool {
        self.bits & 0x0F == 0
    }

    /// No flag.
    pub fn empty() -> (r: AluResultInfo)
        ensures
            r@ == Flags::none(),
    {
        proof {
            lemma_flag_constants();
        }
        AluResultInfo::from_bits_truncate(0)
    }

    /// The zero flag alone.
    pub fn zero() -> (r: AluResultInfo)
        ensures
            r@ == Flags::only_zero(),
    {
        proof {
            lemma_flag_constants();
        }
        AluResultInfo::from_bits_truncate(ZERO_BIT)
    }

    /// The subtraction flag alone.
    pub fn subtraction() -> (r: AluResultInfo)
        ensures
            r@ == Flags::only_subtraction(),
    {
        proof {
            lemma_flag_constants();
        }
        AluResultInfo::from_bits_truncate(SUBTRACTION_BIT)
    }

    /// The half-carry flag alone.
    pub fn half_carry() -> (r: AluResultInfo)
        ensures
            r@ == Flags::only_half_carry(),
    {
        proof {
            lemma_flag_constants();
        }
        AluResultInfo::from_bits_truncate(HALF_CARRY_BIT)
    }

    /// The carry flag alone.
    pub fn carry() -> (r: AluResultInfo)
        ensures
            r@ == Flags::only_carry(),
    {
        proof {
            lemma_flag_constants();
        }
        AluResultInfo::from_bits_truncate(CARRY_BIT)
    }

    /// The flags that a byte holds in its high nibble; its low nibble is
    /// dropped.
    pub fn from_bits_truncate(bits: u8) -> (r: AluResultInfo)
        ensures
            r@ == Flags::of_bits(bits),
    {
        proof {
            lemma_flag_truncate(bits);
        }
        AluResultInfo { bits: bits & FLAG_BITS }
    }

    /// The flag byte: the flags in bits 7 to 4, the low nibble clear.
    pub fn bits(&self) -> (r: u8)
        ensures
            r == self@.bits(),
            Flags::of_bits(r) == self@,
    {
        proof {
            use_type_invariant(self);
            lemma_flag_bits(self.bits);
        }
        self.bits
    }

    /// Whether every flag of `other` is set in `self`.
    pub fn contains(&self, other: AluResultInfo) -> (r: bool)
        ensures
            r == self@.includes(other@),
    {
        proof {
            use_type_invariant(&other);
            lemma_flag_includes(self.bits, other.bits);
        }
        self.bits & other.bits == other.bits
    }

    /// Sets the flags of `other`.
    pub fn insert(&mut self, other: AluResultInfo)
        ensures
            final(self)@ == old(self)@.union(other@),
    {
        proof {
            use_type_invariant(&*self);
            use_type_invariant(&other);
            lemma_flag_union(self.bits, other.bits);
        }
        self.bits = self.bits | other.bits;
    }

    /// Clears the flags of `other`.
    pub fn remove(&mut self, other: AluResultInfo)
        ensures
            final(self)@ == old(self)@.difference(other@),
    {
        proof {
            use_type_invariant(&*self);
            lemma_flag_difference(self.bits, other.bits);
        }
        self.bits = self.bits & !other.bits;
    }

    /// Sets the flags of `other` if `value` holds, and clears them otherwise.
    pub fn set(&mut self, other: AluResultInfo, value: bool)
        ensures
            final(self)@ == old(self)@.with(other@, value),
    {
        if value {
            self.insert(other);
        } else {
            self.remove(other);
        }
    }
}

/// What an ALU operation hands back: the result byte and the flags.
#[derive(Clone, Copy, Debug, PartialEq, Eq)]
pub struct AluResult {
    pub res: u8,
    pub info: AluResultInfo,
}

/// A carry or borrow bit as a number.
pub open spec fn bit(carry: bool) -> int {
    if carry {
        1
    } else {
        0
    }
}

/// The sum of two bytes and a carry bit, modulo 256.
pub open spec fn add_result(a: u8, b: u8, carry: bool) -> u8 {
    ((a + b + bit(carry)) % 256) as u8
}

/// The flags of an addition with carry.
pub open spec fn add_flags(a: u8, b: u8, carry: bool) -> Flags {
    Flags {
        zero: add_result(a, b, carry) == 0,
        subtraction: false,
        half_carry: a % 16 + b % 16 + bit(carry) > 15,
        carry: a + b + bit(carry) > 255,
    }
}

/// The difference of two bytes and a borrow bit, modulo 256.
pub open spec fn sub_result(a: u8, b: u8, carry: bool) -> u8 {
    ((a - b - bit(carry)) % 256) as u8
}

/// The flags of a subtraction with borrow.
pub open spec fn sub_flags(a: u8, b: u8, carry: bool) -> Flags {
    Flags {
        zero: sub_result(a, b, carry) == 0,
        subtraction: true,
        half_carry: a % 16 < b % 16 + bit(carry),
        carry: a < b + bit(carry),
    }
}

/// The flags of a bitwise operation with result `res`: zero follows the
/// result, half-carry is the constant that the operation forces.
pub open spec fn logic_flags(res: u8, half_carry: bool) -> Flags {
    Flags { zero: res == 0, subtraction: false, half_carry, carry: false }
}

/// The flags of a rotation: only the bit that left the byte.
pub open spec fn rotate_flags(carry: bool) -> Flags {
    Flags { zero: false, subtraction: false, half_carry: false, carry }
}

/// A byte rotated left by one bit: bit 7 comes back in as bit 0.
pub open spec fn rotl(a: u8) -> u8 {
    ((a * 2) % 256 + a / 128) as u8
}

/// A byte rotated right by one bit: bit 0 comes back in as bit 7.
pub open spec fn rotr(a: u8) -> u8 {
    (a / 2 + (a % 2) * 128) as u8
}

/// A byte shifted left by one bit, with the carry bit as the new bit 0.
pub open spec fn rotl_through(a: u8, carry: bool) -> u8 {
    ((a * 2) % 256 + bit(carry)) as u8
}

/// A byte shifted right by one bit, with the carry bit as the new bit 7.
pub open spec fn rotr_through(a: u8, carry: bool) -> u8 {
    (a / 2 + bit(carry) * 128) as u8
}

/// `rotl` applied `n` times.
pub open spec fn rotl_times(a: u8, n: nat) -> u8
    decreases n,
{
    if n == 0 {
        a
    } else {
        rotl(rotl_times(a, (n - 1) as nat))
    }
}

/// The low nibble of a byte is its remainder modulo 16, and the top bit of a
/// byte is set from 128 on.
pub proof fn lemma_nibble(a: u8)
    ensures
        a & 0xF == a % 16,
        ((a >> 7) & 1 == 1) <==> a >= 128,
        ((a & 1) == 1) <==> a % 2 == 1,
{
    assert(a & 0xF == a % 16 && (((a >> 7) & 1 == 1) <==> a >= 128) && (((a & 1) == 1) <==> a % 2
        == 1)) by (bit_vector);
}

/// The wrapped sum of two bytes and whether it left the byte.
fn overflowing_add(a: u8, b: u8) -> (r: (u8, bool))
    ensures
        r.0 == (a + b) % 256,
        r.1 == (a + b > 255),
{
    let wide: u16 = a as u16 + b as u16;
    if wide > 0xFF {
        ((wide - 0x100) as u8, true)
    } else {
        (wide as u8, false)
    }
}

/// The wrapped difference of two bytes and whether it borrowed.
fn overflowing_sub(a: u8, b: u8) -> (r: (u8, bool))
    ensures
        r.0 == (a - b) % 256,
        r.1 == (a < b),
{
    if a < b {
        let wide: u16 = 0x100 + a as u16 - b as u16;
        (wide as u8, true)
    } else {
        (a - b, false)
    }
}

/// A carry bit as a byte.
fn carry_byte(carry: bool) -> (r: u8)
    ensures
        r == bit(carry),
{
    if carry {
        1
    } else {
        0
    }
}

/// Adds two bytes and a carry bit.
pub fn add_with_carry(num1: u8, num2: u8, carry: bool) -> (r: AluResult)
    ensures
        r.res == add_result(num1, num2, carry),
        r.info@ == add_flags(num1, num2, carry),
        r.res == (num1 + num2 + bit(carry)) % 256,
        r.info@.carry <==> num1 + num2 + bit(carry) > 255,
        r.info@.half_carry <==> (num1 & 0xF) + (num2 & 0xF) + bit(carry) > 0xF,
{
    let (intermediate, carry1) = overflowing_add(num1, num2);
    let (result, carry2) = overflowing_add(intermediate, carry_byte(carry));

    let mut info = AluResultInfo::empty();
    info.set(AluResultInfo::zero(), result == 0);
    info.set(AluResultInfo::subtraction(), false);

    proof {
        lemma_nibble(num1);
        lemma_nibble(num2);
    }
    let half_carry = (num1 & 0xF) + (num2 & 0xF) + carry_byte(carry) > 0xF;
    info.set(AluResultInfo::half_carry(), half_carry);
    info.set(AluResultInfo::carry(), carry1 || carry2);

    AluResult { res: result, info }
}

/// Subtracts a byte and a borrow bit from a byte.
pub fn subtract_with_carry(num1: u8, num2: u8, carry: bool) -> (r: AluResult)
    ensures
        r.res == sub_result(num1, num2, carry),
        r.info@ == sub_flags(num1, num2, carry),
        r.res == (num1 - num2 - bit(carry)) % 256,
        r.info@.carry <==> num1 < num2 + bit(carry),
        r.info@.half_carry <==> (num1 & 0xF) < (num2 & 0xF) + bit(carry),
{
    let (intermediate, borrow1) = overflowing_sub(num1, num2);
    let (result, borrow2) = overflowing_sub(intermediate, carry_byte(carry));

    let mut info = AluResultInfo::empty();
    info.set(AluResultInfo::zero(), result == 0);
    info.set(AluResultInfo::subtraction(), true);

    proof {
        lemma_nibble(num1);
        lemma_nibble(num2);
    }
    let half_borrow = (num1 & 0xF) < (num2 & 0xF) + carry_byte(carry);
    info.set(AluResultInfo::half_carry(), half_borrow);
    info.set(AluResultInfo::carry(), borrow1 || borrow2);

    AluResult { res: result, info }
}

/// Bitwise AND; half-carry is forced on.
pub fn bitwise_and(num1: u8, num2: u8) -> (r: AluResult)
    ensures
        r.res == num1 & num2,
        r.info@ == logic_flags(r.res, true),
{
    let res = num1 & num2;
    let mut info = AluResultInfo::empty();
    info.set(AluResultInfo::zero(), res == 0);
    info.set(AluResultInfo::subtraction(), false);
    info.set(AluResultInfo::half_carry(), true);
    info.set(AluResultInfo::carry(), false);

    AluResult { res, info }
}

/// Bitwise XOR; half-carry is forced off.
pub fn bitwise_xor(num1: u8, num2: u8) -> (r: AluResult)
    ensures
        r.res == num1 ^ num2,
        r.info@ == logic_flags(r.res, false),
{
    let res = num1 ^ num2;
    let mut info = AluResultInfo::empty();
    info.set(AluResultInfo::zero(), res == 0);
    info.set(AluResultInfo::subtraction(), false);
    info.set(AluResultInfo::half_carry(), false);
    info.set(AluResultInfo::carry(), false);

    AluResult { res, info }
}

/// Bitwise OR; half-carry is forced off.
pub fn bitwise_or(num1: u8, num2: u8) -> (r: AluResult)
    ensures
        r.res == num1 | num2,
        r.info@ == logic_flags(r.res, false),
{
    let res = num1 | num2;
    let mut info = AluResultInfo::empty();
    info.set(AluResultInfo::zero(), res == 0);
    info.set(AluResultInfo::subtraction(), false);
    info.set(AluResultInfo::half_carry(), false);
    info.set(AluResultInfo::carry(), false);

    AluResult { res, info }
}

/// Rotates a byte left by one bit; carry takes the bit that left at the top.
pub fn rotate_left(num: u8) -> (r: AluResult)
    ensures
        r.res == rotl(num),
        r.info@ == rotate_flags(num >= 128),
{
    let res = (num << 1) | (num >> 7);
    proof {
        assert((num << 1) | (num >> 7) == (num * 2) % 256 + num / 128) by (bit_vector);
        lemma_nibble(num);
    }
    let mut info = AluResultInfo::empty();
    info.set(AluResultInfo::carry(), (num >> 7) & 0b1 == 1);
    AluResult { res, info }
}

/// Rotates a byte right by one bit; carry takes the bit that left at the bottom.
pub fn rotate_right(num: u8) -> (r: AluResult)
    ensures
        r.res == rotr(num),
        r.info@ == rotate_flags(num % 2 == 1),
{
    let res = (num >> 1) | (num << 7);
    proof {
        assert((num >> 1) | (num << 7) == num / 2 + (num % 2) * 128) by (bit_vector);
        lemma_nibble(num);
    }
    let mut info = AluResultInfo::empty();
    info.set(AluResultInfo::carry(), (num & 0b1) == 1);
    AluResult { res, info }
}

/// Rotates the nine bits of a byte and a carry bit left: the carry bit comes
/// in at the bottom, and carry takes the bit that left at the top.
pub fn rotate_left_through_carry(num: u8, carry: bool) -> (r: AluResult)
    ensures
        r.res == rotl_through(num, carry),
        r.info@ == rotate_flags(num >= 128),
{
    let low = carry_byte(carry);
    let res = (num << 1) | low;
    proof {
        assert((num << 1) | low == (num * 2) % 256 + low) by (bit_vector)
            requires
                low <= 1,
        ;
        lemma_nibble(num);
    }
    let mut info = AluResultInfo::empty();
    info.set(AluResultInfo::carry(), (num >> 7) & 0b1 == 1);
    AluResult { res, info }
}

/// Rotates the nine bits of a byte and a carry bit right: the carry bit comes
/// in at the top, and carry takes the bit that left at the bottom.
pub fn rotate_right_through_carry(num: u8, carry: bool) -> (r: AluResult)
    ensures
        r.res == rotr_through(num, carry),
        r.info@ == rotate_flags(num % 2 == 1),
{
    let low = carry_byte(carry);
    let res = (num >> 1) | (low << 7);
    proof {
        assert((num >> 1) | (low << 7) == num / 2 + low * 128) by (bit_vector)
            requires
                low <= 1,
        ;
        lemma_nibble(num);
    }
    let mut info = AluResultInfo::empty();
    info.set(AluResultInfo::carry(), (num & 0b1) == 1);
    AluResult { res, info }
}

/// Subtracting what was added, with the same carry bit, gives back the first
/// operand.
pub proof fn lemma_subtract_undoes_add(a: u8, b: u8, carry: bool)
    ensures
        sub_result(add_result(a, b, carry), b, carry) == a,
{
}

/// Eight rotations to the left give back the byte, and so do eight to the
/// right: one rotation to the right undoes one to the left.
pub proof fn lemma_rotate_left_eight_times(a: u8)
    ensures
        rotl_times(a, 8) == a,
        rotr(rotl(a)) == a,
        rotl(rotr(a)) == a,
{
    reveal_with_fuel(rotl_times, 9);
    assert(rotl(rotl(rotl(rotl(rotl(rotl(rotl(rotl(a)))))))) == a && rotr(rotl(a)) == a && rotl(
        rotr(a),
    ) == a) by (bit_vector);
}

} // verus!
