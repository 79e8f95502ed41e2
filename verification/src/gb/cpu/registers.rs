//! The register file: seven 8-bit cells, the stack pointer and the program
//! counter, and the flags register.

use vstd::prelude::*;
use crate::gb::cpu::alu::{
    lemma_flag_bits, lemma_flag_constants, lemma_flag_difference, lemma_flag_includes,
    lemma_flag_intersection, lemma_flag_truncate, lemma_flag_union, AluResultInfo, Flags, CARRY_BIT,
    FLAG_BITS, HALF_CARRY_BIT, SUBTRACTION_BIT, ZERO_BIT,
};
use crate::gb::cpu::instruction::{R16Mem, R16Stk, R16, R8};

verus! {

/// The name of an 8-bit register.
#[derive(Clone, Copy, Debug, PartialEq, Eq)]
pub enum Register8Bit {
    A,
    B,
    C,
    D,
    E,
    H,
    L,
}

impl Register8Bit {
    /// The register that an operand selector names; `None` for the selector
    /// of the memory byte at HL, which names no register.
    pub open spec fn of(operand: R8) -> Option<Register8Bit> {
        match operand {
            R8::B => Some(Register8Bit::B),
            R8::C => Some(Register8Bit::C),
            R8::D => Some(Register8Bit::D),
            R8::E => Some(Register8Bit::E),
            R8::H => Some(Register8Bit::H),
            R8::L => Some(Register8Bit::L),
            R8::HLMem => None,
            R8::A => Some(Register8Bit::A),
        }
    }
}

impl TryFrom<R8> for Register8Bit {
    type Error = &'static str;

    #[inline]
    fn try_from(value: R8) -> (r: Result<Register8Bit, &'static str>) {
        match value {
            R8::B => Ok(Register8Bit::B),
            R8::C => Ok(Register8Bit::C),
            R8::D => Ok(Register8Bit::D),
            R8::E => Ok(Register8Bit::E),
            R8::H => Ok(Register8Bit::H),
            R8::L => Ok(Register8Bit::L),
            R8::HLMem => Err("R8::HLMem cannot be converted into Register8Bit"),
            R8::A => Ok(Register8Bit::A),
        }
    }
}

impl vstd::std_specs::convert::TryFromSpecImpl<R8> for Register8Bit {
    open spec fn obeys_try_from_spec() -> bool {
        true
    }

    open spec fn try_from_spec(value: R8) -> Result<Register8Bit, &'static str> {
        match Register8Bit::of(value) {
            Some(register) => Ok(register),
            None => Err("R8::HLMem cannot be converted into Register8Bit"),
        }
    }
}

/// The name of a 16-bit register or register pair.
#[derive(Clone, Copy, Debug, PartialEq, Eq)]
pub enum Register16Bit {
    AF,
    BC,
    DE,
    HL,
    SP,
    PC,
}

impl Register16Bit {
    /// The register that a selector of the load and arithmetic opcodes names.
    pub open spec fn of(selector: R16) -> Register16Bit {
        match selector {
            R16::BC => Register16Bit::BC,
            R16::DE => Register16Bit::DE,
            R16::HL => Register16Bit::HL,
            R16::SP => Register16Bit::SP,
        }
    }

    /// The register pair that holds the address for an address selector.
    pub open spec fn of_address(selector: R16Mem) -> Register16Bit {
        match selector {
            R16Mem::BC => Register16Bit::BC,
            R16Mem::DE => Register16Bit::DE,
            R16Mem::HLInc | R16Mem::HLDec => Register16Bit::HL,
        }
    }

    /// The register pair that a selector of the stack opcodes names.
    pub open spec fn of_stack(selector: R16Stk) -> Register16Bit {
        match selector {
            R16Stk::BC => Register16Bit::BC,
            R16Stk::DE => Register16Bit::DE,
            R16Stk::HL => Register16Bit::HL,
            R16Stk::AF => Register16Bit::AF,
        }
    }
}

impl From<R16> for Register16Bit {
    #[inline]
    fn from(value: R16) -> (r: Register16Bit) {
        match value {
            R16::BC => Register16Bit::BC,
            R16::DE => Register16Bit::DE,
            R16::HL => Register16Bit::HL,
            R16::SP => Register16Bit::SP,
        }
    }
}

impl vstd::std_specs::convert::FromSpecImpl<R16> for Register16Bit {
    open spec fn obeys_from_spec() -> bool {
        true
    }

    open spec fn from_spec(value: R16) -> Register16Bit {
        Register16Bit::of(value)
    }
}

impl From<R16Mem> for Register16Bit {
    #[inline]
    fn from(value: R16Mem) -> (r: Register16Bit) {
        match value {
            R16Mem::BC => Register16Bit::BC,
            R16Mem::DE => Register16Bit::DE,
            R16Mem::HLInc | R16Mem::HLDec => Register16Bit::HL,
        }
    }
}

impl vstd::std_specs::convert::FromSpecImpl<R16Mem> for Register16Bit {
    open spec fn obeys_from_spec() -> bool {
        true
    }

    open spec fn from_spec(value: R16Mem) -> Register16Bit {
        Register16Bit::of_address(value)
    }
}

impl From<R16Stk> for Register16Bit {
    #[inline]
    fn from(value: R16Stk) -> (r: Register16Bit) {
        match value {
            R16Stk::BC => Register16Bit::BC,
            R16Stk::DE => Register16Bit::DE,
            R16Stk::HL => Register16Bit::HL,
            R16Stk::AF => Register16Bit::AF,
        }
    }
}

impl vstd::std_specs::convert::FromSpecImpl<R16Stk> for Register16Bit {
    open spec fn obeys_from_spec() -> bool {
        true
    }

    open spec fn from_spec(value: R16Stk) -> Register16Bit {
        Register16Bit::of_stack(value)
    }
}

/// The flags register: one bit per flag in the high nibble of a byte, the low
/// nibble always clear.
#[derive(Clone, Copy, Debug, PartialEq, Eq)]
pub struct FlagsRegister {
    bits: u8,
}

impl View for FlagsRegister {
    type V = Flags;

    closed spec fn view(&self) -> Flags {
        Flags::of_bits(self.bits)
    }
}

impl FlagsRegister {
    #[verifier::type_invariant]
    closed spec fn low_nibble_clear(self) -> bool {
        self.bits & 0x0F == 0
    }

    /// No flag.
    pub fn empty() -> (r: FlagsRegister)
        ensures
            r@ == Flags::none(),
    {
        proof {
            lemma_flag_constants();
        }
        FlagsRegister::from_bits_truncate(0)
    }

    /// All four flags.
    pub fn all() -> (r: FlagsRegister)
        ensures
            r@ == Flags::every(),
    {
        proof {
            lemma_flag_constants();
        }
        FlagsRegister::from_bits_truncate(FLAG_BITS)
    }

    /// The zero flag alone.
    pub fn zero() -> (r: FlagsRegister)
        ensures
            r@ == Flags::only_zero(),
    {
        proof {
            lemma_flag_constants();
        }
        FlagsRegister::from_bits_truncate(ZERO_BIT)
    }

    /// The subtraction flag alone.
    pub fn subtraction() -> (r: FlagsRegister)
        ensures
            r@ == Flags::only_subtraction(),
    {
        proof {
            lemma_flag_constants();
        }
        FlagsRegister::from_bits_truncate(SUBTRACTION_BIT)
    }

    /// The half-carry flag alone.
    pub fn half_carry() -> (r: FlagsRegister)
        ensures
            r@ == Flags::only_half_carry(),
    {
        proof {
            lemma_flag_constants();
        }
        FlagsRegister::from_bits_truncate(HALF_CARRY_BIT)
    }

    /// The carry flag alone.
    pub fn carry() -> (r: FlagsRegister)
        ensures
            r@ == Flags::only_carry(),
    {
        proof {
            lemma_flag_constants();
        }
        FlagsRegister::from_bits_truncate(CARRY_BIT)
    }

    /// The flags that a byte holds in its high nibble; its low nibble is
    /// dropped.
    pub fn from_bits_truncate(bits: u8) -> (r: FlagsRegister)
        ensures
            r@ == Flags::of_bits(bits),
    {
        proof {
            lemma_flag_truncate(bits);
        }
        FlagsRegister { bits: bits & FLAG_BITS }
    }

    /// The flag byte: the flags in bits 7 to 4, the low nibble clear.
    pub fn bits(&self) -> (r: u8)
        ensures
            r == self@.bits(),
            Flags::of_bits(r) == self@,
    {
        proof {
            use_type_invariant(self);
            lemma_flag_bits(self.bits);
        }
        self.bits
    }

    /// Whether every flag of `other` is set in `self`.
    pub fn contains(&self, other: FlagsRegister) -> (r: bool)
        ensures
            r == self@.includes(other@),
    {
        proof {
            use_type_invariant(&other);
            lemma_flag_includes(self.bits, other.bits);
        }
        self.bits & other.bits == other.bits
    }

    /// Sets the flags of `other`.
    pub fn insert(&mut self, other: FlagsRegister)
        ensures
            final(self)@ == old(self)@.union(other@),
    {
        proof {
            use_type_invariant(&*self);
            use_type_invariant(&other);
            lemma_flag_union(self.bits, other.bits);
        }
        self.bits = self.bits | other.bits;
    }

    /// Clears the flags of `other`.
    pub fn remove(&mut self, other: FlagsRegister)
        ensures
            final(self)@ == old(self)@.difference(other@),
    {
        proof {
            use_type_invariant(&*self);
            lemma_flag_difference(self.bits, other.bits);
        }
        self.bits = self.bits & !other.bits;
    }

    /// Sets the flags of `other` if `value` holds, and clears them otherwise.
    pub fn set(&mut self, other: FlagsRegister, value: bool)
        ensures
            final(self)@ == old(self)@.with(other@, value),
    {
        if value {
            self.insert(other);
        } else {
            self.remove(other);
        }
    }
}

impl core::ops::BitOr for FlagsRegister {
    type Output = FlagsRegister;

    /// The flags set in either operand.
    #[inline]
    fn bitor(self, rhs: FlagsRegister) -> (r: FlagsRegister)
        ensures
            r@ == self@.union(rhs@),
    {
        proof {
            use_type_invariant(&self);
            use_type_invariant(&rhs);
            lemma_flag_union(self.bits, rhs.bits);
        }
        FlagsRegister { bits: self.bits | rhs.bits }
    }
}

impl vstd::std_specs::ops::BitOrSpecImpl for FlagsRegister {
    open spec fn obeys_bitor_spec() -> bool {
        true
    }

    open spec fn bitor_req(self, rhs: FlagsRegister) -> bool {
        true
    }

    closed spec fn bitor_spec(self, rhs: FlagsRegister) -> FlagsRegister {
        FlagsRegister { bits: self.bits | rhs.bits }
    }
}

impl core::ops::BitAnd for FlagsRegister {
    type Output = FlagsRegister;

    /// The flags set in both operands.
    #[inline]
    fn bitand(self, rhs: FlagsRegister) -> (r: FlagsRegister)
        ensures
            r@ == self@.intersection(rhs@),
    {
        proof {
            use_type_invariant(&self);
            lemma_flag_intersection(self.bits, rhs.bits);
        }
        FlagsRegister { bits: self.bits & rhs.bits }
    }
}

impl vstd::std_specs::ops::BitAndSpecImpl for FlagsRegister {
    open spec fn obeys_bitand_spec() -> bool {
        true
    }

    open spec fn bitand_req(self, rhs: FlagsRegister) -> bool {
        true
    }

    closed spec fn bitand_spec(self, rhs: FlagsRegister) -> FlagsRegister {
        FlagsRegister { bits: self.bits & rhs.bits }
    }
}

/// The 16-bit value whose upper half is `high` and whose lower half is `low`.
pub open spec fn pair(high: u8, low: u8) -> u16 {
    (high * 256 + low) as u16
}

/// The upper half of a 16-bit value.
pub open spec fn high_byte(val: u16) -> u8 {
    (val / 256) as u8
}

/// The lower half of a 16-bit value.
pub open spec fn low_byte(val: u16) -> u8 {
    (val % 256) as u8
}

/// The contents of the register file.
pub struct RegisterFile {
    pub a: u8,
    pub f: Flags,
    pub b: u8,
    pub c: u8,
    pub d: u8,
    pub e: u8,
    pub h: u8,
    pub l: u8,
    pub sp: u16,
    pub pc: u16,
}

impl RegisterFile {
    /// Every cell zero and no flag set.
    pub open spec fn zeroed() -> RegisterFile {
        RegisterFile { a: 0, f: Flags::none(), b: 0, c: 0, d: 0, e: 0, h: 0, l: 0, sp: 0, pc: 0 }
    }

    /// The cell that `register` names.
    pub open spec fn read8(self, register: Register8Bit) -> u8 {
        match register {
            Register8Bit::A => self.a,
            Register8Bit::B => self.b,
            Register8Bit::C => self.c,
            Register8Bit::D => self.d,
            Register8Bit::E => self.e,
            Register8Bit::H => self.h,
            Register8Bit::L => self.l,
        }
    }

    /// The file with `val` in the cell that `register` names.
    pub open spec fn write8(self, register: Register8Bit, val: u8) -> RegisterFile {
        match register {
            Register8Bit::A => RegisterFile { a: val, ..self },
            Register8Bit::B => RegisterFile { b: val, ..self },
            Register8Bit::C => RegisterFile { c: val, ..self },
            Register8Bit::D => RegisterFile { d: val, ..self },
            Register8Bit::E => RegisterFile { e: val, ..self },
            Register8Bit::H => RegisterFile { h: val, ..self },
            Register8Bit::L => RegisterFile { l: val, ..self },
        }
    }

    /// The 16-bit value that `register` names. A pair has its first register
    /// as upper half; the lower half of AF is the flag byte.
    pub open spec fn read16(self, register: Register16Bit) -> u16 {
        match register {
            Register16Bit::AF => pair(self.a, self.f.bits()),
            Register16Bit::BC => pair(self.b, self.c),
            Register16Bit::DE => pair(self.d, self.e),
            Register16Bit::HL => pair(self.h, self.l),
            Register16Bit::SP => self.sp,
            Register16Bit::PC => self.pc,
        }
    }

    /// The file with `val` in what `register` names. Of the lower half of
    /// AF only the four flag bits are kept.
    pub open spec fn write16(self, register: Register16Bit, val: u16) -> RegisterFile {
        match register {
            Register16Bit::AF => RegisterFile {
                a: high_byte(val),
                f: Flags::of_bits(low_byte(val)),
                ..self
            },
            Register16Bit::BC => RegisterFile { b: high_byte(val), c: low_byte(val), ..self },
            Register16Bit::DE => RegisterFile { d: high_byte(val), e: low_byte(val), ..self },
            Register16Bit::HL => RegisterFile { h: high_byte(val), l: low_byte(val), ..self },
            Register16Bit::SP => RegisterFile { sp: val, ..self },
            Register16Bit::PC => RegisterFile { pc: val, ..self },
        }
    }

    /// The file after a masked commit of flags: the flags in `mask` are taken
    /// from `new`, the others stay.
    pub open spec fn commit_flags(self, new: Flags, mask: Flags) -> RegisterFile {
        RegisterFile { f: self.f.commit(new, mask), ..self }
    }
}

/// The register file of the processor.
pub struct Registers {
    a: u8,
    f: FlagsRegister,
    b: u8,
    c: u8,
    d: u8,
    e: u8,
    h: u8,
    l: u8,
    sp: u16,
    pc: u16,
}

impl View for Registers {
    type V = RegisterFile;

    closed spec fn view(&self) -> RegisterFile {
        RegisterFile {
            a: self.a,
            f: self.f@,
            b: self.b,
            c: self.c,
            d: self.d,
            e: self.e,
            h: self.h,
            l: self.l,
            sp: self.sp,
            pc: self.pc,
        }
    }
}

impl Registers {
    pub fn new() -> (r: Registers)
        ensures
            r@ == RegisterFile::zeroed(),
    {
        Registers {
            a: 0x00,
            f: FlagsRegister::empty(),
            b: 0x00,
            c: 0x00,
            d: 0x00,
            e: 0x00,
            h: 0x00,
            l: 0x00,
            sp: 0x0000,
            pc: 0x0000,
        }
    }

    #[inline]
    pub fn get_flags(&self) -> (r: FlagsRegister)
        ensures
            r@ == self@.f,
    {
        self.f
    }

    #[inline]
    pub fn get_register_8bit(&self, register: Register8Bit) -> (r: u8)
        ensures
            r == self@.read8(register),
    {
        match register {
            Register8Bit::A => self.a,
            Register8Bit::B => self.b,
            Register8Bit::C => self.c,
            Register8Bit::D => self.d,
            Register8Bit::E => self.e,
            Register8Bit::H => self.h,
            Register8Bit::L => self.l,
        }
    }

    #[inline]
    pub fn set_register_8bit(&mut self, register: Register8Bit, val: u8)
        ensures
            final(self)@ == old(self)@.write8(register, val),
    {
        match register {
            Register8Bit::A => self.a = val,
            Register8Bit::B => self.b = val,
            Register8Bit::C => self.c = val,
            Register8Bit::D => self.d = val,
            Register8Bit::E => self.e = val,
            Register8Bit::H => self.h = val,
            Register8Bit::L => self.l = val,
        }
    }

    #[inline]
    pub fn get_register_16bit(&self, register: Register16Bit) -> (r: u16)
        ensures
            r == self@.read16(register),
    {
        match register {
            Register16Bit::AF => {
                let flag_byte = self.f.bits();
                proof {
                    lemma_flag_truncate(flag_byte);
                    lemma_flag_bits(flag_byte & 0xF0);
                }
                join(self.a, flag_byte & 0xF0)
            },
            Register16Bit::BC => join(self.b, self.c),
            Register16Bit::DE => join(self.d, self.e),
            Register16Bit::HL => join(self.h, self.l),
            Register16Bit::SP => self.sp,
            Register16Bit::PC => self.pc,
        }
    }

    #[inline]
    pub fn set_register_16bit(&mut self, register: Register16Bit, val: u16)
        ensures
            final(self)@ == old(self)@.write16(register, val),
    {
        proof {
            lemma_halves_bits(val);
        }
        let low = (val & 0x00FF) as u8;
        let high = (val >> 8) as u8;

        match register {
            Register16Bit::AF => {
                proof {
                    lemma_flag_truncate(low);
                }
                self.a = high;
                self.f = FlagsRegister::from_bits_truncate(low & 0xF0);
            },
            Register16Bit::BC => {
                self.b = high;
                self.c = low;
            },
            Register16Bit::DE => {
                self.d = high;
                self.e = low;
            },
            Register16Bit::HL => {
                self.h = high;
                self.l = low;
            },
            Register16Bit::SP => self.sp = val,
            Register16Bit::PC => self.pc = val,
        }
    }

    /// Commits the flags of an ALU result under a mask: the flags in `mask`
    /// are cleared and then taken from `res_info`; the others stay.
    pub fn set_flags_from_alu_res_info(&mut self, res_info: &AluResultInfo, mask: FlagsRegister)
        ensures
            final(self)@ == old(self)@.commit_flags(res_info@, mask@),
    {
        self.f.remove(mask);
        self.f.insert(FlagsRegister::from_bits_truncate(res_info.bits()) & mask);
    }

    /// Commits flags under a mask: the flags in `mask` are cleared and then
    /// taken from `new_flags`; the others stay.
    pub fn set_flags(&mut self, new_flags: &FlagsRegister, mask: FlagsRegister)
        ensures
            final(self)@ == old(self)@.commit_flags(new_flags@, mask@),
    {
        self.f.remove(mask);
        self.f.insert(FlagsRegister::from_bits_truncate(new_flags.bits()) & mask);
    }
}

impl Default for Registers {
    fn default() -> (r: Registers)
        ensures
            r@ == RegisterFile::zeroed(),
    {
        Registers::new()
    }
}

/// Composes a 16-bit value from its upper and lower half.
fn join(high: u8, low: u8) -> (r: u16)
    ensures
        r == pair(high, low),
{
    proof {
        lemma_pair_bits(high, low);
    }
    (high as u16) << 8 | (low as u16)
}

/// Shifting the upper half into place and joining the lower half to it
/// composes the pair.
pub proof fn lemma_pair_bits(high: u8, low: u8)
    ensures
        (high as u16) << 8 | (low as u16) == pair(high, low),
{
    assert((high as u16) << 8 | (low as u16) == (high as u16) * 256 + (low as u16)) by (bit_vector);
}

/// Masking gives the lower half of a 16-bit value and shifting the upper.
pub proof fn lemma_halves_bits(val: u16)
    ensures
        (val & 0xFF) as u8 == low_byte(val),
        (val >> 8) as u8 == high_byte(val),
{
    assert(val & 0xFF == val % 256 && val >> 8 == val / 256) by (bit_vector);
}

/// What is written to AF reads back with the low nibble clear.
pub proof fn lemma_af_round_trip(regs: RegisterFile, val: u16)
    ensures
        regs.write16(Register16Bit::AF, val).read16(Register16Bit::AF) == val & 0xFFF0,
{
    let high = high_byte(val);
    let low = low_byte(val);
    lemma_flag_truncate(low);
    lemma_flag_bits(low & 0xF0);
    let kept = low & 0xF0;
    assert((high as u16) * 256 + (kept as u16) == val & 0xFFF0) by (bit_vector)
        requires
            high as u16 == val / 256,
            low as u16 == val % 256,
            kept == low & 0xF0,
    ;
}

/// What is written to a register pair other than AF reads back unchanged,
/// upper half first.
pub proof fn lemma_pair_round_trip(regs: RegisterFile, register: Register16Bit, val: u16)
    requires
        register != Register16Bit::AF,
    ensures
        regs.write16(register, val).read16(register) == val,
        pair(high_byte(val), low_byte(val)) == val,
{
}

/// A commit under a mask leaves every flag outside the mask as it was and
/// gives every flag inside it the new value. With the mask of carry alone it
/// changes carry and nothing else.
pub proof fn lemma_commit_flags_masked(regs: RegisterFile, new: Flags, mask: Flags)
    ensures
        ({
            let after = regs.commit_flags(new, mask);
            &&& after.f.zero == (if mask.zero { new.zero } else { regs.f.zero })
            &&& after.f.subtraction == (if mask.subtraction { new.subtraction } else { regs.f.subtraction })
            &&& after.f.half_carry == (if mask.half_carry { new.half_carry } else { regs.f.half_carry })
            &&& after.f.carry == (if mask.carry { new.carry } else { regs.f.carry })
            &&& after == (RegisterFile { f: after.f, ..regs })
        }),
        regs.commit_flags(new, Flags::only_carry()) == (RegisterFile {
            f: Flags { carry: new.carry, ..regs.f },
            ..regs
        }),
{
}

} // verus!
