//! The instruction decoder: the bit fields of an opcode byte and the tables
//! from field values to operand selectors.

use vstd::prelude::*;

verus! {

/// An opcode byte together with its decoded fields.
pub struct Instruction {
    pub opcode: u8,
    pub decoded: DecodedOpcode,
}

impl From<u8> for Instruction {
    #[inline]
    fn from(value: u8) -> (r: Instruction) {
        Instruction { opcode: value, decoded: DecodedOpcode::from(value) }
    }
}

impl vstd::std_specs::convert::FromSpecImpl<u8> for Instruction {
    open spec fn obeys_from_spec() -> bool {
        true
    }

    open spec fn from_spec(value: u8) -> Instruction {
        Instruction { opcode: value, decoded: DecodedOpcode::fields(value) }
    }
}

/// A field value for which a selector table has no entry.
#[derive(Clone, Copy, Debug, PartialEq, Eq)]
pub struct InvalidIndex {
    pub number: u8,
}

/// An 8-bit operand selector: one of the seven registers, or the memory byte
/// that the register pair HL points to.
#[derive(Clone, Copy, Debug, PartialEq, Eq)]
pub enum R8 {
    B,
    C,
    D,
    E,
    H,
    L,
    HLMem,
    A,
}

impl R8 {
    /// The selector at `index`, for `index` from 0 to 7.
    pub open spec fn at(index: u8) -> R8 {
        if index == 0 {
            R8::B
        } else if index == 1 {
            R8::C
        } else if index == 2 {
            R8::D
        } else if index == 3 {
            R8::E
        } else if index == 4 {
            R8::H
        } else if index == 5 {
            R8::L
        } else if index == 6 {
            R8::HLMem
        } else {
            R8::A
        }
    }
}

impl TryFrom<u8> for R8 {
    type Error = InvalidIndex;

    fn try_from(number: u8) -> (r: Result<R8, InvalidIndex>) {
        match number {
            0b000 => Ok(R8::B),
            0b001 => Ok(R8::C),
            0b010 => Ok(R8::D),
            0b011 => Ok(R8::E),
            0b100 => Ok(R8::H),
            0b101 => Ok(R8::L),
            0b110 => Ok(R8::HLMem),
            0b111 => Ok(R8::A),
            _ => Err(InvalidIndex { number }),
        }
    }
}

impl vstd::std_specs::convert::TryFromSpecImpl<u8> for R8 {
    open spec fn obeys_try_from_spec() -> bool {
        true
    }

    open spec fn try_from_spec(number: u8) -> Result<R8, InvalidIndex> {
        if number < 8 {
            Ok(R8::at(number))
        } else {
            Err(InvalidIndex { number })
        }
    }
}

/// A 16-bit register selector of the load and arithmetic opcodes.
#[derive(Clone, Copy, Debug, PartialEq, Eq)]
pub enum R16 {
    BC,
    DE,
    HL,
    SP,
}

impl R16 {
    /// The selector at `index`, for `index` from 0 to 3.
    pub open spec fn at(index: u8) -> R16 {
        if index == 0 {
            R16::BC
        } else if index == 1 {
            R16::DE
        } else if index == 2 {
            R16::HL
        } else {
            R16::SP
        }
    }
}

impl TryFrom<u8> for R16 {
    type Error = InvalidIndex;

    fn try_from(number: u8) -> (r: Result<R16, InvalidIndex>) {
        match number {
            0b00 => Ok(R16::BC),
            0b01 => Ok(R16::DE),
            0b10 => Ok(R16::HL),
            0b11 => Ok(R16::SP),
            _ => Err(InvalidIndex { number }),
        }
    }
}

impl vstd::std_specs::convert::TryFromSpecImpl<u8> for R16 {
    open spec fn obeys_try_from_spec() -> bool {
        true
    }

    open spec fn try_from_spec(number: u8) -> Result<R16, InvalidIndex> {
        if number < 4 {
            Ok(R16::at(number))
        } else {
            Err(InvalidIndex { number })
        }
    }
}

/// A register pair used as an address, with what happens to HL afterwards.
#[derive(Clone, Copy, Debug, PartialEq, Eq)]
pub enum R16Mem {
    BC,
    DE,
    HLInc,
    HLDec,
}

impl R16Mem {
    /// The selector at `index`, for `index` from 0 to 3.
    pub open spec fn at(index: u8) -> R16Mem {
        if index == 0 {
            R16Mem::BC
        } else if index == 1 {
            R16Mem::DE
        } else if index == 2 {
            R16Mem::HLInc
        } else {
            R16Mem::HLDec
        }
    }
}

impl TryFrom<u8> for R16Mem {
    type Error = InvalidIndex;

    fn try_from(number: u8) -> (r: Result<R16Mem, InvalidIndex>) {
        match number {
            0b00 => Ok(R16Mem::BC),
            0b01 => Ok(R16Mem::DE),
            0b10 => Ok(R16Mem::HLInc),
            0b11 => Ok(R16Mem::HLDec),
            _ => Err(InvalidIndex { number }),
        }
    }
}

impl vstd::std_specs::convert::TryFromSpecImpl<u8> for R16Mem {
    open spec fn obeys_try_from_spec() -> bool {
        true
    }

    open spec fn try_from_spec(number: u8) -> Result<R16Mem, InvalidIndex> {
        if number < 4 {
            Ok(R16Mem::at(number))
        } else {
            Err(InvalidIndex { number })
        }
    }
}

/// A register pair of the stack opcodes.
#[derive(Clone, Copy, Debug, PartialEq, Eq)]
pub enum R16Stk {
    BC,
    DE,
    HL,
    AF,
}

impl R16Stk {
    /// The selector at `index`, for `index` from 0 to 3.
    pub open spec fn at(index: u8) -> R16Stk {
        if index == 0 {
            R16Stk::BC
        } else if index == 1 {
            R16Stk::DE
        } else if index == 2 {
            R16Stk::HL
        } else {
            R16Stk::AF
        }
    }
}

impl TryFrom<u8> for R16Stk {
    type Error = InvalidIndex;

    fn try_from(number: u8) -> (r: Result<R16Stk, InvalidIndex>) {
        match number {
            0b00 => Ok(R16Stk::BC),
            0b01 => Ok(R16Stk::DE),
            0b10 => Ok(R16Stk::HL),
            0b11 => Ok(R16Stk::AF),
            _ => Err(InvalidIndex { number }),
        }
    }
}

impl vstd::std_specs::convert::TryFromSpecImpl<u8> for R16Stk {
    open spec fn obeys_try_from_spec() -> bool {
        true
    }

    open spec fn try_from_spec(number: u8) -> Result<R16Stk, InvalidIndex> {
        if number < 4 {
            Ok(R16Stk::at(number))
        } else {
            Err(InvalidIndex { number })
        }
    }
}

/// The bit fields of an opcode byte: `x` is bits 7 to 6, `y` bits 5 to 3 and
/// `z` bits 2 to 0.
pub struct DecodedOpcode {
    pub x: u8,
    pub y: u8,
    pub z: u8,
}

impl DecodedOpcode {
    /// The fields of an opcode byte.
    pub open spec fn fields(opcode: u8) -> DecodedOpcode {
        DecodedOpcode { x: opcode / 64, y: (opcode / 8) % 8, z: opcode % 8 }
    }

    /// The byte that has these fields.
    pub open spec fn opcode(&self) -> int {
        self.x * 64 + self.y * 8 + self.z
    }

    /// Each field is as wide as its place in the byte. The fields of every
    /// opcode byte are.
    pub open spec fn wf(&self) -> bool {
        self.x < 4 && self.y < 8 && self.z < 8
    }

    /// The upper two bits of `y`.
    pub open spec fn p_field(&self) -> u8 {
        ((self.y / 2) % 4) as u8
    }

    /// The lowest bit of `y`.
    pub open spec fn q_field(&self) -> u8 {
        self.y % 2
    }

    #[inline]
    pub fn p(&self) -> (r: u8)
        ensures
            r == self.p_field(),
            r < 4,
    {
        let y = self.y;
        assert((y >> 1) & 0b11 == (y / 2) % 4) by (bit_vector);
        (self.y >> 1) & 0b11
    }

    #[inline]
    pub fn q(&self) -> (r: u8)
        ensures
            r == self.q_field(),
            r < 2,
    {
        let y = self.y;
        assert(y & 0b1 == y % 2) by (bit_vector);
        self.y & 0b1
    }

    /// The 8-bit operand that `y` selects.
    #[inline]
    pub fn r8_y(&self) -> (r: R8)
        requires
            self.y < 8,
        ensures
            r == R8::at(self.y),
    {
        R8::try_from(self.y).unwrap()
    }

    /// The 8-bit operand that `z` selects.
    #[inline]
    pub fn r8_z(&self) -> (r: R8)
        requires
            self.z < 8,
        ensures
            r == R8::at(self.z),
    {
        R8::try_from(self.z).unwrap()
    }

    /// The 16-bit register that `p` selects.
    #[inline]
    pub fn r16_p(&self) -> (r: R16)
        ensures
            r == R16::at(self.p_field()),
    {
        R16::try_from(self.p()).unwrap()
    }

    /// The address pair that `p` selects.
    #[inline]
    pub fn r16mem_p(&self) -> (r: R16Mem)
        ensures
            r == R16Mem::at(self.p_field()),
    {
        R16Mem::try_from(self.p()).unwrap()
    }

    /// The stack pair that `p` selects.
    #[inline]
    pub fn r16stk_p(&self) -> (r: R16Stk)
        ensures
            r == R16Stk::at(self.p_field()),
    {
        R16Stk::try_from(self.p()).unwrap()
    }
}

impl From<u8> for DecodedOpcode {
    #[inline]
    fn from(value: u8) -> (r: DecodedOpcode) {
        assert((value >> 6) & 0b11 == value / 64 && (value >> 3) & 0b111 == (value / 8) % 8 && value
            & 0b111 == value % 8) by (bit_vector);
        DecodedOpcode { x: (value >> 6) & 0b11, y: (value >> 3) & 0b111, z: value & 0b111 }
    }
}

impl vstd::std_specs::convert::FromSpecImpl<u8> for DecodedOpcode {
    open spec fn obeys_from_spec() -> bool {
        true
    }

    open spec fn from_spec(value: u8) -> DecodedOpcode {
        DecodedOpcode::fields(value)
    }
}

/// Decoding is total: the fields of every opcode byte are well formed, and
/// they give the byte back.
pub proof fn lemma_fields_total(opcode: u8)
    ensures
        DecodedOpcode::fields(opcode).wf(),
        DecodedOpcode::fields(opcode).opcode() == opcode,
{
}

} // verus!
