//! What the processor does, as mathematics: the machine state, the table from
//! opcode fields to operations, and the effect of each operation.

use vstd::prelude::*;
use crate::gb::cpu::alu::{
    add_flags, add_result, logic_flags, rotate_flags, rotl, rotl_through, rotr, rotr_through,
    sub_flags, sub_result, Flags,
};
use crate::gb::cpu::instruction::{DecodedOpcode, R16Mem, R16, R8};
use crate::gb::cpu::registers::{
    high_byte, low_byte, pair, Register16Bit, Register8Bit, RegisterFile,
};

verus! {

/// The eight operations of the ALU block, in the order of their field value.
pub enum AluOp {
    Add,
    Adc,
    Sub,
    Sbc,
    And,
    Xor,
    Or,
    Cp,
}

impl AluOp {
    /// The operation at `index`, for `index` from 0 to 7.
    pub open spec fn at(index: u8) -> AluOp {
        if index == 0 {
            AluOp::Add
        } else if index == 1 {
            AluOp::Adc
        } else if index == 2 {
            AluOp::Sub
        } else if index == 3 {
            AluOp::Sbc
        } else if index == 4 {
            AluOp::And
        } else if index == 5 {
            AluOp::Xor
        } else if index == 6 {
            AluOp::Or
        } else {
            AluOp::Cp
        }
    }

    /// The result byte of the operation on the accumulator `a`, the operand
    /// `b` and the carry flag.
    pub open spec fn result(self, a: u8, b: u8, carry: bool) -> u8 {
        match self {
            AluOp::Add => add_result(a, b, false),
            AluOp::Adc => add_result(a, b, carry),
            AluOp::Sub => sub_result(a, b, false),
            AluOp::Sbc => sub_result(a, b, carry),
            AluOp::And => a & b,
            AluOp::Xor => a ^ b,
            AluOp::Or => a | b,
            AluOp::Cp => sub_result(a, b, false),
        }
    }

    /// The flags of the operation.
    pub open spec fn flags(self, a: u8, b: u8, carry: bool) -> Flags {
        match self {
            AluOp::Add => add_flags(a, b, false),
            AluOp::Adc => add_flags(a, b, carry),
            AluOp::Sub => sub_flags(a, b, false),
            AluOp::Sbc => sub_flags(a, b, carry),
            AluOp::And => logic_flags(a & b, true),
            AluOp::Xor => logic_flags(a ^ b, false),
            AluOp::Or => logic_flags(a | b, false),
            AluOp::Cp => sub_flags(a, b, false),
        }
    }

    /// Whether the result goes to the accumulator: not for a comparison,
    /// which subtracts for the flags alone.
    pub open spec fn writes_back(self) -> bool {
        !(self is Cp)
    }
}

/// The operations that the processor carries out.
pub enum Operation {
    /// Nothing.
    Nop,
    /// A 16-bit register takes the two bytes after the opcode.
    LoadImm16(R16),
    /// The accumulator goes to the address in a register pair.
    StoreAcc(R16Mem),
    /// The accumulator takes the byte at the address in a register pair.
    LoadAcc(R16Mem),
    /// The stack pointer goes to the address in the two bytes after the
    /// opcode, lower half first.
    StoreSp,
    /// A 16-bit register goes up by one.
    Inc16(R16),
    /// A 16-bit register goes down by one.
    Dec16(R16),
    /// A 16-bit register is added to HL.
    AddHl(R16),
    /// An 8-bit operand goes up by one.
    Inc8(R8),
    /// An 8-bit operand goes down by one.
    Dec8(R8),
    /// An 8-bit operand takes the byte after the opcode.
    LoadImm8(R8),
    /// The accumulator is rotated left.
    Rlca,
    /// The accumulator is rotated right.
    Rrca,
    /// The accumulator is rotated left through the carry flag.
    Rla,
    /// The accumulator is rotated right through the carry flag.
    Rra,
    /// The first operand takes the value of the second.
    Move(R8, R8),
    /// An ALU operation on the accumulator and an operand.
    Arith(AluOp, R8),
}

/// The operation that the fields of an opcode select, if there is one. Block
/// 3, the one combination of block 1 that would copy memory to itself, and
/// seven combinations of block 0 select none.
pub open spec fn decode(d: DecodedOpcode) -> Option<Operation> {
    let p = d.p_field();
    let q = d.q_field();
    if d.x == 0 {
        if d.z == 0 {
            if q == 0 {
                Some(Operation::Nop)
            } else if p == 0 {
                Some(Operation::StoreSp)
            } else {
                None
            }
        } else if d.z == 1 {
            if q == 0 {
                Some(Operation::LoadImm16(R16::at(p)))
            } else {
                Some(Operation::AddHl(R16::at(p)))
            }
        } else if d.z == 2 {
            if q == 0 {
                Some(Operation::StoreAcc(R16Mem::at(p)))
            } else {
                Some(Operation::LoadAcc(R16Mem::at(p)))
            }
        } else if d.z == 3 {
            if q == 0 {
                Some(Operation::Inc16(R16::at(p)))
            } else {
                Some(Operation::Dec16(R16::at(p)))
            }
        } else if d.z == 4 {
            Some(Operation::Inc8(R8::at(d.y)))
        } else if d.z == 5 {
            Some(Operation::Dec8(R8::at(d.y)))
        } else if d.z == 6 {
            Some(Operation::LoadImm8(R8::at(d.y)))
        } else if p == 0 {
            if q == 0 {
                Some(Operation::Rlca)
            } else {
                Some(Operation::Rrca)
            }
        } else if p == 1 {
            if q == 0 {
                Some(Operation::Rla)
            } else {
                Some(Operation::Rra)
            }
        } else {
            None
        }
    } else if d.x == 1 {
        if d.y == 6 && d.z == 6 {
            None
        } else {
            Some(Operation::Move(R8::at(d.y), R8::at(d.z)))
        }
    } else if d.x == 2 {
        Some(Operation::Arith(AluOp::at(d.y), R8::at(d.z)))
    } else {
        None
    }
}

/// The sum of two 16-bit values, modulo 65536.
pub open spec fn add16_result(a: u16, b: u16) -> u16 {
    ((a + b) % 0x10000) as u16
}

/// The flags of a 16-bit addition: carry out of bit 15, half-carry out of bit
/// 11. It says nothing of zero.
pub open spec fn add16_flags(a: u16, b: u16) -> Flags {
    Flags {
        zero: false,
        subtraction: false,
        half_carry: a % 0x1000 + b % 0x1000 > 0xFFF,
        carry: a + b > 0xFFFF,
    }
}

/// The flags that an increment or decrement of a byte commits.
pub open spec fn all_but_carry() -> Flags {
    Flags { zero: true, subtraction: true, half_carry: true, carry: false }
}

/// The flags that a 16-bit addition commits.
pub open spec fn all_but_zero() -> Flags {
    Flags { zero: false, subtraction: true, half_carry: true, carry: true }
}

/// The state that the processor works on: the register file and the memory.
#[verifier::ext_equal]
pub struct Machine {
    pub regs: RegisterFile,
    pub mem: Seq<u8>,
}

impl Machine {
    /// The byte at `addr`.
    pub open spec fn read(self, addr: u16) -> u8 {
        self.mem[addr as int]
    }

    /// The machine with `val` at `addr`.
    pub open spec fn write(self, addr: u16, val: u8) -> Machine {
        Machine { mem: self.mem.update(addr as int, val), ..self }
    }

    /// The machine with another register file.
    pub open spec fn with_regs(self, regs: RegisterFile) -> Machine {
        Machine { regs, ..self }
    }

    /// The machine with the program counter moved by `n`, modulo 65536.
    pub open spec fn skip(self, n: int) -> Machine {
        self.with_regs(RegisterFile { pc: ((self.regs.pc + n) % 0x10000) as u16, ..self.regs })
    }

    /// The byte at the program counter.
    pub open spec fn imm8(self) -> u8 {
        self.read(self.regs.pc)
    }

    /// The 16-bit value at the program counter, lower half first.
    pub open spec fn imm16(self) -> u16 {
        pair(self.skip(1).imm8(), self.imm8())
    }

    /// The value of HL.
    pub open spec fn hl(self) -> u16 {
        self.regs.read16(Register16Bit::HL)
    }

    /// The value of an 8-bit operand: a register, or the byte at HL.
    pub open spec fn load(self, operand: R8) -> u8 {
        match Register8Bit::of(operand) {
            Some(register) => self.regs.read8(register),
            None => self.read(self.hl()),
        }
    }

    /// The machine with `val` in an 8-bit operand: a register, or the byte at
    /// HL.
    pub open spec fn store(self, operand: R8, val: u8) -> Machine {
        match Register8Bit::of(operand) {
            Some(register) => self.with_regs(self.regs.write8(register, val)),
            None => self.write(self.hl(), val),
        }
    }

    /// The machine after an access through `selector` at `addr`: HL is one
    /// past `addr` or one before it where the selector says so.
    pub open spec fn after_access(self, selector: R16Mem, addr: u16) -> Machine {
        match selector {
            R16Mem::HLInc => self.with_regs(
                self.regs.write16(Register16Bit::HL, ((addr + 1) % 0x10000) as u16),
            ),
            R16Mem::HLDec => self.with_regs(
                self.regs.write16(Register16Bit::HL, ((addr - 1) % 0x10000) as u16),
            ),
            _ => self,
        }
    }
}

/// The machine after `op`, where the program counter of `m` stands behind the
/// opcode.
pub open spec fn apply(op: Operation, m: Machine) -> Machine {
    match op {
        Operation::Nop => m,
        Operation::LoadImm16(target) => {
            let n = m.skip(2);
            n.with_regs(n.regs.write16(Register16Bit::of(target), m.imm16()))
        },
        Operation::StoreAcc(selector) => {
            let addr = m.regs.read16(Register16Bit::of_address(selector));
            m.write(addr, m.regs.a).after_access(selector, addr)
        },
        Operation::LoadAcc(selector) => {
            let addr = m.regs.read16(Register16Bit::of_address(selector));
            m.with_regs(m.regs.write8(Register8Bit::A, m.read(addr))).after_access(selector, addr)
        },
        Operation::StoreSp => {
            let addr = m.imm16();
            let sp = m.regs.sp;
            m.skip(2).write(addr, low_byte(sp)).write(((addr + 1) % 0x10000) as u16, high_byte(sp))
        },
        Operation::Inc16(target) => {
            let register = Register16Bit::of(target);
            m.with_regs(m.regs.write16(register, ((m.regs.read16(register) + 1) % 0x10000) as u16))
        },
        Operation::Dec16(target) => {
            let register = Register16Bit::of(target);
            m.with_regs(m.regs.write16(register, ((m.regs.read16(register) - 1) % 0x10000) as u16))
        },
        Operation::AddHl(source) => {
            let hl = m.hl();
            let val = m.regs.read16(Register16Bit::of(source));
            m.with_regs(
                m.regs.write16(Register16Bit::HL, add16_result(hl, val)).commit_flags(
                    add16_flags(hl, val),
                    all_but_zero(),
                ),
            )
        },
        Operation::Inc8(target) => {
            let val = m.load(target);
            let n = m.store(target, add_result(val, 1, false));
            n.with_regs(n.regs.commit_flags(add_flags(val, 1, false), all_but_carry()))
        },
        Operation::Dec8(target) => {
            let val = m.load(target);
            let n = m.store(target, sub_result(val, 1, false));
            n.with_regs(n.regs.commit_flags(sub_flags(val, 1, false), all_but_carry()))
        },
        Operation::LoadImm8(target) => m.skip(1).store(target, m.imm8()),
        Operation::Rlca => {
            let a = m.regs.a;
            m.with_regs(
                m.regs.write8(Register8Bit::A, rotl(a)).commit_flags(
                    rotate_flags(a >= 128),
                    Flags::every(),
                ),
            )
        },
        Operation::Rrca => {
            let a = m.regs.a;
            m.with_regs(
                m.regs.write8(Register8Bit::A, rotr(a)).commit_flags(
                    rotate_flags(a % 2 == 1),
                    Flags::every(),
                ),
            )
        },
        Operation::Rla => {
            let a = m.regs.a;
            m.with_regs(
                m.regs.write8(Register8Bit::A, rotl_through(a, m.regs.f.carry)).commit_flags(
                    rotate_flags(a >= 128),
                    Flags::every(),
                ),
            )
        },
        Operation::Rra => {
            let a = m.regs.a;
            m.with_regs(
                m.regs.write8(Register8Bit::A, rotr_through(a, m.regs.f.carry)).commit_flags(
                    rotate_flags(a % 2 == 1),
                    Flags::every(),
                ),
            )
        },
        Operation::Move(target, source) => m.store(target, m.load(source)),
        Operation::Arith(alu_op, source) => {
            let a = m.regs.a;
            let val = m.load(source);
            let carry = m.regs.f.carry;
            let regs = if alu_op.writes_back() {
                m.regs.write8(Register8Bit::A, alu_op.result(a, val, carry))
            } else {
                m.regs
            };
            m.with_regs(regs.commit_flags(alu_op.flags(a, val, carry), Flags::every()))
        },
    }
}

/// The machine after one step: the opcode at the program counter is fetched
/// and its operation carried out. `None` where the opcode selects no
/// operation.
pub open spec fn next(m: Machine) -> Option<Machine> {
    match decode(DecodedOpcode::fields(m.imm8())) {
        Some(op) => Some(apply(op, m.skip(1))),
        None => None,
    }
}

/// The opcodes that select no operation: the whole of block 3, the memory to
/// memory copy of block 1, and seven opcodes of block 0.
pub open spec fn unimplemented(opcode: u8) -> bool {
    ||| opcode >= 0xC0
    ||| opcode == 0x76
    ||| opcode == 0x18
    ||| opcode == 0x28
    ||| opcode == 0x38
    ||| opcode == 0x27
    ||| opcode == 0x2F
    ||| opcode == 0x37
    ||| opcode == 0x3F
}

/// An opcode selects no operation exactly when it is one of the
/// unimplemented ones; in particular none of block 3 does.
pub proof fn lemma_decode_total(opcode: u8)
    ensures
        decode(DecodedOpcode::fields(opcode)) is None <==> unimplemented(opcode),
        DecodedOpcode::fields(opcode).x == 3 ==> decode(DecodedOpcode::fields(opcode)) is None,
{
}

/// A machine has a next one exactly when the opcode at its program counter is
/// not one of the unimplemented ones. An opcode of block 3 never has one.
pub proof fn lemma_next_exists(m: Machine)
    ensures
        next(m) is None <==> unimplemented(m.imm8()),
        m.imm8() >= 0xC0 ==> next(m) is None,
{
    lemma_decode_total(m.imm8());
}

/// What an increment and a decrement of a byte commit: the result wraps, zero
/// follows the result, and half-carry says that the low nibble wrapped.
pub proof fn lemma_step_by_one(val: u8)
    ensures
        add_result(val, 1, false) == (if val == 255 { 0 } else { val + 1 }),
        add_flags(val, 1, false).zero == (val == 255),
        add_flags(val, 1, false).half_carry == (val % 16 == 15),
        !add_flags(val, 1, false).subtraction,
        sub_result(val, 1, false) == (if val == 0 { 255 } else { val - 1 }),
        sub_flags(val, 1, false).zero == (val == 1),
        sub_flags(val, 1, false).half_carry == (val % 16 == 0),
        sub_flags(val, 1, false).subtraction,
{
}

/// An addition of two 16-bit values can be made of two additions of bytes:
/// the lower halves first, then the upper halves with the carry of the
/// first. The result is the 16-bit sum, and the carry and half-carry of the
/// second addition are those of the 16-bit sum.
pub proof fn lemma_add16_chained(a: u16, b: u16)
    ensures
        ({
            let low_carry = add_flags(low_byte(a), low_byte(b), false).carry;
            let low = add_result(low_byte(a), low_byte(b), false);
            let high = add_result(high_byte(a), high_byte(b), low_carry);
            let flags = add_flags(high_byte(a), high_byte(b), low_carry);
            &&& pair(high, low) == add16_result(a, b)
            &&& flags.carry == add16_flags(a, b).carry
            &&& flags.half_carry == add16_flags(a, b).half_carry
            &&& flags.subtraction == add16_flags(a, b).subtraction
        }),
{
    let (ah, al) = (a as int / 256, a as int % 256);
    let (bh, bl) = (b as int / 256, b as int % 256);
    let low_sum = al + bl;
    let low_out: int = if low_sum > 255 { 1 } else { 0 };
    let high_sum = ah + bh + low_out;
    let high_out: int = if high_sum > 255 { 1 } else { 0 };
    assert(low_sum % 256 == low_sum - 256 * low_out);
    assert(high_sum % 256 == high_sum - 256 * high_out);
    assert(a + b == 0x10000 * high_out + 256 * (high_sum % 256) + low_sum % 256);
    assert((a + b) % 0x10000 == 256 * (high_sum % 256) + low_sum % 256);
    assert(a % 0x1000 == 256 * (ah % 16) + al) by {
        assert(a == 0x1000 * (ah / 16) + 256 * (ah % 16) + al);
    }
    assert(b % 0x1000 == 256 * (bh % 16) + bl) by {
        assert(b == 0x1000 * (bh / 16) + 256 * (bh % 16) + bl);
    }
}

} // verus!
