//! The execution engine of the Sharp LR35902: it fetches an opcode at the
//! program counter, decodes it and carries out its operation on the register
//! file and the memory.

pub mod alu;
pub mod instruction;
pub mod registers;
pub mod semantics;

use vstd::prelude::*;
use crate::gb::cpu::alu::{
    add_with_carry, bitwise_and, bitwise_or, bitwise_xor, rotate_left, rotate_left_through_carry,
    rotate_right, rotate_right_through_carry, subtract_with_carry, AluResultInfo,
};
use crate::gb::cpu::instruction::{Instruction, R16Mem, R16, R8};
use crate::gb::cpu::registers::{
    lemma_halves_bits, lemma_pair_bits, FlagsRegister, Register16Bit, Register8Bit, RegisterFile,
    Registers,
};
use crate::gb::cpu::semantics::{
    apply, decode, lemma_add16_chained, next, Machine, Operation,
};
use crate::ram::Ram;

verus! {

/// An opcode that the processor has no operation for, with the address that
/// it was fetched from.
#[derive(Clone, Copy, Debug, PartialEq, Eq)]
pub struct UnimplementedInstruction {
    pub opcode: u8,
    pub pc: u16,
}

/// The processor: its state between two steps is the register file.
pub struct LR35902 {
    pub registers: Registers,
}

/// What a block handler does with an instruction whose opcode has been
/// fetched: where the fields select an operation, it succeeds and the machine
/// is the one after that operation; where they select none, it fails with the
/// opcode and the address before the program counter, and the machine is
/// untouched.
pub open spec fn handled(
    before: Machine,
    instruction: Instruction,
    outcome: Result<(), UnimplementedInstruction>,
    after: Machine,
) -> bool {
    match decode(instruction.decoded) {
        Some(op) => outcome is Ok && after == apply(op, before),
        None => outcome == Err::<(), UnimplementedInstruction>(
            UnimplementedInstruction { opcode: instruction.opcode, pc: before.skip(-1).regs.pc },
        ) && after == before,
    }
}

/// What a step does: where the opcode at the program counter selects an
/// operation, it succeeds and the machine is the next one; where it selects
/// none, it fails with the opcode and its address, and the machine is
/// untouched.
pub open spec fn stepped(
    before: Machine,
    outcome: Result<(), UnimplementedInstruction>,
    after: Machine,
) -> bool {
    match next(before) {
        Some(machine) => outcome is Ok && after == machine,
        None => outcome == Err::<(), UnimplementedInstruction>(
            UnimplementedInstruction { opcode: before.imm8(), pc: before.regs.pc },
        ) && after == before,
    }
}

impl LR35902 {
    /// The machine that the processor forms with a memory.
    pub open spec fn with_memory(&self, mem: Seq<u8>) -> Machine {
        Machine { regs: self.registers@, mem }
    }

    /// A processor with every register zero and no flag set.
    pub fn new() -> (cpu: LR35902)
        ensures
            cpu.registers@ == RegisterFile::zeroed(),
    {
        LR35902 { registers: Registers::new() }
    }

    /// Carries out the instruction at the program counter.
    pub fn step(&mut self, ram: &mut Ram<u8>) -> (outcome: Result<(), UnimplementedInstruction>)
        requires
            old(ram)@.len() >= 0x10000,
        ensures
            final(ram)@.len() == old(ram)@.len(),
            stepped(
                old(self).with_memory(old(ram)@),
                outcome,
                final(self).with_memory(final(ram)@),
            ),
    {
        let pc: u16 = self.registers.get_register_16bit(Register16Bit::PC);
        let opcode: u8 = self.fetch_imm8(ram);
        let instruction = Instruction::from(opcode);
        let outcome = match instruction.decoded.x {
            0b00 => self.handle_block0(ram, &instruction),
            0b01 => self.handle_block1(ram, &instruction),
            0b10 => self.handle_block2(ram, &instruction),
            _ => self.handle_block3(&instruction),
        };
        if outcome.is_err() {
            self.registers.set_register_16bit(Register16Bit::PC, pc);
        }
        outcome
    }

    /// Reads the byte at the program counter and moves the program counter
    /// behind it.
    pub fn fetch_imm8(&mut self, ram: &Ram<u8>) -> (data: u8)
        requires
            old(self).registers@.pc < ram@.len(),
        ensures
            data == old(self).with_memory(ram@).imm8(),
            final(self).with_memory(ram@) == old(self).with_memory(ram@).skip(1),
    {
        let pc: u16 = self.registers.get_register_16bit(Register16Bit::PC);
        let data: u8 = ram.read(pc as usize);
        self.registers.set_register_16bit(Register16Bit::PC, pc.wrapping_add(1));
        data
    }

    /// Reads the 16-bit value at the program counter, lower half first, and
    /// moves the program counter behind it.
    pub fn fetch_imm16(&mut self, ram: &Ram<u8>) -> (data: u16)
        requires
            old(self).registers@.pc < ram@.len(),
            (old(self).registers@.pc + 1) % 0x10000 < ram@.len(),
        ensures
            data == old(self).with_memory(ram@).imm16(),
            final(self).with_memory(ram@) == old(self).with_memory(ram@).skip(2),
    {
        let low: u8 = self.fetch_imm8(ram);
        let high: u8 = self.fetch_imm8(ram);
        proof {
            lemma_pair_bits(high, low);
        }
        (high as u16) << 8 | (low as u16)
    }

    /// The value of an 8-bit operand.
    fn load8(&self, ram: &Ram<u8>, operand: R8) -> (val: u8)
        requires
            ram@.len() >= 0x10000,
        ensures
            val == self.with_memory(ram@).load(operand),
    {
        match Register8Bit::try_from(operand) {
            Ok(reg) => self.registers.get_register_8bit(reg),
            Err(_) => ram.read(self.registers.get_register_16bit(Register16Bit::HL) as usize),
        }
    }

    /// Puts a value in an 8-bit operand.
    fn store8(&mut self, ram: &mut Ram<u8>, operand: R8, val: u8)
        requires
            old(ram)@.len() >= 0x10000,
        ensures
            final(self).with_memory(final(ram)@) == old(self).with_memory(old(ram)@).store(
                operand,
                val,
            ),
    {
        match Register8Bit::try_from(operand) {
            Ok(reg) => self.registers.set_register_8bit(reg, val),
            Err(_) => ram.write(
                self.registers.get_register_16bit(Register16Bit::HL) as usize,
                val,
            ),
        }
    }

    /// The failure for an instruction whose opcode has just been fetched.
    fn unimplemented(&self, instruction: &Instruction) -> (failure: UnimplementedInstruction)
        ensures
            failure == (UnimplementedInstruction {
                opcode: instruction.opcode,
                pc: ((self.registers@.pc - 1) % 0x10000) as u16,
            }),
    {
        let pc: u16 = self.registers.get_register_16bit(Register16Bit::PC);
        UnimplementedInstruction { opcode: instruction.opcode, pc: pc.wrapping_sub(1) }
    }

    /// LD r16, imm16.
    fn load_imm16(&mut self, ram: &Ram<u8>, target: R16)
        requires
            ram@.len() >= 0x10000,
        ensures
            final(self).with_memory(ram@) == apply(
                Operation::LoadImm16(target),
                old(self).with_memory(ram@),
            ),
    {
        let imm: u16 = self.fetch_imm16(ram);
        let dest = Register16Bit::from(target);
        self.registers.set_register_16bit(dest, imm);
    }

    /// LD [r16mem], A.
    fn store_accumulator(&mut self, ram: &mut Ram<u8>, dest_reg: R16Mem)
        requires
            old(ram)@.len() >= 0x10000,
        ensures
            final(self).with_memory(final(ram)@) == apply(
                Operation::StoreAcc(dest_reg),
                old(self).with_memory(old(ram)@),
            ),
    {
        let dest_addr: u16 = self.registers.get_register_16bit(Register16Bit::from(dest_reg));
        let a: u8 = self.registers.get_register_8bit(Register8Bit::A);
        ram.write(dest_addr as usize, a);

        match dest_reg {
            R16Mem::HLInc => self.registers.set_register_16bit(
                Register16Bit::HL,
                dest_addr.wrapping_add(1),
            ),
            R16Mem::HLDec => self.registers.set_register_16bit(
                Register16Bit::HL,
                dest_addr.wrapping_sub(1),
            ),
            _ => {},
        }
    }

    /// LD A, [r16mem].
    fn load_accumulator(&mut self, ram: &Ram<u8>, src_reg: R16Mem)
        requires
            ram@.len() >= 0x10000,
        ensures
            final(self).with_memory(ram@) == apply(
                Operation::LoadAcc(src_reg),
                old(self).with_memory(ram@),
            ),
    {
        let src_addr: u16 = self.registers.get_register_16bit(Register16Bit::from(src_reg));
        let src_data: u8 = ram.read(src_addr as usize);
        self.registers.set_register_8bit(Register8Bit::A, src_data);

        match src_reg {
            R16Mem::HLInc => self.registers.set_register_16bit(
                Register16Bit::HL,
                src_addr.wrapping_add(1),
            ),
            R16Mem::HLDec => self.registers.set_register_16bit(
                Register16Bit::HL,
                src_addr.wrapping_sub(1),
            ),
            _ => {},
        }
    }

    /// LD [imm16], SP.
    fn store_stack_pointer(&mut self, ram: &mut Ram<u8>)
        requires
            old(ram)@.len() >= 0x10000,
        ensures
            final(self).with_memory(final(ram)@) == apply(
                Operation::StoreSp,
                old(self).with_memory(old(ram)@),
            ),
    {
        let dest_addr: u16 = self.fetch_imm16(ram);
        let sp: u16 = self.registers.get_register_16bit(Register16Bit::SP);
        proof {
            lemma_halves_bits(sp);
        }
        ram.write(dest_addr as usize, (sp & 0xFF) as u8);
        ram.write(dest_addr.wrapping_add(1) as usize, (sp >> 8) as u8);
    }

    /// INC r16.
    fn increment16(&mut self, target: R16)
        ensures
            forall|mem: Seq<u8>|
                final(self).with_memory(mem) == apply(
                    Operation::Inc16(target),
                    #[trigger] old(self).with_memory(mem),
                ),
    {
        let cur_reg_val: u16 = self.registers.get_register_16bit(Register16Bit::from(target));
        self.registers.set_register_16bit(Register16Bit::from(target), cur_reg_val.wrapping_add(1));
    }

    /// DEC r16.
    fn decrement16(&mut self, target: R16)
        ensures
            forall|mem: Seq<u8>|
                final(self).with_memory(mem) == apply(
                    Operation::Dec16(target),
                    #[trigger] old(self).with_memory(mem),
                ),
    {
        let cur_reg_val: u16 = self.registers.get_register_16bit(Register16Bit::from(target));
        self.registers.set_register_16bit(Register16Bit::from(target), cur_reg_val.wrapping_sub(1));
    }

    /// ADD HL, r16: two additions of bytes, the lower halves first, then the
    /// upper halves with the carry of the first.
    fn add_to_hl(&mut self, source: R16)
        ensures
            forall|mem: Seq<u8>|
                final(self).with_memory(mem) == apply(
                    Operation::AddHl(source),
                    #[trigger] old(self).with_memory(mem),
                ),
    {
        let hl: u16 = self.registers.get_register_16bit(Register16Bit::HL);
        let add_reg_val: u16 = self.registers.get_register_16bit(Register16Bit::from(source));
        proof {
            lemma_halves_bits(hl);
            lemma_halves_bits(add_reg_val);
            lemma_add16_chained(hl, add_reg_val);
        }
        let lower = add_with_carry((hl & 0xFF) as u8, (add_reg_val & 0xFF) as u8, false);
        let upper = add_with_carry(
            (hl >> 8) as u8,
            (add_reg_val >> 8) as u8,
            lower.info.contains(AluResultInfo::carry()),
        );
        proof {
            lemma_pair_bits(upper.res, lower.res);
        }
        let new_hl: u16 = ((upper.res as u16) << 8) | (lower.res as u16);
        self.registers.set_register_16bit(Register16Bit::HL, new_hl);
        self.registers.set_flags_from_alu_res_info(
            &upper.info,
            FlagsRegister::carry() | FlagsRegister::half_carry() | FlagsRegister::subtraction(),
        );
    }

    /// INC r8.
    fn increment8(&mut self, ram: &mut Ram<u8>, target: R8)
        requires
            old(ram)@.len() >= 0x10000,
        ensures
            final(self).with_memory(final(ram)@) == apply(
                Operation::Inc8(target),
                old(self).with_memory(old(ram)@),
            ),
    {
        let cur_val: u8 = self.load8(ram, target);

        let inc_val = add_with_carry(cur_val, 1, false);

        self.store8(ram, target, inc_val.res);
        self.registers.set_flags_from_alu_res_info(
            &inc_val.info,
            FlagsRegister::zero() | FlagsRegister::subtraction() | FlagsRegister::half_carry(),
        );
    }

    /// DEC r8.
    fn decrement8(&mut self, ram: &mut Ram<u8>, target: R8)
        requires
            old(ram)@.len() >= 0x10000,
        ensures
            final(self).with_memory(final(ram)@) == apply(
                Operation::Dec8(target),
                old(self).with_memory(old(ram)@),
            ),
    {
        let cur_val: u8 = self.load8(ram, target);

        let dec_val = subtract_with_carry(cur_val, 1, false);

        self.store8(ram, target, dec_val.res);
        self.registers.set_flags_from_alu_res_info(
            &dec_val.info,
            FlagsRegister::zero() | FlagsRegister::subtraction() | FlagsRegister::half_carry(),
        );
    }

    /// LD r8, imm8.
    fn load_imm8(&mut self, ram: &mut Ram<u8>, target: R8)
        requires
            old(ram)@.len() >= 0x10000,
        ensures
            final(self).with_memory(final(ram)@) == apply(
                Operation::LoadImm8(target),
                old(self).with_memory(old(ram)@),
            ),
    {
        let src: u8 = self.fetch_imm8(ram);
        self.store8(ram, target, src);
    }

    /// RLCA.
    fn rotate_accumulator_left(&mut self)
        ensures
            forall|mem: Seq<u8>|
                final(self).with_memory(mem) == apply(
                    Operation::Rlca,
                    #[trigger] old(self).with_memory(mem),
                ),
    {
        let res = rotate_left(self.registers.get_register_8bit(Register8Bit::A));
        self.registers.set_register_8bit(Register8Bit::A, res.res);
        self.registers.set_flags_from_alu_res_info(&res.info, FlagsRegister::all());
    }

    /// RRCA.
    fn rotate_accumulator_right(&mut self)
        ensures
            forall|mem: Seq<u8>|
                final(self).with_memory(mem) == apply(
                    Operation::Rrca,
                    #[trigger] old(self).with_memory(mem),
                ),
    {
        let res = rotate_right(self.registers.get_register_8bit(Register8Bit::A));
        self.registers.set_register_8bit(Register8Bit::A, res.res);
        self.registers.set_flags_from_alu_res_info(&res.info, FlagsRegister::all());
    }

    /// RLA.
    fn rotate_accumulator_left_through_carry(&mut self)
        ensures
            forall|mem: Seq<u8>|
                final(self).with_memory(mem) == apply(
                    Operation::Rla,
                    #[trigger] old(self).with_memory(mem),
                ),
    {
        let res = rotate_left_through_carry(
            self.registers.get_register_8bit(Register8Bit::A),
            self.registers.get_flags().contains(FlagsRegister::carry()),
        );
        self.registers.set_register_8bit(Register8Bit::A, res.res);
        self.registers.set_flags_from_alu_res_info(&res.info, FlagsRegister::all());
    }

    /// RRA.
    fn rotate_accumulator_right_through_carry(&mut self)
        ensures
            forall|mem: Seq<u8>|
                final(self).with_memory(mem) == apply(
                    Operation::Rra,
                    #[trigger] old(self).with_memory(mem),
                ),
    {
        let res = rotate_right_through_carry(
            self.registers.get_register_8bit(Register8Bit::A),
            self.registers.get_flags().contains(FlagsRegister::carry()),
        );
        self.registers.set_register_8bit(Register8Bit::A, res.res);
        self.registers.set_flags_from_alu_res_info(&res.info, FlagsRegister::all());
    }

    /// Block 0: loads, 16-bit arithmetic, increments and rotations.
    pub fn handle_block0(&mut self, ram: &mut Ram<u8>, instruction: &Instruction) -> (outcome: Result<
        (),
        UnimplementedInstruction,
    >)
        requires
            instruction.decoded.wf(),
            instruction.decoded.x == 0b00,
            old(ram)@.len() >= 0x10000,
        ensures
            final(ram)@.len() == old(ram)@.len(),
            handled(
                old(self).with_memory(old(ram)@),
                *instruction,
                outcome,
                final(self).with_memory(final(ram)@),
            ),
    {
        match (instruction.decoded.p(), instruction.decoded.q(), instruction.decoded.z) {
            // nop
            (_, 0b0, 0b000) => {},
            // ld r16, imm16
            (_, 0b0, 0b001) => self.load_imm16(ram, instruction.decoded.r16_p()),
            // ld [r16mem], a
            (_, 0b0, 0b010) => self.store_accumulator(ram, instruction.decoded.r16mem_p()),
            // ld a, [r16mem]
            (_, 0b1, 0b010) => self.load_accumulator(ram, instruction.decoded.r16mem_p()),
            // ld [imm16], sp
            (0b00, 0b1, 0b000) => self.store_stack_pointer(ram),
            // inc r16
            (_, 0b0, 0b011) => self.increment16(instruction.decoded.r16_p()),
            // dec r16
            (_, 0b1, 0b011) => self.decrement16(instruction.decoded.r16_p()),
            // add hl, r16
            (_, 0b1, 0b001) => self.add_to_hl(instruction.decoded.r16_p()),
            // inc r8
            (_, _, 0b100) => self.increment8(ram, instruction.decoded.r8_y()),
            // dec r8
            (_, _, 0b101) => self.decrement8(ram, instruction.decoded.r8_y()),
            // ld r8, imm8
            (_, _, 0b110) => self.load_imm8(ram, instruction.decoded.r8_y()),
            // rlca
            (0b00, 0b0, 0b111) => self.rotate_accumulator_left(),
            // rrca
            (0b00, 0b1, 0b111) => self.rotate_accumulator_right(),
            // rla
            (0b01, 0b0, 0b111) => self.rotate_accumulator_left_through_carry(),
            // rra
            (0b01, 0b1, 0b111) => self.rotate_accumulator_right_through_carry(),
            (_, _, _) => {
                return Err(self.unimplemented(instruction));
            },
        }
        Ok(())
    }

    /// Block 1: copies between 8-bit operands.
    pub fn handle_block1(&mut self, ram: &mut Ram<u8>, instruction: &Instruction) -> (outcome: Result<
        (),
        UnimplementedInstruction,
    >)
        requires
            instruction.decoded.wf(),
            instruction.decoded.x == 0b01,
            old(ram)@.len() >= 0x10000,
        ensures
            final(ram)@.len() == old(ram)@.len(),
            handled(
                old(self).with_memory(old(ram)@),
                *instruction,
                outcome,
                final(self).with_memory(final(ram)@),
            ),
    {
        // halt
        if instruction.decoded.y == 0b110 && instruction.decoded.z == 0b110 {
            return Err(self.unimplemented(instruction));
        }
        // ld r8, r8

        let src: u8 = self.load8(ram, instruction.decoded.r8_z());
        self.store8(ram, instruction.decoded.r8_y(), src);
        Ok(())
    }

    /// Block 2: the ALU operations on the accumulator and an 8-bit operand.
    pub fn handle_block2(&mut self, ram: &Ram<u8>, instruction: &Instruction) -> (outcome: Result<
        (),
        UnimplementedInstruction,
    >)
        requires
            instruction.decoded.wf(),
            instruction.decoded.x == 0b10,
            ram@.len() >= 0x10000,
        ensures
            handled(
                old(self).with_memory(ram@),
                *instruction,
                outcome,
                final(self).with_memory(ram@),
            ),
    {
        let a: u8 = self.registers.get_register_8bit(Register8Bit::A);
        let f: FlagsRegister = self.registers.get_flags();

        let src: u8 = self.load8(ram, instruction.decoded.r8_z());

        let alu_res = match instruction.decoded.y {
            // add a, r8
            0b000 => add_with_carry(a, src, false),
            // adc a, r8
            0b001 => add_with_carry(a, src, f.contains(FlagsRegister::carry())),
            // sub a, r8
            0b010 => subtract_with_carry(a, src, false),
            // sbc a, r8
            0b011 => subtract_with_carry(a, src, f.contains(FlagsRegister::carry())),
            // and a, r8
            0b100 => bitwise_and(a, src),
            // xor a, r8
            0b101 => bitwise_xor(a, src),
            // or a, r8
            0b110 => bitwise_or(a, src),
            // cp a, r8
            _ => subtract_with_carry(a, src, false),
        };

        if instruction.decoded.y != 0b111 {
            self.registers.set_register_8bit(Register8Bit::A, alu_res.res);
        }
        self.registers.set_flags_from_alu_res_info(&alu_res.info, FlagsRegister::all());
        Ok(())
    }

    /// Block 3: no opcode of it has an operation.
    pub fn handle_block3(&self, instruction: &Instruction) -> (outcome: Result<
        (),
        UnimplementedInstruction,
    >)
        requires
            instruction.decoded.wf(),
            instruction.decoded.x == 0b11,
        ensures
            outcome == Err::<(), UnimplementedInstruction>(
                UnimplementedInstruction {
                    opcode: instruction.opcode,
                    pc: ((self.registers@.pc - 1) % 0x10000) as u16,
                },
            ),
            decode(instruction.decoded) is None,
    {
        Err(self.unimplemented(instruction))
    }
}

} // verus!
