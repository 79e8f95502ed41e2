use emu::gb::cpu::alu::AluResultInfo;
use emu::gb::cpu::instruction::Instruction;
use emu::gb::cpu::registers::{FlagsRegister, Register16Bit, Register8Bit};
use emu::gb::cpu::{UnimplementedInstruction, LR35902};
use emu::ram::Ram;

fn init_test_cpu() -> (LR35902, Ram<u8>) {
    (LR35902::new(), Ram::new(0x10000))
}

#[test]
fn test_fetch_imm8() {
    let (mut test_cpu, mut test_ram) = init_test_cpu();
    test_ram.write(0x0000, 0x42);

    let data = test_cpu.fetch_imm8(&test_ram);
    assert_eq!(data, 0x42);
    assert_eq!(test_cpu.registers.get_register_16bit(Register16Bit::PC), 0x0001);
}

#[test]
fn test_fetch_imm16() {
    let (mut test_cpu, mut test_ram) = init_test_cpu();
    test_ram.write(0x0000, 0x18);
    test_ram.write(0x0001, 0x12);

    let data = test_cpu.fetch_imm16(&test_ram);
    assert_eq!(data, 0x1218);
    assert_eq!(test_cpu.registers.get_register_16bit(Register16Bit::PC), 0x0002);
}

#[test]
fn test_handle_block1_reg_reg() {
    let (mut test_cpu, mut test_ram) = init_test_cpu();

    let opcode = 0b01000001;
    let instruction = Instruction::from(opcode);

    test_cpu.registers.set_register_8bit(Register8Bit::B, 0x42);
    test_cpu.registers.set_register_8bit(Register8Bit::C, 0x18);

    assert_eq!(test_cpu.handle_block1(&mut test_ram, &instruction), Ok(()));
    assert_eq!(test_cpu.registers.get_register_8bit(Register8Bit::B), 0x18);
}

#[test]
fn test_handle_block1_reg_mem() {
    let (mut test_cpu, mut test_ram) = init_test_cpu();
    test_ram.write(0x2112, 0x18);

    let opcode = 0b01000110;
    let instruction = Instruction::from(opcode);

    test_cpu.registers.set_register_8bit(Register8Bit::B, 0x42);
    test_cpu.registers.set_register_16bit(Register16Bit::HL, 0x2112);

    assert_eq!(test_cpu.handle_block1(&mut test_ram, &instruction), Ok(()));
    assert_eq!(test_cpu.registers.get_register_8bit(Register8Bit::B), 0x18);
}

#[test]
fn test_handle_block1_mem_reg() {
    let (mut test_cpu, mut test_ram) = init_test_cpu();
    test_ram.write(0x2112, 0x42);

    let opcode = 0b01110000;
    let instruction = Instruction::from(opcode);

    test_cpu.registers.set_register_8bit(Register8Bit::B, 0x18);
    test_cpu.registers.set_register_16bit(Register16Bit::HL, 0x2112);

    assert_eq!(test_cpu.handle_block1(&mut test_ram, &instruction), Ok(()));
    assert_eq!(test_ram.read(0x2112), 0x18);
}

#[test]
fn test_handle_block2_reg() {
    let (mut test_cpu, test_ram) = init_test_cpu();

    let opcode = 0b10000000;
    let instruction = Instruction::from(opcode);

    test_cpu.registers.set_register_8bit(Register8Bit::A, 0x18);
    test_cpu.registers.set_register_8bit(Register8Bit::B, 0x0D);

    assert_eq!(test_cpu.handle_block2(&test_ram, &instruction), Ok(()));
    assert_eq!(test_cpu.registers.get_register_8bit(Register8Bit::A), 0x25);
    assert!(!test_cpu.registers.get_flags().contains(FlagsRegister::zero()));
    assert!(!test_cpu.registers.get_flags().contains(FlagsRegister::carry()));
    assert!(test_cpu.registers.get_flags().contains(FlagsRegister::half_carry()));
    assert!(!test_cpu.registers.get_flags().contains(FlagsRegister::subtraction()));
}

#[test]
fn test_handle_block2_carry_flag() {
    let (mut test_cpu, test_ram) = init_test_cpu();

    let opcode = 0b10001000;
    let instruction = Instruction::from(opcode);

    test_cpu.registers.set_register_8bit(Register8Bit::A, 0x18);
    test_cpu.registers.set_register_8bit(Register8Bit::B, 0x0D);
    test_cpu
        .registers
        .set_flags_from_alu_res_info(&AluResultInfo::carry(), FlagsRegister::all());

    assert_eq!(test_cpu.handle_block2(&test_ram, &instruction), Ok(()));
    assert_eq!(test_cpu.registers.get_register_8bit(Register8Bit::A), 0x26);
    assert!(!test_cpu.registers.get_flags().contains(FlagsRegister::zero()));
    assert!(!test_cpu.registers.get_flags().contains(FlagsRegister::carry()));
    assert!(test_cpu.registers.get_flags().contains(FlagsRegister::half_carry()));
    assert!(!test_cpu.registers.get_flags().contains(FlagsRegister::subtraction()));
}

#[test]
fn test_handle_block2_mem() {
    let (mut test_cpu, mut test_ram) = init_test_cpu();
    test_ram.write(0x2112, 0x0D);

    let opcode = 0b10000110;
    let instruction = Instruction::from(opcode);

    test_cpu.registers.set_register_8bit(Register8Bit::A, 0x18);
    test_cpu.registers.set_register_16bit(Register16Bit::HL, 0x2112);

    assert_eq!(test_cpu.handle_block2(&test_ram, &instruction), Ok(()));
    assert_eq!(test_cpu.registers.get_register_8bit(Register8Bit::A), 0x25);
    assert!(!test_cpu.registers.get_flags().contains(FlagsRegister::zero()));
    assert!(!test_cpu.registers.get_flags().contains(FlagsRegister::carry()));
    assert!(test_cpu.registers.get_flags().contains(FlagsRegister::half_carry()));
    assert!(!test_cpu.registers.get_flags().contains(FlagsRegister::subtraction()));
}

#[test]
fn test_handle_block2_cp() {
    let (mut test_cpu, test_ram) = init_test_cpu();

    let opcode = 0b10111000;
    let instruction = Instruction::from(opcode);

    test_cpu.registers.set_register_8bit(Register8Bit::A, 0x18);
    test_cpu.registers.set_register_8bit(Register8Bit::B, 0x0D);

    assert_eq!(test_cpu.handle_block2(&test_ram, &instruction), Ok(()));
    assert_eq!(test_cpu.registers.get_register_8bit(Register8Bit::A), 0x18);
    assert!(!test_cpu.registers.get_flags().contains(FlagsRegister::zero()));
    assert!(!test_cpu.registers.get_flags().contains(FlagsRegister::carry()));
    assert!(test_cpu.registers.get_flags().contains(FlagsRegister::half_carry()));
    assert!(test_cpu.registers.get_flags().contains(FlagsRegister::subtraction()));
}

/// A processor and a memory that holds `program` from address 0 on.
fn load(program: &[u8]) -> (LR35902, Ram<u8>) {
    let (cpu, mut ram) = init_test_cpu();
    for (addr, byte) in program.iter().enumerate() {
        ram.write(addr, *byte);
    }
    (cpu, ram)
}

/// AF, BC, DE, HL, SP and PC.
fn snapshot(cpu: &LR35902) -> [u16; 6] {
    [
        cpu.registers.get_register_16bit(Register16Bit::AF),
        cpu.registers.get_register_16bit(Register16Bit::BC),
        cpu.registers.get_register_16bit(Register16Bit::DE),
        cpu.registers.get_register_16bit(Register16Bit::HL),
        cpu.registers.get_register_16bit(Register16Bit::SP),
        cpu.registers.get_register_16bit(Register16Bit::PC),
    ]
}

fn memory(ram: &Ram<u8>) -> Vec<u8> {
    (0..ram.len()).map(|addr| ram.read(addr)).collect()
}

fn set_flag_bits(cpu: &mut LR35902, bits: u8) {
    cpu.registers.set_flags(&FlagsRegister::from_bits_truncate(bits), FlagsRegister::all());
}

fn flag_bits(cpu: &LR35902) -> u8 {
    cpu.registers.get_flags().bits()
}

#[test]
fn new_cpu_is_zeroed() {
    let cpu = LR35902::new();
    assert_eq!(snapshot(&cpu), [0, 0, 0, 0, 0, 0]);
}

#[test]
fn step_ld_a_imm8_on_fresh_cpu() {
    let (mut cpu, mut ram) = load(&[0x3E, 0x42]);
    assert_eq!(cpu.step(&mut ram), Ok(()));
    assert_eq!(cpu.registers.get_register_8bit(Register8Bit::A), 0x42);
    assert_eq!(cpu.registers.get_register_16bit(Register16Bit::PC), 2);
    assert_eq!(snapshot(&cpu), [0x4200, 0, 0, 0, 0, 2]);
}

#[test]
fn step_add_a_b() {
    let (mut cpu, mut ram) = load(&[0x80]);
    cpu.registers.set_register_8bit(Register8Bit::A, 0x18);
    cpu.registers.set_register_8bit(Register8Bit::B, 0x0D);
    assert_eq!(cpu.step(&mut ram), Ok(()));
    assert_eq!(cpu.registers.get_register_8bit(Register8Bit::A), 0x25);
    assert_eq!(flag_bits(&cpu), 0x20);
    assert_eq!(cpu.registers.get_register_16bit(Register16Bit::PC), 1);
}

#[test]
fn step_reports_block3_opcode() {
    let (mut cpu, mut ram) = load(&[0xC3, 0x50, 0x01]);
    cpu.registers.set_register_16bit(Register16Bit::SP, 0xFFFE);
    let before = snapshot(&cpu);
    let memory_before = memory(&ram);
    assert_eq!(cpu.step(&mut ram), Err(UnimplementedInstruction { opcode: 0xC3, pc: 0 }));
    assert_eq!(snapshot(&cpu), before);
    assert_eq!(memory(&ram), memory_before);
}

#[test]
fn step_reports_every_unimplemented_opcode_and_no_other() {
    let unimplemented = |opcode: u8| {
        opcode >= 0xC0 || [0x76, 0x18, 0x28, 0x38, 0x27, 0x2F, 0x37, 0x3F].contains(&opcode)
    };
    for opcode in 0..=255u8 {
        let (mut cpu, mut ram) = init_test_cpu();
        ram.write(0x0150, opcode);
        ram.write(0x0151, 0x34);
        ram.write(0x0152, 0x12);
        cpu.registers.set_register_16bit(Register16Bit::PC, 0x0150);
        cpu.registers.set_register_16bit(Register16Bit::HL, 0xC000);
        cpu.registers.set_register_16bit(Register16Bit::AF, 0x1230);
        let before = snapshot(&cpu);
        let memory_before = memory(&ram);
        let outcome = cpu.step(&mut ram);
        if unimplemented(opcode) {
            assert_eq!(outcome, Err(UnimplementedInstruction { opcode, pc: 0x0150 }));
            assert_eq!(snapshot(&cpu), before);
            assert_eq!(memory(&ram), memory_before);
        } else {
            assert_eq!(outcome, Ok(()));
            assert!(cpu.registers.get_register_16bit(Register16Bit::PC) > 0x0150);
        }
    }
}

#[test]
fn handlers_report_unimplemented_with_the_address_before_pc() {
    let (mut cpu, mut ram) = init_test_cpu();
    cpu.registers.set_register_16bit(Register16Bit::PC, 0x0201);
    let before = snapshot(&cpu);
    for opcode in [0x18u8, 0x28, 0x38, 0x27, 0x2F, 0x37, 0x3F] {
        let instruction = Instruction::from(opcode);
        assert_eq!(
            cpu.handle_block0(&mut ram, &instruction),
            Err(UnimplementedInstruction { opcode, pc: 0x0200 })
        );
    }
    let halt = Instruction::from(0x76);
    assert_eq!(
        cpu.handle_block1(&mut ram, &halt),
        Err(UnimplementedInstruction { opcode: 0x76, pc: 0x0200 })
    );
    for opcode in 0xC0..=0xFFu8 {
        let instruction = Instruction::from(opcode);
        assert_eq!(
            cpu.handle_block3(&instruction),
            Err(UnimplementedInstruction { opcode, pc: 0x0200 })
        );
    }
    assert_eq!(snapshot(&cpu), before);
    cpu.registers.set_register_16bit(Register16Bit::PC, 0);
    assert_eq!(
        cpu.handle_block3(&Instruction::from(0xFF)),
        Err(UnimplementedInstruction { opcode: 0xFF, pc: 0xFFFF })
    );
}

#[test]
fn step_nop() {
    for opcode in [0x00u8, 0x10, 0x20, 0x30] {
        let (mut cpu, mut ram) = load(&[opcode]);
        cpu.registers.set_register_16bit(Register16Bit::AF, 0x12F0);
        let memory_before = memory(&ram);
        assert_eq!(cpu.step(&mut ram), Ok(()));
        assert_eq!(snapshot(&cpu), [0x12F0, 0, 0, 0, 0, 1]);
        assert_eq!(memory(&ram), memory_before);
    }
}

#[test]
fn step_ld_r16_imm16() {
    let (mut cpu, mut ram) = load(&[0x01, 0x34, 0x12, 0x11, 0x78, 0x56, 0x21, 0xBC, 0x9A, 0x31, 0xFE, 0xFF]);
    for _ in 0..4 {
        assert_eq!(cpu.step(&mut ram), Ok(()));
    }
    assert_eq!(snapshot(&cpu), [0, 0x1234, 0x5678, 0x9ABC, 0xFFFE, 12]);
}

#[test]
fn step_ld_r16mem_a() {
    let (mut cpu, mut ram) = load(&[0x02, 0x12, 0x22, 0x32]);
    cpu.registers.set_register_8bit(Register8Bit::A, 0x5A);
    cpu.registers.set_register_16bit(Register16Bit::BC, 0xC000);
    cpu.registers.set_register_16bit(Register16Bit::DE, 0xC100);
    cpu.registers.set_register_16bit(Register16Bit::HL, 0xC200);
    assert_eq!(cpu.step(&mut ram), Ok(()));
    assert_eq!(ram.read(0xC000), 0x5A);
    assert_eq!(snapshot(&cpu), [0x5A00, 0xC000, 0xC100, 0xC200, 0, 1]);
    assert_eq!(cpu.step(&mut ram), Ok(()));
    assert_eq!(ram.read(0xC100), 0x5A);
    assert_eq!(snapshot(&cpu), [0x5A00, 0xC000, 0xC100, 0xC200, 0, 2]);
    assert_eq!(cpu.step(&mut ram), Ok(()));
    assert_eq!(ram.read(0xC200), 0x5A);
    assert_eq!(snapshot(&cpu), [0x5A00, 0xC000, 0xC100, 0xC201, 0, 3]);
    cpu.registers.set_register_8bit(Register8Bit::A, 0xA5);
    assert_eq!(cpu.step(&mut ram), Ok(()));
    assert_eq!(ram.read(0xC201), 0xA5);
    assert_eq!(ram.read(0xC200), 0x5A);
    assert_eq!(snapshot(&cpu), [0xA500, 0xC000, 0xC100, 0xC200, 0, 4]);
}

#[test]
fn step_ld_a_r16mem() {
    let (mut cpu, mut ram) = load(&[0x0A, 0x1A, 0x2A, 0x3A]);
    ram.write(0xC000, 0x11);
    ram.write(0xC100, 0x22);
    ram.write(0xFFFF, 0x33);
    ram.write(0x0000, 0x0A);
    cpu.registers.set_register_16bit(Register16Bit::BC, 0xC000);
    cpu.registers.set_register_16bit(Register16Bit::DE, 0xC100);
    cpu.registers.set_register_16bit(Register16Bit::HL, 0xFFFF);
    assert_eq!(cpu.step(&mut ram), Ok(()));
    assert_eq!(snapshot(&cpu), [0x1100, 0xC000, 0xC100, 0xFFFF, 0, 1]);
    assert_eq!(cpu.step(&mut ram), Ok(()));
    assert_eq!(snapshot(&cpu), [0x2200, 0xC000, 0xC100, 0xFFFF, 0, 2]);
    assert_eq!(cpu.step(&mut ram), Ok(()));
    assert_eq!(snapshot(&cpu), [0x3300, 0xC000, 0xC100, 0x0000, 0, 3]);
    assert_eq!(cpu.step(&mut ram), Ok(()));
    assert_eq!(snapshot(&cpu), [0x0A00, 0xC000, 0xC100, 0xFFFF, 0, 4]);
}

#[test]
fn step_ld_imm16_sp() {
    let (mut cpu, mut ram) = load(&[0x08, 0x00, 0xC1, 0x08, 0xFF, 0xFF]);
    cpu.registers.set_register_16bit(Register16Bit::SP, 0xABCD);
    assert_eq!(cpu.step(&mut ram), Ok(()));
    assert_eq!(ram.read(0xC100), 0xCD);
    assert_eq!(ram.read(0xC101), 0xAB);
    assert_eq!(snapshot(&cpu), [0, 0, 0, 0, 0xABCD, 3]);
    assert_eq!(cpu.step(&mut ram), Ok(()));
    assert_eq!(ram.read(0xFFFF), 0xCD);
    assert_eq!(ram.read(0x0000), 0xAB);
    assert_eq!(snapshot(&cpu), [0, 0, 0, 0, 0xABCD, 6]);
}

#[test]
fn step_inc_and_dec_r16_wrap_and_keep_flags() {
    let (mut cpu, mut ram) = load(&[0x03, 0x13, 0x23, 0x33, 0x0B, 0x1B, 0x2B, 0x3B]);
    cpu.registers.set_register_16bit(Register16Bit::AF, 0x00F0);
    cpu.registers.set_register_16bit(Register16Bit::BC, 0xFFFF);
    cpu.registers.set_register_16bit(Register16Bit::DE, 0x00FF);
    cpu.registers.set_register_16bit(Register16Bit::HL, 0x1234);
    cpu.registers.set_register_16bit(Register16Bit::SP, 0xFFFE);
    for _ in 0..4 {
        assert_eq!(cpu.step(&mut ram), Ok(()));
    }
    assert_eq!(snapshot(&cpu), [0x00F0, 0x0000, 0x0100, 0x1235, 0xFFFF, 4]);
    for _ in 0..4 {
        assert_eq!(cpu.step(&mut ram), Ok(()));
    }
    assert_eq!(snapshot(&cpu), [0x00F0, 0xFFFF, 0x00FF, 0x1234, 0xFFFE, 8]);
}

#[test]
fn step_add_hl_r16() {
    let (mut cpu, mut ram) = load(&[0x09, 0x29, 0x19, 0x39]);
    set_flag_bits(&mut cpu, 0xC0);
    cpu.registers.set_register_16bit(Register16Bit::HL, 0x8A23);
    cpu.registers.set_register_16bit(Register16Bit::BC, 0x0605);
    assert_eq!(cpu.step(&mut ram), Ok(()));
    assert_eq!(cpu.registers.get_register_16bit(Register16Bit::HL), 0x9028);
    assert_eq!(flag_bits(&cpu), 0xA0);
    cpu.registers.set_register_16bit(Register16Bit::HL, 0x8A23);
    assert_eq!(cpu.step(&mut ram), Ok(()));
    assert_eq!(cpu.registers.get_register_16bit(Register16Bit::HL), 0x1446);
    assert_eq!(flag_bits(&cpu), 0xB0);
    set_flag_bits(&mut cpu, 0x70);
    cpu.registers.set_register_16bit(Register16Bit::HL, 0x00FF);
    cpu.registers.set_register_16bit(Register16Bit::DE, 0x0001);
    assert_eq!(cpu.step(&mut ram), Ok(()));
    assert_eq!(cpu.registers.get_register_16bit(Register16Bit::HL), 0x0100);
    assert_eq!(flag_bits(&cpu), 0x00);
    cpu.registers.set_register_16bit(Register16Bit::HL, 0xFFFF);
    cpu.registers.set_register_16bit(Register16Bit::SP, 0x0001);
    assert_eq!(cpu.step(&mut ram), Ok(()));
    assert_eq!(cpu.registers.get_register_16bit(Register16Bit::HL), 0x0000);
    assert_eq!(flag_bits(&cpu), 0x30);
    assert_eq!(cpu.registers.get_register_16bit(Register16Bit::PC), 4);
}

#[test]
fn add_hl_agrees_with_16_bit_addition() {
    for hl in (0..=0xFFFFu32).step_by(257) {
        for val in (0..=0xFFFFu32).step_by(251) {
            let (mut cpu, mut ram) = load(&[0x09]);
            set_flag_bits(&mut cpu, 0xC0);
            cpu.registers.set_register_16bit(Register16Bit::HL, hl as u16);
            cpu.registers.set_register_16bit(Register16Bit::BC, val as u16);
            assert_eq!(cpu.step(&mut ram), Ok(()));
            assert_eq!(cpu.registers.get_register_16bit(Register16Bit::HL) as u32, (hl + val) & 0xFFFF);
            let mut expected = 0x80;
            if (hl & 0xFFF) + (val & 0xFFF) > 0xFFF {
                expected |= 0x20;
            }
            if hl + val > 0xFFFF {
                expected |= 0x10;
            }
            assert_eq!(flag_bits(&cpu), expected);
        }
    }
}

#[test]
fn step_inc_r8() {
    let (mut cpu, mut ram) = load(&[0x04, 0x0C, 0x14, 0x3C, 0x34]);
    set_flag_bits(&mut cpu, 0x50);
    cpu.registers.set_register_8bit(Register8Bit::B, 0xFF);
    assert_eq!(cpu.step(&mut ram), Ok(()));
    assert_eq!(cpu.registers.get_register_8bit(Register8Bit::B), 0x00);
    assert_eq!(flag_bits(&cpu), 0xB0);
    cpu.registers.set_register_8bit(Register8Bit::C, 0x0F);
    assert_eq!(cpu.step(&mut ram), Ok(()));
    assert_eq!(cpu.registers.get_register_8bit(Register8Bit::C), 0x10);
    assert_eq!(flag_bits(&cpu), 0x30);
    set_flag_bits(&mut cpu, 0xE0);
    cpu.registers.set_register_8bit(Register8Bit::D, 0x41);
    assert_eq!(cpu.step(&mut ram), Ok(()));
    assert_eq!(cpu.registers.get_register_8bit(Register8Bit::D), 0x42);
    assert_eq!(flag_bits(&cpu), 0x00);
    cpu.registers.set_register_8bit(Register8Bit::A, 0x7F);
    assert_eq!(cpu.step(&mut ram), Ok(()));
    assert_eq!(cpu.registers.get_register_8bit(Register8Bit::A), 0x80);
    assert_eq!(flag_bits(&cpu), 0x20);
    cpu.registers.set_register_16bit(Register16Bit::HL, 0xC000);
    ram.write(0xC000, 0xFF);
    assert_eq!(cpu.step(&mut ram), Ok(()));
    assert_eq!(ram.read(0xC000), 0x00);
    assert_eq!(flag_bits(&cpu), 0xA0);
    assert_eq!(cpu.registers.get_register_16bit(Register16Bit::HL), 0xC000);
    assert_eq!(cpu.registers.get_register_16bit(Register16Bit::PC), 5);
}

#[test]
fn step_dec_r8() {
    let (mut cpu, mut ram) = load(&[0x05, 0x1D, 0x25, 0x3D, 0x35]);
    set_flag_bits(&mut cpu, 0x10);
    cpu.registers.set_register_8bit(Register8Bit::B, 0x01);
    assert_eq!(cpu.step(&mut ram), Ok(()));
    assert_eq!(cpu.registers.get_register_8bit(Register8Bit::B), 0x00);
    assert_eq!(flag_bits(&cpu), 0xD0);
    cpu.registers.set_register_8bit(Register8Bit::E, 0x00);
    assert_eq!(cpu.step(&mut ram), Ok(()));
    assert_eq!(cpu.registers.get_register_8bit(Register8Bit::E), 0xFF);
    assert_eq!(flag_bits(&cpu), 0x70);
    set_flag_bits(&mut cpu, 0x00);
    cpu.registers.set_register_8bit(Register8Bit::H, 0x10);
    assert_eq!(cpu.step(&mut ram), Ok(()));
    assert_eq!(cpu.registers.get_register_8bit(Register8Bit::H), 0x0F);
    assert_eq!(flag_bits(&cpu), 0x60);
    cpu.registers.set_register_8bit(Register8Bit::A, 0x42);
    assert_eq!(cpu.step(&mut ram), Ok(()));
    assert_eq!(cpu.registers.get_register_8bit(Register8Bit::A), 0x41);
    assert_eq!(flag_bits(&cpu), 0x40);
    cpu.registers.set_register_16bit(Register16Bit::HL, 0xC000);
    ram.write(0xC000, 0x01);
    assert_eq!(cpu.step(&mut ram), Ok(()));
    assert_eq!(ram.read(0xC000), 0x00);
    assert_eq!(flag_bits(&cpu), 0xC0);
    assert_eq!(cpu.registers.get_register_16bit(Register16Bit::PC), 5);
}

#[test]
fn step_ld_r8_imm8() {
    let program = [
        0x06, 0x11, 0x0E, 0x22, 0x16, 0x33, 0x1E, 0x44, 0x26, 0xC0, 0x2E, 0x10, 0x36, 0x77, 0x3E,
        0x88,
    ];
    let (mut cpu, mut ram) = load(&program);
    set_flag_bits(&mut cpu, 0xF0);
    for _ in 0..8 {
        assert_eq!(cpu.step(&mut ram), Ok(()));
    }
    assert_eq!(snapshot(&cpu), [0x88F0, 0x1122, 0x3344, 0xC010, 0, 16]);
    assert_eq!(ram.read(0xC010), 0x77);
}

#[test]
fn step_rotations_of_the_accumulator() {
    let (mut cpu, mut ram) = load(&[0x07, 0x0F, 0x17, 0x1F, 0x17, 0x1F, 0x07]);
    set_flag_bits(&mut cpu, 0xE0);
    cpu.registers.set_register_8bit(Register8Bit::A, 0x85);
    assert_eq!(cpu.step(&mut ram), Ok(()));
    assert_eq!(cpu.registers.get_register_16bit(Register16Bit::AF), 0x0B10);
    cpu.registers.set_register_8bit(Register8Bit::A, 0x3B);
    assert_eq!(cpu.step(&mut ram), Ok(()));
    assert_eq!(cpu.registers.get_register_16bit(Register16Bit::AF), 0x9D10);
    cpu.registers.set_register_8bit(Register8Bit::A, 0x95);
    assert_eq!(cpu.step(&mut ram), Ok(()));
    assert_eq!(cpu.registers.get_register_16bit(Register16Bit::AF), 0x2B10);
    cpu.registers.set_register_8bit(Register8Bit::A, 0x81);
    assert_eq!(cpu.step(&mut ram), Ok(()));
    assert_eq!(cpu.registers.get_register_16bit(Register16Bit::AF), 0xC010);
    set_flag_bits(&mut cpu, 0xE0);
    cpu.registers.set_register_8bit(Register8Bit::A, 0x80);
    assert_eq!(cpu.step(&mut ram), Ok(()));
    assert_eq!(cpu.registers.get_register_16bit(Register16Bit::AF), 0x0010);
    set_flag_bits(&mut cpu, 0xE0);
    cpu.registers.set_register_8bit(Register8Bit::A, 0x02);
    assert_eq!(cpu.step(&mut ram), Ok(()));
    assert_eq!(cpu.registers.get_register_16bit(Register16Bit::AF), 0x0100);
    set_flag_bits(&mut cpu, 0xF0);
    cpu.registers.set_register_8bit(Register8Bit::A, 0x00);
    assert_eq!(cpu.step(&mut ram), Ok(()));
    assert_eq!(cpu.registers.get_register_16bit(Register16Bit::AF), 0x0000);
    assert_eq!(cpu.registers.get_register_16bit(Register16Bit::PC), 7);
}

#[test]
fn step_block1_copies_without_touching_flags() {
    let (mut cpu, mut ram) = load(&[0x41, 0x70, 0x5E, 0x7F, 0x66, 0x75]);
    set_flag_bits(&mut cpu, 0xA0);
    cpu.registers.set_register_16bit(Register16Bit::BC, 0x4218);
    cpu.registers.set_register_16bit(Register16Bit::HL, 0xC000);
    assert_eq!(cpu.step(&mut ram), Ok(()));
    assert_eq!(cpu.registers.get_register_16bit(Register16Bit::BC), 0x1818);
    assert_eq!(cpu.step(&mut ram), Ok(()));
    assert_eq!(ram.read(0xC000), 0x18);
    ram.write(0xC000, 0x99);
    assert_eq!(cpu.step(&mut ram), Ok(()));
    assert_eq!(cpu.registers.get_register_8bit(Register8Bit::E), 0x99);
    cpu.registers.set_register_8bit(Register8Bit::A, 0x77);
    assert_eq!(cpu.step(&mut ram), Ok(()));
    assert_eq!(cpu.registers.get_register_8bit(Register8Bit::A), 0x77);
    ram.write(0xC000, 0xC1);
    assert_eq!(cpu.step(&mut ram), Ok(()));
    assert_eq!(cpu.registers.get_register_16bit(Register16Bit::HL), 0xC100);
    assert_eq!(cpu.step(&mut ram), Ok(()));
    assert_eq!(ram.read(0xC100), 0x00);
    assert_eq!(snapshot(&cpu), [0x77A0, 0x1818, 0x0099, 0xC100, 0, 6]);
}

#[test]
fn step_halt_is_reported() {
    let (mut cpu, mut ram) = load(&[0x00, 0x76]);
    cpu.registers.set_register_16bit(Register16Bit::HL, 0xC000);
    ram.write(0xC000, 0x55);
    assert_eq!(cpu.step(&mut ram), Ok(()));
    let before = snapshot(&cpu);
    let memory_before = memory(&ram);
    assert_eq!(cpu.step(&mut ram), Err(UnimplementedInstruction { opcode: 0x76, pc: 1 }));
    assert_eq!(snapshot(&cpu), before);
    assert_eq!(memory(&ram), memory_before);
    assert_eq!(cpu.step(&mut ram), Err(UnimplementedInstruction { opcode: 0x76, pc: 1 }));
}

#[test]
fn step_block2_operations() {
    // (opcode, carry before, A, operand in B) -> (A, flags)
    let cases: [(u8, bool, u8, u8, u8, u8); 16] = [
        (0x80, true, 0x3A, 0xC6, 0x00, 0xB0),
        (0x80, false, 0x3C, 0x12, 0x4E, 0x00),
        (0x88, true, 0xE1, 0x0F, 0xF1, 0x20),
        (0x88, true, 0xE1, 0x1E, 0x00, 0xB0),
        (0x90, true, 0x3E, 0x3E, 0x00, 0xC0),
        (0x90, false, 0x3E, 0x0F, 0x2F, 0x60),
        (0x90, false, 0x3E, 0x40, 0xFE, 0x50),
        (0x98, true, 0x3B, 0x2A, 0x10, 0x40),
        (0x98, true, 0x3B, 0x3A, 0x00, 0xC0),
        (0x98, true, 0x3B, 0x4F, 0xEB, 0x70),
        (0xA0, true, 0x5A, 0x3F, 0x1A, 0x20),
        (0xA0, true, 0x5A, 0x00, 0x00, 0xA0),
        (0xA8, true, 0xFF, 0x0F, 0xF0, 0x00),
        (0xA8, true, 0xFF, 0xFF, 0x00, 0x80),
        (0xB0, true, 0x5A, 0x03, 0x5B, 0x00),
        (0xB0, true, 0x00, 0x00, 0x00, 0x80),
    ];
    for (opcode, carry, a, operand, result, flags) in cases {
        let (mut cpu, mut ram) = load(&[opcode]);
        set_flag_bits(&mut cpu, if carry { 0x10 } else { 0x00 });
        cpu.registers.set_register_8bit(Register8Bit::A, a);
        cpu.registers.set_register_8bit(Register8Bit::B, operand);
        assert_eq!(cpu.step(&mut ram), Ok(()));
        assert_eq!(cpu.registers.get_register_8bit(Register8Bit::A), result);
        assert_eq!(flag_bits(&cpu), flags);
        assert_eq!(cpu.registers.get_register_8bit(Register8Bit::B), operand);
        assert_eq!(cpu.registers.get_register_16bit(Register16Bit::PC), 1);
    }
}

#[test]
fn step_cp_discards_the_result() {
    let cases: [(u8, u8, u8); 3] = [(0x3C, 0x2F, 0x60), (0x3C, 0x3C, 0xC0), (0x3C, 0x40, 0x50)];
    for (a, operand, flags) in cases {
        let (mut cpu, mut ram) = load(&[0xBE]);
        set_flag_bits(&mut cpu, 0x10);
        cpu.registers.set_register_8bit(Register8Bit::A, a);
        cpu.registers.set_register_16bit(Register16Bit::HL, 0xC000);
        ram.write(0xC000, operand);
        assert_eq!(cpu.step(&mut ram), Ok(()));
        assert_eq!(cpu.registers.get_register_8bit(Register8Bit::A), a);
        assert_eq!(flag_bits(&cpu), flags);
        assert_eq!(ram.read(0xC000), operand);
    }
}

#[test]
fn step_block2_on_the_accumulator_itself() {
    let (mut cpu, mut ram) = load(&[0x87, 0x97, 0xAF]);
    cpu.registers.set_register_8bit(Register8Bit::A, 0x88);
    assert_eq!(cpu.step(&mut ram), Ok(()));
    assert_eq!(cpu.registers.get_register_16bit(Register16Bit::AF), 0x1030);
    assert_eq!(cpu.step(&mut ram), Ok(()));
    assert_eq!(cpu.registers.get_register_16bit(Register16Bit::AF), 0x00C0);
    cpu.registers.set_register_8bit(Register8Bit::A, 0x5A);
    assert_eq!(cpu.step(&mut ram), Ok(()));
    assert_eq!(cpu.registers.get_register_16bit(Register16Bit::AF), 0x0080);
}

#[test]
fn program_counter_wraps_around() {
    let (mut cpu, mut ram) = init_test_cpu();
    ram.write(0xFFFF, 0x3E);
    ram.write(0x0000, 0x42);
    cpu.registers.set_register_16bit(Register16Bit::PC, 0xFFFF);
    assert_eq!(cpu.step(&mut ram), Ok(()));
    assert_eq!(snapshot(&cpu), [0x4200, 0, 0, 0, 0, 1]);

    let (mut cpu, mut ram) = init_test_cpu();
    ram.write(0xFFFF, 0x00);
    cpu.registers.set_register_16bit(Register16Bit::PC, 0xFFFF);
    assert_eq!(cpu.step(&mut ram), Ok(()));
    assert_eq!(cpu.registers.get_register_16bit(Register16Bit::PC), 0);

    let (mut cpu, mut ram) = init_test_cpu();
    ram.write(0xFFFE, 0x21);
    ram.write(0xFFFF, 0x34);
    ram.write(0x0000, 0x12);
    cpu.registers.set_register_16bit(Register16Bit::PC, 0xFFFE);
    assert_eq!(cpu.step(&mut ram), Ok(()));
    assert_eq!(snapshot(&cpu), [0, 0, 0, 0x1234, 0, 1]);

    let (mut cpu, mut ram) = init_test_cpu();
    ram.write(0xFFFF, 0x12);
    cpu.registers.set_register_16bit(Register16Bit::PC, 0xFFFF);
    assert_eq!(cpu.fetch_imm16(&ram), 0x0012);
    assert_eq!(cpu.registers.get_register_16bit(Register16Bit::PC), 1);
}

#[test]
fn a_short_program_runs_to_its_result() {
    // LD HL, 0xC000; LD A, 0x05; LD [HL+], A; INC A; LD [HL-], A; LD B, [HL]; ADD A, B;
    // LD [0xC010], SP
    let program = [
        0x21, 0x00, 0xC0, 0x3E, 0x05, 0x22, 0x3C, 0x32, 0x46, 0x80, 0x08, 0x10, 0xC0,
    ];
    let (mut cpu, mut ram) = load(&program);
    cpu.registers.set_register_16bit(Register16Bit::SP, 0xFFFE);
    for _ in 0..8 {
        assert_eq!(cpu.step(&mut ram), Ok(()));
    }
    assert_eq!(snapshot(&cpu), [0x0B00, 0x0500, 0, 0xC000, 0xFFFE, 13]);
    assert_eq!(ram.read(0xC000), 0x05);
    assert_eq!(ram.read(0xC001), 0x06);
    assert_eq!(ram.read(0xC010), 0xFE);
    assert_eq!(ram.read(0xC011), 0xFF);
}
