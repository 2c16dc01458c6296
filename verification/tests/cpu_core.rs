use myboy::cartridge::Cartridge;
use myboy::cpu::{InterruptMasterEnableStatus, CPU};
use myboy::instruction::{AddressingMode, Instruction, InstructionType};
use myboy::mem_map::MemMap;
use myboy::regs::{ByteRegister, Flag, WordRegister};

fn rom_with(program: &[(u16, u8)]) -> Cartridge {
    let mut data = vec![0u8; 0x8000];
    for &(address, byte) in program {
        data[address as usize] = byte;
    }
    Cartridge::new(data)
}

fn machine(program: &[(u16, u8)]) -> (CPU, MemMap) {
    (CPU::new(), MemMap::new(rom_with(program)))
}

#[test]
fn fibonacci_fragment_runs_to_stop() {
    // XOR A; LD B,0; LD C,1; ADD A,B; LD B,A; STOP
    let program = [
        (0x100, 0xaf),
        (0x101, 0x06),
        (0x102, 0x00),
        (0x103, 0x0e),
        (0x104, 0x01),
        (0x105, 0x80),
        (0x106, 0x47),
        (0x107, 0x10),
    ];
    let (mut cpu, mut mem) = machine(&program);
    let mut m_cycles = 0u32;
    while !cpu.stopped && m_cycles < 100 {
        cpu.m_cycle(&mut mem).unwrap();
        m_cycles += 1;
    }
    assert!(cpu.stopped);
    // 7 M-cycles through ADD + LD, plus one for STOP itself.
    assert_eq!(m_cycles, 8);
    // XOR A zeroes A; ADD A,B with B = 0 keeps it zero and sets Z.
    assert_eq!(cpu.register_set.get_b(ByteRegister::A), 0x00);
    assert_eq!(cpu.register_set.get_b(ByteRegister::B), 0x00);
    assert_eq!(cpu.register_set.get_b(ByteRegister::C), 0x01);
    assert!(cpu.register_set.get_flag(Flag::Zero));
    assert!(!cpu.register_set.get_flag(Flag::Subtract));
    assert!(!cpu.register_set.get_flag(Flag::HalfCarry));
    assert!(!cpu.register_set.get_flag(Flag::Carry));
    // STOP advances PC by two.
    assert_eq!(cpu.register_set.pc(), 0x109);
}

#[test]
fn half_carry_on_inc() {
    let (mut cpu, mut mem) = machine(&[(0x000, 0x3c)]);
    cpu.register_set.set_b(ByteRegister::A, 0x0f);
    cpu.register_set.set_b(ByteRegister::F, 0x00);
    cpu.register_set.set_w(WordRegister::PC, 0x0000);
    cpu.m_cycle(&mut mem).unwrap();
    assert_eq!(cpu.register_set.get_b(ByteRegister::A), 0x10);
    assert!(!cpu.register_set.get_flag(Flag::Zero));
    assert!(!cpu.register_set.get_flag(Flag::Subtract));
    assert!(cpu.register_set.get_flag(Flag::HalfCarry));
    assert!(!cpu.register_set.get_flag(Flag::Carry));
    assert_eq!(cpu.occupied_cycles, 0);
    assert_eq!(cpu.register_set.pc(), 0x0001);
}

#[test]
fn conditional_jump_not_taken() {
    let (mut cpu, mut mem) = machine(&[(0x000, 0x28), (0x001, 0x05)]);
    cpu.register_set.set_b(ByteRegister::F, 0x00);
    cpu.register_set.set_w(WordRegister::PC, 0x0000);
    cpu.m_cycle(&mut mem).unwrap();
    assert_eq!(cpu.register_set.pc(), 0x0002);
    // Two M-cycles in all: this one plus one still owed.
    assert_eq!(cpu.occupied_cycles, 1);
    assert_eq!(cpu.register_set.get_b(ByteRegister::F), 0x00);
}

#[test]
fn call_ret_round_trip() {
    let program = [(0x100, 0xcd), (0x101, 0x34), (0x102, 0x12), (0x1234, 0xc9)];
    let (mut cpu, mut mem) = machine(&program);
    let mut m_cycles = 0u32;
    // CALL: 6 M-cycles.
    for _ in 0..6 {
        cpu.m_cycle(&mut mem).unwrap();
        m_cycles += 1;
    }
    assert_eq!(cpu.register_set.pc(), 0x1234);
    assert_eq!(cpu.register_set.sp(), 0xfffc);
    assert_eq!(mem.read_word(0xfffc), 0x0103);
    // RET: 4 M-cycles.
    for _ in 0..4 {
        cpu.m_cycle(&mut mem).unwrap();
        m_cycles += 1;
    }
    assert_eq!(m_cycles, 10);
    assert_eq!(cpu.register_set.pc(), 0x0103);
    assert_eq!(cpu.register_set.sp(), 0xfffe);
    assert_eq!(cpu.occupied_cycles, 0);
}

#[test]
fn add_sets_zero_half_and_carry() {
    let (mut cpu, mut mem) = machine(&[]);
    cpu.register_set.set_b(ByteRegister::A, 0x3a);
    cpu.register_set.set_b(ByteRegister::B, 0xc6);
    let instruction = Instruction::decode(0x0000, 0x80, 0x00).unwrap();
    let cycles = cpu.run(&mut mem, &instruction);
    assert_eq!(cycles, 1);
    assert_eq!(cpu.register_set.get_b(ByteRegister::A), 0x00);
    assert!(cpu.register_set.get_flag(Flag::Zero));
    assert!(!cpu.register_set.get_flag(Flag::Subtract));
    assert!(cpu.register_set.get_flag(Flag::HalfCarry));
    assert!(cpu.register_set.get_flag(Flag::Carry));
}

#[test]
fn sub_and_cp_flags() {
    let (mut cpu, mut mem) = machine(&[]);
    cpu.register_set.set_b(ByteRegister::A, 0x10);
    cpu.register_set.set_b(ByteRegister::B, 0x20);
    // CP B: A unchanged, borrow sets carry.
    let cp = Instruction::decode(0x0000, 0xb8, 0x00).unwrap();
    cpu.run(&mut mem, &cp);
    assert_eq!(cpu.register_set.get_b(ByteRegister::A), 0x10);
    assert!(!cpu.register_set.get_flag(Flag::Zero));
    assert!(cpu.register_set.get_flag(Flag::Subtract));
    assert!(cpu.register_set.get_flag(Flag::Carry));
    // SUB B: wraps to 0xF0.
    let sub = Instruction::decode(0x0000, 0x90, 0x00).unwrap();
    cpu.run(&mut mem, &sub);
    assert_eq!(cpu.register_set.get_b(ByteRegister::A), 0xf0);
}

#[test]
fn daa_adjusts_bcd_addition() {
    let (mut cpu, mut mem) = machine(&[]);
    cpu.register_set.set_b(ByteRegister::A, 0x45);
    cpu.register_set.set_b(ByteRegister::B, 0x38);
    let add = Instruction::decode(0x0000, 0x80, 0x00).unwrap();
    cpu.run(&mut mem, &add);
    assert_eq!(cpu.register_set.get_b(ByteRegister::A), 0x7d);
    let daa = Instruction::decode(0x0001, 0x27, 0x00).unwrap();
    cpu.run(&mut mem, &daa);
    assert_eq!(cpu.register_set.get_b(ByteRegister::A), 0x83);
    assert!(!cpu.register_set.get_flag(Flag::Carry));
    assert!(!cpu.register_set.get_flag(Flag::HalfCarry));
}

#[test]
fn hl_increment_then_decrement_restores_hl() {
    let (mut cpu, mut mem) = machine(&[]);
    cpu.register_set.set_w(WordRegister::HL, 0xc000);
    cpu.register_set.set_b(ByteRegister::A, 0x5a);
    // LD (HL+), A
    let store = Instruction::decode(0x0000, 0x22, 0x00).unwrap();
    cpu.run(&mut mem, &store);
    assert_eq!(cpu.register_set.get_w(WordRegister::HL), 0xc001);
    assert_eq!(mem.read_byte(0xc000), 0x5a);
    // LD A, (HL-)
    let load = Instruction::decode(0x0001, 0x3a, 0x00).unwrap();
    cpu.run(&mut mem, &load);
    assert_eq!(cpu.register_set.get_w(WordRegister::HL), 0xc000);
}

#[test]
fn push_pop_round_trip_restores_pair_and_sp() {
    let (mut cpu, mut mem) = machine(&[]);
    cpu.register_set.set_w(WordRegister::BC, 0x1234);
    cpu.register_set.set_sp(0xd000);
    let push = Instruction::decode(0x0000, 0xc5, 0x00).unwrap();
    cpu.run(&mut mem, &push);
    assert_eq!(cpu.register_set.sp(), 0xcffe);
    cpu.register_set.set_w(WordRegister::BC, 0x0000);
    let pop = Instruction::decode(0x0001, 0xc1, 0x00).unwrap();
    cpu.run(&mut mem, &pop);
    assert_eq!(cpu.register_set.get_w(WordRegister::BC), 0x1234);
    assert_eq!(cpu.register_set.sp(), 0xd000);
}

#[test]
fn pop_af_keeps_low_flag_bits_zero() {
    let (mut cpu, mut mem) = machine(&[]);
    cpu.register_set.set_w(WordRegister::AF, 0x12ff);
    assert_eq!(cpu.register_set.get_w(WordRegister::AF), 0x12f0);
    cpu.register_set.set_sp(0xd000);
    let push = Instruction::decode(0x0000, 0xf5, 0x00).unwrap();
    cpu.run(&mut mem, &push);
    cpu.register_set.set_w(WordRegister::AF, 0x0000);
    let pop = Instruction::decode(0x0001, 0xf1, 0x00).unwrap();
    cpu.run(&mut mem, &pop);
    assert_eq!(cpu.register_set.get_w(WordRegister::AF), 0x12f0);
}

#[test]
fn two_scf_leave_flags_unchanged_after_first() {
    let (mut cpu, mut mem) = machine(&[]);
    cpu.register_set.set_b(ByteRegister::F, 0xf0);
    let scf1 = Instruction::decode(0x0000, 0x37, 0x00).unwrap();
    cpu.run(&mut mem, &scf1);
    let after_first = cpu.register_set.get_b(ByteRegister::F);
    let scf2 = Instruction::decode(0x0001, 0x37, 0x00).unwrap();
    cpu.run(&mut mem, &scf2);
    assert_eq!(cpu.register_set.get_b(ByteRegister::F), after_first);
    // SCF: C set, N and H cleared, Z untouched.
    assert_eq!(after_first, 0x90);
}

#[test]
fn rotate_left_accumulator_forces_zero_flag_off() {
    let (mut cpu, mut mem) = machine(&[]);
    cpu.register_set.set_b(ByteRegister::A, 0x80);
    // RLCA: bit 7 into carry and bit 0; Z forced off.
    let rlca = Instruction::decode(0x0000, 0x07, 0x00).unwrap();
    let cycles = cpu.run(&mut mem, &rlca);
    assert_eq!(cycles, 1);
    assert_eq!(cpu.register_set.get_b(ByteRegister::A), 0x01);
    assert!(cpu.register_set.get_flag(Flag::Carry));
    assert!(!cpu.register_set.get_flag(Flag::Zero));
}

#[test]
fn cb_swap_sets_zero_for_zero_result() {
    let (mut cpu, mut mem) = machine(&[]);
    cpu.register_set.set_b(ByteRegister::B, 0x00);
    // CB 30: SWAP B.
    let swap = Instruction::decode(0x0000, 0xcb, 0x30).unwrap();
    let cycles = cpu.run(&mut mem, &swap);
    assert_eq!(cycles, 2);
    assert!(cpu.register_set.get_flag(Flag::Zero));
    cpu.register_set.set_b(ByteRegister::B, 0xa5);
    let swap2 = Instruction::decode(0x0000, 0xcb, 0x30).unwrap();
    cpu.run(&mut mem, &swap2);
    assert_eq!(cpu.register_set.get_b(ByteRegister::B), 0x5a);
}

#[test]
fn cb_bit_test_reads_operand() {
    let (mut cpu, mut mem) = machine(&[]);
    cpu.register_set.set_b(ByteRegister::C, 0x00);
    // CB 79: BIT 7, C with the bit clear sets Z.
    let bit = Instruction::decode(0x0000, 0xcb, 0x79).unwrap();
    assert_eq!(bit.instruction_type, InstructionType::TestBit);
    cpu.run(&mut mem, &bit);
    assert!(cpu.register_set.get_flag(Flag::Zero));
    assert!(cpu.register_set.get_flag(Flag::HalfCarry));
    // CB F9: SET 7, C.
    let set = Instruction::decode(0x0000, 0xcb, 0xf9).unwrap();
    cpu.run(&mut mem, &set);
    assert_eq!(cpu.register_set.get_b(ByteRegister::C), 0x80);
    let bit_again = Instruction::decode(0x0000, 0xcb, 0x79).unwrap();
    cpu.run(&mut mem, &bit_again);
    assert!(!cpu.register_set.get_flag(Flag::Zero));
}

#[test]
fn instruction_sizes_match_addressing_modes() {
    assert_eq!(Instruction::decode(0, 0x00, 0).unwrap().size(), 1);
    assert_eq!(Instruction::decode(0, 0x3e, 0).unwrap().size(), 2);
    assert_eq!(Instruction::decode(0, 0x01, 0).unwrap().size(), 3);
    assert_eq!(Instruction::decode(0, 0xcd, 0).unwrap().size(), 3);
    assert_eq!(Instruction::decode(0, 0xe0, 0).unwrap().size(), 2);
    assert_eq!(Instruction::decode(0, 0xea, 0).unwrap().size(), 3);
    assert_eq!(Instruction::decode(0, 0xcb, 0x11).unwrap().size(), 2);
    assert_eq!(Instruction::decode(0, 0x18, 0).unwrap().size(), 2);
    assert_eq!(Instruction::decode(0, 0xc7, 0).unwrap().size(), 1);
}

#[test]
fn undefined_opcodes_are_decode_errors() {
    for opcode in [0xd3u8, 0xdb, 0xdd, 0xe3, 0xe4, 0xeb, 0xec, 0xed, 0xf4, 0xfc, 0xfd] {
        let result = Instruction::decode(0x0200, opcode, 0x00);
        let error = result.unwrap_err();
        assert_eq!(error.address, 0x0200);
        assert_eq!(error.opcode, opcode);
    }
}

#[test]
fn halt_decodes_inside_load_block() {
    let halt = Instruction::decode(0, 0x76, 0).unwrap();
    assert_eq!(halt.instruction_type, InstructionType::Halt);
    let load = Instruction::decode(0, 0x77, 0).unwrap();
    assert_eq!(load.instruction_type, InstructionType::LoadByte);
    assert_eq!(
        load.target,
        Some(AddressingMode::RegisterPointer(WordRegister::HL))
    );
}

#[test]
fn restart_targets_its_vector() {
    let rst = Instruction::decode(0x150, 0xff, 0).unwrap();
    assert_eq!(rst.instruction_type, InstructionType::Restart);
    assert_eq!(rst.target, Some(AddressingMode::Target(0x38)));
}

#[test]
fn interrupt_dispatch_pushes_current_pc() {
    let (mut cpu, mut mem) = machine(&[]);
    cpu.interrupt_master_enable = InterruptMasterEnableStatus::Enabled;
    cpu.register_set.set_w(WordRegister::PC, 0x1234);
    cpu.register_set.set_sp(0xd000);
    mem.ie_register.write_byte(0x04);
    mem.io_registers.set_if_register(0x04);
    let dispatched = cpu.check_interrupts(&mut mem);
    assert!(dispatched);
    assert_eq!(cpu.register_set.pc(), 0x0050);
    assert_eq!(cpu.register_set.sp(), 0xcffe);
    assert_eq!(mem.read_word(0xcffe), 0x1234);
    assert!(!mem.io_registers.if_register.is_timer());
    assert_eq!(cpu.occupied_cycles, 5);
}

#[test]
fn ei_enables_interrupts_one_instruction_late() {
    // EI; NOP; then a pending timer interrupt dispatches.
    let program = [(0x100, 0xfb), (0x101, 0x00), (0x102, 0x00)];
    let (mut cpu, mut mem) = machine(&program);
    mem.ie_register.write_byte(0x04);
    mem.io_registers.set_if_register(0x04);
    cpu.m_cycle(&mut mem).unwrap();
    assert!(matches!(
        cpu.interrupt_master_enable,
        InterruptMasterEnableStatus::Enabling
    ));
    // The next M-cycle still runs the NOP; Enabling becomes Enabled.
    cpu.m_cycle(&mut mem).unwrap();
    assert!(matches!(
        cpu.interrupt_master_enable,
        InterruptMasterEnableStatus::Enabled
    ));
    assert_eq!(cpu.register_set.pc(), 0x0102);
    // Now the dispatch happens instead of the second NOP.
    cpu.m_cycle(&mut mem).unwrap();
    assert_eq!(cpu.register_set.pc(), 0x0050);
}

#[test]
fn halt_waits_until_interrupt_pending() {
    let program = [(0x100, 0x76)];
    let (mut cpu, mut mem) = machine(&program);
    mem.io_registers.set_if_register(0x00);
    mem.ie_register.write_byte(0x04);
    cpu.m_cycle(&mut mem).unwrap();
    assert!(cpu.is_halted());
    let pc_halted = cpu.register_set.pc();
    for _ in 0..5 {
        cpu.m_cycle(&mut mem).unwrap();
    }
    assert!(cpu.is_halted());
    assert_eq!(cpu.register_set.pc(), pc_halted);
    // A pending interrupt releases HALT even with IME off.
    mem.io_registers.set_if_register(0x04);
    cpu.m_cycle(&mut mem).unwrap();
    assert!(!cpu.is_halted());
}

#[test]
fn load_high_moves_through_high_page() {
    let (mut cpu, mut mem) = machine(&[(0x000, 0xe0), (0x001, 0x80)]);
    cpu.register_set.set_b(ByteRegister::A, 0x42);
    // LDH (0x80), A writes HRAM.
    let store = Instruction::decode(0x0000, 0xe0, 0x00).unwrap();
    let cycles = cpu.run(&mut mem, &store);
    assert_eq!(cycles, 2);
    assert_eq!(mem.read_byte(0xff80), 0x42);
    // LDH A, (C) with C = 0x80 reads it back.
    cpu.register_set.set_b(ByteRegister::A, 0x00);
    cpu.register_set.set_b(ByteRegister::C, 0x80);
    let load = Instruction::decode(0x0002, 0xf2, 0x00).unwrap();
    let cycles_back = cpu.run(&mut mem, &load);
    assert_eq!(cycles_back, 3);
    assert_eq!(cpu.register_set.get_b(ByteRegister::A), 0x42);
}
