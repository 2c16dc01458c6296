//! Operand resolution and instruction execution.
//!
//! `spec_step` is the canonical account of what one instruction does to
//! the registers, the interrupt gate and the memory map, and how many
//! M-cycles it costs; `CPU::run` is proved to implement it. The flag
//! rules and the timing table live in `spec_alu_byte`, the other flag
//! helpers and `spec_cycles`.

use vstd::prelude::*;

use crate::cpu::{spec_push, InterruptMasterEnableStatus, CPU};
use crate::instruction::{AddressingMode, Condition, Instruction, InstructionType};
use crate::mem_map::{spec_wrap_add16, wrap_add16, wrap_sub16, MemImage, MemMap};
use crate::regs::{ByteRegister, Flag, RegisterSet, WordRegister};

verus! {

/// The address of an instruction's first operand byte.
pub open spec fn spec_imm_addr(i: Instruction) -> u16 {
    spec_wrap_add16(i.address, 1)
}

/// The memory address a pointer-shaped operand names.
pub open spec fn spec_mode_addr(
    regs: RegisterSet,
    mem: MemImage,
    i: Instruction,
    mode: AddressingMode,
) -> u16 {
    match mode {
        AddressingMode::RegisterPointer(r) => regs.spec_w(r),
        AddressingMode::ImmediatePointer => mem.spec_read_word(spec_imm_addr(i)),
        AddressingMode::ImmediatePointerHigh => (0xff00 + mem.spec_read_byte(
            spec_imm_addr(i),
        )) as u16,
        AddressingMode::RegisterPointerHigh(r) => (0xff00 + regs.spec_b(r)) as u16,
        _ => 0u16,
    }
}

pub open spec fn spec_read_byte_operand(
    regs: RegisterSet,
    mem: MemImage,
    i: Instruction,
    mode: AddressingMode,
) -> u8 {
    match mode {
        AddressingMode::ImmediateByte => mem.spec_read_byte(spec_imm_addr(i)),
        AddressingMode::ByteRegister(r) => regs.spec_b(r),
        _ => mem.spec_read_byte(spec_mode_addr(regs, mem, i, mode)),
    }
}

pub open spec fn spec_source_byte(regs: RegisterSet, mem: MemImage, i: Instruction) -> u8 {
    match i.source {
        Some(mode) => spec_read_byte_operand(regs, mem, i, mode),
        None => 0u8,
    }
}

pub open spec fn spec_target_byte(regs: RegisterSet, mem: MemImage, i: Instruction) -> u8 {
    match i.target {
        Some(mode) => spec_read_byte_operand(regs, mem, i, mode),
        None => 0u8,
    }
}

pub open spec fn spec_read_word_operand(
    regs: RegisterSet,
    mem: MemImage,
    i: Instruction,
    mode: AddressingMode,
) -> u16 {
    match mode {
        AddressingMode::Target(value) => value,
        AddressingMode::ImmediateWord => mem.spec_read_word(spec_imm_addr(i)),
        AddressingMode::WordRegister(r) => regs.spec_w(r),
        _ => 0u16,
    }
}

pub open spec fn spec_source_word(regs: RegisterSet, mem: MemImage, i: Instruction) -> u16 {
    match i.source {
        Some(mode) => spec_read_word_operand(regs, mem, i, mode),
        None => 0u16,
    }
}

pub open spec fn spec_target_word(regs: RegisterSet, mem: MemImage, i: Instruction) -> u16 {
    match i.target {
        Some(mode) => spec_read_word_operand(regs, mem, i, mode),
        None => 0u16,
    }
}

/// Registers and memory after an 8-bit write to the target operand.
pub open spec fn spec_write_target_byte(
    regs: RegisterSet,
    mem: MemImage,
    i: Instruction,
    value: u8,
) -> (RegisterSet, MemImage) {
    match i.target {
        Some(AddressingMode::ByteRegister(r)) => (regs.spec_set_b(r, value), mem),
        Some(mode) => (regs, mem.spec_write_byte(spec_mode_addr(regs, mem, i, mode), value)),
        None => (regs, mem),
    }
}

/// Registers and memory after a 16-bit write to the target operand.
pub open spec fn spec_write_target_word(
    regs: RegisterSet,
    mem: MemImage,
    i: Instruction,
    value: u16,
) -> (RegisterSet, MemImage) {
    match i.target {
        Some(AddressingMode::WordRegister(r)) => (regs.spec_set_w(r, value), mem),
        Some(AddressingMode::ImmediatePointer) => (
            regs,
            mem.spec_write_word(mem.spec_read_word(spec_imm_addr(i)), value),
        ),
        _ => (regs, mem),
    }
}

/// Whether the instruction's condition holds; unconditional instructions
/// are always taken.
pub open spec fn spec_taken(regs: RegisterSet, i: Instruction) -> bool {
    match i.condition {
        None => true,
        Some(Condition::NotZero) => !regs.flag_z,
        Some(Condition::Zero) => regs.flag_z,
        Some(Condition::NoCarry) => !regs.flag_c,
        Some(Condition::Carry) => regs.flag_c,
    }
}

impl CPU {
    pub fn condition_met(&self, instruction: &Instruction) -> (result: bool)
        ensures
            result == spec_taken(self.register_set, *instruction),
    {
        match instruction.condition {
            Some(Condition::NotZero) => !self.register_set.get_flag(Flag::Zero),
            Some(Condition::Zero) => self.register_set.get_flag(Flag::Zero),
            Some(Condition::NoCarry) => !self.register_set.get_flag(Flag::Carry),
            Some(Condition::Carry) => self.register_set.get_flag(Flag::Carry),
            None => true,
        }
    }

    /// Resolve a pointer-shaped operand to the address it names.
    fn mode_addr(&self, mem_map: &MemMap, instruction: &Instruction, mode: &AddressingMode) -> (
        result: u16)
        requires
            mem_map.wf(),
            mode matches AddressingMode::RegisterPointer(_) || mode matches
                AddressingMode::ImmediatePointer || mode matches
                AddressingMode::ImmediatePointerHigh || mode matches
                AddressingMode::RegisterPointerHigh(_),
        ensures
            result == spec_mode_addr(self.register_set, mem_map@, *instruction, *mode),
    {
        match mode {
            AddressingMode::RegisterPointer(r) => self.register_set.get_w(*r),
            AddressingMode::ImmediatePointer => {
                let imm = wrap_add16(instruction.address, 1);
                let lo = mem_map.read_byte(imm);
                let hi = mem_map.read_byte(wrap_add16(imm, 1));
                (lo as u16) + (hi as u16) * 256
            },
            AddressingMode::ImmediatePointerHigh => {
                let offset = mem_map.read_byte(wrap_add16(instruction.address, 1));
                0xff00 + (offset as u16)
            },
            AddressingMode::RegisterPointerHigh(r) => {
                0xff00 + (self.register_set.get_b(*r) as u16)
            },
            _ => 0,
        }
    }

    pub fn get_source_byte(&self, mem_map: &MemMap, instruction: &Instruction) -> (result: u8)
        requires
            mem_map.wf(),
            instruction.source matches Some(s) && s.is_byte_readable(),
        ensures
            result == spec_source_byte(self.register_set, mem_map@, *instruction),
    {
        match &instruction.source {
            Some(AddressingMode::ImmediateByte) => mem_map.read_byte(
                wrap_add16(instruction.address, 1),
            ),
            Some(AddressingMode::ByteRegister(register)) => self.register_set.get_b(*register),
            Some(mode) => mem_map.read_byte(self.mode_addr(mem_map, instruction, mode)),
            None => 0,
        }
    }

    pub fn get_target_byte(&self, mem_map: &MemMap, instruction: &Instruction) -> (result: u8)
        requires
            mem_map.wf(),
            instruction.target matches Some(t) && t.is_byte_readable(),
        ensures
            result == spec_target_byte(self.register_set, mem_map@, *instruction),
    {
        match &instruction.target {
            Some(AddressingMode::ImmediateByte) => mem_map.read_byte(
                wrap_add16(instruction.address, 1),
            ),
            Some(AddressingMode::ByteRegister(register)) => self.register_set.get_b(*register),
            Some(mode) => mem_map.read_byte(self.mode_addr(mem_map, instruction, mode)),
            None => 0,
        }
    }

    fn read_word_operand(&self, mem_map: &MemMap, instruction: &Instruction, mode: &AddressingMode)
        -> (result: u16)
        requires
            mem_map.wf(),
            mode matches AddressingMode::Target(_) || mode matches AddressingMode::ImmediateWord
                || mode matches AddressingMode::WordRegister(_),
        ensures
            result == spec_read_word_operand(self.register_set, mem_map@, *instruction, *mode),
    {
        match mode {
            AddressingMode::Target(value) => *value,
            AddressingMode::ImmediateWord => {
                let imm = wrap_add16(instruction.address, 1);
                let lo = mem_map.read_byte(imm);
                let hi = mem_map.read_byte(wrap_add16(imm, 1));
                (lo as u16) + (hi as u16) * 256
            },
            AddressingMode::WordRegister(r) => self.register_set.get_w(*r),
            _ => 0,
        }
    }

    pub fn get_source_word(&self, mem_map: &MemMap, instruction: &Instruction) -> (result: u16)
        requires
            mem_map.wf(),
            instruction.source matches Some(s) && (s matches AddressingMode::Target(_) || s
                matches AddressingMode::ImmediateWord || s matches AddressingMode::WordRegister(
                _,
            )),
        ensures
            result == spec_source_word(self.register_set, mem_map@, *instruction),
    {
        match &instruction.source {
            Some(mode) => self.read_word_operand(mem_map, instruction, mode),
            None => 0,
        }
    }

    pub fn get_target_word(&self, mem_map: &MemMap, instruction: &Instruction) -> (result: u16)
        requires
            mem_map.wf(),
            instruction.target matches Some(t) && (t matches AddressingMode::Target(_) || t
                matches AddressingMode::ImmediateWord || t matches AddressingMode::WordRegister(
                _,
            )),
        ensures
            result == spec_target_word(self.register_set, mem_map@, *instruction),
    {
        match &instruction.target {
            Some(mode) => self.read_word_operand(mem_map, instruction, mode),
            None => 0,
        }
    }

    pub fn write_target_byte(&mut self, mem_map: &mut MemMap, instruction: &Instruction, value: u8)
        requires
            old(mem_map).wf(),
            instruction.target matches Some(t) && t.is_byte_writable(),
        ensures
            final(mem_map).wf(),
            final(mem_map).cartridge == old(mem_map).cartridge,
            (final(self).register_set, final(mem_map)@) == spec_write_target_byte(
                old(self).register_set,
                old(mem_map)@,
                *instruction,
                value,
            ),
            *final(self) == (CPU { register_set: final(self).register_set, ..*old(self) }),
    {
        match &instruction.target {
            Some(AddressingMode::ByteRegister(register)) => {
                self.register_set.set_b(*register, value);
            },
            Some(AddressingMode::RegisterPointer(register)) => {
                let address = self.register_set.get_w(*register);
                mem_map.write_byte(address, value);
            },
            Some(AddressingMode::ImmediatePointer) => {
                let address = self.mode_addr(mem_map, instruction, &AddressingMode::ImmediatePointer);
                proof {
                    assert(spec_mode_addr(self.register_set, mem_map@, *instruction,
                        AddressingMode::ImmediatePointer) == spec_mode_addr(self.register_set,
                        mem_map@, *instruction, instruction.target->Some_0));
                }
                mem_map.write_byte(address, value);
            },
            Some(AddressingMode::ImmediatePointerHigh) => {
                let address = self.mode_addr(mem_map, instruction,
                    &AddressingMode::ImmediatePointerHigh);
                mem_map.write_byte(address, value);
            },
            Some(AddressingMode::RegisterPointerHigh(register)) => {
                let address = 0xff00 + (self.register_set.get_b(*register) as u16);
                mem_map.write_byte(address, value);
            },
            _ => {},
        }
    }

    pub fn write_target_word(&mut self, mem_map: &mut MemMap, instruction: &Instruction, value: u16)
        requires
            old(mem_map).wf(),
            instruction.target matches Some(t) && (t matches AddressingMode::WordRegister(_) || t
                matches AddressingMode::ImmediatePointer),
        ensures
            final(mem_map).wf(),
            final(mem_map).cartridge == old(mem_map).cartridge,
            (final(self).register_set, final(mem_map)@) == spec_write_target_word(
                old(self).register_set,
                old(mem_map)@,
                *instruction,
                value,
            ),
            *final(self) == (CPU { register_set: final(self).register_set, ..*old(self) }),
    {
        match &instruction.target {
            Some(AddressingMode::WordRegister(register)) => {
                self.register_set.set_w(*register, value);
            },
            Some(AddressingMode::ImmediatePointer) => {
                let address = self.mode_addr(mem_map, instruction, &AddressingMode::ImmediatePointer);
                mem_map.write_byte(address, (value % 256) as u8);
                mem_map.write_byte(wrap_add16(address, 1), (value / 256) as u8);
            },
            _ => {},
        }
    }
}

/// Four flag bits written at once.
pub open spec fn spec_with_flags(regs: RegisterSet, z: bool, n: bool, h: bool, c: bool)
    -> RegisterSet {
    RegisterSet { flag_z: z, flag_n: n, flag_h: h, flag_c: c, ..regs }
}

/// HL post-increment or post-decrement demanded by an (HL+) or (HL-)
/// operand, applied after the transfer.
pub open spec fn spec_hl_post_adjust(regs: RegisterSet, mode: Option<AddressingMode>)
    -> RegisterSet {
    match mode {
        Some(AddressingMode::RegisterPointer(WordRegister::HLi)) => regs.spec_set_w(
            WordRegister::HL,
            spec_wrap_add16(regs.spec_w(WordRegister::HL), 1),
        ),
        Some(AddressingMode::RegisterPointer(WordRegister::HLd)) => regs.spec_set_w(
            WordRegister::HL,
            crate::mem_map::spec_wrap_sub16(regs.spec_w(WordRegister::HL), 1),
        ),
        _ => regs,
    }
}

/// A 16-bit base plus an 8-bit two's-complement offset.
pub open spec fn spec_add_signed(x: u16, e: u8) -> u16 {
    if e < 0x80 {
        spec_wrap_add16(x, e as u16)
    } else {
        spec_wrap_add16(x, (e + 0xff00) as u16)
    }
}

/// The result and the Z, N, H, C flags of the eight 8-bit ALU operations.
/// CP computes the SUB flags without writing A, so its result slot keeps
/// the accumulator.
pub open spec fn spec_alu_byte(t: InstructionType, a: u8, x: u8, carry: bool)
    -> (u8, bool, bool, bool, bool) {
    let c0: u8 = if carry { 1u8 } else { 0u8 };
    match t {
        InstructionType::AddByte => {
            let r = ((a + x) % 256) as u8;
            (r, r == 0, false, (a & 0xf) + (x & 0xf) > 0xf, a + x > 0xff)
        },
        InstructionType::AddWithCarry => {
            let r = ((a + x + c0) % 256) as u8;
            (r, r == 0, false, (a & 0xf) + (x & 0xf) + c0 > 0xf, a + x + c0 > 0xff)
        },
        InstructionType::Sub => {
            let r = ((a + 256 - x) % 256) as u8;
            (r, a == x, true, (a & 0xf) < (x & 0xf), a < x)
        },
        InstructionType::SubWithCarry => {
            let r = ((a + 512 - x - c0) % 256) as u8;
            (r, r == 0, true, (a & 0xf) < (x & 0xf) + c0, a < x + c0)
        },
        InstructionType::And => {
            let r = a & x;
            (r, r == 0, false, true, false)
        },
        InstructionType::Xor => {
            let r = a ^ x;
            (r, r == 0, false, false, false)
        },
        InstructionType::Or => {
            let r = a | x;
            (r, r == 0, false, false, false)
        },
        _ => (a, a == x, true, (a & 0xf) < (x & 0xf), a < x),
    }
}

/// The result and the shifted-out bit of the rotate, shift and swap
/// family.
pub open spec fn spec_rotate(t: InstructionType, v: u8, carry: bool) -> (u8, bool) {
    match t {
        InstructionType::RollLeft => ((((v * 2) + (v / 128)) % 256) as u8, v >= 0x80),
        InstructionType::RollRight => (((v / 2) + (v % 2) * 128) as u8, v % 2 == 1),
        InstructionType::RollLeftThroughCarry => (
            (((v * 2) + if carry { 1u8 } else { 0u8 }) % 256) as u8,
            v >= 0x80,
        ),
        InstructionType::RollRightThroughCarry => (
            ((v / 2) + if carry { 128u8 } else { 0u8 }) as u8,
            v % 2 == 1,
        ),
        InstructionType::ShiftLeftArithmetically => (((v * 2) % 256) as u8, v >= 0x80),
        InstructionType::ShiftRightArithmetically => (
            ((v / 2) + if v >= 0x80 { 128u8 } else { 0u8 }) as u8,
            v % 2 == 1,
        ),
        InstructionType::Swap => (((v % 16) * 16 + v / 16) as u8, false),
        _ => ((v / 2) as u8, v % 2 == 1),
    }
}

/// The BCD post-adjustment of A: the adjusted accumulator and the new
/// carry.
pub open spec fn spec_daa(a: u8, n: bool, h: bool, c: bool) -> (u8, bool) {
    if !n {
        let low_adjust: u8 = if h || a % 16 > 9 { 6u8 } else { 0u8 };
        if c || a > 0x99 {
            (((a + low_adjust + 0x60) % 256) as u8, true)
        } else {
            (((a + low_adjust) % 256) as u8, c)
        }
    } else {
        let low_adjusted: u8 = if h { ((a + 250) % 256) as u8 } else { a };
        if c {
            (((low_adjusted + 160) % 256) as u8, c)
        } else {
            (low_adjusted, c)
        }
    }
}

/// The M-cycle cost of a byte load, by operand shape.
pub open spec fn spec_load_byte_cycles(i: Instruction) -> u32 {
    if i.target == Some(AddressingMode::ImmediatePointer) || i.source == Some(
        AddressingMode::ImmediatePointer,
    ) {
        4u32
    } else if i.source == Some(AddressingMode::ImmediateByte) && i.target matches Some(
        AddressingMode::RegisterPointer(_),
    ) {
        3u32
    } else if i.source == Some(AddressingMode::ImmediateByte) {
        2u32
    } else if i.target matches Some(AddressingMode::RegisterPointer(_)) || i.source matches Some(
        AddressingMode::RegisterPointer(_),
    ) {
        2u32
    } else {
        1u32
    }
}

/// The M-cycle timing table, with the taken/not-taken split for the
/// conditional branches.
pub open spec fn spec_cycles(i: Instruction, taken: bool) -> u32 {
    match i.instruction_type {
        InstructionType::Nop => 1u32,
        InstructionType::LoadByte => spec_load_byte_cycles(i),
        InstructionType::LoadWord => if i.target == Some(AddressingMode::ImmediatePointer) {
            5u32
        } else if i.source == Some(AddressingMode::ImmediateWord) {
            3u32
        } else {
            2u32
        },
        InstructionType::LoadHigh => if i.target == Some(AddressingMode::ImmediatePointerHigh)
            || i.source == Some(AddressingMode::ImmediatePointerHigh) {
            2u32
        } else {
            3u32
        },
        InstructionType::IncByte | InstructionType::DecByte => if i.target matches Some(
            AddressingMode::RegisterPointer(_),
        ) {
            2u32
        } else {
            1u32
        },
        InstructionType::IncWord | InstructionType::DecWord => 2u32,
        InstructionType::AddByte | InstructionType::AddWithCarry | InstructionType::Sub
            | InstructionType::SubWithCarry | InstructionType::And | InstructionType::Xor
            | InstructionType::Or | InstructionType::Cp => if i.source matches Some(
            AddressingMode::ByteRegister(_),
        ) {
            1u32
        } else {
            2u32
        },
        InstructionType::AddWord => 2u32,
        InstructionType::AddSpAdjusted => 4u32,
        InstructionType::LoadHlAdjusted => 3u32,
        InstructionType::Jump => if taken {
            4u32
        } else {
            3u32
        },
        InstructionType::JumpRelative => if taken {
            3u32
        } else {
            2u32
        },
        InstructionType::Push => 4u32,
        InstructionType::Pop => 3u32,
        InstructionType::Return => if i.condition is Some {
            if taken {
                5u32
            } else {
                2u32
            }
        } else {
            4u32
        },
        InstructionType::ReturnInterrupt => 4u32,
        InstructionType::Call => if taken {
            6u32
        } else {
            3u32
        },
        InstructionType::Restart => 4u32,
        InstructionType::Stop | InstructionType::Halt | InstructionType::DisableInterrupts
            | InstructionType::EnableInterrupts | InstructionType::DecimalAdjustAccumulator
            | InstructionType::ComplementAccumulator | InstructionType::SetCarryFlag
            | InstructionType::ComplementCarryFlag => 1u32,
        InstructionType::RollLeft | InstructionType::RollRight
            | InstructionType::RollLeftThroughCarry | InstructionType::RollRightThroughCarry
            | InstructionType::ShiftLeftArithmetically | InstructionType::ShiftRightArithmetically
            | InstructionType::Swap | InstructionType::ShiftRightLogically => if i.opcode
            == 0xcb {
            if i.target matches Some(AddressingMode::RegisterPointer(_)) {
                4u32
            } else {
                2u32
            }
        } else {
            1u32
        },
        InstructionType::TestBit | InstructionType::ResetBit | InstructionType::SetBit => if i
            .target matches Some(AddressingMode::RegisterPointer(_)) {
            4u32
        } else {
            2u32
        },
    }
}

/// What one instruction does: the CPU and memory afterwards, and the
/// M-cycle cost. PC advances by the instruction's size unless a taken
/// branch overrides it; flags follow the ALU rules; (HL+) and (HL-)
/// post-adjust HL; stack operations move SP by two.
#[verifier::opaque]
pub open spec fn spec_step(cpu: CPU, mem: MemImage, i: Instruction) -> (CPU, MemImage, u32) {
    let regs = RegisterSet { pc: i.address, ..cpu.register_set };
    let cpu1 = CPU { current_instruction: Some(i), register_set: regs, ..cpu };
    let pc_next = spec_wrap_add16(i.address, i.spec_instruction_size() as u16);
    let taken = spec_taken(regs, i);
    let cycles = spec_cycles(i, taken);
    match i.instruction_type {
        InstructionType::Nop => (
            CPU { register_set: RegisterSet { pc: pc_next, ..regs }, ..cpu1 },
            mem,
            cycles,
        ),
        InstructionType::LoadByte | InstructionType::LoadHigh => {
            let v = spec_source_byte(regs, mem, i);
            let (regs1, mem1) = spec_write_target_byte(regs, mem, i, v);
            let regs2 = spec_hl_post_adjust(regs1, i.target);
            let regs3 = spec_hl_post_adjust(regs2, i.source);
            (CPU { register_set: RegisterSet { pc: pc_next, ..regs3 }, ..cpu1 }, mem1, cycles)
        },
        InstructionType::LoadWord => {
            let v = spec_source_word(regs, mem, i);
            let (regs1, mem1) = spec_write_target_word(regs, mem, i, v);
            (CPU { register_set: RegisterSet { pc: pc_next, ..regs1 }, ..cpu1 }, mem1, cycles)
        },
        InstructionType::IncByte => {
            let t = spec_target_byte(regs, mem, i);
            let r = ((t + 1) % 256) as u8;
            let (regs1, mem1) = spec_write_target_byte(regs, mem, i, r);
            let regs2 = spec_with_flags(regs1, r == 0, false, t & 0xf == 0xf, regs.flag_c);
            (CPU { register_set: RegisterSet { pc: pc_next, ..regs2 }, ..cpu1 }, mem1, cycles)
        },
        InstructionType::DecByte => {
            let t = spec_target_byte(regs, mem, i);
            let r = ((t + 255) % 256) as u8;
            let (regs1, mem1) = spec_write_target_byte(regs, mem, i, r);
            let regs2 = spec_with_flags(regs1, r == 0, true, r & 0xf == 0xf, regs.flag_c);
            (CPU { register_set: RegisterSet { pc: pc_next, ..regs2 }, ..cpu1 }, mem1, cycles)
        },
        InstructionType::IncWord => {
            let t = spec_target_word(regs, mem, i);
            let (regs1, mem1) = spec_write_target_word(regs, mem, i, spec_wrap_add16(t, 1));
            (CPU { register_set: RegisterSet { pc: pc_next, ..regs1 }, ..cpu1 }, mem1, cycles)
        },
        InstructionType::DecWord => {
            let t = spec_target_word(regs, mem, i);
            let (regs1, mem1) = spec_write_target_word(
                regs,
                mem,
                i,
                crate::mem_map::spec_wrap_sub16(t, 1),
            );
            (CPU { register_set: RegisterSet { pc: pc_next, ..regs1 }, ..cpu1 }, mem1, cycles)
        },
        InstructionType::AddWord => {
            let hl = spec_target_word(regs, mem, i);
            let src = spec_source_word(regs, mem, i);
            let (regs1, mem1) = spec_write_target_word(regs, mem, i, spec_wrap_add16(hl, src));
            let regs2 = spec_with_flags(
                regs1,
                regs.flag_z,
                false,
                (hl & 0xfff) + (src & 0xfff) > 0xfff,
                hl + src > 0xffff,
            );
            (CPU { register_set: RegisterSet { pc: pc_next, ..regs2 }, ..cpu1 }, mem1, cycles)
        },
        InstructionType::AddSpAdjusted => {
            let e = spec_source_byte(regs, mem, i);
            let sp = spec_target_word(regs, mem, i);
            let (regs1, mem1) = spec_write_target_word(regs, mem, i, spec_add_signed(sp, e));
            let regs2 = spec_with_flags(
                regs1,
                false,
                false,
                (sp & 0xf) + (e & 0xf) > 0xf,
                (sp & 0xff) + e > 0xff,
            );
            (CPU { register_set: RegisterSet { pc: pc_next, ..regs2 }, ..cpu1 }, mem1, cycles)
        },
        InstructionType::LoadHlAdjusted => {
            let e = spec_source_byte(regs, mem, i);
            let sp = regs.sp;
            let (regs1, mem1) = spec_write_target_word(regs, mem, i, spec_add_signed(sp, e));
            let regs2 = spec_with_flags(
                regs1,
                false,
                false,
                (sp & 0xf) + (e & 0xf) > 0xf,
                (sp & 0xff) + e > 0xff,
            );
            (CPU { register_set: RegisterSet { pc: pc_next, ..regs2 }, ..cpu1 }, mem1, cycles)
        },
        InstructionType::AddByte | InstructionType::AddWithCarry | InstructionType::Sub
            | InstructionType::SubWithCarry | InstructionType::And | InstructionType::Xor
            | InstructionType::Or | InstructionType::Cp => {
            let a = spec_target_byte(regs, mem, i);
            let x = spec_source_byte(regs, mem, i);
            let (r, z, n, h, c) = spec_alu_byte(i.instruction_type, a, x, regs.flag_c);
            let regs1 = if i.instruction_type == InstructionType::Cp {
                regs
            } else {
                regs.spec_set_b(ByteRegister::A, r)
            };
            let regs2 = spec_with_flags(regs1, z, n, h, c);
            (CPU { register_set: RegisterSet { pc: pc_next, ..regs2 }, ..cpu1 }, mem, cycles)
        },
        InstructionType::Jump => {
            let pc = if taken {
                spec_target_word(regs, mem, i)
            } else {
                pc_next
            };
            (CPU { register_set: RegisterSet { pc, ..regs }, ..cpu1 }, mem, cycles)
        },
        InstructionType::JumpRelative => {
            let e = spec_target_byte(regs, mem, i);
            let pc = if taken {
                spec_add_signed(pc_next, e)
            } else {
                pc_next
            };
            (CPU { register_set: RegisterSet { pc, ..regs }, ..cpu1 }, mem, cycles)
        },
        InstructionType::Push => {
            let v = spec_target_word(regs, mem, i);
            let (regs1, mem1) = spec_push(regs, mem, v);
            (CPU { register_set: RegisterSet { pc: pc_next, ..regs1 }, ..cpu1 }, mem1, cycles)
        },
        InstructionType::Pop => {
            let v = mem.spec_read_word(regs.sp);
            let regs1 = RegisterSet { sp: spec_wrap_add16(regs.sp, 2), ..regs };
            let (regs2, mem1) = spec_write_target_word(regs1, mem, i, v);
            (CPU { register_set: RegisterSet { pc: pc_next, ..regs2 }, ..cpu1 }, mem1, cycles)
        },
        InstructionType::Return => {
            if taken {
                let regs1 = RegisterSet {
                    pc: mem.spec_read_word(regs.sp),
                    sp: spec_wrap_add16(regs.sp, 2),
                    ..regs
                };
                (CPU { register_set: regs1, ..cpu1 }, mem, cycles)
            } else {
                (CPU { register_set: RegisterSet { pc: pc_next, ..regs }, ..cpu1 }, mem, cycles)
            }
        },
        InstructionType::ReturnInterrupt => {
            let regs1 = RegisterSet {
                pc: mem.spec_read_word(regs.sp),
                sp: spec_wrap_add16(regs.sp, 2),
                ..regs
            };
            (
                CPU {
                    register_set: regs1,
                    interrupt_master_enable: InterruptMasterEnableStatus::Enabled,
                    ..cpu1
                },
                mem,
                cycles,
            )
        },
        InstructionType::Call => {
            if taken {
                let target = spec_target_word(regs, mem, i);
                let (regs1, mem1) = spec_push(regs, mem, pc_next);
                (
                    CPU { register_set: RegisterSet { pc: target, ..regs1 }, ..cpu1 },
                    mem1,
                    cycles,
                )
            } else {
                (CPU { register_set: RegisterSet { pc: pc_next, ..regs }, ..cpu1 }, mem, cycles)
            }
        },
        InstructionType::Restart => {
            let target = spec_target_word(regs, mem, i);
            let (regs1, mem1) = spec_push(regs, mem, pc_next);
            (CPU { register_set: RegisterSet { pc: target, ..regs1 }, ..cpu1 }, mem1, cycles)
        },
        InstructionType::Stop => {
            let mem1 = MemImage {
                io: crate::io_registers::IORegImage { if_register: 0u8, ..mem.io },
                ..mem
            };
            (
                CPU {
                    register_set: RegisterSet { pc: spec_wrap_add16(i.address, 2), ..regs },
                    interrupt_master_enable: InterruptMasterEnableStatus::Disabled,
                    stopped: true,
                    ..cpu1
                },
                mem1,
                cycles,
            )
        },
        InstructionType::Halt => (
            CPU { register_set: RegisterSet { pc: pc_next, ..regs }, halted: true, ..cpu1 },
            mem,
            cycles,
        ),
        InstructionType::DisableInterrupts => (
            CPU {
                register_set: RegisterSet { pc: pc_next, ..regs },
                interrupt_master_enable: InterruptMasterEnableStatus::Disabled,
                ..cpu1
            },
            mem,
            cycles,
        ),
        InstructionType::EnableInterrupts => (
            CPU {
                register_set: RegisterSet { pc: pc_next, ..regs },
                interrupt_master_enable: InterruptMasterEnableStatus::Enabling,
                ..cpu1
            },
            mem,
            cycles,
        ),
        InstructionType::RollLeft | InstructionType::RollRight
            | InstructionType::RollLeftThroughCarry | InstructionType::RollRightThroughCarry
            | InstructionType::ShiftLeftArithmetically | InstructionType::ShiftRightArithmetically
            | InstructionType::Swap | InstructionType::ShiftRightLogically => {
            let t = spec_target_byte(regs, mem, i);
            let (r, carry_out) = spec_rotate(i.instruction_type, t, regs.flag_c);
            let (regs1, mem1) = spec_write_target_byte(regs, mem, i, r);
            let z = if i.opcode == 0xcb {
                r == 0
            } else {
                false
            };
            let regs2 = spec_with_flags(regs1, z, false, false, carry_out);
            (CPU { register_set: RegisterSet { pc: pc_next, ..regs2 }, ..cpu1 }, mem1, cycles)
        },
        InstructionType::DecimalAdjustAccumulator => {
            let (r, carry_out) = spec_daa(regs.a, regs.flag_n, regs.flag_h, regs.flag_c);
            let regs1 = spec_with_flags(
                RegisterSet { a: r, ..regs },
                r == 0,
                regs.flag_n,
                false,
                carry_out,
            );
            (CPU { register_set: RegisterSet { pc: pc_next, ..regs1 }, ..cpu1 }, mem, cycles)
        },
        InstructionType::ComplementAccumulator => {
            let regs1 = RegisterSet { a: !regs.a, flag_n: true, flag_h: true, ..regs };
            (CPU { register_set: RegisterSet { pc: pc_next, ..regs1 }, ..cpu1 }, mem, cycles)
        },
        InstructionType::SetCarryFlag => {
            let regs1 = RegisterSet { flag_n: false, flag_h: false, flag_c: true, ..regs };
            (CPU { register_set: RegisterSet { pc: pc_next, ..regs1 }, ..cpu1 }, mem, cycles)
        },
        InstructionType::ComplementCarryFlag => {
            let regs1 = RegisterSet { flag_n: false, flag_h: false, flag_c: !regs.flag_c, ..regs };
            (CPU { register_set: RegisterSet { pc: pc_next, ..regs1 }, ..cpu1 }, mem, cycles)
        },
        InstructionType::TestBit => {
            let t = spec_target_byte(regs, mem, i);
            let mask = match i.source {
                Some(AddressingMode::BitPosition(b)) => AddressingMode::spec_bit_mask(b),
                _ => 0u8,
            };
            let regs1 = spec_with_flags(regs, t & mask == 0, false, true, regs.flag_c);
            (CPU { register_set: RegisterSet { pc: pc_next, ..regs1 }, ..cpu1 }, mem, cycles)
        },
        InstructionType::ResetBit => {
            let t = spec_target_byte(regs, mem, i);
            let mask = match i.source {
                Some(AddressingMode::BitPosition(b)) => AddressingMode::spec_bit_mask(b),
                _ => 0u8,
            };
            let (regs1, mem1) = spec_write_target_byte(regs, mem, i, t & !mask);
            (CPU { register_set: RegisterSet { pc: pc_next, ..regs1 }, ..cpu1 }, mem1, cycles)
        },
        InstructionType::SetBit => {
            let t = spec_target_byte(regs, mem, i);
            let mask = match i.source {
                Some(AddressingMode::BitPosition(b)) => AddressingMode::spec_bit_mask(b),
                _ => 0u8,
            };
            let (regs1, mem1) = spec_write_target_byte(regs, mem, i, t | mask);
            (CPU { register_set: RegisterSet { pc: pc_next, ..regs1 }, ..cpu1 }, mem1, cycles)
        },
    }
}

fn add_signed(x: u16, e: u8) -> (result: u16)
    ensures
        result == spec_add_signed(x, e),
{
    if e < 0x80 {
        wrap_add16(x, e as u16)
    } else {
        wrap_add16(x, (e as u16) + 0xff00)
    }
}

impl CPU {
    /// Execute one decoded instruction, returning its M-cycle cost.
    pub fn run(&mut self, mem_map: &mut MemMap, instruction: &Instruction) -> (cycles: u32)
        requires
            old(mem_map).wf(),
            instruction.wf()
        ensures
            final(mem_map).wf(),
            final(mem_map).cartridge == old(mem_map).cartridge,
            (*final(self), final(mem_map)@, cycles) == spec_step(
                *old(self),
                old(mem_map)@,
                *instruction,
            ),
    {
        match instruction.instruction_type {
            InstructionType::Nop | InstructionType::Stop | InstructionType::Halt
                | InstructionType::DisableInterrupts | InstructionType::EnableInterrupts
                | InstructionType::SetCarryFlag | InstructionType::ComplementCarryFlag
                | InstructionType::ComplementAccumulator
                | InstructionType::DecimalAdjustAccumulator => self.exec_control(
                mem_map,
                instruction,
            ),
            InstructionType::LoadByte | InstructionType::LoadHigh => self.exec_load_byte(
                mem_map,
                instruction,
            ),
            InstructionType::LoadWord => self.exec_load_word(mem_map, instruction),
            InstructionType::IncByte | InstructionType::DecByte => self.exec_inc_dec_byte(
                mem_map,
                instruction,
            ),
            InstructionType::IncWord | InstructionType::DecWord | InstructionType::AddWord
                | InstructionType::AddSpAdjusted | InstructionType::LoadHlAdjusted => self
                .exec_word_arith(mem_map, instruction),
            InstructionType::AddByte | InstructionType::AddWithCarry | InstructionType::Sub
                | InstructionType::SubWithCarry | InstructionType::And | InstructionType::Xor
                | InstructionType::Or | InstructionType::Cp => self.exec_alu(mem_map, instruction),
            InstructionType::Jump | InstructionType::JumpRelative => self.exec_branch(
                mem_map,
                instruction,
            ),
            InstructionType::Push | InstructionType::Pop | InstructionType::Return
                | InstructionType::ReturnInterrupt | InstructionType::Call
                | InstructionType::Restart => self.exec_stack(mem_map, instruction),
            InstructionType::RollLeft | InstructionType::RollRight
                | InstructionType::RollLeftThroughCarry | InstructionType::RollRightThroughCarry
                | InstructionType::ShiftLeftArithmetically
                | InstructionType::ShiftRightArithmetically | InstructionType::Swap
                | InstructionType::ShiftRightLogically => self.exec_rotate(mem_map, instruction),
            InstructionType::TestBit | InstructionType::ResetBit | InstructionType::SetBit => self
                .exec_bit(mem_map, instruction),
        }
    }

    #[verifier::rlimit(60)]
    fn exec_control(&mut self, mem_map: &mut MemMap, instruction: &Instruction) -> (cycles: u32)
        requires
            old(mem_map).wf(),
            instruction.wf(),
            instruction.instruction_type == InstructionType::Nop || instruction.instruction_type == InstructionType::Stop || instruction.instruction_type
                == InstructionType::Halt || instruction.instruction_type == InstructionType::DisableInterrupts || instruction.instruction_type
                == InstructionType::EnableInterrupts || instruction.instruction_type == InstructionType::SetCarryFlag || instruction.instruction_type
                == InstructionType::ComplementCarryFlag || instruction.instruction_type
                == InstructionType::ComplementAccumulator || instruction.instruction_type
                == InstructionType::DecimalAdjustAccumulator,
        ensures
            final(mem_map).wf(),
            final(mem_map).cartridge == old(mem_map).cartridge,
            (*final(self), final(mem_map)@, cycles) == spec_step(
                *old(self),
                old(mem_map)@,
                *instruction,
            ),
    {
        proof {
            reveal(spec_step);
        }
        self.current_instruction = Some(*instruction);
        self.register_set.set_w(WordRegister::PC, instruction.address);
        let size = instruction.size();
        let pc_next = wrap_add16(instruction.address, size as u16);
        match instruction.instruction_type {
            InstructionType::Nop => {
                self.register_set.set_w(WordRegister::PC, pc_next);
                1
            },
            InstructionType::Stop => {
                self.interrupt_master_enable = InterruptMasterEnableStatus::Disabled;
                mem_map.io_registers.set_if_register(0x00);
                proof {
                    assert(0u8 & 0x1f == 0) by (bit_vector);
                }
                self.stopped = true;
                self.register_set.set_w(WordRegister::PC, wrap_add16(instruction.address, 2));
                1
            },
            InstructionType::Halt => {
                self.halted = true;
                self.register_set.set_w(WordRegister::PC, pc_next);
                1
            },
            InstructionType::DisableInterrupts => {
                self.interrupt_master_enable = InterruptMasterEnableStatus::Disabled;
                self.register_set.set_w(WordRegister::PC, pc_next);
                1
            },
            InstructionType::EnableInterrupts => {
                self.interrupt_master_enable = InterruptMasterEnableStatus::Enabling;
                self.register_set.set_w(WordRegister::PC, pc_next);
                1
            },
            InstructionType::SetCarryFlag => {
                self.register_set.set_flag(Flag::Subtract, false);
                self.register_set.set_flag(Flag::HalfCarry, false);
                self.register_set.set_flag(Flag::Carry, true);
                self.register_set.set_w(WordRegister::PC, pc_next);
                1
            },
            InstructionType::ComplementCarryFlag => {
                let c = self.register_set.get_flag(Flag::Carry);
                self.register_set.set_flag(Flag::Subtract, false);
                self.register_set.set_flag(Flag::HalfCarry, false);
                self.register_set.set_flag(Flag::Carry, !c);
                self.register_set.set_w(WordRegister::PC, pc_next);
                1
            },
            InstructionType::ComplementAccumulator => {
                let a = self.register_set.get_b(ByteRegister::A);
                self.register_set.set_b(ByteRegister::A, !a);
                self.register_set.set_flag(Flag::Subtract, true);
                self.register_set.set_flag(Flag::HalfCarry, true);
                self.register_set.set_w(WordRegister::PC, pc_next);
                1
            },
            _ => {
                let a = self.register_set.get_b(ByteRegister::A);
                let n = self.register_set.get_flag(Flag::Subtract);
                let h = self.register_set.get_flag(Flag::HalfCarry);
                let c = self.register_set.get_flag(Flag::Carry);
                let r: u8;
                let carry_out: bool;
                if !n {
                    let low: u8 = if h || a % 16 > 9 {
                        6
                    } else {
                        0
                    };
                    if c || a > 0x99 {
                        r = (((a as u16) + (low as u16) + 0x60) % 256) as u8;
                        carry_out = true;
                    } else {
                        r = (((a as u16) + (low as u16)) % 256) as u8;
                        carry_out = c;
                    }
                } else {
                    let low_adjusted: u8 = if h {
                        (((a as u16) + 250) % 256) as u8
                    } else {
                        a
                    };
                    if c {
                        r = (((low_adjusted as u16) + 160) % 256) as u8;
                    } else {
                        r = low_adjusted;
                    }
                    carry_out = c;
                }
                self.register_set.set_b(ByteRegister::A, r);
                self.register_set.set_flag(Flag::Zero, r == 0);
                self.register_set.set_flag(Flag::Subtract, n);
                self.register_set.set_flag(Flag::HalfCarry, false);
                self.register_set.set_flag(Flag::Carry, carry_out);
                self.register_set.set_w(WordRegister::PC, pc_next);
                1
            },
        }
    }

    #[verifier::rlimit(60)]
    fn exec_load_byte(&mut self, mem_map: &mut MemMap, instruction: &Instruction) -> (cycles: u32)
        requires
            old(mem_map).wf(),
            instruction.wf(),
            instruction.instruction_type == InstructionType::LoadByte || instruction.instruction_type
                == InstructionType::LoadHigh,
        ensures
            final(mem_map).wf(),
            final(mem_map).cartridge == old(mem_map).cartridge,
            (*final(self), final(mem_map)@, cycles) == spec_step(
                *old(self),
                old(mem_map)@,
                *instruction,
            ),
    {
        proof {
            reveal(spec_step);
        }
        self.current_instruction = Some(*instruction);
        self.register_set.set_w(WordRegister::PC, instruction.address);
        let size = instruction.size();
        let pc_next = wrap_add16(instruction.address, size as u16);
        let v = self.get_source_byte(mem_map, instruction);
        self.write_target_byte(mem_map, instruction, v);
        if let Some(AddressingMode::RegisterPointer(WordRegister::HLi)) = instruction.target {
            let hl = self.register_set.get_w(WordRegister::HL);
            self.register_set.set_w(WordRegister::HL, wrap_add16(hl, 1));
        } else if let Some(AddressingMode::RegisterPointer(WordRegister::HLd)) =
            instruction.target {
            let hl = self.register_set.get_w(WordRegister::HL);
            self.register_set.set_w(WordRegister::HL, wrap_sub16(hl, 1));
        }
        if let Some(AddressingMode::RegisterPointer(WordRegister::HLi)) = instruction.source {
            let hl = self.register_set.get_w(WordRegister::HL);
            self.register_set.set_w(WordRegister::HL, wrap_add16(hl, 1));
        } else if let Some(AddressingMode::RegisterPointer(WordRegister::HLd)) =
            instruction.source {
            let hl = self.register_set.get_w(WordRegister::HL);
            self.register_set.set_w(WordRegister::HL, wrap_sub16(hl, 1));
        }
        self.register_set.set_w(WordRegister::PC, pc_next);
        if let InstructionType::LoadHigh = instruction.instruction_type {
            if matches!(instruction.target, Some(AddressingMode::ImmediatePointerHigh))
                || matches!(instruction.source, Some(AddressingMode::ImmediatePointerHigh)) {
                2
            } else {
                3
            }
        } else {
            if matches!(instruction.target, Some(AddressingMode::ImmediatePointer)) || matches!(
                instruction.source,
                Some(AddressingMode::ImmediatePointer),
            ) {
                4
            } else if matches!(instruction.source, Some(AddressingMode::ImmediateByte))
                && matches!(instruction.target, Some(AddressingMode::RegisterPointer(_))) {
                3
            } else if matches!(instruction.source, Some(AddressingMode::ImmediateByte)) {
                2
            } else if matches!(instruction.target, Some(AddressingMode::RegisterPointer(_)))
                || matches!(instruction.source, Some(AddressingMode::RegisterPointer(_))) {
                2
            } else {
                1
            }
        }
    }

    #[verifier::rlimit(60)]
    fn exec_load_word(&mut self, mem_map: &mut MemMap, instruction: &Instruction) -> (cycles: u32)
        requires
            old(mem_map).wf(),
            instruction.wf(),
            instruction.instruction_type == InstructionType::LoadWord,
        ensures
            final(mem_map).wf(),
            final(mem_map).cartridge == old(mem_map).cartridge,
            (*final(self), final(mem_map)@, cycles) == spec_step(
                *old(self),
                old(mem_map)@,
                *instruction,
            ),
    {
        proof {
            reveal(spec_step);
        }
        self.current_instruction = Some(*instruction);
        self.register_set.set_w(WordRegister::PC, instruction.address);
        let size = instruction.size();
        let pc_next = wrap_add16(instruction.address, size as u16);
        let v = self.get_source_word(mem_map, instruction);
        self.write_target_word(mem_map, instruction, v);
        self.register_set.set_w(WordRegister::PC, pc_next);
        if matches!(instruction.target, Some(AddressingMode::ImmediatePointer)) {
            5
        } else if matches!(instruction.source, Some(AddressingMode::ImmediateWord)) {
            3
        } else {
            2
        }
    }

    #[verifier::rlimit(60)]
    fn exec_inc_dec_byte(&mut self, mem_map: &mut MemMap, instruction: &Instruction) -> (cycles: u32)
        requires
            old(mem_map).wf(),
            instruction.wf(),
            instruction.instruction_type == InstructionType::IncByte || instruction.instruction_type
                == InstructionType::DecByte,
        ensures
            final(mem_map).wf(),
            final(mem_map).cartridge == old(mem_map).cartridge,
            (*final(self), final(mem_map)@, cycles) == spec_step(
                *old(self),
                old(mem_map)@,
                *instruction,
            ),
    {
        proof {
            reveal(spec_step);
        }
        self.current_instruction = Some(*instruction);
        self.register_set.set_w(WordRegister::PC, instruction.address);
        let size = instruction.size();
        let pc_next = wrap_add16(instruction.address, size as u16);
        let t = self.get_target_byte(mem_map, instruction);
        let carry = self.register_set.get_flag(Flag::Carry);
        if let InstructionType::IncByte = instruction.instruction_type {
            let r = (((t as u16) + 1) % 256) as u8;
            self.write_target_byte(mem_map, instruction, r);
            self.register_set.set_flag(Flag::Zero, r == 0);
            self.register_set.set_flag(Flag::Subtract, false);
            self.register_set.set_flag(Flag::HalfCarry, t & 0xf == 0xf);
            self.register_set.set_flag(Flag::Carry, carry);
        } else {
            let r = (((t as u16) + 255) % 256) as u8;
            self.write_target_byte(mem_map, instruction, r);
            self.register_set.set_flag(Flag::Zero, r == 0);
            self.register_set.set_flag(Flag::Subtract, true);
            self.register_set.set_flag(Flag::HalfCarry, r & 0xf == 0xf);
            self.register_set.set_flag(Flag::Carry, carry);
        }
        self.register_set.set_w(WordRegister::PC, pc_next);
        if matches!(instruction.target, Some(AddressingMode::RegisterPointer(_))) {
            2
        } else {
            1
        }
    }

    #[verifier::rlimit(60)]
    fn exec_word_arith(&mut self, mem_map: &mut MemMap, instruction: &Instruction) -> (cycles: u32)
        requires
            old(mem_map).wf(),
            instruction.wf(),
            instruction.instruction_type == InstructionType::IncWord || instruction.instruction_type
                == InstructionType::DecWord || instruction.instruction_type == InstructionType::AddWord || instruction.instruction_type
                == InstructionType::AddSpAdjusted || instruction.instruction_type == InstructionType::LoadHlAdjusted,
        ensures
            final(mem_map).wf(),
            final(mem_map).cartridge == old(mem_map).cartridge,
            (*final(self), final(mem_map)@, cycles) == spec_step(
                *old(self),
                old(mem_map)@,
                *instruction,
            ),
    {
        proof {
            reveal(spec_step);
        }
        self.current_instruction = Some(*instruction);
        self.register_set.set_w(WordRegister::PC, instruction.address);
        let size = instruction.size();
        let pc_next = wrap_add16(instruction.address, size as u16);
        match instruction.instruction_type {
            InstructionType::IncWord => {
                let t = self.get_target_word(mem_map, instruction);
                self.write_target_word(mem_map, instruction, wrap_add16(t, 1));
                self.register_set.set_w(WordRegister::PC, pc_next);
                2
            },
            InstructionType::DecWord => {
                let t = self.get_target_word(mem_map, instruction);
                self.write_target_word(mem_map, instruction, wrap_sub16(t, 1));
                self.register_set.set_w(WordRegister::PC, pc_next);
                2
            },
            InstructionType::AddWord => {
                let hl = self.get_target_word(mem_map, instruction);
                let src = self.get_source_word(mem_map, instruction);
                self.write_target_word(mem_map, instruction, wrap_add16(hl, src));
                self.register_set.set_flag(Flag::Subtract, false);
                self.register_set.set_flag(
                    Flag::HalfCarry,
                    ((hl & 0xfff) as u32) + ((src & 0xfff) as u32) > 0xfff,
                );
                self.register_set.set_flag(Flag::Carry, (hl as u32) + (src as u32) > 0xffff);
                self.register_set.set_w(WordRegister::PC, pc_next);
                2
            },
            InstructionType::AddSpAdjusted => {
                let e = self.get_source_byte(mem_map, instruction);
                let sp = self.get_target_word(mem_map, instruction);
                self.write_target_word(mem_map, instruction, add_signed(sp, e));
                self.register_set.set_flag(Flag::Zero, false);
                self.register_set.set_flag(Flag::Subtract, false);
                self.register_set.set_flag(
                    Flag::HalfCarry,
                    ((sp & 0xf) as u32) + ((e & 0xf) as u32) > 0xf,
                );
                self.register_set.set_flag(
                    Flag::Carry,
                    ((sp & 0xff) as u32) + (e as u32) > 0xff,
                );
                self.register_set.set_w(WordRegister::PC, pc_next);
                4
            },
            _ => {
                let e = self.get_source_byte(mem_map, instruction);
                let sp = self.register_set.sp();
                self.write_target_word(mem_map, instruction, add_signed(sp, e));
                self.register_set.set_flag(Flag::Zero, false);
                self.register_set.set_flag(Flag::Subtract, false);
                self.register_set.set_flag(
                    Flag::HalfCarry,
                    ((sp & 0xf) as u32) + ((e & 0xf) as u32) > 0xf,
                );
                self.register_set.set_flag(
                    Flag::Carry,
                    ((sp & 0xff) as u32) + (e as u32) > 0xff,
                );
                self.register_set.set_w(WordRegister::PC, pc_next);
                3
            },
        }
    }

    #[verifier::rlimit(60)]
    fn exec_alu(&mut self, mem_map: &mut MemMap, instruction: &Instruction) -> (cycles: u32)
        requires
            old(mem_map).wf(),
            instruction.wf(),
            instruction.instruction_type == InstructionType::AddByte || instruction.instruction_type
                == InstructionType::AddWithCarry || instruction.instruction_type == InstructionType::Sub || instruction.instruction_type
                == InstructionType::SubWithCarry || instruction.instruction_type == InstructionType::And || instruction.instruction_type
                == InstructionType::Xor || instruction.instruction_type == InstructionType::Or || instruction.instruction_type
                == InstructionType::Cp,
        ensures
            final(mem_map).wf(),
            final(mem_map).cartridge == old(mem_map).cartridge,
            (*final(self), final(mem_map)@, cycles) == spec_step(
                *old(self),
                old(mem_map)@,
                *instruction,
            ),
    {
        proof {
            reveal(spec_step);
        }
        self.current_instruction = Some(*instruction);
        self.register_set.set_w(WordRegister::PC, instruction.address);
        let size = instruction.size();
        let pc_next = wrap_add16(instruction.address, size as u16);
        let a = self.get_target_byte(mem_map, instruction);
        let x = self.get_source_byte(mem_map, instruction);
        let c0: u8 = if self.register_set.get_flag(Flag::Carry) {
            1
        } else {
            0
        };
        match instruction.instruction_type {
            InstructionType::AddByte => {
                let r = (((a as u16) + (x as u16)) % 256) as u8;
                self.write_target_byte(mem_map, instruction, r);
                self.register_set.set_flag(Flag::Zero, r == 0);
                self.register_set.set_flag(Flag::Subtract, false);
                self.register_set.set_flag(
                    Flag::HalfCarry,
                    ((a & 0xf) as u16) + ((x & 0xf) as u16) > 0xf,
                );
                self.register_set.set_flag(Flag::Carry, (a as u16) + (x as u16) > 0xff);
            },
            InstructionType::AddWithCarry => {
                let r = (((a as u16) + (x as u16) + (c0 as u16)) % 256) as u8;
                self.write_target_byte(mem_map, instruction, r);
                self.register_set.set_flag(Flag::Zero, r == 0);
                self.register_set.set_flag(Flag::Subtract, false);
                self.register_set.set_flag(
                    Flag::HalfCarry,
                    ((a & 0xf) as u16) + ((x & 0xf) as u16) + (c0 as u16) > 0xf,
                );
                self.register_set.set_flag(
                    Flag::Carry,
                    (a as u16) + (x as u16) + (c0 as u16) > 0xff,
                );
            },
            InstructionType::Sub => {
                let r = (((a as u16) + 256 - (x as u16)) % 256) as u8;
                self.write_target_byte(mem_map, instruction, r);
                self.register_set.set_flag(Flag::Zero, a == x);
                self.register_set.set_flag(Flag::Subtract, true);
                self.register_set.set_flag(Flag::HalfCarry, (a & 0xf) < (x & 0xf));
                self.register_set.set_flag(Flag::Carry, a < x);
            },
            InstructionType::SubWithCarry => {
                let r = (((a as u16) + 512 - (x as u16) - (c0 as u16)) % 256) as u8;
                self.write_target_byte(mem_map, instruction, r);
                self.register_set.set_flag(Flag::Zero, r == 0);
                self.register_set.set_flag(Flag::Subtract, true);
                self.register_set.set_flag(
                    Flag::HalfCarry,
                    ((a & 0xf) as u16) < ((x & 0xf) as u16) + (c0 as u16),
                );
                self.register_set.set_flag(Flag::Carry, (a as u16) < (x as u16) + (c0 as u16));
            },
            InstructionType::And => {
                let r = a & x;
                self.write_target_byte(mem_map, instruction, r);
                self.register_set.set_flag(Flag::Zero, r == 0);
                self.register_set.set_flag(Flag::Subtract, false);
                self.register_set.set_flag(Flag::HalfCarry, true);
                self.register_set.set_flag(Flag::Carry, false);
            },
            InstructionType::Xor => {
                let r = a ^ x;
                self.write_target_byte(mem_map, instruction, r);
                self.register_set.set_flag(Flag::Zero, r == 0);
                self.register_set.set_flag(Flag::Subtract, false);
                self.register_set.set_flag(Flag::HalfCarry, false);
                self.register_set.set_flag(Flag::Carry, false);
            },
            InstructionType::Or => {
                let r = a | x;
                self.write_target_byte(mem_map, instruction, r);
                self.register_set.set_flag(Flag::Zero, r == 0);
                self.register_set.set_flag(Flag::Subtract, false);
                self.register_set.set_flag(Flag::HalfCarry, false);
                self.register_set.set_flag(Flag::Carry, false);
            },
            _ => {
                self.register_set.set_flag(Flag::Zero, a == x);
                self.register_set.set_flag(Flag::Subtract, true);
                self.register_set.set_flag(Flag::HalfCarry, (a & 0xf) < (x & 0xf));
                self.register_set.set_flag(Flag::Carry, a < x);
            },
        }
        self.register_set.set_w(WordRegister::PC, pc_next);
        if matches!(instruction.source, Some(AddressingMode::ByteRegister(_))) {
            1
        } else {
            2
        }
    }

    #[verifier::rlimit(60)]
    fn exec_branch(&mut self, mem_map: &mut MemMap, instruction: &Instruction) -> (cycles: u32)
        requires
            old(mem_map).wf(),
            instruction.wf(),
            instruction.instruction_type == InstructionType::Jump || instruction.instruction_type
                == InstructionType::JumpRelative,
        ensures
            final(mem_map).wf(),
            final(mem_map).cartridge == old(mem_map).cartridge,
            (*final(self), final(mem_map)@, cycles) == spec_step(
                *old(self),
                old(mem_map)@,
                *instruction,
            ),
    {
        proof {
            reveal(spec_step);
        }
        self.current_instruction = Some(*instruction);
        self.register_set.set_w(WordRegister::PC, instruction.address);
        let size = instruction.size();
        let pc_next = wrap_add16(instruction.address, size as u16);
        let taken = self.condition_met(instruction);
        if let InstructionType::Jump = instruction.instruction_type {
            if taken {
                let target = self.get_target_word(mem_map, instruction);
                self.register_set.set_w(WordRegister::PC, target);
                4
            } else {
                self.register_set.set_w(WordRegister::PC, pc_next);
                3
            }
        } else {
            if taken {
                let e = self.get_target_byte(mem_map, instruction);
                self.register_set.set_w(WordRegister::PC, add_signed(pc_next, e));
                3
            } else {
                self.register_set.set_w(WordRegister::PC, pc_next);
                2
            }
        }
    }

    #[verifier::rlimit(60)]
    fn exec_stack(&mut self, mem_map: &mut MemMap, instruction: &Instruction) -> (cycles: u32)
        requires
            old(mem_map).wf(),
            instruction.wf(),
            instruction.instruction_type == InstructionType::Push || instruction.instruction_type == InstructionType::Pop || instruction.instruction_type
                == InstructionType::Return || instruction.instruction_type == InstructionType::ReturnInterrupt || instruction.instruction_type
                == InstructionType::Call || instruction.instruction_type == InstructionType::Restart,
        ensures
            final(mem_map).wf(),
            final(mem_map).cartridge == old(mem_map).cartridge,
            (*final(self), final(mem_map)@, cycles) == spec_step(
                *old(self),
                old(mem_map)@,
                *instruction,
            ),
    {
        proof {
            reveal(spec_step);
        }
        self.current_instruction = Some(*instruction);
        self.register_set.set_w(WordRegister::PC, instruction.address);
        let size = instruction.size();
        let pc_next = wrap_add16(instruction.address, size as u16);
        match instruction.instruction_type {
            InstructionType::Push => {
                let v = self.get_target_word(mem_map, instruction);
                self.push_to_stack(mem_map, v);
                self.register_set.set_w(WordRegister::PC, pc_next);
                4
            },
            InstructionType::Pop => {
                let v = self.pop_from_stack(mem_map);
                self.write_target_word(mem_map, instruction, v);
                self.register_set.set_w(WordRegister::PC, pc_next);
                3
            },
            InstructionType::Return => {
                let taken = self.condition_met(instruction);
                if taken {
                    let v = self.pop_from_stack(mem_map);
                    self.register_set.set_w(WordRegister::PC, v);
                    if instruction.condition.is_some() {
                        5
                    } else {
                        4
                    }
                } else {
                    self.register_set.set_w(WordRegister::PC, pc_next);
                    2
                }
            },
            InstructionType::ReturnInterrupt => {
                self.interrupt_master_enable = InterruptMasterEnableStatus::Enabled;
                let v = self.pop_from_stack(mem_map);
                self.register_set.set_w(WordRegister::PC, v);
                4
            },
            InstructionType::Call => {
                let target = self.get_target_word(mem_map, instruction);
                let taken = self.condition_met(instruction);
                if taken {
                    self.push_to_stack(mem_map, pc_next);
                    self.register_set.set_w(WordRegister::PC, target);
                    6
                } else {
                    self.register_set.set_w(WordRegister::PC, pc_next);
                    3
                }
            },
            _ => {
                let target = self.get_target_word(mem_map, instruction);
                self.push_to_stack(mem_map, pc_next);
                self.register_set.set_w(WordRegister::PC, target);
                4
            },
        }
    }

    #[verifier::rlimit(60)]
    fn exec_rotate(&mut self, mem_map: &mut MemMap, instruction: &Instruction) -> (cycles: u32)
        requires
            old(mem_map).wf(),
            instruction.wf(),
            instruction.instruction_type == InstructionType::RollLeft || instruction.instruction_type
                == InstructionType::RollRight || instruction.instruction_type == InstructionType::RollLeftThroughCarry
                || instruction.instruction_type == InstructionType::RollRightThroughCarry || instruction.instruction_type
                == InstructionType::ShiftLeftArithmetically || instruction.instruction_type
                == InstructionType::ShiftRightArithmetically || instruction.instruction_type == InstructionType::Swap || instruction.instruction_type
                == InstructionType::ShiftRightLogically,
        ensures
            final(mem_map).wf(),
            final(mem_map).cartridge == old(mem_map).cartridge,
            (*final(self), final(mem_map)@, cycles) == spec_step(
                *old(self),
                old(mem_map)@,
                *instruction,
            ),
    {
        proof {
            reveal(spec_step);
        }
        self.current_instruction = Some(*instruction);
        self.register_set.set_w(WordRegister::PC, instruction.address);
        let size = instruction.size();
        let pc_next = wrap_add16(instruction.address, size as u16);
        let t = self.get_target_byte(mem_map, instruction);
        match instruction.instruction_type {
            InstructionType::RollLeft => {
                let r = ((((t as u16) * 2) + ((t as u16) / 128)) % 256) as u8;
                self.finish_rotate(mem_map, instruction, r, t >= 0x80, pc_next)
            },
            InstructionType::RollRight => {
                let r = (t / 2) + (t % 2) * 128;
                self.finish_rotate(mem_map, instruction, r, t % 2 == 1, pc_next)
            },
            InstructionType::RollLeftThroughCarry => {
                let c0: u8 = if self.register_set.get_flag(Flag::Carry) {
                    1
                } else {
                    0
                };
                let r = ((((t as u16) * 2) + (c0 as u16)) % 256) as u8;
                self.finish_rotate(mem_map, instruction, r, t >= 0x80, pc_next)
            },
            InstructionType::RollRightThroughCarry => {
                let c0: u8 = if self.register_set.get_flag(Flag::Carry) {
                    128
                } else {
                    0
                };
                let r = (t / 2) + c0;
                self.finish_rotate(mem_map, instruction, r, t % 2 == 1, pc_next)
            },
            InstructionType::ShiftLeftArithmetically => {
                let r = (((t as u16) * 2) % 256) as u8;
                self.finish_rotate(mem_map, instruction, r, t >= 0x80, pc_next)
            },
            InstructionType::ShiftRightArithmetically => {
                let high: u8 = if t >= 0x80 {
                    128
                } else {
                    0
                };
                let r = (t / 2) + high;
                self.finish_rotate(mem_map, instruction, r, t % 2 == 1, pc_next)
            },
            InstructionType::Swap => {
                let r = (t % 16) * 16 + t / 16;
                self.finish_rotate(mem_map, instruction, r, false, pc_next)
            },
            _ => {
                let r = t / 2;
                self.finish_rotate(mem_map, instruction, r, t % 2 == 1, pc_next)
            },
        }
    }

    #[verifier::rlimit(60)]
    fn exec_bit(&mut self, mem_map: &mut MemMap, instruction: &Instruction) -> (cycles: u32)
        requires
            old(mem_map).wf(),
            instruction.wf(),
            instruction.instruction_type == InstructionType::TestBit || instruction.instruction_type == InstructionType::ResetBit
                || instruction.instruction_type == InstructionType::SetBit,
        ensures
            final(mem_map).wf(),
            final(mem_map).cartridge == old(mem_map).cartridge,
            (*final(self), final(mem_map)@, cycles) == spec_step(
                *old(self),
                old(mem_map)@,
                *instruction,
            ),
    {
        proof {
            reveal(spec_step);
        }
        self.current_instruction = Some(*instruction);
        self.register_set.set_w(WordRegister::PC, instruction.address);
        let size = instruction.size();
        let pc_next = wrap_add16(instruction.address, size as u16);
        let t = self.get_target_byte(mem_map, instruction);
        let mask: u8 = match &instruction.source {
            Some(mode) => AddressingMode::get_bitmask_for_bitposition(mode),
            None => 0,
        };
        match instruction.instruction_type {
            InstructionType::TestBit => {
                self.register_set.set_flag(Flag::Zero, t & mask == 0);
                self.register_set.set_flag(Flag::Subtract, false);
                self.register_set.set_flag(Flag::HalfCarry, true);
            },
            InstructionType::ResetBit => {
                self.write_target_byte(mem_map, instruction, t & !mask);
            },
            _ => {
                self.write_target_byte(mem_map, instruction, t | mask);
            },
        }
        self.register_set.set_w(WordRegister::PC, pc_next);
        if matches!(instruction.target, Some(AddressingMode::RegisterPointer(_))) {
            4
        } else {
            2
        }
    }

    /// Shared tail of the rotate, shift and swap family: write the
    /// result, set the flags (Z only for the CB-prefixed forms), advance
    /// PC and report the cost.
    fn finish_rotate(
        &mut self,
        mem_map: &mut MemMap,
        instruction: &Instruction,
        r: u8,
        carry_out: bool,
        pc_next: u16,
    ) -> (cycles: u32)
        requires
            old(mem_map).wf(),
            instruction.target matches Some(t) && t.is_byte_writable(),
        ensures
            final(mem_map).wf(),
            final(mem_map).cartridge == old(mem_map).cartridge,
            ({
                let (regs1, mem1) = spec_write_target_byte(
                    old(self).register_set,
                    old(mem_map)@,
                    *instruction,
                    r,
                );
                let z = if instruction.opcode == 0xcb {
                    r == 0
                } else {
                    false
                };
                let regs2 = spec_with_flags(regs1, z, false, false, carry_out);
                &&& final(mem_map)@ == mem1
                &&& *final(self) == (CPU {
                    register_set: RegisterSet { pc: pc_next, ..regs2 },
                    ..*old(self)
                })
            }),
            cycles == if instruction.opcode == 0xcb {
                if instruction.target matches Some(AddressingMode::RegisterPointer(_)) {
                    4u32
                } else {
                    2u32
                }
            } else {
                1u32
            },
    {
        self.write_target_byte(mem_map, instruction, r);
        let z = if instruction.opcode == 0xcb {
            r == 0
        } else {
            false
        };
        self.register_set.set_flag(Flag::Zero, z);
        self.register_set.set_flag(Flag::Subtract, false);
        self.register_set.set_flag(Flag::HalfCarry, false);
        self.register_set.set_flag(Flag::Carry, carry_out);
        self.register_set.set_w(WordRegister::PC, pc_next);
        if instruction.opcode == 0xcb {
            if matches!(instruction.target, Some(AddressingMode::RegisterPointer(_))) {
                4
            } else {
                2
            }
        } else {
            1
        }
    }

}

/// The M-cycles an instruction charges are exactly the timing table's
/// entry for it, with the taken/not-taken split decided by the flags it
/// started from.
pub proof fn lemma_step_cycles_match_table(cpu: CPU, mem: MemImage, i: Instruction)
    ensures
        spec_step(cpu, mem, i).2 == spec_cycles(i, spec_taken(cpu.register_set, i)),
{
    reveal(spec_step);
    let regs = RegisterSet { pc: i.address, ..cpu.register_set };
    assert(spec_taken(regs, i) == spec_taken(cpu.register_set, i));
}

} // verus!
