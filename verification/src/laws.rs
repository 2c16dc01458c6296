//! Laws the core obeys, stated over the canonical step relations and
//! proved once for all inputs.

use vstd::prelude::*;

use crate::cpu::{spec_check_interrupts, spec_pending, CPU};
use crate::execute::{spec_alu_byte, spec_source_byte, spec_step, spec_taken, spec_target_byte};
use crate::instruction::{AddressingMode, Instruction, InstructionType};
use crate::io_registers::IORegImage;
use crate::mem_map::MemImage;
use crate::ppu::{spec_ppu_cycle, PPUImage};
use crate::regs::{ByteRegister, RegisterSet, WordRegister};
use crate::timers::Timers;

verus! {

/// After any of the eight 8-bit ALU instructions, the accumulator and
/// the four flags stand exactly as the ALU rules compute them from the
/// two operands and the incoming carry; CP leaves the accumulator alone.
pub proof fn lemma_step_alu_flags(cpu: CPU, mem: MemImage, i: Instruction)
    requires
        i.wf(),
        i.instruction_type == InstructionType::AddByte || i.instruction_type
            == InstructionType::AddWithCarry || i.instruction_type == InstructionType::Sub
            || i.instruction_type == InstructionType::SubWithCarry || i.instruction_type
            == InstructionType::And || i.instruction_type == InstructionType::Xor
            || i.instruction_type == InstructionType::Or || i.instruction_type
            == InstructionType::Cp,
    ensures
        ({
            let regs = RegisterSet { pc: i.address, ..cpu.register_set };
            let a = spec_target_byte(regs, mem, i);
            let x = spec_source_byte(regs, mem, i);
            let (r, z, n, h, c) = spec_alu_byte(i.instruction_type, a, x, cpu.register_set.flag_c);
            let stepped = spec_step(cpu, mem, i).0;
            &&& stepped.register_set.flag_z == z
            &&& stepped.register_set.flag_n == n
            &&& stepped.register_set.flag_h == h
            &&& stepped.register_set.flag_c == c
            &&& (i.instruction_type != InstructionType::Cp ==> stepped.register_set.a == r)
            &&& (i.instruction_type == InstructionType::Cp ==> stepped.register_set.a
                == cpu.register_set.a)
        }),
{
    reveal(spec_step);
}

/// The effect of LD (HL+), A on HL alone: one step up, wrapping.
proof fn lemma_step_load_hli(cpu: CPU, mem: MemImage, i: Instruction)
    requires
        i.instruction_type == InstructionType::LoadByte,
        i.target == Some(AddressingMode::RegisterPointer(WordRegister::HLi)),
        i.source == Some(AddressingMode::ByteRegister(ByteRegister::A)),
    ensures
        spec_step(cpu, mem, i).0.register_set.spec_w(WordRegister::HL)
            == crate::mem_map::spec_wrap_add16(cpu.register_set.spec_w(WordRegister::HL), 1),
{
    reveal(spec_step);
}

/// The effect of LD A, (HL-) on HL alone: one step down, wrapping.
proof fn lemma_step_load_hld(cpu: CPU, mem: MemImage, i: Instruction)
    requires
        i.instruction_type == InstructionType::LoadByte,
        i.target == Some(AddressingMode::ByteRegister(ByteRegister::A)),
        i.source == Some(AddressingMode::RegisterPointer(WordRegister::HLd)),
    ensures
        spec_step(cpu, mem, i).0.register_set.spec_w(WordRegister::HL)
            == crate::mem_map::spec_wrap_sub16(cpu.register_set.spec_w(WordRegister::HL), 1),
{
    reveal(spec_step);
}

/// LD (HL+), A followed by LD A, (HL-) restores HL to its original
/// value.
pub proof fn lemma_hl_inc_dec_round_trip(cpu: CPU, mem: MemImage, i1: Instruction, i2: Instruction)
    requires
        i1.instruction_type == InstructionType::LoadByte,
        i1.target == Some(AddressingMode::RegisterPointer(WordRegister::HLi)),
        i1.source == Some(AddressingMode::ByteRegister(ByteRegister::A)),
        i2.instruction_type == InstructionType::LoadByte,
        i2.target == Some(AddressingMode::ByteRegister(ByteRegister::A)),
        i2.source == Some(AddressingMode::RegisterPointer(WordRegister::HLd)),
    ensures
        ({
            let (cpu1, mem1, _) = spec_step(cpu, mem, i1);
            let (cpu2, _, _) = spec_step(cpu1, mem1, i2);
            cpu2.register_set.spec_w(WordRegister::HL) == cpu.register_set.spec_w(WordRegister::HL)
        }),
{
    let hl = cpu.register_set.spec_w(WordRegister::HL);
    let (cpu1, mem1, _) = spec_step(cpu, mem, i1);
    lemma_step_load_hli(cpu, mem, i1);
    lemma_step_load_hld(cpu1, mem1, i2);
    if hl == 0xffff {
        assert(crate::mem_map::spec_wrap_add16(hl, 1) == 0);
        assert(crate::mem_map::spec_wrap_sub16(0, 1) == 0xffff);
    } else {
        assert(crate::mem_map::spec_wrap_add16(hl, 1) == hl + 1);
        assert(crate::mem_map::spec_wrap_sub16((hl + 1) as u16, 1) == hl);
    }
}

/// Interrupt dispatch pushes the current PC: the word read back at the
/// new stack pointer is the PC at which execution would have resumed.
/// This needs the stack to sit in writable WRAM; with SP in ROM the push
/// is swallowed by the mapper.
pub proof fn lemma_dispatch_pushes_current_pc(cpu: CPU, mem: MemImage)
    requires
        cpu.interrupt_master_enable == crate::cpu::InterruptMasterEnableStatus::Enabled,
        spec_pending(mem) != 0,
        cpu.occupied_cycles <= 0xffff,
        0xc002 <= cpu.register_set.sp <= 0xdfff,
        mem.wram.len() == 0x2000,
    ensures
        ({
            let (cpu1, mem1, dispatched) = spec_check_interrupts(cpu, mem);
            &&& dispatched
            &&& mem1.spec_read_word(cpu1.register_set.sp) == cpu.register_set.pc
        }),
{
    let sp = cpu.register_set.sp;
    let pc = cpu.register_set.pc;
    let (cpu1, mem1, dispatched) = spec_check_interrupts(cpu, mem);
    assert(cpu1.register_set.sp == sp - 2);
    assert(mem1.spec_read_byte((sp - 2) as u16) == pc % 256);
    assert(mem1.spec_read_byte((sp - 1) as u16) == pc / 256);
    assert(crate::mem_map::spec_wrap_add16((sp - 2) as u16, 1) == (sp - 1) as u16);
}

/// DIV reads the high byte of the internal counter, for every SYS value.
pub proof fn lemma_div_reads_high_byte(timers: Timers)
    ensures
        timers.spec_div() == ((timers.sys >> 8) & 0xff) as u8,
{
}

/// Writing any value to DIV makes the next read of DIV return zero.
pub proof fn lemma_div_write_makes_next_read_zero(io: IORegImage, value: u8)
    ensures
        io.spec_write_byte(0xff04, value).spec_read_byte(0xff04) == 0,
{
    assert(((0u16 >> 8) & 0xff) as u8 == 0) by (bit_vector);
}

/// One renderer dot keeps the dot counter within a scanline and LY
/// within a frame.
pub proof fn lemma_ppu_cycle_bounds(ppu: PPUImage, mem: MemImage, screen: Seq<u8>)
    requires
        ppu.current_line_cycle <= 455,
        mem.io.data.len() == 128,
        mem.io.data[0x44] < 154,
    ensures
        ({
            let (ppu1, mem1, _) = spec_ppu_cycle(ppu, mem, screen);
            &&& ppu1.current_line_cycle <= 455
            &&& mem1.io.data[0x44] < 154
        }),
{
    reveal(spec_ppu_cycle);
}

/// The effect of PUSH r16: the pair's bytes go to SP-1 and SP-2 and SP
/// drops by two; the pair itself is untouched.
proof fn lemma_step_push(cpu: CPU, mem: MemImage, i: Instruction, r: WordRegister)
    requires
        r == WordRegister::BC || r == WordRegister::DE || r == WordRegister::HL,
        i.instruction_type == InstructionType::Push,
        i.target == Some(AddressingMode::WordRegister(r)),
    ensures
        ({
            let value = cpu.register_set.spec_w(r);
            let sp = cpu.register_set.sp;
            let (cpu1, mem1, _) = spec_step(cpu, mem, i);
            &&& cpu1.register_set.sp == crate::mem_map::spec_wrap_sub16(sp, 2)
            &&& cpu1.register_set.spec_w(r) == value
            &&& mem1 == mem.spec_write_byte(
                crate::mem_map::spec_wrap_sub16(sp, 1),
                (value / 256) as u8,
            ).spec_write_byte(crate::mem_map::spec_wrap_sub16(sp, 2), (value % 256) as u8)
        }),
{
    reveal(spec_step);
}

/// The effect of POP r16: the pair receives the word at SP and SP rises
/// by two.
proof fn lemma_step_pop(cpu: CPU, mem: MemImage, i: Instruction, r: WordRegister)
    requires
        r == WordRegister::BC || r == WordRegister::DE || r == WordRegister::HL,
        i.instruction_type == InstructionType::Pop,
        i.target == Some(AddressingMode::WordRegister(r)),
    ensures
        ({
            let sp = cpu.register_set.sp;
            let (cpu1, _, _) = spec_step(cpu, mem, i);
            &&& cpu1.register_set.sp == crate::mem_map::spec_wrap_add16(sp, 2)
            &&& cpu1.register_set.spec_w(r) == mem.spec_read_word(sp)
        }),
{
    reveal(spec_step);
}

/// PUSH r16 then POP r16 restores the pair and brings SP back, for the
/// plain pairs BC, DE and HL. This needs the stack to sit in writable
/// WRAM; with SP in ROM the push is swallowed by the mapper.
pub proof fn lemma_push_pop_round_trip(
    cpu: CPU,
    mem: MemImage,
    i1: Instruction,
    i2: Instruction,
    r: WordRegister,
)
    requires
        r == WordRegister::BC || r == WordRegister::DE || r == WordRegister::HL,
        i1.instruction_type == InstructionType::Push,
        i1.target == Some(AddressingMode::WordRegister(r)),
        i2.instruction_type == InstructionType::Pop,
        i2.target == Some(AddressingMode::WordRegister(r)),
        0xc002 <= cpu.register_set.sp <= 0xdfff,
        mem.wram.len() == 0x2000,
    ensures
        ({
            let (cpu1, mem1, _) = spec_step(cpu, mem, i1);
            let (cpu2, _, _) = spec_step(cpu1, mem1, i2);
            &&& cpu2.register_set.spec_w(r) == cpu.register_set.spec_w(r)
            &&& cpu2.register_set.sp == cpu.register_set.sp
        }),
{
    let sp = cpu.register_set.sp;
    let value = cpu.register_set.spec_w(r);
    lemma_step_push(cpu, mem, i1, r);
    let (cpu1, mem1, _) = spec_step(cpu, mem, i1);
    lemma_step_pop(cpu1, mem1, i2, r);
    assert(crate::mem_map::spec_wrap_sub16(sp, 2) == sp - 2);
    assert(crate::mem_map::spec_wrap_sub16(sp, 1) == sp - 1);
    assert(mem1.spec_read_byte((sp - 2) as u16) == value % 256);
    assert(mem1.spec_read_byte((sp - 1) as u16) == value / 256);
    assert(crate::mem_map::spec_wrap_add16((sp - 2) as u16, 1) == (sp - 1) as u16);
    assert(mem1.spec_read_word((sp - 2) as u16) == value);
    assert(crate::mem_map::spec_wrap_add16((sp - 2) as u16, 2) == sp);
}

/// A second SCF changes nothing: the flags after two consecutive SCF
/// equal the flags after the first.
pub proof fn lemma_scf_idempotent(cpu: CPU, mem: MemImage, i1: Instruction, i2: Instruction)
    requires
        i1.instruction_type == InstructionType::SetCarryFlag,
        i2.instruction_type == InstructionType::SetCarryFlag,
    ensures
        ({
            let (cpu1, mem1, _) = spec_step(cpu, mem, i1);
            let (cpu2, _, _) = spec_step(cpu1, mem1, i2);
            &&& cpu2.register_set.flag_z == cpu1.register_set.flag_z
            &&& cpu2.register_set.flag_n == cpu1.register_set.flag_n
            &&& cpu2.register_set.flag_h == cpu1.register_set.flag_h
            &&& cpu2.register_set.flag_c == cpu1.register_set.flag_c
        }),
{
    reveal(spec_step);
}

} // verus!
