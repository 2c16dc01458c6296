//! The fetch/decode/execute engine.
//!
//! Each M-cycle the CPU does exactly one of: keep waiting out the cost of
//! the last instruction, service a pending interrupt, or decode and
//! execute the instruction at PC. The three-valued interrupt master
//! enable delays the effect of EI by one instruction.

use vstd::prelude::*;

use crate::execute::spec_step;
use crate::instruction::{lemma_decode_wf, DecodeError, Instruction};
use crate::interrupts::InterruptType;
use crate::mem_map::{spec_wrap_add16, spec_wrap_sub16, wrap_add16, wrap_sub16, MemImage, MemMap};
use crate::regs::{RegisterSet, WordRegister};

verus! {

#[derive(Clone, Copy, Debug, PartialEq, Eq, Structural)]
pub enum InterruptMasterEnableStatus {
    Enabled,
    /// EI has run; the next instruction still executes with interrupts
    /// off, and only then does Enabling become Enabled.
    Enabling,
    Disabled,
}

pub struct CPU {
    pub register_set: RegisterSet,
    pub current_instruction: Option<Instruction>,
    pub interrupt_master_enable: InterruptMasterEnableStatus,
    pub halted: bool,
    pub stopped: bool,
    pub cycle_counter: u8,
    pub occupied_cycles: u32,
}

/// The interrupts both requested and enabled, a five-bit set.
pub open spec fn spec_pending(mem: MemImage) -> u8 {
    mem.io.if_register & mem.ie & 0x1f
}

/// The lowest-set pending bit wins: VBlank before LCD-STAT before Timer
/// before Serial before Joypad.
pub open spec fn spec_lowest_interrupt(pending: u8) -> InterruptType {
    if pending & 0x01 != 0 {
        InterruptType::VBlank
    } else if pending & 0x02 != 0 {
        InterruptType::LCDStat
    } else if pending & 0x04 != 0 {
        InterruptType::Timer
    } else if pending & 0x08 != 0 {
        InterruptType::Serial
    } else {
        InterruptType::Joypad
    }
}

/// A push writes the high byte at SP-1 and the low byte at SP-2, then
/// sets SP := SP-2.
pub open spec fn spec_push(regs: RegisterSet, mem: MemImage, value: u16) -> (RegisterSet, MemImage) {
    (
        RegisterSet { sp: spec_wrap_sub16(regs.sp, 2), ..regs },
        mem.spec_write_byte(spec_wrap_sub16(regs.sp, 1), (value / 256) as u8).spec_write_byte(
            spec_wrap_sub16(regs.sp, 2),
            (value % 256) as u8,
        ),
    )
}

/// The interrupt check made at the start of every free M-cycle: wake from
/// HALT on any pending interrupt, promote Enabling to Enabled, and with
/// interrupts on dispatch the lowest pending one: clear its IF bit, clear
/// IME, push the current PC and jump to the handler, charging five
/// M-cycles.
pub open spec fn spec_check_interrupts(cpu: CPU, mem: MemImage) -> (CPU, MemImage, bool) {
    let pending = spec_pending(mem);
    let woken = CPU { halted: cpu.halted && pending == 0, ..cpu };
    match cpu.interrupt_master_enable {
        InterruptMasterEnableStatus::Enabling => (
            CPU { interrupt_master_enable: InterruptMasterEnableStatus::Enabled, ..woken },
            mem,
            false,
        ),
        InterruptMasterEnableStatus::Disabled => (woken, mem, false),
        InterruptMasterEnableStatus::Enabled => if pending == 0 {
            (woken, mem, false)
        } else {
            let t = spec_lowest_interrupt(pending);
            let mem1 = MemImage {
                io: crate::io_registers::IORegImage {
                    if_register: mem.io.if_register & !t.spec_mask(),
                    ..mem.io
                },
                ..mem
            };
            let (regs2, mem2) = spec_push(woken.register_set, mem1, woken.register_set.pc);
            (
                CPU {
                    register_set: RegisterSet { pc: t.spec_handler_address(), ..regs2 },
                    interrupt_master_enable: InterruptMasterEnableStatus::Disabled,
                    occupied_cycles: (cpu.occupied_cycles + 5) as u32,
                    ..woken
                },
                mem2,
                true,
            )
        },
    }
}

impl CPU {
    pub fn new() -> (result: CPU)
        ensures
            result.register_set == RegisterSet::spec_default(),
            result.current_instruction is None,
            result.interrupt_master_enable == InterruptMasterEnableStatus::Disabled,
            !result.halted,
            !result.stopped,
            result.cycle_counter == 0,
            result.occupied_cycles == 0,
    {
        CPU {
            register_set: Default::default(),
            current_instruction: None,
            interrupt_master_enable: InterruptMasterEnableStatus::Disabled,
            halted: false,
            stopped: false,
            cycle_counter: 0,
            occupied_cycles: 0,
        }
    }

    pub fn is_halted(&self) -> (result: bool)
        ensures
            result == self.halted,
    {
        self.halted
    }

    pub fn is_busy(&self) -> (result: bool)
        ensures
            result == (self.occupied_cycles != 0),
    {
        self.occupied_cycles != 0
    }

    pub fn push_to_stack(&mut self, mem_map: &mut MemMap, value: u16)
        requires
            old(mem_map).wf(),
        ensures
            final(mem_map).wf(),
            final(mem_map).cartridge == old(mem_map).cartridge,
            (final(self).register_set, final(mem_map)@) == spec_push(
                old(self).register_set,
                old(mem_map)@,
                value,
            ),
            *final(self) == (CPU { register_set: final(self).register_set, ..*old(self) }),
    {
        let sp = self.register_set.sp();
        mem_map.write_byte(wrap_sub16(sp, 1), (value / 256) as u8);
        mem_map.write_byte(wrap_sub16(sp, 2), (value % 256) as u8);
        self.register_set.set_sp(wrap_sub16(sp, 2));
    }

    pub fn pop_from_stack(&mut self, mem_map: &mut MemMap) -> (value: u16)
        requires
            old(mem_map).wf(),
        ensures
            *final(mem_map) == *old(mem_map),
            value == old(mem_map)@.spec_read_byte(old(self).register_set.sp) + old(
                mem_map,
            )@.spec_read_byte(spec_wrap_add16(old(self).register_set.sp, 1)) * 256,
            *final(self) == (CPU {
                register_set: RegisterSet {
                    sp: spec_wrap_add16(old(self).register_set.sp, 2),
                    ..old(self).register_set
                },
                ..*old(self)
            }),
    {
        let sp = self.register_set.sp();
        let lo = mem_map.read_byte(sp);
        let hi = mem_map.read_byte(wrap_add16(sp, 1));
        self.register_set.set_sp(wrap_add16(sp, 2));
        (lo as u16) + (hi as u16) * 256
    }

    fn lowest_interrupt(pending: u8) -> (result: InterruptType)
        ensures
            result == spec_lowest_interrupt(pending),
    {
        if pending & 0x01 != 0 {
            InterruptType::VBlank
        } else if pending & 0x02 != 0 {
            InterruptType::LCDStat
        } else if pending & 0x04 != 0 {
            InterruptType::Timer
        } else if pending & 0x08 != 0 {
            InterruptType::Serial
        } else {
            InterruptType::Joypad
        }
    }

    pub fn check_interrupts(&mut self, mem_map: &mut MemMap) -> (dispatched: bool)
        requires
            old(mem_map).wf(),
            old(self).occupied_cycles <= 0xffff,
        ensures
            final(mem_map).wf(),
            final(mem_map).cartridge == old(mem_map).cartridge,
            (*final(self), final(mem_map)@, dispatched) == spec_check_interrupts(
                *old(self),
                old(mem_map)@,
            ),
    {
        let if_bits = mem_map.io_registers.if_register.read_byte();
        let ie_bits = mem_map.ie_register.read_byte();
        let pending = if_bits & ie_bits & 0x1f;
        if pending != 0 {
            self.halted = false;
        }
        match self.interrupt_master_enable {
            InterruptMasterEnableStatus::Enabling => {
                self.interrupt_master_enable = InterruptMasterEnableStatus::Enabled;
                false
            },
            InterruptMasterEnableStatus::Disabled => false,
            InterruptMasterEnableStatus::Enabled => {
                if pending == 0 {
                    false
                } else {
                    let interrupt_type = CPU::lowest_interrupt(pending);
                    mem_map.io_registers.if_register.clear_request(interrupt_type);
                    self.trigger_interrupt_handler(mem_map, interrupt_type);
                    true
                }
            },
        }
    }

    /// Dispatch: interrupts off, the current PC pushed, PC set to the
    /// handler vector, five M-cycles charged.
    pub fn trigger_interrupt_handler(&mut self, mem_map: &mut MemMap, interrupt_type: InterruptType)
        requires
            old(mem_map).wf(),
            old(self).occupied_cycles <= 0xffff,
        ensures
            final(mem_map).wf(),
            final(mem_map).cartridge == old(mem_map).cartridge,
            ({
                let (regs2, mem2) = spec_push(
                    old(self).register_set,
                    old(mem_map)@,
                    old(self).register_set.pc,
                );
                &&& final(mem_map)@ == mem2
                &&& *final(self) == (CPU {
                    register_set: RegisterSet {
                        pc: interrupt_type.spec_handler_address(),
                        ..regs2
                    },
                    interrupt_master_enable: InterruptMasterEnableStatus::Disabled,
                    occupied_cycles: (old(self).occupied_cycles + 5) as u32,
                    ..*old(self)
                })
            }),
    {
        self.interrupt_master_enable = InterruptMasterEnableStatus::Disabled;
        let pc = self.register_set.pc();
        self.push_to_stack(mem_map, pc);
        self.register_set.set_w(
            WordRegister::PC,
            crate::interrupts::get_handler_address(interrupt_type),
        );
        self.occupied_cycles = self.occupied_cycles + 5;
    }
}

/// One M-cycle: keep waiting, or dispatch an interrupt, or stay halted,
/// or decode and execute the instruction at PC. The error slot is filled
/// exactly when the byte at PC is an undefined opcode.
#[verifier::opaque]
pub open spec fn spec_m_cycle(cpu: CPU, mem: MemImage) -> (CPU, MemImage, Option<DecodeError>) {
    if cpu.occupied_cycles != 0 {
        (CPU { occupied_cycles: (cpu.occupied_cycles - 1) as u32, ..cpu }, mem, None)
    } else {
        let (cpu1, mem1, dispatched) = spec_check_interrupts(cpu, mem);
        if dispatched {
            (CPU { occupied_cycles: (cpu1.occupied_cycles - 1) as u32, ..cpu1 }, mem1, None)
        } else if cpu1.halted {
            (cpu1, mem1, None)
        } else {
            let pc = cpu1.register_set.pc;
            let opcode = mem1.spec_read_byte(pc);
            let next = mem1.spec_read_byte(spec_wrap_add16(pc, 1));
            match Instruction::spec_decode(pc, opcode, next) {
                None => (cpu1, mem1, Some(DecodeError { address: pc, opcode })),
                Some(i) => {
                    let (cpu2, mem2, cycles) = spec_step(cpu1, mem1, i);
                    (CPU { occupied_cycles: (cycles - 1) as u32, ..cpu2 }, mem2, None)
                },
            }
        }
    }
}

/// One T-cycle: the cycle counter advances; unless stopped, the timer
/// unit ticks and every fourth T-cycle the CPU takes an M-cycle.
pub open spec fn spec_cycle(cpu: CPU, mem: MemImage) -> (CPU, MemImage, Option<DecodeError>) {
    let counter: u8 = if cpu.cycle_counter == 0xff {
        0u8
    } else {
        (cpu.cycle_counter + 1) as u8
    };
    let cpu0 = CPU { cycle_counter: counter, ..cpu };
    if cpu.stopped {
        (cpu0, mem, None)
    } else {
        let mem1 = MemImage { io: mem.io.spec_tick(), ..mem };
        if counter & 3 == 0 {
            spec_m_cycle(cpu0, mem1)
        } else {
            (cpu0, mem1, None)
        }
    }
}

/// Every instruction costs between one and six M-cycles.
pub proof fn lemma_cycles_bounds(i: Instruction, taken: bool)
    ensures
        1 <= crate::execute::spec_cycles(i, taken) <= 6,
{
}

impl CPU {
    /// Advance one M-cycle. A decode failure is returned to the caller;
    /// the machine state then stands exactly as the interrupt check left
    /// it.
    #[verifier::rlimit(100)]
    pub fn m_cycle(&mut self, mem_map: &mut MemMap) -> (result: Result<(), DecodeError>)
        requires
            old(mem_map).wf(),
            old(self).occupied_cycles <= 0xffff,
        ensures
            final(mem_map).wf(),
            final(mem_map).cartridge == old(mem_map).cartridge,
            ({
                let (c, m, e) = spec_m_cycle(*old(self), old(mem_map)@);
                &&& *final(self) == c
                &&& final(mem_map)@ == m
                &&& result == match e {
                    None => Ok::<(), DecodeError>(()),
                    Some(err) => Err::<(), DecodeError>(err),
                }
            }),
            old(self).occupied_cycles == 0 ==> final(self).occupied_cycles <= 5,
            old(self).occupied_cycles != 0 ==> final(self).occupied_cycles == old(
                self,
            ).occupied_cycles - 1,
    {
        proof {
            reveal(spec_m_cycle);
        }
        if self.occupied_cycles != 0 {
            self.occupied_cycles = self.occupied_cycles - 1;
            return Ok(());
        }
        let dispatched = self.check_interrupts(mem_map);
        if dispatched {
            self.occupied_cycles = self.occupied_cycles - 1;
            return Ok(());
        }
        if self.halted {
            return Ok(());
        }
        let pc = self.register_set.pc();
        let opcode = mem_map.read_byte(pc);
        let next = mem_map.read_byte(wrap_add16(pc, 1));
        match Instruction::decode(pc, opcode, next) {
            Err(e) => Err(e),
            Ok(instruction) => {
                proof {
                    lemma_decode_wf(pc, opcode, next);
                    crate::execute::lemma_step_cycles_match_table(*self, mem_map@, instruction);
                    lemma_cycles_bounds(
                        instruction,
                        crate::execute::spec_taken(self.register_set, instruction),
                    );
                }
                let cycles = self.run(mem_map, &instruction);
                self.occupied_cycles = cycles - 1;
                Ok(())
            },
        }
    }

    /// Advance one T-cycle: tick the timers (unless stopped by STOP) and
    /// take an M-cycle on every fourth call.
    pub fn cycle(&mut self, mem_map: &mut MemMap) -> (result: Result<(), DecodeError>)
        requires
            old(mem_map).wf(),
            old(self).occupied_cycles <= 0xffff,
        ensures
            final(mem_map).wf(),
            final(mem_map).cartridge == old(mem_map).cartridge,
            ({
                let (c, m, e) = spec_cycle(*old(self), old(mem_map)@);
                &&& *final(self) == c
                &&& final(mem_map)@ == m
                &&& result == match e {
                    None => Ok::<(), DecodeError>(()),
                    Some(err) => Err::<(), DecodeError>(err),
                }
            }),
    {
        self.cycle_counter = if self.cycle_counter == 0xff {
            0
        } else {
            self.cycle_counter + 1
        };
        if self.stopped {
            return Ok(());
        }
        mem_map.io_registers.update_timers();
        if self.cycle_counter & 3 == 0 {
            self.m_cycle(mem_map)
        } else {
            Ok(())
        }
    }
}

/// A registers-and-next-bytes snapshot, taken at the start of each
/// instruction for tracing.
pub struct CPUState {
    pub register_set: RegisterSet,
    pub current_instruction_bytes: [u8; 4],
}

impl CPUState {
    pub fn new(cpu: &CPU, mem_map: &MemMap) -> (result: CPUState)
        requires
            mem_map.wf(),
        ensures
            result.register_set == cpu.register_set,
            result.current_instruction_bytes@ == seq![
                mem_map@.spec_read_byte(cpu.register_set.pc),
                mem_map@.spec_read_byte(spec_wrap_add16(cpu.register_set.pc, 1)),
                mem_map@.spec_read_byte(spec_wrap_add16(cpu.register_set.pc, 2)),
                mem_map@.spec_read_byte(spec_wrap_add16(cpu.register_set.pc, 3)),
            ],
    {
        let pc = cpu.register_set.pc();
        let bytes: [u8; 4] = [
            mem_map.read_byte(pc),
            mem_map.read_byte(wrap_add16(pc, 1)),
            mem_map.read_byte(wrap_add16(pc, 2)),
            mem_map.read_byte(wrap_add16(pc, 3)),
        ];
        let result = CPUState { register_set: cpu.register_set, current_instruction_bytes: bytes };
        proof {
            assert(result.current_instruction_bytes@ =~= seq![
                mem_map@.spec_read_byte(cpu.register_set.pc),
                mem_map@.spec_read_byte(spec_wrap_add16(cpu.register_set.pc, 1)),
                mem_map@.spec_read_byte(spec_wrap_add16(cpu.register_set.pc, 2)),
                mem_map@.spec_read_byte(spec_wrap_add16(cpu.register_set.pc, 3)),
            ]);
        }
        result
    }
}

} // verus!
