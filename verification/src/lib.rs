//! Core of a cycle-accurate emulator for the original Game Boy (DMG).
//!
//! The crate is organised leaves-first: the register file and timers, the
//! memory map that routes the 16-bit address space, the instruction decoder
//! and executor, the pixel-pipeline state machine, and a top-level device
//! that drives them in lockstep, four T-cycles per M-cycle.

pub mod cartridge;
pub mod cartridge_data;
pub mod cpu;
pub mod device;
pub mod execute;
pub mod fifo;
pub mod instruction;
pub mod interrupts;
pub mod io_registers;
pub mod laws;
pub mod lcdc;
pub mod mem_map;
pub mod oam;
pub mod ppu;
pub mod regs;
pub mod timers;
