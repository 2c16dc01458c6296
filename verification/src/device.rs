//! The top-level device: CPU, PPU and memory map driven in lockstep.
//!
//! One T-cycle runs the timer unit, then one PPU dot, then on every
//! fourth T-cycle one CPU M-cycle; `tick` issues four T-cycles (one
//! M-cycle worth), then services the serial side-channel. A decode
//! failure latches a fatal-error state: later ticks do nothing and
//! return the latched error.

use vstd::prelude::*;

use crate::cartridge::Cartridge;
use crate::cpu::{spec_m_cycle, CPU};
use crate::instruction::DecodeError;
use crate::mem_map::{MemImage, MemMap};
use crate::ppu::{spec_ppu_cycle, PPUImage, PPU};

verus! {

/// The mathematical image of the whole device.
pub ghost struct DeviceImage {
    pub cpu: CPU,
    pub ppu: PPUImage,
    pub mem: MemImage,
    pub screen: Seq<u8>,
    pub serial_buffer: Seq<u8>,
    pub breakpoint: Option<u16>,
    pub running: bool,
    pub fatal_error: Option<DecodeError>,
}

pub struct Device {
    pub cpu: CPU,
    pub ppu: PPU,
    pub mem_map: MemMap,
    /// The 160x144 RGBA framebuffer, row-major.
    pub screen: Vec<u8>,
    pub serial_buffer: Vec<u8>,
    pub breakpoint: Option<u16>,
    pub running: bool,
    pub fatal_error: Option<DecodeError>,
}

impl View for Device {
    type V = DeviceImage;

    open spec fn view(&self) -> DeviceImage {
        DeviceImage {
            cpu: self.cpu,
            ppu: self.ppu@,
            mem: self.mem_map@,
            screen: self.screen@,
            serial_buffer: self.serial_buffer@,
            breakpoint: self.breakpoint,
            running: self.running,
            fatal_error: self.fatal_error,
        }
    }
}

/// One T-cycle of the device: the timer unit ticks (unless STOP froze
/// it), the renderer advances one dot while the LCD is on, and every
/// fourth T-cycle the CPU takes an M-cycle.
pub open spec fn spec_device_cycle(device: DeviceImage) -> (DeviceImage, Option<DecodeError>) {
    let mem1 = if device.cpu.stopped {
        device.mem
    } else {
        MemImage { io: device.mem.io.spec_tick(), ..device.mem }
    };
    let lcd_on = mem1.io.data[0x40] & 0x80 != 0;
    let (ppu1, mem2, screen1) = if lcd_on {
        spec_ppu_cycle(device.ppu, mem1, device.screen)
    } else {
        (device.ppu, mem1, device.screen)
    };
    let counter: u8 = if device.cpu.cycle_counter == 0xff {
        0u8
    } else {
        (device.cpu.cycle_counter + 1) as u8
    };
    let cpu0 = CPU { cycle_counter: counter, ..device.cpu };
    if device.cpu.stopped || counter & 3 != 0 {
        (DeviceImage { cpu: cpu0, ppu: ppu1, mem: mem2, screen: screen1, ..device }, None)
    } else {
        let (cpu1, mem3, error) = spec_m_cycle(cpu0, mem2);
        (DeviceImage { cpu: cpu1, ppu: ppu1, mem: mem3, screen: screen1, ..device }, error)
    }
}

/// The serial side-channel: a write of 0x81 to FF02 emits the byte at
/// FF01 into the serial buffer and clears FF02.
pub open spec fn spec_check_serial(device: DeviceImage) -> DeviceImage {
    if device.mem.io.data[0x02] == 0x81 {
        DeviceImage {
            serial_buffer: device.serial_buffer.push(device.mem.io.data[0x01]),
            mem: MemImage {
                io: crate::io_registers::IORegImage {
                    data: device.mem.io.data.update(0x02, 0u8),
                    ..device.mem.io
                },
                ..device.mem
            },
            ..device
        }
    } else {
        device
    }
}

/// One host tick: four T-cycles, then the serial check. A latched fatal
/// error makes the tick a no-op that returns the error; a new decode
/// failure is latched and returned.
pub open spec fn spec_device_tick(device: DeviceImage) -> (DeviceImage, Option<DecodeError>) {
    match device.fatal_error {
        Some(error) => (device, Some(error)),
        None => {
            let (d1, e1) = spec_device_cycle(device);
            if e1 is Some {
                (DeviceImage { fatal_error: e1, ..d1 }, e1)
            } else {
                let (d2, e2) = spec_device_cycle(d1);
                if e2 is Some {
                    (DeviceImage { fatal_error: e2, ..d2 }, e2)
                } else {
                    let (d3, e3) = spec_device_cycle(d2);
                    if e3 is Some {
                        (DeviceImage { fatal_error: e3, ..d3 }, e3)
                    } else {
                        let (d4, e4) = spec_device_cycle(d3);
                        if e4 is Some {
                            (DeviceImage { fatal_error: e4, ..d4 }, e4)
                        } else {
                            (spec_check_serial(d4), None)
                        }
                    }
                }
            }
        },
    }
}

fn filled_vec(length: usize, value: u8) -> (result: Vec<u8>)
    ensures
        result@ == Seq::new(length as nat, |i: int| value),
{
    let mut data: Vec<u8> = Vec::new();
    let mut i: usize = 0;
    while i < length
        invariant
            i <= length,
            data@.len() == i,
            forall|j: int| 0 <= j < i ==> data@[j] == value,
        decreases length - i,
    {
        data.push(value);
        i = i + 1;
    }
    proof {
        assert(data@ =~= Seq::new(length as nat, |i: int| value));
    }
    data
}

impl Device {
    pub open spec fn wf(self) -> bool {
        &&& self.mem_map.wf()
        &&& self.ppu.wf()
        &&& self.screen@.len() == 92160
        &&& self.cpu.occupied_cycles <= 1000
    }

    pub fn new(cartridge: Cartridge) -> (result: Device)
        requires
            cartridge.wf(),
        ensures
            result.wf(),
            result@.cpu == result.cpu,
            result.cpu.register_set == crate::regs::RegisterSet::spec_default(),
            !result.cpu.halted,
            !result.cpu.stopped,
            result.cpu.occupied_cycles == 0,
            result@.mem.rom == cartridge.data@,
            result@.screen == Seq::new(92160, |i: int| 0xffu8),
            result@.serial_buffer == Seq::<u8>::empty(),
            result@.breakpoint is None,
            result@.fatal_error is None,
            !result@.running,
    {
        let result = Device {
            cpu: CPU::new(),
            ppu: PPU::new(),
            mem_map: MemMap::new(cartridge),
            screen: filled_vec(92160, 0xff),
            serial_buffer: Vec::new(),
            breakpoint: None,
            running: false,
            fatal_error: None,
        };
        proof {
            assert(result.serial_buffer@ =~= Seq::<u8>::empty());
        }
        result
    }

    /// Whether LCDC bit 7 has the LCD on.
    pub fn ppu_enabled(&self) -> (result: bool)
        requires
            self.mem_map.wf(),
        ensures
            result == (self@.mem.io.data[0x40] & 0x80 != 0),
    {
        self.mem_map.io_registers.get_lcdl_register().lcd_enabled()
    }

    /// One T-cycle: timers, one PPU dot, and on every fourth call one
    /// CPU M-cycle.
    #[verifier::rlimit(100)]
    pub fn cycle(&mut self) -> (result: Result<(), DecodeError>)
        requires
            old(self).wf(),
        ensures
            final(self).wf(),
            final(self).mem_map.cartridge == old(self).mem_map.cartridge,
            ({
                let (d, e) = spec_device_cycle(old(self)@);
                &&& final(self)@ == d
                &&& result == match e {
                    None => Ok::<(), DecodeError>(()),
                    Some(error) => Err::<(), DecodeError>(error),
                }
            }),
    {
        if !self.cpu.stopped {
            self.mem_map.io_registers.update_timers();
        }
        if self.ppu_enabled() {
            self.ppu.cycle(&mut self.mem_map, &mut self.screen);
        }
        self.cpu.cycle_counter = if self.cpu.cycle_counter == 0xff {
            0
        } else {
            self.cpu.cycle_counter + 1
        };
        if !self.cpu.stopped && self.cpu.cycle_counter & 3 == 0 {
            self.cpu.m_cycle(&mut self.mem_map)
        } else {
            Ok(())
        }
    }

    /// The serial side-channel check made after each tick.
    pub fn check_serial(&mut self)
        requires
            old(self).wf(),
        ensures
            final(self).wf(),
            final(self).mem_map.cartridge == old(self).mem_map.cartridge,
            final(self)@ == spec_check_serial(old(self)@),
    {
        if self.mem_map.io_registers.read_byte(0xff02) == 0x81 {
            let data = self.mem_map.io_registers.read_byte(0xff01);
            self.serial_buffer.push(data);
            self.mem_map.io_registers.write_byte(0xff02, 0x00);
        }
    }

    /// One host tick: four T-cycles and the serial check, with the
    /// fatal-error latch of the error design.
    #[verifier::rlimit(100)]
    pub fn tick(&mut self) -> (result: Result<(), DecodeError>)
        requires
            old(self).wf(),
        ensures
            final(self).wf(),
            final(self).mem_map.cartridge == old(self).mem_map.cartridge,
            ({
                let (d, e) = spec_device_tick(old(self)@);
                &&& final(self)@ == d
                &&& result == match e {
                    None => Ok::<(), DecodeError>(()),
                    Some(error) => Err::<(), DecodeError>(error),
                }
            }),
    {
        if let Some(error) = self.fatal_error {
            return Err(error);
        }
        match self.cycle() {
            Err(error) => {
                self.fatal_error = Some(error);
                return Err(error);
            },
            Ok(()) => {},
        }
        match self.cycle() {
            Err(error) => {
                self.fatal_error = Some(error);
                return Err(error);
            },
            Ok(()) => {},
        }
        match self.cycle() {
            Err(error) => {
                self.fatal_error = Some(error);
                return Err(error);
            },
            Ok(()) => {},
        }
        match self.cycle() {
            Err(error) => {
                self.fatal_error = Some(error);
                return Err(error);
            },
            Ok(()) => {},
        }
        self.check_serial();
        Ok(())
    }

    /// The framebuffer, read-only for the host.
    pub fn framebuffer(&self) -> (result: &Vec<u8>)
        ensures
            result@ == self@.screen,
    {
        &self.screen
    }

    /// Copy the framebuffer into a host-provided pixel buffer.
    pub fn draw_screen(&self, pixels: &mut Vec<u8>)
        requires
            old(pixels)@.len() == 92160,
            self.wf(),
        ensures
            final(pixels)@ == self@.screen,
    {
        let mut i: usize = 0;
        while i < 92160
            invariant
                i <= 92160,
                self.wf(),
                pixels@.len() == 92160,
                forall|j: int| 0 <= j < i ==> pixels@[j] == self.screen@[j],
        decreases 92160 - i,
        {
            let value = self.screen[i];
            pixels[i] = value;
            i = i + 1;
        }
        proof {
            assert(pixels@ =~= self@.screen);
        }
    }

    pub fn set_breakpoint(&mut self, address: u16)
        ensures
            *final(self) == (Device { breakpoint: Some(address), ..*old(self) }),
    {
        self.breakpoint = Some(address);
    }

    /// Set the breakpoint, or clear it when it already sits at this
    /// address.
    pub fn toggle_breakpoint(&mut self, address: u16)
        ensures
            *final(self) == (Device {
                breakpoint: match old(self).breakpoint {
                    Some(existing) => if existing == address {
                        None
                    } else {
                        Some(address)
                    },
                    None => Some(address),
                },
                ..*old(self)
            }),
    {
        match self.breakpoint {
            Some(existing) if existing == address => {
                self.breakpoint = None;
            },
            _ => {
                self.breakpoint = Some(address);
            },
        }
    }

    /// Advance whole M-cycles until the instruction in flight completes,
    /// as a debugger's step does. The waiting counter is bounded, so a
    /// small tick budget always suffices.
    #[verifier::rlimit(100)]
    pub fn step(&mut self) -> (result: Result<(), DecodeError>)
        requires
            old(self).wf(),
        ensures
            final(self).wf(),
            final(self).mem_map.cartridge == old(self).mem_map.cartridge,
            result matches Err(error) ==> final(self).fatal_error == Some(error),
            result is Ok ==> final(self).fatal_error is None,
    {
        let mut budget: u32 = 1024;
        loop
            invariant
                self.wf(),
                self.mem_map.cartridge == old(self).mem_map.cartridge,
            decreases budget,
        {
            match self.tick() {
                Err(error) => {
                    return Err(error);
                },
                Ok(()) => {},
            }
            if !self.cpu.is_busy() {
                return Ok(());
            }
            if budget == 0 {
                return Ok(());
            }
            budget = budget - 1;
        }
    }
}

} // verus!
