//! The I/O register block at FF00-FF7F: a 128-byte backing store plus the
//! typed IF, timer and LCDC views.
//!
//! Regional rules: LY at FF44 ignores writes, DIV at FF04 resets the
//! internal counter, the timer registers live in the timer unit, and IF at
//! FF0F keeps only its five interrupt bits.

use vstd::prelude::*;

use crate::interrupts::{IFRegister, InterruptType};
use crate::lcdc::LCDCRegister;
use crate::timers::Timers;

verus! {

/// The mathematical image of the block: the backing bytes, the IF bits
/// and the timer unit.
pub ghost struct IORegImage {
    pub data: Seq<u8>,
    pub if_register: u8,
    pub timers: Timers,
}

impl IORegImage {
    /// The byte a read of `address` returns.
    pub open spec fn spec_read_byte(self, address: u16) -> u8 {
        if address == 0xff04 {
            self.timers.spec_div()
        } else if address == 0xff05 {
            self.timers.tima
        } else if address == 0xff06 {
            self.timers.tma
        } else if address == 0xff07 {
            self.timers.tac
        } else if address == 0xff0f {
            self.if_register
        } else {
            self.data[address - 0xff00]
        }
    }

    /// The block after one T-cycle of the timer unit: SYS advances, TIMA
    /// advances on the selected falling edge, and an overflow of TIMA
    /// reloads it from TMA and raises the timer bit in IF.
    pub open spec fn spec_tick(self) -> IORegImage {
        let ticks = self.timers.spec_tima_ticks();
        let overflow = ticks && self.timers.tima == 0xff;
        IORegImage {
            timers: Timers {
                sys: Timers::spec_next_sys(self.timers.sys),
                tima: if ticks {
                    if self.timers.tima == 0xff {
                        self.timers.tma
                    } else {
                        (self.timers.tima + 1) as u8
                    }
                } else {
                    self.timers.tima
                },
                ..self.timers
            },
            if_register: if overflow {
                self.if_register | 0x04
            } else {
                self.if_register
            },
            ..self
        }
    }

    /// The whole block after a write of `value` to `address`.
    pub open spec fn spec_write_byte(self, address: u16, value: u8) -> IORegImage {
        if address == 0xff44 {
            self
        } else if address == 0xff04 {
            IORegImage { timers: Timers { sys: 0u16, ..self.timers }, ..self }
        } else if address == 0xff05 {
            IORegImage { timers: Timers { tima: value, ..self.timers }, ..self }
        } else if address == 0xff06 {
            IORegImage { timers: Timers { tma: value, ..self.timers }, ..self }
        } else if address == 0xff07 {
            IORegImage {
                timers: Timers { tac: (self.timers.tac & 0xf8) | (value & 0x07), ..self.timers },
                ..self
            }
        } else if address == 0xff0f {
            IORegImage { if_register: value & 0x1f, ..self }
        } else {
            IORegImage { data: self.data.update(address - 0xff00, value), ..self }
        }
    }
}

pub struct IORegisters {
    /// Backing store for FF00-FF7F; the bytes at FF04-FF07 and FF0F are
    /// shadowed by the timer unit and IF.
    pub data: Vec<u8>,
    pub if_register: IFRegister,
    pub timers: Timers,
}

impl View for IORegisters {
    type V = IORegImage;

    open spec fn view(&self) -> IORegImage {
        IORegImage { data: self.data@, if_register: self.if_register.0, timers: self.timers }
    }
}

impl IORegisters {
    pub open spec fn wf(self) -> bool {
        self.data@.len() == 128
    }

    pub fn new() -> (result: IORegisters)
        ensures
            result.wf(),
            result@.data == IORegisters::spec_default_data(),
            result@.if_register == 0xe1,
            result@.timers == (Timers { sys: 0xab00, tima: 0x00, tma: 0x00, tac: 0xf8 }),
    {
        IORegisters {
            data: IORegisters::default_data(),
            if_register: IFRegister::new(),
            timers: Timers::new(),
        }
    }

    /// The fixed post-boot image of the block, matching a DMG after its
    /// boot ROM has run.
    pub open spec fn spec_default_data() -> Seq<u8> {
        Seq::new(128, |i: int| IORegisters::spec_default_byte(i))
    }

    pub open spec fn spec_default_byte(i: int) -> u8 {
        if i == 0x00 {
            0xcfu8
        } else if i == 0x02 {
            0x7eu8
        } else if i == 0x0f {
            0xe1u8
        } else if i == 0x10 {
            0x80u8
        } else if i == 0x11 {
            0xbfu8
        } else if i == 0x12 {
            0xf3u8
        } else if i == 0x13 {
            0xffu8
        } else if i == 0x14 {
            0xbfu8
        } else if i == 0x16 {
            0x3fu8
        } else if i == 0x18 {
            0xffu8
        } else if i == 0x19 {
            0xbfu8
        } else if i == 0x1a {
            0x7fu8
        } else if i == 0x1b {
            0xffu8
        } else if i == 0x1c {
            0x9fu8
        } else if i == 0x1d {
            0xffu8
        } else if i == 0x1e {
            0xbfu8
        } else if i == 0x20 {
            0xffu8
        } else if i == 0x23 {
            0xbfu8
        } else if i == 0x24 {
            0x77u8
        } else if i == 0x25 {
            0xf3u8
        } else if i == 0x26 {
            0xf1u8
        } else if i == 0x40 {
            0x91u8
        } else if i == 0x41 {
            0x81u8
        } else if i == 0x44 {
            0x90u8
        } else if i == 0x46 {
            0xffu8
        } else if i == 0x47 {
            0xfcu8
        } else {
            0u8
        }
    }

    fn default_byte(i: usize) -> (result: u8)
        ensures
            result == IORegisters::spec_default_byte(i as int),
    {
        if i == 0x00 {
            0xcf
        } else if i == 0x02 {
            0x7e
        } else if i == 0x0f {
            0xe1
        } else if i == 0x10 {
            0x80
        } else if i == 0x11 {
            0xbf
        } else if i == 0x12 {
            0xf3
        } else if i == 0x13 {
            0xff
        } else if i == 0x14 {
            0xbf
        } else if i == 0x16 {
            0x3f
        } else if i == 0x18 {
            0xff
        } else if i == 0x19 {
            0xbf
        } else if i == 0x1a {
            0x7f
        } else if i == 0x1b {
            0xff
        } else if i == 0x1c {
            0x9f
        } else if i == 0x1d {
            0xff
        } else if i == 0x1e {
            0xbf
        } else if i == 0x20 {
            0xff
        } else if i == 0x23 {
            0xbf
        } else if i == 0x24 {
            0x77
        } else if i == 0x25 {
            0xf3
        } else if i == 0x26 {
            0xf1
        } else if i == 0x40 {
            0x91
        } else if i == 0x41 {
            0x81
        } else if i == 0x44 {
            0x90
        } else if i == 0x46 {
            0xff
        } else if i == 0x47 {
            0xfc
        } else {
            0
        }
    }

    pub fn default_data() -> (result: Vec<u8>)
        ensures
            result@ == IORegisters::spec_default_data(),
    {
        let mut data: Vec<u8> = Vec::new();
        let mut i: usize = 0;
        while i < 128
            invariant
                i <= 128,
                data@.len() == i,
                forall|j: int| 0 <= j < i ==> data@[j] == IORegisters::spec_default_byte(j),
            decreases 128 - i,
        {
            data.push(IORegisters::default_byte(i));
            i = i + 1;
        }
        proof {
            assert(data@ =~= IORegisters::spec_default_data());
        }
        data
    }

    /// One T-cycle of the timer unit; an overflow of TIMA requests the
    /// timer interrupt.
    pub fn update_timers(&mut self)
        requires
            old(self).wf(),
        ensures
            final(self).wf(),
            final(self)@ == old(self)@.spec_tick(),
    {
        let overflow = self.timers.tick();
        if overflow {
            self.if_register.request_interrupt(InterruptType::Timer);
        }
    }

    pub fn get_lcdl_register(&self) -> (result: LCDCRegister)
        requires
            self.wf(),
        ensures
            result.0 == self@.data[0x40],
    {
        LCDCRegister(self.data[0x40])
    }

    pub fn set_if_register(&mut self, value: u8)
        ensures
            final(self)@ == (IORegImage { if_register: value & 0x1f, ..old(self)@ }),
            final(self).wf() == old(self).wf(),
    {
        self.if_register = IFRegister(value & 0x1f);
    }

    pub fn get_lcd_ly(&self) -> (result: u8)
        requires
            self.wf(),
        ensures
            result == self@.data[0x44],
    {
        self.data[0x44]
    }

    /// LY is read-only through the memory map; the renderer sets it here.
    pub fn set_lcd_ly(&mut self, line: u8)
        requires
            old(self).wf(),
        ensures
            final(self).wf(),
            final(self)@ == (IORegImage { data: old(self)@.data.update(0x44, line), ..old(self)@ }),
    {
        self.data[0x44] = line;
    }

    pub fn get_lcdstat(&self) -> (result: u8)
        requires
            self.wf(),
        ensures
            result == self@.data[0x41],
    {
        self.data[0x41]
    }

    pub fn get_scy(&self) -> (result: u8)
        requires
            self.wf(),
        ensures
            result == self@.data[0x42],
    {
        self.data[0x42]
    }

    pub fn get_scx(&self) -> (result: u8)
        requires
            self.wf(),
        ensures
            result == self@.data[0x43],
    {
        self.data[0x43]
    }

    pub fn read_byte(&self, address: u16) -> (result: u8)
        requires
            self.wf(),
            0xff00 <= address <= 0xff7f,
        ensures
            result == self@.spec_read_byte(address),
    {
        if address >= 0xff04 && address <= 0xff07 {
            self.timers.read_byte(address)
        } else if address == 0xff0f {
            self.if_register.read_byte()
        } else {
            self.data[(address - 0xff00) as usize]
        }
    }

    pub fn write_byte(&mut self, address: u16, value: u8)
        requires
            old(self).wf(),
            0xff00 <= address <= 0xff7f,
        ensures
            final(self).wf(),
            final(self)@ == old(self)@.spec_write_byte(address, value),
    {
        if address == 0xff44 {
            return ;
        }
        if address >= 0xff04 && address <= 0xff07 {
            self.timers.write_byte(address, value);
        } else if address == 0xff0f {
            self.if_register.write_byte(value);
        } else {
            self.data[(address - 0xff00) as usize] = value;
        }
    }
}

} // verus!
