//! The unified 16-bit address-space router.
//!
//! Reads and writes are dispatched by region: cartridge ROM, VRAM, WRAM,
//! echo RAM (a mirror of C000-DDFF), OAM, the I/O block, HRAM and the IE
//! latch. The unusable range FEA0-FEFF reads 0xFF and ignores writes, as
//! does external-RAM space on the ROM-only cartridges this core supports;
//! ROM writes go to the mapper, which for ROM-only is a no-op. Word
//! accesses are little-endian and are carried out as two byte accesses,
//! low byte first, so they obey every regional rule above.

use vstd::prelude::*;

use crate::cartridge::Cartridge;
use crate::interrupts::IERegister;
use crate::io_registers::{IORegImage, IORegisters};
use crate::oam::OAM;

verus! {

/// The mathematical image of the whole address space, region by region.
pub ghost struct MemImage {
    pub rom: Seq<u8>,
    pub vram: Seq<u8>,
    pub wram: Seq<u8>,
    pub oam: Seq<u8>,
    pub io: IORegImage,
    pub hram: Seq<u8>,
    pub ie: u8,
}

impl MemImage {
    /// The byte a read of `address` returns.
    pub open spec fn spec_read_byte(self, address: u16) -> u8 {
        if address < 0x8000 {
            self.rom[address as int]
        } else if address < 0xa000 {
            self.vram[address - 0x8000]
        } else if address < 0xc000 {
            0xffu8
        } else if address < 0xe000 {
            self.wram[address - 0xc000]
        } else if address < 0xfe00 {
            self.wram[address - 0xe000]
        } else if address < 0xfea0 {
            self.oam[address - 0xfe00]
        } else if address < 0xff00 {
            0xffu8
        } else if address < 0xff80 {
            self.io.spec_read_byte(address)
        } else if address < 0xffff {
            self.hram[address - 0xff80]
        } else {
            self.ie
        }
    }

    /// The whole space after a write of `value` to `address`.
    pub open spec fn spec_write_byte(self, address: u16, value: u8) -> MemImage {
        if address < 0x8000 {
            self
        } else if address < 0xa000 {
            MemImage { vram: self.vram.update(address - 0x8000, value), ..self }
        } else if address < 0xc000 {
            self
        } else if address < 0xe000 {
            MemImage { wram: self.wram.update(address - 0xc000, value), ..self }
        } else if address < 0xfe00 {
            MemImage { wram: self.wram.update(address - 0xe000, value), ..self }
        } else if address < 0xfea0 {
            MemImage { oam: self.oam.update(address - 0xfe00, value), ..self }
        } else if address < 0xff00 {
            self
        } else if address < 0xff80 {
            MemImage { io: self.io.spec_write_byte(address, value), ..self }
        } else if address < 0xffff {
            MemImage { hram: self.hram.update(address - 0xff80, value), ..self }
        } else {
            MemImage { ie: value, ..self }
        }
    }

    /// A little-endian word read: low byte at `address`.
    pub open spec fn spec_read_word(self, address: u16) -> u16 {
        (self.spec_read_byte(address) + self.spec_read_byte(spec_wrap_add16(address, 1))
            * 256) as u16
    }

    /// A little-endian word write: low byte first.
    pub open spec fn spec_write_word(self, address: u16, value: u16) -> MemImage {
        self.spec_write_byte(address, (value % 256) as u8).spec_write_byte(
            spec_wrap_add16(address, 1),
            (value / 256) as u8,
        )
    }
}

pub struct MemMap {
    pub cartridge: Cartridge,
    pub video_ram: Vec<u8>,
    pub working_ram: Vec<u8>,
    pub io_registers: IORegisters,
    pub object_attribute_memory: OAM,
    pub hram: Vec<u8>,
    pub ie_register: IERegister,
}

impl View for MemMap {
    type V = MemImage;

    open spec fn view(&self) -> MemImage {
        MemImage {
            rom: self.cartridge.data@,
            vram: self.video_ram@,
            wram: self.working_ram@,
            oam: self.object_attribute_memory.data@,
            io: self.io_registers@,
            hram: self.hram@,
            ie: self.ie_register.0,
        }
    }
}

fn zero_vec(length: usize) -> (result: Vec<u8>)
    ensures
        result@ == Seq::new(length as nat, |i: int| 0u8),
{
    let mut data: Vec<u8> = Vec::new();
    let mut i: usize = 0;
    while i < length
        invariant
            i <= length,
            data@.len() == i,
            forall|j: int| 0 <= j < i ==> data@[j] == 0u8,
        decreases length - i,
    {
        data.push(0);
        i = i + 1;
    }
    proof {
        assert(data@ =~= Seq::new(length as nat, |i: int| 0u8));
    }
    data
}

impl MemMap {
    pub open spec fn wf(self) -> bool {
        &&& self.cartridge.wf()
        &&& self.video_ram@.len() == 0x2000
        &&& self.working_ram@.len() == 0x2000
        &&& self.io_registers.wf()
        &&& self.object_attribute_memory.wf()
        &&& self.hram@.len() == 127
    }

    pub fn new(cartridge: Cartridge) -> (result: MemMap)
        requires
            cartridge.wf(),
        ensures
            result.wf(),
            result@.rom == cartridge.data@,
            result@.vram == Seq::new(0x2000, |i: int| 0u8),
            result@.wram == Seq::new(0x2000, |i: int| 0u8),
            result@.oam == Seq::new(160, |i: int| 0u8),
            result@.io.data == IORegisters::spec_default_data(),
            result@.io.if_register == 0xe1,
            result@.io.timers == (crate::timers::Timers {
                sys: 0xab00,
                tima: 0x00,
                tma: 0x00,
                tac: 0xf8,
            }),
            result@.hram == Seq::new(127, |i: int| 0u8),
            result@.ie == 0,
    {
        MemMap {
            cartridge,
            video_ram: zero_vec(0x2000),
            working_ram: zero_vec(0x2000),
            io_registers: IORegisters::new(),
            object_attribute_memory: OAM::new(),
            hram: zero_vec(127),
            ie_register: IERegister::new(),
        }
    }

    pub fn read_byte(&self, address: u16) -> (result: u8)
        requires
            self.wf(),
        ensures
            result == self@.spec_read_byte(address),
    {
        if address < 0x8000 {
            self.cartridge.read_byte(address)
        } else if address < 0xa000 {
            self.video_ram[(address - 0x8000) as usize]
        } else if address < 0xc000 {
            0xff
        } else if address < 0xe000 {
            self.working_ram[(address - 0xc000) as usize]
        } else if address < 0xfe00 {
            self.working_ram[(address - 0xe000) as usize]
        } else if address < 0xfea0 {
            self.object_attribute_memory.read_byte(address)
        } else if address < 0xff00 {
            0xff
        } else if address < 0xff80 {
            self.io_registers.read_byte(address)
        } else if address < 0xffff {
            self.hram[(address - 0xff80) as usize]
        } else {
            self.ie_register.read_byte()
        }
    }

    pub fn write_byte(&mut self, address: u16, value: u8)
        requires
            old(self).wf(),
        ensures
            final(self).wf(),
            final(self)@ == old(self)@.spec_write_byte(address, value),
            final(self).cartridge == old(self).cartridge,
    {
        if address < 0x8000 {
            // ROM-only mapper: writes to the ROM region are ignored.
        } else if address < 0xa000 {
            self.video_ram[(address - 0x8000) as usize] = value;
        } else if address < 0xc000 {
            // No external RAM on a ROM-only cartridge.
        } else if address < 0xe000 {
            self.working_ram[(address - 0xc000) as usize] = value;
        } else if address < 0xfe00 {
            self.working_ram[(address - 0xe000) as usize] = value;
        } else if address < 0xfea0 {
            self.object_attribute_memory.write_byte(address, value);
        } else if address < 0xff00 {
            // Unusable range: writes are ignored.
        } else if address < 0xff80 {
            self.io_registers.write_byte(address, value);
        } else if address < 0xffff {
            self.hram[(address - 0xff80) as usize] = value;
        } else {
            self.ie_register.write_byte(value);
        }
    }

    /// Little-endian word read, low byte at `address`.
    pub fn read_word(&self, address: u16) -> (result: u16)
        requires
            self.wf(),
            address < 0xffff,
        ensures
            result == self@.spec_read_word(address),
    {
        let lo = self.read_byte(address);
        let hi = self.read_byte(address + 1);
        (lo as u16) + (hi as u16) * 256
    }

    /// Little-endian word write, carried out as two byte writes so each
    /// half obeys its region's rules.
    pub fn write_word(&mut self, address: u16, value: u16)
        requires
            old(self).wf(),
            address < 0xffff,
        ensures
            final(self).wf(),
            final(self)@ == old(self)@.spec_write_word(address, value),
            final(self).cartridge == old(self).cartridge,
    {
        self.write_byte(address, (value % 256) as u8);
        self.write_byte(address + 1, (value / 256) as u8);
    }
}

/// 16-bit address arithmetic, wrapping as the address bus does.
pub open spec fn spec_wrap_add16(x: u16, y: u16) -> u16 {
    ((x + y) % 0x10000) as u16
}

pub open spec fn spec_wrap_sub16(x: u16, y: u16) -> u16 {
    ((x + 0x10000 - y) % 0x10000) as u16
}

pub fn wrap_add16(x: u16, y: u16) -> (result: u16)
    ensures
        result == spec_wrap_add16(x, y),
{
    (((x as u32) + (y as u32)) % 0x10000) as u16
}

pub fn wrap_sub16(x: u16, y: u16) -> (result: u16)
    ensures
        result == spec_wrap_sub16(x, y),
{
    (((x as u32) + 0x10000 - (y as u32)) % 0x10000) as u16
}

} // verus!
