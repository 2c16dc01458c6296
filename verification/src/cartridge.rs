//! A read-only cartridge image and its header fields.
//!
//! The core is correct for ROM-only test cartridges: mapper write-side
//! behaviour is out of scope, and the host hands the ROM bytes in whole.

use vstd::prelude::*;

verus! {

#[derive(Clone, Copy, Debug, PartialEq, Eq, Structural)]
pub enum CartridgeType {
    RomOnly,
    Mbc1,
    Mbc1Ram,
    Mbc1RamBattery,
    Mbc2,
    Mbc2Battery,
    RomRam,
    RomRamBattery,
    Mmm01,
    Mmm01Ram,
    Mmm01RamBattery,
    Mbc3TimerBattery,
    Mbc3TimerRamBattery,
    Mbc3,
    Mbc3Ram,
    Mbc3RamBattery,
    Mbc5,
    Mbc5Ram,
    Mbc5RamBattery,
    Mbc5Rumble,
    Mbc5RumbleRam,
    Mbc5RumbleRamBattery,
    Mbc6,
    Mbc7SensorRumbleRamBattery,
    PocketCamera,
    BandaiTama5,
    HuC3,
    HuC1RamBattery,
}

impl CartridgeType {
    /// The mapper named by header byte 0147.
    pub open spec fn spec_from_u8(code: u8) -> Option<CartridgeType> {
        if code == 0x00 {
            Some(CartridgeType::RomOnly)
        } else if code == 0x01 {
            Some(CartridgeType::Mbc1)
        } else if code == 0x02 {
            Some(CartridgeType::Mbc1Ram)
        } else if code == 0x03 {
            Some(CartridgeType::Mbc1RamBattery)
        } else if code == 0x05 {
            Some(CartridgeType::Mbc2)
        } else if code == 0x06 {
            Some(CartridgeType::Mbc2Battery)
        } else if code == 0x08 {
            Some(CartridgeType::RomRam)
        } else if code == 0x09 {
            Some(CartridgeType::RomRamBattery)
        } else if code == 0x0b {
            Some(CartridgeType::Mmm01)
        } else if code == 0x0c {
            Some(CartridgeType::Mmm01Ram)
        } else if code == 0x0d {
            Some(CartridgeType::Mmm01RamBattery)
        } else if code == 0x0f {
            Some(CartridgeType::Mbc3TimerBattery)
        } else if code == 0x10 {
            Some(CartridgeType::Mbc3TimerRamBattery)
        } else if code == 0x11 {
            Some(CartridgeType::Mbc3)
        } else if code == 0x12 {
            Some(CartridgeType::Mbc3Ram)
        } else if code == 0x13 {
            Some(CartridgeType::Mbc3RamBattery)
        } else if code == 0x19 {
            Some(CartridgeType::Mbc5)
        } else if code == 0x1a {
            Some(CartridgeType::Mbc5Ram)
        } else if code == 0x1b {
            Some(CartridgeType::Mbc5RamBattery)
        } else if code == 0x1c {
            Some(CartridgeType::Mbc5Rumble)
        } else if code == 0x1d {
            Some(CartridgeType::Mbc5RumbleRam)
        } else if code == 0x1e {
            Some(CartridgeType::Mbc5RumbleRamBattery)
        } else if code == 0x20 {
            Some(CartridgeType::Mbc6)
        } else if code == 0x22 {
            Some(CartridgeType::Mbc7SensorRumbleRamBattery)
        } else if code == 0xfc {
            Some(CartridgeType::PocketCamera)
        } else if code == 0xfd {
            Some(CartridgeType::BandaiTama5)
        } else if code == 0xfe {
            Some(CartridgeType::HuC3)
        } else if code == 0xff {
            Some(CartridgeType::HuC1RamBattery)
        } else {
            None
        }
    }

    pub fn from_u8(code: &u8) -> (result: Option<CartridgeType>)
        ensures
            result == CartridgeType::spec_from_u8(*code),
    {
        match *code {
            0x00 => Some(CartridgeType::RomOnly),
            0x01 => Some(CartridgeType::Mbc1),
            0x02 => Some(CartridgeType::Mbc1Ram),
            0x03 => Some(CartridgeType::Mbc1RamBattery),
            0x05 => Some(CartridgeType::Mbc2),
            0x06 => Some(CartridgeType::Mbc2Battery),
            0x08 => Some(CartridgeType::RomRam),
            0x09 => Some(CartridgeType::RomRamBattery),
            0x0b => Some(CartridgeType::Mmm01),
            0x0c => Some(CartridgeType::Mmm01Ram),
            0x0d => Some(CartridgeType::Mmm01RamBattery),
            0x0f => Some(CartridgeType::Mbc3TimerBattery),
            0x10 => Some(CartridgeType::Mbc3TimerRamBattery),
            0x11 => Some(CartridgeType::Mbc3),
            0x12 => Some(CartridgeType::Mbc3Ram),
            0x13 => Some(CartridgeType::Mbc3RamBattery),
            0x19 => Some(CartridgeType::Mbc5),
            0x1a => Some(CartridgeType::Mbc5Ram),
            0x1b => Some(CartridgeType::Mbc5RamBattery),
            0x1c => Some(CartridgeType::Mbc5Rumble),
            0x1d => Some(CartridgeType::Mbc5RumbleRam),
            0x1e => Some(CartridgeType::Mbc5RumbleRamBattery),
            0x20 => Some(CartridgeType::Mbc6),
            0x22 => Some(CartridgeType::Mbc7SensorRumbleRamBattery),
            0xfc => Some(CartridgeType::PocketCamera),
            0xfd => Some(CartridgeType::BandaiTama5),
            0xfe => Some(CartridgeType::HuC3),
            0xff => Some(CartridgeType::HuC1RamBattery),
            _ => None,
        }
    }
}

#[derive(Clone, Copy, Debug, PartialEq, Eq, Structural)]
pub enum GBCSupport {
    NotSupported,
    Enhanced,
    Required,
}

pub struct Cartridge {
    pub data: Vec<u8>,
}

impl Cartridge {
    /// A cartridge holds at least the 32 KiB that the memory map's ROM
    /// region covers.
    pub open spec fn wf(self) -> bool {
        self.data@.len() >= 0x8000
    }

    /// Wrap a ROM image the host has already read in.
    pub fn new(data: Vec<u8>) -> (result: Cartridge)
        requires
            data@.len() >= 0x8000,
        ensures
            result.wf(),
            result.data@ == data@,
    {
        Cartridge { data }
    }

    pub fn size(&self) -> (result: usize)
        ensures
            result == self.data@.len(),
    {
        self.data.len()
    }

    pub fn read_byte(&self, address: u16) -> (result: u8)
        requires
            address < self.data@.len(),
        ensures
            result == self.data@[address as int],
    {
        self.data[address as usize]
    }

    /// Little-endian 16-bit read.
    pub fn read_word(&self, address: u16) -> (result: u16)
        requires
            address as int + 1 < self.data@.len(),
            address < 0xffff,
        ensures
            result == self.data@[address as int] + self.data@[address as int + 1] * 256,
    {
        let lo = self.data[address as usize];
        let hi = self.data[address as usize + 1];
        (lo as u16) + (hi as u16) * 256
    }

    pub fn read_bytes(&self, address: u16, length: usize) -> (result: Vec<u8>)
        requires
            address as int + length <= self.data@.len(),
        ensures
            result@ == self.data@.subrange(address as int, address as int + length),
    {
        let mut result: Vec<u8> = Vec::new();
        let n = self.data.len();
        let mut i: usize = 0;
        while i < length
            invariant
                i <= length,
                n == self.data@.len(),
                address as int + length <= n,
                result@.len() == i,
                forall|j: int| 0 <= j < i ==> result@[j] == self.data@[address as int + j],
            decreases length - i,
        {
            result.push(self.data[address as usize + i]);
            i = i + 1;
        }
        proof {
            assert(result@ =~= self.data@.subrange(address as int, address as int + length));
        }
        result
    }

    /// The 48-byte boot logo at 0104-0133.
    pub fn get_logo(&self) -> (result: Vec<u8>)
        requires
            self.wf(),
        ensures
            result@ == self.data@.subrange(0x104, 0x134),
    {
        self.read_bytes(0x104, 48)
    }

    /// The manufacturer code at 013F-0142.
    pub fn manufacturer_code(&self) -> (result: Vec<u8>)
        requires
            self.wf(),
        ensures
            result@ == self.data@.subrange(0x13f, 0x143),
    {
        self.read_bytes(0x13f, 4)
    }

    /// The title bytes at 0134-0141, with trailing zero bytes removed.
    pub open spec fn spec_title_bytes(self) -> Seq<u8> {
        Cartridge::spec_trim_zeros(self.data@.subrange(0x134, 0x142))
    }

    pub open spec fn spec_trim_zeros(s: Seq<u8>) -> Seq<u8>
        decreases s.len(),
    {
        if s.len() > 0 && s[s.len() - 1] == 0 {
            Cartridge::spec_trim_zeros(s.drop_last())
        } else {
            s
        }
    }

    pub fn get_title(&self) -> (result: Vec<u8>)
        requires
            self.wf(),
        ensures
            result@ == self.spec_title_bytes(),
    {
        let mut result = self.read_bytes(0x134, 14);
        proof {
            assert(result@ == self.data@.subrange(0x134, 0x142));
        }
        while result.len() > 0 && result[result.len() - 1] == 0
            invariant
                Cartridge::spec_trim_zeros(result@) == self.spec_title_bytes(),
            decreases result@.len(),
        {
            let ghost before = result@;
            result.pop();
            proof {
                assert(result@ == before.drop_last());
            }
        }
        result
    }

    /// Header byte 0143: 80 marks a game enhanced for the Game Boy Color,
    /// C0 one that requires it.
    pub fn get_gbc_support(&self) -> (result: GBCSupport)
        requires
            self.wf(),
        ensures
            result == if self.data@[0x143] == 0x80 {
                GBCSupport::Enhanced
            } else if self.data@[0x143] == 0xc0 {
                GBCSupport::Required
            } else {
                GBCSupport::NotSupported
            },
    {
        match self.read_byte(0x143) {
            0x80 => GBCSupport::Enhanced,
            0xc0 => GBCSupport::Required,
            _ => GBCSupport::NotSupported,
        }
    }

    pub fn sgb_support_code(&self) -> (result: u8)
        requires
            self.wf(),
        ensures
            result == self.data@[0x146],
    {
        self.read_byte(0x146)
    }

    pub fn get_cartridge_type(&self) -> (result: Option<CartridgeType>)
        requires
            self.wf(),
        ensures
            result == CartridgeType::spec_from_u8(self.data@[0x147]),
    {
        let code = self.read_byte(0x147);
        CartridgeType::from_u8(&code)
    }

    /// Header byte 0148 holds the bank-count exponent: 0 means two banks,
    /// n means two to the n. Headers use values up to 8.
    pub fn get_rom_bank_count(&self) -> (result: u16)
        requires
            self.wf(),
            self.data@[0x148] <= 8,
        ensures
            result == Cartridge::spec_pow2(self.data@[0x148] as int),
            2 <= result <= 256,
    {
        match self.read_byte(0x148) {
            0 => 2,
            1 => 2,
            2 => 4,
            3 => 8,
            4 => 16,
            5 => 32,
            6 => 64,
            7 => 128,
            _ => 256,
        }
    }

    pub open spec fn spec_pow2(n: int) -> u16 {
        if n <= 1 {
            2u16
        } else if n == 2 {
            4u16
        } else if n == 3 {
            8u16
        } else if n == 4 {
            16u16
        } else if n == 5 {
            32u16
        } else if n == 6 {
            64u16
        } else if n == 7 {
            128u16
        } else {
            256u16
        }
    }

    /// The ROM size in KiB: 16 KiB per bank.
    pub fn get_rom_size(&self) -> (result: u16)
        requires
            self.wf(),
            self.data@[0x148] <= 8,
        ensures
            result == Cartridge::spec_pow2(self.data@[0x148] as int) * 16,
    {
        self.get_rom_bank_count() * 16
    }

    /// The running header checksum over bytes 0134..0134+n: each byte and
    /// an extra one subtracted, wrapping at 8 bits.
    pub open spec fn spec_checksum(data: Seq<u8>, n: int) -> u8
        decreases n,
    {
        if n <= 0 {
            0u8
        } else {
            ((Cartridge::spec_checksum(data, n - 1) + 511 - data[0x134 + n - 1]) % 256) as u8
        }
    }

    /// Whether the header checksum over 0134-014C matches the byte at
    /// 014D.
    pub fn has_valid_checksum(&self) -> (result: bool)
        requires
            self.wf(),
        ensures
            result == (Cartridge::spec_checksum(self.data@, 0x19) == self.data@[0x14d]),
    {
        let mut sum: u8 = 0;
        let mut i: usize = 0;
        while i < 0x19
            invariant
                i <= 0x19,
                self.wf(),
                sum == Cartridge::spec_checksum(self.data@, i as int),
            decreases 0x19 - i,
        {
            let b = self.data[0x134 + i];
            sum = (((sum as u16) + 511 - (b as u16)) % 256) as u8;
            i = i + 1;
        }
        sum == self.read_byte(0x14d)
    }
}

} // verus!
