//! Object Attribute Memory: 160 bytes at FE00-FE9F holding 40 sprite
//! entries of four bytes each.

use vstd::prelude::*;

verus! {

/// One sprite entry: screen position, tile index and attribute flags.
#[derive(Clone, Copy, Debug, PartialEq, Eq, Structural)]
pub struct OAMEntry {
    pub x: u8,
    pub y: u8,
    pub tile_index: u8,
    pub flags: u8,
}

impl OAMEntry {
    pub fn from_bytes(bytes: &[u8; 4]) -> (result: OAMEntry)
        ensures
            result.x == bytes@[0],
            result.y == bytes@[1],
            result.tile_index == bytes@[2],
            result.flags == bytes@[3],
    {
        OAMEntry { x: bytes[0], y: bytes[1], tile_index: bytes[2], flags: bytes[3] }
    }

    /// OAM flag bit 7: the background wins over this sprite except where
    /// the background pixel is colour 0.
    pub fn bg_priority(&self) -> (result: bool)
        ensures
            result == (self.flags & 0x80 != 0),
    {
        self.flags & 0x80 != 0
    }

    pub fn y_flip(&self) -> (result: bool)
        ensures
            result == (self.flags & 0x40 != 0),
    {
        self.flags & 0x40 != 0
    }

    pub fn x_flip(&self) -> (result: bool)
        ensures
            result == (self.flags & 0x20 != 0),
    {
        self.flags & 0x20 != 0
    }

    pub fn palette(&self) -> (result: bool)
        ensures
            result == (self.flags & 0x10 != 0),
    {
        self.flags & 0x10 != 0
    }
}

pub struct OAM {
    pub data: Vec<u8>,
}

impl OAM {
    pub open spec fn wf(self) -> bool {
        self.data@.len() == 160
    }

    /// The sprite entry starting at byte 4 * index.
    pub open spec fn spec_sprite(self, index: int) -> OAMEntry {
        OAMEntry {
            x: self.data@[4 * index],
            y: self.data@[4 * index + 1],
            tile_index: self.data@[4 * index + 2],
            flags: self.data@[4 * index + 3],
        }
    }

    pub fn new() -> (result: OAM)
        ensures
            result.wf(),
            result.data@ == Seq::new(160, |i: int| 0u8),
    {
        let mut data: Vec<u8> = Vec::new();
        let mut i: usize = 0;
        while i < 160
            invariant
                i <= 160,
                data@.len() == i,
                forall|j: int| 0 <= j < i ==> data@[j] == 0u8,
            decreases 160 - i,
        {
            data.push(0);
            i = i + 1;
        }
        proof {
            assert(data@ =~= Seq::new(160, |i: int| 0u8));
        }
        OAM { data }
    }

    pub fn get_sprite(&self, index: usize) -> (result: OAMEntry)
        requires
            self.wf(),
            index < 40,
        ensures
            result == self.spec_sprite(index as int),
    {
        OAMEntry {
            x: self.data[4 * index],
            y: self.data[4 * index + 1],
            tile_index: self.data[4 * index + 2],
            flags: self.data[4 * index + 3],
        }
    }

    pub fn read_byte(&self, address: u16) -> (result: u8)
        requires
            self.wf(),
            0xfe00 <= address <= 0xfe9f,
        ensures
            result == self.data@[address - 0xfe00],
    {
        self.data[(address - 0xfe00) as usize]
    }

    pub fn write_byte(&mut self, address: u16, value: u8)
        requires
            old(self).wf(),
            0xfe00 <= address <= 0xfe9f,
        ensures
            final(self).wf(),
            final(self).data@ == old(self).data@.update(address - 0xfe00, value),
    {
        self.data[(address - 0xfe00) as usize] = value;
    }

    /// Little-endian 16-bit read.
    pub fn read_word(&self, address: u16) -> (result: u16)
        requires
            self.wf(),
            0xfe00 <= address <= 0xfe9e,
        ensures
            result == self.data@[address - 0xfe00] + self.data@[address - 0xfe00 + 1] * 256,
    {
        let lo = self.data[(address - 0xfe00) as usize];
        let hi = self.data[(address - 0xfe00) as usize + 1];
        (lo as u16) + (hi as u16) * 256
    }

    /// Little-endian 16-bit write.
    pub fn write_word(&mut self, address: u16, value: u16)
        requires
            old(self).wf(),
            0xfe00 <= address <= 0xfe9e,
        ensures
            final(self).wf(),
            final(self).data@ == old(self).data@.update(address - 0xfe00, (value % 256) as u8)
                .update(address - 0xfe00 + 1, (value / 256) as u8),
    {
        self.data[(address - 0xfe00) as usize] = (value % 256) as u8;
        self.data[(address - 0xfe00) as usize + 1] = (value / 256) as u8;
    }
}

} // verus!
