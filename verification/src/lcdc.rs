//! The LCD-control register at FF40, read bit by bit.

use vstd::prelude::*;

verus! {

/// LCDC bits: 7 LCD enable, 6 window tile-map select, 5 window enable,
/// 4 BG/window tile-data area, 3 BG tile-map select, 2 OBJ size,
/// 1 OBJ enable, 0 BG/window enable.
#[derive(Clone, Copy, Debug, PartialEq, Eq, Structural)]
pub struct LCDCRegister(pub u8);

impl LCDCRegister {
    /// The post-boot value of LCDC.
    pub fn new() -> (result: LCDCRegister)
        ensures
            result.0 == 0x91,
    {
        LCDCRegister(0x91)
    }

    pub fn lcd_enabled(&self) -> (result: bool)
        ensures
            result == (self.0 & 0x80 != 0),
    {
        self.0 & 0x80 != 0
    }

    /// 0 selects the tile map at 9800-9BFF, 1 the one at 9C00-9FFF.
    pub fn window_tile_map_bank(&self) -> (result: u8)
        ensures
            result == if self.0 & 0x40 != 0 {
                1u8
            } else {
                0u8
            },
    {
        if self.0 & 0x40 != 0 {
            1
        } else {
            0
        }
    }

    pub fn window_enabled(&self) -> (result: bool)
        ensures
            result == (self.0 & 0x20 != 0),
    {
        self.0 & 0x20 != 0
    }

    /// 1 selects the unsigned tile-data area at 8000, 0 the signed one
    /// based at 8800/9000.
    pub fn bgwin_tile_data_area(&self) -> (result: u8)
        ensures
            result == if self.0 & 0x10 != 0 {
                1u8
            } else {
                0u8
            },
    {
        if self.0 & 0x10 != 0 {
            1
        } else {
            0
        }
    }

    /// 0 selects the tile map at 9800-9BFF, 1 the one at 9C00-9FFF.
    pub fn bg_tile_map_bank(&self) -> (result: u8)
        ensures
            result == if self.0 & 0x08 != 0 {
                1u8
            } else {
                0u8
            },
    {
        if self.0 & 0x08 != 0 {
            1
        } else {
            0
        }
    }

    /// 0 means 8x8 sprites, 1 means 8x16.
    pub fn obj_size(&self) -> (result: u8)
        ensures
            result == if self.0 & 0x04 != 0 {
                1u8
            } else {
                0u8
            },
    {
        if self.0 & 0x04 != 0 {
            1
        } else {
            0
        }
    }

    /// Sprite height in pixels: 8, or 16 when LCDC bit 2 is set.
    pub fn sprite_pixel_size(&self) -> (result: u8)
        ensures
            result == if self.0 & 0x04 != 0 {
                16u8
            } else {
                8u8
            },
    {
        if self.0 & 0x04 != 0 {
            16
        } else {
            8
        }
    }

    pub fn obj_enabled(&self) -> (result: bool)
        ensures
            result == (self.0 & 0x02 != 0),
    {
        self.0 & 0x02 != 0
    }

    pub fn bgwin_enabled(&self) -> (result: bool)
        ensures
            result == (self.0 & 0x01 != 0),
    {
        self.0 & 0x01 != 0
    }
}

} // verus!
