//! The pixel-pipeline state machine.
//!
//! A scanline is 456 dots, a frame 154 lines. During the first 80 dots
//! of a visible line the OAM is scanned two dots per entry (mode 2); the
//! pixel-transfer phase (mode 3) walks X from 0 to 159, filling the
//! BG/WIN FIFO from the tile maps and the OBJ FIFO from the sprite
//! buffer and popping one merged pixel per dot into the framebuffer; the
//! rest of the line is H-blank (mode 0). Lines 144..153 are V-blank
//! (mode 1); entering line 144 raises the V-blank interrupt exactly
//! once. `spec_ppu_cycle` is the canonical account of one dot.

use vstd::prelude::*;

use crate::fifo::{fifo_pixels, PixelFifo};
use crate::io_registers::{IORegImage, IORegisters};
use crate::lcdc::LCDCRegister;
use crate::mem_map::{MemImage, MemMap};
use crate::oam::{OAM, OAMEntry};

verus! {

#[derive(Clone, Copy, Debug, PartialEq, Eq, Structural)]
pub enum RenderMode {
    /// H-blank.
    Mode0,
    /// V-blank.
    Mode1,
    /// OAM scan.
    Mode2,
    /// Pixel transfer.
    Mode3,
}

/// Which tile map the background fetcher reads. Window fetching is not
/// implemented: the window arm leaves the FIFO untouched.
#[derive(Clone, Copy, Debug, PartialEq, Eq, Structural)]
pub enum BGMode {
    Background,
    Window,
}

/// The mathematical image of the renderer state.
pub ghost struct PPUImage {
    pub last_render_mode: RenderMode,
    pub current_line_cycle: u16,
    pub current_x_pos: u8,
    pub current_window_line: u8,
    pub sprites: Seq<OAMEntry>,
    pub obj: Seq<u8>,
    pub bgwin: Seq<u8>,
}

pub struct PPU {
    pub last_render_mode: RenderMode,
    pub current_line_cycle: u16,
    pub current_x_pos: u8,
    pub current_window_line: u8,
    pub sprite_buffer: Vec<OAMEntry>,
    pub obj_fifo: PixelFifo,
    pub bgwin_fifo: PixelFifo,
}

impl View for PPU {
    type V = PPUImage;

    open spec fn view(&self) -> PPUImage {
        PPUImage {
            last_render_mode: self.last_render_mode,
            current_line_cycle: self.current_line_cycle,
            current_x_pos: self.current_x_pos,
            current_window_line: self.current_window_line,
            sprites: self.sprite_buffer@,
            obj: fifo_pixels(self.obj_fifo),
            bgwin: fifo_pixels(self.bgwin_fifo),
        }
    }
}

/// One 2-bpp pixel: bit `bit` of the high byte over bit `bit` of the low
/// byte.
pub open spec fn spec_pixel_color(low: u8, high: u8, bit: u8) -> u8 {
    (((high >> bit) & 1) * 2 + ((low >> bit) & 1)) as u8
}

/// The eight pixels of one tile row, leftmost (bit 7) first.
pub open spec fn spec_pixel_row(data: u16) -> Seq<u8> {
    let low = (data % 256) as u8;
    let high = (data / 256) as u8;
    seq![
        spec_pixel_color(low, high, 7),
        spec_pixel_color(low, high, 6),
        spec_pixel_color(low, high, 5),
        spec_pixel_color(low, high, 4),
        spec_pixel_color(low, high, 3),
        spec_pixel_color(low, high, 2),
        spec_pixel_color(low, high, 1),
        spec_pixel_color(low, high, 0),
    ]
}

/// The fixed grayscale palette.
pub open spec fn spec_rgba(color: u8) -> (u8, u8, u8, u8) {
    if color == 0 {
        (0xffu8, 0xffu8, 0xffu8, 0xffu8)
    } else if color == 1 {
        (0xabu8, 0xabu8, 0xabu8, 0xffu8)
    } else if color == 2 {
        (0x60u8, 0x60u8, 0x60u8, 0xffu8)
    } else {
        (0x00u8, 0x00u8, 0x00u8, 0xffu8)
    }
}

/// Sprite height in pixels per LCDC bit 2.
pub open spec fn spec_sprite_height(lcdc: u8) -> u8 {
    if lcdc & 0x04 != 0 {
        16u8
    } else {
        8u8
    }
}

/// A sprite is visible on `line` iff its X is nonzero and `line + 16`
/// falls inside [y, y + height).
pub open spec fn spec_sprite_visible(entry: OAMEntry, line: u8, height: u8) -> bool {
    &&& entry.x != 0
    &&& line + 16 >= entry.y
    &&& line + 16 < entry.y + height
}

/// The first sprite in the buffer whose X has come within reach of the
/// current X position.
pub open spec fn spec_first_ready_sprite(sprites: Seq<OAMEntry>, x: u8) -> Option<OAMEntry>
    decreases sprites.len(),
{
    if sprites.len() == 0 {
        None
    } else if sprites[0].x <= x + 8 {
        Some(sprites[0])
    } else {
        spec_first_ready_sprite(sprites.drop_first(), x)
    }
}

/// The two tile-data bytes for the background pixel row under (x, line),
/// or nothing while the background is disabled.
pub open spec fn spec_bg_tile_data(mem: MemImage, x: u8, line: u8) -> Option<u16> {
    let lcdc = mem.io.data[0x40];
    if lcdc & 0x01 == 0 {
        None
    } else {
        let tile_map: u16 = if lcdc & 0x08 == 0 {
            0x9800u16
        } else {
            0x9c00u16
        };
        let scy = mem.io.data[0x42];
        let scx = mem.io.data[0x43];
        let line_scy = (((line + scy) % 256) as u8) as u16;
        let tile_index = ((x / 8) + ((scx / 8) & 0x1f)) as u16 + 32 * (line_scy / 8);
        let tile_number = mem.spec_read_byte((tile_map + tile_index) as u16);
        let tile_data_addr: u16 = if lcdc & 0x10 == 0 {
            if tile_number < 128 {
                (0x9000 + tile_number * 16) as u16
            } else {
                (0x8800 + (tile_number - 128) * 16) as u16
            }
        } else {
            (0x8000 + tile_number * 16) as u16
        };
        Some(mem.spec_read_word((tile_data_addr + 2 * (line_scy % 8)) as u16))
    }
}

/// The two tile-data bytes for a sprite's row on `line`.
pub open spec fn spec_sprite_tile_data(mem: MemImage, entry: OAMEntry, line: u8) -> u16 {
    let height = spec_sprite_height(mem.io.data[0x40]);
    mem.spec_read_word((0x8000 + entry.tile_index * 16 + 2 * ((line % height) as u16)) as u16)
}

/// The sprite-fetch step of one mode-3 dot: with sprites enabled and the
/// OBJ FIFO drained, load the row of the first sprite whose X is in
/// reach.
pub open spec fn spec_push_sprite(ppu: PPUImage, mem: MemImage, line: u8) -> PPUImage {
    if mem.io.data[0x40] & 0x02 == 0 {
        ppu
    } else if ppu.obj.len() != 0 {
        ppu
    } else {
        match spec_first_ready_sprite(ppu.sprites, ppu.current_x_pos) {
            None => ppu,
            Some(entry) => PPUImage {
                obj: spec_pixel_row(spec_sprite_tile_data(mem, entry, line)),
                ..ppu
            },
        }
    }
}

/// The background-fetch step of one mode-3 dot: an empty BG/WIN FIFO is
/// refilled with the tile row under the current position.
pub open spec fn spec_push_bgwin(ppu: PPUImage, mem: MemImage, line: u8, mode: BGMode)
    -> PPUImage {
    if ppu.bgwin.len() != 0 {
        ppu
    } else {
        match mode {
            BGMode::Window => ppu,
            BGMode::Background => match spec_bg_tile_data(mem, ppu.current_x_pos, line) {
                None => ppu,
                Some(data) => PPUImage { bgwin: spec_pixel_row(data), ..ppu },
            },
        }
    }
}

/// The output step of one mode-3 dot: pop one background pixel, let a
/// nonzero sprite pixel win over it, write the RGBA bytes, and advance X.
pub open spec fn spec_render_pixel(ppu: PPUImage, screen: Seq<u8>, y: u8) -> (PPUImage, Seq<u8>) {
    let stepped_x = (ppu.current_x_pos + 1) as u8;
    if ppu.bgwin.len() == 0 {
        (PPUImage { current_x_pos: stepped_x, ..ppu }, screen)
    } else {
        let bg = ppu.bgwin[0];
        let rest_bg = ppu.bgwin.drop_first();
        let pixel = if ppu.obj.len() > 0 && ppu.obj[0] != 0 {
            ppu.obj[0]
        } else {
            bg
        };
        let rest_obj = if ppu.obj.len() > 0 {
            ppu.obj.drop_first()
        } else {
            ppu.obj
        };
        let rgba = spec_rgba(pixel);
        let index = (y * 160 + ppu.current_x_pos) * 4;
        (
            PPUImage { current_x_pos: stepped_x, bgwin: rest_bg, obj: rest_obj, ..ppu },
            screen.update(index, rgba.0).update(index + 1, rgba.1).update(index + 2, rgba.2)
                .update(index + 3, rgba.3),
        )
    }
}

/// One mode-3 dot: sprite fetch, background fetch, then pixel output.
pub open spec fn spec_mode3(ppu: PPUImage, mem: MemImage, line: u8, screen: Seq<u8>)
    -> (PPUImage, Seq<u8>) {
    let after_sprite = spec_push_sprite(ppu, mem, line);
    let after_bg = spec_push_bgwin(after_sprite, mem, line, BGMode::Background);
    spec_render_pixel(after_bg, screen, line)
}

/// The OAM-scan step: on even dots, with room in the buffer, the entry
/// under the dot counter is kept if it is visible on this line.
pub open spec fn spec_mode2(ppu: PPUImage, oam: Seq<u8>, lcdc: u8, line: u8) -> PPUImage {
    if ppu.sprites.len() >= 10 || ppu.current_line_cycle % 2 == 1 {
        ppu
    } else {
        let index = ppu.current_line_cycle / 2;
        let entry = OAMEntry {
            x: oam[4 * index],
            y: oam[4 * index + 1],
            tile_index: oam[4 * index + 2],
            flags: oam[4 * index + 3],
        };
        if spec_sprite_visible(entry, line, spec_sprite_height(lcdc)) {
            PPUImage { sprites: ppu.sprites.push(entry), ..ppu }
        } else {
            ppu
        }
    }
}

/// The end of every dot: advance the dot counter, and at dot 455 start
/// the next line: X and the counter reset, the sprite buffer empties and
/// LY steps modulo 154.
pub open spec fn spec_line_step(ppu: PPUImage, mem: MemImage) -> (PPUImage, MemImage) {
    if ppu.current_line_cycle == 455 {
        let ly = mem.io.data[0x44];
        (
            PPUImage {
                current_x_pos: 0u8,
                current_line_cycle: 0u16,
                sprites: Seq::empty(),
                ..ppu
            },
            MemImage {
                io: IORegImage {
                    data: mem.io.data.update(0x44, (((ly + 1) % 154) as u8)),
                    ..mem.io
                },
                ..mem
            },
        )
    } else {
        (PPUImage { current_line_cycle: (ppu.current_line_cycle + 1) as u16, ..ppu }, mem)
    }
}

/// One dot of the renderer: V-blank (raising the interrupt on entry),
/// OAM scan, pixel transfer or H-blank, then the line step.
#[verifier::opaque]
pub open spec fn spec_ppu_cycle(ppu: PPUImage, mem: MemImage, screen: Seq<u8>)
    -> (PPUImage, MemImage, Seq<u8>) {
    let line = mem.io.data[0x44];
    if line >= 144 {
        let entering = !(ppu.last_render_mode == RenderMode::Mode1);
        let mem1 = if entering {
            MemImage {
                io: IORegImage { if_register: mem.io.if_register | 0x01, ..mem.io },
                ..mem
            }
        } else {
            mem
        };
        let ppu1 = PPUImage { last_render_mode: RenderMode::Mode1, ..ppu };
        let (ppu2, mem2) = spec_line_step(ppu1, mem1);
        (ppu2, mem2, screen)
    } else if ppu.current_line_cycle < 80 {
        let ppu1 = spec_mode2(
            PPUImage { last_render_mode: RenderMode::Mode2, ..ppu },
            mem.oam,
            mem.io.data[0x40],
            line,
        );
        let (ppu2, mem2) = spec_line_step(ppu1, mem);
        (ppu2, mem2, screen)
    } else if ppu.current_x_pos < 160 {
        let (ppu1, screen1) = spec_mode3(
            PPUImage { last_render_mode: RenderMode::Mode3, ..ppu },
            mem,
            line,
            screen,
        );
        let (ppu2, mem2) = spec_line_step(ppu1, mem);
        (ppu2, mem2, screen1)
    } else {
        let (ppu2, mem2) = spec_line_step(
            PPUImage { last_render_mode: RenderMode::Mode0, ..ppu },
            mem,
        );
        (ppu2, mem2, screen)
    }
}

impl PPU {
    /// Bounds the scheduler keeps: the dot counter stays on the line, X
    /// on the row, and the sprite buffer within its ten slots.
    pub open spec fn wf(self) -> bool {
        &&& self.current_line_cycle <= 455
        &&& self.current_x_pos <= 160
        &&& self.sprite_buffer@.len() <= 10
    }

    pub fn new() -> (result: PPU)
        ensures
            result.wf(),
            result@ == (PPUImage {
                last_render_mode: RenderMode::Mode1,
                current_line_cycle: 0u16,
                current_x_pos: 0u8,
                current_window_line: 0u8,
                sprites: Seq::<OAMEntry>::empty(),
                obj: Seq::<u8>::empty(),
                bgwin: Seq::<u8>::empty(),
            }),
    {
        let result = PPU {
            last_render_mode: RenderMode::Mode1,
            current_line_cycle: 0,
            current_x_pos: 0,
            current_window_line: 0,
            sprite_buffer: Vec::new(),
            obj_fifo: PixelFifo::new(),
            bgwin_fifo: PixelFifo::new(),
        };
        proof {
            assert(result@.sprites =~= Seq::<OAMEntry>::empty());
        }
        result
    }

    /// One pixel of the fixed grayscale palette.
    pub fn bpp_to_rgba(color: u8) -> (result: (u8, u8, u8, u8))
        ensures
            result == spec_rgba(color),
    {
        if color == 0 {
            (0xff, 0xff, 0xff, 0xff)
        } else if color == 1 {
            (0xab, 0xab, 0xab, 0xff)
        } else if color == 2 {
            (0x60, 0x60, 0x60, 0xff)
        } else {
            (0x00, 0x00, 0x00, 0xff)
        }
    }

    /// Decode two tile-data bytes into their eight pixels, leftmost
    /// first.
    pub fn bpp_to_pixelrow(bpp_data: u16) -> (result: [u8; 8])
        ensures
            result@ == spec_pixel_row(bpp_data),
    {
        let low = (bpp_data % 256) as u8;
        let high = (bpp_data / 256) as u8;
        #[verifier::truncate]
        let p7: u8 = ((((high >> 7) & 1) as u16) * 2 + (((low >> 7) & 1) as u16)) as u8;
        #[verifier::truncate]
        let p6: u8 = ((((high >> 6) & 1) as u16) * 2 + (((low >> 6) & 1) as u16)) as u8;
        #[verifier::truncate]
        let p5: u8 = ((((high >> 5) & 1) as u16) * 2 + (((low >> 5) & 1) as u16)) as u8;
        #[verifier::truncate]
        let p4: u8 = ((((high >> 4) & 1) as u16) * 2 + (((low >> 4) & 1) as u16)) as u8;
        #[verifier::truncate]
        let p3: u8 = ((((high >> 3) & 1) as u16) * 2 + (((low >> 3) & 1) as u16)) as u8;
        #[verifier::truncate]
        let p2: u8 = ((((high >> 2) & 1) as u16) * 2 + (((low >> 2) & 1) as u16)) as u8;
        #[verifier::truncate]
        let p1: u8 = ((((high >> 1) & 1) as u16) * 2 + (((low >> 1) & 1) as u16)) as u8;
        #[verifier::truncate]
        let p0: u8 = ((((high >> 0) & 1) as u16) * 2 + (((low >> 0) & 1) as u16)) as u8;
        let result: [u8; 8] = [p7, p6, p5, p4, p3, p2, p1, p0];
        proof {
            assert(result@ =~= spec_pixel_row(bpp_data));
        }
        result
    }
}

impl PPU {
    /// End-of-dot step: advance the dot counter; at dot 455 reset X and
    /// the counter, drop the sprite buffer and step LY modulo 154.
    fn line_step(&mut self, mem_map: &mut MemMap)
        requires
            old(mem_map).wf(),
            old(self).current_line_cycle <= 455,
        ensures
            final(mem_map).wf(),
            final(mem_map).cartridge == old(mem_map).cartridge,
            (final(self)@, final(mem_map)@) == spec_line_step(old(self)@, old(mem_map)@),
    {
        if self.current_line_cycle == 455 {
            self.goto_next_line(&mut mem_map.io_registers);
        } else {
            self.current_line_cycle = self.current_line_cycle + 1;
        }
    }

    fn goto_next_line(&mut self, io_registers: &mut IORegisters)
        requires
            old(self).current_line_cycle == 455,
            old(io_registers).wf(),
        ensures
            final(io_registers).wf(),
            final(io_registers)@ == (IORegImage {
                data: old(io_registers)@.data.update(
                    0x44,
                    (((old(io_registers)@.data[0x44] + 1) % 154) as u8),
                ),
                ..old(io_registers)@
            }),
            final(self)@ == (PPUImage {
                current_x_pos: 0u8,
                current_line_cycle: 0u16,
                sprites: Seq::empty(),
                ..old(self)@
            }),
    {
        self.current_x_pos = 0;
        self.current_line_cycle = 0;
        self.sprite_buffer = Vec::new();
        let ly = io_registers.get_lcd_ly();
        io_registers.set_lcd_ly((((ly as u16) + 1) % 154) as u8);
        proof {
            assert(self.sprite_buffer@ =~= Seq::<OAMEntry>::empty());
        }
    }

    /// One dot of the OAM scan.
    pub fn cycle_mode2(&mut self, oam: &OAM, lcdc: &LCDCRegister, current_line: u8)
        requires
            oam.wf(),
            old(self).current_line_cycle < 80,
        ensures
            final(self)@ == spec_mode2(old(self)@, oam.data@, lcdc.0, current_line),
    {
        if self.sprite_buffer.len() > 9 {
            return ;
        }
        if self.current_line_cycle % 2 == 1 {
            return ;
        }
        let sprite_index = (self.current_line_cycle / 2) as usize;
        let sprite = oam.get_sprite(sprite_index);
        let sprite_height = lcdc.sprite_pixel_size();
        if sprite.x != 0 && (current_line as u16) + 16 >= (sprite.y as u16) && (current_line
            as u16) + 16 < (sprite.y as u16) + (sprite_height as u16) {
            self.sprite_buffer.push(sprite);
        }
    }

    /// The first buffered sprite whose X has come within reach of the
    /// current X position.
    fn first_ready_sprite(&self, x: u8) -> (result: Option<OAMEntry>)
        ensures
            result == spec_first_ready_sprite(self.sprite_buffer@, x),
    {
        let count = self.sprite_buffer.len();
        proof {
            assert(self.sprite_buffer@.subrange(0, count as int) =~= self.sprite_buffer@);
        }
        let mut k: usize = 0;
        while k < count
            invariant
                k <= count,
                count == self.sprite_buffer@.len(),
                spec_first_ready_sprite(
                    self.sprite_buffer@.subrange(k as int, count as int),
                    x,
                ) == spec_first_ready_sprite(self.sprite_buffer@, x),
            decreases count - k,
        {
            let entry = self.sprite_buffer[k];
            let ghost tail = self.sprite_buffer@.subrange(k as int, count as int);
            if (entry.x as u16) <= (x as u16) + 8 {
                proof {
                    assert(tail[0] == entry);
                }
                return Some(entry);
            }
            proof {
                assert(tail.drop_first() =~= self.sprite_buffer@.subrange(
                    k + 1,
                    count as int,
                ));
            }
            k = k + 1;
        }
        proof {
            assert(self.sprite_buffer@.subrange(count as int, count as int).len() == 0);
        }
        None
    }

    /// Refill an empty OBJ FIFO from the first sprite in reach.
    pub fn push_sprite_pixel(&mut self, mem_map: &MemMap, current_line: u8)
        requires
            mem_map.wf(),
        ensures
            final(self)@ == spec_push_sprite(old(self)@, mem_map@, current_line),
    {
        let lcdc = mem_map.io_registers.get_lcdl_register();
        if !lcdc.obj_enabled() {
            return ;
        }
        if self.obj_fifo.len() != 0 {
            return ;
        }
        match self.first_ready_sprite(self.current_x_pos) {
            None => {},
            Some(sprite) => {
                let height = lcdc.sprite_pixel_size();
                let address = 0x8000u16 + (sprite.tile_index as u16) * 16 + 2 * ((current_line
                    % height) as u16);
                let data = mem_map.read_word(address);
                let row = PPU::bpp_to_pixelrow(data);
                let mut k: usize = 0;
                while k < 8
                    invariant
                        k <= 8,
                        row@ == spec_pixel_row(data),
                        fifo_pixels(self.obj_fifo) == row@.subrange(0, k as int),
                        self.last_render_mode == old(self).last_render_mode,
                        self.current_line_cycle == old(self).current_line_cycle,
                        self.current_x_pos == old(self).current_x_pos,
                        self.current_window_line == old(self).current_window_line,
                        self.sprite_buffer@ == old(self).sprite_buffer@,
                        fifo_pixels(self.bgwin_fifo) == fifo_pixels(old(self).bgwin_fifo),
                    decreases 8 - k,
                {
                    self.obj_fifo.push_back(row[k]);
                    proof {
                        assert(row@.subrange(0, k as int).push(row@[k as int]) =~= row@.subrange(
                            0,
                            k + 1,
                        ));
                    }
                    k = k + 1;
                }
                proof {
                    assert(row@.subrange(0, 8) =~= row@);
                }
            },
        }
    }

    /// Refill an empty BG/WIN FIFO from the tile row under the current
    /// position. Window fetching is not implemented; the window arm
    /// leaves the FIFO untouched.
    pub fn push_bgwin_pixel(&mut self, mem_map: &MemMap, current_line: u8, render_mode: BGMode)
        requires
            mem_map.wf(),
        ensures
            final(self)@ == spec_push_bgwin(old(self)@, mem_map@, current_line, render_mode),
    {
        if self.bgwin_fifo.len() != 0 {
            return ;
        }
        match render_mode {
            BGMode::Window => {},
            BGMode::Background => {
                let lcdc = mem_map.io_registers.get_lcdl_register();
                if !lcdc.bgwin_enabled() {
                    return ;
                }
                let tile_map: u16 = if lcdc.bg_tile_map_bank() == 0 {
                    0x9800
                } else {
                    0x9c00
                };
                let scy = mem_map.io_registers.get_scy();
                let scx = mem_map.io_registers.get_scx();
                let line_scy: u16 = ((current_line as u16) + (scy as u16)) % 256;
                let tile_index: u16 = ((self.current_x_pos / 8) as u16) + ((((scx / 8) & 0x1f))
                    as u16) + 32 * (line_scy / 8);
                let tile_number = mem_map.read_byte(tile_map + tile_index);
                let tile_data_addr: u16 = if lcdc.bgwin_tile_data_area() == 0 {
                    if tile_number < 128 {
                        0x9000 + (tile_number as u16) * 16
                    } else {
                        0x8800 + ((tile_number - 128) as u16) * 16
                    }
                } else {
                    0x8000 + (tile_number as u16) * 16
                };
                let data = mem_map.read_word(tile_data_addr + 2 * (line_scy % 8));
                let row = PPU::bpp_to_pixelrow(data);
                let mut k: usize = 0;
                while k < 8
                    invariant
                        k <= 8,
                        row@ == spec_pixel_row(data),
                        fifo_pixels(self.bgwin_fifo) == row@.subrange(0, k as int),
                        self.last_render_mode == old(self).last_render_mode,
                        self.current_line_cycle == old(self).current_line_cycle,
                        self.current_x_pos == old(self).current_x_pos,
                        self.current_window_line == old(self).current_window_line,
                        self.sprite_buffer@ == old(self).sprite_buffer@,
                        fifo_pixels(self.obj_fifo) == fifo_pixels(old(self).obj_fifo),
                    decreases 8 - k,
                {
                    self.bgwin_fifo.push_back(row[k]);
                    proof {
                        assert(row@.subrange(0, k as int).push(row@[k as int]) =~= row@.subrange(
                            0,
                            k + 1,
                        ));
                    }
                    k = k + 1;
                }
                proof {
                    assert(row@.subrange(0, 8) =~= row@);
                }
            },
        }
    }

    /// Pop one background pixel, let a nonzero sprite pixel win, write
    /// the RGBA bytes of the chosen colour and advance X.
    pub fn render_pixel(&mut self, current_line: u8, screen: &mut Vec<u8>)
        requires
            old(screen)@.len() == 92160,
            current_line < 144,
            old(self).current_x_pos < 160,
        ensures
            final(screen)@.len() == 92160,
            (final(self)@, final(screen)@) == spec_render_pixel(
                old(self)@,
                old(screen)@,
                current_line,
            ),
    {
        let x = self.current_x_pos;
        match self.bgwin_fifo.pop_front() {
            None => {
                self.current_x_pos = x + 1;
            },
            Some(bg_color) => {
                let obj = self.obj_fifo.pop_front();
                let pixel = if let Some(sprite_pixel) = obj {
                    if sprite_pixel != 0 {
                        sprite_pixel
                    } else {
                        bg_color
                    }
                } else {
                    bg_color
                };
                let rgba = PPU::bpp_to_rgba(pixel);
                let index = ((current_line as usize) * 160 + (x as usize)) * 4;
                screen[index] = rgba.0;
                screen[index + 1] = rgba.1;
                screen[index + 2] = rgba.2;
                screen[index + 3] = rgba.3;
                self.current_x_pos = x + 1;
            },
        }
    }

    /// One dot of the pixel-transfer phase.
    fn cycle_mode3(&mut self, mem_map: &MemMap, current_line: u8, screen: &mut Vec<u8>)
        requires
            mem_map.wf(),
            old(screen)@.len() == 92160,
            current_line < 144,
            old(self).current_x_pos < 160,
        ensures
            final(screen)@.len() == 92160,
            (final(self)@, final(screen)@) == spec_mode3(
                old(self)@,
                mem_map@,
                current_line,
                old(screen)@,
            ),
    {
        self.push_sprite_pixel(mem_map, current_line);
        self.push_bgwin_pixel(mem_map, current_line, BGMode::Background);
        self.render_pixel(current_line, screen);
    }

    /// One dot of the renderer.
    pub fn cycle(&mut self, mem_map: &mut MemMap, screen: &mut Vec<u8>)
        requires
            old(self).wf(),
            old(mem_map).wf(),
            old(screen)@.len() == 92160,
        ensures
            final(self).wf(),
            final(mem_map).wf(),
            final(mem_map).cartridge == old(mem_map).cartridge,
            final(screen)@.len() == 92160,
            (final(self)@, final(mem_map)@, final(screen)@) == spec_ppu_cycle(
                old(self)@,
                old(mem_map)@,
                old(screen)@,
            ),
    {
        proof {
            reveal(spec_ppu_cycle);
        }
        let line = mem_map.io_registers.get_lcd_ly();
        if line >= 144 {
            if !matches!(self.last_render_mode, RenderMode::Mode1) {
                mem_map.io_registers.if_register.request_interrupt(
                    crate::interrupts::InterruptType::VBlank,
                );
            }
            self.last_render_mode = RenderMode::Mode1;
            self.line_step(mem_map);
        } else if self.current_line_cycle < 80 {
            self.last_render_mode = RenderMode::Mode2;
            let lcdc = mem_map.io_registers.get_lcdl_register();
            self.cycle_mode2(&mem_map.object_attribute_memory, &lcdc, line);
            self.line_step(mem_map);
        } else if self.current_x_pos < 160 {
            self.last_render_mode = RenderMode::Mode3;
            self.cycle_mode3(mem_map, line, screen);
            self.line_step(mem_map);
        } else {
            self.last_render_mode = RenderMode::Mode0;
            self.line_step(mem_map);
        }
    }
}

} // verus!
