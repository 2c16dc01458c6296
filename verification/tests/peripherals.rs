use myboy::cartridge::{Cartridge, CartridgeType, GBCSupport};
use myboy::cartridge_data::CartridgeData;
use myboy::device::Device;
use myboy::instruction::InstructionType;
use myboy::io_registers::IORegisters;
use myboy::mem_map::MemMap;
use myboy::ppu::{BGMode, PPU};
use myboy::timers::Timers;

fn blank_cartridge() -> Cartridge {
    Cartridge::new(vec![0u8; 0x8000])
}

#[test]
fn timer_overflow_reloads_tma_and_requests_interrupt() {
    let mut io = IORegisters::new();
    io.write_byte(0xff04, 0x00);
    io.write_byte(0xff07, 0x05);
    io.write_byte(0xff05, 0xff);
    io.write_byte(0xff06, 0x42);
    io.set_if_register(0x00);
    for _ in 0..16 {
        io.update_timers();
    }
    assert_eq!(io.read_byte(0xff05), 0x42);
    assert!(io.if_register.is_timer());
}

#[test]
fn div_reads_high_byte_of_sys() {
    let timers = Timers::new();
    assert_eq!(timers.get_div_byte(), 0xab);
    let mut counted = Timers::new();
    counted.write_byte(0xff04, 0x12);
    assert_eq!(counted.get_div_byte(), 0x00);
    for _ in 0..0x300 {
        counted.tick();
    }
    assert_eq!(counted.get_div_byte(), 0x03);
}

#[test]
fn div_write_resets_next_read_to_zero() {
    let mut timers = Timers::new();
    assert_ne!(timers.get_div_byte(), 0);
    timers.write_byte(0xff04, 0xc7);
    assert_eq!(timers.get_div_byte(), 0);
}

#[test]
fn tac_write_keeps_upper_bits() {
    let mut timers = Timers::new();
    assert_eq!(timers.tac, 0xf8);
    timers.write_byte(0xff07, 0x05);
    assert_eq!(timers.tac, 0xfd);
}

#[test]
fn ly_is_read_only_through_the_io_block() {
    let mut mem = MemMap::new(blank_cartridge());
    let before = mem.read_byte(0xff44);
    mem.write_byte(0xff44, 0x33);
    assert_eq!(mem.read_byte(0xff44), before);
}

#[test]
fn echo_ram_mirrors_wram() {
    let mut mem = MemMap::new(blank_cartridge());
    mem.write_byte(0xc123, 0x55);
    assert_eq!(mem.read_byte(0xe123), 0x55);
    mem.write_byte(0xe200, 0x66);
    assert_eq!(mem.read_byte(0xc200), 0x66);
}

#[test]
fn unusable_range_reads_ff_and_ignores_writes() {
    let mut mem = MemMap::new(blank_cartridge());
    assert_eq!(mem.read_byte(0xfea0), 0xff);
    mem.write_byte(0xfea0, 0x12);
    assert_eq!(mem.read_byte(0xfea0), 0xff);
}

#[test]
fn rom_writes_are_ignored_on_rom_only_cartridges() {
    let mut mem = MemMap::new(blank_cartridge());
    let before = mem.read_byte(0x0100);
    mem.write_byte(0x0100, 0x99);
    assert_eq!(mem.read_byte(0x0100), before);
}

#[test]
fn word_access_is_little_endian() {
    let mut mem = MemMap::new(blank_cartridge());
    mem.write_word(0xc000, 0x1234);
    assert_eq!(mem.read_byte(0xc000), 0x34);
    assert_eq!(mem.read_byte(0xc001), 0x12);
    assert_eq!(mem.read_word(0xc000), 0x1234);
}

#[test]
fn post_boot_io_image() {
    let mem = MemMap::new(blank_cartridge());
    assert_eq!(mem.read_byte(0xff00), 0xcf);
    assert_eq!(mem.read_byte(0xff02), 0x7e);
    assert_eq!(mem.read_byte(0xff07), 0xf8);
    assert_eq!(mem.read_byte(0xff0f), 0xe1);
    assert_eq!(mem.read_byte(0xff40), 0x91);
    assert_eq!(mem.read_byte(0xff44), 0x90);
    assert_eq!(mem.read_byte(0xff47), 0xfc);
    assert_eq!(mem.read_byte(0xffff), 0x00);
}

#[test]
fn vblank_interrupt_raised_exactly_once_per_frame_entry() {
    let mut mem = MemMap::new(blank_cartridge());
    let mut ppu = PPU::new();
    mem.io_registers.set_lcd_ly(143);
    mem.io_registers.set_if_register(0x00);
    ppu.last_render_mode = myboy::ppu::RenderMode::Mode0;
    let mut screen = vec![0u8; 92160];
    // One whole line of 456 dots brings LY to 144.
    for _ in 0..456 {
        ppu.cycle(&mut mem, &mut screen);
    }
    assert_eq!(mem.io_registers.get_lcd_ly(), 144);
    // The first dot inside line 144 raises the V-blank interrupt.
    ppu.cycle(&mut mem, &mut screen);
    assert!(mem.io_registers.if_register.is_vblank());
    // It is raised exactly once: clearing it shows no further request.
    mem.io_registers.set_if_register(0x00);
    for _ in 0..100 {
        ppu.cycle(&mut mem, &mut screen);
    }
    assert!(!mem.io_registers.if_register.is_vblank());
}

#[test]
fn ppu_counters_stay_in_range_for_a_frame() {
    let mut mem = MemMap::new(blank_cartridge());
    let mut ppu = PPU::new();
    mem.io_registers.set_lcd_ly(0);
    let mut screen = vec![0u8; 92160];
    for _ in 0..(456 * 154) {
        ppu.cycle(&mut mem, &mut screen);
        assert!(ppu.current_line_cycle <= 455);
        assert!(mem.io_registers.get_lcd_ly() <= 153);
    }
    assert_eq!(mem.io_registers.get_lcd_ly(), 0);
}

#[test]
fn background_fetch_renders_through_the_fifo() {
    let mut mem = MemMap::new(blank_cartridge());
    let mut ppu = PPU::new();
    // Tile 0 row 0: low byte all ones, high byte zero: eight pixels of
    // colour 1.
    mem.write_byte(0x8000, 0xff);
    mem.write_byte(0x8001, 0x00);
    let mut screen = vec![0u8; 92160];
    ppu.push_bgwin_pixel(&mem, 0, BGMode::Background);
    ppu.render_pixel(0, &mut screen);
    // Colour 1 maps to the 0xAB grey.
    assert_eq!(&screen[0..4], &[0xab, 0xab, 0xab, 0xff]);
    assert_eq!(ppu.current_x_pos, 1);
    // A refill is refused while the FIFO still holds pixels.
    mem.write_byte(0x8000, 0x00);
    ppu.push_bgwin_pixel(&mem, 0, BGMode::Background);
    ppu.render_pixel(0, &mut screen);
    assert_eq!(&screen[4..8], &[0xab, 0xab, 0xab, 0xff]);
}

#[test]
fn pixel_row_decoding_is_msb_first() {
    // low = 0x55, high = 0x33: pixel columns mix the two planes.
    let row = PPU::bpp_to_pixelrow(0x3355);
    assert_eq!(row, [0, 1, 2, 3, 0, 1, 2, 3]);
    assert_eq!(PPU::bpp_to_rgba(0), (0xff, 0xff, 0xff, 0xff));
    assert_eq!(PPU::bpp_to_rgba(3), (0x00, 0x00, 0x00, 0xff));
}

#[test]
fn device_tick_emits_serial_bytes() {
    let mut device = Device::new(blank_cartridge());
    device.mem_map.write_byte(0xff01, b'P');
    device.mem_map.write_byte(0xff02, 0x81);
    device.tick().unwrap();
    assert_eq!(device.serial_buffer, vec![b'P']);
    assert_eq!(device.mem_map.read_byte(0xff02), 0x00);
    device.tick().unwrap();
    assert_eq!(device.serial_buffer.len(), 1);
}

#[test]
fn device_latches_fatal_decode_errors() {
    // 0xD3 is an undefined opcode.
    let mut data = vec![0u8; 0x8000];
    data[0x100] = 0xd3;
    let mut device = Device::new(Cartridge::new(data));
    let error = device.tick().unwrap_err();
    assert_eq!(error.address, 0x0100);
    assert_eq!(error.opcode, 0xd3);
    // Later ticks are no-ops returning the latched error.
    let again = device.tick().unwrap_err();
    assert_eq!(again, error);
}

#[test]
fn device_runs_nop_rom_and_exposes_framebuffer() {
    let mut device = Device::new(blank_cartridge());
    for _ in 0..64 {
        device.tick().unwrap();
    }
    assert_eq!(device.framebuffer().len(), 92160);
    let mut copy = vec![0u8; 92160];
    device.draw_screen(&mut copy);
    assert_eq!(&copy[..], &device.framebuffer()[..]);
    device.toggle_breakpoint(0x1234);
    assert_eq!(device.breakpoint, Some(0x1234));
    device.toggle_breakpoint(0x1234);
    assert_eq!(device.breakpoint, None);
    device.set_breakpoint(0x4000);
    assert_eq!(device.breakpoint, Some(0x4000));
}

#[test]
fn cartridge_header_fields() {
    let mut data = vec![0u8; 0x8000];
    let title = b"TESTTITLE";
    for (k, &byte) in title.iter().enumerate() {
        data[0x134 + k] = byte;
    }
    data[0x143] = 0x80;
    data[0x146] = 0x03;
    data[0x147] = 0x00;
    data[0x148] = 0x02;
    // Header checksum over 0134..014C.
    let mut sum = 0u8;
    for address in 0x134..0x14d {
        sum = sum.wrapping_sub(data[address]).wrapping_sub(1);
    }
    data[0x14d] = sum;
    let cartridge = Cartridge::new(data);
    assert_eq!(cartridge.get_title(), b"TESTTITLE".to_vec());
    assert_eq!(cartridge.get_gbc_support(), GBCSupport::Enhanced);
    assert_eq!(cartridge.sgb_support_code(), 0x03);
    assert_eq!(cartridge.get_cartridge_type(), Some(CartridgeType::RomOnly));
    assert_eq!(cartridge.get_rom_bank_count(), 4);
    assert_eq!(cartridge.get_rom_size(), 64);
    assert!(cartridge.has_valid_checksum());
}

#[test]
fn cartridge_type_codes_decode() {
    assert_eq!(CartridgeType::from_u8(&0x01), Some(CartridgeType::Mbc1));
    assert_eq!(CartridgeType::from_u8(&0x13), Some(CartridgeType::Mbc3RamBattery));
    assert_eq!(CartridgeType::from_u8(&0xff), Some(CartridgeType::HuC1RamBattery));
    assert_eq!(CartridgeType::from_u8(&0x04), None);
}

#[test]
fn cartridge_data_decodes_every_offset() {
    let mut data = vec![0u8; 0x8000];
    data[0] = 0x3e;
    data[2] = 0xd3;
    let cartridge = Cartridge::new(data);
    let decoded = CartridgeData::from_cartridge(&cartridge);
    assert_eq!(decoded.instructions.len(), 0x7fff);
    assert_eq!(
        decoded.instructions[0].as_ref().unwrap().instruction_type,
        InstructionType::LoadByte
    );
    let error = decoded.instructions[2].as_ref().unwrap_err();
    assert_eq!(error.address, 2);
    assert_eq!(error.opcode, 0xd3);
}

#[test]
fn cartridge_reads_logo_and_manufacturer() {
    let mut data = vec![0u8; 0x8000];
    for k in 0..48 {
        data[0x104 + k] = k as u8;
    }
    data[0x13f] = b'A';
    data[0x140] = b'B';
    data[0x141] = b'C';
    data[0x142] = b'D';
    let cartridge = Cartridge::new(data);
    let logo = cartridge.get_logo();
    assert_eq!(logo.len(), 48);
    assert_eq!(logo[47], 47);
    assert_eq!(cartridge.manufacturer_code(), b"ABCD".to_vec());
    assert_eq!(cartridge.read_bytes(0x13f, 2), vec![b'A', b'B']);
    assert_eq!(cartridge.size(), 0x8000);
}
