use nesir::arch::mappers::RomFile;
use nesir::arch::ppu::CtrlReg;
use nesir::arch::ppu::MaskReg;
use nesir::arch::ppu::PixelPos;
use nesir::arch::ppu::Ppu;
use nesir::arch::ppu::VramAddr;
use nesir::arch::ppu::UNLOCK_AFTER;
use nesir::arch::Nes;

/// A machine whose control ports are unlocked.
fn unlocked() -> Nes {
    let mut nes = Nes::new();
    nes.ppu.ctrl_unlocked = true;
    nes
}

/// An image of mapping 0 with one 16 KiB unit of PRG and one 8 KiB unit of
/// CHR, with the given bits in header byte 6.
fn image(flags6: u8) -> Vec<u8> {
    let mut data = vec![0u8; 16 + 0x4000 + 0x2000];
    data[0] = b'N';
    data[1] = b'E';
    data[2] = b'S';
    data[3] = 0x1A;
    data[4] = 1;
    data[5] = 1;
    data[6] = flags6;
    data
}

fn set_address(nes: &mut Nes, addr: u16) {
    nes.write(0x2006, (addr >> 8) as u8);
    nes.write(0x2006, addr as u8);
}

#[test]
fn beam_moves_dot_by_dot() {
    let mut pos = PixelPos { cycle: 0, scanline: 0, is_odd: false };
    pos.inc(true);
    assert_eq!(pos, PixelPos { cycle: 1, scanline: 0, is_odd: false });
    let mut pos = PixelPos { cycle: 340, scanline: 0, is_odd: false };
    pos.inc(true);
    assert_eq!(pos, PixelPos { cycle: 0, scanline: 1, is_odd: false });
    let mut pos = PixelPos { cycle: 340, scanline: 261, is_odd: false };
    pos.inc(true);
    assert_eq!(pos, PixelPos { cycle: 1, scanline: 0, is_odd: true });
    let mut pos = PixelPos { cycle: 340, scanline: 261, is_odd: false };
    pos.inc(false);
    assert_eq!(pos, PixelPos { cycle: 0, scanline: 0, is_odd: true });
    let mut pos = PixelPos { cycle: 340, scanline: 261, is_odd: true };
    pos.inc(true);
    assert_eq!(pos, PixelPos { cycle: 0, scanline: 0, is_odd: false });
    assert_eq!(PixelPos::default(), PixelPos { cycle: 0, scanline: 261, is_odd: true });
}

fn dots_of_frame(nes: &mut Nes) -> u32 {
    let odd = nes.ppu.pos.is_odd;
    let mut dots = 0;
    while nes.ppu.pos.is_odd == odd {
        Ppu::cycle(nes);
        dots += 1;
    }
    dots
}

#[test]
fn odd_frames_are_one_dot_shorter_with_background_on() {
    let mut nes = unlocked();
    nes.write(0x2001, 0x08);
    nes.ppu.pos = PixelPos { cycle: 0, scanline: 0, is_odd: false };
    assert_eq!(dots_of_frame(&mut nes), 89_342);
    assert_eq!(nes.ppu.pos, PixelPos { cycle: 1, scanline: 0, is_odd: true });
    assert_eq!(dots_of_frame(&mut nes), 89_341);
    assert_eq!(nes.ppu.pos, PixelPos { cycle: 0, scanline: 0, is_odd: false });
}

#[test]
fn frames_are_equal_with_background_off() {
    let mut nes = unlocked();
    nes.ppu.pos = PixelPos { cycle: 0, scanline: 0, is_odd: false };
    assert_eq!(dots_of_frame(&mut nes), 89_342);
    assert_eq!(dots_of_frame(&mut nes), 89_342);
}

#[test]
fn scroll_register_fields() {
    let mut v = VramAddr(0);
    v.set_coarse_x(0x1F);
    v.set_coarse_y(0x15);
    v.set_fine_y(5);
    assert_eq!(v.0, 0x5000 | (0x15 << 5) | 0x1F);
    assert_eq!((v.coarse_x(), v.coarse_y(), v.fine_y()), (0x1F, 0x15, 5));
    v.set_coarse_x(0xE3);
    assert_eq!(v.coarse_x(), 3);
}

#[test]
fn coarse_x_wraps_into_the_next_nametable() {
    let mut v = VramAddr(0x001E);
    v.increment_coarse_x();
    assert_eq!(v.0, 0x001F);
    v.increment_coarse_x();
    assert_eq!(v.0, 0x0400);
    let mut v = VramAddr(0x041F);
    v.increment_coarse_x();
    assert_eq!(v.0, 0x0000);
}

#[test]
fn fine_y_carries_into_coarse_y() {
    let mut v = VramAddr(0x6000);
    v.increment_fine_y();
    assert_eq!(v.0, 0x7000);
    v.increment_fine_y();
    assert_eq!(v.0, 0x0020);
    let mut v = VramAddr(0x7000 | (29 << 5));
    v.increment_fine_y();
    assert_eq!(v.0, 0x0800);
    let mut v = VramAddr(0x7000 | (31 << 5));
    v.increment_fine_y();
    assert_eq!(v.0, 0x0000);
}

#[test]
fn vram_address_and_nametable_select() {
    let mut ctrl = CtrlReg(0xF0);
    let mut v = VramAddr(0);
    v.write(0x7FFF, &mut ctrl);
    assert_eq!(v.0, 0x73FF);
    assert_eq!(ctrl.0, 0xF3);
    assert_eq!(v.read(ctrl), 0x7FFF);
    assert_eq!(VramAddr(0x0005).read(CtrlReg(0x02)), 0x0805);
}

#[test]
fn control_and_mask_bits() {
    let ctrl = CtrlReg(0b1001_0110);
    assert_eq!(ctrl.base_nametable_addr(), 2);
    assert!(ctrl.vram_addr_inc());
    assert!(!ctrl.sprite_pattern_addr());
    assert!(ctrl.background_pattern_addr());
    assert!(!ctrl.sprite_size());
    assert!(!ctrl.master_slave_select());
    assert!(ctrl.generate_nmi());
    let mask = MaskReg(0b1010_1001);
    assert!(mask.greyscale());
    assert!(!mask.show_background_left());
    assert!(!mask.show_sprites_left());
    assert!(mask.show_background());
    assert!(!mask.show_sprites());
    assert!(mask.emphasize_red());
    assert!(!mask.emphasize_green());
    assert!(mask.emphasize_blue());
}

#[test]
fn every_port_write_goes_to_the_latch() {
    let mut nes = Nes::new();
    for (port, data) in [(0x2000u16, 0x11u8), (0x2001, 0x22), (0x2002, 0x33), (0x2003, 0x44), (0x2004, 0x55), (0x2005, 0x66), (0x2006, 0x77), (0x2007, 0x88)] {
        nes.write(port, data);
        assert_eq!(nes.ppu.ports_latch, data);
        for write_only in [0x2000u16, 0x2001, 0x2003, 0x2005, 0x2006] {
            assert_eq!(nes.read(write_only), data);
        }
    }
}

#[test]
fn ports_repeat_every_eight_bytes() {
    let mut nes = unlocked();
    nes.write(0x3FF9, 0x1E);
    assert_eq!(nes.ppu.mask.0, 0x1E);
    nes.write(0x2A03, 0x42);
    assert_eq!(nes.ppu.oam_addr, 0x42);
    assert_eq!(nes.read(0x3456 & !7), 0x42);
}

#[test]
fn control_ports_are_locked_after_power_up() {
    let mut nes = Nes::new();
    nes.write(0x2000, 0x80);
    nes.write(0x2001, 0x1E);
    nes.write(0x2005, 0xFF);
    nes.write(0x2006, 0x3F);
    assert_eq!(nes.ppu.ctrl.0, 0);
    assert_eq!(nes.ppu.mask.0, 0);
    assert_eq!(nes.ppu.tmp_vram_addr.0, 0);
    assert_eq!(nes.ppu.fine_x_scroll, 0);
    assert!(!nes.ppu.write_toggle);
    for _ in 0..UNLOCK_AFTER - 1 {
        Ppu::cycle(&mut nes);
    }
    assert!(!nes.ppu.ctrl_unlocked);
    Ppu::cycle(&mut nes);
    assert!(nes.ppu.ctrl_unlocked);
    nes.write(0x2001, 0x1E);
    assert_eq!(nes.ppu.mask.0, 0x1E);
    assert_eq!(UNLOCK_AFTER, 3 * 29_658);
}

#[test]
fn control_write_selects_the_nametable() {
    let mut nes = unlocked();
    nes.write(0x2000, 0x03);
    assert_eq!(nes.ppu.ctrl.0, 0x03);
    assert_eq!(nes.ppu.tmp_vram_addr.0, 0x0C00);
}

#[test]
fn scroll_writes_go_to_t_and_x() {
    let mut nes = unlocked();
    nes.write(0x2005, 0b0111_1101);
    assert_eq!(nes.ppu.tmp_vram_addr.0, 0b01111);
    assert_eq!(nes.ppu.fine_x_scroll, 0b101);
    assert!(nes.ppu.write_toggle);
    nes.write(0x2005, 0b0101_1110);
    assert_eq!(nes.ppu.tmp_vram_addr.0, (0b110 << 12) | (0b01011 << 5) | 0b01111);
    assert!(!nes.ppu.write_toggle);
}

#[test]
fn address_writes_then_data_access() {
    let mut nes = unlocked();
    nes.write(0x2006, 0xE1);
    assert_eq!(nes.ppu.tmp_vram_addr.0, 0x2100);
    assert_eq!(nes.ppu.vram_addr.0, 0);
    nes.write(0x2006, 0x08);
    assert_eq!(nes.ppu.vram_addr.0, 0x2108);
    nes.write(0x2007, 0xAB);
    assert_eq!(nes.ppu.vram_addr.0, 0x2109);
    nes.write(0x2007, 0xCD);
    set_address(&mut nes, 0x2108);
    assert_eq!(nes.read(0x2007), 0xAB);
    assert_eq!(nes.ppu.vram_addr.0, 0x2109);
    assert_eq!(nes.read(0x2007), 0xCD);
    assert_eq!(nes.ppu.ciram[0x108], 0xAB);
}

#[test]
fn data_access_moves_v_by_the_stride() {
    let mut nes = unlocked();
    nes.write(0x2000, 0x04);
    set_address(&mut nes, 0x2000);
    nes.write(0x2007, 0x01);
    assert_eq!(nes.ppu.vram_addr.0, 0x2020);
    nes.read(0x2007);
    assert_eq!(nes.ppu.vram_addr.0, 0x2040);
    set_address(&mut nes, 0x3FFF);
    nes.write(0x2000, 0x00);
    set_address(&mut nes, 0x3FFF);
    nes.read(0x2007);
    assert_eq!(nes.ppu.vram_addr.0, 0x4000);
    let mut v = VramAddr(0x7FFF);
    v.step(1);
    assert_eq!(v.0, 0x0000);
}

#[test]
fn palette_entries_are_mirrored() {
    let mut nes = unlocked();
    for (high, low) in [(0x3F10u16, 0x3F00u16), (0x3F14, 0x3F04), (0x3F18, 0x3F08), (0x3F1C, 0x3F0C)] {
        set_address(&mut nes, high);
        nes.write(0x2007, 0x2A);
        set_address(&mut nes, low);
        assert_eq!(nes.read(0x2007), 0x2A);
        set_address(&mut nes, low);
        nes.write(0x2007, 0x15);
        set_address(&mut nes, high);
        assert_eq!(nes.read(0x2007), 0x15);
        assert_eq!(nes.ppu.palettes[(low & 0x1F) as usize], 0x15);
    }
    Ppu::write(&mut nes, 0x3F11, 0x07);
    assert_eq!(Ppu::read(&mut nes, 0x3F11), 0x07);
    assert_eq!(Ppu::read(&mut nes, 0x3F31), 0x07);
    assert_eq!(Ppu::read(&mut nes, 0x3F01), 0x00);
    assert_eq!(nes.ppu.palettes[0x11], 0x07);
    assert_eq!(nes.ppu.palettes[0x10], 0x00);
}

#[test]
fn nametables_fold_as_the_cartridge_says() {
    // vertical arrangement: $2000 = $2800, $2400 = $2C00
    let mut nes = unlocked();
    nes.load_rom(RomFile::new(&image(0x01)).unwrap()).unwrap();
    Ppu::write(&mut nes, 0x2005, 0x11);
    Ppu::write(&mut nes, 0x2405, 0x22);
    assert_eq!(Ppu::read(&mut nes, 0x2805), 0x11);
    assert_eq!(Ppu::read(&mut nes, 0x2C05), 0x22);
    assert_eq!(Ppu::read(&mut nes, 0x3005), 0x11);
}

#[test]
fn nametables_fold_horizontally() {
    // horizontal arrangement: $2000 = $2400, $2800 = $2C00
    let mut nes = unlocked();
    nes.load_rom(RomFile::new(&image(0x00)).unwrap()).unwrap();
    Ppu::write(&mut nes, 0x2005, 0x11);
    Ppu::write(&mut nes, 0x2805, 0x22);
    assert_eq!(Ppu::read(&mut nes, 0x2405), 0x11);
    assert_eq!(Ppu::read(&mut nes, 0x2C05), 0x22);
    assert_eq!(nes.ppu.ciram[0x005], 0x11);
    assert_eq!(nes.ppu.ciram[0x405], 0x22);
}

#[test]
fn pattern_reads_come_from_the_cartridge() {
    let mut data = image(0x00);
    data[16 + 0x4000 + 0x0123] = 0x99;
    let mut nes = unlocked();
    nes.load_rom(RomFile::new(&data).unwrap()).unwrap();
    assert_eq!(Ppu::read(&mut nes, 0x0123), 0x99);
    assert_eq!(Ppu::read(&mut nes, 0x4123), 0x99);
    Ppu::write(&mut nes, 0x0123, 0x11);
    assert_eq!(Ppu::read(&mut nes, 0x0123), 0x99);
}

#[test]
fn status_read_clears_vblank_and_the_toggle() {
    let mut nes = unlocked();
    nes.write(0x2000, 0x80);
    nes.write(0x2006, 0x3F);
    nes.ppu.pos = PixelPos { cycle: 1, scanline: 241, is_odd: false };
    Ppu::cycle(&mut nes);
    assert!(nes.ppu.vblank);
    assert!(!nes.cpu.nmi);
    assert!(nes.ppu.write_toggle);
    assert_eq!(nes.read(0x2002), 0x80 | (0x3F & 0x1F));
    assert!(!nes.ppu.vblank);
    assert!(!nes.ppu.write_toggle);
    assert!(nes.cpu.nmi);
    assert_eq!(nes.read(0x2002) & 0x80, 0);
}

#[test]
fn vblank_ends_on_the_pre_render_line() {
    let mut nes = unlocked();
    nes.write(0x2000, 0x80);
    nes.ppu.vblank = true;
    nes.cpu.nmi = false;
    nes.ppu.pos = PixelPos { cycle: 1, scanline: 261, is_odd: false };
    Ppu::cycle(&mut nes);
    assert!(!nes.ppu.vblank);
    assert!(nes.cpu.nmi);
}

#[test]
fn enabling_nmi_during_vblank_asserts_it() {
    let mut nes = unlocked();
    nes.ppu.vblank = true;
    assert!(nes.cpu.nmi);
    nes.write(0x2000, 0x80);
    assert!(!nes.cpu.nmi);
    nes.write(0x2000, 0x00);
    assert!(nes.cpu.nmi);
}

#[test]
fn horizontal_bits_are_copied_at_dot_257() {
    let mut nes = unlocked();
    nes.write(0x2001, 0x08);
    nes.ppu.vram_addr = VramAddr(0x7BE0);
    nes.ppu.tmp_vram_addr = VramAddr(0x0415);
    nes.ppu.pos = PixelPos { cycle: 257, scanline: 10, is_odd: false };
    Ppu::cycle(&mut nes);
    assert_eq!(nes.ppu.vram_addr.0, 0x7BE0 | 0x0415);
    assert_eq!(nes.ppu.vram_addr.0 & 0x041F, nes.ppu.tmp_vram_addr.0 & 0x041F);
}

#[test]
fn vertical_bits_are_copied_on_the_pre_render_line() {
    let mut nes = unlocked();
    nes.write(0x2001, 0x08);
    nes.ppu.vram_addr = VramAddr(0x041F);
    nes.ppu.tmp_vram_addr = VramAddr(0x7BE0 & 0x5A5A);
    nes.ppu.pos = PixelPos { cycle: 280, scanline: 261, is_odd: false };
    Ppu::cycle(&mut nes);
    assert_eq!(nes.ppu.vram_addr.0, 0x041F | (0x7BE0 & 0x5A5A));
    nes.ppu.vram_addr = VramAddr(0);
    nes.ppu.pos = PixelPos { cycle: 280, scanline: 100, is_odd: false };
    Ppu::cycle(&mut nes);
    assert_eq!(nes.ppu.vram_addr.0, 0);
}

#[test]
fn nothing_scrolls_while_rendering_is_off() {
    let mut nes = unlocked();
    nes.ppu.vram_addr = VramAddr(0x1234);
    nes.ppu.tmp_vram_addr = VramAddr(0x0415);
    nes.ppu.pos = PixelPos { cycle: 256, scanline: 10, is_odd: false };
    Ppu::cycle(&mut nes);
    Ppu::cycle(&mut nes);
    assert_eq!(nes.ppu.vram_addr.0, 0x1234);
}

#[test]
fn tile_fetch_takes_eight_dots() {
    let mut data = image(0x01);
    // tile $21: plane 0 of line 3 is $F0, plane 1 is $0F
    data[16 + 0x4000 + 0x1000 + 0x21 * 16 + 3] = 0xF0;
    data[16 + 0x4000 + 0x1000 + 0x21 * 16 + 8 + 3] = 0x0F;
    let mut nes = unlocked();
    nes.load_rom(RomFile::new(&data).unwrap()).unwrap();
    nes.write(0x2000, 0x10);
    nes.write(0x2001, 0x08);
    nes.ppu.ciram[0x0042] = 0x21;
    nes.ppu.ciram[0x03C0] = 0b1110_0100;
    nes.ppu.vram_addr = VramAddr(0x3042);
    nes.ppu.pos = PixelPos { cycle: 1, scanline: 5, is_odd: false };
    Ppu::cycle(&mut nes);
    assert_eq!(nes.ppu.internal_bus_addr, 0x2042);
    Ppu::cycle(&mut nes);
    assert_eq!(nes.ppu.nametable_lat, 0x21);
    Ppu::cycle(&mut nes);
    assert_eq!(nes.ppu.internal_bus_addr, 0x23C0);
    Ppu::cycle(&mut nes);
    assert_eq!(nes.ppu.attribute_lat, 0b1110_0100);
    Ppu::cycle(&mut nes);
    assert_eq!(nes.ppu.internal_bus_addr, 0x1213);
    Ppu::cycle(&mut nes);
    assert_eq!(nes.ppu.pattern_lower_lat, 0xF0);
    Ppu::cycle(&mut nes);
    assert_eq!(nes.ppu.internal_bus_addr, 0x121B);
    Ppu::cycle(&mut nes);
    assert_eq!(nes.ppu.pattern_upper_lat, 0x0F);
    assert_eq!(nes.ppu.shift_lower & 0x00FF, 0x00F0);
    assert_eq!(nes.ppu.shift_upper & 0x00FF, 0x000F);
    // the tile lies in the bottom right quadrant: palette number 3
    assert_eq!(nes.ppu.shift_attrib & 0x03, 3);
    assert_eq!(nes.ppu.vram_addr.0, 0x3043);
    assert_eq!(nes.ppu.pos, PixelPos { cycle: 9, scanline: 5, is_odd: false });
}

#[test]
fn picture_shows_the_nametable() {
    let mut data = image(0x01);
    // tile 1: the left half of every line has colour 1, the right half colour 2
    for line in 0..8 {
        data[16 + 0x4000 + 16 + line] = 0xF0;
        data[16 + 0x4000 + 16 + 8 + line] = 0x0F;
    }
    let mut nes = unlocked();
    nes.load_rom(RomFile::new(&data).unwrap()).unwrap();
    for i in 0..64 {
        nes.ppu.pal_values[i] = 0x00FF_0000 | i as u32;
    }
    // tile 1 at column 2 of row 0 and at column 0 of row 1
    nes.ppu.ciram[2] = 1;
    nes.ppu.ciram[32] = 1;
    // the top left 2x2 tiles use palette 0, the next two columns palette 3
    nes.ppu.ciram[0x3C0] = 0b0000_1100;
    nes.ppu.palettes[0] = 0x0F;
    nes.ppu.palettes[1] = 0x11;
    nes.ppu.palettes[2] = 0x12;
    nes.ppu.palettes[0x0C] = 0x2C;
    nes.ppu.palettes[0x0D] = 0x21;
    nes.ppu.palettes[0x0E] = 0x22;
    nes.write(0x2001, 0x08);
    // from the pre-render line through line 8
    nes.ppu.pos = PixelPos { cycle: 0, scanline: 261, is_odd: false };
    for _ in 0..341 * 10 {
        Ppu::cycle(&mut nes);
    }
    let fb = nes.frame_buffer();
    let backdrop = 0x00FF_000F;
    for x in 0..16 {
        assert_eq!(fb[x], backdrop, "x = {}", x);
    }
    for x in 16..20 {
        assert_eq!(fb[x], 0x00FF_0021, "x = {}", x);
    }
    for x in 20..24 {
        assert_eq!(fb[x], 0x00FF_0022, "x = {}", x);
    }
    // colour 0 of palette 3 is the palette's own entry
    for x in 24..32 {
        assert_eq!(fb[x], 0x00FF_002C, "x = {}", x);
    }
    assert_eq!(fb[32], backdrop);
    assert_eq!(fb[255], backdrop);
    for y in 8..9 {
        for x in 0..4 {
            assert_eq!(fb[y * 256 + x], 0x00FF_0011);
        }
        for x in 4..8 {
            assert_eq!(fb[y * 256 + x], 0x00FF_0012);
        }
        assert_eq!(fb[y * 256 + 8], backdrop);
    }
    assert_eq!(fb[7 * 256 + 16], 0x00FF_0021);
    assert_eq!(fb[8 * 256 + 16], 0x00FF_002C);
    assert_eq!(fb[9 * 256], 0);
}

#[test]
fn fine_x_shifts_the_picture() {
    let mut data = image(0x01);
    for line in 0..8 {
        data[16 + 0x4000 + 16 + line] = 0xFF;
    }
    let mut nes = unlocked();
    nes.load_rom(RomFile::new(&data).unwrap()).unwrap();
    for i in 0..64 {
        nes.ppu.pal_values[i] = i as u32;
    }
    nes.ppu.ciram[1] = 1;
    nes.ppu.palettes[0] = 0x01;
    nes.ppu.palettes[1] = 0x02;
    nes.write(0x2001, 0x08);
    nes.write(0x2005, 0x03);
    nes.write(0x2005, 0x00);
    nes.ppu.pos = PixelPos { cycle: 0, scanline: 261, is_odd: false };
    for _ in 0..341 * 2 {
        Ppu::cycle(&mut nes);
    }
    let fb = nes.frame_buffer();
    for x in 0..5 {
        assert_eq!(fb[x], 0x01, "x = {}", x);
    }
    for x in 5..13 {
        assert_eq!(fb[x], 0x02, "x = {}", x);
    }
    assert_eq!(fb[13], 0x01);
}

#[test]
fn power_on_state() {
    let nes = Nes::new();
    assert_eq!(nes.ppu, Ppu::new());
    assert_eq!(nes.ppu, Ppu::default());
    assert_eq!(nes.ppu.pos, PixelPos { cycle: 0, scanline: 261, is_odd: true });
    assert!(!nes.ppu.ctrl_unlocked);
    assert!(nes.ppu.fb.iter().all(|pixel| *pixel == 0));
    assert!(nes.ppu.ciram.iter().all(|byte| *byte == 0));
    assert!(nes.is_wf());
}
