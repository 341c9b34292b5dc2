use nesir::arch::mappers::RomFile;
use nesir::arch::Nes;
use nesir::viewer::host_colors;
use nesir::viewer::render_nametable;
use nesir::viewer::render_palette;
use nesir::viewer::render_pattern_table;

#[test]
fn palette_picture() {
    let mut nes = Nes::new();
    for i in 0..64 {
        nes.ppu.pal_values[i] = 0x0100 + i as u32;
    }
    nes.ppu.palettes[0] = 0x3F;
    nes.ppu.palettes[5] = 0x45;
    nes.ppu.palettes[31] = 0x01;
    let mut fb = [0x0055_5555u32; 32];
    render_palette(&nes, &mut fb);
    assert_eq!(fb[0], 0x013F);
    assert_eq!(fb[1], 0x0100);
    assert_eq!(fb[5], 0x0105);
    assert_eq!(fb[31], 0x0101);
}

#[test]
fn nametable_picture() {
    let mut nes = Nes::new();
    nes.ppu.ciram[0] = 0x01;
    nes.ppu.ciram[31] = 0x02;
    nes.ppu.ciram[32] = 0x03;
    nes.ppu.ciram[1023] = 0x04;
    nes.ppu.ciram[1024] = 0x05;
    nes.ppu.ciram[2047] = 0xFF;
    let mut fb = [0x0055_5555u32; 2048];
    render_nametable(&nes, &mut fb);
    assert_eq!(fb[0], 0x0001_0101);
    assert_eq!(fb[31], 0x0002_0202);
    assert_eq!(fb[64], 0x0003_0303);
    assert_eq!(fb[31 * 64 + 31], 0x0004_0404);
    assert_eq!(fb[32], 0x0005_0505);
    assert_eq!(fb[2047], 0x00FF_FFFF);
    assert_eq!(fb[1], 0);
}

#[test]
fn pattern_table_picture() {
    let mut data = vec![0u8; 16 + 0x4000 + 0x2000];
    data[4] = 1;
    data[5] = 1;
    let chr = 16 + 0x4000;
    // tile 0, line 0: dots of colour 1, 2, 3 and 0
    data[chr] = 0b1010_0000;
    data[chr + 8] = 0b0110_0000;
    // tile 17, line 2
    data[chr + 17 * 16 + 2] = 0x01;
    // tile 256, line 7
    data[chr + 256 * 16 + 8 + 7] = 0x80;
    // tile 511, line 7
    data[chr + 511 * 16 + 7] = 0x01;
    data[chr + 511 * 16 + 8 + 7] = 0x01;
    let mut nes = Nes::new();
    nes.load_rom(RomFile::new(&data).unwrap()).unwrap();
    let before = nes.clone();
    let mut fb = vec![0x0055_5555u32; 256 * 128];
    let picture: &mut [u32; 32768] = (&mut fb[..]).try_into().unwrap();
    render_pattern_table(&mut nes, picture);
    assert_eq!(nes, before);
    assert_eq!(fb[0], 0x007F_7F7F);
    assert_eq!(fb[1], 0x00BF_BFBF);
    assert_eq!(fb[2], 0x00FF_FFFF);
    assert_eq!(fb[3], 0x003F_3F3F);
    assert_eq!(fb[(8 + 2) * 256 + 8 + 7], 0x007F_7F7F);
    assert_eq!(fb[7 * 256 + 128], 0x00BF_BFBF);
    assert_eq!(fb[127 * 256 + 255], 0x00FF_FFFF);
    assert_eq!(fb[127 * 256 + 254], 0x003F_3F3F);
}

#[test]
fn palette_file() {
    let colors = host_colors(&[0x12, 0x34, 0x56, 0xFF, 0x00, 0x80, 0x01, 0x02]);
    assert_eq!(colors[0], 0x0012_3456);
    assert_eq!(colors[1], 0x00FF_0080);
    assert_eq!(colors[2], 0);
    assert_eq!(colors[63], 0);
    let mut bytes = Vec::new();
    for i in 0..70u32 {
        bytes.push(i as u8);
        bytes.push(0);
        bytes.push(0xFF);
    }
    let colors = host_colors(&bytes);
    assert_eq!(colors[63], 0x003F_00FF);
    assert_eq!(host_colors(&[]), [0u32; 64]);
}
