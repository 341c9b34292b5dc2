use nesir::arch::cartridge::Cartridge;
use nesir::arch::mappers::mapper000::Mapper000;
use nesir::arch::mappers::DummyMapper;
use nesir::arch::mappers::LoadError;
use nesir::arch::mappers::Mapper;
use nesir::arch::mappers::MapperKind;
use nesir::arch::mappers::Mirroring;
use nesir::arch::mappers::RomFile;
use nesir::arch::Nes;

fn header(prg: u8, chr: u8, flags6: u8, flags7: u8) -> Vec<u8> {
    let mut data = vec![0u8; 16];
    data[0] = b'N';
    data[1] = b'E';
    data[2] = b'S';
    data[3] = 0x1A;
    data[4] = prg;
    data[5] = chr;
    data[6] = flags6;
    data[7] = flags7;
    data
}

/// An image whose payload bytes count up from 1.
fn image(prg: u8, chr: u8, flags6: u8, flags7: u8) -> Vec<u8> {
    let mut data = header(prg, chr, flags6, flags7);
    let mut len = 16384 * prg as usize + 8192 * chr as usize;
    if flags6 & 0x04 != 0 {
        len += 512;
    }
    if flags7 & 0x02 != 0 {
        len += 8192 + 32;
    }
    for i in 0..len {
        data.push((i % 251) as u8 + 1);
    }
    data
}

#[test]
fn image_is_split_into_its_parts() {
    let data = image(2, 1, 0x00, 0x00);
    let rom = RomFile::new(&data).unwrap();
    assert_eq!(rom.header[..], data[..16]);
    assert_eq!(rom.trainer, None);
    assert_eq!(rom.prg[..], data[16..16 + 0x8000]);
    assert_eq!(rom.chr[..], data[16 + 0x8000..16 + 0x8000 + 0x2000]);
    assert_eq!(rom.inst_rom, None);
    assert_eq!(rom.prom, None);
}

#[test]
fn trainer_precedes_the_program() {
    let data = image(1, 0, 0x04, 0x00);
    let rom = RomFile::new(&data).unwrap();
    assert_eq!(rom.trainer.unwrap()[..], data[16..528]);
    assert_eq!(rom.prg[..], data[528..528 + 0x4000]);
    assert!(rom.chr.is_empty());
}

#[test]
fn inst_rom_and_prom_follow_the_patterns() {
    let data = image(1, 1, 0x00, 0x02);
    let rom = RomFile::new(&data).unwrap();
    let end = 16 + 0x4000 + 0x2000;
    assert_eq!(rom.inst_rom.unwrap()[..], data[end..end + 8192]);
    let (p0, p1) = rom.prom.unwrap();
    assert_eq!(p0[..], data[end + 8192..end + 8208]);
    assert_eq!(p1[..], data[end + 8208..end + 8224]);
}

#[test]
fn truncated_image_is_refused() {
    assert_eq!(RomFile::new(&[]), Err(LoadError::Truncated));
    assert_eq!(RomFile::new(&header(0, 0, 0, 0)[..15]), Err(LoadError::Truncated));
    assert!(RomFile::new(&header(0, 0, 0, 0)).is_ok());
    for (prg, chr, flags6, flags7) in [(1u8, 0u8, 0u8, 0u8), (1, 1, 0, 0), (0, 1, 0, 0), (1, 1, 4, 0), (1, 1, 0, 2), (0, 0, 4, 0), (0, 0, 0, 2)] {
        let data = image(prg, chr, flags6, flags7);
        assert!(RomFile::new(&data).is_ok());
        assert_eq!(RomFile::new(&data[..data.len() - 1]), Err(LoadError::Truncated));
    }
}

#[test]
fn mapper_number_from_the_header() {
    let rom = RomFile::new(&header(0, 0, 0x10, 0x20)).unwrap();
    assert!(!rom.is_ines2());
    assert_eq!(rom.mapper_number(), 0x21);
    let mut data = header(0, 0, 0xF0, 0xA8);
    data[8] = 0xF3;
    let rom = RomFile::new(&data).unwrap();
    assert!(rom.is_ines2());
    assert_eq!(rom.mapper_number(), 0x3AF);
    let rom = RomFile::new(&header(0, 0, 0x00, 0x04)).unwrap();
    assert!(!rom.is_ines2());
    let rom = RomFile::new(&header(0, 0, 0x00, 0x0C)).unwrap();
    assert!(!rom.is_ines2());
}

#[test]
fn unsupported_mapper_leaves_the_machine_untouched() {
    let rom = RomFile::new(&image(1, 1, 0x10, 0x00)).unwrap();
    assert_eq!(rom.clone().into_mapper(), Err(LoadError::UnsupportedMapper(1)));
    let mut nes = Nes::new();
    nes.cpu.acc = 0x12;
    let before = nes.clone();
    assert_eq!(nes.load_rom(rom.clone()), Err(LoadError::UnsupportedMapper(1)));
    assert_eq!(nes, before);
    let mut cart = Cartridge::default();
    assert_eq!(cart.new(rom), Err(LoadError::UnsupportedMapper(1)));
    assert_eq!(cart, Cartridge::empty());
}

#[test]
fn program_of_another_size_is_refused() {
    for prg in [0u8, 3, 4] {
        let rom = RomFile::new(&image(prg, 1, 0x00, 0x00)).unwrap();
        assert_eq!(rom.into_mapper(), Err(LoadError::UnsupportedPrgSize(16384 * prg as usize)));
    }
    assert!(!Mapper000::takes(&RomFile::new(&image(3, 1, 0, 0)).unwrap()));
    assert!(Mapper000::takes(&RomFile::new(&image(1, 0, 0, 0)).unwrap()));
}

#[test]
fn small_program_is_mirrored() {
    let data = image(1, 1, 0x00, 0x00);
    let rom = RomFile::new(&data).unwrap();
    let mut mapper = Mapper000::new(rom);
    assert_eq!(mapper.prg_rom[..0x4000], data[16..16 + 0x4000]);
    assert_eq!(mapper.prg_rom[0x4000..], data[16..16 + 0x4000]);
    assert_eq!(mapper.read_cpu(0x8000), data[16]);
    assert_eq!(mapper.read_cpu(0xC000), data[16]);
    assert_eq!(mapper.read_cpu(0xFFFF), data[16 + 0x3FFF]);
    assert_eq!(mapper.chr_rom[..], data[16 + 0x4000..]);
    assert_eq!(mapper.read_ppu(0x1FFF), data[16 + 0x4000 + 0x1FFF]);
    assert_eq!(mapper.nametable_mirroring(), Mirroring::Horizontal);
}

#[test]
fn large_program_fills_the_window() {
    let data = image(2, 0, 0x01, 0x00);
    let mut mapper = Mapper000::from_rom(RomFile::new(&data).unwrap());
    assert_eq!(mapper.prg_rom[..], data[16..]);
    assert_eq!(mapper.read_cpu(0xC000), data[16 + 0x4000]);
    assert!(mapper.chr_rom.iter().all(|byte| *byte == 0));
    assert_eq!(mapper.nametable_mirroring(), Mirroring::Vertical);
}

#[test]
fn long_pattern_payload_is_cut() {
    let data = image(1, 2, 0x00, 0x00);
    let mapper = Mapper000::new(RomFile::new(&data).unwrap());
    assert_eq!(mapper.chr_rom[..], data[16 + 0x4000..16 + 0x4000 + 0x2000]);
}

#[test]
fn program_ram_is_written_and_rom_is_not() {
    let data = image(1, 1, 0x00, 0x00);
    let mut mapper = Mapper000::new(RomFile::new(&data).unwrap());
    assert!(!mapper.maps_cpu(0x4020));
    assert!(!mapper.maps_cpu(0x5FFF));
    assert!(mapper.maps_cpu(0x6000));
    assert_eq!(mapper.read_cpu(0x6000), 0);
    mapper.write_cpu(0x6000, 0x12);
    mapper.write_cpu(0x7FFF, 0x34);
    assert_eq!(mapper.read_cpu(0x6000), 0x12);
    assert_eq!(mapper.read_cpu(0x7FFF), 0x34);
    assert_eq!(mapper.prg_ram[0x1FFF], 0x34);
    let before = mapper;
    mapper.write_cpu(0x8000, 0x56);
    mapper.write_ppu(0x0000, 0x56);
    assert_eq!(mapper, before);
}

#[test]
fn empty_slot_reads_as_zero() {
    let rom = RomFile::new(&header(0, 0, 0, 0)).unwrap();
    let mut dummy = DummyMapper::new(rom);
    assert!(dummy.maps_cpu(0x4020));
    assert_eq!(dummy.read_cpu(0x8000), 0);
    dummy.write_cpu(0x8000, 1);
    assert_eq!(dummy.read_cpu(0x8000), 0);
    assert_eq!(dummy.read_ppu(0x0000), 0);
    dummy.write_ppu(0x0000, 1);
    assert_eq!(dummy.nametable_mirroring(), Mirroring::Vertical);
    let mut slot = Cartridge::empty().mapper;
    assert_eq!(slot, MapperKind::Dummy(DummyMapper {}));
    assert!(slot.maps_cpu(0x4020));
    assert_eq!(slot.read_cpu(0xFFFC), 0);
    slot.write_cpu(0x6000, 1);
    assert_eq!(slot.read_ppu(0x1000), 0);
    slot.write_ppu(0x1000, 1);
    assert_eq!(slot.nametable_mirroring(), Mirroring::Vertical);
}

#[test]
fn cartridge_takes_a_mapping() {
    let data = image(1, 1, 0x01, 0x00);
    let mut cart = Cartridge::empty();
    assert_eq!(cart.new(RomFile::new(&data).unwrap()), Ok(()));
    assert!(matches!(cart.mapper, MapperKind::Nrom(_)));
    assert_eq!(cart.mapper.read_cpu(0x8001), data[17]);
    assert!(!cart.mapper.maps_cpu(0x5000));
    cart.mapper.write_cpu(0x6001, 0x99);
    assert_eq!(cart.mapper.read_cpu(0x6001), 0x99);
    assert_eq!(cart.mapper.read_ppu(0x0002), data[16 + 0x4000 + 2]);
    assert_eq!(cart.mapper.nametable_mirroring(), Mirroring::Vertical);
}
