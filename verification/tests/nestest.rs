use nesir::arch::cpu::Cpu;
use nesir::arch::cpu::TestState;
use nesir::arch::mappers::RomFile;
use nesir::arch::ppu::PixelPos;
use nesir::arch::Nes;

/// The first instructions of the CPU test program, each at its address.
const PROGRAM: [(u16, &[u8]); 5] = [
    (0xC000, &[0x4C, 0xF5, 0xC5]),
    (0xC5F5, &[0xA2, 0x00, 0x86, 0x00, 0x86, 0x10, 0x86, 0x11, 0x20, 0x2D, 0xC7]),
    (0xC72D, &[0xEA, 0x38, 0xB0, 0x04]),
    (0xC735, &[0xEA, 0x18, 0xB0, 0x03, 0x4C, 0x40, 0xC7]),
    (0xC740, &[0xEA, 0xEA, 0xEA]),
];

/// The trace of those instructions.
const LOG: &str = "\
C000  4C F5 C5  JMP $C5F5                       A:00 X:00 Y:00 P:24 SP:FD PPU:  0, 21 CYC:7
C5F5  A2 00     LDX #$00                        A:00 X:00 Y:00 P:24 SP:FD PPU:  0, 30 CYC:10
C5F7  86 00     STX $00 = 00                    A:00 X:00 Y:00 P:26 SP:FD PPU:  0, 36 CYC:12
C5F9  86 10     STX $10 = 00                    A:00 X:00 Y:00 P:26 SP:FD PPU:  0, 45 CYC:15
C5FB  86 11     STX $11 = 00                    A:00 X:00 Y:00 P:26 SP:FD PPU:  0, 54 CYC:18
C5FD  20 2D C7  JSR $C72D                       A:00 X:00 Y:00 P:26 SP:FD PPU:  0, 63 CYC:21
C72D  EA        NOP                             A:00 X:00 Y:00 P:26 SP:FB PPU:  0, 81 CYC:27
C72E  38        SEC                             A:00 X:00 Y:00 P:26 SP:FB PPU:  0, 87 CYC:29
C72F  B0 04     BCS $C735                       A:00 X:00 Y:00 P:27 SP:FB PPU:  0, 93 CYC:31
C735  EA        NOP                             A:00 X:00 Y:00 P:27 SP:FB PPU:  0,102 CYC:34
C736  18        CLC                             A:00 X:00 Y:00 P:27 SP:FB PPU:  0,108 CYC:36
C737  B0 03     BCS $C73C                       A:00 X:00 Y:00 P:26 SP:FB PPU:  0,114 CYC:38
C739  4C 40 C7  JMP $C740                       A:00 X:00 Y:00 P:26 SP:FB PPU:  0,120 CYC:40
C740  EA        NOP                             A:00 X:00 Y:00 P:26 SP:FB PPU:  0,129 CYC:43";

fn image() -> Vec<u8> {
    let mut data = vec![0u8; 16 + 0x4000 + 0x2000];
    data[0] = b'N';
    data[1] = b'E';
    data[2] = b'S';
    data[3] = 0x1A;
    data[4] = 1;
    data[5] = 1;
    for (addr, bytes) in PROGRAM.iter() {
        for (i, byte) in bytes.iter().enumerate() {
            data[16 + (*addr as usize - 0xC000) + i] = *byte;
        }
    }
    data[16 + 0x3FFC] = 0x00;
    data[16 + 0x3FFD] = 0xC0;
    data
}

fn hex16(text: &str) -> u16 {
    u16::from_str_radix(text, 16).unwrap()
}

fn hex8(text: &str) -> u8 {
    u8::from_str_radix(text, 16).unwrap()
}

fn parse(line: &str) -> TestState {
    let (line, ppucyc) = line.split_once("PPU:").unwrap();
    let parts: Vec<&str> = line.split_whitespace().collect();
    let last = parts.len() - 1;

    TestState {
        pc: hex16(parts[0]),
        opcode: hex8(parts[1]),
        sp: hex8(parts[last].split_at(3).1),
        status: hex8(parts[last - 1].split_at(2).1),
        acc: hex8(parts[last - 4].split_at(2).1),
        x: hex8(parts[last - 3].split_at(2).1),
        y: hex8(parts[last - 2].split_at(2).1),
        cyc: ppucyc.split_once("CYC:").unwrap().1.parse().unwrap(),
    }
}

#[test]
fn nestest() {
    let rom = RomFile::new(&image()).unwrap();

    let log: Vec<TestState> = LOG.lines().map(|line| parse(line)).collect();
    let mut log_iter = log.iter();

    let mut nes = Nes::new();

    nes.cart.mapper = rom.into_mapper().unwrap();
    nes.cpu.pc = 0xC000;
    nes.cpu.predecode = nes.read(nes.cpu.pc);
    nes.cpu.cyc = 7;
    nes.ppu.pos = PixelPos { cycle: 19, scanline: 0, ..Default::default() };
    nes.cpu.status.0 = 0x24;

    let mut lines = 0;
    let mut ticks = 0;
    loop {
        assert!(nes.is_wf());
        Cpu::tick(&mut nes);
        ticks += 1;
        assert!(ticks < 100_000, "the trace did not end");

        if let Some(state) = nes.cpu.last_state {
            if let Some(log) = log_iter.next() {
                assert_eq!(*log, state, "line {}", lines + 1);
                lines += 1;

                nes.cpu.last_state = None;
            } else {
                println!("nestest log complete");
                break;
            }
        }
    }
    assert_eq!(lines, 14);
    assert_eq!(nes.fault, None);
}
