//! iNES 000

use vstd::prelude::*;
use vstd::array::spec_array_update;
use crate::arch::mappers::Mapper;
use crate::arch::mappers::Mirroring;
use crate::arch::mappers::RomFile;

verus! {

/// Alias for mapper number 000
pub type NRom = Mapper000;

/// The fixed mapping: 8 KiB of PRG-RAM at `$6000`, 32 KiB of PRG-ROM at
/// `$8000` and 8 KiB of CHR-ROM, with no bank switching.
#[derive(Debug, Copy, Clone, PartialEq, Eq)]
pub struct Mapper000 {
    /// Family Basic only, but seems most emus provide 8 KiB?
    pub prg_ram: [u8; 0x2000],
    pub prg_rom: [u8; 0x8000],
    pub chr_rom: [u8; 0x2000],
    pub mirroring: Mirroring,
}

/// An 8 KiB bank of zeros.
fn clear_bank() -> (bank: [u8; 0x2000])
    ensures
        forall|i: int| 0 <= i < 0x2000 ==> bank[i] == 0,
{
    let bank = [0u8; 0x2000];
    assert(bank == vstd::array::spec_array_fill_for_copy_type::<u8, 0x2000>(0u8));
    bank
}

impl Mapper000 {
    /// Whether `rom` fits the mapping, as `accepts` states it.
    pub fn takes(rom: &RomFile) -> (b: bool)
        ensures
            b == Self::accepts(rom),
    {
        rom.prg.len() == 0x4000 || rom.prg.len() == 0x8000
    }

    /// The mapping with the payloads of `rom` in place.
    pub fn from_rom(rom: RomFile) -> (m: Self)
        requires
            Self::accepts(&rom),
        ensures
            m.holds(&rom),
    {
        let mut prg_rom = [0u8; 0x8000];
        let prg_len = rom.prg.len();
        let mut i: usize = 0;
        while i < 0x8000
            invariant
                i <= 0x8000,
                prg_len == rom.prg.len(),
                prg_len == 0x4000 || prg_len == 0x8000,
                forall|j: int|
                    0 <= j < i ==> prg_rom[j] == if j < prg_len {
                        rom.prg[j]
                    } else {
                        rom.prg[j - prg_len]
                    },
            decreases 0x8000 - i,
        {
            prg_rom[i] = if i < prg_len {
                rom.prg[i]
            } else {
                rom.prg[i - prg_len]
            };
            i += 1;
        }
        let mut chr_rom = clear_bank();
        let chr_len = rom.chr.len();
        let mut k: usize = 0;
        while k < 0x2000 && k < chr_len
            invariant
                k <= 0x2000,
                k <= chr_len,
                chr_len == rom.chr.len(),
                forall|j: int| 0 <= j < k ==> chr_rom[j] == rom.chr[j],
                forall|j: int| k <= j < 0x2000 ==> chr_rom[j] == 0,
            decreases 0x2000 - k,
        {
            chr_rom[k] = rom.chr[k];
            k += 1;
        }
        let mirroring = if rom.header[6] & 0x01 != 0 {
            Mirroring::Vertical
        } else {
            Mirroring::Horizontal
        };
        Mapper000 { prg_ram: clear_bank(), prg_rom, chr_rom, mirroring }
    }
}

impl Mapper for Mapper000 {
    /// One or two 16 KiB units of PRG.
    open spec fn accepts(rom: &RomFile) -> bool {
        rom.prg.len() == 0x4000 || rom.prg.len() == 0x8000
    }

    /// PRG-RAM is clear, a 16 KiB PRG payload occupies both halves of
    /// PRG-ROM, CHR-ROM is the first 8 KiB of the CHR payload with zeros
    /// behind a shorter one, and bit 0 of header byte 6 selects the
    /// nametable arrangement.
    open spec fn holds(&self, rom: &RomFile) -> bool {
        &&& forall|i: int| 0 <= i < 0x2000 ==> self.prg_ram[i] == 0
        &&& forall|i: int|
            0 <= i < 0x8000 ==> self.prg_rom[i] == if i < rom.prg.len() {
                rom.prg[i]
            } else {
                rom.prg[i - rom.prg.len()]
            }
        &&& forall|i: int|
            0 <= i < 0x2000 ==> self.chr_rom[i] == if i < rom.chr.len() {
                rom.chr[i]
            } else {
                0
            }
        &&& self.mirroring == if rom.header[6] & 0x01 != 0 {
            Mirroring::Vertical
        } else {
            Mirroring::Horizontal
        }
    }

    open spec fn decodes_cpu(&self, addr: u16) -> bool {
        addr >= 0x6000
    }

    open spec fn cpu_read(self, addr: u16) -> (Self, u8) {
        if addr < 0x8000 {
            (self, self.prg_ram[addr - 0x6000])
        } else {
            (self, self.prg_rom[addr - 0x8000])
        }
    }

    open spec fn cpu_write(self, addr: u16, data: u8) -> Self {
        if 0x6000 <= addr < 0x8000 {
            Mapper000 {
                prg_ram: spec_array_update(self.prg_ram, addr - 0x6000, data),
                ..self
            }
        } else {
            self
        }
    }

    open spec fn ppu_read(self, addr: u16) -> (Self, u8) {
        (self, self.chr_rom[addr as int])
    }

    open spec fn ppu_write(self, addr: u16, data: u8) -> Self {
        self
    }

    open spec fn mirroring(&self) -> Mirroring {
        self.mirroring
    }

    fn new(rom: RomFile) -> (m: Self) {
        Self::from_rom(rom)
    }

    fn maps_cpu(&self, addr: u16) -> (b: bool) {
        addr >= 0x6000
    }

    fn read_cpu(&mut self, addr: u16) -> (data: u8) {
        if addr < 0x8000 {
            self.prg_ram[(addr - 0x6000) as usize]
        } else {
            self.prg_rom[(addr - 0x8000) as usize]
        }
    }

    fn write_cpu(&mut self, addr: u16, data: u8) {
        if addr < 0x8000 {
            self.prg_ram[(addr - 0x6000) as usize] = data;
        }
    }

    fn read_ppu(&mut self, addr: u16) -> (data: u8) {
        self.chr_rom[addr as usize]
    }

    fn write_ppu(&mut self, _addr: u16, _data: u8) {
        // do nothing
    }

    fn nametable_mirroring(&self) -> (m: Mirroring) {
        self.mirroring
    }
}

} // verus!
