use vstd::prelude::*;
use crate::arch::mappers::mapper000::Mapper000;
use crate::arch::mappers::DummyMapper;
use crate::arch::mappers::LoadError;
use crate::arch::mappers::Mapper;
use crate::arch::mappers::MapperKind;
use crate::arch::mappers::Mirroring;
use crate::arch::mappers::RomFile;

verus! {

impl MapperKind {
    /// The CPU addresses at or above `$4020` that the mapping decodes.
    pub open spec fn decodes_cpu(&self, addr: u16) -> bool {
        match *self {
            MapperKind::Dummy(m) => m.decodes_cpu(addr),
            MapperKind::Nrom(m) => m.decodes_cpu(addr),
        }
    }

    /// The mapping after a CPU read at `addr`, and the byte read.
    pub open spec fn cpu_read(self, addr: u16) -> (Self, u8) {
        match self {
            MapperKind::Dummy(m) => (MapperKind::Dummy(m.cpu_read(addr).0), m.cpu_read(addr).1),
            MapperKind::Nrom(m) => (MapperKind::Nrom(m.cpu_read(addr).0), m.cpu_read(addr).1),
        }
    }

    /// The mapping after a CPU write of `data` at `addr`.
    pub open spec fn cpu_write(self, addr: u16, data: u8) -> Self {
        match self {
            MapperKind::Dummy(m) => MapperKind::Dummy(m.cpu_write(addr, data)),
            MapperKind::Nrom(m) => MapperKind::Nrom(m.cpu_write(addr, data)),
        }
    }

    /// The mapping after a PPU read at `addr`, and the byte read.
    pub open spec fn ppu_read(self, addr: u16) -> (Self, u8) {
        match self {
            MapperKind::Dummy(m) => (MapperKind::Dummy(m.ppu_read(addr).0), m.ppu_read(addr).1),
            MapperKind::Nrom(m) => (MapperKind::Nrom(m.ppu_read(addr).0), m.ppu_read(addr).1),
        }
    }

    /// The mapping after a PPU write of `data` at `addr`.
    pub open spec fn ppu_write(self, addr: u16, data: u8) -> Self {
        match self {
            MapperKind::Dummy(m) => MapperKind::Dummy(m.ppu_write(addr, data)),
            MapperKind::Nrom(m) => MapperKind::Nrom(m.ppu_write(addr, data)),
        }
    }

    /// The nametable arrangement that the cartridge wires.
    pub open spec fn mirroring(&self) -> Mirroring {
        match *self {
            MapperKind::Dummy(m) => m.mirroring(),
            MapperKind::Nrom(m) => m.mirroring(),
        }
    }

    pub fn maps_cpu(&self, addr: u16) -> (b: bool)
        ensures
            b == self.decodes_cpu(addr),
    {
        match self {
            MapperKind::Dummy(m) => m.maps_cpu(addr),
            MapperKind::Nrom(m) => m.maps_cpu(addr),
        }
    }

    /// Read access on PRG bus.
    pub fn read_cpu(&mut self, addr: u16) -> (data: u8)
        requires
            old(self).decodes_cpu(addr),
        ensures
            (*final(self), data) == old(self).cpu_read(addr),
    {
        match self {
            MapperKind::Dummy(m) => m.read_cpu(addr),
            MapperKind::Nrom(m) => m.read_cpu(addr),
        }
    }

    /// Write access on PRG bus.
    pub fn write_cpu(&mut self, addr: u16, data: u8)
        requires
            old(self).decodes_cpu(addr),
        ensures
            *final(self) == old(self).cpu_write(addr, data),
    {
        match self {
            MapperKind::Dummy(m) => m.write_cpu(addr, data),
            MapperKind::Nrom(m) => m.write_cpu(addr, data),
        }
    }

    /// Read access on CHR bus.
    pub fn read_ppu(&mut self, addr: u16) -> (data: u8)
        requires
            addr < 0x2000,
        ensures
            (*final(self), data) == old(self).ppu_read(addr),
    {
        match self {
            MapperKind::Dummy(m) => m.read_ppu(addr),
            MapperKind::Nrom(m) => m.read_ppu(addr),
        }
    }

    /// Write access on CHR bus.
    pub fn write_ppu(&mut self, addr: u16, data: u8)
        requires
            addr < 0x2000,
        ensures
            *final(self) == old(self).ppu_write(addr, data),
    {
        match self {
            MapperKind::Dummy(m) => m.write_ppu(addr, data),
            MapperKind::Nrom(m) => m.write_ppu(addr, data),
        }
    }

    pub fn nametable_mirroring(&self) -> (m: Mirroring)
        ensures
            m == self.mirroring(),
    {
        match self {
            MapperKind::Dummy(m) => m.nametable_mirroring(),
            MapperKind::Nrom(m) => m.nametable_mirroring(),
        }
    }
}

/// The cartridge slot. All that the CPU and the PPU see of a cartridge
/// goes through its mapping.
#[derive(Debug, Clone, PartialEq, Eq)]
pub struct Cartridge {
    pub mapper: MapperKind,
}

impl Cartridge {
    /// The empty slot.
    pub open spec fn empty_spec() -> Cartridge {
        Cartridge { mapper: MapperKind::Dummy(DummyMapper {  }) }
    }

    pub fn empty() -> (c: Cartridge)
        ensures
            c == Self::empty_spec(),
    {
        Cartridge { mapper: MapperKind::Dummy(DummyMapper {  }) }
    }

    /// Puts the mapping that `rom` asks for into the slot, or leaves the
    /// slot as it is when there is none.
    pub fn new(&mut self, rom: RomFile) -> (r: Result<(), LoadError>)
        ensures
            match r {
                Ok(()) => rom.mapper_result(Ok(final(self).mapper)),
                Err(e) => rom.mapper_result(Err(e)) && *final(self) == *old(self),
            },
    {
        match rom.into_mapper() {
            Ok(mapper) => {
                self.mapper = mapper;
                Ok(())
            },
            Err(e) => Err(e),
        }
    }
}

impl Default for Cartridge {
    fn default() -> (c: Self)
        ensures
            c == Self::empty_spec(),
    {
        Cartridge::empty()
    }
}

/// A ROM image builds one mapping only.
pub proof fn lemma_mapper_unique(rom: RomFile, a: Mapper000, b: Mapper000)
    requires
        a.holds(&rom),
        b.holds(&rom),
    ensures
        a == b,
{
    assert(a.prg_ram =~= b.prg_ram);
    assert(a.prg_rom =~= b.prg_rom);
    assert(a.chr_rom =~= b.chr_rom);
}

} // verus!
