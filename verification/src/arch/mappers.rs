use vstd::prelude::*;
use vstd::slice::slice_subrange;
use vstd::slice::slice_to_vec;
use crate::arch::mappers::mapper000::Mapper000;

pub mod mapper000;

verus! {

/// Why a ROM image was not loaded.
#[derive(Clone, Copy, Debug, PartialEq, Eq, Structural)]
pub enum LoadError {
    /// The image is shorter than its header claims.
    Truncated,
    /// No mapping is implemented for this mapping number.
    UnsupportedMapper(u16),
    /// The mapping does not take a PRG payload of this many bytes.
    UnsupportedPrgSize(usize),
}

/// How the four logical nametables fold onto the two that the console holds.
#[derive(Clone, Copy, Debug, PartialEq, Eq, Structural)]
pub enum Mirroring {
    /// The upper two nametables repeat the lower two.
    Horizontal,
    /// The right two nametables repeat the left two.
    Vertical,
}

/// A cartridge's bank mapping: what the CPU and the PPU see in the
/// cartridge's part of their address spaces.
///
/// Each access is a function of the mapping and the address; a read may
/// change the mapping, as bank-switching hardware does.
pub trait Mapper: Sized {
    /// The images that this mapping can hold.
    spec fn accepts(rom: &RomFile) -> bool;

    /// `self` is the mapping as `new` builds it from `rom`.
    spec fn holds(&self, rom: &RomFile) -> bool;

    /// The CPU addresses at or above `$4020` that the mapping decodes.
    spec fn decodes_cpu(&self, addr: u16) -> bool;

    /// The mapping after a CPU read at `addr`, and the byte read.
    spec fn cpu_read(self, addr: u16) -> (Self, u8);

    /// The mapping after a CPU write of `data` at `addr`.
    spec fn cpu_write(self, addr: u16, data: u8) -> Self;

    /// The mapping after a PPU read at `addr`, and the byte read.
    spec fn ppu_read(self, addr: u16) -> (Self, u8);

    /// The mapping after a PPU write of `data` at `addr`.
    spec fn ppu_write(self, addr: u16, data: u8) -> Self;

    /// The nametable arrangement that the cartridge wires.
    spec fn mirroring(&self) -> Mirroring;

    /// Populate cartridge data from ROM file.
    fn new(rom: RomFile) -> (m: Self)
        requires
            Self::accepts(&rom),
        ensures
            m.holds(&rom),
    ;

    fn maps_cpu(&self, addr: u16) -> (b: bool)
        ensures
            b == self.decodes_cpu(addr),
    ;

    /// Read access on PRG bus.
    fn read_cpu(&mut self, addr: u16) -> (data: u8)
        requires
            old(self).decodes_cpu(addr),
        ensures
            (*final(self), data) == old(self).cpu_read(addr),
    ;

    /// Write access on PRG bus.
    fn write_cpu(&mut self, addr: u16, data: u8)
        requires
            old(self).decodes_cpu(addr),
        ensures
            *final(self) == old(self).cpu_write(addr, data),
    ;

    /// Read access on CHR bus.
    fn read_ppu(&mut self, addr: u16) -> (data: u8)
        requires
            addr < 0x2000,
        ensures
            (*final(self), data) == old(self).ppu_read(addr),
    ;

    /// Write access on CHR bus.
    fn write_ppu(&mut self, addr: u16, data: u8)
        requires
            addr < 0x2000,
        ensures
            *final(self) == old(self).ppu_write(addr, data),
    ;

    fn nametable_mirroring(&self) -> (m: Mirroring)
        ensures
            m == self.mirroring(),
    ;
}

/// The mapping of an empty cartridge slot: every read gives 0, every
/// write is lost.
#[derive(Debug, Copy, Clone, PartialEq, Eq, Structural)]
pub struct DummyMapper {}

impl Mapper for DummyMapper {
    open spec fn accepts(rom: &RomFile) -> bool {
        true
    }

    open spec fn holds(&self, rom: &RomFile) -> bool {
        true
    }

    open spec fn decodes_cpu(&self, addr: u16) -> bool {
        true
    }

    open spec fn cpu_read(self, addr: u16) -> (Self, u8) {
        (self, 0)
    }

    open spec fn cpu_write(self, addr: u16, data: u8) -> Self {
        self
    }

    open spec fn ppu_read(self, addr: u16) -> (Self, u8) {
        (self, 0)
    }

    open spec fn ppu_write(self, addr: u16, data: u8) -> Self {
        self
    }

    open spec fn mirroring(&self) -> Mirroring {
        Mirroring::Vertical
    }

    fn new(_rom: RomFile) -> (m: Self) {
        Self {  }
    }

    fn maps_cpu(&self, _addr: u16) -> (b: bool) {
        true
    }

    fn read_cpu(&mut self, _addr: u16) -> (data: u8) {
        0
    }

    fn write_cpu(&mut self, _addr: u16, _data: u8) {
    }

    fn read_ppu(&mut self, _addr: u16) -> (data: u8) {
        0
    }

    fn write_ppu(&mut self, _addr: u16, _data: u8) {
    }

    fn nametable_mirroring(&self) -> (m: Mirroring) {
        Mirroring::Vertical
    }
}

/// The mappings that the console can hold, one variant each.
#[derive(Debug, Copy, Clone, PartialEq, Eq)]
pub enum MapperKind {
    Dummy(DummyMapper),
    Nrom(Mapper000),
}

/// Whether byte 6 of an image's header announces a 512-byte trainer.
pub open spec fn image_has_trainer(data: Seq<u8>) -> bool {
    data[6] & 0x04 != 0
}

/// Whether byte 7 of an image's header announces the INST-ROM and PROM blocks.
pub open spec fn image_has_inst_rom(data: Seq<u8>) -> bool {
    data[7] & 0x02 != 0
}

/// Where the PRG payload starts.
pub open spec fn image_prg_start(data: Seq<u8>) -> int {
    if image_has_trainer(data) {
        528
    } else {
        16
    }
}

/// Where the CHR payload starts: behind `header[4]` units of 16 KiB.
pub open spec fn image_chr_start(data: Seq<u8>) -> int {
    image_prg_start(data) + 16384 * data[4]
}

/// Where the CHR payload ends: behind `header[5]` units of 8 KiB.
pub open spec fn image_chr_end(data: Seq<u8>) -> int {
    image_chr_start(data) + 8192 * data[5]
}

/// The number of bytes that the header claims for the whole image.
pub open spec fn image_len(data: Seq<u8>) -> int {
    if image_has_inst_rom(data) {
        image_chr_end(data) + 8192 + 32
    } else {
        image_chr_end(data)
    }
}

/// The image holds a header and all that the header claims.
pub open spec fn image_complete(data: Seq<u8>) -> bool {
    16 <= data.len() && image_len(data) <= data.len()
}

/// The parts of an iNES image.
#[derive(Debug, Clone, PartialEq, Eq)]
pub struct RomFile {
    pub header: [u8; 16],
    pub trainer: Option<[u8; 512]>,
    pub prg: Vec<u8>,
    pub chr: Vec<u8>,
    pub inst_rom: Option<[u8; 8192]>,
    pub prom: Option<([u8; 16], [u8; 16])>,
}

/// `N` bytes of `data` from `at` on, written over `out`.
fn array_from<const N: usize>(out: [u8; N], data: &[u8], at: usize) -> (r: [u8; N])
    requires
        at + N <= data.len(),
    ensures
        r@ == data@.subrange(at as int, at + N),
{
    let mut out = out;
    let mut i: usize = 0;
    while i < N
        invariant
            i <= N,
            at + N <= data.len(),
            forall|j: int| 0 <= j < i ==> out[j] == data@[at + j],
        decreases N - i,
    {
        out[i] = data[at + i];
        i += 1;
    }
    assert(out@ =~= data@.subrange(at as int, at + N));
    out
}

impl RomFile {
    /// The parts of `self` are the parts of the image `data`, each at the
    /// place that the header gives it.
    pub open spec fn parsed_from(&self, data: Seq<u8>) -> bool {
        let prg = image_prg_start(data);
        let chr = image_chr_start(data);
        let end = image_chr_end(data);
        &&& self.header@ == data.subrange(0, 16)
        &&& match self.trainer {
            Some(t) => image_has_trainer(data) && t@ == data.subrange(16, 528),
            None => !image_has_trainer(data),
        }
        &&& self.prg@ == data.subrange(prg, chr)
        &&& self.chr@ == data.subrange(chr, end)
        &&& match self.inst_rom {
            Some(rom) => image_has_inst_rom(data) && rom@ == data.subrange(end, end + 8192),
            None => !image_has_inst_rom(data),
        }
        &&& match self.prom {
            Some((p0, p1)) => {
                &&& image_has_inst_rom(data)
                &&& p0@ == data.subrange(end + 8192, end + 8208)
                &&& p1@ == data.subrange(end + 8208, end + 8224)
            },
            None => !image_has_inst_rom(data),
        }
    }

    /// Whether the header is in the iNES 2 format.
    pub open spec fn ines2(&self) -> bool {
        (self.header[7] >> 2) & 0b11 == 2
    }

    /// The mapping number: the high nibbles of header bytes 6 and 7, and
    /// in iNES 2 a third nibble above them from byte 8.
    pub open spec fn mapper(&self) -> u16 {
        if self.ines2() {
            (((self.header[8] & 0x0F) as u16) << 8) | ((self.header[7] & 0xF0) as u16) | ((
            self.header[6] >> 4) as u16)
        } else {
            ((self.header[7] & 0xF0) | (self.header[6] >> 4)) as u16
        }
    }

    /// What `into_mapper` gives for `self`.
    pub open spec fn mapper_result(&self, r: Result<MapperKind, LoadError>) -> bool {
        if self.mapper() != 0 {
            r == Err::<MapperKind, LoadError>(LoadError::UnsupportedMapper(self.mapper()))
        } else if !Mapper000::accepts(self) {
            r == Err::<MapperKind, LoadError>(LoadError::UnsupportedPrgSize(self.prg.len()))
        } else {
            r matches Ok(MapperKind::Nrom(m)) && m.holds(self)
        }
    }

    /// Splits an iNES image into its parts, or refuses it when it ends
    /// before the last part that its header claims.
    pub fn new(data: &[u8]) -> (r: Result<RomFile, LoadError>)
        ensures
            r is Ok <==> image_complete(data@),
            r matches Ok(rom) ==> rom.parsed_from(data@),
            r matches Err(e) ==> e == LoadError::Truncated,
    {
        let n = data.len();
        if n < 16 {
            return Err(LoadError::Truncated);
        }
        let header = array_from([0u8; 16], data, 0);
        let mut ptr: usize = 16;
        let mut trainer: Option<[u8; 512]> = None;
        if data[6] & 0x04 != 0 {
            if n < 528 {
                return Err(LoadError::Truncated);
            }
            trainer = Some(array_from([0u8; 512], data, 16));
            ptr = 528;
        }
        let prg_len: usize = 16384 * (data[4] as usize);
        if n - ptr < prg_len {
            return Err(LoadError::Truncated);
        }
        let prg = slice_to_vec(slice_subrange(data, ptr, ptr + prg_len));
        ptr = ptr + prg_len;

        let chr_len: usize = 8192 * (data[5] as usize);
        if n - ptr < chr_len {
            return Err(LoadError::Truncated);
        }
        let chr = slice_to_vec(slice_subrange(data, ptr, ptr + chr_len));
        ptr = ptr + chr_len;

        let mut inst_rom: Option<[u8; 8192]> = None;
        let mut prom: Option<([u8; 16], [u8; 16])> = None;
        if data[7] & 0x02 != 0 {
            if n - ptr < 8192 + 32 {
                return Err(LoadError::Truncated);
            }
            inst_rom = Some(array_from([0u8; 8192], data, ptr));
            let p0 = array_from([0u8; 16], data, ptr + 8192);
            let p1 = array_from([0u8; 16], data, ptr + 8208);
            prom = Some((p0, p1));
        }
        Ok(RomFile { header, trainer, prg, chr, inst_rom, prom })
    }

    #[inline(always)]
    pub fn is_ines2(&self) -> (b: bool)
        ensures
            b == self.ines2(),
    {
        ((self.header[7] >> 2) & 0b11) == 2
    }

    #[inline(always)]
    pub fn mapper_number(&self) -> (n: u16)
        ensures
            n == self.mapper(),
    {
        if self.is_ines2() {
            (((self.header[8] & 0x0F) as u16) << 8) | ((self.header[7] & 0xF0) as u16) | ((
            self.header[6] >> 4) as u16)
        } else {
            ((self.header[7] & 0xF0) | (self.header[6] >> 4)) as u16
        }
    }

    /// Builds the mapping that the header names. Only mapping 0 exists;
    /// it takes a PRG payload of one or two 16 KiB units.
    pub fn into_mapper(self) -> (r: Result<MapperKind, LoadError>)
        ensures
            self.mapper_result(r),
    {
        let number = self.mapper_number();
        if number != 0 {
            Err(LoadError::UnsupportedMapper(number))
        } else if !Mapper000::takes(&self) {
            Err(LoadError::UnsupportedPrgSize(self.prg.len()))
        } else {
            Ok(MapperKind::Nrom(Mapper000::new(self)))
        }
    }
}

} // verus!
