use vstd::prelude::*;
use vstd::array::spec_array_fill_for_copy_type;
use vstd::array::spec_array_update;
use crate::arch::mappers::Mirroring;
use crate::arch::ClockDivider;
use crate::arch::Nes;

verus! {

/// The dots of one scanline.
pub const DOTS: u16 = 341;

/// The scanlines of one frame.
pub const LINES: u16 = 262;

/// The PPU cycles after power-up during which the control ports are
/// locked: three for each of the CPU's first 29,658 cycles.
pub const UNLOCK_AFTER: u32 = 88_974;

/// Where the beam is: the dot within the scanline, the scanline within
/// the frame, and whether the frame is an odd one.
#[derive(Copy, Clone, Debug, PartialEq, Eq, Structural)]
pub struct PixelPos {
    pub cycle: u16,
    pub scanline: u16,
    pub is_odd: bool,
}

impl PixelPos {
    /// The position lies inside the frame.
    pub open spec fn wf(self) -> bool {
        self.cycle < DOTS && self.scanline < LINES
    }

    /// The position at power-up: the start of the pre-render line of an
    /// odd frame.
    pub open spec fn power_on() -> PixelPos {
        PixelPos { cycle: 0, scanline: 261, is_odd: true }
    }

    /// The number of dots since the start of the frame.
    pub open spec fn index(self) -> int {
        self.scanline * 341 + self.cycle
    }

    /// The position one dot later. The last dot of a frame is followed by
    /// dot 0 of line 0 of the next frame, whose parity is the opposite;
    /// if that frame is odd and `skip` holds, by dot 1.
    pub open spec fn next(self, skip: bool) -> PixelPos {
        if self.cycle + 1 < DOTS {
            PixelPos { cycle: (self.cycle + 1) as u16, ..self }
        } else if self.scanline + 1 < LINES {
            PixelPos { cycle: 0, scanline: (self.scanline + 1) as u16, ..self }
        } else if !self.is_odd && skip {
            PixelPos { cycle: 1, scanline: 0, is_odd: true }
        } else {
            PixelPos { cycle: 0, scanline: 0, is_odd: !self.is_odd }
        }
    }

    /// The position `dots` dots later.
    pub open spec fn advance(self, dots: nat, skip: bool) -> PixelPos
        decreases dots,
    {
        if dots == 0 {
            self
        } else {
            self.advance((dots - 1) as nat, skip).next(skip)
        }
    }

    pub fn new() -> (p: PixelPos)
        ensures
            p == Self::power_on(),
    {
        PixelPos { cycle: 0, scanline: 261, is_odd: true }
    }

    /// Moves the beam by one dot; `skip` says whether background
    /// rendering is on, which shortens odd frames by their first dot.
    pub fn inc(&mut self, skip: bool)
        requires
            old(self).wf(),
        ensures
            *final(self) == old(self).next(skip),
            final(self).wf(),
    {
        self.cycle += 1;
        if self.cycle == DOTS {
            self.cycle = 0;
            self.scanline += 1;

            if self.scanline == LINES {
                self.scanline = 0;
                self.is_odd = !self.is_odd;

                if self.is_odd && skip {
                    self.cycle = 1;
                }
            }
        }
    }

    /// Inside a frame the beam moves one dot at a time: the dot count
    /// grows by one, and the parity stays.
    pub proof fn lemma_next_in_frame(self, skip: bool)
        requires
            self.wf(),
            self.index() + 1 < 341 * 262,
        ensures
            self.next(skip).wf(),
            self.next(skip).index() == self.index() + 1,
            self.next(skip).is_odd == self.is_odd,
    {
    }

    /// As long as the frame does not end, `dots` dots add `dots` to the
    /// dot count.
    pub proof fn lemma_advance_in_frame(self, dots: nat, skip: bool)
        requires
            self.wf(),
            self.index() + dots < 341 * 262,
        ensures
            self.advance(dots, skip).wf(),
            self.advance(dots, skip).index() == self.index() + dots,
            self.advance(dots, skip).is_odd == self.is_odd,
        decreases dots,
    {
        if dots > 0 {
            self.lemma_advance_in_frame((dots - 1) as nat, skip);
            self.advance((dots - 1) as nat, skip).lemma_next_in_frame(skip);
        }
    }

    /// The first dot of a frame: dot 0 of line 0, or dot 1 for an odd
    /// frame when `skip` holds.
    pub open spec fn frame_start(odd: bool, skip: bool) -> PixelPos {
        PixelPos { cycle: if odd && skip { 1u16 } else { 0u16 }, scanline: 0, is_odd: odd }
    }

    /// The dots of a frame: 89,342, or 89,341 for an odd frame when
    /// `skip` holds.
    pub open spec fn frame_dots(odd: bool, skip: bool) -> nat {
        if odd && skip {
            89_341
        } else {
            89_342
        }
    }

    /// A frame lasts `frame_dots` dots: that many dots after its first
    /// dot the beam is at the first dot of the next frame, whose parity
    /// is the opposite.
    pub proof fn lemma_frame_length(odd: bool, skip: bool)
        ensures
            Self::frame_start(odd, skip).advance(Self::frame_dots(odd, skip), skip)
                == Self::frame_start(!odd, skip),
    {
        let start = Self::frame_start(odd, skip);
        let n = (Self::frame_dots(odd, skip) - 1) as nat;
        start.lemma_advance_in_frame(n, skip);
        let last = start.advance(n, skip);
        assert(last.scanline == 261 && last.cycle == 340);
        assert(start.advance((n + 1) as nat, skip) == last.next(skip));
    }
}

impl Default for PixelPos {
    fn default() -> (p: Self)
        ensures
            p == Self::power_on(),
    {
        PixelPos::new()
    }
}

/// Facts on the bit fields of the PPU's registers.
proof fn lemma_fields(v: u16, b: u8)
    by (bit_vector)
    ensures
        v & 0x1F < 32,
        (v >> 5) & 0x1F < 32,
        (v >> 10) & 0x03 < 4,
        (v >> 12) & 0x07 < 8,
        v & 0x1F != 31 ==> v < 0xFFFF,
        b & 0x03 < 4,
        b & 0x07 < 8,
        b >> 3 < 32,
        b & 0x3F < 64,
{
}

/// The control port `$2000`.
#[derive(Copy, Clone, Debug, PartialEq, Eq, Structural)]
pub struct CtrlReg(pub u8);

impl CtrlReg {
    /// Bits 0 and 1: the nametable that scrolling starts from.
    pub open spec fn nametable(self) -> u8 {
        self.0 & 0x03
    }

    /// Bit 2: whether an access through `$2007` moves the VRAM address
    /// by 32 and not by 1.
    pub open spec fn vram_inc(self) -> bool {
        self.0 & 0x04 != 0
    }

    /// Bit 3: the pattern table of 8x8 sprites.
    pub open spec fn sprite_pattern(self) -> bool {
        self.0 & 0x08 != 0
    }

    /// Bit 4: the pattern table of the background.
    pub open spec fn background_pattern(self) -> bool {
        self.0 & 0x10 != 0
    }

    /// Bit 5: whether sprites are 16 lines tall.
    pub open spec fn tall_sprites(self) -> bool {
        self.0 & 0x20 != 0
    }

    /// Bit 6: master/slave select.
    pub open spec fn master_slave(self) -> bool {
        self.0 & 0x40 != 0
    }

    /// Bit 7: whether the start of vertical blank raises NMI.
    pub open spec fn nmi_enabled(self) -> bool {
        self.0 & 0x80 != 0
    }

    /// The register with `value & 3` in bits 0 and 1.
    pub open spec fn with_nametable(self, value: u8) -> CtrlReg {
        CtrlReg((self.0 & 0xFC) | (value & 0x03))
    }

    /// By how much an access through `$2007` moves the VRAM address.
    pub open spec fn stride(self) -> u16 {
        if self.vram_inc() {
            32
        } else {
            1
        }
    }

    pub fn base_nametable_addr(&self) -> (r: u8)
        ensures
            r == self.nametable(),
    {
        self.0 & 0x03
    }

    pub fn set_base_nametable_addr(&mut self, value: u8)
        ensures
            *final(self) == old(self).with_nametable(value),
    {
        self.0 = (self.0 & 0xFC) | (value & 0x03);
    }

    pub fn vram_addr_inc(&self) -> (r: bool)
        ensures
            r == self.vram_inc(),
    {
        self.0 & 0x04 != 0
    }

    pub fn sprite_pattern_addr(&self) -> (r: bool)
        ensures
            r == self.sprite_pattern(),
    {
        self.0 & 0x08 != 0
    }

    pub fn background_pattern_addr(&self) -> (r: bool)
        ensures
            r == self.background_pattern(),
    {
        self.0 & 0x10 != 0
    }

    pub fn sprite_size(&self) -> (r: bool)
        ensures
            r == self.tall_sprites(),
    {
        self.0 & 0x20 != 0
    }

    pub fn master_slave_select(&self) -> (r: bool)
        ensures
            r == self.master_slave(),
    {
        self.0 & 0x40 != 0
    }

    pub fn generate_nmi(&self) -> (r: bool)
        ensures
            r == self.nmi_enabled(),
    {
        self.0 & 0x80 != 0
    }
}

/// The mask port `$2001`.
#[derive(Copy, Clone, Debug, PartialEq, Eq, Structural)]
pub struct MaskReg(pub u8);

impl MaskReg {
    /// Bit 3: whether the background is drawn.
    pub open spec fn background(self) -> bool {
        self.0 & 0x08 != 0
    }

    /// Bit 4: whether sprites are drawn.
    pub open spec fn sprites(self) -> bool {
        self.0 & 0x10 != 0
    }

    /// The PPU fetches and scrolls: background or sprites are on.
    pub open spec fn rendering(self) -> bool {
        self.background() || self.sprites()
    }

    pub fn greyscale(&self) -> (r: bool)
        ensures
            r == (self.0 & 0x01 != 0),
    {
        self.0 & 0x01 != 0
    }

    pub fn show_background_left(&self) -> (r: bool)
        ensures
            r == (self.0 & 0x02 != 0),
    {
        self.0 & 0x02 != 0
    }

    pub fn show_sprites_left(&self) -> (r: bool)
        ensures
            r == (self.0 & 0x04 != 0),
    {
        self.0 & 0x04 != 0
    }

    pub fn show_background(&self) -> (r: bool)
        ensures
            r == self.background(),
    {
        self.0 & 0x08 != 0
    }

    pub fn show_sprites(&self) -> (r: bool)
        ensures
            r == self.sprites(),
    {
        self.0 & 0x10 != 0
    }

    /// green on PAL/Dendy
    pub fn emphasize_red(&self) -> (r: bool)
        ensures
            r == (self.0 & 0x20 != 0),
    {
        self.0 & 0x20 != 0
    }

    /// red on PAL/Dendy
    pub fn emphasize_green(&self) -> (r: bool)
        ensures
            r == (self.0 & 0x40 != 0),
    {
        self.0 & 0x40 != 0
    }

    pub fn emphasize_blue(&self) -> (r: bool)
        ensures
            r == (self.0 & 0x80 != 0),
    {
        self.0 & 0x80 != 0
    }
}

/// A VRAM address register, `v` or `t`, laid out as
/// `.yyy NN YYYYY XXXXX`: fine Y, nametable select, coarse Y, coarse X.
#[derive(Copy, Clone, Debug, PartialEq, Eq, Structural)]
pub struct VramAddr(pub u16);

/// The bits of coarse X and the horizontal nametable bit.
pub const HORIZONTAL_BITS: u16 = 0x041F;

/// The bits of fine Y, coarse Y and the vertical nametable bit.
pub const VERTICAL_BITS: u16 = 0x7BE0;

impl VramAddr {
    /// Bits 0 to 4.
    pub open spec fn x_coarse(self) -> u8 {
        (self.0 & 0x1F) as u8
    }

    /// Bits 5 to 9.
    pub open spec fn y_coarse(self) -> u8 {
        ((self.0 >> 5) & 0x1F) as u8
    }

    /// Bits 10 and 11.
    pub open spec fn nametable(self) -> u8 {
        ((self.0 >> 10) & 0x03) as u8
    }

    /// Bits 12 to 14.
    pub open spec fn y_fine(self) -> u8 {
        ((self.0 >> 12) & 0x07) as u8
    }

    /// The register with the low five bits of `x` as coarse X.
    pub open spec fn with_x_coarse(self, x: u8) -> VramAddr {
        VramAddr((self.0 & 0xFFE0) | ((x & 0x1F) as u16))
    }

    /// The register with the low five bits of `y` as coarse Y.
    pub open spec fn with_y_coarse(self, y: u8) -> VramAddr {
        VramAddr((self.0 & 0xFC1F) | (((y & 0x1F) as u16) << 5))
    }

    /// The register with the low two bits of `n` as nametable select.
    pub open spec fn with_nametable(self, n: u8) -> VramAddr {
        VramAddr((self.0 & 0xF3FF) | (((n & 0x03) as u16) << 10))
    }

    /// The register with the low three bits of `y` as fine Y.
    pub open spec fn with_y_fine(self, y: u8) -> VramAddr {
        VramAddr((self.0 & 0x8FFF) | (((y & 0x07) as u16) << 12))
    }

    /// The register with the bits of `mask` taken from `from`.
    pub open spec fn with_bits(self, mask: u16, from: VramAddr) -> VramAddr {
        VramAddr((self.0 & !mask) | (from.0 & mask))
    }

    /// The register one tile to the right: coarse X plus one, and from
    /// 31 back to 0 in the horizontally neighbouring nametable.
    pub open spec fn right(self) -> VramAddr {
        if self.x_coarse() == 31 {
            VramAddr(self.with_x_coarse(0).0 ^ 0x0400)
        } else {
            VramAddr((self.0 + 1) as u16)
        }
    }

    /// The register one line down: fine Y plus one, and from 7 back to 0
    /// in the next row of tiles. Row 29 is followed by row 0 of the
    /// vertically neighbouring nametable; row 31, which lies in the
    /// attribute area, by row 0 of the same one.
    pub open spec fn down(self) -> VramAddr {
        if self.y_fine() == 7 {
            let top = self.with_y_fine(0);
            if top.y_coarse() == 29 {
                VramAddr(top.with_y_coarse(0).0 ^ 0x0800)
            } else if top.y_coarse() == 31 {
                top.with_y_coarse(0)
            } else {
                top.with_y_coarse((top.y_coarse() + 1) as u8)
            }
        } else {
            self.with_y_fine((self.y_fine() + 1) as u8)
        }
    }

    /// The register after an access through `$2007`: `stride` further,
    /// within 15 bits.
    pub open spec fn stepped(self, stride: u16) -> VramAddr {
        VramAddr(((self.0 + stride) % 0x8000) as u16)
    }

    pub fn coarse_x(&self) -> (r: u8)
        ensures
            r == self.x_coarse(),
            r < 32,
    {
        proof {
            lemma_fields(self.0, 0);
        }
        (self.0 & 0x1F) as u8
    }

    pub fn coarse_y(&self) -> (r: u8)
        ensures
            r == self.y_coarse(),
            r < 32,
    {
        proof {
            lemma_fields(self.0, 0);
        }
        ((self.0 >> 5) & 0x1F) as u8
    }

    pub fn fine_y(&self) -> (r: u8)
        ensures
            r == self.y_fine(),
            r < 8,
    {
        proof {
            lemma_fields(self.0, 0);
        }
        ((self.0 >> 12) & 0x07) as u8
    }

    pub fn set_coarse_x(&mut self, x: u8)
        ensures
            *final(self) == old(self).with_x_coarse(x),
    {
        self.0 = (self.0 & 0xFFE0) | ((x & 0x1F) as u16);
    }

    pub fn set_coarse_y(&mut self, y: u8)
        ensures
            *final(self) == old(self).with_y_coarse(y),
    {
        self.0 = (self.0 & 0xFC1F) | (((y & 0x1F) as u16) << 5);
    }

    pub fn set_fine_y(&mut self, y: u8)
        ensures
            *final(self) == old(self).with_y_fine(y),
    {
        self.0 = (self.0 & 0x8FFF) | (((y & 0x07) as u16) << 12);
    }

    /// The address with the nametable select of `nametable` in place of
    /// its own.
    pub fn read(self, nametable: CtrlReg) -> (r: u16)
        ensures
            r == self.0 | ((nametable.nametable() as u16) << 10),
    {
        self.0 | ((nametable.base_nametable_addr() as u16) << 10)
    }

    /// Splits `data` into the register, without the nametable select, and
    /// the nametable select, which goes to `nametable`.
    pub fn write(&mut self, data: u16, nametable: &mut CtrlReg)
        ensures
            final(self).0 == data & 0x73FF,
            *final(nametable) == old(nametable).with_nametable(VramAddr(data).nametable()),
    {
        proof {
            lemma_fields(data, 0);
        }
        self.0 = data & 0x73FF;
        nametable.set_base_nametable_addr(((data >> 10) & 0x03) as u8);
    }

    pub fn increment_coarse_x(&mut self)
        ensures
            *final(self) == old(self).right(),
    {
        proof {
            lemma_fields(self.0, 0);
        }
        if self.coarse_x() == 31 {
            self.set_coarse_x(0);
            self.0 = self.0 ^ 0x0400;
        } else {
            self.0 += 1;
        }
    }

    pub fn increment_fine_y(&mut self)
        ensures
            *final(self) == old(self).down(),
    {
        if self.fine_y() == 7 {
            self.set_fine_y(0);

            if self.coarse_y() == 29 {
                self.set_coarse_y(0);
                self.0 = self.0 ^ 0x0800;
            } else if self.coarse_y() == 31 {
                self.set_coarse_y(0);
            } else {
                let y = self.coarse_y();
                self.set_coarse_y(y + 1);
            }
        } else {
            let y = self.fine_y();
            self.set_fine_y(y + 1);
        }
    }

    /// Takes the bits of `mask` from `from`.
    pub fn copy_bits(&mut self, mask: u16, from: VramAddr)
        ensures
            *final(self) == old(self).with_bits(mask, from),
    {
        self.0 = (self.0 & !mask) | (from.0 & mask);
    }

    /// Moves the address by `stride`, within 15 bits.
    pub fn step(&mut self, stride: u16)
        requires
            stride <= 32,
        ensures
            *final(self) == old(self).stepped(stride),
    {
        self.0 = (((self.0 as u32) + (stride as u32)) % 0x8000) as u16;
    }
}

/// The four fields of a VRAM address and its unused top bit.
pub struct Scroll {
    pub coarse_x: int,
    pub coarse_y: int,
    pub nametable: int,
    pub fine_y: int,
    pub top: bool,
}

impl VramAddr {
    /// The register as its fields.
    pub open spec fn fields(self) -> Scroll {
        Scroll {
            coarse_x: self.x_coarse() as int,
            coarse_y: self.y_coarse() as int,
            nametable: self.nametable() as int,
            fine_y: self.y_fine() as int,
            top: self.0 & 0x8000 != 0,
        }
    }
}

/// A field that is set holds the low bits of the byte, and the bits
/// outside the field stay.
proof fn lemma_set_field_bits(v: u16, b: u8)
    by (bit_vector)
    ensures
        ((v & 0xFFE0) | ((b & 0x1F) as u16)) & 0x1F == b % 32,
        ((v & 0xFFE0) | ((b & 0x1F) as u16)) & 0xFFE0 == v & 0xFFE0,
        (((v & 0xFC1F) | (((b & 0x1F) as u16) << 5)) >> 5) & 0x1F == b % 32,
        ((v & 0xFC1F) | (((b & 0x1F) as u16) << 5)) & 0xFC1F == v & 0xFC1F,
        (((v & 0xF3FF) | (((b & 0x03) as u16) << 10)) >> 10) & 0x03 == b % 4,
        ((v & 0xF3FF) | (((b & 0x03) as u16) << 10)) & 0xF3FF == v & 0xF3FF,
        (((v & 0x8FFF) | (((b & 0x07) as u16) << 12)) >> 12) & 0x07 == b % 8,
        ((v & 0x8FFF) | (((b & 0x07) as u16) << 12)) & 0x8FFF == v & 0x8FFF,
{
}

/// Registers that agree outside one field agree in the other fields.
proof fn lemma_fields_of_bits(v: u16, w: u16)
    by (bit_vector)
    ensures
        v & 0xFFE0 == w & 0xFFE0 ==> (v >> 5) & 0x1F == (w >> 5) & 0x1F && (v >> 10) & 0x03 == (w
            >> 10) & 0x03 && (v >> 12) & 0x07 == (w >> 12) & 0x07 && v & 0x8000 == w & 0x8000,
        v & 0xFC1F == w & 0xFC1F ==> v & 0x1F == w & 0x1F && (v >> 10) & 0x03 == (w >> 10) & 0x03
            && (v >> 12) & 0x07 == (w >> 12) & 0x07 && v & 0x8000 == w & 0x8000,
        v & 0xF3FF == w & 0xF3FF ==> v & 0x1F == w & 0x1F && (v >> 5) & 0x1F == (w >> 5) & 0x1F
            && (v >> 12) & 0x07 == (w >> 12) & 0x07 && v & 0x8000 == w & 0x8000,
        v & 0x8FFF == w & 0x8FFF ==> v & 0x1F == w & 0x1F && (v >> 5) & 0x1F == (w >> 5) & 0x1F
            && (v >> 10) & 0x03 == (w >> 10) & 0x03 && v & 0x8000 == w & 0x8000,
{
}

/// What a step to the right and the change of a nametable do to the
/// bits.
proof fn lemma_step_bits(v: u16)
    by (bit_vector)
    ensures
        v & 0x1F != 31 ==> (((v + 1) as u16) & 0x1F == (v & 0x1F) + 1 && ((v + 1) as u16) & 0xFFE0
            == v & 0xFFE0),
        ((v ^ 0x0400) >> 10) & 0x03 == (if ((v >> 10) & 0x03) % 2 == 0 {
            ((v >> 10) & 0x03) + 1
        } else {
            ((v >> 10) & 0x03) - 1
        }),
        (v ^ 0x0400) & 0xF3FF == v & 0xF3FF,
        ((v ^ 0x0800) >> 10) & 0x03 == (if (v >> 10) & 0x03 < 2 {
            ((v >> 10) & 0x03) + 2
        } else {
            ((v >> 10) & 0x03) - 2
        }),
        (v ^ 0x0800) & 0xF3FF == v & 0xF3FF,
{
}

impl VramAddr {
    /// Setting one field sets it to the low bits of the byte and leaves
    /// the other fields and the top bit as they are.
    pub proof fn lemma_with_field(self, b: u8)
        ensures
            self.with_x_coarse(b).fields() == (Scroll { coarse_x: b as int % 32, ..self.fields() }),
            self.with_y_coarse(b).fields() == (Scroll { coarse_y: b as int % 32, ..self.fields() }),
            self.with_nametable(b).fields() == (Scroll { nametable: b as int % 4, ..self.fields() }),
            self.with_y_fine(b).fields() == (Scroll { fine_y: b as int % 8, ..self.fields() }),
    {
        let v = self.0;
        lemma_set_field_bits(v, b);
        lemma_fields(v, b);
        lemma_fields_of_bits(self.with_x_coarse(b).0, v);
        lemma_fields_of_bits(self.with_y_coarse(b).0, v);
        lemma_fields_of_bits(self.with_nametable(b).0, v);
        lemma_fields_of_bits(self.with_y_fine(b).0, v);
        lemma_fields(self.with_x_coarse(b).0, b);
        lemma_fields(self.with_y_coarse(b).0, b);
        lemma_fields(self.with_nametable(b).0, b);
        lemma_fields(self.with_y_fine(b).0, b);
    }

    /// One tile to the right: coarse X counts from 0 to 31 and round, and
    /// on the way round the nametable select changes to the nametable's
    /// horizontal neighbour. Nothing else changes.
    pub proof fn lemma_right(self)
        ensures
            self.right().fields() == (Scroll {
                coarse_x: (self.fields().coarse_x + 1) % 32,
                nametable: if self.fields().coarse_x < 31 {
                    self.fields().nametable
                } else if self.fields().nametable % 2 == 0 {
                    self.fields().nametable + 1
                } else {
                    self.fields().nametable - 1
                },
                ..self.fields()
            }),
    {
        let v = self.0;
        lemma_fields(v, 0);
        lemma_step_bits(v);
        if self.x_coarse() == 31 {
            let cleared = self.with_x_coarse(0);
            self.lemma_with_field(0);
            lemma_step_bits(cleared.0);
            lemma_fields_of_bits(self.right().0, cleared.0);
            lemma_fields(self.right().0, 0);
            lemma_fields(cleared.0, 0);
        } else {
            lemma_fields_of_bits(self.right().0, v);
            lemma_fields(self.right().0, 0);
        }
    }

    /// One line down: fine Y counts from 0 to 7 and round, and on the way
    /// round coarse Y counts on: from 29, the last row of tiles, to 0 of
    /// the nametable's vertical neighbour, from 31 to 0 of the same
    /// nametable, and else by one. Nothing else changes.
    pub proof fn lemma_down(self)
        ensures
            self.down().fields() == (Scroll {
                fine_y: (self.fields().fine_y + 1) % 8,
                coarse_y: if self.fields().fine_y < 7 {
                    self.fields().coarse_y
                } else if self.fields().coarse_y == 29 || self.fields().coarse_y == 31 {
                    0
                } else {
                    self.fields().coarse_y + 1
                },
                nametable: if self.fields().fine_y < 7 || self.fields().coarse_y != 29 {
                    self.fields().nametable
                } else if self.fields().nametable < 2 {
                    self.fields().nametable + 2
                } else {
                    self.fields().nametable - 2
                },
                ..self.fields()
            }),
    {
        lemma_fields(self.0, 0);
        if self.y_fine() == 7 {
            let top = self.with_y_fine(0);
            self.lemma_with_field(0);
            lemma_fields(top.0, 0);
            if top.y_coarse() == 29 {
                let row = top.with_y_coarse(0);
                top.lemma_with_field(0);
                lemma_step_bits(row.0);
                lemma_fields_of_bits(self.down().0, row.0);
                lemma_fields(self.down().0, 0);
                lemma_fields(row.0, 0);
            } else if top.y_coarse() == 31 {
                top.lemma_with_field(0);
            } else {
                top.lemma_with_field((top.y_coarse() + 1) as u8);
            }
        } else {
            self.lemma_with_field((self.y_fine() + 1) as u8);
        }
    }
}

/// The PPU: its ports, its scroll registers, the background pipeline, the
/// beam position, the picture, and the memory that it owns.
#[derive(Clone, Debug, PartialEq, Eq)]
pub struct Ppu {
    /// The last byte that went through a port.
    pub ports_latch: u8,
    pub cycles_since_pwrrst: u32,
    pub ctrl_unlocked: bool,
    /// The `w` register
    pub write_toggle: bool,
    pub ctrl: CtrlReg,
    pub mask: MaskReg,
    pub oam_addr: u8,
    /// The `x` register
    pub fine_x_scroll: u8,
    /// The `v` register
    pub vram_addr: VramAddr,
    /// The `t` register
    pub tmp_vram_addr: VramAddr,
    pub internal_bus_addr: u16,
    pub nametable_lat: u8,
    pub attribute_lat: u8,
    pub pattern_lower_lat: u8,
    pub pattern_upper_lat: u8,
    /// The palette numbers of the tile in the high bytes of the pattern
    /// shifters, in bits 2 and 3, and of the tile in their low bytes, in
    /// bits 0 and 1.
    pub shift_attrib: u8,
    pub shift_lower: u16,
    pub shift_upper: u16,
    pub clock_divider: ClockDivider<4>,
    pub pos: PixelPos,
    /// aka nmi_occurred
    pub vblank: bool,
    pub fb: [u32; 61440],
    /// Internal VRAM used for storing two nametables
    pub ciram: [u8; 0x800],
    pub palettes: [u8; 0x20],
    /// The colour that the host shows for each of the 64 colours of the
    /// console.
    pub pal_values: [u32; 0x40],
}

impl Ppu {
    /// The PPU at power-up: every register and every memory clear, the
    /// control ports locked, the beam at the start of the pre-render line.
    pub open spec fn power_on() -> Ppu {
        Ppu {
            ports_latch: 0,
            cycles_since_pwrrst: 0,
            ctrl_unlocked: false,
            write_toggle: false,
            ctrl: CtrlReg(0),
            mask: MaskReg(0),
            oam_addr: 0,
            fine_x_scroll: 0,
            vram_addr: VramAddr(0),
            tmp_vram_addr: VramAddr(0),
            internal_bus_addr: 0,
            nametable_lat: 0,
            attribute_lat: 0,
            pattern_lower_lat: 0,
            pattern_upper_lat: 0,
            shift_attrib: 0,
            shift_lower: 0,
            shift_upper: 0,
            clock_divider: ClockDivider { counter: 0 },
            pos: PixelPos::power_on(),
            vblank: false,
            fb: spec_array_fill_for_copy_type::<u32, 61440>(0u32),
            ciram: spec_array_fill_for_copy_type::<u8, 0x800>(0u8),
            palettes: spec_array_fill_for_copy_type::<u8, 0x20>(0u8),
            pal_values: spec_array_fill_for_copy_type::<u32, 0x40>(0u32),
        }
    }

    /// The divider and the beam are in range, fine X is three bits, and
    /// the control ports are locked only as long as they should be.
    pub open spec fn wf(self) -> bool {
        &&& self.clock_divider.wf()
        &&& self.pos.wf()
        &&& self.fine_x_scroll < 8
        &&& self.ctrl_unlocked || self.cycles_since_pwrrst < UNLOCK_AFTER
    }

    pub fn new() -> (ppu: Ppu)
        ensures
            ppu == Self::power_on(),
            ppu.wf(),
    {
        Ppu {
            ports_latch: 0,
            cycles_since_pwrrst: 0,
            ctrl_unlocked: false,
            write_toggle: false,
            ctrl: CtrlReg(0),
            mask: MaskReg(0),
            oam_addr: 0,
            fine_x_scroll: 0,
            vram_addr: VramAddr(0),
            tmp_vram_addr: VramAddr(0),
            internal_bus_addr: 0,
            nametable_lat: 0,
            attribute_lat: 0,
            pattern_lower_lat: 0,
            pattern_upper_lat: 0,
            shift_attrib: 0,
            shift_lower: 0,
            shift_upper: 0,
            clock_divider: ClockDivider::new(0),
            pos: PixelPos::new(),
            vblank: false,
            fb: [0u32; 61440],
            ciram: [0u8; 0x800],
            palettes: [0u8; 0x20],
            pal_values: [0u32; 0x40],
        }
    }
}

impl Default for Ppu {
    fn default() -> (ppu: Self)
        ensures
            ppu == Self::power_on(),
    {
        Ppu::new()
    }
}

/// The place in internal VRAM of the nametable byte at PPU address
/// `addr`: the four logical nametables fold onto two as `mirroring` says.
pub open spec fn nametable_index(addr: u16, mirroring: Mirroring) -> int {
    match mirroring {
        Mirroring::Vertical => (addr % 0x800) as int,
        Mirroring::Horizontal => ((addr % 0x1000) / 0x800) * 0x400 + addr % 0x400,
    }
}

/// The place in palette memory of PPU address `addr`: entries `$10`,
/// `$14`, `$18` and `$1C` are the entries `$00`, `$04`, `$08` and `$0C`.
pub open spec fn palette_index(addr: u16) -> int {
    let entry = (addr % 0x20) as int;
    if entry >= 0x10 && entry % 4 == 0 {
        entry - 0x10
    } else {
        entry
    }
}

/// The palette number of the tile at `v`: the two bits of the attribute
/// byte `attr` that belong to the tile's quadrant of the 4x4 tile area.
pub open spec fn attribute_quadrant(v: VramAddr, attr: u8) -> u8 {
    let right = (v.x_coarse() / 2) % 2 == 1;
    let bottom = (v.y_coarse() / 2) % 2 == 1;
    let shift: u8 = if bottom {
        if right {
            6
        } else {
            4
        }
    } else {
        if right {
            2
        } else {
            0
        }
    };
    ((attr >> shift) % 4) as u8
}

impl Ppu {
    /// The machine with `ppu` in place of its PPU.
    pub open spec fn put(n: Nes, ppu: Ppu) -> Nes {
        Nes { ppu, ..n }
    }

    /// The NMI line as the PPU drives it: low while NMI is enabled and
    /// the vertical blank flag is set.
    pub open spec fn nmi_line(self) -> bool {
        !(self.ctrl.nmi_enabled() && self.vblank)
    }

    /// The machine with the NMI line as the PPU drives it.
    pub open spec fn nmi_updated(n: Nes) -> Nes {
        Nes { cpu: crate::arch::cpu::Cpu { nmi: n.ppu.nmi_line(), ..n.cpu }, ..n }
    }

    /// The machine after a read on the PPU's bus, and the byte read.
    /// Only the low 14 bits of `addr` count.
    pub open spec fn read_spec(n: Nes, addr: u16) -> (Nes, u8) {
        let a = (addr % 0x4000) as u16;
        if a < 0x2000 {
            let (mapper, data) = n.cart.mapper.ppu_read(a);
            (Nes { cart: crate::arch::cartridge::Cartridge { mapper }, ..n }, data)
        } else if a < 0x3F00 {
            (n, n.ppu.ciram[nametable_index(a, n.cart.mapper.mirroring())])
        } else {
            (n, n.ppu.palettes[palette_index(a)])
        }
    }

    /// The machine after a write on the PPU's bus.
    pub open spec fn write_spec(n: Nes, addr: u16, data: u8) -> Nes {
        let a = (addr % 0x4000) as u16;
        if a < 0x2000 {
            Nes {
                cart: crate::arch::cartridge::Cartridge {
                    mapper: n.cart.mapper.ppu_write(a, data),
                },
                ..n
            }
        } else if a < 0x3F00 {
            let at = nametable_index(a, n.cart.mapper.mirroring());
            Self::put(n, Ppu { ciram: spec_array_update(n.ppu.ciram, at, data), ..n.ppu })
        } else {
            Self::put(
                n,
                Ppu { palettes: spec_array_update(n.ppu.palettes, palette_index(a), data), ..n.ppu },
            )
        }
    }

    /// The machine after the CPU read the port at `addr`, and the byte
    /// that the CPU gets. The port is `addr % 8`.
    ///
    /// Port 2 gives the vertical blank flag in bit 7 above the low five
    /// bits of the latch, and clears the flag and the write toggle. Port
    /// 7 gives the byte at `v` and moves `v`. Every other port gives the
    /// latch.
    pub open spec fn port_read_spec(n: Nes, addr: u16) -> (Nes, u8) {
        let port = addr % 8;
        if port == 2 {
            let latch: u8 = (if n.ppu.vblank { 0x80u8 } else { 0u8 }) | (n.ppu.ports_latch & 0x1F);
            let ppu = Ppu { ports_latch: latch, vblank: false, write_toggle: false, ..n.ppu };
            (Self::nmi_updated(Self::put(n, ppu)), latch)
        } else if port == 7 {
            let (n1, data) = Self::read_spec(n, n.ppu.vram_addr.0);
            let ppu = Ppu {
                ports_latch: data,
                vram_addr: n1.ppu.vram_addr.stepped(n1.ppu.ctrl.stride()),
                ..n1.ppu
            };
            (Self::put(n1, ppu), data)
        } else {
            (n, n.ppu.ports_latch)
        }
    }

    /// The PPU after a write of `data` to port 5 or 6, which goes to `t`,
    /// and on the second write to port 6 from `t` to `v`.
    pub open spec fn scroll_written(self, port: u16, data: u8) -> Ppu {
        let t = self.tmp_vram_addr;
        if port == 5 {
            if !self.write_toggle {
                Ppu {
                    tmp_vram_addr: t.with_x_coarse(data >> 3),
                    fine_x_scroll: data & 0x07,
                    write_toggle: true,
                    ..self
                }
            } else {
                Ppu {
                    tmp_vram_addr: t.with_y_coarse(data >> 3).with_y_fine(data & 0x07),
                    write_toggle: false,
                    ..self
                }
            }
        } else {
            if !self.write_toggle {
                Ppu {
                    tmp_vram_addr: VramAddr((((data & 0x3F) as u16) << 8) | (t.0 & 0x00FF)),
                    write_toggle: true,
                    ..self
                }
            } else {
                let whole = VramAddr((t.0 & 0xFF00) | (data as u16));
                Ppu { tmp_vram_addr: whole, vram_addr: whole, write_toggle: false, ..self }
            }
        }
    }

    /// The machine after the CPU wrote `data` to the port at `addr`.
    ///
    /// Every write goes to the latch. While the control ports are locked,
    /// a write to port 0, 1, 5 or 6 does nothing more.
    pub open spec fn port_write_spec(n: Nes, addr: u16, data: u8) -> Nes {
        let port = addr % 8;
        let ppu = Ppu { ports_latch: data, ..n.ppu };
        let n0 = Self::put(n, ppu);
        if port == 0 {
            if ppu.ctrl_unlocked {
                Self::nmi_updated(
                    Self::put(
                        n0,
                        Ppu {
                            ctrl: CtrlReg(data),
                            tmp_vram_addr: ppu.tmp_vram_addr.with_nametable(data),
                            ..ppu
                        },
                    ),
                )
            } else {
                n0
            }
        } else if port == 1 {
            if ppu.ctrl_unlocked {
                Self::put(n0, Ppu { mask: MaskReg(data), ..ppu })
            } else {
                n0
            }
        } else if port == 3 {
            Self::put(n0, Ppu { oam_addr: data, ..ppu })
        } else if port == 5 || port == 6 {
            if ppu.ctrl_unlocked {
                Self::put(n0, ppu.scroll_written(port, data))
            } else {
                n0
            }
        } else if port == 7 {
            let n1 = Self::write_spec(n0, ppu.vram_addr.0, data);
            Self::put(
                n1,
                Ppu { vram_addr: n1.ppu.vram_addr.stepped(n1.ppu.ctrl.stride()), ..n1.ppu },
            )
        } else {
            n0
        }
    }

    /// An access to a port changes nothing of the CPU but its NMI line.
    pub proof fn lemma_port_frame(n: Nes, addr: u16, data: u8)
        ensures
            Self::port_read_spec(n, addr).0.cpu == (crate::arch::cpu::Cpu {
                nmi: Self::port_read_spec(n, addr).0.cpu.nmi,
                ..n.cpu
            }),
            Self::port_write_spec(n, addr, data).cpu == (crate::arch::cpu::Cpu {
                nmi: Self::port_write_spec(n, addr, data).cpu.nmi,
                ..n.cpu
            }),
    {
    }

    /// The divider, the beam and the power-up count of `self` are those
    /// of `other`.
    pub open spec fn same_clock(self, other: Ppu) -> bool {
        &&& self.clock_divider == other.clock_divider
        &&& self.pos == other.pos
        &&& self.cycles_since_pwrrst == other.cycles_since_pwrrst
        &&& self.ctrl_unlocked == other.ctrl_unlocked
    }

    /// An access to a port keeps the PPU well formed, and its clock as it
    /// is.
    pub proof fn lemma_port_keeps_wf(n: Nes, addr: u16, data: u8)
        ensures
            n.ppu.wf() ==> Self::port_read_spec(n, addr).0.ppu.wf(),
            n.ppu.wf() ==> Self::port_write_spec(n, addr, data).ppu.wf(),
            Self::port_read_spec(n, addr).0.ppu.same_clock(n.ppu),
            Self::port_write_spec(n, addr, data).ppu.same_clock(n.ppu),
    {
        lemma_fields(0, data);
    }

    fn update_nmi_output(nes: &mut Nes)
        ensures
            *final(nes) == Self::nmi_updated(*old(nes)),
    {
        nes.cpu.nmi = !(nes.ppu.ctrl.generate_nmi() && nes.ppu.vblank);
    }

    /// Where in internal VRAM the nametable byte at `addr` lies.
    fn ciram_index(addr: u16, mirroring: Mirroring) -> (at: usize)
        ensures
            at == nametable_index(addr, mirroring),
            at < 0x800,
    {
        match mirroring {
            Mirroring::Vertical => (addr % 0x800) as usize,
            Mirroring::Horizontal => (((addr % 0x1000) / 0x800) * 0x400 + addr % 0x400) as usize,
        }
    }

    /// Where in palette memory the entry at `addr` lies.
    fn palette_entry(addr: u16) -> (at: usize)
        ensures
            at == palette_index(addr),
            at < 0x20,
    {
        let entry = addr % 0x20;
        if entry >= 0x10 && entry % 4 == 0 {
            (entry - 0x10) as usize
        } else {
            entry as usize
        }
    }

    /// Read from PPU memory map (may read into the cartridge)
    pub fn read(nes: &mut Nes, addr: u16) -> (data: u8)
        ensures
            (*final(nes), data) == Self::read_spec(*old(nes), addr),
    {
        let a = addr % 0x4000;  // address bus is only 14 bits wide
        if a < 0x2000 {
            nes.cart.mapper.read_ppu(a)
        } else if a < 0x3F00 {
            let at = Self::ciram_index(a, nes.cart.mapper.nametable_mirroring());
            nes.ppu.ciram[at]
        } else {
            let at = Self::palette_entry(a);
            nes.ppu.palettes[at]
        }
    }

    /// Write to PPU memory map (may write into the cartridge)
    pub fn write(nes: &mut Nes, addr: u16, data: u8)
        ensures
            *final(nes) == Self::write_spec(*old(nes), addr, data),
    {
        let a = addr % 0x4000;  // address bus is only 14 bits wide
        if a < 0x2000 {
            nes.cart.mapper.write_ppu(a, data);
        } else if a < 0x3F00 {
            let at = Self::ciram_index(a, nes.cart.mapper.nametable_mirroring());
            nes.ppu.ciram[at] = data;
        } else {
            let at = Self::palette_entry(a);
            nes.ppu.palettes[at] = data;
        }
    }

    pub fn port_read(nes: &mut Nes, addr: u16) -> (data: u8)
        ensures
            (*final(nes), data) == Self::port_read_spec(*old(nes), addr),
            old(nes).ppu.wf() ==> final(nes).ppu.wf(),
    {
        let port = addr % 8;
        if port == 2 {
            let flag: u8 = if nes.ppu.vblank {
                0x80
            } else {
                0
            };
            nes.ppu.ports_latch = flag | (nes.ppu.ports_latch & 0x1F);
            nes.ppu.vblank = false;
            nes.ppu.write_toggle = false;
            Ppu::update_nmi_output(nes);
        } else if port == 7 {
            let data = Ppu::read(nes, nes.ppu.vram_addr.0);
            nes.ppu.ports_latch = data;
            let inc: u16 = if !nes.ppu.ctrl.vram_addr_inc() {
                1
            } else {
                32
            };
            nes.ppu.vram_addr.step(inc);
        }
        nes.ppu.ports_latch
    }

    pub fn port_write(nes: &mut Nes, addr: u16, data: u8)
        ensures
            *final(nes) == Self::port_write_spec(*old(nes), addr, data),
            old(nes).ppu.wf() ==> final(nes).ppu.wf(),
    {
        nes.ppu.ports_latch = data;

        let port = addr % 8;
        if port == 0 {
            if nes.ppu.ctrl_unlocked {
                nes.ppu.ctrl.0 = data;
                nes.ppu.tmp_vram_addr.0 = (nes.ppu.tmp_vram_addr.0 & 0xF3FF) | (((data
                    & 0x03) as u16) << 10);

                Ppu::update_nmi_output(nes);
            }
        } else if port == 1 {
            if nes.ppu.ctrl_unlocked {
                nes.ppu.mask.0 = data;
            }
        } else if port == 3 {
            nes.ppu.oam_addr = data;
        } else if port == 5 {
            if nes.ppu.ctrl_unlocked {
                proof {
                    lemma_fields(0, data);
                }
                if !nes.ppu.write_toggle {  // w = 0
                    nes.ppu.tmp_vram_addr.set_coarse_x(data >> 3);
                    nes.ppu.fine_x_scroll = data & 0x07;
                } else {  // w = 1
                    nes.ppu.tmp_vram_addr.set_coarse_y(data >> 3);
                    nes.ppu.tmp_vram_addr.set_fine_y(data & 0x07);
                }

                nes.ppu.write_toggle = !nes.ppu.write_toggle;
            }
        } else if port == 6 {
            if nes.ppu.ctrl_unlocked {
                if !nes.ppu.write_toggle {  // w = 0
                    nes.ppu.tmp_vram_addr.0 = (((data & 0x3F) as u16) << 8) | (
                    nes.ppu.tmp_vram_addr.0 & 0x00FF);
                } else {  // w = 1
                    nes.ppu.tmp_vram_addr.0 = (nes.ppu.tmp_vram_addr.0 & 0xFF00) | (data as u16);
                    nes.ppu.vram_addr = nes.ppu.tmp_vram_addr;
                }

                nes.ppu.write_toggle = !nes.ppu.write_toggle;
            }
        } else if port == 7 {
            Ppu::write(nes, nes.ppu.vram_addr.0, data);

            let inc: u16 = if !nes.ppu.ctrl.vram_addr_inc() {
                1
            } else {
                32
            };
            nes.ppu.vram_addr.step(inc);
        }
    }
}

/// The dots in which the background pipeline fetches: `1..=256` for the
/// line itself, `321..=336` for the first two tiles of the next line.
pub open spec fn fetches_at(dot: u16) -> bool {
    (1 <= dot <= 256) || (321 <= dot <= 336)
}

/// The dots in which the pattern shifters move by one bit: those of a
/// fetched tile's eight pixels.
pub open spec fn shifts_at(dot: u16) -> bool {
    (1 <= dot <= 256) || (329 <= dot <= 336)
}

impl Ppu {
    /// The beam is on a line on which the pipeline runs: a visible one
    /// or the pre-render line.
    pub open spec fn on_render_line(self) -> bool {
        self.pos.scanline < 240 || self.pos.scanline == 261
    }

    /// The address of the nametable byte of the tile at `v`.
    pub open spec fn tile_addr(self) -> u16 {
        0x2000 | (self.vram_addr.0 & 0x0FFF)
    }

    /// The address of the attribute byte of the tile at `v`.
    pub open spec fn attribute_addr(self) -> u16 {
        0x23C0 | (self.vram_addr.0 & 0x0C00) | ((self.vram_addr.0 >> 4) & 0x38) | ((
        self.vram_addr.0 >> 2) & 0x07)
    }

    /// The address of one plane of the line `fine Y` of the fetched
    /// tile's pattern, in the background's pattern table.
    pub open spec fn pattern_addr(self, upper: bool) -> u16 {
        (if self.ctrl.background_pattern() { 0x1000u16 } else { 0u16 }) | ((
        self.nametable_lat as u16) << 4) | (if upper { 8u16 } else { 0u16 }) | (
        self.vram_addr.y_fine() as u16)
    }

    /// The entry of palette memory that the dot at the beam shows: the
    /// bit of each pattern shifter that fine X selects, counted down
    /// from bit 15, under the palette number of the tile that the bit
    /// belongs to.
    pub open spec fn pixel_index(self) -> u8 {
        let select = (15 - self.fine_x_scroll) as u16;
        let lower = (self.shift_lower >> select) % 2;
        let upper = (self.shift_upper >> select) % 2;
        let moved = (self.pos.cycle - 1) % 8;
        let palette = if moved + self.fine_x_scroll >= 8 {
            self.shift_attrib % 4
        } else {
            (self.shift_attrib / 4) % 4
        };
        (palette * 4 + upper * 2 + lower) as u8
    }

    /// The colour of the dot at the beam: what palette memory holds for
    /// it, as the host shows that colour.
    pub open spec fn pixel_color(self) -> u32 {
        self.pal_values[(self.palettes[self.pixel_index() as int] % 64) as int]
    }

    /// Whether the beam is at a dot of the picture.
    pub open spec fn on_picture(self) -> bool {
        self.pos.scanline < 240 && 1 <= self.pos.cycle <= 256
    }

    /// The PPU with the dot at the beam in the picture, row by row.
    pub open spec fn drawn(self) -> Ppu {
        Ppu {
            fb: spec_array_update(
                self.fb,
                self.pos.scanline * 256 + self.pos.cycle - 1,
                self.pixel_color(),
            ),
            ..self
        }
    }

    /// The PPU with both pattern shifters moved left by one bit.
    pub open spec fn shifted(self) -> Ppu {
        Ppu { shift_lower: self.shift_lower << 1, shift_upper: self.shift_upper << 1, ..self }
    }

    /// The PPU at the end of a tile's fetches: the pattern latches go to
    /// the low bytes of the shifters, the palette number of the tile
    /// before moves up in the attribute byte and that of the fetched
    /// tile takes its place, and `v` moves one tile to the right.
    pub open spec fn reloaded(self) -> Ppu {
        Ppu {
            shift_attrib: ((self.shift_attrib % 4) * 4 + attribute_quadrant(
                self.vram_addr,
                self.attribute_lat,
            )) as u8,
            shift_lower: (self.shift_lower & 0xFF00) | (self.pattern_lower_lat as u16),
            shift_upper: (self.shift_upper & 0xFF00) | (self.pattern_upper_lat as u16),
            vram_addr: self.vram_addr.right(),
            ..self
        }
    }

    /// The machine after the fetch step of the dot at the beam. A tile
    /// takes eight dots: in turn, an address is put on the PPU's bus and
    /// the byte there is read into a latch, for the nametable byte, the
    /// attribute byte, and the two planes of the pattern.
    pub open spec fn fetched(n: Nes) -> Nes {
        let ppu = n.ppu;
        let step = ppu.pos.cycle % 8;
        if step == 1 {
            Self::put(n, Ppu { internal_bus_addr: ppu.tile_addr(), ..ppu })
        } else if step == 3 {
            Self::put(n, Ppu { internal_bus_addr: ppu.attribute_addr(), ..ppu })
        } else if step == 5 {
            Self::put(n, Ppu { internal_bus_addr: ppu.pattern_addr(false), ..ppu })
        } else if step == 7 {
            Self::put(n, Ppu { internal_bus_addr: ppu.pattern_addr(true), ..ppu })
        } else {
            let (n1, data) = Self::read_spec(n, ppu.internal_bus_addr);
            if step == 2 {
                Self::put(n1, Ppu { nametable_lat: data, ..n1.ppu })
            } else if step == 4 {
                Self::put(n1, Ppu { attribute_lat: data, ..n1.ppu })
            } else if step == 6 {
                Self::put(n1, Ppu { pattern_lower_lat: data, ..n1.ppu })
            } else {
                Self::put(n1, Ppu { pattern_upper_lat: data, ..n1.ppu }.reloaded())
            }
        }
    }

    /// The PPU after the scroll updates of the dot at the beam: at dot
    /// 256 `v` moves one line down, at dot 257 it takes its horizontal
    /// bits from `t`, and at dots 280 to 304 of the pre-render line its
    /// vertical bits.
    pub open spec fn scrolled(self) -> Ppu {
        let dot = self.pos.cycle;
        if dot == 256 {
            Ppu { vram_addr: self.vram_addr.down(), ..self }
        } else if dot == 257 {
            Ppu { vram_addr: self.vram_addr.with_bits(HORIZONTAL_BITS, self.tmp_vram_addr), ..self }
        } else if self.pos.scanline == 261 && 280 <= dot <= 304 {
            Ppu { vram_addr: self.vram_addr.with_bits(VERTICAL_BITS, self.tmp_vram_addr), ..self }
        } else {
            self
        }
    }

    /// The machine after the pipeline's work for the dot at the beam, on
    /// a line on which it runs and with rendering on: the dot is drawn
    /// if it is in the picture and the background is on, the shifters
    /// move, the fetch step runs, and `v` scrolls.
    pub open spec fn rendered(n: Nes) -> Nes {
        let n1 = Self::put(n, n.ppu.put_out());
        let n2 = if fetches_at(n1.ppu.pos.cycle) {
            Self::fetched(n1)
        } else {
            n1
        };
        Self::put(n2, n2.ppu.scrolled())
    }

    /// The PPU after the pixel output of the dot at the beam: the dot is
    /// drawn if it is in the picture and the background is on, and then
    /// the shifters move if the dot is one of a tile's eight.
    pub open spec fn put_out(self) -> Ppu {
        let drawn = if self.on_picture() && self.mask.background() {
            self.drawn()
        } else {
            self
        };
        if shifts_at(self.pos.cycle) {
            drawn.shifted()
        } else {
            drawn
        }
    }

    /// The pipeline moves neither the beam nor the dividers, and leaves
    /// the ports' registers and the CPU alone.
    pub proof fn lemma_rendered_frame(n: Nes)
        ensures
            Self::rendered(n).ppu.pos == n.ppu.pos,
            Self::rendered(n).ppu.clock_divider == n.ppu.clock_divider,
            Self::rendered(n).ppu.fine_x_scroll == n.ppu.fine_x_scroll,
            Self::rendered(n).ppu.mask == n.ppu.mask,
            Self::rendered(n).ppu.ctrl == n.ppu.ctrl,
            Self::rendered(n).ppu.vblank == n.ppu.vblank,
            Self::rendered(n).ppu.ports_latch == n.ppu.ports_latch,
            Self::rendered(n).ppu.ctrl_unlocked == n.ppu.ctrl_unlocked,
            Self::rendered(n).ppu.cycles_since_pwrrst == n.ppu.cycles_since_pwrrst,
            Self::rendered(n).cpu == n.cpu,
            Self::rendered(n).fault == n.fault,
            Self::rendered(n).last_bus == n.last_bus,
    {
    }

    /// The PPU with the vertical blank flag as the dot at the beam sets
    /// it: set at dot 1 of line 241, cleared at dot 1 of the pre-render
    /// line.
    pub open spec fn flagged(self) -> Ppu {
        if self.pos.cycle == 1 && self.pos.scanline == 241 {
            Ppu { vblank: true, ..self }
        } else if self.pos.cycle == 1 && self.pos.scanline == 261 {
            Ppu { vblank: false, ..self }
        } else {
            self
        }
    }

    /// The PPU with the beam one dot on and the cycle counted: odd
    /// frames lose their first dot while the background is on, and
    /// `UNLOCK_AFTER` cycles after power-up the control ports unlock.
    pub open spec fn advanced(self) -> Ppu {
        let count = if self.ctrl_unlocked {
            self.cycles_since_pwrrst
        } else {
            (self.cycles_since_pwrrst + 1) as u32
        };
        Ppu {
            pos: self.pos.next(self.mask.background()),
            cycles_since_pwrrst: count,
            ctrl_unlocked: self.ctrl_unlocked || count >= UNLOCK_AFTER,
            ..self
        }
    }

    /// The machine one PPU cycle later: the vertical blank flag follows
    /// the beam and the NMI line the flag, the pipeline does its work
    /// for the dot, and the beam moves on.
    pub open spec fn cycle_spec(n: Nes) -> Nes {
        let n1 = Self::nmi_updated(Self::put(n, n.ppu.flagged()));
        let n2 = if n1.ppu.on_render_line() && n1.ppu.mask.rendering() {
            Self::rendered(n1)
        } else {
            n1
        };
        Self::put(n2, n2.ppu.advanced())
    }

    /// The machine one master tick later, as far as the PPU goes: every
    /// fourth tick is a PPU cycle.
    pub open spec fn tick_spec(n: Nes) -> Nes {
        let (divider, fired) = n.ppu.clock_divider.tick_spec();
        let n1 = Self::put(n, Ppu { clock_divider: divider, ..n.ppu });
        if fired {
            Self::cycle_spec(n1)
        } else {
            n1
        }
    }

    fn pattern_address(&self, upper: bool) -> (addr: u16)
        ensures
            addr == self.pattern_addr(upper),
    {
        let table: u16 = if self.ctrl.background_pattern_addr() {
            0x1000
        } else {
            0
        };
        let plane: u16 = if upper {
            8
        } else {
            0
        };
        table | ((self.nametable_lat as u16) << 4) | plane | (self.vram_addr.fine_y() as u16)
    }

    /// The palette number of the tile at `v` in the attribute byte.
    fn quadrant(&self) -> (palette: u8)
        ensures
            palette == attribute_quadrant(self.vram_addr, self.attribute_lat),
            palette < 4,
    {
        let right = (self.vram_addr.coarse_x() / 2) % 2 == 1;
        let bottom = (self.vram_addr.coarse_y() / 2) % 2 == 1;
        let shift: u8 = if bottom {
            if right {
                6
            } else {
                4
            }
        } else {
            if right {
                2
            } else {
                0
            }
        };
        (self.attribute_lat >> shift) % 4
    }

    /// The colour of the dot at the beam.
    fn color(&self) -> (color: u32)
        requires
            self.fine_x_scroll < 8,
            1 <= self.pos.cycle,
        ensures
            color == self.pixel_color(),
    {
        let select = (15 - self.fine_x_scroll) as u16;
        let bit_lower = ((self.shift_lower >> select) % 2) as u8;
        let bit_upper = ((self.shift_upper >> select) % 2) as u8;

        let moved = (self.pos.cycle - 1) % 8;
        let palette = if moved + self.fine_x_scroll as u16 >= 8 {
            self.shift_attrib % 4
        } else {
            (self.shift_attrib / 4) % 4
        };
        let pal_index = palette * 4 + bit_upper * 2 + bit_lower;

        self.pal_values[(self.palettes[pal_index as usize] % 64) as usize]
    }

    fn draw_pixel(&mut self)
        requires
            old(self).fine_x_scroll < 8,
            old(self).on_picture(),
        ensures
            *final(self) == old(self).drawn(),
    {
        let color = self.color();
        self.fb[(self.pos.scanline as usize * 256) + self.pos.cycle as usize - 1] = color;
    }

    fn shift(&mut self)
        ensures
            *final(self) == old(self).shifted(),
    {
        self.shift_lower = self.shift_lower << 1;
        self.shift_upper = self.shift_upper << 1;
    }

    fn reload(&mut self)
        ensures
            *final(self) == old(self).reloaded(),
    {
        self.shift_attrib = (self.shift_attrib % 4) * 4 + self.quadrant();
        self.shift_lower = (self.shift_lower & 0xFF00) | (self.pattern_lower_lat as u16);
        self.shift_upper = (self.shift_upper & 0xFF00) | (self.pattern_upper_lat as u16);
        self.vram_addr.increment_coarse_x();
    }

    /// The fetch steps that put an address on the bus.
    fn fetch_address(nes: &mut Nes)
        requires
            old(nes).ppu.pos.cycle % 2 == 1,
        ensures
            *final(nes) == Self::fetched(*old(nes)),
    {
        match nes.ppu.pos.cycle % 8 {
            1 => nes.ppu.internal_bus_addr = 0x2000 | (nes.ppu.vram_addr.0 & 0x0FFF),
            3 => nes.ppu.internal_bus_addr = 0x23C0 | (nes.ppu.vram_addr.0 & 0x0C00) | ((
            nes.ppu.vram_addr.0 >> 4) & 0x38) | ((nes.ppu.vram_addr.0 >> 2) & 0x07),
            5 => nes.ppu.internal_bus_addr = nes.ppu.pattern_address(false),
            _ => nes.ppu.internal_bus_addr = nes.ppu.pattern_address(true),
        }
    }

    /// The fetch steps that read the byte at the address on the bus.
    fn fetch_data(nes: &mut Nes)
        requires
            old(nes).ppu.pos.cycle % 2 == 0,
        ensures
            *final(nes) == Self::fetched(*old(nes)),
    {
        let data = Ppu::read(nes, nes.ppu.internal_bus_addr);
        match nes.ppu.pos.cycle % 8 {
            2 => nes.ppu.nametable_lat = data,
            4 => nes.ppu.attribute_lat = data,
            6 => nes.ppu.pattern_lower_lat = data,
            _ => {
                nes.ppu.pattern_upper_lat = data;
                nes.ppu.reload();
            },
        }
    }

    fn scroll(&mut self)
        ensures
            *final(self) == old(self).scrolled(),
    {
        let dot = self.pos.cycle;
        if dot == 256 {
            self.vram_addr.increment_fine_y();
        } else if dot == 257 {
            self.vram_addr.copy_bits(HORIZONTAL_BITS, self.tmp_vram_addr);
        } else if self.pos.scanline == 261 && 280 <= dot && dot <= 304 {
            self.vram_addr.copy_bits(VERTICAL_BITS, self.tmp_vram_addr);
        }
    }

    /// Draws the dot at the beam and moves the shifters.
    fn output(&mut self)
        requires
            old(self).wf(),
        ensures
            *final(self) == old(self).put_out(),
    {
        let dot = self.pos.cycle;
        if self.pos.scanline < 240 && 1 <= dot && dot <= 256 && self.mask.show_background() {
            self.draw_pixel();
        }
        if (1 <= dot && dot <= 256) || (329 <= dot && dot <= 336) {
            self.shift();
        }
    }

    /// Runs the fetch step of the dot at the beam.
    fn fetch(nes: &mut Nes)
        ensures
            *final(nes) == if fetches_at(old(nes).ppu.pos.cycle) {
                Self::fetched(*old(nes))
            } else {
                *old(nes)
            },
    {
        let dot = nes.ppu.pos.cycle;
        if (1 <= dot && dot <= 256) || (321 <= dot && dot <= 336) {
            if dot % 2 == 1 {
                Ppu::fetch_address(nes);
            } else {
                Ppu::fetch_data(nes);
            }
        }
    }

    /// The pipeline's work for the dot at the beam.
    fn render(nes: &mut Nes)
        requires
            old(nes).ppu.wf(),
        ensures
            *final(nes) == Self::rendered(*old(nes)),
    {
        nes.ppu.output();
        Ppu::fetch(nes);
        nes.ppu.scroll();
    }

    /// Moves the beam on and counts the cycle.
    fn advance(&mut self)
        requires
            old(self).wf(),
        ensures
            *final(self) == old(self).advanced(),
            final(self).wf(),
    {
        self.pos.inc(self.mask.show_background());
        if !self.ctrl_unlocked {
            self.cycles_since_pwrrst += 1;
            if self.cycles_since_pwrrst >= UNLOCK_AFTER {
                self.ctrl_unlocked = true;
            }
        }
    }

    /// Sets and clears the vertical blank flag.
    fn flag(&mut self)
        ensures
            *final(self) == old(self).flagged(),
    {
        if self.pos.cycle == 1 && self.pos.scanline == 241 {
            self.vblank = true;
        } else if self.pos.cycle == 1 && self.pos.scanline == 261 {
            self.vblank = false;
        }
    }

    pub fn cycle(nes: &mut Nes)
        requires
            old(nes).ppu.wf(),
        ensures
            *final(nes) == Self::cycle_spec(*old(nes)),
            final(nes).ppu.wf(),
            final(nes).cpu.same_registers(old(nes).cpu),
    {
        nes.ppu.flag();
        Ppu::update_nmi_output(nes);
        let line = nes.ppu.pos.scanline;
        if (line < 240 || line == 261) && (nes.ppu.mask.show_background()
            || nes.ppu.mask.show_sprites()) {
            proof {
                Self::lemma_rendered_frame(*nes);
            }
            Ppu::render(nes);
        }
        nes.ppu.advance();
    }

    #[inline(always)]
    pub fn tick(nes: &mut Nes)
        requires
            old(nes).ppu.wf(),
        ensures
            *final(nes) == Self::tick_spec(*old(nes)),
            final(nes).ppu.wf(),
            final(nes).cpu.same_registers(old(nes).cpu),
    {
        if nes.ppu.clock_divider.tick() {
            Ppu::cycle(nes);
        }
    }
}

/// The address that shares its palette entry with `addr`, an address of
/// an entry `$x0`, `$x4`, `$x8` or `$xC`: the one 16 entries away.
pub open spec fn palette_twin(addr: u16) -> u16 {
    if addr % 0x20 >= 0x10 {
        (addr - 0x10) as u16
    } else {
        (addr + 0x10) as u16
    }
}

/// An address of a palette entry `$x0`, `$x4`, `$x8` or `$xC` and its twin
/// name one place in palette memory.
proof fn lemma_palette_fold(addr: u16)
    requires
        0x3F00 <= addr % 0x4000,
        addr % 4 == 0,
    ensures
        0x3F00 <= palette_twin(addr) % 0x4000,
        palette_index((palette_twin(addr) % 0x4000) as u16) == palette_index(
            (addr % 0x4000) as u16,
        ),
        0 <= palette_index((addr % 0x4000) as u16) < 0x20,
{
}

/// The VRAM address that two writes to port 6 make of their bytes: six
/// bits of the first above the eight bits of the second.
pub open spec fn port_address(high: u8, low: u8) -> u16 {
    (((high & 0x3F) as u16) << 8) | (low as u16)
}

impl Ppu {
    /// A byte written to one of the palette entries `$10`, `$14`, `$18`
    /// and `$1C` is read at the entry 16 below it, and the other way
    /// round.
    pub proof fn lemma_palette_mirror(n: Nes, addr: u16, data: u8)
        requires
            0x3F00 <= addr % 0x4000,
            addr % 4 == 0,
        ensures
            Self::read_spec(Self::write_spec(n, addr, data), palette_twin(addr)).1 == data,
            Self::read_spec(Self::write_spec(n, palette_twin(addr), data), addr).1 == data,
    {
        lemma_palette_fold(addr);
        let twin = palette_twin(addr);
        let at = palette_index((addr % 0x4000) as u16);
        assert(at == palette_index((twin % 0x4000) as u16));
        assert(vstd::array::spec_array_update(n.ppu.palettes, at, data)@
            == n.ppu.palettes@.update(at, data));
        assert(Self::write_spec(n, addr, data).ppu.palettes[at] == data);
        assert(Self::write_spec(n, twin, data).ppu.palettes[at] == data);
    }

    /// Every write to a port leaves its byte in the latch, and a read of
    /// a port that is only written gives the latch and changes nothing:
    /// such a read after a write gives the byte written.
    pub proof fn lemma_open_bus(n: Nes, addr: u16, data: u8, read_at: u16)
        requires
            read_at % 8 != 2,
            read_at % 8 != 7,
        ensures
            Self::port_write_spec(n, addr, data).ppu.ports_latch == data,
            Self::port_read_spec(n, read_at) == (n, n.ppu.ports_latch),
            Self::port_read_spec(Self::port_write_spec(n, addr, data), read_at).1 == data,
    {
    }

    /// While rendering is on, the cycle of dot 257 of a visible line or
    /// of the pre-render line leaves the horizontal bits of `v` equal to
    /// those of `t`.
    pub proof fn lemma_horizontal_copy(n: Nes)
        requires
            n.ppu.pos.cycle == 257,
            n.ppu.on_render_line(),
            n.ppu.mask.rendering(),
        ensures
            Self::cycle_spec(n).ppu.vram_addr.0 & HORIZONTAL_BITS == Self::cycle_spec(
                n,
            ).ppu.tmp_vram_addr.0 & HORIZONTAL_BITS,
            Self::cycle_spec(n).ppu.vram_addr.0 & !HORIZONTAL_BITS == n.ppu.vram_addr.0
                & !HORIZONTAL_BITS,
    {
        let v = n.ppu.vram_addr.0;
        let t = n.ppu.tmp_vram_addr.0;
        assert(((v & !0x041Fu16) | (t & 0x041F)) & 0x041F == t & 0x041F && ((v & !0x041Fu16) | (t
            & 0x041F)) & !0x041Fu16 == v & !0x041Fu16) by (bit_vector);
    }

    /// Once the control ports are unlocked and the write toggle is
    /// clear, two writes to port 6 set `v` to the address that their
    /// bytes make, and a read of port 7 then gives the byte at that
    /// address and moves `v` on by the stride.
    pub proof fn lemma_address_port(n: Nes, high: u8, low: u8)
        requires
            n.ppu.ctrl_unlocked,
            !n.ppu.write_toggle,
        ensures
            ({
                let addressed = Self::port_write_spec(
                    Self::port_write_spec(n, 0x2006, high),
                    0x2006,
                    low,
                );
                let read = Self::port_read_spec(addressed, 0x2007);
                &&& addressed.ppu.vram_addr.0 == port_address(high, low)
                &&& read.1 == Self::read_spec(addressed, port_address(high, low)).1
                &&& read.0.ppu.vram_addr == VramAddr(port_address(high, low)).stepped(
                    n.ppu.ctrl.stride(),
                )
            }),
    {
        let t = n.ppu.tmp_vram_addr.0;
        assert((((((high & 0x3F) as u16) << 8) | (t & 0x00FF)) & 0xFF00) | (low as u16) == (((high
            & 0x3F) as u16) << 8) | (low as u16)) by (bit_vector);
    }
}

impl Ppu {
    /// A PPU cycle moves the beam by one dot and keeps the PPU well
    /// formed; it changes nothing of the CPU but its NMI line, and
    /// neither divider.
    pub proof fn lemma_cycle_kept(n: Nes)
        requires
            n.ppu.wf(),
        ensures
            Self::cycle_spec(n).ppu.wf(),
            Self::cycle_spec(n).ppu.pos == n.ppu.pos.next(n.ppu.mask.background()),
            Self::cycle_spec(n).ppu.clock_divider == n.ppu.clock_divider,
            Self::cycle_spec(n).cpu.same_registers(n.cpu),
            Self::cycle_spec(n).accesses == n.accesses,
    {
        let n1 = Self::nmi_updated(Self::put(n, n.ppu.flagged()));
        Self::lemma_rendered_frame(n1);
    }
}

impl Ppu {
    /// A write to port 5 sets one half of the scroll position. The first
    /// write puts the upper five bits of the byte into coarse X of `t`
    /// and the lower three into fine X; the second puts them into coarse
    /// Y and fine Y of `t`. Either flips the write toggle, and no other
    /// field of `t` changes.
    pub proof fn lemma_scroll_write(self, data: u8)
        ensures
            ({
                let after = self.scroll_written(5, data);
                let t = self.tmp_vram_addr.fields();
                if !self.write_toggle {
                    &&& after.tmp_vram_addr.fields() == (Scroll { coarse_x: data as int / 8, ..t })
                    &&& after.fine_x_scroll == data % 8
                    &&& after.write_toggle
                } else {
                    &&& after.tmp_vram_addr.fields() == (Scroll {
                        coarse_y: data as int / 8,
                        fine_y: data as int % 8,
                        ..t
                    })
                    &&& after.fine_x_scroll == self.fine_x_scroll
                    &&& !after.write_toggle
                }
            }),
    {
        assert(data >> 3 == data / 8 && data & 0x07 == data % 8 && (data >> 3) % 32 == data >> 3
            && (data & 0x07) % 8 == data & 0x07) by (bit_vector);
        let t = self.tmp_vram_addr;
        t.lemma_with_field(data >> 3);
        t.with_y_coarse(data >> 3).lemma_with_field(data & 0x07);
    }

    /// A write to the control port, once it is unlocked, puts the low two
    /// bits of the byte into the nametable select of `t`, and changes no
    /// other field of `t`.
    pub proof fn lemma_control_write(n: Nes, data: u8)
        requires
            n.ppu.ctrl_unlocked,
        ensures
            Self::port_write_spec(n, 0x2000, data).ppu.ctrl == CtrlReg(data),
            Self::port_write_spec(n, 0x2000, data).ppu.tmp_vram_addr.fields() == (Scroll {
                nametable: data as int % 4,
                ..n.ppu.tmp_vram_addr.fields()
            }),
            Self::port_write_spec(n, 0x2000, data).cpu.nmi == !(CtrlReg(data).nmi_enabled()
                && n.ppu.vblank),
    {
        n.ppu.tmp_vram_addr.lemma_with_field(data);
    }
}

impl Ppu {
    /// The cycle of dot 1 of line 241 sets the vertical blank flag and
    /// pulls the NMI line low if NMI is enabled; the cycle of dot 1 of the
    /// pre-render line clears the flag and lets the line go.
    pub proof fn lemma_vertical_blank(n: Nes)
        requires
            n.ppu.pos.cycle == 1,
        ensures
            n.ppu.pos.scanline == 241 ==> Self::cycle_spec(n).ppu.vblank && Self::cycle_spec(
                n,
            ).cpu.nmi == !n.ppu.ctrl.nmi_enabled(),
            n.ppu.pos.scanline == 261 ==> !Self::cycle_spec(n).ppu.vblank && Self::cycle_spec(
                n,
            ).cpu.nmi,
    {
        let n1 = Self::nmi_updated(Self::put(n, n.ppu.flagged()));
        Self::lemma_rendered_frame(n1);
    }
}

} // verus!
