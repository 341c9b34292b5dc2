//! Pictures of the PPU's memories, and the host's colours.

use vstd::prelude::*;
use crate::arch::Nes;

verus! {

/// The grey of brightness `level`: the same byte as red, green and blue.
pub open spec fn grey(level: u32) -> u32 {
    (level << 16) | (level << 8) | level
}

/// The colour of red `r`, green `g` and blue `b`.
pub open spec fn rgb(r: u8, g: u8, b: u8) -> u32 {
    ((r as u32) << 16) | ((g as u32) << 8) | (b as u32)
}

/// The colour at place `i` of the picture of palette memory: what entry
/// `i` holds, as the host shows it.
pub open spec fn palette_pixel(nes: Nes, i: int) -> u32 {
    nes.ppu.pal_values[(nes.ppu.palettes[i] % 64) as int]
}

/// The place in internal VRAM that dot `i` of the picture of the
/// nametables shows. The picture is 64 dots wide; its left half is the
/// first KiB, its right half the second, 32 bytes to a row.
pub open spec fn nametable_place(i: int) -> int {
    ((i % 64) / 32) * 1024 + (i / 64) * 32 + i % 32
}

/// The place in the pattern tables of the lower plane of the line of
/// pattern that dot `i` of the picture of the pattern tables lies on.
/// The picture is 256 dots wide; its left half is the first table, its
/// right half the second, 16 tiles to a row of tiles.
pub open spec fn pattern_place(i: int) -> int {
    let x = i % 256;
    let y = i / 256;
    let tile = (x / 128) * 256 + (y / 8) * 16 + (x % 128) / 8;
    tile * 16 + y % 8
}

/// The grey of a dot of a pattern: bit `7 - column` of the upper plane
/// `msb` and of the lower plane `lsb` make a number from 0 to 3, which
/// is shown as brightness 63, 127, 191 or 255.
pub open spec fn pattern_grey(lsb: u8, msb: u8, column: u8) -> u32 {
    let index = (((msb >> (7 - column) as u8) & 1) << 1) | ((lsb >> (7 - column) as u8) & 1);
    grey((index as u32 * 64 + 63) as u32)
}

/// The colour at dot `i` of the picture of the pattern tables.
pub open spec fn pattern_pixel(nes: Nes, i: int) -> u32 {
    let at = pattern_place(i) as u16;
    pattern_grey(
        nes.cart.mapper.ppu_read(at).1,
        nes.cart.mapper.ppu_read((at + 8) as u16).1,
        (i % 8) as u8,
    )
}

/// The colours of a palette file: three bytes, red, green and blue, for
/// each colour, and black for each colour that the file does not hold in
/// full.
pub open spec fn host_color(bytes: Seq<u8>, i: int) -> u32 {
    if 3 * i + 2 < bytes.len() {
        rgb(bytes[3 * i], bytes[3 * i + 1], bytes[3 * i + 2])
    } else {
        0
    }
}

fn grey_of(level: u32) -> (color: u32)
    ensures
        color == grey(level),
{
    (level << 16) | (level << 8) | level
}

/// Draws palette memory, one dot for each entry.
pub fn render_palette(nes: &Nes, fb: &mut [u32; 32])
    ensures
        forall|i: int| 0 <= i < 32 ==> final(fb)[i] == palette_pixel(*nes, i),
{
    let mut i: usize = 0;
    while i < 32
        invariant
            i <= 32,
            forall|j: int| 0 <= j < i ==> fb[j] == palette_pixel(*nes, j),
        decreases 32 - i,
    {
        let index = (nes.ppu.palettes[i] % 64) as usize;
        fb[i] = nes.ppu.pal_values[index];
        i += 1;
    }
}

/// Draws internal VRAM, one grey dot for each byte, the two nametables
/// side by side.
pub fn render_nametable(nes: &Nes, fb: &mut [u32; 2048])
    ensures
        forall|i: int| 0 <= i < 2048 ==> final(fb)[i] == grey(nes.ppu.ciram[nametable_place(i)] as u32),
{
    let mut i: usize = 0;
    while i < 2048
        invariant
            i <= 2048,
            forall|j: int| 0 <= j < i ==> fb[j] == grey(nes.ppu.ciram[nametable_place(j)] as u32),
        decreases 2048 - i,
    {
        let place = ((i % 64) / 32) * 1024 + (i / 64) * 32 + i % 32;
        let color = nes.ppu.ciram[place] as u32;
        fb[i] = grey_of(color);
        i += 1;
    }
}

/// The grey of one dot of a pattern.
fn pattern_dot(lsb: u8, msb: u8, column: u8) -> (color: u32)
    requires
        column < 8,
    ensures
        color == pattern_grey(lsb, msb, column),
{
    let upper = (msb >> (7 - column)) & 1;
    let lower = (lsb >> (7 - column)) & 1;
    assert(((upper << 1) | lower) < 4) by (bit_vector)
        requires
            upper == (msb >> (7 - column) as u8) & 1,
            lower == (lsb >> (7 - column) as u8) & 1,
    ;
    let color_index = (upper << 1) | lower;
    let color = (color_index as u32 * 64) + 63;
    grey_of(color)
}

/// Draws the cartridge's two pattern tables side by side, each 16 tiles
/// wide and 16 tiles high.
pub fn render_pattern_table(nes: &mut Nes, fb: &mut [u32; 32768])
    ensures
        *final(nes) == *old(nes),
        forall|i: int| 0 <= i < 32768 ==> final(fb)[i] == pattern_pixel(*old(nes), i),
{
    let mut i: usize = 0;
    while i < 32768
        invariant
            i <= 32768,
            *nes == *old(nes),
            forall|j: int| 0 <= j < i ==> fb[j] == pattern_pixel(*old(nes), j),
        decreases 32768 - i,
    {
        let x = i % 256;
        let y = i / 256;
        let tile = (x / 128) * 256 + (y / 8) * 16 + (x % 128) / 8;
        let at = (tile * 16 + y % 8) as u16;
        let lsb = nes.cart.mapper.read_ppu(at);
        let msb = nes.cart.mapper.read_ppu(at + 8);
        fb[i] = pattern_dot(lsb, msb, (i % 8) as u8);
        i += 1;
    }
}

/// The host's colours as a palette file gives them.
pub fn host_colors(bytes: &[u8]) -> (colors: [u32; 64])
    ensures
        forall|i: int| 0 <= i < 64 ==> colors[i] == host_color(bytes@, i),
{
    let mut colors = [0u32; 64];
    let mut i: usize = 0;
    while i < 64
        invariant
            i <= 64,
            forall|j: int| 0 <= j < i ==> colors[j] == host_color(bytes@, j),
        decreases 64 - i,
    {
        if 3 * i + 2 < bytes.len() {
            colors[i] = ((bytes[3 * i] as u32) << 16) | ((bytes[3 * i + 1] as u32) << 8) | (bytes[3
                * i + 2] as u32);
        } else {
            colors[i] = 0;
        }
        i += 1;
    }
    colors
}

} // verus!
