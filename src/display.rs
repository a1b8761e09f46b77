use vstd::prelude::*;

use crate::memory::Memory;

verus! {

/// Width and height of the background in pixels (32 tiles of 8 pixels).
pub const BACKGROUND_SIDE: usize = 256;

/// Number of pixels of the background.
pub const BACKGROUND_PIXELS: usize = 65536;

/// Address of the scanline counter register.
pub const LY_ADDRESS: usize = 0xFF44;

/// The four shades of the screen, lightest first.
#[derive(Clone, Copy, Debug, PartialEq, Eq, Structural)]
pub enum ColorPalette {
    Green,
    LightGreen,
    DarkGreen,
    Black,
}

/// The shade that a two-bit color value stands for.
pub open spec fn palette_of(value: int) -> ColorPalette {
    if value == 0 {
        ColorPalette::Green
    } else if value == 1 {
        ColorPalette::LightGreen
    } else if value == 2 {
        ColorPalette::DarkGreen
    } else {
        ColorPalette::Black
    }
}

/// Bit `pos` of `byte`, as 0 or 1.
pub open spec fn bit_at(byte: u8, pos: u8) -> u8 {
    (byte >> pos) & 1
}

/// The two-bit color of background pixel `p` (row-major, 256 pixels a row):
/// the tile map at 0x9800 names the tile, whose 16 bytes at
/// 0x8000 + 16 * tile give two bytes a row, high bit of the color first.
pub open spec fn pixel_color(m: Seq<u8>, p: int) -> usize {
    let tile_index = (p / 2048) * 32 + (p % 256) / 8;
    let row = (p / 256) % 8;
    let pos = (7 - p % 8) as u8;
    let tile_id = m[0x9800 + tile_index];
    let base = 0x8000 + 16 * tile_id;
    let upper = m[base + 2 * row];
    let lower = m[base + 2 * row + 1];
    (bit_at(upper, pos) * 2 + bit_at(lower, pos)) as usize
}

/// The scanline counter after one step of the timing driver: it counts up
/// on every tenth step and wraps to 0 at 154.
pub open spec fn ly_after(v: u8, index: int) -> u8 {
    let counted = if index % 10 == 0 {
        ((v + 1) % 256) as u8
    } else {
        v
    };
    if counted >= 154 {
        0
    } else {
        counted
    }
}

/// The background as two-bit color values.
pub struct Display {
    pub pixels: Vec<usize>,
}

impl Default for Display {
    fn default() -> (r: Display)
        ensures
            r.pixels@.len() == BACKGROUND_PIXELS,
            forall|i: int| 0 <= i < BACKGROUND_PIXELS ==> r.pixels@[i] == 0,
    {
        Display { pixels: initialize_vram() }
    }
}

fn initialize_vram() -> (r: Vec<usize>)
    ensures
        r@.len() == BACKGROUND_PIXELS,
        forall|i: int| 0 <= i < BACKGROUND_PIXELS ==> r@[i] == 0,
{
    vec![0; BACKGROUND_PIXELS]
}

impl Display {
    /// Decodes the background from the tile map and the tile data.
    pub fn construct_vram_content(&mut self, memory: &Memory)
        requires
            old(self).pixels@.len() == BACKGROUND_PIXELS,
            memory.wf(),
        ensures
            final(self).pixels@.len() == BACKGROUND_PIXELS,
            forall|p: int|
                0 <= p < BACKGROUND_PIXELS ==> #[trigger] final(self).pixels@[p] == pixel_color(
                    memory@,
                    p,
                ),
    {
        let mut p: usize = 0;
        while p < BACKGROUND_PIXELS
            invariant
                p <= BACKGROUND_PIXELS,
                self.pixels@.len() == BACKGROUND_PIXELS,
                memory.wf(),
                forall|q: int| 0 <= q < p ==> #[trigger] self.pixels@[q] == pixel_color(memory@, q),
            decreases BACKGROUND_PIXELS - p,
        {
            let tile_index: usize = (p / 2048) * 32 + (p % 256) / 8;
            let row: usize = (p / 256) % 8;
            let pos: u8 = (7 - p % 8) as u8;
            let tile_id = memory.addresses[0x9800 + tile_index];
            let index: usize = 0x8000 + 16 * tile_id as usize;
            let upper = memory.addresses[index + 2 * row];
            let lower = memory.addresses[index + 2 * row + 1];
            let color = get_bit_at_pos(upper, pos) * 2 + get_bit_at_pos(lower, pos);
            self.pixels.set(p, color as usize);
            p = p + 1;
        }
    }
}

fn get_bit_at_pos(byte: u8, pos: u8) -> (r: u8)
    requires
        pos < 8,
    ensures
        r == bit_at(byte, pos),
        r <= 1,
{
    assert((byte >> pos) & 1 <= 1) by (bit_vector);
    (byte >> pos) & 1
}

/// The shade of a two-bit color value.
pub fn map_palette(value: &usize) -> (r: ColorPalette)
    requires
        *value < 4,
    ensures
        r == palette_of(*value as int),
{
    match *value {
        0 => ColorPalette::Green,
        1 => ColorPalette::LightGreen,
        2 => ColorPalette::DarkGreen,
        _ => ColorPalette::Black,
    }
}

/// The red, green and blue intensities of a shade.
pub fn get_color(color: ColorPalette) -> (r: (u8, u8, u8))
    ensures
        color == ColorPalette::Green ==> r == (155u8, 188u8, 15u8),
        color == ColorPalette::LightGreen ==> r == (139u8, 172u8, 15u8),
        color == ColorPalette::DarkGreen ==> r == (48u8, 98u8, 48u8),
        color == ColorPalette::Black ==> r == (15u8, 56u8, 15u8),
{
    match color {
        ColorPalette::Green => (155, 188, 15),
        ColorPalette::LightGreen => (139, 172, 15),
        ColorPalette::DarkGreen => (48, 98, 48),
        ColorPalette::Black => (15, 56, 15),
    }
}

/// Moves the scanline counter on by one step of the timing driver.
pub fn update_ly_register(memory: &mut Memory, index: i32)
    requires
        old(memory).wf(),
    ensures
        final(memory).wf(),
        final(memory)@ == old(memory)@.update(
            LY_ADDRESS as int,
            ly_after(old(memory)@[LY_ADDRESS as int], index as int),
        ),
{
    let mut value = memory.addresses[LY_ADDRESS];
    if index % 10 == 0 {
        value = if value == 255 {
            0
        } else {
            value + 1
        };
    }
    if value >= 154 {
        value = 0;
    }
    memory.addresses.set(LY_ADDRESS, value);
}

} // verus!
