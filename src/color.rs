use vstd::prelude::*;

verus! {

/// A colour in the display's 16-bit transport format: 5 bits of red, 6 bits
/// of green and 5 bits of blue, red in the high bits.
#[derive(Clone, Copy, Debug, Default, PartialEq, Eq, Structural)]
pub struct Color {
    pub rgb565: u16,
}

/// The packed value of an 8-bit-per-channel colour: the top 5 bits of red,
/// the top 6 bits of green and the top 5 bits of blue.
pub open spec fn rgb565_of(r: u8, g: u8, b: u8) -> int {
    (r as int / 8) * 2048 + (g as int / 4) * 32 + b as int / 8
}

impl Color {
    /// Packs three 8-bit channels, dropping the low bits of each.
    pub fn from_rgb888(r: u8, g: u8, b: u8) -> (c: Color)
        ensures
            c.rgb565 == rgb565_of(r, g, b),
    {
        let r16 = r as u16;
        let g16 = g as u16;
        let b16 = b as u16;
        proof {
            assert(((r16 & 0b11111000u16) << 8u16) == (r16 / 8) * 2048
                && r16 / 8 < 32) by (bit_vector)
                requires r16 < 256;
            assert(((g16 & 0b11111100u16) << 3u16) == (g16 / 4) * 32
                && g16 / 4 < 64) by (bit_vector)
                requires g16 < 256;
            assert((b16 >> 3u16) == b16 / 8 && b16 / 8 < 32) by (bit_vector)
                requires b16 < 256;
        }
        Color { rgb565: ((r16 & 0b11111000) << 8) + ((g16 & 0b11111100) << 3) + (b16 >> 3) }
    }
}

/// Packing depends on the three channels alone: two colours packed from the
/// same channels are the same colour.
pub proof fn lemma_from_rgb888_deterministic(r: u8, g: u8, b: u8, c1: Color, c2: Color)
    requires
        c1.rgb565 == rgb565_of(r, g, b),
        c2.rgb565 == rgb565_of(r, g, b),
    ensures
        c1 == c2,
{
}

/// The packed values of the named colours.
pub proof fn lemma_named_values()
    ensures
        rgb565_of(0, 0, 0) == 0,
        rgb565_of(255, 255, 255) == 0xffff,
        rgb565_of(255, 0, 0) == 0xf800,
        rgb565_of(0, 255, 0) == 0x07e0,
        rgb565_of(0, 0, 255) == 0x001f,
{
}

/// Black, the packing of (0, 0, 0).
pub fn black() -> (c: Color)
    ensures
        c.rgb565 == rgb565_of(0, 0, 0),
{
    Color::from_rgb888(0, 0, 0)
}

/// White, the packing of (255, 255, 255).
pub fn white() -> (c: Color)
    ensures
        c.rgb565 == rgb565_of(255, 255, 255),
{
    Color::from_rgb888(255, 255, 255)
}

/// Red, the packing of (255, 0, 0).
pub fn red() -> (c: Color)
    ensures
        c.rgb565 == rgb565_of(255, 0, 0),
{
    Color::from_rgb888(255, 0, 0)
}

/// Green, the packing of (0, 255, 0).
pub fn green() -> (c: Color)
    ensures
        c.rgb565 == rgb565_of(0, 255, 0),
{
    Color::from_rgb888(0, 255, 0)
}

/// Blue, the packing of (0, 0, 255).
pub fn blue() -> (c: Color)
    ensures
        c.rgb565 == rgb565_of(0, 0, 255),
{
    Color::from_rgb888(0, 0, 255)
}

} // verus!
