use vstd::prelude::*;

verus! {

/// A 16-bit RGB565 display colour: red in bits 11..16, green in bits 5..11,
/// blue in bits 0..5.
#[derive(Clone, Copy, Debug, PartialEq, Eq, Structural)]
pub struct Color565 {
    pub value: u16,
}

/// The RGB565 code with 5-bit red `r`, 6-bit green `g` and 5-bit blue `b`.
pub open spec fn rgb565(r: int, g: int, b: int) -> int {
    r * 2048 + g * 32 + b
}

impl Color565 {
    /// The colour with the given RGB565 code.
    pub fn from_raw(value: u16) -> (c: Self)
        ensures
            c.value == value,
    {
        Color565 { value }
    }

    /// The colour nearest below the 8-bit-per-channel colour `(r, g, b)`: each
    /// channel keeps its top 5 (red, blue) or 6 (green) bits.
    pub fn from_rgb888(r: u16, g: u16, b: u16) -> (c: Self)
        requires
            r <= 255,
            g <= 255,
            b <= 255,
        ensures
            c.value == rgb565(r as int / 8, g as int / 4, b as int / 8),
    {
        let value = ((r >> 3u16) << 11u16) | ((g >> 2u16) << 5u16) | (b >> 3u16);
        assert(value == (r / 8) * 2048 + (g / 4) * 32 + b / 8) by (bit_vector)
            requires
                r <= 255,
                g <= 255,
                b <= 255,
                value == ((r >> 3u16) << 11u16) | ((g >> 2u16) << 5u16) | (b >> 3u16),
        ;
        Color565 { value }
    }

    /// The red (5-bit), green (6-bit) and blue (5-bit) components.
    pub fn get_components(&self) -> (rgb: (u16, u16, u16))
        ensures
            rgb.0 == self.value / 2048,
            rgb.1 == (self.value / 32) % 64,
            rgb.2 == self.value % 32,
    {
        let v = self.value;
        let r = v >> 11u16;
        let g = (v >> 5u16) & 0x3Fu16;
        let b = v & 0x1Fu16;
        assert(r == v / 2048 && g == (v / 32) % 64 && b == v % 32) by (bit_vector)
            requires
                r == v >> 11u16,
                g == (v >> 5u16) & 0x3Fu16,
                b == v & 0x1Fu16,
        ;
        (r, g, b)
    }
}

/// Packing three in-range components and reading them back gives them again.
pub proof fn lemma_components_of_rgb565(r: int, g: int, b: int)
    requires
        0 <= r < 32,
        0 <= g < 64,
        0 <= b < 32,
    ensures
        0 <= rgb565(r, g, b) <= u16::MAX,
        rgb565(r, g, b) / 2048 == r,
        (rgb565(r, g, b) / 32) % 64 == g,
        rgb565(r, g, b) % 32 == b,
{
}

} // verus!
