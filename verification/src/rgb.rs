use vstd::prelude::*;

use crate::color::{rgb565, Color565};

verus! {

/// Three 10-bit colour channels packed in a word: red in bits 0..10, green in
/// bits 10..20, blue in bits 20..30. The two top bits are spare.
#[derive(Copy, Clone, Debug)]
pub struct Rgb(pub u32);

/// The red channel of the packed word `w`.
pub open spec fn red10(w: u32) -> int {
    w as int % 1024
}

/// The green channel of the packed word `w`.
pub open spec fn green10(w: u32) -> int {
    (w as int / 1024) % 1024
}

/// The blue channel of the packed word `w`.
pub open spec fn blue10(w: u32) -> int {
    (w as int / 0x100000) % 1024
}

/// The two spare bits above the channels of `w`.
pub open spec fn spare_bits(w: u32) -> int {
    w as int / 0x40000000
}

/// `c` is the fast average of `a` and `b`: each channel of `c` is the sum of the
/// halves, rounded down, of the channels of `a` and `b`; the spare bits of `c`
/// count the top bits of `a` and `b`.
pub open spec fn is_avg(a: u32, b: u32, c: u32) -> bool {
    &&& red10(c) == red10(a) / 2 + red10(b) / 2
    &&& green10(c) == green10(a) / 2 + green10(b) / 2
    &&& blue10(c) == blue10(a) / 2 + blue10(b) / 2
    &&& spare_bits(c) == a as int / 0x80000000 + b as int / 0x80000000
}

/// A word is its three channels and its spare bits.
pub proof fn lemma_word_from_parts(w: u32)
    ensures
        w as int == red10(w) + green10(w) * 1024 + blue10(w) * 0x100000 + spare_bits(w)
            * 0x40000000,
{
    assert(w == w % 1024 + ((w / 1024) % 1024) * 1024 + ((w / 0x100000) % 1024) * 0x100000 + (w
        / 0x40000000) * 0x40000000) by (bit_vector);
}

/// The fast average does not depend on the order of its operands.
pub proof fn lemma_avg_commutes(a: u32, b: u32, ab: u32, ba: u32)
    requires
        is_avg(a, b, ab),
        is_avg(b, a, ba),
    ensures
        ab == ba,
{
    lemma_word_from_parts(ab);
    lemma_word_from_parts(ba);
}

/// The average of two packed colours is packed, and each of its channels is
/// the mean of the two channels rounded down, or one less.
pub proof fn lemma_avg_of_packed(a: Rgb, b: Rgb, c: Rgb)
    requires
        a.is_packed(),
        b.is_packed(),
        is_avg(a.0, b.0, c.0),
    ensures
        c.is_packed(),
        (red10(a.0) + red10(b.0)) / 2 - 1 <= red10(c.0) <= (red10(a.0) + red10(b.0)) / 2,
        (green10(a.0) + green10(b.0)) / 2 - 1 <= green10(c.0) <= (green10(a.0) + green10(b.0)) / 2,
        (blue10(a.0) + blue10(b.0)) / 2 - 1 <= blue10(c.0) <= (blue10(a.0) + blue10(b.0)) / 2,
{
}

/// Bits 9, 19 and 29 cleared: after a shift right by one these hold the low bit
/// of the next channel up, which must not leak into the halved channel below.
const AVG_MASK: u32 = 0xDFF7_FDFF;

impl Default for Rgb {
    /// Black: every channel zero.
    fn default() -> (c: Self)
        ensures
            c.0 == 0,
    {
        Rgb(0)
    }
}

impl Rgb {
    /// The channels hold all of the word: the spare bits are clear.
    pub open spec fn is_packed(self) -> bool {
        spare_bits(self.0) == 0
    }

    /// The colour with 10-bit channels `r`, `g` and `b`.
    pub fn from_levels(r: u32, g: u32, b: u32) -> (c: Self)
        requires
            r < 1024,
            g < 1024,
            b < 1024,
        ensures
            red10(c.0) == r,
            green10(c.0) == g,
            blue10(c.0) == b,
            c.is_packed(),
    {
        let w = r | (g << 10u32) | (b << 20u32);
        assert(w == r + g * 1024 + b * 0x100000) by (bit_vector)
            requires
                r < 1024,
                g < 1024,
                b < 1024,
                w == r | (g << 10u32) | (b << 20u32),
        ;
        Rgb(w)
    }

    /// The 10-bit red, green and blue channels.
    pub fn levels(&self) -> (rgb: (u32, u32, u32))
        ensures
            rgb.0 == red10(self.0),
            rgb.1 == green10(self.0),
            rgb.2 == blue10(self.0),
    {
        let w = self.0;
        let r = w & 0x3FFu32;
        let g = (w >> 10u32) & 0x3FFu32;
        let b = (w >> 20u32) & 0x3FFu32;
        assert(r == w % 1024 && g == (w / 1024) % 1024 && b == (w / 0x100000) % 1024)
            by (bit_vector)
            requires
                r == w & 0x3FFu32,
                g == (w >> 10u32) & 0x3FFu32,
                b == (w >> 20u32) & 0x3FFu32,
        ;
        (r, g, b)
    }

    /// The display colour: each channel keeps its top 8 bits, then the top
    /// 5 (red, blue) or 6 (green) of those.
    pub fn to_color565(&self) -> (c: Color565)
        ensures
            c.value == rgb565(red10(self.0) / 32, green10(self.0) / 16, blue10(self.0) / 32),
    {
        let w = self.0;
        let r = ((w & 0x3FFu32) >> 2u32) as u16;
        let g = (((w >> 10u32) & 0x3FFu32) >> 2u32) as u16;
        let b = (((w >> 20u32) & 0x3FFu32) >> 2u32) as u16;
        assert(((w & 0x3FFu32) >> 2u32) == (w % 1024) / 4 && (((w >> 10u32) & 0x3FFu32)
            >> 2u32) == ((w / 1024) % 1024) / 4 && (((w >> 20u32) & 0x3FFu32) >> 2u32) == ((w
            / 0x100000) % 1024) / 4) by (bit_vector);
        Color565::from_rgb888(r, g, b)
    }

    /// Fast integer-based average: each channel becomes the sum of the halves
    /// (rounded down) of the two channels.
    pub fn avg(&self, b: Self) -> (c: Self)
        ensures
            is_avg(self.0, b.0, c.0),
    {
        let x = self.0;
        let y = b.0;
        let hx = (x >> 1u32) & AVG_MASK;
        let hy = (y >> 1u32) & AVG_MASK;
        assert(hx + hy <= u32::MAX) by (bit_vector)
            requires
                hx == (x >> 1u32) & 0xDFF7_FDFFu32,
                hy == (y >> 1u32) & 0xDFF7_FDFFu32,
        ;
        let s = hx + hy;
        assert(s % 1024 == (x % 1024) / 2 + (y % 1024) / 2 && (s / 1024) % 1024 == ((x / 1024)
            % 1024) / 2 + ((y / 1024) % 1024) / 2 && (s / 0x100000) % 1024 == ((x / 0x100000)
            % 1024) / 2 + ((y / 0x100000) % 1024) / 2 && s / 0x40000000 == x / 0x80000000 + y
            / 0x80000000) by (bit_vector)
            requires
                hx == (x >> 1u32) & 0xDFF7_FDFFu32,
                hy == (y >> 1u32) & 0xDFF7_FDFFu32,
                s == hx + hy,
        ;
        Rgb(s)
    }
}

} // verus!
