//! 24-bit RGB colours and the integer blends the palettes derive from them.

use vstd::prelude::*;

verus! {

/// An opaque 24-bit RGB colour.
#[derive(Clone, Copy, Debug, PartialEq, Eq, Structural, Hash, Default)]
pub struct Color {
    pub r: u8,
    pub g: u8,
    pub b: u8,
}

/// One channel moved `num / den` of the way from `a` to `b`, rounded to the
/// nearest integer (halves away from `a`'s side never occur for the ratios the
/// palettes use; ties round up).
pub open spec fn mix_channel_spec(a: u8, b: u8, num: u32, den: u32) -> int {
    let scaled = (a as int) * (den as int) + ((b as int) - (a as int)) * (num as int);
    (2 * scaled + (den as int)) / (2 * (den as int))
}

/// The exact channel blend, for `num <= den` and `0 < den <= 1000`.
pub fn mix_channel(a: u8, b: u8, num: u32, den: u32) -> (c: u8)
    requires
        0 < den <= 1000,
        num <= den,
    ensures
        c == mix_channel_spec(a, b, num, den),
{
    let a64 = a as i64;
    let b64 = b as i64;
    let n = num as i64;
    let d = den as i64;
    assert(0 <= a64 * d <= 255 * 1000) by (nonlinear_arith)
        requires
            0 <= a64 <= 255,
            0 < d <= 1000,
    ;
    assert(-255 * 1000 <= (b64 - a64) * n <= 255 * 1000) by (nonlinear_arith)
        requires
            0 <= a64 <= 255,
            0 <= b64 <= 255,
            0 <= n <= 1000,
    ;
    let scaled = a64 * d + (b64 - a64) * n;
    assert(0 <= scaled <= 255 * d) by (nonlinear_arith)
        requires
            scaled == a64 * d + (b64 - a64) * n,
            0 <= a64 <= 255,
            0 <= b64 <= 255,
            0 <= n <= d,
    {
        assert(a64 * d + (b64 - a64) * n == a64 * (d - n) + b64 * n);
        assert(0 <= a64 * (d - n) <= 255 * (d - n));
        assert(0 <= b64 * n <= 255 * n);
    }
    let v = (2 * scaled + d) / (2 * d);
    assert(0 <= v <= 255) by (nonlinear_arith)
        requires
            v == (2 * scaled + d) / (2 * d),
            0 <= scaled <= 255 * d,
            0 < d,
    {
        assert(2 * scaled + d < 2 * d * 256);
    }
    v as u8
}

impl Color {
    /// The colour with the given channels.
    pub fn rgb(r: u8, g: u8, b: u8) -> (c: Color)
        ensures
            c == (Color { r, g, b }),
    {
        Color { r, g, b }
    }

    /// The colour `0xRRGGBB`.
    pub fn hex(value: u32) -> (c: Color)
        ensures
            c.r == (value / 0x10000) % 0x100,
            c.g == (value / 0x100) % 0x100,
            c.b == value % 0x100,
    {
        Color {
            r: ((value / 0x10000) % 0x100) as u8,
            g: ((value / 0x100) % 0x100) as u8,
            b: (value % 0x100) as u8,
        }
    }

    /// This colour moved `num / den` of the way towards `other`, per channel,
    /// rounded to the nearest integer.
    pub fn mix(&self, other: Color, num: u32, den: u32) -> (c: Color)
        requires
            0 < den <= 1000,
            num <= den,
        ensures
            c.r == mix_channel_spec(self.r, other.r, num, den),
            c.g == mix_channel_spec(self.g, other.g, num, den),
            c.b == mix_channel_spec(self.b, other.b, num, den),
    {
        Color {
            r: mix_channel(self.r, other.r, num, den),
            g: mix_channel(self.g, other.g, num, den),
            b: mix_channel(self.b, other.b, num, den),
        }
    }
}

} // verus!
