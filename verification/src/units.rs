//! Design units (device-independent pixels at 96 DPI) and device pixels.

use vstd::prelude::*;

verus! {

/// The DPI at which one design unit is one device pixel.
pub const BASE_DPI: u32 = 96;

/// `v * num / den` rounded to the nearest integer, halves away from zero.
pub open spec fn scale_round(v: int, num: int, den: int) -> int {
    if v >= 0 {
        (2 * v * num + den) / (2 * den)
    } else {
        -((2 * (-v) * num + den) / (2 * den))
    }
}

/// `v` saturated into the `i32` range.
pub open spec fn saturate_i32(v: int) -> int {
    if v < i32::MIN {
        i32::MIN as int
    } else if v > i32::MAX {
        i32::MAX as int
    } else {
        v
    }
}

/// Scales `v` by `num / den` with rounding to nearest (halves away from zero),
/// saturating at the `i32` range.
pub fn scale_i32(v: i32, num: u32, den: u32) -> (r: i32)
    requires
        0 < den,
    ensures
        r == saturate_i32(scale_round(v as int, num as int, den as int)),
{
    let vv = v as i128;
    let n = num as i128;
    let d = den as i128;
    let mag: i128 = if vv >= 0 { vv } else { -vv };
    assert(0 <= 2 * mag * n <= 2 * 2147483648 * 4294967295) by (nonlinear_arith)
        requires
            0 <= mag <= 2147483648,
            0 <= n <= 4294967295,
    ;
    let q = (2 * mag * n + d) / (2 * d);
    assert(0 <= q <= 2 * mag * n + d) by (nonlinear_arith)
        requires
            0 <= 2 * mag * n,
            0 < d,
            q == (2 * mag * n + d) / (2 * d),
    ;
    let s: i128 = if vv >= 0 { q } else { -q };
    if s < i32::MIN as i128 {
        i32::MIN
    } else if s > i32::MAX as i128 {
        i32::MAX
    } else {
        s as i32
    }
}

/// A length in design units: one unit is one device pixel at 96 DPI.
#[derive(Clone, Copy, Debug, PartialEq, Eq, Structural, Default, Hash)]
pub struct Dip(pub i32);

/// A length in device pixels.
#[derive(Clone, Copy, Debug, PartialEq, Eq, Structural, Default, Hash)]
pub struct Px(pub i32);

/// `value` design units.
pub fn dip(value: i32) -> (d: Dip)
    ensures
        d.0 == value,
{
    Dip(value)
}

impl Dip {
    /// `value` design units.
    pub fn new(value: i32) -> (d: Dip)
        ensures
            d.0 == value,
    {
        Dip(value)
    }

    /// The length in design units.
    pub fn value(&self) -> (v: i32)
        ensures
            v == self.0,
    {
        self.0
    }

    /// The device-pixel length at `dpi`, rounded to the nearest pixel.
    pub open spec fn spec_to_px(self, dpi: u32) -> int {
        saturate_i32(scale_round(self.0 as int, dpi as int, BASE_DPI as int))
    }

    /// The device-pixel length at `dpi`, rounded to the nearest pixel.
    pub fn to_px(&self, dpi: u32) -> (p: Px)
        ensures
            p.0 == self.spec_to_px(dpi),
    {
        Px(scale_i32(self.0, dpi, BASE_DPI))
    }
}

impl Px {
    /// The length in device pixels.
    pub fn value(&self) -> (v: i32)
        ensures
            v == self.0,
    {
        self.0
    }

    /// The design-unit length at `dpi`, rounded to the nearest unit.
    pub open spec fn spec_to_dip(self, dpi: u32) -> int {
        saturate_i32(scale_round(self.0 as int, BASE_DPI as int, dpi as int))
    }

    /// The design-unit length at `dpi`, rounded to the nearest unit.
    pub fn to_dip(&self, dpi: u32) -> (d: Dip)
        requires
            dpi > 0,
        ensures
            d.0 == self.spec_to_dip(dpi),
    {
        Dip(scale_i32(self.0, BASE_DPI, dpi))
    }
}

/// A non-negative length `m` taken to pixels at `dpi` and back comes out
/// unchanged when `dpi` is at least the base DPI.
proof fn lemma_magnitude_round_trip(m: int, dpi: int)
    requires
        m >= 0,
        dpi >= 96,
    ensures
        ({
            let p = (2 * m * dpi + 96) / 192;
            &&& p >= 0
            &&& (2 * p * 96 + dpi) / (2 * dpi) == m
        }),
{
    let a = 2 * m * dpi + 96;
    let p = a / 192;
    vstd::arithmetic::div_mod::lemma_fundamental_div_mod(a, 192);
    vstd::arithmetic::div_mod::lemma_mod_bound(a, 192);
    assert(a >= 0) by (nonlinear_arith)
        requires
            a == 2 * m * dpi + 96,
            m >= 0,
            dpi >= 96,
    ;
    assert(p >= 0) by (nonlinear_arith)
        requires
            a == 192 * p + a % 192,
            0 <= a % 192 < 192,
            a >= 0,
    ;
    let b = 2 * p * 96 + dpi;
    let e = b / (2 * dpi);
    vstd::arithmetic::div_mod::lemma_fundamental_div_mod(b, 2 * dpi);
    vstd::arithmetic::div_mod::lemma_mod_bound(b, 2 * dpi);
    if dpi == 96 {
        vstd::arithmetic::div_mod::lemma_fundamental_div_mod_converse(a, 192, m, 96);
        assert(p == m);
        vstd::arithmetic::div_mod::lemma_fundamental_div_mod_converse(b, 192, m, 96);
    } else {
        assert(e >= m) by (nonlinear_arith)
            requires
                a == 2 * m * dpi + 96,
                a == 192 * p + a % 192,
                0 <= a % 192 < 192,
                b == 2 * p * 96 + dpi,
                b == 2 * dpi * e + b % (2 * dpi),
                0 <= b % (2 * dpi) < 2 * dpi,
                dpi > 96,
        ;
        assert(e <= m) by (nonlinear_arith)
            requires
                a == 2 * m * dpi + 96,
                a == 192 * p + a % 192,
                0 <= a % 192 < 192,
                b == 2 * p * 96 + dpi,
                b == 2 * dpi * e + b % (2 * dpi),
                0 <= b % (2 * dpi) < 2 * dpi,
                dpi > 96,
        ;
    }
}

/// Converting to device pixels and back is lossless at the base DPI and
/// above: a design length `d` whose pixel length fits an `i32` reads back
/// as `d` from its pixels.
pub proof fn lemma_to_dip_undoes_to_px(d: i32, dpi: u32)
    requires
        dpi >= BASE_DPI,
        i32::MIN <= scale_round(d as int, dpi as int, BASE_DPI as int) <= i32::MAX,
    ensures
        Px(Dip(d).spec_to_px(dpi) as i32).spec_to_dip(dpi) == d,
{
    let m: int = if d >= 0 { d as int } else { -(d as int) };
    lemma_magnitude_round_trip(m, dpi as int);
    let pm = (2 * m * dpi + 96) / 192;
    if d >= 0 {
        assert(scale_round(d as int, dpi as int, 96) == pm);
        assert(Dip(d).spec_to_px(dpi) == pm);
        assert(scale_round(pm, 96, dpi as int) == d);
    } else {
        assert(scale_round(d as int, dpi as int, 96) == -pm);
        assert(Dip(d).spec_to_px(dpi) == -pm);
        assert(pm >= 1) by (nonlinear_arith)
            requires
                pm == (2 * m * dpi + 96) / 192,
                m >= 1,
                dpi >= 96,
        {
            vstd::arithmetic::div_mod::lemma_div_is_ordered(192, 2 * m * dpi + 96, 192);
        }
        assert(scale_round(-pm, 96, dpi as int) == -m);
    }
}

/// `d` design units in pixels at `dpi`.
pub open spec fn px(d: i32, dpi: u32) -> int {
    Dip(d).spec_to_px(dpi)
}

/// Whether `v` fits an `i32`.
pub open spec fn fits(v: int) -> bool {
    i32::MIN <= v <= i32::MAX
}

/// The larger of `a` and `b`.
pub open spec fn larger(a: int, b: int) -> int {
    if a < b {
        b
    } else {
        a
    }
}

} // verus!
