//! The fixed-point length unit of the document format: the twip,
//! one twentieth of a pixel.

use vstd::prelude::*;

verus! {

/// A length in twips (1/20 of a pixel), the fixed-point unit all layout
/// arithmetic is carried out in.
#[derive(Clone, Copy, PartialEq, Eq, Structural, Debug)]
pub struct Twips(pub i32);

impl Twips {
    /// Wrap a raw twip count.
    pub fn new(val: i32) -> (r: Twips)
        ensures
            r.0 == val,
    {
        Twips(val)
    }

    /// The raw twip count.
    pub fn get(self) -> (r: i32)
        ensures
            r == self.0,
    {
        self.0
    }

    /// A length of a whole number of pixels (20 twips each).
    pub fn from_pixels(px: i32) -> (r: Twips)
        requires
            -107374182 <= px <= 107374182,
        ensures
            r.0 == 20 * px,
    {
        Twips(px * 20)
    }

    /// The zero length.
    pub fn zero() -> (r: Twips)
        ensures
            r.0 == 0,
    {
        Twips(0)
    }
}

/// Round a twip count down to the nearest whole pixel (a multiple of 20),
/// as a mathematical integer.
pub open spec fn floor_to_pixel(t: int) -> int {
    20 * (t / 20)
}

/// Restrict a mathematical integer to the `i32` range, saturating at
/// either end.
pub open spec fn clamp_i32(x: int) -> int {
    if x < i32::MIN {
        i32::MIN as int
    } else if x > i32::MAX {
        i32::MAX as int
    } else {
        x
    }
}

/// Division truncating toward zero, for a positive divisor: the rounding
/// the layout arithmetic uses when scaling EM-square values to twips.
pub open spec fn trunc_div(a: int, b: int) -> int {
    if a >= 0 {
        a / b
    } else {
        -((-a) / b)
    }
}

/// Truncating division preserves the order of dividends, for a positive
/// divisor.
pub proof fn lemma_trunc_div_ordered(x: int, y: int, d: int)
    requires
        x <= y,
        0 < d,
    ensures
        trunc_div(x, d) <= trunc_div(y, d),
{
    if x >= 0 {
        vstd::arithmetic::div_mod::lemma_div_is_ordered(x, y, d);
    } else if y >= 0 {
        vstd::arithmetic::div_mod::lemma_div_pos_is_pos(-x, d);
        vstd::arithmetic::div_mod::lemma_div_pos_is_pos(y, d);
    } else {
        vstd::arithmetic::div_mod::lemma_div_is_ordered(-y, -x, d);
    }
}

/// Scale an EM-square value to twips at the requested height: multiply by
/// the height, divide by the font's scale constant truncating toward zero,
/// and saturate to the `i32` range.
pub fn scale_to_height(value: i64, height: i64, scale: u32) -> (r: i32)
    requires
        1 <= scale,
        -0x1_0000_0000 < value < 0x1_0000_0000,
        i32::MIN <= height <= i32::MAX,
    ensures
        r as int == clamp_i32(trunc_div(value * height, scale as int)),
{
    proof {
        assert(-0x8000_0000_0000_0000 < value * height < 0x8000_0000_0000_0000)
            by (nonlinear_arith)
            requires
                -0x1_0000_0000 < value < 0x1_0000_0000,
                -0x8000_0000 <= height <= 0x7FFF_FFFF,
        ;
    }
    let product: i64 = value * height;
    proof {
        let x = product as int;
        let d = scale as int;
        if x >= 0 {
            vstd::arithmetic::div_mod::lemma_div_pos_is_pos(x, d);
            vstd::arithmetic::div_mod::lemma_div_nonincreasing(x, d);
        } else {
            vstd::arithmetic::div_mod::lemma_div_pos_is_pos(-x, d);
            vstd::arithmetic::div_mod::lemma_div_nonincreasing(-x, d);
        }
    }
    let q: i64 = product.checked_div(scale as i64).unwrap();
    if q > (i32::MAX as i64) {
        i32::MAX
    } else if q < (i32::MIN as i64) {
        i32::MIN
    } else {
        q as i32
    }
}

/// Certain legacy routines measure text by rounding down to the nearest
/// whole pixel.
pub fn round_down_to_pixel(t: Twips) -> (r: Twips)
    ensures
        r.0 == clamp_i32(floor_to_pixel(t.0 as int)),
{
    let v: i64 = t.0 as i64;
    let q: i64 = v.checked_div_euclid(20).unwrap();
    proof {
        vstd::arithmetic::div_mod::lemma_fundamental_div_mod(v as int, 20);
    }
    let f: i64 = q * 20;
    if f < (i32::MIN as i64) {
        Twips(i32::MIN)
    } else {
        Twips(f as i32)
    }
}

} // verus!
