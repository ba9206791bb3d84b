use vstd::prelude::*;

verus! {

/// `n / d` rounded to the nearest integer, halves away from zero.
pub open spec fn round_div_spec(n: int, d: int) -> int
    recommends
        d > 0,
{
    if n >= 0 {
        (n + d / 2) / d
    } else {
        -((-n + d / 2) / d)
    }
}

/// Rounds the quotient `n / d` to the nearest integer, halves away from zero.
pub fn round_div(n: i64, d: i64) -> (r: i64)
    requires
        d > 0,
        -0x4000_0000_0000_0000 <= n <= 0x4000_0000_0000_0000,
        d <= 0x4000_0000_0000_0000,
    ensures
        r == round_div_spec(n as int, d as int),
{
    if n >= 0 {
        (n + d / 2) / d
    } else {
        -((-n + d / 2) / d)
    }
}

/// `round(v * scale / upem)`: a value in font units carried to the host's
/// scaled space, exactly over the rationals.
pub open spec fn scale_round_spec(v: int, scale: int, upem: int) -> int
    recommends
        upem > 0,
{
    round_div_spec(v * scale, upem)
}

/// Applies the scale ratio `scale / upem` to `v` with exact rounding.
pub fn scale_round(v: i64, scale: i32, upem: u32) -> (r: i64)
    requires
        upem > 0,
        -0x8000_0000 <= v < 0x8000_0000,
    ensures
        r == scale_round_spec(v as int, scale as int, upem as int),
{
    proof {
        assert((v as int) * (scale as int) <= 0x4000_0000_0000_0000
            && -0x4000_0000_0000_0000 <= (v as int) * (scale as int)) by (nonlinear_arith)
            requires
                -0x8000_0000 <= v < 0x8000_0000,
                -0x8000_0000 <= scale < 0x8000_0000;
    }
    round_div(v * (scale as i64), upem as i64)
}

/// As `round_div_spec`, for a divisor of either sign.
pub open spec fn round_div_signed_spec(n: int, d: int) -> int
    recommends
        d != 0,
{
    if d > 0 {
        round_div_spec(n, d)
    } else {
        round_div_spec(-n, -d)
    }
}

/// The buffer-position scale factor in 16.16 fixed point: the host's
/// scale over the font's units per em, truncated toward zero as the
/// position pipeline has it.
pub open spec fn em_factor_spec(scale: int, upem: int) -> int
    recommends
        upem > 0,
{
    if scale >= 0 {
        (scale * 0x1_0000) / upem
    } else {
        -((-scale * 0x1_0000) / upem)
    }
}

/// Computes the 16.16 fixed-point scale factor for shaped positions.
pub fn em_factor(scale: i32, upem: i32) -> (r: i64)
    requires
        upem > 0,
    ensures
        r == em_factor_spec(scale as int, upem as int),
{
    if scale >= 0 {
        ((scale as i64) * 0x1_0000) / (upem as i64)
    } else {
        -((-(scale as i64)) * 0x1_0000 / (upem as i64))
    }
}

/// A shaped position carried through a 16.16 factor, rounded to the
/// nearest integer with half rounding up (the floor of the biased
/// product, exactly what an arithmetic shift of the bias term computes).
pub open spec fn em_apply_spec(v: int, factor: int) -> int {
    let n = v * factor + 0x8000;
    if n >= 0 {
        n / 0x1_0000
    } else {
        -((-n + 0xFFFF) / 0x1_0000)
    }
}

/// Applies a 16.16 scale factor to one shaped position.
pub fn em_apply(v: i32, factor: i64) -> (r: i64)
    requires
        -0x4000_0000_0000_0000 < (v as int) * (factor as int) < 0x4000_0000_0000_0000,
    ensures
        r == em_apply_spec(v as int, factor as int),
{
    proof {
        lemma_i32_i64_product_fits(v as int, factor as int);
    }
    let n: i64 = (v as i64) * factor + 0x8000;
    if n >= 0 {
        n / 0x1_0000
    } else {
        -((-n + 0xFFFF) / 0x1_0000)
    }
}

/// A product already known to lie strictly inside the guarded range
/// stays representable after the rounding bias is added.
proof fn lemma_i32_i64_product_fits(v: int, factor: int)
    requires
        -0x4000_0000_0000_0000 < v * factor < 0x4000_0000_0000_0000,
    ensures
        -0x7FFF_FFFF_FFFF_0000 < v * factor + 0x8000 < 0x7FFF_FFFF_FFFF_0000,
{
}

/// Rounds `n / d` to the nearest integer for a nonzero divisor of either sign.
pub fn round_div_signed(n: i64, d: i64) -> (r: i64)
    requires
        d != 0,
        -0x4000_0000_0000_0000 <= n <= 0x4000_0000_0000_0000,
        -0x4000_0000_0000_0000 < d < 0x4000_0000_0000_0000,
    ensures
        r == round_div_signed_spec(n as int, d as int),
{
    if d > 0 {
        round_div(n, d)
    } else {
        round_div(-n, -d)
    }
}

} // verus!
