use vstd::prelude::*;

use crate::numeric::round_div;
use crate::numeric::round_div_spec;
use crate::numeric::round_div_signed;
use crate::numeric::round_div_signed_spec;
use crate::numeric::scale_round;
use crate::numeric::scale_round_spec;

verus! {

/// The largest host scale magnitude the metrics functions accept; far
/// beyond any real rasterization size, it keeps every scaled value well
/// inside 64 bits.
pub const SCALE_LIMIT: i32 = 0x100_0000;

/// The largest variation-delta magnitude accepted, in 16.16 fixed point.
pub const DELTA_LIMIT: i64 = 0x1_0000_0000;

/// Whether a host scale is inside the accepted range.
pub open spec fn scale_in_range(scale: int) -> bool {
    -SCALE_LIMIT <= scale <= SCALE_LIMIT
}

/// A glyph's bounding box in font units.
#[derive(Clone, Copy, PartialEq, Eq, Structural, Debug)]
pub struct GlyphBounds {
    pub x_min: i32,
    pub x_max: i32,
    pub y_min: i32,
    pub y_max: i32,
}

/// A glyph's extents in the host's convention: bearings, then a width
/// measured rightward and a height measured downward from the bearing.
#[derive(Clone, Copy, PartialEq, Eq, Structural, Debug)]
pub struct GlyphExtents {
    pub x_bearing: i64,
    pub y_bearing: i64,
    pub width: i64,
    pub height: i64,
}

/// Font-wide vertical measures in font units.
#[derive(Clone, Copy, PartialEq, Eq, Structural, Debug)]
pub struct FontUnitExtents {
    pub ascent: i32,
    pub descent: i32,
    pub leading: i32,
}

/// Font-wide vertical measures scaled into the host's space.
#[derive(Clone, Copy, PartialEq, Eq, Structural, Debug)]
pub struct HostFontExtents {
    pub ascender: i64,
    pub descender: i64,
    pub line_gap: i64,
}

/// Computes a glyph's extents in host space.
///
/// A color glyph reports no extents at all: its true extents are defined
/// by its paint tree, not by its outline's bounds, whether or not it also
/// has a conventional outline. A glyph without outline bounds reports
/// none either. Otherwise each axis is scaled independently and rounded.
pub fn glyph_extents(
    is_color_glyph: bool,
    bounds: Option<GlyphBounds>,
    x_scale: i32,
    y_scale: i32,
    upem: u32,
) -> (r: Option<GlyphExtents>)
    requires
        upem > 0,
        scale_in_range(x_scale as int),
        scale_in_range(y_scale as int),
    ensures
        is_color_glyph ==> r is None,
        !is_color_glyph && bounds is None ==> r is None,
        (!is_color_glyph && bounds is Some) ==> (r is Some && ({
            let b = bounds.unwrap();
            let e = r.unwrap();
            e.x_bearing == scale_round_spec(b.x_min as int, x_scale as int, upem as int)
                && e.width == scale_round_spec(b.x_max as int, x_scale as int, upem as int)
                - e.x_bearing && e.y_bearing == scale_round_spec(
                b.y_max as int,
                y_scale as int,
                upem as int,
            ) && e.height == scale_round_spec(b.y_min as int, y_scale as int, upem as int)
                - e.y_bearing
        })),
{
    if is_color_glyph {
        return None;
    }
    match bounds {
        None => None,
        Some(b) => {
            let x_bearing = scale_round(b.x_min as i64, x_scale, upem);
            let x_far = scale_round(b.x_max as i64, x_scale, upem);
            let y_bearing = scale_round(b.y_max as i64, y_scale, upem);
            let y_far = scale_round(b.y_min as i64, y_scale, upem);
            proof {
                lemma_scale_round_bound(b.x_min as int, x_scale as int, upem as int);
                lemma_scale_round_bound(b.x_max as int, x_scale as int, upem as int);
                lemma_scale_round_bound(b.y_min as int, y_scale as int, upem as int);
                lemma_scale_round_bound(b.y_max as int, y_scale as int, upem as int);
            }
            Some(
                GlyphExtents {
                    x_bearing,
                    y_bearing,
                    width: x_far - x_bearing,
                    height: y_far - y_bearing,
                },
            )
        },
    }
}

/// A scaled font-unit value stays well inside 64 bits.
proof fn lemma_scale_round_bound(v: int, scale: int, upem: int)
    requires
        upem > 0,
        -0x8000_0000 <= v < 0x8000_0000,
        scale_in_range(scale),
    ensures
        -0x200_0000_0000_0000 <= scale_round_spec(v, scale, upem) <= 0x200_0000_0000_0000,
{
    assert(-0x100_0000_0000_0000 <= v * scale <= 0x100_0000_0000_0000) by (nonlinear_arith)
        requires
            -0x8000_0000 <= v < 0x8000_0000,
            -0x100_0000 <= scale <= 0x100_0000;
    lemma_round_div_magnitude(v * scale, upem);
}

/// The rounded quotient's magnitude is at most the numerator's plus one.
proof fn lemma_round_div_magnitude(n: int, d: int)
    requires
        d > 0,
    ensures
        n >= 0 ==> 0 <= round_div_spec(n, d) <= n + 1,
        n < 0 ==> n - 1 <= round_div_spec(n, d) <= 0,
{
    if n >= 0 {
        assert((n + d / 2) / d <= n + 1) by (nonlinear_arith)
            requires
                d > 0,
                n >= 0;
        assert((n + d / 2) / d >= 0);
    } else {
        assert((-n + d / 2) / d <= -n + 1) by (nonlinear_arith)
            requires
                d > 0,
                -n >= 0;
        assert((-n + d / 2) / d >= 0);
    }
}

/// Scales a horizontal advance in font units to host space.
pub fn h_advance(raw_advance: u16, x_scale: i32, upem: u32) -> (r: i64)
    requires
        upem > 0,
    ensures
        r == scale_round_spec(raw_advance as int, x_scale as int, upem as int),
{
    scale_round(raw_advance as i64, x_scale, upem)
}

/// Scales a batch of horizontal advances in font units to host space,
/// one result for every glyph: the horizontal batch never stops short.
pub fn h_advances(raw_advances: &Vec<u16>, x_scale: i32, upem: u32) -> (r: Vec<i64>)
    requires
        upem > 0,
    ensures
        r@.len() == raw_advances@.len(),
        forall|i: int|
            0 <= i < r@.len() ==> r@[i] == scale_round_spec(
                (#[trigger] raw_advances@[i]) as int,
                x_scale as int,
                upem as int,
            ),
{
    let mut out: Vec<i64> = Vec::new();
    let mut i: usize = 0;
    while i < raw_advances.len()
        invariant
            i <= raw_advances@.len(),
            out@.len() == i,
            upem > 0,
            forall|j: int|
                0 <= j < i ==> out@[j] == scale_round_spec(
                    (#[trigger] raw_advances@[j]) as int,
                    x_scale as int,
                    upem as int,
                ),
        decreases raw_advances@.len() - i,
    {
        let a = scale_round(raw_advances[i] as i64, x_scale, upem);
        out.push(a);
        i = i + 1;
    }
    out
}

/// What the vertical advance of a glyph is in host space.
///
/// A font with a vertical-metrics table contributes that table's advance
/// plus the variation delta, scaled and negated for the vertical-writing
/// sign convention; without one, the advance is synthesized from the
/// host's ascender-to-descender span, negated.
pub open spec fn v_advance_spec(
    vmtx_advance: Option<u16>,
    delta_f16: int,
    y_scale: int,
    upem: int,
    host_ascender: int,
    host_descender: int,
) -> int {
    match vmtx_advance {
        Some(a) => -round_div_spec((a * 0x1_0000 + delta_f16) * y_scale, upem * 0x1_0000),
        None => -(host_ascender - host_descender),
    }
}

/// Computes a glyph's vertical advance; `delta_f16` is the variation
/// delta in 16.16 fixed point, zero when no variation applies.
pub fn v_advance(
    vmtx_advance: Option<u16>,
    delta_f16: i64,
    y_scale: i32,
    upem: u32,
    host_ascender: i64,
    host_descender: i64,
) -> (r: i64)
    requires
        upem > 0,
        upem <= 0x1_0000,
        scale_in_range(y_scale as int),
        -DELTA_LIMIT <= delta_f16 <= DELTA_LIMIT,
        -0x4000_0000_0000_0000 < host_ascender - host_descender
            < 0x4000_0000_0000_0000,
    ensures
        r == v_advance_spec(
            vmtx_advance,
            delta_f16 as int,
            y_scale as int,
            upem as int,
            host_ascender as int,
            host_descender as int,
        ),
{
    match vmtx_advance {
        Some(a) => {
            let n64: i64 = (a as i64) * 0x1_0000 + delta_f16;
            proof {
                assert(-0x3_0000_0000 <= n64 <= 0x3_0000_0000);
                assert(-0x300_0000_0000_0000 <= (n64 as int) * (y_scale as int)
                    <= 0x300_0000_0000_0000) by (nonlinear_arith)
                    requires
                        -0x3_0000_0000 <= n64 <= 0x3_0000_0000,
                        -0x100_0000 <= y_scale <= 0x100_0000;
            }
            let scaled = round_div(n64 * (y_scale as i64), (upem as i64) * 0x1_0000);
            -scaled
        },
        None => -(host_ascender - host_descender),
    }
}

/// What the vertical origin's y coordinate of a glyph is, in host space.
///
/// Resolution falls through three levels: an explicit vertical-origin
/// entry with its variation delta; a derived origin from the top side
/// bearing, or from centering the glyph in the font's line height, when
/// the glyph has extents; and the host's ascender as the last resort.
pub open spec fn v_origin_y_spec(
    vorg_y: Option<i16>,
    vorg_delta_f16: int,
    extents: Option<GlyphExtents>,
    tsb: Option<i16>,
    tsb_delta_f16: int,
    y_scale: int,
    upem: int,
    host_ascender: int,
    host_descender: int,
) -> int {
    match vorg_y {
        Some(y) => round_div_spec((y * 0x1_0000 + vorg_delta_f16) * y_scale, upem * 0x1_0000),
        None => match extents {
            Some(e) => match tsb {
                Some(t) => e.y_bearing + round_div_spec(
                    (t * 0x1_0000 + tsb_delta_f16) * y_scale,
                    upem * 0x1_0000,
                ),
                None => e.y_bearing + ((host_ascender - host_descender) + e.height) / 2,
            },
            None => host_ascender,
        },
    }
}

/// Computes a glyph's vertical-origin y coordinate; the deltas are
/// variation deltas in 16.16 fixed point, zero when no variation applies.
pub fn v_origin_y(
    vorg_y: Option<i16>,
    vorg_delta_f16: i64,
    extents: Option<GlyphExtents>,
    tsb: Option<i16>,
    tsb_delta_f16: i64,
    y_scale: i32,
    upem: u32,
    host_ascender: i64,
    host_descender: i64,
) -> (r: i64)
    requires
        upem > 0,
        upem <= 0x1_0000,
        scale_in_range(y_scale as int),
        -DELTA_LIMIT <= vorg_delta_f16 <= DELTA_LIMIT,
        -DELTA_LIMIT <= tsb_delta_f16 <= DELTA_LIMIT,
        -0x1000_0000_0000_0000 < host_ascender < 0x1000_0000_0000_0000,
        -0x1000_0000_0000_0000 < host_descender < 0x1000_0000_0000_0000,
        extents matches Some(e) ==> (-0x1000_0000_0000_0000 < e.y_bearing < 0x1000_0000_0000_0000
            && -0x1000_0000_0000_0000 < e.height < 0x1000_0000_0000_0000),
    ensures
        r == v_origin_y_spec(
            vorg_y,
            vorg_delta_f16 as int,
            extents,
            tsb,
            tsb_delta_f16 as int,
            y_scale as int,
            upem as int,
            host_ascender as int,
            host_descender as int,
        ),
{
    match vorg_y {
        Some(y) => {
            let n64: i64 = (y as i64) * 0x1_0000 + vorg_delta_f16;
            proof {
                assert(-0x3_0000_0000 <= n64 <= 0x3_0000_0000);
                assert(-0x300_0000_0000_0000 <= (n64 as int) * (y_scale as int)
                    <= 0x300_0000_0000_0000) by (nonlinear_arith)
                    requires
                        -0x3_0000_0000 <= n64 <= 0x3_0000_0000,
                        -0x100_0000 <= y_scale <= 0x100_0000;
            }
            round_div(n64 * (y_scale as i64), (upem as i64) * 0x1_0000)
        },
        None => match extents {
            Some(e) => match tsb {
                Some(t) => {
                    let n64: i64 = (t as i64) * 0x1_0000 + tsb_delta_f16;
                    proof {
                        assert(-0x3_0000_0000 <= n64 <= 0x3_0000_0000);
                        assert(-0x300_0000_0000_0000 <= (n64 as int) * (y_scale as int)
                            <= 0x300_0000_0000_0000) by (nonlinear_arith)
                            requires
                                -0x3_0000_0000 <= n64 <= 0x3_0000_0000,
                                -0x100_0000 <= y_scale <= 0x100_0000;
                    }
                    let d = round_div(n64 * (y_scale as i64), (upem as i64) * 0x1_0000);
                    proof {
                        lemma_round_div_magnitude(
                            (n64 as int) * (y_scale as int),
                            (upem as int) * 0x1_0000,
                        );
                    }
                    e.y_bearing + d
                },
                None => {
                    let diff = (host_ascender - host_descender) + e.height;
                    let half = if diff >= 0 {
                        diff / 2
                    } else {
                        -((-diff + 1) / 2)
                    };
                    e.y_bearing + half
                },
            },
            None => host_ascender,
        },
    }
}

/// The vertical origin's x coordinate: half the horizontal advance,
/// truncated toward zero as the host's integer convention has it.
pub fn v_origin_x(h_advance_host: i64) -> (r: i64)
    requires
        -0x4000_0000_0000_0000 < h_advance_host < 0x4000_0000_0000_0000,
    ensures
        h_advance_host >= 0 ==> r == h_advance_host as int / 2,
        h_advance_host < 0 ==> r == -((-h_advance_host) as int / 2),
{
    if h_advance_host >= 0 {
        h_advance_host / 2
    } else {
        -((-h_advance_host) / 2)
    }
}

/// Scales the font-wide vertical measures into host space.
pub fn font_h_extents(units: FontUnitExtents, y_scale: i32, upem: u32) -> (r: HostFontExtents)
    requires
        upem > 0,
    ensures
        r.ascender == scale_round_spec(units.ascent as int, y_scale as int, upem as int),
        r.descender == scale_round_spec(units.descent as int, y_scale as int, upem as int),
        r.line_gap == scale_round_spec(units.leading as int, y_scale as int, upem as int),
{
    HostFontExtents {
        ascender: scale_round(units.ascent as i64, y_scale, upem),
        descender: scale_round(units.descent as i64, y_scale, upem),
        line_gap: scale_round(units.leading as i64, y_scale, upem),
    }
}

/// The synthetic-slant factor folded into the draw state before any
/// outline segment is emitted: the host's slant times the ratio of the
/// two scales, in 16.16 fixed point, and zero when the vertical scale is
/// zero (the degenerate case the ratio would divide by).
pub fn slant_ratio(slant_f16: i64, x_scale: i32, y_scale: i32) -> (r: i64)
    requires
        -DELTA_LIMIT <= slant_f16 <= DELTA_LIMIT,
        scale_in_range(x_scale as int),
    ensures
        y_scale == 0 ==> r == 0,
        y_scale != 0 ==> r == round_div_signed_spec(
            (slant_f16 as int) * (x_scale as int),
            y_scale as int,
        ),
{
    if y_scale == 0 {
        0
    } else {
        proof {
            assert(-0x100_0000_0000_0000 <= (slant_f16 as int) * (x_scale as int)
                <= 0x100_0000_0000_0000) by (nonlinear_arith)
                requires
                    -0x1_0000_0000 <= slant_f16 <= 0x1_0000_0000,
                    -0x100_0000 <= x_scale <= 0x100_0000;
        }
        round_div_signed(slant_f16 * (x_scale as i64), y_scale as i64)
    }
}

} // verus!
