use vstd::prelude::*;

use crate::numeric::round_div_spec;
use crate::numeric::round_div;

verus! {

/// One CPAL palette entry, already read out of the font.
#[derive(Clone, Copy, PartialEq, Eq, Structural, Debug)]
pub struct ColorEntry {
    pub red: u8,
    pub green: u8,
    pub blue: u8,
    pub alpha: u8,
}

/// The sentinel palette index that selects the host-supplied foreground
/// color instead of a palette entry.
pub const FOREGROUND_INDEX: u16 = 0xFFFF;

/// An alpha multiplier of exactly one, in 2.14 fixed point.
pub const ALPHA_ONE: u16 = 0x4000;

/// `round(base * alpha)` for an alpha multiplier in 2.14 fixed point.
pub open spec fn apply_alpha_spec(base: u8, alpha: u16) -> int
    recommends
        alpha <= ALPHA_ONE,
{
    round_div_spec((base as int) * (alpha as int), ALPHA_ONE as int)
}

/// Multiplies an 8-bit channel by a 2.14 fixed-point alpha, rounding to
/// the nearest value.
pub fn apply_alpha(base: u8, alpha: u16) -> (r: u8)
    requires
        alpha <= ALPHA_ONE,
    ensures
        r == apply_alpha_spec(base, alpha),
{
    proof {
        assert(0 <= (base as int) * (alpha as int) <= 255 * 0x4000) by (nonlinear_arith)
            requires
                base <= 255,
                alpha <= 0x4000;
    }
    let n: i64 = (base as i64) * (alpha as i64);
    let d: i64 = ALPHA_ONE as i64;
    let q = round_div(n, d);
    q as u8
}

/// The host's packed color convention: blue, green, red, alpha from the
/// highest byte down.
pub open spec fn pack_color_spec(blue: u8, green: u8, red: u8, alpha: int) -> int {
    (blue as int) * 0x100_0000 + (green as int) * 0x1_0000 + (red as int) * 0x100 + alpha
}

/// What resolving a palette index against the palette and the foreground
/// color yields.
///
/// The sentinel index keeps the foreground's color channels and multiplies
/// the fill's alpha into the foreground's own alpha; a regular index packs
/// the palette entry with its alpha scaled; an index past the palette's
/// end degrades to fully transparent black.
pub open spec fn lookup_color_spec(
    records: Seq<ColorEntry>,
    foreground: u32,
    index: u16,
    alpha: u16,
) -> int
    recommends
        alpha <= ALPHA_ONE,
{
    if index == FOREGROUND_INDEX {
        (foreground as int) / 0x100 * 0x100 + apply_alpha_spec((foreground % 0x100) as u8, alpha)
    } else if (index as int) < records.len() {
        let c = records[index as int];
        pack_color_spec(c.blue, c.green, c.red, apply_alpha_spec(c.alpha, alpha))
    } else {
        0
    }
}

/// Resolves a palette index to a packed host color.
pub fn lookup_color(records: &Vec<ColorEntry>, foreground: u32, index: u16, alpha: u16) -> (r: u32)
    requires
        alpha <= ALPHA_ONE,
    ensures
        r == lookup_color_spec(records@, foreground, index, alpha),
{
    if index == FOREGROUND_INDEX {
        let fg_alpha: u8 = (foreground % 0x100) as u8;
        let scaled = apply_alpha(fg_alpha, alpha);
        foreground / 0x100 * 0x100 + (scaled as u32)
    } else if (index as usize) < records.len() {
        let c = records[index as usize];
        let scaled = apply_alpha(c.alpha, alpha);
        (c.blue as u32) * 0x100_0000 + (c.green as u32) * 0x1_0000 + (c.red as u32) * 0x100
            + (scaled as u32)
    } else {
        0
    }
}

/// Law: for every foreground color and every fill alpha, the sentinel
/// palette index resolves to a color whose blue, green and red channels
/// equal the foreground's, and whose alpha channel is the foreground's
/// alpha multiplied by the fill's alpha, rounded.
pub proof fn lemma_foreground_sentinel(
    records: Seq<ColorEntry>,
    foreground: u32,
    alpha: u16,
)
    requires
        alpha <= ALPHA_ONE,
    ensures
        lookup_color_spec(records, foreground, FOREGROUND_INDEX, alpha) / 0x100 == (
        foreground as int) / 0x100,
        lookup_color_spec(records, foreground, FOREGROUND_INDEX, alpha) % 0x100
            == round_div_spec((foreground % 0x100) * alpha, ALPHA_ONE as int),
{
    let a = apply_alpha_spec((foreground % 0x100) as u8, alpha);
    assert(0 <= ((foreground % 0x100) as u8) * alpha <= 255 * 0x4000) by (nonlinear_arith)
        requires
            alpha <= 0x4000;
    assert(0 <= a <= 255);
    let hi = (foreground as int) / 0x100;
    assert((hi * 0x100 + a) / 0x100 == hi);
    assert((hi * 0x100 + a) % 0x100 == a);
}

/// Selects the first palette-entry index for a requested palette, falling
/// back to the first defined palette when the request is out of range, and
/// reporting `None` only when the font defines no palette at all.
pub fn select_palette_start(starts: &Vec<u16>, palette_index: usize) -> (r: Option<u16>)
    ensures
        palette_index < starts@.len() ==> r == Some(starts@[palette_index as int]),
        palette_index >= starts@.len() && starts@.len() > 0 ==> r == Some(starts@[0]),
        starts@.len() == 0 ==> r is None,
{
    if palette_index < starts.len() {
        Some(starts[palette_index])
    } else if starts.len() > 0 {
        Some(starts[0])
    } else {
        None
    }
}

/// The color array of one palette: `count` records starting at `start`,
/// or an empty array when the palette table's claims do not fit the record
/// array (a malformed font degrades to transparent fills, it never aborts
/// the paint).
pub open spec fn palette_slice_spec(records: Seq<ColorEntry>, start: int, count: int) -> Seq<
    ColorEntry,
> {
    if 0 <= start && 0 <= count && start + count <= records.len() {
        records.subrange(start, start + count)
    } else {
        Seq::empty()
    }
}

/// Cuts the requested palette's records out of the font's full record
/// array, degrading to an empty palette when the bounds do not fit.
pub fn palette_slice(records: &Vec<ColorEntry>, start: u16, count: u16) -> (r: Vec<ColorEntry>)
    ensures
        r@ == palette_slice_spec(records@, start as int, count as int),
{
    let s = start as usize;
    let n = count as usize;
    let total: usize = records.len();
    if s <= total && n <= total - s {
        let mut out: Vec<ColorEntry> = Vec::new();
        let mut i: usize = 0;
        while i < n
            invariant
                i <= n,
                s + n <= total,
                total == records@.len(),
                out@ =~= records@.subrange(s as int, s + i),
            decreases n - i,
        {
            out.push(records[s + i]);
            proof {
                assert(out@ =~= records@.subrange(s as int, s + i + 1));
            }
            i = i + 1;
        }
        out
    } else {
        Vec::new()
    }
}

} // verus!
