use vstd::prelude::*;

use crate::palette::ColorEntry;
use crate::palette::ALPHA_ONE;
use crate::palette::FOREGROUND_INDEX;
use crate::palette::lookup_color;
use crate::palette::lookup_color_spec;

verus! {

/// A gradient anchor point, in the fixed-point coordinate form the caller
/// chose for the paint run.
#[derive(Clone, Copy, PartialEq, Eq, Structural, Debug)]
pub struct GradPoint {
    pub x: i32,
    pub y: i32,
}

/// The largest coordinate magnitude under which anchor reconstruction
/// cannot overflow.
pub const COORD_LIMIT: i32 = 0x2000_0000;

/// Whether a point's coordinates stay inside the reconstruction range.
pub open spec fn point_in_range(p: GradPoint) -> bool {
    -COORD_LIMIT < p.x < COORD_LIMIT && -COORD_LIMIT < p.y < COORD_LIMIT
}

/// Rebuilds the three-point form of a linear gradient from the engine's
/// two-point reduction: the third, axis-defining point is the start point
/// plus the start-to-end vector rotated a quarter turn.
pub fn unreduce_anchors(p0: GradPoint, p1: GradPoint) -> (r: (GradPoint, GradPoint, GradPoint))
    requires
        point_in_range(p0),
        point_in_range(p1),
    ensures
        r.0 == p0,
        r.1 == p1,
        r.2.x == p0.x + (p1.y - p0.y),
        r.2.y == p0.y - (p1.x - p0.x),
{
    let dx = p1.x - p0.x;
    let dy = p1.y - p0.y;
    (p0, p1, GradPoint { x: p0.x + dy, y: p0.y - dx })
}

/// The original three-point reduction: projects the start-to-stop vector
/// `p1 - p0` onto the line through `p0` perpendicular to `p0 p2`, yielding
/// the reduced stop point; the start point passes through unchanged.
pub open spec fn reduce_anchors(p0x: int, p0y: int, p1x: int, p1y: int, p2x: int, p2y: int) -> (
    int,
    int,
    int,
    int,
)
    recommends
        (p2x, p2y) != (p0x, p0y),
{
    let vx = p1x - p0x;
    let vy = p1y - p0y;
    let ux = -(p2y - p0y);
    let uy = p2x - p0x;
    let s = vx * ux + vy * uy;
    let t = ux * ux + uy * uy;
    (p0x, p0y, p0x + (s * ux) / t, p0y + (s * uy) / t)
}

/// Law: anchor reconstruction is a left inverse of the three-point
/// reduction. For every non-degenerate pair of anchors (start differs
/// from end), reducing the reconstructed three points yields the original
/// two points back, unchanged.
pub proof fn lemma_reduce_after_unreduce(p0: GradPoint, p1: GradPoint)
    requires
        point_in_range(p0),
        point_in_range(p1),
        p0 != p1,
    ensures
        reduce_anchors(
            p0.x as int,
            p0.y as int,
            p1.x as int,
            p1.y as int,
            p0.x + (p1.y - p0.y),
            p0.y - (p1.x - p0.x),
        ) == (p0.x as int, p0.y as int, p1.x as int, p1.y as int),
{
    let vx = p1.x - p0.x;
    let vy = p1.y - p0.y;
    let p2x = p0.x + vy;
    let p2y = p0.y - vx;
    let ux = -(p2y - p0.y);
    let uy = p2x - p0.x;
    assert(ux == vx && uy == vy);
    let s = vx * ux + vy * uy;
    let t = ux * ux + uy * uy;
    assert(s == t);
    assert(t > 0) by (nonlinear_arith)
        requires
            ux == vx && uy == vy,
            s == vx * ux + vy * uy,
            t == ux * ux + uy * uy,
            vx != 0 || vy != 0;
    assert((t * vx) / t == vx) by {
        vstd::arithmetic::div_mod::lemma_div_multiples_vanish(vx as int, t);
    }
    assert((t * vy) / t == vy) by {
        vstd::arithmetic::div_mod::lemma_div_multiples_vanish(vy as int, t);
    }
    assert(s * ux == t * vx);
    assert(s * uy == t * vy);
}

/// One full turn, in 16.16 fixed-point degrees.
pub const FULL_TURN: i64 = 0x168_0000;

/// The largest angle magnitude accepted by the sweep conversion, in 16.16
/// fixed-point degrees; generous enough for any angle a color table can
/// express.
pub const ANGLE_LIMIT: i64 = 0x4000_0000_0000;

/// Converts a sweep-gradient angle between the engine's counter-clockwise
/// convention and the host's clockwise one: both directions are the same
/// reflection, a full turn minus the angle.
pub fn sweep_angle_to_host(angle: i64) -> (r: i64)
    requires
        -ANGLE_LIMIT <= angle <= ANGLE_LIMIT,
    ensures
        r == FULL_TURN - angle,
{
    FULL_TURN - angle
}

/// Law: the engine-to-host sweep-angle reflection undoes itself; carrying
/// an angle to the host's convention and back yields the angle unchanged.
pub proof fn lemma_sweep_angle_round_trip(angle: int)
    ensures
        FULL_TURN - (FULL_TURN - angle) == angle,
{
}

/// One color stop as the engine hands it over: a position along the color
/// line (an opaque bit pattern, passed through), a palette index and an
/// alpha multiplier in 2.14 fixed point.
#[derive(Clone, Copy, PartialEq, Eq, Structural, Debug)]
pub struct ColorStopIn {
    pub offset_bits: u32,
    pub palette_index: u16,
    pub alpha: u16,
}

/// One color stop in the host's convention: the position passed through,
/// the color resolved against the palette and the foreground, and the
/// foreground-sentinel flag.
#[derive(Clone, Copy, PartialEq, Eq, Structural, Debug)]
pub struct HostColorStop {
    pub offset_bits: u32,
    pub color: u32,
    pub is_foreground: bool,
}

/// Whether every stop's alpha multiplier is at most one.
pub open spec fn stops_wf(stops: Seq<ColorStopIn>) -> bool {
    forall|i: int| 0 <= i < stops.len() ==> (#[trigger] stops[i]).alpha <= ALPHA_ONE
}

/// What one engine stop resolves to.
pub open spec fn host_stop_spec(s: ColorStopIn, records: Seq<ColorEntry>, foreground: u32) -> HostColorStop {
    HostColorStop {
        offset_bits: s.offset_bits,
        color: lookup_color_spec(records, foreground, s.palette_index, s.alpha) as u32,
        is_foreground: s.palette_index == FOREGROUND_INDEX,
    }
}

/// The whole resolved color line.
pub open spec fn stops_resolved_spec(
    stops: Seq<ColorStopIn>,
    records: Seq<ColorEntry>,
    foreground: u32,
) -> Seq<HostColorStop> {
    Seq::new(stops.len(), |i: int| host_stop_spec(stops[i], records, foreground))
}

/// Resolves every stop of a color line against the palette and the
/// foreground color.
pub fn resolve_stops(
    stops: &Vec<ColorStopIn>,
    records: &Vec<ColorEntry>,
    foreground: u32,
) -> (r: Vec<HostColorStop>)
    requires
        stops_wf(stops@),
    ensures
        r@ == stops_resolved_spec(stops@, records@, foreground),
{
    let mut out: Vec<HostColorStop> = Vec::new();
    let mut i: usize = 0;
    while i < stops.len()
        invariant
            i <= stops@.len(),
            stops_wf(stops@),
            out@ =~= stops_resolved_spec(stops@, records@, foreground).take(i as int),
        decreases stops@.len() - i,
    {
        let s = stops[i];
        let color = lookup_color(records, foreground, s.palette_index, s.alpha);
        out.push(
            HostColorStop {
                offset_bits: s.offset_bits,
                color,
                is_foreground: s.palette_index == FOREGROUND_INDEX,
            },
        );
        proof {
            assert(out@ =~= stops_resolved_spec(stops@, records@, foreground).take(i + 1));
        }
        i = i + 1;
    }
    proof {
        assert(out@ =~= stops_resolved_spec(stops@, records@, foreground));
    }
    out
}

/// What a windowed read of the color line yields: the host asks for
/// `count` stops starting at `start` and is handed the stops that exist
/// there, which may be fewer, together with the line's total length.
pub open spec fn stops_window_spec(stops: Seq<HostColorStop>, start: int, count: int) -> Seq<
    HostColorStop,
> {
    if start >= stops.len() || count <= 0 {
        Seq::empty()
    } else if start + count <= stops.len() {
        stops.subrange(start, start + count)
    } else {
        stops.subrange(start, stops.len() as int)
    }
}

/// Reads one window of a resolved color line, as the host's batched
/// stop queries do: the requested range clamped to what exists, and the
/// total number of stops so the host can size the next query.
pub fn color_stops_window(stops: &Vec<HostColorStop>, start: usize, count: usize) -> (r: (
    Vec<HostColorStop>,
    usize,
))
    ensures
        r.0@ == stops_window_spec(stops@, start as int, count as int),
        r.1 == stops@.len(),
{
    let total: usize = stops.len();
    let mut out: Vec<HostColorStop> = Vec::new();
    if start >= total || count == 0 {
        return (out, total);
    }
    let end: usize = if count <= total - start {
        start + count
    } else {
        total
    };
    let mut i: usize = start;
    while i < end
        invariant
            start <= i <= end <= total,
            total == stops@.len(),
            out@ =~= stops@.subrange(start as int, i as int),
        decreases end - i,
    {
        out.push(stops[i]);
        proof {
            assert(out@ =~= stops@.subrange(start as int, i as int + 1));
        }
        i = i + 1;
    }
    (out, total)
}

} // verus!
