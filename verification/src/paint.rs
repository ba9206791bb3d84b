use vstd::prelude::*;

use crate::gradient::ColorStopIn;
use crate::gradient::GradPoint;
use crate::gradient::HostColorStop;
use crate::gradient::point_in_range;
use crate::gradient::stops_resolved_spec;
use crate::gradient::stops_wf;
use crate::gradient::resolve_stops;
use crate::gradient::unreduce_anchors;
use crate::gradient::sweep_angle_to_host;
use crate::gradient::ANGLE_LIMIT;
use crate::gradient::FULL_TURN;
use crate::palette::ColorEntry;
use crate::palette::ALPHA_ONE;
use crate::palette::FOREGROUND_INDEX;
use crate::palette::lookup_color;
use crate::palette::lookup_color_spec;

verus! {

/// The deepest clip nesting the translator records; clips opened beyond
/// this ceiling are dropped, together with their matching pops, so the
/// emitted run stays balanced.
pub const CLIP_DEPTH_LIMIT: usize = 64;

/// What kind of clip is open at one nesting depth.
#[derive(Clone, Copy, PartialEq, Eq, Structural, Debug)]
pub enum ClipKind {
    GlyphShaped,
    BoxShaped,
}

/// A rectangular clip, in the fixed-point form the caller chose.
#[derive(Clone, Copy, PartialEq, Eq, Structural, Debug)]
pub struct ClipBox {
    pub x_min: i32,
    pub y_min: i32,
    pub x_max: i32,
    pub y_max: i32,
}

/// A 2x3 affine matrix, passed through to the host as the opaque bit
/// patterns the engine supplied.
#[derive(Clone, Copy, PartialEq, Eq, Structural, Debug)]
pub struct AffineTransform {
    pub xx_bits: u32,
    pub yx_bits: u32,
    pub xy_bits: u32,
    pub yy_bits: u32,
    pub dx_bits: u32,
    pub dy_bits: u32,
}

/// One call against the host's paint-callback table.
#[derive(Clone, PartialEq, Debug)]
pub enum HostOp {
    PushTransform(AffineTransform),
    PopTransform,
    PushInverseFontTransform,
    PushFontTransform,
    PushClipGlyph(u32),
    PushClipBox(ClipBox),
    PopClip,
    PaintColor { is_foreground: bool, color: u32 },
    PaintLinearGradient {
        stops: Vec<HostColorStop>,
        extend: u32,
        x0: i32,
        y0: i32,
        x1: i32,
        y1: i32,
        x2: i32,
        y2: i32,
    },
    PaintRadialGradient {
        stops: Vec<HostColorStop>,
        extend: u32,
        c0x_bits: u32,
        c0y_bits: u32,
        r0_bits: u32,
        c1x_bits: u32,
        c1y_bits: u32,
        r1_bits: u32,
    },
    PaintSweepGradient {
        stops: Vec<HostColorStop>,
        extend: u32,
        cx_bits: u32,
        cy_bits: u32,
        start_angle: i64,
        end_angle: i64,
    },
    PushGroup,
    PopGroup(u32),
}

/// One fill brush, as the engine's paint tree describes it.
#[derive(Clone, PartialEq, Debug)]
pub enum PaintBrush {
    Solid { palette_index: u16, alpha: u16 },
    LinearGradient { p0: GradPoint, p1: GradPoint, extend: u32, stops: Vec<ColorStopIn> },
    RadialGradient {
        c0x_bits: u32,
        c0y_bits: u32,
        r0_bits: u32,
        c1x_bits: u32,
        c1y_bits: u32,
        r1_bits: u32,
        extend: u32,
        stops: Vec<ColorStopIn>,
    },
    SweepGradient {
        cx_bits: u32,
        cy_bits: u32,
        start_angle: i64,
        end_angle: i64,
        extend: u32,
        stops: Vec<ColorStopIn>,
    },
}

/// Whether a brush's numeric fields are in the ranges the translation
/// needs: alpha multipliers at most one, linear anchors and sweep angles
/// inside their overflow-free ranges.
pub open spec fn brush_wf(b: PaintBrush) -> bool {
    match b {
        PaintBrush::Solid { alpha, .. } => alpha <= ALPHA_ONE,
        PaintBrush::LinearGradient { p0, p1, stops, .. } => point_in_range(p0) && point_in_range(
            p1,
        ) && stops_wf(stops@),
        PaintBrush::RadialGradient { stops, .. } => stops_wf(stops@),
        PaintBrush::SweepGradient { start_angle, end_angle, stops, .. } => -ANGLE_LIMIT
            <= start_angle <= ANGLE_LIMIT && -ANGLE_LIMIT <= end_angle <= ANGLE_LIMIT && stops_wf(
            stops@,
        ),
    }
}

/// The host ops that open a glyph-shaped clip: the glyph clip primitive
/// is defined in font-unit space, so it is wrapped between the inverse
/// font transform and the font transform.
pub open spec fn glyph_clip_push_ops(glyph: u32) -> Seq<HostOp> {
    seq![
        HostOp::PushInverseFontTransform,
        HostOp::PushClipGlyph(glyph),
        HostOp::PushFontTransform,
    ]
}

/// The host ops that close a glyph-shaped clip, undoing the wrapping.
pub open spec fn glyph_clip_pop_ops() -> Seq<HostOp> {
    seq![HostOp::PopTransform, HostOp::PopClip, HostOp::PopTransform]
}

/// What the single op a fill emits must look like for a given brush.
pub open spec fn is_fill_op(
    op: HostOp,
    b: PaintBrush,
    records: Seq<ColorEntry>,
    foreground: u32,
) -> bool {
    match b {
        PaintBrush::Solid { palette_index, alpha } => op == (HostOp::PaintColor {
            is_foreground: palette_index == FOREGROUND_INDEX,
            color: lookup_color_spec(records, foreground, palette_index, alpha) as u32,
        }),
        PaintBrush::LinearGradient { p0, p1, extend, stops } => (op matches
            HostOp::PaintLinearGradient {
                stops: rstops,
                extend: rext,
                x0,
                y0,
                x1,
                y1,
                x2,
                y2,
            } && rstops@ == stops_resolved_spec(stops@, records, foreground) && rext == extend && x0
            == p0.x && y0 == p0.y && x1 == p1.x && y1 == p1.y && x2 == p0.x + (p1.y - p0.y) && y2
            == p0.y - (p1.x - p0.x)),
        PaintBrush::RadialGradient {
            c0x_bits,
            c0y_bits,
            r0_bits,
            c1x_bits,
            c1y_bits,
            r1_bits,
            extend,
            stops,
        } => (op matches HostOp::PaintRadialGradient {
            stops: rstops,
            extend: rext,
            c0x_bits: rc0x,
            c0y_bits: rc0y,
            r0_bits: rr0,
            c1x_bits: rc1x,
            c1y_bits: rc1y,
            r1_bits: rr1,
        } && rstops@ == stops_resolved_spec(stops@, records, foreground) && rext == extend && rc0x
            == c0x_bits && rc0y == c0y_bits && rr0 == r0_bits && rc1x == c1x_bits && rc1y
            == c1y_bits && rr1 == r1_bits),
        PaintBrush::SweepGradient { cx_bits, cy_bits, start_angle, end_angle, extend, stops } => (op
            matches HostOp::PaintSweepGradient {
                stops: rstops,
                extend: rext,
                cx_bits: rcx,
                cy_bits: rcy,
                start_angle: rstart,
                end_angle: rend,
            } && rstops@ == stops_resolved_spec(stops@, records, foreground) && rext == extend
            && rcx == cx_bits && rcy == cy_bits && rstart == FULL_TURN - start_angle && rend
            == FULL_TURN - end_angle),
    }
}

/// The per-call state of one paint-glyph translation: the resolved
/// palette, the foreground color, the clip bookkeeping, the composite-
/// mode stack, and the run of host ops emitted so far.
pub struct PaintContext {
    pub foreground: u32,
    pub records: Vec<ColorEntry>,
    pub clip_stack: Vec<ClipKind>,
    pub dropped_clips: u64,
    pub mode_stack: Vec<u32>,
    pub ops: Vec<HostOp>,
}

impl PaintContext {
    /// The clip bookkeeping never records more than the depth ceiling,
    /// and clips are only dropped while the recorded stack is full.
    pub open spec fn wf(self) -> bool {
        self.clip_stack@.len() <= CLIP_DEPTH_LIMIT && (self.dropped_clips > 0
            ==> self.clip_stack@.len() == CLIP_DEPTH_LIMIT)
    }

    /// Whether two states agree on everything but the clip bookkeeping
    /// and the emitted ops.
    pub open spec fn same_palette(self, other: PaintContext) -> bool {
        self.foreground == other.foreground && self.records@ == other.records@
    }

    /// Creates the context for one paint-glyph call: no clip open, no
    /// layer open, nothing emitted yet.
    pub fn new(foreground: u32, records: Vec<ColorEntry>) -> (r: PaintContext)
        ensures
            r.wf(),
            r.foreground == foreground,
            r.records@ == records@,
            r.clip_stack@ == Seq::<ClipKind>::empty(),
            r.dropped_clips == 0,
            r.mode_stack@ == Seq::<u32>::empty(),
            r.ops@ == Seq::<HostOp>::empty(),
    {
        PaintContext {
            foreground,
            records,
            clip_stack: Vec::new(),
            dropped_clips: 0,
            mode_stack: Vec::new(),
            ops: Vec::new(),
        }
    }

    /// Passes a transform push straight through to the host.
    pub fn push_transform(&mut self, t: AffineTransform)
        ensures
            final(self).ops@ == old(self).ops@.push(HostOp::PushTransform(t)),
            final(self).clip_stack@ == old(self).clip_stack@,
            final(self).dropped_clips == old(self).dropped_clips,
            final(self).mode_stack@ == old(self).mode_stack@,
            final(self).same_palette(*old(self)),
            old(self).wf() ==> final(self).wf(),
    {
        self.ops.push(HostOp::PushTransform(t));
    }

    /// Passes a transform pop straight through to the host.
    pub fn pop_transform(&mut self)
        ensures
            final(self).ops@ == old(self).ops@.push(HostOp::PopTransform),
            final(self).clip_stack@ == old(self).clip_stack@,
            final(self).dropped_clips == old(self).dropped_clips,
            final(self).mode_stack@ == old(self).mode_stack@,
            final(self).same_palette(*old(self)),
            old(self).wf() ==> final(self).wf(),
    {
        self.ops.push(HostOp::PopTransform);
    }

    /// Opens a glyph-shaped clip: wrapped in the inverse font transform
    /// and the font transform so the clip is evaluated in font units, and
    /// recorded as glyph-shaped at the current depth. Beyond the depth
    /// ceiling the clip is dropped and only counted.
    pub fn push_clip_glyph(&mut self, glyph: u32)
        requires
            old(self).wf(),
        ensures
            final(self).wf(),
            final(self).same_palette(*old(self)),
            final(self).mode_stack@ == old(self).mode_stack@,
            if old(self).dropped_clips == 0 && old(self).clip_stack@.len() < CLIP_DEPTH_LIMIT {
                final(self).clip_stack@ == old(self).clip_stack@.push(ClipKind::GlyphShaped)
                    && final(self).dropped_clips == old(self).dropped_clips && final(self).ops@
                    == old(self).ops@ + glyph_clip_push_ops(glyph)
            } else {
                final(self).clip_stack@ == old(self).clip_stack@ && final(self).dropped_clips
                    as nat == sat_inc(old(self).dropped_clips as nat) && final(self).ops@ == old(self).ops@
            },
    {
        if self.dropped_clips == 0 && self.clip_stack.len() < CLIP_DEPTH_LIMIT {
            self.clip_stack.push(ClipKind::GlyphShaped);
            self.ops.push(HostOp::PushInverseFontTransform);
            self.ops.push(HostOp::PushClipGlyph(glyph));
            self.ops.push(HostOp::PushFontTransform);
            proof {
                assert(self.ops@ =~= old(self).ops@ + glyph_clip_push_ops(glyph));
            }
        } else {
            if self.dropped_clips < u64::MAX {
                self.dropped_clips = self.dropped_clips + 1;
            }
        }
    }

    /// Opens a rectangular clip in the current transform space and
    /// records it as box-shaped at the current depth. Beyond the depth
    /// ceiling the clip is dropped and only counted.
    pub fn push_clip_box(&mut self, bbox: ClipBox)
        requires
            old(self).wf(),
        ensures
            final(self).wf(),
            final(self).same_palette(*old(self)),
            final(self).mode_stack@ == old(self).mode_stack@,
            if old(self).dropped_clips == 0 && old(self).clip_stack@.len() < CLIP_DEPTH_LIMIT {
                final(self).clip_stack@ == old(self).clip_stack@.push(ClipKind::BoxShaped)
                    && final(self).dropped_clips == old(self).dropped_clips && final(self).ops@
                    == old(self).ops@.push(HostOp::PushClipBox(bbox))
            } else {
                final(self).clip_stack@ == old(self).clip_stack@ && final(self).dropped_clips
                    as nat == sat_inc(old(self).dropped_clips as nat) && final(self).ops@ == old(self).ops@
            },
    {
        if self.dropped_clips == 0 && self.clip_stack.len() < CLIP_DEPTH_LIMIT {
            self.clip_stack.push(ClipKind::BoxShaped);
            self.ops.push(HostOp::PushClipBox(bbox));
        } else {
            if self.dropped_clips < u64::MAX {
                self.dropped_clips = self.dropped_clips + 1;
            }
        }
    }

    /// Closes the innermost clip. A clip that was dropped at its push is
    /// dropped again here; a recorded glyph-shaped clip pops its two
    /// wrapping transforms around the clip pop; a recorded box clip pops
    /// only the clip; a pop with nothing open is a defensive no-op.
    pub fn pop_clip(&mut self)
        requires
            old(self).wf(),
        ensures
            final(self).wf(),
            final(self).same_palette(*old(self)),
            final(self).mode_stack@ == old(self).mode_stack@,
            if old(self).dropped_clips > 0 {
                final(self).clip_stack@ == old(self).clip_stack@ && final(self).dropped_clips == old(self).dropped_clips - 1 && final(self).ops@ == old(self).ops@
            } else if old(self).clip_stack@.len() > 0 {
                final(self).clip_stack@ == old(self).clip_stack@.drop_last() && final(self).dropped_clips == 0 && final(self).ops@ == old(self).ops@ + (if old(self).clip_stack@.last() is GlyphShaped {
                    glyph_clip_pop_ops()
                } else {
                    seq![HostOp::PopClip]
                })
            } else {
                final(self).clip_stack@ == old(self).clip_stack@ && final(self).dropped_clips == 0
                    && final(self).ops@ == old(self).ops@
            },
    {
        if self.dropped_clips > 0 {
            self.dropped_clips = self.dropped_clips - 1;
        } else {
            match self.clip_stack.pop() {
                Some(ClipKind::GlyphShaped) => {
                    self.ops.push(HostOp::PopTransform);
                    self.ops.push(HostOp::PopClip);
                    self.ops.push(HostOp::PopTransform);
                    proof {
                        assert(self.ops@ =~= old(self).ops@ + glyph_clip_pop_ops());
                    }
                },
                Some(ClipKind::BoxShaped) => {
                    self.ops.push(HostOp::PopClip);
                    proof {
                        assert(self.ops@ =~= old(self).ops@ + seq![HostOp::PopClip]);
                    }
                },
                None => {},
            }
        }
    }

    /// Opens an isolated compositing group and remembers the composite
    /// mode it must be closed with: the host consumes the mode at the
    /// close, but the paint tree announces it at the open.
    pub fn push_layer(&mut self, mode: u32)
        ensures
            final(self).ops@ == old(self).ops@.push(HostOp::PushGroup),
            final(self).mode_stack@ == old(self).mode_stack@.push(mode),
            final(self).clip_stack@ == old(self).clip_stack@,
            final(self).dropped_clips == old(self).dropped_clips,
            final(self).same_palette(*old(self)),
            old(self).wf() ==> final(self).wf(),
    {
        self.mode_stack.push(mode);
        self.ops.push(HostOp::PushGroup);
    }

    /// Closes the innermost compositing group with the mode that was
    /// active when its matching open was issued. A close with no open
    /// group is a defensive no-op.
    pub fn pop_layer(&mut self)
        ensures
            final(self).clip_stack@ == old(self).clip_stack@,
            final(self).dropped_clips == old(self).dropped_clips,
            final(self).same_palette(*old(self)),
            old(self).wf() ==> final(self).wf(),
            if old(self).mode_stack@.len() > 0 {
                final(self).mode_stack@ == old(self).mode_stack@.drop_last() && final(self).ops@
                    == old(self).ops@.push(HostOp::PopGroup(old(self).mode_stack@.last()))
            } else {
                final(self).mode_stack@ == old(self).mode_stack@ && final(self).ops@ == old(self).ops@
            },
    {
        match self.mode_stack.pop() {
            Some(mode) => {
                self.ops.push(HostOp::PopGroup(mode));
            },
            None => {},
        }
    }

    /// Emits the one host call a fill resolves to: a solid color, or a
    /// gradient with its color line resolved, its linear anchors
    /// reconstructed, and its sweep angles carried to the host's
    /// convention.
    pub fn fill(&mut self, brush: &PaintBrush)
        requires
            brush_wf(*brush),
        ensures
            final(self).clip_stack@ == old(self).clip_stack@,
            final(self).dropped_clips == old(self).dropped_clips,
            final(self).mode_stack@ == old(self).mode_stack@,
            final(self).same_palette(*old(self)),
            old(self).wf() ==> final(self).wf(),
            final(self).ops@.len() == old(self).ops@.len() + 1,
            final(self).ops@.subrange(0, old(self).ops@.len() as int) == old(self).ops@,
            is_fill_op(
                final(self).ops@.last(),
                *brush,
                old(self).records@,
                old(self).foreground,
            ),
    {
        let op: HostOp = match brush {
            PaintBrush::Solid { palette_index, alpha } => {
                let color = lookup_color(&self.records, self.foreground, *palette_index, *alpha);
                HostOp::PaintColor { is_foreground: *palette_index == FOREGROUND_INDEX, color }
            },
            PaintBrush::LinearGradient { p0, p1, extend, stops } => {
                let rstops = resolve_stops(stops, &self.records, self.foreground);
                let (q0, q1, q2) = unreduce_anchors(*p0, *p1);
                HostOp::PaintLinearGradient {
                    stops: rstops,
                    extend: *extend,
                    x0: q0.x,
                    y0: q0.y,
                    x1: q1.x,
                    y1: q1.y,
                    x2: q2.x,
                    y2: q2.y,
                }
            },
            PaintBrush::RadialGradient {
                c0x_bits,
                c0y_bits,
                r0_bits,
                c1x_bits,
                c1y_bits,
                r1_bits,
                extend,
                stops,
            } => {
                let rstops = resolve_stops(stops, &self.records, self.foreground);
                HostOp::PaintRadialGradient {
                    stops: rstops,
                    extend: *extend,
                    c0x_bits: *c0x_bits,
                    c0y_bits: *c0y_bits,
                    r0_bits: *r0_bits,
                    c1x_bits: *c1x_bits,
                    c1y_bits: *c1y_bits,
                    r1_bits: *r1_bits,
                }
            },
            PaintBrush::SweepGradient {
                cx_bits,
                cy_bits,
                start_angle,
                end_angle,
                extend,
                stops,
            } => {
                let rstops = resolve_stops(stops, &self.records, self.foreground);
                let start = sweep_angle_to_host(*start_angle);
                let end = sweep_angle_to_host(*end_angle);
                HostOp::PaintSweepGradient {
                    stops: rstops,
                    extend: *extend,
                    cx_bits: *cx_bits,
                    cy_bits: *cy_bits,
                    start_angle: start,
                    end_angle: end,
                }
            },
        };
        self.ops.push(op);
        proof {
            assert(self.ops@.subrange(0, old(self).ops@.len() as int) =~= old(self).ops@);
        }
    }

    /// Fills one glyph's shape: the glyph clip is opened raw, wrapped in
    /// the two font transforms but not recorded in the clip stack, the
    /// brush is filled, optionally inside one more transform, and the
    /// wrapping is undone in reverse order.
    pub fn fill_glyph(
        &mut self,
        glyph: u32,
        brush_transform: Option<AffineTransform>,
        brush: &PaintBrush,
    )
        requires
            brush_wf(*brush),
        ensures
            final(self).clip_stack@ == old(self).clip_stack@,
            final(self).dropped_clips == old(self).dropped_clips,
            final(self).mode_stack@ == old(self).mode_stack@,
            final(self).same_palette(*old(self)),
            old(self).wf() ==> final(self).wf(),
            ({
                let pre = old(self).ops@ + glyph_clip_push_ops(glyph) + (match brush_transform {
                    Some(t) => seq![HostOp::PushTransform(t)],
                    None => Seq::<HostOp>::empty(),
                });
                let post = (match brush_transform {
                    Some(_) => seq![HostOp::PopTransform],
                    None => Seq::<HostOp>::empty(),
                }) + glyph_clip_pop_ops();
                final(self).ops@.len() == pre.len() + 1 + post.len() && final(self).ops@.subrange(
                    0,
                    pre.len() as int,
                ) == pre && is_fill_op(
                    final(self).ops@[pre.len() as int],
                    *brush,
                    old(self).records@,
                    old(self).foreground,
                ) && final(self).ops@.subrange(pre.len() as int + 1, final(self).ops@.len() as int) == post
            }),
    {
        let ghost pre = old(self).ops@ + glyph_clip_push_ops(glyph) + (match brush_transform {
            Some(t) => seq![HostOp::PushTransform(t)],
            None => Seq::<HostOp>::empty(),
        });
        self.ops.push(HostOp::PushInverseFontTransform);
        self.ops.push(HostOp::PushClipGlyph(glyph));
        self.ops.push(HostOp::PushFontTransform);
        match brush_transform {
            Some(t) => {
                self.push_transform(t);
                proof {
                    assert(self.ops@ =~= pre);
                }
                self.fill(brush);
                proof {
                    assert(self.ops@ =~= pre.push(self.ops@.last()));
                }
                self.pop_transform();
            },
            None => {
                proof {
                    assert(self.ops@ =~= pre);
                }
                self.fill(brush);
                proof {
                    assert(self.ops@ =~= pre.push(self.ops@.last()));
                }
            },
        }
        self.ops.push(HostOp::PopTransform);
        self.ops.push(HostOp::PopClip);
        self.ops.push(HostOp::PopTransform);
        proof {
            assert(self.ops@.subrange(0, pre.len() as int) =~= pre);
            assert(self.ops@.subrange(pre.len() as int + 1, self.ops@.len() as int) =~= (
            match brush_transform {
                Some(_) => seq![HostOp::PopTransform],
                None => Seq::<HostOp>::empty(),
            }) + glyph_clip_pop_ops());
        }
    }
}

/// Whether a paint run must be handed a desynthesized view of the font:
/// color paint geometry must not carry the host's synthetic bold or
/// slant a second time, so a handle with either set paints against a
/// view with both cleared, restored when the run returns.
pub fn needs_desynthesized_view(synthetic_bold: bool, synthetic_slant_f16: i64) -> (r: bool)
    ensures
        r == (synthetic_bold || synthetic_slant_f16 != 0),
{
    synthetic_bold || synthetic_slant_f16 != 0
}

/// Increments the dropped-clip count, holding it at its ceiling rather
/// than wrapping.
pub open spec fn sat_inc(d: nat) -> nat {
    if d == u64::MAX {
        d
    } else {
        d + 1
    }
}

} // verus!
