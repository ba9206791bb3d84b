use fontadapt::adapter::FontTables;
use fontadapt::metrics::GlyphBounds;
use fontadapt::paint::HostOp;
use fontadapt::palette::ColorEntry;

use write_fonts::tables::cmap::Cmap;
use write_fonts::tables::colr::{
    BaseGlyph, BaseGlyphList, BaseGlyphPaint, Colr, ColorLine, ColorStop, Extend, Layer, Paint,
    PaintGlyph, PaintLinearGradient,
};
use write_fonts::tables::cpal::{ColorRecord, Cpal};
use write_fonts::tables::head::Head;
use write_fonts::tables::maxp::Maxp;
use write_fonts::tables::post::Post;
use write_fonts::types::{GlyphId, GlyphId16};
use write_fonts::FontBuilder;
use write_fonts::tables::hmtx::LongMetric;
use write_fonts::tables::vhea::Vhea;
use write_fonts::tables::vmtx::Vmtx;
use write_fonts::types::{F2Dot14, FWord, Tag, UfWord};

/// A small font: glyphs 1 and 2 mapped from 'A' and 'B', named through a
/// post table, glyph 3 a one-layer color glyph over a two-palette CPAL.
fn build_font() -> Vec<u8> {
    let cmap = Cmap::from_mappings([('A', GlyphId::new(1)), ('B', GlyphId::new(2))]).unwrap();
    let post = Post::new_v2([".notdef", "letterA", "letterB", "colorheart"]);
    let mut head = Head::default();
    head.units_per_em = 1000;
    let maxp = Maxp::new(4);
    let cpal = Cpal::new(
        2,
        2,
        4,
        Some(vec![
            ColorRecord::new(0x11, 0x22, 0x33, 0xFF),
            ColorRecord::new(0x44, 0x55, 0x66, 0x80),
            ColorRecord::new(1, 2, 3, 4),
            ColorRecord::new(5, 6, 7, 8),
        ]),
        vec![0, 2],
    );
    let mut colr = Colr::new(
        1,
        Some(vec![BaseGlyph::new(GlyphId16::new(3), 0, 1)]),
        Some(vec![Layer::new(GlyphId16::new(1), 0)]),
        1,
    );
    // glyph 2 carries a paint tree: the glyph's shape filled with a
    // two-stop linear gradient stored in the three-point form
    let color_line = ColorLine::new(
        Extend::Pad,
        2,
        vec![
            ColorStop::new(F2Dot14::from_f32(0.0), 0, F2Dot14::from_f32(1.0)),
            ColorStop::new(F2Dot14::from_f32(1.0), 1, F2Dot14::from_f32(1.0)),
        ],
    );
    let gradient = Paint::LinearGradient(PaintLinearGradient::new(
        color_line,
        FWord::new(0),
        FWord::new(0),
        FWord::new(100),
        FWord::new(0),
        FWord::new(0),
        FWord::new(-100),
    ));
    let glyph_paint = Paint::Glyph(PaintGlyph::new(gradient, GlyphId16::new(1)));
    colr.base_glyph_list =
        Some(BaseGlyphList::new(1, vec![BaseGlyphPaint::new(GlyphId16::new(2), glyph_paint)]))
            .into();
    let mut builder = FontBuilder::new();
    builder.add_table(&cmap).unwrap();
    builder.add_table(&post).unwrap();
    builder.add_table(&head).unwrap();
    builder.add_table(&maxp).unwrap();
    builder.add_table(&cpal).unwrap();
    builder.add_table(&colr).unwrap();
    builder.build()
}

#[test]
fn rejects_bytes_that_are_no_font() {
    let junk = vec![0u8; 16];
    assert!(FontTables::from_bytes(&junk, 0).is_none());
}

#[test]
fn maps_codepoints_until_the_first_miss() {
    let data = build_font();
    let tables = FontTables::from_bytes(&data, 0).unwrap();
    assert_eq!(tables.upem(), Some(1000));
    let mapped = tables.map_codepoints(&vec!['A' as u32, 'B' as u32]);
    assert_eq!(mapped, vec![1, 2]);
    // the batch stops at the first unmapped codepoint and reports the prefix
    let partial = tables.map_codepoints(&vec!['A' as u32, 0x4E00, 'B' as u32]);
    assert_eq!(partial, vec![1]);
    assert_eq!(tables.map_codepoints(&vec![0x4E00]), vec![]);
}

#[test]
fn variation_sequences_without_a_table_are_not_found() {
    let data = build_font();
    let tables = FontTables::from_bytes(&data, 0).unwrap();
    assert_eq!(tables.map_variation('A' as u32, 0xFE00), None);
}

#[test]
fn glyph_names_read_and_reverse_through_the_index() {
    let data = build_font();
    let tables = FontTables::from_bytes(&data, 0).unwrap();
    assert_eq!(tables.glyph_name_for(1, 64), Some(b"letterA\0".to_vec()));
    assert_eq!(tables.glyph_name_for(2, 4), Some(b"let\0".to_vec()));
    assert_eq!(tables.glyph_name_for(9, 64), None);
    let index = tables.build_name_index();
    assert_eq!(index.lookup(b"letterB"), Some(2));
    assert_eq!(index.lookup(b"colorheart"), Some(3));
    assert_eq!(index.lookup(b"missing"), None);
}

#[test]
fn color_glyph_extents_are_unavailable_and_outline_extents_scale() {
    let data = build_font();
    let tables = FontTables::from_bytes(&data, 0).unwrap();
    assert!(tables.glyph_is_color(3));
    assert!(!tables.glyph_is_color(1));
    let bounds = GlyphBounds { x_min: 0, x_max: 500, y_min: 0, y_max: 500 };
    // the color glyph reports unavailable even with bounds on hand
    assert_eq!(tables.glyph_extents_for(3, Some(bounds), 2048, 2048, 1000), None);
    let e = tables.glyph_extents_for(1, Some(bounds), 2048, 2048, 1000).unwrap();
    assert_eq!((e.x_bearing, e.width, e.y_bearing, e.height), (0, 1024, 1024, -1024));
}

#[test]
fn vertical_metrics_fall_back_without_the_tables() {
    let data = build_font();
    let tables = FontTables::from_bytes(&data, 0).unwrap();
    // no vertical-metrics table: the advance synthesizes from the line height
    assert_eq!(tables.v_advance_for(1, &vec![], 2048, 1000, 800, -200), -1000);
    // no origin table and no extents: the ascender is the last resort
    assert_eq!(tables.v_origin_y_for(1, &vec![], None, 2048, 1000, 1638, -410), 1638);
}

#[test]
fn paint_starts_only_for_color_glyphs_and_resolves_the_palette() {
    let data = build_font();
    let tables = FontTables::from_bytes(&data, 0).unwrap();
    assert!(tables.start_color_paint(1, 0, 0xFF).is_none());
    let ctx = tables.start_color_paint(3, 0, 0xFF).unwrap();
    assert_eq!(ctx.ops, vec![HostOp::PushFontTransform]);
    assert_eq!(
        ctx.records,
        vec![
            ColorEntry { red: 0x33, green: 0x22, blue: 0x11, alpha: 0xFF },
            ColorEntry { red: 0x66, green: 0x55, blue: 0x44, alpha: 0x80 },
        ]
    );
    // the second palette
    let ctx = tables.start_color_paint(3, 1, 0xFF).unwrap();
    assert_eq!(
        ctx.records,
        vec![
            ColorEntry { red: 3, green: 2, blue: 1, alpha: 4 },
            ColorEntry { red: 7, green: 6, blue: 5, alpha: 8 },
        ]
    );
    // an out-of-range palette index falls back to the first palette
    let ctx = tables.start_color_paint(3, 9, 0xFF).unwrap();
    assert_eq!(ctx.records[0].red, 0x33);
}

#[test]
fn batched_vertical_advances_answer_every_glyph() {
    let data = build_font();
    let tables = FontTables::from_bytes(&data, 0).unwrap();
    let advances = tables.v_advances_for(&vec![0, 1, 2, 3], &vec![], 2048, 1000, 800, -200);
    assert_eq!(advances, vec![-1000, -1000, -1000, -1000]);
}

#[test]
fn painting_a_layer_glyph_emits_the_wrapped_clip_and_fill() {
    let data = build_font();
    let tables = FontTables::from_bytes(&data, 0).unwrap();
    let mut ctx = tables.start_color_paint(3, 0, 0xFF).unwrap();
    let color_glyph = skrifa::MetadataProvider::color_glyphs(&tables.font)
        .get(skrifa::GlyphId::new(3))
        .unwrap();
    {
        let mut walker = Walker { ctx: &mut ctx };
        color_glyph
            .paint(skrifa::instance::LocationRef::default(), &mut walker)
            .unwrap();
    }
    ctx.pop_transform();
    // one layer over palette entry 0: the glyph fill is wrapped in the
    // font transforms around the clip, and the whole run in the outer
    // font transform
    assert_eq!(
        ctx.ops,
        vec![
            HostOp::PushFontTransform,
            HostOp::PushInverseFontTransform,
            HostOp::PushClipGlyph(1),
            HostOp::PushFontTransform,
            HostOp::PaintColor { is_foreground: false, color: 0x1122_33FF },
            HostOp::PopTransform,
            HostOp::PopClip,
            HostOp::PopTransform,
            HostOp::PopTransform,
        ]
    );
}

/// Drives the verified translator from the engine's walk, carrying each
/// value into the library's fixed-point model form.
struct Walker<'a> {
    ctx: &'a mut fontadapt::paint::PaintContext,
}

fn walker_fixed(v: f32) -> i32 {
    (v * 65536.0).round() as i32
}

fn walker_alpha(a: f32) -> u16 {
    (a.clamp(0.0, 1.0) * 16384.0).round() as u16
}

fn walker_stops(stops: &[skrifa::color::ColorStop]) -> Vec<fontadapt::gradient::ColorStopIn> {
    stops
        .iter()
        .map(|s| fontadapt::gradient::ColorStopIn {
            offset_bits: s.offset.to_bits(),
            palette_index: s.palette_index,
            alpha: walker_alpha(s.alpha),
        })
        .collect()
}

impl skrifa::color::ColorPainter for Walker<'_> {
    fn push_transform(&mut self, t: skrifa::color::Transform) {
        self.ctx.push_transform(fontadapt::paint::AffineTransform {
            xx_bits: t.xx.to_bits(),
            yx_bits: t.yx.to_bits(),
            xy_bits: t.xy.to_bits(),
            yy_bits: t.yy.to_bits(),
            dx_bits: t.dx.to_bits(),
            dy_bits: t.dy.to_bits(),
        });
    }

    fn pop_transform(&mut self) {
        self.ctx.pop_transform();
    }

    fn push_clip_glyph(&mut self, glyph_id: skrifa::GlyphId) {
        self.ctx.push_clip_glyph(glyph_id.to_u32());
    }

    fn push_clip_box(&mut self, b: read_fonts::types::BoundingBox<f32>) {
        self.ctx.push_clip_box(fontadapt::paint::ClipBox {
            x_min: walker_fixed(b.x_min),
            y_min: walker_fixed(b.y_min),
            x_max: walker_fixed(b.x_max),
            y_max: walker_fixed(b.y_max),
        });
    }

    fn pop_clip(&mut self) {
        self.ctx.pop_clip();
    }

    fn fill(&mut self, brush: skrifa::color::Brush<'_>) {
        let converted = walker_brush(&brush);
        self.ctx.fill(&converted);
    }

    fn push_layer(&mut self, mode: skrifa::color::CompositeMode) {
        self.ctx.push_layer(mode as u32);
    }

    fn pop_layer(&mut self) {
        self.ctx.pop_layer();
    }
}

fn walker_brush(brush: &skrifa::color::Brush<'_>) -> fontadapt::paint::PaintBrush {
    match brush {
        skrifa::color::Brush::Solid { palette_index, alpha } => {
            fontadapt::paint::PaintBrush::Solid {
                palette_index: *palette_index,
                alpha: walker_alpha(*alpha),
            }
        }
        skrifa::color::Brush::LinearGradient { p0, p1, color_stops, extend } => {
            fontadapt::paint::PaintBrush::LinearGradient {
                p0: fontadapt::gradient::GradPoint { x: walker_fixed(p0.x), y: walker_fixed(p0.y) },
                p1: fontadapt::gradient::GradPoint { x: walker_fixed(p1.x), y: walker_fixed(p1.y) },
                extend: *extend as u32,
                stops: walker_stops(color_stops),
            }
        }
        skrifa::color::Brush::RadialGradient { c0, r0, c1, r1, color_stops, extend } => {
            fontadapt::paint::PaintBrush::RadialGradient {
                c0x_bits: c0.x.to_bits(),
                c0y_bits: c0.y.to_bits(),
                r0_bits: r0.to_bits(),
                c1x_bits: c1.x.to_bits(),
                c1y_bits: c1.y.to_bits(),
                r1_bits: r1.to_bits(),
                extend: *extend as u32,
                stops: walker_stops(color_stops),
            }
        }
        skrifa::color::Brush::SweepGradient { c0, start_angle, end_angle, color_stops, extend } => {
            fontadapt::paint::PaintBrush::SweepGradient {
                cx_bits: c0.x.to_bits(),
                cy_bits: c0.y.to_bits(),
                start_angle: walker_fixed(*start_angle) as i64,
                end_angle: walker_fixed(*end_angle) as i64,
                extend: *extend as u32,
                stops: walker_stops(color_stops),
            }
        }
    }
}

#[test]
fn vertical_accessors_are_bound_exactly_where_the_tables_exist() {
    let plain = build_font();
    let tables = FontTables::from_bytes(&plain, 0).unwrap();
    assert!(tables.vmtx.is_none());
    assert!(tables.vorg.is_none());
    assert!(tables.vvar.is_none());
    let vertical = build_vertical_font();
    let tables = FontTables::from_bytes(&vertical, 0).unwrap();
    assert!(tables.vmtx.is_some());
    assert!(tables.vorg.is_some());
    assert!(tables.vvar.is_none());
}

#[test]
fn vertical_tables_feed_the_advance_and_origin() {
    let data = build_vertical_font();
    let tables = FontTables::from_bytes(&data, 0).unwrap();
    // glyph 0 advances 1000 units, glyph 1 and everything after 900
    assert_eq!(tables.v_advance_for(0, &vec![], 1000, 1000, 800, -200), -1000);
    assert_eq!(tables.v_advance_for(1, &vec![], 1000, 1000, 800, -200), -900);
    assert_eq!(tables.v_advance_for(3, &vec![], 1000, 1000, 800, -200), -900);
    // the origin table answers first: its default for unlisted glyphs
    assert_eq!(tables.v_origin_y_for(0, &vec![], None, 1000, 1000, 0, 0), 800);
    assert_eq!(tables.v_origin_y_for(1, &vec![], None, 1000, 1000, 0, 0), 750);
    // scaled at 2048 per 1000 units
    assert_eq!(tables.v_origin_y_for(1, &vec![], None, 2048, 1000, 0, 0), 1536);
}

/// The same small font with vertical-metrics and vertical-origin tables.
fn build_vertical_font() -> Vec<u8> {
    let cmap = Cmap::from_mappings([('A', GlyphId::new(1)), ('B', GlyphId::new(2))]).unwrap();
    let mut head = Head::default();
    head.units_per_em = 1000;
    let maxp = Maxp::new(4);
    let vhea = Vhea::new(
        FWord::new(800),
        FWord::new(-200),
        FWord::new(0),
        UfWord::new(1000),
        FWord::new(0),
        FWord::new(0),
        FWord::new(0),
        0,
        0,
        0,
        2,
    );
    let vmtx = Vmtx::new(
        vec![LongMetric::new(1000, 50), LongMetric::new(900, 40)],
        vec![30],
    );
    // VORG is written by hand: version 1.0, default origin 800, one
    // entry pinning glyph 1 at 750
    let mut vorg: Vec<u8> = Vec::new();
    vorg.extend_from_slice(&1u16.to_be_bytes());
    vorg.extend_from_slice(&0u16.to_be_bytes());
    vorg.extend_from_slice(&800i16.to_be_bytes());
    vorg.extend_from_slice(&1u16.to_be_bytes());
    vorg.extend_from_slice(&1u16.to_be_bytes());
    vorg.extend_from_slice(&750i16.to_be_bytes());
    let mut builder = FontBuilder::new();
    builder.add_table(&cmap).unwrap();
    builder.add_table(&head).unwrap();
    builder.add_table(&maxp).unwrap();
    builder.add_table(&vhea).unwrap();
    builder.add_table(&vmtx).unwrap();
    builder.add_raw(Tag::new(b"VORG"), vorg);
    builder.build()
}


#[test]
fn a_gradient_paint_tree_walks_into_reconstructed_anchors() {
    let data = build_font();
    let tables = FontTables::from_bytes(&data, 0).unwrap();
    assert!(tables.glyph_is_color(2));
    let mut ctx = tables.start_color_paint(2, 0, 0xFF).unwrap();
    let color_glyph = skrifa::MetadataProvider::color_glyphs(&tables.font)
        .get(skrifa::GlyphId::new(2))
        .unwrap();
    {
        let mut walker = Walker { ctx: &mut ctx };
        color_glyph
            .paint(skrifa::instance::LocationRef::default(), &mut walker)
            .unwrap();
    }
    ctx.pop_transform();
    assert_eq!(ctx.ops.len(), 9);
    assert_eq!(ctx.ops[0], HostOp::PushFontTransform);
    assert_eq!(ctx.ops[1], HostOp::PushInverseFontTransform);
    assert_eq!(ctx.ops[2], HostOp::PushClipGlyph(1));
    assert_eq!(ctx.ops[3], HostOp::PushFontTransform);
    match &ctx.ops[4] {
        HostOp::PaintLinearGradient { stops, extend, x0, y0, x1, y1, x2, y2 } => {
            // the engine reduced the stored three points to two; the
            // translator rebuilt the stored third point
            assert_eq!((*x0, *y0), (0, 0));
            assert_eq!((*x1, *y1), (100 << 16, 0));
            assert_eq!((*x2, *y2), (0, -(100 << 16)));
            assert_eq!(*extend, 0);
            assert_eq!(stops.len(), 2);
            assert_eq!(stops[0].color, 0x1122_33FF);
            assert_eq!(stops[1].color, 0x4455_6680);
            assert!(!stops[0].is_foreground);
        }
        other => panic!("expected a linear gradient, got {:?}", other),
    }
    assert_eq!(
        &ctx.ops[5..],
        &[
            HostOp::PopTransform,
            HostOp::PopClip,
            HostOp::PopTransform,
            HostOp::PopTransform,
        ]
    );
}
