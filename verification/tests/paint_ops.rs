use fontadapt::clip_law::ClipOp;
use fontadapt::gradient::{ColorStopIn, GradPoint};
use fontadapt::paint::{
    needs_desynthesized_view, AffineTransform, ClipBox, HostOp, PaintBrush, PaintContext,
};
use fontadapt::palette::{ColorEntry, ALPHA_ONE, FOREGROUND_INDEX};

fn count_pop_transforms(ops: &[HostOp]) -> usize {
    ops.iter().filter(|op| matches!(op, HostOp::PopTransform)).count()
}

fn sample_box() -> ClipBox {
    ClipBox { x_min: 1, y_min: 2, x_max: 3, y_max: 4 }
}

#[test]
fn glyph_clips_wrap_in_two_transforms_and_box_clips_in_none() {
    let mut ctx = PaintContext::new(0, vec![]);
    ctx.push_clip_glyph(7);
    assert_eq!(
        ctx.ops,
        vec![
            HostOp::PushInverseFontTransform,
            HostOp::PushClipGlyph(7),
            HostOp::PushFontTransform,
        ]
    );
    ctx.push_clip_box(sample_box());
    assert_eq!(ctx.ops.len(), 4);
    assert_eq!(ctx.ops[3], HostOp::PushClipBox(sample_box()));
    // the inner box clip pops bare, the outer glyph clip pops its wrapping
    ctx.pop_clip();
    assert_eq!(ctx.ops[4], HostOp::PopClip);
    ctx.pop_clip();
    assert_eq!(
        &ctx.ops[5..],
        &[HostOp::PopTransform, HostOp::PopClip, HostOp::PopTransform]
    );
}

#[test]
fn transform_pops_are_twice_the_reached_glyph_clip_pops() {
    // glyph, box, glyph inside box, all closed: two glyph closers reached
    let ops = vec![
        ClipOp::PushGlyph(1),
        ClipOp::PushBox(sample_box()),
        ClipOp::PushGlyph(2),
        ClipOp::Pop,
        ClipOp::Pop,
        ClipOp::Pop,
    ];
    let mut ctx = PaintContext::new(0, vec![]);
    ctx.apply_clip_ops(&ops);
    assert_eq!(count_pop_transforms(&ctx.ops), 2 * 2);
    // a glyph clip left open at the end is not counted
    let mut open = PaintContext::new(0, vec![]);
    open.apply_clip_ops(&vec![ClipOp::PushGlyph(1), ClipOp::PushBox(sample_box()), ClipOp::Pop]);
    assert_eq!(count_pop_transforms(&open.ops), 0);
}

#[test]
fn pops_beyond_the_open_clips_are_dropped() {
    let mut ctx = PaintContext::new(0, vec![]);
    ctx.pop_clip();
    assert!(ctx.ops.is_empty());
    ctx.push_clip_box(sample_box());
    ctx.pop_clip();
    let len = ctx.ops.len();
    ctx.pop_clip();
    assert_eq!(ctx.ops.len(), len);
}

#[test]
fn clips_beyond_the_depth_ceiling_are_dropped_in_balance() {
    let mut ctx = PaintContext::new(0, vec![]);
    for i in 0..64 {
        ctx.push_clip_glyph(i);
    }
    let full = ctx.ops.len();
    // the 65th nested clip and its pop both vanish
    ctx.push_clip_glyph(64);
    assert_eq!(ctx.ops.len(), full);
    ctx.push_clip_box(sample_box());
    assert_eq!(ctx.ops.len(), full);
    ctx.pop_clip();
    ctx.pop_clip();
    assert_eq!(ctx.ops.len(), full);
    // the matching pop of the deepest recorded clip still emits
    ctx.pop_clip();
    assert_eq!(
        &ctx.ops[full..],
        &[HostOp::PopTransform, HostOp::PopClip, HostOp::PopTransform]
    );
}

#[test]
fn solid_fill_resolves_through_the_palette() {
    let records = vec![ColorEntry { red: 0x33, green: 0x22, blue: 0x11, alpha: 0xFF }];
    let mut ctx = PaintContext::new(0x0000_0080, records);
    ctx.fill(&PaintBrush::Solid { palette_index: 0, alpha: ALPHA_ONE });
    ctx.fill(&PaintBrush::Solid { palette_index: FOREGROUND_INDEX, alpha: 0x2000 });
    assert_eq!(
        ctx.ops,
        vec![
            HostOp::PaintColor { is_foreground: false, color: 0x1122_33FF },
            HostOp::PaintColor { is_foreground: true, color: 0x0000_0040 },
        ]
    );
}

#[test]
fn linear_fill_carries_the_reconstructed_third_anchor() {
    let mut ctx = PaintContext::new(0, vec![]);
    ctx.fill(&PaintBrush::LinearGradient {
        p0: GradPoint { x: 0, y: 0 },
        p1: GradPoint { x: 100, y: 0 },
        extend: 1,
        stops: vec![ColorStopIn { offset_bits: 0, palette_index: FOREGROUND_INDEX, alpha: ALPHA_ONE }],
    });
    match &ctx.ops[0] {
        HostOp::PaintLinearGradient { stops, extend, x0, y0, x1, y1, x2, y2 } => {
            assert_eq!((*x0, *y0, *x1, *y1), (0, 0, 100, 0));
            assert_eq!((*x2, *y2), (0, -100));
            assert_eq!(*extend, 1);
            assert_eq!(stops.len(), 1);
            assert!(stops[0].is_foreground);
        }
        other => panic!("expected a linear gradient, got {:?}", other),
    }
}

#[test]
fn sweep_fill_converts_both_angles_to_clockwise() {
    let mut ctx = PaintContext::new(0, vec![]);
    ctx.fill(&PaintBrush::SweepGradient {
        cx_bits: 11,
        cy_bits: 22,
        start_angle: 90 << 16,
        end_angle: 180 << 16,
        extend: 0,
        stops: vec![],
    });
    match &ctx.ops[0] {
        HostOp::PaintSweepGradient { start_angle, end_angle, cx_bits, cy_bits, .. } => {
            assert_eq!(*start_angle, 270 << 16);
            assert_eq!(*end_angle, 180 << 16);
            assert_eq!((*cx_bits, *cy_bits), (11, 22));
        }
        other => panic!("expected a sweep gradient, got {:?}", other),
    }
}

#[test]
fn radial_fill_passes_both_circles_through() {
    let mut ctx = PaintContext::new(0, vec![]);
    ctx.fill(&PaintBrush::RadialGradient {
        c0x_bits: 1,
        c0y_bits: 2,
        r0_bits: 3,
        c1x_bits: 4,
        c1y_bits: 5,
        r1_bits: 6,
        extend: 2,
        stops: vec![],
    });
    match &ctx.ops[0] {
        HostOp::PaintRadialGradient { c0x_bits, c0y_bits, r0_bits, c1x_bits, c1y_bits, r1_bits, extend, .. } => {
            assert_eq!(
                (*c0x_bits, *c0y_bits, *r0_bits, *c1x_bits, *c1y_bits, *r1_bits, *extend),
                (1, 2, 3, 4, 5, 6, 2)
            );
        }
        other => panic!("expected a radial gradient, got {:?}", other),
    }
}

#[test]
fn fill_glyph_wraps_clip_and_optional_transform_without_touching_the_stack() {
    let t = AffineTransform {
        xx_bits: 1,
        yx_bits: 2,
        xy_bits: 3,
        yy_bits: 4,
        dx_bits: 5,
        dy_bits: 6,
    };
    let mut ctx = PaintContext::new(0, vec![]);
    ctx.push_clip_glyph(9);
    let depth_before = ctx.clip_stack.len();
    let start = ctx.ops.len();
    ctx.fill_glyph(5, Some(t), &PaintBrush::Solid { palette_index: 0, alpha: ALPHA_ONE });
    assert_eq!(ctx.clip_stack.len(), depth_before);
    assert_eq!(
        ctx.ops[start..start + 4],
        [
            HostOp::PushInverseFontTransform,
            HostOp::PushClipGlyph(5),
            HostOp::PushFontTransform,
            HostOp::PushTransform(t),
        ]
    );
    assert!(matches!(ctx.ops[start + 4], HostOp::PaintColor { .. }));
    assert_eq!(
        ctx.ops[start + 5..],
        [
            HostOp::PopTransform,
            HostOp::PopTransform,
            HostOp::PopClip,
            HostOp::PopTransform,
        ]
    );
}

#[test]
fn layers_recover_the_mode_recorded_at_their_open() {
    let mut ctx = PaintContext::new(0, vec![]);
    ctx.push_layer(3);
    ctx.push_layer(11);
    ctx.pop_layer();
    ctx.pop_layer();
    // a close with no open group is a defensive no-op
    ctx.pop_layer();
    assert_eq!(
        ctx.ops,
        vec![
            HostOp::PushGroup,
            HostOp::PushGroup,
            HostOp::PopGroup(11),
            HostOp::PopGroup(3),
        ]
    );
}

#[test]
fn transforms_pass_straight_through() {
    let t = AffineTransform {
        xx_bits: 10,
        yx_bits: 20,
        xy_bits: 30,
        yy_bits: 40,
        dx_bits: 50,
        dy_bits: 60,
    };
    let mut ctx = PaintContext::new(0, vec![]);
    ctx.push_transform(t);
    ctx.pop_transform();
    assert_eq!(ctx.ops, vec![HostOp::PushTransform(t), HostOp::PopTransform]);
}

#[test]
fn a_fully_closed_run_balances_every_push_with_a_pop() {
    let ops = vec![
        ClipOp::PushGlyph(1),
        ClipOp::PushBox(sample_box()),
        ClipOp::PushGlyph(2),
        ClipOp::Pop,
        ClipOp::PushBox(sample_box()),
        ClipOp::Pop,
        ClipOp::Pop,
        ClipOp::Pop,
    ];
    let mut ctx = PaintContext::new(0, vec![]);
    ctx.apply_clip_ops(&ops);
    let clip_pushes = ctx
        .ops
        .iter()
        .filter(|op| matches!(op, HostOp::PushClipGlyph(_) | HostOp::PushClipBox(_)))
        .count();
    let clip_pops = ctx.ops.iter().filter(|op| matches!(op, HostOp::PopClip)).count();
    let transform_pushes = ctx
        .ops
        .iter()
        .filter(|op| {
            matches!(
                op,
                HostOp::PushTransform(_)
                    | HostOp::PushInverseFontTransform
                    | HostOp::PushFontTransform
            )
        })
        .count();
    assert_eq!(clip_pushes, 4);
    assert_eq!(clip_pushes, clip_pops);
    assert_eq!(transform_pushes, count_pop_transforms(&ctx.ops));
    assert!(ctx.clip_stack.is_empty());
}


#[test]
fn synthetic_styling_demands_a_desynthesized_view() {
    assert!(!needs_desynthesized_view(false, 0));
    assert!(needs_desynthesized_view(true, 0));
    assert!(needs_desynthesized_view(false, 0x8000));
    assert!(needs_desynthesized_view(false, -1));
}
