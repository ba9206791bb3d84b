use fontadapt::gradient::{
    color_stops_window, resolve_stops, sweep_angle_to_host, unreduce_anchors, ColorStopIn,
    GradPoint, HostColorStop, FULL_TURN,
};
use fontadapt::palette::{
    apply_alpha, lookup_color, select_palette_start, palette_slice, ColorEntry, ALPHA_ONE,
    FOREGROUND_INDEX,
};

#[test]
fn foreground_sentinel_keeps_rgb_and_multiplies_alpha() {
    // foreground B=0x11 G=0x22 R=0x33 A=0x80, fill alpha one half
    let records = vec![ColorEntry { red: 9, green: 9, blue: 9, alpha: 9 }];
    let color = lookup_color(&records, 0x1122_3380, FOREGROUND_INDEX, 0x2000);
    assert_eq!(color & 0xFFFF_FF00, 0x1122_3300);
    assert_eq!(color & 0xFF, 0x40);
    // alpha one keeps the foreground bit for bit
    assert_eq!(lookup_color(&records, 0x1122_3380, FOREGROUND_INDEX, ALPHA_ONE), 0x1122_3380);
    // the sentinel never reads the palette
    assert_eq!(lookup_color(&vec![], 0xAABB_CCFF, FOREGROUND_INDEX, ALPHA_ONE), 0xAABB_CCFF);
}

#[test]
fn palette_entries_pack_as_bgra_with_scaled_alpha() {
    let records = vec![
        ColorEntry { red: 0x33, green: 0x22, blue: 0x11, alpha: 0xFF },
        ColorEntry { red: 1, green: 2, blue: 3, alpha: 100 },
    ];
    assert_eq!(lookup_color(&records, 0, 0, ALPHA_ONE), 0x1122_33FF);
    assert_eq!(lookup_color(&records, 0, 1, 0x2000), 0x0302_0132);
    // an index past the palette degrades to transparent black
    assert_eq!(lookup_color(&records, 0xFFFF_FFFF, 2, ALPHA_ONE), 0);
}

#[test]
fn alpha_multiplication_rounds_to_nearest() {
    assert_eq!(apply_alpha(255, ALPHA_ONE), 255);
    assert_eq!(apply_alpha(255, 0), 0);
    assert_eq!(apply_alpha(128, 0x2000), 64);
    assert_eq!(apply_alpha(3, 0x2000), 2);  // 1.5 rounds away from zero
}

#[test]
fn out_of_range_palette_index_falls_back_to_first() {
    let starts = vec![10u16, 20, 30];
    assert_eq!(select_palette_start(&starts, 1), Some(20));
    assert_eq!(select_palette_start(&starts, 7), Some(10));
    assert_eq!(select_palette_start(&vec![], 0), None);
}

#[test]
fn palette_slice_degrades_on_malformed_bounds() {
    let records: Vec<ColorEntry> = (0..6u8)
        .map(|i| ColorEntry { red: i, green: 0, blue: 0, alpha: 255 })
        .collect();
    let cut = palette_slice(&records, 2, 3);
    assert_eq!(cut.len(), 3);
    assert_eq!(cut[0].red, 2);
    assert_eq!(cut[2].red, 4);
    assert_eq!(palette_slice(&records, 5, 3), vec![]);
    assert_eq!(palette_slice(&records, 6, 1), vec![]);
}

#[test]
fn linear_anchor_reconstruction_rotates_the_vector() {
    // a two-stop gradient from (0,0) to (100,0): the rebuilt third point
    // is (0, -100)
    let (p0, p1, p2) = unreduce_anchors(GradPoint { x: 0, y: 0 }, GradPoint { x: 100, y: 0 });
    assert_eq!((p0.x, p0.y), (0, 0));
    assert_eq!((p1.x, p1.y), (100, 0));
    assert_eq!((p2.x, p2.y), (0, -100));
    // a diagonal
    let (_, _, p2) = unreduce_anchors(GradPoint { x: 10, y: 20 }, GradPoint { x: 30, y: 50 });
    assert_eq!((p2.x, p2.y), (10 + 30, 20 - 20));
}

#[test]
fn sweep_angles_reflect_and_reflect_back() {
    let theta: i64 = 90 << 16;
    let host = sweep_angle_to_host(theta);
    assert_eq!(host, 270 << 16);
    assert_eq!(sweep_angle_to_host(host), theta);
    assert_eq!(sweep_angle_to_host(0), FULL_TURN);
    let negative: i64 = -(45 << 16);
    assert_eq!(sweep_angle_to_host(sweep_angle_to_host(negative)), negative);
}

#[test]
fn stops_resolve_with_the_same_palette_rule_as_solid_fills() {
    let records = vec![ColorEntry { red: 0x33, green: 0x22, blue: 0x11, alpha: 0xFF }];
    let stops = vec![
        ColorStopIn { offset_bits: 0, palette_index: 0, alpha: ALPHA_ONE },
        ColorStopIn { offset_bits: 0x3F80_0000, palette_index: FOREGROUND_INDEX, alpha: 0x2000 },
        ColorStopIn { offset_bits: 7, palette_index: 12, alpha: ALPHA_ONE },
    ];
    let out = resolve_stops(&stops, &records, 0x0000_0080);
    assert_eq!(out.len(), 3);
    assert_eq!(out[0].color, 0x1122_33FF);
    assert!(!out[0].is_foreground);
    assert_eq!(out[0].offset_bits, 0);
    assert_eq!(out[1].color, 0x0000_0040);
    assert!(out[1].is_foreground);
    assert_eq!(out[1].offset_bits, 0x3F80_0000);
    // a stop whose index misses the palette goes transparent, not absent
    assert_eq!(out[2].color, 0);
}

#[test]
fn color_stop_windows_clamp_and_report_the_total() {
    let stops: Vec<HostColorStop> = (0..5u32)
        .map(|i| HostColorStop { offset_bits: i, color: i, is_foreground: false })
        .collect();
    let (window, total) = color_stops_window(&stops, 1, 2);
    assert_eq!(total, 5);
    assert_eq!(window.iter().map(|s| s.color).collect::<Vec<_>>(), vec![1, 2]);
    let (tail, total) = color_stops_window(&stops, 3, 10);
    assert_eq!(total, 5);
    assert_eq!(tail.iter().map(|s| s.color).collect::<Vec<_>>(), vec![3, 4]);
    let (empty, total) = color_stops_window(&stops, 9, 2);
    assert_eq!((empty.len(), total), (0, 5));
    let (none, _) = color_stops_window(&stops, 0, 0);
    assert_eq!(none.len(), 0);
}
