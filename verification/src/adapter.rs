use vstd::prelude::*;

use read_fonts::FontRef;
use read_fonts::tables::vmtx::Vmtx;
use read_fonts::tables::vorg::Vorg;
use read_fonts::tables::vvar::Vvar;
use skrifa::GlyphNames;
use skrifa::charmap::Charmap;
use skrifa::color::ColorGlyphCollection;

use crate::engine::charmap_entries;
use crate::engine::charmap_map;
use crate::engine::charmap_map_variant;
use crate::engine::charmap_new;
use crate::engine::charmap_variants;
use crate::engine::color_glyph_set;
use crate::engine::color_glyphs_new;
use crate::engine::cpal_get;
use crate::engine::cpal_num_entries;
use crate::engine::cpal_record_array;
use crate::engine::cpal_starts;
use crate::engine::font_cpal_has_records;
use crate::engine::font_from_index;
use crate::engine::font_has_cpal;
use crate::engine::font_has_vmtx;
use crate::engine::font_has_vorg;
use crate::engine::font_has_vvar;
use crate::engine::font_palette_entry_count;
use crate::engine::font_palette_records;
use crate::engine::font_palette_starts;
use crate::engine::font_parse_ok;
use crate::engine::font_upem;
use crate::engine::upem_of;
use crate::engine::glyph_name_entries;
use crate::engine::glyph_name_get;
use crate::engine::glyph_name_of;
use crate::engine::glyph_name_table;
use crate::engine::glyph_names_new;
use crate::engine::has_color_glyph;
use crate::engine::vmtx_advance;
use crate::engine::vmtx_advances;
use crate::engine::vmtx_get;
use crate::engine::vmtx_side_bearing;
use crate::engine::vmtx_side_bearings;
use crate::engine::vorg_get;
use crate::engine::vorg_origin_y;
use crate::engine::vorg_origins;
use crate::engine::vvar_advance_delta;
use crate::engine::vvar_advance_delta_f16;
use crate::engine::vvar_get;
use crate::engine::vvar_tsb_delta;
use crate::engine::vvar_tsb_delta_f16;
use crate::engine::vvar_v_origin_delta;
use crate::engine::vvar_v_origin_delta_f16;
use crate::metrics::DELTA_LIMIT;
use crate::metrics::GlyphBounds;
use crate::metrics::GlyphExtents;
use crate::metrics::glyph_extents;
use crate::metrics::scale_in_range;
use crate::metrics::v_advance;
use crate::metrics::v_advance_spec;
use crate::metrics::v_origin_y;
use crate::metrics::v_origin_y_spec;
use crate::numeric::scale_round_spec;
use crate::names::GlyphNameIndex;
use crate::names::truncate_name;
use crate::names::truncated_name_spec;
use crate::paint::HostOp;
use crate::paint::PaintContext;
use crate::palette::ColorEntry;
use crate::palette::palette_slice;
use crate::palette::palette_slice_spec;
use crate::palette::select_palette_start;

verus! {

/// The parsed, per-font-handle views into the font-data engine: the
/// font itself, the character map bound to it, the color-glyph
/// collection, the glyph-name table, and the optional vertical-metrics,
/// vertical-origin and vertical-variation tables.
pub struct FontTables<'a> {
    pub font: FontRef<'a>,
    pub charmap: Charmap<'a>,
    pub color_glyphs: ColorGlyphCollection<'a>,
    pub glyph_names: GlyphNames<'a>,
    pub vmtx: Option<Vmtx<'a>>,
    pub vorg: Option<Vorg<'a>>,
    pub vvar: Option<Vvar<'a>>,
}

/// Keeps a variation delta inside the range the scaled arithmetic
/// accepts; a sane font never comes near the limit.
pub open spec fn clamp_delta_spec(d: int) -> int {
    if d < -DELTA_LIMIT {
        -DELTA_LIMIT as int
    } else if d > DELTA_LIMIT {
        DELTA_LIMIT as int
    } else {
        d
    }
}

/// The vertical advance the vertical-metrics table contributes: absent
/// without the table, and zero for a glyph the table has no entry for.
pub open spec fn vmtx_advance_model(vmtx: Option<Vmtx>, glyph: u32) -> Option<u16> {
    match vmtx {
        Some(v) => Some(
            if vmtx_advances(v).dom().contains(glyph) {
                vmtx_advances(v)[glyph]
            } else {
                0u16
            },
        ),
        None => None,
    }
}

/// The top side bearing the vertical-metrics table contributes.
pub open spec fn vmtx_tsb_model(vmtx: Option<Vmtx>, glyph: u32) -> Option<i16> {
    match vmtx {
        Some(v) => Some(
            if vmtx_side_bearings(v).dom().contains(glyph) {
                vmtx_side_bearings(v)[glyph]
            } else {
                0i16
            },
        ),
        None => None,
    }
}

/// The advance variation delta that applies: zero at the default
/// location, without the variation table, or where the table says
/// nothing readable.
pub open spec fn advance_delta_model(vvar: Option<Vvar>, glyph: u32, coords: Seq<i16>) -> int {
    if coords.len() == 0 {
        0
    } else {
        match vvar {
            Some(v) => match vvar_advance_delta(v, glyph, coords) {
                Some(d) => d as int,
                None => 0,
            },
            None => 0,
        }
    }
}

/// The top-side-bearing variation delta that applies.
pub open spec fn tsb_delta_model(vvar: Option<Vvar>, glyph: u32, coords: Seq<i16>) -> int {
    if coords.len() == 0 {
        0
    } else {
        match vvar {
            Some(v) => match vvar_tsb_delta(v, glyph, coords) {
                Some(d) => d as int,
                None => 0,
            },
            None => 0,
        }
    }
}

/// The vertical-origin variation delta that applies.
pub open spec fn v_origin_delta_model(vvar: Option<Vvar>, glyph: u32, coords: Seq<i16>) -> int {
    if coords.len() == 0 {
        0
    } else {
        match vvar {
            Some(v) => match vvar_v_origin_delta(v, glyph, coords) {
                Some(d) => d as int,
                None => 0,
            },
            None => 0,
        }
    }
}

/// The vertical origin the vertical-origin table contributes: absent
/// without the table.
pub open spec fn vorg_model(vorg: Option<Vorg>, glyph: u32) -> Option<i16> {
    match vorg {
        Some(v) => Some(vorg_origins(v)[glyph]),
        None => None,
    }
}

/// Clamps a 16.16 variation delta into the accepted range.
fn clamp_delta(d: i64) -> (r: i64)
    ensures
        r == clamp_delta_spec(d as int),
        -DELTA_LIMIT <= r <= DELTA_LIMIT,
{
    if d < -DELTA_LIMIT {
        -DELTA_LIMIT
    } else if d > DELTA_LIMIT {
        DELTA_LIMIT
    } else {
        d
    }
}

impl<'a> FontTables<'a> {
    /// Parses the font at `index` inside `data` and binds every view
    /// the callbacks need. `None` exactly when the bytes do not parse
    /// as a font at that index — the one resource failure, surfaced
    /// here at association time, after which no callback may run on the
    /// handle. On success the optional vertical accessors are present
    /// exactly where the font has the table.
    pub fn from_bytes(data: &'a [u8], index: u32) -> (r: Option<FontTables<'a>>)
        ensures
            (r is Some) == font_parse_ok(data@, index),
            r matches Some(t) ==> ((t.vmtx is Some) == font_has_vmtx(t.font) && (t.vorg is Some)
                == font_has_vorg(t.font) && (t.vvar is Some) == font_has_vvar(t.font)),
    {
        let font = match font_from_index(data, index) {
            Some(f) => f,
            None => {
                return None;
            },
        };
        let charmap = charmap_new(&font);
        let color_glyphs = color_glyphs_new(&font);
        let glyph_names = glyph_names_new(&font);
        let vmtx = vmtx_get(&font);
        let vorg = vorg_get(&font);
        let vvar = vvar_get(&font);
        Some(FontTables { font, charmap, color_glyphs, glyph_names, vmtx, vorg, vvar })
    }

    /// The font's units per em — the divisor under both scale
    /// multipliers — where the header is readable.
    pub fn upem(&self) -> (r: Option<u16>)
        ensures
            r == upem_of(self.font),
    {
        font_upem(&self.font)
    }

    /// Maps codepoints to nominal glyphs, in order, stopping at the
    /// first codepoint the font does not map: partial success is
    /// reported by the short result, not by an error.
    pub fn map_codepoints(&self, codepoints: &Vec<u32>) -> (r: Vec<u32>)
        ensures
            r@.len() <= codepoints@.len(),
            forall|i: int|
                0 <= i < r@.len() ==> charmap_entries(self.charmap).dom().contains(
                    #[trigger] codepoints@[i],
                ) && r@[i] == charmap_entries(self.charmap)[codepoints@[i]],
            r@.len() < codepoints@.len() ==> !charmap_entries(self.charmap).dom().contains(
                codepoints@[r@.len() as int],
            ),
    {
        let mut out: Vec<u32> = Vec::new();
        let mut i: usize = 0;
        while i < codepoints.len()
            invariant
                i <= codepoints@.len(),
                out@.len() == i,
                forall|j: int|
                    0 <= j < i ==> charmap_entries(self.charmap).dom().contains(
                        #[trigger] codepoints@[j],
                    ) && out@[j] == charmap_entries(self.charmap)[codepoints@[j]],
            decreases codepoints@.len() - i,
        {
            match charmap_map(&self.charmap, codepoints[i]) {
                Some(glyph) => {
                    out.push(glyph);
                },
                None => {
                    return out;
                },
            }
            i = i + 1;
        }
        out
    }

    /// Maps a codepoint and variation selector to the variant glyph the
    /// font defines for that pair, if any.
    pub fn map_variation(&self, codepoint: u32, selector: u32) -> (r: Option<u32>)
        ensures
            r == (if charmap_variants(self.charmap).dom().contains((codepoint, selector)) {
                Some(charmap_variants(self.charmap)[(codepoint, selector)])
            } else {
                None::<u32>
            }),
    {
        charmap_map_variant(&self.charmap, codepoint, selector)
    }

    /// Whether the glyph has a color paint tree.
    pub fn glyph_is_color(&self, glyph: u32) -> (r: bool)
        ensures
            r == color_glyph_set(self.color_glyphs).contains(glyph),
    {
        has_color_glyph(&self.color_glyphs, glyph)
    }

    /// A glyph's extents in host space: unavailable for every color
    /// glyph, whose true extents its paint tree defines, and for glyphs
    /// without outline bounds; otherwise scaled per axis independently.
    pub fn glyph_extents_for(
        &self,
        glyph: u32,
        bounds: Option<GlyphBounds>,
        x_scale: i32,
        y_scale: i32,
        upem: u32,
    ) -> (r: Option<GlyphExtents>)
        requires
            upem > 0,
            scale_in_range(x_scale as int),
            scale_in_range(y_scale as int),
        ensures
            color_glyph_set(self.color_glyphs).contains(glyph) ==> r is None,
            !color_glyph_set(self.color_glyphs).contains(glyph) && bounds is None ==> r is None,
            (!color_glyph_set(self.color_glyphs).contains(glyph) && bounds is Some) ==> (r is Some
                && ({
                let b = bounds.unwrap();
                let e = r.unwrap();
                e.x_bearing == scale_round_spec(b.x_min as int, x_scale as int, upem as int)
                    && e.width == scale_round_spec(b.x_max as int, x_scale as int, upem as int)
                    - e.x_bearing && e.y_bearing == scale_round_spec(
                    b.y_max as int,
                    y_scale as int,
                    upem as int,
                ) && e.height == scale_round_spec(b.y_min as int, y_scale as int, upem as int)
                    - e.y_bearing
            })),
    {
        let is_color = has_color_glyph(&self.color_glyphs, glyph);
        glyph_extents(is_color, bounds, x_scale, y_scale, upem)
    }

    /// A glyph's vertical advance in host space, from the vertical-
    /// metrics table with its variation delta when one applies, else
    /// synthesized from the host's line height.
    pub fn v_advance_for(
        &self,
        glyph: u32,
        coords: &Vec<i16>,
        y_scale: i32,
        upem: u32,
        host_ascender: i64,
        host_descender: i64,
    ) -> (r: i64)
        requires
            0 < upem <= 0x1_0000,
            scale_in_range(y_scale as int),
            -0x4000_0000_0000_0000 < host_ascender - host_descender < 0x4000_0000_0000_0000,
        ensures
            r == v_advance_spec(
                vmtx_advance_model(self.vmtx, glyph),
                clamp_delta_spec(advance_delta_model(self.vvar, glyph, coords@)),
                y_scale as int,
                upem as int,
                host_ascender as int,
                host_descender as int,
            ),
    {
        let adv: Option<u16> = match &self.vmtx {
            Some(v) => match vmtx_advance(v, glyph) {
                Some(a) => Some(a),
                None => Some(0),
            },
            None => None,
        };
        let delta: i64 = if coords.len() == 0 {
            0
        } else {
            match &self.vvar {
                Some(v) => match vvar_advance_delta_f16(v, glyph, coords) {
                    Some(d) => d,
                    None => 0,
                },
                None => 0,
            }
        };
        let delta = clamp_delta(delta);
        v_advance(adv, delta, y_scale, upem, host_ascender, host_descender)
    }

    /// Vertical advances for a batch of glyphs, each resolved as
    /// `v_advance_for` has it; the batch never stops short, the host's
    /// vertical path has an answer for every glyph.
    pub fn v_advances_for(
        &self,
        glyphs: &Vec<u32>,
        coords: &Vec<i16>,
        y_scale: i32,
        upem: u32,
        host_ascender: i64,
        host_descender: i64,
    ) -> (r: Vec<i64>)
        requires
            0 < upem <= 0x1_0000,
            scale_in_range(y_scale as int),
            -0x4000_0000_0000_0000 < host_ascender - host_descender < 0x4000_0000_0000_0000,
        ensures
            r@.len() == glyphs@.len(),
            forall|i: int|
                0 <= i < glyphs@.len() ==> r@[i] == v_advance_spec(
                    vmtx_advance_model(self.vmtx, #[trigger] glyphs@[i]),
                    clamp_delta_spec(advance_delta_model(self.vvar, glyphs@[i], coords@)),
                    y_scale as int,
                    upem as int,
                    host_ascender as int,
                    host_descender as int,
                ),
    {
        let mut out: Vec<i64> = Vec::new();
        let mut i: usize = 0;
        while i < glyphs.len()
            invariant
                i <= glyphs@.len(),
                out@.len() == i,
                0 < upem <= 0x1_0000,
                scale_in_range(y_scale as int),
                -0x4000_0000_0000_0000 < host_ascender - host_descender < 0x4000_0000_0000_0000,
                forall|j: int|
                    0 <= j < i ==> out@[j] == v_advance_spec(
                        vmtx_advance_model(self.vmtx, #[trigger] glyphs@[j]),
                        clamp_delta_spec(advance_delta_model(self.vvar, glyphs@[j], coords@)),
                        y_scale as int,
                        upem as int,
                        host_ascender as int,
                        host_descender as int,
                    ),
            decreases glyphs@.len() - i,
        {
            let a = self.v_advance_for(
                glyphs[i],
                coords,
                y_scale,
                upem,
                host_ascender,
                host_descender,
            );
            out.push(a);
            i = i + 1;
        }
        out
    }

    /// A glyph's vertical-origin y coordinate in host space, through the
    /// three-level fallback: the vertical-origin table with its delta,
    /// then a derived origin where the glyph has extents, then the
    /// host's ascender.
    pub fn v_origin_y_for(
        &self,
        glyph: u32,
        coords: &Vec<i16>,
        extents: Option<GlyphExtents>,
        y_scale: i32,
        upem: u32,
        host_ascender: i64,
        host_descender: i64,
    ) -> (r: i64)
        requires
            0 < upem <= 0x1_0000,
            scale_in_range(y_scale as int),
            -0x1000_0000_0000_0000 < host_ascender < 0x1000_0000_0000_0000,
            -0x1000_0000_0000_0000 < host_descender < 0x1000_0000_0000_0000,
            extents matches Some(e) ==> (-0x1000_0000_0000_0000 < e.y_bearing
                < 0x1000_0000_0000_0000 && -0x1000_0000_0000_0000 < e.height
                < 0x1000_0000_0000_0000),
        ensures
            r == v_origin_y_spec(
                vorg_model(self.vorg, glyph),
                clamp_delta_spec(v_origin_delta_model(self.vvar, glyph, coords@)),
                extents,
                vmtx_tsb_model(self.vmtx, glyph),
                clamp_delta_spec(tsb_delta_model(self.vvar, glyph, coords@)),
                y_scale as int,
                upem as int,
                host_ascender as int,
                host_descender as int,
            ),
    {
        let vorg_y: Option<i16> = match &self.vorg {
            Some(v) => Some(vorg_origin_y(v, glyph)),
            None => None,
        };
        let vorg_delta: i64 = if coords.len() == 0 {
            0
        } else {
            match &self.vvar {
                Some(v) => match vvar_v_origin_delta_f16(v, glyph, coords) {
                    Some(d) => d,
                    None => 0,
                },
                None => 0,
            }
        };
        let tsb: Option<i16> = match &self.vmtx {
            Some(v) => match vmtx_side_bearing(v, glyph) {
                Some(t) => Some(t),
                None => Some(0),
            },
            None => None,
        };
        let tsb_delta: i64 = if coords.len() == 0 {
            0
        } else {
            match &self.vvar {
                Some(v) => match vvar_tsb_delta_f16(v, glyph, coords) {
                    Some(d) => d,
                    None => 0,
                },
                None => 0,
            }
        };
        v_origin_y(
            vorg_y,
            clamp_delta(vorg_delta),
            extents,
            tsb,
            clamp_delta(tsb_delta),
            y_scale,
            upem,
            host_ascender,
            host_descender,
        )
    }

    /// A glyph's name, truncated for a host buffer of `capacity` bytes
    /// and always zero-terminated; `None` for a glyph the font names
    /// not at all.
    pub fn glyph_name_for(&self, glyph: u32, capacity: usize) -> (r: Option<Vec<u8>>)
        requires
            capacity >= 1,
        ensures
            (r is Some) == (glyph_name_of(self.glyph_names, glyph) is Some),
            r matches Some(name) ==> name@ == truncated_name_spec(
                glyph_name_of(self.glyph_names, glyph).unwrap(),
                capacity as int,
            ),
    {
        match glyph_name_get(&self.glyph_names, glyph) {
            Some(name) => Some(truncate_name(&name, capacity)),
            None => None,
        }
    }

    /// Builds the glyph-name reverse index from the full forward name
    /// table; built once per font handle and then only read, so every
    /// caller observes the completed index.
    pub fn build_name_index(&self) -> (r: GlyphNameIndex)
        ensures
            r.table() == glyph_name_table(self.glyph_names),
    {
        GlyphNameIndex::from_entries(glyph_name_entries(&self.glyph_names))
    }

    /// Begins a color-glyph paint: reports `None`, a fallback signal and
    /// no error, for a glyph with no paint tree; otherwise resolves the
    /// palette and opens the translation with the font-to-host transform
    /// pushed.
    pub fn start_color_paint(&self, glyph: u32, palette_index: usize, foreground: u32) -> (r:
        Option<PaintContext>)
        ensures
            (r is Some) == color_glyph_set(self.color_glyphs).contains(glyph),
            r matches Some(ctx) ==> ctx.wf() && ctx.foreground == foreground && ctx.clip_stack@.len()
                == 0 && ctx.dropped_clips == 0 && ctx.mode_stack@.len() == 0 && ctx.ops@ == seq![
                HostOp::PushFontTransform,
            ] && ctx.records@ == palette_model(self.font, palette_index as int),
    {
        if !has_color_glyph(&self.color_glyphs, glyph) {
            return None;
        }
        let records: Vec<ColorEntry> = match cpal_get(&self.font) {
            Some(c) => {
                let starts = cpal_starts(&c);
                let num = cpal_num_entries(&c);
                let arr = cpal_record_array(&c);
                resolve_palette(&starts, num, &arr, palette_index)
            },
            None => Vec::new(),
        };
        proof {
            assert(records@ =~= palette_model(self.font, palette_index as int));
        }
        let mut ctx = PaintContext::new(foreground, records);
        ctx.ops.push(HostOp::PushFontTransform);
        proof {
            assert(ctx.ops@ =~= seq![HostOp::PushFontTransform]);
        }
        Some(ctx)
    }
}

/// The palette one paint call resolves out of the font: empty without a
/// readable color-palette table, else the requested palette's records
/// with the out-of-range fallback.
pub open spec fn palette_model(f: FontRef, palette_index: int) -> Seq<ColorEntry> {
    if font_has_cpal(f) {
        resolve_palette_spec(
            font_palette_starts(f),
            font_palette_entry_count(f),
            if font_cpal_has_records(f) {
                Some(font_palette_records(f))
            } else {
                None
            },
            palette_index,
        )
    } else {
        Seq::empty()
    }
}

/// The color array one paint call uses: the palette the index selects,
/// falling back to the first defined palette on an out-of-range index,
/// and an empty array, never a failure, when the record array is absent
/// or the palette's claims do not fit it.
pub open spec fn resolve_palette_spec(
    starts: Seq<u16>,
    num_entries: u16,
    records: Option<Seq<ColorEntry>>,
    palette_index: int,
) -> Seq<ColorEntry> {
    match records {
        None => Seq::empty(),
        Some(recs) => {
            if 0 <= palette_index < starts.len() {
                palette_slice_spec(recs, starts[palette_index] as int, num_entries as int)
            } else if starts.len() > 0 {
                palette_slice_spec(recs, starts[0] as int, num_entries as int)
            } else {
                Seq::empty()
            }
        },
    }
}

/// Resolves the record array of the requested palette.
pub fn resolve_palette(
    starts: &Vec<u16>,
    num_entries: u16,
    records: &Option<Vec<ColorEntry>>,
    palette_index: usize,
) -> (r: Vec<ColorEntry>)
    ensures
        r@ == resolve_palette_spec(
            starts@,
            num_entries,
            (match records {
                Some(v) => Some(v@),
                None => None::<Seq<ColorEntry>>,
            }),
            palette_index as int,
        ),
{
    match records {
        Some(recs) => {
            match select_palette_start(starts, palette_index) {
                Some(start) => palette_slice(recs, start, num_entries),
                None => Vec::new(),
            }
        },
        None => Vec::new(),
    }
}

} // verus!
