//! Trusted boundary to the font-data engine.
//!
//! Every executable function here is `external_body`: its contract states
//! what the engine call returns, over named views of the font tables, and
//! nothing in this module's bodies is verified. Everything that reasons
//! about the results lives in the verified modules.

use vstd::prelude::*;

use read_fonts::FontRef;
use read_fonts::TableProvider;
use read_fonts::tables::cmap::MapVariant;
use read_fonts::tables::cpal::Cpal;
use read_fonts::tables::vmtx::Vmtx;
use read_fonts::tables::vorg::Vorg;
use read_fonts::tables::vvar::Vvar;
use read_fonts::types::F2Dot14;
use read_fonts::types::GlyphId;
use skrifa::MetadataProvider;
use skrifa::GlyphNames;
use skrifa::charmap::Charmap;
use skrifa::color::ColorGlyphCollection;

use crate::names::entries_view;
use crate::palette::ColorEntry;

verus! {

#[verifier::external_type_specification]
#[verifier::external_body]
pub struct ExFontRef<'a>(FontRef<'a>);

#[verifier::external_type_specification]
#[verifier::external_body]
pub struct ExCharmap<'a>(Charmap<'a>);

#[verifier::external_type_specification]
#[verifier::external_body]
pub struct ExGlyphNames<'a>(GlyphNames<'a>);

#[verifier::external_type_specification]
#[verifier::external_body]
pub struct ExColorGlyphCollection<'a>(ColorGlyphCollection<'a>);

#[verifier::external_type_specification]
#[verifier::external_body]
pub struct ExCpal<'a>(Cpal<'a>);

#[verifier::external_type_specification]
#[verifier::external_body]
pub struct ExVmtx<'a>(Vmtx<'a>);

#[verifier::external_type_specification]
#[verifier::external_body]
pub struct ExVorg<'a>(Vorg<'a>);

#[verifier::external_type_specification]
#[verifier::external_body]
pub struct ExVvar<'a>(Vvar<'a>);

/// Whether these bytes parse as a readable font at this collection
/// index; parsing is a function of the bytes and the index alone.
pub uninterp spec fn font_parse_ok(data: Seq<u8>, index: u32) -> bool;

/// The units per em the font's header declares, where the header is
/// readable.
pub uninterp spec fn upem_of(f: FontRef) -> Option<u16>;

/// Whether the font has a readable vertical-metrics table.
pub uninterp spec fn font_has_vmtx(f: FontRef) -> bool;

/// Whether the font has a readable vertical-origin table.
pub uninterp spec fn font_has_vorg(f: FontRef) -> bool;

/// Whether the font has a readable vertical-metrics variation table.
pub uninterp spec fn font_has_vvar(f: FontRef) -> bool;

/// Whether the font has a readable color-palette table.
pub uninterp spec fn font_has_cpal(f: FontRef) -> bool;

/// The first-record index of each palette of the font's color-palette
/// table.
pub uninterp spec fn font_palette_starts(f: FontRef) -> Seq<u16>;

/// The number of entries each palette of the font's color-palette table
/// has.
pub uninterp spec fn font_palette_entry_count(f: FontRef) -> u16;

/// Whether the font's color-palette record array is present and
/// readable.
pub uninterp spec fn font_cpal_has_records(f: FontRef) -> bool;

/// The font's full color-palette record array.
pub uninterp spec fn font_palette_records(f: FontRef) -> Seq<ColorEntry>;

/// The codepoint-to-glyph mapping a character map holds.
pub uninterp spec fn charmap_entries(cm: Charmap) -> Map<u32, u32>;

/// The variation-sequence mapping a character map holds: the pairs of
/// codepoint and variation selector the font maps to a specific variant
/// glyph. A pair the font answers with its default mapping is absent.
pub uninterp spec fn charmap_variants(cm: Charmap) -> Map<(u32, u32), u32>;

/// The forward glyph-name table: glyph id and name bytes, in table order.
pub uninterp spec fn glyph_name_table(gn: GlyphNames) -> Seq<(u32, Seq<u8>)>;

/// The name a single-glyph lookup yields. On a well-formed font this
/// agrees with the full table above; on malformed name data the two
/// reads can recover differently, so the lookup carries its own name
/// and no agreement is assumed.
pub uninterp spec fn glyph_name_of(gn: GlyphNames, glyph: u32) -> Option<Seq<u8>>;

/// The set of glyphs that have a color paint tree.
pub uninterp spec fn color_glyph_set(c: ColorGlyphCollection) -> Set<u32>;

/// The number of entries each palette of the color-palette table has.
pub uninterp spec fn cpal_entry_count(c: Cpal) -> u16;

/// Whether the color-palette table's record array is present and readable.
pub uninterp spec fn cpal_has_records(c: Cpal) -> bool;

/// The color-palette table's full record array.
pub uninterp spec fn cpal_records(c: Cpal) -> Seq<ColorEntry>;

/// The first-record index of each palette in the record array.
pub uninterp spec fn cpal_palette_starts(c: Cpal) -> Seq<u16>;

/// The vertical advances the vertical-metrics table holds; a glyph past
/// the long-metric array takes the last entry's advance, as the table
/// format prescribes, so the table answers for every glyph it covers.
pub uninterp spec fn vmtx_advances(v: Vmtx) -> Map<u32, u16>;

/// The top side bearings the vertical-metrics table holds.
pub uninterp spec fn vmtx_side_bearings(v: Vmtx) -> Map<u32, i16>;

/// The vertical-origin y coordinate the vertical-origin table gives each
/// glyph (the table's default applies to glyphs without an own entry).
pub uninterp spec fn vorg_origins(v: Vorg) -> Map<u32, i16>;

/// The change a location makes to a glyph's vertical advance, in 16.16
/// fixed point; absent where the table says nothing readable.
pub uninterp spec fn vvar_advance_delta(v: Vvar, glyph: u32, coords: Seq<i16>) -> Option<i64>;

/// The change a location makes to a glyph's top side bearing, in 16.16
/// fixed point; absent where the table says nothing readable.
pub uninterp spec fn vvar_tsb_delta(v: Vvar, glyph: u32, coords: Seq<i16>) -> Option<i64>;

/// The change a location makes to a glyph's vertical origin, in 16.16
/// fixed point; absent where the table says nothing readable.
pub uninterp spec fn vvar_v_origin_delta(v: Vvar, glyph: u32, coords: Seq<i16>) -> Option<i64>;

/// Relies on read_fonts' FontRef::from_index: parses the font at `index`
/// inside `data`; `None` when the bytes are not a readable font. The
/// parse depends on the bytes and the index alone.
#[verifier::external_body]
pub(crate) fn font_from_index(data: &[u8], index: u32) -> (r: Option<FontRef<'_>>)
    ensures
        (r is Some) == font_parse_ok(data@, index),
{
    match FontRef::from_index(data, index) {
        Ok(f) => Some(f),
        Err(_) => None,
    }
}

/// Relies on read_fonts' head table: the font's units per em; `None`
/// when the header is unreadable.
#[verifier::external_body]
pub(crate) fn font_upem(font: &FontRef) -> (r: Option<u16>)
    ensures
        r == upem_of(*font),
{
    match font.head() {
        Ok(h) => Some(h.units_per_em()),
        Err(_) => None,
    }
}

/// Relies on skrifa's Charmap::new: builds the character map of a font.
#[verifier::external_body]
pub(crate) fn charmap_new<'a>(font: &FontRef<'a>) -> (r: Charmap<'a>) {
    Charmap::new(font)
}

/// Relies on skrifa's Charmap::map: nominal cmap lookup for one codepoint.
#[verifier::external_body]
pub(crate) fn charmap_map(cm: &Charmap, cp: u32) -> (r: Option<u32>)
    ensures
        r == (if charmap_entries(*cm).dom().contains(cp) {
            Some(charmap_entries(*cm)[cp])
        } else {
            None::<u32>
        }),
{
    cm.map(cp).map(|g| g.to_u32())
}

/// Relies on skrifa's Charmap::map_variant: looks a codepoint and
/// variation selector up; only an answer naming a specific variant glyph
/// counts, an answer deferring to the default mapping does not.
#[verifier::external_body]
pub(crate) fn charmap_map_variant(cm: &Charmap, cp: u32, selector: u32) -> (r: Option<u32>)
    ensures
        r == (if charmap_variants(*cm).dom().contains((cp, selector)) {
            Some(charmap_variants(*cm)[(cp, selector)])
        } else {
            None::<u32>
        }),
{
    match cm.map_variant(cp, selector) {
        Some(MapVariant::Variant(g)) => Some(g.to_u32()),
        _ => None,
    }
}

/// Relies on skrifa's MetadataProvider::glyph_names: the forward
/// glyph-name table of a font.
#[verifier::external_body]
pub(crate) fn glyph_names_new<'a>(font: &FontRef<'a>) -> (r: GlyphNames<'a>) {
    font.glyph_names()
}

/// Relies on skrifa's GlyphNames::get: the name of one glyph, absent
/// for a glyph the font names not at all.
#[verifier::external_body]
pub(crate) fn glyph_name_get(gn: &GlyphNames, glyph: u32) -> (r: Option<Vec<u8>>)
    ensures
        (r is Some) == (glyph_name_of(*gn, glyph) is Some),
        r matches Some(name) ==> name@ == glyph_name_of(*gn, glyph).unwrap(),
{
    gn.get(GlyphId::new(glyph)).map(|n| n.as_str().as_bytes().to_vec())
}

/// Relies on skrifa's GlyphNames::iter: the whole forward glyph-name
/// table, in table order.
#[verifier::external_body]
pub(crate) fn glyph_name_entries(gn: &GlyphNames) -> (r: Vec<(u32, Vec<u8>)>)
    ensures
        entries_view(r@) == glyph_name_table(*gn),
{
    gn.iter().map(|(gid, name)| (gid.to_u32(), name.as_str().as_bytes().to_vec())).collect()
}

/// Relies on skrifa's MetadataProvider::color_glyphs: the color-glyph
/// collection of a font.
#[verifier::external_body]
pub(crate) fn color_glyphs_new<'a>(font: &FontRef<'a>) -> (r: ColorGlyphCollection<'a>) {
    font.color_glyphs()
}

/// Relies on skrifa's ColorGlyphCollection::get: whether a glyph has a
/// color paint tree.
#[verifier::external_body]
pub(crate) fn has_color_glyph(c: &ColorGlyphCollection, glyph: u32) -> (r: bool)
    ensures
        r == color_glyph_set(*c).contains(glyph),
{
    c.get(GlyphId::new(glyph)).is_some()
}

/// Relies on read_fonts' TableProvider::cpal: the color-palette table,
/// where the font has one. The table is read out of the font's own
/// data, so its views are functions of the font alone.
#[verifier::external_body]
pub(crate) fn cpal_get<'a>(font: &FontRef<'a>) -> (r: Option<Cpal<'a>>)
    ensures
        (r is Some) == font_has_cpal(*font),
        r matches Some(c) ==> (cpal_palette_starts(c) == font_palette_starts(*font)
            && cpal_entry_count(c) == font_palette_entry_count(*font) && cpal_has_records(c)
            == font_cpal_has_records(*font) && (cpal_has_records(c) ==> cpal_records(c)
            == font_palette_records(*font))),
{
    font.cpal().ok()
}

/// Relies on read_fonts' Cpal::num_palette_entries.
#[verifier::external_body]
pub(crate) fn cpal_num_entries(c: &Cpal) -> (r: u16)
    ensures
        r == cpal_entry_count(*c),
{
    c.num_palette_entries()
}

/// Relies on read_fonts' Cpal::color_records_array: the full record
/// array; `None` when the array is absent or unreadable.
#[verifier::external_body]
pub(crate) fn cpal_record_array(c: &Cpal) -> (r: Option<Vec<ColorEntry>>)
    ensures
        (r is Some) == cpal_has_records(*c),
        r matches Some(v) ==> v@ == cpal_records(*c),
{
    match c.color_records_array() {
        Some(Ok(records)) => Some(
            records.iter().map(
                |rec| ColorEntry {
                    red: rec.red,
                    green: rec.green,
                    blue: rec.blue,
                    alpha: rec.alpha,
                },
            ).collect(),
        ),
        _ => None,
    }
}

/// Relies on read_fonts' Cpal::color_record_indices: the first-record
/// index of each palette.
#[verifier::external_body]
pub(crate) fn cpal_starts(c: &Cpal) -> (r: Vec<u16>)
    ensures
        r@ == cpal_palette_starts(*c),
{
    c.color_record_indices().iter().map(|i| i.get()).collect()
}

/// Relies on read_fonts' TableProvider::vmtx: the vertical-metrics
/// table, where the font has one.
#[verifier::external_body]
pub(crate) fn vmtx_get<'a>(font: &FontRef<'a>) -> (r: Option<Vmtx<'a>>)
    ensures
        (r is Some) == font_has_vmtx(*font),
{
    font.vmtx().ok()
}

/// Relies on read_fonts' Vmtx::advance: a glyph's vertical advance in
/// font units.
#[verifier::external_body]
pub(crate) fn vmtx_advance(v: &Vmtx, glyph: u32) -> (r: Option<u16>)
    ensures
        r == (if vmtx_advances(*v).dom().contains(glyph) {
            Some(vmtx_advances(*v)[glyph])
        } else {
            None::<u16>
        }),
{
    v.advance(GlyphId::new(glyph))
}

/// Relies on read_fonts' Vmtx::side_bearing: a glyph's top side bearing
/// in font units.
#[verifier::external_body]
pub(crate) fn vmtx_side_bearing(v: &Vmtx, glyph: u32) -> (r: Option<i16>)
    ensures
        r == (if vmtx_side_bearings(*v).dom().contains(glyph) {
            Some(vmtx_side_bearings(*v)[glyph])
        } else {
            None::<i16>
        }),
{
    v.side_bearing(GlyphId::new(glyph))
}

/// Relies on read_fonts' TableProvider::vorg: the vertical-origin table,
/// where the font has one.
#[verifier::external_body]
pub(crate) fn vorg_get<'a>(font: &FontRef<'a>) -> (r: Option<Vorg<'a>>)
    ensures
        (r is Some) == font_has_vorg(*font),
{
    font.vorg().ok()
}

/// Relies on read_fonts' Vorg::vertical_origin_y: a glyph's vertical
/// origin in font units, the table's default where it has no own entry.
#[verifier::external_body]
pub(crate) fn vorg_origin_y(v: &Vorg, glyph: u32) -> (r: i16)
    ensures
        r == vorg_origins(*v)[glyph],
{
    v.vertical_origin_y(GlyphId::new(glyph))
}

/// Relies on read_fonts' TableProvider::vvar: the vertical-metrics
/// variation table, where the font has one.
#[verifier::external_body]
pub(crate) fn vvar_get<'a>(font: &FontRef<'a>) -> (r: Option<Vvar<'a>>)
    ensures
        (r is Some) == font_has_vvar(*font),
{
    font.vvar().ok()
}

/// Relies on read_fonts' Vvar::advance_delta: the advance change a
/// location makes, in 16.16 fixed point.
#[verifier::external_body]
pub(crate) fn vvar_advance_delta_f16(v: &Vvar, glyph: u32, coords: &Vec<i16>) -> (r: Option<i64>)
    ensures
        r == vvar_advance_delta(*v, glyph, coords@),
{
    let c: Vec<F2Dot14> = coords.iter().map(|&x| F2Dot14::from_bits(x)).collect();
    v.advance_delta(GlyphId::new(glyph), &c).map(|d| d.to_bits())
}

/// Relies on read_fonts' Vvar::tsb_delta: the top-side-bearing change a
/// location makes, in 16.16 fixed point.
#[verifier::external_body]
pub(crate) fn vvar_tsb_delta_f16(v: &Vvar, glyph: u32, coords: &Vec<i16>) -> (r: Option<i64>)
    ensures
        r == vvar_tsb_delta(*v, glyph, coords@),
{
    let c: Vec<F2Dot14> = coords.iter().map(|&x| F2Dot14::from_bits(x)).collect();
    v.tsb_delta(GlyphId::new(glyph), &c).map(|d| d.to_bits())
}

/// Relies on read_fonts' Vvar::v_origin_y_delta: the vertical-origin
/// change a location makes, in 16.16 fixed point.
#[verifier::external_body]
pub(crate) fn vvar_v_origin_delta_f16(v: &Vvar, glyph: u32, coords: &Vec<i16>) -> (r: Option<i64>)
    ensures
        r == vvar_v_origin_delta(*v, glyph, coords@),
{
    let c: Vec<F2Dot14> = coords.iter().map(|&x| F2Dot14::from_bits(x)).collect();
    v.v_origin_y_delta(GlyphId::new(glyph), &c).map(|d| d.to_bits())
}

} // verus!
