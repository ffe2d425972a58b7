//! What the layout reads from a parsed font face, and the shaping of a line
//! for top-to-bottom writing.

use vstd::prelude::*;
use crate::metrics::{BoundingBox, RawMetrics, Scale};

verus! {

/// A parsed face of `ttf_parser`, carried as it is: nothing inside it is
/// seen here, and what it holds is named by the functions below.
#[verifier::external_type_specification]
#[verifier::external_body]
pub struct ExFace<'a>(ttf_parser::Face<'a>);

/// Whether the bytes hold a font whose first face parses.
pub uninterp spec fn font_parses(data: Seq<u8>) -> bool;

/// Whether a shaping context can be made of the first face of the font
/// that the bytes hold.
pub uninterp spec fn shaping_face_exists(data: Seq<u8>) -> bool;

/// The glyph that the face maps to each character it covers.
pub uninterp spec fn char_glyphs(face: &ttf_parser::Face<'_>) -> Map<char, u16>;

/// The horizontal advance that the face holds for each glyph, in font units.
pub uninterp spec fn hor_advances(face: &ttf_parser::Face<'_>) -> Map<u16, u16>;

/// The vertical advance that the face holds for each glyph, in font units.
pub uninterp spec fn ver_advances(face: &ttf_parser::Face<'_>) -> Map<u16, u16>;

/// The vertical origin that the face's table of vertical origins gives for
/// each glyph.
pub uninterp spec fn ver_origins(face: &ttf_parser::Face<'_>) -> Map<u16, i16>;

/// The top side bearing that the face holds for each glyph.
pub uninterp spec fn ver_side_bearings(face: &ttf_parser::Face<'_>) -> Map<u16, i16>;

/// The bounding box of each glyph that has one, as `(x_min, y_min, x_max,
/// y_max)`.
pub uninterp spec fn bounding_boxes(face: &ttf_parser::Face<'_>) -> Map<u16, (i16, i16, i16, i16)>;

/// The face's horizontal ascender.
pub uninterp spec fn face_ascender(face: &ttf_parser::Face<'_>) -> i16;

/// The face's units per em.
pub uninterp spec fn face_units_per_em(face: &ttf_parser::Face<'_>) -> u16;

/// The glyphs that shaping gives for a line written from top to bottom, in
/// shaped order: each glyph's identifier and the vertical component of its
/// advance, in font units.
pub uninterp spec fn shaped_top_to_bottom(data: Seq<u8>, line: Seq<char>) -> Seq<(u16, i32)>;

/// The entry of `table` under `key`, if it has one.
pub open spec fn entry<K, V>(table: Map<K, V>, key: K) -> Option<V> {
    if table.contains_key(key) {
        Some(table[key])
    } else {
        None
    }
}

/// `ttf_parser::Face::parse` on the first face of the data; the detail of
/// its error is dropped.
#[verifier::external_body]
pub(crate) fn parse_first_face<'a>(data: &'a [u8]) -> (r: Option<ttf_parser::Face<'a>>)
    ensures
        r is Some <==> font_parses(data@),
{
    ttf_parser::Face::parse(data, 0).ok()
}

/// `rustybuzz::Face::from_slice` on the first face of the data: whether
/// it gives a face.
#[verifier::external_body]
pub(crate) fn shaping_available(data: &[u8]) -> (r: bool)
    ensures
        r == shaping_face_exists(data@),
{
    rustybuzz::Face::from_slice(data, 0).is_some()
}

/// `ttf_parser::Face::glyph_index`: the glyph for a character, if the face
/// maps one.
#[verifier::external_body]
pub(crate) fn glyph_index(face: &ttf_parser::Face<'_>, ch: char) -> (r: Option<u16>)
    ensures
        r == entry(char_glyphs(face), ch),
{
    face.glyph_index(ch).map(|g| g.0)
}

/// `ttf_parser::Face::glyph_hor_advance`.
#[verifier::external_body]
fn glyph_hor_advance(face: &ttf_parser::Face<'_>, glyph: u16) -> (r: Option<u16>)
    ensures
        r == entry(hor_advances(face), glyph),
{
    face.glyph_hor_advance(ttf_parser::GlyphId(glyph))
}

/// `ttf_parser::Face::glyph_ver_advance`.
#[verifier::external_body]
fn glyph_ver_advance(face: &ttf_parser::Face<'_>, glyph: u16) -> (r: Option<u16>)
    ensures
        r == entry(ver_advances(face), glyph),
{
    face.glyph_ver_advance(ttf_parser::GlyphId(glyph))
}

/// `ttf_parser::Face::glyph_y_origin`.
#[verifier::external_body]
fn glyph_y_origin(face: &ttf_parser::Face<'_>, glyph: u16) -> (r: Option<i16>)
    ensures
        r == entry(ver_origins(face), glyph),
{
    face.glyph_y_origin(ttf_parser::GlyphId(glyph))
}

/// `ttf_parser::Face::glyph_ver_side_bearing`.
#[verifier::external_body]
fn glyph_ver_side_bearing(face: &ttf_parser::Face<'_>, glyph: u16) -> (r: Option<i16>)
    ensures
        r == entry(ver_side_bearings(face), glyph),
{
    face.glyph_ver_side_bearing(ttf_parser::GlyphId(glyph))
}

/// `ttf_parser::Face::glyph_bounding_box`, its rectangle moved field by
/// field into the library's own type.
#[verifier::external_body]
fn glyph_bounding_box(face: &ttf_parser::Face<'_>, glyph: u16) -> (r: Option<BoundingBox>)
    ensures
        r == boxed(entry(bounding_boxes(face), glyph)),
{
    face.glyph_bounding_box(ttf_parser::GlyphId(glyph)).map(
        |b| BoundingBox { x_min: b.x_min, y_min: b.y_min, x_max: b.x_max, y_max: b.y_max },
    )
}

/// `ttf_parser::Face::ascender`.
#[verifier::external_body]
pub(crate) fn ascender(face: &ttf_parser::Face<'_>) -> (r: i16)
    ensures
        r == face_ascender(face),
{
    face.ascender()
}

/// `ttf_parser::Face::units_per_em`, which the crate documents to lie
/// between 16 and 16384.
#[verifier::external_body]
pub(crate) fn units_per_em(face: &ttf_parser::Face<'_>) -> (r: u16)
    ensures
        r == face_units_per_em(face),
        16 <= r <= 16384,
{
    face.units_per_em()
}

/// `rustybuzz::shape` of the line, without features, in the direction top
/// to bottom, with the face that `rustybuzz::Face::from_slice` makes of the
/// data; none where it makes no face. Of each shaped glyph the identifier,
/// which the crate documents to fit 16 bits, and the advance's vertical
/// component are kept.
#[verifier::external_body]
pub(crate) fn shape_top_to_bottom(data: &[u8], line: &Vec<char>) -> (r: Option<Vec<(u16, i32)>>)
    ensures
        r is Some <==> shaping_face_exists(data@),
        r is Some ==> r->0@ == shaped_top_to_bottom(data@, line@),
{
    let face = rustybuzz::Face::from_slice(data, 0)?;
    let text: String = line.iter().collect();
    let mut buffer = rustybuzz::UnicodeBuffer::new();
    buffer.push_str(&text);
    buffer.set_direction(rustybuzz::Direction::TopToBottom);
    let shaped = rustybuzz::shape(&face, &[], buffer);
    let infos = shaped.glyph_infos().iter();
    Some(infos.zip(shaped.glyph_positions()).map(|(i, p)| (i.glyph_id as u16, p.y_advance)).collect())
}

/// The four edges of a bounding box as a value of the library's type.
pub open spec fn boxed(edges: Option<(i16, i16, i16, i16)>) -> Option<BoundingBox> {
    match edges {
        Some(b) => Some(BoundingBox { x_min: b.0, y_min: b.1, x_max: b.2, y_max: b.3 }),
        None => None,
    }
}

/// What the face holds for one glyph.
pub open spec fn metrics_in(face: &ttf_parser::Face<'_>, glyph: u16) -> RawMetrics {
    RawMetrics {
        hor_advance: entry(hor_advances(face), glyph),
        ver_advance: entry(ver_advances(face), glyph),
        ver_origin: entry(ver_origins(face), glyph),
        ver_side_bearing: entry(ver_side_bearings(face), glyph),
        bounding_box: boxed(entry(bounding_boxes(face), glyph)),
    }
}

/// Reads from the face everything that the metrics of one glyph are
/// resolved from.
pub fn glyph_metrics(face: &ttf_parser::Face<'_>, glyph: u16) -> (raw: RawMetrics)
    ensures
        raw == metrics_in(face, glyph),
{
    RawMetrics {
        hor_advance: glyph_hor_advance(face, glyph),
        ver_advance: glyph_ver_advance(face, glyph),
        ver_origin: glyph_y_origin(face, glyph),
        ver_side_bearing: glyph_ver_side_bearing(face, glyph),
        bounding_box: glyph_bounding_box(face, glyph),
    }
}

/// The scale of `font_size` hundredths of an output unit per em of the
/// face.
pub fn scale_for(face: &ttf_parser::Face<'_>, font_size: u32) -> (scale: Scale)
    ensures
        scale.size() == font_size,
        scale.em() == face_units_per_em(face),
{
    let em = units_per_em(face);
    Scale::new(font_size, em).unwrap()
}

} // verus!
