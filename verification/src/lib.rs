//! Typesetting of glyph outlines into a vector document.
//!
//! A text is laid out in two steps. The plan looks every character up in
//! the font, or shapes every line for vertical writing, and resolves the
//! metrics of each glyph. Once the caller has attached the glyphs'
//! outlines, the document is written from the plan.
//!
//! Lengths in the output space are integers counted in hundredths of an
//! output unit; lengths in glyph space are integers counted in font units.

use vstd::prelude::*;
use vstd::string::*;
use crate::document::PlacedGlyph;
use crate::font::{
    face_units_per_em, font_parses, parse_first_face, scale_for, shaping_face_exists,
};
use crate::horizontal::{
    generate_horizontal_svg, horizontal_document, plan_horizontal, planned_horizontally,
};
use crate::metrics::Scale;
use crate::outline::Direction;
use crate::style::{drawn_layers, Drawing, ExportMode, StrokeLayer, Style};
use crate::text::{chars_of, lines_of, split_lines};
use crate::vertical::{generate_vertical_svg, plan_vertical, planned_vertically, vertical_document};

pub mod text;
pub mod metrics;
pub mod outline;
pub mod font;
pub mod style;
pub mod document;
pub mod horizontal;
pub mod vertical;

verus! {

/// Why no document was generated.
#[derive(Clone, Copy, Debug, PartialEq, Eq, Structural)]
pub enum GenerateError {
    /// No font of the requested name was found.
    FontNotFound,
    /// The font exists in memory only, where a file is needed.
    FontUnavailableAsFile,
    /// The font's file could not be read.
    FontReadFailure,
    /// The bytes are no font that can be parsed.
    FontParseFailure,
    /// No shaping context could be made of the font.
    ShapingInitFailure,
}

impl GenerateError {
    /// The error in words.
    pub open spec fn text(self) -> Seq<char> {
        match self {
            GenerateError::FontNotFound => "Failed to find font"@,
            GenerateError::FontUnavailableAsFile => "Font is loaded from memory, not a file"@,
            GenerateError::FontReadFailure => "Failed to read font file"@,
            GenerateError::FontParseFailure => "Failed to parse font"@,
            GenerateError::ShapingInitFailure => "Failed to create rustybuzz face"@,
        }
    }

    /// The error in words.
    pub fn message(&self) -> (s: String)
        ensures
            s@ == self.text(),
    {
        match self {
            GenerateError::FontNotFound => String::from_str("Failed to find font"),
            GenerateError::FontUnavailableAsFile => String::from_str(
                "Font is loaded from memory, not a file",
            ),
            GenerateError::FontReadFailure => String::from_str("Failed to read font file"),
            GenerateError::FontParseFailure => String::from_str("Failed to parse font"),
            GenerateError::ShapingInitFailure => String::from_str("Failed to create rustybuzz face"),
        }
    }
}

/// What is to be typeset, and how it is drawn.
#[derive(Debug)]
pub struct LayoutRequest {
    /// The text; its line breaks are kept, no line is wrapped.
    pub text: String,
    /// The font size, in hundredths of an output unit per em.
    pub font_size: u32,
    /// The fill colour, written as it is given.
    pub text_color: String,
    /// The stroke layers as declared.
    pub stroke_layers: Vec<StrokeLayer>,
    pub export_mode: ExportMode,
    pub direction: Direction,
}

impl LayoutRequest {
    /// How the request's glyphs are drawn.
    pub open spec fn drawing(self) -> Drawing {
        Drawing {
            mode: self.export_mode,
            fill: self.text_color@,
            strokes: drawn_layers(self.stroke_layers@),
        }
    }
}

/// A planned layout: the scale, and the glyphs of each line or column.
#[derive(Debug)]
pub struct Layout {
    pub scale: Scale,
    pub lines: Vec<Vec<PlacedGlyph>>,
}

/// Whether `layout` is the plan of `request` with the face and the font
/// that `data` holds.
pub open spec fn planned(
    face: &ttf_parser::Face<'_>,
    data: Seq<u8>,
    request: LayoutRequest,
    layout: Layout,
) -> bool {
    &&& layout.scale.size() == request.font_size
    &&& layout.scale.em() == face_units_per_em(face)
    &&& match request.direction {
        Direction::Horizontal => planned_horizontally(
            face,
            layout.scale,
            lines_of(request.text@),
            layout.lines@,
        ),
        Direction::Vertical => planned_vertically(
            face,
            data,
            layout.scale,
            lines_of(request.text@),
            layout.lines@,
        ),
    }
}

/// The document of a request and its layout.
pub open spec fn document_of(request: LayoutRequest, layout: Layout) -> Seq<char> {
    match request.direction {
        Direction::Horizontal => horizontal_document(layout.scale, layout.lines@, request.drawing()),
        Direction::Vertical => vertical_document(layout.scale, layout.lines@, request.drawing()),
    }
}

/// Parses the first face of a font.
pub fn parse_font<'a>(font_data: &'a [u8]) -> (r: Result<ttf_parser::Face<'a>, GenerateError>)
    ensures
        r is Ok <==> font_parses(font_data@),
        r is Err ==> r->Err_0 == GenerateError::FontParseFailure,
{
    match parse_first_face(font_data) {
        Some(face) => Ok(face),
        None => Err(GenerateError::FontParseFailure),
    }
}

/// Plans the layout of a request with a parsed face. `font_data` holds the
/// font that the face was parsed from; a vertical layout shapes each line
/// with it, and fails where no shaping context can be made of it. A
/// horizontal layout never fails.
pub fn plan_layout(face: &ttf_parser::Face<'_>, font_data: &[u8], request: &LayoutRequest) -> (r:
    Result<Layout, GenerateError>)
    ensures
        r is Err <==> request.direction == Direction::Vertical && !shaping_face_exists(font_data@),
        r is Err ==> r->Err_0 == GenerateError::ShapingInitFailure,
        r is Ok ==> planned(face, font_data@, *request, r->Ok_0),
{
    let scale = scale_for(face, request.font_size);
    let chars = chars_of(request.text.as_str());
    let lines = split_lines(&chars);
    match request.direction {
        Direction::Horizontal => Ok(Layout { scale, lines: plan_horizontal(face, &scale, &lines) }),
        Direction::Vertical => match plan_vertical(face, font_data, &scale, &lines) {
            Some(columns) => Ok(Layout { scale, lines: columns }),
            None => Err(GenerateError::ShapingInitFailure),
        },
    }
}

/// Writes the document of a planned layout whose glyphs carry their
/// outlines. A layout without lines gives a canvas of the margins alone.
pub fn generate_svg(request: &LayoutRequest, layout: &Layout) -> (svg: String)
    ensures
        svg@ == document_of(*request, *layout),
{
    let style = Style::new(request.export_mode, request.text_color.as_str(), &request.stroke_layers);
    match request.direction {
        Direction::Horizontal => generate_horizontal_svg(&layout.scale, &layout.lines, &style),
        Direction::Vertical => generate_vertical_svg(&layout.scale, &layout.lines, &style),
    }
}

} // verus!
