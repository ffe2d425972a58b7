//! The pieces of the document: its root element, and the group that holds
//! the paths of one glyph.

use vstd::prelude::*;
use vstd::string::*;
use crate::metrics::PositionedGlyph;
use crate::outline::{path_data, path_text, Placement, Segment, Transform};
use crate::style::{Drawing, Style};
use crate::text::{
    decimal, escape_xml_char, escaped, no_decimals, push_decimal, push_no_decimals,
};

verus! {

/// One glyph of a layout: its resolved metrics and its outline in font
/// units.
#[derive(Debug)]
pub struct PlacedGlyph {
    pub glyph: PositionedGlyph,
    pub outline: Vec<Segment>,
}

impl PlacedGlyph {
    /// Whether the glyph is drawn: it stands for no whitespace, the font
    /// has a glyph for it, and its outline has a segment.
    pub open spec fn visible(self) -> bool {
        !self.glyph.blank() && self.glyph.id() is Some && self.outline@.len() > 0
    }
}

/// The declaration and the opening tag of the root element, for a canvas of
/// `width` by `height` hundredths: the size and the view box are the same
/// whole numbers of units.
pub open spec fn header_text(width: int, height: int) -> Seq<char> {
    "<?xml version=\"1.0\" encoding=\"UTF-8\"?>\n<svg xmlns=\"http://www.w3.org/2000/svg\" width=\""@
        + no_decimals(width) + "\" height=\""@ + no_decimals(height) + "\" viewBox=\"0 0 "@
        + no_decimals(width) + " "@ + no_decimals(height) + "\">\n"@
}

/// The closing tag of the root element.
pub open spec fn footer_text() -> Seq<char> {
    "</svg>"@
}

/// The group of one glyph: it carries the character's index in the text
/// and the escaped character, and holds the glyph's paths.
pub open spec fn group_text(index: nat, ch: char, paths: Seq<char>) -> Seq<char> {
    "  <g id=\"char-"@ + decimal(index) + "\" data-char=\""@ + escaped(ch) + "\">\n"@ + paths
        + "  </g>\n"@
}

/// What one glyph adds to the document: its group where it is drawn,
/// nothing otherwise.
pub open spec fn glyph_text(g: PlacedGlyph, p: Placement, index: nat, style: Drawing) -> Seq<char> {
    if g.visible() {
        group_text(index, g.glyph.character(), style.paths_text(path_text(p, g.outline@)))
    } else {
        Seq::empty()
    }
}

/// Appends the declaration and the opening tag of the root element.
pub fn push_header(out: &mut String, width: i128, height: i128)
    ensures
        final(out)@ == old(out)@ + header_text(width as int, height as int),
{
    out.append(
        "<?xml version=\"1.0\" encoding=\"UTF-8\"?>\n<svg xmlns=\"http://www.w3.org/2000/svg\" width=\"",
    );
    push_no_decimals(out, width);
    out.append("\" height=\"");
    push_no_decimals(out, height);
    out.append("\" viewBox=\"0 0 ");
    push_no_decimals(out, width);
    out.append(" ");
    push_no_decimals(out, height);
    out.append("\">\n");
    assert(final(out)@ =~= old(out)@ + header_text(width as int, height as int));
}

/// Appends the group of one glyph, if the glyph is drawn.
pub fn push_glyph(out: &mut String, g: &PlacedGlyph, t: &Transform, index: u128, style: &Style)
    ensures
        final(out)@ == old(out)@ + glyph_text(*g, t@, index as nat, style@),
{
    let ch = g.glyph.ch();
    if !g.glyph.is_whitespace() && g.glyph.glyph_id().is_some() && g.outline.len() > 0 {
        let path = path_data(t, &g.outline);
        out.append("  <g id=\"char-");
        push_decimal(out, index);
        out.append("\" data-char=\"");
        let escaped_char = escape_xml_char(ch);
        out.append(escaped_char.as_str());
        out.append("\">\n");
        style.push_paths(out, path.as_str());
        out.append("  </g>\n");
        assert(final(out)@ =~= old(out)@ + glyph_text(*g, t@, index as nat, style@));
    } else {
        assert(final(out)@ =~= old(out)@ + glyph_text(*g, t@, index as nat, style@));
    }
}

} // verus!
