//! Horizontal layout: lines run left to right, one below the other, each
//! centred on the canvas by its own width.

use vstd::prelude::*;
use vstd::string::*;
use crate::document::{footer_text, glyph_text, header_text, push_glyph, push_header, PlacedGlyph};
use crate::font::{
    ascender, char_glyphs, entry, face_ascender, glyph_index, glyph_metrics, metrics_in,
};
use crate::metrics::{PositionedGlyph, Scale, LENGTH_LIMIT};
use crate::outline::{Direction, Placement, Transform};
use crate::style::{Drawing, Style};
use crate::text::{char_is_whitespace, is_white_space, rows};

verus! {

/// The margin on each side of a horizontal layout: twenty output units.
pub const PADDING: i128 = 2000;

/// The width of a line: the horizontal advances of its glyphs, whitespace
/// included.
pub open spec fn line_width(line: Seq<PlacedGlyph>) -> int
    decreases line.len(),
{
    if line.len() == 0 {
        0
    } else {
        line_width(line.drop_last()) + line.last().glyph.advance_x()
    }
}

/// The width of the widest line; zero where there is no line.
pub open spec fn widest(lines: Seq<Vec<PlacedGlyph>>) -> int
    decreases lines.len(),
{
    if lines.len() == 0 {
        0
    } else if line_width(lines.last()@) > widest(lines.drop_last()) {
        line_width(lines.last()@)
    } else {
        widest(lines.drop_last())
    }
}

/// `k` halves of the line height, which is 1.2 times the font size, cut to
/// whole hundredths.
pub open spec fn half_pitches(scale: Scale, k: int) -> int {
    k * scale.size() * 3 / 5
}

/// The canvas is as wide as the widest line and the margins.
pub open spec fn canvas_width(lines: Seq<Vec<PlacedGlyph>>) -> int {
    widest(lines) + 2 * PADDING
}

/// The canvas is as high as one line height for each line, and the margins.
pub open spec fn canvas_height(scale: Scale, lines: Seq<Vec<PlacedGlyph>>) -> int {
    half_pitches(scale, 2 * (lines.len() as int)) + 2 * PADDING
}

/// Where line `i` starts: it is centred by its own width.
pub open spec fn start_x(lines: Seq<Vec<PlacedGlyph>>, i: int) -> int {
    (canvas_width(lines) - line_width(lines[i]@)) / 2
}

/// The baseline of line `i`, counted from zero.
pub open spec fn baseline_y(scale: Scale, i: int) -> int {
    PADDING + half_pitches(scale, 2 * (i + 1))
}

/// How many glyphs stand in the first `n` lines.
pub open spec fn glyphs_before(lines: Seq<Vec<PlacedGlyph>>, n: int) -> nat
    decreases n,
{
    if n <= 0 {
        0
    } else {
        glyphs_before(lines, n - 1) + lines[n - 1]@.len()
    }
}

/// Where the cursor stands before glyph `k` of line `i`: at the line's
/// start plus the advances of the glyphs before it.
pub open spec fn cursor_x(lines: Seq<Vec<PlacedGlyph>>, i: int, k: int) -> int {
    start_x(lines, i) + line_width(lines[i]@.take(k))
}

/// Where glyph `k` of line `i` is placed: at the cursor, on the line's
/// baseline.
pub open spec fn placement(scale: Scale, lines: Seq<Vec<PlacedGlyph>>, i: int, k: int) -> Placement {
    Placement {
        direction: Direction::Horizontal,
        scale,
        x: cursor_x(lines, i, k),
        y: baseline_y(scale, i),
        centering: 0,
    }
}

/// The markup of the first `n` glyphs of line `i`.
pub open spec fn line_text(
    scale: Scale,
    lines: Seq<Vec<PlacedGlyph>>,
    style: Drawing,
    i: int,
    n: int,
) -> Seq<char>
    decreases n,
{
    if n <= 0 {
        Seq::empty()
    } else {
        line_text(scale, lines, style, i, n - 1) + glyph_text(
            lines[i]@[n - 1],
            placement(scale, lines, i, n - 1),
            (glyphs_before(lines, i) + n - 1) as nat,
            style,
        )
    }
}

/// The markup of the first `m` lines.
pub open spec fn lines_text(scale: Scale, lines: Seq<Vec<PlacedGlyph>>, style: Drawing, m: int) -> Seq<
    char,
>
    decreases m,
{
    if m <= 0 {
        Seq::empty()
    } else {
        lines_text(scale, lines, style, m - 1) + line_text(
            scale,
            lines,
            style,
            m - 1,
            lines[m - 1]@.len() as int,
        )
    }
}

/// The document of a horizontal layout.
pub open spec fn horizontal_document(scale: Scale, lines: Seq<Vec<PlacedGlyph>>, style: Drawing) -> Seq<
    char,
> {
    header_text(canvas_width(lines), canvas_height(scale, lines)) + lines_text(
        scale,
        lines,
        style,
        lines.len() as int,
    ) + footer_text()
}

/// No line is wider than the widest.
pub proof fn widest_bounds(lines: Seq<Vec<PlacedGlyph>>, i: int)
    requires
        0 <= i < lines.len(),
    ensures
        line_width(lines[i]@) <= widest(lines),
        0 <= widest(lines),
    decreases lines.len(),
{
    if i < lines.len() - 1 {
        widest_bounds(lines.drop_last(), i);
    } else if lines.len() > 1 {
        widest_bounds(lines.drop_last(), 0);
    }
}

/// A line is centred: the space before it and the space after it differ
/// by at most one hundredth.
pub proof fn centering_is_symmetric(lines: Seq<Vec<PlacedGlyph>>, i: int)
    requires
        0 <= i < lines.len(),
    ensures
        0 <= canvas_width(lines) - (start_x(lines, i) + line_width(lines[i]@) + start_x(lines, i))
            <= 1,
        start_x(lines, i) >= PADDING,
{
    widest_bounds(lines, i);
}

/// Each line starts where its own width puts it: of two lines the
/// narrower never starts further left, and it starts further right where
/// it is narrower by two hundredths or more.
pub proof fn narrower_line_starts_further_right(lines: Seq<Vec<PlacedGlyph>>, i: int, j: int)
    requires
        0 <= i < lines.len(),
        0 <= j < lines.len(),
        line_width(lines[i]@) <= line_width(lines[j]@),
    ensures
        start_x(lines, i) >= start_x(lines, j),
        line_width(lines[i]@) + 2 <= line_width(lines[j]@) ==> start_x(lines, i) > start_x(lines, j),
{
}

/// Without lines the document is a canvas of the margins alone: the root
/// element and nothing in it.
pub proof fn empty_layout_is_margins(scale: Scale, style: Drawing)
    ensures
        horizontal_document(scale, Seq::<Vec<PlacedGlyph>>::empty(), style) == header_text(
            2 * PADDING,
            2 * PADDING,
        ) + footer_text(),
{
    let none = Seq::<Vec<PlacedGlyph>>::empty();
    assert(half_pitches(scale, 0) == 0) by (nonlinear_arith);
    assert(lines_text(scale, none, style, 0) =~= Seq::<char>::empty());
    assert(horizontal_document(scale, none, style) =~= header_text(2 * PADDING, 2 * PADDING)
        + footer_text());
}

/// Every glyph moves the cursor by its horizontal advance, and a glyph
/// that stands for whitespace does so without being written.
pub proof fn whitespace_advances_unseen(
    scale: Scale,
    lines: Seq<Vec<PlacedGlyph>>,
    style: Drawing,
    i: int,
    k: int,
)
    requires
        0 <= i < lines.len(),
        0 <= k < lines[i]@.len(),
    ensures
        cursor_x(lines, i, k + 1) == cursor_x(lines, i, k) + lines[i]@[k].glyph.advance_x(),
        lines[i]@[k].glyph.blank() ==> line_text(scale, lines, style, i, k + 1) == line_text(
            scale,
            lines,
            style,
            i,
            k,
        ),
{
    assert(lines[i]@.take(k + 1).drop_last() =~= lines[i]@.take(k));
    if lines[i]@[k].glyph.blank() {
        assert(line_text(scale, lines, style, i, k + 1) =~= line_text(scale, lines, style, i, k));
    }
}

proof fn widest_of_prefix(lines: Seq<Vec<PlacedGlyph>>, m: int)
    requires
        0 <= m <= lines.len(),
    ensures
        0 <= widest(lines.take(m)),
        m > 0 ==> widest(lines.take(m)) == (if line_width(lines[m - 1]@) > widest(lines.take(m - 1)) {
            line_width(lines[m - 1]@)
        } else {
            widest(lines.take(m - 1))
        }),
    decreases m,
{
    if m > 0 {
        assert(lines.take(m).drop_last() =~= lines.take(m - 1));
        widest_of_prefix(lines, m - 1);
    }
}

/// `k` halves of the line height.
pub(crate) fn half_pitches_of(scale: &Scale, k: u128) -> (r: i128)
    requires
        k <= 0x4_0000_0000_0000_0000,
    ensures
        r == half_pitches(*scale, k as int),
        0 <= r <= k * 0x1_0000_0000,
{
    let size: i128 = scale.font_size() as i128;
    let n: i128 = k as i128;
    assert(0 <= n * size <= n * 0x1_0000_0000 && n * 0x1_0000_0000 <= 0x4_0000_0000_0000_0000
        * 0x1_0000_0000) by (nonlinear_arith)
        requires
            0 <= n <= 0x4_0000_0000_0000_0000,
            0 <= size <= 0x1_0000_0000,
    ;
    let p: i128 = n * size;
    p * 3 / 5
}

/// Measures one line.
pub fn measure_line(line: &Vec<PlacedGlyph>) -> (width: i128)
    ensures
        width == line_width(line@),
        0 <= width <= line.len() * LENGTH_LIMIT,
{
    let mut width: i128 = 0;
    let mut k: usize = 0;
    proof {
        assert(line@.take(0) =~= Seq::<PlacedGlyph>::empty());
    }
    while k < line.len()
        invariant
            k <= line.len(),
            width == line_width(line@.take(k as int)),
            0 <= width <= k * LENGTH_LIMIT,
        decreases line.len() - k,
    {
        let advance = line[k].glyph.hor_advance();
        proof {
            assert(line@.take(k + 1).drop_last() =~= line@.take(k as int));
        }
        width = width + advance;
        k += 1;
    }
    proof {
        assert(line@.take(k as int) =~= line@);
    }
    width
}

/// Lays the lines out from left to right and writes the document. Every
/// glyph advances the cursor by its horizontal advance and takes the next
/// character index; only a visible glyph is written.
pub fn generate_horizontal_svg(scale: &Scale, lines: &Vec<Vec<PlacedGlyph>>, style: &Style) -> (svg:
    String)
    ensures
        svg@ == horizontal_document(*scale, lines@, style@),
{
    let mut widths: Vec<i128> = Vec::new();
    let mut max_width: i128 = 0;
    let mut i: usize = 0;
    proof {
        assert(lines@.take(0) =~= Seq::<Vec<PlacedGlyph>>::empty());
    }
    while i < lines.len()
        invariant
            i <= lines.len(),
            widths.len() == i,
            forall|j: int| 0 <= j < i ==> widths@[j] == line_width(#[trigger] lines@[j]@),
            forall|j: int| 0 <= j < i ==> 0 <= #[trigger] widths@[j] <= 0xffff_ffff_ffff_ffff * LENGTH_LIMIT,
            max_width == widest(lines@.take(i as int)),
            0 <= max_width <= 0xffff_ffff_ffff_ffff * LENGTH_LIMIT,
        decreases lines.len() - i,
    {
        let width = measure_line(&lines[i]);
        proof {
            widest_of_prefix(lines@, i + 1);
            assert(lines@[i as int]@.len() * LENGTH_LIMIT <= 0xffff_ffff_ffff_ffff * LENGTH_LIMIT);
        }
        widths.push(width);
        if width > max_width {
            max_width = width;
        }
        i += 1;
    }
    proof {
        assert(lines@.take(i as int) =~= lines@);
    }
    let svg_width: i128 = max_width + 2 * PADDING;
    let svg_height: i128 = half_pitches_of(scale, 2 * (lines.len() as u128)) + 2 * PADDING;
    let mut svg = String::new();
    push_header(&mut svg, svg_width, svg_height);
    let ghost header = svg@;
    let mut char_index: u128 = 0;
    let mut i: usize = 0;
    while i < lines.len()
        invariant
            i <= lines.len(),
            widths.len() == lines.len(),
            forall|j: int| 0 <= j < lines.len() ==> widths@[j] == line_width(#[trigger] lines@[j]@),
            forall|j: int|
                0 <= j < lines.len() ==> 0 <= #[trigger] widths@[j] <= 0xffff_ffff_ffff_ffff * LENGTH_LIMIT,
            max_width == widest(lines@),
            0 <= max_width <= 0xffff_ffff_ffff_ffff * LENGTH_LIMIT,
            svg_width == canvas_width(lines@),
            char_index == glyphs_before(lines@, i as int),
            char_index <= i * 0xffff_ffff_ffff_ffff,
            svg@ == header + lines_text(*scale, lines@, style@, i as int),
        decreases lines.len() - i,
    {
        let line = &lines[i];
        let line_width_i: i128 = widths[i];
        proof {
            widest_bounds(lines@, i as int);
        }
        let start: i128 = (svg_width - line_width_i) / 2;
        let baseline: i128 = PADDING + half_pitches_of(scale, 2 * (i as u128 + 1));
        let mut cursor_x: i128 = start;
        let mut k: usize = 0;
        let ghost before = svg@;
        proof {
            assert(line@.take(0) =~= Seq::<PlacedGlyph>::empty());
        }
        while k < line.len()
            invariant
                k <= line.len(),
                i < lines.len(),
                line == &lines@[i as int],
                start == start_x(lines@, i as int),
                0 <= start <= 0xffff_ffff_ffff_ffff * LENGTH_LIMIT,
                baseline == baseline_y(*scale, i as int),
                0 <= baseline <= 0x1_0000_0000_0000_0000_0000_0000_0000,
                cursor_x == start + line_width(line@.take(k as int)),
                0 <= line_width(line@.take(k as int)) <= k * LENGTH_LIMIT,
                char_index == glyphs_before(lines@, i as int) + k,
                glyphs_before(lines@, i as int) <= i * 0xffff_ffff_ffff_ffff,
                svg@ == before + line_text(*scale, lines@, style@, i as int, k as int),
            decreases line.len() - k,
        {
            let g = &line[k];
            let advance = g.glyph.hor_advance();
            let t = Transform::horizontal(*scale, cursor_x, baseline).unwrap();
            push_glyph(&mut svg, g, &t, char_index, style);
            proof {
                assert(line@.take(k + 1).drop_last() =~= line@.take(k as int));
                assert(t@ == placement(*scale, lines@, i as int, k as int));
                assert(svg@ =~= before + line_text(*scale, lines@, style@, i as int, k + 1));
            }
            cursor_x = cursor_x + advance;
            char_index = char_index + 1;
            k += 1;
        }
        proof {
            assert(svg@ =~= header + lines_text(*scale, lines@, style@, i + 1));
        }
        i += 1;
    }
    svg.append("</svg>");
    svg
}

/// Whether `g` is what the face gives for `ch` in a horizontal layout: the
/// resolved metrics of the glyph that the face maps to `ch`, or the entry
/// of an unmapped character.
pub open spec fn horizontal_glyph(
    face: &ttf_parser::Face<'_>,
    scale: Scale,
    ch: char,
    g: PositionedGlyph,
) -> bool {
    match entry(char_glyphs(face), ch) {
        Some(id) => g.resolves(
            scale,
            id,
            ch,
            is_white_space(ch),
            metrics_in(face, id),
            face_ascender(face) as int,
            0,
        ),
        None => g.is_unmapped(ch, is_white_space(ch)),
    }
}

/// Looks the characters of one line up in the face and resolves their
/// metrics. The outlines are left empty.
pub fn plan_horizontal_line(face: &ttf_parser::Face<'_>, scale: &Scale, line: &Vec<char>) -> (placed:
    Vec<PlacedGlyph>)
    ensures
        placed@.len() == line@.len(),
        forall|k: int|
            0 <= k < line@.len() ==> (#[trigger] placed@[k]).outline@.len() == 0
                && horizontal_glyph(face, *scale, line@[k], placed@[k].glyph),
{
    let mut placed: Vec<PlacedGlyph> = Vec::new();
    let ascent = ascender(face);
    let mut k: usize = 0;
    while k < line.len()
        invariant
            k <= line.len(),
            placed@.len() == k,
            ascent == face_ascender(face),
            forall|j: int|
                0 <= j < k ==> (#[trigger] placed@[j]).outline@.len() == 0 && horizontal_glyph(
                    face,
                    *scale,
                    line@[j],
                    placed@[j].glyph,
                ),
        decreases line.len() - k,
    {
        let ch = line[k];
        let whitespace = char_is_whitespace(ch);
        let glyph = match glyph_index(face, ch) {
            Some(id) => {
                let raw = glyph_metrics(face, id);
                PositionedGlyph::resolve(scale, id, ch, whitespace, &raw, ascent, 0)
            },
            None => PositionedGlyph::unmapped(ch, whitespace),
        };
        placed.push(PlacedGlyph { glyph, outline: Vec::new() });
        k += 1;
    }
    placed
}

/// Whether `placed` is the plan of a horizontal layout of `lines`: a line
/// of glyphs for each line of text, a glyph for each character, each with
/// the metrics that the face gives and an empty outline.
pub open spec fn planned_horizontally(
    face: &ttf_parser::Face<'_>,
    scale: Scale,
    lines: Seq<Seq<char>>,
    placed: Seq<Vec<PlacedGlyph>>,
) -> bool {
    &&& placed.len() == lines.len()
    &&& forall|i: int| 0 <= i < lines.len() ==> (#[trigger] placed[i])@.len() == lines[i].len()
    &&& forall|i: int, k: int|
        0 <= i < lines.len() && 0 <= k < lines[i].len() ==> (#[trigger] placed[i]@[k]).outline@.len()
            == 0 && horizontal_glyph(face, scale, lines[i][k], placed[i]@[k].glyph)
}

/// Plans a horizontal layout: one line of glyphs for each line of text.
pub fn plan_horizontal(face: &ttf_parser::Face<'_>, scale: &Scale, lines: &Vec<Vec<char>>) -> (placed:
    Vec<Vec<PlacedGlyph>>)
    ensures
        planned_horizontally(face, *scale, rows(lines@), placed@),
{
    let mut placed: Vec<Vec<PlacedGlyph>> = Vec::new();
    let mut i: usize = 0;
    while i < lines.len()
        invariant
            i <= lines.len(),
            placed@.len() == i,
            forall|j: int| 0 <= j < i ==> (#[trigger] placed@[j])@.len() == lines@[j]@.len(),
            forall|j: int, k: int|
                0 <= j < i && 0 <= k < lines@[j]@.len() ==> (#[trigger] placed@[j]@[k]).outline@.len()
                    == 0 && horizontal_glyph(face, *scale, lines@[j]@[k], placed@[j]@[k].glyph),
        decreases lines.len() - i,
    {
        let row = plan_horizontal_line(face, scale, &lines[i]);
        placed.push(row);
        i += 1;
    }
    placed
}

} // verus!
