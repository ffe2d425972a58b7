//! Vertical layout: each line of text is a column that runs from top to
//! bottom, and the columns follow one another from right to left.

use vstd::prelude::*;
use vstd::string::*;
use crate::document::{footer_text, glyph_text, header_text, push_glyph, push_header, PlacedGlyph};
use crate::font::{
    ascender, face_ascender, glyph_metrics, metrics_in, shape_top_to_bottom, shaped_top_to_bottom,
    shaping_face_exists,
};
use crate::horizontal::{glyphs_before, half_pitches, half_pitches_of};
use crate::metrics::{PositionedGlyph, Scale, LENGTH_LIMIT};
use crate::outline::{Direction, Placement, Transform};
use crate::style::{Drawing, Style};
use crate::text::{char_is_whitespace, is_white_space, rows};

verus! {

/// The margin on each side of a vertical layout: half the font size and
/// twenty output units.
pub open spec fn padding(scale: Scale) -> int {
    scale.size() / 2 + 2000
}

/// How far a column reaches: the vertical advances of its glyphs.
pub open spec fn column_extent(column: Seq<PlacedGlyph>) -> int
    decreases column.len(),
{
    if column.len() == 0 {
        0
    } else {
        column_extent(column.drop_last()) + column.last().glyph.advance_y()
    }
}

/// The extent of the column that reaches furthest; zero where none reaches
/// further than that.
pub open spec fn tallest(columns: Seq<Vec<PlacedGlyph>>) -> int
    decreases columns.len(),
{
    if columns.len() == 0 {
        0
    } else if column_extent(columns.last()@) > tallest(columns.drop_last()) {
        column_extent(columns.last()@)
    } else {
        tallest(columns.drop_last())
    }
}

/// The canvas is as wide as one line height for each column, and the
/// margins.
pub open spec fn canvas_width(scale: Scale, columns: Seq<Vec<PlacedGlyph>>) -> int {
    half_pitches(scale, 2 * (columns.len() as int)) + 2 * padding(scale)
}

/// The canvas is as high as the tallest column and the margins.
pub open spec fn canvas_height(scale: Scale, columns: Seq<Vec<PlacedGlyph>>) -> int {
    tallest(columns) + 2 * padding(scale)
}

/// The centre of column `i`, counted from zero at the right.
pub open spec fn column_center_x(scale: Scale, columns: Seq<Vec<PlacedGlyph>>, i: int) -> int {
    canvas_width(scale, columns) - padding(scale) - half_pitches(scale, 2 * i + 1)
}

/// Where the cursor stands before glyph `k` of column `i`: it starts at
/// the margin and has moved by the advances of the glyphs before it.
pub open spec fn cursor_y(scale: Scale, columns: Seq<Vec<PlacedGlyph>>, i: int, k: int) -> int {
    padding(scale) + column_extent(columns[i]@.take(k))
}

/// Where glyph `k` of column `i` is placed: centred on the column, its
/// vertical origin below the cursor.
pub open spec fn placement(scale: Scale, columns: Seq<Vec<PlacedGlyph>>, i: int, k: int) -> Placement {
    Placement {
        direction: Direction::Vertical,
        scale,
        x: column_center_x(scale, columns, i),
        y: cursor_y(scale, columns, i, k) + columns[i]@[k].glyph.origin_y(),
        centering: columns[i]@[k].glyph.advance_x(),
    }
}

/// The markup of the first `n` glyphs of column `i`.
pub open spec fn column_text(
    scale: Scale,
    columns: Seq<Vec<PlacedGlyph>>,
    style: Drawing,
    i: int,
    n: int,
) -> Seq<char>
    decreases n,
{
    if n <= 0 {
        Seq::empty()
    } else {
        column_text(scale, columns, style, i, n - 1) + glyph_text(
            columns[i]@[n - 1],
            placement(scale, columns, i, n - 1),
            (glyphs_before(columns, i) + n - 1) as nat,
            style,
        )
    }
}

/// The markup of the first `m` columns.
pub open spec fn columns_text(
    scale: Scale,
    columns: Seq<Vec<PlacedGlyph>>,
    style: Drawing,
    m: int,
) -> Seq<char>
    decreases m,
{
    if m <= 0 {
        Seq::empty()
    } else {
        columns_text(scale, columns, style, m - 1) + column_text(
            scale,
            columns,
            style,
            m - 1,
            columns[m - 1]@.len() as int,
        )
    }
}

/// The document of a vertical layout.
pub open spec fn vertical_document(scale: Scale, columns: Seq<Vec<PlacedGlyph>>, style: Drawing) -> Seq<
    char,
> {
    header_text(canvas_width(scale, columns), canvas_height(scale, columns)) + columns_text(
        scale,
        columns,
        style,
        columns.len() as int,
    ) + footer_text()
}

/// Columns run from right to left: with a font size above zero, a column
/// lies further right than every column after it.
pub proof fn columns_run_right_to_left(scale: Scale, columns: Seq<Vec<PlacedGlyph>>, i: int, j: int)
    requires
        scale.size() > 0,
        0 <= i < j,
    ensures
        column_center_x(scale, columns, i) > column_center_x(scale, columns, j),
{
    let s = scale.size();
    assert((2 * j + 1) * s * 3 >= (2 * i + 1) * s * 3 + 5) by (nonlinear_arith)
        requires
            s >= 1,
            0 <= i < j,
    ;
}

/// Without columns the document is a canvas of the margins alone: the root
/// element and nothing in it.
pub proof fn empty_layout_is_margins(scale: Scale, style: Drawing)
    ensures
        vertical_document(scale, Seq::<Vec<PlacedGlyph>>::empty(), style) == header_text(
            2 * padding(scale),
            2 * padding(scale),
        ) + footer_text(),
{
    let none = Seq::<Vec<PlacedGlyph>>::empty();
    assert(half_pitches(scale, 0) == 0) by (nonlinear_arith);
    assert(columns_text(scale, none, style, 0) =~= Seq::<char>::empty());
    assert(vertical_document(scale, none, style) =~= header_text(
        2 * padding(scale),
        2 * padding(scale),
    ) + footer_text());
}

/// Every glyph moves the cursor down by its vertical advance, and a glyph
/// that stands for whitespace does so without being written.
pub proof fn whitespace_advances_unseen(
    scale: Scale,
    columns: Seq<Vec<PlacedGlyph>>,
    style: Drawing,
    i: int,
    k: int,
)
    requires
        0 <= i < columns.len(),
        0 <= k < columns[i]@.len(),
    ensures
        cursor_y(scale, columns, i, k + 1) == cursor_y(scale, columns, i, k)
            + columns[i]@[k].glyph.advance_y(),
        columns[i]@[k].glyph.blank() ==> column_text(scale, columns, style, i, k + 1)
            == column_text(scale, columns, style, i, k),
{
    assert(columns[i]@.take(k + 1).drop_last() =~= columns[i]@.take(k));
    if columns[i]@[k].glyph.blank() {
        assert(column_text(scale, columns, style, i, k + 1) =~= column_text(
            scale,
            columns,
            style,
            i,
            k,
        ));
    }
}

proof fn tallest_of_prefix(columns: Seq<Vec<PlacedGlyph>>, m: int)
    requires
        0 <= m <= columns.len(),
    ensures
        0 <= tallest(columns.take(m)),
        m > 0 ==> tallest(columns.take(m)) == (if column_extent(columns[m - 1]@) > tallest(
            columns.take(m - 1),
        ) {
            column_extent(columns[m - 1]@)
        } else {
            tallest(columns.take(m - 1))
        }),
    decreases m,
{
    if m > 0 {
        assert(columns.take(m).drop_last() =~= columns.take(m - 1));
        tallest_of_prefix(columns, m - 1);
    }
}

/// Measures one column.
pub fn measure_column(column: &Vec<PlacedGlyph>) -> (extent: i128)
    ensures
        extent == column_extent(column@),
        -(column.len() * LENGTH_LIMIT) <= extent <= column.len() * LENGTH_LIMIT,
{
    let mut extent: i128 = 0;
    let mut k: usize = 0;
    proof {
        assert(column@.take(0) =~= Seq::<PlacedGlyph>::empty());
    }
    while k < column.len()
        invariant
            k <= column.len(),
            extent == column_extent(column@.take(k as int)),
            -(k * LENGTH_LIMIT) <= extent <= k * LENGTH_LIMIT,
        decreases column.len() - k,
    {
        let advance = column[k].glyph.ver_advance();
        proof {
            assert(column@.take(k + 1).drop_last() =~= column@.take(k as int));
        }
        extent = extent + advance;
        k += 1;
    }
    proof {
        assert(column@.take(k as int) =~= column@);
    }
    extent
}

/// Lays the columns out from right to left and writes the document. Every
/// glyph moves the cursor down by its vertical advance and takes the next
/// character index; only a visible glyph is written.
pub fn generate_vertical_svg(scale: &Scale, columns: &Vec<Vec<PlacedGlyph>>, style: &Style) -> (svg:
    String)
    ensures
        svg@ == vertical_document(*scale, columns@, style@),
{
    let mut max_height: i128 = 0;
    let mut i: usize = 0;
    proof {
        assert(columns@.take(0) =~= Seq::<Vec<PlacedGlyph>>::empty());
    }
    while i < columns.len()
        invariant
            i <= columns.len(),
            max_height == tallest(columns@.take(i as int)),
            0 <= max_height <= 0xffff_ffff_ffff_ffff * LENGTH_LIMIT,
        decreases columns.len() - i,
    {
        let height = measure_column(&columns[i]);
        proof {
            tallest_of_prefix(columns@, i + 1);
            assert(columns@[i as int]@.len() * LENGTH_LIMIT <= 0xffff_ffff_ffff_ffff * LENGTH_LIMIT);
        }
        if height > max_height {
            max_height = height;
        }
        i += 1;
    }
    proof {
        assert(columns@.take(i as int) =~= columns@);
    }
    let margin: i128 = (scale.font_size() as i128) / 2 + 2000;
    let svg_width: i128 = half_pitches_of(scale, 2 * (columns.len() as u128)) + 2 * margin;
    let svg_height: i128 = max_height + 2 * margin;
    let mut svg = String::new();
    push_header(&mut svg, svg_width, svg_height);
    let ghost header = svg@;
    let mut char_index: u128 = 0;
    let mut i: usize = 0;
    while i < columns.len()
        invariant
            i <= columns.len(),
            margin == padding(*scale),
            2000 <= margin <= 0x1_0000_0000,
            svg_width == canvas_width(*scale, columns@),
            0 <= svg_width <= 0x1_0000_0000_0000_0000_0000_0000_0000,
            char_index == glyphs_before(columns@, i as int),
            char_index <= i * 0xffff_ffff_ffff_ffff,
            svg@ == header + columns_text(*scale, columns@, style@, i as int),
        decreases columns.len() - i,
    {
        let column = &columns[i];
        let center: i128 = svg_width - margin - half_pitches_of(scale, 2 * (i as u128) + 1);
        let mut cursor_y: i128 = margin;
        let mut k: usize = 0;
        let ghost before = svg@;
        proof {
            assert(column@.take(0) =~= Seq::<PlacedGlyph>::empty());
        }
        while k < column.len()
            invariant
                k <= column.len(),
                i < columns.len(),
                column == &columns@[i as int],
                margin == padding(*scale),
                2000 <= margin <= 0x1_0000_0000,
                center == column_center_x(*scale, columns@, i as int),
                -0x1_0000_0000_0000_0000_0000_0000_0000 <= center
                    <= 0x1_0000_0000_0000_0000_0000_0000_0000,
                cursor_y == margin + column_extent(column@.take(k as int)),
                -(k * LENGTH_LIMIT) <= column_extent(column@.take(k as int)) <= k * LENGTH_LIMIT,
                char_index == glyphs_before(columns@, i as int) + k,
                glyphs_before(columns@, i as int) <= i * 0xffff_ffff_ffff_ffff,
                svg@ == before + column_text(*scale, columns@, style@, i as int, k as int),
            decreases column.len() - k,
        {
            let g = &column[k];
            let advance = g.glyph.ver_advance();
            let top: i128 = cursor_y + g.glyph.ver_origin();
            let t = Transform::vertical(*scale, center, top, g.glyph.hor_advance()).unwrap();
            push_glyph(&mut svg, g, &t, char_index, style);
            proof {
                assert(column@.take(k + 1).drop_last() =~= column@.take(k as int));
                assert(t@ == placement(*scale, columns@, i as int, k as int));
                assert(svg@ =~= before + column_text(*scale, columns@, style@, i as int, k + 1));
            }
            cursor_y = cursor_y + advance;
            char_index = char_index + 1;
            k += 1;
        }
        proof {
            assert(svg@ =~= header + columns_text(*scale, columns@, style@, i + 1));
        }
        i += 1;
    }
    svg.append("</svg>");
    svg
}

/// The character that shaped glyph `k` of a line stands for: the line's
/// character at the same place, or a question mark where shaping gave more
/// glyphs than the line has characters.
pub open spec fn source_char(line: Seq<char>, k: int) -> char {
    if 0 <= k < line.len() {
        line[k]
    } else {
        '?'
    }
}

/// Whether `placed` is the column that shaping and the face give for
/// `line`: a glyph for each shaped glyph, in shaped order, each with the
/// metrics resolved from the face and the shaped advance, and an empty
/// outline.
pub open spec fn planned_column(
    face: &ttf_parser::Face<'_>,
    scale: Scale,
    line: Seq<char>,
    shaped: Seq<(u16, i32)>,
    placed: Seq<PlacedGlyph>,
) -> bool {
    &&& placed.len() == shaped.len()
    &&& forall|k: int|
        0 <= k < shaped.len() ==> (#[trigger] placed[k]).outline@.len() == 0
            && placed[k].glyph.resolves(
            scale,
            shaped[k].0,
            source_char(line, k),
            is_white_space(source_char(line, k)),
            metrics_in(face, shaped[k].0),
            face_ascender(face) as int,
            shaped[k].1 as int,
        )
}

/// Whether `placed` is the plan of a vertical layout of `lines`, shaped
/// with the font that `data` holds.
pub open spec fn planned_vertically(
    face: &ttf_parser::Face<'_>,
    data: Seq<u8>,
    scale: Scale,
    lines: Seq<Seq<char>>,
    placed: Seq<Vec<PlacedGlyph>>,
) -> bool {
    &&& placed.len() == lines.len()
    &&& forall|i: int|
        0 <= i < lines.len() ==> planned_column(
            face,
            scale,
            lines[i],
            shaped_top_to_bottom(data, lines[i]),
            (#[trigger] placed[i])@,
        )
}

/// Resolves the glyphs that shaping gave for one line.
pub fn plan_column(
    face: &ttf_parser::Face<'_>,
    scale: &Scale,
    line: &Vec<char>,
    shaped: &Vec<(u16, i32)>,
) -> (placed: Vec<PlacedGlyph>)
    ensures
        planned_column(face, *scale, line@, shaped@, placed@),
{
    let mut placed: Vec<PlacedGlyph> = Vec::new();
    let ascent = ascender(face);
    let mut k: usize = 0;
    while k < shaped.len()
        invariant
            k <= shaped.len(),
            ascent == face_ascender(face),
            planned_column(face, *scale, line@, shaped@.take(k as int), placed@),
        decreases shaped.len() - k,
    {
        let glyph_id: u16 = shaped[k].0;
        let shaped_advance: i32 = shaped[k].1;
        let ch = if k < line.len() {
            line[k]
        } else {
            '?'
        };
        let whitespace = char_is_whitespace(ch);
        let raw = glyph_metrics(face, glyph_id);
        let glyph = PositionedGlyph::resolve(
            scale,
            glyph_id,
            ch,
            whitespace,
            &raw,
            ascent,
            shaped_advance,
        );
        placed.push(PlacedGlyph { glyph, outline: Vec::new() });
        k += 1;
    }
    proof {
        assert(shaped@.take(k as int) =~= shaped@);
    }
    placed
}

/// Plans a vertical layout: each line is shaped for top-to-bottom writing
/// and gives one column. Without a shaping context there is no plan.
pub fn plan_vertical(
    face: &ttf_parser::Face<'_>,
    font_data: &[u8],
    scale: &Scale,
    lines: &Vec<Vec<char>>,
) -> (r: Option<Vec<Vec<PlacedGlyph>>>)
    ensures
        r is Some <==> shaping_face_exists(font_data@),
        r is Some ==> planned_vertically(face, font_data@, *scale, rows(lines@), r->0@),
{
    if !crate::font::shaping_available(font_data) {
        return None;
    }
    let mut placed: Vec<Vec<PlacedGlyph>> = Vec::new();
    let mut i: usize = 0;
    while i < lines.len()
        invariant
            i <= lines.len(),
            shaping_face_exists(font_data@),
            planned_vertically(face, font_data@, *scale, rows(lines@).take(i as int), placed@),
        decreases lines.len() - i,
    {
        match shape_top_to_bottom(font_data, &lines[i]) {
            Some(shaped) => {
                let column = plan_column(face, scale, &lines[i], &shaped);
                placed.push(column);
            },
            None => {
                return None;
            },
        }
        i += 1;
    }
    proof {
        assert(rows(lines@).take(i as int) =~= rows(lines@));
    }
    Some(placed)
}

} // verus!
