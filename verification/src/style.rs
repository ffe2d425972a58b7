//! Export modes and stroke layers: which paths a glyph is drawn with, and
//! in what order.

use vstd::prelude::*;
use vstd::string::*;
use crate::outline::{
    occurrences, occurrences_of_one, occurrences_of_sum, path_keeps_subpaths, path_text, Placement,
    Segment,
};
use crate::text::{one_decimal, push_one_decimal};

verus! {

/// What is written for each glyph.
#[derive(Clone, Copy, Debug, PartialEq, Eq, Structural)]
pub enum ExportMode {
    /// The geometry alone, without fill or stroke.
    PathOnly,
    /// One path in the fill colour.
    Fill,
    /// One path per enabled stroke layer, then one in the fill colour.
    FillAndStroke,
}

/// The mode that a request's word names. A word that names none is taken
/// as `Fill`.
pub open spec fn mode_named(word: Seq<char>) -> ExportMode {
    if word == "path_only"@ {
        ExportMode::PathOnly
    } else if word == "fill_and_stroke"@ {
        ExportMode::FillAndStroke
    } else {
        ExportMode::Fill
    }
}

impl ExportMode {
    /// Reads the mode from a request's word.
    pub fn parse(word: &str) -> (mode: ExportMode)
        ensures
            mode == mode_named(word@),
    {
        let w = String::from_str(word);
        if w == String::from_str("path_only") {
            ExportMode::PathOnly
        } else if w == String::from_str("fill_and_stroke") {
            ExportMode::FillAndStroke
        } else {
            ExportMode::Fill
        }
    }
}

/// One stroke drawn beneath a glyph's fill. `width` is the width on one
/// side of the outline, in hundredths of an output unit; the colour is
/// written as it is given.
#[derive(Clone, Debug)]
pub struct StrokeLayer {
    pub enabled: bool,
    pub width: i64,
    pub color: String,
}

/// The layers that are drawn, in drawing order: the enabled ones, the one
/// declared last first.
pub open spec fn drawn_layers(layers: Seq<StrokeLayer>) -> Seq<StrokeLayer>
    decreases layers.len(),
{
    if layers.len() == 0 {
        Seq::empty()
    } else if layers[0].enabled {
        drawn_layers(layers.drop_first()).push(layers[0])
    } else {
        drawn_layers(layers.drop_first())
    }
}

/// How many of the layers are enabled.
pub open spec fn enabled_count(layers: Seq<StrokeLayer>) -> nat
    decreases layers.len(),
{
    if layers.len() == 0 {
        0
    } else if layers[0].enabled {
        1 + enabled_count(layers.drop_first())
    } else {
        enabled_count(layers.drop_first())
    }
}

/// The stroke width that is written for a layer of width `width`: twice the
/// width, since a stroke lies on both sides of the outline, in tenths of an
/// output unit, rounded to the nearest with halves away from zero.
pub open spec fn stroke_tenths(width: int) -> int {
    if width < 0 {
        -((2 * (-width) + 5) / 10)
    } else {
        (2 * width + 5) / 10
    }
}

/// A path without style.
pub open spec fn bare_path(path: Seq<char>) -> Seq<char> {
    "    <path d=\""@ + path + "\"/>\n"@
}

/// A path in the fill colour.
pub open spec fn filled_path(path: Seq<char>, fill: Seq<char>) -> Seq<char> {
    "    <path d=\""@ + path + "\" fill=\""@ + fill + "\"/>\n"@
}

/// A path stroked and filled in a layer's colour, with round joins and
/// caps.
pub open spec fn stroked_path(path: Seq<char>, layer: StrokeLayer) -> Seq<char> {
    "    <path d=\""@ + path + "\" fill=\""@ + layer.color@ + "\" stroke=\""@ + layer.color@
        + "\" stroke-width=\""@ + one_decimal(stroke_tenths(layer.width as int))
        + "\" stroke-linejoin=\"round\" stroke-linecap=\"round\"/>\n"@
}

/// The path elements of one glyph, in drawing order, for the layers `drawn`
/// that are already in drawing order.
pub open spec fn path_elements(
    mode: ExportMode,
    path: Seq<char>,
    fill: Seq<char>,
    drawn: Seq<StrokeLayer>,
) -> Seq<Seq<char>> {
    match mode {
        ExportMode::PathOnly => seq![bare_path(path)],
        ExportMode::Fill => seq![filled_path(path, fill)],
        ExportMode::FillAndStroke => Seq::new(drawn.len(), |k: int| stroked_path(path, drawn[k])).push(
            filled_path(path, fill),
        ),
    }
}

/// The parts one after another.
pub open spec fn joined(parts: Seq<Seq<char>>) -> Seq<char>
    decreases parts.len(),
{
    if parts.len() == 0 {
        Seq::empty()
    } else {
        joined(parts.drop_last()) + parts.last()
    }
}

/// How glyphs are drawn: the export mode, the fill colour, and the stroke
/// layers in drawing order.
#[derive(Clone, Debug)]
pub struct Style {
    pub mode: ExportMode,
    pub fill: String,
    pub strokes: Vec<StrokeLayer>,
}

/// A style as values: the export mode, the fill colour, and the stroke
/// layers in drawing order.
pub struct Drawing {
    pub mode: ExportMode,
    pub fill: Seq<char>,
    pub strokes: Seq<StrokeLayer>,
}

impl Drawing {
    /// The markup of the paths of one glyph whose path data is `path`.
    pub open spec fn paths_text(self, path: Seq<char>) -> Seq<char> {
        joined(path_elements(self.mode, path, self.fill, self.strokes))
    }
}

impl View for Style {
    type V = Drawing;

    open spec fn view(&self) -> Drawing {
        Drawing { mode: self.mode, fill: self.fill@, strokes: self.strokes@ }
    }
}

impl Style {

    /// The style of a request: of the declared layers the enabled ones are
    /// kept, in reverse of their declaration.
    pub fn new(mode: ExportMode, fill: &str, layers: &Vec<StrokeLayer>) -> (style: Style)
        ensures
            style@ == (Drawing { mode, fill: fill@, strokes: drawn_layers(layers@) }),
    {
        Style { mode, fill: String::from_str(fill), strokes: enabled_stroke_layers(layers) }
    }

    /// Appends the paths of one glyph.
    pub fn push_paths(&self, out: &mut String, path: &str)
        ensures
            final(out)@ == old(out)@ + self@.paths_text(path@),
    {
        let ghost elements = path_elements(self.mode, path@, self.fill@, self.strokes@);
        match self.mode {
            ExportMode::PathOnly => {
                out.append("    <path d=\"");
                out.append(path);
                out.append("\"/>\n");
                proof {
                    assert(elements.drop_last() =~= Seq::<Seq<char>>::empty());
                    assert(joined(elements.drop_last()) =~= Seq::<char>::empty());
                    assert(final(out)@ =~= old(out)@ + joined(elements));
                }
            },
            ExportMode::Fill => {
                push_filled_path(out, path, self.fill.as_str());
                proof {
                    assert(elements.drop_last() =~= Seq::<Seq<char>>::empty());
                    assert(joined(elements.drop_last()) =~= Seq::<char>::empty());
                    assert(final(out)@ =~= old(out)@ + joined(elements));
                }
            },
            ExportMode::FillAndStroke => {
                let ghost strokes = elements.drop_last();
                let mut k: usize = 0;
                while k < self.strokes.len()
                    invariant
                        k <= self.strokes.len(),
                        strokes.len() == self.strokes.len(),
                        forall|j: int|
                            0 <= j < strokes.len() ==> strokes[j] == stroked_path(
                                path@,
                                self.strokes@[j],
                            ),
                        out@ == old(out)@ + joined(strokes.take(k as int)),
                    decreases self.strokes.len() - k,
                {
                    push_stroked_path(out, path, &self.strokes[k]);
                    proof {
                        assert(strokes.take(k + 1).drop_last() =~= strokes.take(k as int));
                        assert(out@ =~= old(out)@ + joined(strokes.take(k + 1)));
                    }
                    k += 1;
                }
                push_filled_path(out, path, self.fill.as_str());
                proof {
                    assert(strokes.take(k as int) =~= strokes);
                    assert(final(out)@ =~= old(out)@ + joined(elements));
                }
            },
        }
    }
}

fn push_filled_path(out: &mut String, path: &str, fill: &str)
    ensures
        final(out)@ == old(out)@ + filled_path(path@, fill@),
{
    out.append("    <path d=\"");
    out.append(path);
    out.append("\" fill=\"");
    out.append(fill);
    out.append("\"/>\n");
    assert(final(out)@ =~= old(out)@ + filled_path(path@, fill@));
}

fn push_stroked_path(out: &mut String, path: &str, layer: &StrokeLayer)
    ensures
        final(out)@ == old(out)@ + stroked_path(path@, *layer),
{
    let w: i128 = layer.width as i128;
    let tenths: i128 = if w < 0 {
        -((2 * (-w) + 5) / 10)
    } else {
        (2 * w + 5) / 10
    };
    out.append("    <path d=\"");
    out.append(path);
    out.append("\" fill=\"");
    out.append(layer.color.as_str());
    out.append("\" stroke=\"");
    out.append(layer.color.as_str());
    out.append("\" stroke-width=\"");
    push_one_decimal(out, tenths);
    out.append("\" stroke-linejoin=\"round\" stroke-linecap=\"round\"/>\n");
    assert(final(out)@ =~= old(out)@ + stroked_path(path@, *layer));
}

/// The stroke layers that are drawn, in drawing order: disabled layers are
/// left out, and the layer declared last comes first.
pub fn enabled_stroke_layers(layers: &Vec<StrokeLayer>) -> (drawn: Vec<StrokeLayer>)
    ensures
        drawn@ == drawn_layers(layers@),
{
    let mut drawn: Vec<StrokeLayer> = Vec::new();
    let mut i: usize = layers.len();
    proof {
        assert(layers@.skip(i as int) =~= Seq::<StrokeLayer>::empty());
    }
    while i > 0
        invariant
            i <= layers.len(),
            drawn@ == drawn_layers(layers@.skip(i as int)),
        decreases i,
    {
        i -= 1;
        proof {
            assert(layers@.skip(i as int).drop_first() =~= layers@.skip(i + 1));
        }
        if layers[i].enabled {
            let layer = StrokeLayer {
                enabled: true,
                width: layers[i].width,
                color: layers[i].color.clone(),
            };
            assert(layer == layers@[i as int]);
            drawn.push(layer);
        }
    }
    proof {
        assert(layers@.skip(0) =~= layers@);
    }
    drawn
}

/// Drawing order is declaration order reversed: the layers drawn of two
/// lists in a row are those of the second list, then those of the first.
pub proof fn drawn_layers_reverse(a: Seq<StrokeLayer>, b: Seq<StrokeLayer>)
    ensures
        drawn_layers(a + b) == drawn_layers(b) + drawn_layers(a),
    decreases a.len(),
{
    if a.len() == 0 {
        assert(a + b =~= b);
        assert(drawn_layers(b) + drawn_layers(a) =~= drawn_layers(b));
    } else {
        assert((a + b).drop_first() =~= a.drop_first() + b);
        drawn_layers_reverse(a.drop_first(), b);
        if a[0].enabled {
            assert(drawn_layers(a + b) =~= drawn_layers(b) + drawn_layers(a));
        }
    }
}

/// Every layer that is drawn is enabled, and as many are drawn as are
/// enabled.
pub proof fn drawn_layers_enabled(layers: Seq<StrokeLayer>)
    ensures
        drawn_layers(layers).len() == enabled_count(layers),
        forall|k: int| 0 <= k < drawn_layers(layers).len() ==> (#[trigger] drawn_layers(layers)[k]).enabled,
    decreases layers.len(),
{
    if layers.len() > 0 {
        drawn_layers_enabled(layers.drop_first());
    }
}

/// The markup of a glyph exported as geometry holds one attribute, the path
/// data: the equals sign of `d=` is the only one in it, so that it has
/// neither a fill nor a stroke.
pub proof fn path_only_has_no_style(p: Placement, outline: Seq<Segment>)
    ensures
        occurrences(bare_path(path_text(p, outline)), '=') == 1,
{
    let path = path_text(p, outline);
    let c = '=';
    path_keeps_subpaths(p, outline);
    reveal_strlit("    <path d=\"");
    reveal_strlit("\"/>\n");
    let s1 = seq![' '];
    let s2 = s1 + seq![' '];
    let s3 = s2 + seq![' '];
    let s4 = s3 + seq![' '];
    let s5 = s4 + seq!['<'];
    let s6 = s5 + seq!['p'];
    let s7 = s6 + seq!['a'];
    let s8 = s7 + seq!['t'];
    let s9 = s8 + seq!['h'];
    let s10 = s9 + seq![' '];
    let s11 = s10 + seq!['d'];
    let s12 = s11 + seq!['='];
    let s13 = s12 + seq!['"'];
    occurrences_of_one(' ', c);
    occurrences_of_one('<', c);
    occurrences_of_one('p', c);
    occurrences_of_one('a', c);
    occurrences_of_one('t', c);
    occurrences_of_one('h', c);
    occurrences_of_one('d', c);
    occurrences_of_one('=', c);
    occurrences_of_one('"', c);
    occurrences_of_one('/', c);
    occurrences_of_one('>', c);
    occurrences_of_one('\n', c);
    occurrences_of_sum(s1, seq![' '], c);
    occurrences_of_sum(s2, seq![' '], c);
    occurrences_of_sum(s3, seq![' '], c);
    occurrences_of_sum(s4, seq!['<'], c);
    occurrences_of_sum(s5, seq!['p'], c);
    occurrences_of_sum(s6, seq!['a'], c);
    occurrences_of_sum(s7, seq!['t'], c);
    occurrences_of_sum(s8, seq!['h'], c);
    occurrences_of_sum(s9, seq![' '], c);
    occurrences_of_sum(s10, seq!['d'], c);
    occurrences_of_sum(s11, seq!['='], c);
    occurrences_of_sum(s12, seq!['"'], c);
    assert("    <path d=\""@ =~= s13);
    let e1 = seq!['"'];
    let e2 = e1 + seq!['/'];
    let e3 = e2 + seq!['>'];
    let e4 = e3 + seq!['\n'];
    occurrences_of_sum(e1, seq!['/'], c);
    occurrences_of_sum(e2, seq!['>'], c);
    occurrences_of_sum(e3, seq!['\n'], c);
    assert("\"/>\n"@ =~= e4);
    occurrences_of_sum("    <path d=\""@, path, c);
    occurrences_of_sum("    <path d=\""@ + path, "\"/>\n"@, c);
}

/// A glyph exported as geometry is one path without style. With fill and
/// strokes it is one path for each enabled layer, the layer declared last
/// first, and the filled path after them.
pub proof fn path_elements_per_mode(
    path: Seq<char>,
    fill: Seq<char>,
    layers: Seq<StrokeLayer>,
)
    ensures
        path_elements(ExportMode::PathOnly, path, fill, drawn_layers(layers)) == seq![
            bare_path(path),
        ],
        path_elements(ExportMode::FillAndStroke, path, fill, drawn_layers(layers)).len()
            == enabled_count(layers) + 1,
        path_elements(ExportMode::FillAndStroke, path, fill, drawn_layers(layers)).last()
            == filled_path(path, fill),
        forall|k: int|
            0 <= k < enabled_count(layers) ==> #[trigger] path_elements(
                ExportMode::FillAndStroke,
                path,
                fill,
                drawn_layers(layers),
            )[k] == stroked_path(path, drawn_layers(layers)[k]),
{
    drawn_layers_enabled(layers);
}

} // verus!
