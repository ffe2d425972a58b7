//! Glyph outlines, the transform from glyph space to output space, and the
//! path data that an outline gives under a transform.

use vstd::prelude::*;
use vstd::string::*;
use crate::metrics::{Scale, LENGTH_LIMIT};
use crate::text::{push_two_decimals, two_decimals};

verus! {

/// No offset of a transform is further from zero than this many hundredths.
pub const OFFSET_LIMIT: i128 = 0x4000_0000_0000_0000_0000_0000_0000_0000;

/// One segment of a glyph's outline, in font units, as the font defines it.
#[derive(Clone, Copy, Debug, PartialEq, Eq, Structural)]
pub enum Segment {
    MoveTo { x: i32, y: i32 },
    LineTo { x: i32, y: i32 },
    QuadraticTo { x1: i32, y1: i32, x: i32, y: i32 },
    CubicTo { x1: i32, y1: i32, x2: i32, y2: i32, x: i32, y: i32 },
    Close,
}

/// One drawing command of a path, in hundredths of an output unit.
#[derive(Clone, Copy, Debug, PartialEq, Eq, Structural)]
pub enum PathCommand {
    MoveTo { x: i128, y: i128 },
    LineTo { x: i128, y: i128 },
    QuadraticTo { x1: i128, y1: i128, x: i128, y: i128 },
    CubicTo { x1: i128, y1: i128, x2: i128, y2: i128, x: i128, y: i128 },
    Close,
}

/// The writing direction of a layout.
#[derive(Clone, Copy, Debug, PartialEq, Eq, Structural)]
pub enum Direction {
    Horizontal,
    Vertical,
}

/// The map from glyph space to output space for one glyph, as numbers: a
/// uniform scale, a flip of the vertical axis, and an offset that depends
/// on the writing direction.
pub struct Placement {
    pub direction: Direction,
    pub scale: Scale,
    /// The cursor of a horizontal layout, the centre of the column of a
    /// vertical one.
    pub x: int,
    /// The baseline of a horizontal layout, the glyph's top in a vertical
    /// one.
    pub y: int,
    /// The advance by which a vertical layout centres the glyph.
    pub centering: int,
}

impl Placement {
    /// Where the glyph-space abscissa `x` lands: at the cursor plus the
    /// scaled abscissa in a horizontal layout; in a vertical one the glyph
    /// is centred on the column by half its own advance.
    pub open spec fn out_x(self, x: int) -> int {
        match self.direction {
            Direction::Horizontal => self.scale.of(x) + self.x,
            Direction::Vertical => self.x + (self.scale.of(x) - self.centering / 2),
        }
    }

    /// Where the glyph-space ordinate `y` lands: the font's axis points up,
    /// the output's down.
    pub open spec fn out_y(self, y: int) -> int {
        self.y - self.scale.of(y)
    }

    /// Whether `c` is the command that `segment` gives.
    pub open spec fn carries(self, segment: Segment, c: PathCommand) -> bool {
        match segment {
            Segment::MoveTo { x, y } => c is MoveTo && c->MoveTo_x == self.out_x(x as int)
                && c->MoveTo_y == self.out_y(y as int),
            Segment::LineTo { x, y } => c is LineTo && c->LineTo_x == self.out_x(x as int)
                && c->LineTo_y == self.out_y(y as int),
            Segment::QuadraticTo { x1, y1, x, y } => c is QuadraticTo && c->QuadraticTo_x1
                == self.out_x(x1 as int) && c->QuadraticTo_y1 == self.out_y(y1 as int)
                && c->QuadraticTo_x == self.out_x(x as int) && c->QuadraticTo_y == self.out_y(
                y as int,
            ),
            Segment::CubicTo { x1, y1, x2, y2, x, y } => c is CubicTo && c->CubicTo_x1
                == self.out_x(x1 as int) && c->CubicTo_y1 == self.out_y(y1 as int)
                && c->CubicTo_x2 == self.out_x(x2 as int) && c->CubicTo_y2 == self.out_y(
                y2 as int,
            ) && c->CubicTo_x == self.out_x(x as int) && c->CubicTo_y == self.out_y(y as int),
            Segment::Close => c is Close,
        }
    }

    /// The path data of one segment: the letter of its command, then the
    /// coordinates in output space.
    pub open spec fn segment_text(self, segment: Segment) -> Seq<char> {
        match segment {
            Segment::MoveTo { x, y } => "M"@ + point_text(self.out_x(x as int), self.out_y(y as int)),
            Segment::LineTo { x, y } => "L"@ + point_text(self.out_x(x as int), self.out_y(y as int)),
            Segment::QuadraticTo { x1, y1, x, y } => "Q"@ + point_text(
                self.out_x(x1 as int),
                self.out_y(y1 as int),
            ) + " "@ + point_text(self.out_x(x as int), self.out_y(y as int)),
            Segment::CubicTo { x1, y1, x2, y2, x, y } => "C"@ + point_text(
                self.out_x(x1 as int),
                self.out_y(y1 as int),
            ) + " "@ + point_text(self.out_x(x2 as int), self.out_y(y2 as int)) + " "@ + point_text(
                self.out_x(x as int),
                self.out_y(y as int),
            ),
            Segment::Close => "Z"@,
        }
    }
}

/// A placement that the machine holds: its offsets are bounded.
#[derive(Clone, Copy, Debug)]
pub struct Transform {
    direction: Direction,
    scale: Scale,
    anchor_x: i128,
    anchor_y: i128,
    hor_advance: i128,
}

impl View for Transform {
    type V = Placement;

    closed spec fn view(&self) -> Placement {
        Placement {
            direction: self.direction,
            scale: self.scale,
            x: self.anchor_x as int,
            y: self.anchor_y as int,
            centering: self.hor_advance as int,
        }
    }
}

impl Transform {
    #[verifier::type_invariant]
    pub closed spec fn bounded(self) -> bool {
        &&& -OFFSET_LIMIT <= self.anchor_x <= OFFSET_LIMIT
        &&& -OFFSET_LIMIT <= self.anchor_y <= OFFSET_LIMIT
        &&& 0 <= self.hor_advance <= LENGTH_LIMIT
    }

    /// Whether both offsets are within the limit that a transform holds.
    pub open spec fn within_limit(x: int, y: int) -> bool {
        -OFFSET_LIMIT <= x <= OFFSET_LIMIT && -OFFSET_LIMIT <= y <= OFFSET_LIMIT
    }

    /// The transform of a horizontal layout for a glyph at `cursor_x` on
    /// the baseline `baseline_y`; none where an offset is beyond the limit.
    pub fn horizontal(scale: Scale, cursor_x: i128, baseline_y: i128) -> (r: Option<Transform>)
        ensures
            r is Some <==> Self::within_limit(cursor_x as int, baseline_y as int),
            r is Some ==> r->0@ == (Placement {
                direction: Direction::Horizontal,
                scale,
                x: cursor_x as int,
                y: baseline_y as int,
                centering: 0,
            }),
    {
        if -OFFSET_LIMIT <= cursor_x && cursor_x <= OFFSET_LIMIT && -OFFSET_LIMIT <= baseline_y
            && baseline_y <= OFFSET_LIMIT {
            Some(
                Transform {
                    direction: Direction::Horizontal,
                    scale,
                    anchor_x: cursor_x,
                    anchor_y: baseline_y,
                    hor_advance: 0,
                },
            )
        } else {
            None
        }
    }

    /// The transform of a vertical layout for a glyph of horizontal advance
    /// `hor_advance` in the column centred on `column_center_x`, with its
    /// vertical origin at `glyph_top_y`; none where an offset is beyond the
    /// limit, or the advance is negative or beyond the limit of a length.
    pub fn vertical(
        scale: Scale,
        column_center_x: i128,
        glyph_top_y: i128,
        hor_advance: i128,
    ) -> (r: Option<Transform>)
        ensures
            r is Some <==> Self::within_limit(column_center_x as int, glyph_top_y as int) && 0
                <= hor_advance <= LENGTH_LIMIT,
            r is Some ==> r->0@ == (Placement {
                direction: Direction::Vertical,
                scale,
                x: column_center_x as int,
                y: glyph_top_y as int,
                centering: hor_advance as int,
            }),
    {
        if -OFFSET_LIMIT <= column_center_x && column_center_x <= OFFSET_LIMIT && -OFFSET_LIMIT
            <= glyph_top_y && glyph_top_y <= OFFSET_LIMIT && 0 <= hor_advance && hor_advance
            <= LENGTH_LIMIT {
            Some(
                Transform {
                    direction: Direction::Vertical,
                    scale,
                    anchor_x: column_center_x,
                    anchor_y: glyph_top_y,
                    hor_advance,
                },
            )
        } else {
            None
        }
    }

    /// The output abscissa of the glyph-space abscissa `x`.
    pub fn transform_x(&self, x: i32) -> (r: i128)
        ensures
            r == self@.out_x(x as int),
    {
        proof {
            use_type_invariant(self);
        }
        let sx: i128 = self.scale.apply(x);
        match self.direction {
            Direction::Horizontal => sx + self.anchor_x,
            Direction::Vertical => self.anchor_x + (sx - self.hor_advance / 2),
        }
    }

    /// The output ordinate of the glyph-space ordinate `y`.
    pub fn transform_y(&self, y: i32) -> (r: i128)
        ensures
            r == self@.out_y(y as int),
    {
        proof {
            use_type_invariant(self);
        }
        self.anchor_y - self.scale.apply(y)
    }

    /// Carries one segment of an outline into output space.
    pub fn apply(&self, segment: &Segment) -> (c: PathCommand)
        ensures
            self@.carries(*segment, c),
            command_text(c) == self@.segment_text(*segment),
    {
        match *segment {
            Segment::MoveTo { x, y } => PathCommand::MoveTo {
                x: self.transform_x(x),
                y: self.transform_y(y),
            },
            Segment::LineTo { x, y } => PathCommand::LineTo {
                x: self.transform_x(x),
                y: self.transform_y(y),
            },
            Segment::QuadraticTo { x1, y1, x, y } => PathCommand::QuadraticTo {
                x1: self.transform_x(x1),
                y1: self.transform_y(y1),
                x: self.transform_x(x),
                y: self.transform_y(y),
            },
            Segment::CubicTo { x1, y1, x2, y2, x, y } => PathCommand::CubicTo {
                x1: self.transform_x(x1),
                y1: self.transform_y(y1),
                x2: self.transform_x(x2),
                y2: self.transform_y(y2),
                x: self.transform_x(x),
                y: self.transform_y(y),
            },
            Segment::Close => PathCommand::Close,
        }
    }
}

/// A pair of coordinates as path data writes it.
pub open spec fn point_text(x: int, y: int) -> Seq<char> {
    two_decimals(x) + " "@ + two_decimals(y)
}

/// One command as path data writes it: its letter, then its coordinates
/// with two decimals, separated by spaces.
pub open spec fn command_text(c: PathCommand) -> Seq<char> {
    match c {
        PathCommand::MoveTo { x, y } => "M"@ + point_text(x as int, y as int),
        PathCommand::LineTo { x, y } => "L"@ + point_text(x as int, y as int),
        PathCommand::QuadraticTo { x1, y1, x, y } => "Q"@ + point_text(x1 as int, y1 as int) + " "@
            + point_text(x as int, y as int),
        PathCommand::CubicTo { x1, y1, x2, y2, x, y } => "C"@ + point_text(x1 as int, y1 as int)
            + " "@ + point_text(x2 as int, y2 as int) + " "@ + point_text(x as int, y as int),
        PathCommand::Close => "Z"@,
    }
}

/// The path data of an outline under a transform: the text of each
/// segment's command in the outline's order, with nothing between them.
pub open spec fn path_text(p: Placement, outline: Seq<Segment>) -> Seq<char>
    decreases outline.len(),
{
    if outline.len() == 0 {
        Seq::empty()
    } else {
        path_text(p, outline.drop_last()) + p.segment_text(outline.last())
    }
}

fn push_point(out: &mut String, x: i128, y: i128)
    ensures
        final(out)@ == old(out)@ + point_text(x as int, y as int),
{
    push_two_decimals(out, x);
    out.append(" ");
    push_two_decimals(out, y);
    assert(final(out)@ =~= old(out)@ + point_text(x as int, y as int));
}

/// Appends one command to path data.
pub fn push_command(out: &mut String, c: &PathCommand)
    ensures
        final(out)@ == old(out)@ + command_text(*c),
{
    match *c {
        PathCommand::MoveTo { x, y } => {
            out.append("M");
            push_point(out, x, y);
        },
        PathCommand::LineTo { x, y } => {
            out.append("L");
            push_point(out, x, y);
        },
        PathCommand::QuadraticTo { x1, y1, x, y } => {
            out.append("Q");
            push_point(out, x1, y1);
            out.append(" ");
            push_point(out, x, y);
        },
        PathCommand::CubicTo { x1, y1, x2, y2, x, y } => {
            out.append("C");
            push_point(out, x1, y1);
            out.append(" ");
            push_point(out, x2, y2);
            out.append(" ");
            push_point(out, x, y);
        },
        PathCommand::Close => {
            out.append("Z");
        },
    }
    assert(final(out)@ =~= old(out)@ + command_text(*c));
}

/// Walks an outline in its order and gives its path data under `t`. An
/// outline without segments gives the empty string.
pub fn path_data(t: &Transform, outline: &Vec<Segment>) -> (path: String)
    ensures
        path@ == path_text(t@, outline@),
{
    let mut path = String::new();
    let mut i: usize = 0;
    while i < outline.len()
        invariant
            i <= outline.len(),
            path@ == path_text(t@, outline@.take(i as int)),
        decreases outline.len() - i,
    {
        let c = t.apply(&outline[i]);
        push_command(&mut path, &c);
        proof {
            assert(outline@.take(i + 1).drop_last() =~= outline@.take(i as int));
        }
        i += 1;
    }
    proof {
        assert(outline@.take(i as int) =~= outline@);
    }
    path
}

/// How often `c` stands in `s`.
pub open spec fn occurrences(s: Seq<char>, c: char) -> nat
    decreases s.len(),
{
    if s.len() == 0 {
        0
    } else {
        occurrences(s.drop_last(), c) + if s.last() == c {
            1nat
        } else {
            0nat
        }
    }
}

/// How many subpaths an outline starts.
pub open spec fn moves(outline: Seq<Segment>) -> nat
    decreases outline.len(),
{
    if outline.len() == 0 {
        0
    } else {
        moves(outline.drop_last()) + if outline.last() is MoveTo {
            1nat
        } else {
            0nat
        }
    }
}

/// How many subpaths an outline closes.
pub open spec fn closes(outline: Seq<Segment>) -> nat
    decreases outline.len(),
{
    if outline.len() == 0 {
        0
    } else {
        closes(outline.drop_last()) + if outline.last() is Close {
            1nat
        } else {
            0nat
        }
    }
}

/// What stands in two texts in a row stands in one of them.
pub proof fn occurrences_of_sum(a: Seq<char>, b: Seq<char>, c: char)
    ensures
        occurrences(a + b, c) == occurrences(a, c) + occurrences(b, c),
    decreases b.len(),
{
    if b.len() == 0 {
        assert(a + b =~= a);
    } else {
        assert((a + b).drop_last() =~= a + b.drop_last());
        occurrences_of_sum(a, b.drop_last(), c);
    }
}

/// A single character holds itself once and no other.
pub proof fn occurrences_of_one(x: char, c: char)
    ensures
        occurrences(seq![x], c) == if x == c {
            1nat
        } else {
            0nat
        },
{
    assert(seq![x].drop_last() =~= Seq::<char>::empty());
    assert(occurrences(Seq::<char>::empty(), c) == 0);
    assert(seq![x].last() == x);
}

proof fn no_letter_in_decimal(n: nat, c: char)
    requires
        c == 'M' || c == 'Z' || c == '=',
    ensures
        occurrences(crate::text::decimal(n), c) == 0,
    decreases n,
{
    if n < 10 {
        occurrences_of_one(crate::text::digit_char(n as int), c);
    } else {
        no_letter_in_decimal(n / 10, c);
        occurrences_of_one(crate::text::digit_char((n % 10) as int), c);
        occurrences_of_sum(
            crate::text::decimal(n / 10),
            seq![crate::text::digit_char((n % 10) as int)],
            c,
        );
    }
}

proof fn no_letter_in_point(x: int, y: int, c: char)
    requires
        c == 'M' || c == 'Z' || c == '=',
    ensures
        occurrences(point_text(x, y), c) == 0,
{
    reveal_strlit(" ");
    assert(" "@ =~= seq![' ']);
    occurrences_of_one(' ', c);
    no_letter_in_number(x, c);
    no_letter_in_number(y, c);
    occurrences_of_sum(two_decimals(x), " "@, c);
    occurrences_of_sum(two_decimals(x) + " "@, two_decimals(y), c);
}

proof fn no_letter_in_number(v: int, c: char)
    requires
        c == 'M' || c == 'Z' || c == '=',
    ensures
        occurrences(two_decimals(v), c) == 0,
{
    let m = crate::text::magnitude(v);
    let whole = crate::text::decimal(m / 100);
    let d1 = crate::text::digit_char((m / 10 % 10) as int);
    let d2 = crate::text::digit_char((m % 10) as int);
    let tail = seq!['.', d1, d2];
    assert(tail =~= seq!['.'] + seq![d1] + seq![d2]);
    occurrences_of_one('.', c);
    occurrences_of_one(d1, c);
    occurrences_of_one(d2, c);
    occurrences_of_sum(seq!['.'], seq![d1], c);
    occurrences_of_sum(seq!['.'] + seq![d1], seq![d2], c);
    no_letter_in_decimal(m / 100, c);
    if v < 0 {
        occurrences_of_one('-', c);
    }
    occurrences_of_sum(crate::text::sign(v), whole, c);
    occurrences_of_sum(crate::text::sign(v) + whole, tail, c);
}

proof fn letters_of_segment(p: Placement, segment: Segment, c: char)
    requires
        c == 'M' || c == 'Z' || c == '=',
    ensures
        occurrences(p.segment_text(segment), c) == if (c == 'M' && segment is MoveTo) || (c == 'Z'
            && segment is Close) {
            1nat
        } else {
            0nat
        },
        p.segment_text(segment).len() > 0,
        segment is MoveTo ==> p.segment_text(segment)[0] == 'M',
{
    reveal_strlit("M");
    reveal_strlit("L");
    reveal_strlit("Q");
    reveal_strlit("C");
    reveal_strlit("Z");
    reveal_strlit(" ");
    assert("M"@ =~= seq!['M']);
    assert("L"@ =~= seq!['L']);
    assert("Q"@ =~= seq!['Q']);
    assert("C"@ =~= seq!['C']);
    assert("Z"@ =~= seq!['Z']);
    assert(" "@ =~= seq![' ']);
    occurrences_of_one('M', c);
    occurrences_of_one('L', c);
    occurrences_of_one('Q', c);
    occurrences_of_one('C', c);
    occurrences_of_one('Z', c);
    occurrences_of_one(' ', c);
    match segment {
        Segment::MoveTo { x, y } => {
            let a = point_text(p.out_x(x as int), p.out_y(y as int));
            no_letter_in_point(p.out_x(x as int), p.out_y(y as int), c);
            occurrences_of_sum("M"@, a, c);
        },
        Segment::LineTo { x, y } => {
            let a = point_text(p.out_x(x as int), p.out_y(y as int));
            no_letter_in_point(p.out_x(x as int), p.out_y(y as int), c);
            occurrences_of_sum("L"@, a, c);
        },
        Segment::QuadraticTo { x1, y1, x, y } => {
            let a = point_text(p.out_x(x1 as int), p.out_y(y1 as int));
            let b = point_text(p.out_x(x as int), p.out_y(y as int));
            no_letter_in_point(p.out_x(x1 as int), p.out_y(y1 as int), c);
            no_letter_in_point(p.out_x(x as int), p.out_y(y as int), c);
            occurrences_of_sum("Q"@, a, c);
            occurrences_of_sum("Q"@ + a, " "@, c);
            occurrences_of_sum("Q"@ + a + " "@, b, c);
        },
        Segment::CubicTo { x1, y1, x2, y2, x, y } => {
            let a = point_text(p.out_x(x1 as int), p.out_y(y1 as int));
            let b = point_text(p.out_x(x2 as int), p.out_y(y2 as int));
            let d = point_text(p.out_x(x as int), p.out_y(y as int));
            no_letter_in_point(p.out_x(x1 as int), p.out_y(y1 as int), c);
            no_letter_in_point(p.out_x(x2 as int), p.out_y(y2 as int), c);
            no_letter_in_point(p.out_x(x as int), p.out_y(y as int), c);
            occurrences_of_sum("C"@, a, c);
            occurrences_of_sum("C"@ + a, " "@, c);
            occurrences_of_sum("C"@ + a + " "@, b, c);
            occurrences_of_sum("C"@ + a + " "@ + b, " "@, c);
            occurrences_of_sum("C"@ + a + " "@ + b + " "@, d, c);
        },
        Segment::Close => {},
    }
}

/// Path data keeps the subpaths of its outline: it starts as many as the
/// outline starts and closes as many as the outline closes, so that it
/// closes every subpath where the outline does; and where the outline
/// begins with a move, the path data begins with the letter of a move.
/// No equals sign stands in path data.
pub proof fn path_keeps_subpaths(p: Placement, outline: Seq<Segment>)
    ensures
        occurrences(path_text(p, outline), 'M') == moves(outline),
        occurrences(path_text(p, outline), 'Z') == closes(outline),
        occurrences(path_text(p, outline), '=') == 0,
        outline.len() > 0 ==> path_text(p, outline).len() > 0,
        outline.len() > 0 && outline[0] is MoveTo ==> path_text(p, outline)[0] == 'M',
    decreases outline.len(),
{
    if outline.len() > 0 {
        let rest = outline.drop_last();
        path_keeps_subpaths(p, rest);
        letters_of_segment(p, outline.last(), 'M');
        letters_of_segment(p, outline.last(), 'Z');
        letters_of_segment(p, outline.last(), '=');
        occurrences_of_sum(path_text(p, rest), p.segment_text(outline.last()), 'M');
        occurrences_of_sum(path_text(p, rest), p.segment_text(outline.last()), 'Z');
        occurrences_of_sum(path_text(p, rest), p.segment_text(outline.last()), '=');
    }
}

} // verus!
