//! Scaling of font units to output lengths, and the fallback chain that
//! resolves the metrics of one glyph.

use vstd::prelude::*;

verus! {

/// No scaled length is further from zero than this many hundredths.
pub const LENGTH_LIMIT: i128 = 0x2000_0000_0000_0000;

/// The smallest number of units per em that a font may declare.
pub const MIN_UNITS_PER_EM: u16 = 16;

/// The largest number of units per em that a font may declare.
pub const MAX_UNITS_PER_EM: u16 = 16384;

/// `v` font units at `font_size` hundredths per em and `units_per_em` font
/// units per em, in hundredths, rounded to the nearest with halves away from
/// zero.
pub open spec fn scaled(font_size: int, units_per_em: int, v: int) -> int {
    if v < 0 {
        -((2 * (-v) * font_size + units_per_em) / (2 * units_per_em))
    } else {
        (2 * v * font_size + units_per_em) / (2 * units_per_em)
    }
}

/// The factor from font units to output lengths: the requested font size
/// over the face's units per em.
#[derive(Clone, Copy, Debug)]
pub struct Scale {
    font_size: u32,
    units_per_em: u16,
}

impl Scale {
    #[verifier::type_invariant]
    pub closed spec fn valid(self) -> bool {
        MIN_UNITS_PER_EM <= self.units_per_em <= MAX_UNITS_PER_EM
    }

    /// The font size, in hundredths of an output unit.
    pub closed spec fn size(self) -> int {
        self.font_size as int
    }

    /// The face's units per em.
    pub closed spec fn em(self) -> int {
        self.units_per_em as int
    }

    /// `v` font units as an output length.
    pub open spec fn of(self, v: int) -> int {
        scaled(self.size(), self.em(), v)
    }

    /// A scale for `font_size` hundredths of an output unit per em; none
    /// where `units_per_em` is outside the range that a font may declare.
    pub fn new(font_size: u32, units_per_em: u16) -> (r: Option<Scale>)
        ensures
            r is Some <==> MIN_UNITS_PER_EM <= units_per_em <= MAX_UNITS_PER_EM,
            r is Some ==> r->0.size() == font_size && r->0.em() == units_per_em,
    {
        if MIN_UNITS_PER_EM <= units_per_em && units_per_em <= MAX_UNITS_PER_EM {
            Some(Scale { font_size, units_per_em })
        } else {
            None
        }
    }

    /// The font size, in hundredths of an output unit.
    pub fn font_size(&self) -> (r: u32)
        ensures
            r == self.size(),
    {
        self.font_size
    }

    /// The face's units per em.
    pub fn units_per_em(&self) -> (r: u16)
        ensures
            r == self.em(),
            MIN_UNITS_PER_EM <= r <= MAX_UNITS_PER_EM,
    {
        proof {
            use_type_invariant(self);
        }
        self.units_per_em
    }

    /// Scales `v` font units to hundredths of an output unit.
    pub fn apply(&self, v: i32) -> (r: i128)
        ensures
            r == self.of(v as int),
            -LENGTH_LIMIT <= r <= LENGTH_LIMIT,
            v >= 0 ==> r >= 0,
    {
        proof {
            use_type_invariant(self);
        }
        let m: i128 = if v < 0 {
            -(v as i128)
        } else {
            v as i128
        };
        let f: i128 = self.font_size as i128;
        let d: i128 = 2 * (self.units_per_em as i128);
        assert(0 <= m * f <= 0x8000_0000 * 0x1_0000_0000) by (nonlinear_arith)
            requires
                0 <= m <= 0x8000_0000,
                0 <= f <= 0x1_0000_0000,
        ;
        let n: i128 = 2 * (m * f) + (self.units_per_em as i128);
        let q: i128 = n / d;
        assert(0 <= q && q * 32 <= n) by (nonlinear_arith)
            requires
                q == n / d,
                n >= 0,
                d >= 32,
        ;
        assert(2 * (m * f) == 2 * m * f) by (nonlinear_arith);
        if v < 0 {
            -q
        } else {
            q
        }
    }
}

/// The bounding box of a glyph's outline, in font units.
#[derive(Clone, Copy, Debug, PartialEq, Eq, Structural)]
pub struct BoundingBox {
    pub x_min: i16,
    pub y_min: i16,
    pub x_max: i16,
    pub y_max: i16,
}

/// What a font's tables hold for one glyph, in font units. A table that the
/// font lacks, or that has no entry for the glyph, gives `None`.
#[derive(Clone, Copy, Debug, PartialEq, Eq, Structural)]
pub struct RawMetrics {
    pub hor_advance: Option<u16>,
    pub ver_advance: Option<u16>,
    pub ver_origin: Option<i16>,
    pub ver_side_bearing: Option<i16>,
    pub bounding_box: Option<BoundingBox>,
}

/// The horizontal advance: the font's value, or zero where it has none.
pub open spec fn hor_advance_of(scale: Scale, raw: RawMetrics) -> int {
    match raw.hor_advance {
        Some(a) => scale.of(a as int),
        None => 0,
    }
}

/// The vertical advance: the distance that shaping reports, which comes as
/// a negative number for downward motion, where it is not zero; else the
/// font's own vertical advance; else the font size.
pub open spec fn ver_advance_of(scale: Scale, raw: RawMetrics, shaped: int) -> int {
    if shaped != 0 {
        -scale.of(shaped)
    } else {
        match raw.ver_advance {
            Some(a) => scale.of(a as int),
            None => scale.size(),
        }
    }
}

/// The vertical origin: the font's explicit value; else the top of the
/// bounding box plus the top side bearing; else the face's ascender.
pub open spec fn ver_origin_of(scale: Scale, raw: RawMetrics, ascender: int) -> int {
    match raw.ver_origin {
        Some(y) => scale.of(y as int),
        None => match raw.bounding_box {
            Some(b) => scale.of(
                b.y_max + (match raw.ver_side_bearing {
                    Some(t) => t as int,
                    None => 0,
                }),
            ),
            None => scale.of(ascender),
        },
    }
}

/// The glyph's height: top of the bounding box minus its bottom; else the
/// font size.
pub open spec fn height_of(scale: Scale, raw: RawMetrics) -> int {
    match raw.bounding_box {
        Some(b) => scale.of(b.y_max - b.y_min),
        None => scale.size(),
    }
}

/// One glyph with its resolved metrics, in hundredths of an output unit.
#[derive(Clone, Copy, Debug)]
pub struct PositionedGlyph {
    glyph_id: Option<u16>,
    ch: char,
    whitespace: bool,
    hor_advance: i128,
    ver_advance: i128,
    ver_origin: i128,
    height: i128,
}

impl PositionedGlyph {
    #[verifier::type_invariant]
    pub closed spec fn bounded(self) -> bool {
        &&& 0 <= self.hor_advance <= LENGTH_LIMIT
        &&& -LENGTH_LIMIT <= self.ver_advance <= LENGTH_LIMIT
        &&& -LENGTH_LIMIT <= self.ver_origin <= LENGTH_LIMIT
        &&& -LENGTH_LIMIT <= self.height <= LENGTH_LIMIT
    }

    /// The glyph's identifier; none where the font maps no glyph to the
    /// character.
    pub closed spec fn id(self) -> Option<u16> {
        self.glyph_id
    }

    /// The source character.
    pub closed spec fn character(self) -> char {
        self.ch
    }

    /// Whether the source character is whitespace.
    pub closed spec fn blank(self) -> bool {
        self.whitespace
    }

    /// The resolved horizontal advance.
    pub closed spec fn advance_x(self) -> int {
        self.hor_advance as int
    }

    /// The resolved vertical advance.
    pub closed spec fn advance_y(self) -> int {
        self.ver_advance as int
    }

    /// The resolved vertical origin.
    pub closed spec fn origin_y(self) -> int {
        self.ver_origin as int
    }

    /// The resolved height.
    pub closed spec fn extent_y(self) -> int {
        self.height as int
    }

    /// Whether these are the metrics of glyph `glyph_id`, which stands for
    /// `ch`, resolved from `raw`, the face's ascender and the advance that
    /// shaping reported.
    pub open spec fn resolves(
        self,
        scale: Scale,
        glyph_id: u16,
        ch: char,
        whitespace: bool,
        raw: RawMetrics,
        ascender: int,
        shaped_advance: int,
    ) -> bool {
        &&& self.id() == Some(glyph_id)
        &&& self.character() == ch
        &&& self.blank() == whitespace
        &&& self.advance_x() == hor_advance_of(scale, raw)
        &&& self.advance_y() == ver_advance_of(scale, raw, shaped_advance)
        &&& self.origin_y() == ver_origin_of(scale, raw, ascender)
        &&& self.extent_y() == height_of(scale, raw)
    }

    /// Whether this is the entry of a character to which the font maps no
    /// glyph.
    pub open spec fn is_unmapped(self, ch: char, whitespace: bool) -> bool {
        &&& self.id() is None
        &&& self.character() == ch
        &&& self.blank() == whitespace
        &&& self.advance_x() == 0
        &&& self.advance_y() == 0
        &&& self.origin_y() == 0
        &&& self.extent_y() == 0
    }

    /// The metrics of glyph `glyph_id`, which stands for `ch`, resolved
    /// from what the font holds for it, the face's ascender and the advance
    /// that shaping reported (zero where there was no shaping).
    /// `whitespace` says whether `ch` is whitespace.
    pub fn resolve(
        scale: &Scale,
        glyph_id: u16,
        ch: char,
        whitespace: bool,
        raw: &RawMetrics,
        ascender: i16,
        shaped_advance: i32,
    ) -> (g: PositionedGlyph)
        ensures
            g.resolves(
                *scale,
                glyph_id,
                ch,
                whitespace,
                *raw,
                ascender as int,
                shaped_advance as int,
            ),
    {
        let size: i128 = scale.font_size() as i128;
        let hor_advance: i128 = match raw.hor_advance {
            Some(a) => scale.apply(a as i32),
            None => 0,
        };
        let ver_advance: i128 = if shaped_advance != 0 {
            -scale.apply(shaped_advance)
        } else {
            match raw.ver_advance {
                Some(a) => scale.apply(a as i32),
                None => size,
            }
        };
        let ver_origin: i128 = match raw.ver_origin {
            Some(y) => scale.apply(y as i32),
            None => match raw.bounding_box {
                Some(b) => {
                    let bearing: i32 = match raw.ver_side_bearing {
                        Some(t) => t as i32,
                        None => 0,
                    };
                    scale.apply(b.y_max as i32 + bearing)
                },
                None => scale.apply(ascender as i32),
            },
        };
        let height: i128 = match raw.bounding_box {
            Some(b) => scale.apply(b.y_max as i32 - b.y_min as i32),
            None => size,
        };
        PositionedGlyph {
            glyph_id: Some(glyph_id),
            ch,
            whitespace,
            hor_advance,
            ver_advance,
            ver_origin,
            height,
        }
    }

    /// The entry for a character to which the font maps no glyph: it
    /// advances by nothing.
    pub fn unmapped(ch: char, whitespace: bool) -> (g: PositionedGlyph)
        ensures
            g.is_unmapped(ch, whitespace),
    {
        PositionedGlyph {
            glyph_id: None,
            ch,
            whitespace,
            hor_advance: 0,
            ver_advance: 0,
            ver_origin: 0,
            height: 0,
        }
    }

    /// The glyph's identifier; none for an unmapped character.
    pub fn glyph_id(&self) -> (r: Option<u16>)
        ensures
            r == self.id(),
    {
        self.glyph_id
    }

    /// The source character.
    pub fn ch(&self) -> (r: char)
        ensures
            r == self.character(),
    {
        self.ch
    }

    /// Whether the source character is whitespace.
    pub fn is_whitespace(&self) -> (r: bool)
        ensures
            r == self.blank(),
    {
        self.whitespace
    }

    /// The resolved horizontal advance, which is never negative.
    pub fn hor_advance(&self) -> (r: i128)
        ensures
            r == self.advance_x(),
            0 <= r <= LENGTH_LIMIT,
    {
        proof {
            use_type_invariant(self);
        }
        self.hor_advance
    }

    /// The resolved vertical advance.
    pub fn ver_advance(&self) -> (r: i128)
        ensures
            r == self.advance_y(),
            -LENGTH_LIMIT <= r <= LENGTH_LIMIT,
    {
        proof {
            use_type_invariant(self);
        }
        self.ver_advance
    }

    /// The resolved vertical origin.
    pub fn ver_origin(&self) -> (r: i128)
        ensures
            r == self.origin_y(),
            -LENGTH_LIMIT <= r <= LENGTH_LIMIT,
    {
        proof {
            use_type_invariant(self);
        }
        self.ver_origin
    }

    /// The resolved height.
    pub fn height(&self) -> (r: i128)
        ensures
            r == self.extent_y(),
            -LENGTH_LIMIT <= r <= LENGTH_LIMIT,
    {
        proof {
            use_type_invariant(self);
        }
        self.height
    }
}

} // verus!
