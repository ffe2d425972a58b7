use glyph_typeset::document::PlacedGlyph;
use glyph_typeset::font::{glyph_metrics, scale_for};
use glyph_typeset::horizontal::{plan_horizontal, plan_horizontal_line};
use glyph_typeset::metrics::{BoundingBox, Scale};
use glyph_typeset::outline::{Direction, Segment};
use glyph_typeset::style::ExportMode;
use glyph_typeset::vertical::{plan_column, plan_vertical};
use glyph_typeset::{
    generate_svg, parse_font, plan_layout, GenerateError, Layout, LayoutRequest,
};

fn be16(out: &mut Vec<u8>, v: u16) {
    out.extend_from_slice(&v.to_be_bytes());
}

fn bei16(out: &mut Vec<u8>, v: i16) {
    out.extend_from_slice(&v.to_be_bytes());
}

fn be32(out: &mut Vec<u8>, v: u32) {
    out.extend_from_slice(&v.to_be_bytes());
}

fn simple_glyph(points: &[(i16, i16)], bbox: (i16, i16, i16, i16)) -> Vec<u8> {
    let mut g = Vec::new();
    bei16(&mut g, 1);
    bei16(&mut g, bbox.0);
    bei16(&mut g, bbox.1);
    bei16(&mut g, bbox.2);
    bei16(&mut g, bbox.3);
    be16(&mut g, (points.len() - 1) as u16);
    be16(&mut g, 0);
    for _ in points {
        g.push(0x01);
    }
    let mut last = 0i16;
    for p in points {
        bei16(&mut g, p.0 - last);
        last = p.0;
    }
    last = 0;
    for p in points {
        bei16(&mut g, p.1 - last);
        last = p.1;
    }
    while g.len() % 4 != 0 {
        g.push(0);
    }
    g
}

/// A font of 1000 units per em with four glyphs: 0 is empty, 1 is a
/// triangle for `A`, 2 is empty for the space, 3 is a square for `B`.
fn test_font() -> Vec<u8> {
    build_font(false)
}

/// The same font with vertical metrics: every glyph advances by 1100 font
/// units and has a top side bearing of 40.
fn upright_font() -> Vec<u8> {
    build_font(true)
}

fn build_font(vertical_metrics: bool) -> Vec<u8> {
    let mut head = Vec::new();
    be32(&mut head, 0x0001_0000);
    be32(&mut head, 0x0001_0000);
    be32(&mut head, 0);
    be32(&mut head, 0x5F0F_3CF5);
    be16(&mut head, 0);
    be16(&mut head, 1000);
    head.extend_from_slice(&[0u8; 16]);
    bei16(&mut head, 0);
    bei16(&mut head, 0);
    bei16(&mut head, 900);
    bei16(&mut head, 700);
    be16(&mut head, 0);
    be16(&mut head, 8);
    bei16(&mut head, 2);
    bei16(&mut head, 0);
    bei16(&mut head, 0);

    let mut hhea = Vec::new();
    be32(&mut hhea, 0x0001_0000);
    bei16(&mut hhea, 800);
    bei16(&mut hhea, -200);
    bei16(&mut hhea, 0);
    be16(&mut hhea, 1000);
    hhea.extend_from_slice(&[0u8; 22]);
    be16(&mut hhea, 4);

    let mut maxp = Vec::new();
    be32(&mut maxp, 0x0000_5000);
    be16(&mut maxp, 4);

    let mut hmtx = Vec::new();
    for advance in [500u16, 600, 250, 1000] {
        be16(&mut hmtx, advance);
        bei16(&mut hmtx, 0);
    }

    let mut cmap = Vec::new();
    be16(&mut cmap, 0);
    be16(&mut cmap, 1);
    be16(&mut cmap, 0);
    be16(&mut cmap, 4);
    be32(&mut cmap, 12);
    be16(&mut cmap, 12);
    be16(&mut cmap, 0);
    be32(&mut cmap, 16 + 3 * 12);
    be32(&mut cmap, 0);
    be32(&mut cmap, 3);
    for (code, glyph) in [(0x20u32, 2u32), (0x41, 1), (0x42, 3)] {
        be32(&mut cmap, code);
        be32(&mut cmap, code);
        be32(&mut cmap, glyph);
    }

    let triangle = simple_glyph(&[(0, 0), (300, 700), (600, 0)], (0, 0, 600, 700));
    let square = simple_glyph(&[(0, 0), (0, 700), (900, 700), (900, 0)], (0, 0, 900, 700));
    let mut loca = Vec::new();
    be16(&mut loca, 0);
    be16(&mut loca, 0);
    be16(&mut loca, (triangle.len() / 2) as u16);
    be16(&mut loca, (triangle.len() / 2) as u16);
    be16(&mut loca, ((triangle.len() + square.len()) / 2) as u16);
    let mut glyf = triangle;
    glyf.extend(square);

    let mut vhea = Vec::new();
    be32(&mut vhea, 0x0001_0000);
    bei16(&mut vhea, 500);
    bei16(&mut vhea, -500);
    bei16(&mut vhea, 0);
    be16(&mut vhea, 1100);
    vhea.extend_from_slice(&[0u8; 22]);
    be16(&mut vhea, 4);

    let mut vmtx = Vec::new();
    for _ in 0..4 {
        be16(&mut vmtx, 1100);
        bei16(&mut vmtx, 40);
    }

    let mut tables: Vec<(&[u8; 4], Vec<u8>)> = vec![
        (b"cmap", cmap),
        (b"glyf", glyf),
        (b"head", head),
        (b"hhea", hhea),
        (b"hmtx", hmtx),
        (b"loca", loca),
        (b"maxp", maxp),
    ];
    if vertical_metrics {
        tables.push((b"vhea", vhea));
        tables.push((b"vmtx", vmtx));
    }
    let mut font = Vec::new();
    be32(&mut font, 0x0001_0000);
    be16(&mut font, tables.len() as u16);
    be16(&mut font, 64);
    be16(&mut font, 2);
    be16(&mut font, (tables.len() * 16 - 64) as u16);
    assert!(tables.len() >= 4);
    let mut offset = 12 + tables.len() * 16;
    let mut body = Vec::new();
    for (tag, data) in &tables {
        font.extend_from_slice(&tag[..]);
        be32(&mut font, 0);
        be32(&mut font, offset as u32);
        be32(&mut font, data.len() as u32);
        body.extend_from_slice(data);
        while body.len() % 4 != 0 {
            body.push(0);
        }
        offset = 12 + tables.len() * 16 + body.len();
    }
    font.extend(body);
    font
}

struct Collector {
    segments: Vec<Segment>,
}

impl ttf_parser::OutlineBuilder for Collector {
    fn move_to(&mut self, x: f32, y: f32) {
        self.segments.push(Segment::MoveTo { x: x.round() as i32, y: y.round() as i32 });
    }

    fn line_to(&mut self, x: f32, y: f32) {
        self.segments.push(Segment::LineTo { x: x.round() as i32, y: y.round() as i32 });
    }

    fn quad_to(&mut self, x1: f32, y1: f32, x: f32, y: f32) {
        self.segments.push(Segment::QuadraticTo {
            x1: x1.round() as i32,
            y1: y1.round() as i32,
            x: x.round() as i32,
            y: y.round() as i32,
        });
    }

    fn curve_to(&mut self, x1: f32, y1: f32, x2: f32, y2: f32, x: f32, y: f32) {
        self.segments.push(Segment::CubicTo {
            x1: x1.round() as i32,
            y1: y1.round() as i32,
            x2: x2.round() as i32,
            y2: y2.round() as i32,
            x: x.round() as i32,
            y: y.round() as i32,
        });
    }

    fn close(&mut self) {
        self.segments.push(Segment::Close);
    }
}

fn attach_outlines(face: &ttf_parser::Face<'_>, layout: &mut Layout) {
    for line in layout.lines.iter_mut() {
        for placed in line.iter_mut() {
            if let Some(id) = placed.glyph.glyph_id() {
                let mut collector = Collector { segments: Vec::new() };
                face.outline_glyph(ttf_parser::GlyphId(id), &mut collector);
                placed.outline = collector.segments;
            }
        }
    }
}

fn request(text: &str, direction: Direction) -> LayoutRequest {
    LayoutRequest {
        text: text.to_string(),
        font_size: 10000,
        text_color: "#000000".to_string(),
        stroke_layers: Vec::new(),
        export_mode: ExportMode::Fill,
        direction,
    }
}

fn ids(line: &Vec<PlacedGlyph>) -> Vec<Option<u16>> {
    line.iter().map(|g| g.glyph.glyph_id()).collect()
}

#[test]
fn test_font_parses() {
    let data = test_font();
    let face = ttf_parser::Face::parse(&data, 0).unwrap();
    assert_eq!(face.units_per_em(), 1000);
    assert_eq!(face.number_of_glyphs(), 4);
}

#[test]
fn parse_font_accepts_a_font_and_nothing_else() {
    let data = test_font();
    let face = parse_font(&data).unwrap();
    assert_eq!(face.units_per_em(), 1000);
    assert_eq!(face.glyph_index('B'), Some(ttf_parser::GlyphId(3)));
    assert_eq!(parse_font(&[1, 2, 3]).err(), Some(GenerateError::FontParseFailure));
    assert_eq!(parse_font(&[]).err(), Some(GenerateError::FontParseFailure));
    assert_eq!(parse_font(&data[..100]).err(), Some(GenerateError::FontParseFailure));
}

#[test]
fn scale_takes_the_units_per_em_of_the_face() {
    let data = test_font();
    let face = ttf_parser::Face::parse(&data, 0).unwrap();
    let scale = scale_for(&face, 2500);
    assert_eq!(scale.units_per_em(), 1000);
    assert_eq!(scale.font_size(), 2500);
    assert_eq!(scale.apply(600), 1500);
}

#[test]
fn glyph_metrics_read_the_tables() {
    let data = test_font();
    let face = ttf_parser::Face::parse(&data, 0).unwrap();
    let a = glyph_metrics(&face, 1);
    assert_eq!(a.hor_advance, Some(600));
    assert_eq!(a.ver_advance, None);
    assert_eq!(a.ver_origin, None);
    assert_eq!(a.ver_side_bearing, None);
    assert_eq!(a.bounding_box, Some(BoundingBox { x_min: 0, y_min: 0, x_max: 600, y_max: 700 }));
    let b = glyph_metrics(&face, 3);
    assert_eq!(b.hor_advance, Some(1000));
    assert_eq!(b.bounding_box, Some(BoundingBox { x_min: 0, y_min: 0, x_max: 900, y_max: 700 }));
    let space = glyph_metrics(&face, 2);
    assert_eq!(space.hor_advance, Some(250));
    assert_eq!(space.bounding_box, None);
    let beyond = glyph_metrics(&face, 9);
    assert_eq!(beyond.hor_advance, None);
    assert_eq!(beyond.bounding_box, None);
}

#[test]
fn glyph_metrics_read_the_vertical_tables() {
    let data = upright_font();
    let face = ttf_parser::Face::parse(&data, 0).unwrap();
    let a = glyph_metrics(&face, 1);
    assert_eq!(a.hor_advance, Some(600));
    assert_eq!(a.ver_advance, Some(1100));
    assert_eq!(a.ver_side_bearing, Some(40));
    assert_eq!(a.ver_origin, None);
    let beyond = glyph_metrics(&face, 9);
    assert_eq!(beyond.ver_advance, None);
    assert_eq!(beyond.ver_side_bearing, None);
}

#[test]
fn vertical_plan_takes_the_shaped_advance() {
    let data = upright_font();
    let face = ttf_parser::Face::parse(&data, 0).unwrap();
    let scale = Scale::new(10000, 1000).unwrap();
    let lines: Vec<Vec<char>> = vec!["A B".chars().collect()];
    let columns = plan_vertical(&face, &data, &scale, &lines).unwrap();
    assert_eq!(ids(&columns[0]), vec![Some(1), Some(2), Some(3)]);
    for placed in &columns[0] {
        assert_eq!(placed.glyph.ver_advance(), 11000);
    }
    assert_eq!(columns[0][0].glyph.ver_origin(), 7400);
    assert_eq!(columns[0][1].glyph.ver_origin(), 8000);
    assert_eq!(columns[0][1].glyph.ch(), ' ');
    assert!(columns[0][1].glyph.is_whitespace());
    assert!(!columns[0][2].glyph.is_whitespace());
    let flat = plan_horizontal_line(&face, &scale, &lines[0]);
    assert_eq!(flat[0].glyph.ver_advance(), 11000);
    assert_eq!(flat[0].glyph.ver_origin(), 7400);
}

#[test]
fn horizontal_plan_looks_each_character_up() {
    let data = test_font();
    let face = ttf_parser::Face::parse(&data, 0).unwrap();
    let scale = Scale::new(10000, 1000).unwrap();
    let line: Vec<char> = "A Bz".chars().collect();
    let placed = plan_horizontal_line(&face, &scale, &line);
    assert_eq!(ids(&placed), vec![Some(1), Some(2), Some(3), None]);
    assert_eq!(placed[0].glyph.ch(), 'A');
    assert_eq!(placed[0].glyph.hor_advance(), 6000);
    assert_eq!(placed[0].glyph.ver_origin(), 7000);
    assert_eq!(placed[0].glyph.height(), 7000);
    assert_eq!(placed[0].glyph.ver_advance(), 10000);
    assert_eq!(placed[1].glyph.hor_advance(), 2500);
    assert_eq!(placed[1].glyph.ver_origin(), 8000);
    assert_eq!(placed[2].glyph.hor_advance(), 10000);
    assert!(!placed[0].glyph.is_whitespace());
    assert!(placed[1].glyph.is_whitespace());
    assert_eq!(placed[3].glyph.ch(), 'z');
    assert!(!placed[3].glyph.is_whitespace());
    assert_eq!(placed[3].glyph.hor_advance(), 0);
    assert!(placed.iter().all(|g| g.outline.is_empty()));
    let lines = vec![line, Vec::new(), vec!['B']];
    let all = plan_horizontal(&face, &scale, &lines);
    assert_eq!(all.len(), 3);
    assert_eq!(all[0].len(), 4);
    assert!(all[1].is_empty());
    assert_eq!(ids(&all[2]), vec![Some(3)]);
}

#[test]
fn vertical_plan_has_a_column_for_each_line() {
    let data = test_font();
    let face = ttf_parser::Face::parse(&data, 0).unwrap();
    let scale = Scale::new(10000, 1000).unwrap();
    let lines: Vec<Vec<char>> = vec!["AB".chars().collect(), "B".chars().collect()];
    let columns = plan_vertical(&face, &data, &scale, &lines).unwrap();
    assert_eq!(columns.len(), 2);
    assert_eq!(ids(&columns[0]), vec![Some(1), Some(3)]);
    assert_eq!(ids(&columns[1]), vec![Some(3)]);
    assert_eq!(columns[0][0].glyph.ch(), 'A');
    assert_eq!(columns[0][1].glyph.ch(), 'B');
    assert_eq!(columns[0][0].glyph.hor_advance(), 6000);
    assert_eq!(columns[0][1].glyph.hor_advance(), 10000);
    assert!(columns[0][0].glyph.ver_advance() > 0);
    assert_eq!(columns[0][0].glyph.ver_origin(), 7000);
}

#[test]
fn vertical_plan_fails_without_a_shaping_face() {
    let data = test_font();
    let face = ttf_parser::Face::parse(&data, 0).unwrap();
    let scale = Scale::new(10000, 1000).unwrap();
    let lines: Vec<Vec<char>> = vec!["AB".chars().collect()];
    assert!(plan_vertical(&face, &[1, 2, 3], &scale, &lines).is_none());
    assert!(plan_vertical(&face, &[1, 2, 3], &scale, &Vec::new()).is_none());
    let failed = plan_layout(&face, &[], &request("A", Direction::Vertical));
    assert_eq!(failed.err(), Some(GenerateError::ShapingInitFailure));
    assert!(plan_layout(&face, &[], &request("A", Direction::Horizontal)).is_ok());
}

#[test]
fn shaped_glyphs_beyond_the_line_stand_for_a_question_mark() {
    let data = test_font();
    let face = ttf_parser::Face::parse(&data, 0).unwrap();
    let scale = Scale::new(10000, 1000).unwrap();
    let line = vec!['A'];
    let shaped = vec![(1u16, -1000i32), (3, 0), (2, 250)];
    let column = plan_column(&face, &scale, &line, &shaped);
    assert_eq!(ids(&column), vec![Some(1), Some(3), Some(2)]);
    assert_eq!(column[0].glyph.ch(), 'A');
    assert_eq!(column[1].glyph.ch(), '?');
    assert_eq!(column[2].glyph.ch(), '?');
    assert_eq!(column[0].glyph.ver_advance(), 10000);
    assert_eq!(column[1].glyph.ver_advance(), 10000);
    assert_eq!(column[2].glyph.ver_advance(), -2500);
}

#[test]
fn end_to_end_single_letter() {
    let data = test_font();
    let face = ttf_parser::Face::parse(&data, 0).unwrap();
    let req = request("A", Direction::Horizontal);
    let mut layout = plan_layout(&face, &data, &req).unwrap();
    attach_outlines(&face, &mut layout);
    let svg = generate_svg(&req, &layout);
    assert!(svg.contains("width=\"100\" height=\"160\" viewBox=\"0 0 100 160\""));
    assert_eq!(svg.matches("<g ").count(), 1);
    assert_eq!(svg.matches("data-char=\"A\"").count(), 1);
    assert_eq!(svg.matches("<path").count(), 1);
    assert!(svg.contains("<path d=\"M20.00 140.00L50.00 70.00L80.00 140.00"));
    assert!(svg.contains("Z\" fill=\"#000000\"/>"));
    assert!(svg.ends_with("</svg>"));
}

#[test]
fn end_to_end_empty_text() {
    let data = test_font();
    let face = ttf_parser::Face::parse(&data, 0).unwrap();
    let req = request("", Direction::Horizontal);
    let layout = plan_layout(&face, &data, &req).unwrap();
    assert!(layout.lines.is_empty());
    let svg = generate_svg(&req, &layout);
    assert!(svg.contains("width=\"40\" height=\"40\" viewBox=\"0 0 40 40\""));
    assert!(!svg.contains("<g"));
    let upright = request("", Direction::Vertical);
    let columns = plan_layout(&face, &data, &upright).unwrap();
    let doc = generate_svg(&upright, &columns);
    assert!(doc.contains("width=\"140\" height=\"140\" viewBox=\"0 0 140 140\""));
    assert!(!doc.contains("<g"));
}

#[test]
fn end_to_end_two_lines_of_different_width() {
    let data = test_font();
    let face = ttf_parser::Face::parse(&data, 0).unwrap();
    let req = request("B B\r\nA", Direction::Horizontal);
    let mut layout = plan_layout(&face, &data, &req).unwrap();
    assert_eq!(layout.lines.len(), 2);
    attach_outlines(&face, &mut layout);
    let svg = generate_svg(&req, &layout);
    assert!(svg.contains("width=\"265\" height=\"280\""));
    assert!(svg.contains("<g id=\"char-0\" data-char=\"B\">\n    <path d=\"M20.00 140.00"));
    assert!(svg.contains("<g id=\"char-2\" data-char=\"B\">\n    <path d=\"M145.00 140.00"));
    assert!(svg.contains("<g id=\"char-3\" data-char=\"A\">\n    <path d=\"M102.50 260.00"));
    assert_eq!(svg.matches("<g ").count(), 3);
}

#[test]
fn end_to_end_vertical_columns() {
    let data = test_font();
    let face = ttf_parser::Face::parse(&data, 0).unwrap();
    let req = request("A\nB", Direction::Vertical);
    let mut layout = plan_layout(&face, &data, &req).unwrap();
    assert_eq!(layout.lines.len(), 2);
    attach_outlines(&face, &mut layout);
    let svg = generate_svg(&req, &layout);
    assert_eq!(svg.matches("<g ").count(), 2);
    assert!(svg.contains("width=\"380\""));
    assert!(svg.contains("<g id=\"char-0\" data-char=\"A\">\n    <path d=\"M220.00 "));
    assert!(svg.contains("<g id=\"char-1\" data-char=\"B\">\n    <path d=\"M80.00 "));
}
