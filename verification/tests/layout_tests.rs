use pilcrow::collect_shaped;
use pilcrow::Color;
use pilcrow::Document;
use pilcrow::Format;
use pilcrow::Framesetter;
use pilcrow::LayoutError;
use pilcrow::Paragraph;
use pilcrow::ParagraphContent;
use pilcrow::ParagraphStyle;
use pilcrow::Point;
use pilcrow::Rect;
use pilcrow::Section;
use pilcrow::ShapedLine;
use pilcrow::ShapedRun;
use pilcrow::ShapedText;
use pilcrow::ShapingError;
use pilcrow::SideOffsets;
use pilcrow::Size;
use pilcrow::TypographicBounds;

fn text_style() -> ParagraphStyle {
    ParagraphStyle::new(ParagraphContent::Text)
}

fn doc_of(texts: &[&str]) -> Document {
    let mut d = Document::new();
    for t in texts {
        d.append_paragraph(Paragraph::from_string(t, text_style()));
    }
    d
}

fn bounds(width: u32, ascent: u32, descent: u32) -> TypographicBounds {
    TypographicBounds { width, ascent, descent, leading: 0 }
}

fn one_line(origin_up_y: u32, ascent: u32, descent: u32, char_end: usize) -> ShapedText {
    ShapedText {
        lines: vec![ShapedLine {
            origin_x: 0,
            origin_up_y,
            char_start: 0,
            char_end,
            bounds: bounds(50, ascent, descent),
            runs: vec![ShapedRun {
                char_start: 0,
                char_end,
                glyphs: vec![1, 2],
                positions: vec![Point::new(0, 0), Point::new(7, 0)],
                bounds: bounds(50, ascent, descent),
            }],
        }],
    }
}

fn rect(x: i64, y: i64, width: i64, height: i64) -> Rect {
    Rect::new(Point::new(x, y), Size::new(width, height))
}

/// Two paragraphs, zero margins, a rect of height 100, one line of
/// realized height 20 each: the shaped line sits 85 units up from the box
/// bottom and descends 5 below its baseline, so each frame is 20 tall.
fn hello_world_section() -> Section {
    let d = doc_of(&["Hello", "World"]);
    let fs = Framesetter::new(&d);
    let shaped = vec![one_line(85, 15, 5, 5), one_line(85, 15, 5, 5)];
    fs.layout_in_rect(&rect(0, 0, 100, 100), shaped).expect("one shaped text per paragraph")
}

#[test]
fn two_paragraphs_stack_top_down() {
    let section = hello_world_section();
    let frames = section.frames();
    assert_eq!(frames.len(), 2);
    assert_eq!(frames[0].origin(), Point::new(0, 0));
    assert_eq!(frames[0].height(), 20);
    assert_eq!(frames[1].origin(), Point::new(0, 20));
    assert_eq!(frames[1].height(), 20);
    assert_eq!(section.frame_index_at_point(&Point::new(5, 25)), Some(1));
}

#[test]
fn frame_index_hits_each_frame_and_misses_outside() {
    let section = hello_world_section();
    assert_eq!(section.frame_index_at_point(&Point::new(5, 0)), Some(0));
    assert_eq!(section.frame_index_at_point(&Point::new(5, 19)), Some(0));
    assert_eq!(section.frame_index_at_point(&Point::new(5, 20)), Some(1));
    assert_eq!(section.frame_index_at_point(&Point::new(5, 39)), Some(1));
    assert_eq!(section.frame_index_at_point(&Point::new(5, -1)), None);
    assert_eq!(section.frame_index_at_point(&Point::new(5, 40)), None);
}

#[test]
fn frame_index_misses_margin_gap() {
    let mut d = Document::new();
    let mut style = text_style();
    style.margin = SideOffsets::new(10, 0, 10, 0);
    d.append_paragraph(Paragraph::from_string("a", style));
    d.append_paragraph(Paragraph::from_string("b", style));
    let fs = Framesetter::new(&d);
    let shaped = vec![one_line(85, 15, 5, 1), one_line(85, 15, 5, 1)];
    let section = fs.layout_in_rect(&rect(0, 0, 100, 100), shaped).expect("layout");
    // frames occupy [10, 30) and [50, 70); the inter-frame gap has no match
    assert_eq!(section.frame_index_at_point(&Point::new(0, 15)), Some(0));
    assert_eq!(section.frame_index_at_point(&Point::new(0, 35)), None);
    assert_eq!(section.frame_index_at_point(&Point::new(0, 55)), Some(1));
}

#[test]
fn margins_offset_frames_exactly() {
    let mut d = Document::new();
    let mut style = text_style();
    style.margin = SideOffsets::new(2, 4, 1, 3);
    d.append_paragraph(Paragraph::from_string("ab", style));
    d.append_paragraph(Paragraph::from_string("cd", style));
    d.style_mut().margin = SideOffsets::new(10, 0, 0, 7);
    let fs = Framesetter::new(&d);
    // content box: x 7, y 10, width 93, height 190
    let shaped = vec![one_line(170, 15, 0, 2), one_line(170, 15, 0, 2)];
    let section = fs.layout_in_rect(&rect(0, 0, 100, 200), shaped).expect("layout");
    let frames = section.frames();
    // each frame: height 190 - 170 + 0 = 20, x = 7 + 3, width = 93 - 7
    assert_eq!(frames[0].origin(), Point::new(10, 12));
    assert_eq!(frames[0].height(), 20);
    assert_eq!(frames[0].bounds(), rect(10, 12, 86, 20));
    // second frame: 12 + 20 + 1 (bottom) + 2 (top) = 35
    assert_eq!(frames[1].origin(), Point::new(10, 35));
}

#[test]
fn frame_with_no_lines_has_zero_height() {
    let d = doc_of(&["x"]);
    let fs = Framesetter::new(&d);
    let shaped = vec![ShapedText { lines: Vec::new() }];
    let section = fs.layout_in_rect(&rect(0, 0, 100, 100), shaped).expect("layout");
    assert_eq!(section.frames()[0].height(), 0);
}

#[test]
fn frame_height_is_clamped_at_zero() {
    let d = doc_of(&["x"]);
    let fs = Framesetter::new(&d);
    // the line sits far above the box: 10 - 50 + 0 would be negative
    let shaped = vec![one_line(50, 3, 0, 1)];
    let section = fs.layout_in_rect(&rect(0, 0, 100, 10), shaped).expect("layout");
    assert_eq!(section.frames()[0].height(), 0);
}

#[test]
fn layout_rejects_wrong_shaped_count() {
    let d = doc_of(&["a", "b"]);
    let fs = Framesetter::new(&d);
    let shaped = vec![one_line(85, 15, 5, 1)];
    let r = fs.layout_in_rect(&rect(0, 0, 100, 100), shaped);
    assert_eq!(r.err(), Some(LayoutError::ShapingMismatch));
}

#[test]
fn layout_is_idempotent_for_identical_inputs() {
    let d = doc_of(&["Hello", "World"]);
    let fs = Framesetter::new(&d);
    let r = rect(3, 4, 100, 100);
    let first = fs.layout_in_rect(&r, vec![one_line(85, 15, 5, 5), one_line(80, 12, 4, 5)]).expect("layout");
    let second = fs.layout_in_rect(&r, vec![one_line(85, 15, 5, 5), one_line(80, 12, 4, 5)]).expect("layout");
    assert_eq!(first.frame_count(), second.frame_count());
    for i in 0..first.frame_count() {
        assert_eq!(first.frames()[i].origin(), second.frames()[i].origin());
        assert_eq!(first.frames()[i].height(), second.frames()[i].height());
    }
}

#[test]
fn adjacent_frames_never_overlap_vertically() {
    let mut d = Document::new();
    let mut style = text_style();
    style.margin = SideOffsets::new(3, 0, 7, 0);
    d.append_paragraph(Paragraph::from_string("a", style));
    d.append_paragraph(Paragraph::from_string("b", text_style()));
    d.append_paragraph(Paragraph::from_string("c", style));
    let fs = Framesetter::new(&d);
    let shaped = vec![one_line(60, 15, 5, 1), one_line(30, 15, 2, 1), one_line(85, 15, 5, 1)];
    let section = fs.layout_in_rect(&rect(0, 0, 100, 100), shaped).expect("layout");
    let frames = section.frames();
    for i in 0..frames.len() - 1 {
        let bottom = frames[i].bounds().origin.y + frames[i].bounds().size.height;
        let top = frames[i + 1].bounds().origin.y;
        assert!(bottom <= top);
    }
}

#[test]
fn lines_flip_vertical_offsets_to_top_down() {
    let d = doc_of(&["ab"]);
    let fs = Framesetter::new(&d);
    let mut shaped_text = one_line(30, 8, 2, 2);
    shaped_text.lines[0].origin_x = 4;
    let section = fs.layout_in_rect(&rect(0, 0, 100, 50), shaped_text_in_vec(shaped_text)).expect("layout");
    let frames = section.frames();
    // height = 50 - 30 + 2 = 22
    assert_eq!(frames[0].height(), 22);
    let lines = frames[0].lines();
    assert_eq!(lines.len(), 1);
    assert_eq!(lines[0].origin(), Point::new(4, 20));
    assert_eq!(lines[0].char_range(), 0..2);
    assert_eq!(lines[0].typographic_bounds(), bounds(50, 8, 2));
    // bounding rect spans from ascent above the origin to descent below
    assert_eq!(lines[0].typographic_bounding_rect(), rect(4, 12, 50, 10));
}

fn shaped_text_in_vec(t: ShapedText) -> Vec<ShapedText> {
    vec![t]
}

#[test]
fn runs_carry_glyphs_positions_and_range() {
    let d = doc_of(&["ab"]);
    let fs = Framesetter::new(&d);
    let section = fs
        .layout_in_rect(&rect(0, 0, 100, 50), vec![one_line(30, 8, 2, 2)])
        .expect("layout");
    let frames = section.frames();
    let lines = frames[0].lines();
    let runs = lines[0].runs();
    assert_eq!(runs.len(), 1);
    assert_eq!(runs[0].glyph_count(), 2);
    assert_eq!(runs[0].glyphs(), vec![1, 2]);
    assert_eq!(runs[0].positions(), vec![Point::new(0, 0), Point::new(7, 0)]);
    assert_eq!(runs[0].char_range(), 0..2);
    assert_eq!(runs[0].typographic_bounds(), bounds(50, 8, 2));
    assert!(runs[0].formatting().is_empty());
}

#[test]
fn run_reports_the_committed_formatting() {
    let mut p = Paragraph::new(text_style());
    let mut cursor = p.edit_at(0);
    cursor.push_format(Format::from_color(Color::new(255, 0, 0, 255)));
    cursor.push_string("Hi");
    let popped = cursor.pop_format();
    assert!(popped.is_some());
    cursor.commit(&mut p);
    assert_eq!(p.char_len(), 2);
    let mut d = Document::new();
    d.append_paragraph(p);
    assert_eq!(d.copy_string(), "Hi");
    let fs = Framesetter::new(&d);
    let section = fs
        .layout_in_rect(&rect(0, 0, 100, 50), vec![one_line(30, 8, 2, 2)])
        .expect("layout");
    let frames = section.frames();
    let lines = frames[0].lines();
    let runs = lines[0].runs();
    let formats = runs[0].formatting();
    assert_eq!(formats.len(), 1);
    assert_eq!(formats[0].color(), Some(Color::new(255, 0, 0, 255)));
}

#[test]
fn line_index_at_point_finds_the_right_line() {
    let d = doc_of(&["abcd"]);
    let fs = Framesetter::new(&d);
    // two lines in a box of height 50: baselines at y 10 and y 30,
    // each spanning 8 above and 2 below its baseline
    let shaped = ShapedText {
        lines: vec![
            ShapedLine {
                origin_x: 0,
                origin_up_y: 40,
                char_start: 0,
                char_end: 2,
                bounds: bounds(50, 8, 2),
                runs: Vec::new(),
            },
            ShapedLine {
                origin_x: 0,
                origin_up_y: 20,
                char_start: 2,
                char_end: 4,
                bounds: bounds(50, 8, 2),
                runs: Vec::new(),
            },
        ],
    };
    let section = fs.layout_in_rect(&rect(0, 0, 100, 50), vec![shaped]).expect("layout");
    let frames = section.frames();
    let frame = &frames[0];
    assert_eq!(frame.char_len(), 4);
    assert_eq!(frame.lines().len(), 2);
    assert_eq!(frame.line_index_at_point(&Point::new(0, 5)), Some(0));
    assert_eq!(frame.line_index_at_point(&Point::new(0, 25)), Some(1));
    assert_eq!(frame.line_index_at_point(&Point::new(0, 1)), None);
    assert_eq!(frame.line_index_at_point(&Point::new(0, 15)), None);
    assert_eq!(frame.line_index_at_point(&Point::new(0, 40)), None);
}

#[test]
fn framesetter_is_a_point_in_time_snapshot() {
    let mut d = doc_of(&["old"]);
    let fs = Framesetter::new(&d);
    d.clear();
    assert_eq!(fs.paragraph_count(), 1);
    assert_eq!(fs.paragraphs[0].chars, vec!['o', 'l', 'd']);
}

#[test]
fn frame_keeps_its_paragraph_style() {
    let mut style = text_style();
    style.content = ParagraphContent::Rule;
    let mut d = Document::new();
    d.append_paragraph(Paragraph::from_string("-", style));
    let fs = Framesetter::new(&d);
    let section = fs.layout_in_rect(&rect(0, 0, 10, 10), vec![one_line(5, 1, 1, 1)]).expect("layout");
    let frames = section.frames();
    assert_eq!(frames[0].style().content, ParagraphContent::Rule);
}

#[test]
fn checked_layout_matches_unchecked_on_good_input() {
    let d = doc_of(&["Hello", "World"]);
    let fs = Framesetter::new(&d);
    let r = rect(0, 0, 100, 100);
    let section = fs
        .layout_in_rect_checked(&r, vec![one_line(85, 15, 5, 5), one_line(85, 15, 5, 5)])
        .expect("checks pass");
    let plain = fs
        .layout_in_rect(&r, vec![one_line(85, 15, 5, 5), one_line(85, 15, 5, 5)])
        .expect("layout");
    assert_eq!(section.frame_count(), plain.frame_count());
    for i in 0..section.frame_count() {
        assert_eq!(section.frames()[i].origin(), plain.frames()[i].origin());
        assert_eq!(section.frames()[i].height(), plain.frames()[i].height());
    }
}

#[test]
fn checked_layout_rejects_out_of_range_rect() {
    let d = doc_of(&["a"]);
    let fs = Framesetter::new(&d);
    let huge = rect(i64::MAX - 10, 0, 100, 100);
    let r = fs.layout_in_rect_checked(&huge, vec![one_line(85, 15, 5, 1)]);
    assert_eq!(r.err(), Some(LayoutError::CoordinateOverflow));
}

#[test]
fn collect_shaped_gathers_all_successes() {
    let results = vec![Ok(one_line(1, 1, 1, 1)), Ok(one_line(2, 1, 1, 1))];
    let collected = collect_shaped(results).expect("all shaped");
    assert_eq!(collected.len(), 2);
    assert_eq!(collected[0].lines[0].origin_up_y, 1);
    assert_eq!(collected[1].lines[0].origin_up_y, 2);
}

#[test]
fn collect_shaped_reports_the_first_failure() {
    let results = vec![
        Ok(one_line(1, 1, 1, 1)),
        Err(ShapingError { paragraph_index: 1 }),
        Err(ShapingError { paragraph_index: 2 }),
    ];
    let err = collect_shaped(results).err().expect("must fail as a whole");
    assert_eq!(err, ShapingError { paragraph_index: 1 });
}
