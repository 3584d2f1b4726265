use pilcrow::Color;
use pilcrow::Font;
use pilcrow::FontFaceId;
use pilcrow::FontId;
use pilcrow::Format;
use pilcrow::Paragraph;
use pilcrow::ParagraphContent;
use pilcrow::ParagraphStyle;
use pilcrow::RangeError;

fn text_style() -> ParagraphStyle {
    ParagraphStyle::new(ParagraphContent::Text)
}

#[test]
fn from_string_counts_characters() {
    let p = Paragraph::from_string("Hello", text_style());
    assert_eq!(p.char_len(), 5);
    let empty = Paragraph::new(text_style());
    assert_eq!(empty.char_len(), 0);
}

#[test]
fn copy_string_in_range_returns_exact_slice() {
    let p = Paragraph::from_string("Hello", text_style());
    let mut buffer = String::new();
    p.copy_string_in_range(&mut buffer, 1..3).expect("range within text");
    assert_eq!(buffer, "el");
}

#[test]
fn copy_string_in_range_appends_to_buffer() {
    let p = Paragraph::from_string("Hello", text_style());
    let mut buffer = String::from("pre:");
    p.copy_string_in_range(&mut buffer, 0..5).expect("range within text");
    assert_eq!(buffer, "pre:Hello");
}

#[test]
fn copy_string_in_range_rejects_past_end() {
    let p = Paragraph::from_string("Hello", text_style());
    let mut buffer = String::new();
    assert_eq!(p.copy_string_in_range(&mut buffer, 0..6), Err(RangeError));
    assert_eq!(buffer, "");
}

#[test]
fn insert_in_middle_grows_and_round_trips() {
    let mut p = Paragraph::from_string("abcdef", text_style());
    let mut cursor = p.edit_at(3);
    cursor.push_string("XY");
    cursor.commit(&mut p);
    assert_eq!(p.char_len(), 8);
    let mut middle = String::new();
    p.copy_string_in_range(&mut middle, 3..5).expect("inserted range");
    assert_eq!(middle, "XY");
    let mut whole = String::new();
    p.copy_string_in_range(&mut whole, 0..8).expect("whole text");
    assert_eq!(whole, "abcXYdef");
}

#[test]
fn insert_at_start_and_end() {
    let mut p = Paragraph::from_string("mid", text_style());
    let mut cursor = p.edit_at(0);
    cursor.push_string("<<");
    cursor.commit(&mut p);
    let mut cursor = p.edit_at(p.char_len());
    cursor.push_string(">>");
    cursor.commit(&mut p);
    let mut whole = String::new();
    p.copy_string_in_range(&mut whole, 0..p.char_len()).expect("whole text");
    assert_eq!(whole, "<<mid>>");
}

#[test]
fn uncommitted_cursor_cancel_leaves_paragraph_unchanged() {
    let mut p = Paragraph::from_string("keep", text_style());
    let mut cursor = p.edit_at(2);
    cursor.push_string("DROPPED");
    assert!(p.is_editing());
    cursor.cancel(&mut p);
    assert!(!p.is_editing());
    assert_eq!(p.char_len(), 4);
    let mut whole = String::new();
    p.copy_string_in_range(&mut whole, 0..4).expect("whole text");
    assert_eq!(whole, "keep");
}

#[test]
fn format_stack_is_lifo() {
    let mut p = Paragraph::new(text_style());
    let mut cursor = p.edit_at(0);
    cursor.push_format(Format::from_font(Font::new(FontId(1), FontFaceId(1), 10_000)));
    cursor.push_format(Format::from_color(Color::new(9, 9, 9, 9)));
    cursor.push_format(Format::from_image(5));
    let popped = cursor.pop_format().expect("stack holds three entries");
    assert_eq!(popped.image(), Some(5));
    {
        let stack = cursor.format_stack();
        assert_eq!(stack.len(), 2);
        assert!(stack[0].font().is_some());
        assert_eq!(stack[1].color(), Some(Color::new(9, 9, 9, 9)));
    }
    assert!(cursor.pop_format().is_some());
    assert!(cursor.pop_format().is_some());
    assert!(cursor.pop_format().is_none());
    assert_eq!(cursor.format_stack().len(), 0);
    cursor.cancel(&mut p);
}

#[test]
fn pushed_text_is_tagged_with_current_stack_only() {
    let mut p = Paragraph::new(text_style());
    let mut cursor = p.edit_at(0);
    cursor.push_string("a");
    cursor.push_format(Format::from_color(Color::new(255, 0, 0, 255)));
    cursor.push_string("b");
    cursor.commit(&mut p);
    let formats = p.snapshot_formats();
    assert_eq!(formats.len(), 2);
    assert!(formats[0].is_empty());
    assert_eq!(formats[1].len(), 1);
    assert_eq!(formats[1][0].color(), Some(Color::new(255, 0, 0, 255)));
}

#[test]
fn conflicting_formats_flatten_to_innermost() {
    let mut p = Paragraph::new(text_style());
    let mut cursor = p.edit_at(0);
    cursor.push_format(Format::from_color(Color::new(255, 0, 0, 255)));
    cursor.push_format(Format::from_color(Color::new(0, 255, 0, 255)));
    cursor.push_string("x");
    cursor.commit(&mut p);
    let formats = p.snapshot_formats();
    assert_eq!(formats[0].len(), 1);
    assert_eq!(formats[0][0].color(), Some(Color::new(0, 255, 0, 255)));
}

#[test]
fn cursor_is_seeded_with_surrounding_style() {
    let mut p = Paragraph::new(text_style());
    let mut cursor = p.edit_at(0);
    assert_eq!(cursor.format_stack().len(), 0);
    cursor.push_format(Format::from_color(Color::new(1, 2, 3, 4)));
    cursor.push_string("Hi");
    cursor.commit(&mut p);
    let cursor = p.edit_at(2);
    assert_eq!(cursor.format_stack().len(), 1);
    assert_eq!(cursor.format_stack()[0].color(), Some(Color::new(1, 2, 3, 4)));
    cursor.cancel(&mut p);
    let cursor = p.edit_at(1);
    assert_eq!(cursor.format_stack()[0].color(), Some(Color::new(1, 2, 3, 4)));
    cursor.cancel(&mut p);
}

#[test]
fn try_edit_at_rejects_bad_position_and_double_checkout() {
    let mut p = Paragraph::from_string("ab", text_style());
    assert!(p.try_edit_at(3).is_none());
    let cursor = p.try_edit_at(2).expect("position at end of text is valid");
    assert!(p.try_edit_at(0).is_none());
    cursor.cancel(&mut p);
    assert!(p.try_edit_at(0).is_some());
}

#[test]
fn snapshot_text_copies_characters() {
    let p = Paragraph::from_string("abc", text_style());
    assert_eq!(p.snapshot_text(), vec!['a', 'b', 'c']);
}
