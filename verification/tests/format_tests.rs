use pilcrow::format::flatten_formats;
use pilcrow::format::FormatKind;
use pilcrow::Color;
use pilcrow::Font;
use pilcrow::FontFaceId;
use pilcrow::FontId;
use pilcrow::Format;

#[test]
fn color_new_sets_channels() {
    let c = Color::new(10, 20, 30, 40);
    assert_eq!(c.r, 10);
    assert_eq!(c.g, 20);
    assert_eq!(c.b, 30);
    assert_eq!(c.a, 40);
}

#[test]
fn font_new_and_accessors() {
    let f = Font::new(FontId(7), FontFaceId(9), 16_000);
    assert_eq!(f.id(), FontId(7));
    assert_eq!(f.face_id(), FontFaceId(9));
    assert_eq!(f.size_millipoints(), 16_000);
}

#[test]
fn format_from_color_accessors() {
    let f = Format::from_color(Color::new(1, 2, 3, 4));
    assert_eq!(f.color(), Some(Color::new(1, 2, 3, 4)));
    assert!(f.font().is_none());
    assert!(f.link().is_none());
    assert!(f.image().is_none());
    assert_eq!(f.kind(), FormatKind::ColorKind);
}

#[test]
fn format_from_font_accessors() {
    let font = Font::new(FontId(1), FontFaceId(2), 12_000);
    let f = Format::from_font(font);
    let back = f.font().expect("font format must report its font");
    assert_eq!(back.id(), FontId(1));
    assert!(f.color().is_none());
    assert_eq!(f.kind(), FormatKind::FontKind);
}

#[test]
fn format_from_link_accessors() {
    let f = Format::from_link(42, String::from("https://example.test/a"));
    let (id, url) = f.link().expect("link format must report its link");
    assert_eq!(id, 42);
    assert_eq!(url, "https://example.test/a");
    assert!(f.image().is_none());
    assert_eq!(f.kind(), FormatKind::LinkKind);
}

#[test]
fn format_from_image_accessors() {
    let f = Format::from_image(99);
    assert_eq!(f.image(), Some(99));
    assert!(f.link().is_none());
    assert_eq!(f.kind(), FormatKind::ImageKind);
}

#[test]
fn flatten_keeps_last_of_each_kind() {
    let red = Format::from_color(Color::new(255, 0, 0, 255));
    let blue = Format::from_color(Color::new(0, 0, 255, 255));
    let flat = flatten_formats(&vec![red, blue]);
    assert_eq!(flat.len(), 1);
    assert_eq!(flat[0].color(), Some(Color::new(0, 0, 255, 255)));
}

#[test]
fn flatten_keeps_stack_order_of_survivors() {
    let a = Format::from_color(Color::new(1, 1, 1, 1));
    let f = Format::from_font(Font::new(FontId(3), FontFaceId(4), 10_000));
    let b = Format::from_color(Color::new(2, 2, 2, 2));
    let flat = flatten_formats(&vec![a, f, b]);
    assert_eq!(flat.len(), 2);
    assert!(flat[0].font().is_some());
    assert_eq!(flat[1].color(), Some(Color::new(2, 2, 2, 2)));
}

#[test]
fn flatten_of_empty_stack_is_empty() {
    let flat = flatten_formats(&Vec::new());
    assert!(flat.is_empty());
}
