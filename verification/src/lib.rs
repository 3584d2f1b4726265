//! A rich-text document model and paragraph layout engine.
//!
//! The crate stores styled text as a sequence of paragraphs, supports
//! structural edits through a cursor with a stacked formatting context,
//! and places shaped paragraph text into a two-dimensional page layout
//! (frames, lines, runs) for rendering and hit-testing.
//!
//! Glyph shaping itself (line breaking, word segmentation, glyph metrics)
//! is the job of an external text-shaping service; this crate consumes the
//! service's output as plain data (`ShapedText`) and verifies everything
//! built on top of it: the document model, the editing protocol, and the
//! geometric placement of frames.

pub mod document;
pub mod format;
pub mod geom;
pub mod laws;
pub mod layout;
pub mod line;
pub mod paragraph;
pub mod shaped;
pub mod style;
pub mod text;

pub use document::Document;
pub use document::TextLocation;
pub use format::Color;
pub use format::Font;
pub use format::FontFaceId;
pub use format::FontId;
pub use format::Format;
pub use format::Image;
pub use geom::Point;
pub use geom::Rect;
pub use geom::SideOffsets;
pub use geom::Size;
pub use geom::MAX_COORD;
pub use layout::Frame;
pub use layout::Framesetter;
pub use layout::LayoutError;
pub use layout::ParagraphSnapshot;
pub use layout::Section;
pub use layout::MAX_EXTENT;
pub use line::Glyph;
pub use line::Line;
pub use line::Run;
pub use paragraph::Paragraph;
pub use paragraph::ParagraphCursor;
pub use paragraph::RangeError;
pub use shaped::collect_shaped;
pub use shaped::ShapedLine;
pub use shaped::ShapedRun;
pub use shaped::ShapedText;
pub use shaped::ShapingError;
pub use shaped::TypographicBounds;
pub use style::DocumentStyle;
pub use style::ParagraphContent;
pub use style::ParagraphStyle;
