//! Paragraph- and document-level configuration: content kind and margins.

use vstd::prelude::*;

use crate::geom::SideOffsets;

verus! {

/// What a paragraph holds: running text, or a horizontal rule.
#[derive(Clone, Copy, Debug, PartialEq, Eq, Structural)]
pub enum ParagraphContent {
    Text,
    Rule,
}

/// Configuration of one paragraph: its content kind and its margins.
#[derive(Clone, Copy, Debug, PartialEq, Eq, Structural)]
pub struct ParagraphStyle {
    pub content: ParagraphContent,
    pub margin: SideOffsets,
}

impl ParagraphStyle {
    pub fn new(content: ParagraphContent) -> (s: ParagraphStyle)
        ensures
            s == (ParagraphStyle { content, margin: SideOffsets { top: 0, right: 0, bottom: 0, left: 0 } }),
    {
        ParagraphStyle { content, margin: SideOffsets::zero() }
    }
}

impl Default for ParagraphStyle {
    fn default() -> (s: ParagraphStyle)
        ensures
            s == (ParagraphStyle {
                content: ParagraphContent::Text,
                margin: SideOffsets { top: 0, right: 0, bottom: 0, left: 0 },
            }),
    {
        ParagraphStyle { content: ParagraphContent::Text, margin: SideOffsets::zero() }
    }
}

/// Configuration of a whole document: its outer margins.
#[derive(Clone, Copy, Debug, PartialEq, Eq, Structural)]
pub struct DocumentStyle {
    pub margin: SideOffsets,
}

impl Default for DocumentStyle {
    fn default() -> (s: DocumentStyle)
        ensures
            s == (DocumentStyle { margin: SideOffsets { top: 0, right: 0, bottom: 0, left: 0 } }),
    {
        DocumentStyle { margin: SideOffsets::zero() }
    }
}

} // verus!
