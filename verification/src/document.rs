//! An ordered collection of paragraphs plus document-level style, with
//! whole- and partial-text extraction by structural location.

use vstd::prelude::*;

use crate::paragraph::Paragraph;
use crate::paragraph::ParagraphV;
use crate::style::DocumentStyle;
use crate::text::push_char;
use core::ops::Range;

verus! {

/// A position in a document: a paragraph index plus a character index
/// within that paragraph. Ordered lexicographically.
#[derive(Clone, Copy, Debug, PartialEq, Eq, Structural, Hash, PartialOrd)]
pub struct TextLocation {
    pub paragraph_index: usize,
    pub character_index: usize,
}

impl TextLocation {
    pub fn new(paragraph_index: usize, character_index: usize) -> (r: TextLocation)
        ensures
            r == (TextLocation { paragraph_index, character_index }),
    {
        TextLocation { paragraph_index, character_index }
    }

    /// The location of the first character of the first paragraph.
    pub fn beginning() -> (r: TextLocation)
        ensures
            r == (TextLocation { paragraph_index: 0, character_index: 0 }),
    {
        TextLocation { paragraph_index: 0, character_index: 0 }
    }
}

/// The mathematical content of a document: its paragraphs in reading
/// order, plus its style.
pub struct DocumentV {
    pub paragraphs: Seq<ParagraphV>,
    pub style: DocumentStyle,
}

impl DocumentV {
    pub open spec fn wf(&self) -> bool {
        forall|i: int| 0 <= i < self.paragraphs.len() ==> (#[trigger] self.paragraphs[i]).wf()
    }

    /// The character sequences of the paragraphs, in reading order.
    pub open spec fn texts(&self) -> Seq<Seq<char>> {
        self.paragraphs.map_values(|p: ParagraphV| p.text)
    }
}

/// The location just past the last character of the last paragraph; the
/// beginning itself when the document is empty.
pub open spec fn spec_entire_end(texts: Seq<Seq<char>>) -> TextLocation {
    if texts.len() == 0 {
        TextLocation { paragraph_index: 0, character_index: 0 }
    } else {
        TextLocation {
            paragraph_index: (texts.len() - 1) as usize,
            character_index: texts.last().len() as usize,
        }
    }
}

/// A document range is valid when its endpoints lie inside the document,
/// each character index is within its paragraph, and the start does not
/// come after the end. For an empty document only the degenerate range at
/// the beginning is valid.
pub open spec fn spec_range_valid(
    texts: Seq<Seq<char>>,
    start: TextLocation,
    end: TextLocation,
) -> bool {
    if texts.len() == 0 {
        &&& start.paragraph_index == 0
        &&& start.character_index == 0
        &&& end.paragraph_index == 0
        &&& end.character_index == 0
    } else {
        &&& start.paragraph_index <= end.paragraph_index < texts.len()
        &&& start.character_index <= texts[start.paragraph_index as int].len()
        &&& end.character_index <= texts[end.paragraph_index as int].len()
        &&& (start.paragraph_index == end.paragraph_index ==> start.character_index
            <= end.character_index)
    }
}

/// The text of the range `(start_pi, start_ci)..(end_pi, end_ci)`: the
/// per-paragraph character slices of the touched paragraphs, joined by a
/// single newline between consecutive paragraphs and none after the last.
pub open spec fn spec_copy_string(
    texts: Seq<Seq<char>>,
    start_pi: int,
    start_ci: int,
    end_pi: int,
    end_ci: int,
) -> Seq<char>
    decreases end_pi - start_pi,
{
    if texts.len() == 0 || start_pi > end_pi || start_pi >= texts.len() {
        Seq::empty()
    } else if start_pi == end_pi {
        texts[start_pi].subrange(start_ci, end_ci)
    } else {
        texts[start_pi].subrange(start_ci, texts[start_pi].len() as int) + seq!['\n']
            + spec_copy_string(texts, start_pi + 1, 0, end_pi, end_ci)
    }
}

/// Extending a copy by one more fully-covered paragraph appends a newline
/// and that paragraph's slice.
pub proof fn lemma_copy_string_extend(
    texts: Seq<Seq<char>>,
    start_pi: int,
    start_ci: int,
    k: int,
    end_ci: int,
)
    requires
        0 <= start_pi <= k,
        k + 1 < texts.len(),
    ensures
        spec_copy_string(texts, start_pi, start_ci, k + 1, end_ci) == spec_copy_string(
            texts,
            start_pi,
            start_ci,
            k,
            texts[k].len() as int,
        ) + seq!['\n'] + texts[k + 1].subrange(0, end_ci),
    decreases k - start_pi,
{
    if start_pi == k {
        assert(spec_copy_string(texts, start_pi, start_ci, k + 1, end_ci) == texts[
            start_pi
        ].subrange(start_ci, texts[start_pi].len() as int) + seq!['\n'] + texts[k + 1].subrange(
            0,
            end_ci,
        ));
        assert(spec_copy_string(texts, start_pi, start_ci, k, texts[k].len() as int) == texts[
            start_pi
        ].subrange(start_ci, texts[start_pi].len() as int));
    } else {
        lemma_copy_string_extend(texts, start_pi + 1, 0, k, end_ci);
        let head = texts[start_pi].subrange(start_ci, texts[start_pi].len() as int) + seq!['\n'];
        assert(spec_copy_string(texts, start_pi, start_ci, k + 1, end_ci) == head
            + spec_copy_string(texts, start_pi + 1, 0, k + 1, end_ci));
        assert(spec_copy_string(texts, start_pi, start_ci, k, texts[k].len() as int) == head
            + spec_copy_string(texts, start_pi + 1, 0, k, texts[k].len() as int));
        assert(head + (spec_copy_string(texts, start_pi + 1, 0, k, texts[k].len() as int) + seq![
            '\n'
        ] + texts[k + 1].subrange(0, end_ci)) =~= (head + spec_copy_string(
            texts,
            start_pi + 1,
            0,
            k,
            texts[k].len() as int,
        )) + seq!['\n'] + texts[k + 1].subrange(0, end_ci));
    }
}

/// An ordered sequence of paragraphs plus a document style. Paragraphs
/// are exclusively owned by the document, in reading order.
pub struct Document {
    paragraphs: Vec<Paragraph>,
    style: DocumentStyle,
}

impl View for Document {
    type V = DocumentV;

    closed spec fn view(&self) -> DocumentV {
        DocumentV {
            paragraphs: self.paragraphs@.map_values(|p: Paragraph| p@),
            style: self.style,
        }
    }
}

impl Document {
    /// Creates an empty document with the default style.
    pub fn new() -> (d: Document)
        ensures
            d@.paragraphs == Seq::<ParagraphV>::empty(),
            d@.style == (DocumentStyle { margin: crate::geom::SideOffsets { top: 0, right: 0, bottom: 0, left: 0 } }),
            d@.wf(),
    {
        let d = Document { paragraphs: Vec::new(), style: DocumentStyle::default() };
        proof {
            assert(d@.paragraphs =~= Seq::<ParagraphV>::empty());
        }
        d
    }

    /// Drops every paragraph, keeping the style.
    pub fn clear(&mut self)
        ensures
            final(self)@.paragraphs == Seq::<ParagraphV>::empty(),
            final(self)@.style == old(self)@.style,
    {
        self.paragraphs.clear();
        proof {
            assert(self@.paragraphs =~= Seq::<ParagraphV>::empty());
        }
    }

    /// Appends one paragraph at the end, taking ownership of it.
    pub fn append_paragraph(&mut self, paragraph: Paragraph)
        ensures
            final(self)@.paragraphs == old(self)@.paragraphs.push(paragraph@),
            final(self)@.style == old(self)@.style,
    {
        self.paragraphs.push(paragraph);
        proof {
            assert(self@.paragraphs =~= old(self)@.paragraphs.push(
                self.paragraphs@.last()@,
            ));
        }
    }

    /// Concatenates another document's paragraphs onto this one, in
    /// order, taking ownership of them.
    pub fn append_document(&mut self, other_document: Document)
        ensures
            final(self)@.paragraphs == old(self)@.paragraphs + other_document@.paragraphs,
            final(self)@.style == old(self)@.style,
    {
        let Document { paragraphs: mut other_paragraphs, style: _ } = other_document;
        self.paragraphs.append(&mut other_paragraphs);
        proof {
            assert(self@.paragraphs =~= old(self)@.paragraphs + other_document@.paragraphs);
        }
    }

    /// The paragraphs, in reading order.
    pub fn paragraphs(&self) -> (r: &Vec<Paragraph>)
        ensures
            r@.len() == self@.paragraphs.len(),
            forall|i: int| 0 <= i < r@.len() ==> #[trigger] r@[i]@ == self@.paragraphs[i],
    {
        &self.paragraphs
    }

    /// Mutable access to the paragraphs, for editing them in place.
    pub fn paragraphs_mut(&mut self) -> (r: &mut Vec<Paragraph>)
        ensures
            (*r)@.len() == old(self)@.paragraphs.len(),
            forall|i: int| 0 <= i < (*r)@.len() ==> #[trigger] (*r)@[i]@ == old(self)@.paragraphs[i],
            final(self)@.paragraphs == final(r)@.map_values(|p: Paragraph| p@),
            final(self)@.style == old(self)@.style,
    {
        &mut self.paragraphs
    }

    /// The document's style.
    pub fn style(&self) -> (r: &DocumentStyle)
        ensures
            *r == self@.style,
    {
        &self.style
    }

    /// Mutable access to the document's style.
    pub fn style_mut(&mut self) -> (r: &mut DocumentStyle)
        ensures
            *r == old(self)@.style,
            final(self)@.style == *final(r),
            final(self)@.paragraphs == old(self)@.paragraphs,
    {
        &mut self.style
    }

    /// The range from the beginning of the document to just past the last
    /// character of the last paragraph; degenerate for an empty document.
    pub fn entire_range(&self) -> (r: Range<TextLocation>)
        ensures
            r.start == (TextLocation { paragraph_index: 0, character_index: 0 }),
            r.end == spec_entire_end(self@.texts()),
            r.end.character_index as int == (if self@.texts().len() == 0 {
                0int
            } else {
                self@.texts().last().len() as int
            }),
    {
        let start = TextLocation::beginning();
        let n = self.paragraphs.len();
        if n == 0 {
            start..start
        } else {
            let end = TextLocation::new(n - 1, self.paragraphs[n - 1].char_len());
            start..end
        }
    }

    /// The text of `range`: the touched paragraphs' character slices,
    /// joined by a single newline between consecutive paragraphs, with no
    /// separator after the final one.
    pub fn copy_string_in_range(&self, range: Range<TextLocation>) -> (r: String)
        requires
            spec_range_valid(self@.texts(), range.start, range.end),
        ensures
            r@ == spec_copy_string(
                self@.texts(),
                range.start.paragraph_index as int,
                range.start.character_index as int,
                range.end.paragraph_index as int,
                range.end.character_index as int,
            ),
    {
        let ghost texts = self@.texts();
        let ghost s_ci = range.start.character_index as int;
        let mut buffer = String::new();
        if self.paragraphs.len() == 0 {
            return buffer;
        }
        let n = self.paragraphs.len();
        let first = range.start.paragraph_index;
        let last = range.end.paragraph_index;
        let mut pi = first;
        while pi <= last
            invariant
                first <= pi,
                pi <= last + 1,
                last < n,
                n == self.paragraphs@.len(),
                texts == self@.texts(),
                s_ci == range.start.character_index as int,
                first == range.start.paragraph_index,
                last == range.end.paragraph_index,
                spec_range_valid(texts, range.start, range.end),
                pi == first ==> buffer@ == Seq::<char>::empty(),
                first < pi && pi <= last ==> buffer@ == spec_copy_string(
                    texts,
                    first as int,
                    s_ci,
                    pi - 1,
                    texts[pi - 1].len() as int,
                ),
                pi == last + 1 ==> buffer@ == spec_copy_string(
                    texts,
                    first as int,
                    s_ci,
                    last as int,
                    range.end.character_index as int,
                ),
            decreases last + 1 - pi,
        {
            let char_start = if pi == first {
                range.start.character_index
            } else {
                0
            };
            let char_end = if pi == last {
                range.end.character_index
            } else {
                self.paragraphs[pi].char_len()
            };
            let ghost buffer_before = buffer@;
            if pi != first {
                push_char(&mut buffer, '\n');
            }
            proof {
                assert(texts[pi as int] == self.paragraphs@[pi as int]@.text);
            }
            let copied = self.paragraphs[pi].copy_string_in_range(
                &mut buffer,
                char_start..char_end,
            );
            match copied {
                Ok(()) => {},
                Err(_) => {
                    proof {
                        assert(false);
                    }
                },
            }
            proof {
                let slice = texts[pi as int].subrange(char_start as int, char_end as int);
                if pi == first {
                    if pi == last {
                        assert(buffer@ =~= spec_copy_string(
                            texts,
                            first as int,
                            s_ci,
                            last as int,
                            range.end.character_index as int,
                        ));
                    } else {
                        assert(buffer@ =~= spec_copy_string(
                            texts,
                            first as int,
                            s_ci,
                            pi as int,
                            texts[pi as int].len() as int,
                        ));
                    }
                } else {
                    lemma_copy_string_extend(texts, first as int, s_ci, pi - 1, char_end as int);
                    assert(buffer@ =~= buffer_before + seq!['\n'] + slice);
                    if pi == last {
                        assert(buffer@ =~= spec_copy_string(
                            texts,
                            first as int,
                            s_ci,
                            last as int,
                            range.end.character_index as int,
                        ));
                    } else {
                        assert(buffer@ =~= spec_copy_string(
                            texts,
                            first as int,
                            s_ci,
                            pi as int,
                            texts[pi as int].len() as int,
                        ));
                    }
                }
            }
            pi = pi + 1;
        }
        buffer
    }

    /// The text of the whole document: every paragraph's text, joined by
    /// single newlines.
    pub fn copy_string(&self) -> (r: String)
        ensures
            r@ == spec_copy_string(
                self@.texts(),
                0,
                0,
                spec_entire_end(self@.texts()).paragraph_index as int,
                spec_entire_end(self@.texts()).character_index as int,
            ),
    {
        let n = self.paragraphs.len();
        let range = self.entire_range();
        proof {
            let texts = self@.texts();
            assert(texts.len() == n);
            if n > 0 {
                assert(texts.last() == texts[texts.len() - 1]);
            }
        }
        self.copy_string_in_range(range)
    }
}

} // verus!
