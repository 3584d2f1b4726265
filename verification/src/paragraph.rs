//! One block-level unit of styled text, and the cursor protocol through
//! which it is edited.
//!
//! A paragraph stores a character sequence together with the flattened
//! attribute set of every character. It is mutated only through a
//! `ParagraphCursor`: the cursor batches string insertions under a stacked
//! formatting context and splices them into the paragraph atomically on
//! commit. While a cursor is outstanding the paragraph is checked out for
//! editing and no second cursor can be opened.

use vstd::prelude::*;

use crate::format::Format;
use crate::format::clone_formats;
use crate::format::flatten_formats;
use crate::format::spec_flatten;
use crate::style::ParagraphStyle;
use crate::text::chars_of;
use crate::text::push_char;
use core::ops::Range;

verus! {

/// Reported when a queried character range reaches past the end of a
/// paragraph's text.
#[derive(Clone, Copy, Debug, PartialEq, Eq, Structural)]
pub struct RangeError;

/// The sequence obtained by inserting `ins` into `s` at position `pos`.
pub open spec fn spec_splice<T>(s: Seq<T>, pos: int, ins: Seq<T>) -> Seq<T> {
    s.take(pos) + ins + s.skip(pos)
}

/// The formatting that applies to text inserted at position `pos`: the
/// attribute set of the character at `pos`, or of the last character when
/// the position is the end of the text, or nothing in an empty paragraph.
pub open spec fn spec_insertion_context(formats: Seq<Seq<Format>>, pos: int) -> Seq<Format> {
    if formats.len() == 0 {
        Seq::empty()
    } else if pos < formats.len() {
        formats[pos]
    } else {
        formats[formats.len() - 1]
    }
}

/// The mathematical content of a paragraph: its characters, the flattened
/// attribute set of each character, its style, and whether a cursor has it
/// checked out.
pub struct ParagraphV {
    pub text: Seq<char>,
    pub formats: Seq<Seq<Format>>,
    pub style: ParagraphStyle,
    pub editing: bool,
}

impl ParagraphV {
    /// Each stored character carries exactly one attribute set.
    pub open spec fn wf(&self) -> bool {
        self.text.len() == self.formats.len()
    }
}

/// One paragraph of styled text.
pub struct Paragraph {
    chars: Vec<char>,
    formats: Vec<Vec<Format>>,
    style: ParagraphStyle,
    editing: bool,
}

impl View for Paragraph {
    type V = ParagraphV;

    closed spec fn view(&self) -> ParagraphV {
        ParagraphV {
            text: self.chars@,
            formats: self.formats@.map_values(|v: Vec<Format>| v@),
            style: self.style,
            editing: self.editing,
        }
    }
}

impl Paragraph {
    /// Creates an empty paragraph with the given style.
    pub fn new(style: ParagraphStyle) -> (p: Paragraph)
        ensures
            p@.wf(),
            p@.text == Seq::<char>::empty(),
            p@.formats == Seq::<Seq<Format>>::empty(),
            p@.style == style,
            !p@.editing,
    {
        let p = Paragraph { chars: Vec::new(), formats: Vec::new(), style, editing: false };
        proof {
            assert(p@.text =~= Seq::<char>::empty());
            assert(p@.formats =~= Seq::<Seq<Format>>::empty());
        }
        p
    }

    /// Creates a paragraph holding the given text, with no formatting
    /// spans attached.
    pub fn from_string(string: &str, style: ParagraphStyle) -> (p: Paragraph)
        ensures
            p@.wf(),
            p@.text == string@,
            p@.formats.len() == string@.len(),
            forall|i: int| 0 <= i < string@.len() ==> p@.formats[i] == Seq::<Format>::empty(),
            p@.style == style,
            !p@.editing,
    {
        let chars = chars_of(string);
        let mut formats: Vec<Vec<Format>> = Vec::new();
        let n = chars.len();
        for i in 0..n
            invariant
                formats@.len() == i,
                forall|j: int| 0 <= j < i ==> #[trigger] formats@[j]@ == Seq::<Format>::empty(),
        {
            formats.push(Vec::new());
        }
        let p = Paragraph { chars, formats, style, editing: false };
        p
    }

    /// The number of characters currently stored.
    pub fn char_len(&self) -> (n: usize)
        ensures
            n == self@.text.len(),
    {
        self.chars.len()
    }

    /// The paragraph's style.
    pub fn style(&self) -> (s: &ParagraphStyle)
        ensures
            *s == self@.style,
    {
        &self.style
    }

    /// Whether a cursor currently has this paragraph checked out.
    pub fn is_editing(&self) -> (r: bool)
        ensures
            r == self@.editing,
    {
        self.editing
    }

    /// Appends the characters of `range` to `buffer`, format-agnostic.
    /// Reports an out-of-range error, and leaves `buffer` untouched, when
    /// the range reaches past the end of the text.
    pub fn copy_string_in_range(&self, buffer: &mut String, range: Range<usize>) -> (r: Result<
        (),
        RangeError,
    >)
        requires
            range.start <= range.end,
        ensures
            match r {
                Ok(()) => {
                    &&& range.end <= self@.text.len()
                    &&& final(buffer)@ == old(buffer)@ + self@.text.subrange(
                        range.start as int,
                        range.end as int,
                    )
                },
                Err(RangeError) => {
                    &&& range.end > self@.text.len()
                    &&& final(buffer)@ == old(buffer)@
                },
            },
    {
        if range.end > self.chars.len() {
            return Err(RangeError);
        }
        let mut i = range.start;
        while i < range.end
            invariant
                range.start <= i <= range.end <= self.chars@.len(),
                buffer@ =~= old(buffer)@ + self.chars@.subrange(range.start as int, i as int),
            decreases range.end - i,
        {
            push_char(buffer, self.chars[i]);
            i = i + 1;
            proof {
                assert(buffer@ =~= old(buffer)@ + self.chars@.subrange(
                    range.start as int,
                    i as int,
                ));
            }
        }
        Ok(())
    }

    /// A copy of the paragraph's characters.
    pub fn snapshot_text(&self) -> (r: Vec<char>)
        ensures
            r@ == self@.text,
    {
        crate::text::clone_chars(&self.chars)
    }

    /// A copy of the paragraph's per-character attribute table.
    pub fn snapshot_formats(&self) -> (r: Vec<Vec<Format>>)
        ensures
            r@.map_values(|x: Vec<Format>| x@) == self@.formats,
    {
        crate::format::clone_formats_2d(&self.formats)
    }

    /// Opens an editing cursor at `position`, checking the paragraph out.
    /// The cursor's format stack starts from the insertion context at
    /// `position`, so inserted text continues the surrounding style.
    pub fn edit_at(&mut self, position: usize) -> (c: ParagraphCursor)
        requires
            old(self)@.wf(),
            !old(self)@.editing,
            position <= old(self)@.text.len(),
        ensures
            final(self)@.text == old(self)@.text,
            final(self)@.formats == old(self)@.formats,
            final(self)@.style == old(self)@.style,
            final(self)@.editing,
            final(self)@.wf(),
            c@.wf(),
            c@.position == position,
            c@.buf_text == Seq::<char>::empty(),
            c@.buf_formats == Seq::<Seq<Format>>::empty(),
            c@.stack == spec_insertion_context(old(self)@.formats, position as int),
    {
        let stack: Vec<Format> = if self.chars.len() == 0 {
            Vec::new()
        } else if position < self.chars.len() {
            clone_formats(&self.formats[position])
        } else {
            clone_formats(&self.formats[self.chars.len() - 1])
        };
        self.editing = true;
        let c = ParagraphCursor {
            position,
            buf_chars: Vec::new(),
            buf_formats: Vec::new(),
            format_stack: stack,
        };
        proof {
            assert(c@.buf_text =~= Seq::<char>::empty());
            assert(c@.buf_formats =~= Seq::<Seq<Format>>::empty());
        }
        c
    }

    /// Opens an editing cursor at `position` after checking at run time
    /// what `edit_at` asks of its caller; fails, changing nothing, when
    /// the position is out of bounds or another cursor already has the
    /// paragraph checked out.
    pub fn try_edit_at(&mut self, position: usize) -> (r: Option<ParagraphCursor>)
        requires
            old(self)@.wf(),
        ensures
            match r {
                Some(c) => {
                    &&& position <= old(self)@.text.len()
                    &&& !old(self)@.editing
                    &&& final(self)@.text == old(self)@.text
                    &&& final(self)@.formats == old(self)@.formats
                    &&& final(self)@.style == old(self)@.style
                    &&& final(self)@.editing
                    &&& final(self)@.wf()
                    &&& c@.wf()
                    &&& c@.position == position
                    &&& c@.buf_text == Seq::<char>::empty()
                    &&& c@.buf_formats == Seq::<Seq<Format>>::empty()
                    &&& c@.stack == spec_insertion_context(old(self)@.formats, position as int)
                },
                None => {
                    &&& (position > old(self)@.text.len() || old(self)@.editing)
                    &&& final(self)@ == old(self)@
                },
            },
    {
        if position <= self.chars.len() && !self.editing {
            Some(self.edit_at(position))
        } else {
            None
        }
    }
}

/// The mathematical content of an editing cursor: the edit position, the
/// pending text with its per-character attribute sets, and the format
/// stack.
pub struct ParagraphCursorV {
    pub position: int,
    pub buf_text: Seq<char>,
    pub buf_formats: Seq<Seq<Format>>,
    pub stack: Seq<Format>,
}

impl ParagraphCursorV {
    /// Each buffered character carries exactly one attribute set.
    pub open spec fn wf(&self) -> bool {
        self.buf_text.len() == self.buf_formats.len()
    }
}

/// A transactional edit scope over one paragraph: insertions pushed into
/// the cursor become visible only when the cursor is committed.
pub struct ParagraphCursor {
    position: usize,
    buf_chars: Vec<char>,
    buf_formats: Vec<Vec<Format>>,
    format_stack: Vec<Format>,
}

impl View for ParagraphCursor {
    type V = ParagraphCursorV;

    closed spec fn view(&self) -> ParagraphCursorV {
        ParagraphCursorV {
            position: self.position as int,
            buf_text: self.buf_chars@,
            buf_formats: self.buf_formats@.map_values(|v: Vec<Format>| v@),
            stack: self.format_stack@,
        }
    }
}

impl ParagraphCursor {
    /// Appends `string` to the pending buffer; every appended character
    /// is tagged with the current flattened attribute set of the format
    /// stack.
    pub fn push_string(&mut self, string: &str)
        requires
            old(self)@.wf(),
        ensures
            final(self)@.wf(),
            final(self)@.position == old(self)@.position,
            final(self)@.stack == old(self)@.stack,
            final(self)@.buf_text == old(self)@.buf_text + string@,
            final(self)@.buf_formats == old(self)@.buf_formats + Seq::new(
                string@.len(),
                |i: int| spec_flatten(old(self)@.stack),
            ),
    {
        let chars = chars_of(string);
        let flat = flatten_formats(&self.format_stack);
        let n = chars.len();
        let ghost old_view = self@;
        let ghost base = self.buf_formats@.len();
        let mut i: usize = 0;
        while i < n
            invariant
                0 <= i <= n,
                n == chars@.len(),
                chars@ == string@,
                flat@ == spec_flatten(old_view.stack),
                self.format_stack@ == old_view.stack,
                self.position == old_view.position,
                self.buf_chars@ == old_view.buf_text + chars@.take(i as int),
                base == old_view.buf_formats.len(),
                self.buf_formats@.len() == base + i,
                forall|k: int|
                    0 <= k < base ==> #[trigger] self.buf_formats@[k]@
                        == old_view.buf_formats[k],
                forall|k: int|
                    base <= k < self.buf_formats@.len() ==> #[trigger] self.buf_formats@[k]@
                        == spec_flatten(old_view.stack),
            decreases n - i,
        {
            self.buf_chars.push(chars[i]);
            self.buf_formats.push(clone_formats(&flat));
            i = i + 1;
            proof {
                assert(self.buf_chars@ =~= old_view.buf_text + chars@.take(i as int));
            }
        }
        proof {
            assert(chars@.take(n as int) =~= string@);
            assert(self@.buf_formats =~= old_view.buf_formats + Seq::new(
                string@.len(),
                |j: int| spec_flatten(old_view.stack),
            ));
        }
    }

    /// Pushes a format onto the stack; it applies to text pushed later,
    /// overriding outer entries of the same kind.
    pub fn push_format(&mut self, format: Format)
        ensures
            final(self)@.position == old(self)@.position,
            final(self)@.buf_text == old(self)@.buf_text,
            final(self)@.buf_formats == old(self)@.buf_formats,
            final(self)@.stack == old(self)@.stack.push(format),
    {
        self.format_stack.push(format);
    }

    /// Pops the innermost format and returns it. Popping an empty stack
    /// is reported as `None` and changes nothing: formats must be popped
    /// in strict last-in, first-out order.
    pub fn pop_format(&mut self) -> (r: Option<Format>)
        ensures
            final(self)@.position == old(self)@.position,
            final(self)@.buf_text == old(self)@.buf_text,
            final(self)@.buf_formats == old(self)@.buf_formats,
            match r {
                Some(f) => {
                    &&& old(self)@.stack.len() > 0
                    &&& f == old(self)@.stack.last()
                    &&& final(self)@.stack == old(self)@.stack.drop_last()
                },
                None => {
                    &&& old(self)@.stack.len() == 0
                    &&& final(self)@.stack == old(self)@.stack
                },
            },
    {
        self.format_stack.pop()
    }

    /// The current format stack, outermost first.
    pub fn format_stack(&self) -> (r: &Vec<Format>)
        ensures
            r@ == self@.stack,
    {
        &self.format_stack
    }

    /// The position this cursor edits at.
    pub fn position(&self) -> (r: usize)
        ensures
            r == self@.position,
    {
        self.position
    }

    /// Atomically splices the pending buffer into `paragraph` at the edit
    /// position and releases the edit checkout. This is the only way an
    /// edit becomes visible.
    pub fn commit(self, paragraph: &mut Paragraph)
        requires
            old(paragraph)@.wf(),
            old(paragraph)@.editing,
            self@.wf(),
            self@.position <= old(paragraph)@.text.len(),
        ensures
            final(paragraph)@.wf(),
            final(paragraph)@.text == spec_splice(
                old(paragraph)@.text,
                self@.position,
                self@.buf_text,
            ),
            final(paragraph)@.formats == spec_splice(
                old(paragraph)@.formats,
                self@.position,
                self@.buf_formats,
            ),
            final(paragraph)@.style == old(paragraph)@.style,
            !final(paragraph)@.editing,
    {
        let ParagraphCursor { position, mut buf_chars, mut buf_formats, format_stack: _ } = self;
        let ghost old_text = paragraph.chars@;
        let ghost old_formats = paragraph.formats@;
        let mut char_tail = paragraph.chars.split_off(position);
        paragraph.chars.append(&mut buf_chars);
        paragraph.chars.append(&mut char_tail);
        let mut format_tail = paragraph.formats.split_off(position);
        paragraph.formats.append(&mut buf_formats);
        paragraph.formats.append(&mut format_tail);
        paragraph.editing = false;
        proof {
            assert(paragraph.chars@ =~= spec_splice(old_text, position as int, self@.buf_text));
            assert(paragraph.formats@.map_values(|v: Vec<Format>| v@) =~= spec_splice(
                old_formats.map_values(|v: Vec<Format>| v@),
                position as int,
                self@.buf_formats,
            ));
        }
    }

    /// Discards the pending buffer and releases the edit checkout,
    /// leaving the paragraph exactly as it was.
    pub fn cancel(self, paragraph: &mut Paragraph)
        requires
            old(paragraph)@.editing,
        ensures
            final(paragraph)@.text == old(paragraph)@.text,
            final(paragraph)@.formats == old(paragraph)@.formats,
            final(paragraph)@.style == old(paragraph)@.style,
            !final(paragraph)@.editing,
    {
        paragraph.editing = false;
    }
}

} // verus!
