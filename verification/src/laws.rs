//! Library-wide laws: properties that relate several operations, stated
//! over the same spec functions the operations' contracts use.

use vstd::prelude::*;

use crate::document::spec_copy_string;
use crate::document::spec_entire_end;
use crate::format::Format;
use crate::paragraph::spec_splice;

verus! {

/// The concatenation of the given texts, joined by a single newline
/// between consecutive texts, with no trailing separator.
pub open spec fn spec_join(texts: Seq<Seq<char>>) -> Seq<char>
    decreases texts.len(),
{
    if texts.len() == 0 {
        Seq::empty()
    } else if texts.len() == 1 {
        texts[0]
    } else {
        texts[0] + seq!['\n'] + spec_join(texts.drop_first())
    }
}

/// Copying from the start of paragraph `f` through the end of the last
/// paragraph yields the paragraphs from `f` on, joined by newlines.
proof fn lemma_copy_suffix(texts: Seq<Seq<char>>, f: int)
    requires
        0 <= f < texts.len(),
    ensures
        spec_copy_string(texts, f, 0, texts.len() - 1, texts.last().len() as int) == spec_join(
            texts.skip(f),
        ),
    decreases texts.len() - f,
{
    if f == texts.len() - 1 {
        assert(texts.skip(f).len() == 1);
        assert(texts.skip(f)[0] == texts[f]);
        assert(texts.last() == texts[f]);
        assert(texts[f].subrange(0, texts[f].len() as int) =~= texts[f]);
    } else {
        lemma_copy_suffix(texts, f + 1);
        assert(texts[f].subrange(0, texts[f].len() as int) =~= texts[f]);
        assert(texts.skip(f).drop_first() =~= texts.skip(f + 1));
        assert(texts.skip(f)[0] == texts[f]);
    }
}

/// Whole-document reconstruction: copying a document's entire range
/// yields exactly the concatenation of its paragraphs' texts joined by
/// single newlines, with no trailing separator.
pub proof fn lemma_copy_string_entire_range(texts: Seq<Seq<char>>)
    requires
        texts.len() <= usize::MAX,
        texts.len() > 0 ==> texts.last().len() <= usize::MAX,
    ensures
        spec_copy_string(
            texts,
            0,
            0,
            spec_entire_end(texts).paragraph_index as int,
            spec_entire_end(texts).character_index as int,
        ) == spec_join(texts),
{
    if texts.len() > 0 {
        lemma_copy_suffix(texts, 0);
        assert(texts.skip(0) =~= texts);
    }
}

/// Insertion round trip: splicing `inserted` into a text at `pos` — what
/// committing a cursor opened at `pos` after pushing one string does —
/// grows the text by the insertion's length, and copying the range
/// `pos..pos + inserted.len()` out of the result gives the insertion
/// back exactly.
pub proof fn lemma_insertion_round_trip(text: Seq<char>, pos: int, inserted: Seq<char>)
    requires
        0 <= pos <= text.len(),
    ensures
        spec_splice(text, pos, inserted).len() == text.len() + inserted.len(),
        spec_splice(text, pos, inserted).subrange(pos, pos + inserted.len()) == inserted,
{
    assert(spec_splice(text, pos, inserted).subrange(pos, pos + inserted.len()) =~= inserted);
}

/// The format stack is strictly last-in, first-out: pushing three
/// formats and popping once leaves the first two, in order.
pub proof fn lemma_format_stack_lifo(stack: Seq<Format>, a: Format, b: Format, c: Format)
    ensures
        stack.push(a).push(b).push(c).drop_last() == stack.push(a).push(b),
        stack.push(a).push(b).push(c).last() == c,
{
    assert(stack.push(a).push(b).push(c).drop_last() =~= stack.push(a).push(b));
}

} // verus!
