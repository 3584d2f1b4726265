//! The output of the external text-shaping service, as plain data.
//!
//! Shaping one paragraph against a constraint box yields a `ShapedText`:
//! wrapped lines carrying their offsets within the box (in the service's
//! bottom-up vertical convention), their character ranges, their
//! typographic bounds, and their runs of uniformly formatted glyphs. The
//! layout pass consumes these values; it never calls the service itself.

use vstd::prelude::*;

use crate::geom::Point;

verus! {

/// Typographic measurements of a shaped span, all non-negative, in layout
/// units.
#[derive(Clone, Copy, Debug, PartialEq, Eq, Structural)]
pub struct TypographicBounds {
    pub width: u32,
    pub ascent: u32,
    pub descent: u32,
    pub leading: u32,
}

/// One maximal uniformly-formatted glyph span within a shaped line:
/// glyph identities, per-glyph pen positions (line-relative), the source
/// character range, and the span's typographic bounds.
#[derive(Debug)]
pub struct ShapedRun {
    pub char_start: usize,
    pub char_end: usize,
    pub glyphs: Vec<u16>,
    pub positions: Vec<Point>,
    pub bounds: TypographicBounds,
}

/// One wrapped line of a shaped paragraph. `origin_x` and `origin_up_y`
/// locate the line within the constraint box, `origin_up_y` measured
/// upward from the box's bottom edge, as the shaping service reports it.
#[derive(Debug)]
pub struct ShapedLine {
    pub origin_x: u32,
    pub origin_up_y: u32,
    pub char_start: usize,
    pub char_end: usize,
    pub bounds: TypographicBounds,
    pub runs: Vec<ShapedRun>,
}

/// The shaping service's result for one paragraph: its wrapped lines, in
/// top-to-bottom visual order.
#[derive(Debug)]
pub struct ShapedText {
    pub lines: Vec<ShapedLine>,
}

/// Reported when the shaping service fails on one paragraph.
#[derive(Clone, Copy, Debug, PartialEq, Eq, Structural)]
pub struct ShapingError {
    pub paragraph_index: usize,
}

/// The combined outcome of per-paragraph shaping: every paragraph's
/// shaped text when all of them shaped, otherwise the first failure.
pub open spec fn spec_collect(results: Seq<Result<ShapedText, ShapingError>>) -> Result<
    Seq<ShapedText>,
    ShapingError,
>
    decreases results.len(),
{
    if results.len() == 0 {
        Ok(Seq::empty())
    } else {
        match results[0] {
            Err(e) => Err(e),
            Ok(t) => match spec_collect(results.drop_first()) {
                Ok(rest) => Ok(seq![t] + rest),
                Err(e) => Err(e),
            },
        }
    }
}

/// When the entries before `k` succeeded and entry `k` failed, the
/// combined outcome is entry `k`'s failure.
proof fn lemma_collect_err(results: Seq<Result<ShapedText, ShapingError>>, k: int)
    requires
        0 <= k < results.len(),
        forall|j: int| 0 <= j < k ==> (#[trigger] results[j]) is Ok,
        results[k] is Err,
    ensures
        spec_collect(results) == Err::<Seq<ShapedText>, ShapingError>(results[k]->Err_0),
    decreases k,
{
    if k > 0 {
        lemma_collect_err(results.drop_first(), k - 1);
    }
}

/// When every entry succeeded, the combined outcome carries every
/// entry's shaped text, in order.
proof fn lemma_collect_ok(results: Seq<Result<ShapedText, ShapingError>>)
    requires
        forall|j: int| 0 <= j < results.len() ==> (#[trigger] results[j]) is Ok,
    ensures
        spec_collect(results) == Ok::<Seq<ShapedText>, ShapingError>(
            Seq::new(results.len(), |i: int| results[i]->Ok_0),
        ),
    decreases results.len(),
{
    if results.len() == 0 {
        assert(Seq::new(results.len(), |i: int| results[i]->Ok_0) =~= Seq::empty());
    } else {
        lemma_collect_ok(results.drop_first());
        assert(seq![results[0]->Ok_0] + Seq::new(
            results.drop_first().len(),
            |i: int| results.drop_first()[i]->Ok_0,
        ) =~= Seq::new(results.len(), |i: int| results[i]->Ok_0));
    }
}

/// Collects per-paragraph shaping results into one result: all of them
/// when every paragraph shaped, otherwise the first failure. A layout
/// pass over a document fails as a whole when any paragraph's shaping
/// fails; no paragraph is silently dropped.
pub fn collect_shaped(results: Vec<Result<ShapedText, ShapingError>>) -> (r: Result<
    Vec<ShapedText>,
    ShapingError,
>)
    ensures
        r is Ok ==> spec_collect(results@) == Ok::<Seq<ShapedText>, ShapingError>(r->Ok_0@),
        r is Err ==> spec_collect(results@) == Err::<Seq<ShapedText>, ShapingError>(r->Err_0),
{
    let ghost orig = results@;
    let mut remaining = results;
    let mut collected: Vec<ShapedText> = Vec::new();
    let mut failure: Option<ShapingError> = None;
    let ghost k: int = 0;
    while failure.is_none() && remaining.len() > 0
        invariant
            0 <= k <= orig.len(),
            remaining@ == orig.skip(k),
            failure is None ==> {
                &&& collected@.len() == k
                &&& forall|i: int| 0 <= i < k ==> (#[trigger] orig[i]) is Ok
                &&& forall|i: int| 0 <= i < k ==> #[trigger] collected@[i] == orig[i]->Ok_0
            },
            failure matches Some(e) ==> spec_collect(orig) == Err::<
                Seq<ShapedText>,
                ShapingError,
            >(e),
        decreases remaining@.len(),
    {
        let item = remaining.remove(0);
        proof {
            assert(item == orig[k]);
            assert(remaining@ =~= orig.skip(k + 1));
        }
        match item {
            Ok(text) => {
                collected.push(text);
            },
            Err(e) => {
                proof {
                    lemma_collect_err(orig, k);
                }
                failure = Some(e);
            },
        }
        proof {
            k = k + 1;
        }
    }
    match failure {
        Some(e) => Err(e),
        None => {
            proof {
                assert(orig.skip(k).len() == 0);
                assert(k == orig.len());
                lemma_collect_ok(orig);
                assert(collected@ =~= Seq::new(orig.len(), |i: int| orig[i]->Ok_0));
            }
            Ok(collected)
        },
    }
}

} // verus!
