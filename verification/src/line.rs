//! Lines and runs: the geometric decomposition of one laid-out frame.
//!
//! A line is one visually wrapped row of a frame's text, positioned
//! absolutely in top-down coordinates; a run is a maximal uniformly
//! formatted glyph span within a line, carrying glyph identities, glyph
//! positions, its source character range, and the flattened formats that
//! apply to that range.

use vstd::prelude::*;

use crate::format::Format;
use crate::format::clone_formats;
use crate::geom::Point;
use crate::geom::Rect;
use crate::geom::Size;
use crate::shaped::TypographicBounds;
use core::ops::Range;

verus! {

/// A glyph identifier, as the text-shaping service reports it.
pub type Glyph = u16;

/// Copies a glyph vector.
pub(crate) fn clone_glyphs(v: &Vec<u16>) -> (r: Vec<u16>)
    ensures
        r@ == v@,
{
    let mut r: Vec<u16> = Vec::new();
    let n = v.len();
    for i in 0..n
        invariant
            n == v@.len(),
            r@ =~= v@.take(i as int),
    {
        r.push(v[i]);
        proof {
            assert(r@ =~= v@.take(i + 1));
        }
    }
    proof {
        assert(v@.take(n as int) =~= v@);
    }
    r
}

/// Copies a vector of positions.
pub(crate) fn clone_points(v: &Vec<Point>) -> (r: Vec<Point>)
    ensures
        r@ == v@,
{
    let mut r: Vec<Point> = Vec::new();
    let n = v.len();
    for i in 0..n
        invariant
            n == v@.len(),
            r@ =~= v@.take(i as int),
    {
        r.push(v[i]);
        proof {
            assert(r@ =~= v@.take(i + 1));
        }
    }
    proof {
        assert(v@.take(n as int) =~= v@);
    }
    r
}

/// The mathematical content of a run.
pub struct RunV {
    pub char_start: int,
    pub char_end: int,
    pub glyphs: Seq<u16>,
    pub positions: Seq<Point>,
    pub bounds: TypographicBounds,
    pub formats: Seq<Format>,
}

/// A maximal uniformly-formatted glyph span within a line.
#[derive(Debug)]
pub struct Run {
    pub char_start: usize,
    pub char_end: usize,
    pub glyphs: Vec<u16>,
    pub positions: Vec<Point>,
    pub bounds: TypographicBounds,
    pub formats: Vec<Format>,
}

impl View for Run {
    type V = RunV;

    open spec fn view(&self) -> RunV {
        RunV {
            char_start: self.char_start as int,
            char_end: self.char_end as int,
            glyphs: self.glyphs@,
            positions: self.positions@,
            bounds: self.bounds,
            formats: self.formats@,
        }
    }
}

impl Clone for Run {
    fn clone(&self) -> (r: Self)
        ensures
            r@ == self@,
    {
        Run {
            char_start: self.char_start,
            char_end: self.char_end,
            glyphs: clone_glyphs(&self.glyphs),
            positions: clone_points(&self.positions),
            bounds: self.bounds,
            formats: clone_formats(&self.formats),
        }
    }
}

impl Run {
    /// The number of glyphs in the run.
    pub fn glyph_count(&self) -> (n: usize)
        ensures
            n == self@.glyphs.len(),
    {
        self.glyphs.len()
    }

    /// The run's glyph identities, in visual order.
    pub fn glyphs(&self) -> (r: Vec<u16>)
        ensures
            r@ == self@.glyphs,
    {
        clone_glyphs(&self.glyphs)
    }

    /// The pen position of each glyph, relative to the line.
    pub fn positions(&self) -> (r: Vec<Point>)
        ensures
            r@ == self@.positions,
    {
        clone_points(&self.positions)
    }

    /// The character range of the paragraph's text the run covers.
    pub fn char_range(&self) -> (r: Range<usize>)
        ensures
            r.start == self@.char_start,
            r.end == self@.char_end,
    {
        self.char_start..self.char_end
    }

    /// The flattened formats that apply to the run's character range.
    pub fn formatting(&self) -> (r: Vec<Format>)
        ensures
            r@ == self@.formats,
    {
        clone_formats(&self.formats)
    }

    /// The run's typographic bounds.
    pub fn typographic_bounds(&self) -> (r: TypographicBounds)
        ensures
            r == self@.bounds,
    {
        self.bounds
    }
}

/// The mathematical content of a line.
pub struct LineV {
    pub origin: Point,
    pub char_start: int,
    pub char_end: int,
    pub bounds: TypographicBounds,
    pub runs: Seq<RunV>,
}

impl LineV {
    /// The line's coordinates are small enough that geometric arithmetic
    /// on them cannot overflow; lines realized by a layout satisfy this.
    pub open spec fn wf(&self) -> bool {
        &&& -0x4_0000_0000_0000 <= self.origin.x <= 0x4_0000_0000_0000
        &&& -0x4_0000_0000_0000 <= self.origin.y <= 0x4100_0000_0000_0000
    }

    /// The line's bounding rectangle: its width, spanning from its ascent
    /// above the baseline origin to its descent below.
    pub open spec fn spec_bounding_rect(&self) -> Rect {
        Rect {
            origin: Point { x: self.origin.x, y: (self.origin.y - self.bounds.ascent) as i64 },
            size: Size {
                width: self.bounds.width as i64,
                height: (self.bounds.ascent + self.bounds.descent) as i64,
            },
        }
    }
}

/// One visually wrapped line within a frame, positioned absolutely in
/// top-down coordinates.
#[derive(Debug)]
pub struct Line {
    pub origin: Point,
    pub char_start: usize,
    pub char_end: usize,
    pub bounds: TypographicBounds,
    pub runs: Vec<Run>,
}

impl View for Line {
    type V = LineV;

    open spec fn view(&self) -> LineV {
        LineV {
            origin: self.origin,
            char_start: self.char_start as int,
            char_end: self.char_end as int,
            bounds: self.bounds,
            runs: self.runs@.map_values(|r: Run| r@),
        }
    }
}

impl Line {
    /// The line's absolute baseline origin.
    pub fn origin(&self) -> (p: Point)
        ensures
            p == self@.origin,
    {
        self.origin
    }

    /// The line's runs, in visual order.
    pub fn runs(&self) -> (r: Vec<Run>)
        ensures
            r@.map_values(|x: Run| x@) == self@.runs,
    {
        let mut r: Vec<Run> = Vec::new();
        let n = self.runs.len();
        for i in 0..n
            invariant
                n == self.runs@.len(),
                r@.len() == i,
                forall|j: int| 0 <= j < i ==> #[trigger] r@[j]@ == self.runs@[j]@,
        {
            r.push(self.runs[i].clone());
        }
        proof {
            assert(r@.map_values(|x: Run| x@) =~= self@.runs);
        }
        r
    }

    /// The character range of the paragraph's text the line covers.
    pub fn char_range(&self) -> (r: Range<usize>)
        ensures
            r.start == self@.char_start,
            r.end == self@.char_end,
    {
        self.char_start..self.char_end
    }

    /// The line's typographic bounds.
    pub fn typographic_bounds(&self) -> (r: TypographicBounds)
        ensures
            r == self@.bounds,
    {
        self.bounds
    }

    /// The line's bounding rectangle, in absolute top-down coordinates.
    pub fn typographic_bounding_rect(&self) -> (r: Rect)
        requires
            self@.wf(),
        ensures
            r == self@.spec_bounding_rect(),
    {
        Rect {
            origin: Point { x: self.origin.x, y: self.origin.y - self.bounds.ascent as i64 },
            size: Size {
                width: self.bounds.width as i64,
                height: self.bounds.ascent as i64 + self.bounds.descent as i64,
            },
        }
    }
}

} // verus!
