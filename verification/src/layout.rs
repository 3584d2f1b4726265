//! The layout engine: a framesetter snapshots a document for shaping, and
//! the placement pass stacks each paragraph's shaped text into a section
//! of vertically ordered frames.
//!
//! Shaping itself is the external text-shaping service's job: the caller
//! shapes each snapshot against the constraint box and hands the results
//! to `layout_in_rect` as plain `ShapedText` values.

use vstd::prelude::*;

use crate::document::Document;
use crate::format::Format;
use crate::format::clone_formats_2d;
use crate::geom::Point;
use crate::geom::Rect;
use crate::geom::Size;
use crate::line::Line;
use crate::line::LineV;
use crate::line::Run;
use crate::line::RunV;
use crate::line::clone_glyphs;
use crate::line::clone_points;
use crate::format::clone_formats;
use crate::shaped::ShapedRun;
use crate::shaped::ShapedText;
use crate::style::DocumentStyle;
use crate::style::ParagraphStyle;
use crate::text::clone_chars;

verus! {

/// No frame origin ever exceeds this extent; callers keep the total
/// stacked height of a layout within it.
pub const MAX_EXTENT: i64 = 0x4000_0000_0000_0000;

/// Reported when the shaped texts handed to a layout pass do not
/// correspond one-to-one with the framesetter's paragraphs.
#[derive(Clone, Copy, Debug, PartialEq, Eq, Structural)]
pub enum LayoutError {
    ShapingMismatch,
    CoordinateOverflow,
}

/// A point-in-time snapshot of one paragraph, taken when the framesetter
/// is built: the text, the per-character attribute table, and the style.
/// Later mutation of the document does not affect it.
#[derive(Debug)]
pub struct ParagraphSnapshot {
    pub chars: Vec<char>,
    pub formats: Vec<Vec<Format>>,
    pub style: ParagraphStyle,
}

impl ParagraphSnapshot {
    /// Each character carries exactly one attribute set.
    pub open spec fn wf(&self) -> bool {
        self.chars@.len() == self.formats@.len()
    }
}

/// The height of one paragraph's shaped text within a constraint box of
/// the given height: the distance from the box's top to the descent of
/// the last line, never negative; zero when there are no lines. Line
/// offsets are measured bottom-up, as the shaping service reports them.
pub open spec fn spec_frame_height(text: ShapedText, virtual_height: int) -> int {
    if text.lines@.len() == 0 {
        0
    } else {
        let last = text.lines@.last();
        let h = virtual_height - last.origin_up_y + last.bounds.descent;
        if h < 0 {
            0
        } else {
            h
        }
    }
}

/// The running vertical position after the first `k` frames are stacked:
/// the content box's top, advanced by each frame's top margin, realized
/// height, and bottom margin in turn.
pub open spec fn spec_stack_y(
    paragraphs: Seq<ParagraphSnapshot>,
    shaped: Seq<ShapedText>,
    content: Rect,
    k: int,
) -> int
    decreases k,
{
    if k <= 0 {
        content.origin.y as int
    } else {
        spec_stack_y(paragraphs, shaped, content, k - 1) + paragraphs[k - 1].style.margin.top
            + spec_frame_height(shaped[k - 1], content.size.height as int) + paragraphs[k
            - 1].style.margin.bottom
    }
}

/// The total vertical extent of a layout: the running position after
/// every frame is stacked.
pub open spec fn spec_layout_extent(
    paragraphs: Seq<ParagraphSnapshot>,
    shaped: Seq<ShapedText>,
    content: Rect,
) -> int {
    spec_stack_y(paragraphs, shaped, content, paragraphs.len() as int)
}

/// The mathematical content of a laid-out frame: the paragraph's text and
/// attribute table, its shaped lines, its style, the virtual content box
/// it was shaped against, its realized origin, and its realized height.
pub struct FrameV {
    pub text: Seq<char>,
    pub formats: Seq<Seq<Format>>,
    pub shaped: ShapedText,
    pub style: ParagraphStyle,
    pub virtual_size: Size,
    pub origin: Point,
    pub height: i64,
}

impl FrameV {
    /// The y coordinate of the frame's top edge.
    pub open spec fn spec_top(&self) -> int {
        self.origin.y as int
    }

    /// The y coordinate of the frame's bottom edge.
    pub open spec fn spec_bottom(&self) -> int {
        self.origin.y + self.height
    }

    /// The frame's bounding rectangle: its origin, its virtual width, and
    /// its realized height.
    pub open spec fn spec_bounds(&self) -> Rect {
        Rect {
            origin: self.origin,
            size: Size { width: self.virtual_size.width, height: self.height },
        }
    }

    /// The frame's data is consistent and its coordinates are small
    /// enough that geometric arithmetic on them cannot overflow.
    pub open spec fn wf(&self) -> bool {
        &&& self.text.len() == self.formats.len()
        &&& 0 <= self.height <= 0x1_0000_0000_0000
        &&& -0x1_0000_0000_0000 <= self.origin.x <= 0x1_0000_0000_0000
        &&& -0x8000_0000_0000 <= self.origin.y <= MAX_EXTENT
        &&& -0x8000_0000_0000 <= self.virtual_size.height <= 0x8000_0000_0000
        &&& self.height == spec_frame_height(self.shaped, self.virtual_size.height as int)
    }
}

/// The frame a paragraph realizes, given the content box and the running
/// vertical position at which stacking reached it.
pub open spec fn spec_frame(
    paragraph: ParagraphSnapshot,
    shaped: ShapedText,
    content: Rect,
    stack_y: int,
) -> FrameV {
    FrameV {
        text: paragraph.chars@,
        formats: paragraph.formats@.map_values(|v: Vec<Format>| v@),
        shaped: shaped,
        style: paragraph.style,
        virtual_size: Size {
            width: (content.size.width - paragraph.style.margin.spec_horizontal()) as i64,
            height: content.size.height,
        },
        origin: Point {
            x: (content.origin.x + paragraph.style.margin.left) as i64,
            y: (stack_y + paragraph.style.margin.top) as i64,
        },
        height: spec_frame_height(shaped, content.size.height as int) as i64,
    }
}

/// The frames a layout pass realizes: one per paragraph, in document
/// order, stacked top-down within the content box.
pub open spec fn spec_layout_frames(
    paragraphs: Seq<ParagraphSnapshot>,
    shaped: Seq<ShapedText>,
    content: Rect,
) -> Seq<FrameV> {
    Seq::new(
        paragraphs.len(),
        |k: int|
            spec_frame(
                paragraphs[k],
                shaped[k],
                content,
                spec_stack_y(paragraphs, shaped, content, k),
            ),
    )
}

/// The content box's coordinates are moderate: what an in-bounds input
/// rectangle leaves after document margins are taken.
pub open spec fn content_in_bounds(content: Rect) -> bool {
    &&& -0x8000_0000_0000 <= content.origin.x <= 0x8000_0000_0000
    &&& -0x8000_0000_0000 <= content.origin.y <= 0x8000_0000_0000
    &&& -0x8000_0000_0000 <= content.size.width <= 0x8000_0000_0000
    &&& -0x8000_0000_0000 <= content.size.height <= 0x8000_0000_0000
}

/// A point lies vertically inside a frame when it is at or below the
/// frame's top edge and strictly above its bottom edge.
pub open spec fn spec_point_in_frame_vertically(frame: FrameV, point: Point) -> bool {
    frame.spec_top() <= point.y < frame.spec_bottom()
}

/// Every frame is well formed, and the frames occupy strictly
/// non-overlapping vertical extents, in increasing order.
pub open spec fn spec_frames_ordered(frames: Seq<FrameV>) -> bool {
    &&& forall|i: int| 0 <= i < frames.len() ==> (#[trigger] frames[i]).wf()
    &&& forall|i: int, j: int|
        #![trigger frames[i], frames[j]]
        0 <= i < j < frames.len() ==> frames[i].spec_bottom() <= frames[j].spec_top()
}

/// The flattened attribute set that applies at character `index`:
/// the character's own set, or nothing outside the text.
pub open spec fn spec_run_formats(formats: Seq<Seq<Format>>, index: int) -> Seq<Format> {
    if 0 <= index < formats.len() {
        formats[index]
    } else {
        Seq::empty()
    }
}

/// The run a shaped run realizes: its glyphs, positions, range and
/// bounds, together with the formats applying to its character range.
pub open spec fn spec_run_of(formats: Seq<Seq<Format>>, shaped_run: ShapedRun) -> RunV {
    RunV {
        char_start: shaped_run.char_start as int,
        char_end: shaped_run.char_end as int,
        glyphs: shaped_run.glyphs@,
        positions: shaped_run.positions@,
        bounds: shaped_run.bounds,
        formats: spec_run_formats(formats, shaped_run.char_start as int),
    }
}

/// The line a frame's `k`-th shaped line realizes: its absolute origin is
/// the frame's origin plus the line's offset within the box, the vertical
/// offset flipped from the shaping service's bottom-up convention to
/// top-down coordinates.
pub open spec fn spec_line(frame: FrameV, k: int) -> LineV {
    let sl = frame.shaped.lines@[k];
    LineV {
        origin: Point {
            x: (frame.origin.x + sl.origin_x) as i64,
            y: (frame.origin.y + frame.virtual_size.height - sl.origin_up_y) as i64,
        },
        char_start: sl.char_start as int,
        char_end: sl.char_end as int,
        bounds: sl.bounds,
        runs: Seq::new(sl.runs@.len(), |j: int| spec_run_of(frame.formats, sl.runs@[j])),
    }
}

/// The lines a frame realizes, in the shaping service's visual order.
pub open spec fn spec_lines(frame: FrameV) -> Seq<LineV> {
    Seq::new(frame.shaped.lines@.len(), |k: int| spec_line(frame, k))
}

/// A point lies vertically inside a line when it falls within the line's
/// bounding rectangle vertically: at or below the line's ascent above its
/// origin, strictly above its descent below it.
pub open spec fn spec_point_in_line_vertically(line: LineV, point: Point) -> bool {
    line.origin.y - line.bounds.ascent <= point.y < line.origin.y + line.bounds.descent
}

/// The lines occupy non-overlapping vertical extents, in increasing
/// order; a sane shaping service always produces such lines.
pub open spec fn spec_lines_vertically_ordered(lines: Seq<LineV>) -> bool {
    forall|i: int, j: int|
        #![trigger lines[i], lines[j]]
        0 <= i < j < lines.len() ==> lines[i].origin.y + lines[i].bounds.descent <= lines[j].origin.y
            - lines[j].bounds.ascent
}

/// Stacking never moves upward: the running vertical position is
/// monotone in the number of frames stacked.
pub proof fn lemma_stack_y_monotone(
    paragraphs: Seq<ParagraphSnapshot>,
    shaped: Seq<ShapedText>,
    content: Rect,
    k1: int,
    k2: int,
)
    requires
        0 <= k1 <= k2,
    ensures
        spec_stack_y(paragraphs, shaped, content, k1) <= spec_stack_y(
            paragraphs,
            shaped,
            content,
            k2,
        ),
    decreases k2 - k1,
{
    if k1 < k2 {
        lemma_stack_y_monotone(paragraphs, shaped, content, k1, k2 - 1);
    }
}

/// Vertical ordering invariant of a layout: the frames the placement
/// pass realizes are well formed and vertically non-overlapping — every
/// frame's bottom edge lies at or above the next frame's top edge.
pub proof fn lemma_layout_frames_ordered(
    paragraphs: Seq<ParagraphSnapshot>,
    shaped: Seq<ShapedText>,
    content: Rect,
)
    requires
        shaped.len() == paragraphs.len(),
        forall|i: int| 0 <= i < paragraphs.len() ==> (#[trigger] paragraphs[i]).wf(),
        content_in_bounds(content),
        spec_layout_extent(paragraphs, shaped, content) <= MAX_EXTENT,
    ensures
        spec_frames_ordered(spec_layout_frames(paragraphs, shaped, content)),
{
    let frames = spec_layout_frames(paragraphs, shaped, content);
    assert forall|i: int| 0 <= i < frames.len() implies (#[trigger] frames[i]).wf() by {
        lemma_stack_y_monotone(paragraphs, shaped, content, 0, i);
        lemma_stack_y_monotone(paragraphs, shaped, content, i + 1, paragraphs.len() as int);
        assert(spec_stack_y(paragraphs, shaped, content, i + 1) == spec_stack_y(
            paragraphs,
            shaped,
            content,
            i,
        ) + paragraphs[i].style.margin.top + spec_frame_height(shaped[i], content.size.height as int)
            + paragraphs[i].style.margin.bottom);
    }
    assert forall|i: int, j: int|
        #![trigger frames[i], frames[j]]
        0 <= i < j < frames.len() implies frames[i].spec_bottom() <= frames[j].spec_top() by {
        let n = paragraphs.len() as int;
        lemma_stack_y_monotone(paragraphs, shaped, content, 0, i);
        lemma_stack_y_monotone(paragraphs, shaped, content, i + 1, j);
        lemma_stack_y_monotone(paragraphs, shaped, content, j + 1, n);
        assert(spec_stack_y(paragraphs, shaped, content, i + 1) == spec_stack_y(
            paragraphs,
            shaped,
            content,
            i,
        ) + paragraphs[i].style.margin.top + spec_frame_height(shaped[i], content.size.height as int)
            + paragraphs[i].style.margin.bottom);
        assert(spec_stack_y(paragraphs, shaped, content, j + 1) == spec_stack_y(
            paragraphs,
            shaped,
            content,
            j,
        ) + paragraphs[j].style.margin.top + spec_frame_height(shaped[j], content.size.height as int)
            + paragraphs[j].style.margin.bottom);
    }
}

/// Layout is a pure function of its inputs: laying out the same
/// framesetter content against the same rectangle with the same shaped
/// texts yields sections with the same frame count, origins, and heights.
pub proof fn lemma_layout_idempotent(
    paragraphs: Seq<ParagraphSnapshot>,
    shaped: Seq<ShapedText>,
    content: Rect,
    first: Seq<FrameV>,
    second: Seq<FrameV>,
)
    requires
        first == spec_layout_frames(paragraphs, shaped, content),
        second == spec_layout_frames(paragraphs, shaped, content),
    ensures
        first == second,
        first.len() == second.len(),
        forall|i: int|
            0 <= i < first.len() ==> (#[trigger] first[i]).origin == second[i].origin && first[
                i
            ].height == second[i].height,
{
}

/// The realized height of one shaped text within a constraint box of the
/// given height, computed as `spec_frame_height` prescribes.
fn frame_height_of(text: &ShapedText, virtual_height: i64) -> (h: i64)
    requires
        -0x8000_0000_0000 <= virtual_height <= 0x8000_0000_0000,
    ensures
        h == spec_frame_height(*text, virtual_height as int),
        0 <= h <= 0x1_0000_0000_0000,
{
    let line_count = text.lines.len();
    if line_count == 0 {
        0
    } else {
        let last = &text.lines[line_count - 1];
        proof {
            assert(text.lines@.last() == text.lines@[line_count - 1]);
        }
        let raw = virtual_height - last.origin_up_y as i64 + last.bounds.descent as i64;
        if raw < 0 {
            0
        } else {
            raw
        }
    }
}

/// One laid-out paragraph: its snapshot content, its shaped lines, the
/// virtual content box it was shaped against, its realized origin (set by
/// the stacking pass), and its realized height.
#[derive(Debug)]
pub struct Frame {
    chars: Vec<char>,
    formats: Vec<Vec<Format>>,
    shaped: ShapedText,
    style: ParagraphStyle,
    virtual_size: Size,
    origin: Point,
    height: i64,
}

impl View for Frame {
    type V = FrameV;

    closed spec fn view(&self) -> FrameV {
        FrameV {
            text: self.chars@,
            formats: self.formats@.map_values(|v: Vec<Format>| v@),
            shaped: self.shaped,
            style: self.style,
            virtual_size: self.virtual_size,
            origin: self.origin,
            height: self.height,
        }
    }
}

impl Frame {
    /// The number of characters of the paragraph this frame lays out.
    pub fn char_len(&self) -> (n: usize)
        ensures
            n == self@.text.len(),
    {
        self.chars.len()
    }

    /// The paragraph style the frame was laid out with.
    pub fn style(&self) -> (s: &ParagraphStyle)
        ensures
            *s == self@.style,
    {
        &self.style
    }

    /// The frame's top-left origin.
    pub fn origin(&self) -> (p: Point)
        ensures
            p == self@.origin,
    {
        self.origin
    }

    /// The realized height of the frame: zero when it has no lines,
    /// otherwise the distance from the frame's top to the descent of its
    /// last line.
    pub fn height(&self) -> (h: i64)
        ensures
            h == self@.height,
    {
        self.height
    }

    /// The frame's bounding rectangle.
    pub fn bounds(&self) -> (r: Rect)
        ensures
            r == self@.spec_bounds(),
    {
        Rect {
            origin: self.origin,
            size: Size { width: self.virtual_size.width, height: self.height },
        }
    }

    /// Derives the frame's lines, freshly on each call: every shaped line
    /// gets an absolute origin (the frame's origin plus the line's offset,
    /// flipped to top-down coordinates against the virtual content
    /// height), and every run gets the formats of its character range.
    pub fn lines(&self) -> (r: Vec<Line>)
        requires
            self@.wf(),
        ensures
            r@.map_values(|l: Line| l@) == spec_lines(self@),
            forall|k: int| 0 <= k < r@.len() ==> (#[trigger] r@[k]@).wf(),
    {
        let mut result: Vec<Line> = Vec::new();
        let n = self.shaped.lines.len();
        for k in 0..n
            invariant
                self@.wf(),
                n == self.shaped.lines@.len(),
                result@.len() == k,
                forall|i: int|
                    0 <= i < k ==> #[trigger] result@[i]@ == spec_line(self@, i) && result@[
                        i
                    ]@.wf(),
        {
            let sl = &self.shaped.lines[k];
            let ox = self.origin.x + sl.origin_x as i64;
            let oy = self.origin.y + self.virtual_size.height - sl.origin_up_y as i64;
            let mut runs: Vec<Run> = Vec::new();
            let m = sl.runs.len();
            for j in 0..m
                invariant
                    self@.wf(),
                    n == self.shaped.lines@.len(),
                    k < n,
                    *sl == self.shaped.lines@[k as int],
                    m == sl.runs@.len(),
                    runs@.len() == j,
                    forall|i: int|
                        0 <= i < j ==> #[trigger] runs@[i]@ == spec_run_of(
                            self@.formats,
                            sl.runs@[i],
                        ),
            {
                let sr = &sl.runs[j];
                let fmts: Vec<Format> = if sr.char_start < self.formats.len() {
                    clone_formats(&self.formats[sr.char_start])
                } else {
                    Vec::new()
                };
                proof {
                    assert(fmts@ =~= spec_run_formats(self@.formats, sr.char_start as int));
                }
                runs.push(
                    Run {
                        char_start: sr.char_start,
                        char_end: sr.char_end,
                        glyphs: clone_glyphs(&sr.glyphs),
                        positions: clone_points(&sr.positions),
                        bounds: sr.bounds,
                        formats: fmts,
                    },
                );
            }
            let line = Line {
                origin: Point { x: ox, y: oy },
                char_start: sl.char_start,
                char_end: sl.char_end,
                bounds: sl.bounds,
                runs,
            };
            result.push(line);
            proof {
                assert(result@[k as int]@.runs =~= spec_line(self@, k as int).runs);
                assert(result@[k as int]@ == spec_line(self@, k as int));
            }
        }
        proof {
            assert(result@.map_values(|l: Line| l@) =~= spec_lines(self@));
        }
        result
    }

    /// Finds the line whose vertical bounding extent contains `point`,
    /// by binary search. A match always contains the point; when the
    /// shaping service produced vertically ordered, non-overlapping
    /// lines, no match means no line contains it.
    pub fn line_index_at_point(&self, point: &Point) -> (r: Option<usize>)
        requires
            self@.wf(),
        ensures
            match r {
                Some(i) => i < spec_lines(self@).len() && spec_point_in_line_vertically(
                    spec_lines(self@)[i as int],
                    *point,
                ),
                None => spec_lines_vertically_ordered(spec_lines(self@)) ==> forall|i: int|
                    0 <= i < spec_lines(self@).len() ==> !spec_point_in_line_vertically(
                        #[trigger] spec_lines(self@)[i],
                        *point,
                    ),
            },
    {
        let lines = self.lines();
        let ghost lv = spec_lines(self@);
        let mut lo: usize = 0;
        let mut hi: usize = lines.len();
        while lo < hi
            invariant
                lo <= hi <= lines@.len(),
                lv == spec_lines(self@),
                lines@.map_values(|l: Line| l@) == lv,
                lv.len() == lines@.len(),
                forall|k: int| 0 <= k < lines@.len() ==> (#[trigger] lines@[k]@).wf(),
                spec_lines_vertically_ordered(lv) ==> forall|i: int|
                    0 <= i < lo ==> point.y >= (#[trigger] lv[i]).origin.y + lv[i].bounds.descent,
                spec_lines_vertically_ordered(lv) ==> forall|i: int|
                    hi <= i < lv.len() ==> point.y < (#[trigger] lv[i]).origin.y
                        - lv[i].bounds.ascent,
            decreases hi - lo,
        {
            let mid = lo + (hi - lo) / 2;
            proof {
                assert(lines@[mid as int]@ == lv[mid as int]);
                assert(lv[mid as int].wf());
            }
            let top = lines[mid].origin.y - lines[mid].bounds.ascent as i64;
            let bottom = lines[mid].origin.y + lines[mid].bounds.descent as i64;
            if point.y < top {
                proof {
                    if spec_lines_vertically_ordered(lv) {
                        assert forall|i: int| mid <= i < lv.len() implies point.y < (
                        #[trigger] lv[i]).origin.y - lv[i].bounds.ascent by {
                            if i > mid {
                                assert(lv[mid as int].origin.y + lv[mid as int].bounds.descent
                                    <= lv[i].origin.y - lv[i].bounds.ascent);
                            }
                        }
                    }
                }
                hi = mid;
            } else if point.y >= bottom {
                proof {
                    if spec_lines_vertically_ordered(lv) {
                        assert forall|i: int| 0 <= i < mid + 1 implies point.y >= (
                        #[trigger] lv[i]).origin.y + lv[i].bounds.descent by {
                            if i < mid {
                                assert(lv[i].origin.y + lv[i].bounds.descent <= lv[
                                    mid as int
                                ].origin.y - lv[mid as int].bounds.ascent);
                            }
                        }
                    }
                }
                lo = mid + 1;
            } else {
                return Some(mid);
            }
        }
        None
    }
}

/// The realized layout of a document: its frames, one per paragraph, in
/// document order, vertically non-overlapping.
#[derive(Debug)]
pub struct Section {
    frames: Vec<Frame>,
}

impl View for Section {
    type V = Seq<FrameV>;

    closed spec fn view(&self) -> Seq<FrameV> {
        self.frames@.map_values(|f: Frame| f@)
    }
}

impl Section {
    #[verifier::type_invariant]
    spec fn type_inv(self) -> bool {
        spec_frames_ordered(self@)
    }

    /// The frames, in document order.
    pub fn frames(&self) -> (r: &Vec<Frame>)
        ensures
            r@.map_values(|f: Frame| f@) == self@,
            spec_frames_ordered(self@),
    {
        proof {
            use_type_invariant(self);
        }
        &self.frames
    }

    /// The number of frames.
    pub fn frame_count(&self) -> (n: usize)
        ensures
            n == self@.len(),
    {
        self.frames.len()
    }

    /// Finds the frame whose vertical extent contains `point`, by binary
    /// search over the frames' ordered, non-overlapping bounds. A point
    /// above every frame, below every frame, or in a margin gap between
    /// frames has no match.
    pub fn frame_index_at_point(&self, point: &Point) -> (r: Option<usize>)
        ensures
            match r {
                Some(i) => i < self@.len() && spec_point_in_frame_vertically(
                    self@[i as int],
                    *point,
                ),
                None => forall|i: int|
                    0 <= i < self@.len() ==> !spec_point_in_frame_vertically(
                        #[trigger] self@[i],
                        *point,
                    ),
            },
    {
        proof {
            use_type_invariant(self);
        }
        let ghost fv = self@;
        let mut lo: usize = 0;
        let mut hi: usize = self.frames.len();
        while lo < hi
            invariant
                lo <= hi <= self.frames@.len(),
                fv == self@,
                fv.len() == self.frames@.len(),
                spec_frames_ordered(fv),
                forall|i: int| 0 <= i < lo ==> point.y >= (#[trigger] fv[i]).spec_bottom(),
                forall|i: int| hi <= i < fv.len() ==> point.y < (#[trigger] fv[i]).spec_top(),
            decreases hi - lo,
        {
            let mid = lo + (hi - lo) / 2;
            proof {
                assert(fv[mid as int].wf());
                assert(fv[mid as int] == self.frames@[mid as int]@);
            }
            let top = self.frames[mid].origin.y;
            let bottom = top + self.frames[mid].height;
            if point.y < top {
                proof {
                    assert forall|i: int| mid <= i < fv.len() implies point.y < (
                    #[trigger] fv[i]).spec_top() by {
                        if i > mid {
                            assert(fv[mid as int].spec_bottom() <= fv[i].spec_top());
                        }
                    }
                }
                hi = mid;
            } else if point.y >= bottom {
                proof {
                    assert forall|i: int| 0 <= i < mid + 1 implies point.y >= (
                    #[trigger] fv[i]).spec_bottom() by {
                        if i < mid {
                            assert(fv[i].spec_bottom() <= fv[mid as int].spec_top());
                        }
                    }
                }
                lo = mid + 1;
            } else {
                return Some(mid);
            }
        }
        None
    }
}

/// Precomputed per-paragraph shaping inputs for one document: a snapshot
/// of each paragraph's attributed text and style, plus the document
/// style. Building it is a data-parallel map over paragraphs with no
/// ordering dependency; the snapshot is reusable across layout passes.
#[derive(Debug)]
pub struct Framesetter {
    pub paragraphs: Vec<ParagraphSnapshot>,
    pub document_style: DocumentStyle,
}

impl Framesetter {
    /// Snapshots every paragraph of `document`, independently, in
    /// document order.
    pub fn new(document: &Document) -> (fs: Framesetter)
        requires
            document@.wf(),
        ensures
            fs.paragraphs@.len() == document@.paragraphs.len(),
            forall|i: int|
                0 <= i < document@.paragraphs.len() ==> {
                    &&& (#[trigger] fs.paragraphs@[i]).chars@ == document@.paragraphs[i].text
                    &&& fs.paragraphs@[i].formats@.map_values(|v: Vec<Format>| v@)
                        == document@.paragraphs[i].formats
                    &&& fs.paragraphs@[i].style == document@.paragraphs[i].style
                    &&& fs.paragraphs@[i].wf()
                },
            fs.document_style == document@.style,
    {
        let source = document.paragraphs();
        let mut snapshots: Vec<ParagraphSnapshot> = Vec::new();
        let n = source.len();
        for k in 0..n
            invariant
                n == source@.len(),
                n == document@.paragraphs.len(),
                forall|i: int| 0 <= i < n ==> #[trigger] source@[i]@ == document@.paragraphs[i],
                document@.wf(),
                snapshots@.len() == k,
                forall|i: int|
                    0 <= i < k ==> {
                        &&& (#[trigger] snapshots@[i]).chars@ == document@.paragraphs[i].text
                        &&& snapshots@[i].formats@.map_values(|v: Vec<Format>| v@)
                            == document@.paragraphs[i].formats
                        &&& snapshots@[i].style == document@.paragraphs[i].style
                        &&& snapshots@[i].wf()
                    },
        {
            let paragraph = &source[k];
            let snapshot = ParagraphSnapshot {
                chars: paragraph.snapshot_text(),
                formats: paragraph.snapshot_formats(),
                style: *paragraph.style(),
            };
            proof {
                assert(document@.paragraphs[k as int].wf());
            }
            snapshots.push(snapshot);
        }
        Framesetter { paragraphs: snapshots, document_style: *document.style() }
    }

    /// The number of paragraphs the framesetter snapshot holds.
    pub fn paragraph_count(&self) -> (n: usize)
        ensures
            n == self.paragraphs@.len(),
    {
        self.paragraphs.len()
    }

    /// Places each paragraph's shaped text into `rect`: takes the
    /// document margins off the rectangle, then stacks one frame per
    /// paragraph top-down, each offset by its own margins and advanced by
    /// its realized height. Fails, changing nothing, when `shaped` does
    /// not hold exactly one shaped text per paragraph.
    pub fn layout_in_rect(&self, rect: &Rect, shaped: Vec<ShapedText>) -> (r: Result<
        Section,
        LayoutError,
    >)
        requires
            rect.in_bounds(),
            forall|i: int| 0 <= i < self.paragraphs@.len() ==> (#[trigger] self.paragraphs@[i]).wf(),
            shaped@.len() == self.paragraphs@.len() ==> spec_layout_extent(
                self.paragraphs@,
                shaped@,
                rect.spec_inner_rect(self.document_style.margin),
            ) <= MAX_EXTENT,
        ensures
            match r {
                Ok(section) => {
                    &&& shaped@.len() == self.paragraphs@.len()
                    &&& section@ == spec_layout_frames(
                        self.paragraphs@,
                        shaped@,
                        rect.spec_inner_rect(self.document_style.margin),
                    )
                },
                Err(e) => {
                    &&& shaped@.len() != self.paragraphs@.len()
                    &&& e == LayoutError::ShapingMismatch
                },
            },
    {
        let ghost sv = shaped@;
        let n = self.paragraphs.len();
        if shaped.len() != n {
            Err(LayoutError::ShapingMismatch)
        } else {
            let content = rect.inner_rect(self.document_style.margin);
            let mut remaining = shaped;
            let mut frames: Vec<Frame> = Vec::new();
            let mut y: i64 = content.origin.y;
            let mut k: usize = 0;
            while k < n
                invariant
                    0 <= k <= n,
                    n == self.paragraphs@.len(),
                    sv.len() == n,
                    content == rect.spec_inner_rect(self.document_style.margin),
                    content_in_bounds(content),
                    forall|i: int|
                        0 <= i < self.paragraphs@.len() ==> (#[trigger] self.paragraphs@[i]).wf(),
                    spec_layout_extent(self.paragraphs@, sv, content) <= MAX_EXTENT,
                    remaining@ == sv.skip(k as int),
                    y == spec_stack_y(self.paragraphs@, sv, content, k as int),
                    frames@.len() == k,
                    forall|i: int|
                        0 <= i < k ==> #[trigger] frames@[i]@ == spec_layout_frames(
                            self.paragraphs@,
                            sv,
                            content,
                        )[i],
                decreases n - k,
            {
                proof {
                    lemma_stack_y_monotone(self.paragraphs@, sv, content, 0, k as int);
                    lemma_stack_y_monotone(self.paragraphs@, sv, content, k + 1, n as int);
                    assert(spec_stack_y(self.paragraphs@, sv, content, k + 1) == spec_stack_y(
                        self.paragraphs@,
                        sv,
                        content,
                        k as int,
                    ) + self.paragraphs@[k as int].style.margin.top + spec_frame_height(
                        sv[k as int],
                        content.size.height as int,
                    ) + self.paragraphs@[k as int].style.margin.bottom);
                }
                let snap = &self.paragraphs[k];
                let st = remaining.remove(0);
                proof {
                    assert(st == sv[k as int]);
                    assert(remaining@ =~= sv.skip(k + 1));
                }
                let h = frame_height_of(&st, content.size.height);
                let fy = y + snap.style.margin.top as i64;
                let fx = content.origin.x + snap.style.margin.left as i64;
                let vw = content.size.width - snap.style.margin.horizontal();
                let frame = Frame {
                    chars: clone_chars(&snap.chars),
                    formats: clone_formats_2d(&snap.formats),
                    shaped: st,
                    style: snap.style,
                    virtual_size: Size { width: vw, height: content.size.height },
                    origin: Point { x: fx, y: fy },
                    height: h,
                };
                frames.push(frame);
                proof {
                    assert(frames@[k as int]@ == spec_layout_frames(
                        self.paragraphs@,
                        sv,
                        content,
                    )[k as int]);
                }
                y = fy + h;
                y = y + snap.style.margin.bottom as i64;
                k = k + 1;
            }
            proof {
                assert(frames@.map_values(|f: Frame| f@) =~= spec_layout_frames(
                    self.paragraphs@,
                    sv,
                    content,
                ));
                lemma_layout_frames_ordered(self.paragraphs@, sv, content);
            }
            Ok(Section { frames })
        }
    }

    /// Places each paragraph's shaped text into `rect`, validating at
    /// run time everything `layout_in_rect` asks of its caller: that the
    /// shaped texts match the paragraphs one-to-one, that the
    /// rectangle's coordinates are in range, and that the total stacked
    /// extent stays in range. Succeeds on exactly the inputs that pass
    /// those checks.
    pub fn layout_in_rect_checked(&self, rect: &Rect, shaped: Vec<ShapedText>) -> (r: Result<
        Section,
        LayoutError,
    >)
        requires
            forall|i: int| 0 <= i < self.paragraphs@.len() ==> (#[trigger] self.paragraphs@[i]).wf(),
        ensures
            match r {
                Ok(section) => {
                    &&& shaped@.len() == self.paragraphs@.len()
                    &&& rect.in_bounds()
                    &&& spec_layout_extent(
                        self.paragraphs@,
                        shaped@,
                        rect.spec_inner_rect(self.document_style.margin),
                    ) <= MAX_EXTENT
                    &&& section@ == spec_layout_frames(
                        self.paragraphs@,
                        shaped@,
                        rect.spec_inner_rect(self.document_style.margin),
                    )
                },
                Err(LayoutError::ShapingMismatch) => shaped@.len() != self.paragraphs@.len(),
                Err(LayoutError::CoordinateOverflow) => {
                    &&& shaped@.len() == self.paragraphs@.len()
                    &&& (!rect.in_bounds() || spec_layout_extent(
                        self.paragraphs@,
                        shaped@,
                        rect.spec_inner_rect(self.document_style.margin),
                    ) > MAX_EXTENT)
                },
            },
    {
        let n = self.paragraphs.len();
        if shaped.len() != n {
            Err(LayoutError::ShapingMismatch)
        } else if !rect.check_in_bounds() {
            Err(LayoutError::CoordinateOverflow)
        } else {
            let content = rect.inner_rect(self.document_style.margin);
            let mut extent: i128 = content.origin.y as i128;
            let mut k: usize = 0;
            while k < n
                invariant
                    0 <= k <= n,
                    n == self.paragraphs@.len(),
                    n == shaped@.len(),
                    content == rect.spec_inner_rect(self.document_style.margin),
                    content_in_bounds(content),
                    extent == spec_stack_y(self.paragraphs@, shaped@, content, k as int),
                    extent <= content.origin.y + k * 0x2_0000_0000_0000,
                    extent >= content.origin.y,
                decreases n - k,
            {
                let h = frame_height_of(&shaped[k], content.size.height);
                extent = extent + self.paragraphs[k].style.margin.top as i128 + h as i128
                    + self.paragraphs[k].style.margin.bottom as i128;
                k = k + 1;
            }
            if extent > MAX_EXTENT as i128 {
                Err(LayoutError::CoordinateOverflow)
            } else {
                self.layout_in_rect(rect, shaped)
            }
        }
    }
}

} // verus!
