//! Declarative vector paths.
//!
//! A path is an ordered, immutable sequence of typed segments, built once
//! through an append-only builder and consumed by fill tessellation. This
//! crate keeps one logical sub-path per path: one leading move, optionally
//! closed at the end, and nothing after the close.
//!
//! Coordinates are integer units; the tessellation backend widens them to
//! the GPU's 32-bit format losslessly.

use vstd::prelude::*;

verus! {

/// One typed path segment. Control points come before the end point.
#[derive(Clone, Copy, PartialEq, Eq, Structural, Debug)]
pub enum PathSegment {
    /// Start the sub-path at a point.
    MoveTo { x: i16, y: i16 },
    /// Straight edge to a point.
    LineTo { x: i16, y: i16 },
    /// Quadratic curve through one control point to an end point.
    QuadraticTo { cx: i16, cy: i16, x: i16, y: i16 },
    /// Cubic curve through two control points to an end point.
    CubicTo { c1x: i16, c1y: i16, c2x: i16, c2y: i16, x: i16, y: i16 },
    /// Close the sub-path back to its first point.
    Close,
}

/// A well-formed single-sub-path sequence: it starts with a move, never
/// moves again, and closes at most once, at the very end.
pub open spec fn segments_wf(segs: Seq<PathSegment>) -> bool {
    &&& segs.len() >= 1
    &&& segs[0] is MoveTo
    &&& forall|i: int| 1 <= i < segs.len() ==> !(#[trigger] segs[i] is MoveTo)
    &&& forall|i: int| 0 <= i < segs.len() && #[trigger] segs[i] is Close ==> i == segs.len() - 1
}

/// Whether a well-formed segment sequence ends in a close.
pub open spec fn segments_closed(segs: Seq<PathSegment>) -> bool {
    segs.len() >= 1 && segs[segs.len() - 1] is Close
}

/// An immutable path: the product of [`PathBuilder2d::build`].
pub struct VectorPath {
    segments: Vec<PathSegment>,
}

impl VectorPath {
    pub closed spec fn view(&self) -> Seq<PathSegment> {
        self.segments@
    }

    /// Validity: established by the builder, preserved by immutability.
    pub open spec fn wf(&self) -> bool {
        segments_wf(self@)
    }

    pub open spec fn is_closed_spec(&self) -> bool {
        segments_closed(self@)
    }

    /// Whether the path's one sub-path was closed when it was ended.
    pub fn is_closed(&self) -> (r: bool)
        requires
            self.wf(),
        ensures
            r == self.is_closed_spec(),
    {
        let n = self.segments.len();
        matches!(self.segments[n - 1], PathSegment::Close)
    }

    /// Number of segments, the close included.
    pub fn segment_count(&self) -> (n: usize)
        ensures
            n == self@.len(),
    {
        self.segments.len()
    }

    /// Read one segment.
    pub fn segment_at(&self, i: usize) -> (s: PathSegment)
        requires
            i < self@.len(),
        ensures
            s == self@[i as int],
    {
        self.segments[i]
    }
}

/// The stage an append-only path builder is in.
#[derive(Clone, Copy, PartialEq, Eq, Structural, Debug)]
pub enum BuilderStage {
    /// Nothing recorded yet; the next call must be `begin`.
    Fresh,
    /// A sub-path is open; edges may be appended or the sub-path ended.
    Open,
    /// The one sub-path was ended; only `build` is left.
    Ended,
}

/// Append-only builder for [`VectorPath`]: `begin`, edges, `end`, `build`.
/// No mutation is possible after `end`; `build` hands the segments over
/// unchanged.
pub struct PathBuilder2d {
    segments: Vec<PathSegment>,
    stage: BuilderStage,
}

impl PathBuilder2d {
    pub closed spec fn view(&self) -> Seq<PathSegment> {
        self.segments@
    }

    pub closed spec fn stage_spec(&self) -> BuilderStage {
        self.stage
    }

    /// The builder's internal consistency, kept by every operation.
    pub open spec fn wf(&self) -> bool {
        &&& (self.stage_spec() is Fresh <==> self@.len() == 0)
        &&& (self@.len() > 0 ==> self@[0] is MoveTo)
        &&& forall|i: int| 1 <= i < self@.len() ==> !(#[trigger] self@[i] is MoveTo)
        &&& forall|i: int|
            0 <= i < self@.len() && #[trigger] self@[i] is Close ==> i == self@.len() - 1
        &&& (self.stage_spec() is Open ==> self@.len() > 0 && !(self@[self@.len() - 1] is Close))
    }

    /// A builder with nothing recorded.
    pub fn new() -> (b: Self)
        ensures
            b.wf(),
            b@ == Seq::<PathSegment>::empty(),
            b.stage_spec() is Fresh,
    {
        PathBuilder2d { segments: Vec::new(), stage: BuilderStage::Fresh }
    }

    /// Open the sub-path at a point.
    pub fn begin(&mut self, x: i16, y: i16)
        requires
            old(self).wf(),
            old(self).stage_spec() is Fresh,
        ensures
            final(self).wf(),
            final(self)@ == old(self)@.push(PathSegment::MoveTo { x, y }),
            final(self).stage_spec() is Open,
    {
        self.segments.push(PathSegment::MoveTo { x, y });
        self.stage = BuilderStage::Open;
    }

    /// Append a straight edge.
    pub fn line_to(&mut self, x: i16, y: i16)
        requires
            old(self).wf(),
            old(self).stage_spec() is Open,
        ensures
            final(self).wf(),
            final(self)@ == old(self)@.push(PathSegment::LineTo { x, y }),
            final(self).stage_spec() is Open,
    {
        self.segments.push(PathSegment::LineTo { x, y });
    }

    /// Append a quadratic curve.
    pub fn quadratic_bezier_to(&mut self, cx: i16, cy: i16, x: i16, y: i16)
        requires
            old(self).wf(),
            old(self).stage_spec() is Open,
        ensures
            final(self).wf(),
            final(self)@ == old(self)@.push(PathSegment::QuadraticTo { cx, cy, x, y }),
            final(self).stage_spec() is Open,
    {
        self.segments.push(PathSegment::QuadraticTo { cx, cy, x, y });
    }

    /// Append a cubic curve.
    pub fn cubic_bezier_to(&mut self, c1x: i16, c1y: i16, c2x: i16, c2y: i16, x: i16, y: i16)
        requires
            old(self).wf(),
            old(self).stage_spec() is Open,
        ensures
            final(self).wf(),
            final(self)@ == old(self)@.push(PathSegment::CubicTo { c1x, c1y, c2x, c2y, x, y }),
            final(self).stage_spec() is Open,
    {
        self.segments.push(PathSegment::CubicTo { c1x, c1y, c2x, c2y, x, y });
    }

    /// End the sub-path. `close` appends the closing segment; an open end
    /// leaves the recorded edges as they are. Either way the builder takes
    /// no further edges.
    pub fn end(&mut self, close: bool)
        requires
            old(self).wf(),
            old(self).stage_spec() is Open,
        ensures
            final(self).wf(),
            final(self)@ == if close {
                old(self)@.push(PathSegment::Close)
            } else {
                old(self)@
            },
            final(self).stage_spec() is Ended,
            segments_closed(final(self)@) == close,
    {
        if close {
            self.segments.push(PathSegment::Close);
        }
        self.stage = BuilderStage::Ended;
    }

    /// Hand the finished path over. The segments are exactly those appended.
    pub fn build(self) -> (p: VectorPath)
        requires
            self.wf(),
            self.stage_spec() is Ended,
        ensures
            p.wf(),
            p@ == self@,
    {
        VectorPath { segments: self.segments }
    }
}

} // verus!
