//! Fill tessellation of vector paths.
//!
//! [`tessellate`] turns a closed [`VectorPath`] into an indexed triangle
//! list. A path that was not closed is rejected here, before the backend
//! ever sees it; a path the backend cannot fill is reported, never turned
//! into a degenerate mesh.

use vstd::prelude::*;

use crate::fill_backend::{
    fill_of, fill_tessellate, sink_begin, sink_build, sink_close, sink_cubic_to, sink_line_to,
    sink_new, sink_open, sink_quadratic_to, sink_segments,
};
use crate::path::{PathSegment, VectorPath};

verus! {

/// An indexed triangle list, ready for upload.
pub struct TessellationOutput {
    /// How many vertices the position data holds.
    pub vertex_count: u32,
    /// Vertex positions: 8 bytes per vertex, both coordinates in the GPU's
    /// 32-bit wire format, little endian.
    pub vertex_data: Vec<u8>,
    /// Triangle indices, three per triangle, each below `vertex_count`.
    pub indices: Vec<u32>,
}

impl TessellationOutput {
    /// The output invariant: position data sized to the vertex count, whole
    /// triangles only, and every index within the vertex array.
    pub open spec fn wf(&self) -> bool {
        &&& self.vertex_data@.len() == 8 * self.vertex_count
        &&& self.indices@.len() % 3 == 0
        &&& forall|i: int|
            0 <= i < self.indices@.len() ==> (#[trigger] self.indices@[i]) < self.vertex_count
    }

    /// Number of triangle indices.
    pub fn index_count(&self) -> (n: usize)
        ensures
            n == self.indices@.len(),
    {
        self.indices.len()
    }
}

/// Why a tessellation run yielded no mesh.
#[derive(Clone, Copy, PartialEq, Eq, Structural, Debug)]
pub enum TessError {
    /// A fill was requested for a path that was not closed.
    PathNotClosed,
    /// The backend could not resolve the closed path into triangles.
    FillFailed,
}

impl TessError {
    /// A short label for reporting the geometric fault.
    pub fn describe(&self) -> String {
        match self {
            TessError::PathNotClosed => "fill tessellation needs a closed path".to_owned(),
            TessError::FillFailed => "the path could not be resolved into triangles".to_owned(),
        }
    }
}

/// `t` is the tessellation of `segs`: the backend accepts the segments and
/// `t` carries exactly the outcome's data.
pub open spec fn tessellation_of(segs: Seq<PathSegment>, t: TessellationOutput) -> bool {
    &&& fill_of(segs).accepted
    &&& t.vertex_data@ == fill_of(segs).vertex_data
    &&& t.indices@ == fill_of(segs).indices
    &&& 8 * t.vertex_count == t.vertex_data@.len()
}

/// Fill-tessellate a path with the default flattening tolerance.
///
/// A path that is not closed fails with [`TessError::PathNotClosed`]; a
/// closed path the backend rejects fails with [`TessError::FillFailed`];
/// otherwise the result is the backend's triangle list, whole triangles
/// with in-bounds indices.
pub fn tessellate(path: &VectorPath) -> (r: Result<TessellationOutput, TessError>)
    requires
        path.wf(),
    ensures
        !path.is_closed_spec() ==> r == Result::<TessellationOutput, TessError>::Err(
            TessError::PathNotClosed,
        ),
        path.is_closed_spec() && fill_of(path@).accepted ==> {
            &&& r is Ok
            &&& tessellation_of(path@, r->Ok_0)
            &&& r->Ok_0.wf()
        },
        path.is_closed_spec() && !fill_of(path@).accepted ==> r == Result::<
            TessellationOutput,
            TessError,
        >::Err(TessError::FillFailed),
{
    if !path.is_closed() {
        return Err(TessError::PathNotClosed);
    }
    let ghost segs = path@;
    let n = path.segment_count();
    let mut sink = sink_new();
    let mut i: usize = 0;
    while i < n
        invariant
            path.wf(),
            path.is_closed_spec(),
            segs == path@,
            n == segs.len(),
            i <= n,
            sink_segments(sink) == segs.take(i as int),
            sink_open(sink) == (0 < i && !(i == n && segs[n - 1] is Close)),
        decreases n - i,
    {
        let seg = path.segment_at(i);
        proof {
            assert(segs.take(i as int + 1) == segs.take(i as int).push(segs[i as int]));
        }
        match seg {
            PathSegment::MoveTo { x, y } => {
                sink_begin(&mut sink, x, y);
            },
            PathSegment::LineTo { x, y } => {
                sink_line_to(&mut sink, x, y);
            },
            PathSegment::QuadraticTo { cx, cy, x, y } => {
                sink_quadratic_to(&mut sink, cx, cy, x, y);
            },
            PathSegment::CubicTo { c1x, c1y, c2x, c2y, x, y } => {
                sink_cubic_to(&mut sink, c1x, c1y, c2x, c2y, x, y);
            },
            PathSegment::Close => {
                sink_close(&mut sink);
            },
        }
        i = i + 1;
    }
    proof {
        assert(segs.take(n as int) == segs);
    }
    let lyon_path = sink_build(sink);
    match fill_tessellate(&lyon_path) {
        Ok(t) => Ok(t),
        Err(_) => Err(TessError::FillFailed),
    }
}

/// Law: fill tessellation is deterministic. Two outputs of [`tessellate`]
/// for the same segment sequence carry the same vertex data, the same
/// indices, and so the same vertex and index counts.
pub proof fn lemma_tessellation_deterministic(
    segs: Seq<PathSegment>,
    a: TessellationOutput,
    b: TessellationOutput,
)
    requires
        tessellation_of(segs, a),
        tessellation_of(segs, b),
    ensures
        a.vertex_count == b.vertex_count,
        a.vertex_data@ == b.vertex_data@,
        a.indices@ == b.indices@,
        a.indices@.len() == b.indices@.len(),
{
}

} // verus!
