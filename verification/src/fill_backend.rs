//! The fill-tessellation backend: the one place where the crate calls lyon.
//!
//! Everything here is trusted glue. A [`PathSink`] is a lyon path builder
//! being fed this crate's segments; a finished `lyon::path::Path` and one
//! run of the fill tessellator follow. The contracts state no more than
//! lyon's own sources show; the tessellation result itself is given a name,
//! [`fill_of`], since its exact value is far beyond a few lines to state.

use vstd::prelude::*;

use crate::path::PathSegment;
use crate::tess::TessellationOutput;
use lyon::tessellation::{BuffersBuilder, FillOptions, FillTessellator, FillVertex, VertexBuffers};

verus! {

/// What one fill-tessellation run yields, as a mathematical value.
///
/// The run is a function of the segment sequence alone: lyon's fill
/// tessellator reads nothing but the path and its options, and this crate
/// always tessellates with the default options.
pub ghost struct FillOutcome {
    /// Whether the tessellator accepts the path.
    pub accepted: bool,
    /// Vertex positions as they go to the GPU: 8 bytes per vertex, the two
    /// coordinates in the 32-bit wire format, little endian.
    pub vertex_data: Seq<u8>,
    /// Triangle indices, three per triangle, each the id of a vertex above.
    pub indices: Seq<u32>,
}

/// The fill tessellation of a segment sequence, with the default flattening
/// tolerance. Deterministic: the same segments give the same outcome.
pub uninterp spec fn fill_of(segs: Seq<PathSegment>) -> FillOutcome;

/// A lyon path builder under construction. Opaque to the verifier; its
/// contents are tracked through [`sink_segments`] and [`sink_open`].
#[verifier::external_body]
pub struct PathSink {
    inner: lyon::path::path::Builder,
}

/// The segments fed into a sink so far.
pub uninterp spec fn sink_segments(s: PathSink) -> Seq<PathSegment>;

/// Whether the sink has a sub-path in progress. lyon's builder asserts its
/// begin/edge/end discipline, so the wrappers demand it up front.
pub uninterp spec fn sink_open(s: PathSink) -> bool;

/// Relies on `lyon::path::Path::builder`: a fresh builder holds nothing and
/// has no sub-path in progress.
#[verifier::external_body]
pub fn sink_new() -> (s: PathSink)
    ensures
        sink_segments(s) == Seq::<PathSegment>::empty(),
        !sink_open(s),
{
    PathSink { inner: lyon::path::Path::builder() }
}

/// Relies on lyon's `begin`: starts the sub-path at the point; must not be
/// called with a sub-path in progress.
#[verifier::external_body]
pub fn sink_begin(s: &mut PathSink, x: i16, y: i16)
    requires
        !sink_open(*old(s)),
    ensures
        sink_segments(*final(s)) == sink_segments(*old(s)).push(PathSegment::MoveTo { x, y }),
        sink_open(*final(s)),
{
    s.inner.begin(lyon::math::point(x.into(), y.into()));
}

/// Relies on lyon's `line_to`: appends a line edge to the open sub-path.
#[verifier::external_body]
pub fn sink_line_to(s: &mut PathSink, x: i16, y: i16)
    requires
        sink_open(*old(s)),
    ensures
        sink_segments(*final(s)) == sink_segments(*old(s)).push(PathSegment::LineTo { x, y }),
        sink_open(*final(s)),
{
    s.inner.line_to(lyon::math::point(x.into(), y.into()));
}

/// Relies on lyon's `quadratic_bezier_to`: appends a quadratic edge to the
/// open sub-path.
#[verifier::external_body]
pub fn sink_quadratic_to(s: &mut PathSink, cx: i16, cy: i16, x: i16, y: i16)
    requires
        sink_open(*old(s)),
    ensures
        sink_segments(*final(s)) == sink_segments(*old(s)).push(
            PathSegment::QuadraticTo { cx, cy, x, y },
        ),
        sink_open(*final(s)),
{
    s.inner.quadratic_bezier_to(
        lyon::math::point(cx.into(), cy.into()),
        lyon::math::point(x.into(), y.into()),
    );
}

/// Relies on lyon's `cubic_bezier_to`: appends a cubic edge to the open
/// sub-path.
#[verifier::external_body]
pub fn sink_cubic_to(s: &mut PathSink, c1x: i16, c1y: i16, c2x: i16, c2y: i16, x: i16, y: i16)
    requires
        sink_open(*old(s)),
    ensures
        sink_segments(*final(s)) == sink_segments(*old(s)).push(
            PathSegment::CubicTo { c1x, c1y, c2x, c2y, x, y },
        ),
        sink_open(*final(s)),
{
    s.inner.cubic_bezier_to(
        lyon::math::point(c1x.into(), c1y.into()),
        lyon::math::point(c2x.into(), c2y.into()),
        lyon::math::point(x.into(), y.into()),
    );
}

/// Relies on lyon's `end(true)`: closes the open sub-path back to its first
/// point and ends it.
#[verifier::external_body]
pub fn sink_close(s: &mut PathSink)
    requires
        sink_open(*old(s)),
    ensures
        sink_segments(*final(s)) == sink_segments(*old(s)).push(PathSegment::Close),
        !sink_open(*final(s)),
{
    s.inner.end(true);
}

#[verifier::external_type_specification]
#[verifier::external_body]
pub struct ExLyonPath(lyon::path::Path);

/// The segment sequence a finished lyon path stores.
pub uninterp spec fn lyon_path_segments(p: lyon::path::Path) -> Seq<PathSegment>;

/// Relies on lyon's `build`: the finished path holds exactly what was fed
/// in; no sub-path may be in progress.
#[verifier::external_body]
pub fn sink_build(s: PathSink) -> (p: lyon::path::Path)
    requires
        !sink_open(s),
    ensures
        lyon_path_segments(p) == sink_segments(s),
{
    s.inner.build()
}

#[verifier::external_type_specification]
#[verifier::external_body]
pub struct ExTessellationError(lyon::tessellation::TessellationError);

/// Relies on lyon's `FillTessellator::tessellate_path` writing into a
/// `VertexBuffers` through a `BuffersBuilder`: vertices are appended one by
/// one (erring before any id could pass the 32-bit index limit), and indices
/// are appended only in triples, each the id of a vertex already appended.
/// The run is a function of the path, named by [`fill_of`].
#[verifier::external_body]
pub fn fill_tessellate(p: &lyon::path::Path) -> (r: Result<
    TessellationOutput,
    lyon::tessellation::TessellationError,
>)
    ensures
        ({
            let outcome = fill_of(lyon_path_segments(*p));
            match r {
                Ok(t) => {
                    &&& outcome.accepted
                    &&& t.vertex_data@ == outcome.vertex_data
                    &&& t.indices@ == outcome.indices
                    &&& t.vertex_data@.len() == 8 * t.vertex_count
                    &&& t.indices@.len() % 3 == 0
                    &&& forall|i: int|
                        0 <= i < t.indices@.len() ==> (#[trigger] t.indices@[i]) < t.vertex_count
                },
                Err(_) => !outcome.accepted,
            }
        }),
{
    let mut buffers: VertexBuffers<lyon::math::Point, u32> = VertexBuffers::new();
    let mut tessellator = FillTessellator::new();
    let options = FillOptions::default();
    let mut sink = BuffersBuilder::new(&mut buffers, |v: FillVertex| v.position());
    if let Err(e) = tessellator.tessellate_path(p, &options, &mut sink) {
        return Err(e);
    }
    let mut vertex_data: Vec<u8> = Vec::with_capacity(buffers.vertices.len() * 8);
    for v in &buffers.vertices {
        vertex_data.extend_from_slice(&v.x.to_le_bytes());
        vertex_data.extend_from_slice(&v.y.to_le_bytes());
    }
    Ok(TessellationOutput { vertex_count: buffers.vertices.len() as u32, vertex_data, indices: buffers.indices })
}

} // verus!
