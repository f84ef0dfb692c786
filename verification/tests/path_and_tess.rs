use scene_core::path::{PathBuilder2d, PathSegment};
use scene_core::tess::{tessellate, TessError};

fn demo_builder() -> PathBuilder2d {
    let mut b = PathBuilder2d::new();
    b.begin(0, 0);
    b.line_to(100, 0);
    b.quadratic_bezier_to(200, 0, 200, 100);
    b.cubic_bezier_to(100, 100, 0, 100, 0, 0);
    b
}

#[test]
fn builder_records_segments_in_order() {
    let mut b = demo_builder();
    b.end(true);
    let p = b.build();
    assert_eq!(p.segment_count(), 5);
    assert!(matches!(p.segment_at(0), PathSegment::MoveTo { x: 0, y: 0 }));
    assert!(matches!(p.segment_at(1), PathSegment::LineTo { x: 100, y: 0 }));
    assert!(matches!(
        p.segment_at(2),
        PathSegment::QuadraticTo { cx: 200, cy: 0, x: 200, y: 100 }
    ));
    assert!(matches!(
        p.segment_at(3),
        PathSegment::CubicTo { c1x: 100, c1y: 100, c2x: 0, c2y: 100, x: 0, y: 0 }
    ));
    assert!(matches!(p.segment_at(4), PathSegment::Close));
    assert!(p.is_closed());
}

#[test]
fn open_path_is_not_closed() {
    let mut b = demo_builder();
    b.end(false);
    let p = b.build();
    assert_eq!(p.segment_count(), 4);
    assert!(!p.is_closed());
}

#[test]
fn open_path_fill_fails_with_topology_error() {
    let mut b = demo_builder();
    b.end(false);
    let p = b.build();
    let r = tessellate(&p);
    assert!(matches!(r, Err(TessError::PathNotClosed)));
}

// The scenario: move(0,0), line(1,0), quad(2,0)->(2,1), cubic(1,1)(0,1)->(0,0),
// close, tessellated with the default fill options.
#[test]
fn small_closed_path_yields_triangles() {
    let mut b = PathBuilder2d::new();
    b.begin(0, 0);
    b.line_to(1, 0);
    b.quadratic_bezier_to(2, 0, 2, 1);
    b.cubic_bezier_to(1, 1, 0, 1, 0, 0);
    b.end(true);
    let p = b.build();
    let t = tessellate(&p).expect("a simple closed loop must tessellate");
    assert!(t.vertex_count > 0);
    assert!(t.index_count() >= 3);
}

#[test]
fn tessellation_indices_are_whole_triangles_in_bounds() {
    let mut b = demo_builder();
    b.end(true);
    let p = b.build();
    let t = tessellate(&p).expect("the demonstration path must tessellate");
    assert_eq!(t.index_count() % 3, 0);
    assert!(t.index_count() >= 3);
    for &i in &t.indices {
        assert!(i < t.vertex_count);
    }
    assert_eq!(t.vertex_data.len(), 8 * t.vertex_count as usize);
}

#[test]
fn tessellation_is_deterministic_for_equal_paths() {
    let mut b1 = demo_builder();
    b1.end(true);
    let p1 = b1.build();
    let mut b2 = demo_builder();
    b2.end(true);
    let p2 = b2.build();
    let t1 = tessellate(&p1).expect("first run");
    let t2 = tessellate(&p2).expect("second run");
    assert_eq!(t1.vertex_count, t2.vertex_count);
    assert_eq!(t1.index_count(), t2.index_count());
    assert_eq!(t1.vertex_data, t2.vertex_data);
    assert_eq!(t1.indices, t2.indices);
}
