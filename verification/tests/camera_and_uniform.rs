use scene_core::camera2d::{Camera2d, Extent2u, Vec2i};
use scene_core::transform::{
    compute_uniform, Camera2dUniform, Mat4Fx, FP_ONE, SCALE_ONE,
};

#[test]
fn camera_starts_current_at_given_state() {
    let cam = Camera2d::new(Vec2i { x: 3, y: -4 }, Extent2u { width: 800, height: 600 });
    assert_eq!(cam.position, Vec2i { x: 3, y: -4 });
    assert_eq!(cam.view_size, Extent2u { width: 800, height: 600 });
    assert!(cam.current);
}

#[test]
fn view_resize_updates_size_and_nothing_else() {
    let mut cam = Camera2d::new(Vec2i { x: 3, y: -4 }, Extent2u { width: 800, height: 600 });
    cam.when_view_size_changes(1024, 768);
    assert_eq!(cam.view_size, Extent2u { width: 1024, height: 768 });
    assert_eq!(cam.position, Vec2i { x: 3, y: -4 });
    assert!(cam.current);
}

#[test]
fn uniform_snapshot_starts_as_identity() {
    let u = Camera2dUniform::new();
    assert_eq!(u.view_position, vec![0i64, 0, 0, 0]);
    assert_eq!(u.den, 1);
    for k in 0..16usize {
        let expected = if k == 0 || k == 5 || k == 10 || k == 15 { 1i128 } else { 0 };
        assert_eq!(u.num[k], expected);
    }
}

// Unit scale and zero translation leave the projection unchanged: every
// numerator over the common denominator equals the projection entry over
// the fixed-point unit.
#[test]
fn unit_transform_leaves_projection_unchanged() {
    let proj = Mat4Fx::identity();
    let u = compute_uniform(&proj, SCALE_ONE, SCALE_ONE, 0, 0, 800, 600);
    assert_eq!(u.den, (FP_ONE as u128) * (FP_ONE as u128) * 800 * 600);
    for k in 0..16usize {
        let lhs = u.num[k] * (FP_ONE as i128);
        let rhs = (proj.m[k] as i128) * (u.den as i128);
        assert_eq!(lhs, rhs);
    }
}

// A concrete composite: scale 2, position (64, 32), viewport 128 x 64,
// identity projection. Checked against the exact rational formula.
#[test]
fn composite_uniform_matches_exact_formula() {
    let proj = Mat4Fx::identity();
    let sx: u32 = 2 * SCALE_ONE;
    let sy: u32 = 2 * SCALE_ONE;
    let (px, py): (i32, i32) = (64, 32);
    let (vw, vh): (u32, u32) = (128, 64);
    let u = compute_uniform(&proj, sx, sy, px, py, vw, vh);
    let fp = FP_ONE as i128;
    let den = u.den as i128;
    assert_eq!(den, fp * fp * 128 * 64);
    // Column 0: sx * proj[0] * vw * vh.
    assert_eq!(u.num[0], (sx as i128) * fp * 128 * 64);
    // Column 1, row 1: sy * proj[5] * vw * vh.
    assert_eq!(u.num[5], (sy as i128) * fp * 128 * 64);
    // Column 2, row 2: proj[10] * FP_ONE * vw * vh.
    assert_eq!(u.num[10], fp * fp * 128 * 64);
    // Column 3, row 0: sx * px * proj[0] * vh; rows 1 and 3 likewise.
    assert_eq!(u.num[3], (sx as i128) * (px as i128) * fp * 64);
    assert_eq!(u.num[7], (sy as i128) * (py as i128) * fp * 128);
    assert_eq!(u.num[15], fp * fp * 128 * 64);
    // Off-diagonal entries of the scaled columns stay zero.
    assert_eq!(u.num[1], 0);
    assert_eq!(u.num[2], 0);
    assert_eq!(u.num[4], 0);
    assert_eq!(u.num[11], 0);
}
