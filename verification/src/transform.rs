//! Exact transform arithmetic for the camera uniform.
//!
//! Projections are 4x4 matrices in 16.16 fixed point (row major, one unit
//! is [`FP_ONE`]). The per-sprite uniform composes, as exact rationals,
//!
//! ```text
//! P = proj x scale(sx, sy, 1) x translate(px / vw, py / vh, 0)
//! ```
//!
//! and is carried as sixteen integer numerators over one positive common
//! denominator, so nothing is rounded inside the crate; the caller divides
//! once when it writes the GPU's floating-point uniform.

use vstd::arithmetic::div_mod::lemma_fundamental_div_mod_converse;
use vstd::prelude::*;

verus! {

/// One unit in 16.16 fixed point.
pub const FP_ONE: i64 = 65536;

/// Scale factor of one in 16.16 fixed point.
pub const SCALE_ONE: u32 = 65536;

/// Largest scale factor a sprite may carry (256 units).
pub const SCALE_LIMIT: u32 = 0x100_0000;

/// Largest magnitude of a projection entry (262144 units).
pub const PROJ_ENTRY_LIMIT: i64 = 0x4_0000_0000;

/// Largest magnitude of a sprite position coordinate, in pixels.
pub const POSITION_LIMIT: i32 = 0x4000_0000;

/// Largest viewport extent, in pixels.
pub const VIEW_LIMIT: u32 = 0x10_0000;

/// The identity projection in 16.16 fixed point.
pub open spec fn identity_mat() -> Seq<i64> {
    seq![
        FP_ONE, 0, 0, 0,
        0, FP_ONE, 0, 0,
        0, 0, FP_ONE, 0,
        0, 0, 0, FP_ONE,
    ]
}

/// A 4x4 projection matrix, row major, in 16.16 fixed point.
pub struct Mat4Fx {
    /// The sixteen entries, row major.
    pub m: Vec<i64>,
}

impl Mat4Fx {
    /// Validity: sixteen entries, each within the projection bound.
    pub open spec fn wf(&self) -> bool {
        &&& self.m@.len() == 16
        &&& forall|k: int|
            0 <= k < 16 ==> -PROJ_ENTRY_LIMIT <= #[trigger] self.m@[k] <= PROJ_ENTRY_LIMIT
    }

    /// The identity projection.
    pub fn identity() -> (r: Self)
        ensures
            r.m@ == identity_mat(),
            r.wf(),
    {
        let mut m: Vec<i64> = Vec::new();
        m.push(FP_ONE);
        m.push(0);
        m.push(0);
        m.push(0);
        m.push(0);
        m.push(FP_ONE);
        m.push(0);
        m.push(0);
        m.push(0);
        m.push(0);
        m.push(FP_ONE);
        m.push(0);
        m.push(0);
        m.push(0);
        m.push(0);
        m.push(FP_ONE);
        proof {
            assert(m@ =~= identity_mat());
        }
        Mat4Fx { m }
    }
}

/// The uniform's common denominator: the squared fixed-point unit times
/// both viewport extents. Positive whenever the extents are.
pub open spec fn uniform_den(vw: u32, vh: u32) -> int {
    (FP_ONE as int) * (FP_ONE as int) * (vw as int) * (vh as int)
}

/// Numerator `k` (row-major) of `proj x scale(sx, sy, 1) x
/// translate(px / vw, py / vh, 0)` over [`uniform_den`]. `sx` and `sy` are
/// 16.16 fixed point; positions are pixels, normalized by the viewport.
pub open spec fn uniform_num(
    proj: Seq<i64>,
    sx: u32,
    sy: u32,
    px: i32,
    py: i32,
    vw: u32,
    vh: u32,
    k: int,
) -> int {
    let r = k / 4;
    let c = k % 4;
    if c == 0 {
        (sx as int) * (proj[4 * r] as int) * (vw as int) * (vh as int)
    } else if c == 1 {
        (sy as int) * (proj[4 * r + 1] as int) * (vw as int) * (vh as int)
    } else if c == 2 {
        (proj[4 * r + 2] as int) * (FP_ONE as int) * (vw as int) * (vh as int)
    } else {
        (sx as int) * (px as int) * (proj[4 * r] as int) * (vh as int) + (sy as int) * (py as int)
            * (proj[4 * r + 1] as int) * (vw as int) + (proj[4 * r + 3] as int) * (FP_ONE as int)
            * (vw as int) * (vh as int)
    }
}

/// The camera uniform snapshot: a zero view position (padded to four
/// lanes) and the composed projection as exact rationals.
pub struct Camera2dUniform {
    /// View position, four lanes, currently always zero.
    pub view_position: Vec<i64>,
    /// The sixteen numerators of the composed projection, row major.
    pub num: Vec<i128>,
    /// Their one common denominator; always positive.
    pub den: u128,
}

impl Camera2dUniform {
    /// Shape validity: four position lanes, sixteen numerators, a positive
    /// denominator.
    pub open spec fn wf(&self) -> bool {
        &&& self.view_position@.len() == 4
        &&& self.num@.len() == 16
        &&& self.den > 0
    }

    /// The identity snapshot: zero view position, identity projection.
    pub fn new() -> (u: Self)
        ensures
            u.wf(),
            u.view_position@ == seq![0i64, 0i64, 0i64, 0i64],
            u.num@ == seq![
                1i128, 0, 0, 0,
                0, 1i128, 0, 0,
                0, 0, 1i128, 0,
                0, 0, 0, 1i128,
            ],
            u.den == 1,
    {
        let mut view_position: Vec<i64> = Vec::new();
        view_position.push(0);
        view_position.push(0);
        view_position.push(0);
        view_position.push(0);
        let mut num: Vec<i128> = Vec::new();
        let mut k: usize = 0;
        while k < 16
            invariant
                k <= 16,
                num@.len() == k,
                forall|j: int|
                    0 <= j < k ==> #[trigger] num@[j] == if j == 0 || j == 5 || j == 10 || j == 15 {
                        1i128
                    } else {
                        0i128
                    },
            decreases 16 - k,
        {
            if k == 0 || k == 5 || k == 10 || k == 15 {
                num.push(1);
            } else {
                num.push(0);
            }
            k = k + 1;
        }
        let u = Camera2dUniform { view_position, num, den: 1 };
        proof {
            assert(u.view_position@ =~= seq![0i64, 0i64, 0i64, 0i64]);
            assert(u.num@ =~= seq![
                1i128, 0, 0, 0,
                0, 1i128, 0, 0,
                0, 0, 1i128, 0,
                0, 0, 0, 1i128,
            ]);
        }
        u
    }
}

/// Product bound: factors bounded in magnitude bound the product.
proof fn lemma_abs_mul(a: int, b: int, aa: int, bb: int)
    by (nonlinear_arith)
    requires
        -aa <= a <= aa,
        -bb <= b <= bb,
        0 <= aa,
        0 <= bb,
    ensures
        -(aa * bb) <= a * b <= aa * bb,
{
}

/// Numerator of columns 0 and 1: scale times projection entry times both
/// viewport extents.
fn scaled_num(s: u32, p: i64, vw: u32, vh: u32) -> (n: i128)
    requires
        s <= SCALE_LIMIT,
        -PROJ_ENTRY_LIMIT <= p <= PROJ_ENTRY_LIMIT,
        vw <= VIEW_LIMIT,
        vh <= VIEW_LIMIT,
    ensures
        n == (s as int) * (p as int) * (vw as int) * (vh as int),
        -0x1_0000_0000_0000_0000_0000_0000_0000 <= n <= 0x1_0000_0000_0000_0000_0000_0000_0000,
{
    proof {
        lemma_abs_mul(s as int, p as int, SCALE_LIMIT as int, PROJ_ENTRY_LIMIT as int);
    }
    let a = (s as i128) * (p as i128);
    proof {
        lemma_abs_mul(a as int, vw as int, 0x400_0000_0000_0000, VIEW_LIMIT as int);
    }
    let b = a * (vw as i128);
    proof {
        lemma_abs_mul(b as int, vh as int, 0x4_0000_0000_0000_0000_0000, VIEW_LIMIT as int);
    }
    b * (vh as i128)
}

/// Numerator of columns 2 and 3's third term: projection entry times the
/// fixed-point unit times both viewport extents.
fn unit_num(p: i64, vw: u32, vh: u32) -> (n: i128)
    requires
        -PROJ_ENTRY_LIMIT <= p <= PROJ_ENTRY_LIMIT,
        vw <= VIEW_LIMIT,
        vh <= VIEW_LIMIT,
    ensures
        n == (p as int) * (FP_ONE as int) * (vw as int) * (vh as int),
        -0x1_0000_0000_0000_0000_0000_0000_0000 <= n <= 0x1_0000_0000_0000_0000_0000_0000_0000,
{
    proof {
        lemma_abs_mul(p as int, FP_ONE as int, PROJ_ENTRY_LIMIT as int, FP_ONE as int);
    }
    let a = (p as i128) * (FP_ONE as i128);
    proof {
        lemma_abs_mul(a as int, vw as int, 0x4_0000_0000_0000, VIEW_LIMIT as int);
    }
    let b = a * (vw as i128);
    proof {
        lemma_abs_mul(b as int, vh as int, 0x4000_0000_0000_0000_0000, VIEW_LIMIT as int);
    }
    b * (vh as i128)
}

/// One translation term of column 3: scale times position times projection
/// entry times the opposite viewport extent.
fn translate_num(s: u32, t: i32, p: i64, v: u32) -> (n: i128)
    requires
        s <= SCALE_LIMIT,
        -POSITION_LIMIT <= t <= POSITION_LIMIT,
        -PROJ_ENTRY_LIMIT <= p <= PROJ_ENTRY_LIMIT,
        v <= VIEW_LIMIT,
    ensures
        n == (s as int) * (t as int) * (p as int) * (v as int),
        -0x1_0000_0000_0000_0000_0000_0000_0000 <= n <= 0x1_0000_0000_0000_0000_0000_0000_0000,
{
    proof {
        lemma_abs_mul(s as int, t as int, SCALE_LIMIT as int, POSITION_LIMIT as int);
    }
    let a = (s as i128) * (t as i128);
    proof {
        lemma_abs_mul(a as int, p as int, 0x40_0000_0000_0000, PROJ_ENTRY_LIMIT as int);
    }
    let b = a * (p as i128);
    proof {
        lemma_abs_mul(b as int, v as int, 0x100_0000_0000_0000_0000_0000, VIEW_LIMIT as int);
    }
    b * (v as i128)
}

/// Compose the camera uniform: `proj x scale(sx, sy, 1) x
/// translate(px / vw, py / vh, 0)` as exact rationals over one common
/// denominator. The view position stays zero.
pub fn compute_uniform(proj: &Mat4Fx, sx: u32, sy: u32, px: i32, py: i32, vw: u32, vh: u32) -> (u:
    Camera2dUniform)
    requires
        proj.wf(),
        1 <= sx <= SCALE_LIMIT,
        1 <= sy <= SCALE_LIMIT,
        -POSITION_LIMIT <= px <= POSITION_LIMIT,
        -POSITION_LIMIT <= py <= POSITION_LIMIT,
        1 <= vw <= VIEW_LIMIT,
        1 <= vh <= VIEW_LIMIT,
    ensures
        u.wf(),
        u.view_position@ == seq![0i64, 0i64, 0i64, 0i64],
        u.den == uniform_den(vw, vh),
        forall|k: int|
            0 <= k < 16 ==> #[trigger] u.num@[k] == uniform_num(proj.m@, sx, sy, px, py, vw, vh, k),
{
    let mut view_position: Vec<i64> = Vec::new();
    view_position.push(0);
    view_position.push(0);
    view_position.push(0);
    view_position.push(0);
    proof {
        assert(view_position@ =~= seq![0i64, 0i64, 0i64, 0i64]);
        lemma_abs_mul(
            (FP_ONE as int) * (FP_ONE as int),
            vw as int,
            0x1_0000_0000,
            VIEW_LIMIT as int,
        );
        lemma_abs_mul(
            (FP_ONE as int) * (FP_ONE as int) * (vw as int),
            vh as int,
            0x1_0000_0000 * (VIEW_LIMIT as int),
            VIEW_LIMIT as int,
        );
    }
    let den: u128 = (FP_ONE as u128) * (FP_ONE as u128) * (vw as u128) * (vh as u128);
    let mut num: Vec<i128> = Vec::new();
    let mut r: usize = 0;
    while r < 4
        invariant
            proj.wf(),
            1 <= sx <= SCALE_LIMIT,
            1 <= sy <= SCALE_LIMIT,
            -POSITION_LIMIT <= px <= POSITION_LIMIT,
            -POSITION_LIMIT <= py <= POSITION_LIMIT,
            1 <= vw <= VIEW_LIMIT,
            1 <= vh <= VIEW_LIMIT,
            r <= 4,
            num@.len() == 4 * r,
            forall|k: int|
                0 <= k < 4 * r ==> #[trigger] num@[k] == uniform_num(
                    proj.m@,
                    sx,
                    sy,
                    px,
                    py,
                    vw,
                    vh,
                    k,
                ),
        decreases 4 - r,
    {
        let n0 = scaled_num(sx, proj.m[4 * r], vw, vh);
        let n1 = scaled_num(sy, proj.m[4 * r + 1], vw, vh);
        let n2 = unit_num(proj.m[4 * r + 2], vw, vh);
        let n3 = translate_num(sx, px, proj.m[4 * r], vh) + translate_num(sy, py, proj.m[4 * r + 1], vw)
            + unit_num(proj.m[4 * r + 3], vw, vh);
        num.push(n0);
        num.push(n1);
        num.push(n2);
        num.push(n3);
        proof {
            let ri = r as int;
            lemma_fundamental_div_mod_converse(4 * ri, 4, ri, 0);
            lemma_fundamental_div_mod_converse(4 * ri + 1, 4, ri, 1);
            lemma_fundamental_div_mod_converse(4 * ri + 2, 4, ri, 2);
            lemma_fundamental_div_mod_converse(4 * ri + 3, 4, ri, 3);
        }
        r = r + 1;
    }
    proof {
        assert((FP_ONE as int) * (FP_ONE as int) * (vw as int) * (vh as int) > 0)
            by (nonlinear_arith)
            requires
                1 <= vw,
                1 <= vh,
        ;
    }
    Camera2dUniform { view_position, num, den }
}

/// Entry `k` (row major) of the product of two 4x4 integer matrices.
pub open spec fn mat16_mul_entry(a: Seq<int>, b: Seq<int>, k: int) -> int {
    let r = k / 4;
    let c = k % 4;
    a[4 * r] * b[c] + a[4 * r + 1] * b[4 + c] + a[4 * r + 2] * b[8 + c] + a[4 * r + 3] * b[12 + c]
}

/// The product of two 4x4 integer matrices, row major.
pub open spec fn mat16_mul(a: Seq<int>, b: Seq<int>) -> Seq<int> {
    Seq::new(16, |k: int| mat16_mul_entry(a, b, k))
}

/// A projection's entries as integers (numerators over [`FP_ONE`]).
pub open spec fn proj_entries(proj: Seq<i64>) -> Seq<int> {
    Seq::new(16, |k: int| proj[k] as int)
}

/// The numerators of `scale(sx, sy, 1)` over [`FP_ONE`].
pub open spec fn scale_mat_num(sx: u32, sy: u32) -> Seq<int> {
    seq![
        sx as int, 0, 0, 0,
        0, sy as int, 0, 0,
        0, 0, FP_ONE as int, 0,
        0, 0, 0, FP_ONE as int,
    ]
}

/// The numerators of `translate(px / vw, py / vh, 0)` over `vw * vh`.
pub open spec fn translate_mat_num(px: i32, py: i32, vw: u32, vh: u32) -> Seq<int> {
    seq![
        (vw as int) * (vh as int), 0, 0, (px as int) * (vh as int),
        0, (vw as int) * (vh as int), 0, (py as int) * (vw as int),
        0, 0, (vw as int) * (vh as int), 0,
        0, 0, 0, (vw as int) * (vh as int),
    ]
}

/// The ring identities behind one row of the composition.
proof fn lemma_compose_row(p0: int, p1: int, p2: int, p3: int, sx: int, sy: int, px: int, py: int, w: int, h: int)
    by (nonlinear_arith)
    ensures
        (p0 * sx) * (w * h) == sx * p0 * w * h,
        (p1 * sy) * (w * h) == sy * p1 * w * h,
        (p2 * (FP_ONE as int)) * (w * h) == p2 * (FP_ONE as int) * w * h,
        (p0 * sx) * (px * h) + (p1 * sy) * (py * w) + (p3 * (FP_ONE as int)) * (w * h) == sx * px
            * p0 * h + sy * py * p1 * w + p3 * (FP_ONE as int) * w * h,
{
}

/// Law: the uniform composes the three transforms as matrices. Each
/// numerator of [`uniform_num`] is the matching entry of the integer
/// matrix product `proj x scale(sx, sy, 1) x translate(px / vw, py / vh,
/// 0)`, whose denominators multiply into [`uniform_den`].
pub proof fn lemma_uniform_is_composition(
    proj: Seq<i64>,
    sx: u32,
    sy: u32,
    px: i32,
    py: i32,
    vw: u32,
    vh: u32,
)
    requires
        proj.len() == 16,
    ensures
        forall|k: int|
            0 <= k < 16 ==> #[trigger] uniform_num(proj, sx, sy, px, py, vw, vh, k) == mat16_mul(
                mat16_mul(proj_entries(proj), scale_mat_num(sx, sy)),
                translate_mat_num(px, py, vw, vh),
            )[k],
{
    assert forall|k: int| 0 <= k < 16 implies #[trigger] uniform_num(proj, sx, sy, px, py, vw, vh, k)
        == mat16_mul(
        mat16_mul(proj_entries(proj), scale_mat_num(sx, sy)),
        translate_mat_num(px, py, vw, vh),
    )[k] by {
        let r = k / 4;
        let c = k % 4;
        vstd::arithmetic::div_mod::lemma_fundamental_div_mod(k, 4);
        vstd::arithmetic::div_mod::lemma_mod_bound(k, 4);
        let a = mat16_mul(proj_entries(proj), scale_mat_num(sx, sy));
        let s = scale_mat_num(sx, sy);
        let t = translate_mat_num(px, py, vw, vh);
        assert(s[0] == sx as int && s[4] == 0 && s[8] == 0 && s[12] == 0);
        assert(s[1] == 0 && s[5] == sy as int && s[9] == 0 && s[13] == 0);
        assert(s[2] == 0 && s[6] == 0 && s[10] == FP_ONE as int && s[14] == 0);
        assert(s[3] == 0 && s[7] == 0 && s[11] == 0 && s[15] == FP_ONE as int);
        assert(t[0] == (vw as int) * (vh as int) && t[4] == 0 && t[8] == 0 && t[12] == 0);
        assert(t[1] == 0 && t[5] == (vw as int) * (vh as int) && t[9] == 0 && t[13] == 0);
        assert(t[2] == 0 && t[6] == 0 && t[10] == (vw as int) * (vh as int) && t[14] == 0);
        assert(t[3] == (px as int) * (vh as int) && t[7] == (py as int) * (vw as int) && t[11] == 0
            && t[15] == (vw as int) * (vh as int));
        lemma_fundamental_div_mod_converse(4 * r, 4, r, 0);
        lemma_fundamental_div_mod_converse(4 * r + 1, 4, r, 1);
        lemma_fundamental_div_mod_converse(4 * r + 2, 4, r, 2);
        lemma_fundamental_div_mod_converse(4 * r + 3, 4, r, 3);
        let pe = proj_entries(proj);
        assert(pe[4 * r] == proj[4 * r] as int);
        assert(pe[4 * r + 1] == proj[4 * r + 1] as int);
        assert(pe[4 * r + 2] == proj[4 * r + 2] as int);
        assert(pe[4 * r + 3] == proj[4 * r + 3] as int);
        assert(a[4 * r] == mat16_mul_entry(pe, s, 4 * r));
        assert(mat16_mul_entry(pe, s, 4 * r) == pe[4 * r] * s[0] + pe[4 * r + 1] * s[4] + pe[4 * r
            + 2] * s[8] + pe[4 * r + 3] * s[12]);
        assert(a[4 * r] == (proj[4 * r] as int) * (sx as int));
        assert(a[4 * r + 1] == (proj[4 * r + 1] as int) * (sy as int));
        assert(a[4 * r + 2] == (proj[4 * r + 2] as int) * (FP_ONE as int));
        assert(a[4 * r + 3] == (proj[4 * r + 3] as int) * (FP_ONE as int));
        lemma_compose_row(
            proj[4 * r] as int,
            proj[4 * r + 1] as int,
            proj[4 * r + 2] as int,
            proj[4 * r + 3] as int,
            sx as int,
            sy as int,
            px as int,
            py as int,
            vw as int,
            vh as int,
        );
        let product = mat16_mul(a, t);
        if c == 0 {
            assert(product[k] == a[4 * r] * t[0] + a[4 * r + 1] * t[4] + a[4 * r + 2] * t[8] + a[4
                * r + 3] * t[12]);
        } else if c == 1 {
            assert(product[k] == a[4 * r] * t[1] + a[4 * r + 1] * t[5] + a[4 * r + 2] * t[9] + a[4
                * r + 3] * t[13]);
        } else if c == 2 {
            assert(product[k] == a[4 * r] * t[2] + a[4 * r + 1] * t[6] + a[4 * r + 2] * t[10] + a[4
                * r + 3] * t[14]);
        } else {
            assert(product[k] == a[4 * r] * t[3] + a[4 * r + 1] * t[7] + a[4 * r + 2] * t[11] + a[4
                * r + 3] * t[15]);
        }
    }
}

/// The rational value `n1 / d1` equals `n2 / d2` (cross-multiplied; both
/// denominators positive wherever this is used).
pub open spec fn rat_eq(n1: int, d1: int, n2: int, d2: int) -> bool {
    n1 * d2 == n2 * d1
}

/// Column 0/1 entries under a unit scale reduce to the projection entry.
proof fn lemma_unit_scale_entry(p: int, w: int, h: int)
    by (nonlinear_arith)
    ensures
        ((FP_ONE as int) * p * w * h) * (FP_ONE as int) == p * ((FP_ONE as int) * (FP_ONE as int)
            * w * h),
        (p * (FP_ONE as int) * w * h) * (FP_ONE as int) == p * ((FP_ONE as int) * (FP_ONE as int)
            * w * h),
        (FP_ONE as int) * 0 * p * h == 0,
{
}

/// Law: a unit scale and a zero translation leave the projection as it
/// was. Every numerator of the composed uniform equals the matching
/// projection entry as a rational, entry over [`FP_ONE`].
pub proof fn lemma_uniform_identity_transform(proj: Seq<i64>, vw: u32, vh: u32)
    requires
        proj.len() == 16,
    ensures
        forall|k: int|
            0 <= k < 16 ==> rat_eq(
                #[trigger] uniform_num(proj, SCALE_ONE, SCALE_ONE, 0, 0, vw, vh, k),
                uniform_den(vw, vh),
                proj[k] as int,
                FP_ONE as int,
            ),
{
    assert forall|k: int| 0 <= k < 16 implies rat_eq(
        #[trigger] uniform_num(proj, SCALE_ONE, SCALE_ONE, 0, 0, vw, vh, k),
        uniform_den(vw, vh),
        proj[k] as int,
        FP_ONE as int,
    ) by {
        let r = k / 4;
        let c = k % 4;
        vstd::arithmetic::div_mod::lemma_fundamental_div_mod(k, 4);
        vstd::arithmetic::div_mod::lemma_mod_bound(k, 4);
        lemma_unit_scale_entry(proj[4 * r] as int, vw as int, vh as int);
        lemma_unit_scale_entry(proj[4 * r + 1] as int, vw as int, vh as int);
        lemma_unit_scale_entry(proj[4 * r + 2] as int, vw as int, vh as int);
        lemma_unit_scale_entry(proj[4 * r + 3] as int, vw as int, vh as int);
        lemma_unit_scale_entry(proj[k] as int, vw as int, vh as int);
        assert((SCALE_ONE as int) * 0 * (proj[4 * r] as int) * (vh as int) == 0);
        assert((SCALE_ONE as int) * 0 * (proj[4 * r + 1] as int) * (vw as int) == 0);
    }
}

} // verus!
