//! Fixed-point scalars, trigonometry, vectors, matrices, and the transform
//! graph, checked on concrete values.
use spatial_core::fx::{abs_fx, add_fx, mul_fx, neg_fx, recip_fx, sub_fx, FX_HALF, FX_ONE};
use spatial_core::matrix::Matrix;
use spatial_core::transform::{RawTransform, TransformArena};
use spatial_core::trig::{cos_fx, sin_fx, FX_PI};
use spatial_core::vector::{Vector2, Vector3, Vector4};

fn to_f64(v: i64) -> f64 {
    v as f64 / FX_ONE as f64
}

fn mat_f64(m: &Matrix) -> [[f64; 4]; 4] {
    let mut out = [[0.0f64; 4]; 4];
    for i in 0..4 {
        for j in 0..4 {
            out[i][j] = to_f64(m.get(i, j));
        }
    }
    out
}

fn mul_f64(a: &[[f64; 4]; 4], b: &[[f64; 4]; 4]) -> [[f64; 4]; 4] {
    let mut out = [[0.0f64; 4]; 4];
    for i in 0..4 {
        for j in 0..4 {
            for k in 0..4 {
                out[i][j] += a[i][k] * b[k][j];
            }
        }
    }
    out
}

fn max_dev_from_ident(m: &[[f64; 4]; 4]) -> f64 {
    let mut dev = 0.0f64;
    for i in 0..4 {
        for j in 0..4 {
            let want = if i == j { 1.0 } else { 0.0 };
            let d = (m[i][j] - want).abs();
            if d > dev {
                dev = d;
            }
        }
    }
    dev
}

#[test]
fn scalar_arithmetic_is_exact() {
    assert_eq!(mul_fx(2_000_000, 3_000_000), 6_000_000);
    assert_eq!(mul_fx(1_500_000, -2_000_000), -3_000_000);
    assert_eq!(mul_fx(7, FX_ONE), 7);
    assert_eq!(mul_fx(1, 500_000), 0);
    assert_eq!(mul_fx(-1, 500_000), -1);
    assert_eq!(add_fx(250_000, 750_000), FX_ONE);
    assert_eq!(sub_fx(250_000, 750_000), -500_000);
    assert_eq!(neg_fx(123), -123);
    assert_eq!(abs_fx(-123), 123);
    assert_eq!(recip_fx(2_000_000), 500_000);
    assert_eq!(recip_fx(500_000), 2_000_000);
    assert_eq!(recip_fx(-2_000_000), -500_000);
    assert_eq!(recip_fx(0), 0);
}

#[test]
fn scalar_arithmetic_saturates() {
    assert_eq!(add_fx(i64::MAX, 1), i64::MAX);
    assert_eq!(sub_fx(i64::MIN, 1), i64::MIN);
    assert_eq!(neg_fx(i64::MIN), i64::MAX);
    assert_eq!(mul_fx(i64::MAX, i64::MAX), i64::MAX);
    assert_eq!(mul_fx(i64::MAX, i64::MIN), i64::MIN);
}

#[test]
fn trig_at_zero_is_exact() {
    assert_eq!(sin_fx(0), 0);
    assert_eq!(cos_fx(0), FX_ONE);
}

#[test]
fn trig_tracks_the_real_functions() {
    for tenth in -60i64..=60 {
        let angle = tenth * 100_000;
        let x = to_f64(angle);
        assert!((to_f64(sin_fx(angle)) - x.sin()).abs() < 1e-4);
        assert!((to_f64(cos_fx(angle)) - x.cos()).abs() < 1e-4);
    }
    assert!((to_f64(sin_fx(FX_PI / 2)) - 1.0).abs() < 1e-4);
    assert!((to_f64(cos_fx(FX_PI)) + 1.0).abs() < 1e-4);
}

#[test]
fn vectors_compute_componentwise() {
    let a = Vector3::from_xyz(FX_ONE, 2 * FX_ONE, -FX_ONE);
    let b = Vector3::from_xyz(500_000, -500_000, 250_000);
    assert_eq!(a.plus(&b), Vector3::from_xyz(1_500_000, 1_500_000, -750_000));
    assert_eq!(a.minus(&b), Vector3::from_xyz(500_000, 2_500_000, -1_250_000));
    assert_eq!(a.scaled(FX_HALF), Vector3::from_xyz(500_000, FX_ONE, -500_000));
    assert_eq!(a.halved(), a.scaled(FX_HALF));
    assert_eq!(a.negated(), Vector3::from_xyz(-FX_ONE, -2 * FX_ONE, FX_ONE));
    let x = Vector3::from_xyz(FX_ONE, 0, 0);
    let y = Vector3::from_xyz(0, FX_ONE, 0);
    assert_eq!(x.cross(&y), Vector3::from_xyz(0, 0, FX_ONE));
    assert_eq!(y.cross(&x), Vector3::from_xyz(0, 0, -FX_ONE));
    let mut v = Vector3::zero();
    v.set(1, 42);
    assert_eq!(v.get(1), 42);
    assert_eq!(Vector3::repeat(7), Vector3::from_xyz(7, 7, 7));
    let p = Vector2::from_xy(3, 4);
    assert_eq!(p.x(), 3);
    assert_eq!(p.y(), 4);
    let mut q = Vector4::from_xyz(1, 2, 3);
    assert_eq!(q.w, FX_ONE);
    q.set(3, 9);
    assert_eq!(q.get(3), 9);
}

#[test]
fn matrix_identity_is_neutral() {
    let m = Matrix::translate(Vector3::from_xyz(FX_ONE, 2 * FX_ONE, 3 * FX_ONE));
    assert_eq!(Matrix::ident().mul(&m), m);
    assert_eq!(m.mul(&Matrix::ident()), m);
}

#[test]
fn matrix_access_and_transpose() {
    let mut m = Matrix::zero();
    m.set(1, 3, 77);
    assert_eq!(m.get(1, 3), 77);
    let t = m.transpose();
    assert_eq!(t.get(3, 1), 77);
    assert_eq!(t.get(1, 3), 0);
}

#[test]
fn translation_moves_a_point() {
    let m = Matrix::translate(Vector3::from_xyz(FX_ONE, 0, -2 * FX_ONE));
    let p = m.mul_vec3(&Vector3::from_xyz(500_000, 500_000, 500_000));
    assert_eq!(p, Vector3::from_xyz(1_500_000, 500_000, -1_500_000));
}

#[test]
fn rotation_by_half_pi_turns_axes() {
    // Rotating (1, 0, 0) about z by roughly half pi lands near (0, -1, 0)
    // under this matrix convention.
    let m = Matrix::rotation_z(FX_PI / 2);
    let p = m.mul_vec3(&Vector3::from_xyz(FX_ONE, 0, 0));
    assert!((to_f64(p.x) - 0.0).abs() < 1e-4);
    assert!((to_f64(p.y).abs() - 1.0).abs() < 1e-4);
    assert_eq!(p.z, 0);
}

#[test]
fn translation_round_trip_is_exact() {
    let raw = RawTransform::from_xyz(300_000, -1_200_000, 2_500_000);
    let product = raw.matrix().mul(&raw.reverse_matrix());
    assert_eq!(product, Matrix::ident());
    let product = raw.reverse_matrix().mul(&raw.matrix());
    assert_eq!(product, Matrix::ident());
}

#[test]
fn full_round_trip_is_an_inverse_within_tolerance() {
    // Translation, rotation and scale combined: the reverse matrix inverts
    // the forward matrix to within the fixed-point tolerance.
    let mut raw = RawTransform::from_xyz(300_000, -1_200_000, 2_500_000);
    raw.rotate(Vector3::from_xyz(400_000, 700_000, -200_000));
    raw.scale(1_500_000);
    let fwd = mat_f64(&raw.matrix());
    let rev = mat_f64(&raw.reverse_matrix());
    assert!(max_dev_from_ident(&mul_f64(&fwd, &rev)) < 1e-5);
    assert!(max_dev_from_ident(&mul_f64(&rev, &fwd)) < 1e-5);
}

#[test]
fn scale_round_trip_is_exact() {
    let mut raw = RawTransform::new();
    raw.scale(2_000_000);
    assert_eq!(raw.matrix().mul(&raw.reverse_matrix()), Matrix::ident());
}

#[test]
fn child_inherits_parent_translation() {
    // A parent moved by one unit along x and a child with no local offset:
    // the child's world matrix carries the parent's position.
    let mut arena = TransformArena::new();
    let parent = arena.from_xyz(FX_ONE, 0, 0);
    let child = arena.new_transform();
    arena.set_parent(child, parent);
    let m = arena.matrix(child);
    assert_eq!(m, Matrix::translate(Vector3::from_xyz(FX_ONE, 0, 0)));
    assert_eq!(m.get(0, 3), FX_ONE);
    assert_eq!(m.get(1, 3), 0);
    assert_eq!(m.get(2, 3), 0);
}

#[test]
fn world_position_chains_and_locals_stay() {
    let mut arena = TransformArena::new();
    let a = arena.from_xyz(FX_ONE, 0, 0);
    let b = arena.from_xyz(0, 2 * FX_ONE, 0);
    arena.set_parent(b, a);
    assert_eq!(arena.position(b), Vector3::from_xyz(0, 2 * FX_ONE, 0));
    assert_eq!(arena.world_position(b), Vector3::from_xyz(FX_ONE, 2 * FX_ONE, 0));
    arena.translate(a, 0, 0, -FX_ONE);
    assert_eq!(arena.world_position(b), Vector3::from_xyz(FX_ONE, 2 * FX_ONE, -FX_ONE));
}

#[test]
fn mutators_accumulate() {
    let mut raw = RawTransform::new();
    raw.translate(1, 2, 3);
    raw.translate_vec(Vector3::from_xyz(10, 20, 30));
    assert_eq!(raw.position, Vector3::from_xyz(11, 22, 33));
    raw.rotate_h(100);
    raw.rotate_v(200);
    raw.rotate(Vector3::from_xyz(1, 2, 3));
    assert_eq!(raw.rotation, Vector3::from_xyz(201, 102, 3));
    raw.scale(FX_HALF);
    raw.scale(FX_HALF);
    assert_eq!(raw.scale, 250_000);
}

#[test]
fn reverse_matrix_serves_as_a_view() {
    // A camera at (0, 0, 5): its reverse matrix maps a point at the origin
    // to five units in front, exactly.
    let raw = RawTransform::from_xyz(0, 0, 5 * FX_ONE);
    let view = raw.reverse_matrix();
    let p = view.mul_vec3(&Vector3::zero());
    assert_eq!(p, Vector3::from_xyz(0, 0, -5 * FX_ONE));
}

#[test]
fn direction_faces_forward() {
    let raw = RawTransform::new();
    assert_eq!(raw.direction(), Vector3::from_xyz(0, 0, -FX_ONE));
}

#[test]
fn normal_matrix_carries_rotation_only() {
    let mut raw = RawTransform::from_xyz(5 * FX_ONE, 0, 0);
    raw.scale(2_000_000);
    let n = raw.normal_matrix();
    assert_eq!(n, Matrix::ident());
}
