use vello_render::fixed::{FX_MAX, FX_ONE};
use vello_render::mat4::{affine_from_mat, ndc_to_pixels, Mat4};

fn mat(entries: [i64; 16]) -> Mat4 {
    let mut v: Vec<i64> = Vec::new();
    for e in entries.iter() {
        v.push(*e);
    }
    Mat4::from_entries(v).unwrap()
}

fn entries_of(m: &Mat4) -> [i64; 16] {
    let mut out = [0i64; 16];
    let mut k = 0;
    while k < 16 {
        out[k] = m.entry(k);
        k += 1;
    }
    out
}

fn translation(tx: i64, ty: i64, tz: i64) -> Mat4 {
    mat([
        FX_ONE, 0, 0, tx, 0, FX_ONE, 0, ty, 0, 0, FX_ONE, tz, 0, 0, 0, FX_ONE,
    ])
}

#[test]
fn identity_has_unit_diagonal() {
    let m = Mat4::identity();
    let e = entries_of(&m);
    assert_eq!(
        e,
        [FX_ONE, 0, 0, 0, 0, FX_ONE, 0, 0, 0, 0, FX_ONE, 0, 0, 0, 0, FX_ONE]
    );
}

#[test]
fn from_entries_rejects_wrong_count() {
    assert!(Mat4::from_entries(vec![0i64; 15]).is_none());
    assert!(Mat4::from_entries(vec![0i64; 17]).is_none());
    assert!(Mat4::from_entries(vec![0i64; 16]).is_some());
}

#[test]
fn from_entries_rejects_out_of_range() {
    let mut v = vec![0i64; 16];
    v[5] = FX_MAX + 1;
    assert!(Mat4::from_entries(v).is_none());
    let mut w = vec![0i64; 16];
    w[3] = -FX_MAX - 1;
    assert!(Mat4::from_entries(w).is_none());
}

#[test]
fn mul_by_identity_is_identity_map() {
    let m = translation(3 * FX_ONE, -2 * FX_ONE, FX_ONE);
    let r = m.mat_mul(&Mat4::identity()).unwrap();
    assert_eq!(entries_of(&r), entries_of(&m));
    let l = Mat4::identity().mat_mul(&m).unwrap();
    assert_eq!(entries_of(&l), entries_of(&m));
}

#[test]
fn mul_scales_compose() {
    let two = mat([
        2 * FX_ONE, 0, 0, 0, 0, 2 * FX_ONE, 0, 0, 0, 0, 2 * FX_ONE, 0, 0, 0, 0, FX_ONE,
    ]);
    let three = mat([
        3 * FX_ONE, 0, 0, 0, 0, 3 * FX_ONE, 0, 0, 0, 0, 3 * FX_ONE, 0, 0, 0, 0, FX_ONE,
    ]);
    let r = two.mat_mul(&three).unwrap();
    assert_eq!(
        entries_of(&r),
        [6 * FX_ONE, 0, 0, 0, 0, 6 * FX_ONE, 0, 0, 0, 0, 6 * FX_ONE, 0, 0, 0, 0, FX_ONE]
    );
}

#[test]
fn mul_out_of_range_is_none() {
    let big = mat([
        FX_MAX, 0, 0, 0, 0, FX_MAX, 0, 0, 0, 0, FX_MAX, 0, 0, 0, 0, FX_MAX,
    ]);
    assert!(big.mat_mul(&big).is_none());
}

#[test]
fn inverse_of_identity_is_identity() {
    let r = Mat4::identity().inverse().unwrap();
    assert_eq!(entries_of(&r), entries_of(&Mat4::identity()));
}

#[test]
fn inverse_of_translation_negates_it() {
    let m = translation(3 * FX_ONE, 5 * FX_ONE, -2 * FX_ONE);
    let r = m.inverse().unwrap();
    assert_eq!(
        entries_of(&r),
        entries_of(&translation(-3 * FX_ONE, -5 * FX_ONE, 2 * FX_ONE))
    );
}

#[test]
fn inverse_of_scale_is_reciprocal() {
    let m = mat([
        2 * FX_ONE, 0, 0, 0, 0, 4 * FX_ONE, 0, 0, 0, 0, FX_ONE, 0, 0, 0, 0, FX_ONE,
    ]);
    let r = m.inverse().unwrap();
    assert_eq!(
        entries_of(&r),
        [32768, 0, 0, 0, 0, 16384, 0, 0, 0, 0, FX_ONE, 0, 0, 0, 0, FX_ONE]
    );
}

#[test]
fn inverse_of_singular_is_none() {
    let zero = mat([0i64; 16]);
    assert!(zero.inverse().is_none());
}

#[test]
fn inverse_round_trips_through_mul() {
    let m = mat([
        2 * FX_ONE, 0, 0, 3 * FX_ONE, 0, FX_ONE, 0, -FX_ONE, 0, 0, FX_ONE, 0, 0, 0, 0, FX_ONE,
    ]);
    let inv = m.inverse().unwrap();
    let r = m.mat_mul(&inv).unwrap();
    assert_eq!(entries_of(&r), entries_of(&Mat4::identity()));
}

#[test]
fn y_flip_negates_only_the_y_translation() {
    let m = translation(FX_ONE, 2 * FX_ONE, 3 * FX_ONE);
    let r = m.with_y_flip();
    assert_eq!(
        entries_of(&r),
        entries_of(&translation(FX_ONE, -2 * FX_ONE, 3 * FX_ONE))
    );
}

#[test]
fn ndc_matrix_maps_to_pixels() {
    let m = ndc_to_pixels(800, 600);
    assert_eq!(
        entries_of(&m),
        [
            400 * FX_ONE, 0, 0, 400 * FX_ONE,
            0, 300 * FX_ONE, 0, 300 * FX_ONE,
            0, 0, FX_ONE, 0,
            0, 0, 0, FX_ONE
        ]
    );
}

#[test]
fn affine_extraction_flips_off_diagonal_signs() {
    let m = mat([
        FX_ONE, 7, 0, 9 * FX_ONE,
        11, FX_ONE, 0, 13 * FX_ONE,
        0, 0, FX_ONE, 0,
        0, 0, 0, FX_ONE,
    ]);
    let a = affine_from_mat(&m);
    assert_eq!(a.a, FX_ONE);
    assert_eq!(a.b, -11);
    assert_eq!(a.c, -7);
    assert_eq!(a.d, FX_ONE);
    assert_eq!(a.e, 9 * FX_ONE);
    assert_eq!(a.f, 13 * FX_ONE);
}
