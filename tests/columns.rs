use math3d::{from_flat, row, transpose, Columns};

fn sample() -> Columns<f32> {
    [
        [3.0, 2.0, 1.0, 1.0],
        [2.0, 3.0, 2.0, 2.0],
        [1.0, 2.0, 3.0, 3.0],
        [0.0, 1.0, 1.0, 0.0],
    ]
}

fn numbered() -> Columns<u32> {
    [[0, 1, 2, 3], [4, 5, 6, 7], [8, 9, 10, 11], [12, 13, 14, 15]]
}

#[test]
fn row_gathers_across_columns() {
    let m = numbered();
    assert_eq!(row(&m, 0), [0, 4, 8, 12]);
    assert_eq!(row(&m, 1), [1, 5, 9, 13]);
    assert_eq!(row(&m, 3), [3, 7, 11, 15]);
}

#[test]
fn transpose_flips_along_diagonal() {
    let t = transpose(&numbered());
    assert_eq!(t, [[0, 4, 8, 12], [1, 5, 9, 13], [2, 6, 10, 14], [3, 7, 11, 15]]);
}

#[test]
fn transpose_twice_is_identity() {
    let m = numbered();
    assert_eq!(transpose(&transpose(&m)), m);
    let f = sample();
    assert_eq!(transpose(&transpose(&f)), f);
}

#[test]
fn transpose_of_symmetric_is_unchanged() {
    let identity: Columns<f32> = [
        [1.0, 0.0, 0.0, 0.0],
        [0.0, 1.0, 0.0, 0.0],
        [0.0, 0.0, 1.0, 0.0],
        [0.0, 0.0, 0.0, 1.0],
    ];
    assert_eq!(transpose(&identity), identity);
}

#[test]
fn transpose_keeps_bit_patterns() {
    let mut m = sample();
    m[1][2] = -0.0;
    m[3][0] = f32::INFINITY;
    let t = transpose(&m);
    assert_eq!(t[2][1].to_bits(), (-0.0f32).to_bits());
    assert_eq!(t[0][3], f32::INFINITY);
    let n = transpose(&t);
    assert_eq!(n[1][2].to_bits(), (-0.0f32).to_bits());
}

#[test]
fn from_flat_fills_columns_in_order() {
    let flat: [u32; 16] = [0, 1, 2, 3, 4, 5, 6, 7, 8, 9, 10, 11, 12, 13, 14, 15];
    assert_eq!(from_flat(&flat), numbered());
}

#[test]
fn from_flat_of_sample() {
    let a = [
        3.0, 2.0, 1.0, 1.0, 2.0, 3.0, 2.0, 2.0, 1.0, 2.0, 3.0, 3.0, 0.0, 1.0, 1.0, 0.0,
    ];
    assert_eq!(from_flat(&a), sample());
}
