use vstd::array::group_array_axioms;
use vstd::prelude::*;

verus! {

broadcast use group_array_axioms;

/// The entries of a 4x4 matrix stored column-major: `m[c][r]` is the entry in
/// row `r` of column `c`.
pub type Columns<T> = [[T; 4]; 4];

/// `t` holds the entries of `m` flipped along the diagonal.
pub open spec fn is_transpose_of<T>(t: Columns<T>, m: Columns<T>) -> bool {
    forall|c: int, r: int| 0 <= c < 4 && 0 <= r < 4 ==> #[trigger] t[c][r] == m[r][c]
}

/// `m` holds the sixteen entries of `flat` in order, one column after another.
pub open spec fn is_laid_out_from<T>(m: Columns<T>, flat: [T; 16]) -> bool {
    forall|c: int, r: int| 0 <= c < 4 && 0 <= r < 4 ==> #[trigger] m[c][r] == flat[4 * c + r]
}

/// The entries of row `i` of `m`, from the first column to the last.
pub fn row<T: Copy>(m: &Columns<T>, i: usize) -> (r: [T; 4])
    requires
        i < 4,
    ensures
        forall|c: int| 0 <= c < 4 ==> #[trigger] r[c] == m[c][i as int],
{
    [m[0][i], m[1][i], m[2][i], m[3][i]]
}

/// The transpose of `m`: column `i` of the result is row `i` of `m`.
pub fn transpose<T: Copy>(m: &Columns<T>) -> (t: Columns<T>)
    ensures
        is_transpose_of(t, *m),
{
    [row(m, 0), row(m, 1), row(m, 2), row(m, 3)]
}

/// The matrix whose columns are the consecutive groups of four entries of
/// `flat`.
pub fn from_flat<T: Copy>(flat: &[T; 16]) -> (m: Columns<T>)
    ensures
        is_laid_out_from(m, *flat),
{
    [
        [flat[0], flat[1], flat[2], flat[3]],
        [flat[4], flat[5], flat[6], flat[7]],
        [flat[8], flat[9], flat[10], flat[11]],
        [flat[12], flat[13], flat[14], flat[15]],
    ]
}

/// Transposing twice gives the matrix back: when `t` is the transpose of `m`
/// and `u` is the transpose of `t`, then `u` is `m`.
pub proof fn lemma_transpose_twice<T>(m: Columns<T>, t: Columns<T>, u: Columns<T>)
    requires
        is_transpose_of(t, m),
        is_transpose_of(u, t),
    ensures
        u == m,
{
    assert forall|c: int| 0 <= c < 4 implies #[trigger] u[c] == m[c] by {
        assert forall|r: int| 0 <= r < 4 implies u[c][r] == m[c][r] by {
            assert(u[c][r] == t[r][c]);
        }
        assert(u[c] =~= m[c]);
    }
    assert(u =~= m);
}

} // verus!
