//! Cholesky indexing helpers shared by multivariate families.
//!
//! A lower-triangular `dimension x dimension` matrix is packed row by row:
//! `(0,0), (1,0), (1,1), (2,0), (2,1), (2,2), ...`.
use vstd::prelude::*;

verus! {

/// The `n`-th triangular number `n * (n + 1) / 2`: the number of entries on
/// and below the diagonal of an `n x n` matrix.
pub open spec fn triangle(n: int) -> int {
    n * (n + 1) / 2
}

/// What `packed_len` returns: the packed length when `dimension * (dimension + 1)`
/// fits in `usize`, and `None` otherwise.
pub open spec fn spec_packed_len(dimension: usize) -> Option<usize> {
    if dimension * (dimension + 1) <= usize::MAX {
        Some(triangle(dimension as int) as usize)
    } else {
        None
    }
}

/// What `packed_index` returns: the row-major packed position of `(row, col)`
/// for an entry on or below the diagonal, when every intermediate value fits
/// in `usize`; `None` above the diagonal or on overflow.
pub open spec fn spec_packed_index(row: usize, col: usize) -> Option<usize> {
    if col <= row && row * (row + 1) <= usize::MAX && triangle(row as int) + col <= usize::MAX {
        Some((triangle(row as int) + col) as usize)
    } else {
        None
    }
}

/// Number of entries in a packed lower-triangular `dimension x dimension` matrix.
pub fn packed_len(dimension: usize) -> (len: Option<usize>)
    ensures
        len == spec_packed_len(dimension),
{
    match dimension.checked_add(1) {
        Some(next) => match dimension.checked_mul(next) {
            Some(product) => Some(product / 2),
            None => None,
        },
        None => {
            assert(dimension * (dimension + 1) > usize::MAX) by (nonlinear_arith)
                requires
                    dimension == usize::MAX,
                    usize::MAX >= 1,
            ;
            None
        },
    }
}

/// Row-major packed lower-triangular index for `(row, col)`.
pub fn packed_index(row: usize, col: usize) -> (index: Option<usize>)
    ensures
        index == spec_packed_index(row, col),
{
    if col <= row {
        match row.checked_add(1) {
            Some(next) => match row.checked_mul(next) {
                Some(product) => match (product / 2).checked_add(col) {
                    Some(index) => Some(index),
                    None => None,
                },
                None => None,
            },
            None => {
                assert(row * (row + 1) > usize::MAX) by (nonlinear_arith)
                    requires
                        row == usize::MAX,
                        usize::MAX >= 1,
                ;
                None
            },
        }
    } else {
        None
    }
}


/// `triangle(n + 1)` adds one full row of `n + 1` entries to `triangle(n)`.
pub proof fn lemma_triangle_succ(n: int)
    requires
        n >= 0,
    ensures
        triangle(n + 1) == triangle(n) + n + 1,
{
    let a = n * (n + 1);
    assert((n + 1) * (n + 2) == a + 2 * (n + 1)) by (nonlinear_arith)
        requires
            a == n * (n + 1),
    ;
    assert((a + 2 * (n + 1)) / 2 == a / 2 + (n + 1));
}

/// Triangular numbers, and the products they halve, grow with `n`.
pub proof fn lemma_triangle_monotonic(a: int, b: int)
    requires
        0 <= a <= b,
    ensures
        a * (a + 1) <= b * (b + 1),
        triangle(a) <= triangle(b),
{
    assert(a * (a + 1) <= b * (b + 1)) by (nonlinear_arith)
        requires
            0 <= a <= b,
    ;
}

/// `triangle(n)` is non-negative for a non-negative `n`.
proof fn lemma_triangle_nonnegative(n: int)
    requires
        n >= 0,
    ensures
        triangle(n) >= 0,
        n * (n + 1) >= 0,
{
    assert(n * (n + 1) >= 0) by (nonlinear_arith)
        requires
            n >= 0,
    ;
}

/// Every entry on or below the diagonal of a matrix whose packed length is
/// representable has a packed index, and that index lies inside the packed
/// storage.
pub proof fn lemma_packed_index_in_bounds(dimension: usize, row: usize, col: usize)
    requires
        spec_packed_len(dimension) is Some,
        col <= row < dimension,
    ensures
        spec_packed_index(row, col) is Some,
        spec_packed_index(row, col).unwrap() < spec_packed_len(dimension).unwrap(),
{
    lemma_triangle_monotonic(row + 1, dimension as int);
    lemma_triangle_monotonic(row as int, row + 1);
    lemma_triangle_succ(row as int);
    lemma_triangle_nonnegative(row as int);
}

/// The packed layout is row-major without gaps: `(0, 0)` is stored first,
/// each entry is followed by the next entry of its row, the diagonal entry
/// of a row is followed by the first entry of the next row, and the last
/// diagonal entry is the last stored value.
pub proof fn lemma_packed_layout_is_row_major(dimension: usize, row: usize, col: usize)
    requires
        spec_packed_len(dimension) is Some,
        col <= row < dimension,
    ensures
        spec_packed_index(0, 0) == Some(0usize),
        col < row ==> spec_packed_index(row, (col + 1) as usize) == Some(
            (spec_packed_index(row, col).unwrap() + 1) as usize,
        ),
        col == row && row + 1 < dimension ==> spec_packed_index((row + 1) as usize, 0) == Some(
            (spec_packed_index(row, col).unwrap() + 1) as usize,
        ),
        col == row && row + 1 == dimension ==> spec_packed_index(row, col).unwrap() + 1
            == spec_packed_len(dimension).unwrap(),
{
    lemma_packed_index_in_bounds(dimension, row, col);
    lemma_triangle_succ(row as int);
    if col < row {
        lemma_packed_index_in_bounds(dimension, row, (col + 1) as usize);
    }
    if col == row && row + 1 < dimension {
        lemma_packed_index_in_bounds(dimension, (row + 1) as usize, 0);
    }
}

/// Distinct entries on or below the diagonal never share a packed index.
pub proof fn lemma_packed_index_injective(row1: usize, col1: usize, row2: usize, col2: usize)
    requires
        spec_packed_index(row1, col1) is Some,
        spec_packed_index(row1, col1) == spec_packed_index(row2, col2),
    ensures
        row1 == row2,
        col1 == col2,
{
    if row1 < row2 {
        lemma_triangle_monotonic(row1 + 1, row2 as int);
        lemma_triangle_succ(row1 as int);
    } else if row2 < row1 {
        lemma_triangle_monotonic(row2 + 1, row1 as int);
        lemma_triangle_succ(row2 as int);
    }
}

/// Every position of the packed storage of a representable matrix holds an
/// entry: some `(row, col)` on or below the diagonal has that packed index.
pub proof fn lemma_packed_index_surjective(dimension: usize, packed: usize)
    requires
        spec_packed_len(dimension) is Some,
        packed < spec_packed_len(dimension).unwrap(),
    ensures
        exists|row: usize, col: usize|
            col <= row < dimension && #[trigger] spec_packed_index(row, col) == Some(packed),
    decreases dimension,
{
    let last = (dimension - 1) as usize;
    lemma_triangle_succ(last as int);
    lemma_triangle_monotonic(last as int, dimension as int);
    if packed < triangle(last as int) {
        lemma_packed_index_surjective(last, packed);
    } else {
        let col = (packed - triangle(last as int)) as usize;
        lemma_packed_index_in_bounds(dimension, last, col);
        assert(spec_packed_index(last, col) == Some(packed));
    }
}

/// `packed_len` fails only on overflow: the packed length of `dimension`
/// exists exactly when `dimension * (dimension + 1)` fits in `usize`, and
/// then it is the number `n` with `2 * n == dimension * (dimension + 1)`.
pub proof fn lemma_packed_len_exact(dimension: usize)
    ensures
        spec_packed_len(dimension) is Some <==> dimension * (dimension + 1) <= usize::MAX,
        spec_packed_len(dimension) matches Some(n) ==> 2 * n == dimension * (dimension + 1),
{
    lemma_triangle_nonnegative(dimension as int);
    lemma_product_of_successors_even(dimension as int);
}

/// `n * (n + 1)` is even, so halving it loses nothing.
proof fn lemma_product_of_successors_even(n: int)
    requires
        n >= 0,
    ensures
        2 * triangle(n) == n * (n + 1),
{
    let k = n / 2;
    let p = n * (n + 1);
    if n % 2 == 0 {
        assert(p == 2 * (k * (2 * k + 1))) by (nonlinear_arith)
            requires
                n == 2 * k,
                p == n * (n + 1),
        ;
    } else {
        assert(p == 2 * ((2 * k + 1) * (k + 1))) by (nonlinear_arith)
            requires
                n == 2 * k + 1,
                p == n * (n + 1),
        ;
    }
}

/// Growing a matrix by one row adds that row's `dimension + 1` entries: when
/// the larger matrix is representable, so is the smaller one, and their packed
/// lengths differ by `dimension + 1`.
pub proof fn lemma_packed_len_grows_by_row(dimension: usize)
    requires
        dimension < usize::MAX,
        spec_packed_len((dimension + 1) as usize) is Some,
    ensures
        spec_packed_len(dimension) is Some,
        spec_packed_len((dimension + 1) as usize).unwrap() == spec_packed_len(dimension).unwrap()
            + dimension + 1,
{
    lemma_packed_len_exact(dimension);
    lemma_packed_len_exact((dimension + 1) as usize);
    lemma_triangle_monotonic(dimension as int, dimension + 1);
    lemma_triangle_succ(dimension as int);
    lemma_triangle_nonnegative(dimension as int);
}

/// `packed_index` fails only above the diagonal or on overflow: the index of
/// `(row, col)` exists exactly when `col <= row` and `row * (row + 1) / 2 + col`
/// is computable in `usize`, and then it is the number `i` with
/// `2 * i == row * (row + 1) + 2 * col`.
pub proof fn lemma_packed_index_exact(row: usize, col: usize)
    ensures
        spec_packed_index(row, col) is Some <==> (col <= row && row * (row + 1) <= usize::MAX
            && row * (row + 1) / 2 + col <= usize::MAX),
        spec_packed_index(row, col) matches Some(i) ==> 2 * i == row * (row + 1) + 2 * col,
{
    lemma_product_of_successors_even(row as int);
    lemma_triangle_nonnegative(row as int);
}

} // verus!
