//! Dense rectangular matrices and the two products that involve them:
//! matrix times column vector and row vector times matrix.

use vstd::prelude::*;

use crate::error::LinAlgError;
use crate::vector::ints;

verus! {

/// Sum of the first `n` products of corresponding entries of `x` and `y`.
pub open spec fn dot_prefix(x: Seq<int>, y: Seq<int>, n: int) -> int
    decreases n,
{
    if n <= 0 {
        0
    } else {
        dot_prefix(x, y, n - 1) + x[n - 1] * y[n - 1]
    }
}

/// Scalar dot product: the sum of all products of corresponding entries;
/// meaningful when the lengths agree.
pub open spec fn dot(x: Seq<int>, y: Seq<int>) -> int {
    dot_prefix(x, y, x.len() as int)
}

/// Every product of corresponding entries and every partial sum of those
/// products stays within the range of a 64-bit signed integer, so a dot
/// product of `x` and `y` can be accumulated without overflow.
pub open spec fn dot_in_range(x: Seq<int>, y: Seq<int>) -> bool {
    &&& forall|j: int| 0 <= j < x.len() ==> i64::MIN <= (#[trigger] x[j]) * y[j] <= i64::MAX
    &&& forall|n: int| 0 <= n <= x.len() ==> i64::MIN <= #[trigger] dot_prefix(x, y, n) <= i64::MAX
}

/// A partial dot product of entries bounded by `b` in magnitude is itself
/// bounded by `n` times `b` squared in magnitude.
pub proof fn lemma_dot_prefix_bounded(x: Seq<int>, y: Seq<int>, b: int, n: int)
    requires
        b >= 0,
        0 <= n <= x.len(),
        forall|j: int| 0 <= j < x.len() ==> -b <= #[trigger] x[j] <= b,
        forall|j: int| 0 <= j < x.len() ==> -b <= #[trigger] y[j] <= b,
    ensures
        -(n * b * b) <= dot_prefix(x, y, n) <= n * b * b,
    decreases n,
{
    if n > 0 {
        lemma_dot_prefix_bounded(x, y, b, n - 1);
        assert(-(b * b) <= x[n - 1] * y[n - 1] <= b * b) by (nonlinear_arith)
            requires
                -b <= x[n - 1] <= b,
                -b <= y[n - 1] <= b,
                b >= 0,
        ;
        assert((n - 1) * b * b + b * b == n * b * b) by (nonlinear_arith);
    }
}

/// Entries bounded by `b` in magnitude, with the length times `b` squared
/// within the range of a 64-bit signed integer, keep a whole dot product
/// free of overflow.
pub proof fn lemma_dot_in_range_bounded(x: Seq<int>, y: Seq<int>, b: int)
    requires
        b >= 0,
        forall|j: int| 0 <= j < x.len() ==> -b <= #[trigger] x[j] <= b,
        forall|j: int| 0 <= j < x.len() ==> -b <= #[trigger] y[j] <= b,
        x.len() * b * b <= i64::MAX,
    ensures
        dot_in_range(x, y),
{
    assert forall|j: int| 0 <= j < x.len() implies i64::MIN <= (#[trigger] x[j]) * y[j]
        <= i64::MAX by {
        assert(-(b * b) <= x[j] * y[j] <= b * b) by (nonlinear_arith)
            requires
                -b <= x[j] <= b,
                -b <= y[j] <= b,
                b >= 0,
        ;
        assert(b * b <= x.len() * b * b || x.len() == 0) by (nonlinear_arith)
            requires
                b >= 0,
                x.len() >= 0,
        ;
        assert(x.len() > 0);
    }
    assert forall|n: int| 0 <= n <= x.len() implies i64::MIN <= #[trigger] dot_prefix(x, y, n)
        <= i64::MAX by {
        lemma_dot_prefix_bounded(x, y, b, n);
        assert(n * b * b <= x.len() * b * b) by (nonlinear_arith)
            requires
                0 <= n <= x.len(),
                b >= 0,
        ;
    }
}

/// All rows have the length of the first row (vacuously true of a matrix
/// with no rows).
pub open spec fn rectangular(m: Seq<Seq<int>>) -> bool {
    forall|i: int| 0 <= i < m.len() ==> (#[trigger] m[i]).len() == m[0].len()
}

/// The mathematical contents of a sequence of rows of machine integers.
pub open spec fn mat_ints(rows: Seq<Vec<i64>>) -> Seq<Seq<int>> {
    rows.map_values(|row: Vec<i64>| ints(row@))
}

/// Matrix times column vector: entry `i` of the result is the dot product
/// of row `i` with `v`; meaningful when each row is as long as `v`.
pub open spec fn mat_vec_mul(m: Seq<Seq<int>>, v: Seq<int>) -> Seq<int> {
    Seq::new(m.len(), |i: int| dot(m[i], v))
}

/// Column `j` of the matrix; meaningful when every row has an entry `j`.
pub open spec fn mat_column(m: Seq<Seq<int>>, j: int) -> Seq<int> {
    Seq::new(m.len(), |i: int| m[i][j])
}

/// Row vector times matrix: entry `j` of the result is the dot product of
/// `x` with column `j`; meaningful when `x` is as long as the matrix is
/// tall. A matrix with no rows has no columns, so the result is empty.
pub open spec fn vec_mat_mul(x: Seq<int>, m: Seq<Seq<int>>) -> Seq<int> {
    Seq::new(
        if m.len() == 0 {
            0
        } else {
            m[0].len()
        },
        |j: int| dot(x, mat_column(m, j)),
    )
}

/// A dense matrix of 64-bit integer scalars: an ordered sequence of rows,
/// all of the same length. The only constructor validates that shape, so
/// every `Matrix` value is rectangular.
pub struct Matrix {
    elems: Vec<Vec<i64>>,
}

impl View for Matrix {
    type V = Seq<Seq<int>>;

    closed spec fn view(&self) -> Seq<Seq<int>> {
        mat_ints(self.elems@)
    }
}

impl Matrix {
    /// All rows have the same length.
    pub open spec fn wf(&self) -> bool {
        rectangular(self@)
    }

    /// Builds a matrix from its rows, rejecting ragged input: the rows must
    /// all have the length of the first row, else `InvalidShape`.
    pub fn new(elems: Vec<Vec<i64>>) -> (r: Result<Matrix, LinAlgError>)
        ensures
            match r {
                Ok(m) => m@ == mat_ints(elems@) && m.wf(),
                Err(e) => e == LinAlgError::InvalidShape && !rectangular(mat_ints(elems@)),
            },
    {
        if elems.len() == 0 {
            let m = Matrix { elems };
            return Ok(m);
        }
        let c: usize = elems[0].len();
        let mut i: usize = 1;
        while i < elems.len()
            invariant
                1 <= i <= elems@.len(),
                c == mat_ints(elems@)[0].len(),
                forall|k: int| 0 <= k < i ==> (#[trigger] mat_ints(elems@)[k]).len() == c,
            decreases elems@.len() - i,
        {
            if elems[i].len() != c {
                proof {
                    assert(mat_ints(elems@)[i as int].len() != mat_ints(elems@)[0].len());
                }
                return Err(LinAlgError::InvalidShape);
            }
            i = i + 1;
        }
        Ok(Matrix { elems })
    }

    /// The number of rows; zero for an empty matrix.
    pub fn rows(&self) -> (n: usize)
        ensures
            n == self@.len(),
    {
        self.elems.len()
    }

    /// The number of columns, measured on the first row. A matrix with no
    /// rows has no row to measure: `InvalidShape`.
    pub fn columns(&self) -> (r: Result<usize, LinAlgError>)
        ensures
            match r {
                Ok(c) => self@.len() > 0 && c == self@[0].len(),
                Err(e) => e == LinAlgError::InvalidShape && self@.len() == 0,
            },
    {
        if self.elems.len() == 0 {
            Err(LinAlgError::InvalidShape)
        } else {
            Ok(self.elems[0].len())
        }
    }

    /// Matrix times column vector: for an n-by-m matrix and a vector of
    /// length m, a vector of length n whose entry `i` is the dot product of
    /// row `i` with `v`.
    ///
    /// Succeeds exactly when the matrix has at least one row and its column
    /// count equals the length of `v`. A matrix with no rows has no column
    /// count: `InvalidShape`. A column count different from the length of
    /// `v`: `DimensionMismatch`.
    ///
    /// The caller guarantees that each row's dot product with `v` can be
    /// accumulated without overflow; `lemma_dot_in_range_bounded` discharges
    /// that obligation when the entries are bounded.
    #[verifier::loop_isolation(false)]
    pub fn vector_product(&self, v: &Vec<i64>) -> (r: Result<Vec<i64>, LinAlgError>)
        requires
            self.wf(),
            self@.len() > 0 && self@[0].len() == v@.len() ==> forall|i: int|
                0 <= i < self@.len() ==> dot_in_range(#[trigger] self@[i], ints(v@)),
        ensures
            match r {
                Ok(w) => {
                    &&& self@.len() > 0
                    &&& self@[0].len() == v@.len()
                    &&& w@.len() == self@.len()
                    &&& ints(w@) == mat_vec_mul(self@, ints(v@))
                },
                Err(e) => {
                    ||| e == LinAlgError::InvalidShape && self@.len() == 0
                    ||| (e == LinAlgError::DimensionMismatch && self@.len() > 0 && self@[0].len()
                        != v@.len())
                },
            },
    {
        if self.elems.len() == 0 {
            return Err(LinAlgError::InvalidShape);
        }
        if self.elems[0].len() != v.len() {
            return Err(LinAlgError::DimensionMismatch);
        }
        let mut out: Vec<i64> = Vec::new();
        let mut i: usize = 0;
        while i < self.elems.len()
            invariant
                i <= self@.len(),
                out@.len() == i,
                forall|k: int| 0 <= k < i ==> out@[k] == dot(self@[k], ints(v@)),
            decreases self@.len() - i,
        {
            let row: &Vec<i64> = &self.elems[i];
            proof {
                assert(self@[i as int] == ints(row@));
                assert(self@[i as int].len() == self@[0].len());
            }
            let mut acc: i64 = 0;
            let mut j: usize = 0;
            while j < row.len()
                invariant
                    j <= row@.len(),
                    acc == dot_prefix(ints(row@), ints(v@), j as int),
                decreases row@.len() - j,
            {
                proof {
                    assert(self@[i as int] == ints(row@));
                    assert(dot_in_range(ints(row@), ints(v@)));
                    assert(ints(row@)[j as int] == row@[j as int] as int);
                    assert(ints(v@)[j as int] == v@[j as int] as int);
                    assert(i64::MIN <= ints(row@)[j as int] * ints(v@)[j as int] <= i64::MAX);
                    assert(dot_prefix(ints(row@), ints(v@), j + 1) == acc + ints(row@)[j as int]
                        * ints(v@)[j as int]);
                    assert(i64::MIN <= dot_prefix(ints(row@), ints(v@), j + 1) <= i64::MAX);
                }
                acc = acc + row[j] * v[j];
                j = j + 1;
            }
            out.push(acc);
            i = i + 1;
        }
        proof {
            assert(ints(out@) =~= mat_vec_mul(self@, ints(v@)));
        }
        Ok(out)
    }
}

/// Row vector times matrix: for a vector of length n and an n-by-m matrix,
/// a vector of length m whose entry `j` is the dot product of `x` with
/// column `j`.
///
/// Succeeds exactly when the length of `x` equals the row count and the
/// matrix has at least one row. A length different from the row count:
/// `DimensionMismatch`. A matrix with no rows has no column count to size
/// the result: `InvalidShape`.
///
/// The caller guarantees that the dot product of `x` with each column can
/// be accumulated without overflow; `lemma_dot_in_range_bounded` discharges
/// that obligation when the entries are bounded.
#[verifier::loop_isolation(false)]
pub fn matrix_product(x: &Vec<i64>, m: &Matrix) -> (r: Result<Vec<i64>, LinAlgError>)
    requires
        m.wf(),
        x@.len() == m@.len() && m@.len() > 0 ==> forall|j: int|
            0 <= j < m@[0].len() ==> dot_in_range(ints(x@), #[trigger] mat_column(m@, j)),
    ensures
        match r {
            Ok(w) => {
                &&& x@.len() == m@.len()
                &&& m@.len() > 0
                &&& w@.len() == m@[0].len()
                &&& ints(w@) == vec_mat_mul(ints(x@), m@)
            },
            Err(e) => {
                ||| e == LinAlgError::DimensionMismatch && x@.len() != m@.len()
                ||| (e == LinAlgError::InvalidShape && x@.len() == m@.len() && m@.len() == 0)
            },
        },
{
    if x.len() != m.elems.len() {
        return Err(LinAlgError::DimensionMismatch);
    }
    if m.elems.len() == 0 {
        return Err(LinAlgError::InvalidShape);
    }
    let cols: usize = m.elems[0].len();
    let mut out: Vec<i64> = Vec::new();
    let mut j: usize = 0;
    while j < cols
        invariant
            j <= cols,
            out@.len() == j,
            forall|t: int| 0 <= t < j ==> out@[t] == dot(ints(x@), mat_column(m@, t)),
        decreases cols - j,
    {
        let mut acc: i64 = 0;
        let mut i: usize = 0;
        while i < x.len()
            invariant
                i <= x@.len(),
                acc == dot_prefix(ints(x@), mat_column(m@, j as int), i as int),
            decreases x@.len() - i,
        {
            proof {
                assert(m@[i as int] == ints(m.elems@[i as int]@));
                assert(m@[i as int].len() == m@[0].len());
                assert(dot_in_range(ints(x@), mat_column(m@, j as int)));
                assert(ints(x@)[i as int] == x@[i as int] as int);
                assert(mat_column(m@, j as int)[i as int] == m.elems@[i as int]@[j as int] as int);
                assert(i64::MIN <= ints(x@)[i as int] * mat_column(m@, j as int)[i as int]
                    <= i64::MAX);
                assert(dot_prefix(ints(x@), mat_column(m@, j as int), i + 1) == acc + ints(
                    x@,
                )[i as int] * mat_column(m@, j as int)[i as int]);
                assert(i64::MIN <= dot_prefix(ints(x@), mat_column(m@, j as int), i + 1)
                    <= i64::MAX);
            }
            acc = acc + x[i] * m.elems[i][j];
            i = i + 1;
        }
        out.push(acc);
        j = j + 1;
    }
    proof {
        assert(ints(out@) =~= vec_mat_mul(ints(x@), m@));
    }
    Ok(out)
}

/// Applying the one-by-one matrix [[k]] to the one-entry vector [x] yields
/// the one-entry vector [k * x].
pub proof fn lemma_vector_product_1x1(k: int, x: int)
    ensures
        mat_vec_mul(seq![seq![k]], seq![x]) == seq![k * x],
{
    let m: Seq<Seq<int>> = seq![seq![k]];
    let v: Seq<int> = seq![x];
    assert(dot_prefix(m[0], v, 0) == 0);
    assert(dot(m[0], v) == k * x);
    assert(mat_vec_mul(m, v) =~= seq![k * x]);
}

} // verus!
