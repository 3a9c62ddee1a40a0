//! Elementwise vector operations: sum, difference, scaling and elementwise
//! product, together with the laws they obey.

use vstd::prelude::*;

use crate::error::LinAlgError;

verus! {

/// The mathematical contents of a vector of machine integers.
pub open spec fn ints(s: Seq<i64>) -> Seq<int> {
    s.map_values(|x: i64| x as int)
}

/// Elementwise sum of two sequences; meaningful when the lengths agree.
pub open spec fn vec_sum(x: Seq<int>, y: Seq<int>) -> Seq<int> {
    Seq::new(x.len(), |i: int| x[i] + y[i])
}

/// Elementwise addition: `r[i] == x[i] + y[i]`.
///
/// Succeeds exactly when the operands have equal length; otherwise nothing
/// is computed and the call fails with `DimensionMismatch`.
pub fn sum(x: &Vec<i64>, y: &Vec<i64>) -> (r: Result<Vec<i64>, LinAlgError>)
    requires
        x@.len() == y@.len() ==> forall|i: int|
            0 <= i < x@.len() ==> i64::MIN <= #[trigger] x@[i] + y@[i] <= i64::MAX,
    ensures
        match r {
            Ok(s) => x@.len() == y@.len() && s@.len() == x@.len() && ints(s@) == vec_sum(
                ints(x@),
                ints(y@),
            ),
            Err(e) => e == LinAlgError::DimensionMismatch && x@.len() != y@.len(),
        },
{
    if x.len() != y.len() {
        return Err(LinAlgError::DimensionMismatch);
    }
    let mut out: Vec<i64> = Vec::new();
    let mut i: usize = 0;
    while i < x.len()
        invariant
            x@.len() == y@.len(),
            i <= x@.len(),
            out@.len() == i,
            forall|k: int|
                0 <= k < x@.len() ==> i64::MIN <= #[trigger] x@[k] + y@[k] <= i64::MAX,
            forall|k: int| 0 <= k < i ==> out@[k] == x@[k] + y@[k],
        decreases x@.len() - i,
    {
        out.push(x[i] + y[i]);
        i = i + 1;
    }
    proof {
        assert(ints(out@) =~= vec_sum(ints(x@), ints(y@)));
    }
    Ok(out)
}

/// Elementwise difference of two sequences; meaningful when the lengths
/// agree.
pub open spec fn vec_diff(x: Seq<int>, y: Seq<int>) -> Seq<int> {
    Seq::new(x.len(), |i: int| x[i] - y[i])
}

/// Every entry scaled by `c`.
pub open spec fn vec_scale(x: Seq<int>, c: int) -> Seq<int> {
    Seq::new(x.len(), |i: int| c * x[i])
}

/// Elementwise product of two sequences; meaningful when the lengths agree.
pub open spec fn vec_elem_mul(x: Seq<int>, y: Seq<int>) -> Seq<int> {
    Seq::new(x.len(), |i: int| x[i] * y[i])
}

/// Elementwise subtraction: `r[i] == x[i] - y[i]`.
///
/// Succeeds exactly when the operands have equal length; otherwise nothing
/// is computed and the call fails with `DimensionMismatch`.
pub fn difference(x: &Vec<i64>, y: &Vec<i64>) -> (r: Result<Vec<i64>, LinAlgError>)
    requires
        x@.len() == y@.len() ==> forall|i: int|
            0 <= i < x@.len() ==> i64::MIN <= #[trigger] x@[i] - y@[i] <= i64::MAX,
    ensures
        match r {
            Ok(d) => x@.len() == y@.len() && d@.len() == x@.len() && ints(d@) == vec_diff(
                ints(x@),
                ints(y@),
            ),
            Err(e) => e == LinAlgError::DimensionMismatch && x@.len() != y@.len(),
        },
{
    if x.len() != y.len() {
        return Err(LinAlgError::DimensionMismatch);
    }
    let mut out: Vec<i64> = Vec::new();
    let mut i: usize = 0;
    while i < x.len()
        invariant
            x@.len() == y@.len(),
            i <= x@.len(),
            out@.len() == i,
            forall|k: int|
                0 <= k < x@.len() ==> i64::MIN <= #[trigger] x@[k] - y@[k] <= i64::MAX,
            forall|k: int| 0 <= k < i ==> out@[k] == x@[k] - y@[k],
        decreases x@.len() - i,
    {
        out.push(x[i] - y[i]);
        i = i + 1;
    }
    proof {
        assert(ints(out@) =~= vec_diff(ints(x@), ints(y@)));
    }
    Ok(out)
}

/// Scaling by `c`: `r[i] == c * x[i]`. Unary in the vector, so there is no
/// shape to check and the call always succeeds.
pub fn scale(x: &Vec<i64>, c: i64) -> (r: Vec<i64>)
    requires
        forall|i: int| 0 <= i < x@.len() ==> i64::MIN <= c * #[trigger] x@[i] <= i64::MAX,
    ensures
        r@.len() == x@.len(),
        ints(r@) == vec_scale(ints(x@), c as int),
{
    let mut out: Vec<i64> = Vec::new();
    let mut i: usize = 0;
    while i < x.len()
        invariant
            i <= x@.len(),
            out@.len() == i,
            forall|k: int| 0 <= k < x@.len() ==> i64::MIN <= c * #[trigger] x@[k] <= i64::MAX,
            forall|k: int| 0 <= k < i ==> out@[k] == c * x@[k],
        decreases x@.len() - i,
    {
        out.push(c * x[i]);
        i = i + 1;
    }
    proof {
        assert(ints(out@) =~= vec_scale(ints(x@), c as int));
    }
    out
}

/// Elementwise multiplication: `r[i] == x[i] * y[i]`.
///
/// This is the Hadamard product of the two vectors, not the scalar dot
/// product: the products of corresponding entries are returned as they are,
/// never summed.
///
/// Succeeds exactly when the operands have equal length; otherwise nothing
/// is computed and the call fails with `DimensionMismatch`.
pub fn elementwise_product(x: &Vec<i64>, y: &Vec<i64>) -> (r: Result<
    Vec<i64>,
    LinAlgError,
>)
    requires
        x@.len() == y@.len() ==> forall|i: int|
            0 <= i < x@.len() ==> i64::MIN <= (#[trigger] x@[i]) * y@[i] <= i64::MAX,
    ensures
        match r {
            Ok(p) => x@.len() == y@.len() && p@.len() == x@.len() && ints(p@) == vec_elem_mul(
                ints(x@),
                ints(y@),
            ),
            Err(e) => e == LinAlgError::DimensionMismatch && x@.len() != y@.len(),
        },
{
    if x.len() != y.len() {
        return Err(LinAlgError::DimensionMismatch);
    }
    let mut out: Vec<i64> = Vec::new();
    let mut i: usize = 0;
    while i < x.len()
        invariant
            x@.len() == y@.len(),
            i <= x@.len(),
            out@.len() == i,
            forall|k: int|
                0 <= k < x@.len() ==> i64::MIN <= (#[trigger] x@[k]) * y@[k] <= i64::MAX,
            forall|k: int| 0 <= k < i ==> out@[k] == x@[k] * y@[k],
        decreases x@.len() - i,
    {
        out.push(x[i] * y[i]);
        i = i + 1;
    }
    proof {
        assert(ints(out@) =~= vec_elem_mul(ints(x@), ints(y@)));
    }
    Ok(out)
}

/// Elementwise addition of equal-length vectors is commutative.
pub proof fn lemma_sum_commutative(x: Seq<int>, y: Seq<int>)
    requires
        x.len() == y.len(),
    ensures
        vec_sum(x, y) == vec_sum(y, x),
{
    assert(vec_sum(x, y) =~= vec_sum(y, x));
}

/// Elementwise subtraction of equal-length vectors is antisymmetric:
/// `x - y` is `y - x` scaled by minus one.
pub proof fn lemma_difference_antisymmetric(x: Seq<int>, y: Seq<int>)
    requires
        x.len() == y.len(),
    ensures
        vec_diff(x, y) == vec_scale(vec_diff(y, x), -1),
{
    assert(vec_diff(x, y) =~= vec_scale(vec_diff(y, x), -1));
}

/// Scaling by one returns the vector unchanged.
pub proof fn lemma_scale_one(x: Seq<int>)
    ensures
        vec_scale(x, 1) == x,
{
    assert(vec_scale(x, 1) =~= x);
}

/// Scaling by zero yields an all-zero vector of the same length.
pub proof fn lemma_scale_zero(x: Seq<int>)
    ensures
        vec_scale(x, 0).len() == x.len(),
        forall|i: int| 0 <= i < x.len() ==> vec_scale(x, 0)[i] == 0,
{
}

} // verus!
