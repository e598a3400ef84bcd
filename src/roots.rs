use crate::error::AnalysisError;
use vstd::prelude::*;

verus! {

/// `d` is the effective degree of a polynomial whose coefficients, in ascending
/// powers, are non-zero exactly where `nonzero` holds: the highest power with a
/// non-zero coefficient.
pub open spec fn is_effective_degree(nonzero: Seq<bool>, d: int) -> bool {
    &&& 0 <= d < nonzero.len()
    &&& nonzero[d]
    &&& forall|j: int| d < j < nonzero.len() ==> !#[trigger] nonzero[j]
}

/// Every coefficient is zero.
pub open spec fn all_zero(nonzero: Seq<bool>) -> bool {
    forall|j: int| 0 <= j < nonzero.len() ==> !#[trigger] nonzero[j]
}

/// Effective degree of a polynomial given, in ascending powers, by which of its
/// coefficients are non-zero. Trailing zero coefficients are trimmed: the result is
/// the index of the last non-zero one. An empty coefficient list and a list of
/// zeros have no degree and are refused.
pub fn effective_degree(nonzero: &[bool]) -> (r: Result<usize, AnalysisError>)
    ensures
        nonzero@.len() == 0 ==> r == Err::<usize, AnalysisError>(AnalysisError::EmptyInput),
        nonzero@.len() > 0 && all_zero(nonzero@) ==> r == Err::<usize, AnalysisError>(
            AnalysisError::ZeroPolynomial,
        ),
        !all_zero(nonzero@) ==> (r matches Ok(d) && is_effective_degree(nonzero@, d as int)),
{
    if nonzero.len() == 0 {
        return Err(AnalysisError::EmptyInput);
    }
    let mut k: usize = nonzero.len();
    while k > 0
        invariant
            k <= nonzero@.len(),
            forall|j: int| k <= j < nonzero@.len() ==> !#[trigger] nonzero@[j],
        decreases k,
    {
        if nonzero[k - 1] {
            return Ok(k - 1);
        }
        k = k - 1;
    }
    Err(AnalysisError::ZeroPolynomial)
}

/// `m` is the `d x d` companion matrix, in lower-Hessenberg form, of the monic
/// polynomial `w^d + a[d-1] w^(d-1) + ... + a[0]`, given `neg[k] == -a[k]`: row 0
/// holds the negated sub-leading coefficients from the highest power down, each
/// later row `i` holds `one` at column `i - 1` and `zero` elsewhere. Its
/// characteristic polynomial is the monic polynomial, so its `d` eigenvalues are
/// the polynomial's roots.
pub open spec fn is_companion<T>(m: Seq<Seq<T>>, neg: Seq<T>, one: T, zero: T) -> bool {
    let d = neg.len();
    &&& m.len() == d
    &&& forall|i: int| 0 <= i < d ==> (#[trigger] m[i]).len() == d
    &&& forall|j: int| 0 <= j < d ==> #[trigger] m[0][j] == neg[d - 1 - j]
    &&& forall|i: int, j: int|
        1 <= i < d && 0 <= j < d ==> #[trigger] m[i][j] == (if j == i - 1 {
            one
        } else {
            zero
        })
}

/// Row `i` of the companion matrix of the given negated coefficients.
fn companion_row<T: Copy>(neg: &[T], one: T, zero: T, i: usize) -> (row: Vec<T>)
    requires
        i < neg@.len(),
    ensures
        row@.len() == neg@.len(),
        i == 0 ==> forall|j: int| 0 <= j < neg@.len() ==> #[trigger] row@[j] == neg@[neg@.len() - 1 - j],
        i > 0 ==> forall|j: int|
            0 <= j < neg@.len() ==> #[trigger] row@[j] == (if j == i - 1 {
                one
            } else {
                zero
            }),
{
    let d = neg.len();
    let mut row: Vec<T> = Vec::new();
    let mut j: usize = 0;
    while j < d
        invariant
            d == neg@.len(),
            i < d,
            j <= d,
            row@.len() == j,
            i == 0 ==> forall|k: int| 0 <= k < j ==> #[trigger] row@[k] == neg@[d - 1 - k],
            i > 0 ==> forall|k: int|
                0 <= k < j ==> #[trigger] row@[k] == (if k == i - 1 {
                    one
                } else {
                    zero
                }),
        decreases d - j,
    {
        if i == 0 {
            row.push(neg[d - 1 - j]);
        } else if j + 1 == i {
            row.push(one);
        } else {
            row.push(zero);
        }
        j = j + 1;
    }
    row
}

/// Builds the companion matrix, as rows, of the monic polynomial whose negated
/// coefficients below the leading one are `neg` (in ascending powers); `one` and
/// `zero` fill the rows below the first.
pub fn companion_matrix<T: Copy>(neg: &[T], one: T, zero: T) -> (m: Vec<Vec<T>>)
    ensures
        is_companion(m@.map_values(|r: Vec<T>| r@), neg@, one, zero),
{
    let d = neg.len();
    let mut m: Vec<Vec<T>> = Vec::new();
    let mut i: usize = 0;
    while i < d
        invariant
            d == neg@.len(),
            i <= d,
            m@.len() == i,
            forall|k: int| 0 <= k < i ==> (#[trigger] m@[k])@.len() == d,
            i > 0 ==> forall|j: int| 0 <= j < d ==> #[trigger] m@[0]@[j] == neg@[d - 1 - j],
            forall|k: int, j: int|
                1 <= k < i && 0 <= j < d ==> #[trigger] m@[k]@[j] == (if j == k - 1 {
                    one
                } else {
                    zero
                }),
        decreases d - i,
    {
        let row = companion_row(neg, one, zero, i);
        m.push(row);
        i = i + 1;
    }
    let ghost rows = m@.map_values(|r: Vec<T>| r@);
    assert forall|k: int| 0 <= k < d implies #[trigger] rows[k] == m@[k]@ by {}
    m
}

} // verus!
