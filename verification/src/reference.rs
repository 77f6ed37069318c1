//! Host-computed reference results for the four numeric programs.
//!
//! Each dispatchable program has a defining element-wise formula; these
//! functions compute that formula on the host, with the same wrap-around
//! 32-bit arithmetic the device performs, and their contracts state the
//! formula exactly. A dispatch result is correct precisely when it matches
//! the corresponding reference.
use vstd::prelude::*;

verus! {

/// 32-bit addition with wrap-around, as the device computes it.
pub open spec fn wadd(a: i32, b: i32) -> i32 {
    vstd::wrapping::i32_specs::wrapping_add(a, b)
}

/// 32-bit multiplication with wrap-around, as the device computes it.
pub open spec fn wmul(a: i32, b: i32) -> i32 {
    vstd::wrapping::i32_specs::wrapping_mul(a, b)
}

/// The element-wise scaled sum `a * x[i] + y[i]`.
pub open spec fn saxpy_spec(a: i32, x: Seq<i32>, y: Seq<i32>) -> Seq<i32> {
    Seq::new(x.len(), |i: int| wadd(wmul(a, x[i]), y[i]))
}

/// For every pair of equal-length arrays, the scaled sum a dispatch of the
/// saxpy program must return.
pub fn saxpy_expected(a: i32, x: &Vec<i32>, y: &Vec<i32>) -> (r: Vec<i32>)
    requires
        x@.len() == y@.len(),
    ensures
        r@ == saxpy_spec(a, x@, y@),
{
    let mut r: Vec<i32> = Vec::new();
    let mut i: usize = 0;
    while i < x.len()
        invariant
            i <= x@.len(),
            x@.len() == y@.len(),
            r@ =~= saxpy_spec(a, x@, y@).subrange(0, i as int),
        decreases x@.len() - i,
    {
        r.push(a.wrapping_mul(x[i]).wrapping_add(y[i]));
        i = i + 1;
        assert(r@ =~= saxpy_spec(a, x@, y@).subrange(0, i as int));
    }
    assert(saxpy_spec(a, x@, y@).subrange(0, x@.len() as int) =~= saxpy_spec(a, x@, y@));
    r
}

/// For every pair of equal-length arrays, the row-major outer product the
/// dot-product program's grid dispatch must return: cell `(i, j)` holds
/// `x[i] * y[j]`.
pub fn outer_product_expected(x: &Vec<i32>, y: &Vec<i32>) -> (r: Vec<i32>)
    requires
        x@.len() == y@.len(),
    ensures
        r@.len() == x@.len() * y@.len(),
        forall|i: int, j: int|
            0 <= i < x@.len() && 0 <= j < y@.len() ==> r@[i * y@.len() + j] == wmul(x@[i], y@[j]),
{
    let n = x.len();
    let mut r: Vec<i32> = Vec::new();
    let mut i: usize = 0;
    while i < n
        invariant
            i <= n,
            n == x@.len(),
            n == y@.len(),
            r@.len() == i * n,
            forall|a: int, b: int|
                0 <= a < i && 0 <= b < n ==> r@[a * n + b] == wmul(x@[a], y@[b]),
        decreases n - i,
    {
        let mut j: usize = 0;
        while j < n
            invariant
                i < n || i == n,
                i < n,
                j <= n,
                n == x@.len(),
                n == y@.len(),
                r@.len() == i * n + j,
                forall|a: int, b: int|
                    0 <= a < i && 0 <= b < n ==> r@[a * n + b] == wmul(x@[a], y@[b]),
                forall|b: int| 0 <= b < j ==> r@[i * n + b] == wmul(x@[i as int], y@[b]),
            decreases n - j,
        {
            r.push(x[i].wrapping_mul(y[j]));
            j = j + 1;
            assert forall|a: int, b: int|
                0 <= a < i && 0 <= b < n implies r@[a * n + b] == wmul(x@[a], y@[b]) by {
                assert(a * n + b < i * n) by (nonlinear_arith)
                    requires
                        0 <= a < i,
                        0 <= b < n,
                ;
            }
        }
        assert((i + 1) * n == i * n + n) by (nonlinear_arith);
        i = i + 1;
    }
    r
}

/// Cell `(i, j)` of a row-major array of width `n`.
pub open spec fn cell(s: Seq<i32>, n: int, i: int, j: int) -> i32 {
    s[i * n + j]
}

/// For a row-major square matrix, the element-wise transposition the
/// transpose program must return: cell `(i, j)` of the result holds cell
/// `(j, i)` of the input.
pub fn transpose_expected(m: &Vec<i32>, n: usize) -> (r: Vec<i32>)
    requires
        m@.len() == n * n,
    ensures
        r@.len() == n * n,
        forall|i: int, j: int|
            0 <= i < n && 0 <= j < n ==> cell(r@, n as int, i, j) == #[trigger] cell(
                m@,
                n as int,
                j,
                i,
            ),
{
    let total = m.len();
    let mut r: Vec<i32> = Vec::new();
    let mut i: usize = 0;
    while i < n
        invariant
            i <= n,
            m@.len() == n * n,
            n * n <= usize::MAX,
            r@.len() == i * n,
            forall|a: int, b: int|
                0 <= a < i && 0 <= b < n ==> cell(r@, n as int, a, b) == #[trigger] cell(
                    m@,
                    n as int,
                    b,
                    a,
                ),
        decreases n - i,
    {
        let mut j: usize = 0;
        while j < n
            invariant
                i < n,
                j <= n,
                m@.len() == n * n,
                n * n <= usize::MAX,
                r@.len() == i * n + j,
                forall|a: int, b: int|
                    0 <= a < i && 0 <= b < n ==> cell(r@, n as int, a, b) == #[trigger] cell(
                        m@,
                        n as int,
                        b,
                        a,
                    ),
                forall|b: int|
                    0 <= b < j ==> cell(r@, n as int, i as int, b) == #[trigger] cell(
                        m@,
                        n as int,
                        b,
                        i as int,
                    ),
            decreases n - j,
        {
            assert(j * n + i < n * n) by (nonlinear_arith)
                requires
                    i < n,
                    j < n,
            ;
            r.push(m[j * n + i]);
            j = j + 1;
            assert forall|a: int, b: int|
                0 <= a < i && 0 <= b < n implies cell(r@, n as int, a, b) == #[trigger] cell(
                m@,
                n as int,
                b,
                a,
            ) by {
                assert(a * n + b < i * n) by (nonlinear_arith)
                    requires
                        0 <= a < i,
                        0 <= b < n,
                ;
            }
            assert(cell(r@, n as int, i as int, j - 1) == cell(m@, n as int, j - 1, i as int));
        }
        assert((i + 1) * n == i * n + n) by (nonlinear_arith);
        i = i + 1;
    }
    r
}

/// The first `k` terms of the wrap-around inner product of row `i` of `x`
/// and column `j` of `y`, both row-major with width `n`.
pub open spec fn inner_product_prefix(
    x: Seq<i32>,
    y: Seq<i32>,
    n: int,
    i: int,
    j: int,
    k: int,
) -> i32
    decreases k,
{
    if k <= 0 {
        0
    } else {
        wadd(
            inner_product_prefix(x, y, n, i, j, k - 1),
            wmul(x[i * n + (k - 1)], y[(k - 1) * n + j]),
        )
    }
}

/// For row-major square matrices `x` and `y`, the product matrix the
/// matrix-multiply program must return: cell `(i, j)` holds the sum over
/// `k` of `x[i * n + k] * y[k * n + j]`.
pub fn matmul_expected(x: &Vec<i32>, y: &Vec<i32>, n: usize) -> (r: Vec<i32>)
    requires
        x@.len() == n * n,
        y@.len() == n * n,
    ensures
        r@.len() == n * n,
        forall|i: int, j: int|
            0 <= i < n && 0 <= j < n ==> r@[i * n + j] == inner_product_prefix(
                x@,
                y@,
                n as int,
                i,
                j,
                n as int,
            ),
{
    let total = x.len();
    let mut r: Vec<i32> = Vec::new();
    let mut i: usize = 0;
    while i < n
        invariant
            i <= n,
            x@.len() == n * n,
            y@.len() == n * n,
            n * n <= usize::MAX,
            r@.len() == i * n,
            forall|a: int, b: int|
                0 <= a < i && 0 <= b < n ==> r@[a * n + b] == inner_product_prefix(
                    x@,
                    y@,
                    n as int,
                    a,
                    b,
                    n as int,
                ),
        decreases n - i,
    {
        let mut j: usize = 0;
        while j < n
            invariant
                i < n,
                j <= n,
                x@.len() == n * n,
                y@.len() == n * n,
                n * n <= usize::MAX,
                r@.len() == i * n + j,
                forall|a: int, b: int|
                    0 <= a < i && 0 <= b < n ==> r@[a * n + b] == inner_product_prefix(
                        x@,
                        y@,
                        n as int,
                        a,
                        b,
                        n as int,
                    ),
                forall|b: int|
                    0 <= b < j ==> r@[i * n + b] == inner_product_prefix(
                        x@,
                        y@,
                        n as int,
                        i as int,
                        b,
                        n as int,
                    ),
            decreases n - j,
        {
            let mut acc: i32 = 0;
            let mut k: usize = 0;
            while k < n
                invariant
                    i < n,
                    j < n,
                    k <= n,
                    x@.len() == n * n,
                    y@.len() == n * n,
                    n * n <= usize::MAX,
                    acc == inner_product_prefix(x@, y@, n as int, i as int, j as int, k as int),
                decreases n - k,
            {
                assert(i * n + k < n * n && k * n + j < n * n) by (nonlinear_arith)
                    requires
                        i < n,
                        j < n,
                        k < n,
                ;
                acc = acc.wrapping_add(x[i * n + k].wrapping_mul(y[k * n + j]));
                k = k + 1;
            }
            r.push(acc);
            j = j + 1;
            assert forall|a: int, b: int|
                0 <= a < i && 0 <= b < n implies r@[a * n + b] == inner_product_prefix(
                x@,
                y@,
                n as int,
                a,
                b,
                n as int,
            ) by {
                assert(a * n + b < i * n) by (nonlinear_arith)
                    requires
                        0 <= a < i,
                        0 <= b < n,
                ;
            }
            assert(r@[i * n + (j - 1)] == inner_product_prefix(
                x@,
                y@,
                n as int,
                i as int,
                j - 1,
                n as int,
            ));
        }
        assert((i + 1) * n == i * n + n) by (nonlinear_arith);
        i = i + 1;
    }
    r
}

} // verus!
