//! Finite sums over an index range, and their closed form for affine terms.
use vstd::prelude::*;

verus! {

/// `f(0) + f(1) + ... + f(n - 1)`.
pub open spec fn sum_of(n: nat, f: spec_fn(int) -> int) -> int
    decreases n,
{
    if n == 0 {
        0
    } else {
        sum_of((n - 1) as nat, f) + f(n - 1)
    }
}

/// A sum of the affine terms `c * k + d` has the closed form
/// `c * n * (n - 1) / 2 + d * n`.
pub proof fn lemma_sum_of_affine(n: nat, f: spec_fn(int) -> int, c: int, d: int)
    requires
        forall|k: int| 0 <= k < n ==> #[trigger] f(k) == c * k + d,
    ensures
        2 * sum_of(n, f) == c * n * (n - 1) + 2 * d * n,
    decreases n,
{
    if n > 0 {
        lemma_sum_of_affine((n - 1) as nat, f, c, d);
        let m = n - 1;
        let prev = sum_of(m as nat, f);
        let last = f(m);
        assert(sum_of(n, f) == prev + last);
        assert(2 * (prev + last) == c * n * (n - 1) + 2 * d * n) by (nonlinear_arith)
            requires
                m == n - 1,
                2 * prev == c * m * (m - 1) + 2 * d * m,
                last == c * m + d,
        ;
    } else {
        assert(c * n * (n - 1) + 2 * d * n == 0) by (nonlinear_arith)
            requires
                n == 0,
        ;
    }
}

/// A sum of at most ten thousand and one small affine terms stays far below
/// the range of `i64`.
pub proof fn lemma_affine_sum_small(n: nat, f: spec_fn(int) -> int, c: int, d: int)
    requires
        n <= 10001,
        0 <= c <= 4,
        0 <= d <= 42,
        forall|k: int| 0 <= k < n ==> #[trigger] f(k) == c * k + d,
    ensures
        0 <= sum_of(n, f) <= 1_000_000_000,
{
    lemma_sum_of_affine(n, f, c, d);
    assert(0 <= c * n * (n - 1) + 2 * d * n <= 2_000_000_000) by (nonlinear_arith)
        requires
            n <= 10001,
            0 <= c <= 4,
            0 <= d <= 42,
    ;
}

/// Two sums agree when their terms agree on the summed range.
pub proof fn lemma_sum_of_ext(n: nat, f: spec_fn(int) -> int, g: spec_fn(int) -> int)
    requires
        forall|k: int| 0 <= k < n ==> #[trigger] f(k) == g(k),
    ensures
        sum_of(n, f) == sum_of(n, g),
    decreases n,
{
    if n > 0 {
        lemma_sum_of_ext((n - 1) as nat, f, g);
    }
}

} // verus!
