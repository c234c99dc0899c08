//! The operation pairs: each reduces one fixture family to an integer, once
//! through an abstraction and once written by hand.
use vstd::prelude::*;
use vstd::slice::slice_subrange;
use crate::fixtures::{Fixtures, FIXTURE_LEN};
use crate::sums::{sum_of, lemma_affine_sum_small, lemma_sum_of_affine};

verus! {

/// Number of leading elements that the composed iteration reads.
pub const COMPOSED_TAKE: usize = 5000;

/// Offset added to each element by the composed iteration.
pub const COMPOSED_OFFSET: i64 = 42;

/// Position `k` of a plain integer sequence.
pub open spec fn int_term(s: Seq<i64>) -> spec_fn(int) -> int {
    |k: int| s[k] as int
}

/// The sum of all elements of a plain integer sequence.
pub open spec fn ints_total(s: Seq<i64>) -> int {
    sum_of(s.len(), int_term(s))
}

/// Position `k` of a plain integer sequence, shifted by the composed offset.
pub open spec fn offset_term(s: Seq<i64>) -> spec_fn(int) -> int {
    |k: int| s[k] + COMPOSED_OFFSET
}

/// The sum of the first `COMPOSED_TAKE` elements, each shifted by the offset.
pub open spec fn composed_total(s: Seq<i64>) -> int {
    sum_of(COMPOSED_TAKE as nat, offset_term(s))
}

/// Position `k` of the generic-pair family, read through the generic type.
pub open spec fn gen_term(fx: Fixtures) -> spec_fn(int) -> int {
    |k: int| fx.gens@[k].t + fx.gens@[k].v
}

/// Position `k` of the generic-pair family, read through the concrete type.
pub open spec fn ungen_term(fx: Fixtures) -> spec_fn(int) -> int {
    |k: int| fx.unpacked_gens@[k].t + fx.unpacked_gens@[k].v
}

/// What the generic variant of the generics pair returns.
pub open spec fn generics_using_total(fx: Fixtures) -> int {
    sum_of(FIXTURE_LEN as nat, gen_term(fx))
}

/// What the concrete variant of the generics pair returns.
pub open spec fn generics_without_total(fx: Fixtures) -> int {
    sum_of(FIXTURE_LEN as nat, ungen_term(fx))
}

/// Sums the integer field and the truncated second field of every generic pair.
pub fn op_generics_using_zco(fx: &Fixtures) -> (r: i64)
    requires
        fx.wf(),
    ensures
        r == generics_using_total(*fx),
        r == 100_010_000,
{
    let mut sum: i64 = 0;
    let mut i: usize = 0;
    while i < FIXTURE_LEN
        invariant
            i <= FIXTURE_LEN,
            fx.wf(),
            sum == sum_of(i as nat, gen_term(*fx)),
        decreases FIXTURE_LEN - i,
    {
        proof {
            lemma_affine_sum_small((i + 1) as nat, gen_term(*fx), 2, 0);
        }
        sum = sum + (fx.gens[i].t + fx.gens[i].v);
        i = i + 1;
    }
    proof {
        lemma_sum_of_affine(FIXTURE_LEN as nat, gen_term(*fx), 2, 0);
    }
    sum
}

/// Sums the same two fields read from the concrete two-field structure.
pub fn op_generics_without_zco(fx: &Fixtures) -> (r: i64)
    requires
        fx.wf(),
    ensures
        r == generics_without_total(*fx),
        r == 100_010_000,
{
    let mut sum: i64 = 0;
    let mut i: usize = 0;
    while i < FIXTURE_LEN
        invariant
            i <= FIXTURE_LEN,
            fx.wf(),
            sum == sum_of(i as nat, ungen_term(*fx)),
        decreases FIXTURE_LEN - i,
    {
        proof {
            lemma_affine_sum_small((i + 1) as nat, ungen_term(*fx), 2, 0);
        }
        sum = sum + (fx.unpacked_gens[i].t + fx.unpacked_gens[i].v);
        i = i + 1;
    }
    proof {
        lemma_sum_of_affine(FIXTURE_LEN as nat, ungen_term(*fx), 2, 0);
    }
    sum
}

/// Sums the iteration fixture with an iterator over the whole sequence.
pub fn op_basic_iteration_using_zco(fx: &Fixtures) -> (r: i64)
    requires
        fx.wf(),
    ensures
        r == ints_total(fx.basic_iter_col@),
        r == 50_005_000,
{
    let ghost s = fx.basic_iter_col@;
    let mut sum: i64 = 0;
    for x in it: fx.basic_iter_col.iter()
        invariant
            fx.wf(),
            s == fx.basic_iter_col@,
            it.seq().len() == s.len(),
            forall|k: int| 0 <= k < s.len() ==> *it.seq()[k] == s[k],
            sum == sum_of(it.index() as nat, int_term(s)),
    {
        proof {
            lemma_affine_sum_small((it.index() + 1) as nat, int_term(s), 1, 0);
        }
        sum = sum + *x;
    }
    proof {
        lemma_sum_of_affine(FIXTURE_LEN as nat, int_term(s), 1, 0);
    }
    sum
}

/// Sums the iteration fixture by index.
pub fn op_basic_iteration_without_zco(fx: &Fixtures) -> (r: i64)
    requires
        fx.wf(),
    ensures
        r == ints_total(fx.basic_iter_col@),
        r == 50_005_000,
{
    let mut sum: i64 = 0;
    let mut i: usize = 0;
    while i < FIXTURE_LEN
        invariant
            i <= FIXTURE_LEN,
            fx.wf(),
            sum == sum_of(i as nat, int_term(fx.basic_iter_col@)),
        decreases FIXTURE_LEN - i,
    {
        proof {
            lemma_affine_sum_small((i + 1) as nat, int_term(fx.basic_iter_col@), 1, 0);
        }
        sum = sum + fx.basic_iter_col[i];
        i = i + 1;
    }
    proof {
        lemma_sum_of_affine(FIXTURE_LEN as nat, int_term(fx.basic_iter_col@), 1, 0);
    }
    sum
}

/// The composed step applied to each element: shift by the offset.
fn shifted(x: i64) -> (r: i64)
    requires
        x <= i64::MAX - COMPOSED_OFFSET,
    ensures
        r == x + COMPOSED_OFFSET,
{
    x + COMPOSED_OFFSET
}

/// Limits the iteration fixture to its first `COMPOSED_TAKE` elements, maps
/// each through the offset and sums the results.
pub fn op_composed_iteration_using_zco(fx: &Fixtures) -> (r: i64)
    requires
        fx.wf(),
    ensures
        r == composed_total(fx.basic_iter_col@),
        r == 12_707_500,
{
    let ghost s = fx.basic_iter_col@;
    let head = slice_subrange(fx.basic_iter_col.as_slice(), 0, COMPOSED_TAKE);
    let mut sum: i64 = 0;
    for x in it: head.iter()
        invariant
            fx.wf(),
            s == fx.basic_iter_col@,
            it.seq().len() == COMPOSED_TAKE,
            forall|k: int| 0 <= k < COMPOSED_TAKE ==> *it.seq()[k] == s[k],
            sum == sum_of(it.index() as nat, offset_term(s)),
    {
        proof {
            lemma_affine_sum_small((it.index() + 1) as nat, offset_term(s), 1, 42);
        }
        sum = sum + shifted(*x);
    }
    proof {
        lemma_sum_of_affine(COMPOSED_TAKE as nat, offset_term(s), 1, 42);
    }
    sum
}

/// Sums the first `COMPOSED_TAKE` elements, each shifted by the offset, with
/// the limit written as the loop bound.
pub fn op_composed_iteration_without_zco(fx: &Fixtures) -> (r: i64)
    requires
        fx.wf(),
    ensures
        r == composed_total(fx.basic_iter_col@),
        r == 12_707_500,
{
    let mut sum: i64 = 0;
    let mut i: usize = 0;
    while i < COMPOSED_TAKE
        invariant
            i <= COMPOSED_TAKE,
            fx.wf(),
            sum == sum_of(i as nat, offset_term(fx.basic_iter_col@)),
        decreases COMPOSED_TAKE - i,
    {
        proof {
            lemma_affine_sum_small((i + 1) as nat, offset_term(fx.basic_iter_col@), 1, 42);
        }
        sum = sum + (fx.basic_iter_col[i] + COMPOSED_OFFSET);
        i = i + 1;
    }
    proof {
        lemma_sum_of_affine(COMPOSED_TAKE as nat, offset_term(fx.basic_iter_col@), 1, 42);
    }
    sum
}

/// Position `k` of the newtype families, read through the wrappers.
pub open spec fn wrapped_term(fx: Fixtures) -> spec_fn(int) -> int {
    |k: int|
        fx.wrapped_foos@[k].0 + fx.wrapped_bars@[k].0.0 + fx.wrapped_bars@[k].0.1
            + fx.wrapped_bars@[k].0.2
}

/// Position `k` of the newtype families, read from the bare values.
pub open spec fn unwrapped_term(fx: Fixtures) -> spec_fn(int) -> int {
    |k: int|
        fx.unwrapped_foos@[k] + fx.unwrapped_bars@[k].0 + fx.unwrapped_bars@[k].1
            + fx.unwrapped_bars@[k].2
}

/// What the wrapper variant of the newtypes pair returns.
pub open spec fn newtypes_using_total(fx: Fixtures) -> int {
    sum_of(FIXTURE_LEN as nat, wrapped_term(fx))
}

/// What the bare variant of the newtypes pair returns.
pub open spec fn newtypes_without_total(fx: Fixtures) -> int {
    sum_of(FIXTURE_LEN as nat, unwrapped_term(fx))
}

/// Sums each wrapped integer and the three fields of each wrapped triple.
pub fn op_newtypes_using_zco(fx: &Fixtures) -> (r: i64)
    requires
        fx.wf(),
    ensures
        r == newtypes_using_total(*fx),
        r == 200_020_000,
{
    let mut sum: i64 = 0;
    let mut i: usize = 0;
    while i < FIXTURE_LEN
        invariant
            i <= FIXTURE_LEN,
            fx.wf(),
            sum == sum_of(i as nat, wrapped_term(*fx)),
        decreases FIXTURE_LEN - i,
    {
        proof {
            lemma_affine_sum_small((i + 1) as nat, wrapped_term(*fx), 4, 0);
        }
        sum = sum + fx.wrapped_foos[i].0;
        sum = sum + ((fx.wrapped_bars[i].0).0 + (fx.wrapped_bars[i].0).1 + (fx.wrapped_bars[i].0).2);
        i = i + 1;
    }
    proof {
        lemma_sum_of_affine(FIXTURE_LEN as nat, wrapped_term(*fx), 4, 0);
    }
    sum
}

/// Sums each bare integer and the three fields of each bare triple.
pub fn op_newtypes_without_zco(fx: &Fixtures) -> (r: i64)
    requires
        fx.wf(),
    ensures
        r == newtypes_without_total(*fx),
        r == 200_020_000,
{
    let mut sum: i64 = 0;
    let mut i: usize = 0;
    while i < FIXTURE_LEN
        invariant
            i <= FIXTURE_LEN,
            fx.wf(),
            sum == sum_of(i as nat, unwrapped_term(*fx)),
        decreases FIXTURE_LEN - i,
    {
        proof {
            lemma_affine_sum_small((i + 1) as nat, unwrapped_term(*fx), 4, 0);
        }
        sum = sum + fx.unwrapped_foos[i];
        sum = sum + (fx.unwrapped_bars[i].0 + fx.unwrapped_bars[i].1 + fx.unwrapped_bars[i].2);
        i = i + 1;
    }
    proof {
        lemma_sum_of_affine(FIXTURE_LEN as nat, unwrapped_term(*fx), 4, 0);
    }
    sum
}

/// Relies on `Result::unwrap_or`: the `Ok` value, or the default on `Err`.
pub assume_specification<T, E>[ Result::<T, E>::unwrap_or ](r: Result<T, E>, default: T) -> (t: T)
    ensures
        t == match r {
            Ok(v) => v,
            Err(_) => default,
        },
;

/// Position `k` of the optional family, absent values counted as 0.
pub open spec fn option_term(fx: Fixtures) -> spec_fn(int) -> int {
    |k: int|
        match fx.options@[k] {
            Some(v) => v as int,
            None => 0,
        }
}

/// Position `k` of the fallible family, failures counted as 0.
pub open spec fn result_term(fx: Fixtures) -> spec_fn(int) -> int {
    |k: int|
        match fx.results@[k] {
            Ok(v) => v as int,
            Err(_) => 0,
        }
}

/// What the optional variant of the option pair returns.
pub open spec fn option_using_total(fx: Fixtures) -> int {
    sum_of(FIXTURE_LEN as nat, option_term(fx))
}

/// What the fallible variant of the result pair returns.
pub open spec fn result_using_total(fx: Fixtures) -> int {
    sum_of(FIXTURE_LEN as nat, result_term(fx))
}

/// Sums the optional family, taking 0 for an absent value.
pub fn op_option_using_zco(fx: &Fixtures) -> (r: i64)
    requires
        fx.wf(),
    ensures
        r == option_using_total(*fx),
        r == 50_005_000,
{
    let mut sum: i64 = 0;
    let mut i: usize = 0;
    while i < FIXTURE_LEN
        invariant
            i <= FIXTURE_LEN,
            fx.wf(),
            sum == sum_of(i as nat, option_term(*fx)),
        decreases FIXTURE_LEN - i,
    {
        proof {
            lemma_affine_sum_small((i + 1) as nat, option_term(*fx), 1, 0);
        }
        sum = sum + fx.options[i].unwrap_or(0);
        i = i + 1;
    }
    proof {
        lemma_sum_of_affine(FIXTURE_LEN as nat, option_term(*fx), 1, 0);
    }
    sum
}

/// Sums the defaulted integers that stand beside the optional family.
pub fn op_option_without_zco(fx: &Fixtures) -> (r: i64)
    requires
        fx.wf(),
    ensures
        r == ints_total(fx.defaulted@),
        r == 50_005_000,
{
    let mut sum: i64 = 0;
    let mut i: usize = 0;
    while i < FIXTURE_LEN
        invariant
            i <= FIXTURE_LEN,
            fx.wf(),
            sum == sum_of(i as nat, int_term(fx.defaulted@)),
        decreases FIXTURE_LEN - i,
    {
        proof {
            lemma_affine_sum_small((i + 1) as nat, int_term(fx.defaulted@), 1, 0);
        }
        sum = sum + fx.defaulted[i];
        i = i + 1;
    }
    proof {
        lemma_sum_of_affine(FIXTURE_LEN as nat, int_term(fx.defaulted@), 1, 0);
    }
    sum
}

/// Sums the fallible family, taking 0 for a failure.
pub fn op_result_using_zco(fx: &Fixtures) -> (r: i64)
    requires
        fx.wf(),
    ensures
        r == result_using_total(*fx),
        r == 50_005_000,
{
    let mut sum: i64 = 0;
    let mut i: usize = 0;
    while i < FIXTURE_LEN
        invariant
            i <= FIXTURE_LEN,
            fx.wf(),
            sum == sum_of(i as nat, result_term(*fx)),
        decreases FIXTURE_LEN - i,
    {
        proof {
            lemma_affine_sum_small((i + 1) as nat, result_term(*fx), 1, 0);
        }
        sum = sum + fx.results[i].unwrap_or(0);
        i = i + 1;
    }
    proof {
        lemma_sum_of_affine(FIXTURE_LEN as nat, result_term(*fx), 1, 0);
    }
    sum
}

/// Sums the defaulted integers that stand beside the fallible family.
pub fn op_result_without_zco(fx: &Fixtures) -> (r: i64)
    requires
        fx.wf(),
    ensures
        r == ints_total(fx.defaulted_res@),
        r == 50_005_000,
{
    let mut sum: i64 = 0;
    let mut i: usize = 0;
    while i < FIXTURE_LEN
        invariant
            i <= FIXTURE_LEN,
            fx.wf(),
            sum == sum_of(i as nat, int_term(fx.defaulted_res@)),
        decreases FIXTURE_LEN - i,
    {
        proof {
            lemma_affine_sum_small((i + 1) as nat, int_term(fx.defaulted_res@), 1, 0);
        }
        sum = sum + fx.defaulted_res[i];
        i = i + 1;
    }
    proof {
        lemma_sum_of_affine(FIXTURE_LEN as nat, int_term(fx.defaulted_res@), 1, 0);
    }
    sum
}

} // verus!
