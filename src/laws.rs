//! Properties of the fixture store and of the operation pairs, stated over
//! the spec functions that the operations' contracts use.
use vstd::prelude::*;
use crate::fixtures::{Fixtures, FIXTURE_LEN};
use crate::sums::{lemma_sum_of_affine, lemma_sum_of_ext};
use crate::ops::{
    composed_total, generics_using_total, generics_without_total, ints_total, int_term,
    gen_term, ungen_term, newtypes_using_total, newtypes_without_total, offset_term,
    option_term, option_using_total, result_term, result_using_total, unwrapped_term,
    wrapped_term, COMPOSED_TAKE,
};
use crate::bench::{
    op_total, expected_total, op_name_spec, pass_done, pass_order, Measurement, Op, Variant,
};

verus! {

/// Every family has exactly `FIXTURE_LEN` (ten thousand and one) elements,
/// and at each position the wrapped element holds the same logical value as
/// the unwrapped one.
pub proof fn lemma_families_agree(fx: Fixtures)
    requires
        fx.wf(),
    ensures
        FIXTURE_LEN == 10_001,
        fx.gens.len() == FIXTURE_LEN && fx.unpacked_gens.len() == FIXTURE_LEN,
        fx.wrapped_foos.len() == FIXTURE_LEN && fx.unwrapped_foos.len() == FIXTURE_LEN,
        fx.wrapped_bars.len() == FIXTURE_LEN && fx.unwrapped_bars.len() == FIXTURE_LEN,
        fx.options.len() == FIXTURE_LEN && fx.defaulted.len() == FIXTURE_LEN,
        fx.results.len() == FIXTURE_LEN && fx.defaulted_res.len() == FIXTURE_LEN,
        fx.basic_iter_col.len() == FIXTURE_LEN,
        forall|i: int|
            0 <= i < FIXTURE_LEN ==> {
                &&& (#[trigger] fx.gens@[i]).t == fx.unpacked_gens@[i].t
                &&& fx.gens@[i].v == fx.unpacked_gens@[i].v
            },
        forall|i: int|
            0 <= i < FIXTURE_LEN ==> (#[trigger] fx.wrapped_foos@[i]).0 == fx.unwrapped_foos@[i],
        forall|i: int|
            0 <= i < FIXTURE_LEN ==> (#[trigger] fx.wrapped_bars@[i]).0 == fx.unwrapped_bars@[i],
        forall|i: int|
            0 <= i < FIXTURE_LEN ==> #[trigger] fx.options@[i] == Some(fx.defaulted@[i]),
        forall|i: int|
            0 <= i < FIXTURE_LEN ==> #[trigger] fx.results@[i] == Ok::<i64, &'static str>(
                fx.defaulted_res@[i],
            ),
{
    assert forall|i: int| 0 <= i < FIXTURE_LEN implies #[trigger] fx.options@[i] == Some(
        fx.defaulted@[i],
    ) by {
        assert(fx.defaulted@[i] == i);
    }
    assert forall|i: int|
        0 <= i < FIXTURE_LEN implies #[trigger] fx.results@[i] == Ok::<i64, &'static str>(
        fx.defaulted_res@[i],
    ) by {
        assert(fx.defaulted_res@[i] == i);
    }
    assert forall|i: int|
        0 <= i < FIXTURE_LEN implies (#[trigger] fx.wrapped_foos@[i]).0 == fx.unwrapped_foos@[i] by {
        assert(fx.unwrapped_foos@[i] == i);
    }
}

/// Both variants of basic iteration return the sum of the whole iteration
/// fixture, which is 0 + 1 + ... + 10000 = 50,005,000.
pub proof fn lemma_basic_iteration_agrees(fx: Fixtures)
    requires
        fx.wf(),
    ensures
        op_total(fx, Op::BasicIterations, Variant::UsingZco) == op_total(
            fx,
            Op::BasicIterations,
            Variant::WithoutZco,
        ),
        ints_total(fx.basic_iter_col@) == 50_005_000,
{
    lemma_sum_of_affine(FIXTURE_LEN as nat, int_term(fx.basic_iter_col@), 1, 0);
}

/// Both variants of composed iteration return the sum of `i + 42` over the
/// first five thousand positions, which is 12,707,500.
pub proof fn lemma_composed_iteration_agrees(fx: Fixtures)
    requires
        fx.wf(),
    ensures
        op_total(fx, Op::ComposingIterators, Variant::UsingZco) == op_total(
            fx,
            Op::ComposingIterators,
            Variant::WithoutZco,
        ),
        composed_total(fx.basic_iter_col@) == 12_707_500,
{
    lemma_sum_of_affine(COMPOSED_TAKE as nat, offset_term(fx.basic_iter_col@), 1, 42);
}

/// The composed iteration reads only the first five thousand elements: two
/// sequences that agree there give the same result.
pub proof fn lemma_composed_reads_prefix(s1: Seq<i64>, s2: Seq<i64>)
    requires
        s1.len() >= COMPOSED_TAKE,
        s2.len() >= COMPOSED_TAKE,
        s1.take(COMPOSED_TAKE as int) == s2.take(COMPOSED_TAKE as int),
    ensures
        composed_total(s1) == composed_total(s2),
{
    assert forall|k: int| 0 <= k < COMPOSED_TAKE implies #[trigger] offset_term(s1)(k)
        == offset_term(s2)(k) by {
        assert(s1[k] == s1.take(COMPOSED_TAKE as int)[k]);
        assert(s2[k] == s2.take(COMPOSED_TAKE as int)[k]);
        assert(offset_term(s1)(k) == s1[k] + 42);
        assert(offset_term(s2)(k) == s2[k] + 42);
    }
    lemma_sum_of_ext(COMPOSED_TAKE as nat, offset_term(s1), offset_term(s2));
}

/// Both variants of the newtypes pair agree: each wrapped integer plus the
/// three fields of each wrapped triple, 4 * 50,005,000 = 200,020,000.
pub proof fn lemma_newtypes_agree(fx: Fixtures)
    requires
        fx.wf(),
    ensures
        newtypes_using_total(fx) == newtypes_without_total(fx),
        newtypes_using_total(fx) == 200_020_000,
{
    lemma_sum_of_affine(FIXTURE_LEN as nat, wrapped_term(fx), 4, 0);
    lemma_sum_of_affine(FIXTURE_LEN as nat, unwrapped_term(fx), 4, 0);
}

/// Both variants of the option pair, and both of the result pair, agree,
/// each at 0 + 1 + ... + 10000 = 50,005,000.
pub proof fn lemma_option_and_result_agree(fx: Fixtures)
    requires
        fx.wf(),
    ensures
        option_using_total(fx) == ints_total(fx.defaulted@),
        option_using_total(fx) == 50_005_000,
        result_using_total(fx) == ints_total(fx.defaulted_res@),
        result_using_total(fx) == 50_005_000,
{
    lemma_sum_of_affine(FIXTURE_LEN as nat, option_term(fx), 1, 0);
    lemma_sum_of_affine(FIXTURE_LEN as nat, int_term(fx.defaulted@), 1, 0);
    lemma_sum_of_affine(FIXTURE_LEN as nat, result_term(fx), 1, 0);
    lemma_sum_of_affine(FIXTURE_LEN as nat, int_term(fx.defaulted_res@), 1, 0);
}

/// Both variants of the generics pair agree, at the sum of `i + i`, which is
/// 2 * 50,005,000 = 100,010,000.
pub proof fn lemma_generics_agree(fx: Fixtures)
    requires
        fx.wf(),
    ensures
        generics_using_total(fx) == generics_without_total(fx),
        generics_using_total(fx) == 100_010_000,
{
    lemma_sum_of_affine(FIXTURE_LEN as nat, gen_term(fx), 2, 0);
    lemma_sum_of_affine(FIXTURE_LEN as nat, ungen_term(fx), 2, 0);
}

/// Every member of every operation pair returns the same value on any
/// well-formed fixtures, so running it again, or on fixtures built again,
/// gives the same integer every time.
pub proof fn lemma_results_repeat(fx1: Fixtures, fx2: Fixtures)
    requires
        fx1.wf(),
        fx2.wf(),
    ensures
        forall|op: Op, variant: Variant|
            op_total(fx1, op, variant) == #[trigger] op_total(fx2, op, variant),
        forall|op: Op, variant: Variant|
            #[trigger] op_total(fx1, op, variant) == expected_total(op),
{
    lemma_basic_iteration_agrees(fx1);
    lemma_basic_iteration_agrees(fx2);
    lemma_composed_iteration_agrees(fx1);
    lemma_composed_iteration_agrees(fx2);
    lemma_newtypes_agree(fx1);
    lemma_newtypes_agree(fx2);
    lemma_option_and_result_agree(fx1);
    lemma_option_and_result_agree(fx2);
    lemma_generics_agree(fx1);
    lemma_generics_agree(fx2);
}

/// The two passes report the same six operations in the same order, and no
/// two operations share a display name, so the lines of the two passes
/// compare by position.
pub proof fn lemma_passes_align(first: Seq<Measurement>, second: Seq<Measurement>, iterations: usize)
    requires
        pass_done(first, iterations),
        pass_done(second, iterations),
    ensures
        first.len() == 6,
        second.len() == 6,
        forall|k: int| 0 <= k < 6 ==> #[trigger] first[k].op == second[k].op,
        forall|j: int, k: int|
            0 <= j < k < 6 ==> op_name_spec(#[trigger] first[j].op) != op_name_spec(
                #[trigger] first[k].op,
            ),
{
    reveal_strlit("basic_iterations");
    reveal_strlit("composing_iterators");
    reveal_strlit("newtypes");
    reveal_strlit("option");
    reveal_strlit("result");
    reveal_strlit("generics");
    assert forall|k: int| 0 <= k < 6 implies #[trigger] first[k].op == second[k].op by {
        assert(first[k].op == pass_order()[k]);
        assert(second[k].op == pass_order()[k]);
    }
    assert forall|a: Op, b: Op| a != b implies op_name_spec(a) != op_name_spec(b) by {
        if op_name_spec(a) == op_name_spec(b) {
            assert(op_name_spec(a).len() == op_name_spec(b).len());
            assert(op_name_spec(a)[0] == op_name_spec(b)[0]);
        }
    }
    assert forall|j: int, k: int| 0 <= j < k < 6 implies op_name_spec(#[trigger] first[j].op)
        != op_name_spec(#[trigger] first[k].op) by {
        assert(first[j].op == pass_order()[j]);
        assert(first[k].op == pass_order()[k]);
    }
}

} // verus!
