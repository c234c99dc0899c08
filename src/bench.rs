//! The bench runner: a closed table of named operations, warm-up and timed
//! calls, and the two passes over the table.
use vstd::prelude::*;
use std::time::{Duration, Instant};
use crate::fixtures::Fixtures;
use crate::ops::{
    composed_total, generics_using_total, generics_without_total, ints_total,
    newtypes_using_total, newtypes_without_total, op_basic_iteration_using_zco,
    op_basic_iteration_without_zco, op_composed_iteration_using_zco,
    op_composed_iteration_without_zco, op_generics_using_zco, op_generics_without_zco,
    op_newtypes_using_zco, op_newtypes_without_zco, op_option_using_zco, op_option_without_zco,
    op_result_using_zco, op_result_without_zco, option_using_total, result_using_total,
};

verus! {

/// Number of untimed calls made before the timed ones.
pub const WARM_UP: usize = 1000;

/// Number of operations in each pass.
pub const OP_COUNT: usize = 6;

#[verifier::external_type_specification]
#[verifier::external_body]
pub struct ExInstant(std::time::Instant);

/// Relies on `Instant::now`: reads the monotonic clock. Nothing is known of
/// the value.
pub assume_specification[ std::time::Instant::now ]() -> std::time::Instant;

/// Relies on `Instant::duration_since`: the time from `earlier` to `self`.
/// Nothing is known of the value.
pub assume_specification[ std::time::Instant::duration_since ](
    this: &std::time::Instant,
    earlier: std::time::Instant,
) -> core::time::Duration;

/// Relies on `Duration::as_micros`: the whole microseconds of a duration.
/// Nothing is known of the value, since the duration itself is opaque.
pub assume_specification[ core::time::Duration::as_micros ](d: &core::time::Duration) -> u128;

/// The operations of a pass.
#[derive(Debug, Clone, Copy, PartialEq, Eq, Structural)]
pub enum Op {
    BasicIterations,
    ComposingIterators,
    Newtypes,
    Optional,
    Fallible,
    Generics,
}

/// Which member of an operation pair runs.
#[derive(Debug, Clone, Copy, PartialEq, Eq, Structural)]
pub enum Variant {
    UsingZco,
    WithoutZco,
}

/// The fixed order of the operations in both passes.
pub open spec fn pass_order() -> Seq<Op> {
    seq![
        Op::BasicIterations,
        Op::ComposingIterators,
        Op::Newtypes,
        Op::Optional,
        Op::Fallible,
        Op::Generics,
    ]
}

/// The display name of each operation.
pub open spec fn op_name_spec(op: Op) -> Seq<char> {
    match op {
        Op::BasicIterations => "basic_iterations"@,
        Op::ComposingIterators => "composing_iterators"@,
        Op::Newtypes => "newtypes"@,
        Op::Optional => "option"@,
        Op::Fallible => "result"@,
        Op::Generics => "generics"@,
    }
}

/// What the chosen member of an operation pair returns on the fixtures.
pub open spec fn op_total(fx: Fixtures, op: Op, variant: Variant) -> int {
    match (op, variant) {
        (Op::BasicIterations, _) => ints_total(fx.basic_iter_col@),
        (Op::ComposingIterators, _) => composed_total(fx.basic_iter_col@),
        (Op::Newtypes, Variant::UsingZco) => newtypes_using_total(fx),
        (Op::Newtypes, Variant::WithoutZco) => newtypes_without_total(fx),
        (Op::Optional, Variant::UsingZco) => option_using_total(fx),
        (Op::Optional, Variant::WithoutZco) => ints_total(fx.defaulted@),
        (Op::Fallible, Variant::UsingZco) => result_using_total(fx),
        (Op::Fallible, Variant::WithoutZco) => ints_total(fx.defaulted_res@),
        (Op::Generics, Variant::UsingZco) => generics_using_total(fx),
        (Op::Generics, Variant::WithoutZco) => generics_without_total(fx),
    }
}

/// The closed-form result of each operation on well-formed fixtures.
pub open spec fn expected_total(op: Op) -> i64 {
    match op {
        Op::BasicIterations => 50_005_000,
        Op::ComposingIterators => 12_707_500,
        Op::Newtypes => 200_020_000,
        Op::Optional => 50_005_000,
        Op::Fallible => 50_005_000,
        Op::Generics => 100_010_000,
    }
}

/// The operations of a pass, in their fixed order.
pub fn op_order() -> (r: Vec<Op>)
    ensures
        r@ == pass_order(),
{
    let r = vec![
        Op::BasicIterations,
        Op::ComposingIterators,
        Op::Newtypes,
        Op::Optional,
        Op::Fallible,
        Op::Generics,
    ];
    assert(r@ =~= pass_order());
    r
}

/// The display name of an operation.
pub fn op_name(op: Op) -> (r: &'static str)
    ensures
        r@ == op_name_spec(op),
{
    proof {
        reveal_strlit("basic_iterations");
        reveal_strlit("composing_iterators");
        reveal_strlit("newtypes");
        reveal_strlit("option");
        reveal_strlit("result");
        reveal_strlit("generics");
    }
    match op {
        Op::BasicIterations => "basic_iterations",
        Op::ComposingIterators => "composing_iterators",
        Op::Newtypes => "newtypes",
        Op::Optional => "option",
        Op::Fallible => "result",
        Op::Generics => "generics",
    }
}

/// Runs one member of one operation pair.
pub fn run(fx: &Fixtures, op: Op, variant: Variant) -> (r: i64)
    requires
        fx.wf(),
    ensures
        r == op_total(*fx, op, variant),
        r == expected_total(op),
{
    match (op, variant) {
        (Op::BasicIterations, Variant::UsingZco) => op_basic_iteration_using_zco(fx),
        (Op::BasicIterations, Variant::WithoutZco) => op_basic_iteration_without_zco(fx),
        (Op::ComposingIterators, Variant::UsingZco) => op_composed_iteration_using_zco(fx),
        (Op::ComposingIterators, Variant::WithoutZco) => op_composed_iteration_without_zco(fx),
        (Op::Newtypes, Variant::UsingZco) => op_newtypes_using_zco(fx),
        (Op::Newtypes, Variant::WithoutZco) => op_newtypes_without_zco(fx),
        (Op::Optional, Variant::UsingZco) => op_option_using_zco(fx),
        (Op::Optional, Variant::WithoutZco) => op_option_without_zco(fx),
        (Op::Fallible, Variant::UsingZco) => op_result_using_zco(fx),
        (Op::Fallible, Variant::WithoutZco) => op_result_without_zco(fx),
        (Op::Generics, Variant::UsingZco) => op_generics_using_zco(fx),
        (Op::Generics, Variant::WithoutZco) => op_generics_without_zco(fx),
    }
}

/// Runs an operation once and returns the whole microseconds between the
/// instants taken just before and just after the call.
fn timed_call(fx: &Fixtures, op: Op, variant: Variant) -> (r: (u128, i64))
    requires
        fx.wf(),
    ensures
        r.1 == expected_total(op),
{
    let start = Instant::now();
    let res = run(fx, op, variant);
    let end = Instant::now();
    let elapsed: Duration = end.duration_since(start);
    (elapsed.as_micros(), res)
}

/// The timings of one operation: one sample per timed call, in microseconds,
/// and the value that the timed calls returned (none when there were none).
pub struct Measurement {
    pub op: Op,
    pub samples: Vec<u128>,
    pub value: Option<i64>,
}

/// Warms an operation up with `WARM_UP` untimed calls, then times
/// `iterations` calls.
pub fn bench(fx: &Fixtures, op: Op, variant: Variant, iterations: usize) -> (m: Measurement)
    requires
        fx.wf(),
    ensures
        m.op == op,
        m.samples.len() == iterations,
        m.value == if iterations == 0 {
            None
        } else {
            Some(expected_total(op))
        },
{
    for _w in 0..WARM_UP
        invariant
            fx.wf(),
    {
        let _discarded = run(fx, op, variant);
    }
    let mut samples: Vec<u128> = Vec::new();
    let mut value: Option<i64> = None;
    for i in 0..iterations
        invariant
            fx.wf(),
            samples.len() == i,
            value == if i == 0 {
                None
            } else {
                Some(expected_total(op))
            },
    {
        let (micros, res) = timed_call(fx, op, variant);
        samples.push(micros);
        value = Some(res);
    }
    Measurement { op, samples, value }
}

/// What a pass guarantees of its measurements: one per operation, in the
/// fixed order, each with `iterations` samples and the operation's result.
pub open spec fn pass_done(r: Seq<Measurement>, iterations: usize) -> bool {
    &&& r.len() == OP_COUNT
    &&& forall|k: int|
        0 <= k < OP_COUNT ==> {
            &&& (#[trigger] r[k]).op == pass_order()[k]
            &&& r[k].samples.len() == iterations
            &&& r[k].value == if iterations == 0 {
                None
            } else {
                Some(expected_total(pass_order()[k]))
            }
        }
}

fn run_pass(fx: &Fixtures, variant: Variant, iterations: usize) -> (r: Vec<Measurement>)
    requires
        fx.wf(),
    ensures
        pass_done(r@, iterations),
{
    let ops = op_order();
    let mut r: Vec<Measurement> = Vec::new();
    for i in 0..ops.len()
        invariant
            fx.wf(),
            ops@ == pass_order(),
            r.len() == i,
            forall|k: int|
                0 <= k < i ==> {
                    &&& (#[trigger] r@[k]).op == pass_order()[k]
                    &&& r@[k].samples.len() == iterations
                    &&& r@[k].value == if iterations == 0 {
                        None
                    } else {
                        Some(expected_total(pass_order()[k]))
                    }
                },
    {
        r.push(bench(fx, ops[i], variant, iterations));
    }
    r
}

/// Benchmarks every operation through its abstraction, in the fixed order.
pub fn using_zco(fx: &Fixtures, iterations: usize) -> (r: Vec<Measurement>)
    requires
        fx.wf(),
    ensures
        pass_done(r@, iterations),
{
    run_pass(fx, Variant::UsingZco, iterations)
}

/// Benchmarks every hand-written operation, in the same fixed order.
pub fn without_zco(fx: &Fixtures, iterations: usize) -> (r: Vec<Measurement>)
    requires
        fx.wf(),
    ensures
        pass_done(r@, iterations),
{
    run_pass(fx, Variant::WithoutZco, iterations)
}

} // verus!
