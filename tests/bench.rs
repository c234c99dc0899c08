use zco_bench::bench::{bench, op_name, op_order, run, using_zco, without_zco, Op, Variant};
use zco_bench::fixtures::Fixtures;

const NAMES: [&str; 6] =
    ["basic_iterations", "composing_iterators", "newtypes", "option", "result", "generics"];

fn expected(op: Op) -> i64 {
    match op {
        Op::BasicIterations => 50_005_000,
        Op::ComposingIterators => 12_707_500,
        Op::Newtypes => 200_020_000,
        Op::Optional => 50_005_000,
        Op::Fallible => 50_005_000,
        Op::Generics => 100_010_000,
    }
}

#[test]
fn operations_keep_their_fixed_order_and_names() {
    let ops = op_order();
    assert_eq!(ops.len(), 6);
    for (op, name) in ops.iter().zip(NAMES.iter()) {
        assert_eq!(op_name(*op), *name);
    }
}

#[test]
fn run_dispatches_both_members_of_each_pair() {
    let fx = Fixtures::new();
    for op in op_order() {
        assert_eq!(run(&fx, op, Variant::UsingZco), expected(op));
        assert_eq!(run(&fx, op, Variant::WithoutZco), expected(op));
    }
}

#[test]
fn bench_takes_one_sample_per_timed_call() {
    let fx = Fixtures::new();
    let m = bench(&fx, Op::Newtypes, Variant::UsingZco, 5);
    assert_eq!(m.op, Op::Newtypes);
    assert_eq!(m.samples.len(), 5);
    assert_eq!(m.value, Some(200_020_000));
}

#[test]
fn bench_with_no_timed_calls_has_no_value() {
    let fx = Fixtures::new();
    let m = bench(&fx, Op::Optional, Variant::WithoutZco, 0);
    assert!(m.samples.is_empty());
    assert_eq!(m.value, None);
}

#[test]
fn both_passes_list_the_same_operations_in_order() {
    let fx = Fixtures::new();
    let using = using_zco(&fx, 2);
    let without = without_zco(&fx, 2);
    assert_eq!(using.len(), 6);
    assert_eq!(without.len(), 6);
    for k in 0..6 {
        assert_eq!(op_name(using[k].op), NAMES[k]);
        assert_eq!(op_name(without[k].op), NAMES[k]);
        assert_eq!(using[k].samples.len(), 2);
        assert_eq!(without[k].samples.len(), 2);
        assert_eq!(using[k].value, Some(expected(using[k].op)));
        assert_eq!(without[k].value, using[k].value);
    }
}
