use zco_bench::fixtures::Fixtures;
use zco_bench::ops::{
    op_basic_iteration_using_zco, op_basic_iteration_without_zco,
    op_composed_iteration_using_zco, op_composed_iteration_without_zco, op_generics_using_zco,
    op_generics_without_zco, op_newtypes_using_zco, op_newtypes_without_zco,
    op_option_using_zco, op_option_without_zco, op_result_using_zco, op_result_without_zco,
};

#[test]
fn basic_iteration_pair_agrees() {
    let fx = Fixtures::new();
    assert_eq!(op_basic_iteration_using_zco(&fx), 50_005_000);
    assert_eq!(op_basic_iteration_without_zco(&fx), 50_005_000);
}

#[test]
fn composed_iteration_pair_agrees() {
    let fx = Fixtures::new();
    assert_eq!(op_composed_iteration_using_zco(&fx), 12_707_500);
    assert_eq!(op_composed_iteration_without_zco(&fx), 12_707_500);
    assert_eq!(12_707_500, 4999 * 5000 / 2 + 5000 * 42);
}

#[test]
fn newtypes_pair_agrees() {
    let fx = Fixtures::new();
    assert_eq!(op_newtypes_using_zco(&fx), 200_020_000);
    assert_eq!(op_newtypes_without_zco(&fx), 200_020_000);
}

#[test]
fn option_pair_agrees() {
    let fx = Fixtures::new();
    assert_eq!(op_option_using_zco(&fx), 50_005_000);
    assert_eq!(op_option_without_zco(&fx), 50_005_000);
}

#[test]
fn result_pair_agrees() {
    let fx = Fixtures::new();
    assert_eq!(op_result_using_zco(&fx), 50_005_000);
    assert_eq!(op_result_without_zco(&fx), 50_005_000);
}

#[test]
fn generics_pair_agrees() {
    let fx = Fixtures::new();
    assert_eq!(op_generics_using_zco(&fx), 100_010_000);
    assert_eq!(op_generics_without_zco(&fx), 100_010_000);
}

#[test]
fn operations_repeat_their_result() {
    let fx = Fixtures::new();
    for _ in 0..3 {
        assert_eq!(op_basic_iteration_using_zco(&fx), op_basic_iteration_without_zco(&fx));
        assert_eq!(op_composed_iteration_using_zco(&fx), 12_707_500);
        assert_eq!(op_newtypes_using_zco(&fx), op_newtypes_without_zco(&fx));
        assert_eq!(op_option_using_zco(&fx), op_option_without_zco(&fx));
        assert_eq!(op_result_using_zco(&fx), op_result_without_zco(&fx));
        assert_eq!(op_generics_using_zco(&fx), op_generics_without_zco(&fx));
    }
    let again = Fixtures::new();
    assert_eq!(op_generics_using_zco(&again), op_generics_using_zco(&fx));
    assert_eq!(op_newtypes_without_zco(&again), op_newtypes_without_zco(&fx));
}
