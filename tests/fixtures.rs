use zco_bench::fixtures::{Bar, Fixtures, Foo, Gen, Ungen, FIXTURE_LEN, GENERATED};

#[test]
fn every_family_has_seed_plus_generated_elements() {
    let fx = Fixtures::new();
    assert_eq!(FIXTURE_LEN, 10_001);
    assert_eq!(GENERATED, 10_000);
    assert_eq!(fx.gens.len(), 10_001);
    assert_eq!(fx.unpacked_gens.len(), 10_001);
    assert_eq!(fx.wrapped_foos.len(), 10_001);
    assert_eq!(fx.wrapped_bars.len(), 10_001);
    assert_eq!(fx.unwrapped_foos.len(), 10_001);
    assert_eq!(fx.unwrapped_bars.len(), 10_001);
    assert_eq!(fx.options.len(), 10_001);
    assert_eq!(fx.defaulted.len(), 10_001);
    assert_eq!(fx.results.len(), 10_001);
    assert_eq!(fx.defaulted_res.len(), 10_001);
    assert_eq!(fx.basic_iter_col.len(), 10_001);
}

#[test]
fn seed_and_last_elements_hold_their_position() {
    let fx = Fixtures::new();
    assert_eq!(fx.gens[0].t, 0);
    assert_eq!(fx.gens[0].v, 0);
    assert_eq!(fx.gens[10_000].t, 10_000);
    assert_eq!(fx.gens[10_000].v, 10_000);
    assert_eq!(fx.wrapped_bars[10_000].0, (10_000, 10_000, 10_000));
    assert_eq!(fx.options[0], Some(0));
    assert_eq!(fx.options[10_000], Some(10_000));
    assert_eq!(fx.results[10_000], Ok(10_000));
    assert_eq!(fx.basic_iter_col[1], 1);
    assert_eq!(fx.basic_iter_col[10_000], 10_000);
}

#[test]
fn wrapped_and_unwrapped_elements_agree() {
    let fx = Fixtures::new();
    for i in 0..FIXTURE_LEN {
        assert_eq!(fx.gens[i].t, fx.unpacked_gens[i].t);
        assert_eq!(fx.gens[i].v, fx.unpacked_gens[i].v);
        assert_eq!(fx.wrapped_foos[i].0, fx.unwrapped_foos[i]);
        assert_eq!(fx.wrapped_bars[i].0, fx.unwrapped_bars[i]);
        assert_eq!(fx.options[i], Some(fx.defaulted[i]));
        assert_eq!(fx.results[i], Ok(fx.defaulted_res[i]));
        assert_eq!(fx.basic_iter_col[i], i as i64);
    }
}

#[test]
fn pair_accessors_add_both_fields() {
    let g: Gen<i64, i64> = Gen { t: 3, v: 4 };
    assert_eq!(g.f(), 7);
    let u = Ungen { t: -5, v: 12 };
    assert_eq!(u.f(), 7);
    let foo = Foo(9);
    assert_eq!(foo.0, 9);
    let bar = Bar((1, 2, 3));
    assert_eq!((bar.0).2, 3);
}
