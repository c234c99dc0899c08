//! The fixture store: for each operation family a wrapped and an unwrapped
//! sequence holding the same values.
//!
//! Real-valued fields are held as the whole numbers they are built from. The
//! operations only ever read them truncated to an integer, and a whole number
//! truncates to itself, so the integer is exactly what the logic reads.
use vstd::prelude::*;

verus! {

/// Number of generated elements in each family, after the seed element.
pub const GENERATED: usize = 10000;

/// Length of every fixture sequence: the seed element plus the generated ones.
pub const FIXTURE_LEN: usize = GENERATED + 1;

/// A pair held through a generic container with two type parameters.
#[derive(Debug, Clone, Copy)]
pub struct Gen<T, V> {
    pub t: T,
    pub v: V,
}

impl Gen<i64, i64> {
    /// The integer field plus the truncated second field.
    pub fn f(&self) -> (r: i64)
        requires
            i64::MIN <= self.t + self.v <= i64::MAX,
        ensures
            r == self.t + self.v,
    {
        self.t + self.v
    }
}

/// The same pair as a concrete two-field structure.
#[derive(Debug, Clone, Copy)]
pub struct Ungen {
    pub t: i64,
    pub v: i64,
}

impl Ungen {
    /// The integer field plus the truncated second field.
    pub fn f(&self) -> (r: i64)
        requires
            i64::MIN <= self.t + self.v <= i64::MAX,
        ensures
            r == self.t + self.v,
    {
        self.t + self.v
    }
}

/// A single integer behind a one-field wrapper.
#[derive(Debug, Clone, Copy)]
pub struct Foo(pub i64);

/// A triple behind a one-field wrapper; its third field stands for a real
/// value built from a whole number.
#[derive(Debug, Clone, Copy)]
pub struct Bar(pub (i64, i64, i64));

/// Every fixture sequence of the benchmark, built once and then only read.
pub struct Fixtures {
    pub gens: Vec<Gen<i64, i64>>,
    pub unpacked_gens: Vec<Ungen>,
    pub wrapped_foos: Vec<Foo>,
    pub wrapped_bars: Vec<Bar>,
    pub unwrapped_foos: Vec<i64>,
    pub unwrapped_bars: Vec<(i64, i64, i64)>,
    pub options: Vec<Option<i64>>,
    pub defaulted: Vec<i64>,
    pub results: Vec<Result<i64, &'static str>>,
    pub defaulted_res: Vec<i64>,
    pub basic_iter_col: Vec<i64>,
}

/// A sequence of plain integers where position `i` holds `i`.
pub open spec fn counts_up(s: Seq<i64>) -> bool {
    &&& s.len() == FIXTURE_LEN
    &&& forall|i: int| 0 <= i < FIXTURE_LEN ==> #[trigger] s[i] == i
}

impl Fixtures {
    /// Every sequence has the fixture length, and at each position every
    /// numeric field holds that position.
    pub open spec fn wf(&self) -> bool {
        &&& self.gens.len() == FIXTURE_LEN
        &&& forall|i: int|
            0 <= i < FIXTURE_LEN ==> (#[trigger] self.gens@[i]).t == i && self.gens@[i].v == i
        &&& self.unpacked_gens.len() == FIXTURE_LEN
        &&& forall|i: int|
            0 <= i < FIXTURE_LEN ==> (#[trigger] self.unpacked_gens@[i]).t == i
                && self.unpacked_gens@[i].v == i
        &&& self.wrapped_foos.len() == FIXTURE_LEN
        &&& forall|i: int| 0 <= i < FIXTURE_LEN ==> (#[trigger] self.wrapped_foos@[i]).0 == i
        &&& self.wrapped_bars.len() == FIXTURE_LEN
        &&& forall|i: int|
            0 <= i < FIXTURE_LEN ==> (#[trigger] self.wrapped_bars@[i]).0 == (
                i as i64,
                i as i64,
                i as i64,
            )
        &&& counts_up(self.unwrapped_foos@)
        &&& self.unwrapped_bars.len() == FIXTURE_LEN
        &&& forall|i: int|
            0 <= i < FIXTURE_LEN ==> #[trigger] self.unwrapped_bars@[i] == (
                i as i64,
                i as i64,
                i as i64,
            )
        &&& self.options.len() == FIXTURE_LEN
        &&& forall|i: int| 0 <= i < FIXTURE_LEN ==> #[trigger] self.options@[i] == Some(i as i64)
        &&& counts_up(self.defaulted@)
        &&& self.results.len() == FIXTURE_LEN
        &&& forall|i: int|
            0 <= i < FIXTURE_LEN ==> #[trigger] self.results@[i] == Ok::<i64, &'static str>(
                i as i64,
            )
        &&& counts_up(self.defaulted_res@)
        &&& counts_up(self.basic_iter_col@)
    }

    /// Builds every family: the seed element at position 0, then one element
    /// for each of the positions 1 to `GENERATED`.
    pub fn new() -> (r: Fixtures)
        ensures
            r.wf(),
    {
        Fixtures {
            gens: build_gens(),
            unpacked_gens: build_unpacked_gens(),
            wrapped_foos: build_wrapped_foos(),
            wrapped_bars: build_wrapped_bars(),
            unwrapped_foos: build_counting(),
            unwrapped_bars: build_unwrapped_bars(),
            options: build_options(),
            defaulted: build_counting(),
            results: build_results(),
            defaulted_res: build_counting(),
            basic_iter_col: build_counting(),
        }
    }
}

fn build_gens() -> (v: Vec<Gen<i64, i64>>)
    ensures
        v.len() == FIXTURE_LEN,
        forall|i: int| 0 <= i < FIXTURE_LEN ==> (#[trigger] v@[i]).t == i && v@[i].v == i,
{
    let mut v = vec![Gen { t: 0, v: 0 }];
    for i in 1..GENERATED + 1
        invariant
            v.len() == i,
            forall|j: int| 0 <= j < i ==> (#[trigger] v@[j]).t == j && v@[j].v == j,
    {
        v.push(Gen { t: i as i64, v: i as i64 });
    }
    v
}

fn build_unpacked_gens() -> (v: Vec<Ungen>)
    ensures
        v.len() == FIXTURE_LEN,
        forall|i: int| 0 <= i < FIXTURE_LEN ==> (#[trigger] v@[i]).t == i && v@[i].v == i,
{
    let mut v = vec![Ungen { t: 0, v: 0 }];
    for i in 1..GENERATED + 1
        invariant
            v.len() == i,
            forall|j: int| 0 <= j < i ==> (#[trigger] v@[j]).t == j && v@[j].v == j,
    {
        v.push(Ungen { t: i as i64, v: i as i64 });
    }
    v
}

fn build_wrapped_foos() -> (v: Vec<Foo>)
    ensures
        v.len() == FIXTURE_LEN,
        forall|i: int| 0 <= i < FIXTURE_LEN ==> (#[trigger] v@[i]).0 == i,
{
    let mut v = vec![Foo(0)];
    for i in 1..GENERATED + 1
        invariant
            v.len() == i,
            forall|j: int| 0 <= j < i ==> (#[trigger] v@[j]).0 == j,
    {
        v.push(Foo(i as i64));
    }
    v
}

fn build_wrapped_bars() -> (v: Vec<Bar>)
    ensures
        v.len() == FIXTURE_LEN,
        forall|i: int|
            0 <= i < FIXTURE_LEN ==> (#[trigger] v@[i]).0 == (i as i64, i as i64, i as i64),
{
    let mut v = vec![Bar((0, 0, 0))];
    for i in 1..GENERATED + 1
        invariant
            v.len() == i,
            forall|j: int| 0 <= j < i ==> (#[trigger] v@[j]).0 == (j as i64, j as i64, j as i64),
    {
        v.push(Bar((i as i64, i as i64, i as i64)));
    }
    v
}

fn build_unwrapped_bars() -> (v: Vec<(i64, i64, i64)>)
    ensures
        v.len() == FIXTURE_LEN,
        forall|i: int| 0 <= i < FIXTURE_LEN ==> #[trigger] v@[i] == (i as i64, i as i64, i as i64),
{
    let mut v = vec![(0, 0, 0)];
    for i in 1..GENERATED + 1
        invariant
            v.len() == i,
            forall|j: int| 0 <= j < i ==> #[trigger] v@[j] == (j as i64, j as i64, j as i64),
    {
        v.push((i as i64, i as i64, i as i64));
    }
    v
}

fn build_options() -> (v: Vec<Option<i64>>)
    ensures
        v.len() == FIXTURE_LEN,
        forall|i: int| 0 <= i < FIXTURE_LEN ==> #[trigger] v@[i] == Some(i as i64),
{
    let mut v = vec![Some(0)];
    for i in 1..GENERATED + 1
        invariant
            v.len() == i,
            forall|j: int| 0 <= j < i ==> #[trigger] v@[j] == Some(j as i64),
    {
        v.push(Some(i as i64));
    }
    v
}

fn build_results() -> (v: Vec<Result<i64, &'static str>>)
    ensures
        v.len() == FIXTURE_LEN,
        forall|i: int|
            0 <= i < FIXTURE_LEN ==> #[trigger] v@[i] == Ok::<i64, &'static str>(i as i64),
{
    let mut v: Vec<Result<i64, &'static str>> = vec![Ok(0)];
    for i in 1..GENERATED + 1
        invariant
            v.len() == i,
            forall|j: int| 0 <= j < i ==> #[trigger] v@[j] == Ok::<i64, &'static str>(j as i64),
    {
        v.push(Ok(i as i64));
    }
    v
}

fn build_counting() -> (v: Vec<i64>)
    ensures
        counts_up(v@),
{
    let mut v: Vec<i64> = vec![0];
    for i in 1..GENERATED + 1
        invariant
            v.len() == i,
            forall|j: int| 0 <= j < i ==> #[trigger] v@[j] == j,
    {
        v.push(i as i64);
    }
    v
}

} // verus!
