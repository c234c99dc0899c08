//! Paired computations that read the same data once through an abstraction
//! (a generic container, a single-field wrapper, an optional or a fallible
//! value, an iterator pipeline) and once by hand, with the machinery to time
//! them: a fixture store, the operation pairs, and a bench runner.
pub mod fixtures;
pub mod sums;
pub mod ops;
pub mod bench;
pub mod laws;
