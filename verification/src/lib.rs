//! A compile-time test-declaration library: a small domain-specific notation
//! for describing test suites (groups, setup/teardown hooks, test bodies) is
//! parsed from a token stream into a syntax tree, and a declaration tree of
//! ordinary test functions is generated from it.

use vstd::prelude::*;

pub mod describe;
pub mod errors;
pub mod fixture;
pub mod generate;
pub mod laws;
pub mod keywords;
pub mod names;
pub mod suite;
pub mod tokens;

verus! {

/// Adds two numbers; the running example used by the generated suites.
pub fn add(a: i32, b: i32) -> (r: i32)
    requires
        i32::MIN <= a + b <= i32::MAX,
    ensures
        r == a + b,
{
    a + b
}

} // verus!
