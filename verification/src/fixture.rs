//! A sample suite: the user-defined type a generated suite module binds to,
//! with its per-test hooks and one test method.

use vstd::prelude::*;
use crate::suite::Suite;

verus! {

/// A suite whose before-hook prepares an input string for each test.
pub struct TestSuite {
    pub input: String,
}

impl Default for TestSuite {
    /// A suite with an empty input.
    fn default() -> (r: Self)
        ensures
            r.input@ == Seq::<char>::empty(),
    {
        TestSuite { input: String::new() }
    }
}

impl TestSuite {
    /// The one test of this suite: checks that the before-hook has run and
    /// prepared the input. Callers must have run the hook first.
    pub fn base_test(&self)
        requires
            self.input@ == "1"@,
    {
        let expected = "1".to_owned();
        let ok = self.input == expected;
        assert(ok);
    }
}

impl Suite for TestSuite {
    fn before_test(&mut self) {
        self.input = "1".to_owned();
    }

    fn after_test(&mut self) {
        self.input = String::new();
    }
}

} // verus!
