//! The bounded per-suite collector of test results.
//!
//! A suite run creates one collector with the number of results the suite
//! is expected to produce; results are added as they arrive, in arrival
//! order, and the collector is sealed exactly when that count is reached.
//! The loop that awaits the result channel lives outside the library; it
//! adds each received result here and stops when [`SuiteResult::is_complete`]
//! reports the seal.

use crate::test_result::TestResult;
use vstd::prelude::*;

verus! {

/// A suite's name, its expected result count, and the results collected so
/// far.
#[derive(Debug)]
pub struct SuiteResult {
    pub name: String,
    pub test_count: usize,
    pub results: Vec<TestResult>,
}

impl SuiteResult {
    /// The collector never holds more results than expected.
    pub open spec fn wf(&self) -> bool {
        self.results@.len() <= self.test_count
    }

    /// A collector is sealed once it has accumulated at least its expected
    /// count; no further result is accepted then.
    pub open spec fn sealed(&self) -> bool {
        self.results@.len() >= self.test_count
    }

    /// Creates the collector for a suite expected to produce `test_count`
    /// results.
    pub fn new(name: String, test_count: usize) -> (r: SuiteResult)
        ensures
            r.name@ == name@,
            r.test_count == test_count,
            r.results@.len() == 0,
            r.wf(),
    {
        SuiteResult { name, test_count, results: Vec::new() }
    }

    /// The suite's name.
    pub fn name(&self) -> (r: &str)
        ensures
            r@ == self.name@,
    {
        self.name.as_str()
    }

    /// The results collected so far, in arrival order.
    pub fn results(&self) -> (r: &Vec<TestResult>)
        ensures
            r == self.results,
    {
        &self.results
    }

    /// Appends one received result; only an unsealed collector accepts one.
    pub fn add_result(&mut self, result: TestResult)
        requires
            old(self).wf(),
            !old(self).sealed(),
        ensures
            final(self).results@ == old(self).results@.push(result),
            final(self).name == old(self).name,
            final(self).test_count == old(self).test_count,
            final(self).wf(),
    {
        self.results.push(result);
    }

    /// Whether the collector is sealed: the expected count has been reached.
    pub fn is_complete(&self) -> (r: bool)
        requires
            self.wf(),
        ensures
            r == self.sealed(),
    {
        self.results.len() == self.test_count
    }

    /// Whether any collected result reports a failure.
    pub fn has_any_test_failed(&self) -> (r: bool)
        ensures
            r == exists|i: int|
                0 <= i < self.results@.len() && (#[trigger] self.results@[i]).result is Err,
    {
        let n = self.results.len();
        let mut i: usize = 0;
        while i < n
            invariant
                n == self.results@.len(),
                i <= n,
                forall|j: int| 0 <= j < i ==> !((#[trigger] self.results@[j]).result is Err),
            decreases n - i,
        {
            if self.results[i].result.is_err() {
                return true;
            }
            i = i + 1;
        }
        false
    }
}

/// A sealed collector holds exactly the expected number of results: it
/// never overshoots, and it does not seal before the count is reached.
pub proof fn lemma_sealed_suite_result_count(suite_result: SuiteResult)
    requires
        suite_result.wf(),
        suite_result.sealed(),
    ensures
        suite_result.results@.len() == suite_result.test_count,
{
}

} // verus!
