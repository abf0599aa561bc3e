//! The outcome of one scheduled test execution.

use crate::error::Error;
use vstd::prelude::*;

verus! {

/// One test's outcome: the test's name as id, and either success or the
/// error that failed it.
#[derive(Debug)]
pub struct TestResult {
    pub id: String,
    pub result: Result<(), Error>,
}

impl TestResult {
    /// Builds the result of one test execution.
    pub fn new(id: String, result: Result<(), Error>) -> (r: TestResult)
        ensures
            r.id@ == id@,
            r.result == result,
    {
        TestResult { id, result }
    }

    /// The name of the test this result belongs to.
    pub fn id(&self) -> (r: &str)
        ensures
            r@ == self.id@,
    {
        self.id.as_str()
    }

    /// The outcome: success, or the error that failed the test.
    pub fn result(&self) -> (r: &Result<(), Error>)
        ensures
            r == self.result,
    {
        &self.result
    }
}

} // verus!
