//! The line-oriented form of a suite's results.
//!
//! One header line names the suite; each result then becomes one line,
//! `OK   - test '<id>'` on success or `FAIL - test '<id>' : <message>` on
//! failure. Writing the lines to the log is left to the caller.

use crate::suite_result::SuiteResult;
use vstd::prelude::*;
use vstd::string::StringExecFns;

verus! {

broadcast use vstd::std_specs::vec::group_vec_axioms, vstd::seq::group_seq_axioms;

/// The header line of a suite's output.
pub open spec fn header_line(name: Seq<char>) -> Seq<char> {
    "# test suite '"@ + name + "' results #"@
}

/// The line one result contributes.
pub open spec fn result_line(result: crate::test_result::TestResult) -> Seq<char> {
    match result.result {
        Ok(_) => "OK   - test '"@ + result.id@ + "'"@,
        Err(e) => "FAIL - test '"@ + result.id@ + "' : "@ + e.message@,
    }
}

/// Joins three string slices.
fn concat3(a: &str, b: &str, c: &str) -> (r: String)
    ensures
        r@ == a@ + b@ + c@,
{
    let mut out: String = a.to_owned();
    out.append(b);
    out.append(c);
    out
}

/// The output lines of a suite's results: the header line, then one line
/// per collected result, in collection order.
pub fn output(suite_result: &SuiteResult) -> (r: Vec<String>)
    ensures
        r@.len() == 1 + suite_result.results@.len(),
        r@[0]@ == header_line(suite_result.name@),
        forall|i: int| 0 <= i < suite_result.results@.len() ==> (#[trigger] r@[i + 1])@
            == result_line(suite_result.results@[i]),
{
    let mut lines: Vec<String> = Vec::new();
    lines.push(concat3("# test suite '", suite_result.name(), "' results #"));

    let results = suite_result.results();
    let n = results.len();
    let mut i: usize = 0;
    while i < n
        invariant
            n == suite_result.results@.len(),
            results == suite_result.results,
            i <= n,
            lines@.len() == 1 + i,
            lines@[0]@ == header_line(suite_result.name@),
            forall|j: int| 0 <= j < i ==> (#[trigger] lines@[j + 1])@
                == result_line(suite_result.results@[j]),
        decreases n - i,
    {
        let result = &results[i];
        let line = match result.result() {
            Ok(_) => concat3("OK   - test '", result.id(), "'"),
            Err(e) => {
                let mut l = concat3("FAIL - test '", result.id(), "' : ");
                l.append(e.message());
                l
            }
        };
        lines.push(line);
        i = i + 1;
    }
    lines
}

} // verus!
