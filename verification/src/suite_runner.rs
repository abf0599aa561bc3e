//! The suite runner's scheduling policy over test type and run mode.
//!
//! A suite run declares its two queues, schedules one run instance per
//! expected result, and collects the results. The scheduling is decided
//! here: how many passes over the test list, in which order the instances
//! go out, and how each one is dispatched. The caller walks the schedule,
//! runs each instance (see [`crate::run_instance`]), and feeds the results
//! to the suite's collector.

use crate::error::{Error, ErrorKind};
use crate::suite::{spec_expected_count, RunMode, TestType};
use vstd::prelude::*;

verus! {

broadcast use vstd::std_specs::vec::group_vec_axioms, vstd::seq::group_seq_axioms;

/// How one scheduled instance is dispatched.
#[derive(Debug, Clone, Copy, PartialEq, Eq, Structural)]
pub enum Dispatch {
    /// Run and await the instance before the next one starts.
    Inline,
    /// Spawn the instance as a task of its own and do not await it.
    Detached,
    /// Push the instance into the pending set; the whole set is awaited
    /// after the last pass, before the suite seals.
    Gathered,
}

/// One scheduled run instance: which pass it belongs to, which test it
/// runs, and how it is dispatched.
#[derive(Debug, Clone, Copy, PartialEq, Eq, Structural)]
pub struct RunSpec {
    pub pass: usize,
    pub test_index: usize,
    pub dispatch: Dispatch,
}

/// How instances of a suite with the given type and mode are dispatched:
/// sequential suites run them inline; a parallel assert suite detaches
/// them; a parallel stress suite gathers them so that no instance outlives
/// the suite.
pub open spec fn spec_dispatch(test_type: TestType, run_mode: RunMode) -> Dispatch {
    match run_mode {
        RunMode::Sequential => Dispatch::Inline,
        RunMode::Parallel => match test_type {
            TestType::Assert => Dispatch::Detached,
            TestType::Stress { .. } => Dispatch::Gathered,
        },
    }
}

/// How many passes over the test list the suite makes.
pub open spec fn spec_passes(test_type: TestType) -> nat {
    match test_type {
        TestType::Assert => 1,
        TestType::Stress { times } => times as nat,
    }
}

/// Executes test suites according to their run mode and test type. The
/// broker plumbing lives with the caller; this holds the scheduling state.
pub struct SuiteRunner {
    /// Set while a stress suite runs: parallel instances are then gathered
    /// and awaited instead of detached.
    pub stress_mode: bool,
}

impl SuiteRunner {
    /// A fresh runner, not in stress mode.
    pub fn new() -> (r: SuiteRunner)
        ensures
            !r.stress_mode,
    {
        SuiteRunner { stress_mode: false }
    }

    /// Whether the runner is in stress mode.
    pub fn stress_mode(&self) -> (r: bool)
        ensures
            r == self.stress_mode,
    {
        self.stress_mode
    }

    /// The full schedule of a suite: one entry per expected result. The
    /// passes go out in order; within each pass the tests go out in file
    /// order; every entry carries the dispatch of the suite's mode. A
    /// stress suite puts the runner into stress mode.
    pub fn build_schedule(&mut self, test_type: TestType, run_mode: RunMode, n_tests: usize) -> (r:
        Vec<RunSpec>)
        requires
            spec_expected_count(test_type, n_tests as nat) <= usize::MAX,
        ensures
            r@.len() == spec_expected_count(test_type, n_tests as nat),
            forall|k: int| 0 <= k < r@.len() ==> (#[trigger] r@[k]).pass == k / (n_tests as int)
                && r@[k].test_index == k % (n_tests as int) && r@[k].dispatch == spec_dispatch(
                test_type,
                run_mode,
            ),
            final(self).stress_mode == (test_type is Stress),
    {
        self.stress_mode = test_type matches TestType::Stress { .. };
        let dispatch = match run_mode {
            RunMode::Sequential => Dispatch::Inline,
            RunMode::Parallel => match test_type {
                TestType::Assert => Dispatch::Detached,
                TestType::Stress { .. } => Dispatch::Gathered,
            },
        };
        let total: usize = match test_type {
            TestType::Assert => n_tests,
            TestType::Stress { times } => n_tests * times,
        };
        let mut schedule: Vec<RunSpec> = Vec::new();
        if total == 0 {
            return schedule;
        }
        proof {
            assert(n_tests > 0) by {
                if n_tests == 0 {
                    assert(spec_expected_count(test_type, 0) == 0) by {
                        match test_type {
                            TestType::Assert => {}
                            TestType::Stress { times } => {
                                assert(0nat * (times as nat) == 0) by (nonlinear_arith);
                            }
                        }
                    }
                }
            }
        }
        let mut k: usize = 0;
        while k < total
            invariant
                0 < n_tests,
                total == spec_expected_count(test_type, n_tests as nat),
                k <= total,
                schedule@.len() == k,
                forall|j: int| 0 <= j < k ==> (#[trigger] schedule@[j]).pass == j / (
                n_tests as int) && schedule@[j].test_index == j % (n_tests as int)
                    && schedule@[j].dispatch == dispatch,
                dispatch == spec_dispatch(test_type, run_mode),
            decreases total - k,
        {
            let pass = k / n_tests;
            let test_index = k % n_tests;
            schedule.push(RunSpec { pass, test_index, dispatch });
            k = k + 1;
        }
        schedule
    }

    /// The error for a request queue the broker refused to declare.
    pub fn request_queue_declare_failure(detail: &str) -> (r: Error)
        ensures
            r.kind == ErrorKind::InternalFailure,
            r.message@ == "failed to declare request queue: "@ + detail@,
    {
        Error::with_detail(
            ErrorKind::InternalFailure,
            "failed to declare request queue: ",
            detail,
        )
    }

    /// The error for a reply queue the broker refused to declare.
    pub fn reply_queue_declare_failure(detail: &str) -> (r: Error)
        ensures
            r.kind == ErrorKind::InternalFailure,
            r.message@ == "failed to declare response queue: "@ + detail@,
    {
        Error::with_detail(
            ErrorKind::InternalFailure,
            "failed to declare response queue: ",
            detail,
        )
    }

    /// The error for a sink that refused the sealed suite result.
    pub fn send_suite_result_failure(detail: &str) -> (r: Error)
        ensures
            r.kind == ErrorKind::InternalFailure,
            r.message@ == "failed to send test suite result: "@ + detail@,
    {
        Error::with_detail(
            ErrorKind::InternalFailure,
            "failed to send test suite result: ",
            detail,
        )
    }
}

/// A stress suite's schedule holds exactly `times` passes over the test
/// list: `times × n_tests` scheduled instances in all, each of which emits
/// exactly one result once it reaches its matched reply.
pub proof fn lemma_stress_schedule_size(times: usize, n_tests: usize)
    ensures
        spec_expected_count(TestType::Stress { times }, n_tests as nat) == (times as nat) * (
        n_tests as nat),
{
    assert((n_tests as nat) * (times as nat) == (times as nat) * (n_tests as nat))
        by (nonlinear_arith);
}

} // verus!
