//! Suites and tests: the declarative units the harness executes.

use crate::config::Amqp;
use crate::error::Error;
use crate::json::{self, JsonValue, JsonView};
use std::sync::Arc;
use vstd::prelude::*;

verus! {

broadcast use vstd::std_specs::vec::group_vec_axioms, vstd::seq::group_seq_axioms;

/// How a suite's result count relates to its test list: an `Assert` suite
/// runs each test once, a `Stress` suite runs the whole list `times` times.
#[derive(Debug, Clone, Copy, PartialEq, Eq, Structural)]
pub enum TestType {
    Assert,
    Stress { times: usize },
}

/// Whether the tests of a pass run one at a time or as concurrent tasks.
#[derive(Debug, Clone, Copy, PartialEq, Eq, Structural)]
pub enum RunMode {
    /// Each test is run and awaited before the next starts.
    Sequential,
    /// Each test runs as a task of its own.
    Parallel,
}

/// The model of a test.
pub struct TestView {
    pub name: Seq<char>,
    pub request: JsonView,
    pub assert_script: Seq<char>,
}

/// One request/reply probe: a name, the JSON request to publish, and the
/// assertion script that judges the reply.
#[derive(Debug)]
pub struct Test {
    pub name: String,
    pub request: JsonValue,
    pub assert_script: String,
}

impl View for Test {
    type V = TestView;

    open spec fn view(&self) -> TestView {
        TestView {
            name: self.name@,
            request: self.request@,
            assert_script: self.assert_script@,
        }
    }
}

impl Clone for Test {
    /// A deep copy with the same model.
    fn clone(&self) -> (res: Self)
        ensures
            res@ == self@,
    {
        Test {
            name: self.name.clone(),
            request: self.request.clone(),
            assert_script: self.assert_script.clone(),
        }
    }
}

impl Test {
    /// The test's name; it doubles as the id of its results.
    pub fn name(&self) -> (r: &str)
        ensures
            r@ == self@.name,
    {
        self.name.as_str()
    }

    /// The JSON request this test publishes.
    pub fn request(&self) -> (r: &JsonValue)
        ensures
            r@ == self@.request,
    {
        &self.request
    }

    /// The file name of the assertion script, relative to the suite's
    /// script directory.
    pub fn assert_script(&self) -> (r: &str)
        ensures
            r@ == self@.assert_script,
    {
        self.assert_script.as_str()
    }

    /// Injects the bearer token into this test's request header; see
    /// [`json::inject_token`].
    pub fn inject_token(&mut self, token: &str) -> (r: Result<(), Error>)
        ensures
            r is Ok <==> json::inject_token_ready(old(self)@.request),
            r is Ok ==> final(self)@.request == json::token_injected(old(self)@.request, token@),
            r is Err ==> final(self)@.request == old(self)@.request,
            final(self).name == old(self).name,
            final(self).assert_script == old(self).assert_script,
            r is Err ==> r->Err_0.kind == crate::error::ErrorKind::InternalFailure,
    {
        json::inject_token(&mut self.request, token)
    }
}

/// The models of a sequence of tests, element by element.
pub open spec fn test_views(s: Seq<Test>) -> Seq<TestView>
    decreases s.len(),
{
    if s.len() == 0 {
        Seq::empty()
    } else {
        seq![s[0]@] + test_views(s.drop_first())
    }
}

/// `test_views` maps the model element by element.
pub proof fn lemma_test_views(s: Seq<Test>)
    ensures
        test_views(s).len() == s.len(),
        forall|i: int| 0 <= i < s.len() ==> test_views(s)[i] == s[i]@,
    decreases s.len(),
{
    if s.len() > 0 {
        lemma_test_views(s.drop_first());
    }
}

/// Whether every test of the list accepts token injection.
pub open spec fn inject_all_ready(ts: Seq<TestView>) -> bool {
    forall|i: int| 0 <= i < ts.len() ==> json::inject_token_ready((#[trigger] ts[i]).request)
}

/// The test list after token injection into every request.
pub open spec fn injected_tests(ts: Seq<TestView>, token: Seq<char>) -> Seq<TestView> {
    Seq::new(
        ts.len(),
        |i: int|
            TestView {
                name: ts[i].name,
                request: json::token_injected(ts[i].request, token),
                assert_script: ts[i].assert_script,
            },
    )
}

/// The number of results a suite of the given type and test-list length
/// produces.
pub open spec fn spec_expected_count(test_type: TestType, n_tests: nat) -> nat {
    match test_type {
        TestType::Assert => n_tests,
        TestType::Stress { times } => n_tests * (times as nat),
    }
}

/// The model of a suite; the memoised shared-handle list is a cache and
/// not part of it.
pub struct SuiteView {
    pub name: Seq<char>,
    pub test_type: TestType,
    pub run_mode: RunMode,
    pub tests: Seq<TestView>,
    pub request_amqp_configuration: crate::config::AmqpView,
    pub reply_amqp_configuration: crate::config::AmqpView,
}

/// A named set of tests with shared broker configuration and execution
/// policy, as one suite file describes it.
#[derive(Debug)]
pub struct Suite {
    pub name: String,
    pub test_type: TestType,
    pub run_mode: RunMode,
    pub tests: Vec<Test>,
    pub request_amqp_configuration: Amqp,
    pub reply_amqp_configuration: Amqp,
    /// Shared handles to the tests, memoised on first use so concurrent run
    /// instances read the same test without copying it.
    pub shared_tests: Vec<Arc<Test>>,
}

impl View for Suite {
    type V = SuiteView;

    open spec fn view(&self) -> SuiteView {
        SuiteView {
            name: self.name@,
            test_type: self.test_type,
            run_mode: self.run_mode,
            tests: test_views(self.tests@),
            request_amqp_configuration: self.request_amqp_configuration@,
            reply_amqp_configuration: self.reply_amqp_configuration@,
        }
    }
}

impl Suite {
    /// A suite is well formed when a stress count is at least one and the
    /// expected result count fits the machine.
    pub open spec fn wf(&self) -> bool {
        &&& (self.test_type matches TestType::Stress { times } ==> times >= 1)
        &&& spec_expected_count(self.test_type, self.tests@.len()) <= usize::MAX
    }

    /// The suite's name.
    pub fn name(&self) -> (r: &str)
        ensures
            r@ == self.name@,
    {
        self.name.as_str()
    }

    /// The suite's test type.
    pub fn test_type(&self) -> (r: TestType)
        ensures
            r == self.test_type,
    {
        self.test_type
    }

    /// The suite's run mode.
    pub fn run_mode(&self) -> (r: &RunMode)
        ensures
            r == self.run_mode,
    {
        &self.run_mode
    }

    /// The number of test results this suite is expected to produce: its
    /// test count, multiplied by the stress count for a stress suite.
    pub fn test_count(&self) -> (r: usize)
        requires
            spec_expected_count(self.test_type, self.tests@.len()) <= usize::MAX,
        ensures
            r == spec_expected_count(self.test_type, self.tests@.len()),
    {
        match self.test_type {
            TestType::Assert => self.tests.len(),
            TestType::Stress { times } => self.tests.len() * times,
        }
    }

    /// The tests, open for mutation; token injection runs through this
    /// before any instance is scheduled.
    pub fn mut_tests(&mut self) -> (r: &mut Vec<Test>)
        ensures
            *r == old(self).tests,
            final(self).tests == *final(r),
            final(self).name == old(self).name,
            final(self).test_type == old(self).test_type,
            final(self).run_mode == old(self).run_mode,
            final(self).request_amqp_configuration == old(self).request_amqp_configuration,
            final(self).reply_amqp_configuration == old(self).reply_amqp_configuration,
            final(self).shared_tests == old(self).shared_tests,
    {
        &mut self.tests
    }

    /// Shared handles to the tests, built once: on the first call the list
    /// is filled with one handle per test, in order; later calls return the
    /// memoised list unchanged.
    pub fn shared_tests(&mut self) -> (r: &Vec<Arc<Test>>)
        ensures
            *r == final(self).shared_tests,
            final(self).name == old(self).name,
            final(self).test_type == old(self).test_type,
            final(self).run_mode == old(self).run_mode,
            final(self).tests == old(self).tests,
            final(self).request_amqp_configuration == old(self).request_amqp_configuration,
            final(self).reply_amqp_configuration == old(self).reply_amqp_configuration,
            old(self).shared_tests@.len() > 0 ==> final(self).shared_tests
                == old(self).shared_tests,
            old(self).shared_tests@.len() == 0 ==> {
                &&& final(self).shared_tests@.len() == old(self).tests@.len()
                &&& forall|i: int| 0 <= i < old(self).tests@.len()
                    ==> (#[trigger] final(self).shared_tests@[i])@ == old(self).tests@[i]@
            },
    {
        if self.shared_tests.len() == 0 {
            let n = self.tests.len();
            let mut i: usize = 0;
            while i < n
                invariant
                    n == self.tests@.len(),
                    i <= n,
                    self.shared_tests@.len() == i,
                    forall|j: int|
                        0 <= j < i ==> (#[trigger] self.shared_tests@[j])@ == self.tests@[j]@,
                    self.name == old(self).name,
                    self.test_type == old(self).test_type,
                    self.run_mode == old(self).run_mode,
                    self.tests == old(self).tests,
                    self.request_amqp_configuration == old(self).request_amqp_configuration,
                    self.reply_amqp_configuration == old(self).reply_amqp_configuration,
                decreases n - i,
            {
                let shared_test = Arc::new(self.tests[i].clone());
                self.shared_tests.push(shared_test);
                i = i + 1;
            }
        }
        &self.shared_tests
    }

    /// Injects the bearer token into every test's request header, in
    /// order; the first test that refuses (no object-valued `header`)
    /// fails the whole pass.
    pub fn inject_token_into_tests(&mut self, token: &str) -> (r: Result<(), Error>)
        ensures
            r is Ok <==> inject_all_ready(test_views(old(self).tests@)),
            r is Ok ==> test_views(final(self).tests@) == injected_tests(
                test_views(old(self).tests@),
                token@,
            ),
            final(self).name == old(self).name,
            final(self).test_type == old(self).test_type,
            final(self).run_mode == old(self).run_mode,
            final(self).tests@.len() == old(self).tests@.len(),
            final(self).request_amqp_configuration == old(self).request_amqp_configuration,
            final(self).reply_amqp_configuration == old(self).reply_amqp_configuration,
            final(self).shared_tests == old(self).shared_tests,
            r is Err ==> r->Err_0.kind == crate::error::ErrorKind::InternalFailure,
    {
        proof {
            lemma_test_views(self.tests@);
        }
        let ghost orig = test_views(old(self).tests@);
        let n = self.tests.len();
        let mut i: usize = 0;
        while i < n
            invariant
                n == self.tests@.len(),
                i <= n,
                orig == test_views(old(self).tests@),
                orig.len() == n,
                forall|j: int| i <= j < n ==> self.tests@[j]@ == orig[j],
                forall|j: int| 0 <= j < i ==> json::inject_token_ready(
                    (#[trigger] orig[j]).request,
                ) && self.tests@[j]@ == (TestView {
                    name: orig[j].name,
                    request: json::token_injected(orig[j].request, token@),
                    assert_script: orig[j].assert_script,
                }),
                self.name == old(self).name,
                self.test_type == old(self).test_type,
                self.run_mode == old(self).run_mode,
                self.request_amqp_configuration == old(self).request_amqp_configuration,
                self.reply_amqp_configuration == old(self).reply_amqp_configuration,
                self.shared_tests == old(self).shared_tests,
            decreases n - i,
        {
            let mut test = self.tests.remove(i);
            let outcome = test.inject_token(token);
            self.tests.insert(i, test);
            proof {
                lemma_test_views(self.tests@);
            }
            match outcome {
                Ok(_) => {}
                Err(e) => {
                    proof {
                        lemma_test_views(old(self).tests@);
                        assert(!json::inject_token_ready(orig[i as int].request));
                        assert(!inject_all_ready(orig));
                    }
                    return Err(e);
                }
            }
            i = i + 1;
        }
        proof {
            lemma_test_views(self.tests@);
            lemma_test_views(old(self).tests@);
            assert(test_views(self.tests@) =~= injected_tests(orig, token@));
        }
        Ok(())
    }

    /// The request side's broker configuration.
    pub fn request_amqp_configuration(&self) -> (r: &Amqp)
        ensures
            r == self.request_amqp_configuration,
    {
        &self.request_amqp_configuration
    }

    /// The reply side's broker configuration.
    pub fn reply_amqp_configuration(&self) -> (r: &Amqp)
        ensures
            r == self.reply_amqp_configuration,
    {
        &self.reply_amqp_configuration
    }
}

} // verus!
