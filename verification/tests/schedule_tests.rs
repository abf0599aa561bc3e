use amqp_harness::json::JsonValue;
use amqp_harness::suite::{RunMode, Suite, Test, TestType};
use amqp_harness::suite_runner::{Dispatch, SuiteRunner};

fn plain_suite(test_type: TestType, run_mode: RunMode, test_names: &[&str]) -> Suite {
    let queue = |name: &str| amqp_harness::config::AmqpQueue {
        name: name.to_string(),
        declare_options: amqp_harness::config::QueueDeclareOptions {
            passive: false,
            durable: false,
            exclusive: false,
            auto_delete: false,
            nowait: false,
        },
        declare_arguments: amqp_harness::config::FieldTable { entries: Vec::new() },
    };
    let amqp = |name: &str| amqp_harness::config::Amqp {
        queue: queue(name),
        publish_options: None,
        publish_arguments: None,
        consume_options: None,
        consume_arguments: None,
    };
    Suite {
        name: "s".to_string(),
        test_type,
        run_mode,
        tests: test_names
            .iter()
            .map(|name| Test {
                name: name.to_string(),
                request: JsonValue::Obj(vec![("header".to_string(), JsonValue::Obj(Vec::new()))]),
                assert_script: "a.py".to_string(),
            })
            .collect(),
        request_amqp_configuration: amqp("req"),
        reply_amqp_configuration: amqp("rep"),
        shared_tests: Vec::new(),
    }
}

#[test]
fn stress_schedule_walks_passes_in_file_order() {
    let mut runner = SuiteRunner::new();
    let schedule = runner.build_schedule(TestType::Stress { times: 2 }, RunMode::Sequential, 3);
    assert_eq!(schedule.len(), 6);
    let expected: Vec<(usize, usize)> =
        vec![(0, 0), (0, 1), (0, 2), (1, 0), (1, 1), (1, 2)];
    for (spec, (pass, test_index)) in schedule.iter().zip(expected) {
        assert_eq!(spec.pass, pass);
        assert_eq!(spec.test_index, test_index);
        assert_eq!(spec.dispatch, Dispatch::Inline);
    }
}

#[test]
fn parallel_assert_detaches_and_parallel_stress_gathers() {
    let mut runner = SuiteRunner::new();
    let detached = runner.build_schedule(TestType::Assert, RunMode::Parallel, 2);
    assert!(detached.iter().all(|s| s.dispatch == Dispatch::Detached));
    assert!(!runner.stress_mode());

    let gathered = runner.build_schedule(TestType::Stress { times: 2 }, RunMode::Parallel, 2);
    assert!(gathered.iter().all(|s| s.dispatch == Dispatch::Gathered));
    assert!(runner.stress_mode());
}

#[test]
fn expected_count_multiplies_under_stress() {
    let suite = plain_suite(TestType::Stress { times: 4 }, RunMode::Sequential, &["a", "b"]);
    assert_eq!(suite.test_count(), 8);
    let plain = plain_suite(TestType::Assert, RunMode::Sequential, &["a", "b"]);
    assert_eq!(plain.test_count(), 2);
}

#[test]
fn shared_tests_are_memoised() {
    let mut suite = plain_suite(TestType::Assert, RunMode::Parallel, &["a", "b"]);
    let first: Vec<String> =
        suite.shared_tests().iter().map(|t| t.name().to_string()).collect();
    assert_eq!(first, vec!["a".to_string(), "b".to_string()]);
    let first_ptr = std::sync::Arc::as_ptr(&suite.shared_tests()[0]);
    let again_ptr = std::sync::Arc::as_ptr(&suite.shared_tests()[0]);
    assert_eq!(first_ptr, again_ptr);
}

#[test]
fn token_injection_over_a_suite() {
    let mut suite = plain_suite(TestType::Assert, RunMode::Sequential, &["a", "b"]);
    suite.inject_token_into_tests("tok").expect("headers accept the token");
    for test in &suite.tests {
        assert_eq!(
            amqp_harness::json_text::json_to_string(test.request()),
            "{\"header\":{\"token\":\"tok\"}}"
        );
    }

    let mut bad = plain_suite(TestType::Assert, RunMode::Sequential, &["a"]);
    bad.tests[0].request = JsonValue::Obj(Vec::new());
    let error = bad.inject_token_into_tests("tok").expect_err("no header");
    assert_eq!(error.message(), "failed to get header");
}
