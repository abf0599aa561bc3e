use amqp_harness::amqp_connection_manager::{
    AmqpConnectionManager, AmqpConnectionManagerConfig, ChannelStep,
};
use amqp_harness::assert_script_runner::AssertScriptRunner;
use amqp_harness::config::{
    try_get_from_request_and_reply_amqp, Amqp, AmqpQueue, BasicConsumeOptions,
    BasicPublishOptions, FieldTable, QueueDeclareOptions,
};
use amqp_harness::error::ErrorKind;
use amqp_harness::json::JsonValue;
use amqp_harness::run_instance::{DeliveryDisposition, RunInstance};
use amqp_harness::suite::{RunMode, Test, TestType};
use amqp_harness::suite_result::SuiteResult;
use amqp_harness::suite_result_output::output;
use amqp_harness::suite_runner::{Dispatch, SuiteRunner};
use std::sync::Arc;

fn request_with_header() -> JsonValue {
    JsonValue::Obj(vec![(
        "header".to_string(),
        JsonValue::Obj(vec![("token".to_string(), JsonValue::Str("tok".to_string()))]),
    )])
}

fn plain_test(name: &str) -> Test {
    Test {
        name: name.to_string(),
        request: request_with_header(),
        assert_script: "check.py".to_string(),
    }
}

fn default_amqp_instance() -> amqp_harness::config::AmqpInstanceConfig {
    amqp_harness::config::AmqpInstanceConfig::new(
        BasicPublishOptions { mandatory: false, immediate: false },
        FieldTable { entries: Vec::new() },
        BasicConsumeOptions { no_local: false, no_ack: false, exclusive: false, nowait: false },
        FieldTable { entries: Vec::new() },
    )
}

/// Runs one instance to completion against a stub broker that echoes the
/// correlation id, returning its single result.
fn run_to_completion(test: Test, outcome: Result<(), amqp_harness::error::Error>) ->
    amqp_harness::test_result::TestResult
{
    let mut instance = RunInstance::new(
        Arc::new(test),
        "req-q".to_string(),
        "rep-q".to_string(),
        default_amqp_instance(),
    );
    let correlation_id = instance.correlation_id().to_string();
    instance.note_published();
    let disposition = instance.on_delivery(Some(correlation_id.as_str()));
    assert_eq!(disposition, DeliveryDisposition::AckAndAssert);
    instance.make_result(outcome)
}

#[test]
fn happy_sequential_suite() {
    let mut runner = SuiteRunner::new();
    let schedule = runner.build_schedule(TestType::Assert, RunMode::Sequential, 2);
    assert_eq!(schedule.len(), 2);
    assert!(schedule.iter().all(|s| s.dispatch == Dispatch::Inline));
    assert_eq!(schedule[0].test_index, 0);
    assert_eq!(schedule[1].test_index, 1);
    assert!(!runner.stress_mode());

    let mut collector = SuiteResult::new("ping".to_string(), 2);
    let names = ["t1", "t2"];
    for spec in &schedule {
        assert!(!collector.is_complete());
        let result = run_to_completion(plain_test(names[spec.test_index]), Ok(()));
        collector.add_result(result);
    }
    assert!(collector.is_complete());
    assert!(!collector.has_any_test_failed());

    let lines = output(&collector);
    assert_eq!(lines.len(), 3);
    assert_eq!(lines[0], "# test suite 'ping' results #");
    assert_eq!(lines[1], "OK   - test 't1'");
    assert_eq!(lines[2], "OK   - test 't2'");
}

#[test]
fn stress_parallel_three_times() {
    let mut runner = SuiteRunner::new();
    let schedule = runner.build_schedule(TestType::Stress { times: 3 }, RunMode::Parallel, 1);
    assert_eq!(schedule.len(), 3);
    assert!(runner.stress_mode());
    for (pass, spec) in schedule.iter().enumerate() {
        assert_eq!(spec.pass, pass);
        assert_eq!(spec.test_index, 0);
        assert_eq!(spec.dispatch, Dispatch::Gathered);
    }

    let mut collector = SuiteResult::new("load".to_string(), 3);
    for _ in &schedule {
        let result = run_to_completion(plain_test("tA"), Ok(()));
        collector.add_result(result);
    }
    assert!(collector.is_complete());
    assert_eq!(collector.results().len(), 3);
    assert!(collector.results().iter().all(|r| r.id() == "tA"));
    assert!(!collector.has_any_test_failed());
}

#[test]
fn assertion_failure_is_reported() {
    let runner = AssertScriptRunner::try_new("suite".to_string(), Ok("python3".to_string()))
        .expect("interpreter configured");
    let path = runner.script_path("check.py");
    assert_eq!(path, "./integration_tests/suite/check.py");

    let outcome = runner.interpret_exit_status(path.as_str(), false, "exit status: 2");
    let error = outcome.expect_err("non-zero exit fails the test");
    assert_eq!(error.kind(), ErrorKind::TestAssertFailure);
    assert_eq!(
        error.message(),
        "assertion script './integration_tests/suite/check.py' failed: 'exit status: 2'"
    );

    let result = run_to_completion(plain_test("id"), Err(error));
    let mut collector = SuiteResult::new("suite".to_string(), 1);
    collector.add_result(result);
    assert!(collector.has_any_test_failed());

    let lines = output(&collector);
    assert_eq!(lines.len(), 2);
    assert_eq!(
        lines[1],
        "FAIL - test 'id' : assertion script './integration_tests/suite/check.py' failed: \
         'exit status: 2'"
    );
}

#[test]
fn channel_limit_triggers_pool_growth() {
    let config = AmqpConnectionManagerConfig::new("amqp://localhost".to_string());
    let mut manager = AmqpConnectionManager::new(config);
    assert_eq!(manager.connection_count(), 0);
    assert_eq!(manager.channel_request_start(), ChannelStep::OpenNewConnection);
    let first = manager.note_new_connection();
    assert_eq!(manager.connection_count(), 1);

    // First request: the existing connection still has room.
    assert_eq!(manager.channel_request_start(), ChannelStep::TryConnection(0));

    // Second request: the connection reports its channel limit, so the
    // pool grows by one appended connection.
    assert_eq!(manager.channel_request_start(), ChannelStep::TryConnection(0));
    let step = manager
        .channel_request_failed(0, true, "channels limit reached")
        .expect("limit means walk on");
    assert_eq!(step, ChannelStep::OpenNewConnection);
    let second = manager.note_new_connection();
    assert_eq!(manager.connection_count(), 2);
    assert_eq!(manager.connection_id_at(0), first);
    assert_eq!(manager.connection_id_at(1), second);
    assert_ne!(first, second);
}

#[test]
fn non_limit_channel_failure_is_terminal() {
    let config = AmqpConnectionManagerConfig::new("amqp://localhost".to_string());
    let mut manager = AmqpConnectionManager::new(config);
    manager.note_new_connection();
    let error = manager
        .channel_request_failed(0, false, "connection refused")
        .expect_err("anything but the channel limit ends the request");
    assert_eq!(error.kind(), ErrorKind::ApiConnectionFailure);
    assert_eq!(error.message(), "failed to create channel: connection refused");

    let error = AmqpConnectionManager::connect_failure("no broker");
    assert_eq!(error.kind(), ErrorKind::ApiConnectionFailure);
    assert_eq!(error.message(), "API connection failure: no broker");

    let error = AmqpConnectionManager::lock_failure("would block");
    assert_eq!(error.kind(), ErrorKind::InternalFailure);
    assert_eq!(error.message(), "failed to lock connections: would block");
}

#[test]
fn mismatched_correlation_is_acked_and_skipped() {
    let mut instance = RunInstance::new(
        Arc::new(plain_test("t")),
        "req-q".to_string(),
        "rep-q".to_string(),
        default_amqp_instance(),
    );
    let correlation_id = instance.correlation_id().to_string();
    instance.note_published();

    let first = instance.on_delivery(Some("00000000-0000-4000-8000-000000000000"));
    assert_eq!(first, DeliveryDisposition::AckAndSkip);
    let absent = instance.on_delivery(None);
    assert_eq!(absent, DeliveryDisposition::AckAndSkip);

    let matched = instance.on_delivery(Some(correlation_id.as_str()));
    assert_eq!(matched, DeliveryDisposition::AckAndAssert);
    let result = instance.make_result(Ok(()));
    assert_eq!(result.id(), "t");
    assert!(result.result().is_ok());
}

#[test]
fn missing_publish_arguments_fails_before_any_publish() {
    let queue = |name: &str| AmqpQueue {
        name: name.to_string(),
        declare_options: QueueDeclareOptions {
            passive: false,
            durable: false,
            exclusive: false,
            auto_delete: false,
            nowait: false,
        },
        declare_arguments: FieldTable { entries: Vec::new() },
    };
    let request_amqp = Amqp {
        queue: queue("req-q"),
        publish_options: Some(BasicPublishOptions { mandatory: false, immediate: false }),
        publish_arguments: None,
        consume_options: None,
        consume_arguments: None,
    };
    let reply_amqp = Amqp {
        queue: queue("rep-q"),
        publish_options: None,
        publish_arguments: None,
        consume_options: Some(BasicConsumeOptions {
            no_local: false,
            no_ack: false,
            exclusive: false,
            nowait: false,
        }),
        consume_arguments: Some(FieldTable { entries: Vec::new() }),
    };
    let error = try_get_from_request_and_reply_amqp(&request_amqp, &reply_amqp)
        .expect_err("publish arguments are required at run time");
    assert_eq!(error.kind(), ErrorKind::InternalFailure);
    assert_eq!(error.message(), "request amqp does not contain publish arguments");
}
