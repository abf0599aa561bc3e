use amqp_harness::assert_script_runner::AssertScriptRunner;
use amqp_harness::error::{Error, ErrorKind};
use amqp_harness::json::JsonValue;
use amqp_harness::orchestrator::parse_arguments;
use amqp_harness::run_instance::RunInstance;
use amqp_harness::suite::{RunMode, TestType};
use amqp_harness::suite_reader::{parse_usize_text, read, suite_from_json};
use amqp_harness::suite_result::SuiteResult;
use amqp_harness::suite_result_output::output;
use amqp_harness::suite_runner::SuiteRunner;
use amqp_harness::test_result::TestResult;
use amqp_harness::token_retriever::token_from_response;
use std::sync::Arc;

fn obj(members: Vec<(&str, JsonValue)>) -> JsonValue {
    JsonValue::Obj(members.into_iter().map(|(k, v)| (k.to_string(), v)).collect())
}

fn s(text: &str) -> JsonValue {
    JsonValue::Str(text.to_string())
}

fn amqp_doc(queue_name: &str, with_publish_arguments: bool) -> JsonValue {
    let mut members = vec![(
        "queue",
        obj(vec![
            ("name", s(queue_name)),
            ("declare_options", obj(vec![("durable", JsonValue::Bool(true))])),
            ("declare_arguments", obj(Vec::new())),
        ]),
    )];
    members.push(("publish_options", obj(Vec::new())));
    if with_publish_arguments {
        members.push(("publish_arguments", obj(Vec::new())));
    }
    members.push(("consume_options", obj(vec![("no_ack", JsonValue::Bool(false))])));
    members.push(("consume_arguments", obj(Vec::new())));
    obj(members)
}

fn suite_doc() -> JsonValue {
    obj(vec![
        ("name", s("ping")),
        ("test_type", obj(vec![("Stress", obj(vec![("times", JsonValue::Num("3".to_string()))]))])),
        ("run_mode", s("Parallel")),
        (
            "tests",
            JsonValue::Arr(vec![obj(vec![
                ("name", s("t1")),
                ("request", obj(vec![("header", obj(Vec::new()))])),
                ("assert_script", s("check.py")),
            ])]),
        ),
        ("request_amqp_configuration", amqp_doc("req-q", true)),
        ("reply_amqp_configuration", amqp_doc("rep-q", true)),
    ])
}

#[test]
fn loads_a_full_suite() {
    let suite = suite_from_json(&suite_doc()).expect("well-formed suite file");
    assert_eq!(suite.name(), "ping");
    assert_eq!(suite.test_type(), TestType::Stress { times: 3 });
    assert!(matches!(suite.run_mode(), RunMode::Parallel));
    assert_eq!(suite.tests.len(), 1);
    assert_eq!(suite.tests[0].name(), "t1");
    assert_eq!(suite.tests[0].assert_script(), "check.py");
    assert_eq!(suite.test_count(), 3);
    assert_eq!(suite.request_amqp_configuration().queue().name(), "req-q");
    assert!(suite.request_amqp_configuration().queue().declare_options().durable);
    assert!(!suite.request_amqp_configuration().queue().declare_options().passive);
    assert_eq!(suite.reply_amqp_configuration().queue().name(), "rep-q");
}

#[test]
fn loader_accepts_missing_publish_arguments() {
    let mut doc = suite_doc();
    if let JsonValue::Obj(members) = &mut doc {
        for member in members.iter_mut() {
            if member.0 == "request_amqp_configuration" {
                member.1 = amqp_doc("req-q", false);
            }
        }
    }
    let suite = suite_from_json(&doc).expect("loader does not require publish arguments");
    assert!(suite.request_amqp_configuration().publish_arguments().is_none());
    let error = amqp_harness::config::try_get_from_request_and_reply_amqp(
        suite.request_amqp_configuration(),
        suite.reply_amqp_configuration(),
    )
    .expect_err("execution requires publish arguments");
    assert_eq!(error.message(), "request amqp does not contain publish arguments");
}

#[test]
fn loader_rejects_bad_documents() {
    let error = suite_from_json(&JsonValue::Null).expect_err("not an object");
    assert_eq!(error.kind(), ErrorKind::InternalFailure);
    assert!(error.message().starts_with("failed to deserialize test: "));

    let error = suite_from_json(&obj(vec![("name", s("x"))])).expect_err("missing fields");
    assert!(error.message().starts_with("failed to deserialize test: "));

    let mut doc = suite_doc();
    if let JsonValue::Obj(members) = &mut doc {
        for member in members.iter_mut() {
            if member.0 == "test_type" {
                member.1 = obj(vec![(
                    "Stress",
                    obj(vec![("times", JsonValue::Num("0".to_string()))]),
                )]);
            }
        }
    }
    let error = suite_from_json(&doc).expect_err("a stress count below one is refused");
    assert!(error.message().starts_with("failed to deserialize test: "));
}

#[test]
fn read_injects_the_token() {
    let documents = vec![suite_doc()];
    let suites = read(&documents, "tok").expect("suite loads");
    assert_eq!(suites.len(), 1);
    let request = amqp_harness::json_text::json_to_string(suites[0].tests[0].request());
    assert_eq!(request, "{\"header\":{\"token\":\"tok\"}}");
}

#[test]
fn parses_decimal_counts() {
    assert_eq!(parse_usize_text("3"), Some(3));
    assert_eq!(parse_usize_text("120"), Some(120));
    assert_eq!(parse_usize_text(""), None);
    assert_eq!(parse_usize_text("12a"), None);
    assert_eq!(parse_usize_text("-3"), None);
    assert_eq!(parse_usize_text("99999999999999999999999999999999"), None);
}

#[test]
fn token_response_cases() {
    let token = token_from_response(&obj(vec![("access_token", s("abc"))]))
        .expect("token present");
    assert_eq!(token, "abc");

    let error = token_from_response(&obj(Vec::new())).expect_err("member missing");
    assert_eq!(error.kind(), ErrorKind::InternalFailure);
    assert_eq!(error.message(), "failed to get token from response");

    let error = token_from_response(&obj(vec![("access_token", JsonValue::Null)]))
        .expect_err("member not a string");
    assert_eq!(error.message(), "failed to deserialize token as string");

    let error = token_from_response(&JsonValue::Arr(Vec::new())).expect_err("not an object");
    assert_eq!(error.message(), "failed to deserialize token response: not a JSON object");
}

#[test]
fn argument_parsing() {
    let arguments = vec![
        "tester".to_string(),
        "http://token".to_string(),
        "{}".to_string(),
        "a.json:b.json".to_string(),
    ];
    let parsed = parse_arguments(&arguments).expect("three positional arguments");
    assert_eq!(parsed.token_request_uri, "http://token");
    assert_eq!(parsed.token_request_body, "{}");
    assert_eq!(parsed.test_suite_files, vec!["a.json".to_string(), "b.json".to_string()]);

    let error = parse_arguments(&vec!["tester".to_string()]).expect_err("too few");
    assert_eq!(error.message(), "no test file provided");
    let error = parse_arguments(&arguments[..3].to_vec()).expect_err("still too few");
    assert_eq!(error.kind(), ErrorKind::InternalFailure);

    let single = parse_arguments(&vec![
        "tester".to_string(),
        "u".to_string(),
        "b".to_string(),
        "only.json".to_string(),
    ])
    .expect("one file");
    assert_eq!(single.test_suite_files, vec!["only.json".to_string()]);
}

#[test]
fn stress_once_equals_one_assert_pass() {
    let mut stress_runner = SuiteRunner::new();
    let stress = stress_runner.build_schedule(TestType::Stress { times: 1 }, RunMode::Sequential, 2);
    let mut assert_runner = SuiteRunner::new();
    let plain = assert_runner.build_schedule(TestType::Assert, RunMode::Sequential, 2);
    assert_eq!(stress.len(), plain.len());
    for (a, b) in stress.iter().zip(plain.iter()) {
        assert_eq!(a.pass, b.pass);
        assert_eq!(a.test_index, b.test_index);
    }
}

#[test]
fn empty_suite_seals_immediately() {
    let mut runner = SuiteRunner::new();
    let schedule = runner.build_schedule(TestType::Assert, RunMode::Parallel, 0);
    assert!(schedule.is_empty());
    let collector = SuiteResult::new("empty".to_string(), 0);
    assert!(collector.is_complete());
    assert!(!collector.has_any_test_failed());
    let lines = output(&collector);
    assert_eq!(lines, vec!["# test suite 'empty' results #".to_string()]);
}

#[test]
fn correlation_ids_are_uuid_shaped() {
    let instance = RunInstance::new(
        Arc::new(amqp_harness::suite::Test {
            name: "t".to_string(),
            request: obj(vec![("header", obj(Vec::new()))]),
            assert_script: "a.py".to_string(),
        }),
        "req".to_string(),
        "rep".to_string(),
        amqp_harness::config::AmqpInstanceConfig::new(
            amqp_harness::config::BasicPublishOptions { mandatory: false, immediate: false },
            amqp_harness::config::FieldTable { entries: Vec::new() },
            amqp_harness::config::BasicConsumeOptions {
                no_local: false,
                no_ack: false,
                exclusive: false,
                nowait: false,
            },
            amqp_harness::config::FieldTable { entries: Vec::new() },
        ),
    );
    let correlation_id = instance.correlation_id();
    assert_eq!(correlation_id.len(), 36);
    assert_eq!(correlation_id.matches('-').count(), 4);

    let tag = instance.consumer_tag();
    assert!(tag.starts_with("rep#"));
    assert_eq!(tag.len(), "rep#".len() + 36);

    let properties = instance.publish_properties();
    assert_eq!(properties.content_type, "application/json");
    assert_eq!(properties.correlation_id, correlation_id);
    assert_eq!(properties.reply_to, "rep");

    let payload = instance.request_payload();
    assert_eq!(payload, "{\"header\":{}}");
}

#[test]
fn reply_decode_cases() {
    let runner = AssertScriptRunner::try_new("s".to_string(), Ok("python3".to_string()))
        .expect("configured");
    let decoded = runner.decode_reply("héllo".as_bytes().to_vec()).expect("valid utf-8");
    assert_eq!(decoded, "héllo");

    let error = runner.decode_reply(vec![0xff, 0xfe]).expect_err("invalid utf-8");
    assert_eq!(error.kind(), ErrorKind::InternalFailure);
    assert!(error.message().starts_with("failed to decode response: "));
}

#[test]
fn missing_interpreter_fails_construction() {
    let error = AssertScriptRunner::try_new(
        "s".to_string(),
        Err("environment variable not found".to_string()),
    )
    .expect_err("no interpreter, no runner");
    assert_eq!(error.kind(), ErrorKind::InternalFailure);
    assert_eq!(
        error.message(),
        "failed to read python bin environment variable: environment variable not found"
    );
}

#[test]
fn failed_results_decide_the_exit() {
    let mut collector = SuiteResult::new("s".to_string(), 2);
    collector.add_result(TestResult::new("a".to_string(), Ok(())));
    assert!(!collector.has_any_test_failed());
    collector.add_result(TestResult::new(
        "b".to_string(),
        Err(Error::new(ErrorKind::TestAssertFailure, "boom".to_string())),
    ));
    assert!(collector.has_any_test_failed());
    let lines = output(&collector);
    assert_eq!(lines[2], "FAIL - test 'b' : boom");
}
