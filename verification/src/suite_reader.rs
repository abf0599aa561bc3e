//! The suite loader: from a parsed JSON document to a [`Suite`].
//!
//! A suite file is a JSON object with a `name`, a `test_type` (an object
//! tagged `Assert` with a null value or `Stress` with a `times` count), a
//! `run_mode` (`"Sequential"` or `"Parallel"`), a `tests` array, and a
//! `request_amqp_configuration` and `reply_amqp_configuration`. Each test
//! is an object with a `name`, a JSON-object `request` and an
//! `assert_script` file name. Option bundles hold boolean fields, each of
//! which may be omitted and then reads as false; argument tables are
//! arbitrary JSON objects. After loading, the bearer token is injected
//! into every test's request header.

use crate::config::{Amqp, AmqpQueue, AmqpQueueView, AmqpView, BasicConsumeOptions,
    BasicPublishOptions, FieldTable, QueueDeclareOptions};
use crate::error::{Error, ErrorKind};
use crate::json::{clone_members, find_key, first_key_index, json_view, json_views,
    lemma_first_key_index_unique, lemma_json_views, lemma_member_views, member_views, obj_has_key,
    JsonValue, JsonView};
use crate::suite::{inject_all_ready, injected_tests, spec_expected_count, RunMode, Suite,
    SuiteView, Test, TestType, TestView};
use vstd::prelude::*;

verus! {

broadcast use vstd::std_specs::vec::group_vec_axioms, vstd::seq::group_seq_axioms;

/// The value of the first member under the given key; meaningful only when
/// `obj_has_key` holds.
pub open spec fn obj_get(ms: Seq<(Seq<char>, JsonView)>, k: Seq<char>) -> JsonView
    recommends
        obj_has_key(ms, k),
{
    ms[first_key_index(ms, k)].1
}

/// A boolean member that may be omitted: absent reads as false, a present
/// member must be a boolean.
pub open spec fn parse_bool_member(ms: Seq<(Seq<char>, JsonView)>, k: Seq<char>) -> Option<bool> {
    if !obj_has_key(ms, k) {
        Some(false)
    } else if obj_get(ms, k) is Bool {
        Some(obj_get(ms, k)->Bool_0)
    } else {
        None
    }
}

/// Queue-declare options from their JSON object.
pub open spec fn parse_declare_options(v: JsonView) -> Option<QueueDeclareOptions> {
    if v is Obj {
        let ms = v->Obj_0;
        if parse_bool_member(ms, "passive"@) is Some && parse_bool_member(ms, "durable"@) is Some
            && parse_bool_member(ms, "exclusive"@) is Some && parse_bool_member(
            ms,
            "auto_delete"@,
        ) is Some && parse_bool_member(ms, "nowait"@) is Some {
            Some(
                QueueDeclareOptions {
                    passive: parse_bool_member(ms, "passive"@)->0,
                    durable: parse_bool_member(ms, "durable"@)->0,
                    exclusive: parse_bool_member(ms, "exclusive"@)->0,
                    auto_delete: parse_bool_member(ms, "auto_delete"@)->0,
                    nowait: parse_bool_member(ms, "nowait"@)->0,
                },
            )
        } else {
            None
        }
    } else {
        None
    }
}

/// Publish options from their JSON object.
pub open spec fn parse_publish_options(v: JsonView) -> Option<BasicPublishOptions> {
    if v is Obj {
        let ms = v->Obj_0;
        if parse_bool_member(ms, "mandatory"@) is Some && parse_bool_member(
            ms,
            "immediate"@,
        ) is Some {
            Some(
                BasicPublishOptions {
                    mandatory: parse_bool_member(ms, "mandatory"@)->0,
                    immediate: parse_bool_member(ms, "immediate"@)->0,
                },
            )
        } else {
            None
        }
    } else {
        None
    }
}

/// Consume options from their JSON object.
pub open spec fn parse_consume_options(v: JsonView) -> Option<BasicConsumeOptions> {
    if v is Obj {
        let ms = v->Obj_0;
        if parse_bool_member(ms, "no_local"@) is Some && parse_bool_member(ms, "no_ack"@) is Some
            && parse_bool_member(ms, "exclusive"@) is Some && parse_bool_member(
            ms,
            "nowait"@,
        ) is Some {
            Some(
                BasicConsumeOptions {
                    no_local: parse_bool_member(ms, "no_local"@)->0,
                    no_ack: parse_bool_member(ms, "no_ack"@)->0,
                    exclusive: parse_bool_member(ms, "exclusive"@)->0,
                    nowait: parse_bool_member(ms, "nowait"@)->0,
                },
            )
        } else {
            None
        }
    } else {
        None
    }
}

/// An argument table: any JSON object, kept member for member.
pub open spec fn parse_table(v: JsonView) -> Option<Seq<(Seq<char>, JsonView)>> {
    if v is Obj {
        Some(v->Obj_0)
    } else {
        None
    }
}

/// A queue descriptor from its JSON object: a string `name`, a
/// `declare_options` object and a `declare_arguments` object, all
/// required.
pub open spec fn parse_queue(v: JsonView) -> Option<AmqpQueueView> {
    if v is Obj {
        let ms = v->Obj_0;
        if obj_has_key(ms, "name"@) && obj_get(ms, "name"@) is Str && obj_has_key(
            ms,
            "declare_options"@,
        ) && parse_declare_options(obj_get(ms, "declare_options"@)) is Some && obj_has_key(
            ms,
            "declare_arguments"@,
        ) && parse_table(obj_get(ms, "declare_arguments"@)) is Some {
            Some(
                AmqpQueueView {
                    name: obj_get(ms, "name"@)->Str_0,
                    declare_options: parse_declare_options(obj_get(ms, "declare_options"@))->0,
                    declare_arguments: parse_table(obj_get(ms, "declare_arguments"@))->0,
                },
            )
        } else {
            None
        }
    } else {
        None
    }
}

/// Whether an optional member is effectively absent: missing or null.
pub open spec fn member_absent(ms: Seq<(Seq<char>, JsonView)>, k: Seq<char>) -> bool {
    !obj_has_key(ms, k) || obj_get(ms, k) is Null
}

/// One side's configuration from its JSON object: the queue is required;
/// the four option bundles may be omitted or null.
pub open spec fn parse_amqp(v: JsonView) -> Option<AmqpView> {
    if v is Obj {
        let ms = v->Obj_0;
        if obj_has_key(ms, "queue"@) && parse_queue(obj_get(ms, "queue"@)) is Some && (
        member_absent(ms, "publish_options"@) || parse_publish_options(
            obj_get(ms, "publish_options"@),
        ) is Some) && (member_absent(ms, "publish_arguments"@) || parse_table(
            obj_get(ms, "publish_arguments"@),
        ) is Some) && (member_absent(ms, "consume_options"@) || parse_consume_options(
            obj_get(ms, "consume_options"@),
        ) is Some) && (member_absent(ms, "consume_arguments"@) || parse_table(
            obj_get(ms, "consume_arguments"@),
        ) is Some) {
            Some(
                AmqpView {
                    queue: parse_queue(obj_get(ms, "queue"@))->0,
                    publish_options: if member_absent(ms, "publish_options"@) {
                        None
                    } else {
                        Some(parse_publish_options(obj_get(ms, "publish_options"@))->0)
                    },
                    publish_arguments: if member_absent(ms, "publish_arguments"@) {
                        None
                    } else {
                        Some(parse_table(obj_get(ms, "publish_arguments"@))->0)
                    },
                    consume_options: if member_absent(ms, "consume_options"@) {
                        None
                    } else {
                        Some(parse_consume_options(obj_get(ms, "consume_options"@))->0)
                    },
                    consume_arguments: if member_absent(ms, "consume_arguments"@) {
                        None
                    } else {
                        Some(parse_table(obj_get(ms, "consume_arguments"@))->0)
                    },
                },
            )
        } else {
            None
        }
    } else {
        None
    }
}

/// Whether every character is a decimal digit, and there is at least one.
pub open spec fn is_dec_digits(s: Seq<char>) -> bool {
    s.len() > 0 && forall|i: int| 0 <= i < s.len() ==> 48 <= (#[trigger] s[i]) as int <= 57
}

/// The value of a decimal digit string.
pub open spec fn dec_nat(s: Seq<char>) -> nat
    decreases s.len(),
{
    if s.len() == 0 {
        0
    } else {
        dec_nat(s.drop_last()) * 10 + (s.last() as int - 48) as nat
    }
}

/// The run mode from its JSON string.
pub open spec fn parse_run_mode(v: JsonView) -> Option<RunMode> {
    if v is Str && v->Str_0 == "Sequential"@ {
        Some(RunMode::Sequential)
    } else if v is Str && v->Str_0 == "Parallel"@ {
        Some(RunMode::Parallel)
    } else {
        None
    }
}

/// The test type from its tagged JSON object: `{"Assert": null}` or
/// `{"Stress": {"times": <count>}}` with a count of at least one that
/// fits the machine.
pub open spec fn parse_test_type(v: JsonView) -> Option<TestType> {
    if v is Obj {
        let ms = v->Obj_0;
        if obj_has_key(ms, "Assert"@) && obj_get(ms, "Assert"@) is Null {
            Some(TestType::Assert)
        } else if obj_has_key(ms, "Stress"@) && obj_get(ms, "Stress"@) is Obj {
            let sms = obj_get(ms, "Stress"@)->Obj_0;
            if obj_has_key(sms, "times"@) && obj_get(sms, "times"@) is Num && is_dec_digits(
                obj_get(sms, "times"@)->Num_0,
            ) && 1 <= dec_nat(obj_get(sms, "times"@)->Num_0) <= usize::MAX {
                Some(TestType::Stress { times: dec_nat(obj_get(sms, "times"@)->Num_0) as usize })
            } else {
                None
            }
        } else {
            None
        }
    } else {
        None
    }
}

/// One test from its JSON object: a string `name`, a JSON-object
/// `request` and a string `assert_script`, all required.
pub open spec fn parse_test(v: JsonView) -> Option<TestView> {
    if v is Obj {
        let ms = v->Obj_0;
        if obj_has_key(ms, "name"@) && obj_get(ms, "name"@) is Str && obj_has_key(ms, "request"@)
            && obj_get(ms, "request"@) is Obj && obj_has_key(ms, "assert_script"@) && obj_get(
            ms,
            "assert_script"@,
        ) is Str {
            Some(
                TestView {
                    name: obj_get(ms, "name"@)->Str_0,
                    request: obj_get(ms, "request"@),
                    assert_script: obj_get(ms, "assert_script"@)->Str_0,
                },
            )
        } else {
            None
        }
    } else {
        None
    }
}

/// The test list from its JSON array, test by test.
pub open spec fn parse_tests(xs: Seq<JsonView>) -> Option<Seq<TestView>>
    decreases xs.len(),
{
    if xs.len() == 0 {
        Some(Seq::empty())
    } else {
        if parse_tests(xs.drop_last()) is Some && parse_test(xs.last()) is Some {
            Some(parse_tests(xs.drop_last())->0.push(parse_test(xs.last())->0))
        } else {
            None
        }
    }
}

/// If any element of the array is not a test, the list does not parse.
pub proof fn lemma_parse_tests_element_none(xs: Seq<JsonView>, i: int)
    requires
        0 <= i < xs.len(),
        parse_test(xs[i]) is None,
    ensures
        parse_tests(xs) is None,
    decreases xs.len(),
{
    if i < xs.len() - 1 {
        lemma_parse_tests_element_none(xs.drop_last(), i);
    }
}

/// A whole suite from its JSON document. The expected result count must
/// fit the machine.
pub open spec fn parse_suite(v: JsonView) -> Option<SuiteView> {
    if v is Obj {
        let ms = v->Obj_0;
        if obj_has_key(ms, "name"@) && obj_get(ms, "name"@) is Str && obj_has_key(
            ms,
            "test_type"@,
        ) && parse_test_type(obj_get(ms, "test_type"@)) is Some && obj_has_key(ms, "run_mode"@)
            && parse_run_mode(obj_get(ms, "run_mode"@)) is Some && obj_has_key(ms, "tests"@)
            && obj_get(ms, "tests"@) is Arr && parse_tests(obj_get(ms, "tests"@)->Arr_0) is Some
            && obj_has_key(ms, "request_amqp_configuration"@) && parse_amqp(
            obj_get(ms, "request_amqp_configuration"@),
        ) is Some && obj_has_key(ms, "reply_amqp_configuration"@) && parse_amqp(
            obj_get(ms, "reply_amqp_configuration"@),
        ) is Some && spec_expected_count(
            parse_test_type(obj_get(ms, "test_type"@))->0,
            parse_tests(obj_get(ms, "tests"@)->Arr_0)->0.len(),
        ) <= usize::MAX {
            Some(
                SuiteView {
                    name: obj_get(ms, "name"@)->Str_0,
                    test_type: parse_test_type(obj_get(ms, "test_type"@))->0,
                    run_mode: parse_run_mode(obj_get(ms, "run_mode"@))->0,
                    tests: parse_tests(obj_get(ms, "tests"@)->Arr_0)->0,
                    request_amqp_configuration: parse_amqp(
                        obj_get(ms, "request_amqp_configuration"@),
                    )->0,
                    reply_amqp_configuration: parse_amqp(
                        obj_get(ms, "reply_amqp_configuration"@),
                    )->0,
                },
            )
        } else {
            None
        }
    } else {
        None
    }
}

/// A suite as `read` delivers it: parsed from its document, with the
/// token injected into every test.
pub open spec fn loaded_suite(v: JsonView, token: Seq<char>) -> Option<SuiteView> {
    match parse_suite(v) {
        Some(s) => if inject_all_ready(s.tests) {
            Some(SuiteView { tests: injected_tests(s.tests, token), ..s })
        } else {
            None
        },
        None => None,
    }
}

/// Digits only extend the value: a digit string is worth at least any of
/// its prefixes.
proof fn lemma_dec_nat_prefix(s: Seq<char>, k: int)
    requires
        0 <= k <= s.len(),
    ensures
        dec_nat(s) >= dec_nat(s.take(k)),
    decreases s.len() - k,
{
    if k < s.len() {
        assert(s.take(k + 1).drop_last() =~= s.take(k));
        assert(s.take(k + 1).last() == s[k]);
        assert(dec_nat(s.take(k)) * 10 >= dec_nat(s.take(k))) by (nonlinear_arith);
        lemma_dec_nat_prefix(s, k + 1);
    } else {
        assert(s.take(k) =~= s);
    }
}

/// The first member under the given key, when the object has one.
pub fn get_member<'a>(ps: &'a Vec<(String, JsonValue)>, k: &str) -> (r: Option<&'a JsonValue>)
    ensures
        r is Some <==> obj_has_key(member_views(ps@), k@),
        r is Some ==> r->0@ == obj_get(member_views(ps@), k@),
{
    proof {
        lemma_member_views(ps@);
    }
    match find_key(ps, k) {
        Some(i) => {
            proof {
                lemma_first_key_index_unique(member_views(ps@), k@, i as int);
            }
            Some(&ps[i].1)
        }
        None => {
            proof {
                assert(!obj_has_key(member_views(ps@), k@)) by {
                    if obj_has_key(member_views(ps@), k@) {
                        let j = choose|j: int|
                            0 <= j < member_views(ps@).len() && member_views(ps@)[j].0 == k@;
                        assert(ps@[j].0@ == k@);
                    }
                }
            }
            None
        }
    }
}

/// An optional boolean member: absent reads as false.
fn get_bool_member(ps: &Vec<(String, JsonValue)>, k: &str) -> (r: Option<bool>)
    ensures
        r == parse_bool_member(member_views(ps@), k@),
{
    match get_member(ps, k) {
        None => Some(false),
        Some(v) => match v {
            JsonValue::Bool(b) => Some(*b),
            _ => None,
        },
    }
}

/// Queue-declare options from their JSON object.
fn declare_options_from_json(v: &JsonValue) -> (r: Option<QueueDeclareOptions>)
    ensures
        r == parse_declare_options(v@),
{
    match v {
        JsonValue::Obj(ps) => {
            let passive = get_bool_member(ps, "passive");
            let durable = get_bool_member(ps, "durable");
            let exclusive = get_bool_member(ps, "exclusive");
            let auto_delete = get_bool_member(ps, "auto_delete");
            let nowait = get_bool_member(ps, "nowait");
            match (passive, durable, exclusive, auto_delete, nowait) {
                (Some(passive), Some(durable), Some(exclusive), Some(auto_delete), Some(
                    nowait,
                )) => Some(QueueDeclareOptions { passive, durable, exclusive, auto_delete, nowait }),
                _ => None,
            }
        }
        _ => None,
    }
}

/// Publish options from their JSON object.
fn publish_options_from_json(v: &JsonValue) -> (r: Option<BasicPublishOptions>)
    ensures
        r == parse_publish_options(v@),
{
    match v {
        JsonValue::Obj(ps) => {
            let mandatory = get_bool_member(ps, "mandatory");
            let immediate = get_bool_member(ps, "immediate");
            match (mandatory, immediate) {
                (Some(mandatory), Some(immediate)) => Some(
                    BasicPublishOptions { mandatory, immediate },
                ),
                _ => None,
            }
        }
        _ => None,
    }
}

/// Consume options from their JSON object.
fn consume_options_from_json(v: &JsonValue) -> (r: Option<BasicConsumeOptions>)
    ensures
        r == parse_consume_options(v@),
{
    match v {
        JsonValue::Obj(ps) => {
            let no_local = get_bool_member(ps, "no_local");
            let no_ack = get_bool_member(ps, "no_ack");
            let exclusive = get_bool_member(ps, "exclusive");
            let nowait = get_bool_member(ps, "nowait");
            match (no_local, no_ack, exclusive, nowait) {
                (Some(no_local), Some(no_ack), Some(exclusive), Some(nowait)) => Some(
                    BasicConsumeOptions { no_local, no_ack, exclusive, nowait },
                ),
                _ => None,
            }
        }
        _ => None,
    }
}

/// An argument table from its JSON object.
fn table_from_json(v: &JsonValue) -> (r: Option<FieldTable>)
    ensures
        r is Some <==> parse_table(v@) is Some,
        r is Some ==> r->0@ == parse_table(v@)->0,
{
    match v {
        JsonValue::Obj(ps) => Some(FieldTable { entries: clone_members(ps) }),
        _ => None,
    }
}

/// A queue descriptor from its JSON object.
fn queue_from_json(v: &JsonValue) -> (r: Option<AmqpQueue>)
    ensures
        r is Some <==> parse_queue(v@) is Some,
        r is Some ==> r->0@ == parse_queue(v@)->0,
{
    match v {
        JsonValue::Obj(ps) => {
            let name = match get_member(ps, "name") {
                Some(m) => match m {
                    JsonValue::Str(s) => s.clone(),
                    _ => { return None; }
                },
                None => { return None; }
            };
            let declare_options = match get_member(ps, "declare_options") {
                Some(m) => match declare_options_from_json(m) {
                    Some(o) => o,
                    None => { return None; }
                },
                None => { return None; }
            };
            let declare_arguments = match get_member(ps, "declare_arguments") {
                Some(m) => match table_from_json(m) {
                    Some(t) => t,
                    None => { return None; }
                },
                None => { return None; }
            };
            Some(AmqpQueue { name, declare_options, declare_arguments })
        }
        _ => None,
    }
}

/// One side's configuration from its JSON object.
fn amqp_from_json(v: &JsonValue) -> (r: Option<Amqp>)
    ensures
        r is Some <==> parse_amqp(v@) is Some,
        r is Some ==> r->0@ == parse_amqp(v@)->0,
{
    match v {
        JsonValue::Obj(ps) => {
            let queue = match get_member(ps, "queue") {
                Some(m) => match queue_from_json(m) {
                    Some(q) => q,
                    None => { return None; }
                },
                None => { return None; }
            };
            let publish_options = match get_member(ps, "publish_options") {
                None => None,
                Some(m) => match m {
                    JsonValue::Null => None,
                    other => match publish_options_from_json(other) {
                        Some(o) => Some(o),
                        None => { return None; }
                    },
                },
            };
            let publish_arguments = match get_member(ps, "publish_arguments") {
                None => None,
                Some(m) => match m {
                    JsonValue::Null => None,
                    other => match table_from_json(other) {
                        Some(t) => Some(t),
                        None => { return None; }
                    },
                },
            };
            let consume_options = match get_member(ps, "consume_options") {
                None => None,
                Some(m) => match m {
                    JsonValue::Null => None,
                    other => match consume_options_from_json(other) {
                        Some(o) => Some(o),
                        None => { return None; }
                    },
                },
            };
            let consume_arguments = match get_member(ps, "consume_arguments") {
                None => None,
                Some(m) => match m {
                    JsonValue::Null => None,
                    other => match table_from_json(other) {
                        Some(t) => Some(t),
                        None => { return None; }
                    },
                },
            };
            Some(Amqp { queue, publish_options, publish_arguments, consume_options, consume_arguments })
        }
        _ => None,
    }
}

/// The value of a decimal digit string, refused when a character is no
/// digit or the value does not fit the machine.
pub fn parse_usize_text(s: &str) -> (r: Option<usize>)
    ensures
        r is Some <==> is_dec_digits(s@) && dec_nat(s@) <= usize::MAX,
        r is Some ==> r->0 == dec_nat(s@),
{
    let n = s.unicode_len();
    if n == 0 {
        return None;
    }
    let mut value: usize = 0;
    let mut i: usize = 0;
    while i < n
        invariant
            n == s@.len(),
            0 < n,
            i <= n,
            forall|j: int| 0 <= j < i ==> 48 <= (#[trigger] s@[j]) as int <= 57,
            value == dec_nat(s@.take(i as int)),
        decreases n - i,
    {
        let c = s.get_char(i);
        let code = c as u32;
        if code < 48 || code > 57 {
            proof {
                assert(!is_dec_digits(s@));
            }
            return None;
        }
        let d = (code - 48) as usize;
        proof {
            assert(s@.take(i + 1).drop_last() =~= s@.take(i as int));
            assert(s@.take(i + 1).last() == s@[i as int]);
        }
        let step = match value.checked_mul(10) {
            Some(v10) => v10.checked_add(d),
            None => None,
        };
        match step {
            Some(v) => {
                value = v;
            }
            None => {
                proof {
                    assert(dec_nat(s@.take(i + 1)) > usize::MAX);
                    lemma_dec_nat_prefix(s@, i + 1);
                }
                return None;
            }
        }
        i = i + 1;
    }
    proof {
        assert(s@.take(n as int) =~= s@);
    }
    Some(value)
}

/// The run mode from its JSON string.
fn run_mode_from_json(v: &JsonValue) -> (r: Option<RunMode>)
    ensures
        r == parse_run_mode(v@),
{
    match v {
        JsonValue::Str(s) => {
            if crate::json::str_eq(s.as_str(), "Sequential") {
                Some(RunMode::Sequential)
            } else if crate::json::str_eq(s.as_str(), "Parallel") {
                Some(RunMode::Parallel)
            } else {
                None
            }
        }
        _ => None,
    }
}

/// The test type from its tagged JSON object.
fn test_type_from_json(v: &JsonValue) -> (r: Option<TestType>)
    ensures
        r == parse_test_type(v@),
{
    match v {
        JsonValue::Obj(ps) => {
            let assert_tagged = match get_member(ps, "Assert") {
                Some(m) => matches!(m, JsonValue::Null),
                None => false,
            };
            if assert_tagged {
                return Some(TestType::Assert);
            }
            match get_member(ps, "Stress") {
                Some(m) => match m {
                    JsonValue::Obj(sps) => match get_member(sps, "times") {
                        Some(t) => match t {
                            JsonValue::Num(text) => match parse_usize_text(text.as_str()) {
                                Some(times) => if times >= 1 {
                                    Some(TestType::Stress { times })
                                } else {
                                    None
                                },
                                None => None,
                            },
                            _ => None,
                        },
                        None => None,
                    },
                    _ => None,
                },
                None => None,
            }
        }
        _ => None,
    }
}

/// One test from its JSON object.
fn test_from_json(v: &JsonValue) -> (r: Option<Test>)
    ensures
        r is Some <==> parse_test(v@) is Some,
        r is Some ==> r->0@ == parse_test(v@)->0,
{
    match v {
        JsonValue::Obj(ps) => {
            let name = match get_member(ps, "name") {
                Some(m) => match m {
                    JsonValue::Str(s) => s.clone(),
                    _ => { return None; }
                },
                None => { return None; }
            };
            let request = match get_member(ps, "request") {
                Some(m) => match m {
                    JsonValue::Obj(_) => m.clone(),
                    _ => { return None; }
                },
                None => { return None; }
            };
            let assert_script = match get_member(ps, "assert_script") {
                Some(m) => match m {
                    JsonValue::Str(s) => s.clone(),
                    _ => { return None; }
                },
                None => { return None; }
            };
            Some(Test { name, request, assert_script })
        }
        _ => None,
    }
}

/// The test list from its JSON array.
fn tests_from_json(xs: &Vec<JsonValue>) -> (r: Option<Vec<Test>>)
    ensures
        r is Some <==> parse_tests(json_views(xs@)) is Some,
        r is Some ==> crate::suite::test_views(r->0@) == parse_tests(json_views(xs@))->0,
{
    proof {
        lemma_json_views(xs@);
    }
    let ghost w = json_views(xs@);
    let n = xs.len();
    let mut tests: Vec<Test> = Vec::new();
    let mut i: usize = 0;
    while i < n
        invariant
            n == xs@.len(),
            i <= n,
            w == json_views(xs@),
            w.len() == n,
            forall|j: int| 0 <= j < n ==> w[j] == json_view(xs@[j]),
            tests@.len() == i,
            parse_tests(w.take(i as int)) is Some,
            crate::suite::test_views(tests@) == parse_tests(w.take(i as int))->0,
        decreases n - i,
    {
        proof {
            crate::suite::lemma_test_views(tests@);
        }
        match test_from_json(&xs[i]) {
            Some(t) => {
                tests.push(t);
                proof {
                    assert(w.take(i + 1).drop_last() =~= w.take(i as int));
                    assert(w.take(i + 1).last() == w[i as int]);
                    crate::suite::lemma_test_views(tests@);
                    assert(crate::suite::test_views(tests@) =~= parse_tests(w.take(i + 1))->0);
                }
            }
            None => {
                proof {
                    lemma_parse_tests_element_none(w, i as int);
                }
                return None;
            }
        }
        i = i + 1;
    }
    proof {
        assert(w.take(n as int) =~= w);
    }
    Some(tests)
}

/// A suite from its parsed JSON document. A document that does not fit
/// the schema is an internal failure whose message names the flaw.
pub fn suite_from_json(v: &JsonValue) -> (r: Result<Suite, Error>)
    ensures
        r is Ok <==> parse_suite(v@) is Some,
        r is Ok ==> r->Ok_0@ == parse_suite(v@)->0 && r->Ok_0.shared_tests@.len() == 0
            && r->Ok_0.wf(),
        r is Err ==> r->Err_0.kind == ErrorKind::InternalFailure && exists|d: Seq<char>|
            r->Err_0.message@ == "failed to deserialize test: "@ + d,
{
    let bad = |detail: &str| -> (e: Error)
        ensures
            e.kind == ErrorKind::InternalFailure,
            e.message@ == "failed to deserialize test: "@ + detail@,
        { Error::with_detail(ErrorKind::InternalFailure, "failed to deserialize test: ", detail) };
    match v {
        JsonValue::Obj(ps) => {
            let name = match get_member(ps, "name") {
                Some(m) => match m {
                    JsonValue::Str(s) => s.clone(),
                    _ => { return Err(bad("suite name is not a string")); }
                },
                None => { return Err(bad("suite has no name")); }
            };
            let test_type = match get_member(ps, "test_type") {
                Some(m) => match test_type_from_json(m) {
                    Some(t) => t,
                    None => { return Err(bad("suite test type is malformed")); }
                },
                None => { return Err(bad("suite has no test type")); }
            };
            let run_mode = match get_member(ps, "run_mode") {
                Some(m) => match run_mode_from_json(m) {
                    Some(t) => t,
                    None => { return Err(bad("suite run mode is malformed")); }
                },
                None => { return Err(bad("suite has no run mode")); }
            };
            let tests = match get_member(ps, "tests") {
                Some(m) => match m {
                    JsonValue::Arr(xs) => match tests_from_json(xs) {
                        Some(ts) => ts,
                        None => { return Err(bad("suite test list is malformed")); }
                    },
                    _ => { return Err(bad("suite tests are not an array")); }
                },
                None => { return Err(bad("suite has no tests")); }
            };
            let request_amqp_configuration = match get_member(ps, "request_amqp_configuration") {
                Some(m) => match amqp_from_json(m) {
                    Some(a) => a,
                    None => { return Err(bad("request amqp configuration is malformed")); }
                },
                None => { return Err(bad("suite has no request amqp configuration")); }
            };
            let reply_amqp_configuration = match get_member(ps, "reply_amqp_configuration") {
                Some(m) => match amqp_from_json(m) {
                    Some(a) => a,
                    None => { return Err(bad("reply amqp configuration is malformed")); }
                },
                None => { return Err(bad("suite has no reply amqp configuration")); }
            };
            let n_tests = tests.len();
            proof {
                crate::suite::lemma_test_views(tests@);
            }
            match test_type {
                TestType::Assert => {}
                TestType::Stress { times } => {
                    match n_tests.checked_mul(times) {
                        Some(_) => {}
                        None => { return Err(bad("suite result count does not fit")); }
                    }
                }
            }
            let suite = Suite {
                name,
                test_type,
                run_mode,
                tests,
                request_amqp_configuration,
                reply_amqp_configuration,
                shared_tests: Vec::new(),
            };
            proof {
                assert(parse_suite(v@) is Some);
                assert(suite@ == parse_suite(v@)->0);
            }
            Ok(suite)
        }
        _ => Err(bad("suite file is not a JSON object")),
    }
}

/// Loads each document as a suite and injects the bearer token into every
/// test. The first document that does not fit the schema, and the first
/// request that refuses the token, fail the whole read.
pub fn read(documents: &Vec<JsonValue>, token: &str) -> (r: Result<Vec<Suite>, Error>)
    ensures
        r is Ok <==> (forall|i: int| 0 <= i < documents@.len() ==> loaded_suite(
            (#[trigger] documents@[i])@,
            token@,
        ) is Some),
        r is Ok ==> r->Ok_0@.len() == documents@.len() && forall|i: int|
            0 <= i < documents@.len() ==> (#[trigger] r->Ok_0@[i])@ == loaded_suite(
                documents@[i]@,
                token@,
            )->0 && r->Ok_0@[i].wf(),
        r is Err ==> r->Err_0.kind == ErrorKind::InternalFailure,
{
    let n = documents.len();
    let mut suites: Vec<Suite> = Vec::new();
    let mut i: usize = 0;
    while i < n
        invariant
            n == documents@.len(),
            i <= n,
            suites@.len() == i,
            forall|j: int| 0 <= j < i ==> loaded_suite((#[trigger] documents@[j])@, token@) is Some,
            forall|j: int| 0 <= j < i ==> (#[trigger] suites@[j])@ == loaded_suite(
                documents@[j]@,
                token@,
            )->0 && suites@[j].wf(),
        decreases n - i,
    {
        let mut suite = match suite_from_json(&documents[i]) {
            Ok(suite) => suite,
            Err(e) => {
                return Err(e);
            }
        };
        match suite.inject_token_into_tests(token) {
            Ok(_) => {}
            Err(e) => {
                return Err(
                    Error::with_detail(
                        ErrorKind::InternalFailure,
                        "failed to inject token into test request: ",
                        e.message(),
                    ),
                );
            }
        }
        suites.push(suite);
        i = i + 1;
    }
    Ok(suites)
}

} // verus!
