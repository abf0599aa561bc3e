//! A message-driven integration test harness library.
//!
//! Suites of request/reply probes are driven against a service that speaks a
//! broker RPC protocol: each test publishes a request on a request queue,
//! awaits the correlated reply on a reply queue, validates the reply with an
//! external assertion script, and reports a per-test result that a bounded
//! collector aggregates into a per-suite result.
//!
//! This crate holds the verified core: the error taxonomy, the JSON data
//! model, the suite loader, the connection-pool decision logic, the
//! request/reply correlation protocol, the suite scheduling state machine,
//! and the result collection and formatting. The asynchronous broker, HTTP,
//! file, and subprocess plumbing that drives these state machines lives
//! outside the library.

pub mod amqp_connection_manager;
pub mod assert_script_runner;
pub mod config;
pub mod error;
pub mod json;
pub mod json_text;
pub mod orchestrator;
pub mod run_instance;
pub mod suite;
pub mod suite_reader;
pub mod suite_result;
pub mod suite_runner;
pub mod suite_result_output;
pub mod test_result;
pub mod token_retriever;
