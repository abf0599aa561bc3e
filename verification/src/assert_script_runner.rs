//! The assertion contract: a reply is judged by an external script.
//!
//! Each suite owns one runner: the interpreter it was configured with and
//! the suite's name, which fixes the script directory. For each matched
//! reply the caller decodes the body here, resolves the script path here,
//! spawns `<interpreter> <script_path> <decoded reply>` itself, and hands
//! the exit status back to [`AssertScriptRunner::interpret_exit_status`]:
//! exit zero passes, anything else is a test assertion failure, and a
//! spawn or wait error is an internal failure.

use crate::error::{Error, ErrorKind};
use vstd::prelude::*;
use vstd::string::StringExecFns;

verus! {

/// Relies on String::from_utf8: it succeeds exactly on valid UTF-8 input
/// and then returns the decoded characters; on failure the error's
/// description is handed back.
#[verifier::external_body]
fn utf8_to_string(bytes: Vec<u8>) -> (r: Result<String, String>)
    ensures
        r is Ok <==> vstd::utf8::valid_utf8(bytes@),
        r is Ok ==> r->Ok_0@ == vstd::utf8::decode_utf8(bytes@),
{
    match String::from_utf8(bytes) {
        Ok(s) => Ok(s),
        Err(e) => Err(e.to_string()),
    }
}

/// A suite's assertion runner: the interpreter path and the suite name
/// that fixes where its scripts live. Stateless beyond these two.
#[derive(Debug)]
pub struct AssertScriptRunner {
    pub test_suite_name: String,
    pub python_bin: String,
}

impl AssertScriptRunner {
    /// Builds the runner from the configured interpreter, handed in as the
    /// result of reading the interpreter environment variable: without an
    /// interpreter there is no runner.
    pub fn try_new(test_suite_name: String, python_bin: Result<String, String>) -> (r: Result<
        AssertScriptRunner,
        Error,
    >)
        ensures
            r is Ok <==> python_bin is Ok,
            r is Ok ==> r->Ok_0.test_suite_name@ == test_suite_name@ && r->Ok_0.python_bin@
                == python_bin->Ok_0@,
            r is Err ==> r->Err_0.kind == ErrorKind::InternalFailure
                && r->Err_0.message@ == "failed to read python bin environment variable: "@
                + python_bin->Err_0@,
    {
        match python_bin {
            Ok(python_bin) => Ok(AssertScriptRunner { test_suite_name, python_bin }),
            Err(detail) => Err(
                Error::with_detail(
                    ErrorKind::InternalFailure,
                    "failed to read python bin environment variable: ",
                    detail.as_str(),
                ),
            ),
        }
    }

    /// The suite whose scripts this runner resolves.
    pub fn test_suite_name(&self) -> (r: &str)
        ensures
            r@ == self.test_suite_name@,
    {
        self.test_suite_name.as_str()
    }

    /// The interpreter the scripts are run with.
    pub fn python_bin(&self) -> (r: &str)
        ensures
            r@ == self.python_bin@,
    {
        self.python_bin.as_str()
    }

    /// Where the named script lives: under the integration-tests directory,
    /// in this suite's subdirectory.
    pub fn script_path(&self, script_name: &str) -> (r: String)
        ensures
            r@ == "./integration_tests/"@ + self.test_suite_name@ + "/"@ + script_name@,
    {
        let mut path: String = "./integration_tests/".to_owned();
        path.append(self.test_suite_name.as_str());
        path.append("/");
        path.append(script_name);
        path
    }

    /// Decodes a reply body for the script's argument: the body must be
    /// UTF-8, else the reply cannot be asserted and the run fails
    /// internally.
    pub fn decode_reply(&self, response: Vec<u8>) -> (r: Result<String, Error>)
        ensures
            r is Ok <==> vstd::utf8::valid_utf8(response@),
            r is Ok ==> r->Ok_0@ == vstd::utf8::decode_utf8(response@),
            r is Err ==> r->Err_0.kind == ErrorKind::InternalFailure && exists|d: Seq<char>|
                r->Err_0.message@ == "failed to decode response: "@ + d,
    {
        match utf8_to_string(response) {
            Ok(decoded) => Ok(decoded),
            Err(detail) => Err(
                Error::with_detail(
                    ErrorKind::InternalFailure,
                    "failed to decode response: ",
                    detail.as_str(),
                ),
            ),
        }
    }

    /// Judges the script's exit: success passes, and any other exit status
    /// fails the test, naming the script and the status.
    pub fn interpret_exit_status(
        &self,
        script_path: &str,
        exit_success: bool,
        exit_status_text: &str,
    ) -> (r: Result<(), Error>)
        ensures
            r is Ok <==> exit_success,
            r is Err ==> r->Err_0.kind == ErrorKind::TestAssertFailure
                && r->Err_0.message@ == "assertion script '"@ + script_path@ + "' failed: '"@
                + exit_status_text@ + "'"@,
    {
        if exit_success {
            Ok(())
        } else {
            let mut message: String = "assertion script '".to_owned();
            message.append(script_path);
            message.append("' failed: '");
            message.append(exit_status_text);
            message.append("'");
            Err(Error::new(ErrorKind::TestAssertFailure, message))
        }
    }

    /// The error for an interpreter process that could not be spawned.
    pub fn spawn_failure(detail: &str) -> (r: Error)
        ensures
            r.kind == ErrorKind::InternalFailure,
            r.message@ == "failed to spawn process: "@ + detail@,
    {
        Error::with_detail(ErrorKind::InternalFailure, "failed to spawn process: ", detail)
    }

    /// The error for an interpreter process that could not be awaited.
    pub fn wait_failure(detail: &str) -> (r: Error)
        ensures
            r.kind == ErrorKind::InternalFailure,
            r.message@ == "failed to wait for process to end: "@ + detail@,
    {
        Error::with_detail(ErrorKind::InternalFailure, "failed to wait for process to end: ", detail)
    }
}

} // verus!
