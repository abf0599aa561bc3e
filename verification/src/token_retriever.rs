//! The bearer-token contract: a one-shot HTTP POST whose JSON response
//! carries the token.
//!
//! The POST itself is I/O and lives with the caller; this module judges
//! the response. A response must be a JSON object with a string-valued
//! `access_token` member; that string is the token.

use crate::error::{Error, ErrorKind};
use crate::json::{obj_has_key, JsonValue};
use crate::suite_reader::{get_member, obj_get};
use vstd::prelude::*;

verus! {

/// Whether a parsed token response yields a token: it is an object whose
/// first `access_token` member is a string.
pub open spec fn token_response_ok(v: crate::json::JsonView) -> bool {
    &&& v is Obj
    &&& obj_has_key(v->Obj_0, "access_token"@)
    &&& obj_get(v->Obj_0, "access_token"@) is Str
}

/// The token a parsed response carries, when it carries one.
pub open spec fn spec_token_of(v: crate::json::JsonView) -> Seq<char>
    recommends
        token_response_ok(v),
{
    obj_get(v->Obj_0, "access_token"@)->Str_0
}

/// Extracts the bearer token from the parsed token response: the string
/// under `access_token`. A response that is no object, lacks the member,
/// or holds a non-string there is an internal failure.
pub fn token_from_response(v: &JsonValue) -> (r: Result<String, Error>)
    ensures
        r is Ok <==> token_response_ok(v@),
        r is Ok ==> r->Ok_0@ == spec_token_of(v@),
        r is Err ==> r->Err_0.kind == ErrorKind::InternalFailure,
        r is Err ==> r->Err_0.message@ == if !(v@ is Obj) {
            "failed to deserialize token response: not a JSON object"@
        } else if !obj_has_key(v@->Obj_0, "access_token"@) {
            "failed to get token from response"@
        } else {
            "failed to deserialize token as string"@
        },
{
    match v {
        JsonValue::Obj(ps) => match get_member(ps, "access_token") {
            Some(m) => match m {
                JsonValue::Str(token) => Ok(token.clone()),
                _ => Err(
                    Error::new(
                        ErrorKind::InternalFailure,
                        "failed to deserialize token as string".to_owned(),
                    ),
                ),
            },
            None => Err(
                Error::new(
                    ErrorKind::InternalFailure,
                    "failed to get token from response".to_owned(),
                ),
            ),
        },
        _ => Err(
            Error::new(
                ErrorKind::InternalFailure,
                "failed to deserialize token response: not a JSON object".to_owned(),
            ),
        ),
    }
}

/// The error for a token request the endpoint refused.
pub fn token_request_failure(detail: &str) -> (r: Error)
    ensures
        r.kind == ErrorKind::InternalFailure,
        r.message@ == "failed to send token request: "@ + detail@,
{
    Error::with_detail(ErrorKind::InternalFailure, "failed to send token request: ", detail)
}

/// The error for a token response whose text could not be read.
pub fn token_response_text_failure(detail: &str) -> (r: Error)
    ensures
        r.kind == ErrorKind::InternalFailure,
        r.message@ == "failed to get token response text: "@ + detail@,
{
    Error::with_detail(ErrorKind::InternalFailure, "failed to get token response text: ", detail)
}

/// The error for response text that is not JSON.
pub fn token_response_parse_failure(detail: &str) -> (r: Error)
    ensures
        r.kind == ErrorKind::InternalFailure,
        r.message@ == "failed to deserialize token response: "@ + detail@,
{
    Error::with_detail(
        ErrorKind::InternalFailure,
        "failed to deserialize token response: ",
        detail,
    )
}

} // verus!
