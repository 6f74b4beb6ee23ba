//! The response interpreter: one pure mapping from an HTTP status code and
//! body to either a decoded document or the error kind the status dictates.
//! Every value-returning client call shares this mapping; the calls that only
//! need a success/failure signal (existence checks, delete) instead map the
//! status to a boolean and never surface a typed error.

use vstd::prelude::*;
use crate::errors::Error;
use crate::json::{json_ok, parse_json};

verus! {

/// Whether a status code counts as success (the 2xx class).
pub open spec fn is_success_spec(status: u16) -> bool {
    200 <= status < 300
}

/// Whether a status code counts as success. This is the whole outcome of an
/// existence check or a delete: absence is an expected, non-exceptional
/// result for those calls and becomes `false`, never a typed error.
pub fn is_success(status: u16) -> (r: bool)
    ensures
        r == is_success_spec(status),
{
    200 <= status && status < 300
}

/// The statuses on which a decoded body is owed.
pub open spec fn ok_status(status: u16) -> bool {
    status == 200 || status == 201
}

/// What the response interpreter returns for a response with status code
/// `status`, resource path `path` and body text `body`:
/// - 200/201 with a body that parses: the decoded document;
/// - 200/201 with a body that does not parse: `Decode` with the body;
/// - 404: `NotFound` with the path; 409: `AlreadyExists` with the path;
/// - 400: `BadRequest` with the body; anything else: `Server` with the code.
pub open spec fn interpretation(
    status: u16,
    path: Seq<char>,
    body: Seq<char>,
    r: Result<serde_json::Value, Error>,
) -> bool {
    if ok_status(status) {
        if json_ok(body) {
            r is Ok
        } else {
            r matches Err(Error::Decode(b)) && b@ == body
        }
    } else if status == 404 {
        r matches Err(Error::NotFound(p)) && p@ == path
    } else if status == 409 {
        r matches Err(Error::AlreadyExists(p)) && p@ == path
    } else if status == 400 {
        r matches Err(Error::BadRequest(b)) && b@ == body
    } else {
        r == Err::<serde_json::Value, Error>(Error::Server(status))
    }
}

/// Maps a completed response to a decoded document or a typed error, as
/// `interpretation` says. A decode failure on a successful status is reported
/// as `Decode`, never swallowed.
pub fn interpret_response(status: u16, path: &str, body: &str) -> (r: Result<
    serde_json::Value,
    Error,
>)
    ensures
        interpretation(status, path@, body@, r),
{
    if status == 200 || status == 201 {
        match parse_json(body) {
            Some(v) => Ok(v),
            None => Err(Error::Decode(body.to_owned())),
        }
    } else if status == 404 {
        Err(Error::NotFound(path.to_owned()))
    } else if status == 409 {
        Err(Error::AlreadyExists(path.to_owned()))
    } else if status == 400 {
        Err(Error::BadRequest(body.to_owned()))
    } else {
        Err(Error::Server(status))
    }
}

/// Law: a delete (or existence check) of a key that was never created — the
/// server answers 404 — yields the plain boolean `false`. The boolean
/// convention returns no typed error on any status, so such a call never
/// raises `NotFound`.
pub proof fn lemma_absent_key_is_false()
    ensures
        !is_success_spec(404),
{
}

} // verus!
