//! Mapping operation outcomes to HTTP replies.
//!
//! Each outlet-facing route resolves an outlet by position and runs one
//! operation; this module fixes the status code and body for every
//! possible outcome.  An unknown position is 404, a device failure is
//! 400 with a description naming the operation, success is 200.

use vstd::prelude::*;
use vstd::string::StringExecFns;

use crate::errors::{error_text, Error};

verus! {

/// A planned HTTP reply: status code and body.
#[derive(Debug, Clone, PartialEq)]
pub struct HttpReply {
    pub status: u16,
    pub body: String,
}

/// The reply to a status read: `"true"` or `"false"` on success, 404 for
/// an unknown outlet, 400 with a description on failure.
pub open spec fn get_reply_spec(outcome: Option<Result<bool, Error>>) -> (int, Seq<char>) {
    match outcome {
        None => (404int, "no such outlet"@),
        Some(res) => match res {
            Ok(b) => (200int, if b {
                "true"@
            } else {
                "false"@
            }),
            Err(e) => (400int, "failed to get got err: "@ + error_text(e)),
        },
    }
}

/// The reply to a write or toggle: `"ok"` on success, 404 for an unknown
/// outlet, 400 with `prefix` followed by the error's description.
pub open spec fn op_reply_spec(prefix: Seq<char>, outcome: Option<Result<(), Error>>) -> (
    int,
    Seq<char>,
) {
    match outcome {
        None => (404int, "no such outlet"@),
        Some(res) => match res {
            Ok(u) => (200int, "ok"@),
            Err(e) => (400int, prefix + error_text(e)),
        },
    }
}

/// The reply of the set route.
pub open spec fn set_reply_spec(outcome: Option<Result<(), Error>>) -> (int, Seq<char>) {
    op_reply_spec("failed to set got err: "@, outcome)
}

/// The reply of the toggle route.
pub open spec fn toggle_reply_spec(outcome: Option<Result<(), Error>>) -> (int, Seq<char>) {
    op_reply_spec("failed to toggle got err: "@, outcome)
}

/// Builds the reply for the status-read route; `outcome` is `None` when
/// the addressed outlet does not exist.
pub fn get_reply(outcome: Option<Result<bool, Error>>) -> (r: HttpReply)
    ensures
        r.status == get_reply_spec(outcome).0,
        r.body@ == get_reply_spec(outcome).1,
{
    match outcome {
        None => HttpReply { status: 404, body: String::from_str("no such outlet") },
        Some(res) => match res {
            Ok(b) => HttpReply {
                status: 200,
                body: if b {
                    String::from_str("true")
                } else {
                    String::from_str("false")
                },
            },
            Err(e) => HttpReply {
                status: 400,
                body: String::from_str("failed to get got err: ").concat(e.describe().as_str()),
            },
        },
    }
}

fn op_reply(prefix: &str, outcome: Option<Result<(), Error>>) -> (r: HttpReply)
    ensures
        r.status == op_reply_spec(prefix@, outcome).0,
        r.body@ == op_reply_spec(prefix@, outcome).1,
{
    match outcome {
        None => HttpReply { status: 404, body: String::from_str("no such outlet") },
        Some(res) => match res {
            Ok(_) => HttpReply { status: 200, body: String::from_str("ok") },
            Err(e) => HttpReply {
                status: 400,
                body: String::from_str(prefix).concat(e.describe().as_str()),
            },
        },
    }
}

/// Builds the reply for the write route.
pub fn set_reply(outcome: Option<Result<(), Error>>) -> (r: HttpReply)
    ensures
        r.status == set_reply_spec(outcome).0,
        r.body@ == set_reply_spec(outcome).1,
{
    op_reply("failed to set got err: ", outcome)
}

/// Builds the reply for the toggle route.
pub fn toggle_reply(outcome: Option<Result<(), Error>>) -> (r: HttpReply)
    ensures
        r.status == toggle_reply_spec(outcome).0,
        r.body@ == toggle_reply_spec(outcome).1,
{
    op_reply("failed to toggle got err: ", outcome)
}

} // verus!
