//! Replies from a receiver and the outcomes they stand for.

use vstd::prelude::*;

use crate::text::str_equal;

verus! {

/// A reply as a receiver publishes it on the sender's reply topic.
#[derive(Debug, Clone)]
pub struct ReplyEnvelope {
    /// The id of the request that this reply answers.
    pub id: String,
    pub from: String,
    /// Whether the receiver carried the request out.
    pub ok: bool,
    /// The receiver's name for what went wrong, if anything did.
    pub error: Option<String>,
    pub detail: Option<String>,
    /// What the receiver hands back on success, carried unread.
    pub result: Option<serde_json::Value>,
}

/// What became of a request, as the sender reports it.
#[derive(Debug, Clone, Copy, PartialEq, Eq, Structural)]
pub enum ReplyOutcome {
    Success,
    Unreachable,
    Cooldown,
    NotOwner,
    Replay,
    UnknownMethod,
    Timeout,
    NotFound,
    OtherError,
}

/// The outcome that a receiver's error name stands for.
pub open spec fn outcome_of_error(error: Seq<char>) -> ReplyOutcome {
    if error == "unreachable"@ {
        ReplyOutcome::Unreachable
    } else if error == "cooldown"@ {
        ReplyOutcome::Cooldown
    } else if error == "not_owner"@ {
        ReplyOutcome::NotOwner
    } else if error == "replay"@ {
        ReplyOutcome::Replay
    } else if error == "unknown_method"@ {
        ReplyOutcome::UnknownMethod
    } else if error == "not_found"@ {
        ReplyOutcome::NotFound
    } else {
        ReplyOutcome::OtherError
    }
}

/// The outcome of a reply with the given `ok` flag and error name: success
/// whenever `ok` holds, else what the error name stands for, and a generic
/// error where there is no name.
pub open spec fn outcome_of_reply(ok: bool, error: Option<Seq<char>>) -> ReplyOutcome {
    if ok {
        ReplyOutcome::Success
    } else {
        match error {
            Some(e) => outcome_of_error(e),
            None => ReplyOutcome::OtherError,
        }
    }
}

/// The view of an optional string.
pub open spec fn opt_view(s: Option<String>) -> Option<Seq<char>> {
    match s {
        Some(t) => Some(t@),
        None => None,
    }
}

/// Classifies a reply by its `ok` flag and its error name.
pub fn classify_reply(reply: &ReplyEnvelope) -> (outcome: ReplyOutcome)
    ensures
        outcome == outcome_of_reply(reply.ok, opt_view(reply.error)),
{
    if reply.ok {
        return ReplyOutcome::Success;
    }
    match &reply.error {
        Some(e) => {
            let e = e.as_str();
            if str_equal(e, "unreachable") {
                ReplyOutcome::Unreachable
            } else if str_equal(e, "cooldown") {
                ReplyOutcome::Cooldown
            } else if str_equal(e, "not_owner") {
                ReplyOutcome::NotOwner
            } else if str_equal(e, "replay") {
                ReplyOutcome::Replay
            } else if str_equal(e, "unknown_method") {
                ReplyOutcome::UnknownMethod
            } else if str_equal(e, "not_found") {
                ReplyOutcome::NotFound
            } else {
                ReplyOutcome::OtherError
            }
        },
        None => ReplyOutcome::OtherError,
    }
}

/// Whether a reply answers the request with id `request_id`.
pub fn reply_answers(reply: &ReplyEnvelope, request_id: &str) -> (r: bool)
    ensures
        r == (reply.id@ == request_id@),
{
    str_equal(reply.id.as_str(), request_id)
}

/// The outcome of a request: a timeout where no reply came, else the
/// classification of the reply.
pub open spec fn outcome_of_request(reply: Option<(bool, Option<Seq<char>>)>) -> ReplyOutcome {
    match reply {
        Some((ok, error)) => outcome_of_reply(ok, error),
        None => ReplyOutcome::Timeout,
    }
}

/// What became of a request, given the reply that answered it, if any came
/// before the deadline.
pub fn request_outcome(reply: Option<&ReplyEnvelope>) -> (outcome: ReplyOutcome)
    ensures
        outcome == outcome_of_request(
            match reply {
                Some(r) => Some((r.ok, opt_view(r.error))),
                None => None,
            },
        ),
{
    match reply {
        Some(r) => classify_reply(r),
        None => ReplyOutcome::Timeout,
    }
}

/// The process exit code that stands for an outcome.
pub open spec fn exit_code_of(outcome: ReplyOutcome) -> u8 {
    match outcome {
        ReplyOutcome::Success => 0,
        ReplyOutcome::Unreachable => 2,
        ReplyOutcome::Cooldown => 3,
        ReplyOutcome::NotFound => 4,
        ReplyOutcome::Timeout => 5,
        ReplyOutcome::NotOwner => 6,
        ReplyOutcome::Replay => 7,
        ReplyOutcome::UnknownMethod => 8,
        ReplyOutcome::OtherError => 9,
    }
}

/// The exit code of an outcome: 0 for success, 2 to 9 for the failures.
pub fn outcome_exit_code(outcome: ReplyOutcome) -> (code: u8)
    ensures
        code == exit_code_of(outcome),
{
    match outcome {
        ReplyOutcome::Success => 0,
        ReplyOutcome::Unreachable => 2,
        ReplyOutcome::Cooldown => 3,
        ReplyOutcome::NotFound => 4,
        ReplyOutcome::Timeout => 5,
        ReplyOutcome::NotOwner => 6,
        ReplyOutcome::Replay => 7,
        ReplyOutcome::UnknownMethod => 8,
        ReplyOutcome::OtherError => 9,
    }
}

/// Exit codes are distinct: two outcomes share a code only if they are the
/// same outcome, so a caller can branch on the code alone.
pub proof fn exit_codes_are_distinct(a: ReplyOutcome, b: ReplyOutcome)
    ensures
        exit_code_of(a) == exit_code_of(b) <==> a == b,
{
}

/// The error name by which a receiver reports an outcome, for the outcomes
/// that a receiver reports by name.
pub open spec fn error_name_of(outcome: ReplyOutcome) -> Option<Seq<char>> {
    match outcome {
        ReplyOutcome::Unreachable => Some("unreachable"@),
        ReplyOutcome::Cooldown => Some("cooldown"@),
        ReplyOutcome::NotOwner => Some("not_owner"@),
        ReplyOutcome::Replay => Some("replay"@),
        ReplyOutcome::UnknownMethod => Some("unknown_method"@),
        ReplyOutcome::NotFound => Some("not_found"@),
        _ => None,
    }
}

/// A reply that reports success is a success, whatever error name it also carries.
pub proof fn ok_reply_is_success(error: Option<Seq<char>>)
    ensures
        outcome_of_reply(true, error) == ReplyOutcome::Success,
        exit_code_of(outcome_of_reply(true, error)) == 0,
{
}

/// A failed reply never classifies as success or as a timeout: a timeout is
/// only what the sender concludes when no reply came, and every failure has a
/// nonzero exit code.
pub proof fn failed_reply_is_a_failure(error: Option<Seq<char>>)
    ensures
        outcome_of_reply(false, error) != ReplyOutcome::Success,
        outcome_of_reply(false, error) != ReplyOutcome::Timeout,
        exit_code_of(outcome_of_reply(false, error)) != 0,
        exit_code_of(outcome_of_reply(false, error)) != 5,
{
}

/// A request exits 0 exactly when a reply came that reports success, and 5
/// exactly when no reply came before the deadline.
pub proof fn request_exit_codes(reply: Option<(bool, Option<Seq<char>>)>)
    ensures
        exit_code_of(outcome_of_request(reply)) == 0 <==> (reply matches Some((ok, _)) && ok),
        exit_code_of(outcome_of_request(reply)) == 5 <==> reply is None,
{
}

/// Each error name that a receiver sends is read back as the outcome it names.
pub proof fn error_names_are_read_back(outcome: ReplyOutcome)
    requires
        error_name_of(outcome) is Some,
    ensures
        outcome_of_reply(false, error_name_of(outcome)) == outcome,
{
    reveal_strlit("unreachable");
    reveal_strlit("cooldown");
    reveal_strlit("not_owner");
    reveal_strlit("replay");
    reveal_strlit("unknown_method");
    reveal_strlit("not_found");
    assert("unreachable"@.len() == 11);
    assert("cooldown"@.len() == 8);
    assert("not_owner"@.len() == 9);
    assert("replay"@.len() == 6);
    assert("unknown_method"@.len() == 14);
    assert("not_found"@.len() == 9);
    assert("not_owner"@[4] != "not_found"@[4]);
}

} // verus!
