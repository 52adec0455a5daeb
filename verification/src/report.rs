//! The text that the sender prints: the peer listing and failure messages.

use vstd::prelude::*;
use vstd::string::*;

use crate::surface::SurfaceRecord;

verus! {

/// The character of a decimal digit.
pub open spec fn decimal_digit(d: nat) -> char {
    (48 + d) as char
}

/// The decimal notation of a number, without leading zeros.
pub open spec fn decimal(n: nat) -> Seq<char>
    decreases n,
{
    if n < 10 {
        seq![decimal_digit(n)]
    } else {
        decimal(n / 10) + seq![decimal_digit(n % 10)]
    }
}

/// Appends the decimal notation of `n` to `out`.
pub fn push_decimal(out: &mut String, n: u64)
    ensures
        final(out)@ == old(out)@ + decimal(n as nat),
    decreases n,
{
    if n >= 10 {
        push_decimal(out, n / 10);
    }
    let d = (n % 10) as u8;
    out.push((48u8 + d) as char);
    assert(final(out)@ =~= old(out)@ + decimal(n as nat));
}

/// The line that lists one registered surface: its session id, its kind
/// and when it registered, separated by two spaces.
pub open spec fn peer_line_text(session_id: Seq<char>, kind: Seq<char>, registered: u64) -> Seq<
    char,
> {
    session_id + "  "@ + kind + "  registered="@ + decimal(registered as nat)
}

/// The line that lists one registered surface of the given kind.
pub fn peer_line(record: &SurfaceRecord, kind: &str) -> (line: String)
    ensures
        line@ == peer_line_text(record.session_id@, kind@, record.registered_unix),
{
    let mut line = record.session_id.clone();
    line.append("  ");
    line.append(kind);
    line.append("  registered=");
    push_decimal(&mut line, record.registered_unix);
    line
}

/// The message printed for a failed reply: `baton:`, the error name (or
/// `error` where there is none) and the detail (or nothing).
pub open spec fn failure_text(error: Option<Seq<char>>, detail: Option<Seq<char>>) -> Seq<char> {
    let e = match error {
        Some(e) => e,
        None => "error"@,
    };
    let d = match detail {
        Some(d) => d,
        None => ""@,
    };
    "baton: "@ + e + " "@ + d
}

/// The message for a failed reply with the given error name and detail.
pub fn failure_message(error: &Option<String>, detail: &Option<String>) -> (msg: String)
    ensures
        msg@ == failure_text(
            match error {
                Some(e) => Some(e@),
                None => None,
            },
            match detail {
                Some(d) => Some(d@),
                None => None,
            },
        ),
{
    let mut msg = "baton: ".to_owned();
    match error {
        Some(e) => msg.append(e.as_str()),
        None => msg.append("error"),
    }
    msg.append(" ");
    match detail {
        Some(d) => msg.append(d.as_str()),
        None => msg.append(""),
    }
    msg
}

} // verus!
