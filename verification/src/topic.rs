//! The bus topics and session names of a request and its reply.

use vstd::prelude::*;
use vstd::string::*;

use crate::report::{decimal, push_decimal};

verus! {

/// The topic on which a request to session `to` is published.
pub fn request_topic(to: &str) -> (topic: String)
    ensures
        topic@ == "rpc.req."@ + to@,
{
    let mut topic = "rpc.req.".to_owned();
    topic.append(to);
    topic
}

/// The topic on which replies to session `sid` come.
pub fn reply_topic(sid: &str) -> (topic: String)
    ensures
        topic@ == "rpc.reply."@ + sid@,
{
    let mut topic = "rpc.reply.".to_owned();
    topic.append(sid);
    topic
}

/// The session name under which process `pid` of session `sid` listens for
/// replies.
pub fn reply_listener_sid(sid: &str, pid: u32) -> (name: String)
    ensures
        name@ == sid@ + "-baton-reply-"@ + decimal(pid as nat),
{
    let mut name = sid.to_owned();
    name.append("-baton-reply-");
    push_decimal(&mut name, pid as u64);
    name
}

/// The sender's own session id: the one given with `--from`, else the one
/// in the environment, else `baton-cli-` and the process id.
pub open spec fn self_sid_text(flag: Option<Seq<char>>, env: Option<Seq<char>>, pid: u32) -> Seq<
    char,
> {
    match flag {
        Some(f) => f,
        None => match env {
            Some(e) => e,
            None => "baton-cli-"@ + decimal(pid as nat),
        },
    }
}

/// Chooses the sender's own session id from the `--from` flag, the
/// session id in the environment and the process id.
pub fn self_session_id(flag: Option<String>, env: Option<String>, pid: u32) -> (sid: String)
    ensures
        sid@ == self_sid_text(
            match flag {
                Some(f) => Some(f@),
                None => None,
            },
            match env {
                Some(e) => Some(e@),
                None => None,
            },
            pid,
        ),
{
    match flag {
        Some(f) => f,
        None => match env {
            Some(e) => e,
            None => {
                let mut sid = "baton-cli-".to_owned();
                push_decimal(&mut sid, pid as u64);
                sid
            },
        },
    }
}

} // verus!
