//! baton: the sender side of cross-window delegation between interactive sessions.
//!
//! The library builds the RPC envelopes that a sender publishes, makes their
//! ids, orders and names the cached surface records, and turns a receiver's
//! reply into one of a fixed set of outcomes with stable exit codes.

use vstd::prelude::*;

pub mod clock;
pub mod envelope;
pub mod id;
pub mod json;
pub mod reply;
pub mod report;
pub mod scan;
pub mod surface;
pub mod text;
pub mod topic;

pub use clock::{now_unix, now_unix_nanos};
pub use envelope::{build_key_envelope, build_send_envelope, build_spawn_envelope, Envelope, Params};
pub use id::make_id;
pub use reply::{classify_reply, outcome_exit_code, ReplyEnvelope, ReplyOutcome};
pub use scan::forbidden_terms;
pub use surface::SurfaceRecord;

verus! {

/// How long the receiver waits after typing before it submits, in milliseconds.
pub const DEFAULT_SETTLE_MS: u32 = 750;

/// How long a sender waits for a reply, in seconds.
pub const DEFAULT_DEADLINE_SECS: u64 = 30;

} // verus!
