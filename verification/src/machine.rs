//! The cache-or-fetch decision machine.
//!
//! One run of the machine decides one top-level operation on one cache slot.
//! The machine holds no file handles and opens no connections: it is driven
//! by a loop that performs each requested [`Action`], observes the outcome,
//! and hands it back as an [`Event`]. Every decision of the operation — the
//! freshness check, the fallback from a corrupt cache to a fresh fetch, the
//! parse-before-write rule, and the rename commit point — is taken here and
//! verified against [`steps_to`].

use vstd::prelude::*;
use crate::json::{is_json, parse_json};

verus! {

/// How long a cached entry stays fresh, measured from its creation time:
/// seven days, in seconds.
pub const FRESHNESS_WINDOW_SECS: u64 = 60 * 60 * 24 * 7;

/// A cached entry created at `created_secs` is stale at `now_secs` once the
/// freshness window has passed in full: strictly after creation + 7 days.
pub open spec fn is_stale(created_secs: u64, now_secs: u64) -> bool {
    created_secs + FRESHNESS_WINDOW_SECS < now_secs
}

/// The freshness decider's comparison, free of overflow.
pub fn stale(created_secs: u64, now_secs: u64) -> (r: bool)
    ensures
        r == is_stale(created_secs, now_secs),
{
    created_secs < now_secs && now_secs - created_secs > FRESHNESS_WINDOW_SECS
}

/// The stage of the operation that failed. Once a fallback fetch has been
/// attempted there is nothing left to fall back to, so each of these is
/// terminal.
#[derive(Clone, Copy, Debug, PartialEq, Eq)]
pub enum CacheError {
    /// No cache directory could be determined for the host.
    DirectoryResolution,
    /// The network fetch failed.
    Network,
    /// The fetched text is not well-formed JSON.
    Parse,
    /// A metadata query, file write or rename failed.
    Io,
}

/// What the driver must do next. `WriteTemp` and `Rename` are the only
/// actions that touch the slot's files with intent to change them, and
/// `Rename` alone touches the final path.
pub enum Action {
    /// Query filesystem metadata for the final path.
    QueryMetadata,
    /// Read the complete contents of the final path.
    ReadFile,
    /// Issue one HTTP GET to the source URL and read the body in full.
    Fetch,
    /// Create or truncate the temporary path and write `bytes` to it in full.
    WriteTemp { bytes: Vec<u8> },
    /// Atomically rename the temporary path onto the final path.
    Rename,
    /// The run is over; inspect the machine's state for the outcome.
    Halt,
}

/// The outcome of the last action, observed by the driver.
pub enum Event {
    /// The final path exists and its creation time is `created_secs`
    /// (seconds since the epoch).
    MetadataFound { created_secs: u64 },
    /// The final path exists but its creation time cannot be obtained.
    MetadataCreatedUnavailable,
    /// The metadata query failed: the slot is treated as absent.
    MetadataAbsent,
    /// The final path was read in full.
    ReadOk { bytes: Vec<u8> },
    /// The final path could not be read.
    ReadErr,
    /// The fetch succeeded and the response body is `body`.
    FetchOk { body: Vec<u8> },
    /// The connection or transfer failed, or the server answered with a
    /// non-success status.
    FetchErr,
    /// The temporary file was written in full.
    WriteOk,
    /// Creating or writing the temporary file failed.
    WriteErr,
    /// The temporary path was renamed onto the final path.
    RenameOk,
    /// The rename failed; the final path is untouched.
    RenameErr,
}

/// Where the operation stands. The content fields record, in ghost form,
/// the exact bytes that the held document was parsed from.
pub enum State {
    /// Waiting for the metadata of the final path.
    AwaitMetadata,
    /// The slot is fresh: waiting for its contents.
    AwaitRead,
    /// The slot is absent, stale or corrupt: waiting for the fetched body.
    AwaitFetch,
    /// The fetched body parsed: waiting for it to reach the temporary file.
    AwaitWrite { doc: serde_json::Value, body: Ghost<Seq<u8>> },
    /// The temporary file is complete: waiting for the commit rename.
    AwaitRename { doc: serde_json::Value, body: Ghost<Seq<u8>> },
    /// The operation succeeded; `doc` was parsed from `body`.
    Done { doc: serde_json::Value, body: Ghost<Seq<u8>> },
    /// The operation failed at the stage `err` names.
    Failed { err: CacheError },
}

/// Which events answer the pending action of a state. Terminal states
/// expect none.
pub open spec fn expects(s: State, e: Event) -> bool {
    match s {
        State::AwaitMetadata => {
            ||| e matches Event::MetadataFound { .. }
            ||| e matches Event::MetadataCreatedUnavailable
            ||| e matches Event::MetadataAbsent
        },
        State::AwaitRead => e matches Event::ReadOk { .. } || e matches Event::ReadErr,
        State::AwaitFetch => e matches Event::FetchOk { .. } || e matches Event::FetchErr,
        State::AwaitWrite { .. } => e matches Event::WriteOk || e matches Event::WriteErr,
        State::AwaitRename { .. } => e matches Event::RenameOk || e matches Event::RenameErr,
        State::Done { .. } => false,
        State::Failed { .. } => false,
    }
}

/// A state from which the run is over.
pub open spec fn is_terminal(s: State) -> bool {
    s matches State::Done { .. } || s matches State::Failed { .. }
}

/// The complete transition relation of the machine: from state `pre` under
/// event `e`, at call time `now_secs`, the machine moves to `post` and asks
/// the driver for `a`.
pub open spec fn steps_to(pre: State, now_secs: u64, e: Event, post: State, a: Action) -> bool {
    match (pre, e) {
        (State::AwaitMetadata, Event::MetadataAbsent) => {
            &&& post == State::AwaitFetch
            &&& a == Action::Fetch
        },
        (State::AwaitMetadata, Event::MetadataCreatedUnavailable) => {
            &&& post == (State::Failed { err: CacheError::Io })
            &&& a == Action::Halt
        },
        (State::AwaitMetadata, Event::MetadataFound { created_secs }) => {
            if is_stale(created_secs, now_secs) {
                post == State::AwaitFetch && a == Action::Fetch
            } else {
                post == State::AwaitRead && a == Action::ReadFile
            }
        },
        (State::AwaitRead, Event::ReadOk { bytes }) => {
            if is_json(bytes@) {
                &&& post matches State::Done { body, .. } && body@ == bytes@
                &&& a == Action::Halt
            } else {
                post == State::AwaitFetch && a == Action::Fetch
            }
        },
        (State::AwaitRead, Event::ReadErr) => {
            &&& post == State::AwaitFetch
            &&& a == Action::Fetch
        },
        (State::AwaitFetch, Event::FetchOk { body }) => {
            if is_json(body@) {
                &&& post matches State::AwaitWrite { body: b, .. } && b@ == body@
                &&& a matches Action::WriteTemp { bytes } && bytes@ == body@
            } else {
                &&& post == (State::Failed { err: CacheError::Parse })
                &&& a == Action::Halt
            }
        },
        (State::AwaitFetch, Event::FetchErr) => {
            &&& post == (State::Failed { err: CacheError::Network })
            &&& a == Action::Halt
        },
        (State::AwaitWrite { doc, body }, Event::WriteOk) => {
            &&& post matches State::AwaitRename { doc: d, body: b } && d == doc && b == body
            &&& a == Action::Rename
        },
        (State::AwaitWrite { .. }, Event::WriteErr) => {
            &&& post == (State::Failed { err: CacheError::Io })
            &&& a == Action::Halt
        },
        (State::AwaitRename { doc, body }, Event::RenameOk) => {
            &&& post matches State::Done { doc: d, body: b } && d == doc && b == body
            &&& a == Action::Halt
        },
        (State::AwaitRename { .. }, Event::RenameErr) => {
            &&& post == (State::Failed { err: CacheError::Io })
            &&& a == Action::Halt
        },
        _ => false,
    }
}

/// Every document the machine holds was parsed from the bytes recorded
/// beside it, so those bytes are always well-formed JSON.
pub open spec fn inv(s: State) -> bool {
    match s {
        State::AwaitWrite { body, .. } => is_json(body@),
        State::AwaitRename { body, .. } => is_json(body@),
        State::Done { body, .. } => is_json(body@),
        _ => true,
    }
}

/// One top-level cache-or-fetch operation. `now_secs` is fixed when the
/// machine is made: freshness is evaluated at call time, once per run.
pub struct Machine {
    pub now_secs: u64,
    pub state: State,
}

impl Machine {
    /// Start a run at `now_secs` (seconds since the epoch). The pending
    /// action of the fresh machine is `Action::QueryMetadata`.
    pub fn new(now_secs: u64) -> (m: Machine)
        ensures
            m.now_secs == now_secs,
            m.state == State::AwaitMetadata,
            inv(m.state),
    {
        Machine { now_secs, state: State::AwaitMetadata }
    }

    /// Feed the outcome of the last action and obtain the next one. The
    /// transition taken is exactly the one `steps_to` describes.
    pub fn step(self, e: Event) -> (r: (Machine, Action))
        requires
            expects(self.state, e),
        ensures
            r.0.now_secs == self.now_secs,
            steps_to(self.state, self.now_secs, e, r.0.state, r.1),
            inv(self.state) ==> inv(r.0.state),
    {
        let Machine { now_secs, state } = self;
        match (state, e) {
            (State::AwaitMetadata, Event::MetadataAbsent) => {
                (Machine { now_secs, state: State::AwaitFetch }, Action::Fetch)
            },
            (State::AwaitMetadata, Event::MetadataCreatedUnavailable) => {
                (Machine { now_secs, state: State::Failed { err: CacheError::Io } }, Action::Halt)
            },
            (State::AwaitMetadata, Event::MetadataFound { created_secs }) => {
                if stale(created_secs, now_secs) {
                    (Machine { now_secs, state: State::AwaitFetch }, Action::Fetch)
                } else {
                    (Machine { now_secs, state: State::AwaitRead }, Action::ReadFile)
                }
            },
            (State::AwaitRead, Event::ReadOk { bytes }) => {
                let ghost read_bytes = bytes@;
                match parse_json(&bytes) {
                    Option::Some(doc) => (
                        Machine { now_secs, state: State::Done { doc, body: Ghost(read_bytes) } },
                        Action::Halt,
                    ),
                    Option::None => (Machine { now_secs, state: State::AwaitFetch }, Action::Fetch),
                }
            },
            (State::AwaitRead, Event::ReadErr) => {
                (Machine { now_secs, state: State::AwaitFetch }, Action::Fetch)
            },
            (State::AwaitFetch, Event::FetchOk { body }) => {
                let ghost fetched = body@;
                match parse_json(&body) {
                    Option::Some(doc) => (
                        Machine {
                            now_secs,
                            state: State::AwaitWrite { doc, body: Ghost(fetched) },
                        },
                        Action::WriteTemp { bytes: body },
                    ),
                    Option::None => (
                        Machine { now_secs, state: State::Failed { err: CacheError::Parse } },
                        Action::Halt,
                    ),
                }
            },
            (State::AwaitFetch, Event::FetchErr) => {
                (Machine { now_secs, state: State::Failed { err: CacheError::Network } }, Action::Halt)
            },
            (State::AwaitWrite { doc, body }, Event::WriteOk) => {
                (Machine { now_secs, state: State::AwaitRename { doc, body } }, Action::Rename)
            },
            (State::AwaitWrite { .. }, Event::WriteErr) => {
                (Machine { now_secs, state: State::Failed { err: CacheError::Io } }, Action::Halt)
            },
            (State::AwaitRename { doc, body }, Event::RenameOk) => {
                (Machine { now_secs, state: State::Done { doc, body } }, Action::Halt)
            },
            (State::AwaitRename { .. }, Event::RenameErr) => {
                (Machine { now_secs, state: State::Failed { err: CacheError::Io } }, Action::Halt)
            },
            (s, _) => {
                proof {
                    assert(false);
                }
                (Machine { now_secs, state: s }, Action::Halt)
            },
        }
    }
}

} // verus!
