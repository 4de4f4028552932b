//! The machine's guarantees, stated and proved once over the transition
//! relation rather than observed run by run.

use vstd::prelude::*;
use crate::json::is_json;
use crate::machine::{
    expects, inv, is_stale, is_terminal, steps_to, Action, CacheError, Event, State,
};

verus! {

/// A measure that every transition strictly decreases. It shows that a run
/// terminates, that it contains no retry loop, and — since `Action::Fetch`
/// is emitted only on transitions into `State::AwaitFetch` — that each run
/// performs at most one fetch.
pub open spec fn rank(s: State) -> nat {
    match s {
        State::AwaitMetadata => 5,
        State::AwaitRead => 4,
        State::AwaitFetch => 3,
        State::AwaitWrite { .. } => 2,
        State::AwaitRename { .. } => 1,
        State::Done { .. } => 0,
        State::Failed { .. } => 0,
    }
}

/// Every transition moves strictly down the rank, and a fetch is only ever
/// requested on a transition into `State::AwaitFetch`: the single-attempt,
/// one-fallback-only policy is structural.
pub proof fn lemma_progress(pre: State, now_secs: u64, e: Event, post: State, a: Action)
    requires
        steps_to(pre, now_secs, e, post, a),
    ensures
        rank(post) < rank(pre),
        a == Action::Fetch ==> post == State::AwaitFetch,
{
}

/// Terminal states accept no further event: once the machine is done or
/// failed, the run is over and no further action is requested.
pub proof fn lemma_terminal_accepts_nothing(s: State, e: Event)
    requires
        is_terminal(s),
    ensures
        !expects(s, e),
{
}

/// Cold start: when the slot is absent, the run fetches exactly once,
/// writes exactly the fetched bytes to the temporary file once, renames
/// once, and ends holding a document parsed from exactly those bytes. The
/// four actions listed are the whole run: `s4` is terminal.
pub proof fn lemma_cold_start(
    now_secs: u64,
    body: Vec<u8>,
    s1: State, a1: Action,
    s2: State, a2: Action,
    s3: State, a3: Action,
    s4: State, a4: Action,
)
    requires
        is_json(body@),
        steps_to(State::AwaitMetadata, now_secs, Event::MetadataAbsent, s1, a1),
        steps_to(s1, now_secs, Event::FetchOk { body }, s2, a2),
        steps_to(s2, now_secs, Event::WriteOk, s3, a3),
        steps_to(s3, now_secs, Event::RenameOk, s4, a4),
    ensures
        a1 == Action::Fetch,
        a2 matches Action::WriteTemp { bytes } && bytes@ == body@,
        a3 == Action::Rename,
        a4 == Action::Halt,
        s4 matches State::Done { body: b, .. } && b@ == body@,
        is_terminal(s4),
{
}

/// Warm hit: when the slot is younger than the freshness window and holds
/// well-formed JSON, the run reads the slot, performs zero fetches, and
/// returns a document parsed from exactly the on-disk bytes.
pub proof fn lemma_warm_hit(
    now_secs: u64,
    created_secs: u64,
    bytes: Vec<u8>,
    s1: State, a1: Action,
    s2: State, a2: Action,
)
    requires
        !is_stale(created_secs, now_secs),
        is_json(bytes@),
        steps_to(State::AwaitMetadata, now_secs, Event::MetadataFound { created_secs }, s1, a1),
        steps_to(s1, now_secs, Event::ReadOk { bytes }, s2, a2),
    ensures
        a1 == Action::ReadFile,
        a2 == Action::Halt,
        a1 != Action::Fetch && a2 != Action::Fetch,
        s2 matches State::Done { body: b, .. } && b@ == bytes@,
        is_terminal(s2),
{
}

/// Stale refresh: once creation time + 7 days lies strictly before now, the
/// machine asks for a fetch at once — the slot's contents are never even
/// read, so a refresh happens whether or not they are still valid JSON.
pub proof fn lemma_stale_refresh(now_secs: u64, created_secs: u64, s1: State, a1: Action)
    requires
        is_stale(created_secs, now_secs),
        steps_to(State::AwaitMetadata, now_secs, Event::MetadataFound { created_secs }, s1, a1),
    ensures
        a1 == Action::Fetch,
        s1 == State::AwaitFetch,
{
}

/// Corruption self-heal: a fresh slot whose contents are not well-formed
/// JSON falls back to one fetch, and the run then succeeds whenever the
/// fetch succeeds and its body parses.
pub proof fn lemma_corruption_self_heal(
    now_secs: u64,
    created_secs: u64,
    cached: Vec<u8>,
    body: Vec<u8>,
    s1: State, a1: Action,
    s2: State, a2: Action,
    s3: State, a3: Action,
    s4: State, a4: Action,
    s5: State, a5: Action,
)
    requires
        !is_stale(created_secs, now_secs),
        !is_json(cached@),
        is_json(body@),
        steps_to(State::AwaitMetadata, now_secs, Event::MetadataFound { created_secs }, s1, a1),
        steps_to(s1, now_secs, Event::ReadOk { bytes: cached }, s2, a2),
        steps_to(s2, now_secs, Event::FetchOk { body }, s3, a3),
        steps_to(s3, now_secs, Event::WriteOk, s4, a4),
        steps_to(s4, now_secs, Event::RenameOk, s5, a5),
    ensures
        a1 == Action::ReadFile,
        a2 == Action::Fetch,
        a3 matches Action::WriteTemp { bytes } && bytes@ == body@,
        s5 matches State::Done { body: b, .. } && b@ == body@,
        is_terminal(s5),
{
}

/// Atomicity of the commit. Two facts carry it: the final path is written
/// only by the rename, and a rename is requested only from `AwaitWrite`
/// after the temporary file was written in full — never twice, never before
/// the fetched body parsed. If the rename then fails, the run ends at once
/// with an I/O error and no further action, so the final path keeps its
/// pre-call content (or stays absent).
pub proof fn lemma_rename_discipline(pre: State, now_secs: u64, e: Event, post: State, a: Action)
    requires
        steps_to(pre, now_secs, e, post, a),
    ensures
        a == Action::Rename ==> (pre matches State::AwaitWrite { .. } && e == Event::WriteOk),
        e == Event::RenameErr ==> post == (State::Failed { err: CacheError::Io })
            && a == Action::Halt && is_terminal(post),
{
}

/// No partial commit: if the fetch hands back a body that is not well-formed
/// JSON, the run fails with a parse error before anything is written — no
/// temporary write, no rename, and no event is accepted afterwards, so the
/// final path is never modified.
pub proof fn lemma_malformed_fetch_never_commits(
    now_secs: u64,
    body: Vec<u8>,
    post: State,
    a: Action,
)
    requires
        !is_json(body@),
        steps_to(State::AwaitFetch, now_secs, Event::FetchOk { body }, post, a),
    ensures
        post == (State::Failed { err: CacheError::Parse }),
        a == Action::Halt,
        is_terminal(post),
{
}

/// Only well-formed JSON is ever staged or committed: under the machine's
/// invariant, a `WriteTemp` carries bytes that parse, and a `Rename` commits
/// a temporary file whose recorded bytes parse. The invariant itself is
/// preserved by every transition.
pub proof fn lemma_commit_carries_valid_json(
    pre: State,
    now_secs: u64,
    e: Event,
    post: State,
    a: Action,
)
    requires
        inv(pre),
        steps_to(pre, now_secs, e, post, a),
    ensures
        a matches Action::WriteTemp { bytes } ==> is_json(bytes@),
        a == Action::Rename ==> (pre matches State::AwaitWrite { body, .. } && is_json(body@)),
        inv(post),
{
}

} // verus!
