//! One request's run: a state machine that sequences resolution, the
//! per-tier fetches and the cache writes, under a fault boundary.
//!
//! The machine owns every decision; the surrounding binary only performs
//! the returned [`Action`] (one network or filesystem call) and feeds the
//! call's result back as an [`Event`].  Every transition is total: any
//! event, in any phase, yields a next state and an action, so a run always
//! ends in exactly one outcome.
//!
//! Partial-failure policy: resolution errors abort the whole request.  A
//! tier whose URL did not resolve is skipped silently.  A tier whose fetch
//! or write fails is recorded and the next tier is still attempted; the run
//! counts as successful when at least one attempted tier was written, and
//! fails — carrying the first tier failure's message — only when every
//! attempted tier failed.

use vstd::prelude::*;

use crate::cache::cache_dir;
use crate::cache::cache_dir_spec;
use crate::cache::cache_file_path;
use crate::cache::cache_path_spec;
use crate::fetch::infer_extension;
use crate::fetch::inferred_ext;
use crate::fetch::opt_string_v;
use crate::outcome::DownloadOutcome;
use crate::outcome::ResolveError;
use crate::outcome::TierError;
use crate::outcome::resolve_error_message;
use crate::outcome::resolve_error_message_spec;
use crate::outcome::tier_error_message;
use crate::outcome::tier_error_message_spec;
use crate::resolve::TierUrl;
use crate::resolve::classify_spec;
use crate::resolve::interpret_body;
use crate::resolve::parsed_streams;
use crate::resolve::plan;
use crate::resolve::plan_v;
use crate::resolve::queue_v;
use crate::resolve::request_body_spec;
use crate::resolve::resolve_request_body;
use crate::resolve::status_is_success;
use crate::resolve::status_is_success_spec;
use crate::tier::Tier;

verus! {

/// The deadline one run is given, in seconds.  After it fires the run is
/// abandoned and answers with a timeout outcome; in-flight calls that do
/// not support cancellation may still finish in the background.
pub const TIMEOUT_SECS: u64 = 300;

/// One inbound request: the upstream media id, the caller-supplied cache
/// hash, and an opaque credential forwarded verbatim to the upstream call.
pub struct DownloadRequest {
    pub id: String,
    pub hash: String,
    pub auth_token: String,
}

/// Where a run stands.
pub enum Phase {
    /// The one upstream resolution call is outstanding.
    Resolving,
    /// `queue` holds the tiers still to download, current first; the fetch
    /// of `queue[0]` is outstanding.
    Fetching { queue: Vec<TierUrl>, got_one: bool, first_failure: Option<String> },
    /// The fetched bytes of `queue[0]` are being written to `path`.
    Writing {
        queue: Vec<TierUrl>,
        got_one: bool,
        first_failure: Option<String>,
        dir: String,
        path: String,
    },
    /// Terminal: the outcome to answer with.
    Done { outcome: DownloadOutcome },
}

/// One request's run.
pub struct Run {
    pub root: String,
    pub hash: String,
    pub phase: Phase,
}

/// What the world reported back after performing the last action.
pub enum Event {
    /// The resolution transport call failed outright.
    ResolveFailed,
    /// The resolution call answered with `status`; `body` is its text, or
    /// `None` when the body could not be read.
    ResolveResponse { status: u16, body: Option<String> },
    /// The current tier's fetch failed: transport or status error, or —
    /// when `read_failed` — the body could not be drained.
    FetchFailed { read_failed: bool },
    /// The current tier's fetch succeeded with `bytes`, declaring
    /// `content_type`.
    FetchOk { content_type: Option<String>, bytes: Vec<u8> },
    /// The current tier's cache write finished.
    WriteDone { ok: bool },
    /// The run's deadline fired.
    TimedOut,
    /// An unexpected fault was intercepted by the fault boundary.
    Fault { message: String },
}

/// What the driver must do next.
pub enum Action {
    /// Post `body` to the upstream endpoint, credential attached.
    CallResolve { body: String },
    /// Fetch `url`'s bytes.
    CallFetch { url: String },
    /// Create `dir` (and its parents) if absent and write `bytes` — the
    /// fetched bytes, handed through unchanged — to `path`, overwriting any
    /// existing file.
    CallWrite { dir: String, path: String, bytes: Vec<u8> },
    /// The run is over: answer the caller with this outcome.
    Respond { ok: bool, error: String },
}

/// The mathematical value of a phase.
#[verifier::ext_equal]
pub enum PhaseV {
    Resolving,
    Fetching { queue: Seq<(Tier, Seq<char>)>, got_one: bool, first_failure: Option<Seq<char>> },
    Writing {
        queue: Seq<(Tier, Seq<char>)>,
        got_one: bool,
        first_failure: Option<Seq<char>>,
        dir: Seq<char>,
        path: Seq<char>,
    },
    Done { ok: bool, error: Seq<char> },
}

/// The mathematical value of a run.
#[verifier::ext_equal]
pub struct RunV {
    pub root: Seq<char>,
    pub hash: Seq<char>,
    pub phase: PhaseV,
}

/// The mathematical value of an event.
#[verifier::ext_equal]
pub enum EventV {
    ResolveFailed,
    ResolveResponse { status: u16, body: Option<Seq<char>> },
    FetchFailed { read_failed: bool },
    FetchOk { content_type: Option<Seq<char>>, bytes: Seq<u8> },
    WriteDone { ok: bool },
    TimedOut,
    Fault { message: Seq<char> },
}

/// The mathematical value of an action.
#[verifier::ext_equal]
pub enum ActionV {
    CallResolve { body: Seq<char> },
    CallFetch { url: Seq<char> },
    CallWrite { dir: Seq<char>, path: Seq<char>, bytes: Seq<u8> },
    Respond { ok: bool, error: Seq<char> },
}

pub open spec fn phase_v(p: Phase) -> PhaseV {
    match p {
        Phase::Resolving => PhaseV::Resolving,
        Phase::Fetching { queue, got_one, first_failure } => PhaseV::Fetching {
            queue: queue_v(queue@),
            got_one,
            first_failure: opt_string_v(first_failure),
        },
        Phase::Writing { queue, got_one, first_failure, dir, path } => PhaseV::Writing {
            queue: queue_v(queue@),
            got_one,
            first_failure: opt_string_v(first_failure),
            dir: dir@,
            path: path@,
        },
        Phase::Done { outcome } => PhaseV::Done { ok: outcome.ok, error: outcome.error@ },
    }
}

pub open spec fn run_v(r: Run) -> RunV {
    RunV { root: r.root@, hash: r.hash@, phase: phase_v(r.phase) }
}

pub open spec fn event_v(e: Event) -> EventV {
    match e {
        Event::ResolveFailed => EventV::ResolveFailed,
        Event::ResolveResponse { status, body } => EventV::ResolveResponse {
            status,
            body: opt_string_v(body),
        },
        Event::FetchFailed { read_failed } => EventV::FetchFailed { read_failed },
        Event::FetchOk { content_type, bytes } => EventV::FetchOk {
            content_type: opt_string_v(content_type),
            bytes: bytes@,
        },
        Event::WriteDone { ok } => EventV::WriteDone { ok },
        Event::TimedOut => EventV::TimedOut,
        Event::Fault { message } => EventV::Fault { message: message@ },
    }
}

pub open spec fn action_v(a: Action) -> ActionV {
    match a {
        Action::CallResolve { body } => ActionV::CallResolve { body: body@ },
        Action::CallFetch { url } => ActionV::CallFetch { url: url@ },
        Action::CallWrite { dir, path, bytes } => ActionV::CallWrite {
            dir: dir@,
            path: path@,
            bytes: bytes@,
        },
        Action::Respond { ok, error } => ActionV::Respond { ok, error: error@ },
    }
}

/// The message a timed-out run answers with.
pub open spec fn timeout_message_spec() -> Seq<char> {
    "download timed out"@
}

/// The message an intercepted fault answers with.
pub open spec fn fault_message_spec(m: Seq<char>) -> Seq<char> {
    "internal fault: "@ + m
}

/// The message answered when an event arrives that its phase cannot take.
pub open spec fn mismatch_message_spec() -> Seq<char> {
    "internal fault: event did not match the run phase"@
}

/// The failure message of a run in which every attempted tier failed,
/// carrying the first tier failure.
pub open spec fn aggregate_failure_spec(first_failure: Option<Seq<char>>) -> Seq<char> {
    match first_failure {
        Option::Some(m) => "download failed: "@ + m,
        Option::None => "download failed"@,
    }
}

/// A terminal state and its respond action.
pub open spec fn done_v(root: Seq<char>, hash: Seq<char>, ok: bool, error: Seq<char>) -> (RunV, ActionV) {
    (
        RunV { root, hash, phase: PhaseV::Done { ok, error } },
        ActionV::Respond { ok, error },
    )
}

/// The outcome once no tier is left: success when at least one attempted
/// tier was written, else failure carrying the first tier failure.
pub open spec fn finish_v(root: Seq<char>, hash: Seq<char>, got_one: bool, first_failure: Option<Seq<char>>) -> (RunV, ActionV) {
    if got_one {
        done_v(root, hash, true, Seq::<char>::empty())
    } else {
        done_v(root, hash, false, aggregate_failure_spec(first_failure))
    }
}

/// Keeps the first recorded tier failure.
pub open spec fn record_v(first_failure: Option<Seq<char>>, m: Seq<char>) -> Option<Seq<char>> {
    match first_failure {
        Option::Some(x) => Option::Some(x),
        Option::None => Option::Some(m),
    }
}

/// Moves to the next queued tier, or finishes when none is left.
pub open spec fn advance_v(root: Seq<char>, hash: Seq<char>, rest: Seq<(Tier, Seq<char>)>, got_one: bool, first_failure: Option<Seq<char>>) -> (RunV, ActionV) {
    if rest.len() > 0 {
        (
            RunV { root, hash, phase: PhaseV::Fetching { queue: rest, got_one, first_failure } },
            ActionV::CallFetch { url: rest[0].1 },
        )
    } else {
        finish_v(root, hash, got_one, first_failure)
    }
}

/// How a resolution answer transitions the run: a non-success status or an
/// unreadable body fails the request; otherwise the body's classification
/// either fails it or starts the tier queue.
pub open spec fn resolve_response_v(root: Seq<char>, hash: Seq<char>, status: u16, body: Option<Seq<char>>) -> (RunV, ActionV) {
    if !status_is_success_spec(status) {
        done_v(
            root,
            hash,
            false,
            resolve_error_message_spec(
                ResolveError::UpstreamUnavailable { status: Option::Some(status) },
            ),
        )
    } else {
        match body {
            Option::None => done_v(
                root,
                hash,
                false,
                resolve_error_message_spec(ResolveError::UpstreamUnavailable { status: Option::None }),
            ),
            Option::Some(b) => match classify_spec(parsed_streams(b)) {
                Result::Err(e) => done_v(root, hash, false, resolve_error_message_spec(e)),
                Result::Ok(u) => advance_v(root, hash, plan_v(u), false, Option::None),
            },
        }
    }
}

/// The run's transition function: from a state and an event to the next
/// state and the next action.  Total: a terminal state absorbs every event
/// and keeps answering with its outcome, and an event that its phase cannot
/// take is normalized to an internal-fault outcome.
pub open spec fn step_v(rv: RunV, ev: EventV) -> (RunV, ActionV) {
    let root = rv.root;
    let hash = rv.hash;
    match rv.phase {
        PhaseV::Done { ok, error } => (rv, ActionV::Respond { ok, error }),
        _ => match ev {
            EventV::TimedOut => done_v(root, hash, false, timeout_message_spec()),
            EventV::Fault { message } => done_v(root, hash, false, fault_message_spec(message)),
            _ => match (rv.phase, ev) {
                (PhaseV::Resolving, EventV::ResolveFailed) => done_v(
                    root,
                    hash,
                    false,
                    resolve_error_message_spec(ResolveError::UpstreamUnavailable { status: Option::None }),
                ),
                (PhaseV::Resolving, EventV::ResolveResponse { status, body }) => resolve_response_v(
                    root,
                    hash,
                    status,
                    body,
                ),
                (PhaseV::Fetching { queue, got_one, first_failure }, EventV::FetchFailed { read_failed }) => {
                    if queue.len() == 0 {
                        done_v(root, hash, false, mismatch_message_spec())
                    } else {
                        let m = tier_error_message_spec(
                            queue[0].0,
                            if read_failed {
                                TierError::ReadFailed
                            } else {
                                TierError::FetchFailed
                            },
                        );
                        advance_v(root, hash, queue.drop_first(), got_one, record_v(first_failure, m))
                    }
                },
                (PhaseV::Fetching { queue, got_one, first_failure }, EventV::FetchOk { content_type, bytes }) => {
                    if queue.len() == 0 {
                        done_v(root, hash, false, mismatch_message_spec())
                    } else {
                        let dir = cache_dir_spec(root, hash);
                        let path = cache_path_spec(root, hash, queue[0].0, inferred_ext(content_type));
                        (
                            RunV {
                                root,
                                hash,
                                phase: PhaseV::Writing { queue, got_one, first_failure, dir, path },
                            },
                            ActionV::CallWrite { dir, path, bytes },
                        )
                    }
                },
                (PhaseV::Writing { queue, got_one, first_failure, dir, path }, EventV::WriteDone { ok }) => {
                    if queue.len() == 0 {
                        done_v(root, hash, false, mismatch_message_spec())
                    } else if ok {
                        advance_v(root, hash, queue.drop_first(), true, first_failure)
                    } else {
                        let m = tier_error_message_spec(queue[0].0, TierError::PersistFailed);
                        advance_v(root, hash, queue.drop_first(), got_one, record_v(first_failure, m))
                    }
                },
                _ => done_v(root, hash, false, mismatch_message_spec()),
            },
        },
    }
}

/// The state a fresh run starts in.
pub open spec fn start_v(root: Seq<char>, hash: Seq<char>) -> RunV {
    RunV { root, hash, phase: PhaseV::Resolving }
}

fn done_run(root: String, hash: String, ok: bool, error: String) -> (r: (Run, Action))
    ensures
        run_v(r.0) == done_v(root@, hash@, ok, error@).0,
        action_v(r.1) == done_v(root@, hash@, ok, error@).1,
{
    let error2 = error.clone();
    (
        Run { root, hash, phase: Phase::Done { outcome: DownloadOutcome { ok, error } } },
        Action::Respond { ok, error: error2 },
    )
}

fn advance_run(root: String, hash: String, rest: Vec<TierUrl>, got_one: bool, first_failure: Option<String>) -> (r: (Run, Action))
    ensures
        run_v(r.0) == advance_v(root@, hash@, queue_v(rest@), got_one, opt_string_v(first_failure)).0,
        action_v(r.1) == advance_v(root@, hash@, queue_v(rest@), got_one, opt_string_v(first_failure)).1,
{
    if rest.len() > 0 {
        let url = rest[0].url.clone();
        (
            Run { root, hash, phase: Phase::Fetching { queue: rest, got_one, first_failure } },
            Action::CallFetch { url },
        )
    } else if got_one {
        done_run(root, hash, true, String::new())
    } else {
        let msg = match first_failure {
            Option::Some(m) => {
                let mut s = String::from_str("download failed: ");
                s.append(m.as_str());
                s
            },
            Option::None => String::from_str("download failed"),
        };
        done_run(root, hash, false, msg)
    }
}

/// The outcome of a run abandoned at its deadline: the same failed outcome
/// a live run reaches on a timeout event.
pub fn timeout_outcome() -> (o: DownloadOutcome)
    ensures
        o.ok == false,
        o.error@ == timeout_message_spec(),
{
    DownloadOutcome { ok: false, error: String::from_str("download timed out") }
}

/// The outcome of a run whose task faulted so hard that not even the fault
/// event could be delivered: the same failed outcome a live run reaches on
/// a fault event.
pub fn fault_outcome(message: String) -> (o: DownloadOutcome)
    ensures
        o.ok == false,
        o.error@ == fault_message_spec(message@),
{
    let mut m = String::from_str("internal fault: ");
    m.append(message.as_str());
    DownloadOutcome { ok: false, error: m }
}

/// Starts a run for `req` under cache root `root`, and asks the driver to
/// post the resolution query.  The credential is not part of the body: the
/// driver forwards `req.auth_token` verbatim as the call's cookie header.
pub fn start(root: &str, req: &DownloadRequest) -> (r: (Run, Action))
    ensures
        run_v(r.0) == start_v(root@, req.hash@),
        action_v(r.1) == (ActionV::CallResolve { body: request_body_spec(req.id@) }),
{
    let body = resolve_request_body(req.id.as_str());
    (
        Run { root: root.to_owned(), hash: req.hash.clone(), phase: Phase::Resolving },
        Action::CallResolve { body },
    )
}

impl Run {
    /// Takes one event and moves the run one transition: exactly the
    /// mathematical transition [`step_v`] on the run's value.
    pub fn step(self, ev: Event) -> (r: (Run, Action))
        ensures
            run_v(r.0) == step_v(run_v(self), event_v(ev)).0,
            action_v(r.1) == step_v(run_v(self), event_v(ev)).1,
    {
        let Run { root, hash, phase } = self;
        match (phase, ev) {
            (Phase::Done { outcome }, _) => {
                let ok = outcome.ok;
                let error2 = outcome.error.clone();
                (
                    Run { root, hash, phase: Phase::Done { outcome } },
                    Action::Respond { ok, error: error2 },
                )
            },
            (_, Event::TimedOut) => done_run(root, hash, false, String::from_str("download timed out")),
            (_, Event::Fault { message }) => {
                let mut m = String::from_str("internal fault: ");
                m.append(message.as_str());
                done_run(root, hash, false, m)
            },
            (Phase::Resolving, Event::ResolveFailed) => {
                let m = resolve_error_message(&ResolveError::UpstreamUnavailable { status: None });
                done_run(root, hash, false, m)
            },
            (Phase::Resolving, Event::ResolveResponse { status, body }) => {
                if !status_is_success(status) {
                    let m = resolve_error_message(
                        &ResolveError::UpstreamUnavailable { status: Some(status) },
                    );
                    done_run(root, hash, false, m)
                } else {
                    match body {
                        None => {
                            let m = resolve_error_message(
                                &ResolveError::UpstreamUnavailable { status: None },
                            );
                            done_run(root, hash, false, m)
                        },
                        Some(b) => match interpret_body(b.as_str()) {
                            Err(e) => {
                                let m = resolve_error_message(&e);
                                done_run(root, hash, false, m)
                            },
                            Ok(u) => {
                                let q = plan(u);
                                advance_run(root, hash, q, false, None)
                            },
                        },
                    }
                }
            },
            (Phase::Fetching { queue, got_one, first_failure }, Event::FetchFailed { read_failed }) => {
                if queue.len() == 0 {
                    done_run(
                        root,
                        hash,
                        false,
                        String::from_str("internal fault: event did not match the run phase"),
                    )
                } else {
                    let mut q = queue;
                    let head = q.remove(0);
                    let e = if read_failed {
                        TierError::ReadFailed
                    } else {
                        TierError::FetchFailed
                    };
                    let m = tier_error_message(head.tier, &e);
                    let ff = match first_failure {
                        Some(x) => Some(x),
                        None => Some(m),
                    };
                    proof {
                        assert(queue_v(q@) =~= queue_v(queue@).drop_first());
                    }
                    advance_run(root, hash, q, got_one, ff)
                }
            },
            (Phase::Fetching { queue, got_one, first_failure }, Event::FetchOk { content_type, bytes }) => {
                if queue.len() == 0 {
                    done_run(
                        root,
                        hash,
                        false,
                        String::from_str("internal fault: event did not match the run phase"),
                    )
                } else {
                    let ext = infer_extension(content_type.as_ref());
                    let dir = cache_dir(root.as_str(), hash.as_str());
                    let path = cache_file_path(
                        root.as_str(),
                        hash.as_str(),
                        queue[0].tier,
                        ext.as_ref(),
                    );
                    let dir2 = dir.clone();
                    let path2 = path.clone();
                    (
                        Run {
                            root,
                            hash,
                            phase: Phase::Writing { queue, got_one, first_failure, dir, path },
                        },
                        Action::CallWrite { dir: dir2, path: path2, bytes },
                    )
                }
            },
            (Phase::Writing { queue, got_one, first_failure, dir: _dir, path: _path }, Event::WriteDone { ok }) => {
                if queue.len() == 0 {
                    done_run(
                        root,
                        hash,
                        false,
                        String::from_str("internal fault: event did not match the run phase"),
                    )
                } else {
                    let mut q = queue;
                    let head = q.remove(0);
                    proof {
                        assert(queue_v(q@) =~= queue_v(queue@).drop_first());
                    }
                    if ok {
                        advance_run(root, hash, q, true, first_failure)
                    } else {
                        let m = tier_error_message(head.tier, &TierError::PersistFailed);
                        let ff = match first_failure {
                            Some(x) => Some(x),
                            None => Some(m),
                        };
                        advance_run(root, hash, q, got_one, ff)
                    }
                }
            },
            (_, _) => done_run(
                root,
                hash,
                false,
                String::from_str("internal fault: event did not match the run phase"),
            ),
        }
    }
}

} // verus!
