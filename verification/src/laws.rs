//! Properties of a whole run, proved over the transition function.

use vstd::prelude::*;

use crate::cache::cache_dir_spec;
use crate::cache::cache_path_spec;
use crate::fetch::inferred_ext;
use crate::outcome::ResolveError;
use crate::outcome::resolve_error_message_spec;
use crate::resolve::parsed_streams;
use crate::resolve::status_is_success_spec;
use crate::run::ActionV;
use crate::run::EventV;
use crate::run::PhaseV;
use crate::run::RunV;
use crate::run::start_v;
use crate::run::step_v;
use crate::run::timeout_message_spec;
use crate::run::fault_message_spec;
use crate::tier::Tier;

verus! {

/// The state after feeding a run one event after another.
pub open spec fn run_steps(rv: RunV, evs: Seq<EventV>) -> RunV
    decreases evs.len(),
{
    if evs.len() == 0 {
        rv
    } else {
        run_steps(step_v(rv, evs[0]).0, evs.drop_first())
    }
}

/// A terminal state absorbs every event: the state never changes again and
/// every further action only repeats the outcome.  A run therefore answers
/// with exactly one outcome.
pub proof fn lemma_done_absorbing(rv: RunV, ev: EventV)
    ensures
        (rv.phase is Done) ==> step_v(rv, ev).0 == rv,
        (rv.phase is Done) ==> (step_v(rv, ev).1 == (ActionV::Respond {
            ok: rv.phase->Done_ok,
            error: rv.phase->Done_error,
        })),
{
}

/// A terminal state stays terminal under any further event sequence.
pub proof fn lemma_done_stays_done(rv: RunV, evs: Seq<EventV>)
    ensures
        (rv.phase is Done) ==> run_steps(rv, evs) == rv,
    decreases evs.len(),
{
    if evs.len() > 0 && rv.phase is Done {
        lemma_done_absorbing(rv, evs[0]);
        lemma_done_stays_done(step_v(rv, evs[0]).0, evs.drop_first());
    }
}

/// The deadline ends any live run at once: from every non-terminal state,
/// a timeout event yields the failed outcome that carries the timeout
/// message, and nothing else is ever attempted afterwards.
pub proof fn lemma_timeout_terminates(rv: RunV)
    ensures
        !(rv.phase is Done) ==> step_v(rv, EventV::TimedOut).0.phase == (PhaseV::Done {
            ok: false,
            error: timeout_message_spec(),
        }),
        !(rv.phase is Done) ==> step_v(rv, EventV::TimedOut).1 == (ActionV::Respond {
            ok: false,
            error: timeout_message_spec(),
        }),
{
}

/// The fault boundary: from every non-terminal state, an intercepted fault
/// becomes a failed outcome carrying the fault's message — never a crash
/// and never a missing response.
pub proof fn lemma_fault_contained(rv: RunV, m: Seq<char>)
    ensures
        !(rv.phase is Done) ==> step_v(rv, EventV::Fault { message: m }).0.phase == (PhaseV::Done {
            ok: false,
            error: fault_message_spec(m),
        }),
{
}

/// A non-success upstream status fails the whole request on the spot: the
/// outcome names the status, and — the state being terminal — no fetch and
/// no cache write is ever started.
pub proof fn lemma_bad_status_fails_without_writes(root: Seq<char>, hash: Seq<char>, status: u16, body: Option<Seq<char>>, evs: Seq<EventV>)
    ensures
        !status_is_success_spec(status) ==> ({
            let (s1, a1) = step_v(start_v(root, hash), EventV::ResolveResponse { status, body });
            let failed = resolve_error_message_spec(
                ResolveError::UpstreamUnavailable { status: Option::Some(status) },
            );
            s1.phase == (PhaseV::Done { ok: false, error: failed })
                && a1 == (ActionV::Respond { ok: false, error: failed })
                && run_steps(s1, evs) == s1
        }),
{
    if !status_is_success_spec(status) {
        let s1 = step_v(start_v(root, hash), EventV::ResolveResponse { status, body }).0;
        lemma_done_stays_done(s1, evs);
    }
}

/// A fully successful run over both tiers: when the upstream answers with
/// success and both stream URLs, and every fetch and write succeeds, the
/// run fetches exactly the two URLs in tier order, writes exactly the two
/// cache paths — best first, mid second, each under the extension its
/// response's content type inferred, each with byte content identical to
/// what its fetch received — and answers ok with an empty error.
pub proof fn lemma_full_success_two_files(root: Seq<char>, hash: Seq<char>, status: u16, body: Seq<char>, u1: Seq<char>, u2: Seq<char>, ct1: Option<Seq<char>>, ct2: Option<Seq<char>>, b1: Seq<u8>, b2: Seq<u8>)
    ensures
        (status_is_success_spec(status) && parsed_streams(body) == Option::Some(
            (Option::Some(u1), Option::Some(u2)),
        )) ==> ({
            let s0 = start_v(root, hash);
            let (s1, a1) = step_v(s0, EventV::ResolveResponse { status, body: Option::Some(body) });
            let (s2, a2) = step_v(s1, EventV::FetchOk { content_type: ct1, bytes: b1 });
            let (s3, a3) = step_v(s2, EventV::WriteDone { ok: true });
            let (s4, a4) = step_v(s3, EventV::FetchOk { content_type: ct2, bytes: b2 });
            let (s5, a5) = step_v(s4, EventV::WriteDone { ok: true });
            a1 == (ActionV::CallFetch { url: u1 })
                && a2 == (ActionV::CallWrite {
                    dir: cache_dir_spec(root, hash),
                    path: cache_path_spec(root, hash, Tier::Best, inferred_ext(ct1)),
                    bytes: b1,
                })
                && a3 == (ActionV::CallFetch { url: u2 })
                && a4 == (ActionV::CallWrite {
                    dir: cache_dir_spec(root, hash),
                    path: cache_path_spec(root, hash, Tier::Mid, inferred_ext(ct2)),
                    bytes: b2,
                })
                && a5 == (ActionV::Respond { ok: true, error: Seq::<char>::empty() })
                && s5.phase == (PhaseV::Done { ok: true, error: Seq::<char>::empty() })
        }),
{
    if status_is_success_spec(status) && parsed_streams(body) == Option::<(Option<Seq<char>>, Option<Seq<char>>)>::Some((Option::Some(u1), Option::Some(u2))) {
        let q = seq![(Tier::Best, u1)] + seq![(Tier::Mid, u2)];
        assert(q.len() == 2);
        assert(q[0] == (Tier::Best, u1));
        assert(q[1] == (Tier::Mid, u2));
        assert(q.drop_first() =~= seq![(Tier::Mid, u2)]);
        assert(seq![(Tier::Mid, u2)].drop_first() =~= Seq::<(Tier, Seq<char>)>::empty());
    }
}

/// A run whose upstream offers only the best tier: the mid tier is skipped
/// silently, exactly one cache file — the best one — is written, and the
/// run still answers ok.  Together with the terminal absorption law this
/// fixes the chosen policy for a missing "mid" field: completion with only
/// the best file, observable in the cache directory.
pub proof fn lemma_missing_mid_writes_best_only(root: Seq<char>, hash: Seq<char>, status: u16, body: Seq<char>, u1: Seq<char>, ct1: Option<Seq<char>>, b1: Seq<u8>)
    ensures
        (status_is_success_spec(status) && parsed_streams(body) == Option::Some(
            (Option::Some(u1), Option::<Seq<char>>::None),
        )) ==> ({
            let s0 = start_v(root, hash);
            let (s1, a1) = step_v(s0, EventV::ResolveResponse { status, body: Option::Some(body) });
            let (s2, a2) = step_v(s1, EventV::FetchOk { content_type: ct1, bytes: b1 });
            let (s3, a3) = step_v(s2, EventV::WriteDone { ok: true });
            a1 == (ActionV::CallFetch { url: u1 })
                && a2 == (ActionV::CallWrite {
                    dir: cache_dir_spec(root, hash),
                    path: cache_path_spec(root, hash, Tier::Best, inferred_ext(ct1)),
                    bytes: b1,
                })
                && a3 == (ActionV::Respond { ok: true, error: Seq::<char>::empty() })
                && s3.phase == (PhaseV::Done { ok: true, error: Seq::<char>::empty() })
        }),
{
    if status_is_success_spec(status) && parsed_streams(body) == Option::<(Option<Seq<char>>, Option<Seq<char>>)>::Some((Option::Some(u1), Option::<Seq<char>>::None)) {
        let q = seq![(Tier::Best, u1)] + Seq::<(Tier, Seq<char>)>::empty();
        assert(q.len() == 1);
        assert(q[0] == (Tier::Best, u1));
        assert(q.drop_first() =~= Seq::<(Tier, Seq<char>)>::empty());
    }
}

/// A request whose upstream offers no stream URL at all resolves to the
/// missing-field error — a declared, recoverable outcome, never a fault.
pub proof fn lemma_no_streams_is_declared_error(root: Seq<char>, hash: Seq<char>, status: u16, body: Seq<char>)
    ensures
        (status_is_success_spec(status) && parsed_streams(body) == Option::Some(
            (Option::<Seq<char>>::None, Option::<Seq<char>>::None),
        )) ==> ({
            let (s1, a1) = step_v(
                start_v(root, hash),
                EventV::ResolveResponse { status, body: Option::Some(body) },
            );
            s1.phase == (PhaseV::Done {
                ok: false,
                error: resolve_error_message_spec(ResolveError::MissingStreamField),
            })
        }),
{
}

} // verus!
