//! How the broker decides a match request once the face models have run: which stored
//! template answers, whether it matches, what the client is told and what the audit
//! log records; and who may read the audit log.
//!
//! The similarity scores are `f32` values computed by the daemon from the embeddings;
//! here each is carried as its bit pattern and compared exactly as `f32` values.
use vstd::prelude::*;

use crate::brokerd::{is_error_response, PeerCredentials};
use crate::f32_bits::{f32_bits_is_nan, f32_is_nan, f32_order_key, f32_gt, f32_bits_gt};
use crate::ipc::{
    AuditEvent, AuditOutcome, AuditReason, ErrorCode, MatchReason, MatchResult, Response,
    ResponseEnvelope, PROTOCOL_VERSION,
};
use crate::storage::{self, AuthScope, TemplateScope};
use crate::text::{owned, str_eq};

verus! {

/// `a >= b` on the `f32` values of two bit patterns (false when either is NaN).
pub open spec fn f32_ge(a: u32, b: u32) -> bool {
    !f32_is_nan(a) && !f32_is_nan(b) && f32_order_key(a) >= f32_order_key(b)
}

/// `a >= b` on the `f32` values of two bit patterns.
pub fn f32_bits_ge(a: u32, b: u32) -> (r: bool)
    ensures
        r == f32_ge(a, b),
{
    if f32_bits_is_nan(a) || f32_bits_is_nan(b) {
        return false;
    }
    !f32_bits_gt(b, a)
}

/// A stored template and the similarity of the probe to it (an `f32` bit pattern).
#[derive(Debug, Clone, Copy, PartialEq, Eq, Structural)]
pub struct ScoredTemplate {
    pub id: u32,
    pub scope: TemplateScope,
    pub score: u32,
}

/// The template that answers a match for `scope`: among the templates allowed for it,
/// in order, the first one whose score no later one exceeds (a NaN score never
/// replaces, nor is replaced by a comparison); with its score.
pub open spec fn spec_best_allowed(ts: Seq<ScoredTemplate>, scope: AuthScope) -> Option<(u32, u32)>
    decreases ts.len(),
{
    if ts.len() == 0 {
        None
    } else {
        let prev = spec_best_allowed(ts.drop_last(), scope);
        let t = ts.last();
        if !storage::spec_allows(t.scope, scope) {
            prev
        } else {
            match prev {
                None => Some((t.id, t.score)),
                Some((id, best)) => if f32_gt(t.score, best) {
                    Some((t.id, t.score))
                } else {
                    prev
                },
            }
        }
    }
}

/// The template that answers a match for `scope` (see [`spec_best_allowed`]).
pub fn best_allowed(ts: &[ScoredTemplate], scope: AuthScope) -> (r: Option<(u32, u32)>)
    ensures
        r == spec_best_allowed(ts@, scope),
{
    let mut best: Option<(u32, u32)> = None;
    let mut i: usize = 0;
    while i < ts.len()
        invariant
            i <= ts@.len(),
            best == spec_best_allowed(ts@.take(i as int), scope),
        decreases ts@.len() - i,
    {
        proof {
            assert(ts@.take(i + 1).drop_last() =~= ts@.take(i as int));
        }
        let t = ts[i];
        if t.scope.allows(scope) {
            best = match best {
                None => Some((t.id, t.score)),
                Some((id, b)) => if f32_bits_gt(t.score, b) {
                    Some((t.id, t.score))
                } else {
                    Some((id, b))
                },
            };
        }
        i += 1;
    }
    assert(ts@.take(ts@.len() as int) =~= ts@);
    best
}

/// What the broker answers to a match request, what it audits, and whether the user's
/// failure count is cleared (`true`) or increased (`false`).
pub struct MatchVerdict {
    pub response: ResponseEnvelope,
    pub outcome: AuditOutcome,
    pub reason: AuditReason,
    pub success: bool,
}

/// A match result sent to the client.
pub open spec fn is_match_response(env: ResponseEnvelope, r: MatchResult) -> bool {
    env.version == PROTOCOL_VERSION && env.response == (Response::Match { result: r })
}

/// The verdict on the answering template (`best`: id and score) against `threshold`
/// (an `f32` bit pattern): no allowed template means the user is not enrolled; a score
/// at or above the threshold matches and names the template; below, it does not.
pub open spec fn spec_compare_verdict(v: MatchVerdict, best: Option<(u32, u32)>, threshold: u32) -> bool {
    match best {
        None => {
            &&& is_error_response(v.response, ErrorCode::NotEnrolled, "user has no enrolled templates"@)
            &&& v.outcome == AuditOutcome::Failure
            &&& v.reason == AuditReason::NotEnrolled
            &&& !v.success
        },
        Some((id, score)) => {
            let matched = f32_ge(score, threshold);
            &&& is_match_response(
                v.response,
                MatchResult {
                    matched,
                    score: Some(score),
                    template_id: if matched {
                        Some(id)
                    } else {
                        None
                    },
                    reason: if matched {
                        MatchReason::Matched
                    } else {
                        MatchReason::TemplateMismatch
                    },
                },
            )
            &&& v.outcome == (if matched {
                AuditOutcome::Success
            } else {
                AuditOutcome::Failure
            })
            &&& v.reason == (if matched {
                AuditReason::Matched
            } else {
                AuditReason::Mismatch
            })
            &&& v.success == matched
        },
    }
}

/// Decides a match from the answering template and the threshold.
pub fn compare_verdict(best: Option<(u32, u32)>, threshold: u32) -> (v: MatchVerdict)
    ensures
        spec_compare_verdict(v, best, threshold),
{
    match best {
        None => MatchVerdict {
            response: ResponseEnvelope::error(
                ErrorCode::NotEnrolled,
                owned("user has no enrolled templates"),
            ),
            outcome: AuditOutcome::Failure,
            reason: AuditReason::NotEnrolled,
            success: false,
        },
        Some((id, score)) => {
            let matched = f32_bits_ge(score, threshold);
            let result = MatchResult {
                matched,
                score: Some(score),
                template_id: if matched {
                    Some(id)
                } else {
                    None
                },
                reason: if matched {
                    MatchReason::Matched
                } else {
                    MatchReason::TemplateMismatch
                },
            };
            MatchVerdict {
                response: ResponseEnvelope::ok(Response::Match { result }),
                outcome: if matched {
                    AuditOutcome::Success
                } else {
                    AuditOutcome::Failure
                },
                reason: if matched {
                    AuditReason::Matched
                } else {
                    AuditReason::Mismatch
                },
                success: matched,
            }
        },
    }
}

/// A frame without a usable face, or a failed RGB+IR cross-check: a rejection without
/// score, audited as a mismatch and counted as a failure.
pub fn rejection_verdict(reason: MatchReason) -> (v: MatchVerdict)
    ensures
        is_match_response(
            v.response,
            MatchResult { matched: false, score: None, template_id: None, reason },
        ),
        v.outcome == AuditOutcome::Failure,
        v.reason == AuditReason::Mismatch,
        !v.success,
{
    MatchVerdict {
        response: ResponseEnvelope::ok(
            Response::Match {
                result: MatchResult { matched: false, score: None, template_id: None, reason },
            },
        ),
        outcome: AuditOutcome::Failure,
        reason: AuditReason::Mismatch,
        success: false,
    }
}

/// A match is granted only for a template the requested scope allows, whose score is
/// a number at or above the threshold; and a granted match names that template.
pub proof fn law_match_needs_allowed_template_above_threshold(
    ts: Seq<ScoredTemplate>,
    scope: AuthScope,
    threshold: u32,
    v: MatchVerdict,
)
    requires
        spec_compare_verdict(v, spec_best_allowed(ts, scope), threshold),
        v.response.response matches Response::Match { result } && result.matched,
    ensures
        v.response.response matches Response::Match { result } && ({
            let id = result.template_id->0;
            &&& result.template_id is Some
            &&& exists|i: int|
                0 <= i < ts.len() && (#[trigger] ts[i]).id == id && storage::spec_allows(
                    ts[i].scope,
                    scope,
                ) && f32_ge(ts[i].score, threshold) && result.score == Some(ts[i].score)
        }),
{
    lemma_best_allowed_is_allowed(ts, scope);
    let (id, score) = spec_best_allowed(ts, scope)->0;
    let i = choose|i: int|
        0 <= i < ts.len() && ts[i].id == id && ts[i].score == score && storage::spec_allows(
            ts[i].scope,
            scope,
        );
    assert(ts[i].id == id);
}

/// The answering template is one of the allowed templates, with its own score.
pub proof fn lemma_best_allowed_is_allowed(ts: Seq<ScoredTemplate>, scope: AuthScope)
    ensures
        spec_best_allowed(ts, scope) matches Some((id, score)) ==> exists|i: int|
            0 <= i < ts.len() && (#[trigger] ts[i]).id == id && ts[i].score == score
                && storage::spec_allows(ts[i].scope, scope),
        spec_best_allowed(ts, scope) is None ==> forall|i: int|
            0 <= i < ts.len() ==> !storage::spec_allows(#[trigger] ts[i].scope, scope),
    decreases ts.len(),
{
    if ts.len() > 0 {
        let prev = ts.drop_last();
        lemma_best_allowed_is_allowed(prev, scope);
        assert forall|i: int| 0 <= i < prev.len() implies prev[i] == ts[i] by {}
        if spec_best_allowed(ts, scope) == spec_best_allowed(prev, scope) {
            if spec_best_allowed(prev, scope) is Some {
                let (id, score) = spec_best_allowed(prev, scope)->0;
                let i = choose|i: int|
                    0 <= i < prev.len() && (#[trigger] prev[i]).id == id && prev[i].score == score
                        && storage::spec_allows(prev[i].scope, scope);
                assert(ts[i] == prev[i]);
            } else {
                assert forall|i: int| 0 <= i < ts.len() implies !storage::spec_allows(
                    #[trigger] ts[i].scope,
                    scope,
                ) by {
                    if i < prev.len() {
                        assert(ts[i] == prev[i]);
                    }
                }
            }
        } else {
            assert(ts[ts.len() - 1] == ts.last());
        }
    }
}

// ── Reading the audit log ────────────────────────────────────────────────────

/// Which user's audit events a peer may read: root may read everyone's (no filter) or
/// one user's; any other peer only its own, by naming itself. `user_uid` is the uid the
/// user database gives for the named user. `None` means the request is refused.
pub open spec fn spec_audit_filter(
    peer: Option<PeerCredentials>,
    username: Option<Seq<char>>,
    user_uid: Option<u32>,
) -> Option<Option<Seq<char>>> {
    match peer {
        None => None,
        Some(p) => match username {
            Some(u) => if p.uid == 0 || user_uid == Some(p.uid) {
                Some(Some(u))
            } else {
                None
            },
            None => if p.uid == 0 {
                Some(None)
            } else {
                None
            },
        },
    }
}

/// Which user's audit events the peer may read, or `Err(())` when it may not ask.
pub fn audit_filter(peer: Option<PeerCredentials>, username: Option<String>, user_uid: Option<u32>) -> (r: Result<Option<String>, ()>)
    ensures
        match spec_audit_filter(
            peer,
            match username {
                Some(u) => Some(u@),
                None => None,
            },
            user_uid,
        ) {
            None => r is Err,
            Some(None) => r == Ok::<Option<String>, ()>(None),
            Some(Some(u)) => r matches Ok(Some(x)) && x@ == u,
        },
{
    let p = match peer {
        None => return Err(()),
        Some(p) => p,
    };
    match username {
        Some(u) => if p.uid == 0 || user_uid == Some(p.uid) {
            Ok(Some(u))
        } else {
            Err(())
        },
        None => if p.uid == 0 {
            Ok(None)
        } else {
            Err(())
        },
    }
}

/// How many recent audit events are returned: the request's limit, held to `1..=50`.
pub fn audit_limit(limit: u32) -> (r: usize)
    ensures
        r == (if limit < 1 {
            1
        } else if limit > 50 {
            50
        } else {
            limit as int
        }),
{
    if limit < 1 {
        1
    } else if limit > 50 {
        50
    } else {
        limit as usize
    }
}

/// The events of the log that concern `username` (all of them when no user is named).
pub open spec fn spec_events_of(events: Seq<AuditEvent>, username: Option<Seq<char>>) -> Seq<AuditEvent>
    decreases events.len(),
{
    if events.len() == 0 {
        seq![]
    } else {
        let prev = spec_events_of(events.drop_last(), username);
        let e = events.last();
        if username is None || e.username@ == username->0 {
            prev.push(e)
        } else {
            prev
        }
    }
}

/// The last `limit` events of the log that concern `username`, oldest first.
pub open spec fn spec_recent_events(events: Seq<AuditEvent>, username: Option<Seq<char>>, limit: nat) -> Seq<AuditEvent> {
    let es = spec_events_of(events, username);
    if es.len() > limit {
        es.skip(es.len() - limit)
    } else {
        es
    }
}

/// Selects the recent audit events a reader asked for from the parsed log.
pub fn recent_events(events: Vec<AuditEvent>, username: Option<&str>, limit: usize) -> (r: Vec<AuditEvent>)
    ensures
        r@ == spec_recent_events(
            events@,
            match username {
                Some(u) => Some(u@),
                None => None,
            },
            limit as nat,
        ),
{
    let ghost user = match username {
        Some(u) => Some(u@),
        None => None,
    };
    let mut kept: Vec<AuditEvent> = Vec::new();
    let mut events = events;
    let ghost all = events@;
    let n = events.len();
    let mut i: usize = 0;
    assert(all.skip(0) =~= all);
    while events.len() > 0
        invariant
            all.len() == n,
            events@.len() + i == n,
            events@ == all.skip(i as int),
            kept@ == spec_events_of(all.take(i as int), user),
            user == (match username {
                Some(u) => Some(u@),
                None => None,
            }),
        decreases events@.len(),
    {
        let e = events.remove(0);
        proof {
            assert(all.take(i + 1).drop_last() =~= all.take(i as int));
            assert(all.take(i + 1).last() == all[i as int]);
            assert(all.skip(i as int)[0] == all[i as int]);
        }
        let keep = match username {
            None => true,
            Some(u) => str_eq(e.username.as_str(), u),
        };
        if keep {
            kept.push(e);
        }
        i += 1;
        assert(events@ =~= all.skip(i as int));
    }
    assert(all.take(n as int) =~= all);
    if kept.len() > limit {
        let from = kept.len() - limit;
        let tail = kept.split_off(from);
        assert(tail@ =~= spec_events_of(all, user).skip(spec_events_of(all, user).len() - limit));
        tail
    } else {
        kept
    }
}

/// A peer other than root reads only its own audit events: any filter it is granted
/// names the user whose uid is its own.
pub proof fn law_non_root_reads_only_own_events(
    peer: PeerCredentials,
    username: Option<Seq<char>>,
    user_uid: Option<u32>,
)
    requires
        peer.uid != 0,
        spec_audit_filter(Some(peer), username, user_uid) is Some,
    ensures
        spec_audit_filter(Some(peer), username, user_uid) == Some(username),
        username is Some,
        user_uid == Some(peer.uid),
{
}


/// The answering template outscores no allowed template: no template that the scope
/// allows has a score above the answering one.
pub proof fn law_best_allowed_is_not_outscored(ts: Seq<ScoredTemplate>, scope: AuthScope)
    ensures
        spec_best_allowed(ts, scope) matches Some((id, s)) ==> forall|i: int|
            0 <= i < ts.len() && storage::spec_allows(#[trigger] ts[i].scope, scope)
                ==> !f32_gt(ts[i].score, s),
    decreases ts.len(),
{
    if ts.len() > 0 {
        let prev = ts.drop_last();
        law_best_allowed_is_not_outscored(prev, scope);
        let last = ts.len() - 1;
        assert(ts.last() == ts[last]);
        if spec_best_allowed(ts, scope) is Some {
            let (id, s) = spec_best_allowed(ts, scope)->0;
            assert forall|i: int|
                0 <= i < ts.len() && storage::spec_allows(#[trigger] ts[i].scope, scope)
                    implies !f32_gt(ts[i].score, s) by {
                if i < last {
                    assert(prev[i] == ts[i]);
                    match spec_best_allowed(prev, scope) {
                        Some((pid, ps)) => {
                            assert(!f32_gt(prev[i].score, ps));
                        },
                        None => {
                            lemma_best_allowed_is_allowed(prev, scope);
                            assert(!storage::spec_allows(prev[i].scope, scope));
                        },
                    }
                }
            }
        }
    }
}

/// A match is granted whenever an allowed template reaches the threshold: when no
/// allowed template's score is NaN and one of them scores at or above `threshold`, the
/// answering template's score is at or above it too.
pub proof fn law_reaching_threshold_is_granted(ts: Seq<ScoredTemplate>, scope: AuthScope, threshold: u32, k: int)
    requires
        0 <= k < ts.len(),
        storage::spec_allows(ts[k].scope, scope),
        f32_ge(ts[k].score, threshold),
        forall|i: int| 0 <= i < ts.len() && storage::spec_allows(#[trigger] ts[i].scope, scope)
            ==> !f32_is_nan(ts[i].score),
    ensures
        spec_best_allowed(ts, scope) matches Some((id, s)) && f32_ge(s, threshold),
{
    law_best_allowed_is_not_outscored(ts, scope);
    lemma_best_allowed_is_allowed(ts, scope);
    let (id, s) = spec_best_allowed(ts, scope)->0;
    let j = choose|j: int| 0 <= j < ts.len() && (#[trigger] ts[j]).id == id && ts[j].score == s && storage::spec_allows(ts[j].scope, scope);
    assert(!f32_is_nan(ts[j].score));
    assert(!f32_gt(ts[k].score, s));
}

/// A peer granted audit events for a named user gets that user's events only, root as
/// any other peer; root is always granted them, and everyone's when it names no one.
pub proof fn law_audit_filter_names_the_requested_user(
    peer: PeerCredentials,
    username: Seq<char>,
    user_uid: Option<u32>,
)
    ensures
        spec_audit_filter(Some(peer), Some(username), user_uid) is Some ==> spec_audit_filter(
            Some(peer),
            Some(username),
            user_uid,
        ) == Some(Some(username)),
        peer.uid == 0 ==> spec_audit_filter(Some(peer), Some(username), user_uid) == Some(
            Some(username),
        ),
        peer.uid == 0 ==> spec_audit_filter(Some(peer), None, user_uid) == Some(None::<Seq<char>>),
{
}

} // verus!
