//! Which authentication scopes a recognition test exercises.
use vstd::prelude::*;

use crate::broker_client::{spec_retryable_capture, summary_allows, match_reason_is_retryable_capture};
use crate::f32_bits::{f32_bits_gt, f32_gt};
use crate::ipc::{EnrolledTemplateSummary, MatchResult};
use crate::storage::{self, AuthScope};

verus! {

/// What a recognition test matches against.
#[derive(Debug, Clone, Copy, PartialEq, Eq, Structural)]
pub enum TestScope {
    /// Every enrolled template, regardless of scope.
    All,
    /// Only templates allowed for the given auth scope.
    Auth(AuthScope),
}

/// Some listed template may be used for `a`.
pub open spec fn any_allows(ts: Seq<EnrolledTemplateSummary>, a: AuthScope) -> bool {
    exists|i: int|
        0 <= i < ts.len() && storage::spec_allows(
            storage::spec_core_template_scope(#[trigger] ts[i].scope),
            a,
        )
}

/// The auth scopes a test runs: the requested one, or for a test of everything, session
/// then sudo, each only when some template allows it.
pub open spec fn spec_scopes_to_test(scope: TestScope, ts: Seq<EnrolledTemplateSummary>) -> Seq<AuthScope> {
    match scope {
        TestScope::Auth(a) => seq![a],
        TestScope::All => {
            let s = if any_allows(ts, AuthScope::Session) {
                seq![AuthScope::Session]
            } else {
                seq![]
            };
            if any_allows(ts, AuthScope::Sudo) {
                s.push(AuthScope::Sudo)
            } else {
                s
            }
        },
    }
}

fn any_template_allows(templates: &[EnrolledTemplateSummary], a: AuthScope) -> (r: bool)
    ensures
        r == any_allows(templates@, a),
{
    let mut i: usize = 0;
    while i < templates.len()
        invariant
            i <= templates@.len(),
            forall|j: int|
                0 <= j < i ==> !storage::spec_allows(
                    storage::spec_core_template_scope(#[trigger] templates@[j].scope),
                    a,
                ),
        decreases templates@.len() - i,
    {
        if summary_allows(&templates[i], a) {
            return true;
        }
        i += 1;
    }
    false
}

/// The auth scopes a test runs (see [`spec_scopes_to_test`]).
pub fn scopes_to_test(scope: TestScope, templates: &[EnrolledTemplateSummary]) -> (r: Vec<AuthScope>)
    ensures
        r@ == spec_scopes_to_test(scope, templates@),
{
    match scope {
        TestScope::Auth(a) => {
            let mut v = Vec::new();
            v.push(a);
            v
        },
        TestScope::All => {
            let mut v = Vec::new();
            if any_template_allows(templates, AuthScope::Session) {
                v.push(AuthScope::Session);
            }
            if any_template_allows(templates, AuthScope::Sudo) {
                v.push(AuthScope::Sudo);
            }
            v
        },
    }
}

/// The scope name a test reports: `any`, `sudo` or `session`.
pub open spec fn spec_test_scope_label(scope: TestScope) -> Seq<char> {
    match scope {
        TestScope::All => "any"@,
        TestScope::Auth(AuthScope::Sudo) => "sudo"@,
        TestScope::Auth(AuthScope::Session) => "session"@,
    }
}

/// The scope name a test reports.
pub fn test_scope_label(scope: TestScope) -> (s: &'static str)
    ensures
        s@ == spec_test_scope_label(scope),
{
    match scope {
        TestScope::All => "any",
        TestScope::Auth(AuthScope::Sudo) => "sudo",
        TestScope::Auth(AuthScope::Session) => "session",
    }
}

/// The listed templates a test compares against: all of them, or those allowed for
/// the requested auth scope.
pub open spec fn spec_enrolled_count(scope: TestScope, ts: Seq<EnrolledTemplateSummary>) -> nat {
    match scope {
        TestScope::All => ts.len(),
        TestScope::Auth(a) => count_allowing(ts, a),
    }
}

/// How many listed templates may be used for `a`.
pub open spec fn count_allowing(ts: Seq<EnrolledTemplateSummary>, a: AuthScope) -> nat
    decreases ts.len(),
{
    if ts.len() == 0 {
        0
    } else {
        count_allowing(ts.drop_last(), a) + if storage::spec_allows(
            storage::spec_core_template_scope(ts.last().scope),
            a,
        ) {
            1nat
        } else {
            0nat
        }
    }
}

/// How many templates a test compares against.
pub fn enrolled_count(scope: TestScope, templates: &[EnrolledTemplateSummary]) -> (n: usize)
    ensures
        n == spec_enrolled_count(scope, templates@),
{
    match scope {
        TestScope::All => templates.len(),
        TestScope::Auth(a) => {
            let mut n: usize = 0;
            let mut i: usize = 0;
            while i < templates.len()
                invariant
                    i <= templates@.len(),
                    n == count_allowing(templates@.take(i as int), a),
                    n <= i,
                decreases templates@.len() - i,
            {
                proof {
                    assert(templates@.take(i + 1).drop_last() == templates@.take(i as int));
                }
                if summary_allows(&templates[i], a) {
                    n = n + 1;
                }
                i += 1;
            }
            assert(templates@.take(templates@.len() as int) == templates@);
            n
        },
    }
}

/// The better of two match results: an accepted one over a rejected one, then the
/// higher score, then one with a score over one without; on a tie, the first.
pub open spec fn spec_best_result(left: MatchResult, right: MatchResult) -> MatchResult {
    if left.matched && !right.matched {
        left
    } else if !left.matched && right.matched {
        right
    } else {
        match (left.score, right.score) {
            (Some(a), Some(b)) => if f32_gt(b, a) {
                right
            } else {
                left
            },
            (None, Some(_)) => right,
            _ => left,
        }
    }
}

/// The better of two match results (see [`spec_best_result`]).
pub fn best_result(left: MatchResult, right: MatchResult) -> (r: MatchResult)
    ensures
        r == spec_best_result(left, right),
{
    if left.matched && !right.matched {
        return left;
    }
    if !left.matched && right.matched {
        return right;
    }
    match (left.score, right.score) {
        (Some(a), Some(b)) => if f32_bits_gt(b, a) {
            right
        } else {
            left
        },
        (None, Some(_)) => right,
        _ => left,
    }
}

/// The best of a non-empty run of results, combined from the left.
pub open spec fn spec_best_of(rs: Seq<MatchResult>) -> MatchResult
    decreases rs.len(),
{
    if rs.len() <= 1 {
        rs[0]
    } else {
        spec_best_result(spec_best_of(rs.drop_last()), rs.last())
    }
}

/// The best of the results of the scopes tested, or nothing when no scope was tested.
pub fn best_of(results: &[MatchResult]) -> (r: Option<MatchResult>)
    ensures
        results@.len() == 0 ==> r is None,
        results@.len() > 0 ==> r == Some(spec_best_of(results@)),
{
    if results.len() == 0 {
        return None;
    }
    let mut best = results[0];
    let mut i: usize = 1;
    while i < results.len()
        invariant
            1 <= i <= results@.len(),
            best == spec_best_of(results@.take(i as int)),
        decreases results@.len() - i,
    {
        proof {
            assert(results@.take(i + 1).drop_last() == results@.take(i as int));
        }
        best = best_result(best, results[i]);
        i += 1;
    }
    assert(results@.take(results@.len() as int) == results@);
    Some(best)
}

/// Whether a test captures the RGB+IR pair again: the answer is a rejection without a
/// score for a retryable cross-check reason, and the capture was not the last allowed.
pub open spec fn spec_test_retries(r: MatchResult, capture_attempt: u32) -> bool {
    !(r.matched || r.score is Some || !spec_retryable_capture(r.reason) || capture_attempt
        == crate::auth::CROSS_CHECK_CAPTURE_RETRIES)
}

/// Whether a test captures the RGB+IR pair again after this answer.
pub fn test_retries(result: &MatchResult, capture_attempt: u32) -> (r: bool)
    ensures
        r == spec_test_retries(*result, capture_attempt),
{
    !(result.matched || result.score.is_some() || !match_reason_is_retryable_capture(result.reason)
        || capture_attempt == crate::auth::CROSS_CHECK_CAPTURE_RETRIES)
}

/// The verdict shown for a scored result: `ACCEPT` when the face matched, else `REJECT`.
pub fn verdict_label(result: &MatchResult) -> (s: &'static str)
    ensures
        s@ == (if result.matched {
            "ACCEPT"@
        } else {
            "REJECT"@
        }),
{
    if result.matched {
        "ACCEPT"
    } else {
        "REJECT"
    }
}

/// The best result is at least as good as each result it was combined from: it is
/// accepted whenever one of them is.
pub proof fn law_best_of_prefers_accepted(rs: Seq<MatchResult>, i: int)
    requires
        0 <= i < rs.len(),
        rs[i].matched,
    ensures
        spec_best_of(rs).matched,
    decreases rs.len(),
{
    if rs.len() > 1 {
        if i < rs.len() - 1 {
            law_best_of_prefers_accepted(rs.drop_last(), i);
        }
    }
}

/// The best result is one of the results it was combined from.
pub proof fn law_best_of_is_a_result(rs: Seq<MatchResult>)
    requires
        rs.len() > 0,
    ensures
        rs.contains(spec_best_of(rs)),
    decreases rs.len(),
{
    if rs.len() > 1 {
        law_best_of_is_a_result(rs.drop_last());
        let b = spec_best_of(rs.drop_last());
        let j = choose|j: int| 0 <= j < rs.drop_last().len() && rs.drop_last()[j] == b;
        assert(rs[j] == b);
        assert(rs[rs.len() - 1] == rs.last());
    }
}


/// Between two results that agree on whether they matched and both carry a score, the
/// better one is one of the two, and neither scores above it; a matched result always
/// wins over an unmatched one.
pub proof fn law_best_result_keeps_the_higher_score(left: MatchResult, right: MatchResult)
    ensures
        spec_best_result(left, right) == left || spec_best_result(left, right) == right,
        left.matched != right.matched ==> spec_best_result(left, right).matched,
        (left.matched == right.matched && left.score is Some && right.score is Some) ==> ({
            let c = spec_best_result(left, right).score->0;
            &&& spec_best_result(left, right).score is Some
            &&& !f32_gt(left.score->0, c)
            &&& !f32_gt(right.score->0, c)
        }),
{
}

} // verus!
