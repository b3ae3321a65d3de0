use facegate::ipc::{EnrolledTemplateSummary, MatchReason, MatchResult, TemplateScope};
use facegate::storage::AuthScope;
use facegate::test_cmd::{best_result, scopes_to_test, TestScope};

#[test]
fn all_scope_uses_only_scopes_with_templates() {
    let templates = vec![EnrolledTemplateSummary {
        id: 0,
        label: "session".to_owned(),
        created_at: "now".to_owned(),
        scope: TemplateScope::Session,
    }];
    assert_eq!(
        scopes_to_test(TestScope::All, &templates),
        vec![AuthScope::Session]
    );
}

#[test]
fn both_template_tests_both_auth_scopes() {
    let templates = vec![EnrolledTemplateSummary {
        id: 0,
        label: "both".to_owned(),
        created_at: "now".to_owned(),
        scope: TemplateScope::Both,
    }];
    assert_eq!(
        scopes_to_test(TestScope::All, &templates),
        vec![AuthScope::Session, AuthScope::Sudo]
    );
}

#[test]
fn best_result_prefers_accept_over_higher_reject_score() {
    let accepted = MatchResult {
        matched: true,
        score: Some(0.65f32.to_bits()),
        template_id: Some(1),
        reason: MatchReason::Matched,
    };
    let rejected = MatchResult {
        matched: false,
        score: Some(0.80f32.to_bits()),
        template_id: None,
        reason: MatchReason::TemplateMismatch,
    };

    assert!(best_result(accepted.clone(), rejected.clone()).matched);
    assert!(best_result(rejected, accepted).matched);
}
