use facegate::auth::{AuthAction, AuthEvent, AuthNote, AuthSession};
use facegate::config::Config;
use facegate::error::AuthExitCode;
use facegate::ipc::{MatchReason, MatchResult};
use facegate::pam_edit::{content_has_line, service_path, set_enabled_content, LEGACY_PAM_LINE, PAM_LINE};
use facegate::pam_module::{
    helper_args, helper_path_from_args, pam_result, PAM_AUTH_ERR, PAM_IGNORE, PAM_SUCCESS,
};
use facegate::storage::AuthScope;
use facegate::watch::{ScanAction, ScanEvent, WatchScan};

fn answer(matched: bool) -> AuthEvent {
    AuthEvent::Match(MatchResult {
        matched,
        score: Some(if matched { 0.9_f32 } else { 0.1_f32 }.to_bits()),
        template_id: if matched { Some(0) } else { None },
        reason: if matched {
            MatchReason::Matched
        } else {
            MatchReason::TemplateMismatch
        },
    })
}

#[test]
fn sudo_needs_two_matches() {
    let config = Config::default();
    let (mut s, first) = AuthSession::start(&config, Some("sudo"));
    assert_eq!(s.scope, AuthScope::Sudo);
    assert_eq!(s.policy.required_matches, 2);
    assert_eq!(first, AuthAction::Capture { attempt: 1, capture_attempt: 1 });
    let (note, next) = s.step(answer(true));
    assert_eq!(note, AuthNote::Quiet);
    assert_eq!(next, AuthAction::Capture { attempt: 2, capture_attempt: 1 });
    let (note, next) = s.step(answer(true));
    assert_eq!(note, AuthNote::Accept { reason: MatchReason::Matched });
    assert_eq!(next, AuthAction::Finish(AuthExitCode::Recognized));
}

#[test]
fn session_gives_up_after_its_attempts() {
    let config = Config::default();
    let (mut s, _) = AuthSession::start(&config, Some("gdm-password"));
    assert_eq!(s.scope, AuthScope::Session);
    assert_eq!(s.policy.max_attempts, 3);
    let (note, next) = s.step(answer(false));
    assert_eq!(
        note,
        AuthNote::Reject { attempt: 1, reason: MatchReason::TemplateMismatch }
    );
    assert_eq!(next, AuthAction::Capture { attempt: 2, capture_attempt: 1 });
    s.step(answer(false));
    let (_, last) = s.step(answer(false));
    assert_eq!(
        last,
        AuthAction::GiveUp { code: AuthExitCode::NotRecognized, timed_out: false }
    );
}

#[test]
fn timeouts_end_as_timeout_or_denial() {
    let mut config = Config::default();
    let (mut s, _) = AuthSession::start(&config, None);
    for _ in 0..2 {
        s.step(AuthEvent::CaptureTimeout);
    }
    let (_, last) = s.step(AuthEvent::CaptureTimeout);
    assert_eq!(last, AuthAction::GiveUp { code: AuthExitCode::Timeout, timed_out: true });

    config.security.allow_password_fallback = false;
    let (mut s, _) = AuthSession::start(&config, None);
    for _ in 0..2 {
        s.step(AuthEvent::CaptureTimeout);
    }
    let (_, last) = s.step(AuthEvent::CaptureTimeout);
    assert_eq!(last, AuthAction::GiveUp { code: AuthExitCode::Denied, timed_out: true });
}

#[test]
fn camera_errors_follow_policy() {
    let mut config = Config::default();
    let (mut s, _) = AuthSession::start(&config, None);
    let (_, a) = s.step(AuthEvent::CaptureCameraError);
    assert_eq!(a, AuthAction::Finish(AuthExitCode::NotRecognized));
    config.security.deny_on_camera_error = true;
    let (mut s, _) = AuthSession::start(&config, None);
    let (_, a) = s.step(AuthEvent::CaptureCameraError);
    assert_eq!(a, AuthAction::Finish(AuthExitCode::CameraError));
    let (mut s, _) = AuthSession::start(&config, None);
    let (_, a) = s.step(AuthEvent::CaptureFailed);
    assert_eq!(a, AuthAction::Finish(AuthExitCode::InternalError));
}

#[test]
fn no_attempts_gives_up_at_once() {
    let mut config = Config::default();
    config.recognition.max_attempts = 0;
    let (_, first) = AuthSession::start(&config, None);
    assert_eq!(
        first,
        AuthAction::GiveUp { code: AuthExitCode::NotRecognized, timed_out: false }
    );
}

#[test]
fn pam_results_follow_helper_status() {
    assert_eq!(pam_result(Some(0)), PAM_SUCCESS);
    assert_eq!(pam_result(Some(1)), PAM_IGNORE);
    assert_eq!(pam_result(Some(2)), PAM_AUTH_ERR);
    assert_eq!(pam_result(Some(6)), PAM_AUTH_ERR);
    assert_eq!(pam_result(None), PAM_IGNORE);
}

#[test]
fn helper_command_line() {
    assert_eq!(
        helper_args("alice", Some("sudo")),
        vec!["auth", "--user", "alice", "--service", "sudo"]
    );
    assert_eq!(helper_args("bob", None), vec!["auth", "--user", "bob"]);
    let args = vec![
        "debug".to_owned(),
        "path=/opt/facegate/bin/facegate".to_owned(),
        "path=".to_owned(),
    ];
    assert_eq!(
        helper_path_from_args(&args).as_deref(),
        Some("/opt/facegate/bin/facegate")
    );
    assert_eq!(helper_path_from_args(&vec!["debug".to_owned()]), None);
}

#[test]
fn pam_line_is_inserted_after_leading_comment_and_removed() {
    let content = "#%PAM-1.0\nauth include common-auth\n";
    assert!(!content_has_line(content));
    let enabled = set_enabled_content(content, true).expect("changed");
    assert_eq!(
        enabled,
        format!("#%PAM-1.0\n{PAM_LINE}\nauth include common-auth\n")
    );
    assert!(content_has_line(&enabled));
    assert_eq!(set_enabled_content(&enabled, true), None);
    let disabled = set_enabled_content(&enabled, false).expect("changed");
    assert_eq!(disabled, "#%PAM-1.0\nauth include common-auth\n");
    assert_eq!(set_enabled_content(&disabled, false), None);
}

#[test]
fn pam_service_path_prefers_local_file() {
    assert_eq!(
        service_path("sudo", true, true).as_deref(),
        Some("/etc/pam.d/sudo")
    );
    assert_eq!(
        service_path("sudo", false, true).as_deref(),
        Some("/usr/lib/pam.d/sudo")
    );
    assert_eq!(service_path("sudo", false, false), None);
}

#[test]
fn watch_unlocks_after_required_matches() {
    let (mut scan, first) = WatchScan::start(2, 3);
    assert_eq!(first, ScanAction::Capture { attempt: 1 });
    assert_eq!(
        scan.step(ScanEvent::Answer { matched: true }),
        ScanAction::Capture { attempt: 2 }
    );
    assert_eq!(scan.step(ScanEvent::Timeout), ScanAction::Capture { attempt: 3 });
    assert_eq!(scan.step(ScanEvent::Answer { matched: true }), ScanAction::Unlock);
}

#[test]
fn watch_stops_on_failure_and_exhaustion() {
    let (mut scan, _) = WatchScan::start(1, 2);
    assert_eq!(scan.step(ScanEvent::Failed), ScanAction::Abort);
    let (mut scan, _) = WatchScan::start(1, 2);
    assert_eq!(
        scan.step(ScanEvent::Answer { matched: false }),
        ScanAction::Capture { attempt: 2 }
    );
    assert_eq!(
        scan.step(ScanEvent::Answer { matched: false }),
        ScanAction::Exhausted
    );
}

#[test]
fn enabling_inserts_absolute_module_path() {
    let out = set_enabled_content("#%PAM-1.0\nauth include system-auth\n", true);
    assert_eq!(
        out.as_deref(),
        Some("#%PAM-1.0\nauth      sufficient    /usr/lib/security/pam_facegate.so\nauth include system-auth\n")
    );
}

#[test]
fn legacy_bare_module_line_is_recognised_and_removed() {
    let content = format!("#%PAM-1.0\n  {LEGACY_PAM_LINE}  \nauth include system-auth\n");
    assert!(content_has_line(&content));
    assert_eq!(set_enabled_content(&content, true), None);
    assert_eq!(
        set_enabled_content(&content, false).as_deref(),
        Some("#%PAM-1.0\nauth include system-auth\n")
    );
}
