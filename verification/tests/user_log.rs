use facegate::broker_client::{match_reason_human, match_reason_label};
use facegate::ipc::MatchReason;
use facegate::user_log::{display_line, format_unix_utc, human_reason, render_message};

#[test]
fn formats_epoch_as_utc_timestamp() {
    assert_eq!(format_unix_utc(1_704_067_200), "2024-01-01T00:00:00Z");
    assert_eq!(format_unix_utc(1_709_210_096), "2024-02-29T12:34:56Z");
}

#[test]
fn displays_legacy_epoch_logs_as_readable_lines() {
    assert_eq!(
        display_line("1778616292 test reject reason=cross_check_no_score"),
        "2026-05-12T20:04:52Z | test: rejected (old log: cross-check rejected before template comparison)"
    );
}

#[test]
fn renders_match_reasons() {
    assert_eq!(
        render_message("test reject reason=cross_check_ir_no_face"),
        "test: rejected (no face detected on IR frame)"
    );
}

#[test]
fn match_reason_labels_render_as_the_client_words_them() {
    let reasons = [
        MatchReason::Matched,
        MatchReason::TemplateMismatch,
        MatchReason::NotEnrolled,
        MatchReason::NoFace,
        MatchReason::MultipleFaces,
        MatchReason::CrossCheckRequired,
        MatchReason::CrossCheckTimeSkew,
        MatchReason::CrossCheckRgbNoFace,
        MatchReason::CrossCheckRgbMultipleFaces,
        MatchReason::CrossCheckIrNoFace,
        MatchReason::CrossCheckIrMultipleFaces,
        MatchReason::CrossCheckPositionMismatch,
        MatchReason::Internal,
    ];
    for (i, a) in reasons.iter().enumerate() {
        for b in &reasons[i + 1..] {
            assert_ne!(match_reason_label(*a), match_reason_label(*b));
        }
        if *a != MatchReason::Internal {
            assert_eq!(human_reason(match_reason_label(*a)), match_reason_human(*a));
        }
    }
    assert_eq!(match_reason_human(MatchReason::CrossCheckIrNoFace), "no face detected on IR frame");
    assert_eq!(human_reason(match_reason_label(MatchReason::Internal)), "internal error");
    assert_eq!(match_reason_human(MatchReason::Internal), "internal broker error");
}
