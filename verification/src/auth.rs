//! The decisions of a non-interactive face authentication (the helper the PAM module
//! runs): which policy applies, how many captures are made, when a user is recognised,
//! and which exit code every failure maps to.
//!
//! The authentication is a state machine. The binary opens the cameras, captures frames,
//! talks to the broker and writes the user log; after each capture or broker reply it
//! hands the outcome to [`AuthSession::step`], which says what to do next.
use vstd::prelude::*;

use crate::broker_client::{
    spec_retryable_capture, spec_unavailable, unavailable_code, BrokerAuthError,
    match_reason_is_retryable_capture,
};
use crate::config::{spec_policy_for, Config, EffectiveRecognitionPolicy};
use crate::error::{AuthExitCode, FaceRsError};
use crate::ipc::{ErrorCode, MatchReason, MatchResult};
use crate::storage::AuthScope;
use crate::text::str_eq;

verus! {

/// Captures of one RGB+IR pair tried within a single attempt before a capture problem
/// (desynchronised frames, no or several faces on one side, misaligned faces) counts
/// against the attempt.
pub const CROSS_CHECK_CAPTURE_RETRIES: u32 = 3;

/// The PAM services that authenticate for `sudo`; every other service is a session.
pub open spec fn spec_auth_scope_for_service(service: Option<Seq<char>>) -> AuthScope {
    match service {
        Some(s) => if s == "sudo"@ || s == "sudo-i"@ {
            AuthScope::Sudo
        } else {
            AuthScope::Session
        },
        None => AuthScope::Session,
    }
}

/// The authentication scope of a PAM service name.
pub fn auth_scope_for_service(service: Option<&str>) -> (s: AuthScope)
    ensures
        s == spec_auth_scope_for_service(
            match service {
                Some(x) => Some(x@),
                None => None,
            },
        ),
{
    match service {
        Some(name) => if str_eq(name, "sudo") || str_eq(name, "sudo-i") {
            AuthScope::Sudo
        } else {
            AuthScope::Session
        },
        None => AuthScope::Session,
    }
}

/// Not recognised: hand over to the password prompt if allowed, else deny.
pub open spec fn spec_fallback_or_deny(allow_password_fallback: bool) -> AuthExitCode {
    if allow_password_fallback {
        AuthExitCode::NotRecognized
    } else {
        AuthExitCode::Denied
    }
}

/// Timed out: report the timeout (the password prompt follows) if allowed, else deny.
pub open spec fn spec_timeout_or_deny(allow_password_fallback: bool) -> AuthExitCode {
    if allow_password_fallback {
        AuthExitCode::Timeout
    } else {
        AuthExitCode::Denied
    }
}

/// A camera error: a camera error if camera errors deny, else as not recognised.
pub open spec fn spec_camera_error_or_fallback(
    deny_on_camera_error: bool,
    allow_password_fallback: bool,
) -> AuthExitCode {
    if deny_on_camera_error {
        AuthExitCode::CameraError
    } else {
        spec_fallback_or_deny(allow_password_fallback)
    }
}

/// The exit code when the face was not recognised.
pub fn fallback_or_deny(config: &Config) -> (c: AuthExitCode)
    ensures
        c == spec_fallback_or_deny(config.security.allow_password_fallback),
{
    if config.security.allow_password_fallback {
        AuthExitCode::NotRecognized
    } else {
        AuthExitCode::Denied
    }
}

/// The exit code when every attempt ended without a frame in time.
pub fn timeout_or_deny(config: &Config) -> (c: AuthExitCode)
    ensures
        c == spec_timeout_or_deny(config.security.allow_password_fallback),
{
    if config.security.allow_password_fallback {
        AuthExitCode::Timeout
    } else {
        AuthExitCode::Denied
    }
}

/// The exit code of a camera error.
pub fn camera_error_or_fallback(config: &Config) -> (c: AuthExitCode)
    ensures
        c == spec_camera_error_or_fallback(
            config.security.deny_on_camera_error,
            config.security.allow_password_fallback,
        ),
{
    if config.security.deny_on_camera_error {
        AuthExitCode::CameraError
    } else {
        fallback_or_deny(config)
    }
}

/// The cross-check runs when it is enabled and an IR camera is configured.
pub fn cross_check_active(config: &Config) -> (r: bool)
    ensures
        r == (config.camera.cross_check.enabled && config.camera.ir is Some),
{
    config.camera.cross_check.enabled && config.camera.ir.is_some()
}

/// The exit code when a camera cannot be opened: a camera error is a camera error,
/// anything else is internal.
pub fn camera_open_failure(config: &Config, error: &FaceRsError) -> (c: AuthExitCode)
    ensures
        c == (match error {
            FaceRsError::Camera(_) => spec_camera_error_or_fallback(
                config.security.deny_on_camera_error,
                config.security.allow_password_fallback,
            ),
            _ => AuthExitCode::InternalError,
        }),
{
    match error {
        FaceRsError::Camera(_) => camera_error_or_fallback(config),
        _ => AuthExitCode::InternalError,
    }
}

/// What happened when a frame (or frame pair) was requested or matched.
pub enum AuthEvent {
    /// A camera did not deliver a frame in time.
    CaptureTimeout,
    /// A camera failed while capturing.
    CaptureCameraError,
    /// Capturing failed for another reason.
    CaptureFailed,
    /// The broker answered the match request.
    Match(MatchResult),
    /// The match request failed.
    BrokerFailed(BrokerAuthError),
}

/// How a failed capture is classified.
pub fn capture_event(error: &FaceRsError) -> (e: AuthEvent)
    ensures
        match error {
            FaceRsError::Timeout => e is CaptureTimeout,
            FaceRsError::Camera(_) => e is CaptureCameraError,
            _ => e is CaptureFailed,
        },
{
    match error {
        FaceRsError::Timeout => AuthEvent::CaptureTimeout,
        FaceRsError::Camera(_) => AuthEvent::CaptureCameraError,
        _ => AuthEvent::CaptureFailed,
    }
}

/// What the binary does next.
#[derive(Debug, Clone, Copy, PartialEq, Eq, Structural)]
pub enum AuthAction {
    /// Capture a frame (an RGB+IR pair when cross-checking) and ask the broker to match
    /// it, for attempt `attempt` (from 1) and capture `capture_attempt` (from 1) of it.
    Capture { attempt: u32, capture_attempt: u32 },
    /// Stop with this exit code.
    Finish(AuthExitCode),
    /// Every attempt was used without recognising the face: stop with this exit code;
    /// `timed_out` tells whether some capture timed out.
    GiveUp { code: AuthExitCode, timed_out: bool },
}

/// What the user log records about a step, besides captures and give-ups.
#[derive(Debug, Clone, Copy, PartialEq, Eq, Structural)]
pub enum AuthNote {
    Quiet,
    /// A cross-check capture problem; the pair is captured again.
    Retry { attempt: u32, capture_attempt: u32, reason: MatchReason },
    /// The face was recognised.
    Accept { reason: MatchReason },
    /// The attempt did not match.
    Reject { attempt: u32, reason: MatchReason },
    /// The broker cannot serve this user now.
    BrokerUnavailable { code: ErrorCode },
    /// The broker request failed.
    BrokerError,
}

/// The state of one authentication.
#[derive(Debug, Clone, Copy, PartialEq, Eq, Structural)]
pub struct AuthSession {
    pub scope: AuthScope,
    pub policy: EffectiveRecognitionPolicy,
    pub cross_check: bool,
    pub allow_password_fallback: bool,
    pub deny_on_camera_error: bool,
    /// The current attempt, from 1.
    pub attempt: u32,
    /// The current capture within the attempt, from 1.
    pub capture_attempt: u32,
    /// Attempts that matched so far.
    pub matches: u32,
    /// Some capture timed out.
    pub saw_timeout: bool,
}

impl AuthSession {
    /// A session in progress: the attempt is within the policy's budget, the capture
    /// within the retry budget (always the first one without cross-check), and fewer
    /// matches than attempts started.
    pub open spec fn wf(self) -> bool {
        &&& 1 <= self.attempt <= self.policy.max_attempts
        &&& 1 <= self.capture_attempt <= CROSS_CHECK_CAPTURE_RETRIES
        &&& (!self.cross_check ==> self.capture_attempt == 1)
        &&& self.matches < self.attempt
    }
}

/// The session of an authentication for `service` under `config`, before its first
/// capture.
pub open spec fn spec_new_session(c: Config, service: Option<Seq<char>>) -> AuthSession {
    let scope = spec_auth_scope_for_service(service);
    AuthSession {
        scope,
        policy: spec_policy_for(c.recognition, scope),
        cross_check: c.camera.cross_check.enabled && c.camera.ir is Some,
        allow_password_fallback: c.security.allow_password_fallback,
        deny_on_camera_error: c.security.deny_on_camera_error,
        attempt: 1,
        capture_attempt: 1,
        matches: 0,
        saw_timeout: false,
    }
}

/// The first action: capture for attempt 1, or give up at once when the policy allows
/// no attempt.
pub open spec fn spec_first_action(s: AuthSession) -> AuthAction {
    if s.policy.max_attempts == 0 {
        AuthAction::GiveUp {
            code: spec_fallback_or_deny(s.allow_password_fallback),
            timed_out: false,
        }
    } else {
        AuthAction::Capture { attempt: 1, capture_attempt: 1 }
    }
}

/// Moving on to the next attempt, or giving up after the last one: a timeout seen on
/// the way makes the final answer a timeout.
pub open spec fn spec_advance(s: AuthSession) -> (AuthSession, AuthAction) {
    if s.attempt >= s.policy.max_attempts {
        (
            s,
            AuthAction::GiveUp {
                code: if s.saw_timeout {
                    spec_timeout_or_deny(s.allow_password_fallback)
                } else {
                    spec_fallback_or_deny(s.allow_password_fallback)
                },
                timed_out: s.saw_timeout,
            },
        )
    } else {
        let n = (s.attempt + 1) as u32;
        (AuthSession { attempt: n, capture_attempt: 1, ..s }, AuthAction::Capture { attempt: n, capture_attempt: 1 })
    }
}

/// Capturing the pair again within the same attempt.
pub open spec fn spec_recapture(s: AuthSession) -> (AuthSession, AuthAction) {
    let c = (s.capture_attempt + 1) as u32;
    (AuthSession { capture_attempt: c, ..s }, AuthAction::Capture { attempt: s.attempt, capture_attempt: c })
}

/// A broker answer that is a cross-check capture problem worth another capture: no
/// match and no score, a retryable reason, and captures left in the attempt.
pub open spec fn spec_retry_capture(s: AuthSession, r: MatchResult) -> bool {
    s.cross_check && !r.matched && r.score is None && spec_retryable_capture(r.reason)
        && s.capture_attempt < CROSS_CHECK_CAPTURE_RETRIES
}

/// One step of the authentication: the new state, the log note and the next action.
pub open spec fn spec_step(s: AuthSession, e: AuthEvent) -> (AuthSession, AuthNote, AuthAction) {
    match e {
        AuthEvent::CaptureTimeout => {
            let t = AuthSession { saw_timeout: true, ..s };
            if s.cross_check && s.capture_attempt < CROSS_CHECK_CAPTURE_RETRIES {
                let (n, a) = spec_recapture(t);
                (n, AuthNote::Quiet, a)
            } else {
                let (n, a) = spec_advance(t);
                (n, AuthNote::Quiet, a)
            }
        },
        AuthEvent::CaptureCameraError => (
            s,
            AuthNote::Quiet,
            AuthAction::Finish(
                spec_camera_error_or_fallback(s.deny_on_camera_error, s.allow_password_fallback),
            ),
        ),
        AuthEvent::CaptureFailed => (s, AuthNote::Quiet, AuthAction::Finish(AuthExitCode::InternalError)),
        AuthEvent::Match(r) => {
            if spec_retry_capture(s, r) {
                let (n, a) = spec_recapture(s);
                (
                    n,
                    AuthNote::Retry {
                        attempt: s.attempt,
                        capture_attempt: s.capture_attempt,
                        reason: r.reason,
                    },
                    a,
                )
            } else if r.matched {
                let m = AuthSession { matches: (s.matches + 1) as u32, ..s };
                if s.matches + 1 >= s.policy.required_matches {
                    (m, AuthNote::Accept { reason: r.reason }, AuthAction::Finish(AuthExitCode::Recognized))
                } else {
                    let (n, a) = spec_advance(m);
                    (n, AuthNote::Quiet, a)
                }
            } else {
                let (n, a) = spec_advance(s);
                (n, AuthNote::Reject { attempt: s.attempt, reason: r.reason }, a)
            }
        },
        AuthEvent::BrokerFailed(err) => match spec_unavailable(err) {
            Some(code) => (
                s,
                AuthNote::BrokerUnavailable { code },
                AuthAction::Finish(spec_fallback_or_deny(s.allow_password_fallback)),
            ),
            None => (s, AuthNote::BrokerError, AuthAction::Finish(AuthExitCode::InternalError)),
        },
    }
}

impl AuthSession {
    /// The session of an authentication for the PAM `service` under `config`, and its
    /// first action.
    pub fn start(config: &Config, service: Option<&str>) -> (r: (AuthSession, AuthAction))
        ensures
            r.0 == spec_new_session(
                *config,
                match service {
                    Some(x) => Some(x@),
                    None => None,
                },
            ),
            r.1 == spec_first_action(r.0),
            r.1 is Capture ==> r.0.wf(),
    {
        let scope = auth_scope_for_service(service);
        let policy = config.recognition.policy_for(scope);
        let s = AuthSession {
            scope,
            policy,
            cross_check: cross_check_active(config),
            allow_password_fallback: config.security.allow_password_fallback,
            deny_on_camera_error: config.security.deny_on_camera_error,
            attempt: 1,
            capture_attempt: 1,
            matches: 0,
            saw_timeout: false,
        };
        let a = if policy.max_attempts == 0 {
            AuthAction::GiveUp {
                code: if s.allow_password_fallback {
                    AuthExitCode::NotRecognized
                } else {
                    AuthExitCode::Denied
                },
                timed_out: false,
            }
        } else {
            AuthAction::Capture { attempt: 1, capture_attempt: 1 }
        };
        (s, a)
    }

    fn advance(&mut self) -> (a: AuthAction)
        ensures
            (*final(self), a) == spec_advance(*old(self)),
    {
        if self.attempt >= self.policy.max_attempts {
            let code = if self.saw_timeout {
                if self.allow_password_fallback {
                    AuthExitCode::Timeout
                } else {
                    AuthExitCode::Denied
                }
            } else {
                if self.allow_password_fallback {
                    AuthExitCode::NotRecognized
                } else {
                    AuthExitCode::Denied
                }
            };
            AuthAction::GiveUp { code, timed_out: self.saw_timeout }
        } else {
            self.attempt = self.attempt + 1;
            self.capture_attempt = 1;
            AuthAction::Capture { attempt: self.attempt, capture_attempt: 1 }
        }
    }

    fn recapture(&mut self) -> (a: AuthAction)
        requires
            old(self).capture_attempt < CROSS_CHECK_CAPTURE_RETRIES,
        ensures
            (*final(self), a) == spec_recapture(*old(self)),
    {
        self.capture_attempt = self.capture_attempt + 1;
        AuthAction::Capture { attempt: self.attempt, capture_attempt: self.capture_attempt }
    }

    /// Takes the outcome of the last action and decides the next one.
    pub fn step(&mut self, event: AuthEvent) -> (r: (AuthNote, AuthAction))
        requires
            old(self).wf(),
        ensures
            (*final(self), r.0, r.1) == spec_step(*old(self), event),
    {
        match event {
            AuthEvent::CaptureTimeout => {
                self.saw_timeout = true;
                if self.cross_check && self.capture_attempt < CROSS_CHECK_CAPTURE_RETRIES {
                    let a = self.recapture();
                    (AuthNote::Quiet, a)
                } else {
                    let a = self.advance();
                    (AuthNote::Quiet, a)
                }
            },
            AuthEvent::CaptureCameraError => {
                let code = if self.deny_on_camera_error {
                    AuthExitCode::CameraError
                } else if self.allow_password_fallback {
                    AuthExitCode::NotRecognized
                } else {
                    AuthExitCode::Denied
                };
                (AuthNote::Quiet, AuthAction::Finish(code))
            },
            AuthEvent::CaptureFailed => (AuthNote::Quiet, AuthAction::Finish(AuthExitCode::InternalError)),
            AuthEvent::Match(r) => {
                if self.cross_check && !r.matched && r.score.is_none()
                    && match_reason_is_retryable_capture(r.reason) && self.capture_attempt
                    < CROSS_CHECK_CAPTURE_RETRIES {
                    let note = AuthNote::Retry {
                        attempt: self.attempt,
                        capture_attempt: self.capture_attempt,
                        reason: r.reason,
                    };
                    let a = self.recapture();
                    (note, a)
                } else if r.matched {
                    self.matches = self.matches + 1;
                    if self.matches >= self.policy.required_matches {
                        (AuthNote::Accept { reason: r.reason }, AuthAction::Finish(AuthExitCode::Recognized))
                    } else {
                        let a = self.advance();
                        (AuthNote::Quiet, a)
                    }
                } else {
                    let note = AuthNote::Reject { attempt: self.attempt, reason: r.reason };
                    let a = self.advance();
                    (note, a)
                }
            },
            AuthEvent::BrokerFailed(err) => match unavailable_code(&err) {
                Some(code) => {
                    let c = if self.allow_password_fallback {
                        AuthExitCode::NotRecognized
                    } else {
                        AuthExitCode::Denied
                    };
                    (AuthNote::BrokerUnavailable { code }, AuthAction::Finish(c))
                },
                None => (AuthNote::BrokerError, AuthAction::Finish(AuthExitCode::InternalError)),
            },
        }
    }
}

// ── Laws ─────────────────────────────────────────────────────────────────────

/// The next exit code an action stops with, if it stops.
pub open spec fn spec_exit_of(a: AuthAction) -> Option<AuthExitCode> {
    match a {
        AuthAction::Capture { .. } => None,
        AuthAction::Finish(c) => Some(c),
        AuthAction::GiveUp { code, .. } => Some(code),
    }
}

/// Every capture asked for lies within the policy's attempt budget and the per-attempt
/// capture budget, and the session stays well formed while it goes on.
pub proof fn law_captures_stay_within_budget(s: AuthSession, e: AuthEvent)
    requires
        s.wf(),
    ensures
        ({
            let (n, note, a) = spec_step(s, e);
            a matches AuthAction::Capture { attempt, capture_attempt } ==> {
                &&& n.wf()
                &&& n.attempt == attempt
                &&& n.capture_attempt == capture_attempt
                &&& 1 <= attempt <= s.policy.max_attempts
                &&& 1 <= capture_attempt <= CROSS_CHECK_CAPTURE_RETRIES
            }
        }),
{
}

/// Each capture comes strictly later than the last one, attempt by attempt and capture
/// by capture within an attempt: an authentication makes at most
/// `max_attempts * CROSS_CHECK_CAPTURE_RETRIES` captures.
pub proof fn law_captures_move_forward(s: AuthSession, e: AuthEvent)
    requires
        s.wf(),
    ensures
        ({
            let (n, note, a) = spec_step(s, e);
            a is Capture ==> (n.attempt > s.attempt || (n.attempt == s.attempt
                && n.capture_attempt > s.capture_attempt))
        }),
{
}

/// With the password fallback disabled, an authentication that does not recognise the
/// face never ends in "not recognised" or "timeout" (which hand over to the password
/// prompt): it is denied, or fails with a camera or internal error.
pub proof fn law_no_fallback_without_permission(s: AuthSession, e: AuthEvent)
    requires
        !s.allow_password_fallback,
    ensures
        ({
            let (n, note, a) = spec_step(s, e);
            spec_exit_of(a) is Some ==> spec_exit_of(a) != Some(AuthExitCode::NotRecognized)
                && spec_exit_of(a) != Some(AuthExitCode::Timeout)
        }),
        spec_exit_of(spec_first_action(s)) is Some ==> spec_exit_of(spec_first_action(s))
            == Some(AuthExitCode::Denied),
{
}

/// The face is recognised only on a matching broker answer that brings the count of
/// matched attempts up to the policy's required number.
pub proof fn law_recognized_needs_required_matches(s: AuthSession, e: AuthEvent)
    requires
        s.wf(),
    ensures
        ({
            let (n, note, a) = spec_step(s, e);
            a == AuthAction::Finish(AuthExitCode::Recognized) ==> {
                &&& e matches AuthEvent::Match(r) && r.matched
                &&& n.matches == s.matches + 1
                &&& n.matches >= s.policy.required_matches
                &&& n.matches <= n.attempt
            }
        }),
{
}

/// Only a matching broker answer adds to the count of matched attempts, by one.
pub proof fn law_matches_count_matching_answers(s: AuthSession, e: AuthEvent)
    requires
        s.wf(),
    ensures
        ({
            let (n, note, a) = spec_step(s, e);
            n.matches == s.matches + (if e matches AuthEvent::Match(r) && r.matched {
                1int
            } else {
                0int
            })
        }),
{
}

/// A camera failure while capturing ends with a camera error when camera errors are
/// configured to deny, and otherwise as an unrecognised face.
pub proof fn law_camera_errors_follow_policy(s: AuthSession)
    ensures
        spec_step(s, AuthEvent::CaptureCameraError).2 == AuthAction::Finish(
            if s.deny_on_camera_error {
                AuthExitCode::CameraError
            } else {
                spec_fallback_or_deny(s.allow_password_fallback)
            },
        ),
{
}

/// A broker that cannot serve the user (not enrolled, rate-limited, locked out) makes
/// the authentication fall back like an unrecognised face; any other broker failure is
/// an internal error.
pub proof fn law_broker_failures(s: AuthSession, err: BrokerAuthError)
    ensures
        spec_step(s, AuthEvent::BrokerFailed(err)).2 == AuthAction::Finish(
            if spec_unavailable(err) is Some {
                spec_fallback_or_deny(s.allow_password_fallback)
            } else {
                AuthExitCode::InternalError
            },
        ),
{
}


/// A broker that cannot serve the user, because the user has no templates, the peer is
/// rate limited or the user is locked out, makes the authentication end as an
/// unrecognised face would (the password prompt, or a denial), noting the broker's code;
/// every other broker error ends the authentication as an internal error.
pub proof fn law_unavailable_broker_falls_back(s: AuthSession, b: crate::ipc::BrokerError)
    ensures
        (b.code == ErrorCode::NotEnrolled || b.code == ErrorCode::RateLimited || b.code
            == ErrorCode::LockedOut) ==> spec_step(
            s,
            AuthEvent::BrokerFailed(BrokerAuthError::Broker(b)),
        ) == (s, AuthNote::BrokerUnavailable { code: b.code }, AuthAction::Finish(
            spec_fallback_or_deny(s.allow_password_fallback),
        )),
        !(b.code == ErrorCode::NotEnrolled || b.code == ErrorCode::RateLimited || b.code
            == ErrorCode::LockedOut) ==> spec_step(
            s,
            AuthEvent::BrokerFailed(BrokerAuthError::Broker(b)),
        ).2 == AuthAction::Finish(AuthExitCode::InternalError),
{
}

} // verus!
