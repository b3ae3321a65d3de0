//! Client-side helpers for talking to the broker: probe construction, wording of match
//! reasons, template-scope checks on summaries, and reading broker replies.
use vstd::prelude::*;

use crate::camera::Frame;
use crate::ipc::{
    BrokerError, EnrolledTemplateSummary, ErrorCode, FrameFormat, FrameProbe, MatchReason,
    MatchResult, Response, TemplateScope, AuditEvent, EnrolledUserSummary,
};
use crate::storage::{self, AuthScope};
use crate::text::{owned, string_push_str};

verus! {

/// Wraps a captured frame in a probe for the broker. Camera frames are always RGB24,
/// and the capture timestamp is the one stamped when the frame was dequeued.
pub fn frame_probe(frame: Frame) -> (p: FrameProbe)
    ensures
        p.format == FrameFormat::Rgb8,
        p.width == frame.width,
        p.height == frame.height,
        p.captured_at_ms == frame.captured_at_ms,
        p.bytes@ == frame.data@,
{
    FrameProbe {
        format: FrameFormat::Rgb8,
        width: frame.width,
        height: frame.height,
        captured_at_ms: frame.captured_at_ms,
        bytes: frame.data,
    }
}

/// Machine label of a match reason, as written to the user log.
pub open spec fn spec_match_reason_label(r: MatchReason) -> Seq<char> {
    match r {
        MatchReason::Matched => "matched"@,
        MatchReason::TemplateMismatch => "template_mismatch"@,
        MatchReason::NotEnrolled => "not_enrolled"@,
        MatchReason::NoFace => "no_face"@,
        MatchReason::MultipleFaces => "multiple_faces"@,
        MatchReason::CrossCheckRequired => "cross_check_required"@,
        MatchReason::CrossCheckTimeSkew => "cross_check_time_skew"@,
        MatchReason::CrossCheckRgbNoFace => "cross_check_rgb_no_face"@,
        MatchReason::CrossCheckRgbMultipleFaces => "cross_check_rgb_multiple_faces"@,
        MatchReason::CrossCheckIrNoFace => "cross_check_ir_no_face"@,
        MatchReason::CrossCheckIrMultipleFaces => "cross_check_ir_multiple_faces"@,
        MatchReason::CrossCheckPositionMismatch => "cross_check_position_mismatch"@,
        MatchReason::Internal => "internal"@,
    }
}

/// Human wording of a match reason.
pub open spec fn spec_match_reason_human(r: MatchReason) -> Seq<char> {
    match r {
        MatchReason::Matched => "matched"@,
        MatchReason::TemplateMismatch => "best template score is below threshold"@,
        MatchReason::NotEnrolled => "no enrolled template"@,
        MatchReason::NoFace => "no face detected"@,
        MatchReason::MultipleFaces => "multiple faces detected"@,
        MatchReason::CrossCheckRequired => "RGB+IR cross-check is required"@,
        MatchReason::CrossCheckTimeSkew => "RGB and IR frames were not synchronized"@,
        MatchReason::CrossCheckRgbNoFace => "no face detected on RGB frame"@,
        MatchReason::CrossCheckRgbMultipleFaces => "multiple faces detected on RGB frame"@,
        MatchReason::CrossCheckIrNoFace => "no face detected on IR frame"@,
        MatchReason::CrossCheckIrMultipleFaces => "multiple faces detected on IR frame"@,
        MatchReason::CrossCheckPositionMismatch => "RGB/IR face positions do not align"@,
        MatchReason::Internal => "internal broker error"@,
    }
}

/// Two different match reasons are logged under different labels, so a label names its
/// reason.
pub proof fn law_match_reason_labels_distinct(r1: MatchReason, r2: MatchReason)
    requires
        r1 != r2,
    ensures
        spec_match_reason_label(r1) != spec_match_reason_label(r2),
{
    reveal_strlit("matched");
    reveal_strlit("template_mismatch");
    reveal_strlit("not_enrolled");
    reveal_strlit("no_face");
    reveal_strlit("multiple_faces");
    reveal_strlit("cross_check_required");
    reveal_strlit("cross_check_time_skew");
    reveal_strlit("cross_check_rgb_no_face");
    reveal_strlit("cross_check_rgb_multiple_faces");
    reveal_strlit("cross_check_ir_no_face");
    reveal_strlit("cross_check_ir_multiple_faces");
    reveal_strlit("cross_check_position_mismatch");
    reveal_strlit("internal");
    assert("matched"@[0] != "no_face"@[0]);
    assert("cross_check_ir_multiple_faces"@[12] != "cross_check_position_mismatch"@[12]);
    let a = spec_match_reason_label(r1);
    let b = spec_match_reason_label(r2);
    if a == b {
        assert(a.len() == b.len());
        assert(a.len() > 0 ==> a[0] == b[0]);
        assert(a.len() > 12 ==> a[12] == b[12]);
        match r1 {
            MatchReason::Matched => {},
            MatchReason::TemplateMismatch => {},
            MatchReason::NotEnrolled => {},
            MatchReason::NoFace => {},
            MatchReason::MultipleFaces => {},
            MatchReason::CrossCheckRequired => {},
            MatchReason::CrossCheckTimeSkew => {},
            MatchReason::CrossCheckRgbNoFace => {},
            MatchReason::CrossCheckRgbMultipleFaces => {},
            MatchReason::CrossCheckIrNoFace => {},
            MatchReason::CrossCheckIrMultipleFaces => {},
            MatchReason::CrossCheckPositionMismatch => {},
            MatchReason::Internal => {},
        }
    }
}

/// The log renderer words the label of every match reason but `Internal` as the broker
/// client words the reason itself.
pub proof fn law_match_reason_human_agrees_with_log(r: MatchReason)
    requires
        r != MatchReason::Internal,
    ensures
        spec_match_reason_human(r) == crate::user_log::spec_human_reason(spec_match_reason_label(r)),
{
    reveal_strlit("matched");
    reveal_strlit("template_mismatch");
    reveal_strlit("not_enrolled");
    reveal_strlit("no_face");
    reveal_strlit("multiple_faces");
    reveal_strlit("cross_check_required");
    reveal_strlit("cross_check_time_skew");
    reveal_strlit("cross_check_rgb_no_face");
    reveal_strlit("cross_check_rgb_multiple_faces");
    reveal_strlit("cross_check_ir_no_face");
    reveal_strlit("cross_check_ir_multiple_faces");
    reveal_strlit("cross_check_position_mismatch");
    reveal_strlit("internal");
    reveal_strlit("no_score");
    reveal_strlit("cross_check_identity_mismatch");
    reveal_strlit("cross_check_no_score");
    assert("matched"@.len() == 7);
    assert("template_mismatch"@.len() == 17);
    assert("not_enrolled"@.len() == 12);
    assert("no_face"@.len() == 7);
    assert("multiple_faces"@.len() == 14);
    assert("cross_check_required"@.len() == 20);
    assert("cross_check_time_skew"@.len() == 21);
    assert("cross_check_rgb_no_face"@.len() == 23);
    assert("cross_check_rgb_multiple_faces"@.len() == 30);
    assert("cross_check_ir_no_face"@.len() == 22);
    assert("cross_check_ir_multiple_faces"@.len() == 29);
    assert("cross_check_position_mismatch"@.len() == 29);
    assert("internal"@.len() == 8);
    assert("no_score"@.len() == 8);
    assert("cross_check_identity_mismatch"@.len() == 29);
    assert("cross_check_no_score"@.len() == 20);
    assert("matched"@[0] != "no_face"@[0]);
    assert("cross_check_ir_multiple_faces"@[12] != "cross_check_position_mismatch"@[12]);
    match r {
        MatchReason::Matched => {},
        MatchReason::TemplateMismatch => {},
        MatchReason::NotEnrolled => {},
        MatchReason::NoFace => {},
        MatchReason::MultipleFaces => {},
        MatchReason::CrossCheckRequired => {},
        MatchReason::CrossCheckTimeSkew => {},
        MatchReason::CrossCheckRgbNoFace => {},
        MatchReason::CrossCheckRgbMultipleFaces => {},
        MatchReason::CrossCheckIrNoFace => {},
        MatchReason::CrossCheckIrMultipleFaces => {},
        MatchReason::CrossCheckPositionMismatch => {},
        MatchReason::Internal => {},
    }
}

/// A cross-check failure that a new RGB+IR capture may cure.
pub open spec fn spec_retryable_capture(r: MatchReason) -> bool {
    r == MatchReason::CrossCheckTimeSkew || r == MatchReason::CrossCheckRgbNoFace || r
        == MatchReason::CrossCheckRgbMultipleFaces || r == MatchReason::CrossCheckIrNoFace || r
        == MatchReason::CrossCheckIrMultipleFaces || r == MatchReason::CrossCheckPositionMismatch
}

/// Machine label of a match reason.
pub fn match_reason_label(reason: MatchReason) -> (s: &'static str)
    ensures
        s@ == spec_match_reason_label(reason),
{
    match reason {
        MatchReason::Matched => "matched",
        MatchReason::TemplateMismatch => "template_mismatch",
        MatchReason::NotEnrolled => "not_enrolled",
        MatchReason::NoFace => "no_face",
        MatchReason::MultipleFaces => "multiple_faces",
        MatchReason::CrossCheckRequired => "cross_check_required",
        MatchReason::CrossCheckTimeSkew => "cross_check_time_skew",
        MatchReason::CrossCheckRgbNoFace => "cross_check_rgb_no_face",
        MatchReason::CrossCheckRgbMultipleFaces => "cross_check_rgb_multiple_faces",
        MatchReason::CrossCheckIrNoFace => "cross_check_ir_no_face",
        MatchReason::CrossCheckIrMultipleFaces => "cross_check_ir_multiple_faces",
        MatchReason::CrossCheckPositionMismatch => "cross_check_position_mismatch",
        MatchReason::Internal => "internal",
    }
}

/// Human wording of a match reason.
pub fn match_reason_human(reason: MatchReason) -> (s: &'static str)
    ensures
        s@ == spec_match_reason_human(reason),
{
    match reason {
        MatchReason::Matched => "matched",
        MatchReason::TemplateMismatch => "best template score is below threshold",
        MatchReason::NotEnrolled => "no enrolled template",
        MatchReason::NoFace => "no face detected",
        MatchReason::MultipleFaces => "multiple faces detected",
        MatchReason::CrossCheckRequired => "RGB+IR cross-check is required",
        MatchReason::CrossCheckTimeSkew => "RGB and IR frames were not synchronized",
        MatchReason::CrossCheckRgbNoFace => "no face detected on RGB frame",
        MatchReason::CrossCheckRgbMultipleFaces => "multiple faces detected on RGB frame",
        MatchReason::CrossCheckIrNoFace => "no face detected on IR frame",
        MatchReason::CrossCheckIrMultipleFaces => "multiple faces detected on IR frame",
        MatchReason::CrossCheckPositionMismatch => "RGB/IR face positions do not align",
        MatchReason::Internal => "internal broker error",
    }
}

/// Whether a new RGB+IR capture may cure the failure.
pub fn match_reason_is_retryable_capture(reason: MatchReason) -> (r: bool)
    ensures
        r == spec_retryable_capture(reason),
{
    match reason {
        MatchReason::CrossCheckTimeSkew | MatchReason::CrossCheckRgbNoFace
        | MatchReason::CrossCheckRgbMultipleFaces | MatchReason::CrossCheckIrNoFace
        | MatchReason::CrossCheckIrMultipleFaces | MatchReason::CrossCheckPositionMismatch => true,
        _ => false,
    }
}

/// Whether a listed template may be used for an authentication of `auth_scope`.
pub fn summary_allows(template: &EnrolledTemplateSummary, auth_scope: AuthScope) -> (r: bool)
    ensures
        r == storage::spec_allows(storage::spec_core_template_scope(template.scope), auth_scope),
{
    match (template.scope, auth_scope) {
        (TemplateScope::Both, _) => true,
        (TemplateScope::Sudo, AuthScope::Sudo) => true,
        (TemplateScope::Session, AuthScope::Session) => true,
        _ => false,
    }
}

/// The lowercase scope name of a listed template.
pub fn summary_scope_label(template: &EnrolledTemplateSummary) -> (s: &'static str)
    ensures
        s@ == storage::spec_scope_label(storage::spec_core_template_scope(template.scope)),
{
    match template.scope {
        TemplateScope::Sudo => "sudo",
        TemplateScope::Session => "session",
        TemplateScope::Both => "both",
    }
}

/// Rust's `Debug` name of an error code.
pub open spec fn spec_error_code_name(c: ErrorCode) -> Seq<char> {
    match c {
        ErrorCode::BadRequest => "BadRequest"@,
        ErrorCode::VersionMismatch => "VersionMismatch"@,
        ErrorCode::Unauthorized => "Unauthorized"@,
        ErrorCode::NotEnrolled => "NotEnrolled"@,
        ErrorCode::RateLimited => "RateLimited"@,
        ErrorCode::LockedOut => "LockedOut"@,
        ErrorCode::Unsupported => "Unsupported"@,
        ErrorCode::Internal => "Internal"@,
    }
}

/// Rust's `Debug` name of an error code.
pub fn error_code_name(c: ErrorCode) -> (s: &'static str)
    ensures
        s@ == spec_error_code_name(c),
{
    match c {
        ErrorCode::BadRequest => "BadRequest",
        ErrorCode::VersionMismatch => "VersionMismatch",
        ErrorCode::Unauthorized => "Unauthorized",
        ErrorCode::NotEnrolled => "NotEnrolled",
        ErrorCode::RateLimited => "RateLimited",
        ErrorCode::LockedOut => "LockedOut",
        ErrorCode::Unsupported => "Unsupported",
        ErrorCode::Internal => "Internal",
    }
}

/// The error a client reports for a broker error reply.
pub open spec fn spec_broker_error_text(e: BrokerError) -> Seq<char> {
    if e.code == ErrorCode::NotEnrolled {
        "user has no enrolled templates"@
    } else {
        "broker error "@ + spec_error_code_name(e.code) + ": "@ + e.message@
    }
}

/// A broker reply, or the error to report when it is an error reply.
pub fn check_response(response: Response) -> (r: Result<Response, String>)
    ensures
        match response {
            Response::Error(e) => r matches Err(m) && m@ == spec_broker_error_text(e),
            _ => r == Ok::<Response, String>(response),
        },
{
    match response {
        Response::Error(error) => {
            if error.code == ErrorCode::NotEnrolled {
                Err(owned("user has no enrolled templates"))
            } else {
                let mut m = owned("broker error ");
                string_push_str(&mut m, error_code_name(error.code));
                string_push_str(&mut m, ": ");
                string_push_str(&mut m, error.message.as_str());
                Err(m)
            }
        },
        other => Ok(other),
    }
}

/// Why an authentication request to the broker failed: the socket exchange itself
/// failed (with the client's message), the broker answered with an error, or it
/// answered with a response of the wrong kind (described by its debug text).
pub enum BrokerAuthError {
    Client(String),
    Broker(BrokerError),
    Unexpected(String),
}

/// The broker cannot serve this user now (not enrolled, rate-limited, locked out):
/// authentication falls back instead of failing hard.
pub open spec fn spec_unavailable_code(c: ErrorCode) -> bool {
    c == ErrorCode::NotEnrolled || c == ErrorCode::RateLimited || c == ErrorCode::LockedOut
}

/// Whether an authentication failure means face authentication is unavailable for
/// the user, with the broker's code when it does.
pub open spec fn spec_unavailable(e: BrokerAuthError) -> Option<ErrorCode> {
    match e {
        BrokerAuthError::Broker(b) => if spec_unavailable_code(b.code) {
            Some(b.code)
        } else {
            None
        },
        _ => None,
    }
}

/// The error code of a broker error reply that means "unavailable for this user".
pub fn unavailable_code(e: &BrokerAuthError) -> (r: Option<ErrorCode>)
    ensures
        r == spec_unavailable(*e),
{
    match e {
        BrokerAuthError::Broker(b) => {
            if b.code == ErrorCode::NotEnrolled || b.code == ErrorCode::RateLimited || b.code
                == ErrorCode::LockedOut {
                Some(b.code)
            } else {
                None
            }
        },
        _ => None,
    }
}

/// The `Debug` rendering of a broker reply.
pub uninterp spec fn response_debug(r: Response) -> Seq<char>;

/// The `Debug` rendering of a broker reply (`format!("{:?}", ..)` over the derived
/// `Debug`), by which a client quotes a reply it did not expect. The rendering is a
/// function of the reply alone; what it looks like is not stated.
#[verifier::external_body]
fn describe_response(r: &Response) -> (s: String)
    ensures
        s@ == response_debug(*r),
{
    format!("{r:?}")
}

/// The match result carried by a broker reply to an authentication request; an error
/// reply is the broker's error, any other reply is unexpected and described by its
/// debug text.
pub fn auth_match_reply(response: Response) -> (r: Result<MatchResult, BrokerAuthError>)
    ensures
        match response {
            Response::Match { result } => r == Ok::<MatchResult, BrokerAuthError>(result),
            Response::Error(e) => r matches Err(BrokerAuthError::Broker(b)) && b == e,
            _ => r matches Err(BrokerAuthError::Unexpected(t)) && t@ == response_debug(response),
        },
{
    match response {
        Response::Match { result } => Ok(result),
        Response::Error(error) => Err(BrokerAuthError::Broker(error)),
        other => Err(BrokerAuthError::Unexpected(describe_response(&other))),
    }
}

/// The error a client reports for a broker reply of the wrong kind: a fixed prefix and
/// the reply's debug text.
pub open spec fn unexpected_reply_message(reply: Response) -> Seq<char> {
    "unexpected broker response: "@ + response_debug(reply)
}

/// The error for a broker reply of the wrong kind (see [`unexpected_reply_message`]).
pub fn unexpected_reply(reply: &Response) -> (m: String)
    ensures
        m@ == unexpected_reply_message(*reply),
{
    let mut m = owned("unexpected broker response: ");
    let d = describe_response(reply);
    string_push_str(&mut m, d.as_str());
    m
}

/// The templates listed in the broker's reply to a `List` request; an error reply gives
/// its error text, any other reply is unexpected.
pub fn list_templates(reply: Response) -> (r: Result<Vec<EnrolledTemplateSummary>, String>)
    ensures
        match reply {
            Response::List { templates } => r == Ok::<Vec<EnrolledTemplateSummary>, String>(templates),
            Response::Error(e) => r matches Err(m) && m@ == spec_broker_error_text(e),
            _ => r matches Err(m) && m@ == unexpected_reply_message(reply),
        },
{
    match check_response(reply) {
        Err(m) => Err(m),
        Ok(Response::List { templates }) => Ok(templates),
        Ok(other) => Err(unexpected_reply(&other)),
    }
}

/// The users listed in the broker's reply to a `Users` request.
pub fn list_users(reply: Response) -> (r: Result<Vec<EnrolledUserSummary>, String>)
    ensures
        match reply {
            Response::Users { users } => r == Ok::<Vec<EnrolledUserSummary>, String>(users),
            Response::Error(e) => r matches Err(m) && m@ == spec_broker_error_text(e),
            _ => r matches Err(m) && m@ == unexpected_reply_message(reply),
        },
{
    match check_response(reply) {
        Err(m) => Err(m),
        Ok(Response::Users { users }) => Ok(users),
        Ok(other) => Err(unexpected_reply(&other)),
    }
}

/// Whether the broker's reply to a `Remove` request confirms the removal.
pub fn remove_template(reply: Response) -> (r: Result<(), String>)
    ensures
        match reply {
            Response::Removed => r is Ok,
            Response::Error(e) => r matches Err(m) && m@ == spec_broker_error_text(e),
            _ => r matches Err(m) && m@ == unexpected_reply_message(reply),
        },
{
    match check_response(reply) {
        Err(m) => Err(m),
        Ok(Response::Removed) => Ok(()),
        Ok(other) => Err(unexpected_reply(&other)),
    }
}

/// The audit events in the broker's reply to an `AuditRecent` request.
pub fn audit_recent(reply: Response) -> (r: Result<Vec<AuditEvent>, String>)
    ensures
        match reply {
            Response::Audit { events } => r == Ok::<Vec<AuditEvent>, String>(events),
            Response::Error(e) => r matches Err(m) && m@ == spec_broker_error_text(e),
            _ => r matches Err(m) && m@ == unexpected_reply_message(reply),
        },
{
    match check_response(reply) {
        Err(m) => Err(m),
        Ok(Response::Audit { events }) => Ok(events),
        Ok(other) => Err(unexpected_reply(&other)),
    }
}

/// The match result in the broker's reply to a `Match`, `MatchFrame` or `MatchFramePair`
/// request.
pub fn match_result(reply: Response) -> (r: Result<MatchResult, String>)
    ensures
        match reply {
            Response::Match { result } => r == Ok::<MatchResult, String>(result),
            Response::Error(e) => r matches Err(m) && m@ == spec_broker_error_text(e),
            _ => r matches Err(m) && m@ == unexpected_reply_message(reply),
        },
{
    match check_response(reply) {
        Err(m) => Err(m),
        Ok(Response::Match { result }) => Ok(result),
        Ok(other) => Err(unexpected_reply(&other)),
    }
}

/// The summary of the template in the broker's reply to an `Enroll` request.
pub fn enrolled_template(reply: Response) -> (r: Result<EnrolledTemplateSummary, String>)
    ensures
        match reply {
            Response::Enrolled { template } => r == Ok::<EnrolledTemplateSummary, String>(template),
            Response::Error(e) => r matches Err(m) && m@ == spec_broker_error_text(e),
            _ => r matches Err(m) && m@ == unexpected_reply_message(reply),
        },
{
    match check_response(reply) {
        Err(m) => Err(m),
        Ok(Response::Enrolled { template }) => Ok(template),
        Ok(other) => Err(unexpected_reply(&other)),
    }
}

/// A listed template as a stored-template record without its embedding.
pub fn summary_to_enrolled(template: EnrolledTemplateSummary) -> (t: storage::EnrolledTemplate)
    ensures
        t.id == template.id,
        t.label == template.label,
        t.created_at == template.created_at,
        t.scope == storage::spec_core_template_scope(template.scope),
        t.embedding@.len() == 0,
{
    let scope = match template.scope {
        TemplateScope::Sudo => storage::TemplateScope::Sudo,
        TemplateScope::Session => storage::TemplateScope::Session,
        TemplateScope::Both => storage::TemplateScope::Both,
    };
    storage::EnrolledTemplate {
        id: template.id,
        label: template.label,
        created_at: template.created_at,
        scope,
        embedding: Vec::new(),
    }
}

} // verus!
