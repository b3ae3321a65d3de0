//! How the broker daemon handles one request, as a sequence of decisions around the
//! work only the daemon can do.
//!
//! [`dispatch`] decides what a request needs: an immediate answer, an audited refusal,
//! or a piece of outside work (a face search in a frame, a comparison with the stored
//! templates, a store update, an audit-log read). The daemon does that work and hands
//! its result to the matching `after_*` / `*_reply` function, which takes the next
//! decision. Rate limiting and lockout counters live in the [`AbuseState`] passed along.
use vstd::prelude::*;

use crate::broker_match::{
    audit_filter, audit_limit, best_allowed, compare_verdict, f32_ge, is_match_response,
    recent_events, rejection_verdict, spec_audit_filter, spec_best_allowed, spec_recent_events,
    ScoredTemplate,
};
use crate::brokerd::{
    admit_match, authorized_for_user_or_root, core_auth_scope, core_template_scope, decoded_rgb,
    frame_from_probe, frames_are_synchronized, health_response, ipc_auth_scope,
    ipc_template_scope, is_error_response, is_root, probe_expected_len, probe_pixels,
    size_mismatch_message, spec_authorized_for_match, spec_check, spec_frames_are_synchronized,
    spec_record_failure, storage_error, unauthorized, version_error, version_mismatch_message,
    AbuseState, FailureCounter, PeerCredentials, WindowCounter, MAX_FRAME_PIXELS,
};
use crate::camera::Frame;
use crate::config::Config;
use crate::error::{spec_error_message, FaceRsError};
use crate::ipc::{
    self, AuditEvent, AuditOutcome, AuditReason, EnrolledTemplateSummary, ErrorCode, FrameProbe,
    MatchReason, MatchResult, Request, RequestEnvelope, Response, ResponseEnvelope,
    PROTOCOL_VERSION,
};
use crate::storage::{self, EnrolledTemplate, UserTemplates};
use crate::text::owned;

verus! {

// ── Policy ───────────────────────────────────────────────────────────────────

/// The settings of a running broker that decide requests.
pub struct BrokerPolicy {
    /// Similarity a match needs (bit pattern of an `f32`).
    pub threshold: u32,
    /// Failed matches within the failure window that lock a user out.
    pub cooldown_after_failures: u32,
    /// Length of a lockout, in milliseconds.
    pub cooldown_ms: u64,
    /// Whether matches must come as a synchronised RGB + IR pair.
    pub cross_check_required: bool,
    /// Largest capture-time difference of a pair, in milliseconds.
    pub max_time_skew_ms: u64,
    /// Version string reported by health requests.
    pub broker_version: String,
}

/// `secs` seconds in milliseconds, held at `u64::MAX`.
pub open spec fn seconds_as_ms(secs: u64) -> u64 {
    if secs * 1000 <= u64::MAX {
        (secs * 1000) as u64
    } else {
        u64::MAX
    }
}

impl BrokerPolicy {
    /// The broker's policy from its configuration: the global recognition threshold,
    /// the lockout settings, and whether cross-checking is in force (enabled, with an
    /// IR camera configured).
    pub fn from_config(config: &Config, broker_version: &str) -> (p: Self)
        ensures
            p.threshold == config.recognition.threshold,
            p.cooldown_after_failures == config.security.cooldown_after_failures,
            p.cooldown_ms == seconds_as_ms(config.security.cooldown_seconds),
            p.cross_check_required == (config.camera.cross_check.enabled
                && config.camera.ir is Some),
            p.max_time_skew_ms == config.camera.cross_check.max_time_skew_ms,
            p.broker_version@ == broker_version@,
    {
        let cooldown_ms = match config.security.cooldown_seconds.checked_mul(1000) {
            Some(ms) => ms,
            None => u64::MAX,
        };
        BrokerPolicy {
            threshold: config.recognition.threshold,
            cooldown_after_failures: config.security.cooldown_after_failures,
            cooldown_ms,
            cross_check_required: config.camera.cross_check.enabled && config.camera.ir.is_some(),
            max_time_skew_ms: config.camera.cross_check.max_time_skew_ms,
            broker_version: owned(broker_version),
        }
    }
}

// ── Steps ────────────────────────────────────────────────────────────────────

/// An audit event still to be stamped with the time and appended to the log.
pub struct AuditEntry {
    pub username: String,
    pub auth_scope: ipc::AuthScope,
    pub outcome: AuditOutcome,
    pub reason: AuditReason,
}

/// Which frame of a match request is searched for a face.
pub enum SearchStage {
    /// The only frame of a match: the largest face found answers.
    Single,
    /// The RGB frame of a cross-checked pair: exactly one face must be found; the IR
    /// frame `ir` is searched next.
    Rgb { ir: Frame },
    /// The IR frame of a pair: exactly one face must be found, and it must agree with
    /// the RGB face, whose embedding is `rgb_probe`.
    Ir { rgb_probe: Vec<u32> },
}

/// What the daemon does next for a request.
pub enum Dispatch {
    /// Send this response.
    Reply(ResponseEnvelope),
    /// Append this audit event, then send the response.
    AuditAndReply { entry: AuditEntry, response: ResponseEnvelope },
    /// Score `probe` (embedding bit patterns) against the user's stored templates and
    /// hand the scores to [`finish_compare`].
    Compare { username: String, auth_scope: storage::AuthScope, probe: Vec<u32> },
    /// Search `frame` for a face and hand the result to [`after_search`].
    Search {
        username: String,
        auth_scope: storage::AuthScope,
        frame: Frame,
        stage: SearchStage,
    },
    /// Store a new template with [`storage::TemplateStore::add_template`] and answer with
    /// [`enroll_reply`].
    Enroll {
        username: String,
        label: String,
        scope: storage::TemplateScope,
        embedding: Vec<u32>,
    },
    /// Load the user's templates and answer with [`list_reply`].
    List { username: String },
    /// Remove a template with [`storage::TemplateStore::remove_template`] and answer with
    /// [`remove_reply`].
    Remove { username: String, template_id: u32 },
    /// Read the audit log and answer with [`audit_reply`].
    ReadAudit { username: Option<String>, limit: usize },
}

/// The result of searching a frame for a face.
pub enum FaceSearch {
    /// One face was chosen; its embedding, as `f32` bit patterns.
    Found(Vec<u32>),
    NoFace,
    /// More than one face, where exactly one is required.
    MultipleFaces,
    Failed(InferenceFailure),
}

/// Why the face models could not give an answer.
#[derive(Debug, Clone, Copy, PartialEq, Eq, Structural)]
pub enum InferenceFailure {
    ModelsUnavailable,
    DetectionFailed,
    EmbeddingFailed,
}

/// The message sent for an inference failure.
pub open spec fn inference_failure_message(f: InferenceFailure) -> Seq<char> {
    match f {
        InferenceFailure::ModelsUnavailable => "broker inference unavailable"@,
        InferenceFailure::DetectionFailed => "face detection failed"@,
        InferenceFailure::EmbeddingFailed => "face embedding failed"@,
    }
}

// ── Specifications of the steps ──────────────────────────────────────────────

/// An optional name seen as characters.
pub open spec fn opt_view(s: Option<String>) -> Option<Seq<char>> {
    match s {
        Some(u) => Some(u@),
        None => None,
    }
}

/// `e` records `outcome` and `reason` for a request of user `name` with scope `scope`.
pub open spec fn is_entry(
    e: AuditEntry,
    name: Seq<char>,
    scope: storage::AuthScope,
    outcome: AuditOutcome,
    reason: AuditReason,
) -> bool {
    &&& e.username@ == name
    &&& e.auth_scope == storage::spec_ipc_auth_scope(scope)
    &&& e.outcome == outcome
    &&& e.reason == reason
}

/// The response refusing a match request at admission for `reason`.
pub open spec fn is_refusal(env: ResponseEnvelope, reason: AuditReason) -> bool {
    match reason {
        AuditReason::Unauthorized => is_error_response(
            env,
            ErrorCode::Unauthorized,
            "unauthorized broker request"@,
        ),
        AuditReason::RateLimited => is_error_response(
            env,
            ErrorCode::RateLimited,
            "too many match requests"@,
        ),
        _ => is_error_response(env, ErrorCode::LockedOut, "too many failed match attempts"@),
    }
}

/// The records after admitting a match request, and the refusal reason if refused: an
/// unauthorised peer is refused without touching any record; otherwise the rate limit
/// and the lockout decide ([`spec_check`]).
pub open spec fn spec_admission(
    peers: Map<u32, WindowCounter>,
    users: Map<Seq<char>, FailureCounter>,
    now: u64,
    peer: Option<PeerCredentials>,
    user_uid: Option<u32>,
    name: Seq<char>,
    scope: storage::AuthScope,
) -> (Map<u32, WindowCounter>, Map<Seq<char>, FailureCounter>, Option<AuditReason>) {
    if !spec_authorized_for_match(peer, user_uid, scope) {
        (peers, users, Some(AuditReason::Unauthorized))
    } else {
        spec_check(peers, users, now, peer->0.uid, name)
    }
}

/// `d` audits a refusal for `reason` and answers it.
pub open spec fn is_refused(d: Dispatch, name: Seq<char>, scope: storage::AuthScope, reason: AuditReason) -> bool {
    d matches Dispatch::AuditAndReply { entry, response } && is_entry(
        entry,
        name,
        scope,
        AuditOutcome::Failure,
        reason,
    ) && is_refusal(response, reason)
}

/// `d` audits a mismatch and answers with a rejection without score for `reason`.
pub open spec fn is_rejected(d: Dispatch, name: Seq<char>, scope: storage::AuthScope, reason: MatchReason) -> bool {
    d matches Dispatch::AuditAndReply { entry, response } && is_entry(
        entry,
        name,
        scope,
        AuditOutcome::Failure,
        AuditReason::Mismatch,
    ) && is_match_response(
        response,
        MatchResult { matched: false, score: None, template_id: None, reason },
    )
}

/// `d` audits an internal failure and answers with an error of `code` and message `m`.
pub open spec fn is_failed(
    d: Dispatch,
    name: Seq<char>,
    scope: storage::AuthScope,
    code: ErrorCode,
    m: Seq<char>,
) -> bool {
    d matches Dispatch::AuditAndReply { entry, response } && is_entry(
        entry,
        name,
        scope,
        AuditOutcome::Failure,
        AuditReason::Internal,
    ) && is_error_response(response, code, m)
}

/// What is wrong with a client-supplied frame, if anything (see [`frame_from_probe`]).
pub open spec fn probe_problem(p: FrameProbe) -> Option<Seq<char>> {
    if p.width == 0 || p.height == 0 {
        Some("frame width and height must be non-zero"@)
    } else if probe_pixels(p) > MAX_FRAME_PIXELS {
        Some("frame geometry exceeds broker limit"@)
    } else if p.bytes@.len() != probe_expected_len(p.format, probe_pixels(p)) {
        Some(size_mismatch_message(p.bytes@.len(), probe_expected_len(p.format, probe_pixels(p)) as nat))
    } else {
        None
    }
}

/// `f` is the RGB frame a well-formed probe decodes to.
pub open spec fn decodes_to(p: FrameProbe, f: Frame) -> bool {
    &&& f.data@ == decoded_rgb(p.format, p.bytes@)
    &&& f.width == p.width
    &&& f.height == p.height
    &&& f.captured_at_ms == p.captured_at_ms
}

/// The user records after a failed match of `name` at `now` under `policy`.
pub open spec fn failed_users(
    users: Map<Seq<char>, FailureCounter>,
    policy: BrokerPolicy,
    now: u64,
    name: Seq<char>,
) -> Map<Seq<char>, FailureCounter> {
    spec_record_failure(users, name, now, policy.cooldown_after_failures, policy.cooldown_ms)
}

/// An admitted single-frame match: refused outright when cross-checking is in force,
/// failed when the frame is malformed, otherwise its decoded frame is searched.
pub open spec fn single_frame_step(
    users: Map<Seq<char>, FailureCounter>,
    users2: Map<Seq<char>, FailureCounter>,
    policy: BrokerPolicy,
    now: u64,
    name: Seq<char>,
    scope: storage::AuthScope,
    frame: FrameProbe,
    d: Dispatch,
) -> bool {
    if policy.cross_check_required {
        users2 == failed_users(users, policy, now, name) && is_rejected(
            d,
            name,
            scope,
            MatchReason::CrossCheckRequired,
        )
    } else {
        match probe_problem(frame) {
            Some(m) => users2 == failed_users(users, policy, now, name) && is_failed(
                d,
                name,
                scope,
                ErrorCode::BadRequest,
                m,
            ),
            None => users2 == users && (d matches Dispatch::Search {
                username,
                auth_scope,
                frame: f,
                stage,
            } && username@ == name && auth_scope == scope && decodes_to(frame, f)
                && stage is Single),
        }
    }
}

/// An admitted cross-checked pair: refused when the captures are too far apart in time,
/// failed when either frame is malformed, otherwise the RGB frame is searched first.
pub open spec fn pair_step(
    users: Map<Seq<char>, FailureCounter>,
    users2: Map<Seq<char>, FailureCounter>,
    policy: BrokerPolicy,
    now: u64,
    name: Seq<char>,
    scope: storage::AuthScope,
    rgb: FrameProbe,
    ir: FrameProbe,
    d: Dispatch,
) -> bool {
    if !spec_frames_are_synchronized(rgb.captured_at_ms, ir.captured_at_ms, policy.max_time_skew_ms) {
        users2 == failed_users(users, policy, now, name) && is_rejected(
            d,
            name,
            scope,
            MatchReason::CrossCheckTimeSkew,
        )
    } else if probe_problem(rgb) is Some {
        users2 == failed_users(users, policy, now, name) && is_failed(
            d,
            name,
            scope,
            ErrorCode::BadRequest,
            probe_problem(rgb)->0,
        )
    } else if probe_problem(ir) is Some {
        users2 == failed_users(users, policy, now, name) && is_failed(
            d,
            name,
            scope,
            ErrorCode::BadRequest,
            probe_problem(ir)->0,
        )
    } else {
        users2 == users && (d matches Dispatch::Search { username, auth_scope, frame: f, stage }
            && username@ == name && auth_scope == scope && decodes_to(rgb, f) && (
        stage matches SearchStage::Rgb { ir: g } && decodes_to(ir, g)))
    }
}

/// What [`dispatch`] decides for a request of the current protocol version, with the
/// rate-limit records `peers` → `peers2` and the failure records `users` → `users2`.
pub open spec fn spec_dispatched(
    peers: Map<u32, WindowCounter>,
    users: Map<Seq<char>, FailureCounter>,
    peers2: Map<u32, WindowCounter>,
    users2: Map<Seq<char>, FailureCounter>,
    policy: BrokerPolicy,
    now: u64,
    request: Request,
    peer: Option<PeerCredentials>,
    user_uid: Option<u32>,
    d: Dispatch,
) -> bool {
    let unchanged = peers2 == peers && users2 == users;
    let refused = (d matches Dispatch::Reply(r) && is_error_response(
        r,
        ErrorCode::Unauthorized,
        "unauthorized broker request"@,
    ));
    let is_root = (peer matches Some(p) && p.uid == 0);
    match request {
        Request::Health => unchanged && (d matches Dispatch::Reply(r) && r.version
            == PROTOCOL_VERSION && (r.response matches Response::Health { info }
            && info.protocol_version == PROTOCOL_VERSION && info.broker_version@
            == policy.broker_version@)),
        Request::AuditRecent { username, limit } => unchanged && match spec_audit_filter(
            peer,
            opt_view(username),
            user_uid,
        ) {
            None => refused,
            Some(f) => d matches Dispatch::ReadAudit { username: u, limit: l } && opt_view(u)
                == f && l == (if limit < 1 {
                1
            } else if limit > 50 {
                50
            } else {
                limit as int
            }),
        },
        Request::Match { username, auth_scope, probe_embedding } => if !is_root {
            unchanged && refused
        } else {
            let scope = storage::spec_core_auth_scope(auth_scope);
            let (p1, u1, reason) = spec_admission(
                peers,
                users,
                now,
                peer,
                user_uid,
                username@,
                scope,
            );
            &&& peers2 == p1
            &&& users2 == u1
            &&& match reason {
                Some(r) => is_refused(d, username@, scope, r),
                None => d matches Dispatch::Compare { username: n, auth_scope: s, probe } && n@
                    == username@ && s == scope && probe@ == probe_embedding@,
            }
        },
        Request::MatchFrame { username, auth_scope, frame } => {
            let scope = storage::spec_core_auth_scope(auth_scope);
            let (p1, u1, reason) = spec_admission(
                peers,
                users,
                now,
                peer,
                user_uid,
                username@,
                scope,
            );
            &&& peers2 == p1
            &&& match reason {
                Some(r) => users2 == u1 && is_refused(d, username@, scope, r),
                None => single_frame_step(u1, users2, policy, now, username@, scope, frame, d),
            }
        },
        Request::MatchFramePair { username, auth_scope, rgb_frame, ir_frame } => {
            let scope = storage::spec_core_auth_scope(auth_scope);
            let (p1, u1, reason) = spec_admission(
                peers,
                users,
                now,
                peer,
                user_uid,
                username@,
                scope,
            );
            &&& peers2 == p1
            &&& match reason {
                Some(r) => users2 == u1 && is_refused(d, username@, scope, r),
                None => if policy.cross_check_required {
                    pair_step(u1, users2, policy, now, username@, scope, rgb_frame, ir_frame, d)
                } else {
                    single_frame_step(u1, users2, policy, now, username@, scope, rgb_frame, d)
                },
            }
        },
        Request::Enroll { username, label, scope, embedding } => unchanged && if !is_root {
            refused
        } else {
            d matches Dispatch::Enroll { username: n, label: l, scope: s, embedding: e } && n@
                == username@ && l@ == label@ && s == storage::spec_core_template_scope(scope)
                && e@ == embedding@
        },
        Request::List { username } => unchanged && if peer matches Some(p) && (p.uid == 0
            || user_uid == Some(p.uid)) {
            d matches Dispatch::List { username: n } && n@ == username@
        } else {
            refused
        },
        Request::Users => unchanged && (d matches Dispatch::Reply(r) && is_error_response(
            r,
            ErrorCode::BadRequest,
            "invalid request JSON"@,
        )),
        Request::Remove { username, template_id } => unchanged && if !is_root {
            refused
        } else {
            d matches Dispatch::Remove { username: n, template_id: t } && n@ == username@ && t
                == template_id
        },
    }
}

} // verus!

verus! {

// ── Deciding a request ───────────────────────────────────────────────────────

fn entry(
    username: &str,
    scope: storage::AuthScope,
    outcome: AuditOutcome,
    reason: AuditReason,
) -> (e: AuditEntry)
    ensures
        is_entry(e, username@, scope, outcome, reason),
{
    AuditEntry { username: owned(username), auth_scope: ipc_auth_scope(scope), outcome, reason }
}

/// A match that failed after admission: the failure is counted against the user, then
/// audited with `reason` and answered with `response`.
fn fail_match(
    abuse: &mut AbuseState,
    policy: &BrokerPolicy,
    now: u64,
    username: &str,
    scope: storage::AuthScope,
    response: ResponseEnvelope,
    reason: AuditReason,
) -> (d: Dispatch)
    requires
        old(abuse).wf(),
        now + policy.cooldown_ms <= u64::MAX,
    ensures
        final(abuse).wf(),
        final(abuse).peers() == old(abuse).peers(),
        final(abuse).users() == failed_users(old(abuse).users(), *policy, now, username@),
        d matches Dispatch::AuditAndReply { entry: e, response: r } && r == response
            && is_entry(e, username@, scope, AuditOutcome::Failure, reason),
{
    abuse.record_failure(now, username, policy.cooldown_after_failures, policy.cooldown_ms);
    Dispatch::AuditAndReply { entry: entry(username, scope, AuditOutcome::Failure, reason), response }
}

/// A rejection without score for `reason`, audited as a mismatch and counted.
fn reject_match(
    abuse: &mut AbuseState,
    policy: &BrokerPolicy,
    now: u64,
    username: &str,
    scope: storage::AuthScope,
    reason: MatchReason,
) -> (d: Dispatch)
    requires
        old(abuse).wf(),
        now + policy.cooldown_ms <= u64::MAX,
    ensures
        final(abuse).wf(),
        final(abuse).peers() == old(abuse).peers(),
        final(abuse).users() == failed_users(old(abuse).users(), *policy, now, username@),
        is_rejected(d, username@, scope, reason),
{
    let v = rejection_verdict(reason);
    fail_match(abuse, policy, now, username, scope, v.response, AuditReason::Mismatch)
}

/// Admission of a match request (authorisation, rate limit, lockout); a refusal comes
/// back as the step that audits and answers it.
fn gate_match(
    abuse: &mut AbuseState,
    now: u64,
    peer: Option<PeerCredentials>,
    user_uid: Option<u32>,
    username: &str,
    scope: storage::AuthScope,
) -> (res: Result<(), Dispatch>)
    requires
        old(abuse).wf(),
    ensures
        final(abuse).wf(),
        ({
            let (p1, u1, reason) = spec_admission(
                old(abuse).peers(),
                old(abuse).users(),
                now,
                peer,
                user_uid,
                username@,
                scope,
            );
            &&& final(abuse).peers() == p1
            &&& final(abuse).users() == u1
            &&& match reason {
                Some(r) => res matches Err(d) && is_refused(d, username@, scope, r),
                None => res is Ok,
            }
        }),
{
    match admit_match(abuse, now, peer, user_uid, username, scope) {
        Ok(()) => Ok(()),
        Err((response, reason)) => {
            let e = entry(username, scope, AuditOutcome::Failure, reason);
            Err(Dispatch::AuditAndReply { entry: e, response })
        },
    }
}

/// Decodes a client frame, or fails the match with the frame's problem.
fn decode_or_fail(
    abuse: &mut AbuseState,
    policy: &BrokerPolicy,
    now: u64,
    username: &str,
    scope: storage::AuthScope,
    probe: &FrameProbe,
) -> (res: Result<Frame, Dispatch>)
    requires
        old(abuse).wf(),
        now + policy.cooldown_ms <= u64::MAX,
    ensures
        final(abuse).wf(),
        final(abuse).peers() == old(abuse).peers(),
        match probe_problem(*probe) {
            Some(m) => final(abuse).users() == failed_users(
                old(abuse).users(),
                *policy,
                now,
                username@,
            ) && (res matches Err(d) && is_failed(d, username@, scope, ErrorCode::BadRequest, m)),
            None => final(abuse).users() == old(abuse).users() && (res matches Ok(f) && decodes_to(
                *probe,
                f,
            )),
        },
{
    match frame_from_probe(probe) {
        Ok(f) => Ok(f),
        Err(response) => Err(
            fail_match(abuse, policy, now, username, scope, response, AuditReason::Internal),
        ),
    }
}

/// An admitted single-frame match (see [`single_frame_step`]).
fn single_frame(
    abuse: &mut AbuseState,
    policy: &BrokerPolicy,
    now: u64,
    username: String,
    scope: storage::AuthScope,
    frame: &FrameProbe,
) -> (d: Dispatch)
    requires
        old(abuse).wf(),
        now + policy.cooldown_ms <= u64::MAX,
    ensures
        final(abuse).wf(),
        final(abuse).peers() == old(abuse).peers(),
        single_frame_step(
            old(abuse).users(),
            final(abuse).users(),
            *policy,
            now,
            username@,
            scope,
            *frame,
            d,
        ),
{
    if policy.cross_check_required {
        return reject_match(
            abuse,
            policy,
            now,
            username.as_str(),
            scope,
            MatchReason::CrossCheckRequired,
        );
    }
    match decode_or_fail(abuse, policy, now, username.as_str(), scope, frame) {
        Err(d) => d,
        Ok(f) => Dispatch::Search { username, auth_scope: scope, frame: f, stage: SearchStage::Single },
    }
}

/// An admitted cross-checked pair (see [`pair_step`]).
fn frame_pair(
    abuse: &mut AbuseState,
    policy: &BrokerPolicy,
    now: u64,
    username: String,
    scope: storage::AuthScope,
    rgb: &FrameProbe,
    ir: &FrameProbe,
) -> (d: Dispatch)
    requires
        old(abuse).wf(),
        now + policy.cooldown_ms <= u64::MAX,
    ensures
        final(abuse).wf(),
        final(abuse).peers() == old(abuse).peers(),
        pair_step(
            old(abuse).users(),
            final(abuse).users(),
            *policy,
            now,
            username@,
            scope,
            *rgb,
            *ir,
            d,
        ),
{
    if !frames_are_synchronized(rgb.captured_at_ms, ir.captured_at_ms, policy.max_time_skew_ms) {
        return reject_match(
            abuse,
            policy,
            now,
            username.as_str(),
            scope,
            MatchReason::CrossCheckTimeSkew,
        );
    }
    let rgb_frame = match decode_or_fail(abuse, policy, now, username.as_str(), scope, rgb) {
        Err(d) => return d,
        Ok(f) => f,
    };
    let ir_frame = match decode_or_fail(abuse, policy, now, username.as_str(), scope, ir) {
        Err(d) => return d,
        Ok(f) => f,
    };
    Dispatch::Search {
        username,
        auth_scope: scope,
        frame: rgb_frame,
        stage: SearchStage::Rgb { ir: ir_frame },
    }
}

/// Decides what a request needs. `user_uid` is the uid the system user database gives
/// for the username the request names (`None` when it names none, or the database has
/// no such user); `now` is the broker's monotonic clock in milliseconds.
///
/// A request of another protocol version is refused. Matching a precomputed embedding,
/// enrolling and removing templates are for root only; listing a user's templates is
/// for root and the user; the audit log is readable as [`spec_audit_filter`] says.
/// Every match request passes admission ([`spec_admission`]) before anything else, and
/// each refusal or failure after that is audited.
pub fn dispatch(
    abuse: &mut AbuseState,
    policy: &BrokerPolicy,
    now: u64,
    envelope: RequestEnvelope,
    peer: Option<PeerCredentials>,
    user_uid: Option<u32>,
) -> (d: Dispatch)
    requires
        old(abuse).wf(),
        now + policy.cooldown_ms <= u64::MAX,
    ensures
        final(abuse).wf(),
        envelope.version != PROTOCOL_VERSION ==> {
            &&& d matches Dispatch::Reply(r) && is_error_response(
                r,
                ErrorCode::VersionMismatch,
                version_mismatch_message(envelope.version),
            )
            &&& final(abuse).peers() == old(abuse).peers()
            &&& final(abuse).users() == old(abuse).users()
        },
        envelope.version == PROTOCOL_VERSION ==> spec_dispatched(
            old(abuse).peers(),
            old(abuse).users(),
            final(abuse).peers(),
            final(abuse).users(),
            *policy,
            now,
            envelope.request,
            peer,
            user_uid,
            d,
        ),
{
    if let Some(r) = version_error(envelope.version) {
        return Dispatch::Reply(r);
    }
    match envelope.request {
        Request::Health => Dispatch::Reply(health_response(policy.broker_version.as_str())),
        Request::AuditRecent { username, limit } => {
            match audit_filter(peer, username, user_uid) {
                Err(()) => Dispatch::Reply(unauthorized()),
                Ok(filter) => Dispatch::ReadAudit { username: filter, limit: audit_limit(limit) },
            }
        },
        Request::Match { username, auth_scope, probe_embedding } => {
            if !is_root(peer) {
                return Dispatch::Reply(unauthorized());
            }
            let scope = core_auth_scope(auth_scope);
            match gate_match(abuse, now, peer, user_uid, username.as_str(), scope) {
                Err(d) => d,
                Ok(()) => Dispatch::Compare { username, auth_scope: scope, probe: probe_embedding },
            }
        },
        Request::MatchFrame { username, auth_scope, frame } => {
            let scope = core_auth_scope(auth_scope);
            match gate_match(abuse, now, peer, user_uid, username.as_str(), scope) {
                Err(d) => d,
                Ok(()) => single_frame(abuse, policy, now, username, scope, &frame),
            }
        },
        Request::MatchFramePair { username, auth_scope, rgb_frame, ir_frame } => {
            let scope = core_auth_scope(auth_scope);
            match gate_match(abuse, now, peer, user_uid, username.as_str(), scope) {
                Err(d) => d,
                Ok(()) => if policy.cross_check_required {
                    frame_pair(abuse, policy, now, username, scope, &rgb_frame, &ir_frame)
                } else {
                    single_frame(abuse, policy, now, username, scope, &rgb_frame)
                },
            }
        },
        Request::Enroll { username, label, scope, embedding } => {
            if !is_root(peer) {
                return Dispatch::Reply(unauthorized());
            }
            Dispatch::Enroll { username, label, scope: core_template_scope(scope), embedding }
        },
        Request::List { username } => {
            if !authorized_for_user_or_root(peer, user_uid) {
                return Dispatch::Reply(unauthorized());
            }
            Dispatch::List { username }
        },
        Request::Users => Dispatch::Reply(
            ResponseEnvelope::error(ErrorCode::BadRequest, owned("invalid request JSON")),
        ),
        Request::Remove { username, template_id } => {
            if !is_root(peer) {
                return Dispatch::Reply(unauthorized());
            }
            Dispatch::Remove { username, template_id }
        },
    }
}

} // verus!

verus! {

// ── After the outside work ───────────────────────────────────────────────────

/// The rejection reason of a search that found no face (`multiple` false) or more than
/// one where exactly one is required (`multiple` true).
pub open spec fn search_reason(stage: SearchStage, multiple: bool) -> MatchReason {
    match stage {
        SearchStage::Single => if multiple {
            MatchReason::MultipleFaces
        } else {
            MatchReason::NoFace
        },
        SearchStage::Rgb { .. } => if multiple {
            MatchReason::CrossCheckRgbMultipleFaces
        } else {
            MatchReason::CrossCheckRgbNoFace
        },
        SearchStage::Ir { .. } => if multiple {
            MatchReason::CrossCheckIrMultipleFaces
        } else {
            MatchReason::CrossCheckIrNoFace
        },
    }
}

/// What follows the face search of a frame: no usable face rejects the match and an
/// inference failure fails it (both counted against the user); a face found in the only
/// frame is compared; one found in the RGB frame of a pair leads to the IR frame; one
/// found in the IR frame leads to comparing the RGB embedding when the two faces agree
/// (`consistent`), and to a rejection otherwise.
pub open spec fn spec_after_search(
    users: Map<Seq<char>, FailureCounter>,
    users2: Map<Seq<char>, FailureCounter>,
    policy: BrokerPolicy,
    now: u64,
    name: Seq<char>,
    scope: storage::AuthScope,
    stage: SearchStage,
    found: FaceSearch,
    consistent: bool,
    d: Dispatch,
) -> bool {
    let failed = failed_users(users, policy, now, name);
    match found {
        FaceSearch::NoFace => users2 == failed && is_rejected(
            d,
            name,
            scope,
            search_reason(stage, false),
        ),
        FaceSearch::MultipleFaces => users2 == failed && is_rejected(
            d,
            name,
            scope,
            search_reason(stage, true),
        ),
        FaceSearch::Failed(f) => users2 == failed && is_failed(
            d,
            name,
            scope,
            ErrorCode::Internal,
            inference_failure_message(f),
        ),
        FaceSearch::Found(e) => match stage {
            SearchStage::Single => users2 == users && (d matches Dispatch::Compare {
                username: n,
                auth_scope: s,
                probe,
            } && n@ == name && s == scope && probe@ == e@),
            SearchStage::Rgb { ir } => users2 == users && (d matches Dispatch::Search {
                username: n,
                auth_scope: s,
                frame: f,
                stage: st,
            } && n@ == name && s == scope && f == ir && (st matches SearchStage::Ir { rgb_probe }
                && rgb_probe@ == e@)),
            SearchStage::Ir { rgb_probe } => if consistent {
                users2 == users && (d matches Dispatch::Compare { username: n, auth_scope: s, probe }
                    && n@ == name && s == scope && probe@ == rgb_probe@)
            } else {
                users2 == failed && is_rejected(
                    d,
                    name,
                    scope,
                    MatchReason::CrossCheckPositionMismatch,
                )
            },
        },
    }
}

fn failure_response(f: InferenceFailure) -> (env: ResponseEnvelope)
    ensures
        is_error_response(env, ErrorCode::Internal, inference_failure_message(f)),
{
    let m = match f {
        InferenceFailure::ModelsUnavailable => "broker inference unavailable",
        InferenceFailure::DetectionFailed => "face detection failed",
        InferenceFailure::EmbeddingFailed => "face embedding failed",
    };
    ResponseEnvelope::error(ErrorCode::Internal, owned(m))
}

/// The step after searching the frame of `stage` for a face (see [`spec_after_search`]).
/// `consistent` is read only for the IR frame of a pair: whether its face lies where the
/// calibration maps the RGB face and has the same identity.
pub fn after_search(
    abuse: &mut AbuseState,
    policy: &BrokerPolicy,
    now: u64,
    username: String,
    scope: storage::AuthScope,
    stage: SearchStage,
    found: FaceSearch,
    consistent: bool,
) -> (d: Dispatch)
    requires
        old(abuse).wf(),
        now + policy.cooldown_ms <= u64::MAX,
    ensures
        final(abuse).wf(),
        final(abuse).peers() == old(abuse).peers(),
        spec_after_search(
            old(abuse).users(),
            final(abuse).users(),
            *policy,
            now,
            username@,
            scope,
            stage,
            found,
            consistent,
            d,
        ),
{
    let multiple = match &found {
        FaceSearch::MultipleFaces => true,
        _ => false,
    };
    match found {
        FaceSearch::Failed(f) => fail_match(
            abuse,
            policy,
            now,
            username.as_str(),
            scope,
            failure_response(f),
            AuditReason::Internal,
        ),
        FaceSearch::Found(e) => match stage {
            SearchStage::Single => Dispatch::Compare { username, auth_scope: scope, probe: e },
            SearchStage::Rgb { ir } => Dispatch::Search {
                username,
                auth_scope: scope,
                frame: ir,
                stage: SearchStage::Ir { rgb_probe: e },
            },
            SearchStage::Ir { rgb_probe } => if consistent {
                Dispatch::Compare { username, auth_scope: scope, probe: rgb_probe }
            } else {
                reject_match(
                    abuse,
                    policy,
                    now,
                    username.as_str(),
                    scope,
                    MatchReason::CrossCheckPositionMismatch,
                )
            },
        },
        _ => {
            let reason = match stage {
                SearchStage::Single => if multiple {
                    MatchReason::MultipleFaces
                } else {
                    MatchReason::NoFace
                },
                SearchStage::Rgb { .. } => if multiple {
                    MatchReason::CrossCheckRgbMultipleFaces
                } else {
                    MatchReason::CrossCheckRgbNoFace
                },
                SearchStage::Ir { .. } => if multiple {
                    MatchReason::CrossCheckIrMultipleFaces
                } else {
                    MatchReason::CrossCheckIrNoFace
                },
            };
            reject_match(abuse, policy, now, username.as_str(), scope, reason)
        },
    }
}

/// `env` is the answer to a request the template store failed with `e` (see
/// [`storage_error`]).
pub open spec fn is_storage_error_response(env: ResponseEnvelope, e: FaceRsError) -> bool {
    &&& env.version == PROTOCOL_VERSION
    &&& env.response matches Response::Error(b)
    &&& e is NotEnrolled ==> b.code == ErrorCode::NotEnrolled && b.message@
        == "user has no enrolled templates"@
    &&& !(e is NotEnrolled) ==> b.code == ErrorCode::Internal && (spec_error_message(&e) is Some
        ==> b.message@ == spec_error_message(&e)->0)
}

fn storage_reply(e: &FaceRsError) -> (env: ResponseEnvelope)
    ensures
        is_storage_error_response(env, *e),
{
    storage_error(e)
}

/// The comparison grants the match: the answering template scores at or above the
/// threshold.
pub open spec fn match_granted(best: Option<(u32, u32)>, threshold: u32) -> bool {
    best matches Some((_, score)) && f32_ge(score, threshold)
}

/// Finishes a compared match. `scored` holds the user's stored templates with the
/// similarity of the probe to each (`f32` bit patterns), or the error loading them.
///
/// A load error is answered as [`storage_error`] says and audited as internal; otherwise
/// [`compare_verdict`] decides on the answering template ([`spec_best_allowed`]). A
/// granted match clears the user's failures; anything else counts as a failure.
pub fn finish_compare(
    abuse: &mut AbuseState,
    policy: &BrokerPolicy,
    now: u64,
    username: &str,
    scope: storage::AuthScope,
    scored: Result<Vec<ScoredTemplate>, FaceRsError>,
) -> (r: (ResponseEnvelope, AuditEntry))
    requires
        old(abuse).wf(),
        now + policy.cooldown_ms <= u64::MAX,
    ensures
        final(abuse).wf(),
        final(abuse).peers() == old(abuse).peers(),
        match scored {
            Err(e) => {
                &&& final(abuse).users() == failed_users(old(abuse).users(), *policy, now, username@)
                &&& is_storage_error_response(r.0, e)
                &&& is_entry(r.1, username@, scope, AuditOutcome::Failure, AuditReason::Internal)
            },
            Ok(ts) => {
                let best = spec_best_allowed(ts@, scope);
                let granted = match_granted(best, policy.threshold);
                &&& crate::broker_match::spec_compare_verdict(
                    crate::broker_match::MatchVerdict {
                        response: r.0,
                        outcome: r.1.outcome,
                        reason: r.1.reason,
                        success: granted,
                    },
                    best,
                    policy.threshold,
                )
                &&& r.1.username@ == username@
                &&& r.1.auth_scope == storage::spec_ipc_auth_scope(scope)
                &&& final(abuse).users() == (if granted {
                    old(abuse).users().remove(username@)
                } else {
                    failed_users(old(abuse).users(), *policy, now, username@)
                })
            },
        },
{
    match scored {
        Err(e) => {
            abuse.record_failure(now, username, policy.cooldown_after_failures, policy.cooldown_ms);
            let env = storage_reply(&e);
            (env, entry(username, scope, AuditOutcome::Failure, AuditReason::Internal))
        },
        Ok(ts) => {
            let best = best_allowed(ts.as_slice(), scope);
            let v = compare_verdict(best, policy.threshold);
            if v.success {
                abuse.record_success(username);
            } else {
                abuse.record_failure(
                    now,
                    username,
                    policy.cooldown_after_failures,
                    policy.cooldown_ms,
                );
            }
            let e = entry(username, scope, v.outcome, v.reason);
            (v.response, e)
        },
    }
}

/// `s` is the client-facing metadata of `t`: everything but the embedding.
pub open spec fn is_summary_of(s: EnrolledTemplateSummary, t: EnrolledTemplate) -> bool {
    &&& s.id == t.id
    &&& s.label@ == t.label@
    &&& s.created_at@ == t.created_at@
    &&& s.scope == storage::spec_ipc_template_scope(t.scope)
}

fn summary_of(t: &EnrolledTemplate) -> (s: EnrolledTemplateSummary)
    ensures
        is_summary_of(s, *t),
{
    EnrolledTemplateSummary {
        id: t.id,
        label: t.label.clone(),
        created_at: t.created_at.clone(),
        scope: ipc_template_scope(t.scope),
    }
}

/// The answer to an enrollment: the new template's metadata (its embedding is wiped),
/// or the store's error.
pub fn enroll_reply(result: Result<EnrolledTemplate, FaceRsError>) -> (env: ResponseEnvelope)
    ensures
        match result {
            Ok(t) => env.version == PROTOCOL_VERSION && (env.response matches Response::Enrolled {
                template,
            } && is_summary_of(template, t)),
            Err(e) => is_storage_error_response(env, e),
        },
{
    match result {
        Ok(t) => {
            let summary = summary_of(&t);
            let mut embedding = t.embedding;
            storage::zeroize_embedding(&mut embedding);
            ResponseEnvelope::ok(Response::Enrolled { template: summary })
        },
        Err(e) => storage_reply(&e),
    }
}

/// The answer to a listing: the metadata of every template, in store order, never an
/// embedding; or the store's error. The loaded embeddings are wiped.
pub fn list_reply(loaded: Result<UserTemplates, FaceRsError>) -> (env: ResponseEnvelope)
    ensures
        match loaded {
            Ok(s) => env.version == PROTOCOL_VERSION && (env.response matches Response::List {
                templates,
            } && templates@.len() == s.templates@.len() && forall|i: int|
                0 <= i < templates@.len() ==> is_summary_of(
                    #[trigger] templates@[i],
                    s.templates@[i],
                )),
            Err(e) => is_storage_error_response(env, e),
        },
{
    match loaded {
        Err(e) => storage_reply(&e),
        Ok(s) => {
            let mut store = s;
            let mut templates: Vec<EnrolledTemplateSummary> = Vec::new();
            let mut i: usize = 0;
            while i < store.templates.len()
                invariant
                    store == s,
                    i <= s.templates@.len(),
                    templates@.len() == i,
                    forall|j: int|
                        0 <= j < i ==> is_summary_of(#[trigger] templates@[j], s.templates@[j]),
                decreases s.templates@.len() - i,
            {
                templates.push(summary_of(&store.templates[i]));
                i += 1;
            }
            storage::zeroize_templates(&mut store.templates);
            ResponseEnvelope::ok(Response::List { templates })
        },
    }
}

/// The answer to a removal.
pub fn remove_reply(result: Result<(), FaceRsError>) -> (env: ResponseEnvelope)
    ensures
        match result {
            Ok(()) => env.version == PROTOCOL_VERSION && env.response is Removed,
            Err(e) => is_storage_error_response(env, e),
        },
{
    match result {
        Ok(()) => ResponseEnvelope::ok(Response::Removed),
        Err(e) => storage_reply(&e),
    }
}

/// The answer to an audit-log read: of the parsed log `events` (empty when the log
/// cannot be read), the last `limit` events of the user the filter names, or of
/// everyone.
pub fn audit_reply(events: Vec<AuditEvent>, username: Option<String>, limit: usize) -> (env:
    ResponseEnvelope)
    ensures
        env.version == PROTOCOL_VERSION,
        env.response matches Response::Audit { events: out } && out@ == spec_recent_events(
            events@,
            opt_view(username),
            limit as nat,
        ),
{
    let out = match &username {
        Some(u) => recent_events(events, Some(u.as_str()), limit),
        None => recent_events(events, None, limit),
    };
    ResponseEnvelope::ok(Response::Audit { events: out })
}

} // verus!

verus! {

// ── Laws ─────────────────────────────────────────────────────────────────────

/// The request is a match request for `name` with `scope`.
pub open spec fn match_target(request: Request) -> Option<(Seq<char>, storage::AuthScope)> {
    match request {
        Request::Match { username, auth_scope, .. } => Some(
            (username@, storage::spec_core_auth_scope(auth_scope)),
        ),
        Request::MatchFrame { username, auth_scope, .. } => Some(
            (username@, storage::spec_core_auth_scope(auth_scope)),
        ),
        Request::MatchFramePair { username, auth_scope, .. } => Some(
            (username@, storage::spec_core_auth_scope(auth_scope)),
        ),
        _ => None,
    }
}

/// A peer other than root can neither submit an embedding for matching nor change the
/// stored templates: its requests never lead to a comparison of a client embedding, an
/// enrollment or a removal.
pub proof fn law_non_root_cannot_touch_templates(
    peers: Map<u32, WindowCounter>,
    users: Map<Seq<char>, FailureCounter>,
    peers2: Map<u32, WindowCounter>,
    users2: Map<Seq<char>, FailureCounter>,
    policy: BrokerPolicy,
    now: u64,
    request: Request,
    peer: Option<PeerCredentials>,
    user_uid: Option<u32>,
    d: Dispatch,
)
    requires
        spec_dispatched(peers, users, peers2, users2, policy, now, request, peer, user_uid, d),
        !(peer matches Some(p) && p.uid == 0),
    ensures
        !(d is Compare),
        !(d is Enroll),
        !(d is Remove),
{
}

/// A match request from a peer other than root, for another account or for a sudo
/// authentication, is refused as unauthorised and audited, and no counter changes.
pub proof fn law_foreign_match_is_refused(
    peers: Map<u32, WindowCounter>,
    users: Map<Seq<char>, FailureCounter>,
    peers2: Map<u32, WindowCounter>,
    users2: Map<Seq<char>, FailureCounter>,
    policy: BrokerPolicy,
    now: u64,
    request: Request,
    peer: PeerCredentials,
    user_uid: Option<u32>,
    d: Dispatch,
)
    requires
        spec_dispatched(peers, users, peers2, users2, policy, now, request, Some(peer), user_uid, d),
        peer.uid != 0,
        match_target(request) matches Some((_, scope)) && (scope == storage::AuthScope::Sudo
            || user_uid != Some(peer.uid)),
    ensures
        peers2 == peers,
        users2 == users,
        (d matches Dispatch::AuditAndReply { entry, response } && entry.reason
            == AuditReason::Unauthorized && is_error_response(
            response,
            ErrorCode::Unauthorized,
            "unauthorized broker request"@,
        )) || (d matches Dispatch::Reply(r) && is_error_response(
            r,
            ErrorCode::Unauthorized,
            "unauthorized broker request"@,
        )),
{
}

/// Nothing is searched or compared for a match request that admission refused: a
/// search or a comparison is only ever reached by an authorised peer within its rate
/// limit, for a user who is not locked out.
pub proof fn law_only_admitted_requests_reach_the_models(
    peers: Map<u32, WindowCounter>,
    users: Map<Seq<char>, FailureCounter>,
    peers2: Map<u32, WindowCounter>,
    users2: Map<Seq<char>, FailureCounter>,
    policy: BrokerPolicy,
    now: u64,
    request: Request,
    peer: Option<PeerCredentials>,
    user_uid: Option<u32>,
    d: Dispatch,
)
    requires
        spec_dispatched(peers, users, peers2, users2, policy, now, request, peer, user_uid, d),
        d is Search || d is Compare,
    ensures
        match_target(request) matches Some((name, scope)) && spec_authorized_for_match(
            peer,
            user_uid,
            scope,
        ) && spec_admission(peers, users, now, peer, user_uid, name, scope).2 is None,
{
}

} // verus!
