//! Versioned IPC types shared by Facegate clients and the local broker.
//!
//! The broker API never returns enrolled embedding vectors: stored templates stay
//! broker-owned and are represented outside the broker as metadata only.
//! Match scores, which are `f32` on the wire, are carried here as their IEEE-754 bit
//! patterns; nothing in this crate computes with them.
use vstd::prelude::*;

verus! {

/// Version of the request/response protocol spoken over the broker socket.
pub const PROTOCOL_VERSION: u16 = 3;

/// Authentication context a match is requested for.
#[derive(Debug, Clone, Copy, PartialEq, Eq, Structural)]
pub enum AuthScope {
    Sudo,
    Session,
}

/// Authentication contexts an enrolled template may be used for.
#[derive(Debug, Clone, Copy, PartialEq, Eq, Structural)]
pub enum TemplateScope {
    Sudo,
    Session,
    Both,
}

/// Metadata of one enrolled template, as exposed to clients.
#[derive(Debug, Clone, PartialEq, Eq)]
pub struct EnrolledTemplateSummary {
    pub id: u32,
    pub label: String,
    pub created_at: String,
    pub scope: TemplateScope,
}

/// Why the broker accepted or rejected a match request.
#[derive(Debug, Clone, Copy, PartialEq, Eq, Structural)]
pub enum MatchReason {
    Matched,
    TemplateMismatch,
    NotEnrolled,
    NoFace,
    MultipleFaces,
    CrossCheckRequired,
    CrossCheckTimeSkew,
    CrossCheckRgbNoFace,
    CrossCheckRgbMultipleFaces,
    CrossCheckIrNoFace,
    CrossCheckIrMultipleFaces,
    CrossCheckPositionMismatch,
    Internal,
}

/// Outcome of a match request. `score` holds the bit pattern of the `f32` similarity
/// score when one was computed.
#[derive(Debug, Clone, Copy, PartialEq, Eq, Structural)]
pub struct MatchResult {
    pub matched: bool,
    pub score: Option<u32>,
    pub template_id: Option<u32>,
    pub reason: MatchReason,
}

/// Identification of a running broker.
#[derive(Debug, Clone, PartialEq, Eq)]
pub struct BrokerInfo {
    pub protocol_version: u16,
    pub broker_version: String,
}

/// One captured camera frame sent to the broker for detection and matching.
#[derive(Debug, Clone, PartialEq, Eq)]
pub struct FrameProbe {
    pub format: FrameFormat,
    pub width: u32,
    pub height: u32,
    /// Capture time stamped by the camera layer, in milliseconds.
    pub captured_at_ms: u64,
    pub bytes: Vec<u8>,
}

/// Pixel layout of a [`FrameProbe`].
#[derive(Debug, Clone, Copy, PartialEq, Eq, Structural)]
pub enum FrameFormat {
    Rgb8,
    Bgr8,
    Gray8,
}

/// Whether an audited match request succeeded.
#[derive(Debug, Clone, Copy, PartialEq, Eq, Structural)]
pub enum AuditOutcome {
    Success,
    Failure,
}

/// Why an audited match request ended the way it did.
#[derive(Debug, Clone, Copy, PartialEq, Eq, Structural)]
pub enum AuditReason {
    Matched,
    Mismatch,
    NotEnrolled,
    Unauthorized,
    RateLimited,
    LockedOut,
    Internal,
}

/// One line of the broker's audit log.
#[derive(Debug, Clone, PartialEq, Eq)]
pub struct AuditEvent {
    pub timestamp_unix: u64,
    pub username: String,
    pub auth_scope: AuthScope,
    pub outcome: AuditOutcome,
    pub reason: AuditReason,
}

/// Ownership check of a file or directory of a user's template store.
#[derive(Debug, Clone, PartialEq, Eq)]
pub struct OwnershipSummary {
    /// Permission bits (`st_mode & 0o7777`).
    pub mode: u32,
    /// Whether owner, group and mode are the expected ones.
    pub ok: bool,
}

/// Enrollment overview of one user, as listed by the broker.
#[derive(Debug, Clone, PartialEq, Eq)]
pub struct EnrolledUserSummary {
    pub username: String,
    pub template_count: u32,
    pub scopes: Vec<TemplateScope>,
    pub first_enrolled_at: Option<String>,
    pub last_enrolled_at: Option<String>,
    pub directory: Option<OwnershipSummary>,
    pub embeddings_file: Option<OwnershipSummary>,
}

#[allow(inconsistent_fields)]
/// Requests a client sends to the broker. Embeddings, `f32` vectors on the wire, are
/// carried as the bit patterns of their components.
#[derive(Debug, Clone, PartialEq, Eq)]
pub enum Request {
    Health,
    Match { username: String, auth_scope: AuthScope, probe_embedding: Vec<u32> },
    MatchFrame { username: String, auth_scope: AuthScope, frame: FrameProbe },
    MatchFramePair {
        username: String,
        auth_scope: AuthScope,
        rgb_frame: FrameProbe,
        ir_frame: FrameProbe,
    },
    Enroll { username: String, label: String, scope: TemplateScope, embedding: Vec<u32> },
    List { username: String },
    Users,
    Remove { username: String, template_id: u32 },
    AuditRecent { username: Option<String>, limit: u32 },
}

/// A versioned broker request.
#[derive(Debug, Clone, PartialEq, Eq)]
pub struct RequestEnvelope {
    pub version: u16,
    pub request: Request,
}

impl RequestEnvelope {
    /// Wraps a request in an envelope of the current protocol version.
    pub fn new(request: Request) -> (env: Self)
        ensures
            env.version == PROTOCOL_VERSION,
            env.request == request,
    {
        RequestEnvelope { version: PROTOCOL_VERSION, request }
    }
}

/// A versioned broker response.
#[derive(Debug, Clone, PartialEq, Eq)]
pub struct ResponseEnvelope {
    pub version: u16,
    pub response: Response,
}

impl ResponseEnvelope {
    /// Wraps a response in an envelope of the current protocol version.
    pub fn ok(response: Response) -> (env: Self)
        ensures
            env.version == PROTOCOL_VERSION,
            env.response == response,
    {
        ResponseEnvelope { version: PROTOCOL_VERSION, response }
    }

    /// An error response of the current protocol version.
    pub fn error(code: ErrorCode, message: String) -> (env: Self)
        ensures
            env.version == PROTOCOL_VERSION,
            env.response == Response::Error(BrokerError { code, message }),
    {
        Self::ok(Response::Error(BrokerError { code, message }))
    }
}

/// Broker responses.
#[derive(Debug, Clone, PartialEq, Eq)]
pub enum Response {
    Health { info: BrokerInfo },
    Match { result: MatchResult },
    Enrolled { template: EnrolledTemplateSummary },
    List { templates: Vec<EnrolledTemplateSummary> },
    Users { users: Vec<EnrolledUserSummary> },
    Audit { events: Vec<AuditEvent> },
    Removed,
    Error(BrokerError),
}

/// An error reported by the broker.
#[derive(Debug, Clone, PartialEq, Eq)]
pub struct BrokerError {
    pub code: ErrorCode,
    pub message: String,
}

/// Machine-readable class of a [`BrokerError`].
#[derive(Debug, Clone, Copy, PartialEq, Eq, Structural)]
pub enum ErrorCode {
    BadRequest,
    VersionMismatch,
    Unauthorized,
    NotEnrolled,
    RateLimited,
    LockedOut,
    Unsupported,
    Internal,
}

/// The error code carried by an envelope, if it is an error response.
pub open spec fn error_code_of(env: ResponseEnvelope) -> Option<ErrorCode> {
    match env.response {
        Response::Error(e) => Some(e.code),
        _ => None,
    }
}

} // verus!
