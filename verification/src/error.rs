//! Errors of the face pipeline and the exit codes the PAM module understands.
use vstd::prelude::*;

verus! {

/// `std::io::Error`, carried through unchanged.
#[verifier::external_type_specification]
#[verifier::external_body]
pub struct ExIoError(std::io::Error);

/// `serde_json::Error`, carried through unchanged.
#[verifier::external_type_specification]
#[verifier::external_body]
pub struct ExJsonError(serde_json::Error);

/// Errors raised by the camera, the models, the configuration and the template store.
#[derive(Debug)]
pub enum FaceRsError {
    Camera(String),
    Detection(String),
    Embedding(String),
    Config(String),
    Storage(String),
    NoFace,
    Timeout,
    NotEnrolled,
    Io(std::io::Error),
    Json(serde_json::Error),
}

/// Exit codes returned by the authentication helper and consumed by the PAM module.
#[derive(Debug, Clone, Copy, PartialEq, Eq, Structural)]
pub enum AuthExitCode {
    Recognized,
    NotRecognized,
    Timeout,
    CameraError,
    ConfigError,
    InternalError,
    Denied,
}

/// Process exit status of each [`AuthExitCode`].
pub open spec fn spec_exit_status(c: AuthExitCode) -> i32 {
    match c {
        AuthExitCode::Recognized => 0,
        AuthExitCode::NotRecognized => 1,
        AuthExitCode::Timeout => 2,
        AuthExitCode::CameraError => 3,
        AuthExitCode::ConfigError => 4,
        AuthExitCode::InternalError => 5,
        AuthExitCode::Denied => 6,
    }
}

/// Exit code an error maps to.
pub open spec fn spec_exit_code_for(e: &FaceRsError) -> AuthExitCode {
    match e {
        FaceRsError::Timeout => AuthExitCode::Timeout,
        FaceRsError::NoFace => AuthExitCode::NotRecognized,
        FaceRsError::NotEnrolled => AuthExitCode::NotRecognized,
        FaceRsError::Camera(_) => AuthExitCode::CameraError,
        FaceRsError::Config(_) => AuthExitCode::ConfigError,
        _ => AuthExitCode::InternalError,
    }
}

/// The text of an I/O error (`std::io::Error`'s `Display`, which includes the
/// operating system's description of the error). Nothing is promised of it.
#[verifier::external_body]
fn io_error_text(e: &std::io::Error) -> String {
    e.to_string()
}

/// The text of a JSON error (`serde_json::Error`'s `Display`: what went wrong and
/// where). Nothing is promised of it.
#[verifier::external_body]
fn json_error_text(e: &serde_json::Error) -> String {
    e.to_string()
}

/// The prefix and detail of an error's message; the detail of an I/O or JSON error is
/// the outside error's own text, not stated here.
pub open spec fn spec_error_message(e: &FaceRsError) -> Option<Seq<char>> {
    match e {
        FaceRsError::Camera(m) => Some("camera error: "@ + m@),
        FaceRsError::Detection(m) => Some("face detection error: "@ + m@),
        FaceRsError::Embedding(m) => Some("embedding error: "@ + m@),
        FaceRsError::Config(m) => Some("configuration error: "@ + m@),
        FaceRsError::Storage(m) => Some("storage error: "@ + m@),
        FaceRsError::NoFace => Some("no face detected within timeout"@),
        FaceRsError::Timeout => Some("authentication timed out"@),
        FaceRsError::NotEnrolled => Some("user has no enrolled templates"@),
        FaceRsError::Io(_) => None,
        FaceRsError::Json(_) => None,
    }
}

fn prefixed(prefix: &str, detail: &str) -> (r: String)
    ensures
        r@ == prefix@ + detail@,
{
    let mut r = crate::text::owned(prefix);
    crate::text::string_push_str(&mut r, detail);
    r
}

impl FaceRsError {
    /// The error's message. For I/O and JSON errors it is `io error: ` or
    /// `json error: ` followed by the outside error's text.
    pub fn message(&self) -> (r: String)
        ensures
            spec_error_message(self) matches Some(m) ==> r@ == m,
            self is Io ==> r@.len() >= 10 && r@.take(10) == "io error: "@,
            self is Json ==> r@.len() >= 12 && r@.take(12) == "json error: "@,
    {
        match self {
            FaceRsError::Camera(m) => prefixed("camera error: ", m.as_str()),
            FaceRsError::Detection(m) => prefixed("face detection error: ", m.as_str()),
            FaceRsError::Embedding(m) => prefixed("embedding error: ", m.as_str()),
            FaceRsError::Config(m) => prefixed("configuration error: ", m.as_str()),
            FaceRsError::Storage(m) => prefixed("storage error: ", m.as_str()),
            FaceRsError::NoFace => crate::text::owned("no face detected within timeout"),
            FaceRsError::Timeout => crate::text::owned("authentication timed out"),
            FaceRsError::NotEnrolled => crate::text::owned("user has no enrolled templates"),
            FaceRsError::Io(e) => {
                let t = io_error_text(e);
                let r = prefixed("io error: ", t.as_str());
                proof {
                    reveal_strlit("io error: ");
                }
                assert(r@.take(10) =~= "io error: "@);
                r
            },
            FaceRsError::Json(e) => {
                let t = json_error_text(e);
                let r = prefixed("json error: ", t.as_str());
                proof {
                    reveal_strlit("json error: ");
                }
                assert(r@.take(12) =~= "json error: "@);
                r
            },
        }
    }
}

impl AuthExitCode {
    /// The process exit status of this code.
    pub fn status(self) -> (s: i32)
        ensures
            s == spec_exit_status(self),
    {
        match self {
            AuthExitCode::Recognized => 0,
            AuthExitCode::NotRecognized => 1,
            AuthExitCode::Timeout => 2,
            AuthExitCode::CameraError => 3,
            AuthExitCode::ConfigError => 4,
            AuthExitCode::InternalError => 5,
            AuthExitCode::Denied => 6,
        }
    }

    /// The exit code reported for an error.
    pub fn from_error(e: &FaceRsError) -> (c: AuthExitCode)
        ensures
            c == spec_exit_code_for(e),
    {
        match e {
            FaceRsError::Timeout => AuthExitCode::Timeout,
            FaceRsError::NoFace => AuthExitCode::NotRecognized,
            FaceRsError::NotEnrolled => AuthExitCode::NotRecognized,
            FaceRsError::Camera(_) => AuthExitCode::CameraError,
            FaceRsError::Config(_) => AuthExitCode::ConfigError,
            _ => AuthExitCode::InternalError,
        }
    }
}

} // verus!
