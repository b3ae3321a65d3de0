//! Decisions of the template broker daemon: frame decoding, RGB/IR synchronisation,
//! caller authorisation, and per-peer rate limiting with per-user lockout.
//!
//! The socket loop, the audit log, the template files and the face models are driven
//! by the daemon binary; it hands the values it reads to the functions here.
use std::collections::HashMap;
use vstd::prelude::*;

use crate::assoc::{as_map, keys_unique, lemma_as_map_absent, lemma_as_map_at, lemma_as_map_push, lemma_as_map_remove, lemma_as_map_update, lemma_keys_unique_push};
use crate::camera::{Frame, grey_expanded};
use crate::ipc::{
    AuditReason, ErrorCode, FrameFormat, FrameProbe, Response, ResponseEnvelope, PROTOCOL_VERSION,
};
use crate::storage;
use crate::ipc;
use crate::text::{decimal, owned, push_decimal, str_eq, string_push_str};

verus! {

/// Frames whose declared geometry exceeds this many pixels are refused before any
/// allocation.
pub const MAX_FRAME_PIXELS: u32 = 16777216;

/// Length of the per-peer rate-limit window, in milliseconds.
pub const RATE_LIMIT_WINDOW_MS: u64 = 60000;

/// Match requests a peer may make within one rate-limit window.
pub const RATE_LIMIT_MAX_MATCHES: u32 = 60;

/// Length of the window in which a user's failed matches accumulate, in milliseconds.
pub const FAILURE_WINDOW_MS: u64 = 300000;

/// `env` is an error response of the current protocol with this code and message.
pub open spec fn is_error_response(env: ResponseEnvelope, code: ErrorCode, msg: Seq<char>) -> bool {
    &&& env.version == PROTOCOL_VERSION
    &&& env.response matches Response::Error(e)
    &&& e.code == code
    &&& e.message@ == msg
}

// ── Frame decoding ────────────────────────────────────────────────────────────

/// Pixel count of a probe, saturating at `u32::MAX`.
pub open spec fn probe_pixels(p: FrameProbe) -> int {
    if p.width * p.height > u32::MAX {
        u32::MAX as int
    } else {
        p.width * p.height
    }
}

/// Byte length a probe of `pixels` pixels must have.
pub open spec fn probe_expected_len(format: FrameFormat, pixels: int) -> int {
    match format {
        FrameFormat::Rgb8 | FrameFormat::Bgr8 => 3 * pixels,
        FrameFormat::Gray8 => pixels,
    }
}

/// BGR triples reordered to RGB.
pub open spec fn bgr_swapped(b: Seq<u8>) -> Seq<u8> {
    Seq::new(b.len(), |i: int| b[i - i % 3 + (2 - i % 3)])
}

/// The RGB24 bytes a well-formed probe decodes to.
pub open spec fn decoded_rgb(format: FrameFormat, bytes: Seq<u8>) -> Seq<u8> {
    match format {
        FrameFormat::Rgb8 => bytes,
        FrameFormat::Bgr8 => bgr_swapped(bytes),
        FrameFormat::Gray8 => grey_expanded(bytes),
    }
}

/// The message of a probe whose buffer length does not match its geometry.
pub open spec fn size_mismatch_message(got: nat, expected: nat) -> Seq<char> {
    "frame buffer size mismatch: got "@ + decimal(got) + ", expected "@ + decimal(expected)
}

/// Checks a client-supplied frame and converts it to RGB24.
///
/// Zero width or height, a geometry above [`MAX_FRAME_PIXELS`], and a buffer whose
/// length is not exactly what the geometry and format require are refused with
/// `BadRequest`.
pub fn frame_from_probe(probe: &FrameProbe) -> (res: Result<Frame, ResponseEnvelope>)
    ensures
        probe.width == 0 || probe.height == 0 ==> (res matches Err(e) && is_error_response(
            e,
            ErrorCode::BadRequest,
            "frame width and height must be non-zero"@,
        )),
        probe.width != 0 && probe.height != 0 && probe_pixels(*probe) > MAX_FRAME_PIXELS ==> (
        res matches Err(e) && is_error_response(
            e,
            ErrorCode::BadRequest,
            "frame geometry exceeds broker limit"@,
        )),
        probe.width != 0 && probe.height != 0 && probe_pixels(*probe) <= MAX_FRAME_PIXELS
            && probe.bytes@.len() != probe_expected_len(probe.format, probe_pixels(*probe)) ==> (
        res matches Err(e) && is_error_response(
            e,
            ErrorCode::BadRequest,
            size_mismatch_message(
                probe.bytes@.len(),
                probe_expected_len(probe.format, probe_pixels(*probe)) as nat,
            ),
        )),
        probe.width != 0 && probe.height != 0 && probe_pixels(*probe) <= MAX_FRAME_PIXELS
            && probe.bytes@.len() == probe_expected_len(probe.format, probe_pixels(*probe)) ==> (
        res matches Ok(f) && f.data@ == decoded_rgb(probe.format, probe.bytes@) && f.width
            == probe.width && f.height == probe.height && f.captured_at_ms
            == probe.captured_at_ms),
{
    if probe.width == 0 || probe.height == 0 {
        return Err(
            ResponseEnvelope::error(
                ErrorCode::BadRequest,
                owned("frame width and height must be non-zero"),
            ),
        );
    }
    let w = probe.width as u64;
    let h = probe.height as u64;
    assert(w * h <= 0xffff_fffe_0000_0001u64) by (nonlinear_arith)
        requires
            w <= 0xffff_ffffu64,
            h <= 0xffff_ffffu64,
    ;
    let wide: u64 = w * h;
    let pixels: u32 = if wide > u32::MAX as u64 {
        u32::MAX
    } else {
        wide as u32
    };
    if pixels > MAX_FRAME_PIXELS {
        return Err(
            ResponseEnvelope::error(
                ErrorCode::BadRequest,
                owned("frame geometry exceeds broker limit"),
            ),
        );
    }
    let pixels = pixels as usize;
    let expected: usize = match probe.format {
        FrameFormat::Rgb8 | FrameFormat::Bgr8 => pixels * 3,
        FrameFormat::Gray8 => pixels,
    };
    if probe.bytes.len() != expected {
        let mut m = owned("frame buffer size mismatch: got ");
        push_decimal(&mut m, probe.bytes.len() as u64);
        string_push_str(&mut m, ", expected ");
        push_decimal(&mut m, expected as u64);
        proof {
            reveal_strlit("frame buffer size mismatch: got ");
            reveal_strlit(", expected ");
        }
        return Err(ResponseEnvelope::error(ErrorCode::BadRequest, m));
    }
    let data = match probe.format {
        FrameFormat::Rgb8 => probe.bytes.clone(),
        FrameFormat::Bgr8 => bgr_to_rgb(&probe.bytes),
        FrameFormat::Gray8 => gray_to_rgb_all(&probe.bytes),
    };
    Ok(Frame { data, width: probe.width, height: probe.height, captured_at_ms: probe.captured_at_ms })
}

fn bgr_to_rgb(b: &Vec<u8>) -> (out: Vec<u8>)
    requires
        b@.len() % 3 == 0,
    ensures
        out@ == bgr_swapped(b@),
{
    let mut out: Vec<u8> = Vec::new();
    let mut k: usize = 0;
    while k < b.len()
        invariant
            b@.len() % 3 == 0,
            k % 3 == 0,
            k <= b@.len(),
            out@.len() == k,
            forall|i: int| 0 <= i < k ==> #[trigger] out@[i] == b@[i - i % 3 + (2 - i % 3)],
        decreases b.len() - k,
    {
        out.push(b[k + 2]);
        out.push(b[k + 1]);
        out.push(b[k]);
        assert forall|i: int| 0 <= i < k + 3 implies #[trigger] out@[i] == b@[i - i % 3 + (2 - i
            % 3)] by {
            if i >= k {
                assert(i - i % 3 == k as int);
            }
        }
        k += 3;
    }
    assert(out@ == bgr_swapped(b@));
    out
}

fn gray_to_rgb_all(g: &Vec<u8>) -> (out: Vec<u8>)
    requires
        g@.len() <= MAX_FRAME_PIXELS,
    ensures
        out@ == grey_expanded(g@),
{
    let mut out: Vec<u8> = Vec::new();
    let mut k: usize = 0;
    while k < g.len()
        invariant
            g@.len() <= MAX_FRAME_PIXELS,
            k <= g@.len(),
            out@.len() == 3 * k,
            forall|i: int| 0 <= i < 3 * k ==> #[trigger] out@[i] == g@[i / 3],
        decreases g.len() - k,
    {
        let y = g[k];
        out.push(y);
        out.push(y);
        out.push(y);
        assert forall|i: int| 0 <= i < 3 * (k + 1) implies #[trigger] out@[i] == g@[i / 3] by {
            if i >= 3 * k {
                assert(i / 3 == k as int);
            }
        }
        k += 1;
    }
    assert(out@ == grey_expanded(g@));
    out
}

/// Two capture timestamps lie within `max_skew_ms` of each other; a zero timestamp
/// (never stamped) never counts as synchronised.
pub open spec fn spec_frames_are_synchronized(a_ms: u64, b_ms: u64, max_skew_ms: u64) -> bool {
    a_ms != 0 && b_ms != 0 && (if a_ms >= b_ms {
        a_ms - b_ms
    } else {
        b_ms - a_ms
    }) <= max_skew_ms
}

/// Whether an RGB and an IR capture are close enough in time to be cross-checked.
pub fn frames_are_synchronized(a_ms: u64, b_ms: u64, max_skew_ms: u64) -> (r: bool)
    ensures
        r == spec_frames_are_synchronized(a_ms, b_ms, max_skew_ms),
{
    if a_ms == 0 || b_ms == 0 {
        return false;
    }
    let diff = if a_ms >= b_ms {
        a_ms - b_ms
    } else {
        b_ms - a_ms
    };
    diff <= max_skew_ms
}

// ── Requests ─────────────────────────────────────────────────────────────────

/// The message refusing a request of another protocol version.
pub open spec fn version_mismatch_message(version: u16) -> Seq<char> {
    "unsupported protocol version "@ + decimal(version as nat) + "; expected "@ + decimal(
        PROTOCOL_VERSION as nat,
    )
}

/// The refusal of a request of another protocol version, or nothing when the version
/// is the current one.
pub fn version_error(version: u16) -> (r: Option<ResponseEnvelope>)
    ensures
        version == PROTOCOL_VERSION ==> r is None,
        version != PROTOCOL_VERSION ==> (r matches Some(env) && is_error_response(
            env,
            ErrorCode::VersionMismatch,
            version_mismatch_message(version),
        )),
{
    if version == PROTOCOL_VERSION {
        return None;
    }
    let mut m = owned("unsupported protocol version ");
    push_decimal(&mut m, version as u64);
    string_push_str(&mut m, "; expected ");
    push_decimal(&mut m, PROTOCOL_VERSION as u64);
    Some(ResponseEnvelope::error(ErrorCode::VersionMismatch, m))
}

/// The answer to a health request: the protocol version and the broker's version.
pub fn health_response(broker_version: &str) -> (env: ResponseEnvelope)
    ensures
        env.version == PROTOCOL_VERSION,
        env.response matches Response::Health { info } && info.protocol_version
            == PROTOCOL_VERSION && info.broker_version@ == broker_version@,
{
    ResponseEnvelope::ok(
        Response::Health {
            info: ipc::BrokerInfo {
                protocol_version: PROTOCOL_VERSION,
                broker_version: owned(broker_version),
            },
        },
    )
}

/// The answer to a request the template store failed: a user without templates is
/// reported as not enrolled, anything else as an internal error with its message.
pub fn storage_error(error: &crate::error::FaceRsError) -> (env: ResponseEnvelope)
    ensures
        error is NotEnrolled ==> is_error_response(
            env,
            ErrorCode::NotEnrolled,
            "user has no enrolled templates"@,
        ),
        !(error is NotEnrolled) ==> env.version == PROTOCOL_VERSION,
        !(error is NotEnrolled) ==> (env.response matches Response::Error(e) && e.code
            == ErrorCode::Internal),
        !(error is NotEnrolled) ==> (env.response matches Response::Error(e) && (
        crate::error::spec_error_message(error) is Some ==> e.message@
            == crate::error::spec_error_message(error)->0)),
{
    match error {
        crate::error::FaceRsError::NotEnrolled => ResponseEnvelope::error(
            ErrorCode::NotEnrolled,
            owned("user has no enrolled templates"),
        ),
        other => ResponseEnvelope::error(ErrorCode::Internal, other.message()),
    }
}

/// Requests that only root may make: matching a precomputed embedding, enrolling and
/// removing templates.
pub fn is_root(peer: Option<PeerCredentials>) -> (r: bool)
    ensures
        r == (peer matches Some(p) && p.uid == 0),
{
    match peer {
        Some(p) => p.uid == 0,
        None => false,
    }
}

// ── Authorisation ─────────────────────────────────────────────────────────────

/// Credentials of the process on the other end of the socket.
#[derive(Debug, Clone, Copy, PartialEq, Eq, Structural)]
pub struct PeerCredentials {
    pub uid: u32,
}

/// Whether a peer may request a match for a user. `user_uid` is the uid the system
/// user database gives for the requested username (`None` when it has none).
///
/// Root may match anyone; any other peer only a session match for its own account.
pub open spec fn spec_authorized_for_match(
    peer: Option<PeerCredentials>,
    user_uid: Option<u32>,
    auth_scope: storage::AuthScope,
) -> bool {
    match peer {
        None => false,
        Some(p) => p.uid == 0 || (auth_scope == storage::AuthScope::Session && user_uid == Some(
            p.uid,
        )),
    }
}

/// Whether a peer may request a match for a user (see [`spec_authorized_for_match`]).
pub fn authorized_for_match(
    peer: Option<PeerCredentials>,
    user_uid: Option<u32>,
    auth_scope: storage::AuthScope,
) -> (r: bool)
    ensures
        r == spec_authorized_for_match(peer, user_uid, auth_scope),
{
    let peer = match peer {
        None => return false,
        Some(p) => p,
    };
    if peer.uid == 0 {
        return true;
    }
    auth_scope == storage::AuthScope::Session && user_uid == Some(peer.uid)
}

/// Whether a peer may read a user's data: root, or the user themself.
pub fn authorized_for_user_or_root(peer: Option<PeerCredentials>, user_uid: Option<u32>) -> (r:
    bool)
    ensures
        r == (peer matches Some(p) && (p.uid == 0 || user_uid == Some(p.uid))),
{
    match peer {
        None => false,
        Some(p) => p.uid == 0 || user_uid == Some(p.uid),
    }
}

/// The response to a request the peer is not allowed to make.
pub fn unauthorized() -> (env: ResponseEnvelope)
    ensures
        is_error_response(env, ErrorCode::Unauthorized, "unauthorized broker request"@),
{
    ResponseEnvelope::error(ErrorCode::Unauthorized, owned("unauthorized broker request"))
}

/// Converts an IPC auth scope to the storage one.
pub fn core_auth_scope(value: ipc::AuthScope) -> (r: storage::AuthScope)
    ensures
        r == storage::spec_core_auth_scope(value),
{
    match value {
        ipc::AuthScope::Sudo => storage::AuthScope::Sudo,
        ipc::AuthScope::Session => storage::AuthScope::Session,
    }
}

/// Converts a storage auth scope to the IPC one.
pub fn ipc_auth_scope(value: storage::AuthScope) -> (r: ipc::AuthScope)
    ensures
        r == storage::spec_ipc_auth_scope(value),
{
    match value {
        storage::AuthScope::Sudo => ipc::AuthScope::Sudo,
        storage::AuthScope::Session => ipc::AuthScope::Session,
    }
}

/// Converts an IPC template scope to the storage one.
pub fn core_template_scope(value: ipc::TemplateScope) -> (r: storage::TemplateScope)
    ensures
        r == storage::spec_core_template_scope(value),
{
    match value {
        ipc::TemplateScope::Sudo => storage::TemplateScope::Sudo,
        ipc::TemplateScope::Session => storage::TemplateScope::Session,
        ipc::TemplateScope::Both => storage::TemplateScope::Both,
    }
}

/// Converts a storage template scope to the IPC one.
pub fn ipc_template_scope(value: storage::TemplateScope) -> (r: ipc::TemplateScope)
    ensures
        r == storage::spec_ipc_template_scope(value),
{
    match value {
        storage::TemplateScope::Sudo => ipc::TemplateScope::Sudo,
        storage::TemplateScope::Session => ipc::TemplateScope::Session,
        storage::TemplateScope::Both => ipc::TemplateScope::Both,
    }
}

} // verus!

verus! {

// ── Rate limiting and lockout ─────────────────────────────────────────────────

/// Match requests counted for one peer in the current rate-limit window.
#[derive(Debug, Clone, Copy, PartialEq, Eq, Structural)]
pub struct WindowCounter {
    /// Start of the window, in milliseconds of the broker's monotonic clock.
    pub window_started: u64,
    pub count: u32,
}

/// Failed matches counted for one user in the current failure window.
#[derive(Debug, Clone, Copy, PartialEq, Eq, Structural)]
pub struct FailureCounter {
    /// Start of the window, in milliseconds of the broker's monotonic clock.
    pub window_started: u64,
    pub failures: u32,
    /// End of the current lockout, if the user is locked out.
    pub locked_until: Option<u64>,
}

/// More than `window` milliseconds have passed from `start` to `now`; an earlier `now`
/// counts as no time passed (`Instant::duration_since` saturates at zero).
pub open spec fn elapsed_beyond(now: u64, start: u64, window: u64) -> bool {
    now > start && now - start > window
}

/// A user's failure record with nothing counted, opened at `now`.
pub open spec fn fresh_failures(now: u64) -> FailureCounter {
    FailureCounter { window_started: now, failures: 0, locked_until: None }
}

/// A peer's rate-limit record at `now`, reset when its window has run out.
pub open spec fn peer_at(peers: Map<u32, WindowCounter>, uid: u32, now: u64) -> WindowCounter {
    let p = if peers.contains_key(uid) {
        peers[uid]
    } else {
        WindowCounter { window_started: now, count: 0 }
    };
    if elapsed_beyond(now, p.window_started, RATE_LIMIT_WINDOW_MS) {
        WindowCounter { window_started: now, count: 0 }
    } else {
        p
    }
}

/// A user's failure record, or a fresh one.
pub open spec fn user_entry(users: Map<Seq<char>, FailureCounter>, name: Seq<char>, now: u64) -> FailureCounter {
    if users.contains_key(name) {
        users[name]
    } else {
        fresh_failures(now)
    }
}

/// The decision on a match request at `now` by peer `uid` for user `name`, with the
/// records afterwards: `None` lets the request through.
///
/// The peer's window is reset once it is older than [`RATE_LIMIT_WINDOW_MS`]; a peer
/// that has used [`RATE_LIMIT_MAX_MATCHES`] requests in its window is refused. Otherwise
/// the request is counted and the user's lockout is consulted: a lockout still running
/// refuses the request, an expired one is cleared together with the failure count.
pub open spec fn spec_check(
    peers: Map<u32, WindowCounter>,
    users: Map<Seq<char>, FailureCounter>,
    now: u64,
    uid: u32,
    name: Seq<char>,
) -> (Map<u32, WindowCounter>, Map<Seq<char>, FailureCounter>, Option<AuditReason>) {
    let p = peer_at(peers, uid, now);
    if p.count >= RATE_LIMIT_MAX_MATCHES {
        (peers.insert(uid, p), users, Some(AuditReason::RateLimited))
    } else {
        let peers2 = peers.insert(
            uid,
            WindowCounter { window_started: p.window_started, count: (p.count + 1) as u32 },
        );
        let f = user_entry(users, name, now);
        match f.locked_until {
            Some(t) => if now < t {
                (peers2, users.insert(name, f), Some(AuditReason::LockedOut))
            } else {
                (peers2, users.insert(name, fresh_failures(now)), None)
            },
            None => (peers2, users.insert(name, f), None),
        }
    }
}

/// The user records after a failed match at `now`: the failure window is reset once
/// older than [`FAILURE_WINDOW_MS`], the failure is counted, and reaching
/// `lock_threshold` failures locks the user out until `now + lock_ms`.
pub open spec fn spec_record_failure(
    users: Map<Seq<char>, FailureCounter>,
    name: Seq<char>,
    now: u64,
    lock_threshold: u32,
    lock_ms: u64,
) -> Map<Seq<char>, FailureCounter> {
    let f0 = user_entry(users, name, now);
    let f1 = if elapsed_beyond(now, f0.window_started, FAILURE_WINDOW_MS) {
        fresh_failures(now)
    } else {
        f0
    };
    let n: u32 = if f1.failures == u32::MAX {
        u32::MAX
    } else {
        (f1.failures + 1) as u32
    };
    let locked = if n >= lock_threshold {
        Some((now + lock_ms) as u64)
    } else {
        f1.locked_until
    };
    users.insert(
        name,
        FailureCounter { window_started: f1.window_started, failures: n, locked_until: locked },
    )
}

/// Per-peer request counters and per-user failure counters of the broker.
pub struct AbuseState {
    peer_limits: HashMap<u32, WindowCounter>,
    user_failures: Vec<(String, FailureCounter)>,
}

/// The user records seen with their names as character sequences.
pub open spec fn user_pairs(s: Seq<(String, FailureCounter)>) -> Seq<(Seq<char>, FailureCounter)> {
    s.map_values(|p: (String, FailureCounter)| (p.0@, p.1))
}

impl AbuseState {
    /// Rate-limit records by peer uid.
    pub closed spec fn peers(&self) -> Map<u32, WindowCounter> {
        self.peer_limits@
    }

    /// Failure records by username.
    pub closed spec fn users(&self) -> Map<Seq<char>, FailureCounter> {
        as_map(user_pairs(self.user_failures@))
    }

    /// No user has two records.
    pub closed spec fn wf(&self) -> bool {
        keys_unique(user_pairs(self.user_failures@))
    }

    /// No records at all.
    pub fn new() -> (s: Self)
        ensures
            s.wf(),
            s.peers() == Map::<u32, WindowCounter>::empty(),
            s.users() == Map::<Seq<char>, FailureCounter>::empty(),
    {
        let s = AbuseState { peer_limits: HashMap::new(), user_failures: Vec::new() };
        assert(user_pairs(s.user_failures@) == Seq::<(Seq<char>, FailureCounter)>::empty());
        s
    }

    fn find_user(&self, name: &str) -> (r: Option<usize>)
        ensures
            r matches Some(i) ==> i < self.user_failures@.len() && user_pairs(
                self.user_failures@,
            )[i as int].0 == name@,
            r is None ==> forall|i: int|
                0 <= i < self.user_failures@.len() ==> user_pairs(self.user_failures@)[i].0
                    != name@,
    {
        let mut i: usize = 0;
        while i < self.user_failures.len()
            invariant
                i <= self.user_failures@.len(),
                forall|j: int|
                    0 <= j < i ==> user_pairs(self.user_failures@)[j].0 != name@,
            decreases self.user_failures@.len() - i,
        {
            if str_eq(self.user_failures[i].0.as_str(), name) {
                return Some(i);
            }
            i += 1;
        }
        None
    }

    /// Stores the record of user `name`, replacing the old one at `idx` if given.
    fn put_user(&mut self, idx: Option<usize>, name: &str, f: FailureCounter)
        requires
            old(self).wf(),
            idx matches Some(i) ==> i < old(self).user_failures@.len() && user_pairs(
                old(self).user_failures@,
            )[i as int].0 == name@,
            idx is None ==> forall|i: int|
                0 <= i < old(self).user_failures@.len() ==> user_pairs(old(self).user_failures@)[i].0
                    != name@,
        ensures
            final(self).wf(),
            final(self).peers() == old(self).peers(),
            final(self).users() == old(self).users().insert(name@, f),
    {
        let ghost old_pairs = user_pairs(self.user_failures@);
        match idx {
            Some(i) => {
                let key = owned(name);
                self.user_failures[i] = (key, f);
                proof {
                    assert(user_pairs(self.user_failures@) == old_pairs.update(i as int, (name@, f)));
                    lemma_as_map_update(old_pairs, i as int, f);
                }
            },
            None => {
                self.user_failures.push((owned(name), f));
                proof {
                    assert(user_pairs(self.user_failures@) == old_pairs.push((name@, f)));
                    lemma_as_map_push(old_pairs, name@, f);
                    lemma_keys_unique_push(old_pairs, name@, f);
                }
            },
        }
    }

    /// Decides whether peer `peer_uid` may request a match for `username` at `now`
    /// (milliseconds of the broker's monotonic clock) and updates the counters as
    /// [`spec_check`] says. A refusal carries the response to send and the audit reason.
    pub fn check_match_allowed(&mut self, now: u64, peer_uid: u32, username: &str) -> (res:
        Result<(), (ResponseEnvelope, AuditReason)>)
        requires
            old(self).wf(),
        ensures
            final(self).wf(),
            ({
                let (peers, users, reason) = spec_check(
                    old(self).peers(),
                    old(self).users(),
                    now,
                    peer_uid,
                    username@,
                );
                &&& final(self).peers() == peers
                &&& final(self).users() == users
                &&& match reason {
                    None => res is Ok,
                    Some(AuditReason::RateLimited) => res matches Err((env, r)) && r
                        == AuditReason::RateLimited && is_error_response(
                        env,
                        ErrorCode::RateLimited,
                        "too many match requests"@,
                    ),
                    Some(_) => res matches Err((env, r)) && r == AuditReason::LockedOut
                        && is_error_response(
                        env,
                        ErrorCode::LockedOut,
                        "too many failed match attempts"@,
                    ),
                }
            }),
    {
        broadcast use vstd::std_specs::hash::group_hash_axioms;
        let mut p = match self.peer_limits.get(&peer_uid) {
            Some(c) => *c,
            None => WindowCounter { window_started: now, count: 0 },
        };
        if now > p.window_started && now - p.window_started > RATE_LIMIT_WINDOW_MS {
            p = WindowCounter { window_started: now, count: 0 };
        }
        let limited = p.count >= RATE_LIMIT_MAX_MATCHES;
        if !limited {
            p = WindowCounter { window_started: p.window_started, count: p.count + 1 };
        }
        self.peer_limits.insert(peer_uid, p);
        if limited {
            return Err(
                (
                    ResponseEnvelope::error(ErrorCode::RateLimited, owned("too many match requests")),
                    AuditReason::RateLimited,
                ),
            );
        }
        let ghost pairs = user_pairs(self.user_failures@);
        let uidx = self.find_user(username);
        let f = match uidx {
            Some(i) => self.user_failures[i].1,
            None => fresh_now(now),
        };
        proof {
            match uidx {
                Some(i) => lemma_as_map_at(pairs, i as int),
                None => lemma_as_map_absent(pairs, username@),
            }
        }
        match f.locked_until {
            Some(t) => {
                if now < t {
                    self.put_user(uidx, username, f);
                    return Err(
                        (
                            ResponseEnvelope::error(
                                ErrorCode::LockedOut,
                                owned("too many failed match attempts"),
                            ),
                            AuditReason::LockedOut,
                        ),
                    );
                }
                self.put_user(uidx, username, fresh_now(now));
            },
            None => {
                self.put_user(uidx, username, f);
            },
        }
        Ok(())
    }

    /// Forgets the failures of `username` after a successful match.
    pub fn record_success(&mut self, username: &str)
        requires
            old(self).wf(),
        ensures
            final(self).wf(),
            final(self).peers() == old(self).peers(),
            final(self).users() == old(self).users().remove(username@),
    {
        let ghost pairs = user_pairs(self.user_failures@);
        match self.find_user(username) {
            Some(i) => {
                self.user_failures.remove(i);
                proof {
                    assert(user_pairs(self.user_failures@) == pairs.remove(i as int));
                    lemma_as_map_remove(pairs, i as int);
                }
            },
            None => {
                proof {
                    lemma_as_map_absent(pairs, username@);
                    assert(as_map(pairs).remove(username@) == as_map(pairs));
                }
            },
        }
    }

    /// Counts a failed match of `username` at `now` as [`spec_record_failure`] says.
    pub fn record_failure(&mut self, now: u64, username: &str, lock_threshold: u32, lock_ms: u64)
        requires
            old(self).wf(),
            now + lock_ms <= u64::MAX,
        ensures
            final(self).wf(),
            final(self).peers() == old(self).peers(),
            final(self).users() == spec_record_failure(
                old(self).users(),
                username@,
                now,
                lock_threshold,
                lock_ms,
            ),
    {
        let ghost pairs = user_pairs(self.user_failures@);
        let uidx = self.find_user(username);
        let mut f = match uidx {
            Some(i) => self.user_failures[i].1,
            None => fresh_now(now),
        };
        proof {
            match uidx {
                Some(i) => lemma_as_map_at(pairs, i as int),
                None => lemma_as_map_absent(pairs, username@),
            }
        }
        if now > f.window_started && now - f.window_started > FAILURE_WINDOW_MS {
            f = fresh_now(now);
        }
        let n = if f.failures == u32::MAX {
            u32::MAX
        } else {
            f.failures + 1
        };
        let locked = if n >= lock_threshold {
            Some(now + lock_ms)
        } else {
            f.locked_until
        };
        self.put_user(
            uidx,
            username,
            FailureCounter { window_started: f.window_started, failures: n, locked_until: locked },
        );
    }
}

fn fresh_now(now: u64) -> (f: FailureCounter)
    ensures
        f == fresh_failures(now),
{
    FailureCounter { window_started: now, failures: 0, locked_until: None }
}

} // verus!

verus! {

/// The records after `k` checks by one peer for one user at the same instant.
pub open spec fn repeated_checks(
    peers: Map<u32, WindowCounter>,
    users: Map<Seq<char>, FailureCounter>,
    now: u64,
    uid: u32,
    name: Seq<char>,
    k: nat,
) -> (Map<u32, WindowCounter>, Map<Seq<char>, FailureCounter>)
    decreases k,
{
    if k == 0 {
        (peers, users)
    } else {
        let (p, u) = repeated_checks(peers, users, now, uid, name, (k - 1) as nat);
        let (p2, u2, _) = spec_check(p, u, now, uid, name);
        (p2, u2)
    }
}

proof fn lemma_repeated_checks_count(
    peers: Map<u32, WindowCounter>,
    users: Map<Seq<char>, FailureCounter>,
    now: u64,
    uid: u32,
    name: Seq<char>,
    k: nat,
)
    requires
        !peers.contains_key(uid),
        k <= RATE_LIMIT_MAX_MATCHES,
    ensures
        k > 0 ==> repeated_checks(peers, users, now, uid, name, k).0.contains_key(uid)
            && repeated_checks(peers, users, now, uid, name, k).0[uid] == (WindowCounter {
            window_started: now,
            count: k as u32,
        }),
        k == 0 ==> !repeated_checks(peers, users, now, uid, name, k).0.contains_key(uid),
    decreases k,
{
    if k > 0 {
        lemma_repeated_checks_count(peers, users, now, uid, name, (k - 1) as nat);
    }
}

/// Rate limit: a peer without a record gets exactly [`RATE_LIMIT_MAX_MATCHES`] requests
/// through the rate-limit gate at one instant; the next one is refused as rate limited.
pub proof fn law_rate_limit_allows_exactly_max(
    peers: Map<u32, WindowCounter>,
    users: Map<Seq<char>, FailureCounter>,
    now: u64,
    uid: u32,
    name: Seq<char>,
    k: nat,
)
    requires
        !peers.contains_key(uid),
        k <= RATE_LIMIT_MAX_MATCHES,
    ensures
        ({
            let (p, u) = repeated_checks(peers, users, now, uid, name, k);
            k < RATE_LIMIT_MAX_MATCHES <==> spec_check(p, u, now, uid, name).2 != Some(
                AuditReason::RateLimited,
            )
        }),
{
    if k > 0 {
        lemma_repeated_checks_count(peers, users, now, uid, name, k);
    }
}

/// A peer that has used its whole window is refused, and nothing else changes.
pub proof fn law_full_window_is_refused(
    peers: Map<u32, WindowCounter>,
    users: Map<Seq<char>, FailureCounter>,
    now: u64,
    uid: u32,
    name: Seq<char>,
)
    requires
        peer_at(peers, uid, now).count >= RATE_LIMIT_MAX_MATCHES,
    ensures
        spec_check(peers, users, now, uid, name).2 == Some(AuditReason::RateLimited),
        spec_check(peers, users, now, uid, name).1 == users,
{
}

/// No peer's count ever exceeds [`RATE_LIMIT_MAX_MATCHES`].
pub proof fn law_counts_stay_bounded(
    peers: Map<u32, WindowCounter>,
    users: Map<Seq<char>, FailureCounter>,
    now: u64,
    uid: u32,
    name: Seq<char>,
)
    requires
        forall|k: u32| peers.contains_key(k) ==> #[trigger] peers[k].count <= RATE_LIMIT_MAX_MATCHES,
    ensures
        forall|k: u32| #[trigger]
            spec_check(peers, users, now, uid, name).0.contains_key(k) ==> spec_check(
                peers,
                users,
                now,
                uid,
                name,
            ).0[k].count <= RATE_LIMIT_MAX_MATCHES,
{
}

/// Lockout: the failure that reaches the threshold locks the user out; until the lockout
/// ends, every request for the user that passes the rate limit is refused as locked out.
pub proof fn law_lockout_after_threshold(
    users: Map<Seq<char>, FailureCounter>,
    peers: Map<u32, WindowCounter>,
    name: Seq<char>,
    t: u64,
    lock_threshold: u32,
    lock_ms: u64,
    later: u64,
    uid: u32,
)
    requires
        t + lock_ms <= u64::MAX,
        spec_record_failure(users, name, t, lock_threshold, lock_ms)[name].failures
            >= lock_threshold,
        t <= later < t + lock_ms,
        peer_at(peers, uid, later).count < RATE_LIMIT_MAX_MATCHES,
    ensures
        spec_check(
            peers,
            spec_record_failure(users, name, t, lock_threshold, lock_ms),
            later,
            uid,
            name,
        ).2 == Some(AuditReason::LockedOut),
{
}

/// After a successful match the user is no longer locked out.
pub proof fn law_success_clears_lockout(
    users: Map<Seq<char>, FailureCounter>,
    peers: Map<u32, WindowCounter>,
    name: Seq<char>,
    now: u64,
    uid: u32,
)
    ensures
        spec_check(peers, users.remove(name), now, uid, name).2 != Some(AuditReason::LockedOut),
{
}

/// A lockout ends: a request at or after its end passes (when the rate limit allows)
/// and starts the user's failure count afresh.
pub proof fn law_lockout_expires(
    users: Map<Seq<char>, FailureCounter>,
    peers: Map<u32, WindowCounter>,
    name: Seq<char>,
    now: u64,
    uid: u32,
)
    requires
        users.contains_key(name),
        users[name].locked_until matches Some(t) && t <= now,
        peer_at(peers, uid, now).count < RATE_LIMIT_MAX_MATCHES,
    ensures
        spec_check(peers, users, now, uid, name).2 is None,
        spec_check(peers, users, now, uid, name).1[name] == fresh_failures(now),
{
}

/// Admits a match request: the peer must be authorised for it (root, or the user
/// themself for a session match; `user_uid` is the uid the user database gives for the
/// username), then pass the rate limit and the lockout as
/// [`AbuseState::check_match_allowed`] decides. A refused request is answered with the
/// response and audit reason carried by the error. An unauthorised request leaves every
/// counter as it was.
pub fn admit_match(
    abuse: &mut AbuseState,
    now: u64,
    peer: Option<PeerCredentials>,
    user_uid: Option<u32>,
    username: &str,
    auth_scope: storage::AuthScope,
) -> (res: Result<(), (ResponseEnvelope, AuditReason)>)
    requires
        old(abuse).wf(),
    ensures
        final(abuse).wf(),
        !spec_authorized_for_match(peer, user_uid, auth_scope) ==> {
            &&& res matches Err((env, r)) && r == AuditReason::Unauthorized && is_error_response(
                env,
                ErrorCode::Unauthorized,
                "unauthorized broker request"@,
            )
            &&& final(abuse).peers() == old(abuse).peers()
            &&& final(abuse).users() == old(abuse).users()
        },
        spec_authorized_for_match(peer, user_uid, auth_scope) ==> ({
            let (peers, users, reason) = spec_check(
                old(abuse).peers(),
                old(abuse).users(),
                now,
                peer->0.uid,
                username@,
            );
            &&& final(abuse).peers() == peers
            &&& final(abuse).users() == users
            &&& (reason is None <==> res is Ok)
            &&& (reason matches Some(AuditReason::RateLimited) ==> (res matches Err((env, r))
                && r == AuditReason::RateLimited && is_error_response(
                env,
                ErrorCode::RateLimited,
                "too many match requests"@,
            )))
            &&& (reason is Some && reason != Some(AuditReason::RateLimited) ==> (res matches Err((
                env,
                r,
            )) && r == AuditReason::LockedOut && is_error_response(
                env,
                ErrorCode::LockedOut,
                "too many failed match attempts"@,
            )))
        }),
{
    if !authorized_for_match(peer, user_uid, auth_scope) {
        return Err((unauthorized(), AuditReason::Unauthorized));
    }
    let p = match peer {
        Some(p) => p,
        None => return Err((unauthorized(), AuditReason::Unauthorized)),
    };
    abuse.check_match_allowed(now, p.uid, username)
}


/// A peer's rate-limit window runs out: once more than [`RATE_LIMIT_WINDOW_MS`] has
/// passed since its window opened, its next match request is not rate limited, whatever
/// it sent before, and opens a new window at `now` holding that one request.
pub proof fn law_expired_window_is_not_rate_limited(
    peers: Map<u32, WindowCounter>,
    users: Map<Seq<char>, FailureCounter>,
    now: u64,
    uid: u32,
    name: Seq<char>,
)
    requires
        peers.contains_key(uid),
        peers[uid].window_started < now,
        now - peers[uid].window_started > RATE_LIMIT_WINDOW_MS,
    ensures
        spec_check(peers, users, now, uid, name).2 != Some(AuditReason::RateLimited),
        spec_check(peers, users, now, uid, name).0[uid] == (WindowCounter { window_started: now, count: 1 }),
{
}

} // verus!
