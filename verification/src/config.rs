//! The Facegate configuration: its sections, the defaults, the per-scope recognition
//! policy and the validation that refuses unsafe or inconsistent settings.
//!
//! The configuration file holds a few `f32` values (thresholds, a pixel offset and a
//! homography). Here each of them is carried as the IEEE-754 bit pattern of the `f32`,
//! and every test the validation makes on them is stated exactly over those bits.
//! Reading and parsing `config.toml` is done by the binaries, which hand the parsed
//! [`Config`] to the functions here.
use vstd::prelude::*;

use crate::error::FaceRsError;
use crate::f32_bits::{f32_bits_is_finite, f32_exponent, f32_is_finite};
use crate::storage::AuthScope;
use crate::text::{chars_of, owned, str_eq, string_push_str, trim, trim_chars};

verus! {

/// Where the configuration file lives.
pub const DEFAULT_CONFIG_PATH: &'static str = "/etc/facegate/config.toml";

// ── Bit patterns of `f32` values ─────────────────────────────────────────────

/// Bit pattern of `1.0f32`.
pub const F32_ONE: u32 = 0x3F80_0000;

/// Bit pattern of `0.0f32`.
pub const F32_ZERO: u32 = 0;

/// Bit pattern of `-0.0f32`.
pub const F32_NEG_ZERO: u32 = 0x8000_0000;

/// Bit pattern of `1e-6f32`, the tolerance of the identity-homography test.
pub const F32_IDENTITY_TOLERANCE: u32 = 0x3586_37BD;

/// The value is finite and lies in `0.0..=1.0`. Non-negative `f32` values are ordered
/// like their bit patterns, `1.0` is `0x3F80_0000`, and `-0.0` (which equals `0.0`) is
/// the only value with the sign bit set in that range.
pub open spec fn f32_in_unit_interval(bits: u32) -> bool {
    bits <= F32_ONE || bits == F32_NEG_ZERO
}

/// The value is finite and strictly positive: the sign bit is clear, the pattern is
/// not `+0.0`, and it lies below `+inf` (`0x7F80_0000`).
pub open spec fn f32_is_finite_positive(bits: u32) -> bool {
    0 < bits < 0x7F80_0000
}

/// `(a - 0.0).abs() < 1e-6` for the `f32` of bit pattern `bits`: its magnitude bits lie
/// below those of `1e-6` (a NaN never does).
pub open spec fn f32_near_zero(bits: u32) -> bool {
    bits as int % 0x8000_0000 < F32_IDENTITY_TOLERANCE
}

/// `(a - 1.0).abs() < 1e-6` for the `f32` of bit pattern `bits`. The difference is exact
/// near `1.0`, so this holds for the 16 values just below `1.0` (spaced `2^-24`), for
/// `1.0` itself, and for the 8 values just above it (spaced `2^-23`).
pub open spec fn f32_near_one(bits: u32) -> bool {
    F32_ONE - 16 <= bits <= F32_ONE + 8
}

/// Bit patterns of the row-major 3x3 identity matrix.
pub open spec fn identity_homography() -> Seq<u32> {
    seq![F32_ONE, F32_ZERO, F32_ZERO, F32_ZERO, F32_ONE, F32_ZERO, F32_ZERO, F32_ZERO, F32_ONE]
}

/// Every entry is within `1e-6` of the identity matrix's entry.
pub open spec fn spec_is_identity_homography(h: Seq<u32>) -> bool {
    h.len() == 9 && forall|i: int|
        0 <= i < 9 ==> (if identity_homography()[i] == F32_ONE {
            f32_near_one(#[trigger] h[i])
        } else {
            f32_near_zero(h[i])
        })
}

/// Every entry of the homography is finite.
pub open spec fn spec_all_finite(h: Seq<u32>) -> bool {
    forall|i: int| 0 <= i < h.len() ==> f32_is_finite(#[trigger] h[i])
}

fn f32_bits_near_zero(bits: u32) -> (r: bool)
    ensures
        r == f32_near_zero(bits),
{
    bits % 0x8000_0000 < F32_IDENTITY_TOLERANCE
}

fn f32_bits_near_one(bits: u32) -> (r: bool)
    ensures
        r == f32_near_one(bits),
{
    F32_ONE - 16 <= bits && bits <= F32_ONE + 8
}

/// Whether the homography is (within `1e-6` per entry) the identity matrix.
pub fn is_identity_homography(h: &[u32; 9]) -> (r: bool)
    ensures
        r == spec_is_identity_homography(h@),
{
    let ident: [u32; 9] = [F32_ONE, F32_ZERO, F32_ZERO, F32_ZERO, F32_ONE, F32_ZERO, F32_ZERO, F32_ZERO, F32_ONE];
    assert(ident@ == identity_homography());
    let mut i: usize = 0;
    while i < 9
        invariant
            0 <= i <= 9,
            h@.len() == 9,
            ident@ == identity_homography(),
            forall|j: int|
                0 <= j < i ==> (if identity_homography()[j] == F32_ONE {
                    f32_near_one(#[trigger] h@[j])
                } else {
                    f32_near_zero(h@[j])
                }),
        decreases 9 - i,
    {
        let near = if ident[i] == F32_ONE {
            f32_bits_near_one(h[i])
        } else {
            f32_bits_near_zero(h[i])
        };
        if !near {
            return false;
        }
        i += 1;
    }
    true
}

fn all_finite(h: &[u32; 9]) -> (r: bool)
    ensures
        r == spec_all_finite(h@),
{
    let mut i: usize = 0;
    while i < 9
        invariant
            0 <= i <= 9,
            h@.len() == 9,
            forall|j: int| 0 <= j < i ==> f32_is_finite(#[trigger] h@[j]),
        decreases 9 - i,
    {
        if !f32_bits_is_finite(h[i]) {
            assert(!f32_is_finite(h@[i as int]));
            return false;
        }
        i += 1;
    }
    true
}

// ── Sections ─────────────────────────────────────────────────────────────────

/// The whole configuration file.
pub struct Config {
    pub camera: CameraConfig,
    pub recognition: RecognitionConfig,
    pub models: ModelsConfig,
    pub storage: StorageConfig,
    pub logging: LoggingConfig,
    pub security: SecurityConfig,
}

/// The colour camera, and the optional IR camera used for the liveness cross-check.
pub struct CameraConfig {
    pub device: String,
    pub width: u32,
    pub height: u32,
    pub fps: u32,
    pub timeout_ms: u64,
    pub warmup_frames: u32,
    pub ir: Option<CameraIrConfig>,
    pub cross_check: CameraCrossCheckConfig,
}

/// IR sensor capture settings. Each unset override falls back to an IR-friendly
/// default derived from the colour camera's setting (see the `effective_*` methods).
pub struct CameraIrConfig {
    pub device: String,
    pub width: Option<u32>,
    pub height: Option<u32>,
    pub fps: Option<u32>,
    pub timeout_ms: Option<u64>,
    pub warmup_frames: Option<u32>,
    pub min_face_size: Option<u32>,
}

/// RGB+IR cross-check settings. `max_position_offset_px` and the nine entries of the
/// row-major IR-to-RGB `homography` are `f32` bit patterns.
pub struct CameraCrossCheckConfig {
    pub enabled: bool,
    pub max_time_skew_ms: u64,
    pub max_position_offset_px: u32,
    pub homography: [u32; 9],
    pub allow_identity_homography: bool,
}

/// Recognition policy; `threshold` is an `f32` bit pattern. `sudo` and `session`
/// override the global values for their scope.
pub struct RecognitionConfig {
    pub threshold: u32,
    pub required_matches: u32,
    pub max_attempts: u32,
    pub min_face_size: u32,
    pub sudo: RecognitionScopeConfig,
    pub session: RecognitionScopeConfig,
}

/// Per-scope overrides of the recognition policy; `threshold` is an `f32` bit pattern.
#[derive(Clone, Copy, PartialEq, Eq, Structural)]
pub struct RecognitionScopeConfig {
    pub threshold: Option<u32>,
    pub required_matches: Option<u32>,
    pub max_attempts: Option<u32>,
}

/// The policy in force for one scope; `threshold` is an `f32` bit pattern.
#[derive(Debug, Clone, Copy, PartialEq, Eq, Structural)]
pub struct EffectiveRecognitionPolicy {
    pub threshold: u32,
    pub required_matches: u32,
    pub max_attempts: u32,
}

/// Paths of the face detector and embedder models.
pub struct ModelsConfig {
    pub detector: String,
    pub embedder: String,
}

/// Where enrolled templates are stored.
pub struct StorageConfig {
    pub base_dir: String,
}

/// Log verbosity.
pub struct LoggingConfig {
    pub level: String,
    pub log_failed_attempts: bool,
}

/// Fallback and lockout policy.
pub struct SecurityConfig {
    pub allow_password_fallback: bool,
    pub deny_on_camera_error: bool,
    pub cooldown_after_failures: u32,
    pub cooldown_seconds: u64,
}

impl CameraIrConfig {
    /// The IR width: the override, else the colour camera's.
    pub fn effective_width(&self, rgb_default: u32) -> (r: u32)
        ensures
            r == self.width.unwrap_or(rgb_default),
    {
        match self.width {
            Some(v) => v,
            None => rgb_default,
        }
    }

    /// The IR height: the override, else the colour camera's.
    pub fn effective_height(&self, rgb_default: u32) -> (r: u32)
        ensures
            r == self.height.unwrap_or(rgb_default),
    {
        match self.height {
            Some(v) => v,
            None => rgb_default,
        }
    }

    /// The IR frame rate: the override, else the colour camera's.
    pub fn effective_fps(&self, rgb_default: u32) -> (r: u32)
        ensures
            r == self.fps.unwrap_or(rgb_default),
    {
        match self.fps {
            Some(v) => v,
            None => rgb_default,
        }
    }

    /// The IR capture timeout: the override, else the colour camera's but at least 8 s.
    pub fn effective_timeout_ms(&self, rgb_default: u64) -> (r: u64)
        ensures
            r == self.timeout_ms.unwrap_or(
                if rgb_default >= 8000 {
                    rgb_default
                } else {
                    8000
                },
            ),
    {
        match self.timeout_ms {
            Some(v) => v,
            None => if rgb_default >= 8000 {
                rgb_default
            } else {
                8000
            },
        }
    }

    /// The IR warm-up frame count: the override, else the colour camera's but at least 10.
    pub fn effective_warmup_frames(&self, rgb_default: u32) -> (r: u32)
        ensures
            r == self.warmup_frames.unwrap_or(
                if rgb_default >= 10 {
                    rgb_default
                } else {
                    10
                },
            ),
    {
        match self.warmup_frames {
            Some(v) => v,
            None => if rgb_default >= 10 {
                rgb_default
            } else {
                10
            },
        }
    }

    /// The smallest IR face accepted: the override, else five eighths of the colour
    /// camera's minimum (the product saturating at `u32::MAX`).
    pub fn effective_min_face_size(&self, rgb_default: u32) -> (r: u32)
        ensures
            r == self.min_face_size.unwrap_or(
                (if rgb_default * 5 <= u32::MAX {
                    rgb_default * 5
                } else {
                    u32::MAX as int
                } / 8) as u32,
            ),
    {
        match self.min_face_size {
            Some(v) => v,
            None => match rgb_default.checked_mul(5) {
                Some(p) => p / 8,
                None => u32::MAX / 8,
            },
        }
    }
}

/// Failed attempts that start a cooldown by default.
pub fn default_cooldown_after_failures() -> (r: u32)
    ensures
        r == 10,
{
    10
}

/// Cooldown length in seconds by default.
pub fn default_cooldown_seconds() -> (r: u64)
    ensures
        r == 60,
{
    60
}

/// Largest time skew between the RGB and IR frames of a pair, by default (ms).
pub fn default_cross_check_max_time_skew_ms() -> (r: u64)
    ensures
        r == 200,
{
    200
}

/// Largest distance between the RGB and mapped IR face centres, by default: the bit
/// pattern of `40.0f32`.
pub fn default_cross_check_max_position_offset_px() -> (r: u32)
    ensures
        r == 0x4220_0000,
{
    0x4220_0000
}

/// The identity homography, by default.
pub fn default_cross_check_homography() -> (r: [u32; 9])
    ensures
        r@ == identity_homography(),
{
    let r = [F32_ONE, F32_ZERO, F32_ZERO, F32_ZERO, F32_ONE, F32_ZERO, F32_ZERO, F32_ZERO, F32_ONE];
    assert(r@ == identity_homography());
    r
}

/// Bit pattern of `0.60f32`.
pub const SUDO_DEFAULT_THRESHOLD: u32 = 0x3F19_999A;

/// Bit pattern of `0.55f32`.
pub const GLOBAL_DEFAULT_THRESHOLD: u32 = 0x3F0C_CCCD;

/// The stricter sudo policy used when the file has no `[recognition.sudo]` section:
/// threshold 0.60, two matches out of at most five attempts.
pub fn default_sudo_recognition_policy() -> (r: RecognitionScopeConfig)
    ensures
        r == (RecognitionScopeConfig {
            threshold: Some(SUDO_DEFAULT_THRESHOLD),
            required_matches: Some(2u32),
            max_attempts: Some(5u32),
        }),
{
    RecognitionScopeConfig {
        threshold: Some(SUDO_DEFAULT_THRESHOLD),
        required_matches: Some(2),
        max_attempts: Some(5),
    }
}

impl CameraCrossCheckConfig {
    /// Cross-check disabled, with the default skew, offset and identity homography.
    pub fn default_settings() -> (r: CameraCrossCheckConfig)
        ensures
            !r.enabled,
            r.max_time_skew_ms == 200,
            r.max_position_offset_px == 0x4220_0000,
            r.homography@ == identity_homography(),
            !r.allow_identity_homography,
    {
        CameraCrossCheckConfig {
            enabled: false,
            max_time_skew_ms: default_cross_check_max_time_skew_ms(),
            max_position_offset_px: default_cross_check_max_position_offset_px(),
            homography: default_cross_check_homography(),
            allow_identity_homography: false,
        }
    }
}

/// The policy for a scope: each override of the scope, else the global value.
pub open spec fn spec_policy_for(r: RecognitionConfig, scope: AuthScope) -> EffectiveRecognitionPolicy {
    let o = match scope {
        AuthScope::Sudo => r.sudo,
        AuthScope::Session => r.session,
    };
    EffectiveRecognitionPolicy {
        threshold: o.threshold.unwrap_or(r.threshold),
        required_matches: o.required_matches.unwrap_or(r.required_matches),
        max_attempts: o.max_attempts.unwrap_or(r.max_attempts),
    }
}

impl RecognitionConfig {
    /// The recognition policy in force for `scope`.
    pub fn policy_for(&self, scope: AuthScope) -> (p: EffectiveRecognitionPolicy)
        ensures
            p == spec_policy_for(*self, scope),
    {
        let o = match scope {
            AuthScope::Sudo => self.sudo,
            AuthScope::Session => self.session,
        };
        EffectiveRecognitionPolicy {
            threshold: match o.threshold {
                Some(t) => t,
                None => self.threshold,
            },
            required_matches: match o.required_matches {
                Some(n) => n,
                None => self.required_matches,
            },
            max_attempts: match o.max_attempts {
                Some(n) => n,
                None => self.max_attempts,
            },
        }
    }
}

// ── Defaults ─────────────────────────────────────────────────────────────────

/// The shipped defaults: `/dev/video0` at 640x360, 30 fps, 5 s timeout, 3 warm-up
/// frames, no IR camera and cross-check off; threshold 0.55, one match in at most three
/// attempts, 80 px faces, the stricter sudo policy; the packaged model paths and
/// template directory; `info` logging of failed attempts; password fallback allowed,
/// camera errors not denied, and a 60 s cooldown after 10 failures.
pub open spec fn spec_is_default_config(c: Config) -> bool {
    &&& c.camera.device@ == "/dev/video0"@
    &&& c.camera.width == 640
    &&& c.camera.height == 360
    &&& c.camera.fps == 30
    &&& c.camera.timeout_ms == 5000
    &&& c.camera.warmup_frames == 3
    &&& c.camera.ir is None
    &&& !c.camera.cross_check.enabled
    &&& c.camera.cross_check.max_time_skew_ms == 200
    &&& c.camera.cross_check.max_position_offset_px == 0x4220_0000
    &&& c.camera.cross_check.homography@ == identity_homography()
    &&& !c.camera.cross_check.allow_identity_homography
    &&& c.recognition.threshold == GLOBAL_DEFAULT_THRESHOLD
    &&& c.recognition.required_matches == 1
    &&& c.recognition.max_attempts == 3
    &&& c.recognition.min_face_size == 80
    &&& c.recognition.sudo == (RecognitionScopeConfig {
        threshold: Some(SUDO_DEFAULT_THRESHOLD),
        required_matches: Some(2u32),
        max_attempts: Some(5u32),
    })
    &&& c.recognition.session == (RecognitionScopeConfig {
        threshold: None,
        required_matches: None,
        max_attempts: None,
    })
    &&& c.models.detector@ == "/usr/share/facegate/models/scrfd_500m.onnx"@
    &&& c.models.embedder@ == "/usr/share/facegate/models/arcface_w600k_r50.onnx"@
    &&& c.storage.base_dir@ == "/var/lib/facegate/users"@
    &&& c.logging.level@ == "info"@
    &&& c.logging.log_failed_attempts
    &&& c.security.allow_password_fallback
    &&& !c.security.deny_on_camera_error
    &&& c.security.cooldown_after_failures == 10
    &&& c.security.cooldown_seconds == 60
}

impl Default for Config {
    fn default() -> (c: Config)
        ensures
            spec_is_default_config(c),
    {
        Config {
            camera: CameraConfig {
                device: owned("/dev/video0"),
                width: 640,
                height: 360,
                fps: 30,
                timeout_ms: 5000,
                warmup_frames: 3,
                ir: None,
                cross_check: CameraCrossCheckConfig::default_settings(),
            },
            recognition: RecognitionConfig {
                threshold: GLOBAL_DEFAULT_THRESHOLD,
                required_matches: 1,
                max_attempts: 3,
                min_face_size: 80,
                sudo: default_sudo_recognition_policy(),
                session: RecognitionScopeConfig {
                    threshold: None,
                    required_matches: None,
                    max_attempts: None,
                },
            },
            models: ModelsConfig {
                detector: owned("/usr/share/facegate/models/scrfd_500m.onnx"),
                embedder: owned("/usr/share/facegate/models/arcface_w600k_r50.onnx"),
            },
            storage: StorageConfig { base_dir: owned("/var/lib/facegate/users") },
            logging: LoggingConfig { level: owned("info"), log_failed_attempts: true },
            security: SecurityConfig {
                allow_password_fallback: true,
                deny_on_camera_error: false,
                cooldown_after_failures: default_cooldown_after_failures(),
                cooldown_seconds: default_cooldown_seconds(),
            },
        }
    }
}

// ── Validation ───────────────────────────────────────────────────────────────

/// The first problem of an `[camera.ir]` section, if any.
pub open spec fn spec_ir_problem(ir: CameraIrConfig, rgb_device: Seq<char>) -> Option<Seq<char>> {
    if trim(ir.device@).len() == 0 {
        Some("camera.ir.device cannot be empty when set"@)
    } else if ir.device@ == rgb_device {
        Some("camera.ir.device must be different from camera.device"@)
    } else if ir.width == Some(0u32) || ir.height == Some(0u32) {
        Some("camera.ir width/height must be greater than zero"@)
    } else if ir.fps == Some(0u32) {
        Some("camera.ir.fps must be greater than zero"@)
    } else if ir.timeout_ms == Some(0u64) {
        Some("camera.ir.timeout_ms must be greater than zero"@)
    } else if ir.min_face_size == Some(0u32) {
        Some("camera.ir.min_face_size must be greater than zero"@)
    } else {
        None
    }
}

/// The message refusing cross-check on an uncalibrated (identity) homography.
pub open spec fn identity_homography_message() -> Seq<char> {
    "camera.cross_check.enabled is true but homography is still the identity matrix; run `facegate calibrate-cameras --write` first, or set camera.cross_check.allow_identity_homography = true if the sensors are physically aligned"@
}

/// The first problem of the `[camera]` section, if any.
pub open spec fn spec_camera_problem(cam: CameraConfig) -> Option<Seq<char>> {
    let cc = cam.cross_check;
    if trim(cam.device@).len() == 0 {
        Some("camera.device cannot be empty"@)
    } else if cam.ir is Some && spec_ir_problem(cam.ir->0, cam.device@) is Some {
        spec_ir_problem(cam.ir->0, cam.device@)
    } else if cam.width == 0 || cam.height == 0 {
        Some("camera width and height must be greater than zero"@)
    } else if cam.fps == 0 {
        Some("camera.fps must be greater than zero"@)
    } else if cam.timeout_ms == 0 {
        Some("camera.timeout_ms must be greater than zero"@)
    } else if cc.enabled && cam.ir is None {
        Some("camera.cross_check.enabled requires a [camera.ir] section"@)
    } else if cc.max_time_skew_ms == 0 {
        Some("camera.cross_check.max_time_skew_ms must be greater than zero"@)
    } else if !f32_is_finite_positive(cc.max_position_offset_px) {
        Some("camera.cross_check.max_position_offset_px must be a finite positive value"@)
    } else if !spec_all_finite(cc.homography@) {
        Some("camera.cross_check.homography must contain only finite values"@)
    } else if cc.enabled && spec_is_identity_homography(cc.homography@)
        && !cc.allow_identity_homography {
        Some(identity_homography_message())
    } else {
        None
    }
}

/// The first problem of a per-scope recognition override, if any.
pub open spec fn spec_scope_problem(label: Seq<char>, p: RecognitionScopeConfig) -> Option<Seq<char>> {
    if p.threshold is Some && !f32_in_unit_interval(p.threshold->0) {
        Some(label + ".threshold must be a finite value between 0.0 and 1.0"@)
    } else if p.required_matches == Some(0u32) {
        Some(label + ".required_matches must be greater than zero"@)
    } else if p.max_attempts == Some(0u32) {
        Some(label + ".max_attempts must be greater than zero"@)
    } else {
        None
    }
}

/// The first problem of the `[recognition]` section, if any.
pub open spec fn spec_recognition_problem(r: RecognitionConfig) -> Option<Seq<char>> {
    let sudo = spec_policy_for(r, AuthScope::Sudo);
    let session = spec_policy_for(r, AuthScope::Session);
    if !f32_in_unit_interval(r.threshold) {
        Some("recognition.threshold must be a finite value between 0.0 and 1.0"@)
    } else if spec_scope_problem("recognition.sudo"@, r.sudo) is Some {
        spec_scope_problem("recognition.sudo"@, r.sudo)
    } else if spec_scope_problem("recognition.session"@, r.session) is Some {
        spec_scope_problem("recognition.session"@, r.session)
    } else if r.required_matches == 0 {
        Some("recognition.required_matches must be greater than zero"@)
    } else if r.max_attempts == 0 {
        Some("recognition.max_attempts must be greater than zero"@)
    } else if r.required_matches > r.max_attempts {
        Some("recognition.required_matches cannot exceed recognition.max_attempts"@)
    } else if sudo.required_matches > sudo.max_attempts {
        Some("recognition.sudo.required_matches cannot exceed recognition.sudo.max_attempts"@)
    } else if session.required_matches > session.max_attempts {
        Some(
            "recognition.session.required_matches cannot exceed recognition.session.max_attempts"@,
        )
    } else if r.min_face_size == 0 {
        Some("recognition.min_face_size must be greater than zero"@)
    } else {
        None
    }
}

/// The accepted log levels.
pub open spec fn spec_known_level(level: Seq<char>) -> bool {
    level == "trace"@ || level == "debug"@ || level == "info"@ || level == "warn"@ || level
        == "error"@
}

/// The first problem of the configuration, in the order the sections are checked.
pub open spec fn spec_config_problem(c: Config) -> Option<Seq<char>> {
    if spec_camera_problem(c.camera) is Some {
        spec_camera_problem(c.camera)
    } else if spec_recognition_problem(c.recognition) is Some {
        spec_recognition_problem(c.recognition)
    } else if c.security.cooldown_after_failures == 0 {
        Some("security.cooldown_after_failures must be greater than zero"@)
    } else if c.security.cooldown_seconds == 0 {
        Some("security.cooldown_seconds must be greater than zero"@)
    } else if c.models.detector@.len() == 0 || c.models.embedder@.len() == 0 {
        Some("model paths cannot be empty"@)
    } else if c.storage.base_dir@.len() == 0 {
        Some("storage.base_dir cannot be empty"@)
    } else if !spec_known_level(c.logging.level@) {
        Some(
            "logging.level must be trace, debug, info, warn, or error; got '"@ + c.logging.level@
                + "'"@,
        )
    } else {
        None
    }
}

/// The result of a check that fails with a configuration error exactly when the
/// problem `p` was found.
pub open spec fn spec_checked(r: Result<(), FaceRsError>, p: Option<Seq<char>>) -> bool {
    match r {
        Ok(()) => p is None,
        Err(FaceRsError::Config(m)) => p == Some(m@),
        Err(_) => false,
    }
}

fn config_error(msg: &str) -> (r: Result<(), FaceRsError>)
    ensures
        r matches Err(FaceRsError::Config(m)) && m@ == msg@,
{
    Err(FaceRsError::Config(owned(msg)))
}

fn is_blank(s: &str) -> (r: bool)
    ensures
        r == (trim(s@).len() == 0),
{
    let cs = chars_of(s);
    let t = trim_chars(cs.as_slice());
    t.len() == 0
}

fn validate_ir(ir: &CameraIrConfig, rgb_device: &str) -> (r: Result<(), FaceRsError>)
    ensures
        spec_checked(r, spec_ir_problem(*ir, rgb_device@)),
{
    if is_blank(ir.device.as_str()) {
        return config_error("camera.ir.device cannot be empty when set");
    }
    if str_eq(ir.device.as_str(), rgb_device) {
        return config_error("camera.ir.device must be different from camera.device");
    }
    if ir.width == Some(0u32) || ir.height == Some(0u32) {
        return config_error("camera.ir width/height must be greater than zero");
    }
    if ir.fps == Some(0u32) {
        return config_error("camera.ir.fps must be greater than zero");
    }
    if ir.timeout_ms == Some(0u64) {
        return config_error("camera.ir.timeout_ms must be greater than zero");
    }
    if ir.min_face_size == Some(0u32) {
        return config_error("camera.ir.min_face_size must be greater than zero");
    }
    Ok(())
}

fn validate_camera(cam: &CameraConfig) -> (r: Result<(), FaceRsError>)
    ensures
        spec_checked(r, spec_camera_problem(*cam)),
{
    let cc = &cam.cross_check;
    if is_blank(cam.device.as_str()) {
        return config_error("camera.device cannot be empty");
    }
    match &cam.ir {
        Some(ir) => {
            let r = validate_ir(ir, cam.device.as_str());
            if r.is_err() {
                return r;
            }
        },
        None => {},
    }
    if cam.width == 0 || cam.height == 0 {
        return config_error("camera width and height must be greater than zero");
    }
    if cam.fps == 0 {
        return config_error("camera.fps must be greater than zero");
    }
    if cam.timeout_ms == 0 {
        return config_error("camera.timeout_ms must be greater than zero");
    }
    if cc.enabled && cam.ir.is_none() {
        return config_error("camera.cross_check.enabled requires a [camera.ir] section");
    }
    if cc.max_time_skew_ms == 0 {
        return config_error("camera.cross_check.max_time_skew_ms must be greater than zero");
    }
    if !(0 < cc.max_position_offset_px && cc.max_position_offset_px < 0x7F80_0000) {
        return config_error(
            "camera.cross_check.max_position_offset_px must be a finite positive value",
        );
    }
    if !all_finite(&cc.homography) {
        return config_error("camera.cross_check.homography must contain only finite values");
    }
    if cc.enabled && is_identity_homography(&cc.homography) && !cc.allow_identity_homography {
        let r = config_error(
            "camera.cross_check.enabled is true but homography is still the identity matrix; run `facegate calibrate-cameras --write` first, or set camera.cross_check.allow_identity_homography = true if the sensors are physically aligned",
        );
        proof {
            reveal_strlit(
                "camera.cross_check.enabled is true but homography is still the identity matrix; run `facegate calibrate-cameras --write` first, or set camera.cross_check.allow_identity_homography = true if the sensors are physically aligned",
            );
        }
        return r;
    }
    Ok(())
}

fn scope_error(label: &str, suffix: &str) -> (r: Result<(), FaceRsError>)
    ensures
        r matches Err(FaceRsError::Config(m)) && m@ == label@ + suffix@,
{
    let mut m = owned(label);
    string_push_str(&mut m, suffix);
    Err(FaceRsError::Config(m))
}

fn validate_scope_recognition(label: &str, policy: &RecognitionScopeConfig) -> (r: Result<(), FaceRsError>)
    ensures
        spec_checked(r, spec_scope_problem(label@, *policy)),
{
    match policy.threshold {
        Some(t) => {
            if !(t <= F32_ONE || t == F32_NEG_ZERO) {
                return scope_error(label, ".threshold must be a finite value between 0.0 and 1.0");
            }
        },
        None => {},
    }
    if policy.required_matches == Some(0u32) {
        return scope_error(label, ".required_matches must be greater than zero");
    }
    if policy.max_attempts == Some(0u32) {
        return scope_error(label, ".max_attempts must be greater than zero");
    }
    Ok(())
}

fn validate_recognition(rec: &RecognitionConfig) -> (r: Result<(), FaceRsError>)
    ensures
        spec_checked(r, spec_recognition_problem(*rec)),
{
    if !(rec.threshold <= F32_ONE || rec.threshold == F32_NEG_ZERO) {
        return config_error("recognition.threshold must be a finite value between 0.0 and 1.0");
    }
    let r = validate_scope_recognition("recognition.sudo", &rec.sudo);
    if r.is_err() {
        return r;
    }
    let r = validate_scope_recognition("recognition.session", &rec.session);
    if r.is_err() {
        return r;
    }
    if rec.required_matches == 0 {
        return config_error("recognition.required_matches must be greater than zero");
    }
    if rec.max_attempts == 0 {
        return config_error("recognition.max_attempts must be greater than zero");
    }
    if rec.required_matches > rec.max_attempts {
        return config_error("recognition.required_matches cannot exceed recognition.max_attempts");
    }
    let sudo = rec.policy_for(AuthScope::Sudo);
    if sudo.required_matches > sudo.max_attempts {
        return config_error(
            "recognition.sudo.required_matches cannot exceed recognition.sudo.max_attempts",
        );
    }
    let session = rec.policy_for(AuthScope::Session);
    if session.required_matches > session.max_attempts {
        return config_error(
            "recognition.session.required_matches cannot exceed recognition.session.max_attempts",
        );
    }
    if rec.min_face_size == 0 {
        return config_error("recognition.min_face_size must be greater than zero");
    }
    Ok(())
}

fn is_known_level(level: &str) -> (r: bool)
    ensures
        r == spec_known_level(level@),
{
    str_eq(level, "trace") || str_eq(level, "debug") || str_eq(level, "info") || str_eq(
        level,
        "warn",
    ) || str_eq(level, "error")
}

impl Config {
    /// Checks the configuration and reports the first problem found, section by
    /// section, as a configuration error.
    pub fn validate(&self) -> (r: Result<(), FaceRsError>)
        ensures
            spec_checked(r, spec_config_problem(*self)),
    {
        let r = validate_camera(&self.camera);
        if r.is_err() {
            return r;
        }
        let r = validate_recognition(&self.recognition);
        if r.is_err() {
            return r;
        }
        if self.security.cooldown_after_failures == 0 {
            return config_error("security.cooldown_after_failures must be greater than zero");
        }
        if self.security.cooldown_seconds == 0 {
            return config_error("security.cooldown_seconds must be greater than zero");
        }
        let detector = chars_of(self.models.detector.as_str());
        let embedder = chars_of(self.models.embedder.as_str());
        if detector.len() == 0 || embedder.len() == 0 {
            return config_error("model paths cannot be empty");
        }
        let base = chars_of(self.storage.base_dir.as_str());
        if base.len() == 0 {
            return config_error("storage.base_dir cannot be empty");
        }
        if !is_known_level(self.logging.level.as_str()) {
            let mut m = owned("logging.level must be trace, debug, info, warn, or error; got '");
            string_push_str(&mut m, self.logging.level.as_str());
            string_push_str(&mut m, "'");
            return Err(FaceRsError::Config(m));
        }
        Ok(())
    }
}

// ── Laws ─────────────────────────────────────────────────────────────────────

/// A configuration that validates yields, for each scope, a policy whose threshold is a
/// finite value in `0.0..=1.0` and which asks for at least one match within an attempt
/// budget that can reach it.
pub proof fn law_validated_policy_is_usable(c: Config, scope: AuthScope)
    requires
        spec_config_problem(c) is None,
    ensures
        f32_in_unit_interval(spec_policy_for(c.recognition, scope).threshold),
        f32_is_finite(spec_policy_for(c.recognition, scope).threshold),
        1 <= spec_policy_for(c.recognition, scope).required_matches
            <= spec_policy_for(c.recognition, scope).max_attempts,
{
    let t = spec_policy_for(c.recognition, scope).threshold;
    assert(f32_in_unit_interval(t));
    assert(f32_is_finite(t)) by {
        if t <= F32_ONE {
            assert(t as int / 0x80_0000 <= 0x7F);
        } else {
            assert(t as int / 0x80_0000 == 0x100);
        }
    }
}

/// Enabling the cross-check in a configuration that validates means an IR camera is
/// configured and the homography is calibrated, unless identity was explicitly allowed.
pub proof fn law_validated_cross_check_is_calibrated(c: Config)
    requires
        spec_config_problem(c) is None,
        c.camera.cross_check.enabled,
    ensures
        c.camera.ir is Some,
        !spec_is_identity_homography(c.camera.cross_check.homography@)
            || c.camera.cross_check.allow_identity_homography,
        spec_all_finite(c.camera.cross_check.homography@),
{
}


/// The default configuration validates.
pub proof fn law_default_config_is_valid(c: Config)
    requires
        spec_is_default_config(c),
    ensures
        spec_config_problem(c) is None,
{
    reveal_strlit("/dev/video0");
    reveal_strlit("info");
    reveal_strlit("trace");
    reveal_strlit("debug");
    reveal_strlit("/usr/share/facegate/models/scrfd_500m.onnx");
    reveal_strlit("/usr/share/facegate/models/arcface_w600k_r50.onnx");
    reveal_strlit("/var/lib/facegate/users");
    let d = c.camera.device@;
    assert(!crate::text::is_ws(d[0]) && !crate::text::is_ws(d[d.len() - 1]));
    assert(crate::text::trim_start(d) == d);
    assert(crate::text::trim_end(d) == d);
    let h = c.camera.cross_check.homography@;
    assert forall|i: int| 0 <= i < h.len() implies f32_is_finite(#[trigger] h[i]) by {
        assert(h[i] == F32_ONE || h[i] == F32_ZERO);
    }
    assert(f32_in_unit_interval(SUDO_DEFAULT_THRESHOLD));
}

} // verus!
