//! The calibration commands apart from their measurements: `facegate calibrate`, which
//! recommends a recognition threshold from live scores, and `facegate
//! calibrate-cameras`, which fits the IR-to-RGB homography from landmark pairs. The
//! score statistics and the homography fit are floating point and are done by the
//! binary; this module checks the requests, paces the capture of RGB+IR pairs, and
//! writes a result into the configuration.
use vstd::prelude::*;

use crate::config::{CameraIrConfig, Config};
use crate::ipc::EnrolledTemplateSummary;
use crate::status::{count_allowing, spec_count_allowing};
use crate::storage::AuthScope;
use crate::text::{decimal, owned, push_decimal, str_eq, string_push_str};

verus! {

// ── Threshold calibration ────────────────────────────────────────────────────

/// The scope being calibrated, as the command names it.
pub open spec fn spec_calibration_scope_label(s: AuthScope) -> Seq<char> {
    match s {
        AuthScope::Sudo => "sudo"@,
        AuthScope::Session => "session"@,
    }
}

pub fn calibration_scope_label(s: AuthScope) -> (r: &'static str)
    ensures
        r@ == spec_calibration_scope_label(s),
{
    match s {
        AuthScope::Sudo => "sudo",
        AuthScope::Session => "session",
    }
}

/// The configuration table that holds the scope's threshold override.
pub open spec fn spec_scope_config_label(s: AuthScope) -> Seq<char> {
    match s {
        AuthScope::Sudo => "recognition.sudo"@,
        AuthScope::Session => "recognition.session"@,
    }
}

pub fn scope_config_label(s: AuthScope) -> (r: &'static str)
    ensures
        r@ == spec_scope_config_label(s),
{
    match s {
        AuthScope::Sudo => "recognition.sudo",
        AuthScope::Session => "recognition.session",
    }
}

/// Why a threshold calibration is refused before any capture: no sample asked for
/// (worded for the command line, or for the menu), or no enrolled template that the
/// scope may use.
pub open spec fn spec_calibration_refusal(samples: u32, usable: nat, scope: AuthScope, from_menu: bool) -> Option<Seq<char>> {
    if samples == 0 {
        Some(
            if from_menu {
                "samples must be greater than zero"@
            } else {
                "--samples must be greater than zero"@
            },
        )
    } else if usable == 0 {
        Some("user has no enrolled templates for "@ + spec_calibration_scope_label(scope))
    } else {
        None
    }
}

/// Checks a threshold calibration of `samples` captures against the user's listed
/// templates.
pub fn check_calibration(samples: u32, templates: &Vec<EnrolledTemplateSummary>, scope: AuthScope, from_menu: bool) -> (r: Result<(), String>)
    ensures
        match spec_calibration_refusal(samples, spec_count_allowing(templates@, scope), scope, from_menu) {
            Some(m) => r matches Err(e) && e@ == m,
            None => r is Ok,
        },
{
    if samples == 0 {
        if from_menu {
            return Err(owned("samples must be greater than zero"));
        } else {
            return Err(owned("--samples must be greater than zero"));
        }
    }
    if count_allowing(templates, scope) == 0 {
        let mut m = owned("user has no enrolled templates for ");
        string_push_str(&mut m, calibration_scope_label(scope));
        return Err(m);
    }
    Ok(())
}

/// Writes a recommended threshold (an `f32` bit pattern) as the override of `scope`,
/// leaving everything else as it was.
pub fn apply_threshold(config: &mut Config, scope: AuthScope, threshold: u32)
    ensures
        final(config).camera == old(config).camera,
        final(config).models == old(config).models,
        final(config).storage == old(config).storage,
        final(config).logging == old(config).logging,
        final(config).security == old(config).security,
        final(config).recognition.threshold == old(config).recognition.threshold,
        final(config).recognition.required_matches == old(config).recognition.required_matches,
        final(config).recognition.max_attempts == old(config).recognition.max_attempts,
        final(config).recognition.min_face_size == old(config).recognition.min_face_size,
        scope == AuthScope::Sudo ==> final(config).recognition.sudo == (crate::config::RecognitionScopeConfig {
            threshold: Some(threshold),
            ..old(config).recognition.sudo
        }) && final(config).recognition.session == old(config).recognition.session,
        scope == AuthScope::Session ==> final(config).recognition.session == (crate::config::RecognitionScopeConfig {
            threshold: Some(threshold),
            ..old(config).recognition.session
        }) && final(config).recognition.sudo == old(config).recognition.sudo,
{
    match scope {
        AuthScope::Sudo => config.recognition.sudo.threshold = Some(threshold),
        AuthScope::Session => config.recognition.session.threshold = Some(threshold),
    }
}

// ── Camera calibration ───────────────────────────────────────────────────────

/// The colour and IR devices a camera calibration uses (each given on the command line,
/// else taken from the configuration), or why it is refused.
pub open spec fn spec_calibration_devices(config: Config, rgb: Option<Seq<char>>, ir: Option<Seq<char>>, samples: u32) -> Result<(Seq<char>, Seq<char>), Seq<char>> {
    if samples == 0 {
        Err("--samples must be greater than zero"@)
    } else {
        let r = match rgb {
            Some(d) => d,
            None => config.camera.device@,
        };
        let i = match ir {
            Some(d) => Some(d),
            None => match config.camera.ir {
                Some(c) => Some(c.device@),
                None => None,
            },
        };
        match i {
            None => Err("IR device missing; pass --ir-device or set [camera.ir].device"@),
            Some(i) => if r == i {
                Err("RGB and IR devices must be different"@)
            } else {
                Ok((r, i))
            },
        }
    }
}

/// An optional device name as a view.
pub open spec fn opt_view(d: Option<&str>) -> Option<Seq<char>> {
    match d {
        Some(s) => Some(s@),
        None => None,
    }
}

pub fn calibration_devices(config: &Config, rgb: Option<&str>, ir: Option<&str>, samples: u32) -> (r: Result<(String, String), String>)
    ensures
        match spec_calibration_devices(*config, opt_view(rgb), opt_view(ir), samples) {
            Ok((a, b)) => r matches Ok((x, y)) && x@ == a && y@ == b,
            Err(m) => r matches Err(e) && e@ == m,
        },
{
    if samples == 0 {
        return Err(owned("--samples must be greater than zero"));
    }
    let rgb_device = match rgb {
        Some(d) => owned(d),
        None => owned(config.camera.device.as_str()),
    };
    let ir_device = match ir {
        Some(d) => owned(d),
        None => match &config.camera.ir {
            Some(c) => owned(c.device.as_str()),
            None => return Err(owned("IR device missing; pass --ir-device or set [camera.ir].device")),
        },
    };
    if str_eq(rgb_device.as_str(), ir_device.as_str()) {
        return Err(owned("RGB and IR devices must be different"));
    }
    Ok((rgb_device, ir_device))
}

/// The IR capture settings used while calibrating (width, height, frame rate, timeout,
/// warm-up frames): the IR camera's effective settings, or the colour camera's when no
/// IR camera is configured (then with at least 10 warm-up frames), with a timeout of at
/// least 15 s either way, as the capture waits on the user.
pub open spec fn spec_calibration_ir_settings(config: Config) -> (u32, u32, u32, u64, u32) {
    let c = config.camera;
    match c.ir {
        Some(ir) => {
            let t = ir.timeout_ms.unwrap_or(if c.timeout_ms >= 8000 { c.timeout_ms } else { 8000 });
            (
                ir.width.unwrap_or(c.width),
                ir.height.unwrap_or(c.height),
                ir.fps.unwrap_or(c.fps),
                if t >= 15000 { t } else { 15000 },
                ir.warmup_frames.unwrap_or(if c.warmup_frames >= 10 { c.warmup_frames } else { 10 }),
            )
        },
        None => (
            c.width,
            c.height,
            c.fps,
            if c.timeout_ms >= 15000 { c.timeout_ms } else { 15000 },
            if c.warmup_frames >= 10 { c.warmup_frames } else { 10 },
        ),
    }
}

pub fn calibration_ir_settings(config: &Config) -> (r: (u32, u32, u32, u64, u32))
    ensures
        r == spec_calibration_ir_settings(*config),
{
    let c = &config.camera;
    match &c.ir {
        Some(ir) => {
            let t = ir.effective_timeout_ms(c.timeout_ms);
            (
                ir.effective_width(c.width),
                ir.effective_height(c.height),
                ir.effective_fps(c.fps),
                if t >= 15000 { t } else { 15000 },
                ir.effective_warmup_frames(c.warmup_frames),
            )
        },
        None => (
            c.width,
            c.height,
            c.fps,
            if c.timeout_ms >= 15000 { c.timeout_ms } else { 15000 },
            if c.warmup_frames >= 10 { c.warmup_frames } else { 10 },
        ),
    }
}

/// How many captures in a row may fail before the calibration gives up.
pub const MAX_CONSECUTIVE_FAILURES: u32 = 12;

/// Progress of collecting `samples` RGB+IR pairs that each show exactly one face.
pub struct PairCollection {
    pub samples: u32,
    pub accepted: u32,
    pub consecutive_failures: u32,
}

/// What is left of a collection: each capture, accepted or skipped, makes it smaller.
pub open spec fn spec_remaining(p: PairCollection) -> int {
    (p.samples - p.accepted) * (MAX_CONSECUTIVE_FAILURES + 1) + (MAX_CONSECUTIVE_FAILURES
        - p.consecutive_failures)
}

impl PairCollection {
    /// At most `samples` accepted, and fewer failures in a row than would have stopped
    /// the collection, plus the one that stops it.
    pub open spec fn wf(self) -> bool {
        &&& self.accepted <= self.samples
        &&& self.consecutive_failures <= MAX_CONSECUTIVE_FAILURES
    }

    /// A collection of `samples` pairs, none captured yet.
    pub fn new(samples: u32) -> (p: PairCollection)
        ensures
            p.wf(),
            p.samples == samples,
            p.accepted == 0,
            p.consecutive_failures == 0,
    {
        PairCollection { samples, accepted: 0, consecutive_failures: 0 }
    }

    /// Whether every pair has been collected.
    pub fn is_complete(&self) -> (r: bool)
        ensures
            r == (self.accepted >= self.samples),
    {
        self.accepted >= self.samples
    }

    /// Whether so many captures in a row failed that the calibration gives up.
    pub fn gave_up(&self) -> (r: bool)
        ensures
            r == (self.consecutive_failures >= MAX_CONSECUTIVE_FAILURES),
    {
        self.consecutive_failures >= MAX_CONSECUTIVE_FAILURES
    }

    /// The number of the next pair, counting from one.
    pub fn next_index(&self) -> (n: u32)
        requires
            self.wf(),
            self.accepted < self.samples,
        ensures
            n == self.accepted + 1,
    {
        self.accepted + 1
    }

    /// Records a capture in which the `camera` stream (`RGB` or `IR`) did not show
    /// exactly one face, and returns the line reporting it.
    pub fn skip(&mut self, camera: &str, error: &str) -> (line: String)
        requires
            old(self).wf(),
            old(self).consecutive_failures < MAX_CONSECUTIVE_FAILURES,
        ensures
            final(self).wf(),
            final(self).samples == old(self).samples,
            final(self).accepted == old(self).accepted,
            final(self).consecutive_failures == old(self).consecutive_failures + 1,
            spec_remaining(*final(self)) < spec_remaining(*old(self)),
            line@ == "  skipped: "@ + camera@ + " "@ + error@ + " ("@ + decimal(
                final(self).consecutive_failures as nat,
            ) + "/"@ + decimal(MAX_CONSECUTIVE_FAILURES as nat) + " before bail)"@,
    {
        self.consecutive_failures = self.consecutive_failures + 1;
        let mut line = owned("  skipped: ");
        string_push_str(&mut line, camera);
        string_push_str(&mut line, " ");
        string_push_str(&mut line, error);
        string_push_str(&mut line, " (");
        push_decimal(&mut line, self.consecutive_failures as u64);
        string_push_str(&mut line, "/");
        push_decimal(&mut line, MAX_CONSECUTIVE_FAILURES as u64);
        string_push_str(&mut line, " before bail)");
        line
    }

    /// Records an accepted pair, which ends any run of failures, and returns the line
    /// reporting it.
    pub fn accept(&mut self) -> (line: String)
        requires
            old(self).wf(),
            old(self).accepted < old(self).samples,
        ensures
            final(self).wf(),
            final(self).samples == old(self).samples,
            final(self).accepted == old(self).accepted + 1,
            final(self).consecutive_failures == 0,
            spec_remaining(*final(self)) < spec_remaining(*old(self)),
            line@ == "  accepted pair "@ + decimal(final(self).accepted as nat) + "/"@ + decimal(
                final(self).samples as nat,
            ),
    {
        self.accepted = self.accepted + 1;
        self.consecutive_failures = 0;
        let mut line = owned("  accepted pair ");
        push_decimal(&mut line, self.accepted as u64);
        string_push_str(&mut line, "/");
        push_decimal(&mut line, self.samples as u64);
        line
    }

    /// Why the calibration gave up.
    pub fn give_up_message(&self) -> (m: String)
        ensures
            m@ == decimal(MAX_CONSECUTIVE_FAILURES as nat)
                + " consecutive captures failed without a usable RGB+IR pair (got "@ + decimal(
                self.accepted as nat,
            ) + "/"@ + decimal(self.samples as nat)
                + "). Try better lighting, sit ~50 cm from the camera with your face centred, or lower `recognition.min_face_size` temporarily."@,
    {
        let mut m = String::new();
        push_decimal(&mut m, MAX_CONSECUTIVE_FAILURES as u64);
        string_push_str(&mut m, " consecutive captures failed without a usable RGB+IR pair (got ");
        push_decimal(&mut m, self.accepted as u64);
        string_push_str(&mut m, "/");
        push_decimal(&mut m, self.samples as u64);
        string_push_str(
            &mut m,
            "). Try better lighting, sit ~50 cm from the camera with your face centred, or lower `recognition.min_face_size` temporarily.",
        );
        m
    }
}

/// Writes a camera calibration into the configuration: the two devices, the fitted
/// homography (`f32` bit patterns) and, when asked, the cross-check switched on. An IR
/// section already present keeps its overrides; a missing one is created without any.
pub fn apply_camera_calibration(config: &mut Config, rgb_device: String, ir_device: String, homography: [u32; 9], enable: bool)
    ensures
        final(config).camera.device@ == rgb_device@,
        match old(config).camera.ir {
            Some(o) => final(config).camera.ir matches Some(n) && n.device@ == ir_device@ && n.width
                == o.width && n.height == o.height && n.fps == o.fps && n.timeout_ms == o.timeout_ms
                && n.warmup_frames == o.warmup_frames && n.min_face_size == o.min_face_size,
            None => final(config).camera.ir matches Some(n) && n.device@ == ir_device@ && n.width is None
                && n.height is None && n.fps is None && n.timeout_ms is None && n.warmup_frames is None
                && n.min_face_size is None,
        },
        final(config).camera.cross_check.homography == homography,
        final(config).camera.cross_check.enabled == (enable || old(config).camera.cross_check.enabled),
        final(config).camera.cross_check.max_time_skew_ms == old(config).camera.cross_check.max_time_skew_ms,
        final(config).camera.cross_check.max_position_offset_px == old(config).camera.cross_check.max_position_offset_px,
        final(config).camera.cross_check.allow_identity_homography == old(config).camera.cross_check.allow_identity_homography,
        final(config).camera.width == old(config).camera.width,
        final(config).camera.height == old(config).camera.height,
        final(config).camera.fps == old(config).camera.fps,
        final(config).camera.timeout_ms == old(config).camera.timeout_ms,
        final(config).camera.warmup_frames == old(config).camera.warmup_frames,
        final(config).recognition == old(config).recognition,
        final(config).models == old(config).models,
        final(config).storage == old(config).storage,
        final(config).logging == old(config).logging,
        final(config).security == old(config).security,
{
    config.camera.device = rgb_device;
    let ir = match &config.camera.ir {
        Some(o) => CameraIrConfig {
            device: ir_device,
            width: o.width,
            height: o.height,
            fps: o.fps,
            timeout_ms: o.timeout_ms,
            warmup_frames: o.warmup_frames,
            min_face_size: o.min_face_size,
        },
        None => CameraIrConfig {
            device: ir_device,
            width: None,
            height: None,
            fps: None,
            timeout_ms: None,
            warmup_frames: None,
            min_face_size: None,
        },
    };
    config.camera.ir = Some(ir);
    config.camera.cross_check.homography = homography;
    if enable {
        config.camera.cross_check.enabled = true;
    }
}

/// The question asked before writing a camera calibration to `path`.
pub fn camera_calibration_prompt(path: &str, enable: bool) -> (s: String)
    ensures
        s@ == "Write RGB+IR calibration to "@ + path@ + (if enable {
            " and enable cross-check"@
        } else {
            ""@
        }) + "?"@,
{
    let mut s = owned("Write RGB+IR calibration to ");
    string_push_str(&mut s, path);
    if enable {
        string_push_str(&mut s, " and enable cross-check");
    } else {
        string_push_str(&mut s, "");
    }
    string_push_str(&mut s, "?");
    s
}

} // verus!
