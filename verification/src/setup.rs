//! `facegate setup`, the guided first-time setup: which cameras it offers to write, the
//! configuration each answer leads to, and the closing services summary. The questions
//! themselves, enrolment and testing are run by the binary.
use vstd::prelude::*;

use crate::config::{CameraIrConfig, Config};
use crate::doctor::RecommendedCameras;

verus! {

/// What the guided setup can do with the cameras it found.
#[derive(Debug, Clone, PartialEq, Eq)]
pub enum CameraSetup {
    /// No usable camera: nothing is written.
    NoCamera,
    /// A colour camera only: it may become the camera, without IR.
    RgbOnly(String),
    /// An IR sensor only: not enough, as the primary camera must be a colour one.
    IrOnly(String),
    /// A colour camera and an IR sensor.
    Both(String, String),
}

/// The setup step for the recommended cameras.
pub fn camera_setup(cams: &RecommendedCameras) -> (r: CameraSetup)
    ensures
        match (&cams.rgb, &cams.ir) {
            (None, None) => r == CameraSetup::NoCamera,
            (Some(c), None) => r matches CameraSetup::RgbOnly(d) && d@ == c@,
            (None, Some(i)) => r matches CameraSetup::IrOnly(d) && d@ == i@,
            (Some(c), Some(i)) => r matches CameraSetup::Both(a, b) && a@ == c@ && b@ == i@,
        },
{
    match (&cams.rgb, &cams.ir) {
        (None, None) => CameraSetup::NoCamera,
        (Some(c), None) => CameraSetup::RgbOnly(crate::text::owned(c.as_str())),
        (None, Some(i)) => CameraSetup::IrOnly(crate::text::owned(i.as_str())),
        (Some(c), Some(i)) => CameraSetup::Both(crate::text::owned(c.as_str()), crate::text::owned(i.as_str())),
    }
}

/// Writes a lone colour camera: it becomes the camera, and a configured IR camera is
/// dropped together with the cross-check, which no longer makes sense.
pub fn use_rgb_camera(config: &mut Config, rgb: String)
    ensures
        final(config).camera.device@ == rgb@,
        final(config).camera.ir is None,
        old(config).camera.ir is Some ==> !final(config).camera.cross_check.enabled,
        old(config).camera.ir is None ==> final(config).camera.cross_check == old(config).camera.cross_check,
        final(config).camera.cross_check.homography == old(config).camera.cross_check.homography,
        final(config).camera.width == old(config).camera.width,
        final(config).camera.height == old(config).camera.height,
        final(config).camera.fps == old(config).camera.fps,
        final(config).camera.timeout_ms == old(config).camera.timeout_ms,
        final(config).camera.warmup_frames == old(config).camera.warmup_frames,
        final(config).recognition == old(config).recognition,
        final(config).models == old(config).models,
        final(config).storage == old(config).storage,
        final(config).logging == old(config).logging,
        final(config).security == old(config).security,
{
    config.camera.device = rgb;
    if config.camera.ir.is_some() {
        config.camera.ir = None;
        config.camera.cross_check.enabled = false;
    }
}

/// Writes a colour camera and an IR sensor. With the cross-check wanted, the sensor
/// becomes the IR camera (an IR section already present keeps its overrides); without,
/// no IR camera is kept. Either way the cross-check stays off until the cameras are
/// calibrated.
pub fn use_both_cameras(config: &mut Config, rgb: String, ir: String, cross_check: bool)
    ensures
        final(config).camera.device@ == rgb@,
        !final(config).camera.cross_check.enabled,
        !cross_check ==> final(config).camera.ir is None,
        cross_check ==> match old(config).camera.ir {
            Some(o) => final(config).camera.ir matches Some(n) && n.device@ == ir@ && n.width == o.width
                && n.height == o.height && n.fps == o.fps && n.timeout_ms == o.timeout_ms
                && n.warmup_frames == o.warmup_frames && n.min_face_size == o.min_face_size,
            None => final(config).camera.ir matches Some(n) && n.device@ == ir@ && n.width is None
                && n.height is None && n.fps is None && n.timeout_ms is None && n.warmup_frames is None
                && n.min_face_size is None,
        },
        final(config).camera.cross_check.homography == old(config).camera.cross_check.homography,
        final(config).camera.cross_check.max_time_skew_ms == old(config).camera.cross_check.max_time_skew_ms,
        final(config).camera.cross_check.max_position_offset_px == old(config).camera.cross_check.max_position_offset_px,
        final(config).camera.cross_check.allow_identity_homography == old(config).camera.cross_check.allow_identity_homography,
        final(config).camera.width == old(config).camera.width,
        final(config).camera.height == old(config).camera.height,
        final(config).camera.fps == old(config).camera.fps,
        final(config).camera.timeout_ms == old(config).camera.timeout_ms,
        final(config).camera.warmup_frames == old(config).camera.warmup_frames,
        final(config).recognition == old(config).recognition,
        final(config).models == old(config).models,
        final(config).storage == old(config).storage,
        final(config).logging == old(config).logging,
        final(config).security == old(config).security,
{
    config.camera.device = rgb;
    if cross_check {
        let n = match &config.camera.ir {
            Some(o) => CameraIrConfig {
                device: ir,
                width: o.width,
                height: o.height,
                fps: o.fps,
                timeout_ms: o.timeout_ms,
                warmup_frames: o.warmup_frames,
                min_face_size: o.min_face_size,
            },
            None => CameraIrConfig {
                device: ir,
                width: None,
                height: None,
                fps: None,
                timeout_ms: None,
                warmup_frames: None,
                min_face_size: None,
            },
        };
        config.camera.ir = Some(n);
    } else {
        config.camera.ir = None;
    }
    config.camera.cross_check.enabled = false;
}

/// The broker's line of the services summary.
pub fn broker_summary(active: bool, enabled: bool) -> (s: &'static str)
    ensures
        s@ == (if active && enabled {
            "running, enabled at boot"@
        } else if active {
            "running, NOT enabled at boot"@
        } else if enabled {
            "stopped, enabled at boot"@
        } else {
            "stopped, not enabled"@
        }),
{
    match (active, enabled) {
        (true, true) => "running, enabled at boot",
        (true, false) => "running, NOT enabled at boot",
        (false, true) => "stopped, enabled at boot",
        (false, false) => "stopped, not enabled",
    }
}

/// The watch daemon's line of the services summary.
pub fn watch_summary(installed: bool, active: bool) -> (s: &'static str)
    ensures
        s@ == (if !installed {
            "not installed"@
        } else if active {
            "running"@
        } else {
            "installed, not running"@
        }),
{
    if !installed {
        "not installed"
    } else if active {
        "running"
    } else {
        "installed, not running"
    }
}

} // verus!
