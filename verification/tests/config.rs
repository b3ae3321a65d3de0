use facegate::config::{
    is_identity_homography, CameraIrConfig, Config, EffectiveRecognitionPolicy,
    RecognitionScopeConfig,
};
use facegate::error::FaceRsError;
use facegate::storage::AuthScope;

fn ir(device: &str) -> CameraIrConfig {
    CameraIrConfig {
        device: device.to_owned(),
        width: None,
        height: None,
        fps: None,
        timeout_ms: None,
        warmup_frames: None,
        min_face_size: None,
    }
}

fn message(r: Result<(), FaceRsError>) -> String {
    match r {
        Err(FaceRsError::Config(m)) => m,
        Err(e) => panic!("not a configuration error: {}", e.message()),
        Ok(()) => panic!("configuration accepted"),
    }
}

#[test]
fn default_config_is_valid() {
    let cfg = Config::default();
    assert_eq!(cfg.camera.device, "/dev/video0");
    assert!(cfg.camera.ir.is_none());
    assert!(!cfg.camera.cross_check.enabled);
    let threshold = f32::from_bits(cfg.recognition.threshold);
    assert!(threshold > 0.0 && threshold < 1.0);
    assert!(cfg.security.allow_password_fallback);
    assert_eq!(cfg.security.cooldown_after_failures, 10);
    assert_eq!(cfg.security.cooldown_seconds, 60);
    assert_eq!(
        f32::from_bits(cfg.recognition.policy_for(AuthScope::Session).threshold),
        0.55
    );
    assert_eq!(f32::from_bits(cfg.recognition.policy_for(AuthScope::Sudo).threshold), 0.60);
    assert_eq!(cfg.recognition.policy_for(AuthScope::Sudo).required_matches, 2);
    assert_eq!(cfg.recognition.policy_for(AuthScope::Sudo).max_attempts, 5);
    cfg.validate().expect("default config validates");
}

#[test]
fn rejects_unsafe_threshold() {
    let mut cfg = Config::default();
    cfg.recognition.threshold = (-0.1f32).to_bits();
    assert!(cfg.validate().is_err());
    cfg.recognition.threshold = f32::NAN.to_bits();
    assert!(cfg.validate().is_err());
}

#[test]
fn rejects_zero_capture_values() {
    let mut cfg = Config::default();
    cfg.camera.fps = 0;
    assert!(cfg.validate().is_err());
}

#[test]
fn rejects_enabled_cross_check_without_ir_section() {
    let mut cfg = Config::default();
    cfg.camera.cross_check.enabled = true;
    cfg.camera.cross_check.allow_identity_homography = true;
    assert!(cfg.validate().is_err());
    cfg.camera.ir = Some(ir("/dev/video2"));
    assert!(cfg.validate().is_ok());
}

#[test]
fn rejects_identity_homography_when_cross_check_enabled() {
    let mut cfg = Config::default();
    cfg.camera.ir = Some(ir("/dev/video2"));
    cfg.camera.cross_check.enabled = true;
    // identity homography → refused unless the operator opts in
    assert!(cfg.validate().is_err());
    cfg.camera.cross_check.allow_identity_homography = true;
    assert!(cfg.validate().is_ok());
}

#[test]
fn rejects_invalid_cross_check_values() {
    let mut cfg = Config::default();
    cfg.camera.ir = Some(ir("/dev/video2"));
    cfg.camera.cross_check.enabled = true;
    cfg.camera.cross_check.allow_identity_homography = true;
    cfg.camera.cross_check.max_time_skew_ms = 0;
    assert!(cfg.validate().is_err());
    cfg.camera.cross_check.max_time_skew_ms = 50;
    cfg.camera.cross_check.max_position_offset_px = f32::NAN.to_bits();
    assert!(cfg.validate().is_err());
    cfg.camera.cross_check.max_position_offset_px = 40.0f32.to_bits();
    cfg.camera.cross_check.homography[8] = f32::NAN.to_bits();
    assert!(cfg.validate().is_err());
}

#[test]
fn rejects_impossible_match_policy() {
    let mut cfg = Config::default();
    cfg.recognition.required_matches = 2;
    cfg.recognition.max_attempts = 1;
    cfg.recognition.sudo = RecognitionScopeConfig {
        threshold: None,
        required_matches: None,
        max_attempts: None,
    };
    assert!(cfg.validate().is_err());
}

#[test]
fn scope_policy_overrides_global_defaults() {
    let mut cfg = Config::default();
    cfg.recognition.session.threshold = Some(0.58f32.to_bits());
    cfg.recognition.session.required_matches = Some(2);
    cfg.recognition.session.max_attempts = Some(4);
    cfg.validate().expect("scope policy validates");
    assert_eq!(
        cfg.recognition.policy_for(AuthScope::Session),
        EffectiveRecognitionPolicy {
            threshold: 0.58f32.to_bits(),
            required_matches: 2,
            max_attempts: 4,
        }
    );
}

#[test]
fn rejects_invalid_cooldown_policy() {
    let mut cfg = Config::default();
    cfg.security.cooldown_after_failures = 0;
    assert!(cfg.validate().is_err());
    cfg.security.cooldown_after_failures = 10;
    cfg.security.cooldown_seconds = 0;
    assert!(cfg.validate().is_err());
}

#[test]
fn validation_reports_the_first_problem() {
    let mut cfg = Config::default();
    cfg.camera.device = "   ".to_owned();
    cfg.camera.fps = 0;
    assert_eq!(message(cfg.validate()), "camera.device cannot be empty");

    let mut cfg = Config::default();
    cfg.camera.ir = Some(ir("/dev/video0"));
    assert_eq!(
        message(cfg.validate()),
        "camera.ir.device must be different from camera.device"
    );

    let mut cfg = Config::default();
    cfg.recognition.session.max_attempts = Some(0);
    assert_eq!(
        message(cfg.validate()),
        "recognition.session.max_attempts must be greater than zero"
    );

    let mut cfg = Config::default();
    cfg.recognition.sudo.required_matches = Some(9);
    assert_eq!(
        message(cfg.validate()),
        "recognition.sudo.required_matches cannot exceed recognition.sudo.max_attempts"
    );

    let mut cfg = Config::default();
    cfg.logging.level = "loud".to_owned();
    assert_eq!(
        message(cfg.validate()),
        "logging.level must be trace, debug, info, warn, or error; got 'loud'"
    );

    let mut cfg = Config::default();
    cfg.models.embedder = String::new();
    assert_eq!(message(cfg.validate()), "model paths cannot be empty");

    let mut cfg = Config::default();
    cfg.camera.ir = Some(ir("/dev/video2"));
    cfg.camera.cross_check.enabled = true;
    assert!(message(cfg.validate()).starts_with("camera.cross_check.enabled is true but homography"));
}

#[test]
fn threshold_bounds_follow_f32_values() {
    for t in [0.0f32, -0.0, 0.5, 1.0, 0.999_999_9] {
        let mut cfg = Config::default();
        cfg.recognition.threshold = t.to_bits();
        assert!(cfg.validate().is_ok(), "{t} accepted");
    }
    for t in [1.000_000_1f32, -1e-30, f32::INFINITY, f32::NEG_INFINITY, 2.0] {
        let mut cfg = Config::default();
        cfg.recognition.threshold = t.to_bits();
        assert!(cfg.validate().is_err(), "{t} refused");
    }
}

#[test]
fn identity_test_matches_f32_tolerance() {
    let identity = [1.0f32, 0.0, 0.0, 0.0, 1.0, 0.0, 0.0, 0.0, 1.0];
    let mut h = identity.map(f32::to_bits);
    assert!(is_identity_homography(&h));
    // Compare against the f32 computation `(a - b).abs() < 1e-6` around each entry.
    for delta in [-20i32, -17, -16, -1, 0, 1, 8, 9, 20] {
        for idx in [0usize, 1] {
            let base = identity[idx].to_bits() as i64;
            let bits = (base + delta as i64).max(0) as u32;
            h[idx] = bits;
            let a = f32::from_bits(bits);
            let expected = (a - identity[idx]).abs() < 1e-6;
            let rest_ok = true;
            assert_eq!(is_identity_homography(&h), expected && rest_ok, "entry {idx} delta {delta}");
            h[idx] = identity[idx].to_bits();
        }
    }
    h[2] = f32::NAN.to_bits();
    assert!(!is_identity_homography(&h));
}

#[test]
fn ir_overrides_fall_back_to_rgb_derived_defaults() {
    let mut cam = ir("/dev/video2");
    assert_eq!(cam.effective_width(640), 640);
    assert_eq!(cam.effective_height(360), 360);
    assert_eq!(cam.effective_fps(30), 30);
    assert_eq!(cam.effective_timeout_ms(5000), 8000);
    assert_eq!(cam.effective_timeout_ms(9000), 9000);
    assert_eq!(cam.effective_warmup_frames(3), 10);
    assert_eq!(cam.effective_warmup_frames(12), 12);
    assert_eq!(cam.effective_min_face_size(80), 50);
    assert_eq!(cam.effective_min_face_size(u32::MAX), u32::MAX / 8);
    cam.width = Some(400);
    cam.min_face_size = Some(20);
    cam.timeout_ms = Some(100);
    assert_eq!(cam.effective_width(640), 400);
    assert_eq!(cam.effective_min_face_size(80), 20);
    assert_eq!(cam.effective_timeout_ms(5000), 100);
}
