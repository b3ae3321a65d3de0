use facegate::broker_admin::{broker_status_lines, health_lines, model_status, path_line, repair_action, repair_lines, RepairAction};
use facegate::calibrate::{
    apply_camera_calibration, apply_threshold, calibration_devices, calibration_ir_settings,
    camera_calibration_prompt, check_calibration, PairCollection, MAX_CONSECUTIVE_FAILURES,
};
use facegate::config::{CameraIrConfig, Config};
use facegate::confirm::{parse_yes_no, yes_no_suffix};
use facegate::doctor::{CameraKind, RecommendedCameras};
use facegate::forget::{forget_listing, forget_report};
use facegate::ipc::{AuditEvent, AuditOutcome, AuditReason, AuthScope as WireScope, EnrolledTemplateSummary, TemplateScope};
use facegate::setup::{broker_summary, camera_setup, use_both_cameras, use_rgb_camera, watch_summary, CameraSetup};
use facegate::status::{
    audit_lines, auth_lines, camera_lines, config_lines, models_lines, templates_lines,
    user_templates_line, watch_lines,
};
use facegate::storage::AuthScope;

fn summary(id: u32, label: &str, scope: TemplateScope) -> EnrolledTemplateSummary {
    EnrolledTemplateSummary {
        id,
        label: label.to_owned(),
        created_at: "2024-05-01 10:00:00".to_owned(),
        scope,
    }
}

fn ir(device: &str) -> CameraIrConfig {
    CameraIrConfig {
        device: device.to_owned(),
        width: Some(320),
        height: None,
        fps: None,
        timeout_ms: None,
        warmup_frames: Some(4),
        min_face_size: None,
    }
}

#[test]
fn yes_no_answers() {
    assert_eq!(parse_yes_no("  YES \n", false), Ok(true));
    assert_eq!(parse_yes_no("y", false), Ok(true));
    assert_eq!(parse_yes_no("No", true), Ok(false));
    assert_eq!(parse_yes_no("n\n", true), Ok(false));
    assert_eq!(parse_yes_no("\n", true), Ok(true));
    assert_eq!(parse_yes_no("", false), Ok(false));
    assert_eq!(parse_yes_no("maybe", true), Err("expected yes or no".to_owned()));
    assert_eq!(yes_no_suffix(true), "[Y/n]");
    assert_eq!(yes_no_suffix(false), "[y/N]");
}

#[test]
fn status_audit_block() {
    assert_eq!(audit_lines(&Ok(vec![])), vec!["Audit", "  recent : none"]);
    let events = vec![AuditEvent {
        timestamp_unix: 1700000000,
        username: "alice".to_owned(),
        auth_scope: WireScope::Session,
        outcome: AuditOutcome::Failure,
        reason: AuditReason::RateLimited,
    }];
    assert_eq!(
        audit_lines(&Ok(events)),
        vec![
            "Audit",
            "  recent :",
            "           - 1700000000 user=alice scope=session outcome=failure reason=rate_limited",
        ]
    );
    assert_eq!(
        audit_lines(&Err("broker down".to_owned())),
        vec!["Audit", "  recent : unavailable (broker down)"]
    );
}

#[test]
fn status_template_counts() {
    let templates = vec![
        summary(1, "desk", TemplateScope::Sudo),
        summary(2, "couch", TemplateScope::Both),
        summary(3, "night", TemplateScope::Session),
    ];
    assert_eq!(user_templates_line("bob", &Ok(templates.clone())), "  bob: 3 total (sudo: 2, session: 2)");
    assert_eq!(user_templates_line("bob", &Ok(vec![])), "  bob: none");
    assert_eq!(
        user_templates_line("bob", &Err("denied".to_owned())),
        "  bob: permission-limited (denied)"
    );
    let lines = templates_lines(false, &[("bob".to_owned(), Ok(templates))]);
    assert_eq!(
        lines,
        vec![
            "Templates",
            "  users  : permission-limited or none found",
            "  bob: 3 total (sudo: 2, session: 2)",
        ]
    );
    assert_eq!(templates_lines(true, &[]), vec!["Templates"]);
}

#[test]
fn status_config_camera_and_models_blocks() {
    let mut cfg = Config::default();
    let lines = config_lines("/etc/facegate/config.toml", &None, &cfg);
    assert_eq!(lines[2], "  parse  : ok");
    assert_eq!(lines[3], format!("  storage: {}", cfg.storage.base_dir));
    let lines = config_lines("/x.toml", &Some("bad key".to_owned()), &cfg);
    assert_eq!(lines[2], "  parse  : error (bad key)");

    let lines = camera_lines(&cfg, (true, Some(CameraKind::Rgb)), (false, None));
    assert_eq!(
        lines,
        vec![
            "Camera".to_owned(),
            format!("  rgb    : {}", cfg.camera.device),
            "           exists=yes kind=RGB".to_owned(),
            "  ir     : not configured".to_owned(),
            "  check  : single camera".to_owned(),
        ]
    );
    cfg.camera.ir = Some(ir("/dev/video2"));
    cfg.camera.cross_check.enabled = true;
    let lines = camera_lines(&cfg, (true, Some(CameraKind::Rgb)), (false, None));
    assert_eq!(lines[3], "  ir     : /dev/video2");
    assert_eq!(lines[4], "           exists=no kind=unknown");
    assert_eq!(lines[5], "  check  : RGB+IR required");

    let lines = models_lines(&cfg, true, false);
    assert_eq!(lines[1], format!("  detector: {} (present)", cfg.models.detector));
    assert_eq!(lines[2], format!("  embedder: {} (missing)", cfg.models.embedder));
}

#[test]
fn status_pam_and_watch_blocks() {
    assert_eq!(auth_lines(true, &[]), vec!["PAM", "  sudo  : enabled", "  session: disabled"]);
    let entries = vec![("GDM".to_owned(), "gdm-password".to_owned(), "/etc/pam.d/gdm-password".to_owned())];
    assert_eq!(
        auth_lines(false, &entries),
        vec![
            "PAM",
            "  sudo  : disabled",
            "  session: enabled",
            "           - GDM (gdm-password): /etc/pam.d/gdm-password",
        ]
    );
    assert_eq!(
        watch_lines(true, &Some(" enabled \n".to_owned()), &None),
        vec!["Watch daemon", "  unit   : installed", "  enabled: enabled", "  active : unavailable"]
    );
    assert_eq!(watch_lines(false, &None, &Some("inactive".to_owned()))[1], "  unit   : missing");
}

#[test]
fn forget_lists_then_reports() {
    assert_eq!(forget_listing("eve", &[]), vec!["No templates enrolled for 'eve'."]);
    let templates = vec![summary(7, "desk", TemplateScope::Sudo), summary(12, "a-very-long-label-here!", TemplateScope::Both)];
    assert_eq!(
        forget_listing("eve", &templates),
        vec![
            "This will permanently remove 2 template(s) for 'eve':",
            "  #7   desk                 scope=sudo created=2024-05-01 10:00:00",
            "  #12  a-very-long-label-here! scope=both created=2024-05-01 10:00:00",
        ]
    );
    let (out, err, fail) = forget_report("eve", 2, &[(7, Ok(())), (12, Err("locked".to_owned()))]);
    assert_eq!(out, "Removed 1/2 template(s) for 'eve'.");
    assert_eq!(err, vec!["  failed to remove template #12: locked"]);
    assert_eq!(fail, Some("1 template(s) failed to remove".to_owned()));
    let (out, err, fail) = forget_report("eve", 2, &[(7, Ok(())), (12, Ok(()))]);
    assert_eq!(out, "Removed 2/2 template(s) for 'eve'.");
    assert!(err.is_empty());
    assert_eq!(fail, None);
}

#[test]
fn threshold_calibration_requests() {
    let templates = vec![summary(1, "desk", TemplateScope::Sudo)];
    assert_eq!(check_calibration(0, &templates, AuthScope::Sudo, false), Err("--samples must be greater than zero".to_owned()));
    assert_eq!(check_calibration(0, &templates, AuthScope::Sudo, true), Err("samples must be greater than zero".to_owned()));
    assert_eq!(
        check_calibration(5, &templates, AuthScope::Session, false),
        Err("user has no enrolled templates for session".to_owned())
    );
    assert_eq!(check_calibration(5, &templates, AuthScope::Sudo, false), Ok(()));

    let mut cfg = Config::default();
    let before_session = cfg.recognition.session;
    apply_threshold(&mut cfg, AuthScope::Sudo, 0.62f32.to_bits());
    assert_eq!(cfg.recognition.sudo.threshold, Some(0.62f32.to_bits()));
    assert!(cfg.recognition.session == before_session);
}

#[test]
fn camera_calibration_devices_and_settings() {
    let mut cfg = Config::default();
    assert_eq!(calibration_devices(&cfg, None, None, 0), Err("--samples must be greater than zero".to_owned()));
    assert_eq!(
        calibration_devices(&cfg, None, None, 3),
        Err("IR device missing; pass --ir-device or set [camera.ir].device".to_owned())
    );
    assert_eq!(
        calibration_devices(&cfg, Some("/dev/video2"), Some("/dev/video2"), 3),
        Err("RGB and IR devices must be different".to_owned())
    );
    cfg.camera.ir = Some(ir("/dev/video2"));
    assert_eq!(
        calibration_devices(&cfg, None, None, 3),
        Ok((cfg.camera.device.clone(), "/dev/video2".to_owned()))
    );
    let (w, h, _fps, timeout, warmup) = calibration_ir_settings(&cfg);
    assert_eq!(w, 320);
    assert_eq!(h, cfg.camera.height);
    assert!(timeout >= 15000);
    assert_eq!(warmup, 4);
    cfg.camera.ir = None;
    cfg.camera.warmup_frames = 3;
    cfg.camera.timeout_ms = 20000;
    let (_, _, _, timeout, warmup) = calibration_ir_settings(&cfg);
    assert_eq!(timeout, 20000);
    assert_eq!(warmup, 10);
}

#[test]
fn pair_collection_paces_captures() {
    let mut p = PairCollection::new(2);
    assert!(!p.is_complete());
    assert_eq!(p.next_index(), 1);
    assert_eq!(p.skip("RGB", "detected no face"), "  skipped: RGB detected no face (1/12 before bail)");
    assert_eq!(p.accept(), "  accepted pair 1/2");
    assert_eq!(p.consecutive_failures, 0);
    for _ in 0..MAX_CONSECUTIVE_FAILURES {
        assert!(!p.gave_up());
        p.skip("IR", "detected 2 faces");
    }
    assert!(p.gave_up());
    assert_eq!(
        p.give_up_message(),
        "12 consecutive captures failed without a usable RGB+IR pair (got 1/2). Try better lighting, sit ~50 cm from the camera with your face centred, or lower `recognition.min_face_size` temporarily."
    );
}

#[test]
fn camera_calibration_is_written() {
    let mut cfg = Config::default();
    cfg.camera.ir = Some(ir("/dev/video4"));
    let h = [1.0f32.to_bits(), 0, 2.0f32.to_bits(), 0, 1.0f32.to_bits(), 0, 0, 0, 1.0f32.to_bits()];
    apply_camera_calibration(&mut cfg, "/dev/video0".to_owned(), "/dev/video2".to_owned(), h, true);
    let n = cfg.camera.ir.as_ref().expect("IR camera");
    assert_eq!(n.device, "/dev/video2");
    assert_eq!(n.width, Some(320));
    assert_eq!(n.warmup_frames, Some(4));
    assert_eq!(cfg.camera.cross_check.homography, h);
    assert!(cfg.camera.cross_check.enabled);
    assert_eq!(
        camera_calibration_prompt("/etc/facegate/config.toml", true),
        "Write RGB+IR calibration to /etc/facegate/config.toml and enable cross-check?"
    );
    assert_eq!(camera_calibration_prompt("/c.toml", false), "Write RGB+IR calibration to /c.toml?");
}

#[test]
fn setup_writes_cameras() {
    let cams = RecommendedCameras { rgb: Some("/dev/video0".to_owned()), ir: None };
    assert_eq!(camera_setup(&cams), CameraSetup::RgbOnly("/dev/video0".to_owned()));
    let cams = RecommendedCameras { rgb: None, ir: None };
    assert_eq!(camera_setup(&cams), CameraSetup::NoCamera);

    let mut cfg = Config::default();
    cfg.camera.ir = Some(ir("/dev/video4"));
    cfg.camera.cross_check.enabled = true;
    use_rgb_camera(&mut cfg, "/dev/video1".to_owned());
    assert_eq!(cfg.camera.device, "/dev/video1");
    assert!(cfg.camera.ir.is_none());
    assert!(!cfg.camera.cross_check.enabled);

    let mut cfg = Config::default();
    use_both_cameras(&mut cfg, "/dev/video0".to_owned(), "/dev/video2".to_owned(), true);
    assert_eq!(cfg.camera.ir.as_ref().map(|i| i.device.clone()), Some("/dev/video2".to_owned()));
    assert!(!cfg.camera.cross_check.enabled);
    use_both_cameras(&mut cfg, "/dev/video0".to_owned(), "/dev/video2".to_owned(), false);
    assert!(cfg.camera.ir.is_none());

    assert_eq!(broker_summary(true, false), "running, NOT enabled at boot");
    assert_eq!(watch_summary(true, false), "installed, not running");
    assert_eq!(watch_summary(false, true), "not installed");
}

#[test]
fn names_sort_in_str_order() {
    let v = vec!["bob".to_owned(), "alice".to_owned(), "Zed".to_owned(), "al".to_owned(), "bob".to_owned()];
    assert_eq!(facegate::text::sort_texts(v), vec!["Zed", "al", "alice", "bob", "bob"]);
    assert!(facegate::text::sort_texts(Vec::new()).is_empty());
}

#[test]
fn broker_repair_decisions_and_reports() {
    assert_eq!(repair_action(true, true, false, Some("alice")), RepairAction::RefuseSymlink);
    assert_eq!(repair_action(false, true, false, Some("alice")), RepairAction::Directory);
    assert_eq!(repair_action(false, false, true, Some("embeddings.json")), RepairAction::TemplateFile);
    assert_eq!(repair_action(false, false, true, Some("notes.txt")), RepairAction::Leave);
    assert_eq!(repair_action(false, false, true, None), RepairAction::Leave);
    assert_eq!(
        repair_lines("/var/lib/facegate/users", "/var/lib/facegate/audit.log"),
        vec![
            "Broker permissions repaired.",
            "  users: /var/lib/facegate/users owner=facegate:facegate mode=0700",
            "  audit: /var/lib/facegate/audit.log owner=facegate:facegate mode=0600",
        ]
    );
}

#[test]
fn broker_health_and_status_reports() {
    assert_eq!(model_status(true, "/m/det.onnx"), "present (/m/det.onnx)");
    assert_eq!(model_status(false, "/m/emb.onnx"), "missing (/m/emb.onnx)");
    assert_eq!(
        health_lines("/run/facegate/broker.sock", 1, "0.2.0", "present (a)", "missing (b)"),
        vec![
            "Broker health: ok",
            "  socket  : /run/facegate/broker.sock",
            "  protocol: 1",
            "  version : 0.2.0",
            "  detector: present (a)",
            "  embedder: missing (b)",
        ]
    );
    assert_eq!(
        path_line("users dir", "/var/lib/facegate/users", &Ok((0o40700, 990, 991))),
        "  users dir     : /var/lib/facegate/users mode=0700 uid=990 gid=991"
    );
    assert_eq!(
        path_line("socket", "/run/facegate/broker.sock", &Err("No such file or directory (os error 2)".to_owned())),
        "  socket        : unavailable (/run/facegate/broker.sock: No such file or directory (os error 2))"
    );
    let lines = broker_status_lines(
        true,
        false,
        "/run/facegate/broker.sock",
        &Ok((1, "0.2.0".to_owned())),
        "/var/lib/facegate/audit.log",
        &Ok(512),
        "/var/lib/facegate/users",
        &Ok((0o40700, 0, 0)),
        &Err("missing".to_owned()),
    );
    assert_eq!(
        lines,
        vec![
            "Broker",
            "  systemd active : yes",
            "  systemd enabled: no",
            "  socket         : ok (/run/facegate/broker.sock)",
            "  protocol       : 1",
            "  version        : 0.2.0",
            "  peers          : not exposed by IPC v3",
            "  audit log      : 512 bytes (/var/lib/facegate/audit.log)",
            "  users dir     : /var/lib/facegate/users mode=0700 uid=0 gid=0",
            "  socket        : unavailable (/run/facegate/broker.sock: missing)",
        ]
    );
    let lines = broker_status_lines(
        false,
        false,
        "/s",
        &Err("connection refused".to_owned()),
        "/a.log",
        &Err("denied".to_owned()),
        "/u",
        &Ok((0o600, 1, 2)),
        &Ok((0o755, 0, 0)),
    );
    assert_eq!(lines[3], "  socket         : unavailable (connection refused)");
    assert_eq!(lines[5], "  audit log      : unavailable (/a.log: denied)");
    assert_eq!(lines[6], "  users dir     : /u mode=0600 uid=1 gid=2");
}

#[test]
fn watch_toggle_reports() {
    assert_eq!(facegate::watch_toggle::toggle_verb(true), "enable");
    assert_eq!(facegate::watch_toggle::not_installed_lines().len(), 4);
    assert_eq!(
        facegate::watch_toggle::no_user_lines(false)[3],
        "  systemctl --user disable --now facegate-watch"
    );
    assert_eq!(
        facegate::watch_toggle::result_lines(true, "ann", true)[0],
        "Watch daemon enabled and started for 'ann'."
    );
    assert_eq!(
        facegate::watch_toggle::result_lines(true, "ann", false),
        vec![
            "Could not start the service automatically.",
            "",
            "Enable it manually as 'ann':",
            "  systemctl --user enable --now facegate-watch",
        ]
    );
    assert_eq!(
        facegate::watch_toggle::result_lines(false, "ann", true),
        vec!["Watch daemon disabled and stopped for 'ann'."]
    );
}

fn healthy_facts() -> facegate::doctor_report::DoctorFacts {
    facegate::doctor_report::DoctorFacts {
        config_exists: true,
        pam_module_found: true,
        distro: facegate::doctor::Distro::Arch,
        base_dir_exists: true,
        storage_safe: true,
        camera_exists: true,
        camera_kind: CameraKind::Ir,
        ir_exists: true,
        detector_present: true,
        detector_file_name: Some("face_detection_yunet_2023mar.onnx".to_owned()),
        embedder_present: true,
        embedder_file_name: Some("glintr100.onnx".to_owned()),
        detector_loads: true,
        embedder_loads: true,
        stale_users: Some(vec![]),
        ort_found: true,
        watch_unit_installed: true,
    }
}

#[test]
fn doctor_report_all_passing() {
    let cfg = Config::default();
    let lines = facegate::doctor_report::doctor_report(&cfg, &healthy_facts());
    assert_eq!(lines[0], "Facegate doctor\n");
    assert_eq!(lines[1], "  [✓] config file exists");
    assert_eq!(lines[5], format!("  [✓] camera device  ({})", cfg.camera.device));
    assert_eq!(lines[6], "        → IR camera detected (recommended)");
    assert_eq!(lines[7], format!("  [✓] detector model  ({})", cfg.models.detector));
    assert_eq!(lines[9], "  [✓] ONNX Runtime library");
    assert_eq!(lines[12], "  [✓] facegate-watch.service installed");
    assert_eq!(lines[13], "");
    assert_eq!(lines[14], "All checks passed.");
    assert_eq!(lines.len(), 15);
}

#[test]
fn doctor_report_with_failures_and_hints() {
    let mut cfg = Config::default();
    cfg.camera.cross_check.enabled = true;
    let mut facts = healthy_facts();
    facts.storage_safe = false;
    facts.camera_kind = CameraKind::Rgb;
    facts.detector_present = false;
    facts.detector_file_name = Some("scrfd_500m.onnx".to_owned());
    facts.embedder_present = false;
    facts.stale_users = Some(vec!["amy".to_owned(), "bo".to_owned()]);
    let lines = facegate::doctor_report::doctor_report(&cfg, &facts);
    let text = lines.join("\n");
    assert!(text.contains("  [✗] storage permissions are safe\n        → run: sudo chown -R facegate:facegate /var/lib/facegate/users && sudo chmod 700 /var/lib/facegate/users"));
    assert!(text.contains("  [✗] IR camera device (<missing>)\n        → set [camera.ir].device to the IR / GREY camera, or disable [camera.cross_check]"));
    assert!(text.contains("        → RGB webcam — works, but IR is more robust against photo spoofing. Run: facegate cameras"));
    assert!(text.contains("        → config still points at the v0.3.x detector."));
    assert!(text.contains("        → reinstall the package: sudo pacman -U facegate-*.pkg.tar.zst"));
    assert!(text.contains("WARNING: 2 user(s) have templates enrolled before the v0.4.0 embedder swap:\n           - amy\n           - bo\n         Re-enrol with"));
    assert!(!text.contains("detector model loads"));
    assert_eq!(lines[lines.len() - 1], "Some checks failed — see hints above.");
}

#[test]
fn enrollment_samples_and_labels() {
    assert_eq!(facegate::enroll::parse_sample_count("\n"), Ok(3));
    assert_eq!(facegate::enroll::parse_sample_count(" 7 "), Ok(7));
    assert_eq!(facegate::enroll::parse_sample_count("+2"), Ok(2));
    assert_eq!(
        facegate::enroll::parse_sample_count(" 11\n"),
        Err("invalid number of samples '11': expected 1-10".to_owned())
    );
    assert_eq!(
        facegate::enroll::parse_sample_count("0"),
        Err("invalid number of samples '0': expected 1-10".to_owned())
    );
    assert_eq!(
        facegate::enroll::parse_sample_count("three"),
        Err("invalid number of samples 'three': expected 1-10".to_owned())
    );
    assert_eq!(facegate::enroll::sample_label("desk", 1, 1), "desk");
    assert_eq!(facegate::enroll::sample_label("desk", 3, 2), "desk-2");
    assert_eq!(facegate::enroll::enroll_timeout_ms(5000), 15000);
    assert_eq!(facegate::enroll::enroll_timeout_ms(20000), 20000);
    assert_eq!(
        facegate::enroll::not_sudoer_warning("kim"),
        "Warning: 'kim' is not in wheel/sudo/admin group; only proceed if the user is explicitly granted sudo via /etc/sudoers."
    );
}
