use facegate::config::Config;
use facegate::configure::{build_sections, parse_bool, parse_optional_u32, parse_u32, sections_to_config, App, Focus, Mode};

fn floats(section: &facegate::configure::Section) -> Vec<Option<u32>> {
    section
        .fields
        .iter()
        .map(|f| f.value.trim().parse::<f32>().ok().map(f32::to_bits))
        .collect()
}

#[test]
fn sections_show_the_configuration() {
    let cfg = Config::default();
    let sections = build_sections(&cfg, &"0.55".to_owned(), &"40".to_owned());
    assert_eq!(sections.len(), 6);
    assert_eq!(sections[0].name, "Camera");
    assert_eq!(sections[0].fields[0].key, "device");
    assert_eq!(sections[0].fields[0].value, "/dev/video0");
    assert_eq!(sections[0].fields[1].value, "640");
    assert_eq!(sections[0].fields[6].value, "");
    assert_eq!(sections[0].fields[12].value, "false");
    assert_eq!(sections[0].fields[14].value, "40");
    assert_eq!(sections[1].fields[0].value, "0.55");
    assert_eq!(sections[4].fields[0].value, "info");
}

#[test]
fn unedited_sections_read_back_to_the_same_values() {
    let cfg = Config::default();
    let sections = build_sections(&cfg, &"0.55".to_owned(), &"40".to_owned());
    let back = sections_to_config(&sections, &cfg, &floats(&sections[0]), &floats(&sections[1]))
        .expect("reads back");
    assert_eq!(back.camera.device, cfg.camera.device);
    assert_eq!(back.camera.width, cfg.camera.width);
    assert_eq!(back.camera.timeout_ms, cfg.camera.timeout_ms);
    assert!(back.camera.ir.is_none());
    assert_eq!(back.recognition.threshold, cfg.recognition.threshold);
    assert_eq!(back.recognition.max_attempts, cfg.recognition.max_attempts);
    assert_eq!(
        back.camera.cross_check.max_position_offset_px,
        cfg.camera.cross_check.max_position_offset_px
    );
    assert_eq!(back.logging.level, "info");
    assert!(back.security.allow_password_fallback);
    assert!(back.validate().is_ok());
}

#[test]
fn edited_field_is_checked() {
    let cfg = Config::default();
    let mut sections = build_sections(&cfg, &"0.55".to_owned(), &"40".to_owned());
    sections[0].fields[1].value = "wide".to_owned();
    let err = sections_to_config(&sections, &cfg, &floats(&sections[0]), &floats(&sections[1]))
        .err()
        .expect("refused");
    assert!(err.contains("width"));
    assert!(err.contains("wide"));
}

#[test]
fn field_parsers() {
    assert_eq!(parse_u32(" 42 ", "width"), Ok(42));
    assert!(parse_u32("-1", "width").is_err());
    assert_eq!(parse_bool("true", "enabled"), Ok(true));
    assert_eq!(parse_bool("false", "enabled"), Ok(false));
    assert!(parse_bool("yes", "enabled").is_err());
    assert_eq!(parse_optional_u32("", "ir_width"), Ok(None));
    assert_eq!(parse_optional_u32("320", "ir_width"), Ok(Some(320)));
}

#[test]
fn editor_moves_and_edits() {
    let app_cfg = Config::default();
    let mut app = App::new(app_cfg, "/tmp/config.toml".to_owned(), &"0.55".to_owned(), &"40".to_owned());
    assert_eq!(app.focus, Focus::Sections);
    app.move_down();
    assert_eq!(app.selected_section, 1);
    app.move_up();
    app.move_up();
    assert_eq!(app.selected_section, 0);
    app.enter();
    assert_eq!(app.focus, Focus::Fields);
    app.move_down();
    assert_eq!(app.selected_field, 1);
    app.enter();
    assert_eq!(app.mode, Mode::Editing);
    assert_eq!(app.edit_buffer, "640");
    app.edit_buffer = "800".to_owned();
    app.confirm_edit();
    assert_eq!(app.mode, Mode::Normal);
    assert_eq!(app.sections[0].fields[1].value, "800");
    app.enter();
    app.edit_buffer.push('0');
    app.cancel_edit();
    assert_eq!(app.sections[0].fields[1].value, "800");
}

#[test]
fn unedited_sections_with_ir_camera_read_back() {
    let mut cfg = Config::default();
    cfg.camera.ir = Some(facegate::config::CameraIrConfig {
        device: "/dev/video2".to_owned(),
        width: Some(320),
        height: None,
        fps: Some(15),
        timeout_ms: Some(9000),
        warmup_frames: None,
        min_face_size: Some(40),
    });
    cfg.camera.cross_check.max_time_skew_ms = 150;
    cfg.camera.warmup_frames = 7;
    let threshold_text = format!("{}", f32::from_bits(cfg.recognition.threshold));
    let offset_text = format!("{}", f32::from_bits(cfg.camera.cross_check.max_position_offset_px));
    let sections = build_sections(&cfg, &threshold_text, &offset_text);
    assert_eq!(sections[0].fields[7].value, "320");
    assert_eq!(sections[0].fields[8].value, "");
    let back = sections_to_config(&sections, &cfg, &floats(&sections[0]), &floats(&sections[1]))
        .expect("reads back");
    let ir = back.camera.ir.expect("IR camera kept");
    assert_eq!(ir.device, "/dev/video2");
    assert_eq!(ir.width, Some(320));
    assert_eq!(ir.height, None);
    assert_eq!(ir.fps, Some(15));
    assert_eq!(ir.timeout_ms, Some(9000));
    assert_eq!(ir.warmup_frames, None);
    assert_eq!(ir.min_face_size, Some(40));
    assert_eq!(back.camera.cross_check.max_time_skew_ms, 150);
    assert_eq!(back.camera.warmup_frames, 7);
    assert_eq!(back.recognition.threshold, cfg.recognition.threshold);
}

#[test]
fn configure_view_shows_sections_and_fields() {
    let cfg = Config::default();
    let app = App::new(cfg, "/etc/facegate/config.toml".to_owned(), &"0.55".to_owned(), &"40".to_owned());
    let rows = facegate::configure_view::section_rows(&app);
    assert_eq!(rows[0].text, " ▶ Camera");
    assert_eq!(rows[0].tone, facegate::menu_view::Tone::Selected);
    assert_eq!(rows[1].text, "   Recognition");
    let fields = facegate::configure_view::field_rows(&app);
    assert_eq!(fields[0].key.text, format!("   {:<20}", "device"));
    assert_eq!(fields[0].key.tone, facegate::menu_view::Tone::Accent);
    assert_eq!(fields[0].value.tone, facegate::menu_view::Tone::Yellow);
    assert_eq!(fields[1].key.tone, facegate::menu_view::Tone::Muted);
    assert_eq!(facegate::configure_view::fields_title(&app), " Camera ");
    assert_eq!(
        facegate::configure_view::description_line(&app),
        "  Primary RGB camera device path (e.g. /dev/video0)"
    );
    let footer = facegate::configure_view::footer(&app);
    assert_eq!(footer.len(), 12);
    assert_eq!(footer[2].text, "[Tab]");
    let (title, _, input) = facegate::configure_view::edit_dialog(&app);
    assert_eq!(title, " Edit: device ");
    assert_eq!(input, " _");
}
