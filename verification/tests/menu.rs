use facegate::ipc::{EnrolledTemplateSummary, TemplateScope};
use facegate::menu::Action;
use facegate::menu_app::{InputMode, Key, MainMenu, MenuEffect, Panel};

fn type_text(menu: &mut MainMenu, text: &str) {
    for c in text.chars() {
        assert!(matches!(menu.handle_key(Key::Char(c)), MenuEffect::Nothing));
    }
}

#[test]
fn menu_opens_on_first_action() {
    let menu = MainMenu::new(false, false, false);
    assert_eq!(menu.selected, 1);
    assert_eq!(menu.items[menu.selected].label, "Enroll");
    assert_eq!(menu.items[2].label, "Enable Sudo Auth");
    assert_eq!(menu.input_mode, InputMode::Menu);
}

#[test]
fn cursor_skips_headers_and_wraps() {
    let mut menu = MainMenu::new(true, true, true);
    assert_eq!(menu.items[2].label, "Disable Sudo Auth");
    // Up from the first action wraps to Quit, past the "Exit" header.
    menu.handle_key(Key::Up);
    assert_eq!(menu.items[menu.selected].label, "Quit");
    // Down from Quit wraps to the first action, past the "Authentication" header.
    menu.handle_key(Key::Char('j'));
    assert_eq!(menu.items[menu.selected].label, "Enroll");
    for _ in 0..4 {
        menu.handle_key(Key::Down);
    }
    assert_eq!(menu.items[menu.selected].label, "Templates");
}

#[test]
fn enrollment_dialog_launches_with_chosen_targets_and_samples() {
    let mut menu = MainMenu::new(false, false, false);
    assert!(matches!(menu.handle_key(Key::Enter), MenuEffect::Nothing));
    assert_eq!(menu.input_mode, InputMode::UsernameInput);
    type_text(&mut menu, "  alicex");
    menu.handle_key(Key::Backspace);
    menu.handle_key(Key::Enter);
    assert_eq!(menu.input_mode, InputMode::EnrollTargetSelect);
    assert_eq!(menu.pending_username.as_deref(), Some("alice"));
    // Sudo is checked by default; check session too.
    menu.handle_key(Key::Down);
    menu.handle_key(Key::Char(' '));
    assert!(menu.enroll_sudo && menu.enroll_session);
    menu.handle_key(Key::Enter);
    assert_eq!(menu.input_mode, InputMode::SampleCountInput);
    assert_eq!(menu.sample_count_buf, "3");
    menu.handle_key(Key::Backspace);
    type_text(&mut menu, "5");
    // Letters are not accepted in the sample count.
    menu.handle_key(Key::Char('x'));
    assert_eq!(menu.sample_count_buf, "5");
    match menu.handle_key(Key::Enter) {
        MenuEffect::Launch { action, username, samples, pam_service } => {
            assert_eq!(action, Action::AddBoth);
            assert_eq!(username.as_deref(), Some("alice"));
            assert_eq!(samples, 5);
            assert!(pam_service.is_none());
        }
        _ => panic!("expected a launch"),
    }
    assert_eq!(menu.input_mode, InputMode::Menu);
    assert!(matches!(menu.panel, Panel::Running));
}

#[test]
fn invalid_sample_count_is_ignored() {
    let mut menu = MainMenu::new(false, false, false);
    menu.handle_key(Key::Enter);
    type_text(&mut menu, "bob");
    menu.handle_key(Key::Enter);
    menu.handle_key(Key::Enter);
    menu.handle_key(Key::Backspace);
    type_text(&mut menu, "11");
    assert!(matches!(menu.handle_key(Key::Enter), MenuEffect::Nothing));
    assert_eq!(menu.input_mode, InputMode::SampleCountInput);
}

#[test]
fn no_target_keeps_the_dialog_open() {
    let mut menu = MainMenu::new(false, false, false);
    menu.handle_key(Key::Enter);
    type_text(&mut menu, "bob");
    menu.handle_key(Key::Enter);
    // Cursor on "sudo": uncheck it, nothing is checked any more.
    menu.handle_key(Key::Char(' '));
    assert!(!menu.enroll_sudo && !menu.enroll_session);
    menu.handle_key(Key::Enter);
    assert_eq!(menu.input_mode, InputMode::EnrollTargetSelect);
}

#[test]
fn running_command_ignores_keys_and_done_output_scrolls() {
    let mut menu = MainMenu::new(false, false, false);
    // Move to "List Cameras" and run it.
    for _ in 0..6 {
        menu.handle_key(Key::Down);
    }
    assert_eq!(menu.items[menu.selected].label, "List Cameras");
    match menu.handle_key(Key::Enter) {
        MenuEffect::Launch { action, username, samples, .. } => {
            assert_eq!(action, Action::Cameras);
            assert!(username.is_none());
            assert_eq!(samples, 1);
        }
        _ => panic!("expected a launch"),
    }
    assert!(matches!(menu.handle_key(Key::Char('q')), MenuEffect::Nothing));
    assert!(!menu.should_quit);
    menu.finish_running(vec!["scanning".to_owned(), "\nError: no cameras".to_owned()]);
    match &menu.panel {
        Panel::Done { lines, scroll, had_error } => {
            assert_eq!(lines.len(), 2);
            assert_eq!(*scroll, 0);
            assert!(*had_error);
        }
        _ => panic!("expected finished output"),
    }
    menu.handle_key(Key::PageDown);
    menu.handle_key(Key::Up);
    match &menu.panel {
        Panel::Done { scroll, .. } => assert_eq!(*scroll, 9),
        _ => panic!("expected finished output"),
    }
    menu.handle_key(Key::PageUp);
    match &menu.panel {
        Panel::Done { scroll, .. } => assert_eq!(*scroll, 0),
        _ => panic!("expected finished output"),
    }
    assert!(matches!(menu.handle_key(Key::Enter), MenuEffect::RefreshStatus));
    menu.return_to_menu(true, false, true);
    assert!(matches!(menu.panel, Panel::Idle));
    assert_eq!(menu.items[2].label, "Disable Sudo Auth");
    assert_eq!(menu.items[4].label, "Stop Watch Daemon");
    assert_eq!(menu.items[menu.selected].label, "List Cameras");
}

#[test]
fn template_list_deletes_marked_highest_first() {
    let mut menu = MainMenu::new(false, false, false);
    for _ in 0..4 {
        menu.handle_key(Key::Down);
    }
    assert_eq!(menu.items[menu.selected].label, "Templates");
    menu.handle_key(Key::Enter);
    type_text(&mut menu, "carol");
    match menu.handle_key(Key::Enter) {
        MenuEffect::LoadTemplates { username } => assert_eq!(username, "carol"),
        _ => panic!("expected template loading"),
    }
    let summary = |id: u32| EnrolledTemplateSummary {
        id,
        label: format!("t{id}"),
        created_at: "2026-05-11T00:00:00Z".to_owned(),
        scope: TemplateScope::Both,
    };
    menu.show_templates("carol".to_owned(), Ok(vec![summary(1), summary(4), summary(7)]));
    assert_eq!(menu.input_mode, InputMode::TemplateList);
    assert_eq!(menu.template_entries[0].scope, "both");
    menu.handle_key(Key::Char(' '));
    menu.handle_key(Key::Down);
    menu.handle_key(Key::Down);
    menu.handle_key(Key::Char('d'));
    match menu.handle_key(Key::Enter) {
        MenuEffect::RemoveTemplates { username, ids } => {
            assert_eq!(username, "carol");
            assert_eq!(ids, vec![7, 1]);
        }
        _ => panic!("expected removal"),
    }
    assert!(menu.template_entries.is_empty());
}

#[test]
fn empty_template_list_reports_it() {
    let mut menu = MainMenu::new(false, false, false);
    menu.show_templates("dave".to_owned(), Ok(vec![]));
    match &menu.panel {
        Panel::Done { lines, had_error, .. } => {
            assert_eq!(lines, &vec!["No enrolled templates for 'dave'.".to_owned()]);
            assert!(!had_error);
        }
        _ => panic!("expected a message"),
    }
}

#[test]
fn session_toggle_asks_for_services_to_disable() {
    let mut menu = MainMenu::new(false, true, false);
    menu.handle_key(Key::Down);
    menu.handle_key(Key::Down);
    assert_eq!(menu.items[menu.selected].label, "Disable Session Auth");
    assert!(matches!(menu.handle_key(Key::Enter), MenuEffect::LoadSessionServices));
    menu.show_session_entries(vec![
        ("GDM".to_owned(), "gdm-password".to_owned(), "/etc/pam.d/gdm-password".to_owned()),
        ("Login".to_owned(), "login".to_owned(), "/etc/pam.d/login".to_owned()),
    ]);
    assert_eq!(menu.input_mode, InputMode::SessionServiceSelect);
    menu.handle_key(Key::Down);
    menu.handle_key(Key::Char(' '));
    match menu.handle_key(Key::Enter) {
        MenuEffect::DisableServices { entries } => {
            assert_eq!(entries.len(), 1);
            assert_eq!(entries[0].service, "login");
        }
        _ => panic!("expected services to disable"),
    }
}

#[test]
fn session_enable_asks_for_extra_pam_service() {
    let mut menu = MainMenu::new(false, false, false);
    menu.handle_key(Key::Down);
    menu.handle_key(Key::Down);
    menu.handle_key(Key::Enter);
    assert_eq!(menu.input_mode, InputMode::PamServiceInput);
    type_text(&mut menu, " lightdm ");
    match menu.handle_key(Key::Enter) {
        MenuEffect::Launch { action, pam_service, .. } => {
            assert_eq!(action, Action::SessionToggle);
            assert_eq!(pam_service.as_deref(), Some("lightdm"));
        }
        _ => panic!("expected a launch"),
    }
}

#[test]
fn escape_cancels_dialogs_and_quits_menu() {
    let mut menu = MainMenu::new(false, false, false);
    menu.handle_key(Key::Enter);
    type_text(&mut menu, "eve");
    menu.handle_key(Key::Esc);
    assert_eq!(menu.input_mode, InputMode::Menu);
    assert!(menu.username_buf.is_empty());
    assert!(menu.pending.is_none());
    menu.handle_key(Key::Esc);
    assert!(menu.should_quit);
}

#[test]
fn configure_entry_opens_the_editor() {
    let mut menu = MainMenu::new(false, false, false);
    for _ in 0..2 {
        menu.handle_key(Key::Up);
    }
    assert_eq!(menu.items[menu.selected].label, "Configure");
    menu.handle_key(Key::Enter);
    assert!(menu.open_config);
}

#[test]
fn menu_view_shows_menu_and_panel() {
    let menu = MainMenu::new(false, false, false);
    let rows = facegate::menu_view::menu_rows(&menu);
    assert_eq!(rows.len(), menu.items.len());
    assert_eq!(rows[0].lead.text, "  ─── Authentication ───");
    let view = facegate::menu_view::panel(&menu, &[], 3);
    assert_eq!(view.title, " Info ");
    assert_eq!(view.lines.len(), 4);
    assert_eq!(view.lines[1].text, format!("  {}{}", menu.items[menu.selected].icon, menu.items[menu.selected].label));
    assert_eq!(facegate::menu_view::footer_hints(&menu)[1].text, " navigate   ");
    assert_eq!(facegate::menu_view::list_popup_height(0, 7, 40), 8);
    assert_eq!(facegate::menu_view::list_popup_height(50, 7, 40), 36);
    assert_eq!(facegate::menu_view::list_popup_height(3, 6, 2), 0);
}

#[test]
fn menu_view_lists_templates_and_services() {
    let mut menu = MainMenu::new(false, true, false);
    let summary = |id: u32, created: &str| EnrolledTemplateSummary {
        id,
        label: format!("t{id}"),
        created_at: created.to_owned(),
        scope: TemplateScope::Sudo,
    };
    menu.show_templates(
        "erin".to_owned(),
        Ok(vec![summary(3, "2024-05-01 10:00:00"), summary(12, "2024-05-01 1\u{e9}:00:00"), summary(5, "today")]),
    );
    let rows = facegate::menu_view::template_rows(&menu);
    assert_eq!(rows[0].lead.text, " ▶ [ ] ");
    assert_eq!(rows[0].body.text, "3     sudo     2024-05-01 10:00     t3");
    assert_eq!(rows[1].lead.text, "   [ ] ");
    assert_eq!(rows[1].body.text, "12    sudo     2024-05-01 1\u{e9}:0      t12");
    assert_eq!(rows[2].body.text, "5     sudo     today                t5");
    assert_eq!(facegate::menu_view::template_title(&menu), " Templates — erin ");
    menu.handle_key(Key::Char('d'));
    let rows = facegate::menu_view::template_rows(&menu);
    assert_eq!(rows[0].lead.text, " ▶ [x] ");
    assert_eq!(rows[0].lead.tone, facegate::menu_view::Tone::RedBold);

    let mut menu = MainMenu::new(false, true, false);
    menu.show_session_entries(vec![(
        "GDM".to_owned(),
        "gdm-password".to_owned(),
        "/etc/pam.d/gdm-password".to_owned(),
    )]);
    let rows = facegate::menu_view::session_rows(&menu);
    assert_eq!(rows[0].lead.text, " ▶ [x] ");
    assert_eq!(rows[0].body.text, format!("{:<24}", "GDM"));
    assert_eq!(rows[0].tail.as_ref().map(|p| p.text.clone()), Some("/etc/pam.d/gdm-password".to_owned()));
}
