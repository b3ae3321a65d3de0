use facegate::doctor::{distro_of, Distro};
use facegate::ipc::{OwnershipSummary, TemplateScope};
use facegate::pam_edit::{session_services, sudo_pam_files};
use facegate::services::{
    broker_refresh_state, is_enabled, real_user, refresh_after_config_change, toggle_enables,
    RefreshState,
};
use facegate::users::{ownership_label, scopes_label};

#[test]
fn user_table_labels() {
    assert_eq!(scopes_label(&[]), "-");
    assert_eq!(scopes_label(&[TemplateScope::Sudo, TemplateScope::Both]), "sudo,both");
    assert_eq!(ownership_label(Some(&OwnershipSummary { mode: 0o600, ok: true })), "600:ok");
    assert_eq!(ownership_label(Some(&OwnershipSummary { mode: 0o644, ok: false })), "644:fix");
    assert_eq!(ownership_label(None), "missing");
}

#[test]
fn distribution_families() {
    assert_eq!(distro_of("NAME=\"Ubuntu\"\nID=ubuntu\nID_LIKE=debian\n"), Distro::Debian);
    assert_eq!(distro_of("ID=arch\n"), Distro::Arch);
    assert_eq!(distro_of("ID=\"fedora\"\n"), Distro::Fedora);
    assert_eq!(distro_of("ID=gentoo\n"), Distro::Other);
}

#[test]
fn toggles_complete_a_partial_state() {
    assert!(!is_enabled(&[]));
    assert!(is_enabled(&[true, true]));
    assert!(!is_enabled(&[true, false]));
    assert!(toggle_enables(&[true, false]));
    assert!(!toggle_enables(&[true, true]));
}

#[test]
fn service_refresh_is_reported() {
    let broker = broker_refresh_state(true, true);
    let watch = broker_refresh_state(false, true);
    assert_eq!(broker, RefreshState::Restarted);
    assert_eq!(watch, RefreshState::SystemdUnavailable);
    let (summary, line) = refresh_after_config_change(broker, watch);
    assert_eq!(summary.broker.label(), "restarted");
    assert_eq!(
        line,
        "services refresh_after_config_change broker=restarted watch=systemd unavailable"
    );
    assert_eq!(real_user(Some("root")), None);
    assert_eq!(real_user(Some("alice")).as_deref(), Some("alice"));
}

#[test]
fn supported_pam_services() {
    let services = session_services();
    assert_eq!(services.len(), 13);
    assert_eq!(services[1], ("GDM", "gdm-password"));
    assert_eq!(sudo_pam_files(), vec!["/etc/pam.d/sudo", "/etc/pam.d/sudo-i"]);
}
