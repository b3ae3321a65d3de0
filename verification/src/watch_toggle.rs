//! Switching the screen-lock watch daemon (a user service of the account that ran
//! `sudo`) on or off: what is run and what is reported. The binary runs `systemctl
//! --user` as that account.
use vstd::prelude::*;

use crate::text::{owned, string_push_str};

verus! {

/// The texts of a run of lines.
pub open spec fn lines_view(v: Seq<String>) -> Seq<Seq<char>> {
    v.map_values(|s: String| s@)
}

/// The `systemctl --user` verb that switches the daemon on or off.
pub open spec fn spec_verb(enable: bool) -> Seq<char> {
    if enable {
        "enable"@
    } else {
        "disable"@
    }
}

pub fn toggle_verb(enable: bool) -> (s: &'static str)
    ensures
        s@ == spec_verb(enable),
{
    if enable {
        "enable"
    } else {
        "disable"
    }
}

/// The command that switches the daemon, for the user to run by hand.
pub open spec fn spec_manual_command(enable: bool) -> Seq<char> {
    if enable {
        "  systemctl --user enable --now facegate-watch"@
    } else {
        "  systemctl --user disable --now facegate-watch"@
    }
}

fn manual_command(enable: bool) -> (s: String)
    ensures
        s@ == spec_manual_command(enable),
{
    if enable {
        owned("  systemctl --user enable --now facegate-watch")
    } else {
        owned("  systemctl --user disable --now facegate-watch")
    }
}

/// What is reported when the daemon's unit file is not installed.
pub open spec fn spec_not_installed_lines() -> Seq<Seq<char>> {
    seq![
        "Service unit not found at /usr/lib/systemd/user/facegate-watch.service."@,
        ""@,
        "Reinstall facegate from your distro's package, or run install-dev.sh"@,
        "from the source tree if you built from source."@,
    ]
}

pub fn not_installed_lines() -> (r: Vec<String>)
    ensures
        lines_view(r@) == spec_not_installed_lines(),
{
    let mut r: Vec<String> = Vec::new();
    r.push(owned("Service unit not found at /usr/lib/systemd/user/facegate-watch.service."));
    r.push(owned(""));
    r.push(owned("Reinstall facegate from your distro's package, or run install-dev.sh"));
    r.push(owned("from the source tree if you built from source."));
    assert(lines_view(r@) =~= spec_not_installed_lines());
    r
}

/// What is reported when no account ran `sudo` (or it was root), so the user service
/// cannot be reached.
pub open spec fn spec_no_user_lines(enable: bool) -> Seq<Seq<char>> {
    seq![
        "Cannot determine the real user (SUDO_USER not set)."@,
        ""@,
        "Run the toggle as your normal user:"@,
        spec_manual_command(enable),
    ]
}

pub fn no_user_lines(enable: bool) -> (r: Vec<String>)
    ensures
        lines_view(r@) == spec_no_user_lines(enable),
{
    let mut r: Vec<String> = Vec::new();
    r.push(owned("Cannot determine the real user (SUDO_USER not set)."));
    r.push(owned(""));
    r.push(owned("Run the toggle as your normal user:"));
    r.push(manual_command(enable));
    assert(lines_view(r@) =~= spec_no_user_lines(enable));
    r
}

/// What is reported once `systemctl --user` ran for `user`, by whether it succeeded.
pub open spec fn spec_result_lines(enable: bool, user: Seq<char>, ok: bool) -> Seq<Seq<char>> {
    if enable {
        if ok {
            seq![
                "Watch daemon enabled and started for '"@ + user + "'."@,
                ""@,
                "facegate-watch is running and will start automatically at"@,
                "every login. When the screen locks, face recognition starts"@,
                "immediately — no need to press Enter first."@,
            ]
        } else {
            seq![
                "Could not start the service automatically."@,
                ""@,
                "Enable it manually as '"@ + user + "':"@,
                spec_manual_command(true),
            ]
        }
    } else if ok {
        seq!["Watch daemon disabled and stopped for '"@ + user + "'."@]
    } else {
        seq![
            "Could not stop the service automatically."@,
            ""@,
            "Disable it manually as '"@ + user + "':"@,
            spec_manual_command(false),
        ]
    }
}

fn quoted(prefix: &str, user: &str, suffix: &str) -> (s: String)
    ensures
        s@ == prefix@ + user@ + suffix@,
{
    let mut s = owned(prefix);
    string_push_str(&mut s, user);
    string_push_str(&mut s, suffix);
    s
}

pub fn result_lines(enable: bool, user: &str, ok: bool) -> (r: Vec<String>)
    ensures
        lines_view(r@) == spec_result_lines(enable, user@, ok),
{
    let mut r: Vec<String> = Vec::new();
    if enable {
        if ok {
            r.push(quoted("Watch daemon enabled and started for '", user, "'."));
            r.push(owned(""));
            r.push(owned("facegate-watch is running and will start automatically at"));
            r.push(owned("every login. When the screen locks, face recognition starts"));
            r.push(owned("immediately — no need to press Enter first."));
        } else {
            r.push(owned("Could not start the service automatically."));
            r.push(owned(""));
            r.push(quoted("Enable it manually as '", user, "':"));
            r.push(manual_command(true));
        }
    } else if ok {
        r.push(quoted("Watch daemon disabled and stopped for '", user, "'."));
    } else {
        r.push(owned("Could not stop the service automatically."));
        r.push(owned(""));
        r.push(quoted("Disable it manually as '", user, "':"));
        r.push(manual_command(false));
    }
    assert(lines_view(r@) =~= spec_result_lines(enable, user@, ok));
    r
}

} // verus!
