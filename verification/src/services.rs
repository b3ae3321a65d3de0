//! The Facegate services: how a refresh after a configuration change turns out, and
//! what the service toggles decide and report. Starting, stopping and querying the
//! services (systemd) and editing PAM files are done by the binaries, which hand the
//! outcomes to the functions here.
use vstd::prelude::*;

use crate::text::{owned, string_push_str};

verus! {

/// What happened to one service.
#[derive(Debug, Clone, Copy, PartialEq, Eq, Structural)]
pub enum RefreshState {
    Restarted,
    NotRunning,
    SystemdUnavailable,
    Failed,
}

/// What happened to the broker and the watch daemon.
#[derive(Debug, Clone, Copy, PartialEq, Eq, Structural)]
pub struct RefreshSummary {
    pub broker: RefreshState,
    pub watch: RefreshState,
}

/// Human wording of a refresh state.
pub open spec fn spec_refresh_label(s: RefreshState) -> Seq<char> {
    match s {
        RefreshState::Restarted => "restarted"@,
        RefreshState::NotRunning => "not running"@,
        RefreshState::SystemdUnavailable => "systemd unavailable"@,
        RefreshState::Failed => "failed"@,
    }
}

impl RefreshState {
    /// Human wording of the state.
    pub fn label(self) -> (s: &'static str)
        ensures
            s@ == spec_refresh_label(self),
    {
        match self {
            RefreshState::Restarted => "restarted",
            RefreshState::NotRunning => "not running",
            RefreshState::SystemdUnavailable => "systemd unavailable",
            RefreshState::Failed => "failed",
        }
    }
}

/// The restart action of the broker after a configuration change: `restart` when it
/// is running, else `start`.
pub fn broker_refresh_action(active: bool) -> (a: &'static str)
    ensures
        a@ == (if active {
            "restart"@
        } else {
            "start"@
        }),
{
    if active {
        "restart"
    } else {
        "start"
    }
}

/// How the broker's refresh turned out: systemd missing, or whether the systemctl call
/// succeeded.
pub fn broker_refresh_state(systemd: bool, command_ok: bool) -> (r: RefreshState)
    ensures
        r == (if !systemd {
            RefreshState::SystemdUnavailable
        } else if command_ok {
            RefreshState::Restarted
        } else {
            RefreshState::Failed
        }),
{
    if !systemd {
        RefreshState::SystemdUnavailable
    } else if command_ok {
        RefreshState::Restarted
    } else {
        RefreshState::Failed
    }
}

/// How the watch daemon's refresh turned out: it is only restarted when its unit is
/// installed, the invoking user is known and the daemon is running; then the restart
/// succeeded or failed.
pub fn restart_if_active(installed: bool, has_real_user: bool, active: bool, restart_ok: bool) -> (r:
    RefreshState)
    ensures
        r == (if !installed || !has_real_user || !active {
            RefreshState::NotRunning
        } else if restart_ok {
            RefreshState::Restarted
        } else {
            RefreshState::Failed
        }),
{
    if !installed || !has_real_user || !active {
        RefreshState::NotRunning
    } else if restart_ok {
        RefreshState::Restarted
    } else {
        RefreshState::Failed
    }
}

/// The user-log line recording a refresh.
pub open spec fn spec_refresh_log_line(s: RefreshSummary) -> Seq<char> {
    "services refresh_after_config_change broker="@ + spec_refresh_label(s.broker) + " watch="@
        + spec_refresh_label(s.watch)
}

/// The results of a refresh after a configuration change, and the user-log line that
/// records it.
pub fn refresh_after_config_change(broker: RefreshState, watch: RefreshState) -> (r: (
    RefreshSummary,
    String,
))
    ensures
        r.0 == (RefreshSummary { broker, watch }),
        r.1@ == spec_refresh_log_line(r.0),
{
    let mut line = owned("services refresh_after_config_change broker=");
    string_push_str(&mut line, broker.label());
    string_push_str(&mut line, " watch=");
    string_push_str(&mut line, watch.label());
    (RefreshSummary { broker, watch }, line)
}

/// The user whose watch daemon is managed: the one who invoked `sudo`, unless unset,
/// empty or root.
pub open spec fn spec_real_user(sudo_user: Option<Seq<char>>) -> Option<Seq<char>> {
    match sudo_user {
        Some(u) => if u.len() == 0 || u == "root"@ {
            None
        } else {
            Some(u)
        },
        None => None,
    }
}

/// The user whose watch daemon is managed, from `SUDO_USER`.
pub fn real_user(sudo_user: Option<&str>) -> (r: Option<String>)
    ensures
        match spec_real_user(
            match sudo_user {
                Some(u) => Some(u@),
                None => None,
            },
        ) {
            Some(u) => r matches Some(x) && x@ == u,
            None => r is None,
        },
{
    match sudo_user {
        Some(u) => {
            let cs = crate::text::chars_of(u);
            if cs.len() == 0 || crate::text::str_eq(u, "root") {
                None
            } else {
                Some(owned(u))
            }
        },
        None => None,
    }
}

/// A PAM-backed authentication is enabled when it has services and each one has the
/// Facegate line (`has_line[i]` for service `i`).
pub fn is_enabled(has_line: &[bool]) -> (r: bool)
    ensures
        r == (has_line@.len() > 0 && forall|i: int| 0 <= i < has_line@.len() ==> has_line@[i]),
{
    if has_line.len() == 0 {
        return false;
    }
    let mut i: usize = 0;
    while i < has_line.len()
        invariant
            i <= has_line@.len(),
            forall|j: int| 0 <= j < i ==> has_line@[j],
        decreases has_line@.len() - i,
    {
        if !has_line[i] {
            return false;
        }
        i += 1;
    }
    true
}

/// A toggle enables the authentication unless every service already has the line, so
/// that a partly enabled state is completed rather than undone.
pub fn toggle_enables(has_line: &[bool]) -> (r: bool)
    ensures
        r == !(forall|i: int| 0 <= i < has_line@.len() ==> has_line@[i]),
{
    let mut i: usize = 0;
    while i < has_line.len()
        invariant
            i <= has_line@.len(),
            forall|j: int| 0 <= j < i ==> has_line@[j],
        decreases has_line@.len() - i,
    {
        if !has_line[i] {
            return true;
        }
        i += 1;
    }
    false
}

} // verus!
