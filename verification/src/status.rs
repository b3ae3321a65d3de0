//! The installation summary printed by `facegate status`: the lines of each of its
//! blocks, from what the binary found on the system (files present, cameras probed,
//! broker replies, service states).
use vstd::prelude::*;

use crate::broker_client::summary_allows;
use crate::config::Config;
use crate::doctor::CameraKind;
use crate::ipc::{AuditEvent, AuditOutcome, AuditReason, EnrolledTemplateSummary};
use crate::storage::{self, AuthScope};
use crate::text::{chars_of, decimal, owned, push_chars, push_decimal, string_push_str, trim, trim_chars};

verus! {

/// The texts of a run of lines.
pub open spec fn lines_view(v: Seq<String>) -> Seq<Seq<char>> {
    v.map_values(|s: String| s@)
}

fn copy_text(s: &String) -> (r: String)
    ensures
        r@ == s@,
{
    owned(s.as_str())
}

fn push_line(lines: &mut Vec<String>, s: String)
    ensures
        lines_view(final(lines)@) == lines_view(old(lines)@).push(s@),
{
    lines.push(s);
    assert(lines_view(lines@) =~= lines_view(old(lines)@).push(s@));
}

fn line_of(t: &str) -> (r: String)
    ensures
        r@ == t@,
{
    owned(t)
}

fn line_of2(a: &str, b: &str) -> (r: String)
    ensures
        r@ == a@ + b@,
{
    let mut r = owned(a);
    string_push_str(&mut r, b);
    r
}

fn line_of3(a: &str, b: &str, c: &str) -> (r: String)
    ensures
        r@ == a@ + b@ + c@,
{
    let mut r = owned(a);
    string_push_str(&mut r, b);
    string_push_str(&mut r, c);
    r
}

// ── Labels ───────────────────────────────────────────────────────────────────

/// The scope of an audited request as the summary names it.
pub open spec fn spec_audit_scope_label(s: crate::ipc::AuthScope) -> Seq<char> {
    match s {
        crate::ipc::AuthScope::Sudo => "sudo"@,
        crate::ipc::AuthScope::Session => "session"@,
    }
}

pub fn audit_scope_label(s: crate::ipc::AuthScope) -> (r: &'static str)
    ensures
        r@ == spec_audit_scope_label(s),
{
    match s {
        crate::ipc::AuthScope::Sudo => "sudo",
        crate::ipc::AuthScope::Session => "session",
    }
}

/// The outcome of an audited request as the summary names it.
pub open spec fn spec_audit_outcome_label(o: AuditOutcome) -> Seq<char> {
    match o {
        AuditOutcome::Success => "success"@,
        AuditOutcome::Failure => "failure"@,
    }
}

pub fn audit_outcome_label(o: AuditOutcome) -> (r: &'static str)
    ensures
        r@ == spec_audit_outcome_label(o),
{
    match o {
        AuditOutcome::Success => "success",
        AuditOutcome::Failure => "failure",
    }
}

/// The reason of an audited request as the summary names it.
pub open spec fn spec_audit_reason_label(r: AuditReason) -> Seq<char> {
    match r {
        AuditReason::Matched => "matched"@,
        AuditReason::Mismatch => "mismatch"@,
        AuditReason::NotEnrolled => "not_enrolled"@,
        AuditReason::RateLimited => "rate_limited"@,
        AuditReason::LockedOut => "locked_out"@,
        AuditReason::Unauthorized => "unauthorized"@,
        AuditReason::Internal => "internal"@,
    }
}

pub fn audit_reason_label(r: AuditReason) -> (s: &'static str)
    ensures
        s@ == spec_audit_reason_label(r),
{
    match r {
        AuditReason::Matched => "matched",
        AuditReason::Mismatch => "mismatch",
        AuditReason::NotEnrolled => "not_enrolled",
        AuditReason::RateLimited => "rate_limited",
        AuditReason::LockedOut => "locked_out",
        AuditReason::Unauthorized => "unauthorized",
        AuditReason::Internal => "internal",
    }
}

/// `yes` or `no`.
pub open spec fn spec_yes_no(b: bool) -> Seq<char> {
    if b {
        "yes"@
    } else {
        "no"@
    }
}

pub fn yes_no(b: bool) -> (s: &'static str)
    ensures
        s@ == spec_yes_no(b),
{
    if b {
        "yes"
    } else {
        "no"
    }
}

/// `enabled` or `disabled`.
pub open spec fn spec_enabled_label(b: bool) -> Seq<char> {
    if b {
        "enabled"@
    } else {
        "disabled"@
    }
}

pub fn enabled_label(b: bool) -> (s: &'static str)
    ensures
        s@ == spec_enabled_label(b),
{
    if b {
        "enabled"
    } else {
        "disabled"
    }
}

/// `present` or `missing`, for a file.
pub open spec fn spec_exists_label(b: bool) -> Seq<char> {
    if b {
        "present"@
    } else {
        "missing"@
    }
}

pub fn exists_label(b: bool) -> (s: &'static str)
    ensures
        s@ == spec_exists_label(b),
{
    if b {
        "present"
    } else {
        "missing"
    }
}

/// The kind of a camera as the summary names it; `None` when its formats could not
/// be read.
pub open spec fn spec_kind_label(k: Option<CameraKind>) -> Seq<char> {
    match k {
        Some(CameraKind::Ir) => "IR"@,
        Some(CameraKind::Rgb) => "RGB"@,
        _ => "unknown"@,
    }
}

pub fn kind_label(k: Option<CameraKind>) -> (s: &'static str)
    ensures
        s@ == spec_kind_label(k),
{
    match k {
        Some(CameraKind::Ir) => "IR",
        Some(CameraKind::Rgb) => "RGB",
        _ => "unknown",
    }
}

// ── Audit ────────────────────────────────────────────────────────────────────

/// One recent audit event.
pub open spec fn spec_event_line(e: AuditEvent) -> Seq<char> {
    "           - "@ + decimal(e.timestamp_unix as nat) + " user="@ + e.username@ + " scope="@
        + spec_audit_scope_label(e.auth_scope) + " outcome="@ + spec_audit_outcome_label(e.outcome)
        + " reason="@ + spec_audit_reason_label(e.reason)
}

pub fn event_line(e: &AuditEvent) -> (s: String)
    ensures
        s@ == spec_event_line(*e),
{
    let mut s = owned("           - ");
    push_decimal(&mut s, e.timestamp_unix);
    string_push_str(&mut s, " user=");
    string_push_str(&mut s, e.username.as_str());
    string_push_str(&mut s, " scope=");
    string_push_str(&mut s, audit_scope_label(e.auth_scope));
    string_push_str(&mut s, " outcome=");
    string_push_str(&mut s, audit_outcome_label(e.outcome));
    string_push_str(&mut s, " reason=");
    string_push_str(&mut s, audit_reason_label(e.reason));
    s
}

/// The `Audit` block, from the broker's reply for the recent events (or the reason
/// it gave none).
pub open spec fn spec_audit_lines(recent: Result<Seq<AuditEvent>, Seq<char>>) -> Seq<Seq<char>> {
    match recent {
        Ok(es) => if es.len() == 0 {
            seq!["Audit"@, "  recent : none"@]
        } else {
            seq!["Audit"@, "  recent :"@] + es.map_values(|e: AuditEvent| spec_event_line(e))
        },
        Err(m) => seq!["Audit"@, "  recent : unavailable ("@ + m + ")"@],
    }
}

pub fn audit_lines(recent: &Result<Vec<AuditEvent>, String>) -> (r: Vec<String>)
    ensures
        lines_view(r@) == spec_audit_lines(match recent {
            Ok(es) => Ok(es@),
            Err(m) => Err(m@),
        }),
{
    let mut r: Vec<String> = Vec::new();
    push_line(&mut r, line_of("Audit"));
    match recent {
        Ok(es) => {
            if es.len() == 0 {
                push_line(&mut r, line_of("  recent : none"));
            } else {
                push_line(&mut r, line_of("  recent :"));
                let ghost head = lines_view(r@);
                let mut i: usize = 0;
                while i < es.len()
                    invariant
                        i <= es@.len(),
                        lines_view(r@) == head + es@.take(i as int).map_values(|e: AuditEvent| spec_event_line(e)),
                    decreases es@.len() - i,
                {
                    let l = event_line(&es[i]);
                    push_line(&mut r, l);
                    assert(es@.take(i + 1).map_values(|e: AuditEvent| spec_event_line(e))
                        =~= es@.take(i as int).map_values(|e: AuditEvent| spec_event_line(e)).push(spec_event_line(es@[i as int])));
                    i += 1;
                }
                assert(es@.take(es@.len() as int) =~= es@);
            }
        },
        Err(m) => {
            push_line(&mut r, line_of3("  recent : unavailable (", m.as_str(), ")"));
        },
    }
    r
}

// ── Templates ────────────────────────────────────────────────────────────────

/// How many of the listed templates may be used for an authentication of `scope`.
pub open spec fn spec_count_allowing(ts: Seq<EnrolledTemplateSummary>, scope: AuthScope) -> nat
    decreases ts.len(),
{
    if ts.len() == 0 {
        0
    } else {
        spec_count_allowing(ts.drop_last(), scope) + if storage::spec_allows(
            storage::spec_core_template_scope(ts.last().scope),
            scope,
        ) {
            1nat
        } else {
            0nat
        }
    }
}

/// Counts the listed templates usable for `scope`.
pub fn count_allowing(ts: &Vec<EnrolledTemplateSummary>, scope: AuthScope) -> (n: usize)
    ensures
        n == spec_count_allowing(ts@, scope),
{
    let mut n: usize = 0;
    let mut i: usize = 0;
    while i < ts.len()
        invariant
            i <= ts@.len(),
            n == spec_count_allowing(ts@.take(i as int), scope),
            n <= i,
        decreases ts@.len() - i,
    {
        assert(ts@.take(i + 1).drop_last() =~= ts@.take(i as int));
        assert(ts@.take(i + 1).last() == ts@[i as int]);
        if summary_allows(&ts[i], scope) {
            n += 1;
        }
        i += 1;
    }
    assert(ts@.take(ts@.len() as int) =~= ts@);
    n
}

/// A user's line of the `Templates` block, from the broker's listing (or the reason it
/// gave none).
pub open spec fn spec_user_templates_line(username: Seq<char>, listing: Result<Seq<EnrolledTemplateSummary>, Seq<char>>) -> Seq<char> {
    match listing {
        Ok(ts) => if ts.len() == 0 {
            "  "@ + username + ": none"@
        } else {
            "  "@ + username + ": "@ + decimal(ts.len()) + " total (sudo: "@ + decimal(
                spec_count_allowing(ts, AuthScope::Sudo),
            ) + ", session: "@ + decimal(spec_count_allowing(ts, AuthScope::Session)) + ")"@
        },
        Err(m) => "  "@ + username + ": permission-limited ("@ + m + ")"@,
    }
}

pub fn user_templates_line(username: &str, listing: &Result<Vec<EnrolledTemplateSummary>, String>) -> (s: String)
    ensures
        s@ == spec_user_templates_line(username@, match listing {
            Ok(ts) => Ok(ts@),
            Err(m) => Err(m@),
        }),
{
    let mut s = owned("  ");
    string_push_str(&mut s, username);
    match listing {
        Ok(ts) => {
            if ts.len() == 0 {
                string_push_str(&mut s, ": none");
            } else {
                let sudo = count_allowing(ts, AuthScope::Sudo);
                let session = count_allowing(ts, AuthScope::Session);
                string_push_str(&mut s, ": ");
                push_decimal(&mut s, ts.len() as u64);
                string_push_str(&mut s, " total (sudo: ");
                push_decimal(&mut s, sudo as u64);
                string_push_str(&mut s, ", session: ");
                push_decimal(&mut s, session as u64);
                string_push_str(&mut s, ")");
            }
        },
        Err(m) => {
            string_push_str(&mut s, ": permission-limited (");
            string_push_str(&mut s, m.as_str());
            string_push_str(&mut s, ")");
        },
    }
    s
}

/// The `Templates` block: a note when no user directory could be listed, then one
/// line per user whose templates were asked for.
pub open spec fn spec_templates_lines(users_found: bool, listings: Seq<(Seq<char>, Result<Seq<EnrolledTemplateSummary>, Seq<char>>)>) -> Seq<Seq<char>> {
    seq!["Templates"@] + (if users_found {
        Seq::<Seq<char>>::empty()
    } else {
        seq!["  users  : permission-limited or none found"@]
    }) + listings.map_values(|l: (Seq<char>, Result<Seq<EnrolledTemplateSummary>, Seq<char>>)| spec_user_templates_line(l.0, l.1))
}

/// A user and the broker's listing of their templates, as views.
pub open spec fn listing_view(l: (String, Result<Vec<EnrolledTemplateSummary>, String>)) -> (Seq<char>, Result<Seq<EnrolledTemplateSummary>, Seq<char>>) {
    (l.0@, match l.1 {
        Ok(ts) => Ok(ts@),
        Err(m) => Err(m@),
    })
}

pub fn templates_lines(users_found: bool, listings: &[(String, Result<Vec<EnrolledTemplateSummary>, String>)]) -> (r: Vec<String>)
    ensures
        lines_view(r@) == spec_templates_lines(users_found, listings@.map_values(|l: (String, Result<Vec<EnrolledTemplateSummary>, String>)| listing_view(l))),
{
    let ghost ls = listings@.map_values(|l: (String, Result<Vec<EnrolledTemplateSummary>, String>)| listing_view(l));
    let mut r: Vec<String> = Vec::new();
    push_line(&mut r, line_of("Templates"));
    if !users_found {
        push_line(&mut r, line_of("  users  : permission-limited or none found"));
    }
    let ghost head = lines_view(r@);
    let mut i: usize = 0;
    while i < listings.len()
        invariant
            i <= listings@.len(),
            ls == listings@.map_values(|l: (String, Result<Vec<EnrolledTemplateSummary>, String>)| listing_view(l)),
            lines_view(r@) == head + ls.take(i as int).map_values(|l: (Seq<char>, Result<Seq<EnrolledTemplateSummary>, Seq<char>>)| spec_user_templates_line(l.0, l.1)),
        decreases listings@.len() - i,
    {
        let l = user_templates_line(listings[i].0.as_str(), &listings[i].1);
        push_line(&mut r, l);
        assert(ls[i as int] == listing_view(listings@[i as int]));
        assert(ls.take(i + 1).map_values(|l: (Seq<char>, Result<Seq<EnrolledTemplateSummary>, Seq<char>>)| spec_user_templates_line(l.0, l.1))
            =~= ls.take(i as int).map_values(|l: (Seq<char>, Result<Seq<EnrolledTemplateSummary>, Seq<char>>)| spec_user_templates_line(l.0, l.1)).push(spec_user_templates_line(ls[i as int].0, ls[i as int].1)));
        i += 1;
    }
    assert(ls.take(ls.len() as int) =~= ls);
    r
}

// ── Config, camera, models ───────────────────────────────────────────────────

/// The `Config` block: the file's path, whether it parses (else the parse error), and
/// the template directory in force.
pub open spec fn spec_config_lines(path: Seq<char>, parse_error: Option<Seq<char>>, storage_dir: Seq<char>) -> Seq<Seq<char>> {
    seq![
        "Config"@,
        "  path   : "@ + path,
        "  parse  : "@ + match parse_error {
            None => "ok"@,
            Some(e) => "error ("@ + e + ")"@,
        },
        "  storage: "@ + storage_dir,
    ]
}

pub fn config_lines(path: &str, parse_error: &Option<String>, config: &Config) -> (r: Vec<String>)
    ensures
        lines_view(r@) == spec_config_lines(path@, match parse_error {
            None => None,
            Some(e) => Some(e@),
        }, config.storage.base_dir@),
{
    let mut r: Vec<String> = Vec::new();
    push_line(&mut r, line_of("Config"));
    push_line(&mut r, line_of2("  path   : ", path));
    match parse_error {
        None => push_line(&mut r, line_of2("  parse  : ", "ok")),
        Some(e) => {
            let mut l = line_of3("  parse  : ", "error (", e.as_str());
            string_push_str(&mut l, ")");
            assert(l@ =~= "  parse  : "@ + ("error ("@ + e@ + ")"@));
            push_line(&mut r, l);
        },
    }
    push_line(&mut r, line_of2("  storage: ", config.storage.base_dir.as_str()));
    assert(lines_view(r@) =~= spec_config_lines(path@, match parse_error {
        None => None,
        Some(e) => Some(e@),
    }, config.storage.base_dir@));
    r
}

/// What was found of a camera device: whether its node exists, and its kind (`None`
/// when its formats could not be read).
pub open spec fn spec_probe_line(exists: bool, kind: Option<CameraKind>) -> Seq<char> {
    "           exists="@ + spec_yes_no(exists) + " kind="@ + spec_kind_label(kind)
}

fn probe_line(exists: bool, kind: Option<CameraKind>) -> (s: String)
    ensures
        s@ == spec_probe_line(exists, kind),
{
    let mut s = owned("           exists=");
    string_push_str(&mut s, yes_no(exists));
    string_push_str(&mut s, " kind=");
    string_push_str(&mut s, kind_label(kind));
    s
}

/// The `Camera` block: the colour camera and what was found of it, the IR camera (when
/// one is configured) and what was found of it, and whether the cross-check is on.
pub open spec fn spec_camera_lines(config: Config, rgb: (bool, Option<CameraKind>), ir: (bool, Option<CameraKind>)) -> Seq<Seq<char>> {
    seq!["Camera"@, "  rgb    : "@ + config.camera.device@, spec_probe_line(rgb.0, rgb.1)] + match config.camera.ir {
        Some(c) => seq!["  ir     : "@ + c.device@, spec_probe_line(ir.0, ir.1)],
        None => seq!["  ir     : not configured"@],
    } + seq![
        "  check  : "@ + if config.camera.cross_check.enabled {
            "RGB+IR required"@
        } else {
            "single camera"@
        },
    ]
}

pub fn camera_lines(config: &Config, rgb: (bool, Option<CameraKind>), ir: (bool, Option<CameraKind>)) -> (r: Vec<String>)
    ensures
        lines_view(r@) == spec_camera_lines(*config, rgb, ir),
{
    let mut r: Vec<String> = Vec::new();
    push_line(&mut r, line_of("Camera"));
    push_line(&mut r, line_of2("  rgb    : ", config.camera.device.as_str()));
    push_line(&mut r, probe_line(rgb.0, rgb.1));
    let ghost head = lines_view(r@);
    match &config.camera.ir {
        Some(c) => {
            push_line(&mut r, line_of2("  ir     : ", c.device.as_str()));
            push_line(&mut r, probe_line(ir.0, ir.1));
        },
        None => push_line(&mut r, line_of("  ir     : not configured")),
    }
    let ghost mid = lines_view(r@);
    if config.camera.cross_check.enabled {
        push_line(&mut r, line_of2("  check  : ", "RGB+IR required"));
    } else {
        push_line(&mut r, line_of2("  check  : ", "single camera"));
    }
    assert(lines_view(r@) =~= spec_camera_lines(*config, rgb, ir));
    r
}

/// The `Models` block: each model's path and whether the file is present.
pub open spec fn spec_models_lines(config: Config, detector_present: bool, embedder_present: bool) -> Seq<Seq<char>> {
    seq![
        "Models"@,
        "  detector: "@ + config.models.detector@ + " ("@ + spec_exists_label(detector_present) + ")"@,
        "  embedder: "@ + config.models.embedder@ + " ("@ + spec_exists_label(embedder_present) + ")"@,
    ]
}

pub fn models_lines(config: &Config, detector_present: bool, embedder_present: bool) -> (r: Vec<String>)
    ensures
        lines_view(r@) == spec_models_lines(*config, detector_present, embedder_present),
{
    let mut r: Vec<String> = Vec::new();
    push_line(&mut r, line_of("Models"));
    let mut d = line_of3("  detector: ", config.models.detector.as_str(), " (");
    string_push_str(&mut d, exists_label(detector_present));
    string_push_str(&mut d, ")");
    push_line(&mut r, d);
    let mut e = line_of3("  embedder: ", config.models.embedder.as_str(), " (");
    string_push_str(&mut e, exists_label(embedder_present));
    string_push_str(&mut e, ")");
    push_line(&mut r, e);
    r
}

// ── PAM and the watch daemon ─────────────────────────────────────────────────

/// One enabled session service: its display name, PAM service and file.
pub open spec fn spec_session_entry_line(e: (Seq<char>, Seq<char>, Seq<char>)) -> Seq<char> {
    "           - "@ + e.0 + " ("@ + e.1 + "): "@ + e.2
}

/// The `PAM` block: whether sudo uses Facegate, and the session services that do.
pub open spec fn spec_auth_lines(sudo_enabled: bool, entries: Seq<(Seq<char>, Seq<char>, Seq<char>)>) -> Seq<Seq<char>> {
    seq!["PAM"@, "  sudo  : "@ + spec_enabled_label(sudo_enabled)] + if entries.len() == 0 {
        seq!["  session: disabled"@]
    } else {
        seq!["  session: enabled"@] + entries.map_values(|e: (Seq<char>, Seq<char>, Seq<char>)| spec_session_entry_line(e))
    }
}

/// A session entry as views.
pub open spec fn entry_view(e: (String, String, String)) -> (Seq<char>, Seq<char>, Seq<char>) {
    (e.0@, e.1@, e.2@)
}

pub fn auth_lines(sudo_enabled: bool, entries: &[(String, String, String)]) -> (r: Vec<String>)
    ensures
        lines_view(r@) == spec_auth_lines(sudo_enabled, entries@.map_values(|e: (String, String, String)| entry_view(e))),
{
    let ghost es = entries@.map_values(|e: (String, String, String)| entry_view(e));
    let mut r: Vec<String> = Vec::new();
    push_line(&mut r, line_of("PAM"));
    push_line(&mut r, line_of2("  sudo  : ", enabled_label(sudo_enabled)));
    if entries.len() == 0 {
        push_line(&mut r, line_of("  session: disabled"));
        return r;
    }
    push_line(&mut r, line_of("  session: enabled"));
    let ghost head = lines_view(r@);
    let mut i: usize = 0;
    while i < entries.len()
        invariant
            i <= entries@.len(),
            es == entries@.map_values(|e: (String, String, String)| entry_view(e)),
            lines_view(r@) == head + es.take(i as int).map_values(|e: (Seq<char>, Seq<char>, Seq<char>)| spec_session_entry_line(e)),
        decreases entries@.len() - i,
    {
        let mut l = line_of3("           - ", entries[i].0.as_str(), " (");
        string_push_str(&mut l, entries[i].1.as_str());
        string_push_str(&mut l, "): ");
        string_push_str(&mut l, entries[i].2.as_str());
        push_line(&mut r, l);
        assert(es[i as int] == entry_view(entries@[i as int]));
        assert(es.take(i + 1).map_values(|e: (Seq<char>, Seq<char>, Seq<char>)| spec_session_entry_line(e))
            =~= es.take(i as int).map_values(|e: (Seq<char>, Seq<char>, Seq<char>)| spec_session_entry_line(e)).push(spec_session_entry_line(es[i as int])));
        i += 1;
    }
    assert(es.take(es.len() as int) =~= es);
    r
}

/// A `systemctl --user` answer as shown: its first line trimmed, or `unavailable`.
pub open spec fn spec_systemctl_answer(answer: Option<Seq<char>>) -> Seq<char> {
    match answer {
        Some(a) => trim(a),
        None => "unavailable"@,
    }
}

fn systemctl_answer(answer: &Option<String>) -> (s: String)
    ensures
        s@ == spec_systemctl_answer(match answer {
            Some(a) => Some(a@),
            None => None,
        }),
{
    match answer {
        Some(a) => {
            let cs = chars_of(a.as_str());
            let t = trim_chars(cs.as_slice());
            let mut s = String::new();
            push_chars(&mut s, t.as_slice());
            s
        },
        None => owned("unavailable"),
    }
}

/// The `Watch daemon` block: whether its unit is installed, and what `systemctl --user`
/// said of whether it is enabled and active.
pub open spec fn spec_watch_lines(installed: bool, enabled: Option<Seq<char>>, active: Option<Seq<char>>) -> Seq<Seq<char>> {
    seq![
        "Watch daemon"@,
        "  unit   : "@ + if installed {
            "installed"@
        } else {
            "missing"@
        },
        "  enabled: "@ + spec_systemctl_answer(enabled),
        "  active : "@ + spec_systemctl_answer(active),
    ]
}

pub fn watch_lines(installed: bool, enabled: &Option<String>, active: &Option<String>) -> (r: Vec<String>)
    ensures
        lines_view(r@) == spec_watch_lines(installed, match enabled {
            Some(a) => Some(a@),
            None => None,
        }, match active {
            Some(a) => Some(a@),
            None => None,
        }),
{
    let mut r: Vec<String> = Vec::new();
    push_line(&mut r, line_of("Watch daemon"));
    if installed {
        push_line(&mut r, line_of2("  unit   : ", "installed"));
    } else {
        push_line(&mut r, line_of2("  unit   : ", "missing"));
    }
    let en = systemctl_answer(enabled);
    push_line(&mut r, line_of2("  enabled: ", en.as_str()));
    let ac = systemctl_answer(active);
    push_line(&mut r, line_of2("  active : ", ac.as_str()));
    r
}

} // verus!
