//! `facegate broker ...`: the lines of the broker's status, health and permission-repair
//! reports, and how the repair treats each entry of the template tree. The service
//! queries, the socket round trip and the file system changes are the binary's.
use vstd::prelude::*;

use crate::text::{decimal, owned, push_decimal, repeat, string_push_str};
use crate::users::{octal, pad_right, push_padded_right};

verus! {

/// The permission bits the repair gives the template directories.
pub const DIR_MODE: u32 = 0o700;

/// The permission bits the repair gives template files and the audit log.
pub const FILE_MODE: u32 = 0o600;

/// How the permission repair treats an entry of the template tree.
#[derive(Debug, Clone, Copy, PartialEq, Eq, Structural)]
pub enum RepairAction {
    /// A symbolic link: the repair stops rather than follow it.
    RefuseSymlink,
    /// A directory: owned by the broker, mode [`DIR_MODE`], and its entries repaired.
    Directory,
    /// A template file (`embeddings.json`): owned by the broker, mode [`FILE_MODE`].
    TemplateFile,
    /// Anything else is left alone.
    Leave,
}

/// The repair's treatment of an entry, from what the file system says of it.
pub open spec fn spec_repair_action(is_symlink: bool, is_dir: bool, is_file: bool, file_name: Option<Seq<char>>) -> RepairAction {
    if is_symlink {
        RepairAction::RefuseSymlink
    } else if is_dir {
        RepairAction::Directory
    } else if is_file && file_name == Some("embeddings.json"@) {
        RepairAction::TemplateFile
    } else {
        RepairAction::Leave
    }
}

pub fn repair_action(is_symlink: bool, is_dir: bool, is_file: bool, file_name: Option<&str>) -> (a: RepairAction)
    ensures
        a == spec_repair_action(is_symlink, is_dir, is_file, match file_name {
            Some(n) => Some(n@),
            None => None,
        }),
{
    if is_symlink {
        RepairAction::RefuseSymlink
    } else if is_dir {
        RepairAction::Directory
    } else if is_file && match file_name {
        Some(n) => crate::text::str_eq(n, "embeddings.json"),
        None => false,
    } {
        RepairAction::TemplateFile
    } else {
        RepairAction::Leave
    }
}

/// The texts of a run of lines.
pub open spec fn lines_view(v: Seq<String>) -> Seq<Seq<char>> {
    v.map_values(|s: String| s@)
}

/// What the repair reports once done.
pub open spec fn spec_repair_lines(users_dir: Seq<char>, audit_log: Seq<char>) -> Seq<Seq<char>> {
    seq![
        "Broker permissions repaired."@,
        "  users: "@ + users_dir + " owner=facegate:facegate mode=0700"@,
        "  audit: "@ + audit_log + " owner=facegate:facegate mode=0600"@,
    ]
}

pub fn repair_lines(users_dir: &str, audit_log: &str) -> (r: Vec<String>)
    ensures
        lines_view(r@) == spec_repair_lines(users_dir@, audit_log@),
{
    let mut u = owned("  users: ");
    string_push_str(&mut u, users_dir);
    string_push_str(&mut u, " owner=facegate:facegate mode=0700");
    let mut a = owned("  audit: ");
    string_push_str(&mut a, audit_log);
    string_push_str(&mut a, " owner=facegate:facegate mode=0600");
    let mut r: Vec<String> = Vec::new();
    r.push(owned("Broker permissions repaired."));
    r.push(u);
    r.push(a);
    assert(lines_view(r@) =~= spec_repair_lines(users_dir@, audit_log@));
    r
}

/// A model file as the health report shows it.
pub open spec fn spec_model_status(is_file: bool, path: Seq<char>) -> Seq<char> {
    (if is_file {
        "present ("@
    } else {
        "missing ("@
    }) + path + ")"@
}

pub fn model_status(is_file: bool, path: &str) -> (s: String)
    ensures
        s@ == spec_model_status(is_file, path@),
{
    let mut s = if is_file {
        owned("present (")
    } else {
        owned("missing (")
    };
    string_push_str(&mut s, path);
    string_push_str(&mut s, ")");
    s
}

/// The health report of a broker that answered with its protocol and version.
pub open spec fn spec_health_lines(socket: Seq<char>, protocol: u16, version: Seq<char>, detector: Seq<char>, embedder: Seq<char>) -> Seq<Seq<char>> {
    seq![
        "Broker health: ok"@,
        "  socket  : "@ + socket,
        "  protocol: "@ + decimal(protocol as nat),
        "  version : "@ + version,
        "  detector: "@ + detector,
        "  embedder: "@ + embedder,
    ]
}

/// `detector` and `embedder` are the models' lines (see [`model_status`]).
pub fn health_lines(socket: &str, protocol: u16, version: &str, detector: &str, embedder: &str) -> (r: Vec<String>)
    ensures
        lines_view(r@) == spec_health_lines(socket@, protocol, version@, detector@, embedder@),
{
    let mut r: Vec<String> = Vec::new();
    r.push(owned("Broker health: ok"));
    let mut l = owned("  socket  : ");
    string_push_str(&mut l, socket);
    r.push(l);
    let mut l = owned("  protocol: ");
    push_decimal(&mut l, protocol as u64);
    r.push(l);
    let mut l = owned("  version : ");
    string_push_str(&mut l, version);
    r.push(l);
    let mut l = owned("  detector: ");
    string_push_str(&mut l, detector);
    r.push(l);
    let mut l = owned("  embedder: ");
    string_push_str(&mut l, embedder);
    r.push(l);
    assert(lines_view(r@) =~= spec_health_lines(socket@, protocol, version@, detector@, embedder@));
    r
}

/// Octal notation of `n` with at least four digits (`{:04o}`).
pub open spec fn octal4(n: nat) -> Seq<char> {
    let d = octal(n);
    if d.len() >= 4 {
        d
    } else {
        repeat('0', (4 - d.len()) as nat) + d
    }
}

/// A path as the status report describes it: its permission bits, owner and group, or
/// why they could not be read.
pub open spec fn spec_path_line(label: Seq<char>, path: Seq<char>, meta: Result<(u32, u32, u32), Seq<char>>) -> Seq<char> {
    "  "@ + pad_right(label, 14) + ": "@ + match meta {
        Ok((mode, uid, gid)) => path + " mode="@ + octal4((mode % 4096) as nat) + " uid="@ + decimal(uid as nat)
            + " gid="@ + decimal(gid as nat),
        Err(e) => "unavailable ("@ + path + ": "@ + e + ")"@,
    }
}

fn push_octal4(out: &mut String, n: u32)
    ensures
        final(out)@ == old(out)@ + octal4(n as nat),
{
    let mut d = String::new();
    crate::users::push_octal(&mut d, n);
    let cs = crate::text::chars_of(d.as_str());
    let ghost start = out@;
    if cs.len() < 4 {
        let k: usize = 4 - cs.len();
        let mut i: usize = 0;
        while i < k
            invariant
                i <= k,
                out@ == start + repeat('0', i as nat),
            decreases k - i,
        {
            crate::text::string_push(out, '0');
            assert(repeat('0', (i + 1) as nat) =~= repeat('0', i as nat).push('0'));
            i += 1;
        }
        crate::text::push_chars(out, cs.as_slice());
        assert(out@ =~= start + (repeat('0', k as nat) + octal(n as nat)));
    } else {
        crate::text::push_chars(out, cs.as_slice());
    }
}

/// The line describing `path` (`meta` is its mode, owner and group, or the error met
/// reading them).
pub fn path_line(label: &str, path: &str, meta: &Result<(u32, u32, u32), String>) -> (s: String)
    ensures
        s@ == spec_path_line(label@, path@, match meta {
            Ok(m) => Ok(*m),
            Err(e) => Err(e@),
        }),
{
    let mut s = owned("  ");
    let l = owned(label);
    push_padded_right(&mut s, &l, 14);
    string_push_str(&mut s, ": ");
    let ghost head = s@;
    match meta {
        Ok((mode, uid, gid)) => {
            string_push_str(&mut s, path);
            string_push_str(&mut s, " mode=");
            push_octal4(&mut s, *mode % 4096);
            string_push_str(&mut s, " uid=");
            push_decimal(&mut s, *uid as u64);
            string_push_str(&mut s, " gid=");
            push_decimal(&mut s, *gid as u64);
            assert(s@ =~= head + (path@ + " mode="@ + octal4((*mode % 4096) as nat) + " uid="@ + decimal(*uid as nat)
                + " gid="@ + decimal(*gid as nat)));
        },
        Err(e) => {
            string_push_str(&mut s, "unavailable (");
            string_push_str(&mut s, path);
            string_push_str(&mut s, ": ");
            string_push_str(&mut s, e.as_str());
            string_push_str(&mut s, ")");
            assert(s@ =~= head + ("unavailable ("@ + path@ + ": "@ + e@ + ")"@));
        },
    }
    s
}

/// `yes` or `no`.
pub open spec fn spec_yes_no(b: bool) -> Seq<char> {
    if b {
        "yes"@
    } else {
        "no"@
    }
}

fn push_yes_no(out: &mut String, b: bool)
    ensures
        final(out)@ == old(out)@ + spec_yes_no(b),
{
    if b {
        string_push_str(out, "yes");
    } else {
        string_push_str(out, "no");
    }
}

/// The broker's status block: the service's state, the socket's answer (protocol and
/// version, or the error), the audit log's size (or the error reading it), and the
/// template directory and socket paths (see [`spec_path_line`]).
pub open spec fn spec_broker_status_lines(
    active: bool,
    enabled: bool,
    socket: Seq<char>,
    health: Result<(u16, Seq<char>), Seq<char>>,
    audit_path: Seq<char>,
    audit: Result<u64, Seq<char>>,
    users_dir: Seq<char>,
    users_meta: Result<(u32, u32, u32), Seq<char>>,
    socket_meta: Result<(u32, u32, u32), Seq<char>>,
) -> Seq<Seq<char>> {
    seq![
        "Broker"@,
        "  systemd active : "@ + spec_yes_no(active),
        "  systemd enabled: "@ + spec_yes_no(enabled),
    ] + match health {
        Ok((p, v)) => seq![
            "  socket         : ok ("@ + socket + ")"@,
            "  protocol       : "@ + decimal(p as nat),
            "  version        : "@ + v,
        ],
        Err(e) => seq!["  socket         : unavailable ("@ + e + ")"@],
    } + seq![
        "  peers          : not exposed by IPC v"@ + decimal(crate::ipc::PROTOCOL_VERSION as nat),
        match audit {
            Ok(n) => "  audit log      : "@ + decimal(n as nat) + " bytes ("@ + audit_path + ")"@,
            Err(e) => "  audit log      : unavailable ("@ + audit_path + ": "@ + e + ")"@,
        },
        spec_path_line("users dir"@, users_dir, users_meta),
        spec_path_line("socket"@, socket, socket_meta),
    ]
}

/// A result of the file system as views.
pub open spec fn meta_view(m: Result<(u32, u32, u32), String>) -> Result<(u32, u32, u32), Seq<char>> {
    match m {
        Ok(x) => Ok(x),
        Err(e) => Err(e@),
    }
}

#[verifier::spinoff_prover]
pub fn broker_status_lines(
    active: bool,
    enabled: bool,
    socket: &str,
    health: &Result<(u16, String), String>,
    audit_path: &str,
    audit: &Result<u64, String>,
    users_dir: &str,
    users_meta: &Result<(u32, u32, u32), String>,
    socket_meta: &Result<(u32, u32, u32), String>,
) -> (r: Vec<String>)
    ensures
        lines_view(r@) == spec_broker_status_lines(
            active,
            enabled,
            socket@,
            match health {
                Ok((p, v)) => Ok((*p, v@)),
                Err(e) => Err(e@),
            },
            audit_path@,
            match audit {
                Ok(n) => Ok(*n),
                Err(e) => Err(e@),
            },
            users_dir@,
            meta_view(*users_meta),
            meta_view(*socket_meta),
        ),
{
    let mut r: Vec<String> = Vec::new();
    r.push(owned("Broker"));
    let mut l = owned("  systemd active : ");
    push_yes_no(&mut l, active);
    r.push(l);
    let mut l = owned("  systemd enabled: ");
    push_yes_no(&mut l, enabled);
    r.push(l);
    let ghost first = lines_view(r@);
    match health {
        Ok((p, v)) => {
            let mut l = owned("  socket         : ok (");
            string_push_str(&mut l, socket);
            string_push_str(&mut l, ")");
            r.push(l);
            let mut l = owned("  protocol       : ");
            push_decimal(&mut l, *p as u64);
            r.push(l);
            let mut l = owned("  version        : ");
            string_push_str(&mut l, v.as_str());
            r.push(l);
        },
        Err(e) => {
            let mut l = owned("  socket         : unavailable (");
            string_push_str(&mut l, e.as_str());
            string_push_str(&mut l, ")");
            r.push(l);
        },
    }
    let ghost second = lines_view(r@);
    let mut l = owned("  peers          : not exposed by IPC v");
    push_decimal(&mut l, crate::ipc::PROTOCOL_VERSION as u64);
    r.push(l);
    match audit {
        Ok(n) => {
            let mut l = owned("  audit log      : ");
            push_decimal(&mut l, *n);
            string_push_str(&mut l, " bytes (");
            string_push_str(&mut l, audit_path);
            string_push_str(&mut l, ")");
            r.push(l);
        },
        Err(e) => {
            let mut l = owned("  audit log      : unavailable (");
            string_push_str(&mut l, audit_path);
            string_push_str(&mut l, ": ");
            string_push_str(&mut l, e.as_str());
            string_push_str(&mut l, ")");
            r.push(l);
        },
    }
    r.push(path_line("users dir", users_dir, users_meta));
    r.push(path_line("socket", socket, socket_meta));
    assert(lines_view(r@) =~= spec_broker_status_lines(
        active,
        enabled,
        socket@,
        match health {
            Ok((p, v)) => Ok((*p, v@)),
            Err(e) => Err(e@),
        },
        audit_path@,
        match audit {
            Ok(n) => Ok(*n),
            Err(e) => Err(e@),
        },
        users_dir@,
        meta_view(*users_meta),
        meta_view(*socket_meta),
    ));
    r
}

} // verus!
