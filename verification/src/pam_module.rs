//! The decisions of the PAM module: which helper it runs with which arguments, and
//! which PAM result the helper's exit status becomes.
//!
//! The module itself (the `pam_sm_*` entry points, reading PAM items, spawning the
//! helper under a deadline) is in the binary; it hands the helper's outcome here.
use vstd::prelude::*;

use crate::auth::{law_no_fallback_without_permission, spec_exit_of, spec_step, AuthEvent, AuthSession};
use crate::error::{spec_exit_status, AuthExitCode};
use crate::text::{chars_of, has_prefix, owned, slice_copy, string_from_chars};

verus! {

/// PAM: the user is authenticated.
pub const PAM_SUCCESS: i32 = 0;

/// PAM: authentication failed.
pub const PAM_AUTH_ERR: i32 = 7;

/// PAM: this module has no say; the stack goes on (to the password prompt).
pub const PAM_IGNORE: i32 = 25;

/// The helper run when the module has no `path=` argument.
pub const DEFAULT_HELPER_PATH: &'static str = "/usr/bin/facegate";

/// Seconds the helper may run before it is killed and the module steps aside.
pub const HELPER_TIMEOUT_SECS: u64 = 25;

/// The PAM result of the helper's run: recognised is success; "not recognised" lets
/// the stack go on; any other exit status fails; a helper that could not run or did not
/// finish in time lets the stack go on.
pub open spec fn spec_pam_result(helper_status: Option<i32>) -> i32 {
    match helper_status {
        Some(s) => if s == spec_exit_status(AuthExitCode::Recognized) {
            PAM_SUCCESS
        } else if s == spec_exit_status(AuthExitCode::NotRecognized) {
            PAM_IGNORE
        } else {
            PAM_AUTH_ERR
        },
        None => PAM_IGNORE,
    }
}

/// The PAM result for the helper's exit status (`None` when it could not run or was
/// killed at the deadline).
pub fn pam_result(helper_status: Option<i32>) -> (r: i32)
    ensures
        r == spec_pam_result(helper_status),
{
    match helper_status {
        Some(s) => if s == AuthExitCode::Recognized.status() {
            PAM_SUCCESS
        } else if s == AuthExitCode::NotRecognized.status() {
            PAM_IGNORE
        } else {
            PAM_AUTH_ERR
        },
        None => PAM_IGNORE,
    }
}

/// The helper path set by the module arguments: the text after `path=` of the last
/// such argument whose text is not empty, if any.
pub open spec fn spec_helper_path(args: Seq<Seq<char>>) -> Option<Seq<char>>
    decreases args.len(),
{
    if args.len() == 0 {
        None
    } else {
        let a = args.last();
        if has_prefix(a, "path="@) && a.len() > 5 {
            Some(a.skip(5))
        } else {
            spec_helper_path(args.drop_last())
        }
    }
}

/// The views of the module arguments.
pub open spec fn arg_views(args: Seq<String>) -> Seq<Seq<char>> {
    args.map_values(|a: String| a@)
}

/// Reads the helper path from the module arguments (`path=/abs/path/to/facegate`).
pub fn helper_path_from_args(args: &Vec<String>) -> (r: Option<String>)
    ensures
        match spec_helper_path(arg_views(args@)) {
            Some(p) => r matches Some(x) && x@ == p,
            None => r is None,
        },
{
    let mut out: Option<String> = None;
    let mut i: usize = 0;
    let prefix = chars_of("path=");
    proof {
        reveal_strlit("path=");
    }
    while i < args.len()
        invariant
            i <= args@.len(),
            prefix@ == "path="@,
            match spec_helper_path(arg_views(args@).take(i as int)) {
                Some(p) => out matches Some(x) && x@ == p,
                None => out is None,
            },
        decreases args@.len() - i,
    {
        proof {
            assert(arg_views(args@).take(i + 1).drop_last() =~= arg_views(args@).take(i as int));
            assert(arg_views(args@).take(i + 1).last() == args@[i as int]@);
        }
        let cs = chars_of(args[i].as_str());
        if crate::text::starts_with(cs.as_slice(), prefix.as_slice()) && cs.len() > 5 {
            let rest = slice_copy(cs.as_slice(), 5, cs.len());
            assert(rest@ =~= cs@.skip(5));
            out = Some(string_from_chars(rest.as_slice()));
        }
        i += 1;
    }
    assert(arg_views(args@).take(args@.len() as int) =~= arg_views(args@));
    out
}

/// The helper's command line after its path: `auth --user USER`, then
/// `--service SERVICE` when PAM named the service.
pub open spec fn spec_helper_args(username: Seq<char>, service: Option<Seq<char>>) -> Seq<Seq<char>> {
    match service {
        Some(s) => seq!["auth"@, "--user"@, username, "--service"@, s],
        None => seq!["auth"@, "--user"@, username],
    }
}

/// The arguments the helper is run with.
pub fn helper_args(username: &str, service: Option<&str>) -> (r: Vec<String>)
    ensures
        arg_views(r@) == spec_helper_args(
            username@,
            match service {
                Some(s) => Some(s@),
                None => None,
            },
        ),
{
    let mut r: Vec<String> = Vec::new();
    r.push(owned("auth"));
    r.push(owned("--user"));
    r.push(owned(username));
    match service {
        Some(s) => {
            r.push(owned("--service"));
            r.push(owned(s));
        },
        None => {},
    }
    assert(arg_views(r@) =~= spec_helper_args(
        username@,
        match service {
            Some(s) => Some(s@),
            None => None,
        },
    ));
    r
}

/// The PAM stack accepts the user through this module exactly when the helper ran to
/// completion and reported the face recognised.
pub proof fn law_success_only_when_recognized(helper_status: Option<i32>)
    ensures
        spec_pam_result(helper_status) == PAM_SUCCESS <==> helper_status == Some(
            spec_exit_status(AuthExitCode::Recognized),
        ),
{
}

/// A helper that denies (password fallback disabled and face not recognised) makes the
/// module fail rather than step aside.
pub proof fn law_denied_fails(helper_status: Option<i32>)
    requires
        helper_status == Some(spec_exit_status(AuthExitCode::Denied)),
    ensures
        spec_pam_result(helper_status) == PAM_AUTH_ERR,
{
}

/// With the password fallback disabled, an authentication that finishes never lets
/// the PAM stack go on to the password prompt: whatever exit code a step of the
/// authentication stops with, the module either accepts the user or fails.
pub proof fn law_no_fallback_reaches_pam(s: AuthSession, e: AuthEvent)
    requires
        !s.allow_password_fallback,
    ensures
        ({
            let (n, note, a) = spec_step(s, e);
            spec_exit_of(a) matches Some(c) ==> spec_pam_result(Some(spec_exit_status(c)))
                != PAM_IGNORE
        }),
{
    law_no_fallback_without_permission(s, e);
}

} // verus!
