//! Enrollment targets: which authentication contexts a new face template serves.
use vstd::prelude::*;

use crate::storage::TemplateScope;
use crate::text::{
    chars_of, decimal, owned, parse_u32_chars, parse_unsigned, push_chars, push_decimal,
    string_push_str, trim, trim_chars,
};

verus! {

/// Which authentication contexts an enrollment is for.
#[derive(Debug, Clone, Copy, PartialEq, Eq, Structural)]
pub enum EnrollmentTarget {
    Sudo,
    Session,
    Both,
}

impl EnrollmentTarget {
    /// Enrolling for sudo asks for a user with sudo rights.
    pub fn requires_sudo_user(self) -> (r: bool)
        ensures
            r == (self == EnrollmentTarget::Sudo || self == EnrollmentTarget::Both),
    {
        match self {
            EnrollmentTarget::Sudo | EnrollmentTarget::Both => true,
            EnrollmentTarget::Session => false,
        }
    }

    /// Name of the target as shown to the user.
    pub fn label(self) -> (s: &'static str)
        ensures
            s@ == (match self {
                EnrollmentTarget::Sudo => "sudo"@,
                EnrollmentTarget::Session => "session"@,
                EnrollmentTarget::Both => "sudo+session"@,
            }),
    {
        match self {
            EnrollmentTarget::Sudo => "sudo",
            EnrollmentTarget::Session => "session",
            EnrollmentTarget::Both => "sudo+session",
        }
    }

    /// Scope stored with the templates enrolled for this target.
    pub fn template_scope(self) -> (t: TemplateScope)
        ensures
            t == (match self {
                EnrollmentTarget::Sudo => TemplateScope::Sudo,
                EnrollmentTarget::Session => TemplateScope::Session,
                EnrollmentTarget::Both => TemplateScope::Both,
            }),
    {
        match self {
            EnrollmentTarget::Sudo => TemplateScope::Sudo,
            EnrollmentTarget::Session => TemplateScope::Session,
            EnrollmentTarget::Both => TemplateScope::Both,
        }
    }
}

/// The label of sample `i` (from 1) of an enrollment of `samples` samples: the label
/// itself for a single sample, else the label with the sample's number appended.
pub open spec fn spec_sample_label(label: Seq<char>, samples: u32, i: u32) -> Seq<char> {
    if samples == 1 {
        label
    } else {
        label + "-"@ + decimal(i as nat)
    }
}

pub fn sample_label(label: &str, samples: u32, i: u32) -> (s: String)
    ensures
        s@ == spec_sample_label(label@, samples, i),
{
    let mut s = owned(label);
    if samples != 1 {
        string_push_str(&mut s, "-");
        push_decimal(&mut s, i as u64);
    }
    s
}

/// The capture timeout of an enrollment: the camera's, but at least 15 s, as the user
/// settles in front of the camera between samples.
pub fn enroll_timeout_ms(camera_timeout_ms: u64) -> (t: u64)
    ensures
        t == if camera_timeout_ms >= 15000 { camera_timeout_ms } else { 15000 },
{
    if camera_timeout_ms >= 15000 {
        camera_timeout_ms
    } else {
        15000
    }
}

/// The number of samples read from an answer: blank asks for 3; otherwise a number
/// from 1 to 10, or an error quoting the trimmed answer.
pub open spec fn spec_sample_count(line: Seq<char>) -> Result<u32, Seq<char>> {
    let t = trim(line);
    if t.len() == 0 {
        Ok(3)
    } else {
        match parse_unsigned(t, u32::MAX as int) {
            Some(n) => if 1 <= n <= 10 {
                Ok(n as u32)
            } else {
                Err("invalid number of samples '"@ + t + "': expected 1-10"@)
            },
            None => Err("invalid number of samples '"@ + t + "': expected 1-10"@),
        }
    }
}

pub fn parse_sample_count(line: &str) -> (r: Result<u32, String>)
    ensures
        match spec_sample_count(line@) {
            Ok(n) => r == Ok::<u32, String>(n),
            Err(m) => r matches Err(e) && e@ == m,
        },
{
    let cs = chars_of(line);
    let t = trim_chars(cs.as_slice());
    if t.len() == 0 {
        return Ok(3);
    }
    match parse_u32_chars(t.as_slice()) {
        Some(n) => {
            if 1 <= n && n <= 10 {
                return Ok(n);
            }
        },
        None => {},
    }
    let mut m = owned("invalid number of samples '");
    push_chars(&mut m, t.as_slice());
    string_push_str(&mut m, "': expected 1-10");
    Err(m)
}

/// The warning given when a sudo enrollment is for a user outside the groups that
/// usually grant sudo; the enrollment goes on.
pub fn not_sudoer_warning(username: &str) -> (s: String)
    ensures
        s@ == "Warning: '"@ + username@
            + "' is not in wheel/sudo/admin group; only proceed if the user is explicitly granted sudo via /etc/sudoers."@,
{
    let mut s = owned("Warning: '");
    string_push_str(&mut s, username);
    string_push_str(&mut s, "' is not in wheel/sudo/admin group; only proceed if the user is explicitly granted sudo via /etc/sudoers.");
    s
}

} // verus!
