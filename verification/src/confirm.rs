//! Reading the answer to a yes/no question asked on the terminal.
use vstd::prelude::*;

use crate::text::{ascii_lower, ascii_lower_chars, chars_eq, chars_of, owned, trim, trim_chars};

verus! {

/// The answer a line gives to a yes/no question whose default is `default_yes`:
/// surrounding whitespace and letter case are ignored, an empty answer takes the
/// default, and anything but `y`, `yes`, `n` or `no` is no answer.
pub open spec fn spec_yes_no(line: Seq<char>, default_yes: bool) -> Option<bool> {
    let t = ascii_lower(trim(line));
    if t.len() == 0 {
        Some(default_yes)
    } else if t == "y"@ || t == "yes"@ {
        Some(true)
    } else if t == "n"@ || t == "no"@ {
        Some(false)
    } else {
        None
    }
}

/// The error for a line that answers neither yes nor no.
pub open spec fn not_an_answer() -> Seq<char> {
    "expected yes or no"@
}

/// Reads the answer to a yes/no question (see [`spec_yes_no`]).
pub fn parse_yes_no(line: &str, default_yes: bool) -> (r: Result<bool, String>)
    ensures
        match spec_yes_no(line@, default_yes) {
            Some(b) => r == Ok::<bool, String>(b),
            None => r matches Err(e) && e@ == not_an_answer(),
        },
{
    let cs = chars_of(line);
    let t = trim_chars(cs.as_slice());
    let lower = ascii_lower_chars(t.as_slice());
    if lower.len() == 0 {
        return Ok(default_yes);
    }
    let y = chars_of("y");
    let yes = chars_of("yes");
    let n = chars_of("n");
    let no = chars_of("no");
    if chars_eq(lower.as_slice(), y.as_slice()) || chars_eq(lower.as_slice(), yes.as_slice()) {
        Ok(true)
    } else if chars_eq(lower.as_slice(), n.as_slice()) || chars_eq(lower.as_slice(), no.as_slice()) {
        Ok(false)
    } else {
        Err(owned("expected yes or no"))
    }
}

/// The hint shown after a yes/no question: the default answer in capitals.
pub fn yes_no_suffix(default_yes: bool) -> (s: &'static str)
    ensures
        s@ == (if default_yes { "[Y/n]"@ } else { "[y/N]"@ }),
{
    if default_yes {
        "[Y/n]"
    } else {
        "[y/N]"
    }
}

} // verus!
