//! `facegate forget`: what is shown before all of a user's templates are removed, and
//! the report once the broker has answered each removal.
use vstd::prelude::*;

use crate::broker_client::summary_scope_label;
use crate::ipc::EnrolledTemplateSummary;
use crate::status::lines_view;
use crate::storage::{spec_core_template_scope, spec_scope_label};
use crate::text::{decimal, owned, push_decimal, string_push_str};
use crate::users::{pad_right, push_padded_right};

verus! {

/// One template as listed before removal: id and label left-aligned in columns of 3
/// and 20 characters, then its scope and creation time.
pub open spec fn spec_forget_row(t: EnrolledTemplateSummary) -> Seq<char> {
    "  #"@ + pad_right(decimal(t.id as nat), 3) + " "@ + pad_right(t.label@, 20) + " scope="@
        + spec_scope_label(spec_core_template_scope(t.scope)) + " created="@ + t.created_at@
}

fn forget_row(t: &EnrolledTemplateSummary) -> (r: String)
    ensures
        r@ == spec_forget_row(*t),
{
    let mut r = owned("  #");
    let mut id = String::new();
    push_decimal(&mut id, t.id as u64);
    push_padded_right(&mut r, &id, 3);
    string_push_str(&mut r, " ");
    push_padded_right(&mut r, &t.label, 20);
    string_push_str(&mut r, " scope=");
    string_push_str(&mut r, summary_scope_label(t));
    string_push_str(&mut r, " created=");
    string_push_str(&mut r, t.created_at.as_str());
    r
}

/// What is shown before removing all of `username`'s templates: a note when there are
/// none, else a warning naming their number and one row per template.
pub open spec fn spec_forget_listing(username: Seq<char>, ts: Seq<EnrolledTemplateSummary>) -> Seq<Seq<char>> {
    if ts.len() == 0 {
        seq!["No templates enrolled for '"@ + username + "'."@]
    } else {
        seq!["This will permanently remove "@ + decimal(ts.len()) + " template(s) for '"@ + username + "':"@]
            + ts.map_values(|t: EnrolledTemplateSummary| spec_forget_row(t))
    }
}

pub fn forget_listing(username: &str, templates: &[EnrolledTemplateSummary]) -> (r: Vec<String>)
    ensures
        lines_view(r@) == spec_forget_listing(username@, templates@),
{
    let mut r: Vec<String> = Vec::new();
    if templates.len() == 0 {
        let mut l = owned("No templates enrolled for '");
        string_push_str(&mut l, username);
        string_push_str(&mut l, "'.");
        r.push(l);
        assert(lines_view(r@) =~= spec_forget_listing(username@, templates@));
        return r;
    }
    let mut title = owned("This will permanently remove ");
    push_decimal(&mut title, templates.len() as u64);
    string_push_str(&mut title, " template(s) for '");
    string_push_str(&mut title, username);
    string_push_str(&mut title, "':");
    r.push(title);
    let ghost head = lines_view(r@);
    let mut i: usize = 0;
    while i < templates.len()
        invariant
            i <= templates@.len(),
            lines_view(r@) == head + templates@.take(i as int).map_values(|t: EnrolledTemplateSummary| spec_forget_row(t)),
        decreases templates@.len() - i,
    {
        let row = forget_row(&templates[i]);
        let ghost before = lines_view(r@);
        r.push(row);
        assert(lines_view(r@) =~= before.push(spec_forget_row(templates@[i as int])));
        assert(templates@.take(i + 1).map_values(|t: EnrolledTemplateSummary| spec_forget_row(t))
            =~= templates@.take(i as int).map_values(|t: EnrolledTemplateSummary| spec_forget_row(t)).push(spec_forget_row(templates@[i as int])));
        i += 1;
    }
    assert(templates@.take(templates@.len() as int) =~= templates@);
    assert(lines_view(r@) =~= spec_forget_listing(username@, templates@));
    r
}

/// The broker's answers to the removals, in order: the id of each template and the
/// error, if its removal failed.
pub open spec fn removed_count(outcomes: Seq<(u32, Option<Seq<char>>)>) -> nat
    decreases outcomes.len(),
{
    if outcomes.len() == 0 {
        0
    } else {
        removed_count(outcomes.drop_last()) + if outcomes.last().1 is None {
            1nat
        } else {
            0nat
        }
    }
}

/// The failed removals, in order.
pub open spec fn failures_of(outcomes: Seq<(u32, Option<Seq<char>>)>) -> Seq<(u32, Seq<char>)>
    decreases outcomes.len(),
{
    if outcomes.len() == 0 {
        seq![]
    } else {
        match outcomes.last().1 {
            Some(e) => failures_of(outcomes.drop_last()).push((outcomes.last().0, e)),
            None => failures_of(outcomes.drop_last()),
        }
    }
}

/// The line reporting one failed removal.
pub open spec fn spec_failure_line(f: (u32, Seq<char>)) -> Seq<char> {
    "  failed to remove template #"@ + decimal(f.0 as nat) + ": "@ + f.1
}

/// The report after removing `username`'s `total` templates with the given outcomes:
/// the line for standard output, the lines for standard error (one per failure), and
/// the error the command ends with when any removal failed.
pub open spec fn spec_forget_report(username: Seq<char>, total: nat, outcomes: Seq<(u32, Option<Seq<char>>)>) -> (Seq<char>, Seq<Seq<char>>, Option<Seq<char>>) {
    let failures = failures_of(outcomes);
    (
        "Removed "@ + decimal(removed_count(outcomes)) + "/"@ + decimal(total) + " template(s) for '"@ + username + "'."@,
        failures.map_values(|f: (u32, Seq<char>)| spec_failure_line(f)),
        if failures.len() == 0 {
            None
        } else {
            Some(decimal(failures.len()) + " template(s) failed to remove"@)
        },
    )
}

/// An outcome as views.
pub open spec fn outcome_view(o: (u32, Result<(), String>)) -> (u32, Option<Seq<char>>) {
    (o.0, match o.1 {
        Ok(()) => None,
        Err(e) => Some(e@),
    })
}

proof fn lemma_failures_len(outcomes: Seq<(u32, Option<Seq<char>>)>)
    ensures
        failures_of(outcomes).len() + removed_count(outcomes) == outcomes.len(),
    decreases outcomes.len(),
{
    if outcomes.len() > 0 {
        lemma_failures_len(outcomes.drop_last());
    }
}

pub fn forget_report(username: &str, total: usize, outcomes: &[(u32, Result<(), String>)]) -> (r: (String, Vec<String>, Option<String>))
    ensures
        ({
            let (out, err, fail) = spec_forget_report(username@, total as nat, outcomes@.map_values(|o: (u32, Result<(), String>)| outcome_view(o)));
            &&& r.0@ == out
            &&& lines_view(r.1@) == err
            &&& match r.2 {
                Some(e) => fail == Some(e@),
                None => fail is None,
            }
        }),
{
    let ghost os = outcomes@.map_values(|o: (u32, Result<(), String>)| outcome_view(o));
    let mut removed: usize = 0;
    let mut failed: usize = 0;
    let mut err: Vec<String> = Vec::new();
    let mut i: usize = 0;
    while i < outcomes.len()
        invariant
            i <= outcomes@.len(),
            os == outcomes@.map_values(|o: (u32, Result<(), String>)| outcome_view(o)),
            removed == removed_count(os.take(i as int)),
            failed == failures_of(os.take(i as int)).len(),
            removed + failed == i,
            lines_view(err@) == failures_of(os.take(i as int)).map_values(|f: (u32, Seq<char>)| spec_failure_line(f)),
        decreases outcomes@.len() - i,
    {
        proof {
            lemma_failures_len(os.take(i as int));
            assert(os.take(i + 1).drop_last() =~= os.take(i as int));
            assert(os.take(i + 1).last() == os[i as int]);
            assert(os[i as int] == outcome_view(outcomes@[i as int]));
        }
        match &outcomes[i].1 {
            Ok(()) => {
                removed += 1;
            },
            Err(e) => {
                let mut l = owned("  failed to remove template #");
                push_decimal(&mut l, outcomes[i].0 as u64);
                string_push_str(&mut l, ": ");
                string_push_str(&mut l, e.as_str());
                let ghost before = lines_view(err@);
                err.push(l);
                assert(lines_view(err@) =~= before.push(l@));
                assert(failures_of(os.take(i + 1)).map_values(|f: (u32, Seq<char>)| spec_failure_line(f))
                    =~= failures_of(os.take(i as int)).map_values(|f: (u32, Seq<char>)| spec_failure_line(f)).push(l@));
                failed += 1;
            },
        }
        i += 1;
    }
    assert(os.take(os.len() as int) =~= os);
    let mut out = owned("Removed ");
    push_decimal(&mut out, removed as u64);
    string_push_str(&mut out, "/");
    push_decimal(&mut out, total as u64);
    string_push_str(&mut out, " template(s) for '");
    string_push_str(&mut out, username);
    string_push_str(&mut out, "'.");
    let fail = if failed == 0 {
        None
    } else {
        let mut m = String::new();
        push_decimal(&mut m, failed as u64);
        string_push_str(&mut m, " template(s) failed to remove");
        Some(m)
    };
    (out, err, fail)
}

} // verus!
