//! The table of enrolled users shown by `facegate users`.
use vstd::prelude::*;

use crate::ipc::{EnrolledUserSummary, OwnershipSummary, TemplateScope};
use crate::text::{decimal, digit_char, owned, push_decimal, repeat, string_push, string_push_str};

verus! {

/// Octal notation of a natural number (`{:o}`).
pub open spec fn octal(n: nat) -> Seq<char>
    decreases n,
{
    if n < 8 {
        seq![digit_char(n as int)]
    } else {
        octal(n / 8).push(digit_char((n % 8) as int))
    }
}

/// Appends the octal notation of `n`.
pub(crate) fn push_octal(out: &mut String, n: u32)
    ensures
        final(out)@ == old(out)@ + octal(n as nat),
    decreases n,
{
    if n >= 8 {
        push_octal(out, n / 8);
    }
    let d = (n % 8) as u8;
    string_push(out, (d + 48) as char);
}

/// `s` left-aligned in a column of `width` characters (`{:<width}`).
pub open spec fn pad_right(s: Seq<char>, width: nat) -> Seq<char> {
    if s.len() >= width {
        s
    } else {
        s + repeat(' ', (width - s.len()) as nat)
    }
}

/// `s` right-aligned in a column of `width` characters (`{:>width}`).
pub open spec fn pad_left(s: Seq<char>, width: nat) -> Seq<char> {
    if s.len() >= width {
        s
    } else {
        repeat(' ', (width - s.len()) as nat) + s
    }
}

pub(crate) fn push_spaces(out: &mut String, n: usize)
    ensures
        final(out)@ == old(out)@ + repeat(' ', n as nat),
{
    let mut k: usize = 0;
    while k < n
        invariant
            k <= n,
            out@ == old(out)@ + repeat(' ', k as nat),
        decreases n - k,
    {
        string_push(out, ' ');
        assert(repeat(' ', (k + 1) as nat) =~= repeat(' ', k as nat).push(' '));
        k += 1;
    }
}

pub(crate) fn push_padded_right(out: &mut String, s: &String, width: usize)
    ensures
        final(out)@ == old(out)@ + pad_right(s@, width as nat),
{
    let cs = crate::text::chars_of(s.as_str());
    crate::text::push_chars(out, cs.as_slice());
    if cs.len() < width {
        push_spaces(out, width - cs.len());
    }
}

/// The scopes of a user's templates, comma-separated, or `-` when there are none.
pub open spec fn spec_scopes_label(scopes: Seq<TemplateScope>) -> Seq<char>
    decreases scopes.len(),
{
    if scopes.len() == 0 {
        "-"@
    } else if scopes.len() == 1 {
        crate::storage::spec_scope_label(crate::storage::spec_core_template_scope(scopes[0]))
    } else {
        spec_scopes_label(scopes.drop_last()) + ","@ + crate::storage::spec_scope_label(
            crate::storage::spec_core_template_scope(scopes.last()),
        )
    }
}

fn scope_name(s: TemplateScope) -> (r: &'static str)
    ensures
        r@ == crate::storage::spec_scope_label(crate::storage::spec_core_template_scope(s)),
{
    match s {
        TemplateScope::Sudo => "sudo",
        TemplateScope::Session => "session",
        TemplateScope::Both => "both",
    }
}

/// The scopes of a user's templates, as shown in the table.
pub fn scopes_label(scopes: &[TemplateScope]) -> (r: String)
    ensures
        r@ == spec_scopes_label(scopes@),
{
    if scopes.len() == 0 {
        return owned("-");
    }
    let mut out = owned(scope_name(scopes[0]));
    let mut i: usize = 1;
    while i < scopes.len()
        invariant
            1 <= i <= scopes@.len(),
            out@ == spec_scopes_label(scopes@.take(i as int)),
        decreases scopes@.len() - i,
    {
        proof {
            assert(scopes@.take(i + 1).drop_last() =~= scopes@.take(i as int));
            assert(scopes@.take(1) =~= seq![scopes@[0]]);
        }
        string_push_str(&mut out, ",");
        string_push_str(&mut out, scope_name(scopes[i]));
        i += 1;
    }
    assert(scopes@.take(scopes@.len() as int) =~= scopes@);
    out
}

/// The ownership check of a file as shown in the table: its octal mode and `ok` or
/// `fix`, or `missing` when the file does not exist.
pub open spec fn spec_ownership_label(summary: Option<OwnershipSummary>) -> Seq<char> {
    match summary {
        Some(s) => octal(s.mode as nat) + if s.ok {
            ":ok"@
        } else {
            ":fix"@
        },
        None => "missing"@,
    }
}

/// The ownership check of a file, as shown in the table.
pub fn ownership_label(summary: Option<&OwnershipSummary>) -> (r: String)
    ensures
        r@ == spec_ownership_label(
            match summary {
                Some(s) => Some(*s),
                None => None,
            },
        ),
{
    match summary {
        Some(s) => {
            let mut out = String::new();
            push_octal(&mut out, s.mode);
            if s.ok {
                string_push_str(&mut out, ":ok");
            } else {
                string_push_str(&mut out, ":fix");
            }
            out
        },
        None => owned("missing"),
    }
}

/// The optional text of a column, or `-`.
pub open spec fn or_dash(s: Option<String>) -> Seq<char> {
    match s {
        Some(t) => t@,
        None => "-"@,
    }
}

/// A row of the table: user, template count, scopes, first and last enrollment, and
/// the ownership checks of the directory and the embeddings file, in columns of 20,
/// 9 (right-aligned), 18, 20, 20, 10 and 10 characters separated by a space.
pub open spec fn spec_table_line(u: EnrolledUserSummary) -> Seq<char> {
    pad_right(u.username@, 20) + " "@ + pad_left(decimal(u.template_count as nat), 9) + " "@
        + pad_right(spec_scopes_label(u.scopes@), 18) + " "@ + pad_right(
        or_dash(u.first_enrolled_at),
        20,
    ) + " "@ + pad_right(or_dash(u.last_enrolled_at), 20) + " "@ + pad_right(
        spec_ownership_label(u.directory),
        10,
    ) + " "@ + pad_right(spec_ownership_label(u.embeddings_file), 10)
}

fn or_dash_string(s: &Option<String>) -> (r: String)
    ensures
        r@ == or_dash(*s),
{
    match s {
        Some(t) => owned(t.as_str()),
        None => owned("-"),
    }
}

/// A row of the users table.
pub fn table_line(user: &EnrolledUserSummary) -> (r: String)
    ensures
        r@ == spec_table_line(*user),
{
    let mut out = String::new();
    push_padded_right(&mut out, &user.username, 20);
    string_push_str(&mut out, " ");
    let count_len = crate::text::decimal_len(user.template_count as u64);
    if count_len < 9 {
        push_spaces(&mut out, 9 - count_len);
    }
    push_decimal(&mut out, user.template_count as u64);
    string_push_str(&mut out, " ");
    let scopes = scopes_label(user.scopes.as_slice());
    push_padded_right(&mut out, &scopes, 18);
    string_push_str(&mut out, " ");
    let first = or_dash_string(&user.first_enrolled_at);
    push_padded_right(&mut out, &first, 20);
    string_push_str(&mut out, " ");
    let last = or_dash_string(&user.last_enrolled_at);
    push_padded_right(&mut out, &last, 20);
    string_push_str(&mut out, " ");
    let dir = ownership_label(user.directory.as_ref());
    push_padded_right(&mut out, &dir, 10);
    string_push_str(&mut out, " ");
    let file = ownership_label(user.embeddings_file.as_ref());
    push_padded_right(&mut out, &file, 10);
    proof {
        reveal_strlit(" ");
    }
    assert(out@ =~= spec_table_line(*user));
    out
}

/// The header row of the users table.
pub open spec fn spec_table_header() -> Seq<char> {
    pad_right("USER"@, 20) + " "@ + pad_left("TEMPLATES"@, 9) + " "@ + pad_right("SCOPES"@, 18)
        + " "@ + pad_right("FIRST"@, 20) + " "@ + pad_right("LAST"@, 20) + " "@ + pad_right(
        "DIR"@,
        10,
    ) + " "@ + pad_right("FILE"@, 10)
}

/// The lines shown for the users: a note when there are none, else the header and one
/// row per user.
pub fn table_lines(users: &[EnrolledUserSummary]) -> (r: Vec<String>)
    ensures
        users@.len() == 0 ==> r@.len() == 1 && r@[0]@ == "No enrolled users."@,
        users@.len() > 0 ==> r@.len() == users@.len() + 1 && r@[0]@ == spec_table_header()
            && forall|i: int| 0 <= i < users@.len() ==> (#[trigger] r@[i + 1])@ == spec_table_line(
                users@[i],
            ),
{
    let mut r: Vec<String> = Vec::new();
    if users.len() == 0 {
        r.push(owned("No enrolled users."));
        return r;
    }
    let mut header = String::new();
    push_padded_right(&mut header, &owned("USER"), 20);
    string_push_str(&mut header, " ");
    string_push_str(&mut header, "TEMPLATES");
    string_push_str(&mut header, " ");
    push_padded_right(&mut header, &owned("SCOPES"), 18);
    string_push_str(&mut header, " ");
    push_padded_right(&mut header, &owned("FIRST"), 20);
    string_push_str(&mut header, " ");
    push_padded_right(&mut header, &owned("LAST"), 20);
    string_push_str(&mut header, " ");
    push_padded_right(&mut header, &owned("DIR"), 10);
    string_push_str(&mut header, " ");
    push_padded_right(&mut header, &owned("FILE"), 10);
    proof {
        reveal_strlit("TEMPLATES");
    }
    assert(header@ =~= spec_table_header());
    r.push(header);
    let mut i: usize = 0;
    while i < users.len()
        invariant
            i <= users@.len(),
            r@.len() == i + 1,
            r@[0]@ == spec_table_header(),
            forall|j: int| 0 <= j < i ==> (#[trigger] r@[j + 1])@ == spec_table_line(users@[j]),
        decreases users@.len() - i,
    {
        r.push(table_line(&users[i]));
        i += 1;
    }
    r
}

/// The lines listing a user's templates: a note when there are none, else a title,
/// a header, a rule, and one row per template (id, creation time and scope in columns
/// of 4, 20 and 8 characters, then the label).
pub open spec fn spec_template_list_lines(username: Seq<char>, ts: Seq<crate::ipc::EnrolledTemplateSummary>) -> Seq<Seq<char>> {
    if ts.len() == 0 {
        seq!["No enrolled templates for '"@ + username + "'."@]
    } else {
        seq![
            "Templates for '"@ + username + "':\n"@,
            "  "@ + pad_right("ID"@, 4) + "  "@ + pad_right("Created"@, 20) + "  "@ + pad_right("Scope"@, 8) + "  Label"@,
            "  "@ + repeat('─', 57),
        ] + Seq::new(ts.len(), |i: int| spec_template_row(ts[i]))
    }
}

/// One row of a user's template list.
pub open spec fn spec_template_row(t: crate::ipc::EnrolledTemplateSummary) -> Seq<char> {
    "  "@ + pad_right(decimal(t.id as nat), 4) + "  "@ + pad_right(t.created_at@, 20) + "  "@
        + pad_right(
        crate::storage::spec_scope_label(crate::storage::spec_core_template_scope(t.scope)),
        8,
    ) + "  "@ + t.label@
}

fn template_row(t: &crate::ipc::EnrolledTemplateSummary) -> (r: String)
    ensures
        r@ == spec_template_row(*t),
{
    let mut out = owned("  ");
    let mut id = String::new();
    push_decimal(&mut id, t.id as u64);
    push_padded_right(&mut out, &id, 4);
    string_push_str(&mut out, "  ");
    push_padded_right(&mut out, &t.created_at, 20);
    string_push_str(&mut out, "  ");
    let scope = owned(crate::broker_client::summary_scope_label(t));
    push_padded_right(&mut out, &scope, 8);
    string_push_str(&mut out, "  ");
    string_push_str(&mut out, t.label.as_str());
    out
}

/// The lines listing a user's templates.
pub fn template_list_lines(username: &str, templates: &[crate::ipc::EnrolledTemplateSummary]) -> (r: Vec<String>)
    ensures
        r@.map_values(|s: String| s@) == spec_template_list_lines(username@, templates@),
{
    let mut r: Vec<String> = Vec::new();
    if templates.len() == 0 {
        let mut l = owned("No enrolled templates for '");
        string_push_str(&mut l, username);
        string_push_str(&mut l, "'.");
        r.push(l);
        assert(r@.map_values(|s: String| s@) =~= spec_template_list_lines(username@, templates@));
        return r;
    }
    let mut title = owned("Templates for '");
    string_push_str(&mut title, username);
    string_push_str(&mut title, "':\n");
    r.push(title);
    let mut header = owned("  ");
    push_padded_right(&mut header, &owned("ID"), 4);
    string_push_str(&mut header, "  ");
    push_padded_right(&mut header, &owned("Created"), 20);
    string_push_str(&mut header, "  ");
    push_padded_right(&mut header, &owned("Scope"), 8);
    string_push_str(&mut header, "  Label");
    r.push(header);
    let mut rule = owned("  ");
    let mut k: usize = 0;
    while k < 57
        invariant
            k <= 57,
            rule@ == "  "@ + repeat('─', k as nat),
        decreases 57 - k,
    {
        string_push(&mut rule, '─');
        assert(repeat('─', (k + 1) as nat) =~= repeat('─', k as nat).push('─'));
        k += 1;
    }
    r.push(rule);
    let ghost head = r@.map_values(|s: String| s@);
    let mut i: usize = 0;
    while i < templates.len()
        invariant
            i <= templates@.len(),
            r@.len() == 3 + i,
            r@.map_values(|s: String| s@) == head + Seq::new(i as nat, |j: int| spec_template_row(templates@[j])),
        decreases templates@.len() - i,
    {
        let row = template_row(&templates[i]);
        let ghost before = r@.map_values(|s: String| s@);
        r.push(row);
        assert(r@.map_values(|s: String| s@) =~= before.push(spec_template_row(templates@[i as int])));
        assert(Seq::new((i + 1) as nat, |j: int| spec_template_row(templates@[j])) =~= Seq::new(i as nat, |j: int| spec_template_row(templates@[j])).push(spec_template_row(templates@[i as int])));
        i += 1;
    }
    assert(r@.map_values(|s: String| s@) =~= spec_template_list_lines(username@, templates@));
    r
}

} // verus!
