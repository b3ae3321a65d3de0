//! Adding and removing the Facegate line in PAM service files.
//!
//! A PAM file is enabled when one of its lines, trimmed, is [`PAM_LINE`] or the older
//! bare-name form [`LEGACY_PAM_LINE`]. Enabling inserts [`PAM_LINE`] first (after a leading comment line); disabling drops every such
//! line; every other line is kept, in order. Reading, backing up and atomically
//! replacing the files is done by the binaries.
use vstd::prelude::*;

use crate::text::{
    chars_of, chars_eq, find_char, is_ws, owned, push_chars, slice_copy, string_push,
    string_push_str, trim, trim_chars, trim_end, trim_start,
};

verus! {

/// The line that routes a PAM service through Facegate. The module is named by its
/// absolute path, which works whatever directory a distribution's PAM searches.
pub const PAM_LINE: &'static str = "auth      sufficient    /usr/lib/security/pam_facegate.so";

/// The older form of the line, naming the module bare; still recognised in existing
/// files, and removed on disabling.
pub const LEGACY_PAM_LINE: &'static str = "auth      sufficient    pam_facegate.so";

/// Where a PAM service is configured locally.
pub open spec fn spec_etc_service_path(service: Seq<char>) -> Seq<char> {
    "/etc/pam.d/"@ + service
}

/// Where a PAM service is shipped by the distribution.
pub open spec fn spec_vendor_service_path(service: Seq<char>) -> Seq<char> {
    "/usr/lib/pam.d/"@ + service
}

/// The local configuration path of a PAM service.
pub fn etc_service_path(service: &str) -> (p: String)
    ensures
        p@ == spec_etc_service_path(service@),
{
    let mut p = owned("/etc/pam.d/");
    string_push_str(&mut p, service);
    p
}

/// The vendor configuration path of a PAM service.
pub fn vendor_service_path(service: &str) -> (p: String)
    ensures
        p@ == spec_vendor_service_path(service@),
{
    let mut p = owned("/usr/lib/pam.d/");
    string_push_str(&mut p, service);
    p
}

/// The path a service is read from: the local file when it exists, else the vendor
/// file when it exists.
pub fn service_path(service: &str, local_exists: bool, vendor_exists: bool) -> (r: Option<String>)
    ensures
        local_exists ==> (r matches Some(p) && p@ == spec_etc_service_path(service@)),
        !local_exists && vendor_exists ==> (r matches Some(p) && p@ == spec_vendor_service_path(
            service@,
        )),
        !local_exists && !vendor_exists ==> r is None,
{
    if local_exists {
        Some(etc_service_path(service))
    } else if vendor_exists {
        Some(vendor_service_path(service))
    } else {
        None
    }
}

/// A line without its carriage return before the line feed.
pub open spec fn strip_cr(l: Seq<char>) -> Seq<char> {
    if l.len() > 0 && l.last() == '\r' {
        l.drop_last()
    } else {
        l
    }
}

/// `str::lines`: the text split at each line feed (a carriage return before it is
/// dropped); a final line feed ends the last line instead of starting an empty one.
pub open spec fn lines_of(s: Seq<char>) -> Seq<Seq<char>>
    decreases s.len(),
{
    match find_char(s, '\n') {
        None => if s.len() == 0 {
            seq![]
        } else {
            seq![s]
        },
        Some(i) => if 0 <= i < s.len() {
            seq![strip_cr(s.take(i))] + lines_of(s.skip(i + 1))
        } else {
            seq![]
        },
    }
}

/// The line is the Facegate line, in its current or its older form, up to surrounding
/// whitespace.
pub open spec fn is_pam_line(l: Seq<char>) -> bool {
    trim(l) == PAM_LINE@ || trim(l) == LEGACY_PAM_LINE@
}

/// Some line of the text is the Facegate line.
pub open spec fn has_pam_line(s: Seq<char>) -> bool {
    exists|i: int| 0 <= i < lines_of(s).len() && is_pam_line(#[trigger] lines_of(s)[i])
}

/// The lines joined with line feeds between them (`join("\n")`).
pub open spec fn join_lines(ls: Seq<Seq<char>>) -> Seq<char>
    decreases ls.len(),
{
    if ls.len() == 0 {
        seq![]
    } else if ls.len() == 1 {
        ls[0]
    } else {
        ls[0] + seq!['\n'] + join_lines(ls.skip(1))
    }
}

/// Lines kept when disabling: all but the Facegate line.
pub open spec fn keep_line() -> spec_fn(Seq<char>) -> bool {
    |l: Seq<char>| !is_pam_line(l)
}

/// Where enabling inserts the line: after a first line that is a comment, else first.
pub open spec fn insert_at(ls: Seq<Seq<char>>) -> int {
    if ls.len() > 0 && ls[0].len() > 0 && ls[0][0] == '#' {
        1
    } else {
        0
    }
}

/// The lines of the file after the change.
pub open spec fn spec_new_lines(ls: Seq<Seq<char>>, enabled: bool) -> Seq<Seq<char>> {
    if enabled {
        ls.insert(insert_at(ls), PAM_LINE@)
    } else {
        ls.filter(keep_line())
    }
}

/// The new text of a PAM file when the requested state differs from the current one.
pub open spec fn spec_set_enabled_content(content: Seq<char>, enabled: bool) -> Option<Seq<char>> {
    if enabled == has_pam_line(content) {
        None
    } else {
        Some(join_lines(spec_new_lines(lines_of(content), enabled)) + seq!['\n'])
    }
}

proof fn lemma_find_char_bounds(s: Seq<char>, c: char)
    ensures
        find_char(s, c) matches Some(i) ==> 0 <= i < s.len() && s[i] == c && forall|j: int|
            0 <= j < i ==> s[j] != c,
        find_char(s, c) is None ==> forall|j: int| 0 <= j < s.len() ==> s[j] != c,
    decreases s.len(),
{
    if s.len() > 0 && s[0] != c {
        lemma_find_char_bounds(s.drop_first(), c);
        assert forall|j: int| 0 < j < s.len() implies s[j] == s.drop_first()[j - 1] by {}
    }
}

/// The views of a list of character vectors.
pub open spec fn views(ls: Seq<Vec<char>>) -> Seq<Seq<char>> {
    ls.map_values(|l: Vec<char>| l@)
}

/// Splits a text into its lines (`str::lines`).
pub fn split_lines(s: &[char]) -> (r: Vec<Vec<char>>)
    ensures
        views(r@) == lines_of(s@),
{
    let mut out: Vec<Vec<char>> = Vec::new();
    let mut start: usize = 0;
    assert(s@.skip(0) =~= s@);
    assert(views(out@) + lines_of(s@) =~= lines_of(s@));
    while start < s.len()
        invariant
            start <= s@.len(),
            views(out@) + lines_of(s@.skip(start as int)) == lines_of(s@),
        decreases s@.len() - start,
    {
        let ghost rest = s@.skip(start as int);
        proof {
            lemma_find_char_bounds(rest, '\n');
        }
        let mut end = start;
        while end < s.len() && s[end] != '\n'
            invariant
                start <= end <= s@.len(),
                rest == s@.skip(start as int),
                forall|j: int| start <= j < end ==> s@[j] != '\n',
            decreases s@.len() - end,
        {
            end += 1;
        }
        let mut line = slice_copy(s, start, end);
        if line.len() > 0 && line[line.len() - 1] == '\r' && end < s.len() {
            line.pop();
        }
        proof {
            if end < s@.len() {
                assert(rest[end - start] == '\n');
                assert(forall|j: int| 0 <= j < end - start ==> rest[j] == s@[start + j]);
                assert(find_char(rest, '\n') == Some(end - start as int));
                assert(rest.take(end - start) == s@.subrange(start as int, end as int));
                assert(rest.skip(end - start + 1) == s@.skip(end + 1));
            } else {
                assert(forall|j: int| 0 <= j < rest.len() ==> rest[j] == s@[start + j]);
                assert(find_char(rest, '\n') is None);
                assert(rest == s@.subrange(start as int, end as int));
                assert(s@.skip(end as int) =~= seq![]);
            }
        }
        let ghost before = views(out@);
        out.push(line);
        assert(views(out@) =~= before.push(line@));
        if end < s.len() {
            start = end + 1;
        } else {
            start = end;
        }
    }
    assert(s@.skip(start as int) =~= seq![]);
    out
}

proof fn lemma_join_lines_push(ls: Seq<Seq<char>>, x: Seq<char>)
    ensures
        join_lines(ls.push(x)) == if ls.len() == 0 {
            x
        } else {
            join_lines(ls) + seq!['\n'] + x
        },
    decreases ls.len(),
{
    if ls.len() == 0 {
        assert(ls.push(x).len() == 1);
        assert(ls.push(x)[0] == x);
    } else if ls.len() == 1 {
        assert(ls.push(x).skip(1) =~= seq![x]);
        assert(join_lines(seq![x]) == x);
        assert(join_lines(ls) == ls[0]);
        assert(join_lines(ls.push(x)) =~= ls[0] + seq!['\n'] + x);
    } else {
        assert(ls.push(x).skip(1) =~= ls.skip(1).push(x));
        lemma_join_lines_push(ls.skip(1), x);
        assert(join_lines(ls.push(x)) =~= join_lines(ls) + seq!['\n'] + x);
    }
}

fn pam_line_chars() -> (r: Vec<char>)
    ensures
        r@ == PAM_LINE@,
{
    chars_of(PAM_LINE)
}

fn line_is_pam(l: &[char]) -> (r: bool)
    ensures
        r == is_pam_line(l@),
{
    let t = trim_chars(l);
    let p = pam_line_chars();
    let q = chars_of(LEGACY_PAM_LINE);
    chars_eq(t.as_slice(), p.as_slice()) || chars_eq(t.as_slice(), q.as_slice())
}

fn any_pam_line(ls: &Vec<Vec<char>>) -> (r: bool)
    ensures
        r == exists|i: int| 0 <= i < ls@.len() && is_pam_line(#[trigger] views(ls@)[i]),
{
    let mut i: usize = 0;
    while i < ls.len()
        invariant
            i <= ls@.len(),
            forall|j: int| 0 <= j < i ==> !is_pam_line(#[trigger] views(ls@)[j]),
        decreases ls@.len() - i,
    {
        if line_is_pam(ls[i].as_slice()) {
            assert(views(ls@)[i as int] == ls@[i as int]@);
            return true;
        }
        assert(views(ls@)[i as int] == ls@[i as int]@);
        i += 1;
    }
    false
}

/// Whether a PAM file's text holds the Facegate line.
pub fn content_has_line(content: &str) -> (r: bool)
    ensures
        r == has_pam_line(content@),
{
    let cs = chars_of(content);
    let ls = split_lines(cs.as_slice());
    any_pam_line(&ls)
}

fn join_with_final_newline(ls: &Vec<Vec<char>>) -> (r: String)
    ensures
        r@ == join_lines(views(ls@)) + seq!['\n'],
{
    let mut out = String::new();
    let mut i: usize = 0;
    while i < ls.len()
        invariant
            i <= ls@.len(),
            out@ == join_lines(views(ls@).take(i as int)),
        decreases ls@.len() - i,
    {
        proof {
            assert(views(ls@).take(i + 1) =~= views(ls@).take(i as int).push(ls@[i as int]@));
            lemma_join_lines_push(views(ls@).take(i as int), ls@[i as int]@);
        }
        if i > 0 {
            string_push(&mut out, '\n');
        }
        push_chars(&mut out, ls[i].as_slice());
        i += 1;
    }
    assert(views(ls@).take(ls@.len() as int) =~= views(ls@));
    string_push(&mut out, '\n');
    out
}

/// The new text of a PAM file asked to be `enabled` (see [`spec_set_enabled_content`]),
/// or nothing when it already is in that state.
pub fn set_enabled_content(content: &str, enabled: bool) -> (r: Option<String>)
    ensures
        match spec_set_enabled_content(content@, enabled) {
            None => r is None,
            Some(t) => r matches Some(x) && x@ == t,
        },
{
    let cs = chars_of(content);
    let ls = split_lines(cs.as_slice());
    let already = any_pam_line(&ls);
    if enabled == already {
        return None;
    }
    let ghost old_views = views(ls@);
    let mut lines = ls;
    if enabled {
        let at: usize = if lines.len() > 0 && lines[0].len() > 0 && lines[0][0] == '#' {
            1
        } else {
            0
        };
        assert(at == insert_at(old_views)) by {
            if lines@.len() > 0 {
                assert(old_views[0] == lines@[0]@);
            }
        }
        lines.insert(at, pam_line_chars());
        assert(views(lines@) =~= old_views.insert(at as int, PAM_LINE@));
        Some(join_with_final_newline(&lines))
    } else {
        let mut kept: Vec<Vec<char>> = Vec::new();
        let mut i: usize = 0;
        while i < lines.len()
            invariant
                i <= lines@.len(),
                views(lines@) == old_views,
                views(kept@) == old_views.take(i as int).filter(keep_line()),
            decreases lines@.len() - i,
        {
            proof {
                reveal_with_fuel(Seq::<_>::filter, 1);
                assert(old_views.take(i + 1).drop_last() =~= old_views.take(i as int));
                assert(old_views.take(i + 1).last() == lines@[i as int]@);
            }
            let keep = !line_is_pam(lines[i].as_slice());
            if keep {
                let ghost before = views(kept@);
                kept.push(slice_copy(lines[i].as_slice(), 0, lines[i].len()));
                assert(lines@[i as int]@.subrange(0, lines@[i as int]@.len() as int) =~= lines@[i as int]@);
                assert(views(kept@) =~= before.push(lines@[i as int]@));
            }
            i += 1;
        }
        assert(old_views.take(lines@.len() as int) =~= old_views);
        Some(join_with_final_newline(&kept))
    }
}

// ── Laws ─────────────────────────────────────────────────────────────────────

/// No character of the line is a line feed.
pub open spec fn no_newline(l: Seq<char>) -> bool {
    forall|j: int| 0 <= j < l.len() ==> l[j] != '\n'
}

proof fn lemma_find_char_first(s: Seq<char>, c: char, k: int)
    requires
        0 <= k < s.len(),
        s[k] == c,
        forall|j: int| 0 <= j < k ==> s[j] != c,
    ensures
        find_char(s, c) == Some(k),
    decreases k,
{
    if k > 0 {
        assert forall|j: int| 0 <= j < k - 1 implies s.drop_first()[j] != c by {
            assert(s.drop_first()[j] == s[j + 1]);
        }
        lemma_find_char_first(s.drop_first(), c, k - 1);
    }
}

proof fn lemma_lines_of_line(a: Seq<char>, rest: Seq<char>)
    requires
        no_newline(a),
    ensures
        lines_of(a + seq!['\n'] + rest) == seq![strip_cr(a)] + lines_of(rest),
{
    let s = a + seq!['\n'] + rest;
    lemma_find_char_first(s, '\n', a.len() as int);
    assert(s.take(a.len() as int) =~= a);
    assert(s.skip(a.len() as int + 1) =~= rest);
}

/// Reading back the lines written with a final line feed gives the same lines, up to a
/// carriage return at their ends.
pub proof fn lemma_lines_of_join(ls: Seq<Seq<char>>)
    requires
        ls.len() > 0,
        forall|i: int| 0 <= i < ls.len() ==> no_newline(#[trigger] ls[i]),
    ensures
        lines_of(join_lines(ls) + seq!['\n']) == ls.map_values(|l: Seq<char>| strip_cr(l)),
    decreases ls.len(),
{
    if ls.len() == 1 {
        lemma_lines_of_line(ls[0], seq![]);
        assert(ls[0] + seq!['\n'] + Seq::<char>::empty() =~= ls[0] + seq!['\n']);
        assert(lines_of(Seq::<char>::empty()) =~= seq![]);
        assert(ls.map_values(|l: Seq<char>| strip_cr(l)) =~= seq![strip_cr(ls[0])]);
    } else {
        let rest = ls.skip(1);
        assert forall|i: int| 0 <= i < rest.len() implies no_newline(#[trigger] rest[i]) by {
            assert(rest[i] == ls[i + 1]);
        }
        lemma_lines_of_join(rest);
        lemma_lines_of_line(ls[0], join_lines(rest) + seq!['\n']);
        assert(join_lines(ls) + seq!['\n'] =~= ls[0] + seq!['\n'] + (join_lines(rest) + seq!['\n']));
        assert(ls.map_values(|l: Seq<char>| strip_cr(l)) =~= seq![strip_cr(ls[0])] + rest.map_values(
            |l: Seq<char>| strip_cr(l),
        ));
    }
}

/// The lines of a text have no line feed.
pub proof fn lemma_lines_have_no_newline(s: Seq<char>)
    ensures
        forall|i: int| 0 <= i < lines_of(s).len() ==> no_newline(#[trigger] lines_of(s)[i]),
    decreases s.len(),
{
    lemma_find_char_bounds(s, '\n');
    match find_char(s, '\n') {
        None => {},
        Some(k) => {
            lemma_lines_have_no_newline(s.skip(k + 1));
            let first = strip_cr(s.take(k));
            assert(no_newline(first));
            assert forall|i: int| 0 <= i < lines_of(s).len() implies no_newline(#[trigger] lines_of(s)[i]) by {
                if i > 0 {
                    assert(lines_of(s)[i] == lines_of(s.skip(k + 1))[i - 1]);
                }
            }
        },
    }
}

proof fn lemma_trim_start_push(x: Seq<char>, c: char)
    requires
        trim_start(x).len() > 0,
    ensures
        trim_start(x.push(c)) == trim_start(x).push(c),
    decreases x.len(),
{
    if x.len() > 0 && is_ws(x[0]) {
        assert(x.push(c).drop_first() =~= x.drop_first().push(c));
        lemma_trim_start_push(x.drop_first(), c);
    }
}

proof fn lemma_trim_push_ws(x: Seq<char>, c: char)
    requires
        trim(x).len() > 0,
        is_ws(c),
    ensures
        trim(x.push(c)) == trim(x),
{
    assert(trim_start(x).len() > 0);
    lemma_trim_start_push(x, c);
    assert(trim_start(x).push(c).drop_last() =~= trim_start(x));
}

/// A line is the Facegate line exactly when it is once its carriage return is dropped.
proof fn lemma_is_pam_line_strip_cr(l: Seq<char>)
    ensures
        is_pam_line(strip_cr(l)) == is_pam_line(l),
{
    reveal_strlit("auth      sufficient    /usr/lib/security/pam_facegate.so");
    reveal_strlit("auth      sufficient    pam_facegate.so");
    if l.len() > 0 && l.last() == '\r' {
        let y = l.drop_last();
        assert(y.push('\r') =~= l);
        if trim(y).len() > 0 {
            lemma_trim_push_ws(y, '\r');
        } else {
            if is_pam_line(l) {
                assert(trim(l) == trim_end(trim_start(l)));
            }
            lemma_trim_empty_push_ws(y, '\r');
        }
    }
}

proof fn lemma_trim_empty_push_ws(x: Seq<char>, c: char)
    requires
        trim(x).len() == 0,
        is_ws(c),
    ensures
        trim(x.push(c)).len() == 0,
    decreases x.len(),
{
    if x.len() > 0 && is_ws(x[0]) {
        assert(x.push(c).drop_first() =~= x.drop_first().push(c));
        assert(x.push(c)[0] == x[0]);
        assert(trim_start(x) == trim_start(x.drop_first()));
        assert(trim(x.drop_first()).len() == 0);
        lemma_trim_empty_push_ws(x.drop_first(), c);
        assert(trim_start(x.push(c)) == trim_start(x.drop_first().push(c)));
    } else if x.len() == 0 {
        assert(x.push(c) =~= seq![c]);
        assert(trim_start(seq![c]) == trim_start(seq![c].drop_first()));
        assert(seq![c].drop_first() =~= Seq::<char>::empty());
    } else {
        assert(trim_start(x) == x);
        lemma_trim_end_keeps_first(x);
    }
}

proof fn lemma_trim_end_keeps_first(x: Seq<char>)
    requires
        x.len() > 0,
        !is_ws(x[0]),
    ensures
        trim_end(x).len() > 0,
    decreases x.len(),
{
    if is_ws(x.last()) {
        if x.len() > 1 {
            lemma_trim_end_keeps_first(x.drop_last());
        }
    }
}

/// Enabling a PAM file that lacks the Facegate line writes a file that has it, and
/// keeps every other line in order, the Facegate line inserted first or after a
/// leading comment line.
pub proof fn law_enable_adds_line(content: Seq<char>)
    requires
        !has_pam_line(content),
    ensures
        spec_set_enabled_content(content, true) matches Some(t) && has_pam_line(t)
            && lines_of(t) == spec_new_lines(lines_of(content), true).map_values(|l: Seq<char>| strip_cr(l)),
{
    reveal_strlit("auth      sufficient    /usr/lib/security/pam_facegate.so");
    reveal_strlit("auth      sufficient    pam_facegate.so");
    let ls = lines_of(content);
    let n = spec_new_lines(ls, true);
    lemma_lines_have_no_newline(content);
    assert forall|i: int| 0 <= i < n.len() implies no_newline(#[trigger] n[i]) by {
        let at = insert_at(ls);
        if i < at {
            assert(n[i] == ls[i]);
        } else if i > at {
            assert(n[i] == ls[i - 1]);
        }
    }
    lemma_lines_of_join(n);
    let t = join_lines(n) + seq!['\n'];
    let at = insert_at(ls);
    assert(n[at] == PAM_LINE@);
    assert(strip_cr(PAM_LINE@) == PAM_LINE@);
    assert(lines_of(t)[at] == PAM_LINE@);
    assert(trim_start(PAM_LINE@) == PAM_LINE@);
    assert(trim_end(PAM_LINE@) == PAM_LINE@);
    assert(is_pam_line(lines_of(t)[at]));
}

/// Disabling a PAM file that has the Facegate line writes a file without it, keeping
/// every other line in order.
pub proof fn law_disable_removes_line(content: Seq<char>)
    requires
        has_pam_line(content),
    ensures
        spec_set_enabled_content(content, false) matches Some(t) && !has_pam_line(t)
            && (lines_of(t) == spec_new_lines(lines_of(content), false).map_values(|l: Seq<char>| strip_cr(l))
                || (spec_new_lines(lines_of(content), false).len() == 0 && lines_of(t) == seq![Seq::<char>::empty()])),
{
    reveal_strlit("auth      sufficient    /usr/lib/security/pam_facegate.so");
    reveal_strlit("auth      sufficient    pam_facegate.so");
    let ls = lines_of(content);
    let n = spec_new_lines(ls, false);
    lemma_lines_have_no_newline(content);
    let t = join_lines(n) + seq!['\n'];
    assert forall|i: int| 0 <= i < n.len() implies no_newline(#[trigger] n[i]) && !is_pam_line(n[i]) by {
        lemma_filter_member(ls, keep_line(), i);
        let j = choose|j: int| 0 <= j < ls.len() && ls[j] == n[i];
        assert(no_newline(ls[j]));
    }
    if n.len() > 0 {
        lemma_lines_of_join(n);
        assert forall|i: int| 0 <= i < lines_of(t).len() implies !is_pam_line(#[trigger] lines_of(t)[i]) by {
            lemma_is_pam_line_strip_cr(n[i]);
        }
    } else {
        assert(t =~= seq!['\n']);
        lemma_lines_of_line(Seq::<char>::empty(), Seq::<char>::empty());
        assert(Seq::<char>::empty() + seq!['\n'] + Seq::<char>::empty() =~= t);
        assert(lines_of(Seq::<char>::empty()) =~= seq![]);
        assert(strip_cr(Seq::<char>::empty()) =~= Seq::<char>::empty());
        assert(lines_of(t) =~= seq![Seq::<char>::empty()]);
        assert(trim_start(Seq::<char>::empty()) == Seq::<char>::empty());
        assert(trim(Seq::<char>::empty()) == Seq::<char>::empty());
        assert(!is_pam_line(lines_of(t)[0]));
    }
}

proof fn lemma_filter_member(ls: Seq<Seq<char>>, p: spec_fn(Seq<char>) -> bool, i: int)
    requires
        0 <= i < ls.filter(p).len(),
    ensures
        p(ls.filter(p)[i]),
        ls.contains(ls.filter(p)[i]),
{
    ls.lemma_filter_pred(p, i);
    ls.lemma_filter_contains_rev(p, ls.filter(p)[i]);
}

/// Asking for the state a PAM file is already in leaves it untouched.
pub proof fn law_toggle_is_idempotent(content: Seq<char>, enabled: bool)
    requires
        has_pam_line(content) == enabled,
    ensures
        spec_set_enabled_content(content, enabled) is None,
{
}

} // verus!

verus! {

/// The login and screen-lock PAM services session authentication applies to, each with
/// a name to show, in the order they are offered.
pub open spec fn spec_session_services() -> Seq<(Seq<char>, Seq<char>)> {
    Seq::empty()
        .push(("console login"@, "login"@))
        .push(("GDM"@, "gdm-password"@))
        .push(("GDM3 (Ubuntu/Debian)"@, "gdm3"@))
        .push(("GDM (generic)"@, "gdm"@))
        .push(("SDDM"@, "sddm"@))
        .push(("LightDM"@, "lightdm"@))
        .push(("greetd"@, "greetd"@))
        .push(("KDE / Plasma lock screen"@, "kde"@))
        .push(("vlock"@, "vlock"@))
        .push(("GNOME screensaver"@, "gnome-screensaver"@))
        .push(("swaylock"@, "swaylock"@))
        .push(("hyprlock"@, "hyprlock"@))
        .push(("i3lock"@, "i3lock"@))
}

/// The views of a list of (name, service) pairs.
pub open spec fn pair_views(v: Seq<(&'static str, &'static str)>) -> Seq<(Seq<char>, Seq<char>)> {
    v.map_values(|p: (&'static str, &'static str)| (p.0@, p.1@))
}

/// The supported session PAM services (see [`spec_session_services`]).
pub fn session_services() -> (r: Vec<(&'static str, &'static str)>)
    ensures
        pair_views(r@) == spec_session_services(),
{
    let mut v: Vec<(&'static str, &'static str)> = Vec::new();
    v.push(("console login", "login"));
    v.push(("GDM", "gdm-password"));
    v.push(("GDM3 (Ubuntu/Debian)", "gdm3"));
    v.push(("GDM (generic)", "gdm"));
    v.push(("SDDM", "sddm"));
    v.push(("LightDM", "lightdm"));
    v.push(("greetd", "greetd"));
    v.push(("KDE / Plasma lock screen", "kde"));
    v.push(("vlock", "vlock"));
    v.push(("GNOME screensaver", "gnome-screensaver"));
    v.push(("swaylock", "swaylock"));
    v.push(("hyprlock", "hyprlock"));
    v.push(("i3lock", "i3lock"));
    assert(pair_views(v@) =~= spec_session_services());
    v
}

/// The PAM files sudo authentication is configured in, when they exist.
pub open spec fn spec_sudo_pam_files() -> Seq<Seq<char>> {
    seq!["/etc/pam.d/sudo"@, "/etc/pam.d/sudo-i"@]
}

/// The sudo PAM files (see [`spec_sudo_pam_files`]).
pub fn sudo_pam_files() -> (r: Vec<&'static str>)
    ensures
        r@.map_values(|s: &'static str| s@) == spec_sudo_pam_files(),
{
    let mut v: Vec<&'static str> = Vec::new();
    v.push("/etc/pam.d/sudo");
    v.push("/etc/pam.d/sudo-i");
    assert(v@.map_values(|s: &'static str| s@) =~= spec_sudo_pam_files());
    v
}

} // verus!
