//! Character-level helpers shared by the formatting and parsing code.
//!
//! Text is modelled by its view, the `Seq<char>` of its Unicode scalar values.
use vstd::prelude::*;

verus! {

/// Appends one character to a `String` (`String::push`).
#[verifier::external_body]
pub(crate) fn string_push(s: &mut String, c: char)
    ensures
        final(s)@ == old(s)@.push(c),
{
    s.push(c);
}

/// Appends a string slice to a `String`.
pub(crate) fn string_push_str(s: &mut String, t: &str)
    ensures
        final(s)@ == old(s)@ + t@,
{
    s.append(t);
}

/// A `String` holding a copy of a string slice (`str::to_owned`).
pub fn owned(t: &str) -> (out: String)
    ensures
        out@ == t@,
{
    t.to_owned()
}

/// The characters of a string slice, in order.
pub fn chars_of(s: &str) -> (out: Vec<char>)
    ensures
        out@ == s@,
{
    let mut out: Vec<char> = Vec::new();
    for c in it: s.chars()
        invariant
            out@ == it.seq().take(it.index() as int),
    {
        out.push(c);
    }
    out
}

/// Appends a run of characters to a `String`.
pub fn push_chars(out: &mut String, cs: &[char])
    ensures
        final(out)@ == old(out)@ + cs@,
{
    let mut i: usize = 0;
    while i < cs.len()
        invariant
            i <= cs.len(),
            out@ == old(out)@ + cs@.take(i as int),
        decreases cs.len() - i,
    {
        string_push(out, cs[i]);
        assert(cs@.take(i + 1) == cs@.take(i as int).push(cs@[i as int]));
        i += 1;
    }
    assert(cs@.take(cs.len() as int) == cs@);
}

/// Builds a `String` from a character sequence.
pub fn string_from_chars(cs: &[char]) -> (out: String)
    ensures
        out@ == cs@,
{
    let mut out = String::new();
    push_chars(&mut out, cs);
    out
}

/// The ASCII digit character for `d` in `0..10`.
pub open spec fn digit_char(d: int) -> char {
    ((d + 48) as u8) as char
}

/// Decimal notation of a natural number, without leading zeros.
pub open spec fn decimal(n: nat) -> Seq<char>
    decreases n,
{
    if n < 10 {
        seq![digit_char(n as int)]
    } else {
        decimal(n / 10).push(digit_char((n % 10) as int))
    }
}

/// `n` of the character `c`.
pub open spec fn repeat(c: char, n: nat) -> Seq<char> {
    Seq::new(n, |i: int| c)
}

/// Decimal notation of `n`, left-padded with zeros to at least `width` characters
/// (Rust's `{:0width$}` for a non-negative integer).
pub open spec fn zero_padded(n: nat, width: nat) -> Seq<char> {
    let d = decimal(n);
    if d.len() >= width {
        d
    } else {
        repeat('0', (width - d.len()) as nat) + d
    }
}

/// Decimal notation of a signed integer padded with zeros after the sign to at least
/// `width` characters (Rust's `{:0width$}` for a signed integer).
pub open spec fn signed_zero_padded(n: int, width: nat) -> Seq<char> {
    if n < 0 {
        seq!['-'] + zero_padded((-n) as nat, if width > 0 { (width - 1) as nat } else { 0 })
    } else {
        zero_padded(n as nat, width)
    }
}

pub proof fn lemma_decimal_len_pos(n: nat)
    ensures
        decimal(n).len() >= 1,
    decreases n,
{
    if n >= 10 {
        lemma_decimal_len_pos(n / 10);
    }
}

/// Number of characters in the decimal notation of `n`.
pub fn decimal_len(n: u64) -> (len: usize)
    ensures
        len == decimal(n as nat).len(),
        1 <= len <= 20,
    decreases n,
{
    if n < 10 {
        1
    } else {
        let l = decimal_len(n / 10);
        proof {
            lemma_decimal_len_pos((n / 10) as nat);
        }
        assert(n / 10 < 10 ==> l == 1);
        if l >= 20 {
            proof {
                lemma_decimal_len_bound(n as nat);
            }
        }
        l + 1
    }
}

proof fn lemma_decimal_len_bound(n: nat)
    requires
        n <= u64::MAX,
    ensures
        decimal(n).len() <= 20,
{
    assert(pow10(20) > u64::MAX) by {
        reveal_with_fuel(pow10, 21);
    }
    lemma_decimal_len_le(n, 20);
}

spec fn pow10(k: nat) -> nat
    decreases k,
{
    if k == 0 {
        1
    } else {
        10 * pow10((k - 1) as nat)
    }
}

proof fn lemma_decimal_len_le(n: nat, k: nat)
    requires
        n < pow10(k),
        k >= 1,
    ensures
        decimal(n).len() <= k,
    decreases k,
{
    if n >= 10 {
        assert(k >= 2) by {
            if k == 1 {
                reveal_with_fuel(pow10, 2);
            }
        }
        assert(n / 10 < pow10((k - 1) as nat)) by (nonlinear_arith)
            requires
                n < pow10(k),
                pow10(k) == 10 * pow10((k - 1) as nat),
        ;
        lemma_decimal_len_le(n / 10, (k - 1) as nat);
    }
}

/// Appends the decimal notation of `n`.
pub fn push_decimal(out: &mut String, n: u64)
    ensures
        final(out)@ == old(out)@ + decimal(n as nat),
    decreases n,
{
    if n >= 10 {
        push_decimal(out, n / 10);
    }
    let d = (n % 10) as u8;
    string_push(out, (d + 48) as char);
    assert(decimal(n as nat) == (if n < 10 { seq![digit_char(n as int)] } else { decimal(
        (n / 10) as nat,
    ).push(digit_char((n % 10) as int)) }));
}

/// Appends the decimal notation of `n` zero-padded to `width` characters.
pub fn push_zero_padded(out: &mut String, n: u64, width: usize)
    ensures
        final(out)@ == old(out)@ + zero_padded(n as nat, width as nat),
{
    let len = decimal_len(n);
    let ghost start = out@;
    if len < width {
        let mut k: usize = 0;
        while k < width - len
            invariant
                len < width,
                k <= width - len,
                out@ == start + repeat('0', k as nat),
            decreases width - len - k,
        {
            string_push(out, '0');
            assert(repeat('0', (k + 1) as nat) == repeat('0', k as nat).push('0'));
            k += 1;
        }
    }
    push_decimal(out, n);
    assert(out@ == old(out)@ + zero_padded(n as nat, width as nat));
}

/// Appends the decimal notation of a signed `n` zero-padded to `width` characters.
pub fn push_signed_zero_padded(out: &mut String, n: i64, width: usize)
    ensures
        final(out)@ == old(out)@ + signed_zero_padded(n as int, width as nat),
{
    if n < 0 {
        string_push(out, '-');
        let mag: u64 = if n == i64::MIN {
            9223372036854775808u64
        } else {
            (-n) as u64
        };
        push_zero_padded(out, mag, if width > 0 { width - 1 } else { 0 });
    } else {
        push_zero_padded(out, n as u64, width);
    }
}

} // verus!

verus! {

/// Whether two string slices hold the same characters.
pub fn str_eq(a: &str, b: &str) -> (r: bool)
    ensures
        r == (a@ == b@),
{
    let x = chars_of(a);
    let y = chars_of(b);
    if x.len() != y.len() {
        return false;
    }
    let mut i: usize = 0;
    while i < x.len()
        invariant
            x@ == a@,
            y@ == b@,
            x.len() == y.len(),
            i <= x.len(),
            forall|j: int| 0 <= j < i ==> x@[j] == y@[j],
        decreases x.len() - i,
    {
        if x[i] != y[i] {
            return false;
        }
        i += 1;
    }
    assert(x@ == y@);
    true
}

} // verus!

verus! {

// ── Unicode whitespace, trimming and splitting ───────────────────────────────

/// `char::is_whitespace`: the Unicode `White_Space` property.
pub open spec fn is_ws(c: char) -> bool {
    ('\u{9}' <= c && c <= '\u{d}') || c == ' ' || c == '\u{85}' || c == '\u{a0}' || c
        == '\u{1680}' || ('\u{2000}' <= c && c <= '\u{200a}') || c == '\u{2028}' || c
        == '\u{2029}' || c == '\u{202f}' || c == '\u{205f}' || c == '\u{3000}'
}

/// Whether a character is whitespace (`char::is_whitespace`).
pub fn is_whitespace(c: char) -> (r: bool)
    ensures
        r == is_ws(c),
{
    ('\u{9}' <= c && c <= '\u{d}') || c == ' ' || c == '\u{85}' || c == '\u{a0}' || c
        == '\u{1680}' || ('\u{2000}' <= c && c <= '\u{200a}') || c == '\u{2028}' || c
        == '\u{2029}' || c == '\u{202f}' || c == '\u{205f}' || c == '\u{3000}'
}

/// `str::trim_start`: leading whitespace removed.
pub open spec fn trim_start(s: Seq<char>) -> Seq<char>
    decreases s.len(),
{
    if s.len() > 0 && is_ws(s[0]) {
        trim_start(s.drop_first())
    } else {
        s
    }
}

/// `str::trim_end`: trailing whitespace removed.
pub open spec fn trim_end(s: Seq<char>) -> Seq<char>
    decreases s.len(),
{
    if s.len() > 0 && is_ws(s.last()) {
        trim_end(s.drop_last())
    } else {
        s
    }
}

/// `str::trim`: leading and trailing whitespace removed.
pub open spec fn trim(s: Seq<char>) -> Seq<char> {
    trim_end(trim_start(s))
}

/// Index of the first character satisfying `is_ws`, or the length when there is none.
pub open spec fn first_ws(s: Seq<char>) -> int
    decreases s.len(),
{
    if s.len() == 0 || is_ws(s[0]) {
        0
    } else {
        1 + first_ws(s.drop_first())
    }
}

/// `str::split_whitespace`: the maximal runs of non-whitespace characters.
pub open spec fn words(s: Seq<char>) -> Seq<Seq<char>>
    decreases s.len(),
{
    let t = trim_start(s);
    if t.len() == 0 {
        seq![]
    } else {
        let n = first_ws(t);
        if 0 < n <= t.len() && t.len() <= s.len() {
            seq![t.take(n)] + words(t.skip(n))
        } else {
            seq![]
        }
    }
}

/// Index of the first occurrence of `c`, if any.
pub open spec fn find_char(s: Seq<char>, c: char) -> Option<int>
    decreases s.len(),
{
    if s.len() == 0 {
        None
    } else if s[0] == c {
        Some(0)
    } else {
        match find_char(s.drop_first(), c) {
            Some(i) => Some(i + 1),
            None => None,
        }
    }
}

/// `str::split_once` on a character: the parts before and after its first occurrence.
pub open spec fn split_once_char(s: Seq<char>, c: char) -> Option<(Seq<char>, Seq<char>)> {
    match find_char(s, c) {
        Some(i) => Some((s.take(i), s.skip(i + 1))),
        None => None,
    }
}

/// `p` is a prefix of `s`.
pub open spec fn has_prefix(s: Seq<char>, p: Seq<char>) -> bool {
    p.len() <= s.len() && s.take(p.len() as int) == p
}

/// Index of the first occurrence of `p` in `s`, if any.
pub open spec fn find_seq(s: Seq<char>, p: Seq<char>) -> Option<int>
    decreases s.len(),
{
    if has_prefix(s, p) {
        Some(0)
    } else if s.len() == 0 {
        None
    } else {
        match find_seq(s.drop_first(), p) {
            Some(i) => Some(i + 1),
            None => None,
        }
    }
}

/// `str::split_once` on a string pattern.
pub open spec fn split_once_seq(s: Seq<char>, p: Seq<char>) -> Option<(Seq<char>, Seq<char>)> {
    match find_seq(s, p) {
        Some(i) => Some((s.take(i), s.skip(i + p.len()))),
        None => None,
    }
}

proof fn lemma_trim_start_suffix(s: Seq<char>)
    ensures
        trim_start(s).len() <= s.len(),
        trim_start(s) == s.skip(s.len() - trim_start(s).len()),
        trim_start(s).len() > 0 ==> !is_ws(trim_start(s)[0]),
    decreases s.len(),
{
    if s.len() > 0 && is_ws(s[0]) {
        lemma_trim_start_suffix(s.drop_first());
        assert(s.drop_first().skip(s.drop_first().len() - trim_start(s.drop_first()).len())
            == s.skip(s.len() - trim_start(s.drop_first()).len()));
    } else {
        assert(s.skip(0) == s);
    }
}

proof fn lemma_trim_end_prefix(s: Seq<char>)
    ensures
        trim_end(s).len() <= s.len(),
        trim_end(s) == s.take(trim_end(s).len() as int),
    decreases s.len(),
{
    if s.len() > 0 && is_ws(s.last()) {
        lemma_trim_end_prefix(s.drop_last());
        assert(s.drop_last().take(trim_end(s.drop_last()).len() as int) == s.take(
            trim_end(s.drop_last()).len() as int,
        ));
    } else {
        assert(s.take(s.len() as int) == s);
    }
}

proof fn lemma_trim_end_last(s: Seq<char>)
    ensures
        trim_end(s).len() > 0 ==> !is_ws(trim_end(s).last()),
    decreases s.len(),
{
    if s.len() > 0 && is_ws(s.last()) {
        lemma_trim_end_last(s.drop_last());
    }
}

/// `trim_end` keeps a prefix.
pub proof fn lemma_trim_end_prefix_pub(s: Seq<char>)
    ensures
        trim_end(s).len() <= s.len(),
        trim_end(s) == s.take(trim_end(s).len() as int),
        trim_end(s).len() > 0 ==> !is_ws(trim_end(s).last()),
{
    lemma_trim_end_prefix(s);
    lemma_trim_end_last(s);
}

/// Trimming twice is trimming once.
pub proof fn lemma_trim_idempotent(s: Seq<char>)
    ensures
        trim(trim(s)) == trim(s),
{
    let u = trim_start(s);
    let t = trim_end(u);
    lemma_trim_start_suffix(s);
    lemma_trim_end_prefix(u);
    lemma_trim_end_last(u);
    if t.len() > 0 {
        assert(t[0] == u[0]);
        assert(trim_start(t) == t);
        assert(trim_end(t) == t);
    } else {
        assert(trim_start(t) == t);
    }
}

proof fn lemma_first_ws_bounds(s: Seq<char>)
    ensures
        0 <= first_ws(s) <= s.len(),
        forall|j: int| 0 <= j < first_ws(s) ==> !is_ws(s[j]),
        first_ws(s) < s.len() ==> is_ws(s[first_ws(s)]),
    decreases s.len(),
{
    if !(s.len() == 0 || is_ws(s[0])) {
        lemma_first_ws_bounds(s.drop_first());
        assert forall|j: int| 0 <= j < first_ws(s) implies !is_ws(s[j]) by {
            if j > 0 {
                assert(s[j] == s.drop_first()[j - 1]);
            }
        }
    }
}

/// Index where leading whitespace ends.
fn trim_start_index(s: &[char], from: usize) -> (i: usize)
    requires
        from <= s@.len(),
    ensures
        from <= i <= s@.len(),
        trim_start(s@.skip(from as int)) == s@.skip(i as int),
{
    let mut i = from;
    while i < s.len() && is_whitespace(s[i])
        invariant
            from <= i <= s@.len(),
            trim_start(s@.skip(from as int)) == trim_start(s@.skip(i as int)),
        decreases s@.len() - i,
    {
        assert(s@.skip(i as int).drop_first() == s@.skip(i + 1));
        i += 1;
    }
    if i < s.len() {
        assert(s@.skip(i as int)[0] == s@[i as int]);
    }
    i
}

/// Copy of `s[a..b]`.
pub fn slice_copy(s: &[char], a: usize, b: usize) -> (out: Vec<char>)
    requires
        a <= b <= s@.len(),
    ensures
        out@ == s@.subrange(a as int, b as int),
{
    let mut out: Vec<char> = Vec::new();
    let mut i = a;
    while i < b
        invariant
            a <= i <= b <= s@.len(),
            out@ == s@.subrange(a as int, i as int),
        decreases b - i,
    {
        out.push(s[i]);
        assert(s@.subrange(a as int, i + 1) == s@.subrange(a as int, i as int).push(s@[i as int]));
        i += 1;
    }
    out
}

/// Leading whitespace removed (`str::trim_start`).
pub fn trim_start_chars(s: &[char]) -> (out: Vec<char>)
    ensures
        out@ == trim_start(s@),
{
    let i = trim_start_index(s, 0);
    assert(s@.skip(0) == s@);
    assert(s@.skip(i as int) == s@.subrange(i as int, s@.len() as int));
    slice_copy(s, i, s.len())
}

/// Trailing whitespace removed (`str::trim_end`).
pub fn trim_end_chars(s: &[char]) -> (out: Vec<char>)
    ensures
        out@ == trim_end(s@),
{
    let mut j = s.len();
    assert(s@.take(s@.len() as int) == s@);
    while j > 0 && is_whitespace(s[j - 1])
        invariant
            j <= s@.len(),
            trim_end(s@) == trim_end(s@.take(j as int)),
        decreases j,
    {
        assert(s@.take(j as int).drop_last() == s@.take(j - 1));
        j -= 1;
    }
    assert(s@.take(s@.len() as int) == s@);
    if j > 0 {
        assert(s@.take(j as int).last() == s@[j - 1]);
    }
    assert(s@.take(j as int) == s@.subrange(0, j as int));
    slice_copy(s, 0, j)
}

/// Leading and trailing whitespace removed (`str::trim`).
pub fn trim_chars(s: &[char]) -> (out: Vec<char>)
    ensures
        out@ == trim(s@),
{
    let t = trim_start_chars(s);
    trim_end_chars(t.as_slice())
}

/// Whether `p` is a prefix of `s`.
pub fn starts_with(s: &[char], p: &[char]) -> (r: bool)
    ensures
        r == has_prefix(s@, p@),
{
    if p.len() > s.len() {
        return false;
    }
    let mut i: usize = 0;
    while i < p.len()
        invariant
            p@.len() <= s@.len(),
            i <= p@.len(),
            forall|j: int| 0 <= j < i ==> s@[j] == p@[j],
        decreases p@.len() - i,
    {
        if s[i] != p[i] {
            assert(s@.take(p@.len() as int)[i as int] != p@[i as int]);
            return false;
        }
        i += 1;
    }
    assert(s@.take(p@.len() as int) == p@);
    true
}

/// Whether two character sequences are equal.
pub fn chars_eq(a: &[char], b: &[char]) -> (r: bool)
    ensures
        r == (a@ == b@),
{
    if a.len() != b.len() {
        return false;
    }
    let r = starts_with(a, b);
    assert(a@.take(a@.len() as int) == a@);
    r
}

/// `str::split_once` on a character.
pub fn split_once_char_chars(s: &[char], c: char) -> (r: Option<(Vec<char>, Vec<char>)>)
    ensures
        match (r, split_once_char(s@, c)) {
            (Some((a, b)), Some((x, y))) => a@ == x && b@ == y,
            (None, None) => true,
            _ => false,
        },
{
    let mut i: usize = 0;
    assert(s@.skip(0) == s@);
    while i < s.len()
        invariant
            i <= s@.len(),
            forall|j: int| 0 <= j < i ==> s@[j] != c,
            find_char(s@, c) == (match find_char(s@.skip(i as int), c) {
                Some(k) => Some(k + i),
                None => None::<int>,
            }),
        decreases s@.len() - i,
    {
        assert(s@.skip(i as int).drop_first() == s@.skip(i + 1));
        if s[i] == c {
            assert(find_char(s@.skip(i as int), c) == Some(0int));
            return Some((slice_copy(s, 0, i), slice_copy(s, i + 1, s.len())));
        }
        i += 1;
    }
    None
}

/// `str::split_once` on a string pattern.
pub fn split_once_seq_chars(s: &[char], p: &[char]) -> (r: Option<(Vec<char>, Vec<char>)>)
    ensures
        match (r, split_once_seq(s@, p@)) {
            (Some((a, b)), Some((x, y))) => a@ == x && b@ == y,
            (None, None) => true,
            _ => false,
        },
{
    let mut i: usize = 0;
    assert(s@.skip(0) == s@);
    while i <= s.len()
        invariant
            i <= s@.len() + 1,
            find_seq(s@, p@) == (if i > s@.len() {
                None::<int>
            } else {
                match find_seq(s@.skip(i as int), p@) {
                    Some(k) => Some(k + i),
                    None => None::<int>,
                }
            }),
        decreases s@.len() + 1 - i,
    {
        let rest = slice_copy(s, i, s.len());
        assert(rest@ == s@.skip(i as int));
        if starts_with(rest.as_slice(), p) {
            assert(i + p@.len() <= s@.len());
            return Some((slice_copy(s, 0, i), slice_copy(s, i + p.len(), s.len())));
        }
        if i == s.len() {
            return None;
        }
        assert(s@.skip(i as int).drop_first() == s@.skip(i + 1));
        i += 1;
    }
    None
}

/// `str::split_whitespace`.
pub fn words_of(s: &[char]) -> (out: Vec<Vec<char>>)
    ensures
        out@.map_values(|w: Vec<char>| w@) == words(s@),
{
    let mut out: Vec<Vec<char>> = Vec::new();
    let mut i: usize = 0;
    assert(s@.skip(0) == s@);
    assert(out@.map_values(|w: Vec<char>| w@) + words(s@) == words(s@));
    while i < s.len()
        invariant
            i <= s@.len(),
            out@.map_values(|w: Vec<char>| w@) + words(s@.skip(i as int)) == words(s@),
        decreases s@.len() - i,
    {
        let t = trim_start_index(s, i);
        if t == s.len() {
            proof {
                assert(trim_start(s@.skip(i as int)).len() == 0);
                assert(words(s@.skip(t as int)) == Seq::<Seq<char>>::empty());
            }
            i = t;
        } else {
            let mut e = t;
            while e < s.len() && !is_whitespace(s[e])
                invariant
                    t <= e <= s@.len(),
                    forall|j: int| t <= j < e ==> !is_ws(s@[j]),
                decreases s@.len() - e,
            {
                e += 1;
            }
            let w = slice_copy(s, t, e);
            proof {
                let ts = s@.skip(t as int);
                lemma_trim_start_suffix(s@.skip(i as int));
                lemma_first_ws_bounds(ts);
                assert(ts.len() > 0);
                assert(!is_ws(ts[0]));
                assert(first_ws(ts) == e - t) by {
                    if first_ws(ts) < e - t {
                        assert(is_ws(ts[first_ws(ts)]));
                        assert(ts[first_ws(ts)] == s@[t + first_ws(ts)]);
                    }
                    if first_ws(ts) > e - t {
                        assert(e < s@.len());
                        assert(ts[e - t] == s@[e as int]);
                    }
                }
                assert(ts.take(e - t) == w@);
                assert(ts.skip(e - t) == s@.skip(e as int));
                assert(words(s@.skip(i as int)) == seq![w@] + words(s@.skip(e as int)));
            }
            out.push(w);
            proof {
                assert(out@.map_values(|w: Vec<char>| w@) == old_map_push(out@));
            }
            i = e;
        }
    }
    assert(s@.skip(s@.len() as int) == Seq::<char>::empty());
    out
}

/// ASCII letters lower-cased (`str::to_ascii_lowercase`).
pub open spec fn ascii_lower(s: Seq<char>) -> Seq<char> {
    Seq::new(s.len(), |i: int| if 'A' <= s[i] && s[i] <= 'Z' { ((s[i] as int) + 32) as char } else { s[i] })
}

/// ASCII letters lower-cased (`str::to_ascii_lowercase`).
pub fn ascii_lower_chars(s: &[char]) -> (out: Vec<char>)
    ensures
        out@ == ascii_lower(s@),
{
    let mut out: Vec<char> = Vec::new();
    let mut i: usize = 0;
    while i < s.len()
        invariant
            i <= s@.len(),
            out@ == ascii_lower(s@).take(i as int),
        decreases s@.len() - i,
    {
        let c = s[i];
        let u = if 'A' <= c && c <= 'Z' {
            ((c as u32) + 32) as u8 as char
        } else {
            c
        };
        out.push(u);
        assert(ascii_lower(s@).take(i + 1) == ascii_lower(s@).take(i as int).push(u));
        i += 1;
    }
    assert(ascii_lower(s@).take(s@.len() as int) == ascii_lower(s@));
    out
}

spec fn old_map_push(v: Seq<Vec<char>>) -> Seq<Seq<char>> {
    v.map_values(|w: Vec<char>| w@)
}

/// ASCII letters upper-cased (`str::to_ascii_uppercase`).
pub open spec fn ascii_upper(s: Seq<char>) -> Seq<char> {
    Seq::new(s.len(), |i: int| if 'a' <= s[i] && s[i] <= 'z' { ((s[i] as int) - 32) as char } else { s[i] })
}

/// ASCII letters upper-cased (`str::to_ascii_uppercase`).
pub fn ascii_upper_chars(s: &[char]) -> (out: Vec<char>)
    ensures
        out@ == ascii_upper(s@),
{
    let mut out: Vec<char> = Vec::new();
    let mut i: usize = 0;
    while i < s.len()
        invariant
            i <= s@.len(),
            out@ == ascii_upper(s@).take(i as int),
        decreases s@.len() - i,
    {
        let c = s[i];
        let u = if 'a' <= c && c <= 'z' {
            ((c as u32) - 32) as u8 as char
        } else {
            c
        };
        out.push(u);
        assert(ascii_upper(s@).take(i + 1) == ascii_upper(s@).take(i as int).push(u));
        i += 1;
    }
    assert(ascii_upper(s@).take(s@.len() as int) == ascii_upper(s@));
    out
}

} // verus!

verus! {

// ── Integer parsing (`str::parse` for integers) ──────────────────────────────

/// An ASCII decimal digit.
pub open spec fn is_digit(c: char) -> bool {
    '0' <= c && c <= '9'
}

/// The value of a run of decimal digits.
pub open spec fn digits_value(d: Seq<char>) -> int
    decreases d.len(),
{
    if d.len() == 0 {
        0
    } else {
        10 * digits_value(d.drop_last()) + (d.last() as int - '0' as int)
    }
}

/// The integer written in `s` with an optional leading `+` or `-`, as `str::parse`
/// reads it before any range check.
pub open spec fn parse_int(s: Seq<char>) -> Option<int> {
    let neg = s.len() > 0 && s[0] == '-';
    let d = s.skip(sign_len(s));
    if d.len() == 0 || !(forall|i: int| 0 <= i < d.len() ==> is_digit(#[trigger] d[i])) {
        None
    } else if neg {
        Some(-digits_value(d))
    } else {
        Some(digits_value(d))
    }
}

/// Length of a leading `+` or `-`.
pub open spec fn sign_len(s: Seq<char>) -> int {
    if s.len() > 0 && (s[0] == '-' || s[0] == '+') {
        1
    } else {
        0
    }
}

/// `str::parse::<i64>`.
pub open spec fn parse_i64(s: Seq<char>) -> Option<i64> {
    match parse_int(s) {
        Some(v) => if i64::MIN <= v <= i64::MAX {
            Some(v as i64)
        } else {
            None
        },
        None => None,
    }
}

/// `str::parse` for an unsigned type whose largest value is `max`: no `-` sign.
pub open spec fn parse_unsigned(s: Seq<char>, max: int) -> Option<int> {
    if s.len() > 0 && s[0] == '-' {
        None
    } else {
        match parse_int(s) {
            Some(v) => if v <= max {
                Some(v)
            } else {
                None
            },
            None => None,
        }
    }
}

proof fn lemma_digits_value_monotone(d: Seq<char>, k: int)
    requires
        0 <= k <= d.len(),
        forall|i: int| 0 <= i < d.len() ==> is_digit(#[trigger] d[i]),
    ensures
        digits_value(d) >= digits_value(d.take(k)) >= 0,
    decreases d.len(),
{
    if d.len() > 0 {
        if k == d.len() {
            assert(d.take(k) == d);
            lemma_digits_value_monotone(d.drop_last(), k - 1);
        } else {
            lemma_digits_value_monotone(d.drop_last(), k);
            assert(d.drop_last().take(k) == d.take(k));
        }
    }
}

/// Parses an optionally signed decimal; values beyond 2^64 in magnitude are reported
/// as not fitting.
fn parse_int_bounded(s: &[char]) -> (r: (bool, Option<i128>))
    ensures
        r.0 == parse_int(s@) is Some,
        r.1 matches Some(v) ==> parse_int(s@) == Some(v as int),
        r.0 && r.1 is None ==> (parse_int(s@) matches Some(v) && (v > 0x1_0000_0000_0000_0000
            || v < -0x1_0000_0000_0000_0000)),
        parse_int(s@) matches Some(v) ==> (v >= 0 || (s@.len() > 0 && s@[0] == '-')),
{
    let mut start: usize = 0;
    let mut neg = false;
    if s.len() > 0 && s[0] == '-' {
        start = 1;
        neg = true;
    } else if s.len() > 0 && s[0] == '+' {
        start = 1;
    }
    let ghost d = s@.skip(start as int);
    assert(start == sign_len(s@));
    proof {
        if parse_int(s@) is Some {
            lemma_digits_value_monotone(d, 0);
        }
    }
    if start == s.len() {
        return (false, None);
    }
    let mut i = start;
    let mut acc: i128 = 0;
    let mut overflow = false;
    while i < s.len()
        invariant
            start <= i <= s@.len(),
            d == s@.skip(start as int),
            start == sign_len(s@),
            neg == (s@.len() > 0 && s@[0] == '-'),
            parse_int(s@) matches Some(v) ==> (v >= 0 || (s@.len() > 0 && s@[0] == '-')),
            forall|j: int| start <= j < i ==> is_digit(#[trigger] s@[j]),
            !overflow ==> acc == digits_value(d.take(i - start)) && 0 <= acc
                <= 0x1_0000_0000_0000_0000,
            overflow ==> digits_value(d.take(i - start)) > 0x1_0000_0000_0000_0000,
        decreases s@.len() - i,
    {
        let c = s[i];
        if !('0' <= c && c <= '9') {
            assert(!is_digit(d[i - start]));
            return (false, None);
        }
        proof {
            assert(d.take(i + 1 - start).drop_last() == d.take(i - start));
            assert(d.take(i + 1 - start).last() == c);
        }
        if !overflow {
            let v = (c as u32 - '0' as u32) as i128;
            acc = acc * 10 + v;
            if acc > 0x1_0000_0000_0000_0000 {
                overflow = true;
            }
        } else {
            proof {
                assert(d.take(i + 1 - start).drop_last() == d.take(i - start));
            }
        }
        i += 1;
    }
    assert(d.take(i - start) == d);
    assert forall|j: int| 0 <= j < d.len() implies is_digit(#[trigger] d[j]) by {
        assert(d[j] == s@[j + start]);
    }
    if overflow {
        return (true, None);
    }
    if neg {
        (true, Some(-acc))
    } else {
        (true, Some(acc))
    }
}

/// `str::parse::<i64>` on a character sequence.
pub fn parse_i64_chars(s: &[char]) -> (r: Option<i64>)
    ensures
        r == parse_i64(s@),
{
    let (ok, v) = parse_int_bounded(s);
    match v {
        Some(v) => {
            if v >= -9223372036854775808i128 && v <= 9223372036854775807i128 {
                Some(v as i64)
            } else {
                None
            }
        },
        None => None,
    }
}

/// `str::parse::<u64>` on a character sequence.
pub fn parse_u64_chars(s: &[char]) -> (r: Option<u64>)
    ensures
        r matches Some(v) ==> parse_unsigned(s@, u64::MAX as int) == Some(v as int),
        r is None ==> parse_unsigned(s@, u64::MAX as int) is None,
{
    if s.len() > 0 && s[0] == '-' {
        return None;
    }
    let (ok, v) = parse_int_bounded(s);
    match v {
        Some(v) => {
            if v >= 0 && v <= 18446744073709551615i128 {
                Some(v as u64)
            } else {
                None
            }
        },
        None => None,
    }
}

/// The decimal notation of `n` is a non-empty run of digits whose value is `n`.
pub proof fn lemma_decimal_digits(n: nat)
    ensures
        decimal(n).len() >= 1,
        forall|i: int| 0 <= i < decimal(n).len() ==> is_digit(#[trigger] decimal(n)[i]),
        digits_value(decimal(n)) == n,
    decreases n,
{
    let d = (n % 10) as int;
    assert(0 <= d < 10);
    assert(digit_char(d) as int == d + 48);
    if n >= 10 {
        lemma_decimal_digits(n / 10);
        let s = decimal(n);
        assert(s.drop_last() == decimal(n / 10));
        assert(s.last() == digit_char(d));
        assert forall|i: int| 0 <= i < s.len() implies is_digit(#[trigger] s[i]) by {
            if i < s.len() - 1 {
                assert(s[i] == decimal(n / 10)[i]);
            }
        }
        assert(n == 10 * (n / 10) + d);
    } else {
        let s = decimal(n);
        assert(s.drop_last().len() == 0);
        assert(digits_value(s.drop_last()) == 0);
    }
}

/// The decimal notation of `n` has no surrounding whitespace and reads back as `n`.
pub proof fn lemma_parse_decimal(n: nat, max: int)
    requires
        n <= max,
    ensures
        trim(decimal(n)) == decimal(n),
        parse_unsigned(decimal(n), max) == Some(n as int),
{
    lemma_decimal_digits(n);
    let s = decimal(n);
    assert(is_digit(s[0]));
    assert(is_digit(s.last())) by {
        assert(s.last() == s[s.len() - 1]);
    }
    assert(trim_start(s) == s);
    assert(trim_end(s) == s);
    assert(sign_len(s) == 0);
    assert(s.skip(0) == s);
}

/// `str::parse::<u32>` on a character sequence.
pub fn parse_u32_chars(s: &[char]) -> (r: Option<u32>)
    ensures
        r matches Some(v) ==> parse_unsigned(s@, u32::MAX as int) == Some(v as int),
        r is None ==> parse_unsigned(s@, u32::MAX as int) is None,
{
    match parse_u64_chars(s) {
        Some(v) => {
            if v <= 4294967295u64 {
                Some(v as u32)
            } else {
                None
            }
        },
        None => None,
    }
}


// ── Ordering texts (`str`'s `Ord`: character by character, a prefix first) ──────

/// `a` sorts before or with `b`: at the first character where they differ, `a`'s is the
/// smaller; or `a` is a prefix of `b`.
pub open spec fn text_le(a: Seq<char>, b: Seq<char>) -> bool
    decreases a.len(),
{
    if a.len() == 0 {
        true
    } else if b.len() == 0 {
        false
    } else if a[0] != b[0] {
        (a[0] as int) < (b[0] as int)
    } else {
        text_le(a.drop_first(), b.drop_first())
    }
}

/// Any two texts are ordered one way or the other.
pub proof fn lemma_text_le_total(a: Seq<char>, b: Seq<char>)
    ensures
        text_le(a, b) || text_le(b, a),
    decreases a.len(),
{
    if a.len() > 0 && b.len() > 0 && a[0] == b[0] {
        lemma_text_le_total(a.drop_first(), b.drop_first());
    }
}

/// The order is transitive.
pub proof fn lemma_text_le_trans(a: Seq<char>, b: Seq<char>, c: Seq<char>)
    requires
        text_le(a, b),
        text_le(b, c),
    ensures
        text_le(a, c),
    decreases a.len(),
{
    if a.len() > 0 && b.len() > 0 && c.len() > 0 && a[0] == b[0] && b[0] == c[0] {
        lemma_text_le_trans(a.drop_first(), b.drop_first(), c.drop_first());
    }
}

/// Whether `a` sorts before or with `b`.
pub fn text_le_chars(a: &[char], b: &[char]) -> (r: bool)
    ensures
        r == text_le(a@, b@),
{
    let mut i: usize = 0;
    assert(a@.skip(0) =~= a@);
    assert(b@.skip(0) =~= b@);
    while i < a.len() && i < b.len()
        invariant
            i <= a@.len(),
            i <= b@.len(),
            text_le(a@, b@) == text_le(a@.skip(i as int), b@.skip(i as int)),
        decreases a@.len() - i,
    {
        assert(a@.skip(i as int)[0] == a@[i as int]);
        assert(b@.skip(i as int)[0] == b@[i as int]);
        if a[i] != b[i] {
            return a[i] < b[i];
        }
        assert(a@.skip(i as int).drop_first() =~= a@.skip(i + 1));
        assert(b@.skip(i as int).drop_first() =~= b@.skip(i + 1));
        i += 1;
    }
    i == a.len()
}

/// Texts in non-decreasing order.
pub open spec fn texts_sorted(s: Seq<Seq<char>>) -> bool {
    forall|i: int, j: int| 0 <= i < j < s.len() ==> text_le(#[trigger] s[i], #[trigger] s[j])
}

/// The texts of a run of strings.
pub open spec fn texts_of(v: Seq<String>) -> Seq<Seq<char>> {
    v.map_values(|s: String| s@)
}

/// The strings in `str` order, as `sort` leaves them.
pub fn sort_texts(v: Vec<String>) -> (r: Vec<String>)
    ensures
        r@.to_multiset() == v@.to_multiset(),
        texts_sorted(texts_of(r@)),
{
    broadcast use vstd::seq_lib::group_to_multiset_ensures, vstd::multiset::group_multiset_axioms;

    let ghost orig = v@;
    let mut rest = v;
    let mut r: Vec<String> = Vec::new();
    while rest.len() > 0
        invariant
            r@.to_multiset().add(rest@.to_multiset()) == orig.to_multiset(),
            texts_sorted(texts_of(r@)),
        decreases rest@.len(),
    {
        let ghost rest_before = rest@;
        let x = rest.pop().unwrap();
        proof {
            assert(rest_before == rest@.push(x));
        }
        let xs = chars_of(x.as_str());
        let mut k: usize = 0;
        let mut found = false;
        while k < r.len() && !found
            invariant
                k <= r@.len(),
                xs@ == x@,
                texts_sorted(texts_of(r@)),
                forall|i: int| 0 <= i < k ==> text_le(#[trigger] r@[i]@, x@),
                found ==> k < r@.len() && !text_le(r@[k as int]@, x@),
            decreases (r@.len() - k) * 2 + if found { 0int } else { 1int },
        {
            let rs = chars_of(r[k].as_str());
            if text_le_chars(rs.as_slice(), xs.as_slice()) {
                k += 1;
            } else {
                found = true;
            }
        }
        let ghost before = r@;
        proof {
            let ts = texts_of(before);
            if k < before.len() {
                assert(!text_le(before[k as int]@, x@));
                lemma_text_le_total(before[k as int]@, x@);
                assert forall|j: int| k <= j < before.len() implies text_le(x@, #[trigger] before[j]@) by {
                    if j > k {
                        assert(ts[k as int] == before[k as int]@);
                        assert(ts[j] == before[j]@);
                        lemma_text_le_trans(x@, before[k as int]@, before[j]@);
                    }
                }
            }
        }
        r.insert(k, x);
        proof {
            let ts = texts_of(r@);
            let tb = texts_of(before);
            assert forall|i: int, j: int| 0 <= i < j < ts.len() implies text_le(#[trigger] ts[i], #[trigger] ts[j]) by {
                assert(ts[i] == r@[i]@);
                assert(ts[j] == r@[j]@);
                if j < k {
                    assert(r@[i] == before[i] && r@[j] == before[j]);
                    assert(tb[i] == before[i]@ && tb[j] == before[j]@);
                } else if j == k {
                    assert(r@[i] == before[i]);
                } else if i == k {
                    assert(r@[j] == before[j - 1]);
                } else if i < k {
                    assert(r@[i] == before[i] && r@[j] == before[j - 1]);
                    assert(text_le(before[i]@, x@));
                    assert(text_le(x@, before[j - 1]@));
                    lemma_text_le_trans(before[i]@, x@, before[j - 1]@);
                } else {
                    assert(r@[i] == before[i - 1] && r@[j] == before[j - 1]);
                    assert(tb[i - 1] == before[i - 1]@ && tb[j - 1] == before[j - 1]@);
                }
            }
            vstd::seq_lib::to_multiset_insert(before, k as int, x);
            assert(r@.to_multiset() == before.to_multiset().insert(x));
            vstd::seq_lib::to_multiset_build(rest@, x);
            assert(rest_before.to_multiset() == rest@.to_multiset().insert(x));
            assert(r@.to_multiset().add(rest@.to_multiset()) =~= before.to_multiset().add(rest_before.to_multiset()));
        }
    }
    proof {
        assert(rest@.to_multiset() =~= vstd::multiset::Multiset::empty());
        assert(r@.to_multiset().add(vstd::multiset::Multiset::empty()) =~= r@.to_multiset());
    }
    r
}

} // verus!
