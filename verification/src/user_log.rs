//! The per-user Facegate log: how its lines are written and how they are shown.
//!
//! Each line is `TIMESTAMP | MESSAGE`, where the message is an event name followed by
//! `key=value` fields (for example `test reject reason=no_face`). Older logs start with a
//! bare Unix time instead of a timestamp. Displaying a line renders the event as a
//! sentence. Locating and appending to the log file is done by the binaries.
use vstd::prelude::*;

use crate::text::{
    ascii_upper, ascii_upper_chars, chars_of, chars_eq, has_prefix, owned, parse_i64,
    parse_i64_chars, push_chars, split_once_char, split_once_char_chars, split_once_seq,
    split_once_seq_chars, starts_with, str_eq, string_from_chars, string_push_str, trim,
    trim_chars, trim_start, trim_start_chars, words, words_of, slice_copy,
};

verus! {

// ── Reasons ──────────────────────────────────────────────────────────────────

/// Human wording of a logged reason code.
pub open spec fn spec_human_reason(r: Seq<char>) -> Seq<char> {
    if r == "matched"@ {
        "matched"@
    } else if r == "template_mismatch"@ {
        "best template score is below threshold"@
    } else if r == "not_enrolled"@ {
        "no enrolled template"@
    } else if r == "no_face"@ || r == "no_score"@ {
        "no face detected"@
    } else if r == "multiple_faces"@ {
        "multiple faces detected"@
    } else if r == "cross_check_required"@ {
        "RGB+IR cross-check is required"@
    } else if r == "cross_check_time_skew"@ {
        "RGB and IR frames were not synchronized"@
    } else if r == "cross_check_rgb_no_face"@ {
        "no face detected on RGB frame"@
    } else if r == "cross_check_rgb_multiple_faces"@ {
        "multiple faces detected on RGB frame"@
    } else if r == "cross_check_ir_no_face"@ {
        "no face detected on IR frame"@
    } else if r == "cross_check_ir_multiple_faces"@ {
        "multiple faces detected on IR frame"@
    } else if r == "cross_check_position_mismatch"@ {
        "RGB/IR face positions do not align"@
    } else if r == "cross_check_identity_mismatch"@ {
        "RGB/IR identities do not match"@
    } else if r == "cross_check_no_score"@ {
        "old log: cross-check rejected before template comparison"@
    } else if r == "internal"@ {
        "internal error"@
    } else {
        "unknown reason"@
    }
}

/// Human wording of a logged reason code.
pub fn human_reason(reason: &str) -> (h: &'static str)
    ensures
        h@ == spec_human_reason(reason@),
{
    if str_eq(reason, "matched") {
        "matched"
    } else if str_eq(reason, "template_mismatch") {
        "best template score is below threshold"
    } else if str_eq(reason, "not_enrolled") {
        "no enrolled template"
    } else if str_eq(reason, "no_face") || str_eq(reason, "no_score") {
        "no face detected"
    } else if str_eq(reason, "multiple_faces") {
        "multiple faces detected"
    } else if str_eq(reason, "cross_check_required") {
        "RGB+IR cross-check is required"
    } else if str_eq(reason, "cross_check_time_skew") {
        "RGB and IR frames were not synchronized"
    } else if str_eq(reason, "cross_check_rgb_no_face") {
        "no face detected on RGB frame"
    } else if str_eq(reason, "cross_check_rgb_multiple_faces") {
        "multiple faces detected on RGB frame"
    } else if str_eq(reason, "cross_check_ir_no_face") {
        "no face detected on IR frame"
    } else if str_eq(reason, "cross_check_ir_multiple_faces") {
        "multiple faces detected on IR frame"
    } else if str_eq(reason, "cross_check_position_mismatch") {
        "RGB/IR face positions do not align"
    } else if str_eq(reason, "cross_check_identity_mismatch") {
        "RGB/IR identities do not match"
    } else if str_eq(reason, "cross_check_no_score") {
        "old log: cross-check rejected before template comparison"
    } else if str_eq(reason, "internal") {
        "internal error"
    } else {
        "unknown reason"
    }
}

fn human_reason_chars(reason: &Vec<char>) -> (h: &'static str)
    ensures
        h@ == spec_human_reason(reason@),
{
    let s = string_from_chars(reason.as_slice());
    human_reason(s.as_str())
}

// ── Fields ───────────────────────────────────────────────────────────────────

/// The `key=value` words of a field list, split at their first `=`; other words are
/// skipped.
pub open spec fn fields_of(ws: Seq<Seq<char>>) -> Seq<(Seq<char>, Seq<char>)>
    decreases ws.len(),
{
    if ws.len() == 0 {
        seq![]
    } else {
        let rest = fields_of(ws.drop_last());
        match split_once_char(ws.last(), '=') {
            Some(p) => rest.push(p),
            None => rest,
        }
    }
}

/// The value of the first field named `name`.
pub open spec fn field_of(fields: Seq<(Seq<char>, Seq<char>)>, name: Seq<char>) -> Option<Seq<char>>
    decreases fields.len(),
{
    if fields.len() == 0 {
        None
    } else if fields[0].0 == name {
        Some(fields[0].1)
    } else {
        field_of(fields.drop_first(), name)
    }
}

/// A field value, or a default.
pub open spec fn or_default(v: Option<Seq<char>>, d: Seq<char>) -> Seq<char> {
    match v {
        Some(x) => x,
        None => d,
    }
}

/// The character views of parsed fields.
pub open spec fn fields_view(v: Seq<(Vec<char>, Vec<char>)>) -> Seq<(Seq<char>, Seq<char>)> {
    v.map_values(|p: (Vec<char>, Vec<char>)| (p.0@, p.1@))
}

fn parse_fields_chars(input: &[char]) -> (out: Vec<(Vec<char>, Vec<char>)>)
    ensures
        fields_view(out@) == fields_of(words(input@)),
{
    let ws = words_of(input);
    let ghost wv = ws@.map_values(|w: Vec<char>| w@);
    let mut out: Vec<(Vec<char>, Vec<char>)> = Vec::new();
    let mut i: usize = 0;
    while i < ws.len()
        invariant
            i <= ws@.len(),
            wv == ws@.map_values(|w: Vec<char>| w@),
            wv == words(input@),
            fields_view(out@) == fields_of(wv.take(i as int)),
        decreases ws@.len() - i,
    {
        proof {
            assert(wv.take(i + 1).drop_last() == wv.take(i as int));
            assert(wv.take(i + 1).last() == ws@[i as int]@);
        }
        match split_once_char_chars(ws[i].as_slice(), '=') {
            Some(p) => {
                out.push(p);
                proof {
                    assert(fields_view(out@) == fields_view(old_out(out@)).push((p.0@, p.1@)));
                }
            },
            None => {},
        }
        i += 1;
    }
    assert(wv.take(ws@.len() as int) == wv);
    out
}

spec fn old_out(v: Seq<(Vec<char>, Vec<char>)>) -> Seq<(Vec<char>, Vec<char>)> {
    v.drop_last()
}

/// The `key=value` fields of a message remainder, in order.
pub fn parse_fields(input: &str) -> (out: Vec<(String, String)>)
    ensures
        out@.map_values(|p: (String, String)| (p.0@, p.1@)) == fields_of(words(input@)),
{
    let cs = chars_of(input);
    let fs = parse_fields_chars(cs.as_slice());
    let mut out: Vec<(String, String)> = Vec::new();
    let mut i: usize = 0;
    while i < fs.len()
        invariant
            i <= fs@.len(),
            fields_view(fs@) == fields_of(words(input@)),
            out@.map_values(|p: (String, String)| (p.0@, p.1@)) == fields_view(fs@).take(i as int),
        decreases fs@.len() - i,
    {
        let k = string_from_chars(fs[i].0.as_slice());
        let v = string_from_chars(fs[i].1.as_slice());
        out.push((k, v));
        proof {
            assert(fields_view(fs@).take(i + 1) == fields_view(fs@).take(i as int).push(
                (fs@[i as int].0@, fs@[i as int].1@),
            ));
            assert(out@.map_values(|p: (String, String)| (p.0@, p.1@)) == out@.drop_last().map_values(
                |p: (String, String)| (p.0@, p.1@),
            ).push((k@, v@)));
        }
        i += 1;
    }
    assert(fields_view(fs@).take(fs@.len() as int) == fields_view(fs@));
    out
}

fn field_chars(fields: &Vec<(Vec<char>, Vec<char>)>, name: &str) -> (r: Option<Vec<char>>)
    ensures
        match (r, field_of(fields_view(fields@), name@)) {
            (Some(v), Some(x)) => v@ == x,
            (None, None) => true,
            _ => false,
        },
{
    let n = chars_of(name);
    let mut i: usize = 0;
    assert(fields_view(fields@).skip(0) == fields_view(fields@));
    while i < fields.len()
        invariant
            n@ == name@,
            i <= fields@.len(),
            field_of(fields_view(fields@), name@) == field_of(fields_view(fields@).skip(i as int), name@),
        decreases fields@.len() - i,
    {
        assert(fields_view(fields@).skip(i as int).drop_first() == fields_view(fields@).skip(i + 1));
        if chars_eq(fields[i].0.as_slice(), n.as_slice()) {
            return Some(slice_copy(fields[i].1.as_slice(), 0, fields[i].1.len()));
        }
        i += 1;
    }
    None
}

/// The value of the first field named `name`.
pub fn field(fields: &Vec<(String, String)>, name: &str) -> (r: Option<String>)
    ensures
        match (r, field_of(fields@.map_values(|p: (String, String)| (p.0@, p.1@)), name@)) {
            (Some(v), Some(x)) => v@ == x,
            (None, None) => true,
            _ => false,
        },
{
    let ghost fv = fields@.map_values(|p: (String, String)| (p.0@, p.1@));
    let mut i: usize = 0;
    assert(fv.skip(0) == fv);
    while i < fields.len()
        invariant
            fv == fields@.map_values(|p: (String, String)| (p.0@, p.1@)),
            i <= fields@.len(),
            field_of(fv, name@) == field_of(fv.skip(i as int), name@),
        decreases fields@.len() - i,
    {
        assert(fv.skip(i as int).drop_first() == fv.skip(i + 1));
        if str_eq(fields[i].0.as_str(), name) {
            return Some(fields[i].1.clone());
        }
        i += 1;
    }
    None
}

fn field_or(fields: &Vec<(Vec<char>, Vec<char>)>, name: &str, default: &str) -> (r: Vec<char>)
    ensures
        r@ == or_default(field_of(fields_view(fields@), name@), default@),
{
    match field_chars(fields, name) {
        Some(v) => v,
        None => chars_of(default),
    }
}

} // verus!

verus! {

// ── Sentences for logged events ──────────────────────────────────────────────

/// `KIND: DECISION (score S[, REASON])`.
pub open spec fn spec_render_decision(kind: Seq<char>, decision: Seq<char>, f: Seq<(Seq<char>, Seq<char>)>) -> Seq<char> {
    let score = or_default(field_of(f, "score"@), "?"@);
    match field_of(f, "reason"@) {
        Some(r) => kind + ": "@ + decision + " (score "@ + score + ", "@ + spec_human_reason(r) + ")"@,
        None => kind + ": "@ + decision + " (score "@ + score + ")"@,
    }
}

/// `KIND: attempt A DECISION (score S[, REASON])`.
pub open spec fn spec_render_attempt_decision(kind: Seq<char>, decision: Seq<char>, f: Seq<(Seq<char>, Seq<char>)>) -> Seq<char> {
    let attempt = or_default(field_of(f, "attempt"@), "?"@);
    let score = or_default(field_of(f, "score"@), "?"@);
    match field_of(f, "reason"@) {
        Some(r) => kind + ": attempt "@ + attempt + " "@ + decision + " (score "@ + score + ", "@
            + spec_human_reason(r) + ")"@,
        None => kind + ": attempt "@ + attempt + " "@ + decision + " (score "@ + score + ")"@,
    }
}

/// `KIND: retrying capture N (REASON)`; the capture number falls back to the attempt.
pub open spec fn spec_render_retry(kind: Seq<char>, f: Seq<(Seq<char>, Seq<char>)>) -> Seq<char> {
    let attempt = or_default(field_of(f, "attempt"@), "?"@);
    let capture = or_default(field_of(f, "capture_attempt"@), attempt);
    let reason = match field_of(f, "reason"@) {
        Some(r) => spec_human_reason(r),
        None => "unknown reason"@,
    };
    kind + ": retrying capture "@ + capture + " ("@ + reason + ")"@
}

/// `KIND: attempt A ACTION on DEVICE`.
pub open spec fn spec_render_attempt_device(kind: Seq<char>, action: Seq<char>, f: Seq<(Seq<char>, Seq<char>)>) -> Seq<char> {
    let attempt = or_default(field_of(f, "attempt"@), "?"@);
    let device = or_default(field_of(f, "device"@), "unknown"@);
    kind + ": attempt "@ + attempt + " "@ + action + " on "@ + device
}

/// `KIND: ACTION on DEVICE (ERROR)`.
pub open spec fn spec_render_device_error(kind: Seq<char>, action: Seq<char>, f: Seq<(Seq<char>, Seq<char>)>) -> Seq<char> {
    let device = or_default(field_of(f, "device"@), "unknown"@);
    let error = or_default(field_of(f, "error"@), "unknown"@);
    kind + ": "@ + action + " on "@ + device + " ("@ + error + ")"@
}

/// `KIND: attempt A ACTION on DEVICE (ERROR)`.
pub open spec fn spec_render_attempt_device_error(kind: Seq<char>, action: Seq<char>, f: Seq<(Seq<char>, Seq<char>)>) -> Seq<char> {
    let attempt = or_default(field_of(f, "attempt"@), "?"@);
    let device = or_default(field_of(f, "device"@), "unknown"@);
    let error = or_default(field_of(f, "error"@), "unknown"@);
    kind + ": attempt "@ + attempt + " "@ + action + " on "@ + device + " ("@ + error + ")"@
}

fn render_decision(kind: &str, decision: &str, fields: &Vec<(Vec<char>, Vec<char>)>) -> (s: String)
    ensures
        s@ == spec_render_decision(kind@, decision@, fields_view(fields@)),
{
    let score = field_or(fields, "score", "?");
    let mut s = owned(kind);
    string_push_str(&mut s, ": ");
    string_push_str(&mut s, decision);
    string_push_str(&mut s, " (score ");
    push_chars(&mut s, score.as_slice());
    match field_chars(fields, "reason") {
        Some(r) => {
            string_push_str(&mut s, ", ");
            string_push_str(&mut s, human_reason_chars(&r));
            string_push_str(&mut s, ")");
        },
        None => {
            string_push_str(&mut s, ")");
        },
    }
    s
}

fn render_attempt_decision(kind: &str, decision: &str, fields: &Vec<(Vec<char>, Vec<char>)>) -> (s: String)
    ensures
        s@ == spec_render_attempt_decision(kind@, decision@, fields_view(fields@)),
{
    let attempt = field_or(fields, "attempt", "?");
    let score = field_or(fields, "score", "?");
    let mut s = owned(kind);
    string_push_str(&mut s, ": attempt ");
    push_chars(&mut s, attempt.as_slice());
    string_push_str(&mut s, " ");
    string_push_str(&mut s, decision);
    string_push_str(&mut s, " (score ");
    push_chars(&mut s, score.as_slice());
    match field_chars(fields, "reason") {
        Some(r) => {
            string_push_str(&mut s, ", ");
            string_push_str(&mut s, human_reason_chars(&r));
            string_push_str(&mut s, ")");
        },
        None => {
            string_push_str(&mut s, ")");
        },
    }
    s
}

fn render_retry(kind: &str, fields: &Vec<(Vec<char>, Vec<char>)>) -> (s: String)
    ensures
        s@ == spec_render_retry(kind@, fields_view(fields@)),
{
    let attempt = field_or(fields, "attempt", "?");
    let capture = match field_chars(fields, "capture_attempt") {
        Some(c) => c,
        None => attempt,
    };
    let reason: &str = match field_chars(fields, "reason") {
        Some(r) => human_reason_chars(&r),
        None => "unknown reason",
    };
    let mut s = owned(kind);
    string_push_str(&mut s, ": retrying capture ");
    push_chars(&mut s, capture.as_slice());
    string_push_str(&mut s, " (");
    string_push_str(&mut s, reason);
    string_push_str(&mut s, ")");
    s
}

fn render_attempt_device(kind: &str, action: &str, fields: &Vec<(Vec<char>, Vec<char>)>) -> (s: String)
    ensures
        s@ == spec_render_attempt_device(kind@, action@, fields_view(fields@)),
{
    let attempt = field_or(fields, "attempt", "?");
    let device = field_or(fields, "device", "unknown");
    let mut s = owned(kind);
    string_push_str(&mut s, ": attempt ");
    push_chars(&mut s, attempt.as_slice());
    string_push_str(&mut s, " ");
    string_push_str(&mut s, action);
    string_push_str(&mut s, " on ");
    push_chars(&mut s, device.as_slice());
    s
}

fn render_device_error(kind: &str, action: &str, fields: &Vec<(Vec<char>, Vec<char>)>) -> (s: String)
    ensures
        s@ == spec_render_device_error(kind@, action@, fields_view(fields@)),
{
    let device = field_or(fields, "device", "unknown");
    let error = field_or(fields, "error", "unknown");
    let mut s = owned(kind);
    string_push_str(&mut s, ": ");
    string_push_str(&mut s, action);
    string_push_str(&mut s, " on ");
    push_chars(&mut s, device.as_slice());
    string_push_str(&mut s, " (");
    push_chars(&mut s, error.as_slice());
    string_push_str(&mut s, ")");
    s
}

fn render_attempt_device_error(kind: &str, action: &str, fields: &Vec<(Vec<char>, Vec<char>)>) -> (s: String)
    ensures
        s@ == spec_render_attempt_device_error(kind@, action@, fields_view(fields@)),
{
    let attempt = field_or(fields, "attempt", "?");
    let device = field_or(fields, "device", "unknown");
    let error = field_or(fields, "error", "unknown");
    let mut s = owned(kind);
    string_push_str(&mut s, ": attempt ");
    push_chars(&mut s, attempt.as_slice());
    string_push_str(&mut s, " ");
    string_push_str(&mut s, action);
    string_push_str(&mut s, " on ");
    push_chars(&mut s, device.as_slice());
    string_push_str(&mut s, " (");
    push_chars(&mut s, error.as_slice());
    string_push_str(&mut s, ")");
    s
}

} // verus!

verus! {

// ── Events ───────────────────────────────────────────────────────────────────

/// Number of known event names.
pub const EVENT_COUNT: usize = 27;

/// The known event names, in the order they are tried ("services refresh_error" before
/// its prefix "services refresh").
pub open spec fn event_name(k: int) -> Seq<char> {
    if k == 0 { "test start"@ }
    else if k == 1 { "test captured"@ }
    else if k == 2 { "test reject"@ }
    else if k == 3 { "test retry"@ }
    else if k == 4 { "test result"@ }
    else if k == 5 { "auth start"@ }
    else if k == 6 { "auth accept"@ }
    else if k == 7 { "auth reject"@ }
    else if k == 8 { "auth retry"@ }
    else if k == 9 { "auth timeout"@ }
    else if k == 10 { "auth camera_error"@ }
    else if k == 11 { "auth capture_error"@ }
    else if k == 12 { "auth final=timeout"@ }
    else if k == 13 { "auth final=not_recognized"@ }
    else if k == 14 { "auth broker_unavailable"@ }
    else if k == 15 { "auth broker_error"@ }
    else if k == 16 { "watch scan_start"@ }
    else if k == 17 { "watch accept"@ }
    else if k == 18 { "watch reject"@ }
    else if k == 19 { "watch retry"@ }
    else if k == 20 { "watch timeout"@ }
    else if k == 21 { "watch camera_error"@ }
    else if k == 22 { "watch capture_error"@ }
    else if k == 23 { "watch exhausted_attempts"@ }
    else if k == 24 { "watch broker_error"@ }
    else if k == 25 { "services refresh_error"@ }
    else { "services refresh"@ }
}

fn event_name_str(k: usize) -> (s: &'static str)
    requires
        k < EVENT_COUNT,
    ensures
        s@ == event_name(k as int),
{
    match k {
        0 => "test start",
        1 => "test captured",
        2 => "test reject",
        3 => "test retry",
        4 => "test result",
        5 => "auth start",
        6 => "auth accept",
        7 => "auth reject",
        8 => "auth retry",
        9 => "auth timeout",
        10 => "auth camera_error",
        11 => "auth capture_error",
        12 => "auth final=timeout",
        13 => "auth final=not_recognized",
        14 => "auth broker_unavailable",
        15 => "auth broker_error",
        16 => "watch scan_start",
        17 => "watch accept",
        18 => "watch reject",
        19 => "watch retry",
        20 => "watch timeout",
        21 => "watch camera_error",
        22 => "watch capture_error",
        23 => "watch exhausted_attempts",
        24 => "watch broker_error",
        25 => "services refresh_error",
        _ => "services refresh",
    }
}

/// Index of the first known event name that `msg` starts with, trying from `k` on.
pub open spec fn first_event(msg: Seq<char>, k: int) -> Option<int>
    decreases EVENT_COUNT - k,
{
    if k >= EVENT_COUNT {
        None
    } else if has_prefix(msg, event_name(k)) {
        Some(k)
    } else {
        first_event(msg, k + 1)
    }
}

/// The event a message starts with and the rest after it, leading whitespace removed.
pub open spec fn spec_split_event(msg: Seq<char>) -> Option<(int, Seq<char>)> {
    match first_event(msg, 0) {
        Some(k) => Some((k, trim_start(msg.skip(event_name(k).len() as int)))),
        None => None,
    }
}

proof fn lemma_first_event_range(msg: Seq<char>, k: int)
    requires
        0 <= k,
    ensures
        first_event(msg, k) matches Some(j) ==> k <= j < EVENT_COUNT && has_prefix(msg, event_name(j)),
    decreases EVENT_COUNT - k,
{
    if k < EVENT_COUNT && !has_prefix(msg, event_name(k)) {
        lemma_first_event_range(msg, k + 1);
    }
}

fn split_event_chars(msg: &[char]) -> (r: Option<(usize, Vec<char>)>)
    ensures
        match (r, spec_split_event(msg@)) {
            (Some((k, rest)), Some((j, x))) => k == j && rest@ == x && k < EVENT_COUNT,
            (None, None) => true,
            _ => false,
        },
{
    let mut k: usize = 0;
    while k < EVENT_COUNT
        invariant
            k <= EVENT_COUNT,
            first_event(msg@, 0) == first_event(msg@, k as int),
        decreases EVENT_COUNT - k,
    {
        let name = chars_of(event_name_str(k));
        if starts_with(msg, name.as_slice()) {
            let rest = slice_copy(msg, name.len(), msg.len());
            assert(rest@ == msg@.skip(event_name(k as int).len() as int));
            return Some((k, trim_start_chars(rest.as_slice())));
        }
        k += 1;
    }
    None
}

/// The event a message starts with and the rest of the message after it, with leading
/// whitespace removed.
pub fn split_event(message: &str) -> (r: Option<(String, String)>)
    ensures
        match (r, spec_split_event(message@)) {
            (Some((e, rest)), Some((k, x))) => e@ == event_name(k) && rest@ == x,
            (None, None) => true,
            _ => false,
        },
{
    let cs = chars_of(message);
    match split_event_chars(cs.as_slice()) {
        Some((k, rest)) => Some((owned(event_name_str(k)), string_from_chars(rest.as_slice()))),
        None => None,
    }
}

/// The sentence shown for a logged message.
pub open spec fn spec_render_message(m: Seq<char>) -> Seq<char> {
    let msg = trim(m);
    match spec_split_event(msg) {
        None => msg,
        Some((k, rest)) => {
            let f = fields_of(words(rest));
            if k == 0 {
                "test: started (scope "@ + or_default(field_of(f, "scope"@), "unknown"@) + ", "@
                    + or_default(field_of(f, "enrolled"@), "?"@) + " enrolled templates)"@
            } else if k == 1 {
                if rest == "rgb_ir_probe"@ {
                    "test: captured synchronized RGB+IR probe"@
                } else if rest == "single_camera_probe"@ {
                    "test: captured single-camera probe"@
                } else {
                    "test: captured "@ + rest
                }
            } else if k == 2 {
                "test: rejected ("@ + spec_human_reason(
                    or_default(field_of(f, "reason"@), "unknown"@),
                ) + ")"@
            } else if k == 3 {
                spec_render_retry("test"@, f)
            } else if k == 4 {
                let result = ascii_upper(or_default(field_of(f, "result"@), "unknown"@));
                let score = or_default(field_of(f, "score"@), "?"@);
                let threshold = or_default(field_of(f, "threshold"@), "?"@);
                match field_of(f, "reason"@) {
                    Some(r) => "test: "@ + result + " (score "@ + score + ", threshold "@
                        + threshold + ", "@ + spec_human_reason(r) + ")"@,
                    None => "test: "@ + result + " (score "@ + score + ", threshold "@ + threshold
                        + ")"@,
                }
            } else if k == 5 {
                "auth: started for service "@ + or_default(field_of(f, "service"@), "unknown"@)
            } else if k == 6 {
                spec_render_decision("auth"@, "accepted"@, f)
            } else if k == 7 {
                spec_render_attempt_decision("auth"@, "rejected"@, f)
            } else if k == 8 {
                spec_render_retry("auth"@, f)
            } else if k == 9 {
                spec_render_attempt_device("auth"@, "timeout"@, f)
            } else if k == 10 {
                spec_render_device_error("auth"@, "camera error"@, f)
            } else if k == 11 {
                spec_render_attempt_device_error("auth"@, "capture error"@, f)
            } else if k == 12 {
                "auth: final timeout"@
            } else if k == 13 {
                "auth: final not recognized"@
            } else if k == 14 {
                "auth: broker unavailable ("@ + or_default(field_of(f, "code"@), "unknown"@) + ")"@
            } else if k == 15 {
                "auth: broker error ("@ + or_default(field_of(f, "error"@), "unknown"@) + ")"@
            } else if k == 16 {
                "watch: scan started"@
            } else if k == 17 {
                spec_render_decision("watch"@, "accepted"@, f)
            } else if k == 18 {
                spec_render_attempt_decision("watch"@, "rejected"@, f)
            } else if k == 19 {
                spec_render_retry("watch"@, f)
            } else if k == 20 {
                spec_render_attempt_device("watch"@, "timeout"@, f)
            } else if k == 21 {
                spec_render_device_error("watch"@, "camera error"@, f)
            } else if k == 22 {
                spec_render_attempt_device_error("watch"@, "capture error"@, f)
            } else if k == 23 {
                "watch: exhausted attempts"@
            } else if k == 24 {
                "watch: broker error ("@ + or_default(field_of(f, "error"@), "unknown"@) + ")"@
            } else if k == 25 {
                "services: refresh error ("@ + or_default(field_of(f, "error"@), "unknown"@)
                    + ")"@
            } else {
                "services: refreshed (broker "@ + or_default(field_of(f, "broker"@), "unknown"@)
                    + ", watch "@ + or_default(field_of(f, "watch"@), "unknown"@) + ")"@
            }
        },
    }
}

fn wrap(prefix: &str, middle: &Vec<char>, suffix: &str) -> (s: String)
    ensures
        s@ == prefix@ + middle@ + suffix@,
{
    let mut s = owned(prefix);
    push_chars(&mut s, middle.as_slice());
    string_push_str(&mut s, suffix);
    s
}

fn render_message_chars(m: &[char]) -> (s: String)
    ensures
        s@ == spec_render_message(m@),
{
    let msg = trim_chars(m);
    let (k, rest) = match split_event_chars(msg.as_slice()) {
        None => return string_from_chars(msg.as_slice()),
        Some(p) => p,
    };
    let f = parse_fields_chars(rest.as_slice());
    if k == 0 {
        let scope = field_or(&f, "scope", "unknown");
        let enrolled = field_or(&f, "enrolled", "?");
        let mut s = wrap("test: started (scope ", &scope, ", ");
        push_chars(&mut s, enrolled.as_slice());
        string_push_str(&mut s, " enrolled templates)");
        s
    } else if k == 1 {
        if chars_eq(rest.as_slice(), chars_of("rgb_ir_probe").as_slice()) {
            owned("test: captured synchronized RGB+IR probe")
        } else if chars_eq(rest.as_slice(), chars_of("single_camera_probe").as_slice()) {
            owned("test: captured single-camera probe")
        } else {
            let mut s = owned("test: captured ");
            push_chars(&mut s, rest.as_slice());
            s
        }
    } else if k == 2 {
        let reason = field_or(&f, "reason", "unknown");
        let mut s = owned("test: rejected (");
        string_push_str(&mut s, human_reason_chars(&reason));
        string_push_str(&mut s, ")");
        s
    } else if k == 3 {
        render_retry("test", &f)
    } else if k == 4 {
        let result = ascii_upper_chars(field_or(&f, "result", "unknown").as_slice());
        let score = field_or(&f, "score", "?");
        let threshold = field_or(&f, "threshold", "?");
        let mut s = wrap("test: ", &result, " (score ");
        push_chars(&mut s, score.as_slice());
        string_push_str(&mut s, ", threshold ");
        push_chars(&mut s, threshold.as_slice());
        match field_chars(&f, "reason") {
            Some(r) => {
                string_push_str(&mut s, ", ");
                string_push_str(&mut s, human_reason_chars(&r));
                string_push_str(&mut s, ")");
            },
            None => {
                string_push_str(&mut s, ")");
            },
        }
        s
    } else if k == 5 {
        let service = field_or(&f, "service", "unknown");
        let mut s = owned("auth: started for service ");
        push_chars(&mut s, service.as_slice());
        s
    } else if k == 6 {
        render_decision("auth", "accepted", &f)
    } else if k == 7 {
        render_attempt_decision("auth", "rejected", &f)
    } else if k == 8 {
        render_retry("auth", &f)
    } else if k == 9 {
        render_attempt_device("auth", "timeout", &f)
    } else if k == 10 {
        render_device_error("auth", "camera error", &f)
    } else if k == 11 {
        render_attempt_device_error("auth", "capture error", &f)
    } else if k == 12 {
        owned("auth: final timeout")
    } else if k == 13 {
        owned("auth: final not recognized")
    } else if k == 14 {
        wrap("auth: broker unavailable (", &field_or(&f, "code", "unknown"), ")")
    } else if k == 15 {
        wrap("auth: broker error (", &field_or(&f, "error", "unknown"), ")")
    } else if k == 16 {
        owned("watch: scan started")
    } else if k == 17 {
        render_decision("watch", "accepted", &f)
    } else if k == 18 {
        render_attempt_decision("watch", "rejected", &f)
    } else if k == 19 {
        render_retry("watch", &f)
    } else if k == 20 {
        render_attempt_device("watch", "timeout", &f)
    } else if k == 21 {
        render_device_error("watch", "camera error", &f)
    } else if k == 22 {
        render_attempt_device_error("watch", "capture error", &f)
    } else if k == 23 {
        owned("watch: exhausted attempts")
    } else if k == 24 {
        wrap("watch: broker error (", &field_or(&f, "error", "unknown"), ")")
    } else if k == 25 {
        wrap("services: refresh error (", &field_or(&f, "error", "unknown"), ")")
    } else {
        let broker = field_or(&f, "broker", "unknown");
        let watch = field_or(&f, "watch", "unknown");
        let mut s = wrap("services: refreshed (broker ", &broker, ", watch ");
        push_chars(&mut s, watch.as_slice());
        string_push_str(&mut s, ")");
        s
    }
}

/// The sentence shown for a logged message: the message trimmed, rendered by its event
/// when it starts with a known one, else shown as it is.
pub fn render_message(message: &str) -> (s: String)
    ensures
        s@ == spec_render_message(message@),
{
    let cs = chars_of(message);
    render_message_chars(cs.as_slice())
}

} // verus!

verus! {

// ── Timestamps and lines ─────────────────────────────────────────────────────

/// Whether year `y` of the proleptic Gregorian calendar is a leap year.
fn is_leap_year_i64(y: i64) -> (r: bool)
    ensures
        r == crate::calendar::is_leap_year(y as int),
{
    let r4 = y.checked_rem_euclid(4);
    let r100 = y.checked_rem_euclid(100);
    let r400 = y.checked_rem_euclid(400);
    (r4 == Some(0i64) && r100 != Some(0i64)) || r400 == Some(0i64)
}

/// Year, month and day of the day `days_since_epoch` after 1970-01-01: whole 400-year
/// eras of 146097 days are skipped at once, then the remaining years and months are
/// walked.
pub fn civil_from_days(days_since_epoch: i64) -> (r: (i64, u32, u32))
    requires
        -200000000000000 <= days_since_epoch <= 200000000000000,
    ensures
        (r.0 as int, r.1 as int, r.2 as int) == crate::calendar::civil_date(days_since_epoch as int),
{
    let ghost d = days_since_epoch as int;
    let eras: i64 = match days_since_epoch.checked_div_euclid(146_097) {
        Some(q) => q,
        None => 0,
    };
    let mut rest: i64 = days_since_epoch - eras * 146_097;
    let mut year: i64 = 1970 + eras * 400;
    let ghost year0 = year as int;
    proof {
        crate::calendar::lemma_days_before_eras(eras as int);
        crate::calendar::lemma_days_before_era(year0);
    }
    loop
        invariant
            0 <= rest,
            crate::calendar::days_before_year(year as int) + rest == d,
            year0 <= year <= year0 + 400,
            d < crate::calendar::days_before_year(year0 + 400),
            -2000000000000 <= year0 <= 2000000000000,
        ensures
            0 <= rest < crate::calendar::year_len(year as int),
            crate::calendar::days_before_year(year as int) + rest == d,
            -3000000000000 <= year <= 3000000000000,
        decreases rest,
    {
        let len: i64 = if is_leap_year_i64(year) {
            366
        } else {
            365
        };
        if rest < len {
            break;
        }
        rest = rest - len;
        proof {
            crate::calendar::lemma_days_before_next_year(year as int);
            if year + 1 >= year0 + 400 {
                if year + 1 > year0 + 400 {
                    crate::calendar::lemma_days_before_year_increasing(year0 + 400, year + 1);
                }
                assert(false);
            }
        }
        year = year + 1;
    }
    proof {
        crate::calendar::lemma_walk_years_from_epoch(d, year as int);
    }
    let leap = is_leap_year_i64(year);
    let ghost r0 = rest as int;
    let mut month: usize = 0;
    while month < 12
        invariant
            0 <= rest <= r0,
            r0 < 366,
            month <= 11,
            crate::calendar::walk_months(0, r0, leap) == crate::calendar::walk_months(
                month as int,
                rest as int,
                leap,
            ),
        ensures
            0 <= rest <= r0,
            month <= 11,
            crate::calendar::walk_months(0, r0, leap) == (month as int, rest as int),
        decreases 12 - month,
    {
        let mut dm = crate::storage::month_days(month);
        if month == 1 && leap {
            dm = dm + 1;
        }
        if rest < dm || month == 11 {
            break;
        }
        rest = rest - dm;
        month += 1;
    }
    (year, (month + 1) as u32, (rest + 1) as u32)
}

/// The RFC 3339 UTC timestamp of any Unix time, before or after the epoch.
pub fn format_unix_utc(timestamp: i64) -> (s: String)
    ensures
        s@ == crate::calendar::utc_timestamp(timestamp as int),
{
    let days: i64 = match timestamp.checked_div_euclid(86400) {
        Some(d) => d,
        None => 0,
    };
    let seconds_of_day: i64 = match timestamp.checked_rem_euclid(86400) {
        Some(r) => r,
        None => 0,
    };
    assert(-200000000000000 <= days <= 200000000000000);
    let (year, month, day) = civil_from_days(days);
    let hour = (seconds_of_day / 3600) as u64;
    let minute = ((seconds_of_day % 3600) / 60) as u64;
    let second = (seconds_of_day % 60) as u64;
    let mut out = String::new();
    crate::text::push_signed_zero_padded(&mut out, year, 4);
    crate::text::string_push(&mut out, '-');
    crate::text::push_zero_padded(&mut out, month as u64, 2);
    crate::text::string_push(&mut out, '-');
    crate::text::push_zero_padded(&mut out, day as u64, 2);
    crate::text::string_push(&mut out, 'T');
    crate::text::push_zero_padded(&mut out, hour, 2);
    crate::text::string_push(&mut out, ':');
    crate::text::push_zero_padded(&mut out, minute, 2);
    crate::text::string_push(&mut out, ':');
    crate::text::push_zero_padded(&mut out, second, 2);
    crate::text::string_push(&mut out, 'Z');
    proof {
        reveal_strlit("-");
        reveal_strlit("T");
        reveal_strlit(":");
        reveal_strlit("Z");
    }
    out
}

/// How a log line is shown: `STAMP | SENTENCE` for a `STAMP | MESSAGE` line; a legacy
/// line starting with a Unix time gets its time written as a timestamp; any other line
/// is rendered as a message.
pub open spec fn spec_display_line(line: Seq<char>) -> Seq<char> {
    match split_once_seq(line, " | "@) {
        Some((stamp, message)) => stamp + " | "@ + spec_render_message(message),
        None => match split_once_char(line, ' ') {
            None => spec_render_message(line),
            Some((epoch, message)) => match parse_i64(epoch) {
                None => spec_render_message(line),
                Some(t) => crate::calendar::utc_timestamp(t as int) + " | "@ + spec_render_message(
                    message,
                ),
            },
        },
    }
}

/// How a log line is shown (see [`spec_display_line`]).
pub fn display_line(line: &str) -> (s: String)
    ensures
        s@ == spec_display_line(line@),
{
    let cs = chars_of(line);
    let sep = chars_of(" | ");
    if let Some((stamp, message)) = split_once_seq_chars(cs.as_slice(), sep.as_slice()) {
        let mut s = string_from_chars(stamp.as_slice());
        string_push_str(&mut s, " | ");
        let r = render_message_chars(message.as_slice());
        string_push_str(&mut s, r.as_str());
        return s;
    }
    let (epoch, message) = match split_once_char_chars(cs.as_slice(), ' ') {
        None => return render_message_chars(cs.as_slice()),
        Some(p) => p,
    };
    let epoch = match parse_i64_chars(epoch.as_slice()) {
        None => return render_message_chars(cs.as_slice()),
        Some(e) => e,
    };
    let mut s = format_unix_utc(epoch);
    string_push_str(&mut s, " | ");
    let r = render_message_chars(message.as_slice());
    string_push_str(&mut s, r.as_str());
    s
}

/// The line appended to the log for a message at Unix time `now`: newlines in the
/// message become spaces, and the message is stored in its rendered form.
pub open spec fn spec_log_line(now: int, message: Seq<char>) -> Seq<char> {
    crate::calendar::utc_timestamp(now) + " | "@ + spec_render_message(
        Seq::new(message.len(), |i: int| if message[i] == '\n' { ' ' } else { message[i] }),
    )
}

/// The line appended to the log for a message at Unix time `now`.
pub fn log_line(now: i64, message: &str) -> (s: String)
    ensures
        s@ == spec_log_line(now as int, message@),
{
    let cs = chars_of(message);
    let mut clean: Vec<char> = Vec::new();
    let mut i: usize = 0;
    while i < cs.len()
        invariant
            i <= cs@.len(),
            cs@ == message@,
            clean@ == Seq::new(cs@.len(), |j: int| if cs@[j] == '\n' { ' ' } else { cs@[j] }).take(
                i as int,
            ),
        decreases cs@.len() - i,
    {
        let c = if cs[i] == '\n' {
            ' '
        } else {
            cs[i]
        };
        clean.push(c);
        i += 1;
    }
    assert(clean@ == Seq::new(
        message@.len(),
        |i: int| if message@[i] == '\n' { ' ' } else { message@[i] },
    ));
    let mut s = format_unix_utc(now);
    string_push_str(&mut s, " | ");
    let r = render_message_chars(clean.as_slice());
    string_push_str(&mut s, r.as_str());
    s
}

/// Directory of the log under the user's home.
pub const LOG_DIR: &'static str = ".local/state/facegate";

/// File name of the log.
pub const LOG_FILE: &'static str = "facegate.log";

/// Where a user's log lives: `~/.local/state/facegate/facegate.log`.
pub open spec fn spec_log_path(home: Seq<char>) -> Seq<char> {
    crate::storage::path_join(crate::storage::path_join(home, LOG_DIR@), LOG_FILE@)
}

/// The path of the log of the user whose home directory is `home`.
pub fn log_path(home: &str) -> (p: String)
    ensures
        p@ == spec_log_path(home@),
{
    let dir = crate::storage::join_path(home, LOG_DIR);
    crate::storage::join_path(dir.as_str(), LOG_FILE)
}

/// The user whose log is read or written: the one who invoked `sudo` (unless unset,
/// empty or root), else the login user (unless unset or empty).
pub open spec fn spec_log_user(sudo_user: Option<Seq<char>>, user: Option<Seq<char>>) -> Option<Seq<char>> {
    match sudo_user {
        Some(s) if s.len() > 0 && s != "root"@ => Some(s),
        _ => match user {
            Some(u) if u.len() > 0 => Some(u),
            _ => None,
        },
    }
}

/// The user whose log is read or written, from `SUDO_USER` and `USER`.
pub fn log_user(sudo_user: Option<&str>, user: Option<&str>) -> (r: Option<String>)
    ensures
        match spec_log_user(
            match sudo_user {
                Some(x) => Some(x@),
                None => None,
            },
            match user {
                Some(x) => Some(x@),
                None => None,
            },
        ) {
            Some(u) => r matches Some(x) && x@ == u,
            None => r is None,
        },
{
    match sudo_user {
        Some(s) => {
            if chars_of(s).len() > 0 && !str_eq(s, "root") {
                return Some(owned(s));
            }
        },
        None => {},
    }
    match user {
        Some(u) => {
            if chars_of(u).len() > 0 {
                Some(owned(u))
            } else {
                None
            }
        },
        None => None,
    }
}

/// The lines shown when reading the log: the last `n` lines (at least one), each
/// rendered for display.
pub fn display_tail(lines: &[String], n: usize) -> (r: Vec<String>)
    ensures
        ({
            let keep = if n >= 1 {
                n as int
            } else {
                1
            };
            let from = if lines@.len() > keep {
                lines@.len() - keep
            } else {
                0
            };
            &&& r@.len() == lines@.len() - from
            &&& forall|i: int|
                0 <= i < r@.len() ==> (#[trigger] r@[i])@ == spec_display_line(lines@[from + i]@)
        }),
{
    let keep: usize = if n >= 1 {
        n
    } else {
        1
    };
    let from: usize = if lines.len() > keep {
        lines.len() - keep
    } else {
        0
    };
    let mut r: Vec<String> = Vec::new();
    let mut i = from;
    while i < lines.len()
        invariant
            from <= i <= lines@.len(),
            r@.len() == i - from,
            forall|j: int| 0 <= j < r@.len() ==> (#[trigger] r@[j])@ == spec_display_line(lines@[from + j]@),
        decreases lines@.len() - i,
    {
        r.push(display_line(lines[i].as_str()));
        i += 1;
    }
    r
}

} // verus!
