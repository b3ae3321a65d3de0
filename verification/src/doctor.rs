//! The judgements behind `facegate doctor`: what kind of camera a device is, which
//! distribution the system runs (for install hints), whether the template store is
//! safely owned, and how each check is reported. Probing devices, files and the user
//! database is done by the binary.
use vstd::prelude::*;

use crate::pam_edit::{lines_of, split_lines, views};
use crate::text::{
    chars_of, find_seq, owned, push_chars, slice_copy, split_once_char, split_once_char_chars,
    str_eq, string_push_str,
};

verus! {

/// What a capture device streams: greyscale (an IR sensor), colour, or neither.
#[derive(Debug, Clone, Copy, PartialEq, Eq, Structural)]
pub enum CameraKind {
    Ir,
    Rgb,
    Unknown,
}

/// A greyscale pixel format (`GREY`, `Y8  `, `Y800`).
pub open spec fn is_grey_fourcc(f: Seq<char>) -> bool {
    f == "GREY"@ || f == "Y8  "@ || f == "Y800"@
}

/// A colour pixel format (`YUYV`, `MJPG`).
pub open spec fn is_colour_fourcc(f: Seq<char>) -> bool {
    f == "YUYV"@ || f == "MJPG"@
}

/// A device offering a greyscale format is an IR camera, else one offering a colour
/// format is an RGB camera.
pub open spec fn spec_camera_kind(fourccs: Seq<Seq<char>>) -> CameraKind {
    if exists|i: int| 0 <= i < fourccs.len() && is_grey_fourcc(#[trigger] fourccs[i]) {
        CameraKind::Ir
    } else if exists|i: int| 0 <= i < fourccs.len() && is_colour_fourcc(#[trigger] fourccs[i]) {
        CameraKind::Rgb
    } else {
        CameraKind::Unknown
    }
}

/// The kind of a camera from the pixel formats it offers.
pub fn camera_kind(fourccs: &Vec<String>) -> (k: CameraKind)
    ensures
        k == spec_camera_kind(fourccs@.map_values(|f: String| f@)),
{
    let ghost fs = fourccs@.map_values(|f: String| f@);
    let mut has_ir = false;
    let mut has_rgb = false;
    let mut i: usize = 0;
    while i < fourccs.len()
        invariant
            i <= fourccs@.len(),
            fs == fourccs@.map_values(|f: String| f@),
            has_ir == exists|j: int| 0 <= j < i && is_grey_fourcc(#[trigger] fs[j]),
            has_rgb == exists|j: int| 0 <= j < i && is_colour_fourcc(#[trigger] fs[j]),
        decreases fourccs@.len() - i,
    {
        let f = fourccs[i].as_str();
        assert(fs[i as int] == f@);
        let grey = str_eq(f, "GREY") || str_eq(f, "Y8  ") || str_eq(f, "Y800");
        let colour = str_eq(f, "YUYV") || str_eq(f, "MJPG");
        if grey {
            has_ir = true;
        }
        if colour {
            has_rgb = true;
        }
        i += 1;
    }
    if has_ir {
        CameraKind::Ir
    } else if has_rgb {
        CameraKind::Rgb
    } else {
        CameraKind::Unknown
    }
}

/// Families of Linux distributions, for install hints.
#[derive(Debug, Clone, Copy, PartialEq, Eq, Structural)]
pub enum Distro {
    Arch,
    Debian,
    Fedora,
    OpenSuse,
    Other,
}

/// `s` with all leading and trailing `"` removed (`str::trim_matches('"')`).
pub open spec fn trim_quotes(s: Seq<char>) -> Seq<char>
    decreases s.len(),
{
    if s.len() > 0 && s[0] == '"' {
        trim_quotes(s.drop_first())
    } else if s.len() > 0 && s.last() == '"' {
        trim_quotes(s.drop_last())
    } else {
        s
    }
}

/// ASCII letters lower-cased (`str::to_ascii_lowercase`).
pub open spec fn ascii_lower(s: Seq<char>) -> Seq<char> {
    Seq::new(s.len(), |i: int| if 'A' <= s[i] && s[i] <= 'Z' { ((s[i] as int) + 32) as char } else { s[i] })
}

/// The value of the first `KEY=value` line of os-release with this key, unquoted and
/// lower-cased; empty when there is none.
pub open spec fn os_release_value(lines: Seq<Seq<char>>, key: Seq<char>) -> Seq<char>
    decreases lines.len(),
{
    if lines.len() == 0 {
        seq![]
    } else {
        match split_once_char(lines[0], '=') {
            Some((k, v)) => if k == key {
                ascii_lower(trim_quotes(v))
            } else {
                os_release_value(lines.drop_first(), key)
            },
            None => os_release_value(lines.drop_first(), key),
        }
    }
}

/// `p` occurs in `s`.
pub open spec fn contains_text(s: Seq<char>, p: Seq<char>) -> bool {
    find_seq(s, p) is Some
}

/// The distribution family named by os-release's `ID` and `ID_LIKE`.
pub open spec fn spec_distro_of(os_release: Seq<char>) -> Distro {
    let ls = lines_of(os_release);
    let c = os_release_value(ls, "ID"@) + " "@ + os_release_value(ls, "ID_LIKE"@);
    if contains_text(c, "arch"@) {
        Distro::Arch
    } else if contains_text(c, "debian"@) || contains_text(c, "ubuntu"@) {
        Distro::Debian
    } else if contains_text(c, "fedora"@) || contains_text(c, "rhel"@) || contains_text(
        c,
        "centos"@,
    ) {
        Distro::Fedora
    } else if contains_text(c, "suse"@) || contains_text(c, "opensuse"@) {
        Distro::OpenSuse
    } else {
        Distro::Other
    }
}

fn trim_quotes_chars(s: &[char]) -> (r: Vec<char>)
    ensures
        r@ == trim_quotes(s@),
{
    let mut a: usize = 0;
    let mut b: usize = s.len();
    assert(s@.subrange(0, s@.len() as int) =~= s@);
    while a < b && (s[a] == '"' || s[b - 1] == '"')
        invariant
            a <= b <= s@.len(),
            trim_quotes(s@) == trim_quotes(s@.subrange(a as int, b as int)),
        decreases b - a,
    {
        let ghost t = s@.subrange(a as int, b as int);
        if s[a] == '"' {
            assert(t.drop_first() =~= s@.subrange(a + 1, b as int));
            a += 1;
        } else {
            assert(t[0] == s@[a as int]);
            assert(t.drop_last() =~= s@.subrange(a as int, b - 1));
            b -= 1;
        }
    }
    assert(s@.subrange(0, s@.len() as int) =~= s@);
    slice_copy(s, a, b)
}

fn ascii_lower_chars(s: &[char]) -> (r: Vec<char>)
    ensures
        r@ == ascii_lower(s@),
{
    let mut r: Vec<char> = Vec::new();
    let mut i: usize = 0;
    while i < s.len()
        invariant
            i <= s@.len(),
            r@ == ascii_lower(s@).take(i as int),
        decreases s@.len() - i,
    {
        let c = s[i];
        let l = if 'A' <= c && c <= 'Z' {
            ((c as u32) + 32) as u8 as char
        } else {
            c
        };
        proof {
            if 'A' <= c && c <= 'Z' {
                assert((((c as u32) + 32) as u8 as char) == (((c as int) + 32) as char));
            }
        }
        r.push(l);
        assert(r@ =~= ascii_lower(s@).take(i + 1));
        i += 1;
    }
    assert(ascii_lower(s@).take(s@.len() as int) =~= ascii_lower(s@));
    r
}

fn os_release_value_of(lines: &Vec<Vec<char>>, key: &str) -> (r: Vec<char>)
    ensures
        r@ == os_release_value(views(lines@), key@),
{
    let mut i: usize = 0;
    assert(views(lines@).skip(0) =~= views(lines@));
    while i < lines.len()
        invariant
            i <= lines@.len(),
            os_release_value(views(lines@), key@) == os_release_value(views(lines@).skip(i as int), key@),
        decreases lines@.len() - i,
    {
        let ghost rest = views(lines@).skip(i as int);
        assert(rest[0] == lines@[i as int]@);
        assert(rest.drop_first() =~= views(lines@).skip(i + 1));
        match split_once_char_chars(lines[i].as_slice(), '=') {
            Some((k, v)) => {
                let kc = chars_of(key);
                if crate::text::chars_eq(k.as_slice(), kc.as_slice()) {
                    let t = trim_quotes_chars(v.as_slice());
                    return ascii_lower_chars(t.as_slice());
                }
            },
            None => {},
        }
        i += 1;
    }
    assert(views(lines@).skip(lines@.len() as int) =~= seq![]);
    Vec::new()
}

fn contains_chars(s: &[char], p: &str) -> (r: bool)
    ensures
        r == contains_text(s@, p@),
{
    let pc = chars_of(p);
    let parts = crate::text::split_once_seq_chars(s, pc.as_slice());
    parts.is_some()
}

/// The distribution family described by the text of `/etc/os-release`.
pub fn distro_of(os_release: &str) -> (d: Distro)
    ensures
        d == spec_distro_of(os_release@),
{
    let cs = chars_of(os_release);
    let ls = split_lines(cs.as_slice());
    let id = os_release_value_of(&ls, "ID");
    let id_like = os_release_value_of(&ls, "ID_LIKE");
    let mut c: Vec<char> = id;
    c.push(' ');
    let mut rest = id_like;
    c.append(&mut rest);
    proof {
        reveal_strlit(" ");
    }
    assert(c@ =~= os_release_value(lines_of(os_release@), "ID"@) + " "@ + os_release_value(
        lines_of(os_release@),
        "ID_LIKE"@,
    ));
    let s = c.as_slice();
    if contains_chars(s, "arch") {
        Distro::Arch
    } else if contains_chars(s, "debian") || contains_chars(s, "ubuntu") {
        Distro::Debian
    } else if contains_chars(s, "fedora") || contains_chars(s, "rhel") || contains_chars(
        s,
        "centos",
    ) {
        Distro::Fedora
    } else if contains_chars(s, "suse") || contains_chars(s, "opensuse") {
        Distro::OpenSuse
    } else {
        Distro::Other
    }
}

/// How to install ONNX Runtime on a distribution.
pub open spec fn spec_ort_install_hint(distro: Distro) -> Seq<char> {
    match distro {
        Distro::Arch => "sudo pacman -S onnxruntime"@,
        Distro::Debian => "sudo apt install libonnxruntime-dev (or run the postinstall download)"@,
        Distro::Fedora => "sudo dnf install onnxruntime (or run the postinstall download)"@,
        Distro::OpenSuse => "sudo zypper install onnxruntime"@,
        Distro::Other => "install onnxruntime via your package manager, or rerun the package postinstall"@,
    }
}

/// How to install ONNX Runtime on a distribution.
pub fn ort_install_hint(distro: Distro) -> (s: &'static str)
    ensures
        s@ == spec_ort_install_hint(distro),
{
    match distro {
        Distro::Arch => "sudo pacman -S onnxruntime",
        Distro::Debian => "sudo apt install libonnxruntime-dev (or run the postinstall download)",
        Distro::Fedora => "sudo dnf install onnxruntime (or run the postinstall download)",
        Distro::OpenSuse => "sudo zypper install onnxruntime",
        Distro::Other => "install onnxruntime via your package manager, or rerun the package postinstall",
    }
}

/// How to reinstall Facegate on a distribution.
pub open spec fn spec_reinstall_hint(distro: Distro) -> Seq<char> {
    match distro {
        Distro::Arch => "reinstall the package: sudo pacman -U facegate-*.pkg.tar.zst"@,
        Distro::Debian => "reinstall the package: sudo apt install ./facegate_*.deb"@,
        Distro::Fedora => "reinstall the package: sudo dnf install ./facegate-*.rpm"@,
        Distro::OpenSuse => "reinstall the package: sudo zypper install ./facegate-*.rpm"@,
        Distro::Other => "reinstall the package, or run install-dev.sh from the source tree"@,
    }
}

/// How to reinstall Facegate on a distribution.
pub fn reinstall_hint(distro: Distro) -> (s: &'static str)
    ensures
        s@ == spec_reinstall_hint(distro),
{
    match distro {
        Distro::Arch => "reinstall the package: sudo pacman -U facegate-*.pkg.tar.zst",
        Distro::Debian => "reinstall the package: sudo apt install ./facegate_*.deb",
        Distro::Fedora => "reinstall the package: sudo dnf install ./facegate-*.rpm",
        Distro::OpenSuse => "reinstall the package: sudo zypper install ./facegate-*.rpm",
        Distro::Other => "reinstall the package, or run install-dev.sh from the source tree",
    }
}

/// A model file name shipped by the earlier model bundle, whose configuration needs a
/// migration hint.
pub open spec fn spec_legacy_model_name(name: Seq<char>) -> bool {
    name == "scrfd_500m.onnx"@ || name == "arcface_w600k_r50.onnx"@ || name == "det_500m.onnx"@
        || name == "w600k_r50.onnx"@ || name == "det_10g.onnx"@ || name == "w600k_mbf.onnx"@
}

/// Whether a model path's file name (`None` when the path has none) is one of the
/// earlier bundle's.
pub fn legacy_v03_model_path(file_name: Option<&str>) -> (r: bool)
    ensures
        r == (match file_name {
            Some(n) => spec_legacy_model_name(n@),
            None => false,
        }),
{
    match file_name {
        Some(n) => str_eq(n, "scrfd_500m.onnx") || str_eq(n, "arcface_w600k_r50.onnx") || str_eq(
            n,
            "det_500m.onnx",
        ) || str_eq(n, "w600k_r50.onnx") || str_eq(n, "det_10g.onnx") || str_eq(
            n,
            "w600k_mbf.onnx",
        ),
        None => false,
    }
}

// ── Ownership of the template store ──────────────────────────────────────────

/// What the filesystem says of one path (without following a symbolic link).
#[derive(Debug, Clone, Copy, PartialEq, Eq, Structural)]
pub struct FileMeta {
    pub is_dir: bool,
    pub is_file: bool,
    pub is_symlink: bool,
    pub uid: u32,
    pub gid: u32,
    /// Permission bits.
    pub mode: u32,
}

/// An entry of the store's directory, and for a user directory the metadata of its
/// `embeddings.json` when that file exists.
#[derive(Debug, Clone, Copy, PartialEq, Eq, Structural)]
pub struct StoreEntry {
    pub meta: FileMeta,
    pub embeddings: Option<FileMeta>,
}

/// No permission bit for group or others is set.
pub open spec fn private_mode(mode: u32) -> bool {
    (mode as int % 0o1000) % 0o100 == 0
}

/// Owned by the `facegate` user and group.
pub open spec fn owned_by(m: FileMeta, uid: u32, gid: u32) -> bool {
    m.uid == uid && m.gid == gid
}

/// An entry of the store is safe: not a symbolic link, owned by `facegate`, and either
/// a private directory (whose `embeddings.json`, if present, is a private regular file
/// owned by `facegate`) or a private regular file.
pub open spec fn safe_entry(e: StoreEntry, uid: u32, gid: u32) -> bool {
    &&& !e.meta.is_symlink
    &&& owned_by(e.meta, uid, gid)
    &&& if e.meta.is_dir {
        &&& private_mode(e.meta.mode)
        &&& (e.embeddings matches Some(f) ==> f.is_file && !f.is_symlink && owned_by(f, uid, gid)
            && private_mode(f.mode))
    } else {
        e.meta.is_file && private_mode(e.meta.mode)
    }
}

/// The template store is safe: the `facegate` user and group exist, the store is a
/// private directory (not a link) they own, and every entry is safe.
pub open spec fn spec_storage_is_safe(
    ids: Option<(u32, u32)>,
    root: FileMeta,
    entries: Seq<StoreEntry>,
) -> bool {
    match ids {
        None => false,
        Some((uid, gid)) => {
            &&& root.is_dir
            &&& !root.is_symlink
            &&& owned_by(root, uid, gid)
            &&& private_mode(root.mode)
            &&& forall|i: int| 0 <= i < entries.len() ==> safe_entry(#[trigger] entries[i], uid, gid)
        },
    }
}

fn is_private(mode: u32) -> (r: bool)
    ensures
        r == private_mode(mode),
{
    (mode % 0o1000) % 0o100 == 0
}

/// Whether the template store is safely owned. `ids` holds the uid of the `facegate`
/// user and the gid of its group when both exist.
pub fn storage_is_safe(ids: Option<(u32, u32)>, root: FileMeta, entries: &[StoreEntry]) -> (r: bool)
    ensures
        r == spec_storage_is_safe(ids, root, entries@),
{
    let (uid, gid) = match ids {
        None => return false,
        Some(p) => p,
    };
    if !root.is_dir || root.is_symlink {
        return false;
    }
    if root.uid != uid || root.gid != gid {
        return false;
    }
    if !is_private(root.mode) {
        return false;
    }
    let mut i: usize = 0;
    while i < entries.len()
        invariant
            i <= entries@.len(),
            ids == Some((uid, gid)),
            root.is_dir && !root.is_symlink && owned_by(root, uid, gid) && private_mode(root.mode),
            forall|j: int| 0 <= j < i ==> safe_entry(#[trigger] entries@[j], uid, gid),
        decreases entries@.len() - i,
    {
        let e = entries[i];
        let m = e.meta;
        let emb_ok = match e.embeddings {
            Some(f) => f.is_file && !f.is_symlink && f.uid == uid && f.gid == gid && is_private(f.mode),
            None => true,
        };
        let ok = if m.is_symlink || m.uid != uid || m.gid != gid {
            false
        } else if m.is_dir {
            is_private(m.mode) && emb_ok
        } else if m.is_file {
            is_private(m.mode)
        } else {
            false
        };
        assert(ok == safe_entry(e, uid, gid));
        if !ok {
            return false;
        }
        i += 1;
    }
    true
}

/// The lines reporting one check: `[✓] label`, or `[✗] label` followed by the hint
/// when there is one.
pub open spec fn spec_check_lines(label: Seq<char>, ok: bool, hint: Option<Seq<char>>) -> Seq<Seq<char>> {
    let head = "  ["@ + (if ok {
        "✓"@
    } else {
        "✗"@
    }) + "] "@ + label;
    if !ok && hint is Some {
        seq![head, "        → "@ + hint->0]
    } else {
        seq![head]
    }
}

/// The lines reporting one check.
pub fn chk(label: &str, ok: bool, hint: Option<&str>) -> (r: Vec<String>)
    ensures
        r@.map_values(|s: String| s@) == spec_check_lines(
            label@,
            ok,
            match hint {
                Some(h) => Some(h@),
                None => None,
            },
        ),
{
    let mut head = owned("  [");
    string_push_str(&mut head, if ok {
        "✓"
    } else {
        "✗"
    });
    string_push_str(&mut head, "] ");
    string_push_str(&mut head, label);
    let mut r: Vec<String> = Vec::new();
    r.push(head);
    if !ok {
        match hint {
            Some(h) => {
                let mut l = owned("        → ");
                string_push_str(&mut l, h);
                r.push(l);
            },
            None => {},
        }
    }
    assert(r@.map_values(|s: String| s@) =~= spec_check_lines(
        label@,
        ok,
        match hint {
            Some(h) => Some(h@),
            None => None,
        },
    ));
    r
}

// ── Choosing cameras ─────────────────────────────────────────────────────────

/// A `/dev` entry named `video` followed only by decimal digits.
pub open spec fn spec_is_video_node(name: Seq<char>) -> bool {
    name.len() >= 5 && name.take(5) == "video"@ && forall|i: int|
        5 <= i < name.len() ==> '0' <= #[trigger] name[i] <= '9'
}

/// Whether a `/dev` entry is a V4L2 video node.
pub fn is_video_node(name: &str) -> (r: bool)
    ensures
        r == spec_is_video_node(name@),
{
    let cs = chars_of(name);
    let v = chars_of("video");
    if !crate::text::starts_with(cs.as_slice(), v.as_slice()) {
        proof {
            reveal_strlit("video");
        }
        return false;
    }
    proof {
        reveal_strlit("video");
    }
    let mut i: usize = 5;
    while i < cs.len()
        invariant
            5 <= i <= cs@.len(),
            cs@ == name@,
            forall|j: int| 5 <= j < i ==> '0' <= #[trigger] cs@[j] <= '9',
        decreases cs@.len() - i,
    {
        if !('0' <= cs[i] && cs[i] <= '9') {
            return false;
        }
        i += 1;
    }
    true
}

/// A video node and the pixel formats it offers.
pub struct CameraFormats {
    pub path: String,
    pub fourccs: Vec<String>,
}

/// The cameras suggested for the configuration.
pub struct RecommendedCameras {
    pub rgb: Option<String>,
    pub ir: Option<String>,
}

/// The node offers a greyscale format.
pub open spec fn offers_grey(c: CameraFormats) -> bool {
    exists|i: int| 0 <= i < c.fourccs@.len() && is_grey_fourcc(#[trigger] c.fourccs@[i]@)
}

/// The node offers a colour format.
pub open spec fn offers_colour(c: CameraFormats) -> bool {
    exists|i: int| 0 <= i < c.fourccs@.len() && is_colour_fourcc(#[trigger] c.fourccs@[i]@)
}

/// The suggestion after looking at the nodes in order: the first greyscale-only node
/// is the IR camera, the first node offering colour the RGB camera.
pub open spec fn spec_recommend(cs: Seq<CameraFormats>) -> (Option<Seq<char>>, Option<Seq<char>>)
    decreases cs.len(),
{
    if cs.len() == 0 {
        (None, None)
    } else {
        let (rgb, ir) = spec_recommend(cs.drop_last());
        let c = cs.last();
        if offers_grey(c) && !offers_colour(c) && ir is None {
            (rgb, Some(c.path@))
        } else if offers_colour(c) && rgb is None {
            (Some(c.path@), ir)
        } else {
            (rgb, ir)
        }
    }
}

fn offers(fourccs: &Vec<String>, grey: bool) -> (r: bool)
    ensures
        grey ==> r == exists|i: int| 0 <= i < fourccs@.len() && is_grey_fourcc(#[trigger] fourccs@[i]@),
        !grey ==> r == exists|i: int| 0 <= i < fourccs@.len() && is_colour_fourcc(#[trigger] fourccs@[i]@),
{
    let mut i: usize = 0;
    while i < fourccs.len()
        invariant
            i <= fourccs@.len(),
            grey ==> forall|j: int| 0 <= j < i ==> !is_grey_fourcc(#[trigger] fourccs@[j]@),
            !grey ==> forall|j: int| 0 <= j < i ==> !is_colour_fourcc(#[trigger] fourccs@[j]@),
        decreases fourccs@.len() - i,
    {
        let f = fourccs[i].as_str();
        let hit = if grey {
            str_eq(f, "GREY") || str_eq(f, "Y8  ") || str_eq(f, "Y800")
        } else {
            str_eq(f, "YUYV") || str_eq(f, "MJPG")
        };
        if hit {
            return true;
        }
        i += 1;
    }
    false
}

/// The RGB and IR cameras to suggest, from the video nodes in the order given.
pub fn recommend_cameras(cameras: &[CameraFormats]) -> (r: RecommendedCameras)
    ensures
        ({
            let (rgb, ir) = spec_recommend(cameras@);
            &&& (match rgb {
                Some(p) => r.rgb matches Some(x) && x@ == p,
                None => r.rgb is None,
            })
            &&& (match ir {
                Some(p) => r.ir matches Some(x) && x@ == p,
                None => r.ir is None,
            })
        }),
{
    let mut rgb: Option<String> = None;
    let mut ir: Option<String> = None;
    let mut i: usize = 0;
    while i < cameras.len()
        invariant
            i <= cameras@.len(),
            ({
                let (srgb, sir) = spec_recommend(cameras@.take(i as int));
                &&& (match srgb {
                    Some(p) => rgb matches Some(x) && x@ == p,
                    None => rgb is None,
                })
                &&& (match sir {
                    Some(p) => ir matches Some(x) && x@ == p,
                    None => ir is None,
                })
            }),
        decreases cameras@.len() - i,
    {
        proof {
            assert(cameras@.take(i + 1).drop_last() =~= cameras@.take(i as int));
        }
        let c = &cameras[i];
        let is_ir = offers(&c.fourccs, true);
        let is_rgb = offers(&c.fourccs, false);
        if is_ir && !is_rgb && ir.is_none() {
            ir = Some(owned(c.path.as_str()));
        } else if is_rgb && rgb.is_none() {
            rgb = Some(owned(c.path.as_str()));
        }
        i += 1;
    }
    assert(cameras@.take(cameras@.len() as int) =~= cameras@);
    RecommendedCameras { rgb, ir }
}

} // verus!
