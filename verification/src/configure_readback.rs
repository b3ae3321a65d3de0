//! What the configuration editor reads back from the sections it shows, when nothing
//! was edited.
use vstd::prelude::*;

use crate::config::{
    f32_is_finite_positive, spec_camera_problem, spec_config_problem, spec_ir_problem, CameraConfig,
    CameraIrConfig, Config,
};
use crate::configure::{
    bool_setting, bool_text, field_error, field_view, first_error, last_index,
    section_view, sections_view, spec_build_sections, spec_camera_fields, spec_camera_parsed,
    spec_config_read, spec_logging_fields, spec_models_fields, spec_parse_bool_field,
    spec_parse_optional_field, spec_parse_unsigned_field, spec_recognition_fields,
    spec_recognition_parsed, spec_security_fields, spec_sections_error, spec_storage_fields,
    text_setting, widen32, widen64, ir_device_setting, Field, Section,
};
use crate::text::{decimal, lemma_parse_decimal, trim};

verus! {

/// Two IR camera settings that agree on every setting.
pub open spec fn same_ir(a: Option<CameraIrConfig>, b: Option<CameraIrConfig>) -> bool {
    match (a, b) {
        (None, None) => true,
        (Some(x), Some(y)) => {
            &&& x.device@ == y.device@
            &&& x.width == y.width
            &&& x.height == y.height
            &&& x.fps == y.fps
            &&& x.timeout_ms == y.timeout_ms
            &&& x.warmup_frames == y.warmup_frames
            &&& x.min_face_size == y.min_face_size
        },
        _ => false,
    }
}

/// Two camera settings that agree on every setting.
pub open spec fn same_camera(a: CameraConfig, b: CameraConfig) -> bool {
    &&& a.device@ == b.device@
    &&& a.width == b.width
    &&& a.height == b.height
    &&& a.fps == b.fps
    &&& a.timeout_ms == b.timeout_ms
    &&& a.warmup_frames == b.warmup_frames
    &&& same_ir(a.ir, b.ir)
    &&& a.cross_check == b.cross_check
}

/// Two configurations that agree on every setting.
pub open spec fn same_config(a: Config, b: Config) -> bool {
    &&& same_camera(a.camera, b.camera)
    &&& a.recognition == b.recognition
    &&& a.models.detector@ == b.models.detector@
    &&& a.models.embedder@ == b.models.embedder@
    &&& a.storage.base_dir@ == b.storage.base_dir@
    &&& a.logging.level@ == b.logging.level@
    &&& a.logging.log_failed_attempts == b.logging.log_failed_attempts
    &&& a.security == b.security
}

/// The text of an optional number as the editor shows it: blank when unset.
pub open spec fn optional_text(o: Option<int>) -> Seq<char> {
    match o {
        Some(v) => decimal(v as nat),
        None => seq![],
    }
}

proof fn lemma_uint_text(n: nat, k: Seq<char>, max: int)
    requires
        n <= max,
    ensures
        spec_parse_unsigned_field(decimal(n), k, max) == Ok::<int, Seq<char>>(n as int),
{
    lemma_parse_decimal(n, max);
}

proof fn lemma_optional_text(o: Option<int>, k: Seq<char>, max: int)
    requires
        o matches Some(v) ==> 0 <= v <= max,
    ensures
        spec_parse_optional_field(optional_text(o), k, max) == Ok::<Option<int>, Seq<char>>(o),
{
    match o {
        Some(v) => {
            lemma_parse_decimal(v as nat, max);
            crate::text::lemma_decimal_digits(v as nat);
        },
        None => {
            let e: Seq<char> = seq![];
            assert(crate::text::trim_start(e) == e);
            assert(crate::text::trim_end(e) == e);
        },
    }
}

proof fn lemma_bool_text(b: bool, k: Seq<char>)
    ensures
        spec_parse_bool_field(bool_text(b), k) == Ok::<bool, Seq<char>>(b),
{
    reveal_strlit("true");
    reveal_strlit("false");
    let t = bool_text(b);
    assert(crate::text::trim_start(t) == t);
    assert(crate::text::trim_end(t) == t) by {
        assert(t.last() == t[t.len() - 1]);
    }
    assert("true"@ != "false"@) by {
        assert("true"@.len() != "false"@.len());
    }
}

/// Field `i` is the last one named `k`.
proof fn lemma_last_index_unique(fs: Seq<Field>, i: int, k: Seq<char>)
    requires
        0 <= i < fs.len(),
        fs[i].key@ == k,
        forall|j: int| i < j < fs.len() ==> #[trigger] fs[j].key@ != k,
    ensures
        last_index(fs, k) == Some(i),
    decreases fs.len(),
{
    if i < fs.len() - 1 {
        assert(fs.last() == fs[fs.len() - 1]);
        let d = fs.drop_last();
        assert forall|j: int| i < j < d.len() implies #[trigger] d[j].key@ != k by {
            assert(d[j] == fs[j]);
        }
        assert(d[i] == fs[i]);
        lemma_last_index_unique(d, i, k);
    }
}

/// No field of the first `n` raises an error.
proof fn lemma_first_error_none(which: int, fs: Seq<Field>, floats: Seq<Option<u32>>, n: int)
    requires
        forall|i: int| 0 <= i < n ==> #[trigger] field_error(which, fs[i], floats[i]) is None,
    ensures
        first_error(which, fs, floats, n) is None,
    decreases n,
{
    if n > 0 {
        lemma_first_error_none(which, fs, floats, n - 1);
    }
}

/// The fields of a section shown as `shown`.
proof fn lemma_fields_of(s: Section, name: Seq<char>, shown: Seq<(Seq<char>, Seq<char>, Seq<char>)>)
    requires
        section_view(s) == (name, shown),
    ensures
        s.fields@.len() == shown.len(),
        forall|i: int| 0 <= i < shown.len() ==> #[trigger] field_view(s.fields@[i]) == shown[i],
        forall|i: int| 0 <= i < shown.len() ==> (#[trigger] s.fields@[i]).key@ == shown[i].0
            && s.fields@[i].value@ == shown[i].2,
{
    assert(section_view(s).1.len() == s.fields@.len());
    assert forall|i: int| 0 <= i < shown.len() implies #[trigger] field_view(s.fields@[i]) == shown[i] by {
        assert(section_view(s).1[i] == field_view(s.fields@[i]));
    }
    assert forall|i: int| 0 <= i < shown.len() implies (#[trigger] s.fields@[i]).key@ == shown[i].0
        && s.fields@[i].value@ == shown[i].2 by {
        assert(section_view(s).1[i] == field_view(s.fields@[i]));
    }
}

proof fn lemma_models_read_back(s: Section, cfg: Config, tt: Seq<char>, ot: Seq<char>)
    requires
        section_view(s) == ("Models"@, spec_models_fields(cfg, tt, ot)),
    ensures
        text_setting(s.fields@, "detector"@, cfg.models.detector@) == cfg.models.detector@,
        text_setting(s.fields@, "embedder"@, cfg.models.embedder@) == cfg.models.embedder@,
{
    let fs = s.fields@;
    reveal_strlit("detector");
    reveal_strlit("embedder");
    lemma_fields_of(s, "Models"@, spec_models_fields(cfg, tt, ot));
    assert(fs[0].key@ == "detector"@ && fs[0].value@ == cfg.models.detector@) by {
        assert(field_view(fs[0]) == section_view(s).1[0]);
    }
    assert(fs[1].key@ == "embedder"@ && fs[1].value@ == cfg.models.embedder@) by {
        assert(field_view(fs[1]) == section_view(s).1[1]);
    }
    assert("detector"@ != "embedder"@) by {
        assert("detector"@[0] != "embedder"@[0]);
    }
    lemma_last_index_unique(fs, 0, "detector"@);
    lemma_last_index_unique(fs, 1, "embedder"@);
}

proof fn lemma_storage_read_back(s: Section, cfg: Config, tt: Seq<char>, ot: Seq<char>)
    requires
        section_view(s) == ("Storage"@, spec_storage_fields(cfg, tt, ot)),
    ensures
        text_setting(s.fields@, "base_dir"@, cfg.storage.base_dir@) == cfg.storage.base_dir@,
{
    let fs = s.fields@;
    lemma_fields_of(s, "Storage"@, spec_storage_fields(cfg, tt, ot));
    assert(fs[0].key@ == "base_dir"@ && fs[0].value@ == cfg.storage.base_dir@) by {
        assert(field_view(fs[0]) == section_view(s).1[0]);
    }
    lemma_last_index_unique(fs, 0, "base_dir"@);
}

proof fn lemma_logging_read_back(s: Section, cfg: Config, tt: Seq<char>, ot: Seq<char>)
    requires
        section_view(s) == ("Logging"@, spec_logging_fields(cfg, tt, ot)),
    ensures
        first_error(4, s.fields@, seq![], s.fields@.len() as int) is None,
        text_setting(s.fields@, "level"@, cfg.logging.level@) == cfg.logging.level@,
        bool_setting(s.fields@, "log_failed_attempts"@, cfg.logging.log_failed_attempts)
            == cfg.logging.log_failed_attempts,
{
    let fs = s.fields@;
    let shown = spec_logging_fields(cfg, tt, ot);
    lemma_fields_of(s, "Logging"@, shown);
    reveal_strlit("level");
    reveal_strlit("log_failed_attempts");
    assert(fs[0].key@ == "level"@ && fs[0].value@ == cfg.logging.level@);
    assert(fs[1].key@ == "log_failed_attempts"@ && fs[1].value@ == bool_text(cfg.logging.log_failed_attempts));
    assert("level"@ != "log_failed_attempts"@) by {
        assert("level"@.len() != "log_failed_attempts"@.len());
    }
    lemma_bool_text(cfg.logging.log_failed_attempts, "log_failed_attempts"@);
    lemma_last_index_unique(fs, 0, "level"@);
    lemma_last_index_unique(fs, 1, "log_failed_attempts"@);
    let none: Seq<Option<u32>> = seq![];
    assert(field_error(4, fs[0], none[0]) is None);
    assert(field_error(4, fs[1], none[1]) is None);
    assert forall|i: int| 0 <= i < 2 implies #[trigger] field_error(4, fs[i], none[i]) is None by {
        assert(i == 0 || i == 1);
    }
    lemma_first_error_none(4, fs, none, 2);
}

proof fn lemma_security_read_back(s: Section, cfg: Config, tt: Seq<char>, ot: Seq<char>)
    requires
        section_view(s) == ("Security"@, spec_security_fields(cfg, tt, ot)),
    ensures
        first_error(5, s.fields@, seq![], s.fields@.len() as int) is None,
        bool_setting(s.fields@, "allow_password_fallback"@, cfg.security.allow_password_fallback)
            == cfg.security.allow_password_fallback,
        bool_setting(s.fields@, "deny_on_camera_error"@, cfg.security.deny_on_camera_error)
            == cfg.security.deny_on_camera_error,
{
    let fs = s.fields@;
    let shown = spec_security_fields(cfg, tt, ot);
    lemma_fields_of(s, "Security"@, shown);
    reveal_strlit("allow_password_fallback");
    reveal_strlit("deny_on_camera_error");
    assert(fs[0].key@ == "allow_password_fallback"@ && fs[0].value@ == bool_text(cfg.security.allow_password_fallback));
    assert(fs[1].key@ == "deny_on_camera_error"@ && fs[1].value@ == bool_text(cfg.security.deny_on_camera_error));
    assert("allow_password_fallback"@ != "deny_on_camera_error"@) by {
        assert("allow_password_fallback"@.len() != "deny_on_camera_error"@.len());
    }
    lemma_bool_text(cfg.security.allow_password_fallback, "allow_password_fallback"@);
    lemma_bool_text(cfg.security.deny_on_camera_error, "deny_on_camera_error"@);
    lemma_last_index_unique(fs, 0, "allow_password_fallback"@);
    lemma_last_index_unique(fs, 1, "deny_on_camera_error"@);
    let none: Seq<Option<u32>> = seq![];
    assert(field_error(5, fs[0], none[0]) is None);
    assert(field_error(5, fs[1], none[1]) is None);
    assert forall|i: int| 0 <= i < 2 implies #[trigger] field_error(5, fs[i], none[i]) is None by {
        assert(i == 0 || i == 1);
    }
    lemma_first_error_none(5, fs, none, 2);
}

proof fn lemma_recognition_read_back(s: Section, cfg: Config, tt: Seq<char>, ot: Seq<char>, floats: Seq<Option<u32>>, c: crate::config::RecognitionConfig)
    requires
        section_view(s) == ("Recognition"@, spec_recognition_fields(cfg, tt, ot)),
        floats.len() == s.fields@.len(),
        floats[0] == Some(cfg.recognition.threshold),
    ensures
        first_error(1, s.fields@, floats, s.fields@.len() as int) is None,
        spec_recognition_parsed(c, s.fields@, floats, cfg.recognition) ==> c == cfg.recognition,
{
    let fs = s.fields@;
    let r = cfg.recognition;
    let shown = spec_recognition_fields(cfg, tt, ot);
    lemma_fields_of(s, "Recognition"@, shown);
    reveal_strlit("threshold");
    reveal_strlit("required_matches");
    reveal_strlit("max_attempts");
    reveal_strlit("min_face_size");
    assert(fs[0].key@ == "threshold"@);
    assert(fs[1].key@ == "required_matches"@ && fs[1].value@ == decimal(r.required_matches as nat));
    assert(fs[2].key@ == "max_attempts"@ && fs[2].value@ == decimal(r.max_attempts as nat));
    assert(fs[3].key@ == "min_face_size"@ && fs[3].value@ == decimal(r.min_face_size as nat));
    lemma_uint_text(r.required_matches as nat, "required_matches"@, u32::MAX as int);
    lemma_uint_text(r.max_attempts as nat, "max_attempts"@, u32::MAX as int);
    lemma_uint_text(r.min_face_size as nat, "min_face_size"@, u32::MAX as int);
    lemma_last_index_unique(fs, 0, "threshold"@);
    lemma_last_index_unique(fs, 1, "required_matches"@);
    lemma_last_index_unique(fs, 2, "max_attempts"@);
    lemma_last_index_unique(fs, 3, "min_face_size"@);
    assert(field_error(1, fs[0], floats[0]) is None);
    assert(field_error(1, fs[1], floats[1]) is None);
    assert(field_error(1, fs[2], floats[2]) is None);
    assert(field_error(1, fs[3], floats[3]) is None);
    assert forall|i: int| 0 <= i < 4 implies #[trigger] field_error(1, fs[i], floats[i]) is None by {
        assert(i == 0 || i == 1 || i == 2 || i == 3);
    }
    lemma_first_error_none(1, fs, floats, 4);
}


/// The keys of the `Camera` section are distinct, so each names its own field.
#[verifier::spinoff_prover]
#[verifier::rlimit(100)]
proof fn lemma_camera_last_indices(fs: Seq<Field>, cfg: Config, tt: Seq<char>, ot: Seq<char>)
    requires
        fs.len() == 16,
        forall|i: int| 0 <= i < 16 ==> (#[trigger] fs[i]).key@ == spec_camera_fields(cfg, tt, ot)[i].0,
    ensures
        last_index(fs, "device"@) == Some(0int),
        last_index(fs, "width"@) == Some(1int),
        last_index(fs, "height"@) == Some(2int),
        last_index(fs, "fps"@) == Some(3int),
        last_index(fs, "timeout_ms"@) == Some(4int),
        last_index(fs, "warmup_frames"@) == Some(5int),
        last_index(fs, "ir_device"@) == Some(6int),
        last_index(fs, "ir_width"@) == Some(7int),
        last_index(fs, "ir_height"@) == Some(8int),
        last_index(fs, "ir_timeout_ms"@) == Some(9int),
        last_index(fs, "ir_warmup_frames"@) == Some(10int),
        last_index(fs, "ir_min_face_size"@) == Some(11int),
        last_index(fs, "cross_check_enabled"@) == Some(12int),
        last_index(fs, "cross_check_max_time_skew_ms"@) == Some(13int),
        last_index(fs, "cross_check_max_position_offset_px"@) == Some(14int),
        last_index(fs, "cross_check_allow_identity_homography"@) == Some(15int),
{
    reveal_strlit("device");
    reveal_strlit("width");
    reveal_strlit("height");
    reveal_strlit("fps");
    reveal_strlit("timeout_ms");
    reveal_strlit("warmup_frames");
    reveal_strlit("ir_device");
    reveal_strlit("ir_width");
    reveal_strlit("ir_height");
    reveal_strlit("ir_timeout_ms");
    reveal_strlit("ir_warmup_frames");
    reveal_strlit("ir_min_face_size");
    reveal_strlit("cross_check_enabled");
    reveal_strlit("cross_check_max_time_skew_ms");
    reveal_strlit("cross_check_max_position_offset_px");
    reveal_strlit("cross_check_allow_identity_homography");
    assert("device"@[0] != "height"@[0]);
    assert("warmup_frames"@[0] != "ir_timeout_ms"@[0]);
    assert("ir_device"@[3] != "ir_height"@[3]);
    assert("ir_warmup_frames"@[3] != "ir_min_face_size"@[3]);
    assert(fs[0].key@ == "device"@);
    assert(fs[1].key@ == "width"@);
    assert(fs[2].key@ == "height"@);
    assert(fs[3].key@ == "fps"@);
    assert(fs[4].key@ == "timeout_ms"@);
    assert(fs[5].key@ == "warmup_frames"@);
    assert(fs[6].key@ == "ir_device"@);
    assert(fs[7].key@ == "ir_width"@);
    assert(fs[8].key@ == "ir_height"@);
    assert(fs[9].key@ == "ir_timeout_ms"@);
    assert(fs[10].key@ == "ir_warmup_frames"@);
    assert(fs[11].key@ == "ir_min_face_size"@);
    assert(fs[12].key@ == "cross_check_enabled"@);
    assert(fs[13].key@ == "cross_check_max_time_skew_ms"@);
    assert(fs[14].key@ == "cross_check_max_position_offset_px"@);
    assert(fs[15].key@ == "cross_check_allow_identity_homography"@);
    assert forall|i: int, j: int| #![trigger fs[i], fs[j]] 0 <= i < j < 16 implies fs[i].key@ != fs[j].key@ by {
        assert(i == 0 || i == 1 || i == 2 || i == 3 || i == 4 || i == 5 || i == 6 || i == 7 || i == 8 || i == 9 || i == 10 || i == 11 || i == 12 || i == 13 || i == 14 || i == 15);
        assert(j == 0 || j == 1 || j == 2 || j == 3 || j == 4 || j == 5 || j == 6 || j == 7 || j == 8 || j == 9 || j == 10 || j == 11 || j == 12 || j == 13 || j == 14 || j == 15);
    }
    lemma_last_index_unique(fs, 0, "device"@);
    lemma_last_index_unique(fs, 1, "width"@);
    lemma_last_index_unique(fs, 2, "height"@);
    lemma_last_index_unique(fs, 3, "fps"@);
    lemma_last_index_unique(fs, 4, "timeout_ms"@);
    lemma_last_index_unique(fs, 5, "warmup_frames"@);
    lemma_last_index_unique(fs, 6, "ir_device"@);
    lemma_last_index_unique(fs, 7, "ir_width"@);
    lemma_last_index_unique(fs, 8, "ir_height"@);
    lemma_last_index_unique(fs, 9, "ir_timeout_ms"@);
    lemma_last_index_unique(fs, 10, "ir_warmup_frames"@);
    lemma_last_index_unique(fs, 11, "ir_min_face_size"@);
    lemma_last_index_unique(fs, 12, "cross_check_enabled"@);
    lemma_last_index_unique(fs, 13, "cross_check_max_time_skew_ms"@);
    lemma_last_index_unique(fs, 14, "cross_check_max_position_offset_px"@);
    lemma_last_index_unique(fs, 15, "cross_check_allow_identity_homography"@);
}


/// An IR override as shown: unset when there is no IR camera.
pub open spec fn ir_override(ir: Option<CameraIrConfig>, which: int) -> Option<int> {
    match ir {
        Some(x) => if which == 0 {
            widen32(x.width)
        } else if which == 1 {
            widen32(x.height)
        } else if which == 2 {
            widen64(x.timeout_ms)
        } else if which == 3 {
            widen32(x.warmup_frames)
        } else {
            widen32(x.min_face_size)
        },
        None => None,
    }
}

#[verifier::spinoff_prover]
#[verifier::rlimit(100)]
proof fn lemma_camera_texts(s: Section, cfg: Config, tt: Seq<char>, ot: Seq<char>)
    requires
        section_view(s) == ("Camera"@, spec_camera_fields(cfg, tt, ot)),
    ensures
        s.fields@.len() == 16,
        forall|i: int| 0 <= i < 16 ==> (#[trigger] s.fields@[i]).key@ == spec_camera_fields(cfg, tt, ot)[i].0,
        s.fields@[0].value@ == cfg.camera.device@,
        s.fields@[1].value@ == decimal(cfg.camera.width as nat),
        s.fields@[2].value@ == decimal(cfg.camera.height as nat),
        s.fields@[3].value@ == decimal(cfg.camera.fps as nat),
        s.fields@[4].value@ == decimal(cfg.camera.timeout_ms as nat),
        s.fields@[5].value@ == decimal(cfg.camera.warmup_frames as nat),
        s.fields@[6].value@ == (match cfg.camera.ir {
            Some(ir) => ir.device@,
            None => seq![],
        }),
        s.fields@[7].value@ == optional_text(ir_override(cfg.camera.ir, 0)),
        s.fields@[8].value@ == optional_text(ir_override(cfg.camera.ir, 1)),
        s.fields@[9].value@ == optional_text(ir_override(cfg.camera.ir, 2)),
        s.fields@[10].value@ == optional_text(ir_override(cfg.camera.ir, 3)),
        s.fields@[11].value@ == optional_text(ir_override(cfg.camera.ir, 4)),
        s.fields@[12].value@ == bool_text(cfg.camera.cross_check.enabled),
        s.fields@[13].value@ == decimal(cfg.camera.cross_check.max_time_skew_ms as nat),
        s.fields@[15].value@ == bool_text(cfg.camera.cross_check.allow_identity_homography),
{
    let shown = spec_camera_fields(cfg, tt, ot);
    lemma_fields_of(s, "Camera"@, shown);
    let fs = s.fields@;
    assert(fs[6].value@ == shown[6].2);
    assert(fs[7].value@ == shown[7].2);
    assert(fs[8].value@ == shown[8].2);
    assert(fs[9].value@ == shown[9].2);
    assert(fs[10].value@ == shown[10].2);
    assert(fs[11].value@ == shown[11].2);
}

#[verifier::spinoff_prover]
#[verifier::rlimit(100)]
proof fn lemma_camera_no_error(s: Section, cfg: Config, tt: Seq<char>, ot: Seq<char>, floats: Seq<Option<u32>>)
    requires
        section_view(s) == ("Camera"@, spec_camera_fields(cfg, tt, ot)),
        floats.len() == s.fields@.len(),
        floats[14] is Some,
    ensures
        first_error(0, s.fields@, floats, s.fields@.len() as int) is None,
{
    let fs = s.fields@;
    let cam = cfg.camera;
    lemma_camera_texts(s, cfg, tt, ot);
    reveal_strlit("device");
    reveal_strlit("width");
    reveal_strlit("height");
    reveal_strlit("fps");
    reveal_strlit("timeout_ms");
    reveal_strlit("warmup_frames");
    reveal_strlit("ir_device");
    reveal_strlit("ir_width");
    reveal_strlit("ir_height");
    reveal_strlit("ir_timeout_ms");
    reveal_strlit("ir_warmup_frames");
    reveal_strlit("ir_min_face_size");
    reveal_strlit("cross_check_enabled");
    reveal_strlit("cross_check_max_time_skew_ms");
    reveal_strlit("cross_check_max_position_offset_px");
    reveal_strlit("cross_check_allow_identity_homography");
    assert("device"@[0] != "height"@[0]);
    assert("warmup_frames"@[0] != "ir_timeout_ms"@[0]);
    assert("ir_device"@[3] != "ir_height"@[3]);
    assert(fs[0].key@ == "device"@);
    assert(fs[6].key@ == "ir_device"@);
    assert(fs[14].key@ == "cross_check_max_position_offset_px"@);
    lemma_uint_text(cam.width as nat, "width"@, u32::MAX as int);
    lemma_uint_text(cam.height as nat, "height"@, u32::MAX as int);
    lemma_uint_text(cam.fps as nat, "fps"@, u32::MAX as int);
    lemma_uint_text(cam.timeout_ms as nat, "timeout_ms"@, u64::MAX as int);
    lemma_uint_text(cam.warmup_frames as nat, "warmup_frames"@, u32::MAX as int);
    lemma_uint_text(cam.cross_check.max_time_skew_ms as nat, "cross_check_max_time_skew_ms"@, u64::MAX as int);
    lemma_optional_text(ir_override(cam.ir, 0), "ir_width"@, u32::MAX as int);
    lemma_optional_text(ir_override(cam.ir, 1), "ir_height"@, u32::MAX as int);
    lemma_optional_text(ir_override(cam.ir, 2), "ir_timeout_ms"@, u64::MAX as int);
    lemma_optional_text(ir_override(cam.ir, 3), "ir_warmup_frames"@, u32::MAX as int);
    lemma_optional_text(ir_override(cam.ir, 4), "ir_min_face_size"@, u32::MAX as int);
    lemma_bool_text(cam.cross_check.enabled, "cross_check_enabled"@);
    lemma_bool_text(cam.cross_check.allow_identity_homography, "cross_check_allow_identity_homography"@);
    assert(field_error(0, fs[0], floats[0]) is None);
    assert(field_error(0, fs[1], floats[1]) is None);
    assert(field_error(0, fs[2], floats[2]) is None);
    assert(field_error(0, fs[3], floats[3]) is None);
    assert(field_error(0, fs[4], floats[4]) is None);
    assert(field_error(0, fs[5], floats[5]) is None);
    assert(field_error(0, fs[6], floats[6]) is None);
    assert(field_error(0, fs[7], floats[7]) is None);
    assert(field_error(0, fs[8], floats[8]) is None);
    assert(field_error(0, fs[9], floats[9]) is None);
    assert(field_error(0, fs[10], floats[10]) is None);
    assert(field_error(0, fs[11], floats[11]) is None);
    assert(field_error(0, fs[12], floats[12]) is None);
    assert(field_error(0, fs[13], floats[13]) is None);
    assert(field_error(0, fs[14], floats[14]) is None);
    assert(field_error(0, fs[15], floats[15]) is None);
    assert forall|i: int| 0 <= i < 16 implies #[trigger] field_error(0, fs[i], floats[i]) is None by {
        assert(i == 0 || i == 1 || i == 2 || i == 3 || i == 4 || i == 5 || i == 6 || i == 7 || i == 8 || i == 9 || i == 10 || i == 11 || i == 12 || i == 13 || i == 14 || i == 15);
    }
    lemma_first_error_none(0, fs, floats, 16);
}


#[verifier::spinoff_prover]
#[verifier::rlimit(100)]
proof fn lemma_camera_values(s: Section, cfg: Config, tt: Seq<char>, ot: Seq<char>, floats: Seq<Option<u32>>, c: CameraConfig)
    requires
        section_view(s) == ("Camera"@, spec_camera_fields(cfg, tt, ot)),
        floats.len() == s.fields@.len(),
        floats[14] == Some(cfg.camera.cross_check.max_position_offset_px),
        cfg.camera.cross_check.max_time_skew_ms != 0,
        cfg.camera.cross_check.max_position_offset_px % 0x8000_0000 != 0,
        cfg.camera.ir matches Some(ir) ==> (ir.device@.len() > 0 && trim(ir.device@) == ir.device@),
        spec_camera_parsed(c, s.fields@, floats, cfg.camera),
    ensures
        same_camera(c, cfg.camera),
{
    let fs = s.fields@;
    let cam = cfg.camera;
    lemma_camera_texts(s, cfg, tt, ot);
    lemma_camera_last_indices(fs, cfg, tt, ot);
    lemma_uint_text(cam.width as nat, "width"@, u32::MAX as int);
    lemma_uint_text(cam.height as nat, "height"@, u32::MAX as int);
    lemma_uint_text(cam.fps as nat, "fps"@, u32::MAX as int);
    lemma_uint_text(cam.timeout_ms as nat, "timeout_ms"@, u64::MAX as int);
    lemma_uint_text(cam.warmup_frames as nat, "warmup_frames"@, u32::MAX as int);
    lemma_uint_text(cam.cross_check.max_time_skew_ms as nat, "cross_check_max_time_skew_ms"@, u64::MAX as int);
    lemma_optional_text(ir_override(cam.ir, 0), "ir_width"@, u32::MAX as int);
    lemma_optional_text(ir_override(cam.ir, 1), "ir_height"@, u32::MAX as int);
    lemma_optional_text(ir_override(cam.ir, 2), "ir_timeout_ms"@, u64::MAX as int);
    lemma_optional_text(ir_override(cam.ir, 3), "ir_warmup_frames"@, u32::MAX as int);
    lemma_optional_text(ir_override(cam.ir, 4), "ir_min_face_size"@, u32::MAX as int);
    lemma_bool_text(cam.cross_check.enabled, "cross_check_enabled"@);
    lemma_bool_text(cam.cross_check.allow_identity_homography, "cross_check_allow_identity_homography"@);
    match cam.ir {
        Some(ir) => {
            assert(ir_device_setting(fs, cam.ir) == Some(ir.device@));
            let x = c.ir->0;
            assert(widen32(x.width) == widen32(ir.width));
            assert(widen32(x.height) == widen32(ir.height));
            assert(widen64(x.timeout_ms) == widen64(ir.timeout_ms));
            assert(widen32(x.warmup_frames) == widen32(ir.warmup_frames));
            assert(widen32(x.min_face_size) == widen32(ir.min_face_size));
            assert(widen32(x.fps) == widen32(ir.fps));
        },
        None => {
            let e: Seq<char> = seq![];
            assert(crate::text::trim_start(e) == e);
            assert(crate::text::trim_end(e) == e);
            assert(ir_device_setting(fs, cam.ir) is None);
        },
    }
}


/// Saving without editing gives the configuration back: the sections shown for `cfg`,
/// read back over `cfg`, raise no error, and what they give agrees with `cfg` on every
/// setting, when the binary reads the texts of the two `f32` settings back as the
/// values they were formatted from. Left out are a zero cross-check skew or offset
/// (read back as the default) and an IR device name that is blank or has surrounding
/// whitespace (dropped or trimmed).
pub proof fn law_unedited_sections_read_back(
    ss: Seq<Section>,
    cfg: Config,
    threshold_text: Seq<char>,
    offset_text: Seq<char>,
    camera_floats: Seq<Option<u32>>,
    recognition_floats: Seq<Option<u32>>,
    c: Config,
)
    requires
        sections_view(ss) == spec_build_sections(cfg, threshold_text, offset_text),
        camera_floats.len() == ss[0].fields@.len(),
        recognition_floats.len() == ss[1].fields@.len(),
        forall|i: int| 0 <= i < camera_floats.len() && (#[trigger] ss[0].fields@[i]).key@
            == "cross_check_max_position_offset_px"@ ==> camera_floats[i] == Some(cfg.camera.cross_check.max_position_offset_px),
        forall|i: int| 0 <= i < recognition_floats.len() && (#[trigger] ss[1].fields@[i]).key@
            == "threshold"@ ==> recognition_floats[i] == Some(cfg.recognition.threshold),
        cfg.camera.cross_check.max_time_skew_ms != 0,
        cfg.camera.cross_check.max_position_offset_px % 0x8000_0000 != 0,
        cfg.camera.ir matches Some(ir) ==> (ir.device@.len() > 0 && trim(ir.device@) == ir.device@),
    ensures
        spec_sections_error(ss, camera_floats, recognition_floats) is None,
        spec_config_read(c, ss, camera_floats, recognition_floats, cfg) ==> same_config(c, cfg),
{
    let shown = spec_build_sections(cfg, threshold_text, offset_text);
    assert(ss.len() == 6) by {
        assert(sections_view(ss).len() == ss.len());
    }
    assert forall|k: int| 0 <= k < 6 implies #[trigger] section_view(ss[k]) == shown[k] by {
        assert(sections_view(ss)[k] == section_view(ss[k]));
    }
    assert(section_view(ss[0]) == shown[0]);
    assert(section_view(ss[1]) == shown[1]);
    assert(section_view(ss[2]) == shown[2]);
    assert(section_view(ss[3]) == shown[3]);
    assert(section_view(ss[4]) == shown[4]);
    assert(section_view(ss[5]) == shown[5]);
    reveal_strlit("cross_check_max_position_offset_px");
    reveal_strlit("threshold");
    lemma_camera_texts(ss[0], cfg, threshold_text, offset_text);
    assert(ss[0].fields@[14].key@ == "cross_check_max_position_offset_px"@);
    lemma_fields_of(ss[1], "Recognition"@, spec_recognition_fields(cfg, threshold_text, offset_text));
    assert(ss[1].fields@[0].key@ == "threshold"@);
    lemma_camera_no_error(ss[0], cfg, threshold_text, offset_text, camera_floats);
    lemma_recognition_read_back(ss[1], cfg, threshold_text, offset_text, recognition_floats, c.recognition);
    lemma_models_read_back(ss[2], cfg, threshold_text, offset_text);
    lemma_storage_read_back(ss[3], cfg, threshold_text, offset_text);
    lemma_logging_read_back(ss[4], cfg, threshold_text, offset_text);
    lemma_security_read_back(ss[5], cfg, threshold_text, offset_text);
    if spec_config_read(c, ss, camera_floats, recognition_floats, cfg) {
        lemma_camera_values(ss[0], cfg, threshold_text, offset_text, camera_floats, c.camera);
    }
}

/// The round trip of the configuration editor: for every configuration that passes
/// validation and whose IR device name, if set, has no surrounding whitespace, the
/// sections built from it (`build_sections`), read back over it without an edit
/// (`sections_to_config`), raise no error and give a configuration equal to it in every
/// setting, when the binary reads the texts of the two `f32` settings back as the values
/// they were formatted from.
pub proof fn law_valid_config_round_trip(
    ss: Seq<Section>,
    cfg: Config,
    threshold_text: Seq<char>,
    offset_text: Seq<char>,
    camera_floats: Seq<Option<u32>>,
    recognition_floats: Seq<Option<u32>>,
    c: Config,
)
    requires
        spec_config_problem(cfg) is None,
        cfg.camera.ir matches Some(ir) ==> trim(ir.device@) == ir.device@,
        sections_view(ss) == spec_build_sections(cfg, threshold_text, offset_text),
        camera_floats.len() == ss[0].fields@.len(),
        recognition_floats.len() == ss[1].fields@.len(),
        forall|i: int| 0 <= i < camera_floats.len() && (#[trigger] ss[0].fields@[i]).key@
            == "cross_check_max_position_offset_px"@ ==> camera_floats[i] == Some(cfg.camera.cross_check.max_position_offset_px),
        forall|i: int| 0 <= i < recognition_floats.len() && (#[trigger] ss[1].fields@[i]).key@
            == "threshold"@ ==> recognition_floats[i] == Some(cfg.recognition.threshold),
    ensures
        spec_sections_error(ss, camera_floats, recognition_floats) is None,
        spec_config_read(c, ss, camera_floats, recognition_floats, cfg) ==> same_config(c, cfg),
{
    assert(spec_camera_problem(cfg.camera) is None);
    let cc = cfg.camera.cross_check;
    assert(cc.max_time_skew_ms != 0);
    assert(f32_is_finite_positive(cc.max_position_offset_px));
    assert(cc.max_position_offset_px % 0x8000_0000 != 0);
    if cfg.camera.ir is Some {
        let ir = cfg.camera.ir->0;
        assert(spec_ir_problem(ir, cfg.camera.device@) is None);
        assert(trim(ir.device@).len() > 0);
        assert(ir.device@.len() > 0);
    }
    law_unedited_sections_read_back(
        ss,
        cfg,
        threshold_text,
        offset_text,
        camera_floats,
        recognition_floats,
        c,
    );
}

} // verus!
