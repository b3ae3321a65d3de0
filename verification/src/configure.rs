//! The configuration editor behind `facegate configure`: the sections and fields it
//! shows for a configuration, moving the selection, editing a field, and reading the
//! edited fields back into a configuration.
//!
//! The two `f32` settings (the recognition threshold and the cross-check offset) are
//! shown as the text the binary formats for them, and read back from the `f32` the
//! binary parses from the edited text; everything else is formatted and parsed here.
//! Drawing the screen, reading keys and writing the file are done by the binary.
use vstd::prelude::*;

use crate::config::{
    CameraConfig, CameraCrossCheckConfig, CameraIrConfig, Config, LoggingConfig, ModelsConfig,
    RecognitionConfig, SecurityConfig, StorageConfig,
};
use crate::text::{
    chars_of, chars_eq, decimal, owned, parse_u32_chars, parse_u64_chars, parse_unsigned, push_chars,
    push_decimal, str_eq, string_from_chars, string_push_str, trim, trim_chars,
};

verus! {

/// Which list has the keyboard focus.
#[derive(Debug, Clone, Copy, PartialEq, Eq, Structural)]
pub enum Focus {
    Sections,
    Fields,
}

/// Browsing, or editing the selected field.
#[derive(Debug, Clone, Copy, PartialEq, Eq, Structural)]
pub enum Mode {
    Normal,
    Editing,
}

/// How the editor was left: back to the menu, or quitting.
#[derive(Debug, Clone, Copy, PartialEq, Eq, Structural)]
pub enum ConfigureExit {
    Back,
    Quit,
}

/// One editable setting: its key, a description, and its value as text.
pub struct Field {
    pub key: &'static str,
    pub description: &'static str,
    pub value: String,
}

/// A named group of fields.
pub struct Section {
    pub name: &'static str,
    pub fields: Vec<Field>,
}

/// A field as seen: key, description and value.
pub type FieldView = (Seq<char>, Seq<char>, Seq<char>);

/// A field's key, description and value.
pub open spec fn field_view(f: Field) -> FieldView {
    (f.key@, f.description@, f.value@)
}

/// A section's name and the views of its fields.
pub open spec fn section_view(s: Section) -> (Seq<char>, Seq<FieldView>) {
    (s.name@, s.fields@.map_values(|f: Field| field_view(f)))
}

/// The views of a run of sections.
pub open spec fn sections_view(ss: Seq<Section>) -> Seq<(Seq<char>, Seq<FieldView>)> {
    ss.map_values(|s: Section| section_view(s))
}

/// `bool::to_string`.
pub open spec fn bool_text(b: bool) -> Seq<char> {
    if b {
        "true"@
    } else {
        "false"@
    }
}

fn copy_string(s: &String) -> (r: String)
    ensures
        r@ == s@,
{
    owned(s.as_str())
}

fn decimal_string(n: u64) -> (r: String)
    ensures
        r@ == decimal(n as nat),
{
    let mut r = String::new();
    push_decimal(&mut r, n);
    r
}

fn opt_decimal_string(n: Option<u64>) -> (r: String)
    ensures
        r@ == (match n {
            Some(v) => decimal(v as nat),
            None => seq![],
        }),
{
    match n {
        Some(v) => decimal_string(v),
        None => String::new(),
    }
}

fn bool_string(b: bool) -> (r: String)
    ensures
        r@ == bool_text(b),
{
    if b {
        owned("true")
    } else {
        owned("false")
    }
}

// ── The sections shown for a configuration ──────────────────────────────────

/// The fields of the `Camera` section shown for `cfg`.
pub open spec fn spec_camera_fields(cfg: Config, threshold_text: Seq<char>, offset_text: Seq<char>) -> Seq<FieldView> {
    seq![
        ("device"@, "Primary RGB camera device path (e.g. /dev/video0)"@, cfg.camera.device@),
        ("width"@, "Capture width in pixels"@, decimal(cfg.camera.width as nat)),
        ("height"@, "Capture height in pixels"@, decimal(cfg.camera.height as nat)),
        ("fps"@, "Frames per second"@, decimal(cfg.camera.fps as nat)),
        ("timeout_ms"@, "Authentication timeout in milliseconds"@, decimal(cfg.camera.timeout_ms as nat)),
        ("warmup_frames"@, "Frames to discard before capturing"@, decimal(cfg.camera.warmup_frames as nat)),
        ("ir_device"@, "IR camera device path for cross-check (leave empty to disable)"@, match cfg.camera.ir { Some(ir) => ir.device@, None => seq![] }),
        ("ir_width"@, "IR capture width override (blank = inherit RGB width)"@, match cfg.camera.ir { Some(ir) => match ir.width { Some(v) => decimal(v as nat), None => seq![] }, None => seq![] }),
        ("ir_height"@, "IR capture height override (blank = inherit)"@, match cfg.camera.ir { Some(ir) => match ir.height { Some(v) => decimal(v as nat), None => seq![] }, None => seq![] }),
        ("ir_timeout_ms"@, "IR capture timeout override (blank = max(rgb, 8000))"@, match cfg.camera.ir { Some(ir) => match ir.timeout_ms { Some(v) => decimal(v as nat), None => seq![] }, None => seq![] }),
        ("ir_warmup_frames"@, "IR warmup frames override (blank = max(rgb, 10))"@, match cfg.camera.ir { Some(ir) => match ir.warmup_frames { Some(v) => decimal(v as nat), None => seq![] }, None => seq![] }),
        ("ir_min_face_size"@, "Minimum IR face size in px (blank = 5/8 of RGB min_face_size)"@, match cfg.camera.ir { Some(ir) => match ir.min_face_size { Some(v) => decimal(v as nat), None => seq![] }, None => seq![] }),
        ("cross_check_enabled"@, "Require synchronized RGB+IR cross-check (true/false)"@, bool_text(cfg.camera.cross_check.enabled)),
        ("cross_check_max_time_skew_ms"@, "Maximum RGB/IR capture timestamp skew in milliseconds"@, decimal(cfg.camera.cross_check.max_time_skew_ms as nat)),
        ("cross_check_max_position_offset_px"@, "Maximum mapped RGB/IR landmark centroid offset in pixels"@, offset_text),
        ("cross_check_allow_identity_homography"@, "Allow enabling cross-check with the identity homography (sensors must be pre-aligned)"@, bool_text(cfg.camera.cross_check.allow_identity_homography)),
    ]
}

/// The fields of the `Recognition` section shown for `cfg`.
pub open spec fn spec_recognition_fields(cfg: Config, threshold_text: Seq<char>, offset_text: Seq<char>) -> Seq<FieldView> {
    seq![
        ("threshold"@, "Cosine similarity threshold [0.0 – 1.0]"@, threshold_text),
        ("required_matches"@, "Minimum number of matches required"@, decimal(cfg.recognition.required_matches as nat)),
        ("max_attempts"@, "Max capture attempts before giving up"@, decimal(cfg.recognition.max_attempts as nat)),
        ("min_face_size"@, "Minimum face bounding-box size in pixels"@, decimal(cfg.recognition.min_face_size as nat)),
    ]
}

/// The fields of the `Models` section shown for `cfg`.
pub open spec fn spec_models_fields(cfg: Config, threshold_text: Seq<char>, offset_text: Seq<char>) -> Seq<FieldView> {
    seq![
        ("detector"@, "Path to SCRFD face detector ONNX model"@, cfg.models.detector@),
        ("embedder"@, "Path to ArcFace embedder ONNX model"@, cfg.models.embedder@),
    ]
}

/// The fields of the `Storage` section shown for `cfg`.
pub open spec fn spec_storage_fields(cfg: Config, threshold_text: Seq<char>, offset_text: Seq<char>) -> Seq<FieldView> {
    seq![
        ("base_dir"@, "Root directory for per-user template files"@, cfg.storage.base_dir@),
    ]
}

/// The fields of the `Logging` section shown for `cfg`.
pub open spec fn spec_logging_fields(cfg: Config, threshold_text: Seq<char>, offset_text: Seq<char>) -> Seq<FieldView> {
    seq![
        ("level"@, "Log level: trace / debug / info / warn / error"@, cfg.logging.level@),
        ("log_failed_attempts"@, "Log failed authentication attempts (true/false)"@, bool_text(cfg.logging.log_failed_attempts)),
    ]
}

/// The fields of the `Security` section shown for `cfg`.
pub open spec fn spec_security_fields(cfg: Config, threshold_text: Seq<char>, offset_text: Seq<char>) -> Seq<FieldView> {
    seq![
        ("allow_password_fallback"@, "Allow password fallback when face auth fails (true/false)"@, bool_text(cfg.security.allow_password_fallback)),
        ("deny_on_camera_error"@, "Deny authentication if camera cannot be opened (true/false)"@, bool_text(cfg.security.deny_on_camera_error)),
    ]
}

fn camera_section(cfg: &Config, threshold_text: &String, offset_text: &String) -> (s: Section)
    ensures
        section_view(s) == ("Camera"@, spec_camera_fields(*cfg, threshold_text@, offset_text@)),
{
    let mut fields: Vec<Field> = Vec::new();
    fields.push(Field { key: "device", description: "Primary RGB camera device path (e.g. /dev/video0)", value: copy_string(&cfg.camera.device) });
    fields.push(Field { key: "width", description: "Capture width in pixels", value: decimal_string(cfg.camera.width as u64) });
    fields.push(Field { key: "height", description: "Capture height in pixels", value: decimal_string(cfg.camera.height as u64) });
    fields.push(Field { key: "fps", description: "Frames per second", value: decimal_string(cfg.camera.fps as u64) });
    fields.push(Field { key: "timeout_ms", description: "Authentication timeout in milliseconds", value: decimal_string(cfg.camera.timeout_ms) });
    fields.push(Field { key: "warmup_frames", description: "Frames to discard before capturing", value: decimal_string(cfg.camera.warmup_frames as u64) });
    fields.push(Field { key: "ir_device", description: "IR camera device path for cross-check (leave empty to disable)", value: match &cfg.camera.ir { Some(ir) => copy_string(&ir.device), None => String::new() } });
    fields.push(Field { key: "ir_width", description: "IR capture width override (blank = inherit RGB width)", value: match &cfg.camera.ir { Some(ir) => opt_decimal_string(match ir.width { Some(v) => Some(v as u64), None => None }), None => String::new() } });
    fields.push(Field { key: "ir_height", description: "IR capture height override (blank = inherit)", value: match &cfg.camera.ir { Some(ir) => opt_decimal_string(match ir.height { Some(v) => Some(v as u64), None => None }), None => String::new() } });
    fields.push(Field { key: "ir_timeout_ms", description: "IR capture timeout override (blank = max(rgb, 8000))", value: match &cfg.camera.ir { Some(ir) => opt_decimal_string(ir.timeout_ms), None => String::new() } });
    fields.push(Field { key: "ir_warmup_frames", description: "IR warmup frames override (blank = max(rgb, 10))", value: match &cfg.camera.ir { Some(ir) => opt_decimal_string(match ir.warmup_frames { Some(v) => Some(v as u64), None => None }), None => String::new() } });
    fields.push(Field { key: "ir_min_face_size", description: "Minimum IR face size in px (blank = 5/8 of RGB min_face_size)", value: match &cfg.camera.ir { Some(ir) => opt_decimal_string(match ir.min_face_size { Some(v) => Some(v as u64), None => None }), None => String::new() } });
    fields.push(Field { key: "cross_check_enabled", description: "Require synchronized RGB+IR cross-check (true/false)", value: bool_string(cfg.camera.cross_check.enabled) });
    fields.push(Field { key: "cross_check_max_time_skew_ms", description: "Maximum RGB/IR capture timestamp skew in milliseconds", value: decimal_string(cfg.camera.cross_check.max_time_skew_ms) });
    fields.push(Field { key: "cross_check_max_position_offset_px", description: "Maximum mapped RGB/IR landmark centroid offset in pixels", value: copy_string(offset_text) });
    fields.push(Field { key: "cross_check_allow_identity_homography", description: "Allow enabling cross-check with the identity homography (sensors must be pre-aligned)", value: bool_string(cfg.camera.cross_check.allow_identity_homography) });
    let s = Section { name: "Camera", fields };
    assert(section_view(s).1 =~= spec_camera_fields(*cfg, threshold_text@, offset_text@));
    s
}

fn recognition_section(cfg: &Config, threshold_text: &String, offset_text: &String) -> (s: Section)
    ensures
        section_view(s) == ("Recognition"@, spec_recognition_fields(*cfg, threshold_text@, offset_text@)),
{
    let mut fields: Vec<Field> = Vec::new();
    fields.push(Field { key: "threshold", description: "Cosine similarity threshold [0.0 – 1.0]", value: copy_string(threshold_text) });
    fields.push(Field { key: "required_matches", description: "Minimum number of matches required", value: decimal_string(cfg.recognition.required_matches as u64) });
    fields.push(Field { key: "max_attempts", description: "Max capture attempts before giving up", value: decimal_string(cfg.recognition.max_attempts as u64) });
    fields.push(Field { key: "min_face_size", description: "Minimum face bounding-box size in pixels", value: decimal_string(cfg.recognition.min_face_size as u64) });
    let s = Section { name: "Recognition", fields };
    assert(section_view(s).1 =~= spec_recognition_fields(*cfg, threshold_text@, offset_text@));
    s
}

fn models_section(cfg: &Config, threshold_text: &String, offset_text: &String) -> (s: Section)
    ensures
        section_view(s) == ("Models"@, spec_models_fields(*cfg, threshold_text@, offset_text@)),
{
    let mut fields: Vec<Field> = Vec::new();
    fields.push(Field { key: "detector", description: "Path to SCRFD face detector ONNX model", value: copy_string(&cfg.models.detector) });
    fields.push(Field { key: "embedder", description: "Path to ArcFace embedder ONNX model", value: copy_string(&cfg.models.embedder) });
    let s = Section { name: "Models", fields };
    assert(section_view(s).1 =~= spec_models_fields(*cfg, threshold_text@, offset_text@));
    s
}

fn storage_section(cfg: &Config, threshold_text: &String, offset_text: &String) -> (s: Section)
    ensures
        section_view(s) == ("Storage"@, spec_storage_fields(*cfg, threshold_text@, offset_text@)),
{
    let mut fields: Vec<Field> = Vec::new();
    fields.push(Field { key: "base_dir", description: "Root directory for per-user template files", value: copy_string(&cfg.storage.base_dir) });
    let s = Section { name: "Storage", fields };
    assert(section_view(s).1 =~= spec_storage_fields(*cfg, threshold_text@, offset_text@));
    s
}

fn logging_section(cfg: &Config, threshold_text: &String, offset_text: &String) -> (s: Section)
    ensures
        section_view(s) == ("Logging"@, spec_logging_fields(*cfg, threshold_text@, offset_text@)),
{
    let mut fields: Vec<Field> = Vec::new();
    fields.push(Field { key: "level", description: "Log level: trace / debug / info / warn / error", value: copy_string(&cfg.logging.level) });
    fields.push(Field { key: "log_failed_attempts", description: "Log failed authentication attempts (true/false)", value: bool_string(cfg.logging.log_failed_attempts) });
    let s = Section { name: "Logging", fields };
    assert(section_view(s).1 =~= spec_logging_fields(*cfg, threshold_text@, offset_text@));
    s
}

fn security_section(cfg: &Config, threshold_text: &String, offset_text: &String) -> (s: Section)
    ensures
        section_view(s) == ("Security"@, spec_security_fields(*cfg, threshold_text@, offset_text@)),
{
    let mut fields: Vec<Field> = Vec::new();
    fields.push(Field { key: "allow_password_fallback", description: "Allow password fallback when face auth fails (true/false)", value: bool_string(cfg.security.allow_password_fallback) });
    fields.push(Field { key: "deny_on_camera_error", description: "Deny authentication if camera cannot be opened (true/false)", value: bool_string(cfg.security.deny_on_camera_error) });
    let s = Section { name: "Security", fields };
    assert(section_view(s).1 =~= spec_security_fields(*cfg, threshold_text@, offset_text@));
    s
}

/// The sections shown for `cfg`, in order: Camera, Recognition, Models, Storage,
/// Logging, Security. `threshold_text` and `offset_text` are the texts of the two `f32`
/// settings.
pub open spec fn spec_build_sections(cfg: Config, threshold_text: Seq<char>, offset_text: Seq<char>) -> Seq<(Seq<char>, Seq<FieldView>)> {
    seq![
        ("Camera"@, spec_camera_fields(cfg, threshold_text, offset_text)),
        ("Recognition"@, spec_recognition_fields(cfg, threshold_text, offset_text)),
        ("Models"@, spec_models_fields(cfg, threshold_text, offset_text)),
        ("Storage"@, spec_storage_fields(cfg, threshold_text, offset_text)),
        ("Logging"@, spec_logging_fields(cfg, threshold_text, offset_text)),
        ("Security"@, spec_security_fields(cfg, threshold_text, offset_text)),
    ]
}

/// The sections shown for `cfg` (see [`spec_build_sections`]).
pub fn build_sections(cfg: &Config, threshold_text: &String, offset_text: &String) -> (r: Vec<Section>)
    ensures
        sections_view(r@) == spec_build_sections(*cfg, threshold_text@, offset_text@),
{
    let mut r: Vec<Section> = Vec::new();
    r.push(camera_section(cfg, threshold_text, offset_text));
    r.push(recognition_section(cfg, threshold_text, offset_text));
    r.push(models_section(cfg, threshold_text, offset_text));
    r.push(storage_section(cfg, threshold_text, offset_text));
    r.push(logging_section(cfg, threshold_text, offset_text));
    r.push(security_section(cfg, threshold_text, offset_text));
    assert(sections_view(r@) =~= spec_build_sections(*cfg, threshold_text@, offset_text@));
    r
}

// ── The editor's state ─────────────────────────────────────────────────────

/// The configuration editor.
pub struct App {
    pub config: Config,
    pub config_path: String,
    pub sections: Vec<Section>,
    pub focus: Focus,
    pub selected_section: usize,
    pub selected_field: usize,
    pub mode: Mode,
    pub edit_buffer: String,
    /// The last message shown, and whether it reports an error.
    pub status: Option<(String, bool)>,
    pub exit: Option<ConfigureExit>,
}

/// Every section has a field.
pub open spec fn sections_nonempty(ss: Seq<Section>) -> bool {
    forall|i: int| 0 <= i < ss.len() ==> (#[trigger] ss[i]).fields@.len() >= 1
}

impl App {
    /// The selection points at an existing section and an existing field of it.
    pub open spec fn wf(self) -> bool {
        &&& self.sections@.len() >= 1
        &&& sections_nonempty(self.sections@)
        &&& self.selected_section < self.sections@.len()
        &&& self.selected_field < self.sections@[self.selected_section as int].fields@.len()
    }

    /// The editor for `config`, saved to `config_path`, with the sections selected and
    /// nothing being edited.
    pub fn new(config: Config, config_path: String, threshold_text: &String, offset_text: &String) -> (app: App)
        ensures
            app.wf(),
            sections_view(app.sections@) == spec_build_sections(config, threshold_text@, offset_text@),
            app.config == config,
            app.config_path == config_path,
            app.focus == Focus::Sections,
            app.selected_section == 0,
            app.selected_field == 0,
            app.mode == Mode::Normal,
            app.edit_buffer@.len() == 0,
            app.status is None,
            app.exit is None,
    {
        let sections = build_sections(&config, threshold_text, offset_text);
        proof {
            let sv = sections_view(sections@);
            let b = spec_build_sections(config, threshold_text@, offset_text@);
            assert(sv.len() == sections@.len());
            assert forall|i: int| 0 <= i < sections@.len() implies (#[trigger] sections@[i]).fields@.len() >= 1 by {
                assert(sv[i] == section_view(sections@[i]));
                assert(sv[i].1.len() == sections@[i].fields@.len());
                assert(b[i] == sv[i]);
                if i == 0 {
                    assert(b[0].1.len() == 16);
                } else if i == 1 {
                    assert(b[1].1.len() == 4);
                } else if i == 2 {
                    assert(b[2].1.len() == 2);
                } else if i == 3 {
                    assert(b[3].1.len() == 1);
                } else if i == 4 {
                    assert(b[4].1.len() == 2);
                } else {
                    assert(b[5].1.len() == 2);
                }
            }
        }
        App {
            config,
            config_path,
            sections,
            focus: Focus::Sections,
            selected_section: 0,
            selected_field: 0,
            mode: Mode::Normal,
            edit_buffer: String::new(),
            status: None,
            exit: None,
        }
    }

    /// Moves the selection up: to the previous section (and its first field), or to
    /// the previous field; stays put at the top. Clears the status message.
    pub fn move_up(&mut self)
        requires
            old(self).wf(),
        ensures
            final(self).wf(),
            final(self).status is None,
            final(self).sections == old(self).sections,
            final(self).focus == old(self).focus,
            final(self).mode == old(self).mode,
            final(self).config == old(self).config,
            old(self).focus == Focus::Sections ==> if old(self).selected_section > 0 {
                final(self).selected_section == old(self).selected_section - 1
                    && final(self).selected_field == 0
            } else {
                final(self).selected_section == 0 && final(self).selected_field
                    == old(self).selected_field
            },
            old(self).focus == Focus::Fields ==> final(self).selected_section == old(
                self,
            ).selected_section && final(self).selected_field == if old(self).selected_field
                > 0 {
                (old(self).selected_field - 1) as usize
            } else {
                0
            },
    {
        self.status = None;
        match self.focus {
            Focus::Sections => {
                if self.selected_section > 0 {
                    self.selected_section -= 1;
                    self.selected_field = 0;
                }
            },
            Focus::Fields => {
                if self.selected_field > 0 {
                    self.selected_field -= 1;
                }
            },
        }
    }

    /// Moves the selection down: to the next section (and its first field), or to the
    /// next field; stays put at the bottom. Clears the status message.
    pub fn move_down(&mut self)
        requires
            old(self).wf(),
        ensures
            final(self).wf(),
            final(self).status is None,
            final(self).sections == old(self).sections,
            final(self).focus == old(self).focus,
            final(self).mode == old(self).mode,
            final(self).config == old(self).config,
            old(self).focus == Focus::Sections ==> if old(self).selected_section + 1 < old(
                self,
            ).sections@.len() {
                final(self).selected_section == old(self).selected_section + 1
                    && final(self).selected_field == 0
            } else {
                final(self).selected_section == old(self).selected_section
                    && final(self).selected_field == old(self).selected_field
            },
            old(self).focus == Focus::Fields ==> final(self).selected_section == old(
                self,
            ).selected_section && final(self).selected_field == if old(self).selected_field
                + 1 < old(self).sections@[old(self).selected_section as int].fields@.len() {
                (old(self).selected_field + 1) as usize
            } else {
                old(self).selected_field
            },
    {
        self.status = None;
        match self.focus {
            Focus::Sections => {
                if self.selected_section < self.sections.len() - 1 {
                    self.selected_section += 1;
                    self.selected_field = 0;
                }
            },
            Focus::Fields => {
                let max = self.sections[self.selected_section].fields.len();
                if self.selected_field < max - 1 {
                    self.selected_field += 1;
                }
            },
        }
    }

    /// Enter: from the sections, focus the first field of the selected section; on a
    /// field, start editing it.
    pub fn enter(&mut self)
        requires
            old(self).wf(),
        ensures
            final(self).wf(),
            final(self).sections == old(self).sections,
            final(self).selected_section == old(self).selected_section,
            final(self).config == old(self).config,
            old(self).focus == Focus::Sections ==> final(self).focus == Focus::Fields
                && final(self).selected_field == 0 && final(self).mode == old(self).mode
                && final(self).edit_buffer == old(self).edit_buffer,
            old(self).focus == Focus::Fields ==> final(self).focus == Focus::Fields
                && final(self).selected_field == old(self).selected_field && final(self).mode
                == Mode::Editing && final(self).status is None && final(self).edit_buffer@
                == old(self).sections@[old(self).selected_section as int].fields@[old(
                self,
            ).selected_field as int].value@,
    {
        match self.focus {
            Focus::Sections => {
                self.focus = Focus::Fields;
                self.selected_field = 0;
            },
            Focus::Fields => self.start_edit(),
        }
    }

    fn start_edit(&mut self)
        requires
            old(self).wf(),
        ensures
            final(self).wf(),
            final(self).sections == old(self).sections,
            final(self).selected_section == old(self).selected_section,
            final(self).selected_field == old(self).selected_field,
            final(self).focus == old(self).focus,
            final(self).config == old(self).config,
            final(self).mode == Mode::Editing,
            final(self).status is None,
            final(self).edit_buffer@ == old(self).sections@[old(
                self,
            ).selected_section as int].fields@[old(self).selected_field as int].value@,
    {
        let value = copy_string(&self.sections[self.selected_section].fields[self.selected_field].value);
        self.edit_buffer = value;
        self.mode = Mode::Editing;
        self.status = None;
    }

    /// Stores the edit buffer as the selected field's value and stops editing; every
    /// other field keeps its value.
    pub fn confirm_edit(&mut self)
        requires
            old(self).wf(),
        ensures
            final(self).wf(),
            final(self).mode == Mode::Normal,
            final(self).edit_buffer@.len() == 0,
            final(self).selected_section == old(self).selected_section,
            final(self).selected_field == old(self).selected_field,
            final(self).focus == old(self).focus,
            final(self).config == old(self).config,
            sections_view(final(self).sections@) == sections_view(old(self).sections@).update(
                old(self).selected_section as int,
                (
                    old(self).sections@[old(self).selected_section as int].name@,
                    sections_view(old(self).sections@)[old(
                        self,
                    ).selected_section as int].1.update(
                        old(self).selected_field as int,
                        (
                            old(self).sections@[old(self).selected_section as int].fields@[old(
                                self,
                            ).selected_field as int].key@,
                            old(self).sections@[old(self).selected_section as int].fields@[old(
                                self,
                            ).selected_field as int].description@,
                            old(self).edit_buffer@,
                        ),
                    ),
                ),
            ),
    {
        let s = self.selected_section;
        let f = self.selected_field;
        let v = copy_string(&self.edit_buffer);
        let ghost old_sections = self.sections@;
        let mut section = Section { name: "", fields: Vec::new() };
        std::mem::swap(&mut section, &mut self.sections[s]);
        let ghost old_fields = section.fields@;
        let mut field = Field { key: "", description: "", value: String::new() };
        std::mem::swap(&mut field, &mut section.fields[f]);
        field.value = v;
        section.fields.set(f, field);
        assert(section.fields@.map_values(|x: Field| field_view(x)) =~= old_fields.map_values(|x: Field| field_view(x)).update(f as int, (old_fields[f as int].key@, old_fields[f as int].description@, old(self).edit_buffer@)));
        self.sections.set(s, section);
        assert(sections_view(self.sections@) =~= sections_view(old_sections).update(
            s as int,
            (
                old_sections[s as int].name@,
                sections_view(old_sections)[s as int].1.update(
                    f as int,
                    (old_fields[f as int].key@, old_fields[f as int].description@, old(self).edit_buffer@),
                ),
            ),
        ));
        assert(sections_nonempty(self.sections@)) by {
            assert forall|i: int| 0 <= i < self.sections@.len() implies (#[trigger] self.sections@[i]).fields@.len() >= 1 by {
                if i != s {
                    assert(self.sections@[i] == old_sections[i]);
                }
            }
        }
        self.mode = Mode::Normal;
        self.edit_buffer = String::new();
    }

    /// Stops editing without changing any field.
    pub fn cancel_edit(&mut self)
        requires
            old(self).wf(),
        ensures
            final(self).wf(),
            final(self).mode == Mode::Normal,
            final(self).edit_buffer@.len() == 0,
            final(self).sections == old(self).sections,
            final(self).selected_section == old(self).selected_section,
            final(self).selected_field == old(self).selected_field,
            final(self).focus == old(self).focus,
            final(self).config == old(self).config,
    {
        self.mode = Mode::Normal;
        self.edit_buffer = String::new();
    }
}

// ── Reading field values ────────────────────────────────────────────────────

/// `'KEY' expects WHAT, got 'TEXT'`.
pub open spec fn expects_message(key: Seq<char>, what: Seq<char>, text: Seq<char>) -> Seq<char> {
    "'"@ + key + "' expects "@ + what + ", got '"@ + text + "'"@
}

fn expects_error(key: &str, what: &str, text: &[char]) -> (m: String)
    ensures
        m@ == expects_message(key@, what@, text@),
{
    let mut m = owned("'");
    string_push_str(&mut m, key);
    string_push_str(&mut m, "' expects ");
    string_push_str(&mut m, what);
    string_push_str(&mut m, ", got '");
    push_chars(&mut m, text);
    string_push_str(&mut m, "'");
    m
}

/// A field value read as an unsigned integer of largest value `max` (surrounding
/// whitespace ignored), or the error naming the field and the text.
pub open spec fn spec_parse_unsigned_field(text: Seq<char>, key: Seq<char>, max: int) -> Result<int, Seq<char>> {
    match parse_unsigned(trim(text), max) {
        Some(v) => Ok(v),
        None => Err(expects_message(key, "a positive integer"@, text)),
    }
}

/// A field value read as a `u32`.
pub fn parse_u32(s: &str, key: &str) -> (r: Result<u32, String>)
    ensures
        match spec_parse_unsigned_field(s@, key@, u32::MAX as int) {
            Ok(v) => r matches Ok(x) && x == v,
            Err(m) => r matches Err(e) && e@ == m,
        },
{
    let cs = chars_of(s);
    let t = trim_chars(cs.as_slice());
    match parse_u32_chars(t.as_slice()) {
        Some(v) => Ok(v),
        None => Err(expects_error(key, "a positive integer", cs.as_slice())),
    }
}

/// A field value read as a `u64`.
pub fn parse_u64(s: &str, key: &str) -> (r: Result<u64, String>)
    ensures
        match spec_parse_unsigned_field(s@, key@, u64::MAX as int) {
            Ok(v) => r matches Ok(x) && x == v,
            Err(m) => r matches Err(e) && e@ == m,
        },
{
    let cs = chars_of(s);
    let t = trim_chars(cs.as_slice());
    match parse_u64_chars(t.as_slice()) {
        Some(v) => Ok(v),
        None => Err(expects_error(key, "a positive integer", cs.as_slice())),
    }
}

/// A field value read as `true` or `false` (surrounding whitespace ignored).
pub open spec fn spec_parse_bool_field(text: Seq<char>, key: Seq<char>) -> Result<bool, Seq<char>> {
    let t = trim(text);
    if t == "true"@ {
        Ok(true)
    } else if t == "false"@ {
        Ok(false)
    } else {
        Err(expects_message(key, "true or false"@, t))
    }
}

/// A field value read as a boolean.
pub fn parse_bool(s: &str, key: &str) -> (r: Result<bool, String>)
    ensures
        match spec_parse_bool_field(s@, key@) {
            Ok(v) => r == Ok::<bool, String>(v),
            Err(m) => r matches Err(e) && e@ == m,
        },
{
    let cs = chars_of(s);
    let t = trim_chars(cs.as_slice());
    let tr = chars_of("true");
    let fa = chars_of("false");
    if chars_eq(t.as_slice(), tr.as_slice()) {
        Ok(true)
    } else if chars_eq(t.as_slice(), fa.as_slice()) {
        Ok(false)
    } else {
        Err(expects_error(key, "true or false", t.as_slice()))
    }
}

/// A blank field value means "not set"; anything else is read as an unsigned integer,
/// and an error quotes the trimmed text.
pub open spec fn spec_parse_optional_field(text: Seq<char>, key: Seq<char>, max: int) -> Result<Option<int>, Seq<char>> {
    let t = trim(text);
    if t.len() == 0 {
        Ok(None)
    } else {
        match spec_parse_unsigned_field(t, key, max) {
            Ok(v) => Ok(Some(v)),
            Err(m) => Err(m),
        }
    }
}

/// A field value read as an optional `u32`.
pub fn parse_optional_u32(s: &str, key: &str) -> (r: Result<Option<u32>, String>)
    ensures
        match spec_parse_optional_field(s@, key@, u32::MAX as int) {
            Ok(None) => r == Ok::<Option<u32>, String>(None),
            Ok(Some(v)) => r matches Ok(Some(x)) && x == v,
            Err(m) => r matches Err(e) && e@ == m,
        },
{
    let cs = chars_of(s);
    let t = trim_chars(cs.as_slice());
    if t.len() == 0 {
        return Ok(None);
    }
    let ts = string_from_chars(t.as_slice());
    proof {
        crate::text::lemma_trim_idempotent(s@);
    }
    match parse_u32(ts.as_str(), key) {
        Ok(v) => Ok(Some(v)),
        Err(e) => Err(e),
    }
}

/// A field value read as an optional `u64`.
pub fn parse_optional_u64(s: &str, key: &str) -> (r: Result<Option<u64>, String>)
    ensures
        match spec_parse_optional_field(s@, key@, u64::MAX as int) {
            Ok(None) => r == Ok::<Option<u64>, String>(None),
            Ok(Some(v)) => r matches Ok(Some(x)) && x == v,
            Err(m) => r matches Err(e) && e@ == m,
        },
{
    let cs = chars_of(s);
    let t = trim_chars(cs.as_slice());
    if t.len() == 0 {
        return Ok(None);
    }
    let ts = string_from_chars(t.as_slice());
    proof {
        crate::text::lemma_trim_idempotent(s@);
    }
    match parse_u64(ts.as_str(), key) {
        Ok(v) => Ok(Some(v)),
        Err(e) => Err(e),
    }
}

/// The error for a field whose text is not a decimal number.
pub fn float_field_error(s: &str, key: &str) -> (m: String)
    ensures
        m@ == expects_message(key@, "a decimal number"@, s@),
{
    let cs = chars_of(s);
    expects_error(key, "a decimal number", cs.as_slice())
}

// ── Reading sections back into a configuration ─────────────────────────────

/// Index of the last field named `k`, if any.
pub open spec fn last_index(fs: Seq<Field>, k: Seq<char>) -> Option<int>
    decreases fs.len(),
{
    if fs.len() == 0 {
        None
    } else if fs.last().key@ == k {
        Some(fs.len() - 1)
    } else {
        last_index(fs.drop_last(), k)
    }
}

/// The text of the last field named `k`, else `base`.
pub open spec fn text_setting(fs: Seq<Field>, k: Seq<char>, base: Seq<char>) -> Seq<char> {
    match last_index(fs, k) {
        Some(i) => fs[i].value@,
        None => base,
    }
}

/// The unsigned integer read from the last field named `k`, else `base`.
pub open spec fn uint_setting(fs: Seq<Field>, k: Seq<char>, max: int, base: int) -> int {
    match last_index(fs, k) {
        Some(i) => match spec_parse_unsigned_field(fs[i].value@, k, max) {
            Ok(v) => v,
            Err(_) => base,
        },
        None => base,
    }
}

/// The boolean read from the last field named `k`, else `base`.
pub open spec fn bool_setting(fs: Seq<Field>, k: Seq<char>, base: bool) -> bool {
    match last_index(fs, k) {
        Some(i) => match spec_parse_bool_field(fs[i].value@, k) {
            Ok(v) => v,
            Err(_) => base,
        },
        None => base,
    }
}

/// The optional unsigned integer read from the last field named `k`, else `base`.
pub open spec fn opt_setting(fs: Seq<Field>, k: Seq<char>, max: int, base: Option<int>) -> Option<int> {
    match last_index(fs, k) {
        Some(i) => match spec_parse_optional_field(fs[i].value@, k, max) {
            Ok(v) => v,
            Err(_) => base,
        },
        None => base,
    }
}

/// The `f32` read (by the binary, into `floats`) from the last field named `k`, else
/// `base`.
pub open spec fn float_setting(fs: Seq<Field>, floats: Seq<Option<u32>>, k: Seq<char>, base: u32) -> u32 {
    match last_index(fs, k) {
        Some(i) => match floats[i] {
            Some(b) => b,
            None => base,
        },
        None => base,
    }
}

/// The error of a read, if it failed.
pub open spec fn error_of<T>(r: Result<T, Seq<char>>) -> Option<Seq<char>> {
    match r {
        Ok(_) => None,
        Err(m) => Some(m),
    }
}

/// Keys of the integer settings of the `Camera` section and their widths.
pub open spec fn camera_u32_key(k: Seq<char>) -> bool {
    k == "width"@ || k == "height"@ || k == "fps"@ || k == "warmup_frames"@
}

pub open spec fn camera_u64_key(k: Seq<char>) -> bool {
    k == "timeout_ms"@ || k == "cross_check_max_time_skew_ms"@
}

pub open spec fn camera_opt_u32_key(k: Seq<char>) -> bool {
    k == "ir_width"@ || k == "ir_height"@ || k == "ir_warmup_frames"@ || k == "ir_min_face_size"@
}

pub open spec fn camera_bool_key(k: Seq<char>) -> bool {
    k == "cross_check_enabled"@ || k == "cross_check_allow_identity_homography"@
}

/// The error a field of the `Camera` section raises, given the binary's `f32` reading
/// of its text.
pub open spec fn camera_field_error(f: Field, float: Option<u32>) -> Option<Seq<char>> {
    let k = f.key@;
    let v = f.value@;
    if camera_u32_key(k) {
        error_of(spec_parse_unsigned_field(v, k, u32::MAX as int))
    } else if camera_u64_key(k) {
        error_of(spec_parse_unsigned_field(v, k, u64::MAX as int))
    } else if camera_opt_u32_key(k) {
        error_of(spec_parse_optional_field(v, k, u32::MAX as int))
    } else if k == "ir_timeout_ms"@ {
        error_of(spec_parse_optional_field(v, k, u64::MAX as int))
    } else if camera_bool_key(k) {
        error_of(spec_parse_bool_field(v, k))
    } else if k == "cross_check_max_position_offset_px"@ && float is None {
        Some(expects_message(k, "a decimal number"@, v))
    } else {
        None
    }
}

/// The error a field of the `Recognition` section raises.
pub open spec fn recognition_field_error(f: Field, float: Option<u32>) -> Option<Seq<char>> {
    let k = f.key@;
    let v = f.value@;
    if k == "threshold"@ && float is None {
        Some(expects_message(k, "a decimal number"@, v))
    } else if k == "required_matches"@ || k == "max_attempts"@ || k == "min_face_size"@ {
        error_of(spec_parse_unsigned_field(v, k, u32::MAX as int))
    } else {
        None
    }
}

/// The error a field of the `Logging` section raises.
pub open spec fn logging_field_error(f: Field) -> Option<Seq<char>> {
    if f.key@ == "log_failed_attempts"@ {
        error_of(spec_parse_bool_field(f.value@, f.key@))
    } else {
        None
    }
}

/// The error a field of the `Security` section raises.
pub open spec fn security_field_error(f: Field) -> Option<Seq<char>> {
    if f.key@ == "allow_password_fallback"@ || f.key@ == "deny_on_camera_error"@ {
        error_of(spec_parse_bool_field(f.value@, f.key@))
    } else {
        None
    }
}

/// The error a field of section kind `which` raises (0 Camera, 1 Recognition,
/// 4 Logging, 5 Security; the others raise none).
pub open spec fn field_error(which: int, f: Field, float: Option<u32>) -> Option<Seq<char>> {
    if which == 0 {
        camera_field_error(f, float)
    } else if which == 1 {
        recognition_field_error(f, float)
    } else if which == 4 {
        logging_field_error(f)
    } else if which == 5 {
        security_field_error(f)
    } else {
        None
    }
}

/// The first error among the first `n` fields of section kind `which`.
pub open spec fn first_error(which: int, fs: Seq<Field>, floats: Seq<Option<u32>>, n: int) -> Option<Seq<char>>
    decreases n,
{
    if n <= 0 {
        None
    } else {
        match first_error(which, fs, floats, n - 1) {
            Some(m) => Some(m),
            None => field_error(which, fs[n - 1], floats[n - 1]),
        }
    }
}

proof fn lemma_first_error_stable(which: int, fs: Seq<Field>, floats: Seq<Option<u32>>, k: int, n: int)
    requires
        0 <= k <= n,
        first_error(which, fs, floats, k) is Some,
    ensures
        first_error(which, fs, floats, n) == first_error(which, fs, floats, k),
    decreases n - k,
{
    if n > k {
        lemma_first_error_stable(which, fs, floats, k, n - 1);
    }
}

proof fn lemma_first_error_step(which: int, fs: Seq<Field>, floats: Seq<Option<u32>>, i: int)
    requires
        0 <= i,
        first_error(which, fs, floats, i) is None,
    ensures
        first_error(which, fs, floats, i + 1) == field_error(which, fs[i], floats[i]),
{
}

fn key_is(f: &Field, k: &str) -> (r: bool)
    ensures
        r == (f.key@ == k@),
{
    str_eq(f.key, k)
}

proof fn lemma_last_index_step(fs: Seq<Field>, i: int, k: Seq<char>)
    requires
        0 <= i < fs.len(),
    ensures
        last_index(fs.take(i + 1), k) == if fs[i].key@ == k {
            Some(i)
        } else {
            last_index(fs.take(i), k)
        },
{
    assert(fs.take(i + 1).drop_last() == fs.take(i));
    assert(fs.take(i + 1).last() == fs[i]);
}

proof fn lemma_last_index_bound(fs: Seq<Field>, k: Seq<char>)
    ensures
        last_index(fs, k) matches Some(i) ==> 0 <= i < fs.len() && fs[i].key@ == k,
    decreases fs.len(),
{
    if fs.len() > 0 && fs.last().key@ != k {
        lemma_last_index_bound(fs.drop_last(), k);
    }
}

proof fn lemma_take_prefix_index(fs: Seq<Field>, n: int, j: int)
    requires
        0 <= j < n <= fs.len(),
    ensures
        fs.take(n)[j] == fs[j],
{
}

/// Reads the `Models` section: each path is the text of its field, else the base's.
pub fn parse_models(section: &Section, base: &ModelsConfig) -> (r: Result<ModelsConfig, String>)
    ensures
        r matches Ok(m) && m.detector@ == text_setting(section.fields@, "detector"@, base.detector@)
            && m.embedder@ == text_setting(section.fields@, "embedder"@, base.embedder@),
{
    let fs = &section.fields;
    let mut detector = copy_string(&base.detector);
    let mut embedder = copy_string(&base.embedder);
    let mut i: usize = 0;
    while i < fs.len()
        invariant
            i <= fs@.len(),
            detector@ == text_setting(fs@.take(i as int), "detector"@, base.detector@),
            embedder@ == text_setting(fs@.take(i as int), "embedder"@, base.embedder@),
        decreases fs@.len() - i,
    {
        proof {
            reveal_strlit("detector");
            reveal_strlit("embedder");
            assert("detector"@[0] != "embedder"@[0]);
            lemma_last_index_step(fs@, i as int, "detector"@);
            lemma_last_index_step(fs@, i as int, "embedder"@);
            lemma_last_index_bound(fs@.take(i as int), "detector"@);
            lemma_last_index_bound(fs@.take(i as int), "embedder"@);
            assert forall|j: int| 0 <= j < i implies fs@.take(i + 1)[j] == #[trigger] fs@.take(i as int)[j] by {}
        }
        let f = &fs[i];
        if key_is(f, "detector") {
            detector = copy_string(&f.value);
        } else if key_is(f, "embedder") {
            embedder = copy_string(&f.value);
        }
        i += 1;
    }
    assert(fs@.take(fs@.len() as int) == fs@);
    Ok(ModelsConfig { detector, embedder })
}

/// `Option<u32>` as an optional integer.
pub open spec fn widen32(o: Option<u32>) -> Option<int> {
    match o {
        Some(v) => Some(v as int),
        None => None,
    }
}

/// `Option<u64>` as an optional integer.
pub open spec fn widen64(o: Option<u64>) -> Option<int> {
    match o {
        Some(v) => Some(v as int),
        None => None,
    }
}

/// The IR device after the edits: the trimmed text of the last `ir_device` field (none
/// when blank), else the base's IR device.
pub open spec fn ir_device_setting(fs: Seq<Field>, base: Option<CameraIrConfig>) -> Option<Seq<char>> {
    match last_index(fs, "ir_device"@) {
        Some(i) => if trim(fs[i].value@).len() == 0 {
            None
        } else {
            Some(trim(fs[i].value@))
        },
        None => match base {
            Some(ir) => Some(ir.device@),
            None => None,
        },
    }
}

/// An IR override of the base configuration, if it has an IR section.
pub open spec fn base_ir_u32(base: Option<CameraIrConfig>, which: int) -> Option<int> {
    match base {
        Some(ir) => widen32(
            if which == 0 {
                ir.width
            } else if which == 1 {
                ir.height
            } else if which == 2 {
                ir.warmup_frames
            } else if which == 3 {
                ir.min_face_size
            } else {
                ir.fps
            },
        ),
        None => None,
    }
}

pub open spec fn base_ir_timeout(base: Option<CameraIrConfig>) -> Option<int> {
    match base {
        Some(ir) => widen64(ir.timeout_ms),
        None => None,
    }
}

fn optional_device(value: &String) -> (r: Option<String>)
    ensures
        trim(value@).len() == 0 ==> r is None,
        trim(value@).len() > 0 ==> (r matches Some(d) && d@ == trim(value@)),
{
    let cs = chars_of(value.as_str());
    let t = trim_chars(cs.as_slice());
    if t.len() == 0 {
        None
    } else {
        Some(string_from_chars(t.as_slice()))
    }
}

fn narrow32(o: Option<u32>) -> (r: Option<u32>)
    ensures
        r == o,
{
    o
}

/// Reads the `Camera` section over `base`; `floats[i]` is the binary's `f32` reading
/// of field `i`'s text (used for the offset). The first field whose text does not read
/// gives the error. A blank IR device removes the IR camera; a zero skew or offset
/// falls back to the default.
/// The camera settings after reading fields `fs` over `base` without error.
pub open spec fn spec_camera_parsed(c: CameraConfig, fs: Seq<Field>, floats: Seq<Option<u32>>, base: CameraConfig) -> bool {
    &&& c.device@ == text_setting(fs, "device"@, base.device@)
    &&& c.width == uint_setting(fs, "width"@, u32::MAX as int, base.width as int)
    &&& c.height == uint_setting(fs, "height"@, u32::MAX as int, base.height as int)
    &&& c.fps == uint_setting(fs, "fps"@, u32::MAX as int, base.fps as int)
    &&& c.timeout_ms == uint_setting(fs, "timeout_ms"@, u64::MAX as int, base.timeout_ms as int)
    &&& c.warmup_frames == uint_setting(fs, "warmup_frames"@, u32::MAX as int, base.warmup_frames as int)
    &&& (match ir_device_setting(fs, base.ir) {
        None => c.ir is None,
        Some(d) => c.ir matches Some(ir) && {
            &&& ir.device@ == d
            &&& widen32(ir.width) == opt_setting(fs, "ir_width"@, u32::MAX as int, base_ir_u32(base.ir, 0))
            &&& widen32(ir.height) == opt_setting(fs, "ir_height"@, u32::MAX as int, base_ir_u32(base.ir, 1))
            &&& widen32(ir.warmup_frames) == opt_setting(fs, "ir_warmup_frames"@, u32::MAX as int, base_ir_u32(base.ir, 2))
            &&& widen32(ir.min_face_size) == opt_setting(fs, "ir_min_face_size"@, u32::MAX as int, base_ir_u32(base.ir, 3))
            &&& widen32(ir.fps) == base_ir_u32(base.ir, 4)
            &&& widen64(ir.timeout_ms) == opt_setting(fs, "ir_timeout_ms"@, u64::MAX as int, base_ir_timeout(base.ir))
        },
    })
    &&& c.cross_check.enabled == bool_setting(fs, "cross_check_enabled"@, base.cross_check.enabled)
    &&& c.cross_check.allow_identity_homography == bool_setting(fs, "cross_check_allow_identity_homography"@, base.cross_check.allow_identity_homography)
    &&& c.cross_check.max_time_skew_ms == (if uint_setting(fs, "cross_check_max_time_skew_ms"@, u64::MAX as int, base.cross_check.max_time_skew_ms as int) == 0 {
        200
    } else {
        uint_setting(fs, "cross_check_max_time_skew_ms"@, u64::MAX as int, base.cross_check.max_time_skew_ms as int)
    })
    &&& c.cross_check.max_position_offset_px == (if float_setting(fs, floats, "cross_check_max_position_offset_px"@, base.cross_check.max_position_offset_px) as int % 0x8000_0000 == 0 {
        0x4220_0000
    } else {
        float_setting(fs, floats, "cross_check_max_position_offset_px"@, base.cross_check.max_position_offset_px)
    })
    &&& c.cross_check.homography == base.cross_check.homography
}

fn camera_field_check(f: &Field, float: Option<u32>) -> (r: Option<String>)
    ensures
        match camera_field_error(*f, float) {
            Some(m) => r matches Some(e) && e@ == m,
            None => r is None,
        },
{
    let k = f.key;
    let v = f.value.as_str();
    if key_is(f, "width") || key_is(f, "height") || key_is(f, "fps") || key_is(f, "warmup_frames") {
        match parse_u32(v, k) {
            Ok(_) => None,
            Err(e) => Some(e),
        }
    } else if key_is(f, "timeout_ms") || key_is(f, "cross_check_max_time_skew_ms") {
        match parse_u64(v, k) {
            Ok(_) => None,
            Err(e) => Some(e),
        }
    } else if key_is(f, "ir_width") || key_is(f, "ir_height") || key_is(f, "ir_warmup_frames")
        || key_is(f, "ir_min_face_size") {
        match parse_optional_u32(v, k) {
            Ok(_) => None,
            Err(e) => Some(e),
        }
    } else if key_is(f, "ir_timeout_ms") {
        match parse_optional_u64(v, k) {
            Ok(_) => None,
            Err(e) => Some(e),
        }
    } else if key_is(f, "cross_check_enabled") || key_is(f, "cross_check_allow_identity_homography") {
        match parse_bool(v, k) {
            Ok(_) => None,
            Err(e) => Some(e),
        }
    } else if key_is(f, "cross_check_max_position_offset_px") && float.is_none() {
        Some(float_field_error(v, k))
    } else {
        None
    }
}

#[verifier::spinoff_prover]
#[verifier::rlimit(40)]
pub fn parse_camera(section: &Section, base: &CameraConfig, floats: &[Option<u32>]) -> (r: Result<CameraConfig, String>)
    requires
        floats@.len() == section.fields@.len(),
    ensures
        first_error(0, section.fields@, floats@, section.fields@.len() as int) matches Some(m)
            ==> (r matches Err(e) && e@ == m),
        first_error(0, section.fields@, floats@, section.fields@.len() as int) is None ==> (r matches Ok(c) && spec_camera_parsed(c, section.fields@, floats@, *base)),
{
    let fs = &section.fields;
    let mut device = copy_string(&base.device);
    let mut width = base.width;
    let mut height = base.height;
    let mut fps = base.fps;
    let mut timeout_ms = base.timeout_ms;
    let mut warmup_frames = base.warmup_frames;
    let mut ir_device: Option<String> = match &base.ir {
        Some(ir) => Some(copy_string(&ir.device)),
        None => None,
    };
    let mut ir_width: Option<u32> = match &base.ir { Some(ir) => ir.width, None => None };
    let mut ir_height: Option<u32> = match &base.ir { Some(ir) => ir.height, None => None };
    let mut ir_timeout_ms: Option<u64> = match &base.ir { Some(ir) => ir.timeout_ms, None => None };
    let mut ir_warmup: Option<u32> = match &base.ir { Some(ir) => ir.warmup_frames, None => None };
    let mut ir_min_face_size: Option<u32> = match &base.ir { Some(ir) => ir.min_face_size, None => None };
    let ir_fps: Option<u32> = match &base.ir { Some(ir) => ir.fps, None => None };
    let mut enabled = base.cross_check.enabled;
    let mut skew = base.cross_check.max_time_skew_ms;
    let mut offset = base.cross_check.max_position_offset_px;
    let mut allow_identity = base.cross_check.allow_identity_homography;
    let mut i: usize = 0;
    while i < fs.len()
        invariant
            i <= fs@.len(),
            fs@ == section.fields@,
            floats@.len() == fs@.len(),
            first_error(0, fs@, floats@, i as int) is None,
            device@ == text_setting(fs@.take(i as int), "device"@, base.device@),
            width == uint_setting(fs@.take(i as int), "width"@, u32::MAX as int, base.width as int),
            height == uint_setting(fs@.take(i as int), "height"@, u32::MAX as int, base.height as int),
            fps == uint_setting(fs@.take(i as int), "fps"@, u32::MAX as int, base.fps as int),
            timeout_ms == uint_setting(fs@.take(i as int), "timeout_ms"@, u64::MAX as int, base.timeout_ms as int),
            warmup_frames == uint_setting(fs@.take(i as int), "warmup_frames"@, u32::MAX as int, base.warmup_frames as int),
            (match ir_device {
                Some(d) => Some(d@),
                None => None,
            }) == ir_device_setting(fs@.take(i as int), base.ir),
            widen32(ir_width) == opt_setting(fs@.take(i as int), "ir_width"@, u32::MAX as int, base_ir_u32(base.ir, 0)),
            widen32(ir_height) == opt_setting(fs@.take(i as int), "ir_height"@, u32::MAX as int, base_ir_u32(base.ir, 1)),
            widen32(ir_warmup) == opt_setting(fs@.take(i as int), "ir_warmup_frames"@, u32::MAX as int, base_ir_u32(base.ir, 2)),
            widen32(ir_min_face_size) == opt_setting(fs@.take(i as int), "ir_min_face_size"@, u32::MAX as int, base_ir_u32(base.ir, 3)),
            widen32(ir_fps) == base_ir_u32(base.ir, 4),
            widen64(ir_timeout_ms) == opt_setting(fs@.take(i as int), "ir_timeout_ms"@, u64::MAX as int, base_ir_timeout(base.ir)),
            enabled == bool_setting(fs@.take(i as int), "cross_check_enabled"@, base.cross_check.enabled),
            allow_identity == bool_setting(fs@.take(i as int), "cross_check_allow_identity_homography"@, base.cross_check.allow_identity_homography),
            skew == uint_setting(fs@.take(i as int), "cross_check_max_time_skew_ms"@, u64::MAX as int, base.cross_check.max_time_skew_ms as int),
            offset == float_setting(fs@.take(i as int), floats@, "cross_check_max_position_offset_px"@, base.cross_check.max_position_offset_px),
        decreases fs@.len() - i,
    {
        proof {
            reveal_strlit("device");
            reveal_strlit("width");
            reveal_strlit("height");
            reveal_strlit("fps");
            reveal_strlit("timeout_ms");
            reveal_strlit("warmup_frames");
            reveal_strlit("ir_device");
            reveal_strlit("ir_width");
            reveal_strlit("ir_height");
            reveal_strlit("ir_timeout_ms");
            reveal_strlit("ir_warmup_frames");
            reveal_strlit("ir_min_face_size");
            reveal_strlit("cross_check_enabled");
            reveal_strlit("cross_check_max_time_skew_ms");
            reveal_strlit("cross_check_max_position_offset_px");
            reveal_strlit("cross_check_allow_identity_homography");
            assert("height"@[0] != "device"@[0]);
            assert("warmup_frames"@[0] != "ir_timeout_ms"@[0]);
            assert("ir_height"@[3] != "ir_device"@[3]);
            assert("ir_warmup_frames"@[3] != "ir_min_face_size"@[3]);
            lemma_last_index_step(fs@, i as int, "device"@);
            lemma_last_index_bound(fs@.take(i as int), "device"@);
            lemma_last_index_step(fs@, i as int, "width"@);
            lemma_last_index_bound(fs@.take(i as int), "width"@);
            lemma_last_index_step(fs@, i as int, "height"@);
            lemma_last_index_bound(fs@.take(i as int), "height"@);
            lemma_last_index_step(fs@, i as int, "fps"@);
            lemma_last_index_bound(fs@.take(i as int), "fps"@);
            lemma_last_index_step(fs@, i as int, "timeout_ms"@);
            lemma_last_index_bound(fs@.take(i as int), "timeout_ms"@);
            lemma_last_index_step(fs@, i as int, "warmup_frames"@);
            lemma_last_index_bound(fs@.take(i as int), "warmup_frames"@);
            lemma_last_index_step(fs@, i as int, "ir_device"@);
            lemma_last_index_bound(fs@.take(i as int), "ir_device"@);
            lemma_last_index_step(fs@, i as int, "ir_width"@);
            lemma_last_index_bound(fs@.take(i as int), "ir_width"@);
            lemma_last_index_step(fs@, i as int, "ir_height"@);
            lemma_last_index_bound(fs@.take(i as int), "ir_height"@);
            lemma_last_index_step(fs@, i as int, "ir_timeout_ms"@);
            lemma_last_index_bound(fs@.take(i as int), "ir_timeout_ms"@);
            lemma_last_index_step(fs@, i as int, "ir_warmup_frames"@);
            lemma_last_index_bound(fs@.take(i as int), "ir_warmup_frames"@);
            lemma_last_index_step(fs@, i as int, "ir_min_face_size"@);
            lemma_last_index_bound(fs@.take(i as int), "ir_min_face_size"@);
            lemma_last_index_step(fs@, i as int, "cross_check_enabled"@);
            lemma_last_index_bound(fs@.take(i as int), "cross_check_enabled"@);
            lemma_last_index_step(fs@, i as int, "cross_check_max_time_skew_ms"@);
            lemma_last_index_bound(fs@.take(i as int), "cross_check_max_time_skew_ms"@);
            lemma_last_index_step(fs@, i as int, "cross_check_max_position_offset_px"@);
            lemma_last_index_bound(fs@.take(i as int), "cross_check_max_position_offset_px"@);
            lemma_last_index_step(fs@, i as int, "cross_check_allow_identity_homography"@);
            lemma_last_index_bound(fs@.take(i as int), "cross_check_allow_identity_homography"@);
            assert forall|j: int| 0 <= j < i implies fs@.take(i + 1)[j] == #[trigger] fs@.take(i as int)[j] by {}
            assert(fs@.take(i + 1)[i as int] == fs@[i as int]);
            lemma_first_error_step(0, fs@, floats@, i as int);
            if first_error(0, fs@, floats@, i + 1) is Some {
                lemma_first_error_stable(0, fs@, floats@, i + 1, fs@.len() as int);
            }
        }
        let f = &fs[i];
        let v = f.value.as_str();
        match camera_field_check(f, floats[i]) {
            Some(e) => return Err(e),
            None => {},
        }
        if key_is(f, "device") {
            device = copy_string(&f.value);
        } else if key_is(f, "width") {
            if let Ok(n) = parse_u32(v, f.key) { width = n }
        } else if key_is(f, "height") {
            if let Ok(n) = parse_u32(v, f.key) { height = n }
        } else if key_is(f, "fps") {
            if let Ok(n) = parse_u32(v, f.key) { fps = n }
        } else if key_is(f, "timeout_ms") {
            if let Ok(n) = parse_u64(v, f.key) { timeout_ms = n }
        } else if key_is(f, "warmup_frames") {
            if let Ok(n) = parse_u32(v, f.key) { warmup_frames = n }
        } else if key_is(f, "ir_device") {
            ir_device = optional_device(&f.value);
        } else if key_is(f, "ir_width") {
            if let Ok(n) = parse_optional_u32(v, f.key) { ir_width = n }
        } else if key_is(f, "ir_height") {
            if let Ok(n) = parse_optional_u32(v, f.key) { ir_height = n }
        } else if key_is(f, "ir_timeout_ms") {
            if let Ok(n) = parse_optional_u64(v, f.key) { ir_timeout_ms = n }
        } else if key_is(f, "ir_warmup_frames") {
            if let Ok(n) = parse_optional_u32(v, f.key) { ir_warmup = n }
        } else if key_is(f, "ir_min_face_size") {
            if let Ok(n) = parse_optional_u32(v, f.key) { ir_min_face_size = n }
        } else if key_is(f, "cross_check_enabled") {
            if let Ok(b) = parse_bool(v, f.key) { enabled = b }
        } else if key_is(f, "cross_check_max_time_skew_ms") {
            if let Ok(n) = parse_u64(v, f.key) { skew = n }
        } else if key_is(f, "cross_check_max_position_offset_px") {
            if let Some(b) = floats[i] { offset = b }
        } else if key_is(f, "cross_check_allow_identity_homography") {
            if let Ok(b) = parse_bool(v, f.key) { allow_identity = b }
        }
        i += 1;
    }
    assert(fs@.take(fs@.len() as int) == fs@);
    let ir = match ir_device {
        Some(d) => Some(CameraIrConfig {
            device: d,
            width: ir_width,
            height: ir_height,
            fps: ir_fps,
            timeout_ms: ir_timeout_ms,
            warmup_frames: ir_warmup,
            min_face_size: ir_min_face_size,
        }),
        None => None,
    };
    let skew = if skew == 0 {
        crate::config::default_cross_check_max_time_skew_ms()
    } else {
        skew
    };
    let offset = if offset % 0x8000_0000 == 0 {
        crate::config::default_cross_check_max_position_offset_px()
    } else {
        offset
    };
    Ok(CameraConfig {
        device,
        width,
        height,
        fps,
        timeout_ms,
        warmup_frames,
        ir,
        cross_check: CameraCrossCheckConfig {
            enabled,
            max_time_skew_ms: skew,
            max_position_offset_px: offset,
            homography: base.cross_check.homography,
            allow_identity_homography: allow_identity,
        },
    })
}

fn recognition_field_check(f: &Field, float: Option<u32>) -> (r: Option<String>)
    ensures
        match recognition_field_error(*f, float) {
            Some(m) => r matches Some(e) && e@ == m,
            None => r is None,
        },
{
    let k = f.key;
    let v = f.value.as_str();
    if key_is(f, "threshold") && float.is_none() {
        Some(float_field_error(v, k))
    } else if key_is(f, "required_matches") || key_is(f, "max_attempts") || key_is(f, "min_face_size") {
        match parse_u32(v, k) {
            Ok(_) => None,
            Err(e) => Some(e),
        }
    } else {
        None
    }
}

/// The recognition settings after reading fields `fs` over `base` without error; the
/// per-scope overrides are not edited here.
pub open spec fn spec_recognition_parsed(c: RecognitionConfig, fs: Seq<Field>, floats: Seq<Option<u32>>, base: RecognitionConfig) -> bool {
    &&& c.threshold == float_setting(fs, floats, "threshold"@, base.threshold)
    &&& c.required_matches == uint_setting(fs, "required_matches"@, u32::MAX as int, base.required_matches as int)
    &&& c.max_attempts == uint_setting(fs, "max_attempts"@, u32::MAX as int, base.max_attempts as int)
    &&& c.min_face_size == uint_setting(fs, "min_face_size"@, u32::MAX as int, base.min_face_size as int)
    &&& c.sudo == base.sudo
    &&& c.session == base.session
}

/// Reads the `Recognition` section over `base`; `floats[i]` is the binary's `f32`
/// reading of field `i`'s text (used for the threshold).
#[verifier::spinoff_prover]
pub fn parse_recognition(section: &Section, base: &RecognitionConfig, floats: &[Option<u32>]) -> (r: Result<RecognitionConfig, String>)
    requires
        floats@.len() == section.fields@.len(),
    ensures
        first_error(1, section.fields@, floats@, section.fields@.len() as int) matches Some(m)
            ==> (r matches Err(e) && e@ == m),
        first_error(1, section.fields@, floats@, section.fields@.len() as int) is None ==> (r matches Ok(c) && spec_recognition_parsed(c, section.fields@, floats@, *base)),
{
    let fs = &section.fields;
    let mut threshold = base.threshold;
    let mut required_matches = base.required_matches;
    let mut max_attempts = base.max_attempts;
    let mut min_face_size = base.min_face_size;
    let mut i: usize = 0;
    while i < fs.len()
        invariant
            i <= fs@.len(),
            fs@ == section.fields@,
            floats@.len() == fs@.len(),
            first_error(1, fs@, floats@, i as int) is None,
            threshold == float_setting(fs@.take(i as int), floats@, "threshold"@, base.threshold),
            required_matches == uint_setting(fs@.take(i as int), "required_matches"@, u32::MAX as int, base.required_matches as int),
            max_attempts == uint_setting(fs@.take(i as int), "max_attempts"@, u32::MAX as int, base.max_attempts as int),
            min_face_size == uint_setting(fs@.take(i as int), "min_face_size"@, u32::MAX as int, base.min_face_size as int),
        decreases fs@.len() - i,
    {
        proof {
            reveal_strlit("threshold");
            reveal_strlit("required_matches");
            reveal_strlit("max_attempts");
            reveal_strlit("min_face_size");
            assert("min_face_size"@.len() != "max_attempts"@.len());
            assert("min_face_size"@.len() != "threshold"@.len());
            assert("min_face_size"@.len() != "required_matches"@.len());
            lemma_last_index_step(fs@, i as int, "threshold"@);
            lemma_last_index_step(fs@, i as int, "required_matches"@);
            lemma_last_index_step(fs@, i as int, "max_attempts"@);
            lemma_last_index_step(fs@, i as int, "min_face_size"@);
            lemma_last_index_bound(fs@.take(i as int), "threshold"@);
            lemma_last_index_bound(fs@.take(i as int), "required_matches"@);
            lemma_last_index_bound(fs@.take(i as int), "max_attempts"@);
            lemma_last_index_bound(fs@.take(i as int), "min_face_size"@);
            assert forall|j: int| 0 <= j < i implies fs@.take(i + 1)[j] == #[trigger] fs@.take(i as int)[j] by {}
            assert(fs@.take(i + 1)[i as int] == fs@[i as int]);
            lemma_first_error_step(1, fs@, floats@, i as int);
            if first_error(1, fs@, floats@, i + 1) is Some {
                lemma_first_error_stable(1, fs@, floats@, i + 1, fs@.len() as int);
            }
        }
        let f = &fs[i];
        let v = f.value.as_str();
        match recognition_field_check(f, floats[i]) {
            Some(e) => return Err(e),
            None => {},
        }
        if key_is(f, "threshold") {
            if let Some(b) = floats[i] { threshold = b }
        } else if key_is(f, "required_matches") {
            if let Ok(n) = parse_u32(v, f.key) { required_matches = n }
        } else if key_is(f, "max_attempts") {
            if let Ok(n) = parse_u32(v, f.key) { max_attempts = n }
        } else if key_is(f, "min_face_size") {
            if let Ok(n) = parse_u32(v, f.key) { min_face_size = n }
        }
        i += 1;
    }
    assert(fs@.take(fs@.len() as int) == fs@);
    Ok(RecognitionConfig {
        threshold,
        required_matches,
        max_attempts,
        min_face_size,
        sudo: base.sudo,
        session: base.session,
    })
}

/// Reads the `Storage` section: the template directory is the text of its field, else
/// the base's.
pub fn parse_storage(section: &Section, base: &StorageConfig) -> (r: Result<StorageConfig, String>)
    ensures
        r matches Ok(c) && c.base_dir@ == text_setting(section.fields@, "base_dir"@, base.base_dir@),
{
    let fs = &section.fields;
    let mut base_dir = copy_string(&base.base_dir);
    let mut i: usize = 0;
    while i < fs.len()
        invariant
            i <= fs@.len(),
            fs@ == section.fields@,
            base_dir@ == text_setting(fs@.take(i as int), "base_dir"@, base.base_dir@),
        decreases fs@.len() - i,
    {
        proof {
            lemma_last_index_step(fs@, i as int, "base_dir"@);
            lemma_last_index_bound(fs@.take(i as int), "base_dir"@);
            assert forall|j: int| 0 <= j < i implies fs@.take(i + 1)[j] == #[trigger] fs@.take(i as int)[j] by {}
        }
        if key_is(&fs[i], "base_dir") {
            base_dir = copy_string(&fs[i].value);
        }
        i += 1;
    }
    assert(fs@.take(fs@.len() as int) == fs@);
    Ok(StorageConfig { base_dir })
}

/// Reads the `Logging` section over `base`.
pub fn parse_logging(section: &Section, base: &LoggingConfig) -> (r: Result<LoggingConfig, String>)
    ensures
        first_error(4, section.fields@, seq![], section.fields@.len() as int) matches Some(m)
            ==> (r matches Err(e) && e@ == m),
        first_error(4, section.fields@, seq![], section.fields@.len() as int) is None ==> (r matches Ok(c)
            && c.level@ == text_setting(section.fields@, "level"@, base.level@)
            && c.log_failed_attempts == bool_setting(section.fields@, "log_failed_attempts"@, base.log_failed_attempts)),
{
    let fs = &section.fields;
    let ghost none: Seq<Option<u32>> = seq![];
    let mut level = copy_string(&base.level);
    let mut log_failed = base.log_failed_attempts;
    let mut i: usize = 0;
    while i < fs.len()
        invariant
            i <= fs@.len(),
            fs@ == section.fields@,
            none == Seq::<Option<u32>>::empty(),
            first_error(4, fs@, none, i as int) is None,
            level@ == text_setting(fs@.take(i as int), "level"@, base.level@),
            log_failed == bool_setting(fs@.take(i as int), "log_failed_attempts"@, base.log_failed_attempts),
        decreases fs@.len() - i,
    {
        proof {
            reveal_strlit("level");
            reveal_strlit("log_failed_attempts");
            lemma_last_index_step(fs@, i as int, "level"@);
            lemma_last_index_step(fs@, i as int, "log_failed_attempts"@);
            lemma_last_index_bound(fs@.take(i as int), "level"@);
            lemma_last_index_bound(fs@.take(i as int), "log_failed_attempts"@);
            assert forall|j: int| 0 <= j < i implies fs@.take(i + 1)[j] == #[trigger] fs@.take(i as int)[j] by {}
            assert(fs@.take(i + 1)[i as int] == fs@[i as int]);
            lemma_first_error_step(4, fs@, none, i as int);
            if first_error(4, fs@, none, i + 1) is Some {
                lemma_first_error_stable(4, fs@, none, i + 1, fs@.len() as int);
            }
        }
        let f = &fs[i];
        if key_is(f, "level") {
            level = copy_string(&f.value);
        } else if key_is(f, "log_failed_attempts") {
            match parse_bool(f.value.as_str(), f.key) {
                Ok(b) => log_failed = b,
                Err(e) => return Err(e),
            }
        }
        i += 1;
    }
    assert(fs@.take(fs@.len() as int) == fs@);
    Ok(LoggingConfig { level, log_failed_attempts: log_failed })
}

/// Reads the `Security` section over `base`; the cooldown settings are not edited here.
pub fn parse_security(section: &Section, base: &SecurityConfig) -> (r: Result<SecurityConfig, String>)
    ensures
        first_error(5, section.fields@, seq![], section.fields@.len() as int) matches Some(m)
            ==> (r matches Err(e) && e@ == m),
        first_error(5, section.fields@, seq![], section.fields@.len() as int) is None ==> (r matches Ok(c)
            && c.allow_password_fallback == bool_setting(section.fields@, "allow_password_fallback"@, base.allow_password_fallback)
            && c.deny_on_camera_error == bool_setting(section.fields@, "deny_on_camera_error"@, base.deny_on_camera_error)
            && c.cooldown_after_failures == base.cooldown_after_failures
            && c.cooldown_seconds == base.cooldown_seconds),
{
    let fs = &section.fields;
    let ghost none: Seq<Option<u32>> = seq![];
    let mut allow = base.allow_password_fallback;
    let mut deny = base.deny_on_camera_error;
    let mut i: usize = 0;
    while i < fs.len()
        invariant
            i <= fs@.len(),
            fs@ == section.fields@,
            none == Seq::<Option<u32>>::empty(),
            first_error(5, fs@, none, i as int) is None,
            allow == bool_setting(fs@.take(i as int), "allow_password_fallback"@, base.allow_password_fallback),
            deny == bool_setting(fs@.take(i as int), "deny_on_camera_error"@, base.deny_on_camera_error),
        decreases fs@.len() - i,
    {
        proof {
            reveal_strlit("allow_password_fallback");
            reveal_strlit("deny_on_camera_error");
            lemma_last_index_step(fs@, i as int, "allow_password_fallback"@);
            lemma_last_index_step(fs@, i as int, "deny_on_camera_error"@);
            lemma_last_index_bound(fs@.take(i as int), "allow_password_fallback"@);
            lemma_last_index_bound(fs@.take(i as int), "deny_on_camera_error"@);
            assert forall|j: int| 0 <= j < i implies fs@.take(i + 1)[j] == #[trigger] fs@.take(i as int)[j] by {}
            assert(fs@.take(i + 1)[i as int] == fs@[i as int]);
            lemma_first_error_step(5, fs@, none, i as int);
            if first_error(5, fs@, none, i + 1) is Some {
                lemma_first_error_stable(5, fs@, none, i + 1, fs@.len() as int);
            }
        }
        let f = &fs[i];
        if key_is(f, "allow_password_fallback") {
            match parse_bool(f.value.as_str(), f.key) {
                Ok(b) => allow = b,
                Err(e) => return Err(e),
            }
        } else if key_is(f, "deny_on_camera_error") {
            match parse_bool(f.value.as_str(), f.key) {
                Ok(b) => deny = b,
                Err(e) => return Err(e),
            }
        }
        i += 1;
    }
    assert(fs@.take(fs@.len() as int) == fs@);
    Ok(SecurityConfig {
        allow_password_fallback: allow,
        deny_on_camera_error: deny,
        cooldown_after_failures: base.cooldown_after_failures,
        cooldown_seconds: base.cooldown_seconds,
    })
}

/// The first error met reading the six sections in order (Camera, Recognition,
/// Models, Storage, Logging, Security).
pub open spec fn spec_sections_error(ss: Seq<Section>, camera_floats: Seq<Option<u32>>, recognition_floats: Seq<Option<u32>>) -> Option<Seq<char>> {
    let e0 = first_error(0, ss[0].fields@, camera_floats, ss[0].fields@.len() as int);
    let e1 = first_error(1, ss[1].fields@, recognition_floats, ss[1].fields@.len() as int);
    let e4 = first_error(4, ss[4].fields@, seq![], ss[4].fields@.len() as int);
    let e5 = first_error(5, ss[5].fields@, seq![], ss[5].fields@.len() as int);
    if e0 is Some {
        e0
    } else if e1 is Some {
        e1
    } else if e4 is Some {
        e4
    } else {
        e5
    }
}

/// The configuration read from sections `ss` over `base` when no field raises an error.
pub open spec fn spec_config_read(c: Config, ss: Seq<Section>, camera_floats: Seq<Option<u32>>, recognition_floats: Seq<Option<u32>>, base: Config) -> bool {
    &&& spec_camera_parsed(c.camera, ss[0].fields@, camera_floats, base.camera)
    &&& spec_recognition_parsed(c.recognition, ss[1].fields@, recognition_floats, base.recognition)
    &&& c.models.detector@ == text_setting(ss[2].fields@, "detector"@, base.models.detector@)
    &&& c.models.embedder@ == text_setting(ss[2].fields@, "embedder"@, base.models.embedder@)
    &&& c.storage.base_dir@ == text_setting(ss[3].fields@, "base_dir"@, base.storage.base_dir@)
    &&& c.logging.level@ == text_setting(ss[4].fields@, "level"@, base.logging.level@)
    &&& c.logging.log_failed_attempts == bool_setting(ss[4].fields@, "log_failed_attempts"@, base.logging.log_failed_attempts)
    &&& c.security.allow_password_fallback == bool_setting(ss[5].fields@, "allow_password_fallback"@, base.security.allow_password_fallback)
    &&& c.security.deny_on_camera_error == bool_setting(ss[5].fields@, "deny_on_camera_error"@, base.security.deny_on_camera_error)
    &&& c.security.cooldown_after_failures == base.security.cooldown_after_failures
    &&& c.security.cooldown_seconds == base.security.cooldown_seconds
}

/// Reads the edited sections (Camera, Recognition, Models, Storage, Logging, Security,
/// in that order) over `base` into a new configuration. `camera_floats[i]` and
/// `recognition_floats[i]` are the binary's `f32` readings of the texts of field `i` of
/// the first two sections. The first field whose text does not read gives the error.
pub fn sections_to_config(
    sections: &[Section],
    base: &Config,
    camera_floats: &[Option<u32>],
    recognition_floats: &[Option<u32>],
) -> (r: Result<Config, String>)
    requires
        sections@.len() >= 6,
        camera_floats@.len() == sections@[0].fields@.len(),
        recognition_floats@.len() == sections@[1].fields@.len(),
    ensures
        spec_sections_error(sections@, camera_floats@, recognition_floats@) matches Some(m) ==> (r matches Err(e) && e@ == m),
        spec_sections_error(sections@, camera_floats@, recognition_floats@) is None ==> (r matches Ok(c)
            && spec_config_read(c, sections@, camera_floats@, recognition_floats@, *base)),
{
    let camera = match parse_camera(&sections[0], &base.camera, camera_floats) {
        Ok(c) => c,
        Err(e) => return Err(e),
    };
    let recognition = match parse_recognition(&sections[1], &base.recognition, recognition_floats) {
        Ok(c) => c,
        Err(e) => return Err(e),
    };
    let models = match parse_models(&sections[2], &base.models) {
        Ok(c) => c,
        Err(e) => return Err(e),
    };
    let storage = match parse_storage(&sections[3], &base.storage) {
        Ok(c) => c,
        Err(e) => return Err(e),
    };
    let logging = match parse_logging(&sections[4], &base.logging) {
        Ok(c) => c,
        Err(e) => return Err(e),
    };
    let security = match parse_security(&sections[5], &base.security) {
        Ok(c) => c,
        Err(e) => return Err(e),
    };
    Ok(Config { camera, recognition, models, storage, logging, security })
}

} // verus!
