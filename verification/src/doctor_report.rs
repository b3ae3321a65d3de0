//! The report of `facegate doctor`: which checks it makes of the installation, with
//! their hints, the notes it adds, and its verdict, from what the binary found on the
//! system (files present, the camera's formats, whether the models load).
use vstd::prelude::*;

use crate::config::Config;
use crate::doctor::{
    chk, legacy_v03_model_path, ort_install_hint, reinstall_hint, spec_check_lines,
    spec_legacy_model_name, CameraKind, Distro,
};
use crate::text::{decimal, owned, push_decimal, string_push_str};

verus! {

/// What the binary found while checking the installation.
pub struct DoctorFacts {
    /// `/etc/facegate/config.toml` exists.
    pub config_exists: bool,
    /// The PAM module is installed in one of the library directories.
    pub pam_module_found: bool,
    /// The distribution family, for install hints.
    pub distro: Distro,
    /// The template directory exists.
    pub base_dir_exists: bool,
    /// The template store is safely owned (see `doctor::storage_is_safe`).
    pub storage_safe: bool,
    /// The colour camera's device node exists.
    pub camera_exists: bool,
    /// What the colour camera streams.
    pub camera_kind: CameraKind,
    /// The IR camera's device node exists (when one is configured).
    pub ir_exists: bool,
    /// The model files exist, and their file names.
    pub detector_present: bool,
    pub detector_file_name: Option<String>,
    pub embedder_present: bool,
    pub embedder_file_name: Option<String>,
    /// The model files load.
    pub detector_loads: bool,
    pub embedder_loads: bool,
    /// Users whose templates predate the embedder file, in `str` order (`None` when
    /// the directories could not be read).
    pub stale_users: Option<Vec<String>>,
    /// The ONNX Runtime library is installed.
    pub ort_found: bool,
    /// The watch daemon's unit file is installed.
    pub watch_unit_installed: bool,
}

/// The texts of a run of lines.
pub open spec fn lines_view(v: Seq<String>) -> Seq<Seq<char>> {
    v.map_values(|s: String| s@)
}

fn append(r: &mut Vec<String>, more: Vec<String>)
    ensures
        lines_view(final(r)@) == lines_view(old(r)@) + lines_view(more@),
{
    let ghost start = lines_view(r@);
    let mut i: usize = 0;
    while i < more.len()
        invariant
            i <= more@.len(),
            lines_view(r@) == start + lines_view(more@).take(i as int),
        decreases more@.len() - i,
    {
        let ghost before = lines_view(r@);
        r.push(crate::text::owned(more[i].as_str()));
        assert(lines_view(r@) =~= before.push(more@[i as int]@));
        assert(lines_view(more@).take(i + 1) =~= lines_view(more@).take(i as int).push(more@[i as int]@));
        i += 1;
    }
    assert(lines_view(more@).take(more@.len() as int) =~= lines_view(more@));
}

fn text_of(parts: &[&str]) -> (s: String)
    ensures
        s@ == parts@.fold_left(Seq::<char>::empty(), |acc: Seq<char>, p: &str| acc + p@),
{
    let mut s = String::new();
    let mut i: usize = 0;
    while i < parts.len()
        invariant
            i <= parts@.len(),
            s@ == parts@.take(i as int).fold_left(Seq::<char>::empty(), |acc: Seq<char>, p: &str| acc + p@),
        decreases parts@.len() - i,
    {
        string_push_str(&mut s, parts[i]);
        assert(parts@.take(i + 1).drop_last() =~= parts@.take(i as int));
        i += 1;
    }
    assert(parts@.take(parts@.len() as int) =~= parts@);
    s
}

/// The hint for a missing detector model whose configured name is a v0.3.x one.
pub open spec fn legacy_detector_hint() -> Seq<char> {
    "config still points at the v0.3.x detector. Edit [models].detector in /etc/facegate/config.toml to:\n          /usr/share/facegate/models/face_detection_yunet_2023mar.onnx\n        (the v0.4.0 default is YuNet under MIT; run 'sudo facegate doctor' after editing.)"@
}

/// The hint for a missing embedder model whose configured name is a v0.3.x one.
pub open spec fn legacy_embedder_hint() -> Seq<char> {
    "config still points at the v0.3.x embedder. Edit [models].embedder in /etc/facegate/config.toml to:\n          /usr/share/facegate/models/glintr100.onnx\n        (the v0.4.0 default is AuraFace under Apache 2.0; all existing templates will need re-enrolment.)"@
}

/// An optional name as a view.
pub open spec fn name_view(n: Option<String>) -> Option<Seq<char>> {
    match n {
        Some(s) => Some(s@),
        None => None,
    }
}

/// The hint for a missing model: the migration hint when its name is a v0.3.x one,
/// else how to reinstall.
pub open spec fn spec_model_hint(present: bool, name: Option<Seq<char>>, legacy: Seq<char>, distro: Distro) -> Seq<char> {
    if !present && (name matches Some(n) && spec_legacy_model_name(n)) {
        legacy
    } else {
        crate::doctor::spec_reinstall_hint(distro)
    }
}

/// The checks up to the camera (configuration, PAM module, template store, cameras).
pub open spec fn spec_setup_checks(c: Config, f: DoctorFacts) -> Seq<Seq<char>> {
    let d = f.distro;
    spec_check_lines("config file exists"@, f.config_exists, None) + spec_check_lines(
        "PAM module installed"@,
        f.pam_module_found,
        Some(crate::doctor::spec_reinstall_hint(d)),
    ) + spec_check_lines(
        "storage base dir exists"@,
        f.base_dir_exists,
        Some("run: sudo mkdir -p /var/lib/facegate/users"@),
    ) + spec_check_lines(
        "storage permissions are safe"@,
        f.storage_safe,
        Some(
            "run: sudo chown -R facegate:facegate /var/lib/facegate/users && sudo chmod 700 /var/lib/facegate/users"@,
        ),
    ) + spec_check_lines(
        "camera device  ("@ + c.camera.device@ + ")"@,
        f.camera_exists,
        Some("run: facegate cameras  (no root needed) to find the right device"@),
    ) + if c.camera.cross_check.enabled {
        spec_check_lines(
            "IR camera device ("@ + match c.camera.ir {
                Some(ir) => ir.device@,
                None => "<missing>"@,
            } + ")"@,
            c.camera.ir is Some && f.ir_exists,
            Some("set [camera.ir].device to the IR / GREY camera, or disable [camera.cross_check]"@),
        )
    } else {
        Seq::empty()
    }
}

/// The note on what the colour camera streams, when its node exists.
pub open spec fn spec_camera_note(f: DoctorFacts) -> Seq<Seq<char>> {
    if f.camera_exists {
        match f.camera_kind {
            CameraKind::Ir => seq!["        → IR camera detected (recommended)"@],
            CameraKind::Rgb => seq![
                "        → RGB webcam — works, but IR is more robust against photo spoofing. Run: facegate cameras"@,
            ],
            CameraKind::Unknown => Seq::empty(),
        }
    } else {
        Seq::empty()
    }
}

/// The checks of the two model files.
pub open spec fn spec_model_checks(c: Config, f: DoctorFacts) -> Seq<Seq<char>> {
    spec_check_lines(
        "detector model  ("@ + c.models.detector@ + ")"@,
        f.detector_present,
        Some(spec_model_hint(f.detector_present, name_view(f.detector_file_name), legacy_detector_hint(), f.distro)),
    ) + spec_check_lines(
        "embedder model  ("@ + c.models.embedder@ + ")"@,
        f.embedder_present,
        Some(spec_model_hint(f.embedder_present, name_view(f.embedder_file_name), legacy_embedder_hint(), f.distro)),
    )
}

/// The warning about users whose templates predate the embedder.
pub open spec fn spec_stale_warning(stale: Option<Seq<Seq<char>>>) -> Seq<Seq<char>> {
    match stale {
        Some(s) => if s.len() > 0 {
            seq!["WARNING: "@ + decimal(s.len()) + " user(s) have templates enrolled before the v0.4.0 embedder swap:"@]
                + s.map_values(|u: Seq<char>| "           - "@ + u) + seq![
                "         Re-enrol with 'sudo facegate add --user <name>' for each listed user;\n         the old templates will never match against the new embedder's embedding space."@,
            ]
        } else {
            Seq::empty()
        },
        None => Seq::empty(),
    }
}

/// The checks of the runtime: the ONNX Runtime library, the models loading (checked
/// only for the files present) and the watch daemon's unit.
pub open spec fn spec_runtime_checks(f: DoctorFacts) -> Seq<Seq<char>> {
    spec_check_lines("ONNX Runtime library"@, f.ort_found, Some(crate::doctor::spec_ort_install_hint(f.distro)))
        + (if f.detector_present {
        spec_check_lines(
            "detector model loads"@,
            f.detector_loads,
            Some("check ONNX Runtime version and detector model file"@),
        )
    } else {
        Seq::empty()
    }) + (if f.embedder_present {
        spec_check_lines(
            "embedder model loads"@,
            f.embedder_loads,
            Some("check ONNX Runtime version and embedder model file"@),
        )
    } else {
        Seq::empty()
    }) + spec_check_lines(
        "facegate-watch.service installed"@,
        f.watch_unit_installed,
        Some(crate::doctor::spec_reinstall_hint(f.distro)),
    )
}

/// Whether every check passed.
pub open spec fn spec_all_ok(c: Config, f: DoctorFacts) -> bool {
    &&& f.config_exists
    &&& f.pam_module_found
    &&& f.base_dir_exists
    &&& f.storage_safe
    &&& f.camera_exists
    &&& (c.camera.cross_check.enabled ==> c.camera.ir is Some && f.ir_exists)
    &&& f.detector_present
    &&& f.embedder_present
    &&& f.ort_found
    &&& (f.detector_present ==> f.detector_loads)
    &&& (f.embedder_present ==> f.embedder_loads)
    &&& f.watch_unit_installed
}

/// The stale users as views.
pub open spec fn stale_view(s: Option<Vec<String>>) -> Option<Seq<Seq<char>>> {
    match s {
        Some(v) => Some(v@.map_values(|u: String| u@)),
        None => None,
    }
}

/// The whole report.
pub open spec fn spec_doctor_report(c: Config, f: DoctorFacts) -> Seq<Seq<char>> {
    seq!["Facegate doctor\n"@] + spec_setup_checks(c, f) + spec_camera_note(f) + spec_model_checks(c, f)
        + spec_stale_warning(stale_view(f.stale_users)) + spec_runtime_checks(f) + seq![
        ""@,
        if spec_all_ok(c, f) {
            "All checks passed."@
        } else {
            "Some checks failed — see hints above."@
        },
    ]
}

fn setup_checks(c: &Config, f: &DoctorFacts) -> (r: Vec<String>)
    ensures
        lines_view(r@) == spec_setup_checks(*c, *f),
{
    let d = f.distro;
    let mut r = chk("config file exists", f.config_exists, None);
    append(&mut r, chk("PAM module installed", f.pam_module_found, Some(reinstall_hint(d))));
    append(&mut r, chk("storage base dir exists", f.base_dir_exists, Some("run: sudo mkdir -p /var/lib/facegate/users")));
    append(
        &mut r,
        chk(
            "storage permissions are safe",
            f.storage_safe,
            Some("run: sudo chown -R facegate:facegate /var/lib/facegate/users && sudo chmod 700 /var/lib/facegate/users"),
        ),
    );
    let label = text_of(&["camera device  (", c.camera.device.as_str(), ")"]);
    proof {
        reveal_with_fuel(Seq::fold_left, 4);
    }
    append(
        &mut r,
        chk(label.as_str(), f.camera_exists, Some("run: facegate cameras  (no root needed) to find the right device")),
    );
    if c.camera.cross_check.enabled {
        let (dev, ok) = match &c.camera.ir {
            Some(ir) => (ir.device.as_str(), f.ir_exists),
            None => ("<missing>", false),
        };
        let label = text_of(&["IR camera device (", dev, ")"]);
        append(
            &mut r,
            chk(label.as_str(), ok, Some("set [camera.ir].device to the IR / GREY camera, or disable [camera.cross_check]")),
        );
    }
    assert(lines_view(r@) =~= spec_setup_checks(*c, *f));
    r
}

fn camera_note(f: &DoctorFacts) -> (r: Vec<String>)
    ensures
        lines_view(r@) == spec_camera_note(*f),
{
    let mut r: Vec<String> = Vec::new();
    if f.camera_exists {
        match f.camera_kind {
            CameraKind::Ir => r.push(owned("        → IR camera detected (recommended)")),
            CameraKind::Rgb => r.push(
                owned("        → RGB webcam — works, but IR is more robust against photo spoofing. Run: facegate cameras"),
            ),
            CameraKind::Unknown => {},
        }
    }
    assert(lines_view(r@) =~= spec_camera_note(*f));
    r
}

fn model_hint(present: bool, name: &Option<String>, legacy: &'static str, distro: Distro) -> (s: &'static str)
    ensures
        !present && (name_view(*name) matches Some(n) && spec_legacy_model_name(n)) ==> s@ == legacy@,
        !(!present && (name_view(*name) matches Some(n) && spec_legacy_model_name(n))) ==> s@
            == crate::doctor::spec_reinstall_hint(distro),
{
    let is_legacy = match name {
        Some(n) => legacy_v03_model_path(Some(n.as_str())),
        None => false,
    };
    if !present && is_legacy {
        legacy
    } else {
        reinstall_hint(distro)
    }
}

fn model_checks(c: &Config, f: &DoctorFacts) -> (r: Vec<String>)
    ensures
        lines_view(r@) == spec_model_checks(*c, *f),
{
    let det = "config still points at the v0.3.x detector. Edit [models].detector in /etc/facegate/config.toml to:\n          /usr/share/facegate/models/face_detection_yunet_2023mar.onnx\n        (the v0.4.0 default is YuNet under MIT; run 'sudo facegate doctor' after editing.)";
    let emb = "config still points at the v0.3.x embedder. Edit [models].embedder in /etc/facegate/config.toml to:\n          /usr/share/facegate/models/glintr100.onnx\n        (the v0.4.0 default is AuraFace under Apache 2.0; all existing templates will need re-enrolment.)";
    let label = text_of(&["detector model  (", c.models.detector.as_str(), ")"]);
    proof {
        reveal_with_fuel(Seq::fold_left, 4);
    }
    let mut r = chk(label.as_str(), f.detector_present, Some(model_hint(f.detector_present, &f.detector_file_name, det, f.distro)));
    let label = text_of(&["embedder model  (", c.models.embedder.as_str(), ")"]);
    append(
        &mut r,
        chk(label.as_str(), f.embedder_present, Some(model_hint(f.embedder_present, &f.embedder_file_name, emb, f.distro))),
    );
    assert(lines_view(r@) =~= spec_model_checks(*c, *f));
    r
}

fn stale_warning(stale: &Option<Vec<String>>) -> (r: Vec<String>)
    ensures
        lines_view(r@) == spec_stale_warning(stale_view(*stale)),
{
    let mut r: Vec<String> = Vec::new();
    match stale {
        Some(s) => {
            if s.len() > 0 {
                let ghost us = s@.map_values(|u: String| u@);
                let mut head = owned("WARNING: ");
                push_decimal(&mut head, s.len() as u64);
                string_push_str(&mut head, " user(s) have templates enrolled before the v0.4.0 embedder swap:");
                r.push(head);
                let mut i: usize = 0;
                while i < s.len()
                    invariant
                        i <= s@.len(),
                        us == s@.map_values(|u: String| u@),
                        lines_view(r@) == seq![
                            "WARNING: "@ + decimal(us.len())
                                + " user(s) have templates enrolled before the v0.4.0 embedder swap:"@,
                        ] + us.take(i as int).map_values(|u: Seq<char>| "           - "@ + u),
                    decreases s@.len() - i,
                {
                    let mut l = owned("           - ");
                    string_push_str(&mut l, s[i].as_str());
                    let ghost before = lines_view(r@);
                    r.push(l);
                    assert(lines_view(r@) =~= before.push(l@));
                    assert(us.take(i + 1).map_values(|u: Seq<char>| "           - "@ + u) =~= us.take(i as int).map_values(
                        |u: Seq<char>| "           - "@ + u,
                    ).push("           - "@ + us[i as int]));
                    i += 1;
                }
                assert(us.take(us.len() as int) =~= us);
                let ghost before = lines_view(r@);
                r.push(
                    owned(
                        "         Re-enrol with 'sudo facegate add --user <name>' for each listed user;\n         the old templates will never match against the new embedder's embedding space.",
                    ),
                );
                assert(lines_view(r@) =~= before.push(
                    "         Re-enrol with 'sudo facegate add --user <name>' for each listed user;\n         the old templates will never match against the new embedder's embedding space."@,
                ));
            }
        },
        None => {},
    }
    assert(lines_view(r@) =~= spec_stale_warning(stale_view(*stale)));
    r
}

fn runtime_checks(f: &DoctorFacts) -> (r: Vec<String>)
    ensures
        lines_view(r@) == spec_runtime_checks(*f),
{
    let mut r = chk("ONNX Runtime library", f.ort_found, Some(ort_install_hint(f.distro)));
    if f.detector_present {
        append(
            &mut r,
            chk("detector model loads", f.detector_loads, Some("check ONNX Runtime version and detector model file")),
        );
    }
    let ghost mid = lines_view(r@);
    if f.embedder_present {
        append(
            &mut r,
            chk("embedder model loads", f.embedder_loads, Some("check ONNX Runtime version and embedder model file")),
        );
    }
    append(&mut r, chk("facegate-watch.service installed", f.watch_unit_installed, Some(reinstall_hint(f.distro))));
    assert(lines_view(r@) =~= spec_runtime_checks(*f));
    r
}

/// The doctor's report for the configuration `c`, from what was found (see
/// [`spec_doctor_report`]); the verdict counts every check.
#[verifier::spinoff_prover]
pub fn doctor_report(c: &Config, f: &DoctorFacts) -> (r: Vec<String>)
    ensures
        lines_view(r@) == spec_doctor_report(*c, *f),
{
    let mut r: Vec<String> = Vec::new();
    r.push(owned("Facegate doctor\n"));
    append(&mut r, setup_checks(c, f));
    append(&mut r, camera_note(f));
    append(&mut r, model_checks(c, f));
    append(&mut r, stale_warning(&f.stale_users));
    append(&mut r, runtime_checks(f));
    let ghost body = lines_view(r@);
    assert(body =~= seq!["Facegate doctor\n"@] + spec_setup_checks(*c, *f) + spec_camera_note(*f) + spec_model_checks(*c, *f)
        + spec_stale_warning(stale_view(f.stale_users)) + spec_runtime_checks(*f));
    r.push(owned(""));
    let ir_ok = match &c.camera.ir {
        Some(_) => f.ir_exists,
        None => false,
    };
    let all_ok = f.config_exists && f.pam_module_found && f.base_dir_exists && f.storage_safe && f.camera_exists
        && (!c.camera.cross_check.enabled || ir_ok) && f.detector_present && f.embedder_present && f.ort_found
        && (!f.detector_present || f.detector_loads) && (!f.embedder_present || f.embedder_loads)
        && f.watch_unit_installed;
    assert(all_ok == spec_all_ok(*c, *f));
    if all_ok {
        r.push(owned("All checks passed."));
    } else {
        r.push(owned("Some checks failed — see hints above."));
    }
    assert(lines_view(r@) =~= spec_doctor_report(*c, *f));
    r
}

} // verus!
