//! The state of the interactive main menu and how each key press changes it.
//!
//! [`MainMenu::handle_key`] is the whole key handling of the menu: it moves the cursor,
//! edits the text being typed, walks through the enrollment dialogs, and tells the
//! binary, through a [`MenuEffect`], which outside work to start (a command in the
//! background, loading templates or PAM services, refreshing the status flags). The
//! binary draws the state, runs that work, and reports back with the other methods.
use vstd::prelude::*;

use crate::ipc::EnrolledTemplateSummary;
use crate::menu::{
    build_items, first_selectable, items_view, move_cursor, sample_count, selectable,
    spec_build_items, spec_sample_count, spec_toggle_enroll_target, toggle_enroll_target, Action,
    ItemKind, ItemView, MenuItem, cyclic,
};
use crate::storage;
use crate::text::{chars_of, owned, starts_with, string_from_chars, string_push, string_push_str, trim, trim_chars};

verus! {

// ── State ────────────────────────────────────────────────────────────────────

/// What the keyboard currently drives.
#[derive(Debug, Clone, Copy, PartialEq, Eq, Structural)]
pub enum InputMode {
    Menu,
    UsernameInput,
    SampleCountInput,
    PamServiceInput,
    EnrollTargetSelect,
    SessionServiceSelect,
    TemplateList,
}

/// The keys the menu reacts to.
#[derive(Debug, Clone, Copy, PartialEq, Eq, Structural)]
pub enum Key {
    Enter,
    Esc,
    Backspace,
    Up,
    Down,
    PageUp,
    PageDown,
    Char(char),
    Other,
}

/// What the output panel shows.
pub enum Panel {
    /// The welcome text.
    Idle,
    /// A command runs in the background; its output is collected by the binary.
    Running,
    /// The finished command's output, scrolled by `scroll` lines.
    Done { lines: Vec<String>, scroll: usize, had_error: bool },
}

/// A PAM service offered for disabling face authentication.
pub struct SessionEntry {
    pub name: String,
    pub service: String,
    pub path: String,
    /// Unchecking an entry disables face authentication for it.
    pub keep: bool,
}

/// An enrolled template offered for deletion.
pub struct TemplateEntry {
    pub id: u32,
    pub label: String,
    pub created_at: String,
    pub scope: String,
    pub marked: bool,
}

/// The main menu.
pub struct MainMenu {
    pub items: Vec<MenuItem>,
    pub selected: usize,
    pub input_mode: InputMode,
    pub username_buf: String,
    pub sample_count_buf: String,
    pub pam_service_buf: String,
    pub enroll_sudo: bool,
    pub enroll_session: bool,
    pub enroll_cursor: usize,
    pub session_entries: Vec<SessionEntry>,
    pub session_cursor: usize,
    pub template_username: String,
    pub template_entries: Vec<TemplateEntry>,
    pub template_cursor: usize,
    pub pending: Option<Action>,
    pub pending_username: Option<String>,
    pub panel: Panel,
    pub sudo_enabled: bool,
    pub session_enabled: bool,
    pub watch_active: bool,
    /// The menu closes so the configuration editor can open.
    pub open_config: bool,
    pub should_quit: bool,
}

/// Outside work the binary starts after a key press.
pub enum MenuEffect {
    Nothing,
    /// Run `action` in the background, its output going to the panel.
    Launch { action: Action, username: Option<String>, samples: u32, pam_service: Option<String> },
    /// Find the PAM services with face authentication enabled and pass them to
    /// [`MainMenu::show_session_entries`].
    LoadSessionServices,
    /// Load the user's templates and pass them to [`MainMenu::show_templates`].
    LoadTemplates { username: String },
    /// Disable face authentication for these services, in the background.
    DisableServices { entries: Vec<SessionEntry> },
    /// Remove these templates of the user through the broker, in this order, in the
    /// background.
    RemoveTemplates { username: String, ids: Vec<u32> },
    /// Read the sudo, session and watch status again and pass it to
    /// [`MainMenu::return_to_menu`].
    RefreshStatus,
}

// ── Views ────────────────────────────────────────────────────────────────────

#[verifier::ext_equal]
pub struct SessionEntryView {
    pub name: Seq<char>,
    pub service: Seq<char>,
    pub path: Seq<char>,
    pub keep: bool,
}

#[verifier::ext_equal]
pub struct TemplateEntryView {
    pub id: u32,
    pub label: Seq<char>,
    pub created_at: Seq<char>,
    pub scope: Seq<char>,
    pub marked: bool,
}

#[verifier::ext_equal]
pub enum PanelView {
    Idle,
    Running,
    Done { lines: Seq<Seq<char>>, scroll: int, had_error: bool },
}

/// The menu as seen: every field by value.
#[verifier::ext_equal]
pub struct MenuView {
    pub items: Seq<ItemView>,
    pub selected: int,
    pub mode: InputMode,
    pub username: Seq<char>,
    pub sample_count: Seq<char>,
    pub pam_service: Seq<char>,
    pub enroll_sudo: bool,
    pub enroll_session: bool,
    pub enroll_cursor: int,
    pub session_entries: Seq<SessionEntryView>,
    pub session_cursor: int,
    pub template_username: Seq<char>,
    pub template_entries: Seq<TemplateEntryView>,
    pub template_cursor: int,
    pub pending: Option<Action>,
    pub pending_username: Option<Seq<char>>,
    pub panel: PanelView,
    pub sudo_enabled: bool,
    pub session_enabled: bool,
    pub watch_active: bool,
    pub open_config: bool,
    pub should_quit: bool,
}

/// Outside work as seen.
#[verifier::ext_equal]
pub enum EffectView {
    Nothing,
    Launch {
        action: Action,
        username: Option<Seq<char>>,
        samples: u32,
        pam_service: Option<Seq<char>>,
    },
    LoadSessionServices,
    LoadTemplates { username: Seq<char> },
    DisableServices { entries: Seq<SessionEntryView> },
    RemoveTemplates { username: Seq<char>, ids: Seq<u32> },
    RefreshStatus,
}

pub open spec fn session_entry_view(e: SessionEntry) -> SessionEntryView {
    SessionEntryView { name: e.name@, service: e.service@, path: e.path@, keep: e.keep }
}

pub open spec fn template_entry_view(e: TemplateEntry) -> TemplateEntryView {
    TemplateEntryView {
        id: e.id,
        label: e.label@,
        created_at: e.created_at@,
        scope: e.scope@,
        marked: e.marked,
    }
}

pub open spec fn session_entries_view(s: Seq<SessionEntry>) -> Seq<SessionEntryView> {
    s.map_values(|e: SessionEntry| session_entry_view(e))
}

pub open spec fn template_entries_view(s: Seq<TemplateEntry>) -> Seq<TemplateEntryView> {
    s.map_values(|e: TemplateEntry| template_entry_view(e))
}

pub open spec fn lines_view(s: Seq<String>) -> Seq<Seq<char>> {
    s.map_values(|l: String| l@)
}

pub open spec fn opt_view(s: Option<String>) -> Option<Seq<char>> {
    match s {
        Some(x) => Some(x@),
        None => None,
    }
}

pub open spec fn panel_view(p: Panel) -> PanelView {
    match p {
        Panel::Idle => PanelView::Idle,
        Panel::Running => PanelView::Running,
        Panel::Done { lines, scroll, had_error } => PanelView::Done {
            lines: lines_view(lines@),
            scroll: scroll as int,
            had_error,
        },
    }
}

pub open spec fn effect_view(e: MenuEffect) -> EffectView {
    match e {
        MenuEffect::Nothing => EffectView::Nothing,
        MenuEffect::Launch { action, username, samples, pam_service } => EffectView::Launch {
            action,
            username: opt_view(username),
            samples,
            pam_service: opt_view(pam_service),
        },
        MenuEffect::LoadSessionServices => EffectView::LoadSessionServices,
        MenuEffect::LoadTemplates { username } => EffectView::LoadTemplates { username: username@ },
        MenuEffect::DisableServices { entries } => EffectView::DisableServices {
            entries: session_entries_view(entries@),
        },
        MenuEffect::RemoveTemplates { username, ids } => EffectView::RemoveTemplates {
            username: username@,
            ids: ids@,
        },
        MenuEffect::RefreshStatus => EffectView::RefreshStatus,
    }
}

impl View for MainMenu {
    type V = MenuView;

    open spec fn view(&self) -> MenuView {
        MenuView {
            items: items_view(self.items@),
            selected: self.selected as int,
            mode: self.input_mode,
            username: self.username_buf@,
            sample_count: self.sample_count_buf@,
            pam_service: self.pam_service_buf@,
            enroll_sudo: self.enroll_sudo,
            enroll_session: self.enroll_session,
            enroll_cursor: self.enroll_cursor as int,
            session_entries: session_entries_view(self.session_entries@),
            session_cursor: self.session_cursor as int,
            template_username: self.template_username@,
            template_entries: template_entries_view(self.template_entries@),
            template_cursor: self.template_cursor as int,
            pending: self.pending,
            pending_username: opt_view(self.pending_username),
            panel: panel_view(self.panel),
            sudo_enabled: self.sudo_enabled,
            session_enabled: self.session_enabled,
            watch_active: self.watch_active,
            open_config: self.open_config,
            should_quit: self.should_quit,
        }
    }
}

/// The menu entries are those of the current status flags, and the cursor is on a
/// selectable entry.
pub open spec fn menu_wf(v: MenuView) -> bool {
    &&& v.items == spec_build_items(v.sudo_enabled, v.session_enabled, v.watch_active)
    &&& 0 <= v.selected < v.items.len()
    &&& v.items[v.selected].5 != ItemKind::Section
}

impl MainMenu {
    /// See [`menu_wf`].
    pub open spec fn wf(&self) -> bool {
        menu_wf(self@)
    }
}

} // verus!

verus! {

// ── The key handling, as a function of the seen state ───────────────────────

/// The entry can be selected.
pub open spec fn item_selectable(items: Seq<ItemView>, i: int) -> bool {
    items[i].5 != ItemKind::Section
}

/// The first selectable entry at or after `i`, or 0 when there is none.
pub open spec fn first_selectable_from(items: Seq<ItemView>, i: int) -> int
    decreases items.len() - i,
{
    if i < 0 || i >= items.len() {
        0
    } else if item_selectable(items, i) {
        i
    } else {
        first_selectable_from(items, i + 1)
    }
}

/// `r` is where the cursor lands when it moves from `from` in the given direction:
/// the first selectable entry met, wrapping around.
pub open spec fn moved_to(items: Seq<ItemView>, from: int, r: int, forward: bool) -> bool {
    &&& 0 <= r < items.len()
    &&& item_selectable(items, r)
    &&& exists|d: int|
        1 <= d <= items.len() && r == cyclic(items.len() as int, from, d, forward) && forall|e: int|
            1 <= e < d ==> !item_selectable(
                items,
                #[trigger] cyclic(items.len() as int, from, e, forward),
            )
}

/// Where the cursor lands when it moves from `from`.
pub open spec fn spec_move(items: Seq<ItemView>, from: int, forward: bool) -> int {
    choose|r: int| moved_to(items, from, r, forward)
}

/// `s` without its last character, when it has one.
pub open spec fn pop_char(s: Seq<char>) -> Seq<char> {
    if s.len() > 0 {
        s.drop_last()
    } else {
        s
    }
}

/// The state after starting `action` in the background.
pub open spec fn spec_launch(
    v: MenuView,
    action: Action,
    username: Option<Seq<char>>,
    samples: u32,
    pam_service: Option<Seq<char>>,
) -> (MenuView, EffectView) {
    (
        MenuView { panel: PanelView::Running, ..v },
        EffectView::Launch { action, username, samples, pam_service },
    )
}

/// Leaving a dialog: back to the menu with every dialog field reset.
pub open spec fn spec_cancel(v: MenuView) -> MenuView {
    MenuView {
        mode: InputMode::Menu,
        pending: None,
        pending_username: None,
        username: Seq::empty(),
        sample_count: Seq::empty(),
        pam_service: Seq::empty(),
        enroll_sudo: true,
        enroll_session: false,
        enroll_cursor: 0,
        session_entries: Seq::empty(),
        session_cursor: 0,
        template_entries: Seq::empty(),
        template_username: Seq::empty(),
        template_cursor: 0,
        ..v
    }
}

/// Enter on a menu entry: quit, open the configuration editor, ask for a PAM service or
/// a user name, load the enabled session services, or run the entry's command.
pub open spec fn spec_enter(v: MenuView) -> (MenuView, EffectView) {
    let item = v.items[v.selected];
    if item.5 == ItemKind::Quit {
        (MenuView { should_quit: true, ..v }, EffectView::Nothing)
    } else {
        match item.3 {
            None => (v, EffectView::Nothing),
            Some(a) => if a == Action::Configure {
                (MenuView { open_config: true, ..v }, EffectView::Nothing)
            } else if a == Action::SessionToggle {
                if v.session_enabled {
                    (v, EffectView::LoadSessionServices)
                } else {
                    (
                        MenuView {
                            pending: Some(a),
                            pam_service: Seq::empty(),
                            mode: InputMode::PamServiceInput,
                            ..v
                        },
                        EffectView::Nothing,
                    )
                }
            } else if item.4 {
                (
                    MenuView {
                        pending: Some(a),
                        username: Seq::empty(),
                        mode: InputMode::UsernameInput,
                        ..v
                    },
                    EffectView::Nothing,
                )
            } else {
                spec_launch(v, a, None, 1, None)
            },
        }
    }
}

/// Enter on the typed user name (trimmed; a blank one is ignored): on to the enrollment
/// targets, the sample count, loading the templates, or running the pending command.
pub open spec fn spec_confirm_username(v: MenuView) -> (MenuView, EffectView) {
    let name = trim(v.username);
    if name.len() == 0 {
        (v, EffectView::Nothing)
    } else {
        match v.pending {
            None => (v, EffectView::Nothing),
            Some(a) => if a == Action::Enroll {
                (
                    MenuView {
                        pending_username: Some(name),
                        enroll_sudo: true,
                        enroll_session: false,
                        enroll_cursor: 0,
                        mode: InputMode::EnrollTargetSelect,
                        ..v
                    },
                    EffectView::Nothing,
                )
            } else if a == Action::AddSudo || a == Action::AddSession || a == Action::AddBoth {
                (
                    MenuView {
                        pending_username: Some(name),
                        sample_count: "3"@,
                        mode: InputMode::SampleCountInput,
                        ..v
                    },
                    EffectView::Nothing,
                )
            } else if a == Action::List {
                (
                    MenuView {
                        pending: None,
                        username: Seq::empty(),
                        mode: InputMode::Menu,
                        ..v
                    },
                    EffectView::LoadTemplates { username: name },
                )
            } else {
                let (v2, e) = spec_launch(MenuView { pending: None, ..v }, a, Some(name), 1, None);
                (MenuView { mode: InputMode::Menu, ..v2 }, e)
            },
        }
    }
}

/// Enter on the enrollment targets: at least one must be checked; then the sample
/// count is asked, with 3 proposed.
pub open spec fn spec_confirm_enroll_targets(v: MenuView) -> (MenuView, EffectView) {
    if !v.enroll_sudo && !v.enroll_session {
        (v, EffectView::Nothing)
    } else {
        let a = if v.enroll_sudo && v.enroll_session {
            Action::AddBoth
        } else if v.enroll_sudo {
            Action::AddSudo
        } else {
            Action::AddSession
        };
        (
            MenuView {
                pending: Some(a),
                sample_count: "3"@,
                mode: InputMode::SampleCountInput,
                ..v
            },
            EffectView::Nothing,
        )
    }
}

/// Enter on the sample count: an invalid count is ignored; a valid one runs the
/// pending enrollment for the pending user (both are consumed either way).
pub open spec fn spec_confirm_sample_count(v: MenuView) -> (MenuView, EffectView) {
    match spec_sample_count(v.sample_count) {
        None => (v, EffectView::Nothing),
        Some(n) => {
            let v1 = MenuView { pending: None, pending_username: None, ..v };
            match (v.pending, v.pending_username) {
                (Some(a), Some(u)) => {
                    let (v2, e) = spec_launch(v1, a, Some(u), n, None);
                    (MenuView { mode: InputMode::Menu, ..v2 }, e)
                },
                _ => (v1, EffectView::Nothing),
            }
        },
    }
}

/// Enter on the PAM service name: runs the pending toggle, with the typed service
/// (trimmed) as an extra one unless it is blank.
pub open spec fn spec_confirm_pam_service(v: MenuView) -> (MenuView, EffectView) {
    let s = trim(v.pam_service);
    match v.pending {
        None => (v, EffectView::Nothing),
        Some(a) => {
            let (v2, e) = spec_launch(
                MenuView { pending: None, ..v },
                a,
                None,
                1,
                if s.len() == 0 {
                    None
                } else {
                    Some(s)
                },
            );
            (MenuView { mode: InputMode::Menu, ..v2 }, e)
        },
    }
}

/// Space on a session service: flips whether it keeps face authentication.
pub open spec fn spec_toggle_session_entry(v: MenuView) -> MenuView {
    if 0 <= v.session_cursor < v.session_entries.len() {
        let e = v.session_entries[v.session_cursor];
        MenuView {
            session_entries: v.session_entries.update(
                v.session_cursor,
                SessionEntryView { keep: !e.keep, ..e },
            ),
            ..v
        }
    } else {
        v
    }
}

/// Enter on the session services: the unchecked ones are disabled in the background.
pub open spec fn spec_confirm_session_services(v: MenuView) -> (MenuView, EffectView) {
    (
        MenuView {
            mode: InputMode::Menu,
            session_entries: Seq::empty(),
            panel: PanelView::Running,
            ..v
        },
        EffectView::DisableServices {
            entries: v.session_entries.filter(|e: SessionEntryView| !e.keep),
        },
    )
}

/// Space or `d` on a template: flips its deletion mark.
pub open spec fn spec_toggle_template_mark(v: MenuView) -> MenuView {
    if 0 <= v.template_cursor < v.template_entries.len() {
        let e = v.template_entries[v.template_cursor];
        MenuView {
            template_entries: v.template_entries.update(
                v.template_cursor,
                TemplateEntryView { marked: !e.marked, ..e },
            ),
            ..v
        }
    } else {
        v
    }
}

/// `a` comes before `b` when deleting: higher ids first.
pub open spec fn id_desc(a: u32, b: u32) -> bool {
    a >= b
}

/// The ids of the marked templates.
pub open spec fn marked_ids(s: Seq<TemplateEntryView>) -> Seq<u32> {
    s.filter(|e: TemplateEntryView| e.marked).map_values(|e: TemplateEntryView| e.id)
}

/// Enter on the template list: the marked templates are removed in the background,
/// highest id first; with none marked, the panel says so.
pub open spec fn spec_confirm_template_delete(v: MenuView) -> (MenuView, EffectView) {
    let ids = marked_ids(v.template_entries);
    if ids.len() == 0 {
        (
            MenuView {
                mode: InputMode::Menu,
                template_entries: Seq::empty(),
                template_username: Seq::empty(),
                panel: PanelView::Done {
                    lines: seq!["No templates deleted."@],
                    scroll: 0,
                    had_error: false,
                },
                ..v
            },
            EffectView::Nothing,
        )
    } else {
        (
            MenuView {
                mode: InputMode::Menu,
                template_entries: Seq::empty(),
                template_username: Seq::empty(),
                panel: PanelView::Running,
                ..v
            },
            EffectView::RemoveTemplates {
                username: v.template_username,
                ids: ids.sort_by(|a: u32, b: u32| id_desc(a, b)),
            },
        )
    }
}

/// Scrolls the finished output by `delta` lines, never above the top.
pub open spec fn spec_scroll(v: MenuView, delta: int) -> MenuView {
    match v.panel {
        PanelView::Done { lines, scroll, had_error } => MenuView {
            panel: PanelView::Done {
                lines,
                scroll: if scroll + delta < 0 {
                    0
                } else if scroll + delta > usize::MAX {
                    usize::MAX as int
                } else {
                    scroll + delta
                },
                had_error,
            },
            ..v
        },
        _ => v,
    }
}

/// A key typed into a text field: Enter confirms, Esc cancels, Backspace deletes the
/// last character, and an accepted character is appended.
pub open spec fn spec_text_key(
    v: MenuView,
    text: Seq<char>,
    key: Key,
    accepts: spec_fn(char) -> bool,
    confirm: (MenuView, EffectView),
    with_text: spec_fn(Seq<char>) -> MenuView,
) -> (MenuView, EffectView) {
    match key {
        Key::Enter => confirm,
        Key::Esc => (spec_cancel(v), EffectView::Nothing),
        Key::Backspace => (with_text(pop_char(text)), EffectView::Nothing),
        Key::Char(c) => if accepts(c) {
            (with_text(text.push(c)), EffectView::Nothing)
        } else {
            (v, EffectView::Nothing)
        },
        _ => (v, EffectView::Nothing),
    }
}

/// An up key: the arrow or `k`.
pub open spec fn is_up(key: Key) -> bool {
    key == Key::Up || key == Key::Char('k')
}

/// A down key: the arrow or `j`.
pub open spec fn is_down(key: Key) -> bool {
    key == Key::Down || key == Key::Char('j')
}

/// What a key press does to the menu, and the outside work it starts.
pub open spec fn spec_handle_key(v: MenuView, key: Key) -> (MenuView, EffectView) {
    match v.mode {
        InputMode::UsernameInput => spec_text_key(
            v,
            v.username,
            key,
            |c: char| true,
            spec_confirm_username(v),
            |t: Seq<char>| MenuView { username: t, ..v },
        ),
        InputMode::SampleCountInput => spec_text_key(
            v,
            v.sample_count,
            key,
            |c: char| '0' <= c <= '9',
            spec_confirm_sample_count(v),
            |t: Seq<char>| MenuView { sample_count: t, ..v },
        ),
        InputMode::PamServiceInput => spec_text_key(
            v,
            v.pam_service,
            key,
            |c: char| true,
            spec_confirm_pam_service(v),
            |t: Seq<char>| MenuView { pam_service: t, ..v },
        ),
        InputMode::SessionServiceSelect => if is_up(key) && v.session_cursor > 0 {
            (MenuView { session_cursor: v.session_cursor - 1, ..v }, EffectView::Nothing)
        } else if is_down(key) && v.session_cursor + 1 < v.session_entries.len() {
            (MenuView { session_cursor: v.session_cursor + 1, ..v }, EffectView::Nothing)
        } else if key == Key::Char(' ') {
            (spec_toggle_session_entry(v), EffectView::Nothing)
        } else if key == Key::Enter {
            spec_confirm_session_services(v)
        } else if key == Key::Esc {
            (spec_cancel(v), EffectView::Nothing)
        } else {
            (v, EffectView::Nothing)
        },
        InputMode::TemplateList => if is_up(key) && v.template_cursor > 0 {
            (MenuView { template_cursor: v.template_cursor - 1, ..v }, EffectView::Nothing)
        } else if is_down(key) && v.template_cursor + 1 < v.template_entries.len() {
            (MenuView { template_cursor: v.template_cursor + 1, ..v }, EffectView::Nothing)
        } else if key == Key::Char(' ') || key == Key::Char('d') {
            (spec_toggle_template_mark(v), EffectView::Nothing)
        } else if key == Key::Enter {
            spec_confirm_template_delete(v)
        } else if key == Key::Esc {
            (spec_cancel(v), EffectView::Nothing)
        } else {
            (v, EffectView::Nothing)
        },
        InputMode::EnrollTargetSelect => if is_up(key) && v.enroll_cursor > 0 {
            (MenuView { enroll_cursor: v.enroll_cursor - 1, ..v }, EffectView::Nothing)
        } else if is_down(key) && v.enroll_cursor < 2 {
            (MenuView { enroll_cursor: v.enroll_cursor + 1, ..v }, EffectView::Nothing)
        } else if key == Key::Char(' ') {
            let (s, t) = spec_toggle_enroll_target(
                v.enroll_cursor as usize,
                v.enroll_sudo,
                v.enroll_session,
            );
            (MenuView { enroll_sudo: s, enroll_session: t, ..v }, EffectView::Nothing)
        } else if key == Key::Enter {
            spec_confirm_enroll_targets(v)
        } else if key == Key::Esc {
            (spec_cancel(v), EffectView::Nothing)
        } else {
            (v, EffectView::Nothing)
        },
        InputMode::Menu => match v.panel {
            PanelView::Done { .. } => if is_up(key) {
                (spec_scroll(v, -1), EffectView::Nothing)
            } else if is_down(key) {
                (spec_scroll(v, 1), EffectView::Nothing)
            } else if key == Key::PageUp {
                (spec_scroll(v, -10), EffectView::Nothing)
            } else if key == Key::PageDown {
                (spec_scroll(v, 10), EffectView::Nothing)
            } else if key == Key::Enter || key == Key::Esc {
                (v, EffectView::RefreshStatus)
            } else if key == Key::Char('q') {
                (MenuView { should_quit: true, ..v }, EffectView::Nothing)
            } else {
                (v, EffectView::Nothing)
            },
            PanelView::Running => (v, EffectView::Nothing),
            PanelView::Idle => if key == Key::Char('q') || key == Key::Esc {
                (MenuView { should_quit: true, ..v }, EffectView::Nothing)
            } else if is_up(key) {
                (MenuView { selected: spec_move(v.items, v.selected, false), ..v }, EffectView::Nothing)
            } else if is_down(key) {
                (MenuView { selected: spec_move(v.items, v.selected, true), ..v }, EffectView::Nothing)
            } else if key == Key::Enter {
                spec_enter(v)
            } else {
                (v, EffectView::Nothing)
            },
        },
    }
}

} // verus!

verus! {

// ── The key handling, executed ───────────────────────────────────────────────

/// The menu when it opens, for the given status flags.
pub open spec fn spec_initial(sudo: bool, session: bool, watch: bool) -> MenuView {
    let items = spec_build_items(sudo, session, watch);
    MenuView {
        items,
        selected: first_selectable_from(items, 0),
        mode: InputMode::Menu,
        username: Seq::empty(),
        sample_count: Seq::empty(),
        pam_service: Seq::empty(),
        enroll_sudo: true,
        enroll_session: false,
        enroll_cursor: 0,
        session_entries: Seq::empty(),
        session_cursor: 0,
        template_username: Seq::empty(),
        template_entries: Seq::empty(),
        template_cursor: 0,
        pending: None,
        pending_username: None,
        panel: PanelView::Idle,
        sudo_enabled: sudo,
        session_enabled: session,
        watch_active: watch,
        open_config: false,
        should_quit: false,
    }
}

/// The first selectable entry of a list that has one is the first at or after 0.
proof fn lemma_first_selectable(items: Seq<ItemView>, r: int, i: int)
    requires
        0 <= i <= r < items.len(),
        item_selectable(items, r),
        forall|j: int| 0 <= j < r ==> !item_selectable(items, j),
    ensures
        first_selectable_from(items, i) == r,
    decreases r - i,
{
    if i < r {
        lemma_first_selectable(items, r, i + 1);
    }
}

/// Moving lands on one entry only.
proof fn lemma_moved_unique(items: Seq<ItemView>, from: int, r: int, forward: bool)
    requires
        moved_to(items, from, r, forward),
    ensures
        spec_move(items, from, forward) == r,
{
    let s = spec_move(items, from, forward);
    assert(moved_to(items, from, s, forward));
    let len = items.len() as int;
    let d1 = choose|d: int|
        1 <= d <= len && r == cyclic(len, from, d, forward) && forall|e: int|
            1 <= e < d ==> !item_selectable(items, #[trigger] cyclic(len, from, e, forward));
    let d2 = choose|d: int|
        1 <= d <= len && s == cyclic(len, from, d, forward) && forall|e: int|
            1 <= e < d ==> !item_selectable(items, #[trigger] cyclic(len, from, e, forward));
    if d1 < d2 {
        assert(!item_selectable(items, cyclic(len, from, d1, forward)));
    } else if d2 < d1 {
        assert(!item_selectable(items, cyclic(len, from, d2, forward)));
    }
}

fn pop_last(s: &String) -> (r: String)
    ensures
        r@ == pop_char(s@),
{
    let cs = chars_of(s.as_str());
    if cs.len() == 0 {
        return String::new();
    }
    let mut out = String::new();
    let mut i: usize = 0;
    let last = cs.len() - 1;
    while i < last
        invariant
            cs@ == s@,
            cs@.len() > 0,
            last == cs@.len() - 1,
            i <= last,
            out@ == cs@.take(i as int),
        decreases cs@.len() - i,
    {
        string_push(&mut out, cs[i]);
        assert(cs@.take(i + 1) == cs@.take(i as int).push(cs@[i as int]));
        i += 1;
    }
    assert(cs@.take(i as int) == cs@.drop_last());
    out
}

fn trimmed(s: &String) -> (r: String)
    ensures
        r@ == trim(s@),
{
    let cs = chars_of(s.as_str());
    let t = trim_chars(cs.as_slice());
    string_from_chars(t.as_slice())
}

fn copy_opt(s: &Option<String>) -> (r: Option<String>)
    ensures
        opt_view(r) == opt_view(*s),
{
    match s {
        Some(x) => Some(x.clone()),
        None => None,
    }
}

/// The ids in deleting order: highest first.
fn sort_ids_desc(ids: Vec<u32>) -> (r: Vec<u32>)
    ensures
        r@ == ids@.sort_by(|a: u32, b: u32| id_desc(a, b)),
{
    let ghost leq = |a: u32, b: u32| id_desc(a, b);
    let mut out: Vec<u32> = Vec::new();
    let mut i: usize = 0;
    proof {
        broadcast use vstd::seq_lib::group_to_multiset_ensures;
        assert(ids@.take(0) =~= out@);
    }
    while i < ids.len()
        invariant
            i <= ids@.len(),
            vstd::relations::sorted_by(out@, leq),
            out@.to_multiset() == ids@.take(i as int).to_multiset(),
            leq == (|a: u32, b: u32| id_desc(a, b)),
        decreases ids@.len() - i,
    {
        let x = ids[i];
        let mut j: usize = 0;
        while j < out.len() && out[j] >= x
            invariant
                j <= out@.len(),
                forall|k: int| 0 <= k < j ==> out@[k] >= x,
            decreases out@.len() - j,
        {
            j += 1;
        }
        let ghost before = out@;
        out.insert(j, x);
        proof {
            broadcast use vstd::seq_lib::group_to_multiset_ensures;
            assert(out@ == before.insert(j as int, x));
            vstd::seq_lib::to_multiset_insert(before, j as int, x);
            assert(ids@.take(i + 1) == ids@.take(i as int).push(x));
            assert forall|a: int, b: int| 0 <= a < b < out@.len() implies #[trigger] leq(
                out@[a],
                out@[b],
            ) by {
                if j < before.len() {
                    assert(before[j as int] < x);
                }
                if a < j && b > j {
                    assert(leq(before[a], before[b - 1]));
                } else if a > j {
                    assert(leq(before[a - 1], before[b - 1]));
                } else if b < j {
                    assert(leq(before[a], before[b]));
                } else if a == j && b > j {
                    if b - 1 > j {
                        assert(leq(before[j as int], before[b - 1]));
                    }
                }
            }
        }
        i += 1;
    }
    proof {
        assert(ids@.take(ids@.len() as int) == ids@);
        assert(vstd::relations::total_ordering(leq));
        ids@.lemma_sort_by_ensures(leq);
        vstd::seq_lib::lemma_sorted_unique(out@, ids@.sort_by(leq), leq);
    }
    out
}

} // verus!

verus! {

impl MainMenu {
    /// The menu when it opens (see [`spec_initial`]).
    pub fn new(sudo_enabled: bool, session_enabled: bool, watch_active: bool) -> (m: Self)
        ensures
            m.wf(),
            m@ == spec_initial(sudo_enabled, session_enabled, watch_active),
    {
        let items = build_items(sudo_enabled, session_enabled, watch_active);
        proof {
            assert(items_view(items@)[1] == crate::menu::item_view(items@[1]));
            assert(selectable(items@, 1));
        }
        let selected = first_selectable(&items);
        proof {
            assert forall|j: int| 0 <= j < selected implies !item_selectable(items_view(items@), j) by {
                assert(items_view(items@)[j] == crate::menu::item_view(items@[j]));
            }
            assert(items_view(items@)[selected as int] == crate::menu::item_view(items@[selected as int]));
            lemma_first_selectable(items_view(items@), selected as int, 0);
        }
        let m = MainMenu {
            items,
            selected,
            input_mode: InputMode::Menu,
            username_buf: String::new(),
            sample_count_buf: String::new(),
            pam_service_buf: String::new(),
            enroll_sudo: true,
            enroll_session: false,
            enroll_cursor: 0,
            session_entries: Vec::new(),
            session_cursor: 0,
            template_username: String::new(),
            template_entries: Vec::new(),
            template_cursor: 0,
            pending: None,
            pending_username: None,
            panel: Panel::Idle,
            sudo_enabled,
            session_enabled,
            watch_active,
            open_config: false,
            should_quit: false,
        };
        assert(m@ =~= spec_initial(sudo_enabled, session_enabled, watch_active));
        m
    }

    fn cancel_input(&mut self)
        ensures
            final(self)@ == spec_cancel(old(self)@),
    {
        self.input_mode = InputMode::Menu;
        self.pending = None;
        self.pending_username = None;
        self.username_buf = String::new();
        self.sample_count_buf = String::new();
        self.pam_service_buf = String::new();
        self.enroll_sudo = true;
        self.enroll_session = false;
        self.enroll_cursor = 0;
        self.session_entries = Vec::new();
        self.session_cursor = 0;
        self.template_entries = Vec::new();
        self.template_username = String::new();
        self.template_cursor = 0;
        assert(self@ =~= spec_cancel(old(self)@));
    }

    fn launch(
        &mut self,
        action: Action,
        username: Option<String>,
        samples: u32,
        pam_service: Option<String>,
    ) -> (e: MenuEffect)
        ensures
            (final(self)@, effect_view(e)) == spec_launch(
                old(self)@,
                action,
                opt_view(username),
                samples,
                opt_view(pam_service),
            ),
    {
        self.panel = Panel::Running;
        assert(self@ =~= spec_launch(old(self)@, action, opt_view(username), samples, opt_view(pam_service)).0);
        MenuEffect::Launch { action, username, samples, pam_service }
    }

    fn enter_menu(&mut self) -> (e: MenuEffect)
        requires
            menu_wf(old(self)@),
        ensures
            (final(self)@, effect_view(e)) == spec_enter(old(self)@),
    {
        let ghost v = self@;
        proof {
            assert(v.items[v.selected] == crate::menu::item_view(self.items@[self.selected as int]));
        }
        let kind = self.items[self.selected].kind;
        if kind == ItemKind::Quit {
            self.should_quit = true;
            assert(self@ =~= spec_enter(v).0);
            return MenuEffect::Nothing;
        }
        let action = self.items[self.selected].action;
        let needs_user = self.items[self.selected].needs_user;
        match action {
            None => MenuEffect::Nothing,
            Some(a) => {
                if a == Action::Configure {
                    self.open_config = true;
                    assert(self@ =~= spec_enter(v).0);
                    return MenuEffect::Nothing;
                }
                if a == Action::SessionToggle {
                    if self.session_enabled {
                        return MenuEffect::LoadSessionServices;
                    }
                    self.pending = Some(a);
                    self.pam_service_buf = String::new();
                    self.input_mode = InputMode::PamServiceInput;
                    assert(self@ =~= spec_enter(v).0);
                    return MenuEffect::Nothing;
                }
                if needs_user {
                    self.pending = Some(a);
                    self.username_buf = String::new();
                    self.input_mode = InputMode::UsernameInput;
                    assert(self@ =~= spec_enter(v).0);
                    MenuEffect::Nothing
                } else {
                    self.launch(a, None, 1, None)
                }
            },
        }
    }

    fn confirm_username(&mut self) -> (e: MenuEffect)
        ensures
            (final(self)@, effect_view(e)) == spec_confirm_username(old(self)@),
    {
        let ghost v = self@;
        let cs = chars_of(self.username_buf.as_str());
        let t = trim_chars(cs.as_slice());
        if t.len() == 0 {
            return MenuEffect::Nothing;
        }
        let name = string_from_chars(t.as_slice());
        match self.pending {
            None => MenuEffect::Nothing,
            Some(a) => {
                if a == Action::Enroll {
                    self.pending_username = Some(name);
                    self.enroll_sudo = true;
                    self.enroll_session = false;
                    self.enroll_cursor = 0;
                    self.input_mode = InputMode::EnrollTargetSelect;
                    assert(self@ =~= spec_confirm_username(v).0);
                    MenuEffect::Nothing
                } else if a == Action::AddSudo || a == Action::AddSession || a == Action::AddBoth {
                    self.pending_username = Some(name);
                    self.sample_count_buf = owned("3");
                    self.input_mode = InputMode::SampleCountInput;
                    assert(self@ =~= spec_confirm_username(v).0);
                    MenuEffect::Nothing
                } else if a == Action::List {
                    self.pending = None;
                    self.username_buf = String::new();
                    self.input_mode = InputMode::Menu;
                    assert(self@ =~= spec_confirm_username(v).0);
                    MenuEffect::LoadTemplates { username: name }
                } else {
                    self.pending = None;
                    let e = self.launch(a, Some(name), 1, None);
                    self.input_mode = InputMode::Menu;
                    assert(self@ =~= spec_confirm_username(v).0);
                    e
                }
            },
        }
    }
}

} // verus!

verus! {

impl MainMenu {
    fn confirm_enroll_targets(&mut self) -> (e: MenuEffect)
        ensures
            (final(self)@, effect_view(e)) == spec_confirm_enroll_targets(old(self)@),
    {
        let ghost v = self@;
        if !self.enroll_sudo && !self.enroll_session {
            return MenuEffect::Nothing;
        }
        let a = if self.enroll_sudo && self.enroll_session {
            Action::AddBoth
        } else if self.enroll_sudo {
            Action::AddSudo
        } else {
            Action::AddSession
        };
        self.pending = Some(a);
        self.sample_count_buf = owned("3");
        self.input_mode = InputMode::SampleCountInput;
        assert(self@ =~= spec_confirm_enroll_targets(v).0);
        MenuEffect::Nothing
    }

    fn confirm_sample_count(&mut self) -> (e: MenuEffect)
        ensures
            (final(self)@, effect_view(e)) == spec_confirm_sample_count(old(self)@),
    {
        let ghost v = self@;
        let samples = match sample_count(self.sample_count_buf.as_str()) {
            None => return MenuEffect::Nothing,
            Some(n) => n,
        };
        let pending = self.pending;
        self.pending = None;
        let mut taken: Option<String> = None;
        std::mem::swap(&mut taken, &mut self.pending_username);
        match (pending, taken) {
            (Some(a), Some(u)) => {
                let e = self.launch(a, Some(u), samples, None);
                self.input_mode = InputMode::Menu;
                assert(self@ =~= spec_confirm_sample_count(v).0);
                e
            },
            _ => {
                assert(self@ =~= spec_confirm_sample_count(v).0);
                MenuEffect::Nothing
            },
        }
    }

    fn confirm_pam_service(&mut self) -> (e: MenuEffect)
        ensures
            (final(self)@, effect_view(e)) == spec_confirm_pam_service(old(self)@),
    {
        let ghost v = self@;
        let cs = chars_of(self.pam_service_buf.as_str());
        let t = trim_chars(cs.as_slice());
        match self.pending {
            None => MenuEffect::Nothing,
            Some(a) => {
                self.pending = None;
                let service = if t.len() == 0 {
                    None
                } else {
                    Some(string_from_chars(t.as_slice()))
                };
                let e = self.launch(a, None, 1, service);
                self.input_mode = InputMode::Menu;
                assert(self@ =~= spec_confirm_pam_service(v).0);
                e
            },
        }
    }

    fn toggle_session_entry(&mut self)
        ensures
            final(self)@ == spec_toggle_session_entry(old(self)@),
    {
        let ghost v = self@;
        if self.session_cursor < self.session_entries.len() {
            let i = self.session_cursor;
            let mut e = self.session_entries.remove(i);
            e.keep = !e.keep;
            self.session_entries.insert(i, e);
            assert(session_entries_view(self.session_entries@) =~= spec_toggle_session_entry(
                v,
            ).session_entries);
        }
        assert(self@ =~= spec_toggle_session_entry(v));
    }

    fn confirm_session_services(&mut self) -> (e: MenuEffect)
        ensures
            (final(self)@, effect_view(e)) == spec_confirm_session_services(old(self)@),
    {
        let ghost v = self@;
        self.input_mode = InputMode::Menu;
        let mut all: Vec<SessionEntry> = Vec::new();
        std::mem::swap(&mut all, &mut self.session_entries);
        let ghost src = all@;
        let ghost keep_off = |e: SessionEntryView| !e.keep;
        let mut off: Vec<SessionEntry> = Vec::new();
        let ghost mut i: int = 0;
        while all.len() > 0
            invariant
                0 <= i <= src.len(),
                all@ == src.skip(i),
                session_entries_view(off@) == session_entries_view(src.take(i)).filter(keep_off),
                keep_off == (|e: SessionEntryView| !e.keep),
            decreases all@.len(),
        {
            let e = all.remove(0);
            proof {
                assert(src[i] == e);
                assert(src.skip(i + 1) =~= src.skip(i).drop_first());
                let w = session_entries_view(src.take(i));
                let w1 = session_entries_view(src.take(i + 1));
                assert(w1 =~= w.push(session_entry_view(e)));
                reveal_with_fuel(Seq::filter, 1);
                assert(w1.drop_last() =~= w);
            }
            if !e.keep {
                off.push(e);
                proof {
                    assert(session_entries_view(off@) =~= session_entries_view(off@.drop_last()).push(
                        session_entry_view(off@.last()),
                    ));
                }
            }
            proof {
                i = i + 1;
            }
        }
        proof {
            assert(src.take(i) =~= src);
        }
        self.panel = Panel::Running;
        assert(self@ =~= spec_confirm_session_services(v).0);
        MenuEffect::DisableServices { entries: off }
    }

    fn toggle_template_mark(&mut self)
        ensures
            final(self)@ == spec_toggle_template_mark(old(self)@),
    {
        let ghost v = self@;
        if self.template_cursor < self.template_entries.len() {
            let i = self.template_cursor;
            let mut e = self.template_entries.remove(i);
            e.marked = !e.marked;
            self.template_entries.insert(i, e);
            assert(template_entries_view(self.template_entries@) =~= spec_toggle_template_mark(
                v,
            ).template_entries);
        }
        assert(self@ =~= spec_toggle_template_mark(v));
    }

    fn confirm_template_delete(&mut self) -> (e: MenuEffect)
        ensures
            (final(self)@, effect_view(e)) == spec_confirm_template_delete(old(self)@),
    {
        let ghost v = self@;
        self.input_mode = InputMode::Menu;
        let mut all: Vec<TemplateEntry> = Vec::new();
        std::mem::swap(&mut all, &mut self.template_entries);
        let ghost src = all@;
        let mut ids: Vec<u32> = Vec::new();
        let mut i: usize = 0;
        while i < all.len()
            invariant
                i <= src.len(),
                all@ == src,
                ids@ == marked_ids(template_entries_view(src.take(i as int))),
            decreases src.len() - i,
        {
            proof {
                let w = template_entries_view(src.take(i as int));
                let w1 = template_entries_view(src.take(i + 1));
                assert(w1 =~= w.push(template_entry_view(src[i as int])));
                reveal_with_fuel(Seq::filter, 1);
                assert(w1.drop_last() =~= w);
                let f = w.filter(|e: TemplateEntryView| e.marked);
                assert(f.push(template_entry_view(src[i as int])).map_values(
                    |e: TemplateEntryView| e.id,
                ) =~= f.map_values(|e: TemplateEntryView| e.id).push(src[i as int].id));
            }
            if all[i].marked {
                ids.push(all[i].id);
            }
            i += 1;
        }
        proof {
            assert(src.take(i as int) =~= src);
        }
        if ids.len() == 0 {
            let mut lines: Vec<String> = Vec::new();
            lines.push(owned("No templates deleted."));
            self.panel = Panel::Done { lines, scroll: 0, had_error: false };
            self.template_username = String::new();
            assert(lines_view(lines@) =~= seq!["No templates deleted."@]);
            assert(self@ =~= spec_confirm_template_delete(v).0);
            return MenuEffect::Nothing;
        }
        let sorted = sort_ids_desc(ids);
        let mut username = String::new();
        std::mem::swap(&mut username, &mut self.template_username);
        self.panel = Panel::Running;
        assert(self@ =~= spec_confirm_template_delete(v).0);
        MenuEffect::RemoveTemplates { username, ids: sorted }
    }

    fn scroll_output(&mut self, delta: i32)
        ensures
            final(self)@ == spec_scroll(old(self)@, delta as int),
    {
        let ghost v = self@;
        let mut panel = Panel::Idle;
        std::mem::swap(&mut panel, &mut self.panel);
        match panel {
            Panel::Done { lines, scroll, had_error } => {
                let s = if delta < 0 {
                    let d = (0 - (delta as i64)) as usize;
                    if scroll < d {
                        0
                    } else {
                        scroll - d
                    }
                } else {
                    let d = delta as usize;
                    if scroll > usize::MAX - d {
                        usize::MAX
                    } else {
                        scroll + d
                    }
                };
                self.panel = Panel::Done { lines, scroll: s, had_error };
            },
            other => {
                self.panel = other;
            },
        }
        assert(self@ =~= spec_scroll(v, delta as int));
    }
}

} // verus!

verus! {

/// The key is an up key.
fn up_key(key: Key) -> (r: bool)
    ensures
        r == is_up(key),
{
    match key {
        Key::Up => true,
        Key::Char(c) => c == 'k',
        _ => false,
    }
}

/// The key is a down key.
fn down_key(key: Key) -> (r: bool)
    ensures
        r == is_down(key),
{
    match key {
        Key::Down => true,
        Key::Char(c) => c == 'j',
        _ => false,
    }
}

/// What changes in the menu when only the dialog fields change.
pub open spec fn same_frame(a: MenuView, b: MenuView) -> bool {
    &&& a.items == b.items
    &&& a.selected == b.selected
    &&& a.sudo_enabled == b.sudo_enabled
    &&& a.session_enabled == b.session_enabled
    &&& a.watch_active == b.watch_active
}

impl MainMenu {
    #[verifier::spinoff_prover]
    fn key_text(&mut self, key: Key) -> (e: MenuEffect)
        requires
            old(self).input_mode == InputMode::UsernameInput || old(self).input_mode
                == InputMode::SampleCountInput || old(self).input_mode
                == InputMode::PamServiceInput,
        ensures
            same_frame(old(self)@, final(self)@),
            (final(self)@, effect_view(e)) == spec_handle_key(old(self)@, key),
    {
        let ghost v = self@;
        let mode = self.input_mode;
        match key {
            Key::Enter => if mode == InputMode::UsernameInput {
                self.confirm_username()
            } else if mode == InputMode::SampleCountInput {
                self.confirm_sample_count()
            } else {
                self.confirm_pam_service()
            },
            Key::Esc => {
                self.cancel_input();
                MenuEffect::Nothing
            },
            Key::Backspace => {
                if mode == InputMode::UsernameInput {
                    self.username_buf = pop_last(&self.username_buf);
                } else if mode == InputMode::SampleCountInput {
                    self.sample_count_buf = pop_last(&self.sample_count_buf);
                } else {
                    self.pam_service_buf = pop_last(&self.pam_service_buf);
                }
                assert(self@ =~= spec_handle_key(v, key).0);
                MenuEffect::Nothing
            },
            Key::Char(c) => {
                if mode == InputMode::UsernameInput {
                    string_push(&mut self.username_buf, c);
                } else if mode == InputMode::SampleCountInput {
                    if '0' <= c && c <= '9' {
                        string_push(&mut self.sample_count_buf, c);
                    }
                } else {
                    string_push(&mut self.pam_service_buf, c);
                }
                assert(self@ =~= spec_handle_key(v, key).0);
                MenuEffect::Nothing
            },
            _ => MenuEffect::Nothing,
        }
    }

    #[verifier::spinoff_prover]
    fn key_select(&mut self, key: Key) -> (e: MenuEffect)
        requires
            old(self).input_mode == InputMode::SessionServiceSelect || old(self).input_mode
                == InputMode::TemplateList || old(self).input_mode == InputMode::EnrollTargetSelect,
        ensures
            same_frame(old(self)@, final(self)@),
            (final(self)@, effect_view(e)) == spec_handle_key(old(self)@, key),
    {
        let ghost v = self@;
        let up = up_key(key);
        let down = down_key(key);
        if self.input_mode == InputMode::SessionServiceSelect {
            if up && self.session_cursor > 0 {
                self.session_cursor = self.session_cursor - 1;
                assert(self@ =~= spec_handle_key(v, key).0);
                MenuEffect::Nothing
            } else if down && self.session_cursor < self.session_entries.len()
                && self.session_entries.len() - self.session_cursor > 1 {
                self.session_cursor = self.session_cursor + 1;
                assert(self@ =~= spec_handle_key(v, key).0);
                MenuEffect::Nothing
            } else if key == Key::Char(' ') {
                self.toggle_session_entry();
                MenuEffect::Nothing
            } else if key == Key::Enter {
                self.confirm_session_services()
            } else if key == Key::Esc {
                self.cancel_input();
                MenuEffect::Nothing
            } else {
                MenuEffect::Nothing
            }
        } else if self.input_mode == InputMode::TemplateList {
            if up && self.template_cursor > 0 {
                self.template_cursor = self.template_cursor - 1;
                assert(self@ =~= spec_handle_key(v, key).0);
                MenuEffect::Nothing
            } else if down && self.template_cursor < self.template_entries.len()
                && self.template_entries.len() - self.template_cursor > 1 {
                self.template_cursor = self.template_cursor + 1;
                assert(self@ =~= spec_handle_key(v, key).0);
                MenuEffect::Nothing
            } else if key == Key::Char(' ') || key == Key::Char('d') {
                self.toggle_template_mark();
                MenuEffect::Nothing
            } else if key == Key::Enter {
                self.confirm_template_delete()
            } else if key == Key::Esc {
                self.cancel_input();
                MenuEffect::Nothing
            } else {
                MenuEffect::Nothing
            }
        } else {
            if up && self.enroll_cursor > 0 {
                self.enroll_cursor = self.enroll_cursor - 1;
                assert(self@ =~= spec_handle_key(v, key).0);
                MenuEffect::Nothing
            } else if down && self.enroll_cursor < 2 {
                self.enroll_cursor = self.enroll_cursor + 1;
                assert(self@ =~= spec_handle_key(v, key).0);
                MenuEffect::Nothing
            } else if key == Key::Char(' ') {
                let (s, t) = toggle_enroll_target(
                    self.enroll_cursor,
                    self.enroll_sudo,
                    self.enroll_session,
                );
                self.enroll_sudo = s;
                self.enroll_session = t;
                assert(self@ =~= spec_handle_key(v, key).0);
                MenuEffect::Nothing
            } else if key == Key::Enter {
                self.confirm_enroll_targets()
            } else if key == Key::Esc {
                self.cancel_input();
                MenuEffect::Nothing
            } else {
                MenuEffect::Nothing
            }
        }
    }

    #[verifier::spinoff_prover]
    fn key_menu(&mut self, key: Key) -> (e: MenuEffect)
        requires
            old(self).input_mode == InputMode::Menu,
            old(self).wf(),
        ensures
            final(self).wf(),
            (final(self)@, effect_view(e)) == spec_handle_key(old(self)@, key),
    {
        let ghost v = self@;
        let up = up_key(key);
        let down = down_key(key);
        let state = match &self.panel {
            Panel::Idle => 0u8,
            Panel::Running => 1u8,
            Panel::Done { .. } => 2u8,
        };
        if state == 2 {
            if up {
                self.scroll_output(-1);
                MenuEffect::Nothing
            } else if down {
                self.scroll_output(1);
                MenuEffect::Nothing
            } else if key == Key::PageUp {
                self.scroll_output(-10);
                MenuEffect::Nothing
            } else if key == Key::PageDown {
                self.scroll_output(10);
                MenuEffect::Nothing
            } else if key == Key::Enter || key == Key::Esc {
                MenuEffect::RefreshStatus
            } else if key == Key::Char('q') {
                self.should_quit = true;
                assert(self@ =~= spec_handle_key(v, key).0);
                MenuEffect::Nothing
            } else {
                MenuEffect::Nothing
            }
        } else if state == 1 {
            MenuEffect::Nothing
        } else if key == Key::Char('q') || key == Key::Esc {
            self.should_quit = true;
            assert(self@ =~= spec_handle_key(v, key).0);
            MenuEffect::Nothing
        } else if up || down {
            proof {
                assert forall|i: int| 0 <= i < self.items@.len() implies selectable(self.items@, i)
                    == item_selectable(v.items, i) by {
                    assert(v.items[i] == crate::menu::item_view(self.items@[i]));
                }
                assert(selectable(self.items@, self.selected as int));
            }
            let r = move_cursor(&self.items, self.selected, down);
            proof {
                assert(moved_to(v.items, v.selected, r as int, down));
                lemma_moved_unique(v.items, v.selected, r as int, down);
            }
            self.selected = r;
            assert(self@ =~= spec_handle_key(v, key).0);
            MenuEffect::Nothing
        } else if key == Key::Enter {
            self.enter_menu()
        } else {
            MenuEffect::Nothing
        }
    }

    /// Handles one key press (see [`spec_handle_key`]).
    pub fn handle_key(&mut self, key: Key) -> (e: MenuEffect)
        requires
            old(self).wf(),
        ensures
            final(self).wf(),
            (final(self)@, effect_view(e)) == spec_handle_key(old(self)@, key),
    {
        match self.input_mode {
            InputMode::Menu => self.key_menu(key),
            InputMode::UsernameInput | InputMode::SampleCountInput | InputMode::PamServiceInput => {
                self.key_text(key)
            },
            _ => self.key_select(key),
        }
    }
}

} // verus!

verus! {

/// The session services offered for disabling: all checked, cursor on the first.
pub open spec fn spec_show_session_entries(
    v: MenuView,
    entries: Seq<(Seq<char>, Seq<char>, Seq<char>)>,
) -> MenuView {
    MenuView {
        session_entries: entries.map_values(
            |e: (Seq<char>, Seq<char>, Seq<char>)|
                SessionEntryView { name: e.0, service: e.1, path: e.2, keep: true },
        ),
        session_cursor: 0,
        mode: InputMode::SessionServiceSelect,
        ..v
    }
}

/// A listed template as an entry of the deletion list.
pub open spec fn template_entry_of(t: EnrolledTemplateSummary) -> TemplateEntryView {
    TemplateEntryView {
        id: t.id,
        label: t.label@,
        created_at: t.created_at@,
        scope: storage::spec_scope_label(storage::spec_core_template_scope(t.scope)),
        marked: false,
    }
}

/// The user's templates once loaded: the deletion list, or a message when there is none
/// or loading failed (`Err` holds the error text).
pub open spec fn spec_show_templates(
    v: MenuView,
    username: Seq<char>,
    loaded: Result<Seq<EnrolledTemplateSummary>, Seq<char>>,
) -> MenuView {
    match loaded {
        Ok(ts) => if ts.len() == 0 {
            MenuView {
                panel: PanelView::Done {
                    lines: seq!["No enrolled templates for '"@ + username + "'."@],
                    scroll: 0,
                    had_error: false,
                },
                ..v
            }
        } else {
            MenuView {
                template_username: username,
                template_entries: ts.map_values(|t: EnrolledTemplateSummary| template_entry_of(t)),
                template_cursor: 0,
                mode: InputMode::TemplateList,
                ..v
            }
        },
        Err(e) => MenuView {
            panel: PanelView::Done { lines: seq!["\nError: "@ + e], scroll: 0, had_error: true },
            ..v
        },
    }
}

/// A line of output reports an error.
pub open spec fn is_error_line(l: Seq<char>) -> bool {
    crate::text::has_prefix(l, "\nError:"@) || crate::text::has_prefix(l, "Error:"@)
}

/// The background command has ended with this output.
pub open spec fn spec_finish_running(v: MenuView, lines: Seq<Seq<char>>) -> MenuView {
    match v.panel {
        PanelView::Running => MenuView {
            panel: PanelView::Done {
                lines,
                scroll: 0,
                had_error: exists|i: int| 0 <= i < lines.len() && is_error_line(#[trigger] lines[i]),
            },
            ..v
        },
        _ => v,
    }
}

/// Back from finished output to the menu, with the status flags read again: the toggle
/// entries follow them, and a cursor left on a header or beyond the end moves to the
/// first selectable entry.
pub open spec fn spec_return_to_menu(v: MenuView, sudo: bool, session: bool, watch: bool) -> MenuView {
    match v.panel {
        PanelView::Done { .. } => {
            let items = spec_build_items(sudo, session, watch);
            MenuView {
                sudo_enabled: sudo,
                session_enabled: session,
                watch_active: watch,
                items,
                selected: if v.selected >= items.len() || !item_selectable(items, v.selected) {
                    first_selectable_from(items, 0)
                } else {
                    v.selected
                },
                panel: PanelView::Idle,
                ..v
            }
        },
        _ => v,
    }
}

fn error_line(l: &String) -> (r: bool)
    ensures
        r == is_error_line(l@),
{
    let cs = chars_of(l.as_str());
    let a = chars_of("\nError:");
    let b = chars_of("Error:");
    starts_with(cs.as_slice(), a.as_slice()) || starts_with(cs.as_slice(), b.as_slice())
}

impl MainMenu {
    /// Shows the session services that have face authentication enabled (name, PAM
    /// service, file) for the user to uncheck.
    pub fn show_session_entries(&mut self, entries: Vec<(String, String, String)>)
        requires
            old(self).wf(),
        ensures
            final(self).wf(),
            final(self)@ == spec_show_session_entries(
                old(self)@,
                entries@.map_values(
                    |e: (String, String, String)| (e.0@, e.1@, e.2@),
                ),
            ),
    {
        let ghost v = self@;
        let ghost src = entries@;
        let mut out: Vec<SessionEntry> = Vec::new();
        let mut rest = entries;
        let ghost mut i: int = 0;
        while rest.len() > 0
            invariant
                0 <= i <= src.len(),
                rest@ == src.skip(i),
                session_entries_view(out@) == src.take(i).map_values(
                    |e: (String, String, String)|
                        SessionEntryView { name: e.0@, service: e.1@, path: e.2@, keep: true },
                ),
            decreases rest@.len(),
        {
            let (name, service, path) = rest.remove(0);
            proof {
                assert(src[i] == (name, service, path));
                assert(src.skip(i + 1) =~= src.skip(i).drop_first());
                assert(src.take(i + 1) =~= src.take(i).push(src[i]));
            }
            let ghost before = out@;
            out.push(SessionEntry { name, service, path, keep: true });
            proof {
                assert(session_entries_view(out@) =~= session_entries_view(before).push(
                    session_entry_view(out@.last()),
                ));
                i = i + 1;
                assert(session_entries_view(out@) =~= src.take(i).map_values(
                    |e: (String, String, String)|
                        SessionEntryView { name: e.0@, service: e.1@, path: e.2@, keep: true },
                ));
            }
        }
        assert(src.take(i) =~= src);
        self.session_entries = out;
        self.session_cursor = 0;
        self.input_mode = InputMode::SessionServiceSelect;
        assert(self@ =~= spec_show_session_entries(
            v,
            src.map_values(|e: (String, String, String)| (e.0@, e.1@, e.2@)),
        ));
    }

    /// Shows the templates loaded for `username`, or what went wrong loading them.
    pub fn show_templates(
        &mut self,
        username: String,
        loaded: Result<Vec<EnrolledTemplateSummary>, String>,
    )
        requires
            old(self).wf(),
        ensures
            final(self).wf(),
            final(self)@ == spec_show_templates(
                old(self)@,
                username@,
                match loaded {
                    Ok(ts) => Ok(ts@),
                    Err(e) => Err(e@),
                },
            ),
    {
        let ghost v = self@;
        match loaded {
            Err(e) => {
                let mut line = owned("\nError: ");
                string_push_str(&mut line, e.as_str());
                let mut lines: Vec<String> = Vec::new();
                lines.push(line);
                assert(lines_view(lines@) =~= seq!["\nError: "@ + e@]);
                self.panel = Panel::Done { lines, scroll: 0, had_error: true };
                assert(self@ =~= spec_show_templates(v, username@, Err(e@)));
            },
            Ok(ts) => {
                if ts.len() == 0 {
                    let mut line = owned("No enrolled templates for '");
                    string_push_str(&mut line, username.as_str());
                    string_push_str(&mut line, "'.");
                    let mut lines: Vec<String> = Vec::new();
                    lines.push(line);
                    assert(lines_view(lines@) =~= seq![
                        "No enrolled templates for '"@ + username@ + "'."@,
                    ]);
                    self.panel = Panel::Done { lines, scroll: 0, had_error: false };
                    assert(self@ =~= spec_show_templates(v, username@, Ok(ts@)));
                    return;
                }
                let ghost src = ts@;
                let mut entries: Vec<TemplateEntry> = Vec::new();
                let mut i: usize = 0;
                while i < ts.len()
                    invariant
                        i <= src.len(),
                        ts@ == src,
                        template_entries_view(entries@) == src.take(i as int).map_values(
                            |t: EnrolledTemplateSummary| template_entry_of(t),
                        ),
                    decreases src.len() - i,
                {
                    let t = &ts[i];
                    let scope = match t.scope {
                        crate::ipc::TemplateScope::Sudo => storage::TemplateScope::Sudo,
                        crate::ipc::TemplateScope::Session => storage::TemplateScope::Session,
                        crate::ipc::TemplateScope::Both => storage::TemplateScope::Both,
                    };
                    let ghost before = entries@;
                    entries.push(
                        TemplateEntry {
                            id: t.id,
                            label: t.label.clone(),
                            created_at: t.created_at.clone(),
                            scope: owned(scope.label()),
                            marked: false,
                        },
                    );
                    proof {
                        assert(template_entries_view(entries@) =~= template_entries_view(before).push(
                            template_entry_view(entries@.last()),
                        ));
                        assert(template_entry_view(entries@.last()) =~= template_entry_of(src[i as int]));
                        assert(src.take(i + 1) =~= src.take(i as int).push(src[i as int]));
                        assert(template_entries_view(entries@) =~= src.take(i + 1).map_values(
                            |t: EnrolledTemplateSummary| template_entry_of(t),
                        ));
                    }
                    i += 1;
                }
                assert(src.take(i as int) =~= src);
                self.template_username = username;
                self.template_entries = entries;
                self.template_cursor = 0;
                self.input_mode = InputMode::TemplateList;
                assert(self@ =~= spec_show_templates(v, self.template_username@, Ok(src)));
            },
        }
    }

    /// The background command has ended: its output is shown, flagged when a line
    /// reports an error.
    pub fn finish_running(&mut self, lines: Vec<String>)
        requires
            old(self).wf(),
        ensures
            final(self).wf(),
            final(self)@ == spec_finish_running(old(self)@, lines_view(lines@)),
    {
        let ghost v = self@;
        let running = match &self.panel {
            Panel::Running => true,
            _ => false,
        };
        if !running {
            return;
        }
        let mut had_error = false;
        let mut i: usize = 0;
        while i < lines.len()
            invariant
                i <= lines@.len(),
                had_error == exists|j: int| 0 <= j < i && is_error_line(#[trigger] lines_view(lines@)[j]),
            decreases lines@.len() - i,
        {
            if error_line(&lines[i]) {
                had_error = true;
            }
            assert(lines_view(lines@)[i as int] == lines@[i as int]@);
            i += 1;
        }
        self.panel = Panel::Done { lines, scroll: 0, had_error };
        assert(self@ =~= spec_finish_running(v, lines_view(lines@)));
    }

    /// Back to the menu after finished output (see [`spec_return_to_menu`]); the flags are
    /// the sudo, session and watch status read again.
    #[verifier::spinoff_prover]
    #[verifier::rlimit(40)]
    pub fn return_to_menu(&mut self, sudo_enabled: bool, session_enabled: bool, watch_active: bool)
        requires
            old(self).wf(),
        ensures
            final(self).wf(),
            final(self)@ == spec_return_to_menu(
                old(self)@,
                sudo_enabled,
                session_enabled,
                watch_active,
            ),
    {
        let ghost v = self@;
        let done = match &self.panel {
            Panel::Done { .. } => true,
            _ => false,
        };
        if !done {
            return;
        }
        self.sudo_enabled = sudo_enabled;
        self.session_enabled = session_enabled;
        self.watch_active = watch_active;
        self.items = build_items(sudo_enabled, session_enabled, watch_active);
        let ghost items = spec_build_items(sudo_enabled, session_enabled, watch_active);
        proof {
            assert forall|i: int| 0 <= i < self.items@.len() implies selectable(self.items@, i)
                == item_selectable(items, i) by {
                assert(items_view(self.items@)[i] == crate::menu::item_view(self.items@[i]));
            }
            assert(items_view(self.items@)[1] == crate::menu::item_view(self.items@[1]));
            assert(selectable(self.items@, 1));
        }
        if self.selected >= self.items.len() || self.items[self.selected].kind == ItemKind::Section {
            let f = first_selectable(&self.items);
            proof {
                lemma_first_selectable(items, f as int, 0);
            }
            self.selected = f;
        }
        self.panel = Panel::Idle;
        assert(self@ =~= spec_return_to_menu(v, sudo_enabled, session_enabled, watch_active));
    }
}

} // verus!

verus! {

// ── Laws ─────────────────────────────────────────────────────────────────────

/// While a command runs in the background, keys are ignored: the menu neither changes
/// nor starts anything, so the command cannot be left behind half done.
pub proof fn law_running_command_ignores_keys(v: MenuView, key: Key)
    requires
        v.mode == InputMode::Menu,
        v.panel == PanelView::Running,
    ensures
        spec_handle_key(v, key) == (v, EffectView::Nothing),
{
}

/// An enrollment is only ever started with between 1 and 10 samples.
pub proof fn law_enrollment_takes_one_to_ten_samples(v: MenuView, key: Key)
    requires
        menu_wf(v),
    ensures
        spec_handle_key(v, key).1 matches EffectView::Launch { action, samples, .. } ==> ((action
            == Action::AddSudo || action == Action::AddSession || action == Action::AddBoth) ==> 1
            <= samples <= 10),
{
    crate::menu::lemma_build_items_shape(v.sudo_enabled, v.session_enabled, v.watch_active);
}

/// Escape leaves any dialog for the menu and forgets everything the dialog held.
pub proof fn law_escape_resets_dialogs(v: MenuView)
    requires
        v.mode != InputMode::Menu,
    ensures
        spec_handle_key(v, Key::Esc) == (spec_cancel(v), EffectView::Nothing),
        spec_cancel(v).mode == InputMode::Menu,
        spec_cancel(v).pending is None,
        spec_cancel(v).pending_username is None,
{
}

} // verus!
