//! The entries of the interactive main menu and how the selection moves over them,
//! with the small decisions the menu makes on its inputs (enrollment targets, sample
//! counts). Drawing, keyboard input and running the chosen command are done by the
//! binary.
use vstd::prelude::*;

use crate::text::{chars_of, owned, parse_u32_chars, parse_unsigned, trim, trim_chars};

verus! {

/// What a menu entry runs.
#[derive(Debug, Clone, Copy, PartialEq, Eq, Structural)]
pub enum Action {
    Configure,
    Doctor,
    SudoToggle,
    SessionToggle,
    WatchToggle,
    CameraTest,
    Cameras,
    Enroll,
    AddSudo,
    AddSession,
    AddBoth,
    List,
    Test,
}

/// A selectable action, the quit entry, or a group header that cannot be selected.
#[derive(Debug, Clone, Copy, PartialEq, Eq, Structural)]
pub enum ItemKind {
    Action,
    Quit,
    Section,
}

/// A menu entry.
pub struct MenuItem {
    pub icon: &'static str,
    pub label: &'static str,
    pub description: String,
    pub action: Option<Action>,
    pub needs_user: bool,
    pub kind: ItemKind,
}

/// A menu entry as seen: icon, label, description, action, whether it asks for a user
/// name, and its kind.
pub type ItemView = (Seq<char>, Seq<char>, Seq<char>, Option<Action>, bool, ItemKind);

pub open spec fn item_view(i: MenuItem) -> ItemView {
    (i.icon@, i.label@, i.description@, i.action, i.needs_user, i.kind)
}

pub open spec fn items_view(items: Seq<MenuItem>) -> Seq<ItemView> {
    items.map_values(|i: MenuItem| item_view(i))
}

/// A group header.
pub open spec fn section_view(title: Seq<char>) -> ItemView {
    (""@, title, Seq::<char>::empty(), None, false, ItemKind::Section)
}

/// A group header entry.
pub fn section(title: &'static str) -> (i: MenuItem)
    ensures
        item_view(i) == section_view(title@),
{
    MenuItem {
        icon: "",
        label: title,
        description: String::new(),
        action: None,
        needs_user: false,
        kind: ItemKind::Section,
    }
}

/// The menu for the current state of sudo and session authentication and of the watch
/// daemon: the toggles name the change they would make.
pub open spec fn spec_build_items(sudo_enabled: bool, session_enabled: bool, watch_active: bool) -> Seq<ItemView> {
    Seq::empty()
        .push(section_view("Authentication"@))
        .push(("+ "@, "Enroll"@, "Register a user's face for authentication"@, Some(Action::Enroll), true, ItemKind::Action))
        .push(("⊞ "@, (if sudo_enabled { "Disable Sudo Auth"@ } else { "Enable Sudo Auth"@ }), (if sudo_enabled { "Remove face auth from sudo/su    (root)"@ } else { "Add face scan before sudo prompt  (root)"@ }), Some(Action::SudoToggle), false, ItemKind::Action))
        .push(("▣ "@, (if session_enabled { "Disable Session Auth"@ } else { "Enable Session Auth"@ }), (if session_enabled { "Remove face auth from login & screen unlock"@ } else { "Add face auth at login & screen unlock"@ }), Some(Action::SessionToggle), false, ItemKind::Action))
        .push(("◎ "@, (if watch_active { "Stop Watch Daemon"@ } else { "Start Watch Daemon"@ }), (if watch_active { "● Running — auto-unlock screen lock on face match"@ } else { "○ Stopped — enable auto-unlock (Windows Hello style)"@ }), Some(Action::WatchToggle), false, ItemKind::Action))
        .push(section_view("Templates"@))
        .push(("= "@, "Templates"@, "Browse & delete enrolled face templates"@, Some(Action::List), true, ItemKind::Action))
        .push(("~ "@, "Test Recognition"@, "Live match test for a user         (root)"@, Some(Action::Test), true, ItemKind::Action))
        .push(section_view("Hardware"@))
        .push(("▤ "@, "List Cameras"@, "Detect /dev/video* devices and recommend an IR cam"@, Some(Action::Cameras), false, ItemKind::Action))
        .push(("◉ "@, "Camera Test"@, "Live capture + face detection on the configured camera"@, Some(Action::CameraTest), false, ItemKind::Action))
        .push(section_view("System"@))
        .push(("✓ "@, "Doctor"@, "Verify libs, PAM config & model files"@, Some(Action::Doctor), false, ItemKind::Action))
        .push(("⚙ "@, "Configure"@, "Edit thresholds, camera & model settings"@, Some(Action::Configure), false, ItemKind::Action))
        .push(section_view("Exit"@))
        .push(("x "@, "Quit"@, "Exit Facegate"@, None, false, ItemKind::Quit))
}

/// The menu has sixteen entries, and none of them enrolls directly.
pub proof fn lemma_build_items_shape(sudo_enabled: bool, session_enabled: bool, watch_active: bool)
    ensures
        spec_build_items(sudo_enabled, session_enabled, watch_active).len() == 16,
        forall|i: int|
            0 <= i < 16 ==> {
                let a = #[trigger] spec_build_items(sudo_enabled, session_enabled, watch_active)[i].3;
                a != Some(Action::AddSudo) && a != Some(Action::AddSession) && a != Some(
                    Action::AddBoth,
                )
            },
{
    let items = spec_build_items(sudo_enabled, session_enabled, watch_active);
    assert(items.len() == 16);
}

/// The main menu entries.
pub fn build_items(sudo_enabled: bool, session_enabled: bool, watch_active: bool) -> (r: Vec<MenuItem>)
    ensures
        items_view(r@) == spec_build_items(sudo_enabled, session_enabled, watch_active),
{
    let sudo_label: &'static str = if sudo_enabled {
        "Disable Sudo Auth"
    } else {
        "Enable Sudo Auth"
    };
    let session_label: &'static str = if session_enabled {
        "Disable Session Auth"
    } else {
        "Enable Session Auth"
    };
    let sudo_desc = if sudo_enabled {
        "Remove face auth from sudo/su    (root)"
    } else {
        "Add face scan before sudo prompt  (root)"
    };
    let session_desc = if session_enabled {
        "Remove face auth from login & screen unlock"
    } else {
        "Add face auth at login & screen unlock"
    };
    let watch_label: &'static str = if watch_active {
        "Stop Watch Daemon"
    } else {
        "Start Watch Daemon"
    };
    let watch_desc = if watch_active {
        "● Running — auto-unlock screen lock on face match"
    } else {
        "○ Stopped — enable auto-unlock (Windows Hello style)"
    };
    let mut v: Vec<MenuItem> = Vec::new();
    v.push(section("Authentication"));
    v.push(MenuItem { icon: "+ ", label: "Enroll", description: owned("Register a user's face for authentication"), action: Some(Action::Enroll), needs_user: true, kind: ItemKind::Action });
    v.push(MenuItem { icon: "⊞ ", label: sudo_label, description: owned(sudo_desc), action: Some(Action::SudoToggle), needs_user: false, kind: ItemKind::Action });
    v.push(MenuItem { icon: "▣ ", label: session_label, description: owned(session_desc), action: Some(Action::SessionToggle), needs_user: false, kind: ItemKind::Action });
    v.push(MenuItem { icon: "◎ ", label: watch_label, description: owned(watch_desc), action: Some(Action::WatchToggle), needs_user: false, kind: ItemKind::Action });
    v.push(section("Templates"));
    v.push(MenuItem { icon: "= ", label: "Templates", description: owned("Browse & delete enrolled face templates"), action: Some(Action::List), needs_user: true, kind: ItemKind::Action });
    v.push(MenuItem { icon: "~ ", label: "Test Recognition", description: owned("Live match test for a user         (root)"), action: Some(Action::Test), needs_user: true, kind: ItemKind::Action });
    v.push(section("Hardware"));
    v.push(MenuItem { icon: "▤ ", label: "List Cameras", description: owned("Detect /dev/video* devices and recommend an IR cam"), action: Some(Action::Cameras), needs_user: false, kind: ItemKind::Action });
    v.push(MenuItem { icon: "◉ ", label: "Camera Test", description: owned("Live capture + face detection on the configured camera"), action: Some(Action::CameraTest), needs_user: false, kind: ItemKind::Action });
    v.push(section("System"));
    v.push(MenuItem { icon: "✓ ", label: "Doctor", description: owned("Verify libs, PAM config & model files"), action: Some(Action::Doctor), needs_user: false, kind: ItemKind::Action });
    v.push(MenuItem { icon: "⚙ ", label: "Configure", description: owned("Edit thresholds, camera & model settings"), action: Some(Action::Configure), needs_user: false, kind: ItemKind::Action });
    v.push(section("Exit"));
    v.push(MenuItem { icon: "x ", label: "Quit", description: owned("Exit Facegate"), action: None, needs_user: false, kind: ItemKind::Quit });
    assert(items_view(v@) =~= spec_build_items(sudo_enabled, session_enabled, watch_active));
    v
}

/// The entry can be selected.
pub open spec fn selectable(items: Seq<MenuItem>, i: int) -> bool {
    items[i].kind != ItemKind::Section
}

/// Some entry can be selected.
pub open spec fn has_selectable(items: Seq<MenuItem>) -> bool {
    exists|i: int| 0 <= i < items.len() && selectable(items, i)
}

/// Where the cursor starts: on the first selectable entry (or the top when none is).
pub fn first_selectable(items: &Vec<MenuItem>) -> (r: usize)
    ensures
        has_selectable(items@) ==> r < items@.len() && selectable(items@, r as int) && forall|j: int|
            0 <= j < r ==> !selectable(items@, j),
        !has_selectable(items@) ==> r == 0,
{
    let mut i: usize = 0;
    while i < items.len()
        invariant
            i <= items@.len(),
            forall|j: int| 0 <= j < i ==> !selectable(items@, j),
        decreases items@.len() - i,
    {
        if items[i].kind != ItemKind::Section {
            assert(selectable(items@, i as int));
            return i;
        }
        i += 1;
    }
    0
}

proof fn lemma_mod_one_is_zero(x: int)
    ensures
        x % 1 == 0,
{
    vstd::arithmetic::div_mod::lemma_fundamental_div_mod(x, 1);
}

/// One step around a cycle of `len` entries, forward or backward, from `a`'s place.
proof fn lemma_cyclic_step(a: int, len: int, forward: bool)
    requires
        len > 0,
    ensures
        forward ==> (a + 1) % len == (if a % len + 1 == len {
            0
        } else {
            a % len + 1
        }),
        !forward ==> (a - 1) % len == (if a % len == 0 {
            len - 1
        } else {
            a % len - 1
        }),
{
    let c = a % len;
    vstd::arithmetic::div_mod::lemma_fundamental_div_mod(a, len);
    vstd::arithmetic::div_mod::lemma_mod_bound(a, len);
    if len == 1 {
        lemma_mod_one_is_zero(a + 1);
        lemma_mod_one_is_zero(a - 1);
        lemma_mod_one_is_zero(a);
    } else {
        vstd::arithmetic::div_mod::lemma_small_mod(1, len as nat);
        vstd::arithmetic::div_mod::lemma_add_mod_noop(a, 1, len);
        vstd::arithmetic::div_mod::lemma_sub_mod_noop(a, 1, len);
        if c + 1 < len {
            vstd::arithmetic::div_mod::lemma_small_mod((c + 1) as nat, len as nat);
        } else {
            vstd::arithmetic::div_mod::lemma_mod_self_0(len);
        }
        if c >= 1 {
            vstd::arithmetic::div_mod::lemma_small_mod((c - 1) as nat, len as nat);
        } else {
            vstd::arithmetic::div_mod::lemma_mod_multiples_vanish(-1, len - 1, len);
            vstd::arithmetic::div_mod::lemma_small_mod((len - 1) as nat, len as nat);
            assert(len * -1 + (len - 1) == -1);
        }
    }
}

/// The index `d` steps after `from` (forward) or before it (backward), around the menu.
pub open spec fn cyclic(len: int, from: int, d: int, forward: bool) -> int {
    if forward {
        (from + d) % len
    } else {
        (from - d) % len
    }
}

/// Moves the cursor to the next selectable entry in the given direction, wrapping
/// around and skipping group headers: the entry reached is selectable, and every entry
/// passed over on the way is a header.
pub fn move_cursor(items: &Vec<MenuItem>, selected: usize, forward: bool) -> (r: usize)
    requires
        selected < items@.len(),
        has_selectable(items@),
    ensures
        r < items@.len(),
        selectable(items@, r as int),
        exists|d: int|
            1 <= d <= items@.len() && r == cyclic(items@.len() as int, selected as int, d, forward)
                && forall|e: int|
                1 <= e < d ==> !selectable(
                    items@,
                    #[trigger] cyclic(items@.len() as int, selected as int, e, forward),
                ),
{
    let n = items.len();
    let ghost len = n as int;
    let mut cur = selected;
    let mut steps: usize = 0;
    proof {
        vstd::arithmetic::div_mod::lemma_small_mod(selected as nat, len as nat);
    }
    loop
        invariant
            n == items@.len(),
            len == n,
            has_selectable(items@),
            cur < n,
            selected < n,
            steps <= n,
            cur as int == cyclic(len, selected as int, steps as int, forward),
            forall|e: int| 1 <= e <= steps ==> !selectable(items@, #[trigger] cyclic(len, selected as int, e, forward)),
        decreases n - steps,
    {
        proof {
            if steps == n {
                let w = choose|w: int| 0 <= w < items@.len() && selectable(items@, w);
                let e = if forward {
                    if w > selected { w - selected } else { w - selected + len }
                } else {
                    if w < selected { selected - w } else { selected - w + len }
                };
                assert(1 <= e <= len);
                if forward {
                    if w > selected {
                        vstd::arithmetic::div_mod::lemma_small_mod(w as nat, len as nat);
                    } else {
                        vstd::arithmetic::div_mod::lemma_mod_multiples_vanish(1, w, len);
                        vstd::arithmetic::div_mod::lemma_small_mod(w as nat, len as nat);
                    }
                } else {
                    if w < selected {
                        vstd::arithmetic::div_mod::lemma_small_mod(w as nat, len as nat);
                    } else {
                        vstd::arithmetic::div_mod::lemma_mod_multiples_vanish(-1, w, len);
                        vstd::arithmetic::div_mod::lemma_small_mod(w as nat, len as nat);
                    }
                }
                assert(cyclic(len, selected as int, e, forward) == w);
                assert(false);
            }
        }
        cur = if forward {
            if cur + 1 == n {
                0
            } else {
                cur + 1
            }
        } else {
            if cur == 0 {
                n - 1
            } else {
                cur - 1
            }
        };
        steps = steps + 1;
        proof {
            if forward {
                lemma_cyclic_step(selected + steps - 1, len, true);
            } else {
                lemma_cyclic_step(selected - (steps - 1), len, false);
            }
        }
        if items[cur].kind != ItemKind::Section {
            assert(selectable(items@, cur as int));
            assert(forall|e: int| 1 <= e < steps ==> !selectable(items@, #[trigger] cyclic(len, selected as int, e, forward)));
            assert(1 <= steps <= len && cur == cyclic(len, selected as int, steps as int, forward));
            return cur;
        }
    }
}

/// The enrollment targets after toggling the entry under the cursor: sudo, session, or
/// both together (all on unless both were on).
pub open spec fn spec_toggle_enroll_target(cursor: usize, sudo: bool, session: bool) -> (bool, bool) {
    if cursor == 0 {
        (!sudo, session)
    } else if cursor == 1 {
        (sudo, !session)
    } else if cursor == 2 {
        (!(sudo && session), !(sudo && session))
    } else {
        (sudo, session)
    }
}

/// Toggles the enrollment target under the cursor.
pub fn toggle_enroll_target(cursor: usize, sudo: bool, session: bool) -> (r: (bool, bool))
    ensures
        r == spec_toggle_enroll_target(cursor, sudo, session),
{
    if cursor == 0 {
        (!sudo, session)
    } else if cursor == 1 {
        (sudo, !session)
    } else if cursor == 2 {
        let all = sudo && session;
        (!all, !all)
    } else {
        (sudo, session)
    }
}

/// The enrollment a choice of targets starts, if any target is chosen.
pub fn enroll_action(sudo: bool, session: bool) -> (r: Option<Action>)
    ensures
        r == (if sudo && session {
            Some(Action::AddBoth)
        } else if sudo {
            Some(Action::AddSudo)
        } else if session {
            Some(Action::AddSession)
        } else {
            None
        }),
{
    if sudo && session {
        Some(Action::AddBoth)
    } else if sudo {
        Some(Action::AddSudo)
    } else if session {
        Some(Action::AddSession)
    } else {
        None
    }
}

/// The number of samples an enrollment takes: 3 when the text is blank, else a number
/// from 1 to 10; any other text is refused.
pub open spec fn spec_sample_count(text: Seq<char>) -> Option<u32> {
    let t = trim(text);
    if t.len() == 0 {
        Some(3)
    } else {
        match parse_unsigned(t, u32::MAX as int) {
            Some(n) => if 1 <= n <= 10 {
                Some(n as u32)
            } else {
                None
            },
            None => None,
        }
    }
}

/// Reads the number of enrollment samples typed by the user.
pub fn sample_count(text: &str) -> (r: Option<u32>)
    ensures
        r == spec_sample_count(text@),
{
    let cs = chars_of(text);
    let t = trim_chars(cs.as_slice());
    if t.len() == 0 {
        return Some(3);
    }
    match parse_u32_chars(t.as_slice()) {
        Some(n) => if 1 <= n && n <= 10 {
            Some(n)
        } else {
            None
        },
        None => None,
    }
}

} // verus!
