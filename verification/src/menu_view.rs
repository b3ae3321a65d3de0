//! What the interactive menu shows: the text of every region (header, menu, panel,
//! footer, dialogs) and the tone each piece is drawn in. The binary lays the regions out
//! on the terminal and maps tones to colours.
use vstd::prelude::*;

use crate::menu::{ItemKind, MenuItem};
use crate::menu_app::{InputMode, MainMenu, Panel, SessionEntry, TemplateEntry};
use crate::text::{decimal, has_prefix, owned, push_decimal, repeat, string_push, string_push_str};
use crate::users::pad_right;

verus! {

/// How a piece of text is drawn.
#[derive(Debug, Clone, Copy, PartialEq, Eq, Structural)]
pub enum Tone {
    /// The surrounding style.
    Plain,
    /// Cyan.
    Accent,
    /// Cyan, bold.
    AccentBold,
    /// Dark grey.
    Muted,
    /// Dark grey, bold.
    MutedBold,
    /// White.
    White,
    /// White, bold.
    WhiteBold,
    /// Red.
    Red,
    /// Red, bold.
    RedBold,
    /// Green.
    Green,
    /// Yellow.
    Yellow,
    /// Yellow, bold.
    YellowBold,
    /// Black on cyan: the selected menu entry.
    Selected,
    /// Black on cyan, bold.
    SelectedBold,
}

/// A piece of text and its tone.
pub struct Piece {
    pub text: String,
    pub tone: Tone,
}

/// A piece as seen.
pub open spec fn piece_view(p: Piece) -> (Seq<char>, Tone) {
    (p.text@, p.tone)
}

/// A line of pieces as seen.
pub open spec fn pieces_view(v: Seq<Piece>) -> Seq<(Seq<char>, Tone)> {
    v.map_values(|p: Piece| piece_view(p))
}

fn piece(t: &str, tone: Tone) -> (p: Piece)
    ensures
        piece_view(p) == (t@, tone),
{
    Piece { text: owned(t), tone }
}

fn push_piece(v: &mut Vec<Piece>, p: Piece)
    ensures
        pieces_view(final(v)@) == pieces_view(old(v)@).push(piece_view(p)),
{
    v.push(p);
    assert(pieces_view(v@) =~= pieces_view(old(v)@).push(piece_view(p)));
}

// ── Header and footer ────────────────────────────────────────────────────────

/// The header: the logo in bold cyan, then the tagline in grey.
pub open spec fn spec_header() -> Seq<(Seq<char>, Tone)> {
    seq![
        (" ███████╗ █████╗  ██████╗███████╗ ██████╗  █████╗ ████████╗███████╗"@, Tone::AccentBold),
        (" ██╔════╝██╔══██╗██╔════╝██╔════╝██╔════╝ ██╔══██╗╚══██╔══╝██╔════╝"@, Tone::AccentBold),
        (" █████╗  ███████║██║     █████╗  ██║  ███╗███████║   ██║   █████╗  "@, Tone::AccentBold),
        (" ██╔══╝  ██╔══██║██║     ██╔══╝  ██║   ██║██╔══██║   ██║   ██╔══╝  "@, Tone::AccentBold),
        (" ██║     ██║  ██║╚██████╗███████╗╚██████╔╝██║  ██║   ██║   ███████╗"@, Tone::AccentBold),
        (" ╚═╝     ╚═╝  ╚═╝ ╚═════╝╚══════╝ ╚═════╝ ╚═╝  ╚═╝   ╚═╝   ╚══════╝"@, Tone::AccentBold),
        ("  native facial authentication for Linux"@, Tone::Muted),
    ]
}

pub fn header() -> (r: Vec<Piece>)
    ensures
        pieces_view(r@) == spec_header(),
{
    let mut r: Vec<Piece> = Vec::new();
    push_piece(&mut r, piece(" ███████╗ █████╗  ██████╗███████╗ ██████╗  █████╗ ████████╗███████╗", Tone::AccentBold));
    push_piece(&mut r, piece(" ██╔════╝██╔══██╗██╔════╝██╔════╝██╔════╝ ██╔══██╗╚══██╔══╝██╔════╝", Tone::AccentBold));
    push_piece(&mut r, piece(" █████╗  ███████║██║     █████╗  ██║  ███╗███████║   ██║   █████╗  ", Tone::AccentBold));
    push_piece(&mut r, piece(" ██╔══╝  ██╔══██║██║     ██╔══╝  ██║   ██║██╔══██║   ██║   ██╔══╝  ", Tone::AccentBold));
    push_piece(&mut r, piece(" ██║     ██║  ██║╚██████╗███████╗╚██████╔╝██║  ██║   ██║   ███████╗", Tone::AccentBold));
    push_piece(&mut r, piece(" ╚═╝     ╚═╝  ╚═╝ ╚═════╝╚══════╝ ╚═════╝ ╚═╝  ╚═╝   ╚═╝   ╚══════╝", Tone::AccentBold));
    push_piece(&mut r, piece("  native facial authentication for Linux", Tone::Muted));
    assert(pieces_view(r@) =~= spec_header());
    r
}

/// Keys and what they do, as the hint lines show them: each key in bold cyan, then its
/// meaning in the surrounding style.
pub open spec fn spec_key_hints(keys: Seq<(Seq<char>, Seq<char>)>) -> Seq<(Seq<char>, Tone)>
    decreases keys.len(),
{
    if keys.len() == 0 {
        seq![]
    } else {
        spec_key_hints(keys.drop_last()) + seq![(keys.last().0, Tone::AccentBold), (keys.last().1, Tone::Plain)]
    }
}

fn push_key(v: &mut Vec<Piece>, key: &str, meaning: &str)
    ensures
        pieces_view(final(v)@) == pieces_view(old(v)@) + seq![(key@, Tone::AccentBold), (meaning@, Tone::Plain)],
{
    push_piece(v, piece(key, Tone::AccentBold));
    push_piece(v, piece(meaning, Tone::Plain));
    assert(pieces_view(v@) =~= pieces_view(old(v)@) + seq![(key@, Tone::AccentBold), (meaning@, Tone::Plain)]);
}

/// The footer's key hints: only the blocked quit key while a command runs.
pub open spec fn spec_footer_hints(running: bool) -> Seq<(Seq<char>, Tone)> {
    if running {
        seq![("[q]"@, Tone::AccentBold), ("  cancels are blocked while a command is running"@, Tone::Plain)]
    } else {
        seq![
            ("[↑↓]"@, Tone::AccentBold),
            (" navigate   "@, Tone::Plain),
            ("[Enter]"@, Tone::AccentBold),
            (" select   "@, Tone::Plain),
            ("[q]"@, Tone::AccentBold),
            (" quit"@, Tone::Plain),
        ]
    }
}

pub fn footer_hints(menu: &MainMenu) -> (r: Vec<Piece>)
    ensures
        pieces_view(r@) == spec_footer_hints(menu.panel is Running),
{
    let mut r: Vec<Piece> = Vec::new();
    match menu.panel {
        Panel::Running => {
            push_key(&mut r, "[q]", "  cancels are blocked while a command is running");
        },
        _ => {
            push_key(&mut r, "[↑↓]", " navigate   ");
            push_key(&mut r, "[Enter]", " select   ");
            push_key(&mut r, "[q]", " quit");
        },
    }
    assert(pieces_view(r@) =~= spec_footer_hints(menu.panel is Running));
    r
}

/// The footer's second line: where the configuration file is.
pub fn config_line(path: &str) -> (r: Vec<Piece>)
    ensures
        pieces_view(r@) == seq![("config: "@, Tone::Muted), (path@, Tone::Muted)],
{
    let mut r: Vec<Piece> = Vec::new();
    push_piece(&mut r, piece("config: ", Tone::Muted));
    push_piece(&mut r, piece(path, Tone::Muted));
    assert(pieces_view(r@) =~= seq![("config: "@, Tone::Muted), (path@, Tone::Muted)]);
    r
}

// ── The menu ─────────────────────────────────────────────────────────────────

/// The line of a section title: the title between runs of `─` that centre it in a line
/// of 22 characters (at least one on each side).
pub open spec fn spec_section_line(title: Seq<char>) -> Seq<char> {
    let pad: int = if title.len() + 2 <= 22 { 22 - (title.len() + 2) } else { 0 };
    let left: int = pad / 2;
    let right: int = pad - left;
    "  "@ + repeat('─', if left >= 1 { left as nat } else { 1 }) + " "@ + title + " "@ + repeat(
        '─',
        if right >= 1 { right as nat } else { 1 },
    )
}

fn push_rule(s: &mut String, n: usize)
    ensures
        final(s)@ == old(s)@ + repeat('─', n as nat),
{
    let mut i: usize = 0;
    while i < n
        invariant
            i <= n,
            s@ == old(s)@ + repeat('─', i as nat),
        decreases n - i,
    {
        string_push(s, '─');
        assert(repeat('─', (i + 1) as nat) =~= repeat('─', i as nat).push('─'));
        i += 1;
    }
}

fn section_line(title: &str) -> (s: String)
    ensures
        s@ == spec_section_line(title@),
{
    let n = crate::text::chars_of(title).len();
    let pad: usize = if n <= 20 { 22 - (n + 2) } else { 0 };
    let left = pad / 2;
    let right = pad - left;
    let mut s = owned("  ");
    push_rule(&mut s, if left >= 1 { left } else { 1 });
    string_push_str(&mut s, " ");
    string_push_str(&mut s, title);
    string_push_str(&mut s, " ");
    push_rule(&mut s, if right >= 1 { right } else { 1 });
    s
}

/// A row of the menu: a section title alone, or an entry's marker and icon, then its
/// label.
pub struct MenuRow {
    pub lead: Piece,
    pub label: Option<Piece>,
}

/// A menu row as seen.
pub open spec fn menu_row_view(r: MenuRow) -> ((Seq<char>, Tone), Option<(Seq<char>, Tone)>) {
    (piece_view(r.lead), match r.label {
        Some(p) => Some(piece_view(p)),
        None => None,
    })
}

/// The row of menu entry `item`; `selected` when it is the entry under the cursor while
/// no command output is shown (then it is highlighted behind a `▶`).
pub open spec fn spec_menu_row(item: MenuItem, selected: bool) -> ((Seq<char>, Tone), Option<(Seq<char>, Tone)>) {
    if item.kind == ItemKind::Section {
        ((spec_section_line(item.label@), Tone::MutedBold), None)
    } else if selected {
        ((" ▶ "@ + item.icon@, Tone::Selected), Some((item.label@, Tone::SelectedBold)))
    } else {
        (("   "@ + item.icon@, Tone::Accent), Some((item.label@, Tone::White)))
    }
}

/// The rows of the menu.
pub open spec fn spec_menu_rows(menu: MainMenu) -> Seq<((Seq<char>, Tone), Option<(Seq<char>, Tone)>)> {
    Seq::new(
        menu.items@.len(),
        |i: int| spec_menu_row(menu.items@[i], i == menu.selected && menu.panel is Idle),
    )
}

fn menu_row(item: &MenuItem, selected: bool) -> (r: MenuRow)
    ensures
        menu_row_view(r) == spec_menu_row(*item, selected),
{
    if item.kind == ItemKind::Section {
        MenuRow { lead: Piece { text: section_line(item.label), tone: Tone::MutedBold }, label: None }
    } else if selected {
        let mut lead = owned(" ▶ ");
        string_push_str(&mut lead, item.icon);
        MenuRow { lead: Piece { text: lead, tone: Tone::Selected }, label: Some(piece(item.label, Tone::SelectedBold)) }
    } else {
        let mut lead = owned("   ");
        string_push_str(&mut lead, item.icon);
        MenuRow { lead: Piece { text: lead, tone: Tone::Accent }, label: Some(piece(item.label, Tone::White)) }
    }
}

pub fn menu_rows(menu: &MainMenu) -> (r: Vec<MenuRow>)
    ensures
        r@.map_values(|row: MenuRow| menu_row_view(row)) == spec_menu_rows(*menu),
{
    let idle = match menu.panel {
        Panel::Idle => true,
        _ => false,
    };
    let mut r: Vec<MenuRow> = Vec::new();
    let mut i: usize = 0;
    while i < menu.items.len()
        invariant
            i <= menu.items@.len(),
            idle == (menu.panel is Idle),
            r@.map_values(|row: MenuRow| menu_row_view(row)) == spec_menu_rows(*menu).take(i as int),
        decreases menu.items@.len() - i,
    {
        let row = menu_row(&menu.items[i], i == menu.selected && idle);
        let ghost before = r@.map_values(|row: MenuRow| menu_row_view(row));
        r.push(row);
        assert(r@.map_values(|row: MenuRow| menu_row_view(row)) =~= before.push(menu_row_view(row)));
        assert(spec_menu_rows(*menu).take(i + 1) =~= spec_menu_rows(*menu).take(i as int).push(
            spec_menu_row(menu.items@[i as int], i == menu.selected && menu.panel is Idle),
        ));
        i += 1;
    }
    assert(spec_menu_rows(*menu).take(menu.items@.len() as int) =~= spec_menu_rows(*menu));
    r
}

/// The menu's frame: cyan while the menu has the focus, grey while command output is
/// shown.
pub fn menu_border(menu: &MainMenu) -> (t: Tone)
    ensures
        t == (if menu.panel is Idle { Tone::Accent } else { Tone::Muted }),
{
    match menu.panel {
        Panel::Idle => Tone::Accent,
        _ => Tone::Muted,
    }
}

// ── The panel ────────────────────────────────────────────────────────────────

/// Frame `i` (of ten) of the spinner shown while a command runs.
pub open spec fn spec_spinner(i: int) -> Seq<char> {
    if i == 0 {
        "⠋"@
    } else if i == 1 {
        "⠙"@
    } else if i == 2 {
        "⠹"@
    } else if i == 3 {
        "⠸"@
    } else if i == 4 {
        "⠼"@
    } else if i == 5 {
        "⠴"@
    } else if i == 6 {
        "⠦"@
    } else if i == 7 {
        "⠧"@
    } else if i == 8 {
        "⠇"@
    } else {
        "⠏"@
    }
}

fn spinner(tick: u64) -> (s: &'static str)
    ensures
        s@ == spec_spinner((tick % 10) as int),
{
    let i = tick % 10;
    if i == 0 {
        "⠋"
    } else if i == 1 {
        "⠙"
    } else if i == 2 {
        "⠹"
    } else if i == 3 {
        "⠸"
    } else if i == 4 {
        "⠼"
    } else if i == 5 {
        "⠴"
    } else if i == 6 {
        "⠦"
    } else if i == 7 {
        "⠧"
    } else if i == 8 {
        "⠇"
    } else {
        "⠏"
    }
}

/// The tone of a line of finished output: red for a failed check or an error, green for
/// a passed check.
pub open spec fn spec_output_tone(line: Seq<char>) -> Tone {
    if has_prefix(line, "  [✗]"@) || has_prefix(line, "Error"@) {
        Tone::Red
    } else if has_prefix(line, "  [✓]"@) {
        Tone::Green
    } else {
        Tone::White
    }
}

fn output_tone(line: &String) -> (t: Tone)
    ensures
        t == spec_output_tone(line@),
{
    let cs = crate::text::chars_of(line.as_str());
    let failed = crate::text::chars_of("  [✗]");
    let error = crate::text::chars_of("Error");
    let passed = crate::text::chars_of("  [✓]");
    if crate::text::starts_with(cs.as_slice(), failed.as_slice()) || crate::text::starts_with(cs.as_slice(), error.as_slice()) {
        Tone::Red
    } else if crate::text::starts_with(cs.as_slice(), passed.as_slice()) {
        Tone::Green
    } else {
        Tone::White
    }
}

/// The panel beside the menu: its title, the tone of its frame, its lines, and whether
/// the scroll-and-back hint is shown under it.
pub struct PanelView {
    pub title: &'static str,
    pub border: Tone,
    pub lines: Vec<Piece>,
    pub hint: bool,
}

/// The panel: the selected entry and its description while idle; the running command's
/// output and a spinner; or the finished output from the scroll position on, coloured
/// by [`spec_output_tone`].
pub open spec fn spec_panel(menu: MainMenu, running: Seq<Seq<char>>, tick: u64) -> (Seq<char>, Tone, Seq<(Seq<char>, Tone)>, bool) {
    match menu.panel {
        Panel::Idle => {
            let item = menu.items@[menu.selected as int];
            (" Info "@, Tone::Muted, seq![
                (""@, Tone::Plain),
                ("  "@ + item.icon@ + item.label@, Tone::AccentBold),
                (""@, Tone::Plain),
                if item.kind == ItemKind::Section || item.description@.len() == 0 {
                    ("  Select an action from the menu."@, Tone::Muted)
                } else {
                    ("  "@ + item.description@, Tone::White)
                },
            ], false)
        },
        Panel::Running => (" Running… "@, Tone::Yellow, running.map_values(|l: Seq<char>| (l, Tone::White)) + seq![
            (spec_spinner((tick % 10) as int) + " running…"@, Tone::YellowBold),
        ], false),
        Panel::Done { lines, scroll, had_error } => (
            if had_error {
                " Error "@
            } else {
                " Done "@
            },
            if had_error {
                Tone::Red
            } else {
                Tone::Green
            },
            (if scroll < lines@.len() {
                lines@.subrange(scroll as int, lines@.len() as int)
            } else {
                Seq::empty()
            }).map_values(|l: String| (l@, spec_output_tone(l@))),
            true,
        ),
    }
}

/// The lines of the running command's output, as views.
pub open spec fn texts_of(v: Seq<String>) -> Seq<Seq<char>> {
    v.map_values(|l: String| l@)
}

#[verifier::spinoff_prover]
pub fn panel(menu: &MainMenu, running: &[String], tick: u64) -> (r: PanelView)
    requires
        menu.selected < menu.items@.len(),
    ensures
        (r.title@, r.border, pieces_view(r.lines@), r.hint) == spec_panel(*menu, texts_of(running@), tick),
{
    match &menu.panel {
        Panel::Idle => {
            let item = &menu.items[menu.selected];
            let mut lines: Vec<Piece> = Vec::new();
            push_piece(&mut lines, piece("", Tone::Plain));
            let mut head = owned("  ");
            string_push_str(&mut head, item.icon);
            string_push_str(&mut head, item.label);
            push_piece(&mut lines, Piece { text: head, tone: Tone::AccentBold });
            push_piece(&mut lines, piece("", Tone::Plain));
            let empty = crate::text::chars_of(item.description.as_str()).len() == 0;
            if item.kind == ItemKind::Section || empty {
                push_piece(&mut lines, piece("  Select an action from the menu.", Tone::Muted));
            } else {
                let mut d = owned("  ");
                string_push_str(&mut d, item.description.as_str());
                push_piece(&mut lines, Piece { text: d, tone: Tone::White });
            }
            let r = PanelView { title: " Info ", border: Tone::Muted, lines, hint: false };
            assert(pieces_view(r.lines@) =~= spec_panel(*menu, texts_of(running@), tick).2);
            r
        },
        Panel::Running => {
            let mut lines: Vec<Piece> = Vec::new();
            let mut i: usize = 0;
            while i < running.len()
                invariant
                    i <= running@.len(),
                    pieces_view(lines@) == texts_of(running@).take(i as int).map_values(|l: Seq<char>| (l, Tone::White)),
                decreases running@.len() - i,
            {
                push_piece(&mut lines, Piece { text: owned(running[i].as_str()), tone: Tone::White });
                assert(texts_of(running@).take(i + 1).map_values(|l: Seq<char>| (l, Tone::White)) =~= texts_of(
                    running@,
                ).take(i as int).map_values(|l: Seq<char>| (l, Tone::White)).push((running@[i as int]@, Tone::White)));
                i += 1;
            }
            assert(texts_of(running@).take(running@.len() as int) =~= texts_of(running@));
            let mut sp = owned(spinner(tick));
            string_push_str(&mut sp, " running…");
            push_piece(&mut lines, Piece { text: sp, tone: Tone::YellowBold });
            let r = PanelView { title: " Running… ", border: Tone::Yellow, lines, hint: false };
            assert(pieces_view(r.lines@) =~= spec_panel(*menu, texts_of(running@), tick).2);
            r
        },
        Panel::Done { lines: out, scroll, had_error } => {
            let ghost shown: Seq<String> = if *scroll < out@.len() {
                out@.subrange(*scroll as int, out@.len() as int)
            } else {
                Seq::empty()
            };
            let mut lines: Vec<Piece> = Vec::new();
            let mut i: usize = *scroll;
            if i > out.len() {
                i = out.len();
            }
            let start = i;
            while i < out.len()
                invariant
                    start <= i <= out@.len(),
                    start == (if *scroll < out@.len() { *scroll as int } else { out@.len() as int }),
                    shown == (if start < out@.len() { out@.subrange(start as int, out@.len() as int) } else { Seq::<String>::empty() }),
                    pieces_view(lines@) == out@.subrange(start as int, i as int).map_values(|l: String| (l@, spec_output_tone(l@))),
                decreases out@.len() - i,
            {
                let tone = output_tone(&out[i]);
                push_piece(&mut lines, Piece { text: owned(out[i].as_str()), tone });
                assert(out@.subrange(start as int, i + 1).map_values(|l: String| (l@, spec_output_tone(l@))) =~= out@.subrange(
                    start as int,
                    i as int,
                ).map_values(|l: String| (l@, spec_output_tone(l@))).push((out@[i as int]@, spec_output_tone(out@[i as int]@))));
                i += 1;
            }
            let r = PanelView {
                title: if *had_error { " Error " } else { " Done " },
                border: if *had_error { Tone::Red } else { Tone::Green },
                lines,
                hint: true,
            };
            assert(pieces_view(r.lines@) =~= spec_panel(*menu, texts_of(running@), tick).2);
            r
        },
    }
}

/// The hint under finished output.
pub fn panel_hint() -> (r: Vec<Piece>)
    ensures
        pieces_view(r@) == seq![
            ("[↑↓]"@, Tone::AccentBold),
            (" scroll   "@, Tone::Plain),
            ("[Enter]"@, Tone::AccentBold),
            (" back to menu"@, Tone::Plain),
        ],
{
    let mut r: Vec<Piece> = Vec::new();
    push_key(&mut r, "[↑↓]", " scroll   ");
    push_key(&mut r, "[Enter]", " back to menu");
    assert(pieces_view(r@) =~= seq![
        ("[↑↓]"@, Tone::AccentBold),
        (" scroll   "@, Tone::Plain),
        ("[Enter]"@, Tone::AccentBold),
        (" back to menu"@, Tone::Plain),
    ]);
    r
}

// ── Dialogs ──────────────────────────────────────────────────────────────────

/// A dialog that reads a line of text: its title, its question, and the text typed so
/// far followed by a cursor.
pub struct PromptView {
    pub title: &'static str,
    pub prompt: &'static str,
    pub input: String,
}

/// The text dialog open in `mode`, if it is one, showing `buf` as typed.
pub open spec fn spec_prompt(mode: InputMode, username: Seq<char>, samples: Seq<char>, service: Seq<char>) -> Option<(Seq<char>, Seq<char>, Seq<char>)> {
    match mode {
        InputMode::UsernameInput => Some((" Username "@, "  Enter the username:"@, " "@ + username + "_"@)),
        InputMode::SampleCountInput => Some((" Samples "@, "  How many samples to capture? (1–10)"@, " "@ + samples + "_"@)),
        InputMode::PamServiceInput => Some((
            " Custom PAM service (optional) "@,
            "  Extra PAM service to include (e.g. gdm3).\n  Leave empty to use auto-detection only."@,
            " "@ + service + "_"@,
        )),
        _ => None,
    }
}

fn typed(buf: &String) -> (s: String)
    ensures
        s@ == " "@ + buf@ + "_"@,
{
    let mut s = owned(" ");
    string_push_str(&mut s, buf.as_str());
    string_push_str(&mut s, "_");
    s
}

pub fn prompt(menu: &MainMenu) -> (r: Option<PromptView>)
    ensures
        match spec_prompt(menu.input_mode, menu.username_buf@, menu.sample_count_buf@, menu.pam_service_buf@) {
            Some((t, q, i)) => r matches Some(v) && v.title@ == t && v.prompt@ == q && v.input@ == i,
            None => r is None,
        },
{
    match menu.input_mode {
        InputMode::UsernameInput => Some(
            PromptView { title: " Username ", prompt: "  Enter the username:", input: typed(&menu.username_buf) },
        ),
        InputMode::SampleCountInput => Some(
            PromptView {
                title: " Samples ",
                prompt: "  How many samples to capture? (1–10)",
                input: typed(&menu.sample_count_buf),
            },
        ),
        InputMode::PamServiceInput => Some(
            PromptView {
                title: " Custom PAM service (optional) ",
                prompt: "  Extra PAM service to include (e.g. gdm3).\n  Leave empty to use auto-detection only.",
                input: typed(&menu.pam_service_buf),
            },
        ),
        _ => None,
    }
}

/// The keys of a text dialog.
pub fn confirm_hints() -> (r: Vec<Piece>)
    ensures
        pieces_view(r@) == seq![
            ("[Enter]"@, Tone::AccentBold),
            (" confirm   "@, Tone::Plain),
            ("[Esc]"@, Tone::AccentBold),
            (" cancel"@, Tone::Plain),
        ],
{
    let mut r: Vec<Piece> = Vec::new();
    push_key(&mut r, "[Enter]", " confirm   ");
    push_key(&mut r, "[Esc]", " cancel");
    assert(pieces_view(r@) =~= seq![
        ("[Enter]"@, Tone::AccentBold),
        (" confirm   "@, Tone::Plain),
        ("[Esc]"@, Tone::AccentBold),
        (" cancel"@, Tone::Plain),
    ]);
    r
}

/// A row of a list dialog: the cursor and check box, the entry, and what follows it.
pub struct ListRow {
    pub lead: Piece,
    pub body: Piece,
    pub tail: Option<Piece>,
}

/// A list row as seen.
pub open spec fn list_row_view(r: ListRow) -> ((Seq<char>, Tone), (Seq<char>, Tone), Option<(Seq<char>, Tone)>) {
    (piece_view(r.lead), piece_view(r.body), match r.tail {
        Some(p) => Some(piece_view(p)),
        None => None,
    })
}

/// The rows of a list dialog as seen.
pub open spec fn list_rows_view(v: Seq<ListRow>) -> Seq<((Seq<char>, Tone), (Seq<char>, Tone), Option<(Seq<char>, Tone)>)> {
    v.map_values(|r: ListRow| list_row_view(r))
}

/// The cursor and check box that start a row.
pub open spec fn spec_lead(selected: bool, checked: bool) -> Seq<char> {
    (if selected {
        " ▶ "@
    } else {
        "   "@
    }) + (if checked {
        "[x]"@
    } else {
        "[ ]"@
    }) + " "@
}

fn lead(selected: bool, checked: bool) -> (s: String)
    ensures
        s@ == spec_lead(selected, checked),
{
    let mut s = if selected {
        owned(" ▶ ")
    } else {
        owned("   ")
    };
    string_push_str(&mut s, if checked {
        "[x]"
    } else {
        "[ ]"
    });
    string_push_str(&mut s, " ");
    s
}

fn padded(t: &str, width: usize) -> (s: String)
    ensures
        s@ == pad_right(t@, width as nat),
{
    let mut s = String::new();
    crate::users::push_padded_right(&mut s, &owned(t), width);
    s
}

/// The enrollment dialog's rows: sudo, session, and both (checked when the other two
/// are).
pub open spec fn spec_enroll_rows(sudo: bool, session: bool, cursor: int) -> Seq<((Seq<char>, Tone), (Seq<char>, Tone), Option<(Seq<char>, Tone)>)> {
    let row = |i: int, checked: bool, label: Seq<char>, desc: Seq<char>| (
        (spec_lead(cursor == i, checked), if cursor == i { Tone::AccentBold } else { Tone::WhiteBold }),
        (pad_right(label, 10), if cursor == i { Tone::AccentBold } else { Tone::WhiteBold }),
        Some(("  "@ + desc, Tone::Muted)),
    );
    seq![
        row(0, sudo, "Sudo"@, "face auth for sudo/su commands"@),
        row(1, session, "Session"@, "face auth at login & screen unlock"@),
        row(2, sudo && session, "All"@, "select both"@),
    ]
}

fn enroll_row(selected: bool, checked: bool, label: &str, desc: &str) -> (r: ListRow)
    ensures
        list_row_view(r) == (
            (spec_lead(selected, checked), if selected { Tone::AccentBold } else { Tone::WhiteBold }),
            (pad_right(label@, 10), if selected { Tone::AccentBold } else { Tone::WhiteBold }),
            Some(("  "@ + desc@, Tone::Muted)),
        ),
{
    let tone = if selected {
        Tone::AccentBold
    } else {
        Tone::WhiteBold
    };
    let mut d = owned("  ");
    string_push_str(&mut d, desc);
    ListRow {
        lead: Piece { text: lead(selected, checked), tone },
        body: Piece { text: padded(label, 10), tone },
        tail: Some(Piece { text: d, tone: Tone::Muted }),
    }
}

pub fn enroll_rows(menu: &MainMenu) -> (r: Vec<ListRow>)
    ensures
        list_rows_view(r@) == spec_enroll_rows(menu.enroll_sudo, menu.enroll_session, menu.enroll_cursor as int),
{
    let c = menu.enroll_cursor;
    let mut r: Vec<ListRow> = Vec::new();
    r.push(enroll_row(c == 0, menu.enroll_sudo, "Sudo", "face auth for sudo/su commands"));
    r.push(enroll_row(c == 1, menu.enroll_session, "Session", "face auth at login & screen unlock"));
    r.push(enroll_row(c == 2, menu.enroll_sudo && menu.enroll_session, "All", "select both"));
    assert(list_rows_view(r@) =~= spec_enroll_rows(menu.enroll_sudo, menu.enroll_session, menu.enroll_cursor as int));
    r
}

/// The keys of the enrollment dialog.
pub fn enroll_hints() -> (r: Vec<Piece>)
    ensures
        pieces_view(r@) == seq![
            ("[Space]"@, Tone::AccentBold),
            (" toggle   "@, Tone::Plain),
            ("[Enter]"@, Tone::AccentBold),
            (" confirm   "@, Tone::Plain),
            ("[Esc]"@, Tone::AccentBold),
            (" cancel"@, Tone::Plain),
        ],
{
    let mut r: Vec<Piece> = Vec::new();
    push_key(&mut r, "[Space]", " toggle   ");
    push_key(&mut r, "[Enter]", " confirm   ");
    push_key(&mut r, "[Esc]", " cancel");
    assert(pieces_view(r@) =~= seq![
        ("[Space]"@, Tone::AccentBold),
        (" toggle   "@, Tone::Plain),
        ("[Enter]"@, Tone::AccentBold),
        (" confirm   "@, Tone::Plain),
        ("[Esc]"@, Tone::AccentBold),
        (" cancel"@, Tone::Plain),
    ]);
    r
}

/// A row of the session-services dialog: cursor and check box, the service's name in a
/// column of 24, then its PAM file in grey.
pub open spec fn spec_session_row(e: SessionEntry, selected: bool) -> ((Seq<char>, Tone), (Seq<char>, Tone), Option<(Seq<char>, Tone)>) {
    (
        (spec_lead(selected, e.keep), if selected { Tone::AccentBold } else { Tone::WhiteBold }),
        (pad_right(e.name@, 24), if selected { Tone::Accent } else { Tone::White }),
        Some((e.path@, Tone::Muted)),
    )
}

pub open spec fn spec_session_rows(menu: MainMenu) -> Seq<((Seq<char>, Tone), (Seq<char>, Tone), Option<(Seq<char>, Tone)>)> {
    Seq::new(
        menu.session_entries@.len(),
        |i: int| spec_session_row(menu.session_entries@[i], i == menu.session_cursor),
    )
}

pub fn session_rows(menu: &MainMenu) -> (r: Vec<ListRow>)
    ensures
        list_rows_view(r@) == spec_session_rows(*menu),
{
    let mut r: Vec<ListRow> = Vec::new();
    let mut i: usize = 0;
    while i < menu.session_entries.len()
        invariant
            i <= menu.session_entries@.len(),
            list_rows_view(r@) == spec_session_rows(*menu).take(i as int),
        decreases menu.session_entries@.len() - i,
    {
        let e = &menu.session_entries[i];
        let sel = i == menu.session_cursor;
        let row = ListRow {
            lead: Piece { text: lead(sel, e.keep), tone: if sel { Tone::AccentBold } else { Tone::WhiteBold } },
            body: Piece { text: padded(e.name.as_str(), 24), tone: if sel { Tone::Accent } else { Tone::White } },
            tail: Some(Piece { text: owned(e.path.as_str()), tone: Tone::Muted }),
        };
        let ghost before = list_rows_view(r@);
        r.push(row);
        assert(list_rows_view(r@) =~= before.push(list_row_view(row)));
        assert(spec_session_rows(*menu).take(i + 1) =~= spec_session_rows(*menu).take(i as int).push(
            spec_session_row(menu.session_entries@[i as int], i == menu.session_cursor),
        ));
        i += 1;
    }
    assert(spec_session_rows(*menu).take(menu.session_entries@.len() as int) =~= spec_session_rows(*menu));
    r
}

/// The keys of the session-services dialog.
pub fn session_hints() -> (r: Vec<Piece>)
    ensures
        pieces_view(r@) == seq![
            ("[Space]"@, Tone::AccentBold),
            (" toggle   "@, Tone::Plain),
            ("[Enter]"@, Tone::AccentBold),
            (" save   "@, Tone::Plain),
            ("[Esc]"@, Tone::AccentBold),
            (" cancel"@, Tone::Plain),
        ],
{
    let mut r: Vec<Piece> = Vec::new();
    push_key(&mut r, "[Space]", " toggle   ");
    push_key(&mut r, "[Enter]", " save   ");
    push_key(&mut r, "[Esc]", " cancel");
    assert(pieces_view(r@) =~= seq![
        ("[Space]"@, Tone::AccentBold),
        (" toggle   "@, Tone::Plain),
        ("[Enter]"@, Tone::AccentBold),
        (" save   "@, Tone::Plain),
        ("[Esc]"@, Tone::AccentBold),
        (" cancel"@, Tone::Plain),
    ]);
    r
}

/// The number of bytes `c` takes in UTF-8.
pub open spec fn utf8_len(c: char) -> int {
    if (c as int) < 0x80 {
        1
    } else if (c as int) < 0x800 {
        2
    } else if (c as int) < 0x10000 {
        3
    } else {
        4
    }
}

/// The characters of `s` that fill exactly its first `n` bytes, if a character
/// boundary falls there (`str::get(..n)`).
pub open spec fn byte_prefix(s: Seq<char>, n: int) -> Option<Seq<char>>
    decreases s.len(),
{
    if n == 0 {
        Some(Seq::empty())
    } else if s.len() == 0 || n < 0 || utf8_len(s[0]) > n {
        None
    } else {
        match byte_prefix(s.drop_first(), n - utf8_len(s[0])) {
            Some(p) => Some(seq![s[0]] + p),
            None => None,
        }
    }
}

/// A creation time as the template list shows it: its first 16 bytes (date, hours and
/// minutes), or all of it when it is shorter or no character ends there.
pub open spec fn spec_short_time(s: Seq<char>) -> Seq<char> {
    match byte_prefix(s, 16) {
        Some(p) => p,
        None => s,
    }
}

fn char_utf8_len(c: char) -> (n: usize)
    ensures
        n == utf8_len(c),
{
    if (c as u32) < 0x80 {
        1
    } else if (c as u32) < 0x800 {
        2
    } else if (c as u32) < 0x10000 {
        3
    } else {
        4
    }
}

proof fn lemma_byte_prefix_step(s: Seq<char>, i: int, n: int)
    requires
        0 <= i < s.len(),
        n >= 0,
    ensures
        byte_prefix(s.skip(i), n) == (if n == 0 {
            Some(Seq::<char>::empty())
        } else if utf8_len(s[i]) > n {
            None
        } else {
            match byte_prefix(s.skip(i + 1), n - utf8_len(s[i])) {
                Some(p) => Some(seq![s[i]] + p),
                None => None,
            }
        }),
{
    assert(s.skip(i)[0] == s[i]);
    assert(s.skip(i).drop_first() =~= s.skip(i + 1));
}

fn short_time(s: &String) -> (r: String)
    ensures
        r@ == spec_short_time(s@),
{
    let cs = crate::text::chars_of(s.as_str());
    let mut i: usize = 0;
    let mut used: usize = 0;
    proof {
        assert(cs@.skip(0) =~= cs@);
        assert forall|p: Seq<char>| cs@.take(0) + p == p by {
            assert(cs@.take(0) + p =~= p);
        }
    }
    while i < cs.len() && used < 16
        invariant
            cs@ == s@,
            i <= cs@.len(),
            used <= 16,
            byte_prefix(cs@, 16) == match byte_prefix(cs@.skip(i as int), 16 - used) {
                Some(p) => Some(cs@.take(i as int) + p),
                None => None,
            },
        decreases cs@.len() - i,
    {
        let k = char_utf8_len(cs[i]);
        proof {
            lemma_byte_prefix_step(cs@, i as int, 16 - used);
            assert(cs@.take(i + 1) =~= cs@.take(i as int) + seq![cs@[i as int]]);
            if k <= 16 - used {
                match byte_prefix(cs@.skip(i + 1), 16 - used - k) {
                    Some(p) => {
                        assert(cs@.take(i as int) + (seq![cs@[i as int]] + p) =~= cs@.take(i + 1) + p);
                    },
                    None => {},
                }
            }
        }
        if k > 16 - used {
            proof {
                assert(byte_prefix(cs@.skip(i as int), 16 - used) is None);
                assert(byte_prefix(cs@, 16) is None);
                assert(spec_short_time(s@) == s@);
            }
            let whole = owned(s.as_str());
            assert(whole@ == s@);
            return whole;
        }
        used = used + k;
        i += 1;
    }
    if used == 16 {
        proof {
            assert(byte_prefix(cs@.skip(i as int), 0) == Some(Seq::<char>::empty()));
            assert(cs@.take(i as int) + Seq::<char>::empty() =~= cs@.take(i as int));
        }
        let head = crate::text::slice_copy(cs.as_slice(), 0, i);
        let mut r = String::new();
        crate::text::push_chars(&mut r, head.as_slice());
        assert(cs@.subrange(0, i as int) =~= cs@.take(i as int));
        r
    } else {
        proof {
            assert(cs@.skip(i as int).len() == 0);
        }
        owned(s.as_str())
    }
}

/// A row of the template list: cursor and check box, then id, scope, creation time and
/// label in columns of 5, 8 and 20; red when marked for deletion, cyan under the
/// cursor.
pub open spec fn spec_template_row(e: TemplateEntry, selected: bool) -> ((Seq<char>, Tone), (Seq<char>, Tone), Option<(Seq<char>, Tone)>) {
    (
        (spec_lead(selected, e.marked), if e.marked {
            Tone::RedBold
        } else if selected {
            Tone::AccentBold
        } else {
            Tone::WhiteBold
        }),
        (pad_right(decimal(e.id as nat), 5) + " "@ + pad_right(e.scope@, 8) + " "@ + pad_right(
            spec_short_time(e.created_at@),
            20,
        ) + " "@ + e.label@, if e.marked {
            Tone::Red
        } else if selected {
            Tone::Accent
        } else {
            Tone::White
        }),
        None,
    )
}

pub open spec fn spec_template_rows(menu: MainMenu) -> Seq<((Seq<char>, Tone), (Seq<char>, Tone), Option<(Seq<char>, Tone)>)> {
    Seq::new(
        menu.template_entries@.len(),
        |i: int| spec_template_row(menu.template_entries@[i], i == menu.template_cursor),
    )
}

fn template_row(e: &TemplateEntry, sel: bool) -> (r: ListRow)
    ensures
        list_row_view(r) == spec_template_row(*e, sel),
{
    let mut id = String::new();
    push_decimal(&mut id, e.id as u64);
    let mut body = String::new();
    crate::users::push_padded_right(&mut body, &id, 5);
    string_push_str(&mut body, " ");
    crate::users::push_padded_right(&mut body, &e.scope, 8);
    string_push_str(&mut body, " ");
    crate::users::push_padded_right(&mut body, &short_time(&e.created_at), 20);
    string_push_str(&mut body, " ");
    string_push_str(&mut body, e.label.as_str());
    ListRow {
        lead: Piece {
            text: lead(sel, e.marked),
            tone: if e.marked {
                Tone::RedBold
            } else if sel {
                Tone::AccentBold
            } else {
                Tone::WhiteBold
            },
        },
        body: Piece {
            text: body,
            tone: if e.marked {
                Tone::Red
            } else if sel {
                Tone::Accent
            } else {
                Tone::White
            },
        },
        tail: None,
    }
}

pub fn template_rows(menu: &MainMenu) -> (r: Vec<ListRow>)
    ensures
        list_rows_view(r@) == spec_template_rows(*menu),
{
    let mut r: Vec<ListRow> = Vec::new();
    let mut i: usize = 0;
    while i < menu.template_entries.len()
        invariant
            i <= menu.template_entries@.len(),
            list_rows_view(r@) == spec_template_rows(*menu).take(i as int),
        decreases menu.template_entries@.len() - i,
    {
        let row = template_row(&menu.template_entries[i], i == menu.template_cursor);
        let ghost before = list_rows_view(r@);
        r.push(row);
        assert(list_rows_view(r@) =~= before.push(list_row_view(row)));
        assert(spec_template_rows(*menu).take(i + 1) =~= spec_template_rows(*menu).take(i as int).push(
            spec_template_row(menu.template_entries@[i as int], i == menu.template_cursor),
        ));
        i += 1;
    }
    assert(spec_template_rows(*menu).take(menu.template_entries@.len() as int) =~= spec_template_rows(*menu));
    r
}

/// The template list's title, naming the user.
pub fn template_title(menu: &MainMenu) -> (s: String)
    ensures
        s@ == " Templates — "@ + menu.template_username@ + " "@,
{
    let mut s = owned(" Templates — ");
    string_push_str(&mut s, menu.template_username.as_str());
    string_push_str(&mut s, " ");
    s
}

/// The template list's column header and the rule under it.
pub fn template_header() -> (r: (Piece, Piece))
    ensures
        piece_view(r.0) == ("     ID   Scope    Created              Label"@, Tone::Muted),
        piece_view(r.1) == ("     "@ + repeat('─', 55), Tone::Muted),
{
    let mut rule = owned("     ");
    push_rule(&mut rule, 55);
    (piece("     ID   Scope    Created              Label", Tone::Muted), Piece { text: rule, tone: Tone::Muted })
}

/// The keys of the template list.
pub fn template_hints() -> (r: Vec<Piece>)
    ensures
        pieces_view(r@) == seq![
            ("[d/Space]"@, Tone::AccentBold),
            (" mark delete   "@, Tone::Plain),
            ("[Enter]"@, Tone::AccentBold),
            (" confirm   "@, Tone::Plain),
            ("[Esc]"@, Tone::AccentBold),
            (" cancel"@, Tone::Plain),
        ],
{
    let mut r: Vec<Piece> = Vec::new();
    push_key(&mut r, "[d/Space]", " mark delete   ");
    push_key(&mut r, "[Enter]", " confirm   ");
    push_key(&mut r, "[Esc]", " cancel");
    assert(pieces_view(r@) =~= seq![
        ("[d/Space]"@, Tone::AccentBold),
        (" mark delete   "@, Tone::Plain),
        ("[Enter]"@, Tone::AccentBold),
        (" confirm   "@, Tone::Plain),
        ("[Esc]"@, Tone::AccentBold),
        (" cancel"@, Tone::Plain),
    ]);
    r
}

/// The height of a list dialog: one row per entry (at least one) plus `extra` rows of
/// frame, header and hints, but no more than the screen's height less four.
pub fn list_popup_height(entries: usize, extra: u16, screen_height: u16) -> (h: u16)
    ensures
        h == ({
            let want = (if entries >= 1 { entries as int } else { 1 }) + extra;
            let room = if screen_height >= 4 { screen_height - 4 } else { 0 };
            if want <= room { want } else { room }
        }),
{
    let room: u16 = if screen_height >= 4 { screen_height - 4 } else { 0 };
    let n: usize = if entries >= 1 { entries } else { 1 };
    if n <= room as usize && (n as u64) + (extra as u64) <= room as u64 {
        (n as u16) + extra
    } else {
        room
    }
}

} // verus!
