//! What the configuration editor shows: the section list, the fields of the selected
//! section with the description of the selected one, the footer, and the editing
//! dialog, each piece with its tone. The binary lays them out and maps tones to colours.
use vstd::prelude::*;

use crate::configure::{App, Field, Focus, Section};
use crate::menu_view::{piece_view, pieces_view, Piece, Tone};
use crate::text::{owned, string_push_str};
use crate::users::pad_right;

verus! {

fn piece(t: &str, tone: Tone) -> (p: Piece)
    ensures
        piece_view(p) == (t@, tone),
{
    Piece { text: owned(t), tone }
}

/// The frame of a pane: cyan when it has the focus, else grey.
pub open spec fn spec_pane_tone(focused: bool) -> Tone {
    if focused {
        Tone::Accent
    } else {
        Tone::Muted
    }
}

pub fn pane_tone(focused: bool) -> (t: Tone)
    ensures
        t == spec_pane_tone(focused),
{
    if focused {
        Tone::Accent
    } else {
        Tone::Muted
    }
}

/// A section's row: marked and highlighted when selected in the focused pane, cyan
/// when selected otherwise.
pub open spec fn spec_section_row(s: Section, selected: bool, focused: bool) -> (Seq<char>, Tone) {
    (
        (if selected && focused {
            " ▶ "@
        } else {
            "   "@
        }) + s.name@,
        if selected && focused {
            Tone::Selected
        } else if selected {
            Tone::Accent
        } else {
            Tone::White
        },
    )
}

pub open spec fn spec_section_rows(app: App) -> Seq<(Seq<char>, Tone)> {
    Seq::new(
        app.sections@.len(),
        |i: int| spec_section_row(app.sections@[i], i == app.selected_section, app.focus == Focus::Sections),
    )
}

pub fn section_rows(app: &App) -> (r: Vec<Piece>)
    ensures
        pieces_view(r@) == spec_section_rows(*app),
{
    let focused = app.focus == Focus::Sections;
    let mut r: Vec<Piece> = Vec::new();
    let mut i: usize = 0;
    while i < app.sections.len()
        invariant
            i <= app.sections@.len(),
            focused == (app.focus == Focus::Sections),
            pieces_view(r@) == spec_section_rows(*app).take(i as int),
        decreases app.sections@.len() - i,
    {
        let selected = i == app.selected_section;
        let mut text = if selected && focused {
            owned(" ▶ ")
        } else {
            owned("   ")
        };
        string_push_str(&mut text, app.sections[i].name);
        let tone = if selected && focused {
            Tone::Selected
        } else if selected {
            Tone::Accent
        } else {
            Tone::White
        };
        let p = Piece { text, tone };
        let ghost before = pieces_view(r@);
        r.push(p);
        assert(pieces_view(r@) =~= before.push(piece_view(p)));
        assert(spec_section_rows(*app).take(i + 1) =~= spec_section_rows(*app).take(i as int).push(
            spec_section_row(app.sections@[i as int], i == app.selected_section, app.focus == Focus::Sections),
        ));
        i += 1;
    }
    assert(spec_section_rows(*app).take(app.sections@.len() as int) =~= spec_section_rows(*app));
    r
}

/// A field's row: its key in a column of 20 after the marker, then its value; black on
/// cyan when selected in the focused pane, cyan and yellow when selected otherwise,
/// grey and white when not selected.
pub open spec fn spec_field_row(f: Field, selected: bool, focused: bool) -> ((Seq<char>, Tone), (Seq<char>, Tone)) {
    (
        (
            (if selected && focused {
                " ▶ "@
            } else {
                "   "@
            }) + pad_right(f.key@, 20),
            if selected && focused {
                Tone::Selected
            } else if selected {
                Tone::Accent
            } else {
                Tone::Muted
            },
        ),
        (f.value@, if selected && focused {
            Tone::SelectedBold
        } else if selected {
            Tone::Yellow
        } else {
            Tone::White
        }),
    )
}

pub open spec fn spec_field_rows(app: App) -> Seq<((Seq<char>, Tone), (Seq<char>, Tone))> {
    let fs = app.sections@[app.selected_section as int].fields@;
    Seq::new(fs.len(), |i: int| spec_field_row(fs[i], i == app.selected_field, app.focus == Focus::Fields))
}

/// A field's row: key and value.
pub struct FieldRow {
    pub key: Piece,
    pub value: Piece,
}

pub open spec fn field_row_view(r: FieldRow) -> ((Seq<char>, Tone), (Seq<char>, Tone)) {
    (piece_view(r.key), piece_view(r.value))
}

pub fn field_rows(app: &App) -> (r: Vec<FieldRow>)
    requires
        app.selected_section < app.sections@.len(),
    ensures
        r@.map_values(|row: FieldRow| field_row_view(row)) == spec_field_rows(*app),
{
    let focused = app.focus == Focus::Fields;
    let fields = &app.sections[app.selected_section].fields;
    let mut r: Vec<FieldRow> = Vec::new();
    let mut i: usize = 0;
    while i < fields.len()
        invariant
            i <= fields@.len(),
            fields@ == app.sections@[app.selected_section as int].fields@,
            focused == (app.focus == Focus::Fields),
            r@.map_values(|row: FieldRow| field_row_view(row)) == spec_field_rows(*app).take(i as int),
        decreases fields@.len() - i,
    {
        let selected = i == app.selected_field;
        let mut key = if selected && focused {
            owned(" ▶ ")
        } else {
            owned("   ")
        };
        crate::users::push_padded_right(&mut key, &owned(fields[i].key), 20);
        let row = FieldRow {
            key: Piece {
                text: key,
                tone: if selected && focused {
                    Tone::Selected
                } else if selected {
                    Tone::Accent
                } else {
                    Tone::Muted
                },
            },
            value: Piece {
                text: owned(fields[i].value.as_str()),
                tone: if selected && focused {
                    Tone::SelectedBold
                } else if selected {
                    Tone::Yellow
                } else {
                    Tone::White
                },
            },
        };
        let ghost before = r@.map_values(|row: FieldRow| field_row_view(row));
        r.push(row);
        assert(r@.map_values(|row: FieldRow| field_row_view(row)) =~= before.push(field_row_view(row)));
        assert(spec_field_rows(*app).take(i + 1) =~= spec_field_rows(*app).take(i as int).push(
            spec_field_row(fields@[i as int], i == app.selected_field, app.focus == Focus::Fields),
        ));
        i += 1;
    }
    assert(spec_field_rows(*app).take(fields@.len() as int) =~= spec_field_rows(*app));
    r
}

/// The title of the fields pane: the section's name.
pub fn fields_title(app: &App) -> (s: String)
    requires
        app.selected_section < app.sections@.len(),
    ensures
        s@ == " "@ + app.sections@[app.selected_section as int].name@ + " "@,
{
    let mut s = owned(" ");
    string_push_str(&mut s, app.sections[app.selected_section].name);
    string_push_str(&mut s, " ");
    s
}

/// The line under the fields: the selected field's description (blank when there is
/// no such field).
pub fn description_line(app: &App) -> (s: String)
    requires
        app.selected_section < app.sections@.len(),
    ensures
        s@ == "  "@ + (if app.selected_field < app.sections@[app.selected_section as int].fields@.len() {
            app.sections@[app.selected_section as int].fields@[app.selected_field as int].description@
        } else {
            ""@
        }),
{
    let fields = &app.sections[app.selected_section].fields;
    let mut s = owned("  ");
    if app.selected_field < fields.len() {
        string_push_str(&mut s, fields[app.selected_field].description);
    } else {
        string_push_str(&mut s, "");
    }
    s
}

/// The footer: the last status message (red for an error, green otherwise), or the
/// keys of the editor.
pub open spec fn spec_footer(status: Option<(Seq<char>, bool)>) -> Seq<(Seq<char>, Tone)> {
    match status {
        Some((m, err)) => seq![(m, if err { Tone::RedBold } else { Tone::Green })],
        None => seq![
            ("[↑↓]"@, Tone::AccentBold),
            (" navigate  "@, Tone::Plain),
            ("[Tab]"@, Tone::AccentBold),
            (" switch pane  "@, Tone::Plain),
            ("[Enter]"@, Tone::AccentBold),
            (" edit  "@, Tone::Plain),
            ("[s]"@, Tone::AccentBold),
            (" save  "@, Tone::Plain),
            ("[Esc]"@, Tone::AccentBold),
            (" back  "@, Tone::Plain),
            ("[q]"@, Tone::AccentBold),
            (" quit"@, Tone::Plain),
        ],
    }
}

fn push(v: &mut Vec<Piece>, p: Piece)
    ensures
        pieces_view(final(v)@) == pieces_view(old(v)@).push(piece_view(p)),
{
    v.push(p);
    assert(pieces_view(v@) =~= pieces_view(old(v)@).push(piece_view(p)));
}

pub fn footer(app: &App) -> (r: Vec<Piece>)
    ensures
        pieces_view(r@) == spec_footer(match app.status {
            Some((m, e)) => Some((m@, e)),
            None => None,
        }),
{
    let mut r: Vec<Piece> = Vec::new();
    match &app.status {
        Some((m, err)) => {
            push(&mut r, Piece { text: owned(m.as_str()), tone: if *err { Tone::RedBold } else { Tone::Green } });
        },
        None => {
            push(&mut r, piece("[↑↓]", Tone::AccentBold));
            push(&mut r, piece(" navigate  ", Tone::Plain));
            push(&mut r, piece("[Tab]", Tone::AccentBold));
            push(&mut r, piece(" switch pane  ", Tone::Plain));
            push(&mut r, piece("[Enter]", Tone::AccentBold));
            push(&mut r, piece(" edit  ", Tone::Plain));
            push(&mut r, piece("[s]", Tone::AccentBold));
            push(&mut r, piece(" save  ", Tone::Plain));
            push(&mut r, piece("[Esc]", Tone::AccentBold));
            push(&mut r, piece(" back  ", Tone::Plain));
            push(&mut r, piece("[q]", Tone::AccentBold));
            push(&mut r, piece(" quit", Tone::Plain));
        },
    }
    assert(pieces_view(r@) =~= spec_footer(match app.status {
        Some((m, e)) => Some((m@, e)),
        None => None,
    }));
    r
}

/// The editing dialog: its title naming the field, the field's description, and the
/// text typed so far followed by a cursor.
pub fn edit_dialog(app: &App) -> (r: (String, String, String))
    requires
        app.wf(),
    ensures
        ({
            let f = app.sections@[app.selected_section as int].fields@[app.selected_field as int];
            &&& r.0@ == " Edit: "@ + f.key@ + " "@
            &&& r.1@ == "  "@ + f.description@
            &&& r.2@ == " "@ + app.edit_buffer@ + "_"@
        }),
{
    let f = &app.sections[app.selected_section].fields[app.selected_field];
    let mut title = owned(" Edit: ");
    string_push_str(&mut title, f.key);
    string_push_str(&mut title, " ");
    let mut desc = owned("  ");
    string_push_str(&mut desc, f.description);
    let mut input = owned(" ");
    string_push_str(&mut input, app.edit_buffer.as_str());
    string_push_str(&mut input, "_");
    (title, desc, input)
}

} // verus!
