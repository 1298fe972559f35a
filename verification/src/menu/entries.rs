//! What the menu offers, row by row.
//!
//! Everything here is either global or about a surface you can see: what is
//! true everywhere, then the piano's own, the theory band's own, the guitar's
//! own and the recorder's own, each appearing only while its surface does.

use super::{Ask, ColorTarget, MenuAction, MenuView};
use crate::fretboard_panel::Wood;
use crate::text;
use vstd::prelude::*;

verus! {

/// The window sizes on offer.
pub const SIZE_PERCENTS: [i64; 7] = [50, 75, 100, 125, 150, 175, 200];

/// Highest capo offered. Past this it stops being a capo and starts being a
/// different instrument.
pub const CAPO_MAX: u8 = 9;

/// The clef presets the Clef submenu offers. The grand staff is not a clef and
/// belongs first.
pub const STAFF_PRESETS: [(&'static str, &'static str); 7] = [
    ("grand", "Grand staff"),
    ("treble", "Treble"),
    ("bass", "Bass"),
    ("alto", "Alto"),
    ("tenor", "Tenor"),
    ("treble8vb", "Treble 8vb (guitar, tenor)"),
    ("bass8vb", "Bass 8vb (double bass)"),
];

/// One row inside a submenu.
#[derive(Clone, PartialEq, Eq, Debug)]
pub struct SubItem {
    pub label: String,
    pub action: MenuAction,
    /// Greyed when false.
    pub enabled: bool,
}

/// One line of the menu.
#[derive(Clone, PartialEq, Eq, Debug)]
pub enum Entry {
    Separator,
    Item { label: String, action: MenuAction, enabled: bool },
    /// A parent row that opens beside itself. It holds rows and nothing else:
    /// this is the last level.
    Submenu { label: String, items: Vec<SubItem> },
}

/// A row as it reads and what it asks for.
pub struct Row {
    pub label: Seq<char>,
    pub ask: Ask,
    pub enabled: bool,
}

/// A line of the menu as it reads.
pub enum Line {
    Separator,
    Item(Row),
    Category { label: Seq<char>, rows: Seq<Row> },
}

impl View for SubItem {
    type V = Row;

    open spec fn view(&self) -> Row {
        Row { label: self.label@, ask: self.action@, enabled: self.enabled }
    }
}

/// The rows that `items` are.
pub open spec fn rows_of(items: Seq<SubItem>) -> Seq<Row> {
    items.map_values(|it: SubItem| it@)
}

impl View for Entry {
    type V = Line;

    open spec fn view(&self) -> Line {
        match *self {
            Entry::Separator => Line::Separator,
            Entry::Item { label, action, enabled } => Line::Item(
                Row { label: label@, ask: action@, enabled },
            ),
            Entry::Submenu { label, items } => Line::Category {
                label: label@,
                rows: rows_of(items@),
            },
        }
    }
}

/// The lines that `entries` are.
pub open spec fn lines_of(entries: Seq<Entry>) -> Seq<Line> {
    entries.map_values(|e: Entry| e@)
}

/// A row that can be clicked.
pub open spec fn row(label: Seq<char>, ask: Ask) -> Row {
    Row { label, ask, enabled: true }
}

/// A row for an action that carries no text.
pub open spec fn plain(label: Seq<char>, action: MenuAction) -> Row {
    row(label, Ask::Plain(action))
}

/// A choice says when it is the live one: nothing is hidden and nothing ticked.
pub open spec fn marked(label: Seq<char>, live: bool) -> Seq<char> {
    if live {
        label + "  \u{2022}"@
    } else {
        label
    }
}

/// What a category becomes: nothing at all, its only row, or a hover.
pub open spec fn category(label: Seq<char>, rows: Seq<Row>) -> Seq<Line> {
    if rows.len() == 0 {
        seq![]
    } else if rows.len() == 1 {
        seq![Line::Item(rows[0])]
    } else {
        seq![Line::Category { label, rows }]
    }
}

// ── Building blocks ────────────────────────────────────────────────────────
fn put_row(rows: &mut Vec<SubItem>, it: SubItem)
    ensures
        rows_of(final(rows)@) == rows_of(old(rows)@).push(it@),
{
    rows.push(it);
    assert(rows_of(rows@) =~= rows_of(old(rows)@).push(it@));
}

fn put_line(lines: &mut Vec<Entry>, e: Entry)
    ensures
        lines_of(final(lines)@) == lines_of(old(lines)@).push(e@),
{
    lines.push(e);
    assert(lines_of(lines@) =~= lines_of(old(lines)@).push(e@));
}

fn clickable(label: &str, action: MenuAction) -> (r: SubItem)
    ensures
        r@ == row(label@, action@),
{
    SubItem { label: label.to_owned(), action, enabled: true }
}

fn item(label: &str, action: MenuAction) -> (r: Entry)
    ensures
        r@ == Line::Item(row(label@, action@)),
{
    Entry::Item { label: label.to_owned(), action, enabled: true }
}

fn mark(label: &str, live: bool) -> (r: String)
    ensures
        r@ == marked(label@, live),
{
    if live {
        text::join(label, "  \u{2022}")
    } else {
        label.to_owned()
    }
}

/// Push a category, as a hover when there is something worth hovering for.
///
/// An empty hover is a dead end the user cannot tell from a bug, and a one-row
/// hover charges a hover to reach a single row.
pub fn push_category(entries: &mut Vec<Entry>, label: &str, items: Vec<SubItem>)
    ensures
        lines_of(final(entries)@) == lines_of(old(entries)@) + category(label@, rows_of(items@)),
{
    let mut items = items;
    let ghost rows = rows_of(items@);
    let ghost lines = lines_of(entries@);
    if items.len() == 0 {
        assert(lines + category(label@, rows) =~= lines);
    } else if items.len() == 1 {
        let only = items.remove(0);
        assert(rows[0] == only@);
        put_line(
            entries,
            Entry::Item { label: only.label, action: only.action, enabled: only.enabled },
        );
        assert(lines + category(label@, rows) =~= lines.push(Line::Item(rows[0])));
    } else {
        put_line(entries, Entry::Submenu { label: label.to_owned(), items });
        assert(lines + category(label@, rows) =~= lines.push(
            Line::Category { label: label@, rows },
        ));
    }
}

// ── Everywhere ─────────────────────────────────────────────────────────────
/// One window size, as a row.
pub open spec fn size_row(percent: i64) -> Row {
    plain(crate::text::decimal(percent as nat) + "%"@, MenuAction::SetSizePercent(percent))
}

/// The sizes where one can be chosen, and the window chrome where it is ours.
pub open spec fn window_rows(v: MenuView) -> Seq<Row> {
    let sizes = if v.caps.size_presets {
        Seq::new(7, |i: int| size_row(SIZE_PERCENTS@[i]))
    } else {
        seq![]
    };
    if v.caps.window_sizing {
        sizes.push(
            plain(
                if v.borderless {
                    "Bordered"@
                } else {
                    "Borderless"@
                },
                MenuAction::ToggleBorderless,
            ),
        )
    } else {
        sizes
    }
}

pub open spec fn color_rows() -> Seq<Row> {
    seq![
        plain("Set White Key Color..."@, MenuAction::PickColor(ColorTarget::WhiteIdle)),
        plain("Set Black Key Color..."@, MenuAction::PickColor(ColorTarget::BlackIdle)),
        plain("Set Active Key Color..."@, MenuAction::PickColor(ColorTarget::Active)),
        plain("Set Sustain Color..."@, MenuAction::PickColor(ColorTarget::Sustain)),
        plain("Set Chord Color..."@, MenuAction::PickColor(ColorTarget::ChordText)),
        plain("Set Recorder Color..."@, MenuAction::PickColor(ColorTarget::RecorderBg)),
    ]
}

/// The detector, and everything that teaches it. Teaching needs a voicing;
/// correcting needs a voicing and a reading of it.
pub open spec fn chord_rows(v: MenuView) -> Seq<Row> {
    seq![
        plain(
            if v.detection_enabled {
                "Disable Chord Detection"@
            } else {
                "Enable Chord Detection"@
            },
            MenuAction::ToggleChordDetection,
        ),
        Row {
            label: "Teach Chord Name..."@,
            ask: Ask::Plain(MenuAction::TeachChordName),
            enabled: v.notes_held,
        },
        plain("Manage Taught Chords..."@, MenuAction::ManageTaughtChords),
        Row {
            label: "Correct Chord Name..."@,
            ask: Ask::Plain(MenuAction::CorrectChordName),
            enabled: v.notes_held && v.detection_enabled,
        },
        plain(
            if v.learning_on {
                "Disable Chord Learning"@
            } else {
                "Enable Chord Learning"@
            },
            MenuAction::ToggleChordLearning,
        ),
    ]
}

/// What is true wherever you right-click.
pub open spec fn everywhere(v: MenuView) -> Seq<Line> {
    let device = if v.caps.midi_ports {
        seq![Line::Item(plain("Select MIDI Input..."@, MenuAction::SelectMidiInput))]
    } else {
        seq![]
    };
    device + category("Window"@, window_rows(v)) + category("Colors"@, color_rows()) + category(
        "Chords"@,
        chord_rows(v),
    )
}

fn make_window_rows(v: &MenuView) -> (r: Vec<SubItem>)
    ensures
        rows_of(r@) == window_rows(*v),
{
    let mut window: Vec<SubItem> = Vec::new();
    assert(rows_of(window@) =~= seq![]);
    if v.caps.size_presets {
        for i in 0..7usize
            invariant
                rows_of(window@) == Seq::new(i as nat, |k: int| size_row(SIZE_PERCENTS@[k])),
        {
            let p: i64 = SIZE_PERCENTS[i];
            assert(0 <= p) by {
                assert(SIZE_PERCENTS@ =~= seq![50i64, 75, 100, 125, 150, 175, 200]);
            }
            let label = text::join(text::number(p as u64).as_str(), "%");
            put_row(
                &mut window,
                SubItem { label, action: MenuAction::SetSizePercent(p), enabled: true },
            );
            assert(rows_of(window@) =~= Seq::new(
                (i + 1) as nat,
                |k: int| size_row(SIZE_PERCENTS@[k]),
            ));
        }
    }
    if v.caps.window_sizing {
        put_row(
            &mut window,
            clickable(
                if v.borderless {
                    "Bordered"
                } else {
                    "Borderless"
                },
                MenuAction::ToggleBorderless,
            ),
        );
    }
    window
}

fn make_color_rows() -> (r: Vec<SubItem>)
    ensures
        rows_of(r@) == color_rows(),
{
    let mut rows: Vec<SubItem> = Vec::new();
    assert(rows_of(rows@) =~= seq![]);
    put_row(
        &mut rows,
        clickable("Set White Key Color...", MenuAction::PickColor(ColorTarget::WhiteIdle)),
    );
    put_row(
        &mut rows,
        clickable("Set Black Key Color...", MenuAction::PickColor(ColorTarget::BlackIdle)),
    );
    put_row(
        &mut rows,
        clickable("Set Active Key Color...", MenuAction::PickColor(ColorTarget::Active)),
    );
    put_row(
        &mut rows,
        clickable("Set Sustain Color...", MenuAction::PickColor(ColorTarget::Sustain)),
    );
    put_row(
        &mut rows,
        clickable("Set Chord Color...", MenuAction::PickColor(ColorTarget::ChordText)),
    );
    put_row(
        &mut rows,
        clickable("Set Recorder Color...", MenuAction::PickColor(ColorTarget::RecorderBg)),
    );
    rows
}

fn make_chord_rows(v: &MenuView) -> (r: Vec<SubItem>)
    ensures
        rows_of(r@) == chord_rows(*v),
{
    let mut chords: Vec<SubItem> = Vec::new();
    assert(rows_of(chords@) =~= seq![]);
    put_row(
        &mut chords,
        clickable(
            if v.detection_enabled {
                "Disable Chord Detection"
            } else {
                "Enable Chord Detection"
            },
            MenuAction::ToggleChordDetection,
        ),
    );
    put_row(
        &mut chords,
        SubItem {
            label: "Teach Chord Name...".to_owned(),
            action: MenuAction::TeachChordName,
            enabled: v.notes_held,
        },
    );
    put_row(&mut chords, clickable("Manage Taught Chords...", MenuAction::ManageTaughtChords));
    put_row(
        &mut chords,
        SubItem {
            label: "Correct Chord Name...".to_owned(),
            action: MenuAction::CorrectChordName,
            enabled: v.notes_held && v.detection_enabled,
        },
    );
    put_row(
        &mut chords,
        clickable(
            if v.learning_on {
                "Disable Chord Learning"
            } else {
                "Enable Chord Learning"
            },
            MenuAction::ToggleChordLearning,
        ),
    );
    chords
}

fn make_everywhere(v: &MenuView) -> (r: Vec<Entry>)
    ensures
        lines_of(r@) == everywhere(*v),
{
    let mut block: Vec<Entry> = Vec::new();
    assert(lines_of(block@) =~= seq![]);
    if v.caps.midi_ports {
        put_line(&mut block, item("Select MIDI Input...", MenuAction::SelectMidiInput));
    }
    push_category(&mut block, "Window", make_window_rows(v));
    push_category(&mut block, "Colors", make_color_rows());
    push_category(&mut block, "Chords", make_chord_rows(v));
    block
}

// ── The piano's own ────────────────────────────────────────────────────────
/// The chord strip, for as long as there is a detector behind it.
pub open spec fn piano(v: MenuView) -> Seq<Line> {
    if v.detection_enabled {
        seq![
            Line::Item(
                plain(
                    if v.chord_strip {
                        "Disable Chord Strip (legacy)"@
                    } else {
                        "Enable Chord Strip (legacy)"@
                    },
                    MenuAction::ToggleChordStrip,
                ),
            ),
        ]
    } else {
        seq![]
    }
}

fn make_piano(v: &MenuView) -> (r: Vec<Entry>)
    ensures
        lines_of(r@) == piano(*v),
{
    let mut block: Vec<Entry> = Vec::new();
    assert(lines_of(block@) =~= seq![]);
    if v.detection_enabled {
        put_line(
            &mut block,
            item(
                if v.chord_strip {
                    "Disable Chord Strip (legacy)"
                } else {
                    "Enable Chord Strip (legacy)"
                },
                MenuAction::ToggleChordStrip,
            ),
        );
    }
    block
}

// ── The theory band's own ──────────────────────────────────────────────────
/// Any diagram at all counts, not just the notation: the key sets what the
/// triangles are drawn around.
pub open spec fn theory_showing(v: MenuView) -> bool {
    v.staff_on || v.theory.shown@.len() > 0
}

pub open spec fn preset_row(v: MenuView, i: int) -> Row {
    let (key, label) = STAFF_PRESETS@[i];
    row(marked(label@, key@ == v.staff_set@), Ask::StaffSet(key@))
}

/// Every preset, and whatever stack the user built.
pub open spec fn clef_rows(v: MenuView) -> Seq<Row> {
    let presets = Seq::new(7, |i: int| preset_row(v, i));
    match v.staff_custom_label {
        Some(custom) => presets.push(
            row(
                marked(custom@, "custom:"@.is_prefix_of(v.staff_set@)),
                Ask::StaffSet("__custom__"@),
            ),
        ),
        None => presets,
    }
}

pub open spec fn key_row(v: MenuView, i: int) -> Row {
    let k = v.lists.keys@[i];
    plain(marked(k.label@, k.sharps == v.staff_key), MenuAction::SetStaffKey(k.sharps))
}

/// Every key, in the order everybody already knows.
pub open spec fn key_rows(v: MenuView) -> Seq<Row> {
    Seq::new(v.lists.keys@.len(), |i: int| key_row(v, i))
}

/// The clef kept under `key` is on screen.
pub open spec fn clef_is_up(v: MenuView, key: Seq<char>) -> bool {
    exists|i: int| 0 <= i < v.staff_clefs@.len() && #[trigger] v.staff_clefs@[i]@ == key
}

pub open spec fn stave_row(v: MenuView, i: int) -> Row {
    let c = v.lists.clefs@[i];
    row(marked(c.label@, clef_is_up(v, c.key@)), Ask::CustomClef(c.key@))
}

/// A staff each, for a room with more than one instrument in it.
pub open spec fn stave_rows(v: MenuView) -> Seq<Row> {
    Seq::new(v.lists.clefs@.len(), |i: int| stave_row(v, i))
}

/// The key and the notation, each while there is something it is about.
pub open spec fn theory(v: MenuView) -> Seq<Line> {
    let clefs = if v.staff_on {
        category("Clef"@, clef_rows(v))
    } else {
        seq![]
    };
    let keys = if theory_showing(v) {
        category("Key"@, key_rows(v))
    } else {
        seq![]
    };
    let staves = if v.staff_on {
        category("Staves"@, stave_rows(v))
    } else {
        seq![]
    };
    let follow = if theory_showing(v) {
        seq![
            Line::Item(
                plain(
                    if v.theory_follows_midi {
                        "Stop Following MIDI"@
                    } else {
                        "Follow MIDI"@
                    },
                    MenuAction::ToggleTheoryFollowsMidi,
                ),
            ),
        ]
    } else {
        seq![]
    };
    clefs + keys + staves + follow
}

fn make_clef_rows(v: &MenuView) -> (r: Vec<SubItem>)
    ensures
        rows_of(r@) == clef_rows(*v),
{
    let mut clefs: Vec<SubItem> = Vec::new();
    assert(rows_of(clefs@) =~= Seq::new(0, |k: int| preset_row(*v, k)));
    for i in 0..7usize
        invariant
            rows_of(clefs@) == Seq::new(i as nat, |k: int| preset_row(*v, k)),
    {
        let (key, label) = STAFF_PRESETS[i];
        put_row(
            &mut clefs,
            SubItem {
                label: mark(label, text::same(key, v.staff_set.as_str())),
                action: MenuAction::SetStaffSet(key),
                enabled: true,
            },
        );
        assert(rows_of(clefs@) =~= Seq::new((i + 1) as nat, |k: int| preset_row(*v, k)));
    }
    if let Some(custom) = &v.staff_custom_label {
        put_row(
            &mut clefs,
            SubItem {
                label: mark(
                    custom.as_str(),
                    text::starts_with(v.staff_set.as_str(), "custom:"),
                ),
                action: MenuAction::SetStaffSet("__custom__"),
                enabled: true,
            },
        );
    }
    clefs
}

fn make_key_rows(v: &MenuView) -> (r: Vec<SubItem>)
    ensures
        rows_of(r@) == key_rows(*v),
{
    let mut rows: Vec<SubItem> = Vec::new();
    assert(rows_of(rows@) =~= Seq::new(0, |k: int| key_row(*v, k)));
    for i in 0..v.lists.keys.len()
        invariant
            rows_of(rows@) == Seq::new(i as nat, |k: int| key_row(*v, k)),
    {
        let k = &v.lists.keys[i];
        put_row(
            &mut rows,
            SubItem {
                label: mark(k.label.as_str(), k.sharps == v.staff_key),
                action: MenuAction::SetStaffKey(k.sharps),
                enabled: true,
            },
        );
        assert(rows_of(rows@) =~= Seq::new((i + 1) as nat, |k: int| key_row(*v, k)));
    }
    rows
}

fn make_stave_rows(v: &MenuView) -> (r: Vec<SubItem>)
    ensures
        rows_of(r@) == stave_rows(*v),
{
    let mut rows: Vec<SubItem> = Vec::new();
    assert(rows_of(rows@) =~= Seq::new(0, |k: int| stave_row(*v, k)));
    for i in 0..v.lists.clefs.len()
        invariant
            rows_of(rows@) == Seq::new(i as nat, |k: int| stave_row(*v, k)),
    {
        let c = &v.lists.clefs[i];
        put_row(
            &mut rows,
            SubItem {
                label: mark(c.label.as_str(), text::listed(&v.staff_clefs, c.key.as_str())),
                action: MenuAction::ToggleCustomClef(c.key.clone()),
                enabled: true,
            },
        );
        assert(rows_of(rows@) =~= Seq::new((i + 1) as nat, |k: int| stave_row(*v, k)));
    }
    rows
}

fn make_theory(v: &MenuView) -> (r: Vec<Entry>)
    ensures
        lines_of(r@) == theory(*v),
{
    let showing = v.staff_on || v.theory.any();
    let mut block: Vec<Entry> = Vec::new();
    assert(lines_of(block@) =~= seq![]);
    if v.staff_on {
        push_category(&mut block, "Clef", make_clef_rows(v));
    }
    if showing {
        push_category(&mut block, "Key", make_key_rows(v));
    }
    if v.staff_on {
        push_category(&mut block, "Staves", make_stave_rows(v));
    }
    if showing {
        put_line(
            &mut block,
            item(
                if v.theory_follows_midi {
                    "Stop Following MIDI"
                } else {
                    "Follow MIDI"
                },
                MenuAction::ToggleTheoryFollowsMidi,
            ),
        );
    }
    assert(lines_of(block@) =~= theory(*v));
    block
}

// ── The guitar's own ───────────────────────────────────────────────────────
pub open spec fn fretboard_rows(v: MenuView) -> Seq<Row> {
    seq![
        plain("Hide Fretboard"@, MenuAction::ToggleFretboard),
        plain(
            if v.fret_note_names {
                "Hide Note Names on the Neck"@
            } else {
                "Show Note Names on the Neck"@
            },
            MenuAction::ToggleFretNoteNames,
        ),
        plain(
            if v.guitar_intervals {
                "Hide Intervals"@
            } else {
                "Show Intervals"@
            },
            MenuAction::ToggleGuitarIntervals,
        ),
        plain("Custom Tuning..."@, MenuAction::EditCustomTuning),
    ]
}

pub open spec fn wood_row(v: MenuView, i: int) -> Row {
    let w = Wood::ALL@[i];
    row(marked(w.title(), w.name() == v.wood@), Ask::Wood(w.name()))
}

pub open spec fn wood_rows(v: MenuView) -> Seq<Row> {
    Seq::new(3, |i: int| wood_row(v, i))
}

pub open spec fn tuning_row(v: MenuView, i: int) -> Row {
    let name = v.lists.tunings@[i]@;
    row(marked(name, name == v.tuning@), Ask::Tuning(name))
}

/// Every shipped tuning, the live one marked rather than hidden.
pub open spec fn tuning_rows(v: MenuView) -> Seq<Row> {
    Seq::new(v.lists.tunings@.len(), |i: int| tuning_row(v, i))
}

pub open spec fn capo_label(fret: u8) -> Seq<char> {
    if fret == 0 {
        "No Capo"@
    } else {
        "Fret "@ + crate::text::decimal(fret as nat)
    }
}

pub open spec fn capo_row(v: MenuView, fret: u8) -> Row {
    plain(marked(capo_label(fret), fret == v.capo), MenuAction::SetCapo(fret))
}

pub open spec fn capo_rows(v: MenuView) -> Seq<Row> {
    Seq::new((CAPO_MAX + 1) as nat, |i: int| capo_row(v, i as u8))
}

/// Four categories, while the neck is on screen.
pub open spec fn guitar(v: MenuView) -> Seq<Line> {
    if v.fretboard_on {
        category("Fretboard"@, fretboard_rows(v)) + category("Wood"@, wood_rows(v)) + category(
            "Tuning"@,
            tuning_rows(v),
        ) + category("Capo"@, capo_rows(v))
    } else {
        seq![]
    }
}

fn make_fretboard_rows(v: &MenuView) -> (r: Vec<SubItem>)
    ensures
        rows_of(r@) == fretboard_rows(*v),
{
    let mut rows: Vec<SubItem> = Vec::new();
    assert(rows_of(rows@) =~= seq![]);
    put_row(&mut rows, clickable("Hide Fretboard", MenuAction::ToggleFretboard));
    put_row(
        &mut rows,
        clickable(
            if v.fret_note_names {
                "Hide Note Names on the Neck"
            } else {
                "Show Note Names on the Neck"
            },
            MenuAction::ToggleFretNoteNames,
        ),
    );
    put_row(
        &mut rows,
        clickable(
            if v.guitar_intervals {
                "Hide Intervals"
            } else {
                "Show Intervals"
            },
            MenuAction::ToggleGuitarIntervals,
        ),
    );
    put_row(&mut rows, clickable("Custom Tuning...", MenuAction::EditCustomTuning));
    rows
}

fn make_wood_rows(v: &MenuView) -> (r: Vec<SubItem>)
    ensures
        rows_of(r@) == wood_rows(*v),
{
    let mut rows: Vec<SubItem> = Vec::new();
    assert(rows_of(rows@) =~= Seq::new(0, |k: int| wood_row(*v, k)));
    for i in 0..3usize
        invariant
            rows_of(rows@) == Seq::new(i as nat, |k: int| wood_row(*v, k)),
    {
        let w: Wood = Wood::ALL[i];
        put_row(
            &mut rows,
            SubItem {
                label: mark(w.label(), text::same(w.key(), v.wood)),
                action: MenuAction::SetWood(w.key()),
                enabled: true,
            },
        );
        assert(rows_of(rows@) =~= Seq::new((i + 1) as nat, |k: int| wood_row(*v, k)));
    }
    rows
}

fn make_tuning_rows(v: &MenuView) -> (r: Vec<SubItem>)
    ensures
        rows_of(r@) == tuning_rows(*v),
{
    let mut rows: Vec<SubItem> = Vec::new();
    assert(rows_of(rows@) =~= Seq::new(0, |k: int| tuning_row(*v, k)));
    for i in 0..v.lists.tunings.len()
        invariant
            rows_of(rows@) == Seq::new(i as nat, |k: int| tuning_row(*v, k)),
    {
        let name = &v.lists.tunings[i];
        put_row(
            &mut rows,
            SubItem {
                label: mark(name.as_str(), text::same(name.as_str(), v.tuning.as_str())),
                action: MenuAction::SetTuning(name.clone()),
                enabled: true,
            },
        );
        assert(rows_of(rows@) =~= Seq::new((i + 1) as nat, |k: int| tuning_row(*v, k)));
    }
    rows
}

fn make_capo_rows(v: &MenuView) -> (r: Vec<SubItem>)
    ensures
        rows_of(r@) == capo_rows(*v),
{
    let mut rows: Vec<SubItem> = Vec::new();
    assert(rows_of(rows@) =~= Seq::new(0, |k: int| capo_row(*v, k as u8)));
    for f in 0..CAPO_MAX + 1
        invariant
            rows_of(rows@) == Seq::new(f as nat, |k: int| capo_row(*v, k as u8)),
    {
        let label = if f == 0 {
            "No Capo".to_owned()
        } else {
            text::join("Fret ", text::number(f as u64).as_str())
        };
        put_row(
            &mut rows,
            SubItem {
                label: mark(label.as_str(), f == v.capo),
                action: MenuAction::SetCapo(f),
                enabled: true,
            },
        );
        assert(rows_of(rows@) =~= Seq::new((f + 1) as nat, |k: int| capo_row(*v, k as u8)));
    }
    rows
}

fn make_guitar(v: &MenuView) -> (r: Vec<Entry>)
    ensures
        lines_of(r@) == guitar(*v),
{
    let mut block: Vec<Entry> = Vec::new();
    assert(lines_of(block@) =~= seq![]);
    if v.fretboard_on {
        push_category(&mut block, "Fretboard", make_fretboard_rows(v));
        push_category(&mut block, "Wood", make_wood_rows(v));
        push_category(&mut block, "Tuning", make_tuning_rows(v));
        push_category(&mut block, "Capo", make_capo_rows(v));
    }
    assert(lines_of(block@) =~= guitar(*v));
    block
}

// ── The band's own ─────────────────────────────────────────────────────────
pub open spec fn forget_label(folders: nat) -> Seq<char> {
    "Forget "@ + crate::text::decimal(folders) + " Added Folder"@ + (if folders == 1 {
        ""@
    } else {
        "s"@
    })
}

pub open spec fn plugin_rows(v: MenuView) -> Seq<Row> {
    let rows = seq![
        plain("Rescan for Plugins"@, MenuAction::RescanPlugins),
        plain("Add a Folder..."@, MenuAction::AddPluginFolder),
    ];
    if v.extra_plugin_folders > 0 {
        rows.push(
            plain(
                forget_label(v.extra_plugin_folders as nat),
                MenuAction::ClearPluginFolders,
            ),
        )
    } else {
        rows
    }
}

/// The recorder's one category is there: its band is up, on a host that may
/// open a device.
pub open spec fn band_showing(v: MenuView) -> bool {
    v.caps.capture_devices && v.recorder_on
}

/// Where the band's instruments are found.
pub open spec fn band(v: MenuView) -> Seq<Line> {
    if band_showing(v) {
        category("Plugin folders"@, plugin_rows(v))
    } else {
        seq![]
    }
}

fn make_plugin_rows(v: &MenuView) -> (r: Vec<SubItem>)
    ensures
        rows_of(r@) == plugin_rows(*v),
{
    let mut rows: Vec<SubItem> = Vec::new();
    assert(rows_of(rows@) =~= seq![]);
    put_row(&mut rows, clickable("Rescan for Plugins", MenuAction::RescanPlugins));
    put_row(&mut rows, clickable("Add a Folder...", MenuAction::AddPluginFolder));
    if v.extra_plugin_folders > 0 {
        let mut label = text::join(
            "Forget ",
            text::number(v.extra_plugin_folders as u64).as_str(),
        );
        label.append(" Added Folder");
        label.append(
            if v.extra_plugin_folders == 1 {
                ""
            } else {
                "s"
            },
        );
        put_row(&mut rows, clickable(label.as_str(), MenuAction::ClearPluginFolders));
    }
    rows
}

fn make_band(v: &MenuView) -> (r: Vec<Entry>)
    ensures
        lines_of(r@) == band(*v),
{
    let mut block: Vec<Entry> = Vec::new();
    assert(lines_of(block@) =~= seq![]);
    if v.caps.capture_devices && v.recorder_on {
        push_category(&mut block, "Plugin folders", make_plugin_rows(v));
    }
    assert(lines_of(block@) =~= band(*v));
    block
}

// ── The rows that are not a category ───────────────────────────────────────
pub open spec fn tail(v: MenuView) -> Seq<Line> {
    let support = seq![
        Line::Item(
            plain(
                if v.supporter {
                    "Supporter Key..."@
                } else {
                    "Support Tangent..."@
                },
                MenuAction::ShowSupporterKey,
            ),
        ),
    ];
    let heart = if v.supporter {
        support.push(
            Line::Item(
                plain(
                    if v.heart_on {
                        "Hide Heart"@
                    } else {
                        "Show Heart"@
                    },
                    MenuAction::ToggleHeart,
                ),
            ),
        )
    } else {
        support
    };
    heart.push(Line::Separator).push(
        Line::Item(plain("About"@, MenuAction::ShowAbout)),
    ).push(Line::Item(plain("Reset Settings to Default"@, MenuAction::ResetSettings)))
}

fn make_tail(v: &MenuView) -> (r: Vec<Entry>)
    ensures
        lines_of(r@) == tail(*v),
{
    let mut block: Vec<Entry> = Vec::new();
    assert(lines_of(block@) =~= seq![]);
    put_line(
        &mut block,
        item(
            if v.supporter {
                "Supporter Key..."
            } else {
                "Support Tangent..."
            },
            MenuAction::ShowSupporterKey,
        ),
    );
    if v.supporter {
        put_line(
            &mut block,
            item(
                if v.heart_on {
                    "Hide Heart"
                } else {
                    "Show Heart"
                },
                MenuAction::ToggleHeart,
            ),
        );
    }
    put_line(&mut block, Entry::Separator);
    put_line(&mut block, item("About", MenuAction::ShowAbout));
    put_line(&mut block, item("Reset Settings to Default", MenuAction::ResetSettings));
    block
}

// ── Joining the blocks ─────────────────────────────────────────────────────
/// `block` behind `lines`, with a separator where there is something on both
/// sides of it.
pub open spec fn with_block(lines: Seq<Line>, block: Seq<Line>) -> Seq<Line> {
    if block.len() == 0 {
        lines
    } else if lines.len() == 0 {
        block
    } else {
        lines.push(Line::Separator) + block
    }
}

/// The menu in its usual order.
pub open spec fn compartments(v: MenuView) -> Seq<Line> {
    with_block(
        with_block(
            with_block(
                with_block(with_block(everywhere(v), piano(v)), theory(v)),
                guitar(v),
            ),
            band(v),
        ),
        tail(v),
    )
}

fn append_block(lines: &mut Vec<Entry>, block: Vec<Entry>)
    ensures
        lines_of(final(lines)@) == with_block(lines_of(old(lines)@), lines_of(block@)),
{
    let mut block = block;
    if block.len() == 0 {
        return ;
    }
    if lines.len() > 0 {
        put_line(lines, Entry::Separator);
    }
    let ghost upper = lines@;
    let ghost lower = block@;
    lines.append(&mut block);
    assert(lines_of(lines@) =~= lines_of(upper) + lines_of(lower));
    assert(lines_of(lines@) =~= with_block(lines_of(old(lines)@), lines_of(lower)));
}

// ── Leading with what was clicked ──────────────────────────────────────────
/// `line` is the category called `name`.
pub open spec fn is_category(line: Line, name: Seq<char>) -> bool {
    line matches Line::Category { label, .. } && label == name
}

/// Where the first category called `name` stands; past the end when there is
/// none.
pub open spec fn place_of(lines: Seq<Line>, name: Seq<char>) -> int
    decreases lines.len(),
{
    if lines.len() == 0 || is_category(lines[0], name) {
        0
    } else {
        1 + place_of(lines.drop_first(), name)
    }
}

/// `lines` with the category called `name` brought to the front.
pub open spec fn led_by(lines: Seq<Line>, name: Seq<char>) -> Seq<Line> {
    let i = place_of(lines, name);
    if i < lines.len() {
        seq![lines[i]] + lines.remove(i)
    } else {
        lines
    }
}

/// The sheet music's own categories first.
pub open spec fn staff_led(lines: Seq<Line>) -> Seq<Line> {
    led_by(led_by(led_by(lines, "Staves"@), "Key"@), "Clef"@)
}

/// The recorder's own category first, with a separator under it.
pub open spec fn recorder_led(lines: Seq<Line>) -> Seq<Line> {
    let i = place_of(lines, "Plugin folders"@);
    if i < lines.len() {
        seq![lines[i], Line::Separator] + lines.remove(i)
    } else {
        lines
    }
}

/// The first place is where it is found, with nothing by that name before it.
pub(crate) proof fn lemma_place_of(lines: Seq<Line>, name: Seq<char>)
    ensures
        0 <= place_of(lines, name) <= lines.len(),
        place_of(lines, name) < lines.len() ==> is_category(lines[place_of(lines, name)], name),
        forall|j: int|
            0 <= j < place_of(lines, name) ==> !is_category(#[trigger] lines[j], name),
    decreases lines.len(),
{
    if lines.len() > 0 && !is_category(lines[0], name) {
        let rest = lines.drop_first();
        lemma_place_of(rest, name);
        assert forall|j: int| 0 <= j < place_of(lines, name) implies !is_category(
            #[trigger] lines[j],
            name,
        ) by {
            if j > 0 {
                assert(lines[j] == rest[j - 1]);
            }
        }
    }
}

pub(crate) proof fn lemma_place_is(lines: Seq<Line>, name: Seq<char>, i: int)
    requires
        0 <= i <= lines.len(),
        i < lines.len() ==> is_category(lines[i], name),
        forall|j: int| 0 <= j < i ==> !is_category(#[trigger] lines[j], name),
    ensures
        place_of(lines, name) == i,
{
    lemma_place_of(lines, name);
    let p = place_of(lines, name);
    if p < i {
        assert(!is_category(lines[p], name));
    }
    if i < p {
        assert(!is_category(lines[i], name));
    }
}

fn find_category(e: &Vec<Entry>, name: &str) -> (r: usize)
    ensures
        r == place_of(lines_of(e@), name@),
        r <= e@.len(),
{
    for i in 0..e.len()
        invariant
            forall|j: int| 0 <= j < i ==> !is_category(#[trigger] lines_of(e@)[j], name@),
    {
        let found = match &e[i] {
            Entry::Submenu { label, .. } => text::same(label.as_str(), name),
            _ => false,
        };
        if found {
            proof {
                lemma_place_is(lines_of(e@), name@, i as int);
            }
            return i;
        }
        assert(!is_category(lines_of(e@)[i as int], name@));
    }
    proof {
        lemma_place_is(lines_of(e@), name@, e@.len() as int);
    }
    e.len()
}

fn lead_with(e: &mut Vec<Entry>, name: &str)
    ensures
        lines_of(final(e)@) == led_by(lines_of(old(e)@), name@),
{
    let i: usize = find_category(e, name);
    if i < e.len() {
        let ghost before = e@;
        let found = e.remove(i);
        e.insert(0, found);
        assert(lines_of(e@) =~= led_by(lines_of(before), name@));
    }
}

/// Bring the sheet music's own categories to the front, for a right-click that
/// landed on it. It reorders and does not filter.
pub fn move_staff_to_the_front(e: &mut Vec<Entry>)
    ensures
        lines_of(final(e)@) == staff_led(lines_of(old(e)@)),
{
    lead_with(e, "Staves");
    lead_with(e, "Key");
    lead_with(e, "Clef");
}

/// Bring the Recorder's category to the top, for a right-click on the band. It
/// reorders and does not filter: a menu showing only what is under the pointer
/// would be a second menu to learn.
pub fn move_recorder_to_the_front(e: &mut Vec<Entry>)
    ensures
        lines_of(final(e)@) == recorder_led(lines_of(old(e)@)),
{
    let i: usize = find_category(e, "Plugin folders");
    if i < e.len() {
        let ghost before = e@;
        let found = e.remove(i);
        e.insert(0, Entry::Separator);
        e.insert(0, found);
        assert(lines_of(e@) =~= recorder_led(lines_of(before)));
    }
}

/// `lines` without the separators that directly follow another.
pub open spec fn single_separators(lines: Seq<Line>) -> Seq<Line>
    decreases lines.len(),
{
    if lines.len() == 0 {
        seq![]
    } else {
        let above = single_separators(lines.drop_last());
        if lines.last() == Line::Separator && above.len() > 0 && above.last() == Line::Separator {
            above
        } else {
            above.push(lines.last())
        }
    }
}

/// Drop every separator that directly follows another, such as the one a
/// category leaves behind when it is lifted out of a block of its own.
fn drop_doubled_separators(e: Vec<Entry>) -> (r: Vec<Entry>)
    ensures
        lines_of(r@) == single_separators(lines_of(e@)),
{
    let ghost lines = lines_of(e@);
    let mut out: Vec<Entry> = Vec::new();
    let mut after_separator = false;
    assert(lines.take(0) =~= seq![]);
    assert(lines_of(out@) =~= seq![]);
    for entry in it: e
        invariant
            lines == lines_of(it.seq()),
            lines_of(out@) == single_separators(lines.take(it.index() as int)),
            after_separator == (out@.len() > 0 && lines_of(out@).last() == Line::Separator),
    {
        let ghost k = it.index() as int;
        let ghost above = out@;
        assert(lines.take(k + 1).drop_last() =~= lines.take(k));
        assert(lines[k] == entry@);
        let separator = matches!(entry, Entry::Separator);
        if !(separator && after_separator) {
            out.push(entry);
            after_separator = separator;
            assert(lines_of(out@) =~= lines_of(above).push(lines[k]));
        }
    }
    assert(lines.take(lines.len() as int) =~= lines);
    out
}

// ── The menu ───────────────────────────────────────────────────────────────
/// The compartments, with the recorder's category in front after a click on the
/// band. It was a block of its own, and its separator goes with it.
pub open spec fn led(v: MenuView) -> Seq<Line> {
    if v.recorder_first {
        single_separators(recorder_led(compartments(v)))
    } else {
        compartments(v)
    }
}

/// The menu that `v` asks for. A click that is somehow on both surfaces lands
/// on the sheet music, the more specific of the two.
pub open spec fn menu(v: MenuView) -> Seq<Line> {
    if v.staff_first && v.staff_on {
        staff_led(led(v))
    } else {
        led(v)
    }
}

/// The menu, in its compartments.
pub fn build_entries(view: MenuView) -> (r: Vec<Entry>)
    ensures
        lines_of(r@) == menu(view),
{
    let mut e = make_everywhere(&view);
    append_block(&mut e, make_piano(&view));
    append_block(&mut e, make_theory(&view));
    append_block(&mut e, make_guitar(&view));
    append_block(&mut e, make_band(&view));
    append_block(&mut e, make_tail(&view));
    if view.recorder_first {
        move_recorder_to_the_front(&mut e);
        e = drop_doubled_separators(e);
    }
    if view.staff_first && view.staff_on {
        move_staff_to_the_front(&mut e);
    }
    e
}

/// The rows that can be clicked without opening a hover, in the order they are
/// drawn.
pub open spec fn top_rows(lines: Seq<Line>) -> Seq<(Seq<char>, Ask)>
    decreases lines.len(),
{
    if lines.len() == 0 {
        seq![]
    } else {
        let above = top_rows(lines.drop_last());
        match lines.last() {
            Line::Item(row) => above.push((row.label, row.ask)),
            _ => above,
        }
    }
}

/// A label and an action, as they read.
pub open spec fn pairs_of(rows: Seq<(String, MenuAction)>) -> Seq<(Seq<char>, Ask)> {
    rows.map_values(|p: (String, MenuAction)| (p.0@, p.1@))
}

/// The clickable rows of the top level: separators cannot be clicked, and a
/// submenu parent opens rather than acts.
pub fn rows_for_test(view: MenuView) -> (r: Vec<(String, MenuAction)>)
    ensures
        pairs_of(r@) == top_rows(menu(view)),
{
    let entries = build_entries(view);
    let ghost lines = lines_of(entries@);
    let mut rows: Vec<(String, MenuAction)> = Vec::new();
    assert(lines.take(0) =~= seq![]);
    assert(pairs_of(rows@) =~= top_rows(lines.take(0)));
    for e in it: entries
        invariant
            lines == lines_of(it.seq()),
            pairs_of(rows@) == top_rows(lines.take(it.index() as int)),
    {
        let ghost k = it.index() as int;
        let ghost before = rows@;
        assert(lines.take(k + 1).drop_last() =~= lines.take(k));
        assert(lines[k] == e@);
        if let Entry::Item { label, action, .. } = e {
            rows.push((label, action));
            assert(pairs_of(rows@) =~= pairs_of(before).push((label@, action@)));
        }
    }
    assert(lines.take(lines.len() as int) =~= lines);
    rows
}

} // verus!
