//! The menu, row by row: how each row reads, what it asks for, when it is there,
//! and where it stands.

use crate::fretboard_panel::Wood;
use crate::menu::entries::{Line, Row, SIZE_PERCENTS, STAFF_PRESETS};
use crate::menu::{
    build_entries, colors, Ask, ColorTarget, Entry, MenuAction, MenuColors, MenuView,
};
use vstd::prelude::*;

verus! {

// ── Where a row can come from ──────────────────────────────────────────────
/// `row` is `line`, or one of the rows it opens onto.
pub open spec fn line_has(line: Line, row: Row) -> bool {
    match line {
        Line::Separator => false,
        Line::Item(r) => r == row,
        Line::Category { rows, .. } => rows.contains(row),
    }
}

/// `row` is somewhere in the menu.
pub open spec fn has_row(lines: Seq<Line>, row: Row) -> bool {
    exists|i: int| 0 <= i < lines.len() && line_has(#[trigger] lines[i], row)
}

proof fn lemma_either(a: Seq<Line>, b: Seq<Line>, row: Row)
    ensures
        has_row(a + b, row) <==> has_row(a, row) || has_row(b, row),
{
    let all = a + b;
    if has_row(a, row) {
        let i = choose|i: int| 0 <= i < a.len() && line_has(#[trigger] a[i], row);
        assert(all[i] == a[i]);
    }
    if has_row(b, row) {
        let i = choose|i: int| 0 <= i < b.len() && line_has(#[trigger] b[i], row);
        assert(all[a.len() + i] == b[i]);
    }
    if has_row(all, row) {
        let i = choose|i: int| 0 <= i < all.len() && line_has(#[trigger] all[i], row);
        if i < a.len() {
            assert(a[i] == all[i]);
        } else {
            assert(b[i - a.len()] == all[i]);
        }
    }
}

proof fn lemma_one(line: Line, row: Row)
    ensures
        has_row(seq![line], row) <==> line_has(line, row),
        !has_row(Seq::<Line>::empty(), row),
{
    assert(seq![line][0] == line);
}

proof fn lemma_category_rows(label: Seq<char>, rows: Seq<Row>, row: Row)
    ensures
        has_row(crate::menu::entries::category(label, rows), row) <==> rows.contains(row),
{
    let lines = crate::menu::entries::category(label, rows);
    if rows.len() == 1 {
        lemma_one(Line::Item(rows[0]), row);
        if rows.contains(row) {
            assert(rows[0] == row);
        }
    } else if rows.len() > 1 {
        lemma_one(Line::Category { label, rows }, row);
    }
}

proof fn lemma_block(lines: Seq<Line>, block: Seq<Line>, row: Row)
    ensures
        has_row(crate::menu::entries::with_block(lines, block), row) <==> has_row(lines, row)
            || has_row(block, row),
{
    lemma_either(lines.push(Line::Separator), block, row);
    lemma_either(lines, seq![Line::Separator], row);
    lemma_one(Line::Separator, row);
    assert(lines.push(Line::Separator) =~= lines + seq![Line::Separator]);
}

proof fn lemma_moved(v: MenuView, row: Row)
    ensures
        has_row(crate::menu::entries::menu(v), row) <==> has_row(
            crate::menu::entries::compartments(v),
            row,
        ),
{
    broadcast use vstd::seq_lib::group_to_multiset_ensures;

    let menu = crate::menu::entries::menu(v);
    let all = crate::menu::entries::compartments(v);
    if has_row(menu, row) {
        let i = choose|i: int| 0 <= i < menu.len() && line_has(#[trigger] menu[i], row);
        crate::menu::shape::the_click_loses_nothing(v, menu[i]);
        assert(menu.contains(menu[i]));
        assert(menu.to_multiset().count(menu[i]) > 0);
        assert(all.to_multiset().count(menu[i]) > 0);
        assert(all.contains(menu[i]));
        let k = choose|k: int| 0 <= k < all.len() && all[k] == menu[i];
        assert(line_has(all[k], row));
    }
    if has_row(all, row) {
        let i = choose|i: int| 0 <= i < all.len() && line_has(#[trigger] all[i], row);
        crate::menu::shape::the_click_loses_nothing(v, all[i]);
        assert(all.contains(all[i]));
        assert(all.to_multiset().count(all[i]) > 0);
        assert(menu.to_multiset().count(all[i]) > 0);
        assert(menu.contains(all[i]));
        let k = choose|k: int| 0 <= k < menu.len() && menu[k] == all[i];
        assert(line_has(menu[k], row));
    }
}

spec fn in_everywhere(v: MenuView, row: Row) -> bool {
    ||| v.caps.midi_ports && row == crate::menu::entries::plain(
        "Select MIDI Input..."@,
        MenuAction::SelectMidiInput,
    )
    ||| crate::menu::entries::window_rows(v).contains(row)
    ||| crate::menu::entries::color_rows().contains(row)
    ||| crate::menu::entries::chord_rows(v).contains(row)
}

proof fn lemma_everywhere(v: MenuView, row: Row)
    ensures
        has_row(crate::menu::entries::everywhere(v), row) <==> in_everywhere(v, row),
{
    let item = Line::Item(
        crate::menu::entries::plain("Select MIDI Input..."@, MenuAction::SelectMidiInput),
    );
    let device = if v.caps.midi_ports {
        seq![item]
    } else {
        seq![]
    };
    let w = crate::menu::entries::category("Window"@, crate::menu::entries::window_rows(v));
    let c = crate::menu::entries::category("Colors"@, crate::menu::entries::color_rows());
    let d = crate::menu::entries::category("Chords"@, crate::menu::entries::chord_rows(v));
    lemma_one(item, row);
    lemma_category_rows("Window"@, crate::menu::entries::window_rows(v), row);
    lemma_category_rows("Colors"@, crate::menu::entries::color_rows(), row);
    lemma_category_rows("Chords"@, crate::menu::entries::chord_rows(v), row);
    lemma_either(device, w, row);
    lemma_either(device + w, c, row);
    lemma_either(device + w + c, d, row);
}

spec fn follow_row(v: MenuView) -> Row {
    crate::menu::entries::plain(
        if v.theory_follows_midi {
            "Stop Following MIDI"@
        } else {
            "Follow MIDI"@
        },
        MenuAction::ToggleTheoryFollowsMidi,
    )
}

spec fn in_theory(v: MenuView, row: Row) -> bool {
    ||| v.staff_on && crate::menu::entries::clef_rows(v).contains(row)
    ||| crate::menu::entries::theory_showing(v) && crate::menu::entries::key_rows(v).contains(row)
    ||| v.staff_on && crate::menu::entries::stave_rows(v).contains(row)
    ||| crate::menu::entries::theory_showing(v) && row == follow_row(v)
}

proof fn lemma_theory(v: MenuView, row: Row)
    ensures
        has_row(crate::menu::entries::theory(v), row) <==> in_theory(v, row),
{
    let showing = crate::menu::entries::theory_showing(v);
    let c = if v.staff_on {
        crate::menu::entries::category("Clef"@, crate::menu::entries::clef_rows(v))
    } else {
        seq![]
    };
    let k = if showing {
        crate::menu::entries::category("Key"@, crate::menu::entries::key_rows(v))
    } else {
        seq![]
    };
    let s = if v.staff_on {
        crate::menu::entries::category("Staves"@, crate::menu::entries::stave_rows(v))
    } else {
        seq![]
    };
    let f = if showing {
        seq![Line::Item(follow_row(v))]
    } else {
        seq![]
    };
    assert(crate::menu::entries::theory(v) == c + k + s + f);
    lemma_one(Line::Item(follow_row(v)), row);
    lemma_category_rows("Clef"@, crate::menu::entries::clef_rows(v), row);
    lemma_category_rows("Key"@, crate::menu::entries::key_rows(v), row);
    lemma_category_rows("Staves"@, crate::menu::entries::stave_rows(v), row);
    lemma_either(c, k, row);
    lemma_either(c + k, s, row);
    lemma_either(c + k + s, f, row);
}

spec fn in_guitar(v: MenuView, row: Row) -> bool {
    v.fretboard_on && {
        ||| crate::menu::entries::fretboard_rows(v).contains(row)
        ||| crate::menu::entries::wood_rows(v).contains(row)
        ||| crate::menu::entries::tuning_rows(v).contains(row)
        ||| crate::menu::entries::capo_rows(v).contains(row)
    }
}

proof fn lemma_guitar(v: MenuView, row: Row)
    ensures
        has_row(crate::menu::entries::guitar(v), row) <==> in_guitar(v, row),
{
    let a = crate::menu::entries::category("Fretboard"@, crate::menu::entries::fretboard_rows(v));
    let b = crate::menu::entries::category("Wood"@, crate::menu::entries::wood_rows(v));
    let c = crate::menu::entries::category("Tuning"@, crate::menu::entries::tuning_rows(v));
    let d = crate::menu::entries::category("Capo"@, crate::menu::entries::capo_rows(v));
    lemma_category_rows("Fretboard"@, crate::menu::entries::fretboard_rows(v), row);
    lemma_category_rows("Wood"@, crate::menu::entries::wood_rows(v), row);
    lemma_category_rows("Tuning"@, crate::menu::entries::tuning_rows(v), row);
    lemma_category_rows("Capo"@, crate::menu::entries::capo_rows(v), row);
    lemma_either(a, b, row);
    lemma_either(a + b, c, row);
    lemma_either(a + b + c, d, row);
}

/// Every row of the menu is in one of its blocks.
proof fn lemma_menu(v: MenuView, row: Row)
    ensures
        has_row(crate::menu::entries::menu(v), row) <==> {
            ||| in_everywhere(v, row)
            ||| has_row(crate::menu::entries::piano(v), row)
            ||| in_theory(v, row)
            ||| in_guitar(v, row)
            ||| crate::menu::entries::band_showing(v) && crate::menu::entries::plugin_rows(
                v,
            ).contains(row)
            ||| has_row(crate::menu::entries::tail(v), row)
        },
{
    lemma_moved(v, row);
    let a = crate::menu::entries::everywhere(v);
    let b = crate::menu::entries::with_block(a, crate::menu::entries::piano(v));
    let c = crate::menu::entries::with_block(b, crate::menu::entries::theory(v));
    let d = crate::menu::entries::with_block(c, crate::menu::entries::guitar(v));
    let e = crate::menu::entries::with_block(d, crate::menu::entries::band(v));
    lemma_block(a, crate::menu::entries::piano(v), row);
    lemma_block(b, crate::menu::entries::theory(v), row);
    lemma_block(c, crate::menu::entries::guitar(v), row);
    lemma_block(d, crate::menu::entries::band(v), row);
    lemma_block(e, crate::menu::entries::tail(v), row);
    lemma_everywhere(v, row);
    lemma_theory(v, row);
    lemma_guitar(v, row);
    lemma_category_rows("Plugin folders"@, crate::menu::entries::plugin_rows(v), row);
}

// ── How a row reads ────────────────────────────────────────────────────────
/// A choice with the mark of the live one behind it, or without.
pub open spec fn live(label: Seq<char>, on: bool) -> Seq<char> {
    if on {
        label + "  \u{2022}"@
    } else {
        label
    }
}

/// What a row that asks for `ask` has to say, and whether it can be clicked.
pub open spec fn honest(v: MenuView, row: Row) -> bool {
    let says = row.label;
    match row.ask {
        Ask::Plain(MenuAction::SelectMidiInput) => says == "Select MIDI Input..."@,
        Ask::Plain(MenuAction::SetSizePercent(p)) => p >= 0 && says == crate::text::decimal(
            p as nat,
        ) + "%"@,
        Ask::Plain(MenuAction::ToggleBorderless) => says == (if v.borderless {
            "Bordered"@
        } else {
            "Borderless"@
        }),
        Ask::Plain(MenuAction::PickColor(ColorTarget::WhiteIdle)) => says
            == "Set White Key Color..."@,
        Ask::Plain(MenuAction::PickColor(ColorTarget::BlackIdle)) => says
            == "Set Black Key Color..."@,
        Ask::Plain(MenuAction::PickColor(ColorTarget::Active)) => says
            == "Set Active Key Color..."@,
        Ask::Plain(MenuAction::PickColor(ColorTarget::Sustain)) => says == "Set Sustain Color..."@,
        Ask::Plain(MenuAction::PickColor(ColorTarget::ChordText)) => says == "Set Chord Color..."@,
        Ask::Plain(MenuAction::PickColor(ColorTarget::RecorderBg)) => says
            == "Set Recorder Color..."@,
        Ask::Plain(MenuAction::ToggleChordDetection) => says == (if v.detection_enabled {
            "Disable Chord Detection"@
        } else {
            "Enable Chord Detection"@
        }),
        Ask::Plain(MenuAction::TeachChordName) => says == "Teach Chord Name..."@,
        Ask::Plain(MenuAction::ManageTaughtChords) => says == "Manage Taught Chords..."@,
        Ask::Plain(MenuAction::CorrectChordName) => says == "Correct Chord Name..."@,
        Ask::Plain(MenuAction::ToggleChordLearning) => says == (if v.learning_on {
            "Disable Chord Learning"@
        } else {
            "Enable Chord Learning"@
        }),
        Ask::Plain(MenuAction::ToggleChordStrip) => says == (if v.chord_strip {
            "Disable Chord Strip (legacy)"@
        } else {
            "Enable Chord Strip (legacy)"@
        }),
        Ask::Plain(MenuAction::SetStaffKey(k)) => exists|i: int|
            0 <= i < v.lists.keys@.len() && (#[trigger] v.lists.keys@[i]).sharps == k && says
                == live(v.lists.keys@[i].label@, v.staff_key == k),
        Ask::Plain(MenuAction::ToggleTheoryFollowsMidi) => says == (if v.theory_follows_midi {
            "Stop Following MIDI"@
        } else {
            "Follow MIDI"@
        }),
        Ask::Plain(MenuAction::ToggleFretboard) => says == "Hide Fretboard"@,
        Ask::Plain(MenuAction::ToggleFretNoteNames) => says == (if v.fret_note_names {
            "Hide Note Names on the Neck"@
        } else {
            "Show Note Names on the Neck"@
        }),
        Ask::Plain(MenuAction::ToggleGuitarIntervals) => says == (if v.guitar_intervals {
            "Hide Intervals"@
        } else {
            "Show Intervals"@
        }),
        Ask::Plain(MenuAction::EditCustomTuning) => says == "Custom Tuning..."@,
        Ask::Plain(MenuAction::SetCapo(f)) => says == live(
            if f == 0 {
                "No Capo"@
            } else {
                "Fret "@ + crate::text::decimal(f as nat)
            },
            v.capo == f,
        ),
        Ask::Plain(MenuAction::RescanPlugins) => says == "Rescan for Plugins"@,
        Ask::Plain(MenuAction::AddPluginFolder) => says == "Add a Folder..."@,
        Ask::Plain(MenuAction::ClearPluginFolders) => says == "Forget "@ + crate::text::decimal(
            v.extra_plugin_folders as nat,
        ) + " Added Folder"@ + (if v.extra_plugin_folders == 1 {
            ""@
        } else {
            "s"@
        }),
        Ask::Plain(MenuAction::ShowSupporterKey) => says == (if v.supporter {
            "Supporter Key..."@
        } else {
            "Support Tangent..."@
        }),
        Ask::Plain(MenuAction::ToggleHeart) => says == (if v.heart_on {
            "Hide Heart"@
        } else {
            "Show Heart"@
        }),
        Ask::Plain(MenuAction::ShowAbout) => says == "About"@,
        Ask::Plain(MenuAction::ResetSettings) => says == "Reset Settings to Default"@,
        Ask::Plain(_) => false,
        Ask::StaffSet(k) => {
            let on = v.staff_set@ == k;
            ||| k == "grand"@ && says == live("Grand staff"@, on)
            ||| k == "treble"@ && says == live("Treble"@, on)
            ||| k == "bass"@ && says == live("Bass"@, on)
            ||| k == "alto"@ && says == live("Alto"@, on)
            ||| k == "tenor"@ && says == live("Tenor"@, on)
            ||| k == "treble8vb"@ && says == live("Treble 8vb (guitar, tenor)"@, on)
            ||| k == "bass8vb"@ && says == live("Bass 8vb (double bass)"@, on)
            ||| k == "__custom__"@ && v.staff_custom_label is Some && says == live(
                v.staff_custom_label->0@,
                "custom:"@.is_prefix_of(v.staff_set@),
            )
        },
        Ask::CustomClef(k) => exists|i: int|
            0 <= i < v.lists.clefs@.len() && (#[trigger] v.lists.clefs@[i]).key@ == k && says
                == live(
                v.lists.clefs@[i].label@,
                crate::text::stands_in(v.staff_clefs@, k),
            ),
        Ask::Tuning(n) => says == live(n, v.tuning@ == n),
        Ask::Wood(k) => {
            let on = v.wood@ == k;
            ||| k == "rosewood"@ && says == live("Rosewood"@, on)
            ||| k == "maple"@ && says == live("Maple"@, on)
            ||| k == "ebony"@ && says == live("Ebony"@, on)
        },
    }
}

spec fn greyed_right(v: MenuView, row: Row) -> bool {
    row.enabled == (match row.ask {
        Ask::Plain(MenuAction::TeachChordName) => v.notes_held,
        Ask::Plain(MenuAction::CorrectChordName) => v.notes_held && v.detection_enabled,
        _ => true,
    })
}

proof fn lemma_honest_global(v: MenuView, row: Row)
    ensures
        in_everywhere(v, row) ==> honest(v, row) && greyed_right(v, row),
        has_row(crate::menu::entries::piano(v), row) ==> honest(v, row) && greyed_right(v, row),
        crate::menu::entries::plugin_rows(v).contains(row) ==> honest(v, row) && greyed_right(
            v,
            row,
        ),
        has_row(crate::menu::entries::tail(v), row) ==> honest(v, row) && greyed_right(v, row),
{
    assert(SIZE_PERCENTS@ =~= seq![50i64, 75, 100, 125, 150, 175, 200]);
    let w = crate::menu::entries::window_rows(v);
    if w.contains(row) {
        let i = choose|i: int| 0 <= i < w.len() && w[i] == row;
        if v.caps.size_presets && i < 7 {
            assert(row == crate::menu::entries::size_row(SIZE_PERCENTS@[i]));
            assert(SIZE_PERCENTS@[i] >= 0);
        }
    }
}

proof fn lemma_honest_theory(v: MenuView, row: Row)
    requires
        in_theory(v, row),
    ensures
        honest(v, row) && greyed_right(v, row),
{
    let c = crate::menu::entries::clef_rows(v);
    let k = crate::menu::entries::key_rows(v);
    let s = crate::menu::entries::stave_rows(v);
    if c.contains(row) {
        let i = choose|i: int| 0 <= i < c.len() && c[i] == row;
        if i < 7 {
            assert(row == crate::menu::entries::preset_row(v, i));
            assert(STAFF_PRESETS@[0] == ("grand", "Grand staff"));
            assert(STAFF_PRESETS@[1] == ("treble", "Treble"));
            assert(STAFF_PRESETS@[2] == ("bass", "Bass"));
            assert(STAFF_PRESETS@[3] == ("alto", "Alto"));
            assert(STAFF_PRESETS@[4] == ("tenor", "Tenor"));
            assert(STAFF_PRESETS@[5] == ("treble8vb", "Treble 8vb (guitar, tenor)"));
            assert(STAFF_PRESETS@[6] == ("bass8vb", "Bass 8vb (double bass)"));
        }
    } else if k.contains(row) {
        let i = choose|i: int| 0 <= i < k.len() && k[i] == row;
        assert(row == crate::menu::entries::key_row(v, i));
    } else if s.contains(row) {
        let i = choose|i: int| 0 <= i < s.len() && s[i] == row;
        assert(row == crate::menu::entries::stave_row(v, i));
        let key = v.lists.clefs@[i].key@;
        assert(crate::menu::entries::clef_is_up(v, key) == crate::text::stands_in(
            v.staff_clefs@,
            key,
        ));
    }
}

proof fn lemma_honest_guitar(v: MenuView, row: Row)
    requires
        in_guitar(v, row),
    ensures
        honest(v, row) && greyed_right(v, row),
{
    let w = crate::menu::entries::wood_rows(v);
    let t = crate::menu::entries::tuning_rows(v);
    let c = crate::menu::entries::capo_rows(v);
    if w.contains(row) {
        let i = choose|i: int| 0 <= i < w.len() && w[i] == row;
        assert(row == crate::menu::entries::wood_row(v, i));
        assert(Wood::ALL@[0] == Wood::Rosewood);
        assert(Wood::ALL@[1] == Wood::Maple);
        assert(Wood::ALL@[2] == Wood::Ebony);
    } else if t.contains(row) {
        let i = choose|i: int| 0 <= i < t.len() && t[i] == row;
        assert(row == crate::menu::entries::tuning_row(v, i));
    } else if c.contains(row) {
        let i = choose|i: int| 0 <= i < c.len() && c[i] == row;
        assert(row == crate::menu::entries::capo_row(v, i as u8));
    }
}

/// Every row in every menu says what it does: whatever a row asks for, its label
/// is the one for that, a toggle names the state it leads to, and a choice is
/// marked exactly when it is the live one.
pub proof fn every_row_says_what_it_does(v: MenuView, r: Vec<Entry>, row: Row)
    requires
        call_ensures(build_entries, (v,), r),
        has_row(crate::menu::entries::lines_of(r@), row),
    ensures
        honest(v, row),
{
    lemma_menu(v, row);
    lemma_honest_global(v, row);
    if in_theory(v, row) {
        lemma_honest_theory(v, row);
    }
    if in_guitar(v, row) {
        lemma_honest_guitar(v, row);
    }
}

/// The colour a row is named for is the colour it sets, and there is a row for
/// every colour.
pub proof fn a_colour_row_sets_the_colour_it_names(
    v: MenuView,
    r: Vec<Entry>,
    row: Row,
    target: ColorTarget,
)
    requires
        call_ensures(build_entries, (v,), r),
        has_row(crate::menu::entries::lines_of(r@), row),
        row.ask is Plain && row.ask->Plain_0 is PickColor,
    ensures
        row.label == "Set White Key Color..."@ <==> row.ask == Ask::Plain(
            MenuAction::PickColor(ColorTarget::WhiteIdle),
        ),
        row.label == "Set Black Key Color..."@ <==> row.ask == Ask::Plain(
            MenuAction::PickColor(ColorTarget::BlackIdle),
        ),
        row.label == "Set Active Key Color..."@ <==> row.ask == Ask::Plain(
            MenuAction::PickColor(ColorTarget::Active),
        ),
        row.label == "Set Sustain Color..."@ <==> row.ask == Ask::Plain(
            MenuAction::PickColor(ColorTarget::Sustain),
        ),
        row.label == "Set Chord Color..."@ <==> row.ask == Ask::Plain(
            MenuAction::PickColor(ColorTarget::ChordText),
        ),
        row.label == "Set Recorder Color..."@ <==> row.ask == Ask::Plain(
            MenuAction::PickColor(ColorTarget::RecorderBg),
        ),
        crate::menu::laws::offers(
            crate::menu::entries::lines_of(r@),
            Ask::Plain(MenuAction::PickColor(target)),
        ),
{
    every_row_says_what_it_does(v, r, row);
    reveal_strlit("Set White Key Color...");
    reveal_strlit("Set Black Key Color...");
    reveal_strlit("Set Active Key Color...");
    reveal_strlit("Set Sustain Color...");
    reveal_strlit("Set Chord Color...");
    reveal_strlit("Set Recorder Color...");
    assert("Set White Key Color..."@[4] == 'W');
    assert("Set Black Key Color..."@[4] == 'B');
    assert("Set Active Key Color..."@[4] == 'A');
    assert("Set Sustain Color..."@[4] == 'S');
    assert("Set Chord Color..."@[4] == 'C');
    assert("Set Recorder Color..."@[4] == 'R');
    crate::menu::laws::the_menu_offers_exactly_what_is_permitted(
        v,
        Ask::Plain(MenuAction::PickColor(target)),
    );
}

/// Only teaching and correcting are ever greyed: teaching without a voicing,
/// correcting without a voicing or without a detector to read it.
pub proof fn only_what_needs_a_voicing_is_greyed(v: MenuView, r: Vec<Entry>, row: Row)
    requires
        call_ensures(build_entries, (v,), r),
        has_row(crate::menu::entries::lines_of(r@), row),
    ensures
        row.ask == Ask::Plain(MenuAction::TeachChordName) ==> row.enabled == v.notes_held,
        row.ask == Ask::Plain(MenuAction::CorrectChordName) ==> row.enabled == (v.notes_held
            && v.detection_enabled),
        row.ask != Ask::Plain(MenuAction::TeachChordName) && row.ask != Ask::Plain(
            MenuAction::CorrectChordName,
        ) ==> row.enabled,
{
    lemma_menu(v, row);
    lemma_honest_global(v, row);
    if in_theory(v, row) {
        lemma_honest_theory(v, row);
    }
    if in_guitar(v, row) {
        lemma_honest_guitar(v, row);
    }
}

// ── When a row is there ────────────────────────────────────────────────────
/// Each row is there exactly while what it is about is on screen and the host
/// can do it, and a row about neither is always there.
pub proof fn a_row_is_there_while_its_subject_is(v: MenuView, r: Vec<Entry>, p: i64, f: u8)
    requires
        call_ensures(build_entries, (v,), r),
    ensures
        ({
            let lines = crate::menu::entries::lines_of(r@);
            let there = |a: MenuAction| crate::menu::laws::offers(lines, Ask::Plain(a));
            let theory = v.staff_on || v.theory.shown@.len() > 0;
            let band = v.caps.capture_devices && v.recorder_on;
            &&& there(MenuAction::SelectMidiInput) <==> v.caps.midi_ports
            &&& there(MenuAction::SetSizePercent(p)) <==> v.caps.size_presets && (p == 50 || p == 75
                || p == 100 || p == 125 || p == 150 || p == 175 || p == 200)
            &&& there(MenuAction::ToggleBorderless) <==> v.caps.window_sizing
            &&& there(MenuAction::ToggleChordDetection)
            &&& there(MenuAction::TeachChordName)
            &&& there(MenuAction::ManageTaughtChords)
            &&& there(MenuAction::CorrectChordName)
            &&& there(MenuAction::ToggleChordLearning)
            &&& there(MenuAction::ToggleChordStrip) <==> v.detection_enabled
            &&& there(MenuAction::ToggleTheoryFollowsMidi) <==> theory
            &&& there(MenuAction::ToggleFretboard) <==> v.fretboard_on
            &&& there(MenuAction::ToggleFretNoteNames) <==> v.fretboard_on
            &&& there(MenuAction::ToggleGuitarIntervals) <==> v.fretboard_on
            &&& there(MenuAction::EditCustomTuning) <==> v.fretboard_on
            &&& there(MenuAction::SetCapo(f)) <==> v.fretboard_on && f <= 9
            &&& there(MenuAction::RescanPlugins) <==> band
            &&& there(MenuAction::AddPluginFolder) <==> band
            &&& there(MenuAction::ClearPluginFolders) <==> band && v.extra_plugin_folders > 0
            &&& there(MenuAction::ShowSupporterKey)
            &&& there(MenuAction::ToggleHeart) <==> v.supporter
            &&& there(MenuAction::ShowAbout)
            &&& there(MenuAction::ResetSettings)
        }),
{
    lemma_offers(v, MenuAction::SelectMidiInput);
    lemma_offers(v, MenuAction::SetSizePercent(p));
    lemma_offers(v, MenuAction::ToggleBorderless);
    lemma_offers(v, MenuAction::ToggleChordDetection);
    lemma_offers(v, MenuAction::TeachChordName);
    lemma_offers(v, MenuAction::ManageTaughtChords);
    lemma_offers(v, MenuAction::CorrectChordName);
    lemma_offers(v, MenuAction::ToggleChordLearning);
    lemma_offers(v, MenuAction::ToggleChordStrip);
    lemma_offers(v, MenuAction::ToggleTheoryFollowsMidi);
    lemma_offers(v, MenuAction::ToggleFretboard);
    lemma_offers(v, MenuAction::ToggleFretNoteNames);
    lemma_offers(v, MenuAction::ToggleGuitarIntervals);
    lemma_offers(v, MenuAction::EditCustomTuning);
    lemma_offers(v, MenuAction::SetCapo(f));
    lemma_offers(v, MenuAction::RescanPlugins);
    lemma_offers(v, MenuAction::AddPluginFolder);
    lemma_offers(v, MenuAction::ClearPluginFolders);
    lemma_offers(v, MenuAction::ShowSupporterKey);
    lemma_offers(v, MenuAction::ToggleHeart);
    lemma_offers(v, MenuAction::ShowAbout);
    lemma_offers(v, MenuAction::ResetSettings);
    let all = SIZE_PERCENTS@;
    assert(all =~= seq![50i64, 75, 100, 125, 150, 175, 200]);
    assert(all[0] == 50 && all[1] == 75 && all[2] == 100 && all[3] == 125 && all[4] == 150 && all[5]
        == 175 && all[6] == 200);
}

proof fn lemma_offers(v: MenuView, a: MenuAction)
    ensures
        crate::menu::laws::offers(crate::menu::entries::menu(v), Ask::Plain(a))
            == crate::menu::laws::permitted(v, Ask::Plain(a)),
{
    crate::menu::laws::the_menu_offers_exactly_what_is_permitted(v, Ask::Plain(a));
}

/// Every choice of a list is there while its surface is: every clef preset and
/// the user's own stack, every staff, every key, every wood and every tuning.
pub proof fn every_choice_is_there(v: MenuView, r: Vec<Entry>, i: int)
    requires
        call_ensures(build_entries, (v,), r),
    ensures
        ({
            let lines = crate::menu::entries::lines_of(r@);
            let there = |a: Ask| crate::menu::laws::offers(lines, a);
            let theory = v.staff_on || v.theory.shown@.len() > 0;
            &&& v.staff_on ==> there(Ask::StaffSet("grand"@)) && there(Ask::StaffSet("treble"@))
                && there(Ask::StaffSet("bass"@)) && there(Ask::StaffSet("alto"@)) && there(
                Ask::StaffSet("tenor"@),
            ) && there(Ask::StaffSet("treble8vb"@)) && there(Ask::StaffSet("bass8vb"@))
            &&& v.staff_on && v.staff_custom_label is Some ==> there(Ask::StaffSet("__custom__"@))
            &&& v.staff_on && 0 <= i < v.lists.clefs@.len() ==> there(
                Ask::CustomClef(v.lists.clefs@[i].key@),
            )
            &&& theory && 0 <= i < v.lists.keys@.len() ==> there(
                Ask::Plain(MenuAction::SetStaffKey(v.lists.keys@[i].sharps)),
            )
            &&& v.fretboard_on ==> there(Ask::Wood("rosewood"@)) && there(Ask::Wood("maple"@))
                && there(Ask::Wood("ebony"@))
            &&& v.fretboard_on && 0 <= i < v.lists.tunings@.len() ==> there(
                Ask::Tuning(v.lists.tunings@[i]@),
            )
        }),
{
    assert(STAFF_PRESETS@[0].0@ == "grand"@ && STAFF_PRESETS@[1].0@ == "treble"@);
    assert(STAFF_PRESETS@[2].0@ == "bass"@ && STAFF_PRESETS@[3].0@ == "alto"@);
    assert(STAFF_PRESETS@[4].0@ == "tenor"@ && STAFF_PRESETS@[5].0@ == "treble8vb"@);
    assert(STAFF_PRESETS@[6].0@ == "bass8vb"@);
    assert(Wood::Rosewood.name() == "rosewood"@ && Wood::Maple.name() == "maple"@);
    assert(Wood::Ebony.name() == "ebony"@);
    lemma_offered(v, Ask::StaffSet("grand"@));
    lemma_offered(v, Ask::StaffSet("treble"@));
    lemma_offered(v, Ask::StaffSet("bass"@));
    lemma_offered(v, Ask::StaffSet("alto"@));
    lemma_offered(v, Ask::StaffSet("tenor"@));
    lemma_offered(v, Ask::StaffSet("treble8vb"@));
    lemma_offered(v, Ask::StaffSet("bass8vb"@));
    lemma_offered(v, Ask::StaffSet("__custom__"@));
    lemma_offered(v, Ask::Wood("rosewood"@));
    lemma_offered(v, Ask::Wood("maple"@));
    lemma_offered(v, Ask::Wood("ebony"@));
    if 0 <= i < v.lists.clefs@.len() {
        lemma_offered(v, Ask::CustomClef(v.lists.clefs@[i].key@));
    }
    if 0 <= i < v.lists.keys@.len() {
        lemma_offered(v, Ask::Plain(MenuAction::SetStaffKey(v.lists.keys@[i].sharps)));
    }
    if 0 <= i < v.lists.tunings@.len() {
        lemma_offered(v, Ask::Tuning(v.lists.tunings@[i]@));
    }
}

proof fn lemma_offered(v: MenuView, a: Ask)
    ensures
        crate::menu::laws::offers(crate::menu::entries::menu(v), a)
            == crate::menu::laws::permitted(v, a),
{
    crate::menu::laws::the_menu_offers_exactly_what_is_permitted(v, a);
}

// ── Where a row stands ─────────────────────────────────────────────────────
/// The hover a row is filed under, where it is in one.
pub open spec fn filed(label: Seq<char>, ask: Ask) -> bool {
    match ask {
        Ask::Plain(MenuAction::SetSizePercent(_)) => label == "Window"@,
        Ask::Plain(MenuAction::ToggleBorderless) => label == "Window"@,
        Ask::Plain(MenuAction::PickColor(_)) => label == "Colors"@,
        Ask::Plain(MenuAction::ToggleChordDetection) => label == "Chords"@,
        Ask::Plain(MenuAction::TeachChordName) => label == "Chords"@,
        Ask::Plain(MenuAction::ManageTaughtChords) => label == "Chords"@,
        Ask::Plain(MenuAction::CorrectChordName) => label == "Chords"@,
        Ask::Plain(MenuAction::ToggleChordLearning) => label == "Chords"@,
        Ask::StaffSet(_) => label == "Clef"@,
        Ask::Plain(MenuAction::SetStaffKey(_)) => label == "Key"@,
        Ask::CustomClef(_) => label == "Staves"@,
        Ask::Plain(MenuAction::ToggleFretboard) => label == "Fretboard"@,
        Ask::Plain(MenuAction::ToggleFretNoteNames) => label == "Fretboard"@,
        Ask::Plain(MenuAction::ToggleGuitarIntervals) => label == "Fretboard"@,
        Ask::Plain(MenuAction::EditCustomTuning) => label == "Fretboard"@,
        Ask::Wood(_) => label == "Wood"@,
        Ask::Tuning(_) => label == "Tuning"@,
        Ask::Plain(MenuAction::SetCapo(_)) => label == "Capo"@,
        Ask::Plain(MenuAction::RescanPlugins) => label == "Plugin folders"@,
        Ask::Plain(MenuAction::AddPluginFolder) => label == "Plugin folders"@,
        Ask::Plain(MenuAction::ClearPluginFolders) => label == "Plugin folders"@,
        _ => false,
    }
}

/// The order rows stand in, from the top of the menu to its end.
pub open spec fn turn(ask: Ask) -> int {
    match ask {
        Ask::Plain(MenuAction::SelectMidiInput) => 0,
        Ask::Plain(MenuAction::SetSizePercent(p)) => 1_000 + p,
        Ask::Plain(MenuAction::ToggleBorderless) => 2_000,
        Ask::Plain(MenuAction::PickColor(ColorTarget::WhiteIdle)) => 3_000,
        Ask::Plain(MenuAction::PickColor(ColorTarget::BlackIdle)) => 3_001,
        Ask::Plain(MenuAction::PickColor(ColorTarget::Active)) => 3_002,
        Ask::Plain(MenuAction::PickColor(ColorTarget::Sustain)) => 3_003,
        Ask::Plain(MenuAction::PickColor(ColorTarget::ChordText)) => 3_004,
        Ask::Plain(MenuAction::PickColor(ColorTarget::RecorderBg)) => 3_005,
        Ask::Plain(MenuAction::ToggleChordDetection) => 4_000,
        Ask::Plain(MenuAction::TeachChordName) => 4_001,
        Ask::Plain(MenuAction::ManageTaughtChords) => 4_002,
        Ask::Plain(MenuAction::CorrectChordName) => 4_003,
        Ask::Plain(MenuAction::ToggleChordLearning) => 4_004,
        Ask::Plain(MenuAction::ToggleChordStrip) => 5_000,
        Ask::StaffSet(_) => 6_000,
        Ask::Plain(MenuAction::SetStaffKey(_)) => 7_000,
        Ask::CustomClef(_) => 8_000,
        Ask::Plain(MenuAction::ToggleTheoryFollowsMidi) => 9_000,
        Ask::Plain(MenuAction::ToggleFretboard) => 10_000,
        Ask::Plain(MenuAction::ToggleFretNoteNames) => 10_001,
        Ask::Plain(MenuAction::ToggleGuitarIntervals) => 10_002,
        Ask::Plain(MenuAction::EditCustomTuning) => 10_003,
        Ask::Wood(_) => 11_000,
        Ask::Tuning(_) => 12_000,
        Ask::Plain(MenuAction::SetCapo(f)) => 13_000 + f,
        Ask::Plain(MenuAction::RescanPlugins) => 14_000,
        Ask::Plain(MenuAction::AddPluginFolder) => 14_001,
        Ask::Plain(MenuAction::ClearPluginFolders) => 14_002,
        Ask::Plain(MenuAction::ShowSupporterKey) => 15_000,
        Ask::Plain(MenuAction::ToggleHeart) => 15_001,
        Ask::Plain(MenuAction::ShowAbout) => 15_002,
        Ask::Plain(MenuAction::ResetSettings) => 15_003,
        _ => -1,
    }
}

/// Rows in their turn.
pub open spec fn rows_in_turn(rows: Seq<Row>) -> bool {
    forall|a: int, b: int|
        0 <= a < b < rows.len() ==> turn((#[trigger] rows[a]).ask) <= turn((#[trigger] rows[b]).ask)
}

spec fn well_filed(line: Line) -> bool {
    match line {
        Line::Category { label, rows } => rows_in_turn(rows) && forall|a: int|
            0 <= a < rows.len() ==> filed(label, (#[trigger] rows[a]).ask),
        _ => true,
    }
}

spec fn within(line: Line, lo: int, hi: int) -> bool {
    forall|row: Row| #[trigger] line_has(line, row) ==> lo <= turn(row.ask) < hi
}

/// Lines whose rows all have their turn between `lo` and `hi`, each line's
/// before the next line's.
spec fn spans(lines: Seq<Line>, lo: int, hi: int) -> bool {
    &&& lo <= hi
    &&& forall|i: int| 0 <= i < lines.len() ==> within(#[trigger] lines[i], lo, hi)
    &&& forall|i: int| 0 <= i < lines.len() ==> well_filed(#[trigger] lines[i])
    &&& forall|i: int, j: int, x: Row, y: Row|
        #![trigger line_has(lines[i], x), line_has(lines[j], y)]
        0 <= i < j < lines.len() && line_has(lines[i], x) && line_has(lines[j], y) ==> turn(x.ask)
            <= turn(y.ask)
}

proof fn lemma_spans(a: Seq<Line>, b: Seq<Line>, lo: int, mid: int, hi: int)
    requires
        spans(a, lo, mid),
        spans(b, mid, hi),
    ensures
        spans(a + b, lo, hi),
        spans(crate::menu::entries::with_block(a, b), lo, hi),
{
    lemma_spans_concat(a, b, lo, mid, hi);
    let bar = seq![Line::Separator];
    assert(spans(bar, mid, mid));
    lemma_spans_concat(a, bar, lo, mid, mid);
    lemma_spans_concat(a + bar, b, lo, mid, hi);
    assert(a.push(Line::Separator) =~= a + bar);
    lemma_wider(a, lo, mid, hi);
    if a.len() == 0 {
        assert(spans(b, lo, hi)) by {
            assert(a + b =~= b);
        }
    }
}

proof fn lemma_wider(a: Seq<Line>, lo: int, mid: int, hi: int)
    requires
        spans(a, lo, mid),
        mid <= hi,
    ensures
        spans(a, lo, hi),
{
    assert forall|i: int| 0 <= i < a.len() implies within(#[trigger] a[i], lo, hi) by {
        assert(within(a[i], lo, mid));
    }
}

proof fn lemma_spans_concat(a: Seq<Line>, b: Seq<Line>, lo: int, mid: int, hi: int)
    requires
        spans(a, lo, mid),
        spans(b, mid, hi),
    ensures
        spans(a + b, lo, hi),
{
    let all = a + b;
    let n = a.len() as int;
    assert forall|i: int| 0 <= i < all.len() implies within(#[trigger] all[i], lo, hi) by {
        if i < n {
            assert(within(a[i], lo, mid));
        } else {
            assert(within(b[i - n], mid, hi));
        }
    }
    assert forall|i: int| 0 <= i < all.len() implies well_filed(#[trigger] all[i]) by {
        if i < n {
            assert(well_filed(a[i]));
        } else {
            assert(well_filed(b[i - n]));
        }
    }
    assert forall|i: int, j: int, x: Row, y: Row|
        #![trigger line_has(all[i], x), line_has(all[j], y)]
        0 <= i < j < all.len() && line_has(all[i], x) && line_has(all[j], y) implies turn(x.ask)
        <= turn(y.ask) by {
        if j < n {
            assert(line_has(a[i], x) && line_has(a[j], y));
        } else if i >= n {
            assert(line_has(b[i - n], x) && line_has(b[j - n], y));
        } else {
            assert(within(a[i], lo, mid));
            assert(within(b[j - n], mid, hi));
            assert(line_has(a[i], x) && line_has(b[j - n], y));
        }
    }
}

proof fn lemma_spans_category(label: Seq<char>, rows: Seq<Row>, lo: int, hi: int)
    requires
        lo <= hi,
        rows_in_turn(rows),
        forall|a: int|
            0 <= a < rows.len() ==> filed(label, (#[trigger] rows[a]).ask) && lo <= turn(
                rows[a].ask,
            ) < hi,
    ensures
        spans(crate::menu::entries::category(label, rows), lo, hi),
{
    let lines = crate::menu::entries::category(label, rows);
    if rows.len() > 0 {
        assert forall|row: Row| #[trigger] line_has(lines[0], row) implies lo <= turn(row.ask)
            < hi by {
            if rows.len() == 1 {
                assert(row == rows[0]);
            } else {
                let a = choose|a: int| 0 <= a < rows.len() && rows[a] == row;
                assert(filed(label, rows[a].ask));
            }
        }
        assert(within(lines[0], lo, hi));
    }
}

proof fn lemma_spans_item(row: Row, lo: int, hi: int)
    requires
        lo <= turn(row.ask) < hi,
    ensures
        spans(seq![Line::Item(row)], lo, hi),
        spans(Seq::<Line>::empty(), lo, hi),
{
    let lines = seq![Line::Item(row)];
    assert(within(lines[0], lo, hi));
}

proof fn lemma_spans_everywhere(v: MenuView)
    ensures
        spans(crate::menu::entries::everywhere(v), 0, 5_000),
{
    let first = crate::menu::entries::plain("Select MIDI Input..."@, MenuAction::SelectMidiInput);
    let device = if v.caps.midi_ports {
        seq![Line::Item(first)]
    } else {
        seq![]
    };
    let w = crate::menu::entries::window_rows(v);
    assert(SIZE_PERCENTS@ =~= seq![50i64, 75, 100, 125, 150, 175, 200]);
    assert forall|a: int| 0 <= a < w.len() implies filed("Window"@, (#[trigger] w[a]).ask) && 1_000
        <= turn(w[a].ask) < 3_000 by {
        if v.caps.size_presets && a < 7 {
            assert(w[a] == crate::menu::entries::size_row(SIZE_PERCENTS@[a]));
        }
    }
    assert(rows_in_turn(w)) by {
        assert forall|a: int, b: int| 0 <= a < b < w.len() implies turn((#[trigger] w[a]).ask)
            <= turn((#[trigger] w[b]).ask) by {
            if v.caps.size_presets && a < 7 {
                assert(w[a] == crate::menu::entries::size_row(SIZE_PERCENTS@[a]));
            }
            if v.caps.size_presets && b < 7 {
                assert(w[b] == crate::menu::entries::size_row(SIZE_PERCENTS@[b]));
            }
        }
    }
    let window = crate::menu::entries::category("Window"@, w);
    let colors = crate::menu::entries::category("Colors"@, crate::menu::entries::color_rows());
    let chords = crate::menu::entries::category("Chords"@, crate::menu::entries::chord_rows(v));
    lemma_spans_item(first, 0, 1_000);
    lemma_spans_category("Window"@, w, 1_000, 3_000);
    lemma_spans_category("Colors"@, crate::menu::entries::color_rows(), 3_000, 4_000);
    lemma_spans_category("Chords"@, crate::menu::entries::chord_rows(v), 4_000, 5_000);
    lemma_spans_concat(device, window, 0, 1_000, 3_000);
    lemma_spans_concat(device + window, colors, 0, 3_000, 4_000);
    lemma_spans_concat(device + window + colors, chords, 0, 4_000, 5_000);
}

proof fn lemma_spans_piano(v: MenuView)
    ensures
        spans(crate::menu::entries::piano(v), 5_000, 6_000),
{
    let row = crate::menu::entries::plain(
        if v.chord_strip {
            "Disable Chord Strip (legacy)"@
        } else {
            "Enable Chord Strip (legacy)"@
        },
        MenuAction::ToggleChordStrip,
    );
    lemma_spans_item(row, 5_000, 6_000);
}

proof fn lemma_spans_theory(v: MenuView)
    ensures
        spans(crate::menu::entries::theory(v), 6_000, 10_000),
{
    let showing = crate::menu::entries::theory_showing(v);
    let clefs = crate::menu::entries::clef_rows(v);
    let keys = crate::menu::entries::key_rows(v);
    let staves = crate::menu::entries::stave_rows(v);
    assert forall|a: int| 0 <= a < clefs.len() implies (#[trigger] clefs[a]).ask is StaffSet by {
        if a < 7 {
            assert(clefs[a] == crate::menu::entries::preset_row(v, a));
        }
    }
    assert forall|a: int| 0 <= a < keys.len() implies turn((#[trigger] keys[a]).ask) == 7_000
        && filed("Key"@, keys[a].ask) by {
        assert(keys[a] == crate::menu::entries::key_row(v, a));
    }
    assert forall|a: int| 0 <= a < staves.len() implies (#[trigger] staves[a]).ask is CustomClef by {
        assert(staves[a] == crate::menu::entries::stave_row(v, a));
    }
    lemma_spans_category("Clef"@, clefs, 6_000, 7_000);
    lemma_spans_category("Key"@, keys, 7_000, 8_000);
    lemma_spans_category("Staves"@, staves, 8_000, 9_000);
    lemma_spans_item(follow_row(v), 9_000, 10_000);
    lemma_spans_nothing(6_000, 7_000);
    lemma_spans_nothing(7_000, 8_000);
    lemma_spans_nothing(8_000, 9_000);
    let c = if v.staff_on {
        crate::menu::entries::category("Clef"@, clefs)
    } else {
        seq![]
    };
    let k = if showing {
        crate::menu::entries::category("Key"@, keys)
    } else {
        seq![]
    };
    let s = if v.staff_on {
        crate::menu::entries::category("Staves"@, staves)
    } else {
        seq![]
    };
    let f = if showing {
        seq![Line::Item(follow_row(v))]
    } else {
        seq![]
    };
    assert(crate::menu::entries::theory(v) == c + k + s + f);
    lemma_spans_concat(c, k, 6_000, 7_000, 8_000);
    lemma_spans_concat(c + k, s, 6_000, 8_000, 9_000);
    lemma_spans_concat(c + k + s, f, 6_000, 9_000, 10_000);
}

proof fn lemma_spans_nothing(lo: int, hi: int)
    requires
        lo <= hi,
    ensures
        spans(Seq::<Line>::empty(), lo, hi),
{
}

proof fn lemma_spans_guitar(v: MenuView)
    ensures
        spans(crate::menu::entries::guitar(v), 10_000, 14_000),
{
    let neck = crate::menu::entries::fretboard_rows(v);
    let woods = crate::menu::entries::wood_rows(v);
    let tunings = crate::menu::entries::tuning_rows(v);
    let capos = crate::menu::entries::capo_rows(v);
    assert forall|a: int| 0 <= a < woods.len() implies (#[trigger] woods[a]).ask is Wood by {
        assert(woods[a] == crate::menu::entries::wood_row(v, a));
    }
    assert forall|a: int| 0 <= a < tunings.len() implies (#[trigger] tunings[a]).ask is Tuning by {
        assert(tunings[a] == crate::menu::entries::tuning_row(v, a));
    }
    assert forall|a: int| 0 <= a < capos.len() implies turn((#[trigger] capos[a]).ask) == 13_000 + a
        && filed("Capo"@, capos[a].ask) by {
        assert(capos[a] == crate::menu::entries::capo_row(v, a as u8));
    }
    lemma_spans_category("Fretboard"@, neck, 10_000, 11_000);
    lemma_spans_category("Wood"@, woods, 11_000, 12_000);
    lemma_spans_category("Tuning"@, tunings, 12_000, 13_000);
    lemma_spans_category("Capo"@, capos, 13_000, 14_000);
    lemma_spans_nothing(10_000, 14_000);
    let a = crate::menu::entries::category("Fretboard"@, neck);
    let b = crate::menu::entries::category("Wood"@, woods);
    let c = crate::menu::entries::category("Tuning"@, tunings);
    let d = crate::menu::entries::category("Capo"@, capos);
    lemma_spans_concat(a, b, 10_000, 11_000, 12_000);
    lemma_spans_concat(a + b, c, 10_000, 12_000, 13_000);
    lemma_spans_concat(a + b + c, d, 10_000, 13_000, 14_000);
}

proof fn lemma_spans_ends(v: MenuView)
    ensures
        spans(crate::menu::entries::band(v), 14_000, 15_000),
        spans(crate::menu::entries::tail(v), 15_000, 16_000),
{
    lemma_spans_category("Plugin folders"@, crate::menu::entries::plugin_rows(v), 14_000, 15_000);
    lemma_spans_nothing(14_000, 15_000);
    let t = crate::menu::entries::tail(v);
    assert forall|i: int| 0 <= i < t.len() implies within(#[trigger] t[i], 15_000, 16_000) by {
        assert forall|row: Row| #[trigger] line_has(t[i], row) implies 15_000 <= turn(row.ask)
            < 16_000 by {}
    }
}

proof fn lemma_spans_all(v: MenuView)
    ensures
        spans(crate::menu::entries::compartments(v), 0, 16_000),
{
    lemma_spans_everywhere(v);
    lemma_spans_piano(v);
    lemma_spans_theory(v);
    lemma_spans_guitar(v);
    lemma_spans_ends(v);
    let a = crate::menu::entries::everywhere(v);
    let b = crate::menu::entries::with_block(a, crate::menu::entries::piano(v));
    let c = crate::menu::entries::with_block(b, crate::menu::entries::theory(v));
    let d = crate::menu::entries::with_block(c, crate::menu::entries::guitar(v));
    let e = crate::menu::entries::with_block(d, crate::menu::entries::band(v));
    lemma_spans(a, crate::menu::entries::piano(v), 0, 5_000, 6_000);
    lemma_spans(b, crate::menu::entries::theory(v), 0, 6_000, 10_000);
    lemma_spans(c, crate::menu::entries::guitar(v), 0, 10_000, 14_000);
    lemma_spans(d, crate::menu::entries::band(v), 0, 14_000, 15_000);
    lemma_spans(e, crate::menu::entries::tail(v), 0, 15_000, 16_000);
}

/// In every menu a hover holds the rows of its own subject, in their order.
pub proof fn a_hover_holds_its_own_subject(
    v: MenuView,
    r: Vec<Entry>,
    i: int,
    a: int,
    b: int,
)
    requires
        call_ensures(build_entries, (v,), r),
        0 <= i < r@.len(),
    ensures
        r@[i]@ matches Line::Category { label, rows } ==> {
            &&& 0 <= a < rows.len() ==> filed(label, rows[a].ask)
            &&& 0 <= a < b < rows.len() ==> turn(rows[a].ask) <= turn(rows[b].ask)
        },
{
    broadcast use vstd::seq_lib::group_to_multiset_ensures;

    lemma_spans_all(v);
    let menu = crate::menu::entries::lines_of(r@);
    let all = crate::menu::entries::compartments(v);
    let line = menu[i];
    assert(line == r@[i]@);
    if line is Category {
        crate::menu::shape::the_click_loses_nothing(v, line);
        assert(menu.contains(line));
        assert(menu.to_multiset().count(line) > 0);
        assert(all.to_multiset().count(line) > 0);
        assert(all.contains(line));
        let k = choose|k: int| 0 <= k < all.len() && all[k] == line;
        assert(well_filed(all[k]));
    }
}

/// A menu that was not opened on the sheet music or on the band runs in its usual
/// order: what is true everywhere, the piano's own, the theory band's, the
/// guitar's, the recorder's, and the rows about the program itself.
pub proof fn the_menu_runs_in_its_usual_order(
    v: MenuView,
    r: Vec<Entry>,
    i: int,
    j: int,
    x: Row,
    y: Row,
)
    requires
        call_ensures(build_entries, (v,), r),
        !v.recorder_first,
        !(v.staff_first && v.staff_on),
        0 <= i < j < r@.len(),
        line_has(r@[i]@, x),
        line_has(r@[j]@, y),
    ensures
        turn(x.ask) <= turn(y.ask),
{
    lemma_spans_all(v);
    let all = crate::menu::entries::compartments(v);
    assert(all[i] == r@[i]@ && all[j] == r@[j]@);
    assert(line_has(all[i], x) && line_has(all[j], y));
}

/// The rows of a hover over a list are all of the list, in its order.
pub open spec fn whole_list(v: MenuView, rows: Seq<Row>) -> bool {
    rows.len() > 0 ==> match rows[0].ask {
        Ask::Plain(MenuAction::SetStaffKey(_)) => rows.len() == v.lists.keys@.len() && forall|a:
            int|
            0 <= a < rows.len() ==> (#[trigger] rows[a]).ask == Ask::Plain(
                MenuAction::SetStaffKey(v.lists.keys@[a].sharps),
            ),
        Ask::CustomClef(_) => rows.len() == v.lists.clefs@.len() && forall|a: int|
            0 <= a < rows.len() ==> (#[trigger] rows[a]).ask == Ask::CustomClef(
                v.lists.clefs@[a].key@,
            ),
        Ask::Tuning(_) => rows.len() == v.lists.tunings@.len() && forall|a: int|
            0 <= a < rows.len() ==> (#[trigger] rows[a]).ask == Ask::Tuning(v.lists.tunings@[a]@),
        Ask::Wood(_) => rows.len() == 3 && rows[0].ask == Ask::Wood("rosewood"@) && rows[1].ask
            == Ask::Wood("maple"@) && rows[2].ask == Ask::Wood("ebony"@),
        Ask::StaffSet(_) => {
            &&& rows.len() == 7 || (rows.len() == 8 && rows[7].ask == Ask::StaffSet("__custom__"@))
            &&& rows[0].ask == Ask::StaffSet("grand"@)
            &&& rows[1].ask == Ask::StaffSet("treble"@)
            &&& rows[2].ask == Ask::StaffSet("bass"@)
            &&& rows[3].ask == Ask::StaffSet("alto"@)
            &&& rows[4].ask == Ask::StaffSet("tenor"@)
            &&& rows[5].ask == Ask::StaffSet("treble8vb"@)
            &&& rows[6].ask == Ask::StaffSet("bass8vb"@)
        },
        _ => true,
    }
}

spec fn all_whole(v: MenuView, lines: Seq<Line>) -> bool {
    forall|i: int|
        0 <= i < lines.len() ==> ((#[trigger] lines[i]) matches Line::Category { rows, .. }
            ==> whole_list(v, rows))
}

proof fn lemma_whole_concat(v: MenuView, a: Seq<Line>, b: Seq<Line>)
    requires
        all_whole(v, a),
        all_whole(v, b),
    ensures
        all_whole(v, a + b),
        all_whole(v, crate::menu::entries::with_block(a, b)),
{
    let n = a.len() as int;
    let all = a + b;
    assert forall|i: int| 0 <= i < all.len() implies ((#[trigger] all[i]) matches Line::Category {
        rows,
        ..
    } ==> whole_list(v, rows)) by {
        if i < n {
            assert(all[i] == a[i]);
        } else {
            assert(all[i] == b[i - n]);
        }
    }
    let out = crate::menu::entries::with_block(a, b);
    if a.len() > 0 && b.len() > 0 {
        assert forall|i: int| 0 <= i < out.len() implies ((#[trigger] out[i]) matches
            Line::Category { rows, .. } ==> whole_list(v, rows)) by {
            if i < n {
                assert(out[i] == a[i]);
            } else if i > n {
                assert(out[i] == b[i - n - 1]);
            }
        }
    }
}

proof fn lemma_whole_category(v: MenuView, label: Seq<char>, rows: Seq<Row>)
    requires
        whole_list(v, rows),
    ensures
        all_whole(v, crate::menu::entries::category(label, rows)),
        all_whole(v, Seq::<Line>::empty()),
{
}

proof fn lemma_whole_everywhere(v: MenuView)
    ensures
        all_whole(v, crate::menu::entries::everywhere(v)),
{
    let w = crate::menu::entries::window_rows(v);
    if v.caps.size_presets {
        assert(w[0] == crate::menu::entries::size_row(SIZE_PERCENTS@[0]));
    }
    let first = crate::menu::entries::plain("Select MIDI Input..."@, MenuAction::SelectMidiInput);
    let device = if v.caps.midi_ports {
        seq![Line::Item(first)]
    } else {
        seq![]
    };
    let window = crate::menu::entries::category("Window"@, w);
    let colors = crate::menu::entries::category("Colors"@, crate::menu::entries::color_rows());
    let chords = crate::menu::entries::category("Chords"@, crate::menu::entries::chord_rows(v));
    lemma_whole_category(v, "Window"@, w);
    lemma_whole_category(v, "Colors"@, crate::menu::entries::color_rows());
    lemma_whole_category(v, "Chords"@, crate::menu::entries::chord_rows(v));
    lemma_whole_concat(v, device, window);
    lemma_whole_concat(v, device + window, colors);
    lemma_whole_concat(v, device + window + colors, chords);
}

proof fn lemma_whole_clefs(v: MenuView)
    ensures
        whole_list(v, crate::menu::entries::clef_rows(v)),
{
    let rows = crate::menu::entries::clef_rows(v);
    assert(forall|a: int|
        0 <= a < 7 ==> #[trigger] rows[a] == crate::menu::entries::preset_row(v, a));
    assert(STAFF_PRESETS@[0].0@ == "grand"@ && STAFF_PRESETS@[1].0@ == "treble"@);
    assert(STAFF_PRESETS@[2].0@ == "bass"@ && STAFF_PRESETS@[3].0@ == "alto"@);
    assert(STAFF_PRESETS@[4].0@ == "tenor"@ && STAFF_PRESETS@[5].0@ == "treble8vb"@);
    assert(STAFF_PRESETS@[6].0@ == "bass8vb"@);
}

proof fn lemma_whole_theory(v: MenuView)
    ensures
        all_whole(v, crate::menu::entries::theory(v)),
{
    let showing = crate::menu::entries::theory_showing(v);
    let clefs = crate::menu::entries::clef_rows(v);
    let keys = crate::menu::entries::key_rows(v);
    let staves = crate::menu::entries::stave_rows(v);
    assert(forall|a: int|
        0 <= a < keys.len() ==> #[trigger] keys[a] == crate::menu::entries::key_row(v, a));
    assert(forall|a: int|
        0 <= a < staves.len() ==> #[trigger] staves[a] == crate::menu::entries::stave_row(v, a));
    lemma_whole_clefs(v);
    lemma_whole_category(v, "Clef"@, clefs);
    lemma_whole_category(v, "Key"@, keys);
    lemma_whole_category(v, "Staves"@, staves);
    let c = if v.staff_on {
        crate::menu::entries::category("Clef"@, clefs)
    } else {
        seq![]
    };
    let k = if showing {
        crate::menu::entries::category("Key"@, keys)
    } else {
        seq![]
    };
    let s = if v.staff_on {
        crate::menu::entries::category("Staves"@, staves)
    } else {
        seq![]
    };
    let f = if showing {
        seq![Line::Item(follow_row(v))]
    } else {
        seq![]
    };
    assert(crate::menu::entries::theory(v) == c + k + s + f);
    lemma_whole_concat(v, c, k);
    lemma_whole_concat(v, c + k, s);
    lemma_whole_concat(v, c + k + s, f);
}

proof fn lemma_whole_guitar(v: MenuView)
    ensures
        all_whole(v, crate::menu::entries::guitar(v)),
{
    let neck = crate::menu::entries::fretboard_rows(v);
    let woods = crate::menu::entries::wood_rows(v);
    let tunings = crate::menu::entries::tuning_rows(v);
    let capos = crate::menu::entries::capo_rows(v);
    assert(woods[0] == crate::menu::entries::wood_row(v, 0));
    assert(woods[1] == crate::menu::entries::wood_row(v, 1));
    assert(woods[2] == crate::menu::entries::wood_row(v, 2));
    assert(Wood::ALL@[0] == Wood::Rosewood);
    assert(Wood::ALL@[1] == Wood::Maple);
    assert(Wood::ALL@[2] == Wood::Ebony);
    assert(capos[0] == crate::menu::entries::capo_row(v, 0));
    assert(forall|a: int|
        0 <= a < tunings.len() ==> #[trigger] tunings[a] == crate::menu::entries::tuning_row(v, a));
    lemma_whole_category(v, "Fretboard"@, neck);
    lemma_whole_category(v, "Wood"@, woods);
    lemma_whole_category(v, "Tuning"@, tunings);
    lemma_whole_category(v, "Capo"@, capos);
    let a = crate::menu::entries::category("Fretboard"@, neck);
    let b = crate::menu::entries::category("Wood"@, woods);
    let c = crate::menu::entries::category("Tuning"@, tunings);
    let d = crate::menu::entries::category("Capo"@, capos);
    lemma_whole_concat(v, a, b);
    lemma_whole_concat(v, a + b, c);
    lemma_whole_concat(v, a + b + c, d);
}

/// The choices of a hover are all of its list, in the list's own order.
pub proof fn a_list_is_offered_in_its_order(v: MenuView, r: Vec<Entry>, i: int)
    requires
        call_ensures(build_entries, (v,), r),
        0 <= i < r@.len(),
    ensures
        r@[i]@ matches Line::Category { rows, .. } ==> whole_list(v, rows),
{
    broadcast use vstd::seq_lib::group_to_multiset_ensures;

    lemma_whole_everywhere(v);
    lemma_whole_theory(v);
    lemma_whole_guitar(v);
    lemma_whole_category(v, "Plugin folders"@, crate::menu::entries::plugin_rows(v));
    let a = crate::menu::entries::everywhere(v);
    let b = crate::menu::entries::with_block(a, crate::menu::entries::piano(v));
    let c = crate::menu::entries::with_block(b, crate::menu::entries::theory(v));
    let d = crate::menu::entries::with_block(c, crate::menu::entries::guitar(v));
    let e = crate::menu::entries::with_block(d, crate::menu::entries::band(v));
    lemma_whole_concat(v, a, crate::menu::entries::piano(v));
    lemma_whole_concat(v, b, crate::menu::entries::theory(v));
    lemma_whole_concat(v, c, crate::menu::entries::guitar(v));
    lemma_whole_concat(v, d, crate::menu::entries::band(v));
    lemma_whole_concat(v, e, crate::menu::entries::tail(v));
    let menu = crate::menu::entries::lines_of(r@);
    let all = crate::menu::entries::compartments(v);
    let line = menu[i];
    assert(line == r@[i]@);
    if line is Category {
        crate::menu::shape::the_click_loses_nothing(v, line);
        assert(menu.contains(line));
        assert(menu.to_multiset().count(line) > 0);
        assert(all.to_multiset().count(line) > 0);
        assert(all.contains(line));
        let k = choose|k: int| 0 <= k < all.len() && all[k] == line;
        assert(all[k] == line);
    }
}

// ── Where the separators stand ─────────────────────────────────────────────
/// The block a row belongs to: what is true everywhere, the piano's own, the
/// theory band's, the guitar's, the recorder's, the supporter's, and the two
/// rows about the program itself.
pub open spec fn block(ask: Ask) -> int {
    let t = turn(ask);
    if t < 5_000 {
        0
    } else if t < 6_000 {
        1
    } else if t < 10_000 {
        2
    } else if t < 14_000 {
        3
    } else if t < 15_000 {
        4
    } else if t < 15_002 {
        5
    } else {
        6
    }
}

spec fn one_block(lines: Seq<Line>, k: int) -> bool {
    forall|i: int|
        0 <= i < lines.len() ==> (#[trigger] lines[i]) != Line::Separator && of_block(lines[i], k)
}

spec fn of_block(line: Line, k: int) -> bool {
    forall|row: Row| #[trigger] line_has(line, row) ==> block(row.ask) == k
}

/// `line` has rows, all of a block between `lo` and `hi`, or is a separator.
spec fn between(line: Line, lo: int, hi: int) -> bool {
    line == Line::Separator || (exists|k: int| lo <= k < hi && #[trigger] of_block(line, k))
}

/// Lines of blocks from `lo` to `hi`, a separator wherever one block meets the
/// next and nowhere else.
spec fn parted(lines: Seq<Line>, lo: int, hi: int) -> bool {
    &&& forall|i: int| 0 <= i < lines.len() ==> between(#[trigger] lines[i], lo, hi)
    &&& forall|i: int, j: int, x: Row, y: Row|
        #![trigger line_has(lines[i], x), line_has(lines[j], y)]
        0 <= i < lines.len() && 0 <= j < lines.len() && line_has(lines[i], x) && line_has(
            lines[j],
            y,
        ) && j == i + 1 ==> block(x.ask) == block(y.ask)
    &&& forall|i: int, j: int, x: Row, y: Row|
        #![trigger line_has(lines[i], x), line_has(lines[j], y)]
        0 <= i < lines.len() && 0 <= j < lines.len() && line_has(lines[i], x) && line_has(
            lines[j],
            y,
        ) && j == i + 2 && lines[i + 1] == Line::Separator ==> block(x.ask) < block(y.ask)
}

proof fn lemma_parted_block(lines: Seq<Line>, k: int)
    requires
        one_block(lines, k),
    ensures
        parted(lines, k, k + 1),
{
    assert forall|i: int| 0 <= i < lines.len() implies between(#[trigger] lines[i], k, k + 1) by {
        assert(of_block(lines[i], k));
    }
    assert forall|i: int, j: int, x: Row, y: Row|
        #![trigger line_has(lines[i], x), line_has(lines[j], y)]
        0 <= i < lines.len() && 0 <= j < lines.len() && line_has(lines[i], x) && line_has(
            lines[j],
            y,
        ) && j == i + 1 implies block(x.ask) == block(y.ask) by {
        assert(of_block(lines[i], k) && of_block(lines[j], k));
    }
}

proof fn lemma_parted_wider(lines: Seq<Line>, lo: int, hi: int, low: int, high: int)
    requires
        parted(lines, lo, hi),
        low <= lo,
        hi <= high,
    ensures
        parted(lines, low, high),
{
    assert forall|i: int| 0 <= i < lines.len() implies between(#[trigger] lines[i], low, high) by {
        assert(between(lines[i], lo, hi));
        if lines[i] != Line::Separator {
            let k = choose|k: int| lo <= k < hi && #[trigger] of_block(lines[i], k);
            assert(of_block(lines[i], k));
        }
    }
}

proof fn lemma_parted(a: Seq<Line>, b: Seq<Line>, lo: int, mid: int, hi: int)
    requires
        lo <= mid <= hi,
        parted(a, lo, mid),
        parted(b, mid, hi),
    ensures
        parted(crate::menu::entries::with_block(a, b), lo, hi),
{
    lemma_parted_wider(a, lo, mid, lo, hi);
    lemma_parted_wider(b, mid, hi, lo, hi);
    let out = crate::menu::entries::with_block(a, b);
    if a.len() > 0 && b.len() > 0 {
        let n = a.len() as int;
        assert forall|i: int| 0 <= i < out.len() implies between(#[trigger] out[i], lo, hi) by {
            if i < n {
                assert(between(a[i], lo, hi));
            } else if i > n {
                assert(between(b[i - n - 1], lo, hi));
            }
        }
        assert forall|i: int, j: int, x: Row, y: Row|
            #![trigger line_has(out[i], x), line_has(out[j], y)]
            0 <= i < out.len() && 0 <= j < out.len() && line_has(out[i], x) && line_has(out[j], y)
                && j == i + 1 implies block(x.ask) == block(y.ask) by {
            if j < n {
                assert(line_has(a[i], x) && line_has(a[j], y));
            } else if i > n {
                assert(line_has(b[i - n - 1], x) && line_has(b[j - n - 1], y));
            }
        }
        assert forall|i: int, j: int, x: Row, y: Row|
            #![trigger line_has(out[i], x), line_has(out[j], y)]
            0 <= i < out.len() && 0 <= j < out.len() && line_has(out[i], x) && line_has(out[j], y)
                && j == i + 2 && out[i + 1] == Line::Separator implies block(x.ask) < block(
            y.ask,
        ) by {
            if j < n {
                assert(line_has(a[i], x) && line_has(a[j], y));
                assert(a[i + 1] == out[i + 1]);
            } else if i > n {
                assert(line_has(b[i - n - 1], x) && line_has(b[j - n - 1], y));
                assert(b[i - n] == out[i + 1]);
            } else if i + 1 == n {
                assert(between(a[i], lo, mid) && between(b[j - n - 1], mid, hi));
                let p = choose|k: int| lo <= k < mid && #[trigger] of_block(a[i], k);
                let q = choose|k: int| mid <= k < hi && #[trigger] of_block(b[j - n - 1], k);
                assert(line_has(a[i], x) && line_has(b[j - n - 1], y));
            }
        }
    }
}

proof fn lemma_one_block(lines: Seq<Line>, lo: int, hi: int, k: int)
    requires
        spans(lines, lo, hi),
        forall|i: int| 0 <= i < lines.len() ==> (#[trigger] lines[i]) != Line::Separator,
        forall|row: Row| lo <= turn(#[trigger] row.ask) < hi ==> block(row.ask) == k,
    ensures
        parted(lines, k, k + 1),
{
    assert forall|i: int| 0 <= i < lines.len() implies of_block(#[trigger] lines[i], k) by {
        assert(within(lines[i], lo, hi));
    }
    lemma_parted_block(lines, k);
}

proof fn lemma_no_separators(v: MenuView)
    ensures
        forall|i: int|
            0 <= i < crate::menu::entries::everywhere(v).len() ==> (
            #[trigger] crate::menu::entries::everywhere(v)[i]) != Line::Separator,
        forall|i: int|
            0 <= i < crate::menu::entries::theory(v).len() ==> (
            #[trigger] crate::menu::entries::theory(v)[i]) != Line::Separator,
        forall|i: int|
            0 <= i < crate::menu::entries::guitar(v).len() ==> (
            #[trigger] crate::menu::entries::guitar(v)[i]) != Line::Separator,
{
}

/// In a menu in its usual order a separator stands exactly where one block meets
/// the next: rows that follow each other are of one block, and rows with a
/// separator between them are not.
pub proof fn separators_stand_between_the_blocks(
    v: MenuView,
    r: Vec<Entry>,
    i: int,
    x: Row,
    y: Row,
)
    requires
        call_ensures(build_entries, (v,), r),
        !v.recorder_first,
        !(v.staff_first && v.staff_on),
        0 <= i,
    ensures
        i + 1 < r@.len() && line_has(r@[i]@, x) && line_has(r@[i + 1]@, y) ==> block(x.ask)
            == block(y.ask),
        i + 2 < r@.len() && line_has(r@[i]@, x) && r@[i + 1] is Separator && line_has(
            r@[i + 2]@,
            y,
        ) ==> block(x.ask) < block(y.ask),
{
    lemma_spans_everywhere(v);
    lemma_spans_piano(v);
    lemma_spans_theory(v);
    lemma_spans_guitar(v);
    lemma_spans_ends(v);
    lemma_no_separators(v);
    lemma_one_block(crate::menu::entries::everywhere(v), 0, 5_000, 0);
    lemma_one_block(crate::menu::entries::piano(v), 5_000, 6_000, 1);
    lemma_one_block(crate::menu::entries::theory(v), 6_000, 10_000, 2);
    lemma_one_block(crate::menu::entries::guitar(v), 10_000, 14_000, 3);
    lemma_one_block(crate::menu::entries::band(v), 14_000, 15_000, 4);
    lemma_parted_tail(v);
    let a = crate::menu::entries::everywhere(v);
    let b = crate::menu::entries::with_block(a, crate::menu::entries::piano(v));
    let c = crate::menu::entries::with_block(b, crate::menu::entries::theory(v));
    let d = crate::menu::entries::with_block(c, crate::menu::entries::guitar(v));
    let e = crate::menu::entries::with_block(d, crate::menu::entries::band(v));
    lemma_parted(a, crate::menu::entries::piano(v), 0, 1, 2);
    lemma_parted(b, crate::menu::entries::theory(v), 0, 2, 3);
    lemma_parted(c, crate::menu::entries::guitar(v), 0, 3, 4);
    lemma_parted(d, crate::menu::entries::band(v), 0, 4, 5);
    lemma_parted(e, crate::menu::entries::tail(v), 0, 5, 7);
    let all = crate::menu::entries::compartments(v);
    assert(all.len() == r@.len());
    if i + 1 < r@.len() {
        assert(all[i] == r@[i]@ && all[i + 1] == r@[i + 1]@);
    }
    if i + 2 < r@.len() {
        assert(all[i + 2] == r@[i + 2]@);
    }
}

proof fn lemma_parted_tail(v: MenuView)
    ensures
        parted(crate::menu::entries::tail(v), 5, 7),
{
    let t = crate::menu::entries::tail(v);
    let n = t.len() as int;
    let upper = t.take(n - 3);
    let lower = t.skip(n - 2);
    assert(one_block(upper, 5)) by {
        assert forall|i: int| 0 <= i < upper.len() implies (#[trigger] upper[i]) != Line::Separator
            && of_block(upper[i], 5) by {
            assert(upper[i] == t[i]);
        }
    }
    assert(one_block(lower, 6)) by {
        assert forall|i: int| 0 <= i < lower.len() implies (#[trigger] lower[i]) != Line::Separator
            && of_block(lower[i], 6) by {
            assert(lower[i] == t[n - 2 + i]);
        }
    }
    lemma_parted_block(upper, 5);
    lemma_parted_block(lower, 6);
    lemma_parted(upper, lower, 5, 6, 7);
    assert(t =~= crate::menu::entries::with_block(upper, lower));
}

// ── Where a click moves it ─────────────────────────────────────────────────
/// What a click never moves: everything but the notation's own hovers and the
/// recorder's.
pub open spec fn stays(ask: Ask) -> bool {
    match ask {
        Ask::StaffSet(_) => false,
        Ask::CustomClef(_) => false,
        Ask::Plain(MenuAction::SetStaffKey(_)) => false,
        Ask::Plain(MenuAction::RescanPlugins) => false,
        Ask::Plain(MenuAction::AddPluginFolder) => false,
        Ask::Plain(MenuAction::ClearPluginFolders) => false,
        _ => true,
    }
}

spec fn keeps_order(lines: Seq<Line>) -> bool {
    forall|i: int, j: int, x: Row, y: Row|
        #![trigger line_has(lines[i], x), line_has(lines[j], y)]
        0 <= i < j < lines.len() && line_has(lines[i], x) && line_has(lines[j], y) && stays(x.ask)
            && stays(y.ask) ==> turn(x.ask) <= turn(y.ask)
}

spec fn all_filed(lines: Seq<Line>) -> bool {
    forall|i: int| 0 <= i < lines.len() ==> well_filed(#[trigger] lines[i])
}

proof fn lemma_lead_keeps_order(lines: Seq<Line>, lead: Seq<Line>, p: int, name: Seq<char>)
    requires
        keeps_order(lines),
        all_filed(lines),
        0 <= p < lines.len(),
        crate::menu::entries::is_category(lines[p], name),
        name == "Clef"@ || name == "Key"@ || name == "Staves"@ || name == "Plugin folders"@,
        lead == seq![lines[p]] || lead == seq![lines[p], Line::Separator],
    ensures
        keeps_order(lead + lines.remove(p)),
        all_filed(lead + lines.remove(p)),
{
    crate::menu::shape::lemma_names_differ();
    let out = lead + lines.remove(p);
    let n = lead.len() as int;
    assert(well_filed(lines[p]));
    assert forall|x: Row| #[trigger] line_has(lines[p], x) implies !stays(x.ask) by {
        if let Line::Category { label, rows } = lines[p] {
            let a = choose|a: int| 0 <= a < rows.len() && rows[a] == x;
            assert(filed(label, rows[a].ask));
        }
    }
    assert forall|k: int| n <= k < out.len() implies out[k] == lines[if k - n < p {
        k - n
    } else {
        k - n + 1
    }] by {}
    assert forall|i: int| 0 <= i < out.len() implies well_filed(#[trigger] out[i]) by {
        if i >= n {
            let k = if i - n < p {
                i - n
            } else {
                i - n + 1
            };
            assert(well_filed(lines[k]));
        }
    }
    assert forall|i: int, j: int, x: Row, y: Row|
        #![trigger line_has(out[i], x), line_has(out[j], y)]
        0 <= i < j < out.len() && line_has(out[i], x) && line_has(out[j], y) && stays(x.ask)
            && stays(y.ask) implies turn(x.ask) <= turn(y.ask) by {
        if i >= n {
            let k = if i - n < p {
                i - n
            } else {
                i - n + 1
            };
            let m = if j - n < p {
                j - n
            } else {
                j - n + 1
            };
            assert(line_has(lines[k], x) && line_has(lines[m], y));
        } else if i == 0 {
            assert(line_has(lines[p], x));
        }
    }
}

proof fn lemma_led_keeps_order(lines: Seq<Line>, name: Seq<char>)
    requires
        keeps_order(lines),
        all_filed(lines),
        name == "Clef"@ || name == "Key"@ || name == "Staves"@,
    ensures
        keeps_order(crate::menu::entries::led_by(lines, name)),
        all_filed(crate::menu::entries::led_by(lines, name)),
{
    crate::menu::entries::lemma_place_of(lines, name);
    let p = crate::menu::entries::place_of(lines, name);
    if p < lines.len() {
        lemma_lead_keeps_order(lines, seq![lines[p]], p, name);
    }
}

proof fn lemma_single_keeps_order(lines: Seq<Line>)
    requires
        keeps_order(lines),
        all_filed(lines),
    ensures
        keeps_order(crate::menu::entries::single_separators(lines)),
        all_filed(crate::menu::entries::single_separators(lines)),
        forall|i: int|
            0 <= i < crate::menu::entries::single_separators(lines).len() ==> lines.contains(
                #[trigger] crate::menu::entries::single_separators(lines)[i],
            ),
    decreases lines.len(),
{
    let out = crate::menu::entries::single_separators(lines);
    if lines.len() > 0 {
        let upper = lines.drop_last();
        let above = crate::menu::entries::single_separators(upper);
        let n = lines.len() - 1;
        assert forall|i: int, j: int, x: Row, y: Row|
            #![trigger line_has(upper[i], x), line_has(upper[j], y)]
            0 <= i < j < upper.len() && line_has(upper[i], x) && line_has(upper[j], y) && stays(
                x.ask,
            ) && stays(y.ask) implies turn(x.ask) <= turn(y.ask) by {
            assert(line_has(lines[i], x) && line_has(lines[j], y));
        }
        assert forall|i: int| 0 <= i < upper.len() implies well_filed(#[trigger] upper[i]) by {
            assert(well_filed(lines[i]));
        }
        lemma_single_keeps_order(upper);
        assert(well_filed(lines[n]));
        assert forall|i: int| 0 <= i < out.len() implies lines.contains(#[trigger] out[i]) by {
            if i < above.len() {
                assert(upper.contains(above[i]));
                let k = choose|k: int| 0 <= k < upper.len() && upper[k] == above[i];
                assert(lines[k] == out[i]);
            } else {
                assert(lines[n] == out[i]);
            }
        }
        assert forall|i: int, j: int, x: Row, y: Row|
            #![trigger line_has(out[i], x), line_has(out[j], y)]
            0 <= i < j < out.len() && line_has(out[i], x) && line_has(out[j], y) && stays(x.ask)
                && stays(y.ask) implies turn(x.ask) <= turn(y.ask) by {
            if j < above.len() {
                assert(line_has(above[i], x) && line_has(above[j], y));
            } else {
                assert(upper.contains(above[i]));
                let k = choose|k: int| 0 <= k < upper.len() && upper[k] == above[i];
                assert(line_has(lines[k], x) && line_has(lines[n], y));
            }
        }
    }
}

/// Wherever the click landed, the rows it does not move keep their order.
pub proof fn a_click_moves_nothing_else(
    v: MenuView,
    r: Vec<Entry>,
    i: int,
    j: int,
    x: Row,
    y: Row,
)
    requires
        call_ensures(build_entries, (v,), r),
        0 <= i < j < r@.len(),
        line_has(r@[i]@, x),
        line_has(r@[j]@, y),
        stays(x.ask),
        stays(y.ask),
    ensures
        turn(x.ask) <= turn(y.ask),
{
    lemma_spans_all(v);
    let all = crate::menu::entries::compartments(v);
    assert(keeps_order(all) && all_filed(all));
    let p = crate::menu::entries::place_of(all, "Plugin folders"@);
    crate::menu::entries::lemma_place_of(all, "Plugin folders"@);
    if p < all.len() {
        lemma_lead_keeps_order(all, seq![all[p], Line::Separator], p, "Plugin folders"@);
    }
    lemma_single_keeps_order(crate::menu::entries::recorder_led(all));
    let led = crate::menu::entries::led(v);
    let s = crate::menu::entries::led_by(led, "Staves"@);
    let k = crate::menu::entries::led_by(s, "Key"@);
    lemma_led_keeps_order(led, "Staves"@);
    lemma_led_keeps_order(s, "Key"@);
    lemma_led_keeps_order(k, "Clef"@);
    let menu = crate::menu::entries::lines_of(r@);
    assert(menu[i] == r@[i]@ && menu[j] == r@[j]@);
    assert(line_has(menu[i], x) && line_has(menu[j], y));
}

/// By night the menu is ivory on black and by day black on ivory, with lines of
/// the text's own colour and a highlight between the two.
pub proof fn the_menu_is_turned_round_by_night(night: MenuColors, day: MenuColors)
    requires
        call_ensures(colors, (true,), night),
        call_ensures(colors, (false,), day),
    ensures
        night.bg == (crate::color::Rgb { r: 0, g: 0, b: 0 }),
        night.text == (crate::color::Rgb { r: 0xE8, g: 0xDC, b: 0xC0 }),
        day.bg == night.text && day.text == night.bg,
        night.sep == night.text && day.sep == day.text,
        night.sel == (crate::color::Rgb { r: 0x1a, g: 0x1a, b: 0x1a }),
        day.sel == (crate::color::Rgb { r: 0xd4, g: 0xc8, b: 0xb0 }),
        night.bg.light() < night.sel.light() < night.text.light(),
        day.text.light() < day.sel.light() < day.bg.light(),
{
}

} // verus!
