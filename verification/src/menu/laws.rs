//! What holds of every menu, whatever is on screen and whoever hosts it.

use super::entries::{Line, Row, SIZE_PERCENTS, STAFF_PRESETS};
use super::{Ask, ColorTarget, MenuAction, MenuView};
use crate::fretboard_panel::Wood;
use vstd::prelude::*;

verus! {

// ── What a menu offers ─────────────────────────────────────────────────────
/// One of `rows` asks for `ask`.
pub open spec fn among(rows: Seq<Row>, ask: Ask) -> bool {
    exists|i: int| 0 <= i < rows.len() && #[trigger] rows[i].ask == ask
}

/// Clicking `line`, or a row inside it, can ask for `ask`.
pub open spec fn asks(line: Line, ask: Ask) -> bool {
    match line {
        Line::Separator => false,
        Line::Item(row) => row.ask == ask,
        Line::Category { rows, .. } => among(rows, ask),
    }
}

/// Some line of the menu can ask for `ask`.
pub open spec fn offers(lines: Seq<Line>, ask: Ask) -> bool {
    exists|i: int| 0 <= i < lines.len() && asks(#[trigger] lines[i], ask)
}

/// Exactly what may be asked for, and when: each row is about something that is
/// on screen, and needs nothing the host does not have.
pub open spec fn permitted(v: MenuView, ask: Ask) -> bool {
    match ask {
        Ask::StaffSet(k) => v.staff_on && (k == "__custom__"@ && v.staff_custom_label is Some
            || exists|i: int| 0 <= i < 7 && (#[trigger] STAFF_PRESETS@[i]).0@ == k),
        Ask::CustomClef(k) => v.staff_on && exists|i: int|
            0 <= i < v.lists.clefs@.len() && (#[trigger] v.lists.clefs@[i]).key@ == k,
        Ask::Tuning(n) => v.fretboard_on && exists|i: int|
            0 <= i < v.lists.tunings@.len() && #[trigger] v.lists.tunings@[i]@ == n,
        Ask::Wood(k) => v.fretboard_on && exists|w: Wood| #[trigger] w.name() == k,
        Ask::Plain(action) => match action {
            MenuAction::SelectMidiInput => v.caps.midi_ports,
            MenuAction::SetSizePercent(p) => v.caps.size_presets && exists|i: int|
                0 <= i < 7 && #[trigger] SIZE_PERCENTS@[i] == p,
            MenuAction::ToggleBorderless => v.caps.window_sizing,
            MenuAction::PickColor(_) => true,
            MenuAction::ToggleChordDetection => true,
            MenuAction::TeachChordName => true,
            MenuAction::ManageTaughtChords => true,
            MenuAction::CorrectChordName => true,
            MenuAction::ToggleChordLearning => true,
            MenuAction::ToggleChordStrip => v.detection_enabled,
            MenuAction::SetStaffKey(k) => super::entries::theory_showing(v) && exists|i: int|
                0 <= i < v.lists.keys@.len() && (#[trigger] v.lists.keys@[i]).sharps == k,
            MenuAction::ToggleTheoryFollowsMidi => super::entries::theory_showing(v),
            MenuAction::ToggleFretboard => v.fretboard_on,
            MenuAction::ToggleFretNoteNames => v.fretboard_on,
            MenuAction::ToggleGuitarIntervals => v.fretboard_on,
            MenuAction::EditCustomTuning => v.fretboard_on,
            MenuAction::SetCapo(f) => v.fretboard_on && f <= super::entries::CAPO_MAX,
            MenuAction::RescanPlugins => super::entries::band_showing(v),
            MenuAction::AddPluginFolder => super::entries::band_showing(v),
            MenuAction::ClearPluginFolders => super::entries::band_showing(v)
                && v.extra_plugin_folders > 0,
            MenuAction::ShowSupporterKey => true,
            MenuAction::ToggleHeart => v.supporter,
            MenuAction::ShowAbout => true,
            MenuAction::ResetSettings => true,
            _ => false,
        },
    }
}

proof fn lemma_offers_concat(a: Seq<Line>, b: Seq<Line>, ask: Ask)
    ensures
        offers(a + b, ask) == (offers(a, ask) || offers(b, ask)),
{
    if offers(a, ask) {
        let i = choose|i: int| 0 <= i < a.len() && asks(#[trigger] a[i], ask);
        assert((a + b)[i] == a[i]);
    }
    if offers(b, ask) {
        let i = choose|i: int| 0 <= i < b.len() && asks(#[trigger] b[i], ask);
        assert((a + b)[a.len() + i] == b[i]);
    }
    if offers(a + b, ask) {
        let i = choose|i: int| 0 <= i < (a + b).len() && asks(#[trigger] (a + b)[i], ask);
        if i < a.len() {
            assert(asks(a[i], ask));
        } else {
            assert(asks(b[i - a.len()], ask));
        }
    }
}

proof fn lemma_offers_one(line: Line, ask: Ask)
    ensures
        offers(seq![line], ask) == asks(line, ask),
        !offers(Seq::<Line>::empty(), ask),
{
    assert(seq![line][0] == line);
}

proof fn lemma_offers_category(label: Seq<char>, rows: Seq<Row>, ask: Ask)
    ensures
        offers(super::entries::category(label, rows), ask) == among(rows, ask),
{
    let lines = super::entries::category(label, rows);
    if rows.len() == 1 {
        lemma_offers_one(Line::Item(rows[0]), ask);
        if among(rows, ask) {
            assert(rows[0].ask == ask);
        }
    } else if rows.len() > 1 {
        lemma_offers_one(Line::Category { label, rows }, ask);
    }
}

proof fn lemma_offers_block(lines: Seq<Line>, block: Seq<Line>, ask: Ask)
    ensures
        offers(super::entries::with_block(lines, block), ask) == (offers(lines, ask) || offers(
            block,
            ask,
        )),
{
    lemma_offers_concat(lines.push(Line::Separator), block, ask);
    lemma_offers_concat(lines, seq![Line::Separator], ask);
    lemma_offers_one(Line::Separator, ask);
    assert(lines.push(Line::Separator) =~= lines + seq![Line::Separator]);
}

proof fn lemma_offers_led(lines: Seq<Line>, name: Seq<char>, ask: Ask)
    ensures
        offers(super::entries::led_by(lines, name), ask) == offers(lines, ask),
        offers(super::entries::recorder_led(lines), ask) == offers(lines, ask),
{
    super::entries::lemma_place_of(lines, name);
    super::entries::lemma_place_of(lines, "Plugin folders"@);
    let i = super::entries::place_of(lines, name);
    let p = super::entries::place_of(lines, "Plugin folders"@);
    if i < lines.len() {
        lemma_offers_moved(lines, i, ask);
        lemma_offers_concat(seq![lines[i]], lines.remove(i), ask);
        lemma_offers_one(lines[i], ask);
    }
    if p < lines.len() {
        lemma_offers_moved(lines, p, ask);
        lemma_offers_concat(seq![lines[p], Line::Separator], lines.remove(p), ask);
        lemma_offers_concat(seq![lines[p]], seq![Line::Separator], ask);
        assert(seq![lines[p], Line::Separator] =~= seq![lines[p]] + seq![Line::Separator]);
        lemma_offers_one(lines[p], ask);
        lemma_offers_one(Line::Separator, ask);
    }
}

proof fn lemma_offers_moved(lines: Seq<Line>, i: int, ask: Ask)
    requires
        0 <= i < lines.len(),
    ensures
        offers(lines, ask) == (asks(lines[i], ask) || offers(lines.remove(i), ask)),
{
    let upper = lines.subrange(0, i);
    let lower = lines.subrange(i + 1, lines.len() as int);
    assert(lines =~= upper + seq![lines[i]] + lower);
    assert(lines.remove(i) =~= upper + lower);
    lemma_offers_concat(upper + seq![lines[i]], lower, ask);
    lemma_offers_concat(upper, seq![lines[i]], ask);
    lemma_offers_concat(upper, lower, ask);
    lemma_offers_one(lines[i], ask);
}

proof fn lemma_everywhere_offers(v: MenuView, ask: Ask)
    ensures
        offers(super::entries::everywhere(v), ask) == (match ask {
            Ask::Plain(MenuAction::SelectMidiInput) => permitted(v, ask),
            Ask::Plain(MenuAction::SetSizePercent(_)) => permitted(v, ask),
            Ask::Plain(MenuAction::ToggleBorderless) => permitted(v, ask),
            Ask::Plain(MenuAction::PickColor(_)) => true,
            Ask::Plain(MenuAction::ToggleChordDetection) => true,
            Ask::Plain(MenuAction::TeachChordName) => true,
            Ask::Plain(MenuAction::ManageTaughtChords) => true,
            Ask::Plain(MenuAction::CorrectChordName) => true,
            Ask::Plain(MenuAction::ToggleChordLearning) => true,
            _ => false,
        }),
{
    let device = if v.caps.midi_ports {
        seq![
            Line::Item(
                super::entries::plain("Select MIDI Input..."@, MenuAction::SelectMidiInput),
            ),
        ]
    } else {
        seq![]
    };
    let window = super::entries::window_rows(v);
    let colors = super::entries::color_rows();
    let chords = super::entries::chord_rows(v);
    let w = super::entries::category("Window"@, window);
    let c = super::entries::category("Colors"@, colors);
    let d = super::entries::category("Chords"@, chords);
    lemma_offers_concat(device + w + c, d, ask);
    lemma_offers_concat(device + w, c, ask);
    lemma_offers_concat(device, w, ask);
    lemma_offers_category("Window"@, window, ask);
    lemma_offers_category("Colors"@, colors, ask);
    lemma_offers_category("Chords"@, chords, ask);
    lemma_offers_one(
        Line::Item(super::entries::plain("Select MIDI Input..."@, MenuAction::SelectMidiInput)),
        ask,
    );
    // Window.
    if let Ask::Plain(MenuAction::SetSizePercent(p)) = ask {
        if permitted(v, ask) {
            let i = choose|i: int| 0 <= i < 7 && #[trigger] SIZE_PERCENTS@[i] == p;
            assert(window[i].ask == ask);
        }
        if among(window, ask) {
            let i = choose|i: int| 0 <= i < window.len() && #[trigger] window[i].ask == ask;
            assert(SIZE_PERCENTS@[i] == p);
        }
    }
    if ask == Ask::Plain(MenuAction::ToggleBorderless) && v.caps.window_sizing {
        assert(window.last().ask == ask);
        assert(window[window.len() - 1].ask == ask);
    }
    // Colors.
    if let Ask::Plain(MenuAction::PickColor(t)) = ask {
        let i: int = match t {
            ColorTarget::WhiteIdle => 0,
            ColorTarget::BlackIdle => 1,
            ColorTarget::Active => 2,
            ColorTarget::Sustain => 3,
            ColorTarget::ChordText => 4,
            ColorTarget::RecorderBg => 5,
        };
        assert(colors[i].ask == ask);
    }
    // Chords.
    assert(chords[0].ask == Ask::Plain(MenuAction::ToggleChordDetection));
    assert(chords[1].ask == Ask::Plain(MenuAction::TeachChordName));
    assert(chords[2].ask == Ask::Plain(MenuAction::ManageTaughtChords));
    assert(chords[3].ask == Ask::Plain(MenuAction::CorrectChordName));
    assert(chords[4].ask == Ask::Plain(MenuAction::ToggleChordLearning));
}

proof fn lemma_piano_offers(v: MenuView, ask: Ask)
    ensures
        offers(super::entries::piano(v), ask) == (ask == Ask::Plain(MenuAction::ToggleChordStrip)
            && permitted(v, ask)),
{
    let block = super::entries::piano(v);
    if v.detection_enabled {
        lemma_offers_one(block[0], ask);
        assert(block =~= seq![block[0]]);
    }
}

proof fn lemma_theory_offers(v: MenuView, ask: Ask)
    ensures
        offers(super::entries::theory(v), ask) == (match ask {
            Ask::StaffSet(_) => permitted(v, ask),
            Ask::CustomClef(_) => permitted(v, ask),
            Ask::Plain(MenuAction::SetStaffKey(_)) => permitted(v, ask),
            Ask::Plain(MenuAction::ToggleTheoryFollowsMidi) => permitted(v, ask),
            _ => false,
        }),
{
    let clefs = super::entries::clef_rows(v);
    let keys = super::entries::key_rows(v);
    let staves = super::entries::stave_rows(v);
    let follow = Line::Item(
        super::entries::plain(
            if v.theory_follows_midi {
                "Stop Following MIDI"@
            } else {
                "Follow MIDI"@
            },
            MenuAction::ToggleTheoryFollowsMidi,
        ),
    );
    let showing = super::entries::theory_showing(v);
    let c = if v.staff_on {
        super::entries::category("Clef"@, clefs)
    } else {
        seq![]
    };
    let k = if showing {
        super::entries::category("Key"@, keys)
    } else {
        seq![]
    };
    let s = if v.staff_on {
        super::entries::category("Staves"@, staves)
    } else {
        seq![]
    };
    let f = if showing {
        seq![follow]
    } else {
        seq![]
    };
    lemma_offers_concat(c + k + s, f, ask);
    lemma_offers_concat(c + k, s, ask);
    lemma_offers_concat(c, k, ask);
    lemma_offers_category("Clef"@, clefs, ask);
    lemma_offers_category("Key"@, keys, ask);
    lemma_offers_category("Staves"@, staves, ask);
    lemma_offers_one(follow, ask);
    // Clef.
    if among(clefs, ask) {
        let i = choose|i: int| 0 <= i < clefs.len() && #[trigger] clefs[i].ask == ask;
        if i < 7 {
            assert(clefs[i].ask == Ask::StaffSet(STAFF_PRESETS@[i].0@));
        }
    }
    if let Ask::StaffSet(key) = ask {
        if permitted(v, ask) {
            if key == "__custom__"@ && v.staff_custom_label is Some {
                assert(clefs[7].ask == ask);
            } else {
                let i = choose|i: int| 0 <= i < 7 && (#[trigger] STAFF_PRESETS@[i]).0@ == key;
                assert(clefs[i].ask == ask);
            }
        }
    }
    // Key.
    if among(keys, ask) {
        let i = choose|i: int| 0 <= i < keys.len() && #[trigger] keys[i].ask == ask;
        assert(ask == Ask::Plain(MenuAction::SetStaffKey(v.lists.keys@[i].sharps)));
    }
    if let Ask::Plain(MenuAction::SetStaffKey(sharps)) = ask {
        if permitted(v, ask) {
            let i = choose|i: int|
                0 <= i < v.lists.keys@.len() && (#[trigger] v.lists.keys@[i]).sharps == sharps;
            assert(keys[i].ask == ask);
        }
    }
    // Staves.
    if among(staves, ask) {
        let i = choose|i: int| 0 <= i < staves.len() && #[trigger] staves[i].ask == ask;
        assert(ask == Ask::CustomClef(v.lists.clefs@[i].key@));
    }
    if let Ask::CustomClef(key) = ask {
        if permitted(v, ask) {
            let i = choose|i: int|
                0 <= i < v.lists.clefs@.len() && (#[trigger] v.lists.clefs@[i]).key@ == key;
            assert(staves[i].ask == ask);
        }
    }
}

proof fn lemma_guitar_offers(v: MenuView, ask: Ask)
    ensures
        offers(super::entries::guitar(v), ask) == (match ask {
            Ask::Wood(_) => permitted(v, ask),
            Ask::Tuning(_) => permitted(v, ask),
            Ask::Plain(MenuAction::ToggleFretboard) => permitted(v, ask),
            Ask::Plain(MenuAction::ToggleFretNoteNames) => permitted(v, ask),
            Ask::Plain(MenuAction::ToggleGuitarIntervals) => permitted(v, ask),
            Ask::Plain(MenuAction::EditCustomTuning) => permitted(v, ask),
            Ask::Plain(MenuAction::SetCapo(_)) => permitted(v, ask),
            _ => false,
        }),
{
    if !v.fretboard_on {
        return ;
    }
    let neck = super::entries::fretboard_rows(v);
    let woods = super::entries::wood_rows(v);
    let tunings = super::entries::tuning_rows(v);
    let capos = super::entries::capo_rows(v);
    let a = super::entries::category("Fretboard"@, neck);
    let b = super::entries::category("Wood"@, woods);
    let c = super::entries::category("Tuning"@, tunings);
    let d = super::entries::category("Capo"@, capos);
    lemma_offers_concat(a + b + c, d, ask);
    lemma_offers_concat(a + b, c, ask);
    lemma_offers_concat(a, b, ask);
    lemma_offers_category("Fretboard"@, neck, ask);
    lemma_offers_category("Wood"@, woods, ask);
    lemma_offers_category("Tuning"@, tunings, ask);
    lemma_offers_category("Capo"@, capos, ask);
    // Fretboard.
    assert(neck[0].ask == Ask::Plain(MenuAction::ToggleFretboard));
    assert(neck[1].ask == Ask::Plain(MenuAction::ToggleFretNoteNames));
    assert(neck[2].ask == Ask::Plain(MenuAction::ToggleGuitarIntervals));
    assert(neck[3].ask == Ask::Plain(MenuAction::EditCustomTuning));
    // Wood.
    assert(Wood::ALL@[0] == Wood::Rosewood);
    assert(Wood::ALL@[1] == Wood::Maple);
    assert(Wood::ALL@[2] == Wood::Ebony);
    assert(woods[0].ask == Ask::Wood(Wood::Rosewood.name()));
    assert(woods[1].ask == Ask::Wood(Wood::Maple.name()));
    assert(woods[2].ask == Ask::Wood(Wood::Ebony.name()));
    if let Ask::Wood(k) = ask {
        if permitted(v, ask) {
            let w = choose|w: Wood| #[trigger] w.name() == k;
            let i: int = match w {
                Wood::Rosewood => 0,
                Wood::Maple => 1,
                Wood::Ebony => 2,
            };
            assert(woods[i].ask == ask);
        }
    }
    // Tuning.
    if among(tunings, ask) {
        let i = choose|i: int| 0 <= i < tunings.len() && #[trigger] tunings[i].ask == ask;
        assert(ask == Ask::Tuning(v.lists.tunings@[i]@));
    }
    if let Ask::Tuning(n) = ask {
        if permitted(v, ask) {
            let i = choose|i: int|
                0 <= i < v.lists.tunings@.len() && #[trigger] v.lists.tunings@[i]@ == n;
            assert(tunings[i].ask == ask);
        }
    }
    // Capo.
    if let Ask::Plain(MenuAction::SetCapo(f)) = ask {
        if permitted(v, ask) {
            assert(capos[f as int].ask == ask);
        }
    }
}

proof fn lemma_band_offers(v: MenuView, ask: Ask)
    ensures
        offers(super::entries::band(v), ask) == (match ask {
            Ask::Plain(MenuAction::RescanPlugins) => permitted(v, ask),
            Ask::Plain(MenuAction::AddPluginFolder) => permitted(v, ask),
            Ask::Plain(MenuAction::ClearPluginFolders) => permitted(v, ask),
            _ => false,
        }),
{
    let rows = super::entries::plugin_rows(v);
    lemma_offers_category("Plugin folders"@, rows, ask);
    assert(rows[0].ask == Ask::Plain(MenuAction::RescanPlugins));
    assert(rows[1].ask == Ask::Plain(MenuAction::AddPluginFolder));
    if v.extra_plugin_folders > 0 {
        assert(rows[2].ask == Ask::Plain(MenuAction::ClearPluginFolders));
    }
}

proof fn lemma_tail_offers(v: MenuView, ask: Ask)
    ensures
        offers(super::entries::tail(v), ask) == (match ask {
            Ask::Plain(MenuAction::ShowSupporterKey) => true,
            Ask::Plain(MenuAction::ToggleHeart) => v.supporter,
            Ask::Plain(MenuAction::ShowAbout) => true,
            Ask::Plain(MenuAction::ResetSettings) => true,
            _ => false,
        }),
{
    let block = super::entries::tail(v);
    let n = block.len() as int;
    assert(asks(block[0], Ask::Plain(MenuAction::ShowSupporterKey)));
    if v.supporter {
        assert(asks(block[1], Ask::Plain(MenuAction::ToggleHeart)));
    }
    assert(asks(block[n - 2], Ask::Plain(MenuAction::ShowAbout)));
    assert(asks(block[n - 1], Ask::Plain(MenuAction::ResetSettings)));
}

/// Dropping a separator takes nothing off offer.
proof fn lemma_offers_single(lines: Seq<Line>, ask: Ask)
    ensures
        offers(super::entries::single_separators(lines), ask) == offers(lines, ask),
    decreases lines.len(),
{
    if lines.len() > 0 {
        let upper = lines.drop_last();
        let above = super::entries::single_separators(upper);
        lemma_offers_single(upper, ask);
        lemma_offers_concat(upper, seq![lines.last()], ask);
        lemma_offers_concat(above, seq![lines.last()], ask);
        assert(lines =~= upper + seq![lines.last()]);
        assert(above.push(lines.last()) =~= above + seq![lines.last()]);
    }
}

/// The menu offers exactly what is permitted: every row belongs to a surface
/// that is showing and needs nothing the host lacks, and nothing that could be
/// offered is missing. Where the click landed makes no difference.
pub proof fn the_menu_offers_exactly_what_is_permitted(v: MenuView, ask: Ask)
    ensures
        offers(super::entries::menu(v), ask) == permitted(v, ask),
{
    let a = super::entries::everywhere(v);
    let b = super::entries::with_block(a, super::entries::piano(v));
    let c = super::entries::with_block(b, super::entries::theory(v));
    let d = super::entries::with_block(c, super::entries::guitar(v));
    let e = super::entries::with_block(d, super::entries::band(v));
    lemma_everywhere_offers(v, ask);
    lemma_piano_offers(v, ask);
    lemma_theory_offers(v, ask);
    lemma_guitar_offers(v, ask);
    lemma_band_offers(v, ask);
    lemma_tail_offers(v, ask);
    lemma_offers_block(a, super::entries::piano(v), ask);
    lemma_offers_block(b, super::entries::theory(v), ask);
    lemma_offers_block(c, super::entries::guitar(v), ask);
    lemma_offers_block(d, super::entries::band(v), ask);
    lemma_offers_block(e, super::entries::tail(v), ask);
    let all = super::entries::compartments(v);
    lemma_offers_led(all, "Plugin folders"@, ask);
    lemma_offers_single(super::entries::recorder_led(all), ask);
    let led = super::entries::led(v);
    let s = super::entries::led_by(led, "Staves"@);
    let k = super::entries::led_by(s, "Key"@);
    lemma_offers_led(led, "Staves"@, ask);
    lemma_offers_led(s, "Key"@, ask);
    lemma_offers_led(k, "Clef"@, ask);
}

/// Nothing detaches any more, anywhere.
pub proof fn nothing_can_be_detached(v: MenuView)
    ensures
        !offers(super::entries::menu(v), Ask::Plain(MenuAction::DetachChordWindow)),
        !offers(super::entries::menu(v), Ask::Plain(MenuAction::AttachChordWindow)),
        !offers(super::entries::menu(v), Ask::Plain(MenuAction::DetachFretboard)),
        !offers(super::entries::menu(v), Ask::Plain(MenuAction::AttachFretboard)),
        !offers(super::entries::menu(v), Ask::Plain(MenuAction::DetachTheory)),
        !offers(super::entries::menu(v), Ask::Plain(MenuAction::AttachTheory)),
        !offers(super::entries::menu(v), Ask::Plain(MenuAction::DetachRecorder)),
        !offers(super::entries::menu(v), Ask::Plain(MenuAction::AttachRecorder)),
{
    the_menu_offers_exactly_what_is_permitted(v, Ask::Plain(MenuAction::DetachChordWindow));
    the_menu_offers_exactly_what_is_permitted(v, Ask::Plain(MenuAction::AttachChordWindow));
    the_menu_offers_exactly_what_is_permitted(v, Ask::Plain(MenuAction::DetachFretboard));
    the_menu_offers_exactly_what_is_permitted(v, Ask::Plain(MenuAction::AttachFretboard));
    the_menu_offers_exactly_what_is_permitted(v, Ask::Plain(MenuAction::DetachTheory));
    the_menu_offers_exactly_what_is_permitted(v, Ask::Plain(MenuAction::AttachTheory));
    the_menu_offers_exactly_what_is_permitted(v, Ask::Plain(MenuAction::DetachRecorder));
    the_menu_offers_exactly_what_is_permitted(v, Ask::Plain(MenuAction::AttachRecorder));
}

/// A switch that one key already flips.
pub open spec fn is_on_a_key(action: MenuAction) -> bool {
    match action {
        MenuAction::ToggleDarkMode => true,
        MenuAction::CycleFont => true,
        MenuAction::ToggleKeytoggle => true,
        MenuAction::ToggleNotePreference => true,
        MenuAction::ToggleNoteNames => true,
        MenuAction::ToggleRecorder => true,
        MenuAction::ShowAllTheory => true,
        MenuAction::ToggleTheoryView(_) => true,
        _ => false,
    }
}

/// No row does what a key already does.
pub proof fn no_row_does_what_a_key_does(v: MenuView, action: MenuAction)
    requires
        is_on_a_key(action),
    ensures
        !offers(super::entries::menu(v), action@),
{
    the_menu_offers_exactly_what_is_permitted(v, action@);
}

/// Something only a host with windows, devices and files of its own can do.
pub open spec fn needs_the_desktop(action: MenuAction) -> bool {
    match action {
        MenuAction::SelectMidiInput => true,
        MenuAction::ToggleBorderless => true,
        MenuAction::DetachChordWindow => true,
        MenuAction::AttachChordWindow => true,
        MenuAction::DetachFretboard => true,
        MenuAction::AttachFretboard => true,
        MenuAction::DetachTheory => true,
        MenuAction::AttachTheory => true,
        MenuAction::ToggleRecorder => true,
        MenuAction::DetachRecorder => true,
        MenuAction::AttachRecorder => true,
        MenuAction::ShowExportDialog => true,
        MenuAction::ToggleHideElapsed => true,
        MenuAction::ToggleMetronome => true,
        MenuAction::ToggleMetronomeInTake => true,
        MenuAction::SetCountIn(_) => true,
        MenuAction::RescanPlugins => true,
        MenuAction::AddPluginFolder => true,
        MenuAction::ClearPluginFolders => true,
        _ => false,
    }
}

/// In a plugin, every row that survives is one the host can honour, and a size
/// can still be asked for.
pub proof fn a_plugin_is_offered_nothing_it_cannot_honour(v: MenuView, action: MenuAction)
    requires
        v.caps == crate::host::Caps::asking(),
    ensures
        needs_the_desktop(action) ==> !offers(super::entries::menu(v), action@),
        offers(super::entries::menu(v), Ask::Plain(MenuAction::SetSizePercent(100))),
{
    the_menu_offers_exactly_what_is_permitted(v, action@);
    let size = Ask::Plain(MenuAction::SetSizePercent(100));
    the_menu_offers_exactly_what_is_permitted(v, size);
    assert(SIZE_PERCENTS@[2] == 100);
}

/// Without capture devices the recorder's category is gone, whatever the
/// settings say.
pub proof fn no_recorder_rows_without_capture_devices(v: MenuView)
    requires
        !v.caps.capture_devices,
    ensures
        super::entries::band(v) == Seq::<Line>::empty(),
        !offers(super::entries::menu(v), Ask::Plain(MenuAction::RescanPlugins)),
        !offers(super::entries::menu(v), Ask::Plain(MenuAction::AddPluginFolder)),
        !offers(super::entries::menu(v), Ask::Plain(MenuAction::ClearPluginFolders)),
{
    the_menu_offers_exactly_what_is_permitted(v, Ask::Plain(MenuAction::RescanPlugins));
    the_menu_offers_exactly_what_is_permitted(v, Ask::Plain(MenuAction::AddPluginFolder));
    the_menu_offers_exactly_what_is_permitted(v, Ask::Plain(MenuAction::ClearPluginFolders));
}

} // verus!
