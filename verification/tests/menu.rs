//! The menu: what it offers, and which hover is open.

use ivory_ui::fretboard::{by_name, Tuning};
use ivory_ui::host::Caps;
use ivory_ui::keys::KeyAction;
use ivory_ui::menu::{
    build_entries, colors, note_rest, rows_for_test, settle_submenu, ClefName, ColorTarget, Entry,
    KeyName, Lists, MenuAction, MenuState, MenuView, Sighting, SurfaceReport, CAPO_MAX,
    OPENING_GRACE, REST_FOR, STAFF_PRESETS, SUB_SWITCH_DWELL,
};
use ivory_ui::theory_panel::{View, Views};

const MS: u64 = 1_000_000;

fn tunings() -> Vec<Tuning> {
    [
        ("Standard", vec![40, 45, 50, 55, 59, 64]),
        ("Drop D", vec![38, 45, 50, 55, 59, 64]),
        ("DADGAD", vec![38, 45, 50, 55, 57, 62]),
        ("7-String", vec![35, 40, 45, 50, 55, 59, 64]),
        ("Bass (4)", vec![28, 33, 38, 43]),
    ]
    .into_iter()
    .map(|(name, open)| Tuning { name: name.to_owned(), open })
    .collect()
}

fn lists() -> Lists {
    Lists {
        clefs: STAFF_PRESETS
            .iter()
            .skip(1)
            .map(|(key, label)| ClefName { key: (*key).to_owned(), label: (*label).to_owned() })
            .collect(),
        keys: (-7..=7).map(|k| KeyName { sharps: k, label: format!("key {k}") }).collect(),
        tunings: tunings().into_iter().map(|t| t.name).collect(),
    }
}

fn settle(
    open: &mut Option<usize>,
    pending: &mut Option<(Option<usize>, u64)>,
    hovered: Option<usize>,
    plain: bool,
    armed: bool,
    still: bool,
    now: u64,
) -> bool {
    settle_submenu(open, pending, hovered, plain, armed, still, false, now)
}

fn view() -> MenuView {
    MenuView {
        dark_mode: false,
        borderless: false,
        keytoggle: false,
        prefer_flats: true,
        key_note_names: false,
        fret_note_names: false,
        guitar_intervals: true,
        detection_enabled: true,
        chord_strip: true,
        detached: false,
        notes_held: false,
        learning_on: false,
        next_font: None,
        supporter: false,
        heart_on: true,
        fretboard_on: false,
        tuning: "Standard".to_string(),
        capo: 0,
        wood: "rosewood",
        fretboard_detached: false,
        theory: Views::default(),
        theory_follows_midi: false,
        theory_detached: false,
        recorder_on: false,
        camera_pane_on: false,
        extra_plugin_folders: 0,
        open_when_done: false,
        staff_on: true,
        staff_note_names: false,
        staff_set: "grand".to_owned(),
        staff_custom_label: None,
        staff_clefs: Vec::new(),
        staff_first: false,
        staff_key: 0,
        recorder_detached: false,
        count_in_beats: 4,
        time_signature: ivory_ui::recorder::TimeSignature::default(),
        count_in_bars: 1,
        count_in_in_take: false,
        recorder_first: false,
        metronome_on: false,
        metronome_in_take: false,
        hide_elapsed: false,
        caps: Caps::desktop(),
        lists: lists(),
    }
}

fn fullest() -> MenuView {
    MenuView {
        fretboard_on: true,
        recorder_on: true,
        supporter: true,
        next_font: Some("Terminess"),
        ..view()
    }
}

fn submenus(v: MenuView) -> Vec<(String, Vec<String>, Vec<MenuAction>)> {
    build_entries(v)
        .into_iter()
        .filter_map(|e| match e {
            Entry::Submenu { label, items } => Some((
                label,
                items.iter().map(|it| it.label.clone()).collect(),
                items.into_iter().map(|it| it.action).collect(),
            )),
            _ => None,
        })
        .collect()
}

#[test]
fn the_chord_strip_is_the_pianos_own_row_and_says_it_is_legacy() {
    let mut v = view();
    v.chord_strip = false;
    assert_eq!(
        find(v.clone(), MenuAction::ToggleChordStrip),
        Some(("Enable Chord Strip (legacy)".to_owned(), true))
    );
    assert!(rows(v.clone())
        .iter()
        .any(|(_, a, _)| *a == MenuAction::ToggleChordStrip));

    v.chord_strip = true;
    assert_eq!(
        find(v.clone(), MenuAction::ToggleChordStrip),
        Some(("Disable Chord Strip (legacy)".to_owned(), true))
    );

    v.detection_enabled = false;
    assert!(
        !all_rows(v).iter().any(|(l, ..)| l.contains("Chord Strip")),
        "a strip offered with detection off"
    );
}

fn sub(v: MenuView, name: &str) -> (String, Vec<String>, Vec<MenuAction>) {
    submenus(v.clone())
        .into_iter()
        .find(|(n, ..)| n == name)
        .unwrap_or_else(|| panic!("no {name} submenu"))
}

fn category_names(v: MenuView) -> Vec<String> {
    submenus(v).into_iter().map(|(n, ..)| n).collect()
}

fn rows(v: MenuView) -> Vec<(String, MenuAction, bool)> {
    build_entries(v)
        .into_iter()
        .filter_map(|e| match e {
            Entry::Item {
                label,
                action,
                enabled,
            } => Some((label, action, enabled)),
            _ => None,
        })
        .collect()
}

fn all_rows(v: MenuView) -> Vec<(String, MenuAction, bool)> {
    build_entries(v)
        .into_iter()
        .flat_map(|e| match e {
            Entry::Item {
                label,
                action,
                enabled,
            } => vec![(label, action, enabled)],
            Entry::Submenu { items, .. } => items
                .into_iter()
                .map(|it| (it.label, it.action, it.enabled))
                .collect(),
            Entry::Separator => Vec::new(),
        })
        .collect()
}

fn find(v: MenuView, action: MenuAction) -> Option<(String, bool)> {
    all_rows(v)
        .into_iter()
        .find(|(_, a, _)| *a == action)
        .map(|(l, _, e)| (l, e))
}

#[test]
fn correct_item_needs_notes_and_detection() {
    let mut v = view();
    let label = "Correct Chord Name...".to_owned();
    assert_eq!(
        find(v.clone(), MenuAction::CorrectChordName),
        Some((label.clone(), false))
    );
    v.notes_held = true;
    assert_eq!(
        find(v.clone(), MenuAction::CorrectChordName),
        Some((label.clone(), true))
    );
    v.detection_enabled = false;
    assert_eq!(
        find(v.clone(), MenuAction::CorrectChordName),
        Some((label, false))
    );
    assert_eq!(
        find(v.clone(), MenuAction::TeachChordName).map(|(_, e)| e),
        Some(true)
    );
}

#[test]
fn learning_toggle_renames_itself() {
    let mut v = view();
    assert_eq!(
        find(v.clone(), MenuAction::ToggleChordLearning),
        Some(("Enable Chord Learning".to_owned(), true))
    );
    v.learning_on = true;
    assert_eq!(
        find(v.clone(), MenuAction::ToggleChordLearning),
        Some(("Disable Chord Learning".to_owned(), true))
    );
}

#[test]
fn the_size_percents_are_still_the_first_hover_and_still_read_the_same() {
    let subs = submenus(view());
    assert_eq!(subs[0].0, "Window");
    assert_eq!(
        subs[0].1[..7],
        ["50%", "75%", "100%", "125%", "150%", "175%", "200%"]
    );
    assert_eq!(subs[0].2[2], MenuAction::SetSizePercent(100));
    assert_eq!(subs[0].1[7], "Borderless");
}

#[test]
fn no_menu_row_does_what_a_key_already_does() {
    let gone = [
        (MenuAction::ToggleDarkMode, KeyAction::ToggleDarkMode),
        (MenuAction::CycleFont, KeyAction::CycleFont),
        (MenuAction::ToggleKeytoggle, KeyAction::ToggleKeytoggle),
        (MenuAction::ToggleNotePreference, KeyAction::ToggleNotePreference),
        (MenuAction::ToggleNoteNames, KeyAction::ToggleNoteNames),
        (MenuAction::ToggleRecorder, KeyAction::ToggleRecorder),
        (MenuAction::ShowAllTheory, KeyAction::CycleTheory),
        (
            MenuAction::ToggleTheoryView(View::Circle),
            KeyAction::ToggleTheoryElement(1),
        ),
    ];
    for (row, key) in gone {
        assert_eq!(
            find(fullest(), row.clone()),
            None,
            "{row:?} is back in the menu, and a key already does it"
        );
        assert!(
            ivory_ui::keys::binding_for_test(key),
            "{row:?} left the menu and its key went with it"
        );
    }
    for kept in [
        MenuAction::SelectMidiInput,
        MenuAction::TeachChordName,
        MenuAction::ManageTaughtChords,
        MenuAction::PickColor(ColorTarget::WhiteIdle),
        MenuAction::RescanPlugins,
    ] {
        assert!(
            find(fullest(), kept.clone()).is_some(),
            "{kept:?} has no key and left the menu anyway"
        );
    }
}

#[test]
fn no_menu_ever_shows_a_stray_separator() {
    let both = |v: MenuView| {
        let e = build_entries(v);
        assert!(
            !matches!(e.first(), Some(Entry::Separator)),
            "a separator leads the menu"
        );
        assert!(
            !matches!(e.last(), Some(Entry::Separator)),
            "a separator ends the menu"
        );
        for w in e.windows(2) {
            assert!(
                !(matches!(w[0], Entry::Separator) && matches!(w[1], Entry::Separator)),
                "two separators in a row"
            );
        }
    };
    both(fullest());
    both(view());
    both(MenuView {
        fretboard_on: false,
        recorder_on: false,
        staff_on: false,
        theory: Views::of(Vec::new()),
        detection_enabled: false,
        ..view()
    });
    for caps in [Caps::desktop(), Caps::plugin(), Caps::minimal()] {
        both(MenuView { caps, ..fullest() });
    }
}

#[test]
fn the_fretboard_toggle_brings_its_submenus_with_it() {
    let mut v = view();
    assert_eq!(
        find(v.clone(), MenuAction::ToggleFretboard),
        None,
        "the guitar block showed up without a guitar"
    );
    assert_eq!(
        category_names(v.clone()),
        vec!["Window", "Colors", "Chords", "Clef", "Key", "Staves"],
        "no fretboard hovers while the fretboard is off"
    );

    v.fretboard_on = true;
    assert_eq!(
        find(v.clone(), MenuAction::ToggleFretboard),
        Some(("Hide Fretboard".to_owned(), true))
    );
    assert_eq!(
        category_names(v.clone()),
        vec![
            "Window", "Colors", "Chords", "Clef", "Key", "Staves", "Fretboard", "Wood",
            "Tuning", "Capo"
        ]
    );
    let wood = sub(v.clone(), "Wood");
    assert_eq!(wood.1.len(), 3, "three woods");
    assert!(
        wood.1[0].starts_with("Rosewood"),
        "rosewood is the default and comes first"
    );
    assert!(wood.1[0].ends_with('\u{2022}'));
    assert_eq!(wood.2[0], MenuAction::SetWood("rosewood"));
    let tuning = sub(v.clone(), "Tuning");
    assert_eq!(tuning.1.len(), tunings().len());
    assert!(tuning.1[0].starts_with("Standard"));
    assert!(
        tuning.1[0].ends_with('\u{2022}'),
        "the current tuning is marked"
    );
    assert!(!tuning.1[1].ends_with('\u{2022}'));
    assert_eq!(tuning.2[0], MenuAction::SetTuning("Standard".to_string()));
    assert!(
        tuning.2.iter().all(|a| matches!(a, MenuAction::SetTuning(n)
            if by_name(&tunings(), n).is_some())),
        "every offered tuning must resolve"
    );

    let capo = sub(v.clone(), "Capo");
    assert_eq!(capo.1[0], "No Capo  \u{2022}");
    assert_eq!(capo.1[1], "Fret 1");
    assert_eq!(capo.2[0], MenuAction::SetCapo(0));
    assert_eq!(capo.2.len() as u8, CAPO_MAX + 1);
}

#[test]
fn the_marked_row_follows_the_settings() {
    let v = MenuView {
        fretboard_on: true,
        tuning: "DADGAD".to_string(),
        capo: 3,
        ..view()
    };
    let tuning = sub(v.clone(), "Tuning");
    let marked: Vec<&String> = tuning
        .1
        .iter()
        .filter(|l| l.ends_with('\u{2022}'))
        .collect();
    assert_eq!(marked.len(), 1);
    assert!(marked[0].starts_with("DADGAD"));
    assert_eq!(sub(v.clone(), "Capo").1[3], "Fret 3  \u{2022}");
}

#[test]
fn no_category_opens_onto_nothing_or_onto_a_single_row() {
    for caps in [Caps::desktop(), Caps::plugin(), Caps::minimal()] {
        for on in [false, true] {
            let v = MenuView {
                caps,
                fretboard_on: on,
                detached: on,
                fretboard_detached: on,
                theory_detached: on,
                recorder_on: on,
                recorder_detached: on,
                supporter: on,
                next_font: on.then_some("Terminess"),
                ..view()
            };
            for (name, items, _) in submenus(v) {
                assert!(
                    items.len() >= 2,
                    "[{name}] is a hover over {} row(s) under {caps:?}",
                    items.len()
                );
            }
        }
    }
}

#[test]
fn the_top_level_is_a_short_list_of_subjects() {
    let count = |v: MenuView| {
        build_entries(v)
            .iter()
            .filter(|e| !matches!(e, Entry::Separator))
            .count()
    };
    assert!(
        count(fullest()) <= 18,
        "the fullest menu is back to {} top-level rows",
        count(fullest())
    );
    assert!(
        count(view()) <= 12,
        "the everyday menu is {} top-level rows",
        count(view())
    );
}

#[test]
fn nothing_can_be_detached_any_more() {
    let detach = [
        MenuAction::DetachChordWindow,
        MenuAction::AttachChordWindow,
        MenuAction::DetachFretboard,
        MenuAction::AttachFretboard,
        MenuAction::DetachTheory,
        MenuAction::AttachTheory,
        MenuAction::DetachRecorder,
        MenuAction::AttachRecorder,
    ];
    for detached in [false, true] {
        for caps in [Caps::desktop(), Caps::plugin(), Caps::minimal()] {
            let v = MenuView {
                caps,
                detached,
                fretboard_detached: detached,
                theory_detached: detached,
                recorder_detached: detached,
                ..fullest()
            };
            for a in &detach {
                assert_eq!(
                    find(v.clone(), a.clone()),
                    None,
                    "{a:?} survived at caps={caps:?} detached={detached}"
                );
            }
        }
    }
}

#[test]
fn custom_tuning_is_offered_only_while_the_fretboard_is_showing() {
    assert_eq!(
        find(view(), MenuAction::EditCustomTuning),
        None,
        "an editor for a view the user cannot see"
    );
    let on = MenuView {
        fretboard_on: true,
        ..view()
    };
    assert_eq!(
        find(on.clone(), MenuAction::EditCustomTuning),
        Some(("Custom Tuning...".to_owned(), true))
    );
    let plugin = MenuView {
        caps: Caps::plugin(),
        ..on.clone()
    };
    assert!(find(plugin, MenuAction::EditCustomTuning).is_some());
    assert!(sub(on.clone(), "Fretboard")
        .2
        .contains(&MenuAction::EditCustomTuning));
    assert!(sub(on, "Tuning")
        .2
        .iter()
        .all(|a| matches!(a, MenuAction::SetTuning(_))));
}

#[test]
fn desktop_caps_change_nothing() {
    let mut v = view();
    v.fretboard_on = true;
    v.detection_enabled = true;
    v.recorder_on = true;
    let with = all_rows(v.clone());
    for want in [
        MenuAction::ToggleBorderless,
        MenuAction::SelectMidiInput,
        MenuAction::ToggleChordStrip,
        MenuAction::SetStaffKey(0),
        MenuAction::RescanPlugins,
    ] {
        assert!(
            with.iter().any(|(_, a, _)| *a == want),
            "{want:?} went missing on the desktop"
        );
    }
    assert_eq!(submenus(v.clone())[0].0, "Window");
    assert_eq!(
        rows(v.clone()).last().map(|(_, a, _)| a.clone()),
        Some(MenuAction::ResetSettings)
    );
}

#[test]
fn no_surviving_plugin_row_needs_a_window_or_a_device() {
    let v = MenuView {
        caps: Caps::plugin(),
        fretboard_on: true,
        detection_enabled: true,
        chord_strip: true,
        detached: true,
        fretboard_detached: true,
        theory_detached: true,
        recorder_on: true,
        recorder_detached: true,
        metronome_on: true,
        ..view()
    };
    let mut forbidden = vec![
        MenuAction::SelectMidiInput,
        MenuAction::ToggleBorderless,
        MenuAction::DetachChordWindow,
        MenuAction::AttachChordWindow,
        MenuAction::DetachFretboard,
        MenuAction::AttachFretboard,
        MenuAction::DetachTheory,
        MenuAction::AttachTheory,
        MenuAction::ToggleRecorder,
        MenuAction::DetachRecorder,
        MenuAction::AttachRecorder,
        MenuAction::ShowExportDialog,
        MenuAction::ToggleHideElapsed,
        MenuAction::ToggleMetronome,
        MenuAction::ToggleMetronomeInTake,
    ];
    forbidden.extend(ivory_ui::recorder::COUNT_IN_CHOICES.map(MenuAction::SetCountIn));
    for (label, action, _) in all_rows(v.clone()) {
        assert!(
            !forbidden.contains(&action),
            "{label} needs something a plugin editor does not have"
        );
    }
    assert!(
        all_rows(v.clone())
            .iter()
            .any(|(_, a, _)| *a == MenuAction::SetSizePercent(100)),
        "a plugin with no size choices has no way to be made readable"
    );
    assert!(
        !all_rows(v.clone())
            .iter()
            .any(|(_, a, _)| *a == MenuAction::ToggleBorderless),
        "window chrome is the host's in a plugin"
    );
    let kept = all_rows(v.clone());
    for want in [
        MenuAction::TeachChordName,
        MenuAction::ManageTaughtChords,
        MenuAction::ToggleFretboard,
        MenuAction::EditCustomTuning,
        MenuAction::ShowAbout,
    ] {
        assert!(
            kept.iter().any(|(_, a, _)| *a == want),
            "{want:?} went missing"
        );
    }
    assert_eq!(
        category_names(v.clone()),
        vec![
            "Window", "Colors", "Chords", "Clef", "Key", "Staves", "Fretboard", "Wood",
            "Tuning", "Capo"
        ]
    );
}

#[test]
fn the_theory_compartment_is_the_key_and_the_notation() {
    let v = view();
    let names = category_names(v.clone());
    let at = |want: &str| names.iter().position(|n| n == want);
    assert!(at("Clef") < at("Key") && at("Key") < at("Staves"));
    assert_eq!(
        find(v.clone(), MenuAction::ToggleTheoryFollowsMidi).map(|(l, _)| l),
        Some("Follow MIDI".to_owned())
    );
    assert_eq!(
        find(
            MenuView {
                theory_follows_midi: true,
                ..v.clone()
            },
            MenuAction::ToggleTheoryFollowsMidi
        )
        .map(|(l, _)| l),
        Some("Stop Following MIDI".to_owned())
    );

    let triangles_only = MenuView {
        staff_on: false,
        theory: Views::of(vec![View::Triangles]),
        ..view()
    };
    assert!(category_names(triangles_only.clone())
        .iter()
        .any(|n| n == "Key"));
    assert!(!category_names(triangles_only.clone())
        .iter()
        .any(|n| n == "Clef" || n == "Staves"));
    assert!(find(triangles_only, MenuAction::ToggleTheoryFollowsMidi).is_some());

    let nothing = MenuView {
        staff_on: false,
        theory: Views::of(Vec::new()),
        ..view()
    };
    for gone in [
        MenuAction::SetStaffKey(2),
        MenuAction::ToggleTheoryFollowsMidi,
        MenuAction::SetStaffSet("grand"),
    ] {
        assert_eq!(
            find(nothing.clone(), gone.clone()),
            None,
            "{gone:?} offered with no theory on screen"
        );
    }
}

#[test]
fn learning_block_sits_after_the_teach_block() {
    let chords = sub(view(), "Chords").2;
    let pos = |a: MenuAction| {
        chords
            .iter()
            .position(|x| *x == a)
            .unwrap_or_else(|| panic!("{a:?} is not in the Chords hover"))
    };
    assert!(
        pos(MenuAction::ToggleChordDetection) < pos(MenuAction::TeachChordName),
        "the detector's own switch comes before the things that train it"
    );
    assert!(pos(MenuAction::TeachChordName) < pos(MenuAction::ManageTaughtChords));
    assert!(pos(MenuAction::ManageTaughtChords) < pos(MenuAction::CorrectChordName));
    assert!(pos(MenuAction::CorrectChordName) < pos(MenuAction::ToggleChordLearning));

    let top = rows(view());
    assert_eq!(
        top.last().map(|(_, a, _)| a.clone()),
        Some(MenuAction::ResetSettings)
    );
    assert_eq!(
        top.iter().position(|(_, a, _)| *a == MenuAction::ShowAbout),
        Some(top.len() - 2),
        "About and Reset are the last two rows"
    );
}

#[test]
fn travelling_across_rows_does_not_switch_the_open_submenu() {
    let t0 = 1_000 * MS;
    let mut open = None;
    let mut pending = None;

    assert!(!settle(&mut open, &mut pending, Some(3), false, true, true, t0));
    assert_eq!(open, Some(3));

    let mut t = t0;
    for row in [2usize, 1, 0] {
        t += 20 * MS;
        assert!(
            settle(&mut open, &mut pending, Some(row), false, true, false, t),
            "row {row} should have started a wait, not a switch"
        );
        assert_eq!(open, Some(3), "row {row} stole the submenu in transit");
    }

    let arrive = t + 20 * MS;
    assert!(settle(&mut open, &mut pending, Some(0), false, true, false, arrive));
    let settled = arrive + SUB_SWITCH_DWELL;
    assert!(!settle(&mut open, &mut pending, Some(0), false, true, false, settled));
    assert_eq!(open, Some(0), "a deliberate hover must still work");
}

#[test]
fn a_right_click_on_the_band_leads_with_the_recorder() {
    let v = MenuView {
        recorder_on: true,
        recorder_first: true,
        ..view()
    };
    assert_eq!(
        category_names(v.clone()).first().map(String::as_str),
        Some("Plugin folders"),
        "the band's category does not lead: {:?}",
        category_names(v.clone())
    );

    let elsewhere = MenuView {
        recorder_on: true,
        recorder_first: false,
        ..view()
    };
    let mut a = category_names(v);
    let mut b = category_names(elsewhere.clone());
    a.sort();
    b.sort();
    assert_eq!(a, b, "the two menus hold different categories");
    assert_eq!(
        all_rows(elsewhere.clone()).len(),
        all_rows(MenuView {
            recorder_first: true,
            ..elsewhere
        })
        .len(),
        "a row went missing when the block moved"
    );
}

#[test]
fn a_menu_opening_under_the_cursor_opens_nothing() {
    let t = 1_000 * MS;
    let mut open = None;
    let mut pending = None;

    assert!(!settle(&mut open, &mut pending, Some(0), false, false, true, t));
    assert_eq!(open, None, "the top submenu opened without being pointed at");

    let later = t + 2_000 * MS;
    assert!(!settle(&mut open, &mut pending, Some(0), false, false, true, later));
    assert_eq!(open, None);

    assert!(settle(&mut open, &mut pending, Some(0), false, true, false, later));
    assert_eq!(open, None, "arming alone opened the row under the cursor");

    assert!(!settle(&mut open, &mut pending, Some(0), false, true, true, later));
    assert_eq!(open, Some(0));
}

#[test]
fn a_pointer_that_has_stopped_switches_at_once() {
    let t = 1_000 * MS;
    let mut open = Some(4);
    let mut pending = None;
    assert!(settle(&mut open, &mut pending, Some(1), false, true, false, t));
    assert_eq!(open, Some(4));
    assert!(!settle(&mut open, &mut pending, Some(1), false, true, true, t));
    assert_eq!(open, Some(1));
}

#[test]
fn returning_to_the_open_row_cancels_a_pending_switch() {
    let t = 1_000 * MS;
    let mut open = Some(2);
    let mut pending = Some((Some(5), t));
    assert!(!settle(&mut open, &mut pending, Some(2), false, true, false, t));
    assert_eq!(open, Some(2));
    assert!(pending.is_none(), "the abandoned switch was still armed");
}

#[test]
fn a_flick_down_the_menu_opens_nothing_on_the_way() {
    let mut t = 1_000 * MS;
    let mut open = None;
    let mut pending = None;
    for row in [0usize, 1, 2, 3, 4, 5, 6] {
        t += 16 * MS;
        settle(&mut open, &mut pending, Some(row), false, true, false, t);
        assert_eq!(
            open, None,
            "row {row} opened while the pointer was passing over it"
        );
    }
    t += 16 * MS;
    settle(&mut open, &mut pending, Some(7), false, true, true, t);
    assert_eq!(open, Some(7), "the row the pointer stopped on did not open");
}

#[test]
fn a_click_on_a_category_opens_it_without_waiting() {
    let t = 1_000 * MS;
    let mut open = Some(2);
    let mut pending = Some((Some(9), t));
    assert!(!settle_submenu(
        &mut open,
        &mut pending,
        Some(5),
        false,
        true,
        false,
        true,
        t
    ));
    assert_eq!(open, Some(5), "a click was made to wait for a dwell");
    assert!(pending.is_none(), "the click left a stale wait behind");
}

struct Resting {
    since: Option<u64>,
    anchor: (f32, f32),
}

impl Resting {
    fn note(&mut self, pointer: Option<(f32, f32)>, now: u64) -> bool {
        let near = pointer.map(|p| {
            let (dx, dy) = (p.0 - self.anchor.0, p.1 - self.anchor.1);
            (dx * dx + dy * dy).sqrt() <= 1.0
        });
        let before = self.since;
        let still = note_rest(&mut self.since, near, now);
        if let Some(p) = pointer {
            if before.is_none() || near == Some(false) {
                self.anchor = p;
            }
        }
        still
    }
}

#[test]
fn a_pointer_still_travelling_is_never_at_rest() {
    let mut rest = Resting { since: None, anchor: (0.0, 0.0) };
    let mut t = 1_000 * MS;
    let mut p = (10.0, 10.0);
    for _ in 0..60 {
        t += 16 * MS;
        p.1 += 10.0;
        assert!(
            !rest.note(Some(p), t),
            "a pointer moving ten points a frame was called still"
        );
    }
    for _ in 0..5 {
        t += 16 * MS;
        rest.note(Some(p), t);
    }
    assert!(
        rest.note(Some(p), t),
        "a pointer that was let go of never settled"
    );
}

#[test]
fn leaving_the_window_starts_the_rest_over() {
    let mut rest = Resting { since: None, anchor: (0.0, 0.0) };
    let t0 = 1_000 * MS;
    let p = (10.0, 10.0);
    assert!(!rest.note(Some(p), t0));
    let settled = t0 + REST_FOR + MS;
    assert!(
        rest.note(Some(p), settled),
        "a pointer sitting in one place was never noticed"
    );

    assert!(!rest.note(None, settled));
    let back = settled + 16 * MS;
    assert!(
        !rest.note(Some((10.0, 120.0)), back),
        "re-entering the menu counted as having arrived"
    );
}

#[test]
fn a_plain_row_closes_the_submenu_but_empty_space_does_not() {
    let t = 1_000 * MS;
    let mut open = Some(1);
    let mut pending = None;
    assert!(!settle(&mut open, &mut pending, None, false, true, false, t));
    assert_eq!(open, Some(1), "the gap between menu and panel closed it");

    assert!(settle(&mut open, &mut pending, None, true, true, false, t));
    assert_eq!(open, Some(1), "a plain row crossed in transit closed the panel");

    assert!(!settle(&mut open, &mut pending, None, true, true, true, t));
    assert_eq!(open, None, "a plain row rested on should have closed it");
}

#[test]
fn the_recorder_category_is_absent_entirely_without_capture_devices() {
    for caps in [Caps::plugin(), Caps::minimal()] {
        let v = MenuView {
            caps,
            recorder_on: true,
            recorder_detached: true,
            ..view()
        };
        assert!(
            !category_names(v.clone())
                .iter()
                .any(|n| n == "Recorder" || n == "Count-in"),
            "a Recorder hover survived {caps:?}"
        );
        for gone in [
            MenuAction::ToggleRecorder,
            MenuAction::DetachRecorder,
            MenuAction::AttachRecorder,
            MenuAction::ShowExportDialog,
            MenuAction::ToggleHideElapsed,
            MenuAction::SetCountIn(3),
        ] {
            assert_eq!(
                find(v.clone(), gone.clone()),
                None,
                "{gone:?} survived {caps:?}"
            );
        }
    }
}


#[test]
fn a_click_on_the_sheet_music_leads_with_the_clefs() {
    let v = MenuView { staff_first: true, ..fullest() };
    let names = category_names(v.clone());
    assert_eq!(names[..3], ["Clef", "Key", "Staves"]);
    assert_eq!(names.len(), category_names(fullest()).len());
    // With no staff on screen the click changes nothing.
    let off = MenuView { staff_first: true, staff_on: false, ..fullest() };
    assert_eq!(category_names(off)[0], "Window");
}

#[test]
fn lifting_the_recorder_out_takes_its_separator_along() {
    for staff_first in [false, true] {
        for caps in [Caps::desktop(), Caps::plugin(), Caps::minimal()] {
            let there = MenuView { recorder_on: true, staff_first, caps, ..fullest() };
            let lifted = build_entries(MenuView { recorder_first: true, ..there.clone() });
            assert!(!matches!(lifted.first(), Some(Entry::Separator)));
            assert!(!matches!(lifted.last(), Some(Entry::Separator)));
            for w in lifted.windows(2) {
                assert!(
                    !(matches!(w[0], Entry::Separator) && matches!(w[1], Entry::Separator)),
                    "two separators in a row"
                );
            }
            // The same lines, separators included.
            assert_eq!(lifted.len(), build_entries(there).len());
        }
    }
    let v = MenuView { recorder_on: true, recorder_first: true, ..view() };
    let e = build_entries(v);
    assert!(matches!(&e[0], Entry::Submenu { label, .. } if label == "Plugin folders"));
    assert!(matches!(e[1], Entry::Separator));
    assert!(!matches!(e[2], Entry::Separator));
}

#[test]
fn added_folders_can_be_forgotten_and_are_counted() {
    let mut v = fullest();
    assert_eq!(find(v.clone(), MenuAction::ClearPluginFolders), None);
    v.extra_plugin_folders = 1;
    assert_eq!(
        find(v.clone(), MenuAction::ClearPluginFolders),
        Some(("Forget 1 Added Folder".to_owned(), true))
    );
    v.extra_plugin_folders = 12;
    assert_eq!(
        find(v, MenuAction::ClearPluginFolders),
        Some(("Forget 12 Added Folders".to_owned(), true))
    );
}

#[test]
fn a_custom_stack_of_clefs_is_listed_and_marked() {
    let mut v = view();
    assert_eq!(sub(v.clone(), "Clef").1[0], "Grand staff  \u{2022}");
    v.staff_custom_label = Some("Mine".to_owned());
    v.staff_set = "custom:alto+bass".to_owned();
    v.staff_clefs = vec!["alto".to_owned(), "bass".to_owned()];
    v.staff_key = -3;
    let clef = sub(v.clone(), "Clef");
    assert_eq!(clef.1.len(), 8);
    assert_eq!(clef.1[7], "Mine  \u{2022}");
    assert_eq!(clef.2[7], MenuAction::SetStaffSet("__custom__"));
    assert_eq!(clef.1[0], "Grand staff");
    let staves = sub(v.clone(), "Staves");
    assert_eq!(staves.1[1], "Bass  \u{2022}");
    assert_eq!(staves.1[0], "Treble");
    assert_eq!(staves.2[1], MenuAction::ToggleCustomClef("bass".to_owned()));
    let key = sub(v, "Key");
    assert_eq!(key.1[4], "key -3  \u{2022}");
    assert_eq!(key.2[4], MenuAction::SetStaffKey(-3));
}

#[test]
fn a_category_of_one_is_a_row_and_of_none_is_nothing() {
    let mut v = view();
    v.caps.size_presets = false;
    assert_eq!(category_names(v.clone())[0], "Colors");
    assert!(rows(v.clone()).iter().any(|(l, ..)| l == "Borderless"));
    v.caps.window_sizing = false;
    assert_eq!(find(v, MenuAction::ToggleBorderless), None);
}

#[test]
fn the_top_rows_are_what_can_be_clicked_at_once() {
    let top = rows_for_test(view());
    let want: Vec<&str> = vec![
        "Select MIDI Input...",
        "Disable Chord Strip (legacy)",
        "Follow MIDI",
        "Support Tangent...",
        "About",
        "Reset Settings to Default",
    ];
    assert_eq!(top.iter().map(|(l, _)| l.as_str()).collect::<Vec<_>>(), want);
    assert_eq!(top[0].1, MenuAction::SelectMidiInput);
}

#[test]
fn the_two_themes_are_each_others_inverse() {
    let (dark, light) = (colors(true), colors(false));
    assert_eq!((dark.bg, dark.text), (light.text, light.bg));
    assert_eq!((dark.sel.r, dark.sel.g, dark.sel.b), (0x1a, 0x1a, 0x1a));
}

fn seen(strayed: bool, near: bool) -> Option<Sighting> {
    Some(Sighting { strayed, near })
}

#[test]
fn an_open_menu_arms_rests_and_opens() {
    let mut m = MenuState::open(view(), 0);
    assert!(!m.armed && m.submenu_open.is_none());
    // The first sighting never arms, however far it says it has strayed.
    m.point(seen(true, false), Some(0), false, false, 10 * MS);
    assert!(!m.armed);
    let w = m.point(seen(true, false), Some(0), false, false, 20 * MS);
    assert!(m.armed && w.dwell && w.rest);
    assert_eq!(m.open_hover(false), None);
    // Sixty milliseconds in one place is a rest.
    let w = m.point(seen(true, true), Some(0), false, false, 20 * MS + REST_FOR);
    assert!(!w.dwell && !w.rest);
    assert_eq!(m.submenu_open, Some(0));
    // Behind the row that picks a MIDI input.
    assert_eq!(m.open_hover(false), Some(1));
    assert_eq!(m.open_hover(true), None);
    m.submenu_open = Some(99);
    assert_eq!(m.open_hover(false), None);
}

fn report() -> SurfaceReport {
    SurfaceReport { close: false, focused: None, pointer_over: None, pressed_outside: false }
}

#[test]
fn a_window_closes_on_lost_focus_unless_the_pointer_is_inside() {
    let mut m = MenuState::open(view(), 0);
    let focused = SurfaceReport { focused: Some(true), ..report() };
    let lost = SurfaceReport { focused: Some(false), ..report() };
    let inside = SurfaceReport { pointer_over: Some(true), ..lost };
    assert!(!m.closes(lost, None, OPENING_GRACE + MS), "it never had the focus");
    assert!(!m.closes(focused, None, MS));
    assert!(!m.closes(lost, None, OPENING_GRACE), "too soon");
    assert!(!m.closes(inside, None, OPENING_GRACE + MS), "the pointer is in it");
    assert!(!m.closes(lost, Some(focused), OPENING_GRACE + MS), "its hover has the focus");
    assert!(m.closes(lost, Some(lost), OPENING_GRACE + MS));
    assert!(m.closes(SurfaceReport { close: true, ..report() }, None, 0));
}

#[test]
fn a_layer_closes_on_a_press_outside_both() {
    let mut m = MenuState::open(MenuView { caps: Caps::plugin(), ..view() }, 0);
    let outside = SurfaceReport { pressed_outside: true, ..report() };
    assert!(m.closes(outside, None, 0));
    assert!(!m.closes(outside, Some(report()), 0));
    assert!(m.closes(outside, Some(outside), 0));
}
