//! Shortcuts, and the card that lists them.

use ivory_ui::keys::{
    available, best_arrangement, binding_for_test, card_cell, card_rows, card_widths, describe,
    help_held, pressed, Arrangement, Gates, Key, KeyAction, BINDINGS,
};

#[test]
fn every_binding_is_unique_and_described() {
    let mut keys: Vec<Key> = Vec::new();
    for (key, label, _) in BINDINGS {
        let action = key.action();
        assert!(!keys.contains(&key), "{label} is bound twice");
        keys.push(key);
        assert!(!label.is_empty());
        assert!(!describe(action).is_empty(), "{label} has no description");
    }
    let shown: Vec<KeyAction> = BINDINGS
        .iter()
        .filter(|(.., s)| *s)
        .map(|(key, ..)| key.action())
        .collect();
    for (key, label, is_shown) in BINDINGS {
        let action = key.action();
        if !available(action, Gates { recorder_shown: true, recorder_available: true, window_sizing: true }) {
            panic!("{label} is dead even with every gate open");
        }
        if !available(action, Gates::default()) {
            assert!(
                shown.contains(&action),
                "{label} is gated and its action appears nowhere on the card"
            );
        }
    }
    for (key, label, is_shown) in BINDINGS {
        let action = key.action();
        if !is_shown && action != KeyAction::CloseHelp {
            assert!(
                shown.iter().any(|a| a.family() == action.family()),
                "{label} is bound but never listed"
            );
        }
    }
}

#[test]
fn a_modifier_suppresses_every_shortcut() {
    for (key, label, _) in BINDINGS {
        let got = pressed(
            true,
            &vec![key],
            Gates { recorder_shown: true, recorder_available: true, window_sizing: true },
        );
        assert_eq!(got, None, "{label} fired with a modifier held");
    }
}

fn press(key: Key, gates: Gates) -> Option<KeyAction> {
    pressed(false, &vec![key], gates)
}

#[test]
fn a_bare_key_does_fire() {
    assert_eq!(
        press(Key::K, Gates::default()),
        Some(KeyAction::ToggleKeytoggle)
    );
}

#[test]
fn space_does_nothing_until_the_recorder_band_is_open() {
    assert_eq!(
        press(Key::Space, Gates::default()),
        None,
        "Space started a take on a recorder the user has never opened"
    );
    assert_eq!(
        press(Key::Space, Gates { recorder_shown: true, recorder_available: true, window_sizing: true }),
        Some(KeyAction::StopRecording)
    );
    assert_eq!(press(Key::Enter, Gates::default()), None);
    assert_eq!(
        press(Key::Enter, Gates { recorder_shown: true, recorder_available: true, window_sizing: true }),
        Some(KeyAction::StartRecording)
    );
    for (key, want) in [
        (Key::K, KeyAction::ToggleKeytoggle),
        (Key::G, KeyAction::ToggleFretboard),
        (Key::W, KeyAction::ToggleCameraPane),
        (Key::U, KeyAction::ToggleNoteNames),
        (Key::I, KeyAction::CycleClef),
    ] {
        for gates in [Gates::default(), Gates { recorder_shown: true, recorder_available: true, window_sizing: true }] {
            assert_eq!(press(key, gates), Some(want), "{key:?} under {gates:?}");
        }
    }
}

#[test]
fn the_card_does_not_list_space_while_the_recorder_is_hidden() {
    let can_record = Gates {
        recorder_shown: false,
        recorder_available: true,
        window_sizing: true,
    };
    let hidden = card_rows(can_record);
    for gone in ["Space", "Enter"] {
        assert!(
            !hidden.iter().any(|(label, _)| *label == gone),
            "the card offers {gone}, a shortcut the app would ignore"
        );
    }
    let shown = card_rows(Gates {
        recorder_shown: true,
        ..can_record
    });
    assert_eq!(
        shown.len(),
        hidden.len() + 2,
        "opening the band added something other than Enter and Space"
    );
    assert_eq!(
        shown.last().map(|(l, d)| (*l, *d)),
        Some(("Space", describe(KeyAction::StopRecording))),
        "Space is last, so appearing does not reflow every row above it"
    );
    for gates in [Gates::default(), Gates { recorder_shown: true, recorder_available: true, window_sizing: true }] {
        for (label, _) in card_rows(gates) {
            let (key, ..) = BINDINGS
                .iter()
                .find(|(_, l, ..)| *l == label)
                .unwrap_or_else(|| panic!("{label} is on the card but not in the table"));
            assert!(available(key.action(), gates), "{label} is listed but dead");
        }
    }
}


#[test]
fn the_first_binding_of_the_table_wins() {
    let gates = Gates::default();
    assert_eq!(
        pressed(false, &vec![Key::A, Key::K], gates),
        Some(KeyAction::ToggleKeytoggle)
    );
    assert_eq!(pressed(false, &Vec::new(), gates), None);
    // Help is held, not pressed.
    for key in [Key::H, Key::F1, Key::Escape] {
        assert_eq!(press(key, gates), None);
    }
    assert_eq!(press(Key::Num3, gates), Some(KeyAction::ToggleTheoryElement(3)));
}

#[test]
fn the_window_and_the_recorder_have_gates_of_their_own() {
    let window = Gates { window_sizing: true, ..Gates::default() };
    let recorder = Gates { recorder_available: true, ..Gates::default() };
    for key in [Key::Z, Key::F11] {
        assert_eq!(press(key, Gates::default()), None);
        assert_eq!(press(key, window), Some(KeyAction::ToggleFullscreen));
    }
    assert_eq!(press(Key::V, window), None);
    assert_eq!(press(Key::V, recorder), Some(KeyAction::ToggleRecorder));
}

#[test]
fn help_is_held_by_either_key_alone() {
    assert!(help_held(true, false, &vec![Key::H]));
    assert!(help_held(true, false, &vec![Key::A, Key::F1]));
    assert!(!help_held(false, false, &vec![Key::H]));
    assert!(!help_held(true, true, &vec![Key::H]));
    assert!(!help_held(true, false, &vec![Key::Escape]));
}

#[test]
fn only_bound_actions_have_bindings() {
    assert!(binding_for_test(KeyAction::ToggleTheoryElement(4)));
    assert!(!binding_for_test(KeyAction::ToggleTheoryElement(5)));
    assert_eq!(
        KeyAction::ToggleTheoryElement(3).family(),
        KeyAction::ToggleTheoryElement(1)
    );
    assert_eq!(KeyAction::ClearNotes.family(), KeyAction::ClearNotes);
}

#[test]
fn the_card_takes_the_biggest_text_that_fits() {
    let opt = |fits: bool, size: u32| Arrangement { fits, size };
    assert_eq!(best_arrangement(&vec![opt(true, 6), opt(true, 9), opt(false, 13)]), Some(1));
    assert_eq!(best_arrangement(&vec![opt(true, 9), opt(true, 9)]), Some(0));
    assert_eq!(best_arrangement(&vec![opt(false, 9)]), None);
    assert_eq!(best_arrangement(&Vec::new()), None);
}

#[test]
fn rows_fill_a_column_before_the_next() {
    assert_eq!(card_cell(0, 22, 3), (0, 0));
    assert_eq!(card_cell(7, 22, 3), (0, 7));
    assert_eq!(card_cell(8, 22, 3), (1, 0));
    assert_eq!(card_cell(21, 22, 3), (2, 5));
}

#[test]
fn the_card_is_as_wide_as_its_widest_row() {
    assert_eq!(card_widths(&Vec::new()), (20, 1));
    let rows = card_rows(Gates { recorder_shown: true, recorder_available: true, window_sizing: true });
    let widest = "keytoggle: click the piano or the neck to place notes".len();
    assert_eq!(card_widths(&rows), (widest, 5));
    assert_eq!(rows[0], ("H", "hold for this card"));
    assert_eq!(describe(KeyAction::ShowAbout), "about");
}
