//! The keyboard: which key does what, and what the card says about it.

use crate::keys::{
    available, best_arrangement, binding_for_test, card_cell, card_rows, card_widths, describe,
    help_held, pressed, Arrangement, Gates, Key, KeyAction, BINDINGS,
};
use vstd::prelude::*;

verus! {

/// A key pressed alone does its own thing and nobody else's. The help keys are
/// held rather than pressed, so pressing one does nothing; the take's keys wait
/// for the band, the recorder's for a host that records, and the screen's for a
/// window of our own.
pub proof fn a_key_alone_does_its_own(
    key: Key,
    down: Vec<Key>,
    gates: Gates,
    r: Option<KeyAction>,
)
    requires
        call_ensures(pressed, (false, &down, gates), r),
        down@.len() > 0,
        forall|i: int| 0 <= i < down@.len() ==> #[trigger] down@[i] == key,
    ensures
        key == Key::K ==> r == Some(KeyAction::ToggleKeytoggle),
        key == Key::R ==> r == Some(KeyAction::ClearNotes),
        key == Key::G ==> r == Some(KeyAction::ToggleFretboard),
        key == Key::W ==> r == Some(KeyAction::ToggleCameraPane),
        key == Key::U ==> r == Some(KeyAction::ToggleNoteNames),
        key == Key::I ==> r == Some(KeyAction::CycleClef),
        key == Key::Num1 ==> r == Some(KeyAction::ToggleTheoryElement(1)),
        key == Key::Num2 ==> r == Some(KeyAction::ToggleTheoryElement(2)),
        key == Key::Num3 ==> r == Some(KeyAction::ToggleTheoryElement(3)),
        key == Key::Num4 ==> r == Some(KeyAction::ToggleTheoryElement(4)),
        key == Key::T ==> r == Some(KeyAction::CycleTheory),
        key == Key::C ==> r == Some(KeyAction::ToggleDetection),
        key == Key::D ==> r == Some(KeyAction::ToggleDarkMode),
        key == Key::B ==> r == Some(KeyAction::ToggleBorderless),
        key == Key::F ==> r == Some(KeyAction::CycleFont),
        key == Key::A ==> r == Some(KeyAction::ShowAbout),
        key == Key::S ==> r == Some(KeyAction::ShowSupporterKey),
        key == Key::N ==> r == Some(KeyAction::TeachChordName),
        key == Key::E ==> r == Some(KeyAction::CorrectChordName),
        key == Key::M ==> r == Some(KeyAction::ManageTaughtChords),
        key == Key::L ==> r == Some(KeyAction::ToggleChordLearning),
        key == Key::P ==> r == Some(KeyAction::ToggleNotePreference),
        key == Key::ArrowUp ==> r == Some(KeyAction::TransposeUp),
        key == Key::ArrowDown ==> r == Some(KeyAction::TransposeDown),
        key == Key::Z || key == Key::F11 ==> r == (if gates.window_sizing {
            Some(KeyAction::ToggleFullscreen)
        } else {
            None
        }),
        key == Key::V ==> r == (if gates.recorder_available {
            Some(KeyAction::ToggleRecorder)
        } else {
            None
        }),
        key == Key::Enter ==> r == (if gates.recorder_shown {
            Some(KeyAction::StartRecording)
        } else {
            None
        }),
        key == Key::Space ==> r == (if gates.recorder_shown {
            Some(KeyAction::StopRecording)
        } else {
            None
        }),
        key == Key::H || key == Key::F1 || key == Key::Escape ==> r is None,
{
    crate::keys::every_key_stands_in_the_table(key);
    assert(down@[0] == key);
    assert(down@.contains(key));
    if crate::keys::fires(key.place(), down@, gates) {
        assert(r is Some);
    }
    if let Some(action) = r {
        let i = choose|i: int|
            0 <= i < 32 && #[trigger] crate::keys::fires(i, down@, gates) && action
                == BINDINGS@[i].0.bound();
        assert(BINDINGS@[i].0 == key);
    }
}

/// A frame of many keys does what one of them would do alone, does nothing only
/// when none of them would do anything, and does nothing at all under a
/// modifier.
pub proof fn many_keys_do_what_one_of_them_does(
    modifiers: bool,
    down: Vec<Key>,
    key: Key,
    one: Vec<Key>,
    gates: Gates,
    r: Option<KeyAction>,
    alone: Option<KeyAction>,
)
    requires
        call_ensures(pressed, (modifiers, &down, gates), r),
        call_ensures(pressed, (false, &one, gates), alone),
        one@ == seq![key],
        down@.contains(key),
    ensures
        modifiers ==> r is None,
        !modifiers && alone is Some ==> r is Some,
        r is Some ==> exists|i: int|
            0 <= i < down@.len() && #[trigger] down@[i].bound() == r->0,
{
    crate::keys::every_key_stands_in_the_table(key);
    if let Some(action) = alone {
        let i = choose|i: int|
            0 <= i < 32 && #[trigger] crate::keys::fires(i, one@, gates) && action
                == BINDINGS@[i].0.bound();
        assert(one@[0] == key);
        assert(BINDINGS@[i].0 == key);
        assert(crate::keys::fires(i, down@, gates));
    }
    if let Some(action) = r {
        let i = choose|i: int|
            0 <= i < 32 && #[trigger] crate::keys::fires(i, down@, gates) && action
                == BINDINGS@[i].0.bound();
        let k = choose|k: int| 0 <= k < down@.len() && down@[k] == BINDINGS@[i].0;
        assert(down@[k].bound() == action);
    }
}

/// Of two keys pressed together the one higher in the table is answered.
pub proof fn the_higher_of_two_keys_is_answered(
    p: int,
    q: int,
    down: Vec<Key>,
    one: Vec<Key>,
    gates: Gates,
    r: Option<KeyAction>,
    alone: Option<KeyAction>,
)
    requires
        0 <= p < q < 32,
        down@.contains(BINDINGS@[p].0),
        forall|i: int|
            0 <= i < down@.len() ==> #[trigger] down@[i] == BINDINGS@[p].0 || down@[i]
                == BINDINGS@[q].0,
        one@ == seq![BINDINGS@[p].0],
        call_ensures(pressed, (false, &down, gates), r),
        call_ensures(pressed, (false, &one, gates), alone),
        alone is Some,
    ensures
        r == alone,
{
    let a = choose|i: int|
        0 <= i < 32 && #[trigger] crate::keys::fires(i, one@, gates) && alone->0
            == BINDINGS@[i].0.bound();
    assert(one@[0] == BINDINGS@[p].0);
    crate::keys::every_key_is_bound_once(a, p);
    assert(crate::keys::fires(p, down@, gates));
    let b = choose|i: int|
        0 <= i < 32 && #[trigger] crate::keys::fires(i, down@, gates) && r->0
            == BINDINGS@[i].0.bound() && forall|j: int|
            0 <= j < i ==> !#[trigger] crate::keys::fires(j, down@, gates);
    assert(b <= p);
    let k = choose|k: int| 0 <= k < down@.len() && down@[k] == BINDINGS@[b].0;
    assert(down@[k] == BINDINGS@[p].0 || down@[k] == BINDINGS@[q].0);
    if down@[k] == BINDINGS@[q].0 {
        crate::keys::every_key_is_bound_once(b, q);
    }
    crate::keys::every_key_is_bound_once(b, p);
}

/// The card is out exactly while `H` or `F1` is held, alone and where it may be.
pub proof fn help_is_on_h_and_f1(
    allowed: bool,
    modifiers: bool,
    down: Vec<Key>,
    r: bool,
)
    requires
        call_ensures(help_held, (allowed, modifiers, &down), r),
    ensures
        r <==> allowed && !modifiers && (down@.contains(Key::H) || down@.contains(Key::F1)),
{
    assert(BINDINGS@[0].0 == Key::H && BINDINGS@[1].0 == Key::F1);
    if r {
        let i = choose|i: int|
            0 <= i < 32 && (#[trigger] BINDINGS@[i]).0.bound() == KeyAction::ToggleHelp
                && down@.contains(BINDINGS@[i].0);
        assert(BINDINGS@[i].0 == Key::H || BINDINGS@[i].0 == Key::F1);
    }
}

/// Four gates and nothing else: starting and stopping a take need the band on
/// screen, the recorder needs a host that records, filling the screen needs a
/// window of our own, and everything else is always there.
pub proof fn the_gates_hold_back_four_actions(action: KeyAction, gates: Gates, r: bool)
    requires
        call_ensures(available, (action, gates), r),
    ensures
        action == KeyAction::StartRecording ==> r == gates.recorder_shown,
        action == KeyAction::StopRecording ==> r == gates.recorder_shown,
        action == KeyAction::ToggleRecorder ==> r == gates.recorder_available,
        action == KeyAction::ToggleFullscreen ==> r == gates.window_sizing,
        action != KeyAction::StartRecording && action != KeyAction::StopRecording && action
            != KeyAction::ToggleRecorder && action != KeyAction::ToggleFullscreen ==> r,
{
}

/// Every action is on some key, except for elements the number row does not
/// reach.
pub proof fn every_action_has_a_key(action: KeyAction, r: bool)
    requires
        call_ensures(binding_for_test, (action,), r),
    ensures
        r <==> (action matches KeyAction::ToggleTheoryElement(n) ==> 1 <= n <= 4),
{
    let key = match action {
        KeyAction::ToggleHelp => Key::H,
        KeyAction::ToggleKeytoggle => Key::K,
        KeyAction::ClearNotes => Key::R,
        KeyAction::ToggleFretboard => Key::G,
        KeyAction::ToggleCameraPane => Key::W,
        KeyAction::CycleClef => Key::I,
        KeyAction::ToggleNoteNames => Key::U,
        KeyAction::ToggleTheoryElement(n) => if n == 1 {
            Key::Num1
        } else if n == 2 {
            Key::Num2
        } else if n == 3 {
            Key::Num3
        } else {
            Key::Num4
        },
        KeyAction::CycleTheory => Key::T,
        KeyAction::ToggleDarkMode => Key::D,
        KeyAction::ToggleDetection => Key::C,
        KeyAction::ToggleBorderless => Key::B,
        KeyAction::CycleFont => Key::F,
        KeyAction::ShowAbout => Key::A,
        KeyAction::ShowSupporterKey => Key::S,
        KeyAction::TeachChordName => Key::N,
        KeyAction::CorrectChordName => Key::E,
        KeyAction::ManageTaughtChords => Key::M,
        KeyAction::ToggleChordLearning => Key::L,
        KeyAction::ToggleNotePreference => Key::P,
        KeyAction::StartRecording => Key::Enter,
        KeyAction::StopRecording => Key::Space,
        KeyAction::ToggleRecorder => Key::V,
        KeyAction::ToggleFullscreen => Key::Z,
        KeyAction::TransposeUp => Key::ArrowUp,
        KeyAction::TransposeDown => Key::ArrowDown,
        KeyAction::CloseHelp => Key::Escape,
    };
    crate::keys::every_key_stands_in_the_table(key);
    assert(BINDINGS@[key.place()].0 == key);
    if r {
        let i = choose|i: int| 0 <= i < 32 && (#[trigger] BINDINGS@[i]).0.bound() == action;
        let k = BINDINGS@[i].0;
        assert(k.bound() == action);
    }
}

/// What each action is called on the card.
pub proof fn every_action_is_described(a: KeyAction, r: &'static str)
    requires
        call_ensures(describe, (a,), r),
    ensures
        a == KeyAction::ToggleHelp ==> r@ == "hold for this card"@,
        a == KeyAction::ToggleKeytoggle ==> r@
            == "keytoggle: click the piano or the neck to place notes"@,
        a == KeyAction::ClearNotes ==> r@ == "clear every note you placed"@,
        a == KeyAction::ToggleFretboard ==> r@ == "guitar view"@,
        a == KeyAction::ToggleCameraPane ==> r@ == "camera"@,
        a == KeyAction::CycleClef ==> r@ == "clef"@,
        a == KeyAction::ToggleNoteNames ==> r@ == "note names"@,
        a is ToggleTheoryElement ==> r@ == "theory panel on/off (1-4)"@,
        a == KeyAction::CycleTheory ==> r@ == "cycle the theory band"@,
        a == KeyAction::ToggleDarkMode ==> r@ == "dark mode"@,
        a == KeyAction::ToggleDetection ==> r@ == "chord detection"@,
        a == KeyAction::ToggleBorderless ==> r@ == "window border"@,
        a == KeyAction::CycleFont ==> r@ == "cycle the typeface"@,
        a == KeyAction::ShowAbout ==> r@ == "about"@,
        a == KeyAction::ShowSupporterKey ==> r@ == "enter a supporter key"@,
        a == KeyAction::TeachChordName ==> r@ == "name the chord you are holding"@,
        a == KeyAction::CorrectChordName ==> r@ == "correct what it reads"@,
        a == KeyAction::ManageTaughtChords ==> r@ == "chords you have taught"@,
        a == KeyAction::ToggleChordLearning ==> r@ == "chord learning"@,
        a == KeyAction::ToggleNotePreference ==> r@ == "sharps or flats"@,
        a == KeyAction::StartRecording ==> r@ == "start recording"@,
        a == KeyAction::StopRecording ==> r@ == "stop recording"@,
        a == KeyAction::ToggleRecorder ==> r@ == "the recorder"@,
        a == KeyAction::ToggleFullscreen ==> r@ == "fill the screen"@,
        a == KeyAction::TransposeUp ==> r@ == "transpose up a semitone"@,
        a == KeyAction::TransposeDown ==> r@ == "transpose down a semitone"@,
        a == KeyAction::CloseHelp ==> r@ == "close this card"@,
{
}

/// The card from top to bottom: what every host has, with the rows of a gate
/// that is open in their places.
pub proof fn the_card_reads_from_top_to_bottom(
    gates: Gates,
    r: Vec<(&'static str, &'static str)>,
)
    requires
        call_ensures(card_rows, (gates,), r),
    ensures
        crate::keys::as_read(r@) == seq![
            ("H"@, "hold for this card"@),
            ("K"@, "keytoggle: click the piano or the neck to place notes"@),
            ("R"@, "clear every note you placed"@),
            ("G"@, "guitar view"@),
            ("W"@, "camera"@),
            ("U"@, "note names"@),
            ("I"@, "clef"@),
            ("1-4"@, "theory panel on/off (1-4)"@),
            ("T"@, "cycle the theory band"@),
            ("C"@, "chord detection"@),
            ("D"@, "dark mode"@),
            ("B"@, "window border"@),
            ("F"@, "cycle the typeface"@),
            ("A"@, "about"@),
            ("S"@, "enter a supporter key"@),
            ("N"@, "name the chord you are holding"@),
            ("E"@, "correct what it reads"@),
            ("M"@, "chords you have taught"@),
            ("L"@, "chord learning"@),
            ("P"@, "sharps or flats"@),
        ] + (if gates.window_sizing {
            seq![("Z"@, "fill the screen"@)]
        } else {
            seq![]
        }) + seq![
            ("Up"@, "transpose up a semitone"@),
            ("Down"@, "transpose down a semitone"@),
        ] + (if gates.recorder_available {
            seq![("V"@, "the recorder"@)]
        } else {
            seq![]
        }) + (if gates.recorder_shown {
            seq![("Enter"@, "start recording"@), ("Space"@, "stop recording"@)]
        } else {
            seq![]
        }),
{
    lemma_card_above_the_window(gates);
    let top = crate::keys::rows_from(24, gates);
    let z = crate::keys::rows_from(26, gates);
    let arrows = crate::keys::rows_from(28, gates);
    let v = crate::keys::rows_from(29, gates);
    assert(BINDINGS@[24] == (Key::Z, "Z", true));
    assert(BINDINGS@[25] == (Key::F11, "F11", false));
    assert(BINDINGS@[26] == (Key::ArrowUp, "Up", true));
    assert(BINDINGS@[27] == (Key::ArrowDown, "Down", true));
    assert(BINDINGS@[28] == (Key::V, "V", true));
    assert(BINDINGS@[29] == (Key::Enter, "Enter", true));
    assert(BINDINGS@[30] == (Key::Space, "Space", true));
    assert(BINDINGS@[31] == (Key::Escape, "Esc", false));
    reveal_with_fuel(crate::keys::rows_from, 4);
    assert(z =~= top + (if gates.window_sizing {
        seq![("Z"@, "fill the screen"@)]
    } else {
        seq![]
    }));
    assert(arrows =~= z + seq![
        ("Up"@, "transpose up a semitone"@),
        ("Down"@, "transpose down a semitone"@),
    ]);
    assert(v =~= arrows + (if gates.recorder_available {
        seq![("V"@, "the recorder"@)]
    } else {
        seq![]
    }));
    assert(crate::keys::rows_from(32, gates) =~= v + (if gates.recorder_shown {
        seq![("Enter"@, "start recording"@), ("Space"@, "stop recording"@)]
    } else {
        seq![]
    }));
}

proof fn lemma_card_above_the_window(gates: Gates)
    ensures
        crate::keys::rows_from(24, gates) == seq![
            ("H"@, "hold for this card"@),
            ("K"@, "keytoggle: click the piano or the neck to place notes"@),
            ("R"@, "clear every note you placed"@),
            ("G"@, "guitar view"@),
            ("W"@, "camera"@),
            ("U"@, "note names"@),
            ("I"@, "clef"@),
            ("1-4"@, "theory panel on/off (1-4)"@),
            ("T"@, "cycle the theory band"@),
            ("C"@, "chord detection"@),
            ("D"@, "dark mode"@),
            ("B"@, "window border"@),
            ("F"@, "cycle the typeface"@),
            ("A"@, "about"@),
            ("S"@, "enter a supporter key"@),
            ("N"@, "name the chord you are holding"@),
            ("E"@, "correct what it reads"@),
            ("M"@, "chords you have taught"@),
            ("L"@, "chord learning"@),
            ("P"@, "sharps or flats"@),
        ],
{
    let five = crate::keys::rows_from(5, gates);
    let ten = crate::keys::rows_from(10, gates);
    let fifteen = crate::keys::rows_from(15, gates);
    let twenty = crate::keys::rows_from(20, gates);
    reveal_with_fuel(crate::keys::rows_from, 6);
    assert(five =~= seq![
        ("H"@, "hold for this card"@),
        ("K"@, "keytoggle: click the piano or the neck to place notes"@),
        ("R"@, "clear every note you placed"@),
        ("G"@, "guitar view"@),
    ]);
    assert(ten =~= five + seq![
        ("W"@, "camera"@),
        ("U"@, "note names"@),
        ("I"@, "clef"@),
        ("1-4"@, "theory panel on/off (1-4)"@),
    ]);
    assert(fifteen =~= ten + seq![
        ("T"@, "cycle the theory band"@),
        ("C"@, "chord detection"@),
        ("D"@, "dark mode"@),
    ]);
    assert(twenty =~= fifteen + seq![
        ("B"@, "window border"@),
        ("F"@, "cycle the typeface"@),
        ("A"@, "about"@),
        ("S"@, "enter a supporter key"@),
        ("N"@, "name the chord you are holding"@),
    ]);
    assert(crate::keys::rows_from(24, gates) =~= twenty + seq![
        ("E"@, "correct what it reads"@),
        ("M"@, "chords you have taught"@),
        ("L"@, "chord learning"@),
        ("P"@, "sharps or flats"@),
    ]);
}

/// Rows fill one column before the next: a cell's row number is its column's
/// worth of rows and its own place in it, and no column is taller than the rows
/// need.
pub proof fn columns_are_filled_from_the_left(
    i: usize,
    rows: usize,
    cols: usize,
    r: (usize, usize),
    height: int,
)
    requires
        i < rows,
        0 < cols,
        rows + cols <= usize::MAX,
        call_ensures(card_cell, (i, rows, cols), r),
        (height - 1) * cols < rows <= height * cols,
    ensures
        r.0 * height + r.1 == i,
        r.1 < height,
        r.0 < cols,
{
    let (n, c) = (rows as int, cols as int);
    let tall = crate::keys::column_height(n, c);
    assert(tall == height) by (nonlinear_arith)
        requires
            c > 0,
            n > 0,
            tall == (n + c - 1) / c,
            (height - 1) * c < n,
            n <= height * c,
    ;
    assert(height > 0) by (nonlinear_arith)
        requires
            n <= height * c,
            n > 0,
            c > 0,
    ;
    vstd::arithmetic::div_mod::lemma_fundamental_div_mod(i as int, height);
    assert(r.0 * height == height * r.0) by (nonlinear_arith);
}

/// The arrangement that is chosen fits, and none that fits has bigger text; of
/// those that tie, the one with the fewest columns is chosen. None is chosen
/// only when none fits.
pub proof fn the_biggest_text_that_fits_is_chosen(
    options: Vec<Arrangement>,
    r: Option<usize>,
    other: int,
)
    requires
        call_ensures(best_arrangement, (&options,), r),
        0 <= other < options@.len(),
        options@[other].fits,
    ensures
        r is Some,
        r->0 < options@.len(),
        options@[r->0 as int].fits,
        options@[other].size <= options@[r->0 as int].size,
        options@[other].size == options@[r->0 as int].size ==> r->0 <= other,
{
}

/// The card is as wide as its widest row, and no wider; a card without rows has a
/// width all the same.
pub proof fn the_card_is_as_wide_as_its_rows(
    rows: Vec<(&'static str, &'static str)>,
    r: (usize, usize),
    i: int,
)
    requires
        call_ensures(card_widths, (&rows,), r),
    ensures
        rows@.len() == 0 ==> r == (20usize, 1usize),
        0 <= i < rows@.len() ==> rows@[i].1.len() <= r.0 && rows@[i].0@.len() <= r.1,
        rows@.len() > 0 ==> (exists|k: int|
            0 <= k < rows@.len() && (#[trigger] rows@[k]).1.len() == r.0) && (exists|k: int|
            0 <= k < rows@.len() && (#[trigger] rows@[k]).0@.len() == r.1),
{
}

/// The elements of the theory band are one control with four keys; every other
/// action is its own. No gate is open to begin with.
pub proof fn the_number_row_is_one_control(
    n: usize,
    element: KeyAction,
    a: KeyAction,
    own: KeyAction,
    gates: Gates,
)
    requires
        call_ensures(KeyAction::family, (KeyAction::ToggleTheoryElement(n),), element),
        call_ensures(KeyAction::family, (a,), own),
        call_ensures(Gates::default, (), gates),
    ensures
        element == KeyAction::ToggleTheoryElement(1),
        !(a is ToggleTheoryElement) ==> own == a,
        !gates.recorder_shown && !gates.recorder_available && !gates.window_sizing,
{
}

} // verus!
