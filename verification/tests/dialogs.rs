//! The dialogs: tunings, exports, plugins, devices, and what each asks for.

use ivory_ui::color::Rgb;
use ivory_ui::dialogs::{
    add_low_string, before_lowered, candidate_row, color_pick_title, confirm, count_line, delete_taught,
    device_row, encoder_note, estimate_line, export_action, export_controls, export_ready, footer,
    gaps, highest_open_pitch, is_current_reading, learning_line, matches_lowered, parse_bpm, parse_pitch,
    picker_press, pitch_name, plugin_choice, plugin_matches, plugin_row, rederivable,
    remove_low_string, rows_for, shows_from_settings, theme, untouched, visible_plugins,
    vst3_locations, DeviceKind, Dialog, DialogAction, LearningStatus, Platform, PluginChoice,
    PluginEntry, Press, Problem, Rederivable, TaughtChord, TuningString,
    PLUGIN_NONE_ROW,
};
use ivory_ui::fretboard::{by_name, Tuning, TuningError, MAX_STRINGS};
use ivory_ui::menu::ColorTarget;
use ivory_ui::ports::DeviceInfo;
use ivory_ui::recorder::{
    Composite, DisplayShows, ExportSpec, Resolution, SpecProblem, VideoMode, MAX_BPM, MIN_BPM,
};
use ivory_ui::settings::Settings;

// ── Helpers ────────────────────────────────────────────────────────────────
fn presets() -> Vec<Tuning> {
    [
        ("Standard", vec![40, 45, 50, 55, 59, 64]),
        ("Drop D", vec![38, 45, 50, 55, 59, 64]),
        ("7-String", vec![35, 40, 45, 50, 55, 59, 64]),
        ("8-String", vec![30, 35, 40, 45, 50, 55, 59, 64]),
        ("Bass (4)", vec![28, 33, 38, 43]),
        ("Bass (5)", vec![23, 28, 33, 38, 43]),
    ]
    .into_iter()
    .map(|(name, open)| Tuning { name: name.to_owned(), open })
    .collect()
}

fn preset(name: &str) -> Vec<u8> {
    let all = presets();
    let at = by_name(&all, name).unwrap_or_else(|| panic!("{name} is not a preset"));
    all[at].open.clone()
}

fn rows(texts: &[&str]) -> Vec<TuningString> {
    texts
        .iter()
        .map(|s| TuningString {
            text: (*s).to_owned(),
            pitch: parse_pitch(s).unwrap_or(0),
        })
        .collect()
}

fn pitches(rows: &[TuningString]) -> Vec<u8> {
    rows.iter().map(|r| r.pitch).collect()
}

fn build(name: &str, strings: &Vec<TuningString>) -> Result<Tuning, Problem> {
    confirm(name, strings, &presets())
}

fn bits(bpm: f64) -> u64 {
    bpm.to_bits()
}

/// The number a tempo field reads as.
fn number(text: &str) -> Option<u64> {
    text.trim().parse::<f64>().ok().map(bits)
}

fn ready(spec: &ExportSpec, text: &str) -> Result<ExportSpec, String> {
    export_ready(spec, text, number(text))
}

fn entry(path: &str, name: &str, vendor: &str) -> PluginEntry {
    PluginEntry {
        path: path.to_owned(),
        name: name.to_owned(),
        vendor: vendor.to_owned(),
    }
}

fn installed() -> Vec<PluginEntry> {
    vec![
        entry(
            "/Library/Audio/Plug-Ins/VST3/Analog Lab V.vst3",
            "Analog Lab V",
            "Arturia",
        ),
        entry(
            "/Users/x/Library/Audio/Plug-Ins/VST3/Pianoteq 8.vst3",
            "Pianoteq 8",
            "Modartt",
        ),
        entry("/Library/Audio/Plug-Ins/VST3/Serum2.vst3", "Serum2", ""),
        entry("/Library/Audio/Plug-Ins/VST3/Vital.vst3", "Vital", ""),
    ]
}

fn export_specs() -> [ExportSpec; 4] {
    [
        ExportSpec::default(),
        ExportSpec {
            audio: false,
            midi: false,
            ..Default::default()
        },
        ExportSpec {
            video: VideoMode::Composite,
            composite: Composite {
                camera: false,
                display: false,
                ..Default::default()
            },
            ..Default::default()
        },
        ExportSpec {
            video: VideoMode::Composite,
            composite: Composite {
                camera: false,
                display: true,
                shows: DisplayShows {
                    piano: false,
                    chord: false,
                    fretboard: false,
                    theory: false,
                },
                ..Default::default()
            },
            ..Default::default()
        },
    ]
}


#[test]
fn note_names_and_midi_numbers_round_trip_in_the_spelling_the_app_prefers() {
    for prefer_flats in [true, false] {
        for pitch in 0..=127u8 {
            let name = pitch_name(pitch, prefer_flats);
            assert_eq!(
                parse_pitch(&name),
                Ok(pitch),
                "{name} did not come back as {pitch}"
            );
        }
    }
    assert_eq!(pitch_name(61, true), "Db4");
    assert_eq!(pitch_name(61, false), "C#4");
    for text in ["Db4", "C#4", "db4", "c#4", " Db4 ", "61"] {
        assert_eq!(parse_pitch(text), Ok(61), "{text:?} was not read as Db4");
    }
    let standard: Vec<String> = preset("Standard")
        .iter()
        .map(|&p| pitch_name(p, true))
        .collect();
    assert_eq!(standard, ["E2", "A2", "D3", "G3", "B3", "E4"]);
    assert_eq!(pitch_name(0, true), "C-1");
    assert_eq!(parse_pitch("C-1"), Ok(0));
    assert_eq!(parse_pitch("G9"), Ok(127));

    for (bad, must_mention) in [
        ("", "note name"),
        ("   ", "note name"),
        ("H2", "A to G"),
        ("E", "octave"),
        ("E#b2", "accidental"),
        ("Ex", "octave"),
        ("C-3", "MIDI"),
        ("300", "0 to 127"),
    ] {
        let hint = parse_pitch(bad).expect_err(&format!("{bad:?} was read as a pitch"));
        assert!(
            hint.contains(must_mention),
            "{bad:?} was refused with {hint:?}, which never mentions {must_mention:?}"
        );
    }
}

#[test]
fn every_reason_a_tuning_can_be_refused_reaches_the_user_as_a_reason() {
    for e in [
        TuningError::StringCount(0),
        TuningError::StringCount(MAX_STRINGS + 1),
        TuningError::NotAscending {
            string: 2,
            previous: 50,
            found: 45,
        },
        TuningError::PitchRange(120),
        TuningError::EmptyName,
    ] {
        let msg = Problem::Refused(e.clone()).message(true);
        assert!(msg.len() > 20, "{e:?} was answered with {msg:?}");
        assert!(
            !msg.to_lowercase().contains("invalid"),
            "{e:?} was answered with \"invalid\", which is not a reason: {msg:?}"
        );
    }

    let ascending = Problem::Refused(TuningError::NotAscending {
        string: 2,
        previous: 50,
        found: 45,
    })
    .message(true);
    assert!(
        ascending.contains("A2") && ascending.contains("D3"),
        "not in the notation the fields use: {ascending}"
    );
    assert!(
        !ascending.contains("45") && !ascending.contains("50"),
        "raw MIDI numbers leaked into a note-name editor: {ascending}"
    );
    assert!(
        ascending.contains("String 3") && ascending.contains("string 2"),
        "the wrong string is accused: {ascending}"
    );
    assert!(
        ascending.contains("solver") && ascending.contains("shapes"),
        "the reason is missing, so this reads as a taste rule: {ascending}"
    );

    let too_high = Problem::Refused(TuningError::PitchRange(120)).message(true);
    assert!(too_high.contains("C9"), "which pitch? {too_high}");
    assert!(
        too_high.contains(&pitch_name(highest_open_pitch(), true)),
        "refused without saying what would be accepted: {too_high}"
    );

    let unreadable = Problem::Unreadable {
        string: 3,
        text: "Q9".to_owned(),
        hint: parse_pitch("Q9").expect_err("Q is not a note"),
    }
    .message(true);
    assert!(
        unreadable.contains("String 3") && unreadable.contains("Q9"),
        "{unreadable}"
    );

    let clash = Problem::NameClash {
        preset: "Standard".to_owned(),
    }
    .message(true);
    assert!(clash.contains("Standard"), "{clash}");
    assert!(
        clash.contains("name"),
        "the fix is to rename it, and the message has to say so: {clash}"
    );
}

#[test]
fn adding_a_string_grows_the_low_end_like_a_seven_string() {
    let mut r: Vec<TuningString> = preset("Standard")
        .iter()
        .map(|&p| TuningString::new(p, true))
        .collect();

    add_low_string(&mut r, true);
    assert_eq!(
        pitches(&r),
        preset("7-String"),
        "the added string is not the low B a 7-string guitar actually has"
    );
    assert_eq!(r[0].text, "B1");
    add_low_string(&mut r, true);
    assert_eq!(pitches(&r), preset("8-String"));

    remove_low_string(&mut r);
    remove_low_string(&mut r);
    assert_eq!(
        pitches(&r),
        preset("Standard"),
        "Add then Remove has to be a round trip, which it only is if both \
         touch the same end"
    );

    let mut bass: Vec<TuningString> = preset("Bass (5)")
        .iter()
        .map(|&p| TuningString::new(p, true))
        .collect();
    remove_low_string(&mut bass);
    assert_eq!(pitches(&bass), preset("Bass (4)"));

    let mut wide = r.clone();
    for _ in 0..20 {
        add_low_string(&mut wide, true);
    }
    assert_eq!(wide.len(), MAX_STRINGS);
    for pair in wide.windows(2) {
        assert!(
            pair[0].pitch <= pair[1].pitch,
            "adding strings broke the ascending order: {:?}",
            pitches(&wide)
        );
    }
    let mut one = vec![TuningString::new(40, true)];
    remove_low_string(&mut one);
    assert_eq!(one.len(), 1, "a tuning with no strings is not a tuning");
}

#[test]
fn confirm_refuses_everything_the_solver_could_not_survive() {
    let good = build("My Tuning", &rows(&["E2", "A2", "D3", "G3", "B3", "E4"]))
        .expect("standard tuning under a new name is the plainest custom tuning there is");
    assert_eq!(good.name, "My Tuning");
    assert_eq!(good.open.as_slice(), preset("Standard").as_slice());
    assert_eq!(
        build("  Padded  ", &rows(&["E2"]))
            .expect("a padded name is a name")
            .name,
        "Padded"
    );
    assert!(
        build("Standard", &rows(&["E2", "A2", "D3", "G3", "B3", "E4"])).is_ok(),
        "an unedited copy of a preset was refused"
    );

    let many: Vec<&str> = vec!["E2"; MAX_STRINGS + 1];
    for (why, name, texts) in [
        ("a half-typed pitch", "My Tuning", vec!["E2", "A2", "D3", "E"]),
        ("a name that is only whitespace", "   ", vec!["E2", "A2"]),
        (
            "a preset's name over different pitches",
            "Drop D",
            vec!["E2", "A2"],
        ),
        (
            "a preset's name in lower case, since lookup ignores it",
            "drop d",
            vec!["E2", "A2"],
        ),
        ("strings that do not ascend", "My Tuning", vec!["E2", "D2"]),
        (
            "an open string with no room to fret above it",
            "My Tuning",
            vec!["C9"],
        ),
        ("no strings at all", "My Tuning", vec![]),
        ("more strings than the solver will enumerate", "My Tuning", many),
    ] {
        let problem = build(name, &rows(&texts))
            .err()
            .unwrap_or_else(|| panic!("{why} was accepted"));
        let msg = problem.message(true);
        assert!(msg.len() > 20, "{why} was refused with {msg:?}");
        assert!(
            !msg.to_lowercase().contains("invalid"),
            "{why}: \"invalid\" is not a reason: {msg}"
        );
    }
}

#[test]
fn the_export_button_is_greyed_exactly_when_the_spec_has_a_problem() {
    for s in export_specs() {
        let built = ready(&s, "120");
        assert_eq!(
            built.is_err(),
            s.problem().is_some(),
            "the button and the validator disagree about {s:?}"
        );
        match (s.problem(), built) {
            (Some(p), Err(msg)) => assert_eq!(msg, p.message(), "invented its own words"),
            (None, Ok(out)) => assert_eq!(out, s, "an accepted spec was altered on the way"),
            (p, b) => panic!("{p:?} against {b:?}"),
        }
    }
    let none = ExportSpec {
        audio: false,
        midi: false,
        ..Default::default()
    };
    assert!(ExportSpec::default().audio && ExportSpec::default().midi);
    assert_eq!(
        ready(&none, "120").unwrap_err(),
        SpecProblem::NothingToWrite.message()
    );
}

#[test]
fn a_take_recorded_without_a_camera_can_never_gain_one() {
    let can = rederivable(true, false);
    assert!(!can.camera, "the camera controls were left live");
    assert!(!can.layout, "a layout for a camera layer that cannot exist");
    assert!(
        can.tempo && can.display,
        "the two things that ARE re-derivable were greyed with them"
    );
    let why = can.why.expect("greyed with no reason given");
    assert!(
        why.to_lowercase().contains("camera"),
        "the reason never mentions the camera: {why}"
    );

    let clamped = can.clamp(ExportSpec {
        video: VideoMode::Both,
        ..Default::default()
    });
    assert!(!clamped.composite.camera);
    assert_eq!(
        clamped.video,
        VideoMode::Composite,
        "a display-only video IS re-derivable — replayed from the recorded .mid"
    );
    assert!(clamped.is_valid());

    let nothing_left = can.clamp(ExportSpec {
        video: VideoMode::Composite,
        composite: Composite {
            camera: true,
            display: false,
            ..Default::default()
        },
        ..Default::default()
    });
    assert_eq!(nothing_left.video, VideoMode::NoVideo);
    assert!(
        nothing_left.is_valid(),
        "clamping produced a spec the dialog would then refuse: {nothing_left:?}"
    );
}

#[test]
fn a_finished_take_cannot_be_given_a_different_layout_even_when_it_had_a_camera() {
    let can = rederivable(true, true);
    assert!(!can.layout, "the layout was left live after the take");
    assert!(!can.camera);
    assert!(can.tempo && can.display);
    let why = can.why.expect("greyed with no reason given");
    assert!(
        why.to_lowercase().contains("layout"),
        "the layout is greyed and nothing says why: {why}"
    );
    assert_ne!(can.why, rederivable(true, false).why);

    let before = rederivable(false, false);
    assert_eq!(before, Rederivable::everything());
    assert!(before.why.is_none());
    let untouched = ExportSpec {
        video: VideoMode::Both,
        ..Default::default()
    };
    assert_eq!(before.clamp(untouched), untouched);
}

#[test]
fn a_half_typed_tempo_never_reaches_the_spec_and_an_impossible_one_is_refused_not_clamped() {
    let spec = ExportSpec {
        tempo_bpm: bits(120.0),
        ..Default::default()
    };
    for half in ["9", "", " ", "-", "1.", "9e"] {
        assert!(
            ready(&spec, half).is_err(),
            "{half:?} was accepted as a tempo"
        );
        assert_eq!(spec.tempo_bpm, bits(120.0), "{half:?} reached the stored spec");
    }
    for bad in ["19", "19.9", "301", "0", "-40", "1e9", "NaN", "inf"] {
        let e = ready(&spec, bad).expect_err("{bad:?} was accepted");
        assert!(e.len() > 20, "{bad:?} was refused with {e:?}");
    }
    for (text, want) in [
        ("120", bits(120.0)),
        ("92.5", bits(92.5)),
        (" 88 ", bits(88.0)),
        ("20", MIN_BPM),
        ("300", MAX_BPM),
    ] {
        assert_eq!(
            ready(&spec, text).expect("a legal tempo").tempo_bpm,
            want,
            "{text:?}"
        );
    }
    let no_midi = ExportSpec {
        midi: false,
        ..spec
    };
    assert_eq!(
        ready(&no_midi, "not a tempo at all")
            .expect("a greyed field refused an export it has no say in")
            .tempo_bpm,
        bits(120.0)
    );
}

#[test]
fn the_export_dialog_opens_on_the_spec_it_was_given_and_commits_it_unchanged() {
    let spec = ExportSpec {
        tempo_bpm: bits(92.5),
        ..Default::default()
    };
    match Dialog::export(spec, false, true, true, "92.5".to_owned()) {
        Dialog::Export {
            spec: seeded,
            tempo_text,
            remember,
            post_take,
            had_camera,
        } => {
            assert_eq!(seeded, spec, "the spec was altered on the way in");
            assert_eq!(tempo_text, "92.5");
            assert!(!remember, "it must not persist without being asked to");
            assert!(!post_take && had_camera);
            assert_eq!(
                ready(&seeded, &tempo_text).expect("opened on a spec it refuses"),
                spec,
                "a round trip through the field changed the tempo"
            );
        }
        _ => panic!("Dialog::export built some other dialog"),
    }
    match Dialog::export(ExportSpec::default(), false, false, true, "120".to_owned()) {
        Dialog::Export { tempo_text, .. } => assert_eq!(tempo_text, "120"),
        _ => panic!("Dialog::export built some other dialog"),
    }
}

#[test]
fn the_remember_tick_is_what_chooses_the_action_that_persists() {
    let spec = ExportSpec {
        fps: 60,
        ..Default::default()
    };
    match export_action(spec, false) {
        DialogAction::SetExport(s) => assert_eq!(s, spec),
        _ => panic!("an unticked box persisted the spec anyway"),
    }
    match export_action(spec, true) {
        DialogAction::SetExportAndRemember(s) => assert_eq!(s, spec),
        _ => panic!("the tick did not reach the action"),
    }
}

#[test]
fn the_video_panel_ticks_seed_from_the_panels_that_are_on_screen() {
    let mut s = Settings::default();
    let shows = shows_from_settings(&s);
    assert!(shows.piano && shows.chord, "the panels that are never off");
    assert!(!shows.fretboard && !shows.theory);
    s.show_fretboard = true;
    s.theory_tonnetz = true;
    let shows = shows_from_settings(&s);
    assert!(shows.fretboard && shows.theory);
}

#[test]
fn the_estimate_names_a_rate_and_an_encoder_count() {
    let quiet = estimate_line(&ExportSpec::default(), 17, 10);
    assert!(quiet.contains("MB a minute"), "{quiet}");
    assert!(
        quiet.contains("no video encoder"),
        "audio and MIDI run no encoder at all: {quiet}"
    );
    let busy = estimate_line(
        &ExportSpec {
            video: VideoMode::Both,
            ..Default::default()
        },
        240,
        144,
    );
    assert!(busy.contains("3 video encoders"), "{busy}");
    for platform in [Platform::MacOs, Platform::Windows, Platform::Other] {
        assert!(
            encoder_note(platform).contains("1080p30"),
            "the note never says what a stream costs: {}",
            encoder_note(platform)
        );
    }
    assert_eq!(
        busy,
        "~240 MB a minute, about 14.4 GB an hour, 3 video encoders."
    );
}

#[test]
fn the_filter_matches_a_name_or_a_vendor_in_any_case_and_an_empty_one_shows_everything() {
    let plugins = installed();
    let names = |f: &str| {
        visible_plugins(&plugins, f)
            .into_iter()
            .map(|i| plugins[i].name.as_str())
            .collect::<Vec<_>>()
    };

    assert_eq!(names(""), ["Analog Lab V", "Pianoteq 8", "Serum2", "Vital"]);
    assert_eq!(names("   "), names(""), "whitespace is not a filter");
    assert_eq!(names("piano"), ["Pianoteq 8"]);
    assert_eq!(names("PIANO"), ["Pianoteq 8"], "the caps lock case");
    assert_eq!(names(" piano "), ["Pianoteq 8"], "a pasted name has spaces");
    assert_eq!(names("arturia"), ["Analog Lab V"], "not matched on vendor");
    assert_eq!(names("MODARTT"), ["Pianoteq 8"]);
    assert_eq!(names("ital"), ["Vital"]);
    assert!(names("zzz").is_empty());
}

#[test]
fn filtering_after_a_selection_never_commits_a_row_the_user_can_no_longer_see() {
    let plugins = installed();
    let stale = plugin_choice(&plugins, Some(3), None, "an");
    assert_eq!(
        stale, None,
        "Load stayed live over a selection the filter had hidden: {stale:?}"
    );
    assert_ne!(stale, Some(PluginChoice::Load(&plugins[0])));

    assert_eq!(
        plugin_choice(&plugins, Some(3), None, "piano"),
        Some(PluginChoice::Load(&plugins[1]))
    );
    assert_eq!(
        plugin_choice(&plugins, Some(3), None, "ital"),
        Some(PluginChoice::Load(&plugins[3]))
    );
    assert_eq!(plugin_choice(&plugins, Some(99), None, ""), None);
}

#[test]
fn the_none_row_unloads_the_instrument_that_is_loaded() {
    let plugins = installed();
    let loaded = plugins[1].path.clone();
    let choice = plugin_choice(&plugins, None, Some(&loaded), "")
        .expect("the None row is a choice, not an absence of one");
    assert_eq!(choice, PluginChoice::Unload);
    match choice.action() {
        DialogAction::LoadPlugin { path } => {
            assert_eq!(path, None, "the None row loaded something");
        }
        _ => panic!("the None row produced some other action"),
    }
    assert_eq!(plugin_choice(&plugins, None, None, ""), None);
    let one = vec![plugins[1].clone()];
    assert_eq!(
        plugin_choice(&one, None, Some(&loaded), ""),
        Some(PluginChoice::Unload)
    );
}

#[test]
fn confirming_commits_the_bundle_path_and_never_the_display_name() {
    let plugins = installed();
    let choice =
        plugin_choice(&plugins, Some(1), None, "").expect("a highlighted row is a choice");
    assert_eq!(choice, PluginChoice::Load(&plugins[1]));
    match choice.action() {
        DialogAction::LoadPlugin { path } => {
            assert_eq!(path.as_deref(), Some(plugins[1].path.as_str()));
            assert_ne!(path.as_deref(), Some(plugins[1].name.as_str()));
            assert!(
                path.as_deref().is_some_and(|p| p.ends_with(".vst3")),
                "what travelled was not a bundle path: {path:?}"
            );
        }
        _ => panic!("Load produced some other action"),
    }
}

#[test]
fn the_loaded_plugin_opens_preselected_and_marked() {
    let bundles: Vec<String> = [
        "/Library/Audio/Plug-Ins/VST3/Vital.vst3",
        "/Library/Audio/Plug-Ins/VST3/analog lab v.vst3",
        "/Users/x/Library/Audio/Plug-Ins/VST3/Pianoteq 8.vst3",
    ]
    .iter()
    .map(|p| (*p).to_owned())
    .collect();
    let loaded = "/Users/x/Library/Audio/Plug-Ins/VST3/Pianoteq 8.vst3".to_owned();

    let opened = Dialog::plugin_picker(&bundles, Some(loaded.clone()));
    match &opened {
        Dialog::PluginPicker {
            plugins,
            selected,
            current,
            filter,
            focus,
        } => {
            assert_eq!(
                plugins.iter().map(|p| p.name.as_str()).collect::<Vec<_>>(),
                ["analog lab v", "Pianoteq 8", "Vital"],
                "sorted the way a byte comparison sorts, not the way a person reads"
            );
            assert!(plugins.iter().all(|p| !p.name.contains(".vst3")));
            assert!(plugins.iter().all(|p| p.vendor.is_empty()));
            assert_eq!(*selected, Some(1), "it did not open on what is loaded");
            assert_eq!(current.as_deref(), Some(loaded.as_str()));
            assert!(filter.is_empty() && *focus);
            assert!(
                plugin_row(&plugins[1], Some(&loaded)).starts_with('\u{2022}'),
                "the loaded plugin is not marked"
            );
            assert!(
                plugin_row(&plugins[0], Some(&loaded)).starts_with(' '),
                "a plugin that is not loaded was marked as if it were"
            );
            assert_eq!(plugin_row(&plugins[2], None), "  Vital");
            assert_eq!(
                plugin_row(&entry("/x/A.vst3", "A", "Arturia"), None),
                "  A   (Arturia)"
            );
        }
        _ => panic!("plugin_picker built some other dialog"),
    }
}

// ── Pitches and tunings ────────────────────────────────────────────────────
#[test]
fn the_corners_of_reading_a_pitch() {
    assert_eq!(parse_pitch("Cb2"), Ok(47));
    assert_eq!(parse_pitch("B#2"), Ok(36));
    assert_eq!(parse_pitch("E+2"), Ok(40));
    assert_eq!(parse_pitch("007"), Ok(7));
    assert_eq!(parse_pitch("\u{a0}e2\u{2003}"), Ok(40));
    assert_eq!(parse_pitch("bb3"), Ok(58));
    assert_eq!(parse_pitch("G#9"), Err("That pitch is outside MIDI's 0 to 127."));
    assert_eq!(parse_pitch("E2147483647"), Err("That pitch is outside MIDI's 0 to 127."));
    assert_eq!(
        parse_pitch("E2147483648"),
        Err("The octave has to be a number: E2, or E-1 at the very bottom.")
    );
    assert_eq!(
        parse_pitch("E-"),
        Err("The octave has to be a number: E2, or E-1 at the very bottom.")
    );
    assert_eq!(
        parse_pitch("99999999999999999999"),
        Err("A MIDI note number runs from 0 to 127.")
    );
    assert_eq!(pitch_name(255, false), "D#20");
}

#[test]
fn each_refusal_names_its_own_reason() {
    assert_eq!(
        build("My Tuning", &rows(&["E2", "D2"])),
        Err(Problem::Refused(TuningError::NotAscending { string: 1, previous: 40, found: 38 }))
    );
    assert_eq!(
        build("My Tuning", &rows(&["C9"])),
        Err(Problem::Refused(TuningError::PitchRange(120)))
    );
    assert_eq!(
        build(" ", &Vec::new()),
        Err(Problem::Refused(TuningError::EmptyName))
    );
    assert_eq!(
        build("x", &Vec::new()),
        Err(Problem::Refused(TuningError::StringCount(0)))
    );
    assert_eq!(
        build("drop d", &rows(&["E2"])),
        Err(Problem::NameClash { preset: "Drop D".to_owned() })
    );
    assert_eq!(
        build("x", &rows(&["E2", "?"])),
        Err(Problem::Unreadable {
            string: 2,
            text: "?".to_owned(),
            hint: "A pitch starts with a note letter A to G, like E2.",
        })
    );
    // Two strings may sound the same.
    assert!(build("x", &rows(&["E2", "E2"])).is_ok());
    assert_eq!(highest_open_pitch(), 103);
    assert_eq!(
        Problem::Refused(TuningError::StringCount(13)).message(true),
        "A tuning has between 1 and 12 strings, and this one has 13."
    );
}

#[test]
fn a_row_keeps_its_pitch_while_a_name_is_half_typed() {
    let mut row = TuningString::new(40, true);
    row.typed("A".to_owned());
    assert_eq!((row.text.as_str(), row.pitch), ("A", 40));
    row.typed("A2".to_owned());
    assert_eq!((row.text.as_str(), row.pitch), ("A2", 45));
    row.dragged(46, true);
    assert_eq!((row.text.as_str(), row.pitch), ("Bb2", 46));
}

#[test]
fn the_editor_shows_its_gaps_and_what_it_will_make() {
    let standard = rows_for(&preset("Standard"), true);
    assert_eq!(
        gaps(&standard),
        [None, Some(5), Some(5), Some(5), Some(4), Some(5)]
    );
    assert_eq!(gaps(&rows(&["E2", "D2"])), [None, Some(-2)]);
    assert!(untouched(&standard, &presets()[0]));
    assert!(!untouched(&standard, &presets()[1]));
    assert!(!untouched(&standard, &presets()[2]));
    assert_eq!(
        footer(&build("Mine", &standard), true),
        "6 strings: E2 A2 D3 G3 B3 E4"
    );
    assert_eq!(
        footer(&build("", &standard), true),
        "A tuning needs a name of its own."
    );
}

#[test]
fn a_copy_of_a_preset_gets_a_name_of_its_own() {
    let standard = &presets()[0];
    for (shipped, want) in [(presets(), "Standard (custom)"), (Vec::new(), "Standard")] {
        match Dialog::custom_tuning(standard, &shipped, true) {
            Dialog::CustomTuning { name, strings, prefer_flats, focus } => {
                assert_eq!(name, want);
                assert_eq!(pitches(&strings), standard.open);
                assert!(prefer_flats && focus);
            }
            _ => panic!("custom_tuning built some other dialog"),
        }
    }
}

// ── Exporting ──────────────────────────────────────────────────────────────
#[test]
fn a_dialog_without_an_encoder_promises_no_video() {
    let spec = ExportSpec { video: VideoMode::Both, ..Default::default() };
    for (post_take, video_ready, want) in [
        (false, true, VideoMode::Both),
        (false, false, VideoMode::NoVideo),
        (true, true, VideoMode::Composite),
    ] {
        match Dialog::export(spec, post_take, true, video_ready, "120".to_owned()) {
            Dialog::Export { spec, .. } => assert_eq!(spec.video, want),
            _ => panic!("Dialog::export built some other dialog"),
        }
    }
}

#[test]
fn a_refused_tempo_says_which_of_three_things_is_wrong() {
    assert_eq!(
        parse_bpm("  ", None),
        Err("The tempo mark is a number of beats per minute, like 120.".to_owned())
    );
    assert_eq!(
        parse_bpm(" fast ", None),
        Err("\"fast\" is not a tempo. Type a number, like 120.".to_owned())
    );
    for outside in [19.999, 300.001, -20.0, f64::NAN, f64::INFINITY, f64::NEG_INFINITY, 0.0] {
        let e = parse_bpm("x", Some(bits(outside))).unwrap_err();
        assert!(e.starts_with("A tempo mark runs from 20 to 300 BPM."), "{outside}");
    }
    assert_eq!((MIN_BPM, MAX_BPM), (bits(20.0), bits(300.0)));
    assert_eq!(ExportSpec::default().tempo_bpm, bits(120.0));
}

#[test]
fn controls_are_greyed_with_what_they_are_about() {
    let before = rederivable(false, false);
    let after = rederivable(true, true);
    let quiet = export_controls(&ExportSpec::default(), before, true);
    assert!(quiet.tempo && quiet.video_modes && !quiet.camera && !quiet.fps && !quiet.shows);
    let spec = ExportSpec { video: VideoMode::Composite, ..Default::default() };
    let live = export_controls(&spec, before, true);
    assert!(live.camera && live.layout && live.shows && live.offers(Resolution::MatchCamera));
    let settled = export_controls(&spec, after, false);
    assert!(!settled.camera && !settled.layout && settled.display && !settled.video_modes);
    assert!(!settled.offers(Resolution::MatchCamera));
    assert!(settled.offers(Resolution::Fixed { width: 1920, height: 1080 }));
    let separate = ExportSpec { video: VideoMode::Separate, ..spec };
    assert!(!export_controls(&separate, before, true).layout);
    assert_eq!(separate.encoder_count(), 2);
}

#[test]
fn each_problem_of_a_spec_has_words_of_its_own() {
    let found: Vec<Option<SpecProblem>> = export_specs().iter().map(|s| s.problem()).collect();
    assert_eq!(
        found,
        [
            None,
            Some(SpecProblem::NothingToWrite),
            Some(SpecProblem::NothingInTheVideo),
            Some(SpecProblem::NothingOnTheDisplay),
        ]
    );
}

// ── Plugins ────────────────────────────────────────────────────────────────
#[test]
fn a_row_is_read_off_a_bundle_path() {
    for (path, name) in [
        ("/x/Pianoteq 8.vst3", "Pianoteq 8"),
        ("/x/Zebra2.1.vst3", "Zebra2.1"),
        ("/x/.hidden", ".hidden"),
        ("/x/ Spaced .vst3", "Spaced"),
        ("Bare", "Bare"),
        ("/x/..", "/x/.."),
        ("/x/../", "/x/../"),
        ("..", ".."),
        (".", "."),
        ("/", "/"),
        ("", ""),
        ("/x/Vital.vst3/", "Vital"),
        ("/x/Vital.vst3//./", "Vital"),
        ("./Vital.vst3", "Vital"),
        ("/x/..y", "."),
        ("/x/  .vst3", "/x/  .vst3"),
    ] {
        let e = PluginEntry::from_bundle(path);
        assert_eq!((e.path.as_str(), e.name.as_str(), e.vendor.as_str()), (path, name, ""));
    }
    let e = PluginEntry::from_stem("p", None);
    assert_eq!(e.name, "p");
}

#[test]
fn a_filter_looks_in_any_case_of_any_script() {
    let e = entry("/x/a.vst3", "\u{c9}tude", "ARTURIA");
    assert!(plugin_matches(&e, "\u{e9}TUDE"));
    assert!(plugin_matches(&e, "turia"));
    assert!(!plugin_matches(&e, "etude"));
}

#[test]
fn rows_are_sorted_by_name_and_then_by_path() {
    let bundles: Vec<String> =
        ["/b/Zeta.vst3", "/b/alpha.vst3", "/a/Alpha.vst3", "/a/beta.vst3"]
            .iter()
            .map(|p| (*p).to_owned())
            .collect();
    match Dialog::plugin_picker(&bundles, Some("/gone.vst3".to_owned())) {
        Dialog::PluginPicker { plugins, selected, .. } => {
            assert_eq!(
                plugins.iter().map(|p| p.path.as_str()).collect::<Vec<_>>(),
                ["/a/Alpha.vst3", "/b/alpha.vst3", "/a/beta.vst3", "/b/Zeta.vst3"]
            );
            assert_eq!(selected, None);
        }
        _ => panic!("plugin_picker built some other dialog"),
    }
}

#[test]
fn the_count_says_what_the_filter_left() {
    assert_eq!(count_line(4, 4, " "), "4 installed");
    assert_eq!(count_line(1, 112, "piano"), "1 of 112");
    assert!(vst3_locations(Platform::MacOs).contains("~/Library/Audio/Plug-Ins/VST3"));
    assert!(vst3_locations(Platform::Windows).contains("%COMMONPROGRAMFILES%\\VST3"));
    assert!(vst3_locations(Platform::Other).contains("/usr/lib/vst3"));
}

#[test]
fn cancel_is_asked_before_enter_and_the_opening_enter_is_not_for_the_picker() {
    assert!(matches!(picker_press(true, true, true, true, false), Some(Press::Cancel)));
    assert!(matches!(picker_press(false, false, false, true, false), Some(Press::Confirm)));
    assert!(picker_press(false, false, false, true, true).is_none());
    assert!(matches!(picker_press(false, false, true, false, true), Some(Press::Confirm)));
    assert!(picker_press(false, false, false, false, false).is_none());
}

// ── The small dialogs ──────────────────────────────────────────────────────
fn devices() -> Vec<DeviceInfo> {
    vec![
        DeviceInfo { uid: "a".to_owned(), name: "C920".to_owned(), default: true },
        DeviceInfo { uid: "b".to_owned(), name: "C920".to_owned(), default: false },
    ]
}

fn press(dialog: Dialog, press: Press) -> (Option<Dialog>, Option<DialogAction>) {
    dialog.press(press, None, &presets())
}

#[test]
fn a_device_is_chosen_by_uid_and_none_is_a_choice() {
    assert_eq!(device_row(&devices()[0], &None), "C920   (system default)");
    assert_eq!(device_row(&devices()[1], &Some("b".to_owned())), "C920  \u{2022}");
    for (selected, want) in [(Some(1), Some("b")), (None, None), (Some(7), None)] {
        let d = Dialog::DevicePicker {
            kind: DeviceKind::Camera,
            devices: devices(),
            selected: None,
            current: None,
        };
        let (left, action) = press(d, Press::Select(selected));
        assert!(action.is_none());
        let (left, action) = press(left.unwrap(), Press::Confirm);
        assert!(left.is_none());
        assert_eq!(
            action,
            Some(DialogAction::ChooseDevice {
                kind: DeviceKind::Camera,
                uid: want.map(str::to_owned),
            })
        );
    }
    assert_eq!(DeviceKind::AudioInput.title(), "Select Audio Input");
    assert_eq!(DeviceKind::Camera.prompt(), "Camera to record and preview:");
    assert!(DeviceKind::Camera.none_row().contains("without video"));
    assert!(DeviceKind::AudioInput.nothing_found().contains("microphone"));
}

#[test]
fn a_port_is_connected_by_name_and_ok_closes_either_way() {
    let picker = |selected| Dialog::MidiPicker {
        ports: vec!["USB-MIDI".to_owned()],
        selected,
        current: None,
    };
    let (left, action) = press(picker(Some(0)), Press::Confirm);
    assert!(left.is_none());
    assert_eq!(action, Some(DialogAction::ConnectPort("USB-MIDI".to_owned())));
    let (left, action) = press(picker(None), Press::Confirm);
    assert!(left.is_none() && action.is_none());
    let (left, action) = press(picker(Some(0)), Press::Cancel);
    assert!(left.is_none() && action.is_none());
}

#[test]
fn a_supporter_key_is_handed_over_without_closing() {
    let d = |input: &str| Dialog::SupporterKey {
        input: input.to_owned(),
        message: None,
        installed_as: None,
        focus: false,
    };
    let (left, action) = press(d(" abc "), Press::Confirm);
    assert!(left.is_some());
    assert_eq!(action, Some(DialogAction::InstallLicense { key: " abc ".to_owned() }));
    let (left, action) = press(d("  "), Press::Confirm);
    assert!(left.is_some() && action.is_none());
}

#[test]
fn a_taught_name_is_trimmed_and_needs_to_be_there() {
    let d = |input: &str| Dialog::TeachChord {
        notes: vec![60, 64, 67],
        note_names: "C E G".to_owned(),
        current_label: "C".to_owned(),
        input: input.to_owned(),
        apply_all_keys: false,
        focus: false,
    };
    let (left, action) = press(d("  "), Press::Confirm);
    assert!(left.is_some() && action.is_none());
    let (left, _) = press(d(" Home "), Press::Tick(true));
    let (left, action) = press(left.unwrap(), Press::Confirm);
    assert!(left.is_none());
    assert_eq!(
        action,
        Some(DialogAction::TeachSave {
            notes: vec![60, 64, 67],
            name: "Home".to_owned(),
            apply_all_keys: true,
        })
    );
}

#[test]
fn a_correction_needs_a_row_and_the_current_one_is_marked() {
    assert!(is_current_reading("C", "C"));
    assert!(is_current_reading("C/G", "C"));
    assert!(!is_current_reading("Cm", "C"));
    assert!(!is_current_reading("C", "C/G"));
    assert_eq!(candidate_row("Am7/C", "Am7"), "Am7   (current)");
    assert_eq!(candidate_row("Am7/C", "C6"), "C6");
    let d = |selected| Dialog::CorrectChord {
        notes: vec![60],
        note_names: String::new(),
        current_label: String::new(),
        candidates: vec!["C6".to_owned(), "Am7".to_owned()],
        scores: vec!["90".to_owned(), "80".to_owned()],
        selected,
    };
    let (left, action) = press(d(None), Press::Confirm);
    assert!(left.is_some() && action.is_none());
    let (left, action) = press(d(Some(1)), Press::Confirm);
    assert!(left.is_none());
    assert_eq!(
        action,
        Some(DialogAction::TrainCorrection { notes: vec![60], name: "Am7".to_owned() })
    );
}

fn taught(intervals: &[u8], name: &str) -> TaughtChord {
    TaughtChord {
        intervals: intervals.to_vec(),
        display_name: name.to_owned(),
        voicing: String::new(),
    }
}

#[test]
fn deleting_and_forgetting_show_at_once() {
    let rows = || vec![taught(&[4, 7], "a"), taught(&[3, 7], "b"), taught(&[4, 7], "c")];
    let kept = delete_taught(rows(), &vec![4, 7]);
    assert_eq!(kept, [taught(&[3, 7], "b")]);
    let learning = LearningStatus {
        on: true,
        corrections: 3,
        has_learned: true,
        weights: vec!["x".to_owned()],
    };
    assert_eq!(learning_line(&learning), "Chord learning: ON  (3 corrections)");
    let d = Dialog::ManageTaught { rows: rows(), learning };
    let (left, action) = press(d, Press::Delete(vec![3, 7]));
    assert_eq!(action, Some(DialogAction::DeleteOverride { intervals: vec![3, 7] }));
    let (left, action) = press(left.unwrap(), Press::Forget);
    assert_eq!(action, Some(DialogAction::ForgetLearning));
    match &left {
        Some(Dialog::ManageTaught { rows, learning }) => {
            assert_eq!(rows.len(), 2);
            assert_eq!(learning_line(learning), "Chord learning: ON  (0 corrections)");
            assert!(!learning.has_learned && learning.weights.is_empty());
        }
        _ => panic!("the list closed"),
    }
    // There is nothing left to forget.
    let (left, action) = press(left.unwrap(), Press::Forget);
    assert!(left.is_some() && action.is_none());
}

#[test]
fn the_welcome_box_and_the_color_dialog() {
    let (left, action) = press(Dialog::Welcome { dont_show_again: false }, Press::Tick(true));
    assert!(matches!(left, Some(Dialog::Welcome { dont_show_again: true })));
    assert_eq!(action, Some(DialogAction::SetShowWelcome(false)));
    let color = Rgb::new(1, 2, 3);
    let (left, action) = press(
        Dialog::ColorPick { target: ColorTarget::Sustain, color },
        Press::Confirm,
    );
    assert!(left.is_none());
    assert_eq!(action, Some(DialogAction::ApplyColor(ColorTarget::Sustain, color)));
    assert_eq!(color_pick_title(ColorTarget::Sustain), "Choose Sustain Pedal Color");
    for d in [Dialog::About, Dialog::NoMidiInput] {
        let (left, action) = press(d, Press::Confirm);
        assert!(left.is_none() && action.is_none());
    }
    assert_eq!(theme(true).button_hover, Rgb::new(0x2a, 0x2a, 0x2a));
    assert_eq!(theme(false).bg, theme(true).text);
}

#[test]
fn confirming_closes_exactly_when_it_builds_something() {
    let tuning = |name: &str| Dialog::CustomTuning {
        name: name.to_owned(),
        strings: rows(&["E2"]),
        prefer_flats: true,
        focus: false,
    };
    let (left, action) = press(tuning(" "), Press::Confirm);
    assert!(left.is_some() && action.is_none());
    let (left, action) = press(tuning(" One "), Press::Confirm);
    assert!(left.is_none());
    assert_eq!(
        action,
        Some(DialogAction::SetCustomTuning(Tuning { name: "One".to_owned(), open: vec![40] }))
    );

    let export = |text: &str| {
        Dialog::export(ExportSpec::default(), false, false, true, text.to_owned())
    };
    let (left, action) = export("x").press(Press::Confirm, number("x"), &presets());
    assert!(left.is_some() && action.is_none());
    let (left, _) = export("90").press(Press::Tick(true), number("90"), &presets());
    let (left, action) = left.unwrap().press(Press::Confirm, number("90"), &presets());
    assert!(left.is_none());
    let spec = ExportSpec { tempo_bpm: bits(90.0), ..Default::default() };
    assert_eq!(action, Some(DialogAction::SetExportAndRemember(spec)));

    let picker = |selected, filter: &str| Dialog::PluginPicker {
        plugins: installed(),
        selected,
        current: None,
        filter: filter.to_owned(),
        focus: false,
    };
    let (left, action) = press(picker(None, ""), Press::Confirm);
    assert!(left.is_some() && action.is_none());
    let (left, action) = press(picker(None, "vit"), Press::Confirm);
    assert!(left.is_none());
    assert_eq!(
        action,
        Some(DialogAction::LoadPlugin { path: Some(installed()[3].path.clone()) })
    );
}

#[test]
fn an_empty_plugin_list_says_where_vst3s_live_instead_of_showing_an_empty_box() {
    let mac = vst3_locations(Platform::MacOs);
    assert!(
        mac.contains("~/Library/Audio/Plug-Ins/VST3")
            && mac.contains(" /Library/Audio/Plug-Ins/VST3"),
        "{mac}"
    );
    let windows = vst3_locations(Platform::Windows);
    assert!(windows.contains("%COMMONPROGRAMFILES%\\VST3"), "{windows}");
    let linux = vst3_locations(Platform::Other);
    assert!(
        linux.contains("~/.vst3") && linux.contains("/usr/lib/vst3"),
        "{linux}"
    );

    let (dialog, action) = press(Dialog::plugin_picker(&Vec::new(), None), Press::Confirm);
    assert!(action.is_none(), "an empty picker loaded something");
    assert!(dialog.is_some(), "the picker closed itself");
    assert!(PLUGIN_NONE_ROW.starts_with("None"));

    // Unloading stays reachable from a folder that has moved.
    let moved = Dialog::plugin_picker(&Vec::new(), Some("/gone.vst3".to_owned()));
    let (dialog, action) = press(moved, Press::Confirm);
    assert!(dialog.is_none());
    assert_eq!(action, Some(DialogAction::LoadPlugin { path: None }));
}

#[test]
fn enter_loads_the_highlighted_plugin_but_never_on_the_frame_that_opened_the_dialog() {
    let loaded = "/Users/x/Library/Audio/Plug-Ins/VST3/Pianoteq 8.vst3".to_owned();
    let dialog = Dialog::plugin_picker(
        &vec!["/Library/Audio/Plug-Ins/VST3/Vital.vst3".to_owned(), loaded.clone()],
        Some(loaded.clone()),
    );
    assert!(
        picker_press(false, false, false, true, true).is_none(),
        "the picker answered the keystroke that opened it"
    );
    let enter = picker_press(false, false, false, true, false).expect("Enter is a press");
    let (left, action) = press(dialog, enter);
    match action {
        Some(DialogAction::LoadPlugin { path }) => {
            assert_eq!(path.as_deref(), Some(loaded.as_str()), "it loaded another");
        }
        _ => panic!("Enter did not load the highlighted plugin"),
    }
    assert!(left.is_none(), "it loaded a plugin and stayed open");
}

#[test]
fn the_editors_open_on_what_they_would_accept() {
    match Dialog::custom_tuning(&presets()[0], &presets(), true) {
        Dialog::CustomTuning { name, strings, .. } => {
            assert_eq!(strings.len(), 6, "it did not open on the live tuning");
            assert_ne!(name, "Standard");
            let built = build(&name, &strings).expect("it opened on a tuning it would refuse");
            assert_eq!(built.open, preset("Standard"));
        }
        _ => panic!("the editor changed into another dialog"),
    }
    match Dialog::export(ExportSpec::default(), true, false, true, "120".to_owned()) {
        Dialog::Export { spec, tempo_text, .. } => {
            assert_eq!(ready(&spec, &tempo_text), Ok(spec));
        }
        _ => panic!("the dialog changed into another one"),
    }
}

#[test]
fn lowered_texts_are_found_and_ordered() {
    assert!(matches_lowered("", "vital", ""));
    assert!(matches_lowered("ita", "vital", ""));
    assert!(matches_lowered("turi", "lab", "arturia"));
    assert!(!matches_lowered("labar", "lab", "arturia"));
    assert!(!matches_lowered("vitals", "vital", ""));
    assert!(before_lowered("alpha", "/b", "beta", "/a"));
    assert!(!before_lowered("beta", "/a", "alpha", "/b"));
    assert!(before_lowered("alpha", "/a", "alpha", "/b"));
    assert!(!before_lowered("alpha", "/b", "alpha", "/b"));
    assert!(before_lowered("al", "/z", "alpha", "/a"));
}

#[test]
fn a_pitch_is_read_however_it_is_typed() {
    for pitch in 0..=127u8 {
        for flats in [true, false] {
            let name = pitch_name(pitch, flats);
            let (letter, rest) = name.split_at(1);
            let typed = format!("\t{}{rest} ", letter.to_ascii_lowercase());
            assert_eq!(parse_pitch(&typed), Ok(pitch), "{typed:?}");
        }
        assert_eq!(parse_pitch(&format!(" {pitch}\n")), Ok(pitch));
    }
}

#[test]
fn adding_a_string_keeps_the_order_of_strings_that_are_too_high() {
    let mut high = rows(&["C9", "G9"]);
    add_low_string(&mut high, true);
    assert_eq!(pitches(&high), [115, 120, 127]);
}
