//! The dialogs: what a press leaves open and what it asks for, and how the small
//! ones read.

use crate::color::Rgb;
use crate::dialogs::{
    candidate_row, color_pick_title, confirm, correction, delete_taught, device_choice, device_row,
    export_action, export_ready, is_current_reading, learning_line, license_request, picker_press,
    plugin_choice, port_choice, teach_request, theme, DeviceKind, Dialog, DialogAction,
    DialogTheme, LearningStatus, PluginChoice, Press, Problem, TaughtChord,
};
use crate::fretboard::Tuning;
use crate::menu::ColorTarget;
use crate::ports::DeviceInfo;
use crate::recorder::{ExportSpec, TempoBits};
use vstd::prelude::*;

verus! {

// ── Pressing ───────────────────────────────────────────────────────────────
/// Cancel closes any dialog and asks for nothing.
pub proof fn cancel_closes_and_asks_for_nothing(
    d: Dialog,
    number: Option<TempoBits>,
    presets: Vec<Tuning>,
    r: (Option<Dialog>, Option<DialogAction>),
)
    requires
        call_ensures(Dialog::press, (d, Press::Cancel, number, &presets), r),
    ensures
        r.0 is None,
        r.1 is None,
{
}

/// Clicking a row highlights that row and nothing else: what is listed, what is
/// loaded and what is typed stay, and nothing is asked for yet.
pub proof fn a_click_highlights_its_row(
    d: Dialog,
    row: Option<usize>,
    number: Option<TempoBits>,
    presets: Vec<Tuning>,
    r: (Option<Dialog>, Option<DialogAction>),
)
    requires
        call_ensures(Dialog::press, (d, Press::Select(row), number, &presets), r),
    ensures
        r.1 is None,
        d matches Dialog::MidiPicker { ports, current, .. } ==> r.0 == Some(
            Dialog::MidiPicker { ports, selected: row, current },
        ),
        d matches Dialog::DevicePicker { kind, devices, current, .. } ==> r.0 == Some(
            Dialog::DevicePicker { kind, devices, selected: row, current },
        ),
        d matches Dialog::PluginPicker { plugins, current, filter, focus, .. } ==> r.0 == Some(
            Dialog::PluginPicker { plugins, selected: row, current, filter, focus },
        ),
        d matches Dialog::CorrectChord {
            notes,
            note_names,
            current_label,
            candidates,
            scores,
            ..
        } ==> r.0 == Some(
            Dialog::CorrectChord {
                notes,
                note_names,
                current_label,
                candidates,
                scores,
                selected: row,
            },
        ),
        !(d is MidiPicker) && !(d is DevicePicker) && !(d is PluginPicker) && !(d is CorrectChord)
            ==> r.0 == Some(d),
{
}

/// A tick changes the dialog's own box and nothing else. Only the welcome box
/// asks for something at once: to be shown or not, which is the opposite of its
/// tick.
pub proof fn a_tick_changes_its_box(
    d: Dialog,
    on: bool,
    number: Option<TempoBits>,
    presets: Vec<Tuning>,
    r: (Option<Dialog>, Option<DialogAction>),
)
    requires
        call_ensures(Dialog::press, (d, Press::Tick(on), number, &presets), r),
    ensures
        d is Welcome ==> r.0 == Some(Dialog::Welcome { dont_show_again: on }) && r.1 == Some(
            DialogAction::SetShowWelcome(!on),
        ),
        !(d is Welcome) ==> r.1 is None,
        d matches Dialog::TeachChord { notes, note_names, current_label, input, focus, .. }
            ==> r.0 == Some(
            Dialog::TeachChord {
                notes,
                note_names,
                current_label,
                input,
                apply_all_keys: on,
                focus,
            },
        ),
        d matches Dialog::Export { spec, tempo_text, post_take, had_camera, .. } ==> r.0 == Some(
            Dialog::Export { spec, tempo_text, remember: on, post_take, had_camera },
        ),
        !(d is Welcome) && !(d is TeachChord) && !(d is Export) ==> r.0 == Some(d),
{
}

/// Deleting what was taught shows at once and leaves the rest of the list and
/// what was learned; elsewhere there is nothing to delete.
pub proof fn deleting_shows_at_once(
    d: Dialog,
    intervals: Vec<u8>,
    number: Option<TempoBits>,
    presets: Vec<Tuning>,
    r: (Option<Dialog>, Option<DialogAction>),
    row: TaughtChord,
)
    requires
        call_ensures(Dialog::press, (d, Press::Delete(intervals), number, &presets), r),
    ensures
        d matches Dialog::ManageTaught { rows, learning } ==> {
            &&& r.0 matches Some(Dialog::ManageTaught { rows: kept, learning: l }) && l == learning
                && (kept@.contains(row) <==> rows@.contains(row) && row.intervals@ != intervals@)
            &&& r.1 matches Some(DialogAction::DeleteOverride { intervals: gone }) && gone@
                == intervals@
        },
        !(d is ManageTaught) ==> r.0 == Some(d) && r.1 is None,
{
    if let Dialog::ManageTaught { rows, learning } = d {
        crate::dialogs::forms::deleting_removes_exactly_that(rows@, intervals@, row);
    }
}

/// Forgetting clears what was learned and nothing else: the switch stays on or
/// off, the taught names stay, and where nothing was learned nothing happens.
pub proof fn forgetting_clears_what_was_learned(
    d: Dialog,
    number: Option<TempoBits>,
    presets: Vec<Tuning>,
    r: (Option<Dialog>, Option<DialogAction>),
)
    requires
        call_ensures(Dialog::press, (d, Press::Forget, number, &presets), r),
    ensures
        d matches Dialog::ManageTaught { rows, learning } ==> learning.has_learned ==> {
            &&& r.0 matches Some(Dialog::ManageTaught { rows: kept, learning: l }) && kept == rows
                && l.on == learning.on && !l.has_learned && l.corrections == 0 && l.weights@.len()
                == 0
            &&& r.1 == Some(DialogAction::ForgetLearning)
        },
        !(d matches Dialog::ManageTaught { rows, learning } && learning.has_learned) ==> r.0
            == Some(d) && r.1 is None,
{
}

/// Confirming a list hands over what is highlighted: a port by its name, a
/// device by its identity, with none where nothing is highlighted, and a colour
/// as it was picked. All of these close.
pub proof fn confirming_hands_over_what_is_highlighted(
    d: Dialog,
    number: Option<TempoBits>,
    presets: Vec<Tuning>,
    r: (Option<Dialog>, Option<DialogAction>),
)
    requires
        call_ensures(Dialog::press, (d, Press::Confirm, number, &presets), r),
    ensures
        d matches Dialog::MidiPicker { ports, selected, .. } ==> {
            &&& r.0 is None
            &&& selected is Some && selected->0 < ports@.len() ==> (r.1 matches Some(
                DialogAction::ConnectPort(n),
            ) && n@ == ports@[selected->0 as int]@)
            &&& selected is None || selected->0 >= ports@.len() ==> r.1 is None
        },
        d matches Dialog::DevicePicker { kind, devices, selected, .. } ==> {
            &&& r.0 is None
            &&& r.1 matches Some(DialogAction::ChooseDevice { kind: k, uid }) && k == kind && (
            selected is Some && selected->0 < devices@.len() ==> uid is Some && uid->0@
                == devices@[selected->0 as int].uid@) && (selected is None || selected->0
                >= devices@.len() ==> uid is None)
        },
        d matches Dialog::ColorPick { target, color } ==> r.0 is None && r.1 == Some(
            DialogAction::ApplyColor(target, color),
        ),
        d is NoMidiInput || d is MidiError || d is About || d is Welcome || d is LearnResult
            ==> r.0 is None && r.1 is None,
        d is ManageTaught ==> r.0 == Some(d) && r.1 is None,
{
}

/// Confirming a name hands it over without the space around it, for the notes
/// that were held; a key is handed over as it was pasted and the dialog stays. A
/// blank field does nothing at all.
pub proof fn confirming_a_field_needs_something_in_it(
    d: Dialog,
    number: Option<TempoBits>,
    presets: Vec<Tuning>,
    r: (Option<Dialog>, Option<DialogAction>),
)
    requires
        call_ensures(Dialog::press, (d, Press::Confirm, number, &presets), r),
    ensures
        d matches Dialog::SupporterKey { input, .. } ==> {
            &&& r.0 == Some(d)
            &&& crate::text::all_white(input@) ==> r.1 is None
            &&& !crate::text::all_white(input@) ==> (r.1 matches Some(
                DialogAction::InstallLicense { key },
            ) && key@ == input@)
        },
        d matches Dialog::TeachChord { notes, input, apply_all_keys, .. } ==> {
            &&& crate::text::all_white(input@) ==> r.0 == Some(d) && r.1 is None
            &&& !crate::text::all_white(input@) ==> r.0 is None && (r.1 matches Some(
                DialogAction::TeachSave { notes: n, name, apply_all_keys: all },
            ) && n@ == notes@ && name@ == crate::text::trimmed(input@) && all == apply_all_keys)
        },
        d matches Dialog::CorrectChord { notes, candidates, selected, .. } ==> {
            &&& selected is Some && selected->0 < candidates@.len() ==> r.0 is None && (
            r.1 matches Some(DialogAction::TrainCorrection { notes: n, name }) && n@ == notes@
                && name@ == candidates@[selected->0 as int]@)
            &&& selected is None || selected->0 >= candidates@.len() ==> r.0 == Some(d)
                && r.1 is None
        },
{
    if let Dialog::SupporterKey { input, .. } = d {
        crate::laws::text::only_blank_text_is_trimmed_away(input@);
    }
    if let Dialog::TeachChord { input, .. } = d {
        crate::laws::text::only_blank_text_is_trimmed_away(input@);
    }
}

/// An export closes exactly when the spec on screen can be committed, with that
/// spec, remembered or not as the box says.
pub proof fn an_export_closes_when_it_is_committed(
    d: Dialog,
    number: Option<TempoBits>,
    presets: Vec<Tuning>,
    r: (Option<Dialog>, Option<DialogAction>),
    text: &str,
    built: Result<ExportSpec, String>,
    action: DialogAction,
)
    requires
        call_ensures(Dialog::press, (d, Press::Confirm, number, &presets), r),
        d matches Dialog::Export { spec, tempo_text, remember, .. } && tempo_text@ == text@
            && call_ensures(export_ready, (&spec, text, number), built) && (built matches Ok(s)
            ==> call_ensures(export_action, (s, remember), action)),
    ensures
        built is Ok ==> r.0 is None && r.1 == Some(action),
        built is Err ==> r.0 == Some(d) && r.1 is None,
{
}

/// The tuning editor closes exactly when the strings on screen make a tuning,
/// with that tuning.
pub proof fn the_tuning_editor_closes_on_a_tuning(
    d: Dialog,
    number: Option<TempoBits>,
    presets: Vec<Tuning>,
    r: (Option<Dialog>, Option<DialogAction>),
    text: &str,
    built: Result<Tuning, Problem>,
)
    requires
        call_ensures(Dialog::press, (d, Press::Confirm, number, &presets), r),
        d matches Dialog::CustomTuning { name, strings, .. } && name@ == text@ && call_ensures(
            confirm,
            (text, &strings, &presets),
            built,
        ),
    ensures
        built matches Ok(t) ==> r.0 is None && (r.1 matches Some(DialogAction::SetCustomTuning(u))
            && u.name@ == t.name@ && u.open@ == t.open@),
        built is Err ==> r.0 == Some(d) && r.1 is None,
{
    if let Dialog::CustomTuning { name, strings, .. } = d {
        assert(strings@.len() == strings.len());
        let other = choose|q: Result<Tuning, Problem>| #[trigger]
            crate::dialogs::tuning::confirmed(name@, strings@, presets@, q) && (match q {
                Ok(t) => r.0 is None && r.1 == Some(DialogAction::SetCustomTuning(t)),
                Err(_) => r.0 == Some(d) && r.1 is None,
            });
        crate::dialogs::tuning::confirming_has_one_answer(
            name@,
            strings@,
            presets@,
            built,
            other,
        );
    }
}

/// The plugin picker closes exactly when it has something to do, and does what
/// was on offer.
pub proof fn the_plugin_picker_does_what_was_on_offer(
    d: Dialog,
    number: Option<TempoBits>,
    presets: Vec<Tuning>,
    r: (Option<Dialog>, Option<DialogAction>),
    loaded: Option<&str>,
    typed: &str,
    choice: Option<PluginChoice<'_>>,
)
    requires
        call_ensures(Dialog::press, (d, Press::Confirm, number, &presets), r),
        d matches Dialog::PluginPicker { plugins, selected, current, filter, .. } && typed@
            == filter@ && (loaded is Some <==> current is Some) && call_ensures(
            plugin_choice,
            (&plugins, selected, loaded, typed),
            choice,
        ),
    ensures
        choice matches Some(PluginChoice::Load(e)) ==> r.0 is None && (r.1 matches Some(
            DialogAction::LoadPlugin { path: Some(p) },
        ) && p@ == e.path@),
        choice matches Some(PluginChoice::Unload) ==> r.0 is None && r.1 == Some(
            DialogAction::LoadPlugin { path: None },
        ),
        choice is None ==> r.0 == Some(d) && r.1 is None,
{
    if let Dialog::PluginPicker { plugins, selected, current, filter, focus } = d {
        let (p, f) = (plugins@, filter@);
        match choice {
            Some(PluginChoice::Load(e)) => {
                let i = choose|i: int| #[trigger]
                    crate::dialogs::plugins::would_load(p, selected, f, i) && *e == p[i];
                assert(!crate::dialogs::plugins::nothing_to_load(p, selected, f));
                let j = choose|j: int| #[trigger]
                    crate::dialogs::plugins::would_load(p, selected, f, j) && (r.1 matches Some(
                        DialogAction::LoadPlugin { path: Some(q) },
                    ) && q@ == p[j].path@);
                crate::dialogs::plugins::only_a_row_on_screen_is_loaded(p, selected, f, i, j);
            },
            Some(PluginChoice::Unload) => {},
            None => {},
        }
    }
}

/// Cancel is asked before anything else, and the Enter that opened the picker is
/// not for it.
pub proof fn the_opening_enter_is_not_for_the_picker(
    cancel: bool,
    load: bool,
    double: bool,
    enter: bool,
    first: bool,
    r: Option<Press>,
)
    requires
        call_ensures(picker_press, (cancel, load, double, enter, first), r),
    ensures
        cancel ==> r == Some(Press::Cancel),
        !cancel && (load || double) ==> r == Some(Press::Confirm),
        !cancel && !load && !double ==> r == (if enter && !first {
            Some(Press::Confirm)
        } else {
            None
        }),
{
}

// ── The forms, one by one ──────────────────────────────────────────────────
/// What each form asks for by itself is what its dialog asks for.
pub proof fn a_form_asks_for_what_is_in_it(
    kind: DeviceKind,
    devices: Vec<DeviceInfo>,
    ports: Vec<String>,
    names: Vec<String>,
    notes: Vec<u8>,
    input: String,
    all: bool,
    at: usize,
    device: DialogAction,
    port: Option<DialogAction>,
    train: Option<DialogAction>,
    key: Option<DialogAction>,
    teach: Option<DialogAction>,
)
    requires
        call_ensures(device_choice, (kind, &devices, Some(at)), device),
        call_ensures(port_choice, (&ports, Some(at)), port),
        call_ensures(correction, (&notes, &names, Some(at)), train),
        call_ensures(license_request, (&input,), key),
        call_ensures(teach_request, (&notes, &input, all), teach),
    ensures
        device matches DialogAction::ChooseDevice { kind: k, uid } && k == kind && (uid is Some
            <==> at < devices@.len()) && (at < devices@.len() ==> uid->0@
            == devices@[at as int].uid@),
        port is Some <==> at < ports@.len(),
        at < ports@.len() ==> (port matches Some(DialogAction::ConnectPort(n)) && n@
            == ports@[at as int]@),
        train is Some <==> at < names@.len(),
        at < names@.len() ==> (train matches Some(DialogAction::TrainCorrection { notes: n, name })
            && n@ == notes@ && name@ == names@[at as int]@),
        key is Some <==> !crate::text::all_white(input@),
        key is Some ==> (key matches Some(DialogAction::InstallLicense { key: k }) && k@ == input@),
        teach is Some <==> !crate::text::all_white(input@),
        teach is Some ==> (teach matches Some(
            DialogAction::TeachSave { notes: n, name, apply_all_keys },
        ) && n@ == notes@ && name@ == crate::text::trimmed(input@) && apply_all_keys == all),
{
    crate::laws::text::only_blank_text_is_trimmed_away(input@);
}

/// A device reads as its name, with the platform's own choice said to be that
/// and the open one marked behind.
pub proof fn a_device_says_what_it_is(d: DeviceInfo, current: Option<String>, r: String)
    requires
        call_ensures(device_row, (&d, &current), r),
    ensures
        ({
            let name = if d.default {
                d.name@ + "   (system default)"@
            } else {
                d.name@
            };
            let open = current matches Some(uid) && uid@ == d.uid@;
            &&& open ==> r@ == name + "  \u{2022}"@
            &&& !open ==> r@ == name
        }),
{
}

/// What each device dialog is called and asks, and what it says of choosing
/// nothing and of finding nothing.
pub proof fn a_device_dialog_is_about_its_kind(
    kind: DeviceKind,
    title: &'static str,
    prompt: &'static str,
    none: &'static str,
    nothing: &'static str,
)
    requires
        call_ensures(DeviceKind::title, (kind,), title),
        call_ensures(DeviceKind::prompt, (kind,), prompt),
        call_ensures(DeviceKind::none_row, (kind,), none),
        call_ensures(DeviceKind::nothing_found, (kind,), nothing),
    ensures
        kind == DeviceKind::Camera ==> title@ == "Select Camera"@ && prompt@
            == "Camera to record and preview:"@ && none@ == "None  —  record without video"@
            && nothing@
            == "No cameras found. If one is connected, Tangent may not have been granted camera access yet — check System Settings > Privacy & Security."@,
        kind == DeviceKind::AudioInput ==> title@ == "Select Audio Input"@ && prompt@
            == "Audio input to record:"@ && none@ == "None  —  record the instrument, not an input"@
            && nothing@
            == "No audio inputs found. If an interface is connected, Tangent may not have been granted microphone access yet — check System Settings > Privacy & Security."@,
{
}

/// A candidate is what is read now when it is the whole of the label, or all of
/// it in front of a slash and a bass note; and then it says so.
pub proof fn a_reading_counts_over_any_bass(
    label: &str,
    name: &str,
    bass: Seq<char>,
    r: bool,
    row: String,
)
    requires
        call_ensures(is_current_reading, (label, name), r),
        call_ensures(candidate_row, (label, name), row),
    ensures
        label@ == name@ ==> r,
        label@ == name@ + seq!['/'] + bass ==> r,
        r ==> label@ == name@ || (exists|b: Seq<char>|
            label@ == #[trigger] (name@ + seq!['/'] + b)),
        r ==> row@ == name@ + "   (current)"@,
        !r ==> row@ == name@,
{
    let n = name@.len() as int;
    if label@ == name@ + seq!['/'] + bass {
        assert(label@.subrange(0, n) =~= name@);
        assert(label@[n] == '/');
    }
    if r && label@ != name@ {
        assert(label@ =~= name@ + seq!['/'] + label@.skip(n + 1));
    }
}

/// Deleting leaves the rows that are kept under other intervals, in their order.
pub proof fn deleting_keeps_the_rest_in_order(
    rows: Vec<TaughtChord>,
    intervals: Vec<u8>,
    r: Vec<TaughtChord>,
    more: Vec<TaughtChord>,
    q: Vec<TaughtChord>,
    row: TaughtChord,
)
    requires
        call_ensures(delete_taught, (rows, &intervals), r),
        more@ == rows@.push(row),
        call_ensures(delete_taught, (more, &intervals), q),
    ensures
        row.intervals@ == intervals@ ==> q@ == r@,
        row.intervals@ != intervals@ ==> q@ == r@.push(row),
        rows@.len() == 0 ==> r@.len() == 0,
{
    assert(more@.drop_last() =~= rows@);
}

/// Whether chords are being learned, and from how many corrections.
pub proof fn the_learning_line_counts_corrections(l: LearningStatus, r: String, n: String)
    requires
        call_ensures(learning_line, (&l,), r),
        call_ensures(crate::text::number, (l.corrections as u64,), n),
    ensures
        l.corrections != 1 ==> r@ == "Chord learning: "@ + (if l.on {
            "ON"@
        } else {
            "off"@
        }) + "  ("@ + n@ + " corrections)"@,
        l.corrections == 1 ==> r@ == "Chord learning: "@ + (if l.on {
            "ON"@
        } else {
            "off"@
        }) + "  ("@ + n@ + " correction)"@,
{
    reveal_strlit(" corrections)");
    reveal_strlit(" correction)");
    reveal_strlit(" correction");
    reveal_strlit("s");
    reveal_strlit("");
    reveal_strlit(")");
    assert(" correction"@ + "s"@ + ")"@ =~= " corrections)"@);
    assert(" correction"@ + ""@ + ")"@ =~= " correction)"@);
    let lead = "Chord learning: "@ + (if l.on {
        "ON"@
    } else {
        "off"@
    }) + "  ("@ + n@;
    if l.corrections == 1 {
        assert(r@ =~= lead + (" correction"@ + ""@ + ")"@));
    } else {
        assert(r@ =~= lead + (" correction"@ + "s"@ + ")"@));
    }
}

// ── Colours ────────────────────────────────────────────────────────────────
/// The colour dialog is called after what it colours.
pub proof fn the_colour_dialog_is_called_after_its_target(target: ColorTarget, r: &'static str)
    requires
        call_ensures(color_pick_title, (target,), r),
    ensures
        target == ColorTarget::WhiteIdle ==> r@ == "Choose White Key Color"@,
        target == ColorTarget::BlackIdle ==> r@ == "Choose Black Key Color"@,
        target == ColorTarget::Active ==> r@ == "Choose Active Key Color"@,
        target == ColorTarget::Sustain ==> r@ == "Choose Sustain Pedal Color"@,
        target == ColorTarget::ChordText ==> r@ == "Choose Chord Color"@,
        target == ColorTarget::RecorderBg ==> r@ == "Choose Recorder Color"@,
{
}

/// By night the dialogs are ivory on black and by day black on ivory, with a
/// border of the text's own colour and a button that stands off from the
/// background, the more so under the pointer.
pub proof fn night_is_day_turned_round(night: DialogTheme, day: DialogTheme)
    requires
        call_ensures(theme, (true,), night),
        call_ensures(theme, (false,), day),
    ensures
        night.bg == (Rgb { r: 0, g: 0, b: 0 }),
        night.text == (Rgb { r: 0xE8, g: 0xDC, b: 0xC0 }),
        day.bg == night.text && day.text == night.bg,
        night.button_border == night.text && day.button_border == day.text,
        night.bg.light() < night.button_bg.light() < night.button_hover.light(),
        day.bg.light() > day.button_bg.light() > day.button_hover.light(),
        night.button_bg == (Rgb { r: 0x1a, g: 0x1a, b: 0x1a }),
        night.button_hover == (Rgb { r: 0x2a, g: 0x2a, b: 0x2a }),
        day.button_bg == (Rgb { r: 0xd4, g: 0xc8, b: 0xb0 }),
        day.button_hover == (Rgb { r: 0xc0, g: 0xb4, b: 0x9c }),
{
}

} // verus!
