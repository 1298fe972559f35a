//! The dialogs: what each one holds, and what it asks for when it is confirmed.

use crate::color::Rgb;
use crate::fretboard::{by_name, Tuning};
use crate::menu::ColorTarget;
use crate::ports::DeviceInfo;
use crate::recorder::{ExportSpec, TempoBits, VideoMode};
use vstd::prelude::*;

pub mod export;
pub mod forms;
pub mod pitch;
pub mod plugins;
pub mod tuning;

pub use export::{
    encoder_note, estimate_line, export_action, export_controls, export_ready, parse_bpm,
    rederivable, shows_from_settings, ExportControls, Platform, Rederivable,
};
pub use forms::{
    candidate_row, correction, delete_taught, device_choice, device_row, is_current_reading,
    learning_line, license_request, port_choice, teach_request, DeviceKind, LearningStatus,
    TaughtChord,
};
pub use pitch::{parse_pitch, pitch_name};
pub use plugins::{
    before_lowered, count_line, matches_lowered, plugin_choice, plugin_matches, plugin_row, visible_plugins, vst3_locations,
    PluginChoice, PluginEntry, PLUGIN_NONE_ROW,
};
pub use tuning::{
    add_low_string, confirm, footer, gaps, highest_open_pitch, remove_low_string, rows_for,
    untouched, Problem, TuningString,
};

verus! {

/// What a dialog asks the app to do.
#[derive(Debug, Clone, PartialEq, Eq)]
pub enum DialogAction {
    ConnectPort(String),
    /// Keep the welcome dialog's "don't show again" choice.
    SetShowWelcome(bool),
    /// Try to install a pasted supporter key. The app reports the outcome by
    /// updating or closing the dialog.
    InstallLicense { key: String },
    ApplyColor(ColorTarget, Rgb),
    /// Teach `name` for the held `notes`.
    TeachSave { notes: Vec<u8>, name: String, apply_all_keys: bool },
    /// Delete what was taught under these intervals from the bass.
    DeleteOverride { intervals: Vec<u8> },
    /// Train toward reading `notes` as `name`.
    TrainCorrection { notes: Vec<u8>, name: String },
    /// Discard everything learned.
    ForgetLearning,
    /// Adopt a tuning the user built by hand. It is sound already.
    SetCustomTuning(Tuning),
    /// A capture device was chosen, or none.
    ChooseDevice { kind: DeviceKind, uid: Option<String> },
    /// Load the plugin at a path, or unload the one that is loaded.
    LoadPlugin { path: Option<String> },
    /// Use this spec for the rest of the session. It is sound already.
    SetExport(ExportSpec),
    /// As above, and keep it for every later take.
    SetExportAndRemember(ExportSpec),
}

/// What the color dialog is called.
pub fn color_pick_title(target: ColorTarget) -> (r: &'static str)
    ensures
        r@ == (match target {
            ColorTarget::WhiteIdle => "Choose White Key Color"@,
            ColorTarget::BlackIdle => "Choose Black Key Color"@,
            ColorTarget::Active => "Choose Active Key Color"@,
            ColorTarget::Sustain => "Choose Sustain Pedal Color"@,
            ColorTarget::ChordText => "Choose Chord Color"@,
            ColorTarget::RecorderBg => "Choose Recorder Color"@,
        }),
{
    match target {
        ColorTarget::WhiteIdle => "Choose White Key Color",
        ColorTarget::BlackIdle => "Choose Black Key Color",
        ColorTarget::Active => "Choose Active Key Color",
        ColorTarget::Sustain => "Choose Sustain Pedal Color",
        ColorTarget::ChordText => "Choose Chord Color",
        ColorTarget::RecorderBg => "Choose Recorder Color",
    }
}

/// What a themed dialog is painted in.
#[derive(Debug, Clone, Copy, PartialEq, Eq, Structural)]
pub struct DialogTheme {
    pub bg: Rgb,
    pub text: Rgb,
    pub button_bg: Rgb,
    pub button_hover: Rgb,
    pub button_border: Rgb,
}

/// Ivory on black, or black on ivory.
pub fn theme(dark: bool) -> (r: DialogTheme)
    ensures
        dark ==> r == (DialogTheme {
            bg: Rgb::of(0x00, 0x00, 0x00),
            text: Rgb::of(0xE8, 0xDC, 0xC0),
            button_bg: Rgb::of(0x1a, 0x1a, 0x1a),
            button_hover: Rgb::of(0x2a, 0x2a, 0x2a),
            button_border: Rgb::of(0xE8, 0xDC, 0xC0),
        }),
        !dark ==> r == (DialogTheme {
            bg: Rgb::of(0xE8, 0xDC, 0xC0),
            text: Rgb::of(0x00, 0x00, 0x00),
            button_bg: Rgb::of(0xd4, 0xc8, 0xb0),
            button_hover: Rgb::of(0xc0, 0xb4, 0x9c),
            button_border: Rgb::of(0x00, 0x00, 0x00),
        }),
{
    if dark {
        DialogTheme {
            bg: Rgb::new(0x00, 0x00, 0x00),
            text: Rgb::new(0xE8, 0xDC, 0xC0),
            button_bg: Rgb::new(0x1a, 0x1a, 0x1a),
            button_hover: Rgb::new(0x2a, 0x2a, 0x2a),
            button_border: Rgb::new(0xE8, 0xDC, 0xC0),
        }
    } else {
        DialogTheme {
            bg: Rgb::new(0xE8, 0xDC, 0xC0),
            text: Rgb::new(0x00, 0x00, 0x00),
            button_bg: Rgb::new(0xd4, 0xc8, 0xb0),
            button_hover: Rgb::new(0xc0, 0xb4, 0x9c),
            button_border: Rgb::new(0x00, 0x00, 0x00),
        }
    }
}

/// A dialog that is open.
pub enum Dialog {
    MidiPicker { ports: Vec<String>, selected: Option<usize>, current: Option<String> },
    /// Choose a camera or an audio input. No row is a real choice: it closes
    /// the device.
    DevicePicker {
        kind: DeviceKind,
        devices: Vec<DeviceInfo>,
        selected: Option<usize>,
        /// The uid currently open.
        current: Option<String>,
    },
    PluginPicker {
        plugins: Vec<PluginEntry>,
        /// A place in `plugins`, never in the filtered list.
        selected: Option<usize>,
        current: Option<String>,
        filter: String,
        focus: bool,
    },
    NoMidiInput,
    MidiError { message: String },
    About,
    Welcome { dont_show_again: bool },
    /// Stays open on a bad key, so that what was pasted is not lost.
    SupporterKey {
        input: String,
        message: Option<String>,
        installed_as: Option<String>,
        focus: bool,
    },
    ColorPick { target: ColorTarget, color: Rgb },
    TeachChord {
        notes: Vec<u8>,
        note_names: String,
        current_label: String,
        input: String,
        apply_all_keys: bool,
        focus: bool,
    },
    ManageTaught { rows: Vec<TaughtChord>, learning: LearningStatus },
    CorrectChord {
        notes: Vec<u8>,
        note_names: String,
        current_label: String,
        /// The names that can be trained toward, best first.
        candidates: Vec<String>,
        /// The score of each, as it is shown.
        scores: Vec<String>,
        selected: Option<usize>,
    },
    LearnResult { title: &'static str, message: String },
    CustomTuning {
        name: String,
        /// The lowest string first.
        strings: Vec<TuningString>,
        prefer_flats: bool,
        focus: bool,
    },
    Export {
        /// Its tempo is the one the dialog opened with; the text is live.
        spec: ExportSpec,
        tempo_text: String,
        /// Keep these settings for every take.
        remember: bool,
        /// Opened after a take rather than before one.
        post_take: bool,
        had_camera: bool,
    },
}

/// What was done to a dialog.
pub enum Press {
    /// The button that says yes, or Enter, or a double click.
    Confirm,
    /// The button that says no, or one that only closes.
    Cancel,
    /// A row was clicked, or the one that selects nothing.
    Select(Option<usize>),
    /// The dialog's box was ticked or cleared.
    Tick(bool),
    /// What was taught under these intervals is to go.
    Delete(Vec<u8>),
    /// Everything learned is to go.
    Forget,
}

/// The plugin picker's own keys: Cancel is asked first, since Enter also presses
/// a button that has the focus, and the Enter that opened the picker is not for
/// it.
pub fn picker_press(
    cancel: bool,
    load: bool,
    double_clicked: bool,
    enter: bool,
    first_frame: bool,
) -> (r: Option<Press>)
    ensures
        cancel ==> r == Some(Press::Cancel),
        !cancel && (load || double_clicked || (enter && !first_frame)) ==> r == Some(
            Press::Confirm,
        ),
        !cancel && !load && !double_clicked && (!enter || first_frame) ==> r is None,
{
    if cancel {
        Some(Press::Cancel)
    } else if load || double_clicked || (enter && !first_frame) {
        Some(Press::Confirm)
    } else {
        None
    }
}

impl Dialog {
    /// The dialog with another row selected, where it has rows to select.
    pub open spec fn selecting(self, row: Option<usize>) -> Dialog {
        match self {
            Dialog::MidiPicker { ports, selected, current } => Dialog::MidiPicker {
                ports,
                selected: row,
                current,
            },
            Dialog::DevicePicker { kind, devices, selected, current } => Dialog::DevicePicker {
                kind,
                devices,
                selected: row,
                current,
            },
            Dialog::PluginPicker { plugins, selected, current, filter, focus } =>
                Dialog::PluginPicker { plugins, selected: row, current, filter, focus },
            Dialog::CorrectChord {
                notes,
                note_names,
                current_label,
                candidates,
                scores,
                selected,
            } => Dialog::CorrectChord {
                notes,
                note_names,
                current_label,
                candidates,
                scores,
                selected: row,
            },
            other => other,
        }
    }

    /// The dialog with its box ticked or cleared, where it has one.
    pub open spec fn ticking(self, on: bool) -> Dialog {
        match self {
            Dialog::Welcome { .. } => Dialog::Welcome { dont_show_again: on },
            Dialog::TeachChord {
                notes,
                note_names,
                current_label,
                input,
                apply_all_keys,
                focus,
            } => Dialog::TeachChord {
                notes,
                note_names,
                current_label,
                input,
                apply_all_keys: on,
                focus,
            },
            Dialog::Export { spec, tempo_text, remember, post_take, had_camera } =>
                Dialog::Export { spec, tempo_text, remember: on, post_take, had_camera },
            other => other,
        }
    }

    /// What confirming leaves open and asks for.
    ///
    /// Everything that builds a value closes exactly when it builds one, and a
    /// supporter key is handed over without closing.
    pub open spec fn confirming(
        self,
        number: Option<TempoBits>,
        presets: Seq<Tuning>,
        left: Option<Dialog>,
        action: Option<DialogAction>,
    ) -> bool {
        match self {
            Dialog::MidiPicker { ports, selected, .. } => {
                &&& left is None
                &&& action is Some <==> selected is Some && selected->0 < ports@.len()
                &&& action matches Some(a) ==> a matches DialogAction::ConnectPort(name) && name@
                    == ports@[selected->0 as int]@
            },
            Dialog::DevicePicker { kind, devices, selected, .. } => {
                &&& left is None
                &&& action matches Some(DialogAction::ChooseDevice { kind: k, uid }) && k == kind
                    && (uid is Some <==> selected is Some && selected->0 < devices@.len()) && (
                uid is Some ==> uid->0@ == devices@[selected->0 as int].uid@)
            },
            Dialog::PluginPicker { plugins, selected, current, filter, .. } => {
                if plugins::would_unload(plugins@, selected, current is Some, filter@) {
                    left is None && action == Some(DialogAction::LoadPlugin { path: None })
                } else if exists|i: int|
                    #[trigger] plugins::would_load(plugins@, selected, filter@, i) {
                    left is None && exists|i: int|
                        #[trigger] plugins::would_load(plugins@, selected, filter@, i)
                            && (action matches Some(DialogAction::LoadPlugin { path: Some(p) })
                            && p@ == plugins@[i].path@)
                } else {
                    left == Some(self) && action is None
                }
            },
            Dialog::ColorPick { target, color } => left is None && action == Some(
                DialogAction::ApplyColor(target, color),
            ),
            Dialog::SupporterKey { input, .. } => {
                &&& left == Some(self)
                &&& action is Some <==> forms::is_filled(input@)
                &&& action matches Some(a) ==> a matches DialogAction::InstallLicense { key }
                    && key@ == input@
            },
            Dialog::TeachChord { notes, input, apply_all_keys, .. } => {
                if forms::is_filled(input@) {
                    left is None && (action matches Some(DialogAction::TeachSave {
                        notes: n,
                        name,
                        apply_all_keys: all,
                    }) && n@ == notes@ && name@ == crate::text::trimmed(input@) && all
                        == apply_all_keys)
                } else {
                    left == Some(self) && action is None
                }
            },
            Dialog::CorrectChord { notes, candidates, selected, .. } => {
                if selected is Some && selected->0 < candidates@.len() {
                    left is None && (action matches Some(DialogAction::TrainCorrection {
                        notes: n,
                        name,
                    }) && n@ == notes@ && name@ == candidates@[selected->0 as int]@)
                } else {
                    left == Some(self) && action is None
                }
            },
            Dialog::CustomTuning { name, strings, .. } => exists|r: Result<Tuning, tuning::Problem>|
                #[trigger] tuning::confirmed(name@, strings@, presets, r) && (match r {
                    Ok(t) => left is None && action == Some(DialogAction::SetCustomTuning(t)),
                    Err(_) => left == Some(self) && action is None,
                }),
            Dialog::Export { spec, tempo_text, remember, .. } => match export::commit(
                spec,
                tempo_text@,
                number,
            ) {
                Ok(out) => left is None && action == Some(
                    if remember {
                        DialogAction::SetExportAndRemember(out)
                    } else {
                        DialogAction::SetExport(out)
                    },
                ),
                Err(_) => left == Some(self) && action is None,
            },
            Dialog::ManageTaught { .. } => left == Some(self) && action is None,
            _ => left is None && action is None,
        }
    }

    /// What a press leaves open and asks for.
    pub open spec fn answered(
        self,
        press: Press,
        number: Option<TempoBits>,
        presets: Seq<Tuning>,
        left: Option<Dialog>,
        action: Option<DialogAction>,
    ) -> bool {
        match press {
            Press::Cancel => left is None && action is None,
            Press::Confirm => self.confirming(number, presets, left, action),
            Press::Select(row) => left == Some(self.selecting(row)) && action is None,
            Press::Tick(on) => left == Some(self.ticking(on)) && action == (
            if self is Welcome {
                Some(DialogAction::SetShowWelcome(!on))
            } else {
                None
            }),
            Press::Delete(intervals) => match self {
                Dialog::ManageTaught { rows, learning } => {
                    &&& left matches Some(Dialog::ManageTaught { rows: kept, learning: l })
                        && kept@ == forms::without(rows@, intervals@) && l == learning
                    &&& action matches Some(DialogAction::DeleteOverride { intervals: gone })
                        && gone@ == intervals@
                },
                _ => left == Some(self) && action is None,
            },
            Press::Forget => match self {
                Dialog::ManageTaught { rows, learning } => {
                    if learning.has_learned {
                        &&& left matches Some(Dialog::ManageTaught { rows: r, learning: l }) && r
                            == rows && l.forgotten() && l.on == learning.on
                        &&& action == Some(DialogAction::ForgetLearning)
                    } else {
                        left == Some(self) && action is None
                    }
                },
                _ => left == Some(self) && action is None,
            },
        }
    }

    /// Take a press: what is left of the dialog, none once it has closed, and
    /// what it asks for. `number` is the number its tempo text reads as, and
    /// `presets` are the shipped tunings.
    pub fn press(self, press: Press, number: Option<TempoBits>, presets: &Vec<Tuning>) -> (r: (
        Option<Dialog>,
        Option<DialogAction>,
    ))
        ensures
            self.answered(press, number, presets@, r.0, r.1),
    {
        match press {
            Press::Cancel => (None, None),
            Press::Confirm => self.confirm(number, presets),
            Press::Select(row) => (Some(self.select(row)), None),
            Press::Tick(on) => self.tick(on),
            Press::Delete(intervals) => match self {
                Dialog::ManageTaught { rows, learning } => {
                    let kept = delete_taught(rows, &intervals);
                    (
                        Some(Dialog::ManageTaught { rows: kept, learning }),
                        Some(DialogAction::DeleteOverride { intervals }),
                    )
                },
                other => (Some(other), None),
            },
            Press::Forget => match self {
                Dialog::ManageTaught { rows, learning } => {
                    if learning.has_learned {
                        let mut learning = learning;
                        learning.forget();
                        (
                            Some(Dialog::ManageTaught { rows, learning }),
                            Some(DialogAction::ForgetLearning),
                        )
                    } else {
                        (Some(Dialog::ManageTaught { rows, learning }), None)
                    }
                },
                other => (Some(other), None),
            },
        }
    }

    fn select(self, row: Option<usize>) -> (r: Dialog)
        ensures
            r == self.selecting(row),
    {
        match self {
            Dialog::MidiPicker { ports, current, .. } => Dialog::MidiPicker {
                ports,
                selected: row,
                current,
            },
            Dialog::DevicePicker { kind, devices, current, .. } => Dialog::DevicePicker {
                kind,
                devices,
                selected: row,
                current,
            },
            Dialog::PluginPicker { plugins, current, filter, focus, .. } => Dialog::PluginPicker {
                plugins,
                selected: row,
                current,
                filter,
                focus,
            },
            Dialog::CorrectChord {
                notes,
                note_names,
                current_label,
                candidates,
                scores,
                ..
            } => Dialog::CorrectChord {
                notes,
                note_names,
                current_label,
                candidates,
                scores,
                selected: row,
            },
            other => other,
        }
    }

    fn tick(self, on: bool) -> (r: (Option<Dialog>, Option<DialogAction>))
        ensures
            r.0 == Some(self.ticking(on)),
            r.1 == (if self is Welcome {
                Some(DialogAction::SetShowWelcome(!on))
            } else {
                None
            }),
    {
        match self {
            Dialog::Welcome { .. } => (
                Some(Dialog::Welcome { dont_show_again: on }),
                Some(DialogAction::SetShowWelcome(!on)),
            ),
            Dialog::TeachChord { notes, note_names, current_label, input, focus, .. } => (
                Some(
                    Dialog::TeachChord {
                        notes,
                        note_names,
                        current_label,
                        input,
                        apply_all_keys: on,
                        focus,
                    },
                ),
                None,
            ),
            Dialog::Export { spec, tempo_text, post_take, had_camera, .. } => (
                Some(Dialog::Export { spec, tempo_text, remember: on, post_take, had_camera }),
                None,
            ),
            other => (Some(other), None),
        }
    }

    fn confirm(self, number: Option<TempoBits>, presets: &Vec<Tuning>) -> (r: (
        Option<Dialog>,
        Option<DialogAction>,
    ))
        ensures
            self.confirming(number, presets@, r.0, r.1),
    {
        let action: Option<DialogAction> = match &self {
            Dialog::MidiPicker { ports, selected, .. } => {
                return (None, port_choice(ports, *selected));
            },
            Dialog::DevicePicker { kind, devices, selected, .. } => Some(
                device_choice(*kind, devices, *selected),
            ),
            Dialog::PluginPicker { plugins, selected, current, filter, .. } => {
                let loaded = match current {
                    Some(c) => Some(c.as_str()),
                    None => None,
                };
                match plugin_choice(plugins, *selected, loaded, filter.as_str()) {
                    Some(choice) => Some(choice.action()),
                    None => None,
                }
            },
            Dialog::ColorPick { target, color } => Some(DialogAction::ApplyColor(*target, *color)),
            Dialog::SupporterKey { input, .. } => {
                let request = license_request(input);
                return (Some(self), request);
            },
            Dialog::TeachChord { notes, input, apply_all_keys, .. } => teach_request(
                notes,
                input,
                *apply_all_keys,
            ),
            Dialog::CorrectChord { notes, candidates, selected, .. } => correction(
                notes,
                candidates,
                *selected,
            ),
            Dialog::CustomTuning { name, strings, .. } => {
                let built = confirm(name.as_str(), strings, presets);
                assert(tuning::confirmed(name@, strings@, presets@, built));
                match built {
                    Ok(t) => Some(DialogAction::SetCustomTuning(t)),
                    Err(_) => None,
                }
            },
            Dialog::Export { spec, tempo_text, remember, .. } => {
                match export_ready(spec, tempo_text.as_str(), number) {
                    Ok(out) => Some(export_action(out, *remember)),
                    Err(_) => None,
                }
            },
            Dialog::ManageTaught { .. } => None,
            _ => {
                return (None, None);
            },
        };
        if action.is_some() {
            (None, action)
        } else {
            (Some(self), None)
        }
    }
}

impl Dialog {
    /// Open the tuning editor on a copy of `from`. A preset's copy gets a name of
    /// its own, because the preset's would bring the preset back.
    pub fn custom_tuning(from: &Tuning, presets: &Vec<Tuning>, prefer_flats: bool) -> (r: Dialog)
        ensures
            r matches Dialog::CustomTuning { name, strings, prefer_flats: flats, focus } && name@
                == tuning::opening_name(
                from.name@,
                crate::fretboard::names_a_preset(presets@, from.name@),
            ) && tuning::show(strings@, from.open@, prefer_flats) && flats == prefer_flats && focus,
    {
        let is_preset = by_name(presets, from.name.as_str()).is_some();
        let editor = tuning::custom_tuning(from, is_preset, prefer_flats);
        Dialog::CustomTuning {
            name: editor.name,
            strings: editor.strings,
            prefer_flats: editor.prefer_flats,
            focus: editor.focus,
        }
    }

    /// Open the export dialog on `spec`, brought down to what can still be made
    /// and to what can be made at all. `tempo_text` is the spec's tempo as it is
    /// written.
    pub fn export(
        spec: ExportSpec,
        post_take: bool,
        had_camera: bool,
        video_ready: bool,
        tempo_text: String,
    ) -> (r: Dialog)
        ensures
            r matches Dialog::Export {
                spec: seeded,
                tempo_text: text,
                remember,
                post_take: p,
                had_camera: h,
            } && text == tempo_text && !remember && p == post_take && h == had_camera && seeded == (
            if video_ready {
                export::brought_down(spec, !post_take)
            } else {
                ExportSpec {
                    video: VideoMode::NoVideo,
                    ..export::brought_down(spec, !post_take)
                }
            }),
    {
        let can = rederivable(post_take, had_camera);
        let mut seeded = can.clamp(spec);
        if !video_ready {
            seeded.video = VideoMode::NoVideo;
        }
        Dialog::Export { spec: seeded, tempo_text, remember: false, post_take, had_camera }
    }

    /// Open the plugin picker on the bundles that were found.
    pub fn plugin_picker(bundles: &Vec<String>, current: Option<String>) -> (r: Dialog)
        ensures
            r matches Dialog::PluginPicker { plugins, selected, current: loaded, filter, focus }
                && plugins::sorted(plugins@) && plugins::lists(plugins@, bundles@) && (
            plugins::PluginPicker { plugins, selected, current: loaded, filter, focus }).opens_on(
                current,
            ),
    {
        let picker = plugins::plugin_picker(bundles, current);
        Dialog::PluginPicker {
            plugins: picker.plugins,
            selected: picker.selected,
            current: picker.current,
            filter: picker.filter,
            focus: picker.focus,
        }
    }
}

} // verus!
