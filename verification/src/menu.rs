//! The right-click context menu.
//!
//! The rows are grouped into categories: the top level names a subject and the
//! hover carries the verbs. Two levels, and only two.

use crate::color::Rgb;
use crate::host::Caps;
use crate::recorder::TimeSignature;
use crate::theory_panel::Views;
use vstd::prelude::*;

pub mod entries;
pub mod laws;
pub mod shape;
pub mod state;

pub use entries::{
    build_entries, move_recorder_to_the_front, move_staff_to_the_front, push_category,
    rows_for_test, Entry, SubItem, CAPO_MAX, SIZE_PERCENTS, STAFF_PRESETS,
};
pub use state::{
    note_rest, settle_submenu, MenuState, Sighting, SurfaceReport, Waits, OPENING_GRACE, REST_FOR,
    SUB_SWITCH_DWELL,
};

verus! {

#[derive(Clone, Copy, PartialEq, Eq, Debug, Structural)]
pub enum ColorTarget {
    WhiteIdle,
    BlackIdle,
    Active,
    Sustain,
    /// The chord label.
    ChordText,
    /// The Recorder band's own background.
    RecorderBg,
}

/// What a row asks for.
#[derive(Clone, PartialEq, Eq, Debug)]
pub enum MenuAction {
    SetSizePercent(i64),
    ToggleBorderless,
    SelectMidiInput,
    PickColor(ColorTarget),
    ToggleDarkMode,
    ToggleKeytoggle,
    ToggleNotePreference,
    ToggleKeyNoteNames,
    ToggleFretNoteNames,
    ToggleChordDetection,
    ToggleChordStrip,
    /// Cycle the built-in UI typeface.
    CycleFont,
    DetachChordWindow,
    AttachChordWindow,
    TeachChordName,
    ManageTaughtChords,
    /// Correct the current reading, training the learned re-ranker.
    CorrectChordName,
    /// Master switch for the learned re-ranker.
    ToggleChordLearning,
    ShowSupporterKey,
    ToggleHeart,
    ToggleFretboard,
    /// The interval column beside the neck.
    ToggleGuitarIntervals,
    ToggleCameraPane,
    ChooseFolder,
    RevealFolder,
    ToggleOpenWhenDone,
    PickCamera,
    PickAudio,
    /// Step to the next clef preset.
    CycleClef,
    /// Set the staves outright, by key.
    SetStaffSet(&'static str),
    /// Add or remove one clef from the user's own stack.
    ToggleCustomClef(String),
    /// The key signature, as a count of sharps (positive) or flats (negative).
    SetStaffKey(i32),
    /// Letter names inside the noteheads.
    ToggleNoteNames,
    RescanPlugins,
    AddPluginFolder,
    ClearPluginFolders,
    /// By name: a custom tuning's name is user input.
    SetTuning(String),
    EditCustomTuning,
    SetCapo(u8),
    /// Fingerboard wood key.
    SetWood(&'static str),
    ToggleTheoryView(crate::theory_panel::View),
    ShowAllTheory,
    ToggleTheoryFollowsMidi,
    DetachFretboard,
    AttachFretboard,
    DetachTheory,
    AttachTheory,
    ToggleRecorder,
    DetachRecorder,
    AttachRecorder,
    ShowExportDialog,
    ShowAudioStatus,
    /// Count-in length in beats.
    SetCountIn(u32),
    SetTimeSignature(TimeSignature),
    ToggleCountInInTake,
    ToggleMetronome,
    ToggleMetronomeInTake,
    ToggleHideElapsed,
    ShowAbout,
    ResetSettings,
}

/// What an action asks for, with its text as characters.
pub enum Ask {
    Plain(MenuAction),
    StaffSet(Seq<char>),
    CustomClef(Seq<char>),
    Tuning(Seq<char>),
    Wood(Seq<char>),
}

impl View for MenuAction {
    type V = Ask;

    open spec fn view(&self) -> Ask {
        match *self {
            MenuAction::SetStaffSet(k) => Ask::StaffSet(k@),
            MenuAction::ToggleCustomClef(k) => Ask::CustomClef(k@),
            MenuAction::SetTuning(n) => Ask::Tuning(n@),
            MenuAction::SetWood(k) => Ask::Wood(k@),
            other => Ask::Plain(other),
        }
    }
}

/// A clef the Staves list offers: the key it is kept under and how it reads.
#[derive(Clone, PartialEq, Eq, Debug)]
pub struct ClefName {
    pub key: String,
    pub label: String,
}

/// A key signature the Key list offers: its sharps, flats counting below zero,
/// and how it reads.
#[derive(Clone, PartialEq, Eq, Debug)]
pub struct KeyName {
    pub sharps: i32,
    pub label: String,
}

/// The choices the menu lists but does not own, each in the order it is shown.
#[derive(Clone, PartialEq, Eq, Debug)]
pub struct Lists {
    pub clefs: Vec<ClefName>,
    pub keys: Vec<KeyName>,
    /// The shipped tunings, by name.
    pub tunings: Vec<String>,
}

/// Everything the menu needs to know to render its labels.
#[derive(Clone)]
pub struct MenuView {
    pub dark_mode: bool,
    pub borderless: bool,
    pub keytoggle: bool,
    pub prefer_flats: bool,
    pub key_note_names: bool,
    pub fret_note_names: bool,
    /// The interval column beside the neck is showing.
    pub guitar_intervals: bool,
    pub detection_enabled: bool,
    /// Whether the chord strip band is up. Independent of detection.
    pub chord_strip: bool,
    pub detached: bool,
    /// Teaching and correcting act on the voicing being played, so both are
    /// greyed without one.
    pub notes_held: bool,
    /// Whether the learned re-ranker is influencing readings.
    pub learning_on: bool,
    /// Label of the typeface that the next Font click brings.
    pub next_font: Option<&'static str>,
    /// A valid supporter license is installed.
    pub supporter: bool,
    pub heart_on: bool,
    /// The guitar view is showing.
    pub fretboard_on: bool,
    /// The tuning currently in use, by name.
    pub tuning: String,
    pub capo: u8,
    pub wood: &'static str,
    pub fretboard_detached: bool,
    /// Which theory diagrams are showing.
    pub theory: Views,
    /// Whether the theory band follows live playing.
    pub theory_follows_midi: bool,
    pub theory_detached: bool,
    /// The Recorder band is showing.
    pub recorder_on: bool,
    pub camera_pane_on: bool,
    /// How many folders the user has added to the plugin search list.
    pub extra_plugin_folders: usize,
    /// The take's folder opens when it finishes.
    pub open_when_done: bool,
    /// The sheet music band is showing.
    pub staff_on: bool,
    /// Letter names are printed inside the noteheads.
    pub staff_note_names: bool,
    /// Which staves, as the settings file spells it.
    pub staff_set: String,
    /// The user's own stack of clefs, if they have one, ready to be listed.
    pub staff_custom_label: Option<String>,
    /// Which clefs are on screen right now, by key.
    pub staff_clefs: Vec<String>,
    /// The right-click landed on the sheet music panel.
    pub staff_first: bool,
    /// The key signature, sharps positive.
    pub staff_key: i32,
    pub recorder_detached: bool,
    pub time_signature: TimeSignature,
    /// The count-in length in bars.
    pub count_in_bars: u32,
    /// Whether the count-in is written into the take.
    pub count_in_in_take: bool,
    /// The menu was opened by right-clicking the Recorder band, so the
    /// Recorder's own category comes first. This reorders, it does not filter.
    pub recorder_first: bool,
    /// The live count-in, in beats.
    pub count_in_beats: u32,
    pub metronome_on: bool,
    pub metronome_in_take: bool,
    /// The running clock is hidden while recording.
    pub hide_elapsed: bool,
    /// What the host allows. Rows whose action needs something the host does
    /// not have are not shown.
    pub caps: Caps,
    pub lists: Lists,
}

/// What the menu is painted in.
#[derive(Clone, Copy, PartialEq, Eq, Debug, Structural)]
pub struct MenuColors {
    pub bg: Rgb,
    pub text: Rgb,
    pub sel: Rgb,
    pub sep: Rgb,
}

/// Ivory on black, or black on ivory.
pub fn colors(dark_mode: bool) -> (r: MenuColors)
    ensures
        dark_mode ==> r == (MenuColors {
            bg: Rgb::of(0x00, 0x00, 0x00),
            text: Rgb::of(0xE8, 0xDC, 0xC0),
            sel: Rgb::of(0x1a, 0x1a, 0x1a),
            sep: Rgb::of(0xE8, 0xDC, 0xC0),
        }),
        !dark_mode ==> r == (MenuColors {
            bg: Rgb::of(0xE8, 0xDC, 0xC0),
            text: Rgb::of(0x00, 0x00, 0x00),
            sel: Rgb::of(0xd4, 0xc8, 0xb0),
            sep: Rgb::of(0x00, 0x00, 0x00),
        }),
{
    if dark_mode {
        MenuColors {
            bg: Rgb::new(0x00, 0x00, 0x00),
            text: Rgb::new(0xE8, 0xDC, 0xC0),
            sel: Rgb::new(0x1a, 0x1a, 0x1a),
            sep: Rgb::new(0xE8, 0xDC, 0xC0),
        }
    } else {
        MenuColors {
            bg: Rgb::new(0xE8, 0xDC, 0xC0),
            text: Rgb::new(0x00, 0x00, 0x00),
            sel: Rgb::new(0xd4, 0xc8, 0xb0),
            sep: Rgb::new(0x00, 0x00, 0x00),
        }
    }
}

} // verus!
