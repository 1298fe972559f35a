//! Where notes and pictures come from, when the app is the one choosing.
//!
//! The traits are for a host to implement: a desktop opens devices, a plugin is
//! handed its notes and implements none of them.

use crate::midi_event::MidiEvent;
use vstd::prelude::*;

verus! {

/// The sending half of a channel, carried to whoever opens a port.
#[verifier::external_type_specification]
#[verifier::external_body]
#[verifier::reject_recursive_types(T)]
pub struct ExSender<T>(std::sync::mpsc::Sender<T>);

/// A path on this system, carried to whoever raises a panel.
#[verifier::external_type_specification]
#[verifier::external_body]
pub struct ExPathBuf(std::path::PathBuf);

/// A device the user can pick from a list. The uid is what is kept; the name is
/// what is drawn, and two devices may share it.
#[derive(Debug, Clone, PartialEq, Eq)]
pub struct DeviceInfo {
    /// Stable, opaque, platform-supplied. Never shown to the user.
    pub uid: String,
    /// What the user calls it.
    pub name: String,
    /// The one the platform would pick if nobody chose.
    pub default: bool,
}

/// A source of capture devices: cameras, or audio inputs.
pub trait CaptureDevices: Send {
    /// Everything present right now.
    fn list(&self) -> Vec<DeviceInfo>;

    /// Open this device by uid, closing whatever was open. `Err` carries a
    /// message written for the user. An empty uid closes and selects nothing.
    fn open(&mut self, uid: &str) -> Result<(), String>;

    /// The uid currently open, if any.
    fn current(&self) -> Option<String>;

    /// The name of the device currently open, if any.
    fn current_name(&self) -> Option<String>;
}

/// What the audio system itself can be asked. Asked once when a panel opens,
/// not every frame.
pub trait AudioSetup: Send {
    /// Every audio system this build can open, in the backend's own order.
    fn systems(&self) -> Vec<String>;

    /// The rates the selected input device will open at. Empty when nothing is
    /// selected or the device cannot be reached.
    fn rates(&self) -> Vec<u32>;

    /// How many inputs the selected device has. 0 when nothing is selected.
    fn input_channels(&self) -> u16;

    /// Which input, or pair of inputs, is being recorded, counted from zero.
    /// `None` is the whole device, and a pair need not be in order.
    fn channels(&self) -> Option<(u16, Option<u16>)>;

    /// Record this input, this pair, or the whole device.
    fn set_channels(&mut self, pick: Option<(u16, Option<u16>)>);
}

/// A folder the app has asked the host to choose. The host raises its panel
/// after the frame; a plugin refuses by never looking.
#[derive(Debug, Clone, PartialEq, Eq)]
pub struct DirRequest {
    /// Where the picker should open. `None` means the platform decides.
    pub start_at: Option<std::path::PathBuf>,
    pub title: String,
    /// What the chosen folder is for.
    pub purpose: DirPurpose,
}

/// A file the app has asked the host to choose.
#[derive(Debug, Clone, PartialEq, Eq)]
pub struct FileRequest {
    pub start_at: Option<std::path::PathBuf>,
    pub title: String,
    /// Extensions to offer, without dots. Empty means every file.
    pub extensions: Vec<String>,
    pub extension_label: String,
    pub purpose: FilePurpose,
}

/// One parameter whose values are named rather than continuous.
#[derive(Debug, Clone, PartialEq, Eq, Default)]
pub struct ChoiceParam {
    /// The settings key.
    pub key: String,
    /// Key and label, in the order a row steps through them.
    pub options: Vec<(String, String)>,
    /// Which option applies when the settings say nothing.
    pub default: String,
}

/// One editable parameter of a patch: a row with a name and a number in it.
#[derive(Debug, Clone, PartialEq, Eq)]
pub struct PatchParam {
    pub name: String,
    pub value: i32,
    pub max: i32,
    /// Names for each value, when the parameter is a choice. Empty means a
    /// plain number.
    pub choices: Vec<String>,
    /// A word after the number.
    pub unit: String,
}

/// One page of the patch editor.
#[derive(Debug, Clone, Default, PartialEq, Eq)]
pub struct PatchGroup {
    pub title: String,
    pub params: Vec<PatchParam>,
}

/// Everything the patch editor shows.
#[derive(Debug, Clone, Default, PartialEq, Eq)]
pub struct PatchEdit {
    pub name: String,
    /// Counted from zero, shown from one.
    pub algorithm: usize,
    /// Where each operator's output goes: 0 is the speaker, 1 to 6 is the
    /// operator it modulates.
    pub routing: [u8; 6],
    /// Which operator the feedback loop is taken from, counted from one.
    pub feedback_op: u8,
    pub groups: Vec<PatchGroup>,
    /// Where a Save would write. Empty until the host knows.
    pub bank_path: String,
}

/// What the host found in a cartridge: names, not voices.
#[derive(Debug, Clone, Default, PartialEq, Eq)]
pub struct CartridgeInfo {
    /// What the cartridge calls itself. Empty means none is loaded.
    pub bank: String,
    /// It failed its own checksum. Loaded anyway; worth showing.
    pub bad_checksum: bool,
    /// The patch names, in cartridge order.
    pub voices: Vec<String>,
    /// Why the last attempt failed, if it did.
    pub error: String,
}

/// Why a file is being asked for.
#[derive(Debug, Clone, Copy, PartialEq, Eq, Structural)]
pub enum FilePurpose {
    /// A cartridge to load into the built-in FM instrument.
    Cartridge,
    /// An audio file to play along to.
    BackingTrack,
}

/// Why a folder is being asked for.
#[derive(Debug, Clone, Copy, PartialEq, Eq, Structural)]
pub enum DirPurpose {
    /// Where takes are written.
    RecordRoot,
    /// Another place to look for plugins.
    PluginFolder,
}

/// A source of MIDI the app picks for itself.
pub trait MidiPorts: Send {
    /// Every input port that could be opened, right now.
    fn list(&self) -> Vec<String>;

    /// Open this port, closing whatever was open. `Err` carries a message meant
    /// for the user.
    fn connect(&mut self, name: &str, tx: std::sync::mpsc::Sender<MidiEvent>) -> Result<
        (),
        String,
    >;

    /// The port currently open, if any.
    fn current(&self) -> Option<String>;
}

} // verus!
