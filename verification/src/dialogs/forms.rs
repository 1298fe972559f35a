//! The small dialogs: picking a device or a port, naming a chord, correcting a
//! reading, entering a key.

use super::DialogAction;
use crate::notes::{copy_notes, same_notes};
use crate::ports::DeviceInfo;
use crate::text;
use vstd::prelude::*;

verus! {

/// Which kind of device is being chosen.
#[derive(Debug, Clone, Copy, PartialEq, Eq, Structural)]
pub enum DeviceKind {
    Camera,
    AudioInput,
}

impl DeviceKind {
    pub fn title(self) -> (r: &'static str)
        ensures
            r@ == (match self {
                DeviceKind::Camera => "Select Camera"@,
                DeviceKind::AudioInput => "Select Audio Input"@,
            }),
    {
        match self {
            DeviceKind::Camera => "Select Camera",
            DeviceKind::AudioInput => "Select Audio Input",
        }
    }

    pub fn prompt(self) -> (r: &'static str)
        ensures
            r@ == (match self {
                DeviceKind::Camera => "Camera to record and preview:"@,
                DeviceKind::AudioInput => "Audio input to record:"@,
            }),
    {
        match self {
            DeviceKind::Camera => "Camera to record and preview:",
            DeviceKind::AudioInput => "Audio input to record:",
        }
    }

    /// What the row that selects nothing says: what choosing it does is the part
    /// worth spelling out.
    pub fn none_row(self) -> (r: &'static str)
        ensures
            r@ == (match self {
                DeviceKind::Camera => "None  —  record without video"@,
                DeviceKind::AudioInput => "None  —  record the instrument, not an input"@,
            }),
    {
        match self {
            DeviceKind::Camera => "None  —  record without video",
            DeviceKind::AudioInput => "None  —  record the instrument, not an input",
        }
    }

    pub fn nothing_found(self) -> (r: &'static str)
        ensures
            r@ == (match self {
                DeviceKind::Camera => "No cameras found. If one is connected, Tangent may not have been granted camera access yet — check System Settings > Privacy & Security."@,
                DeviceKind::AudioInput => "No audio inputs found. If an interface is connected, Tangent may not have been granted microphone access yet — check System Settings > Privacy & Security."@,
            }),
    {
        match self {
            DeviceKind::Camera => "No cameras found. If one is connected, Tangent may not have been granted camera access yet — check System Settings > Privacy & Security.",
            DeviceKind::AudioInput => "No audio inputs found. If an interface is connected, Tangent may not have been granted microphone access yet — check System Settings > Privacy & Security.",
        }
    }
}

// ── Devices ────────────────────────────────────────────────────────────────
/// How a device reads: the platform's own is said to be, and the live one is
/// marked.
pub open spec fn device_label(d: DeviceInfo, current: Option<String>) -> Seq<char> {
    let name = if d.default {
        d.name@ + "   (system default)"@
    } else {
        d.name@
    };
    if current is Some && current->0@ == d.uid@ {
        name + "  \u{2022}"@
    } else {
        name
    }
}

pub fn device_row(d: &DeviceInfo, current: &Option<String>) -> (r: String)
    ensures
        r@ == device_label(*d, *current),
{
    let mut label = d.name.clone();
    if d.default {
        label.append("   (system default)");
    }
    let live = match current {
        Some(uid) => text::same(uid.as_str(), d.uid.as_str()),
        None => false,
    };
    if live {
        label.append("  \u{2022}");
    }
    label
}

/// The device that is chosen, by uid. A row that is no longer there selects
/// nothing.
pub fn device_choice(kind: DeviceKind, devices: &Vec<DeviceInfo>, selected: Option<usize>) -> (r:
    DialogAction)
    ensures
        r matches DialogAction::ChooseDevice { kind: k, uid } && k == kind && (uid is Some <==> (
        selected is Some && selected->0 < devices@.len())) && (uid is Some ==> uid->0@
            == devices@[selected->0 as int].uid@),
{
    let uid = match selected {
        Some(i) if i < devices.len() => Some(devices[i].uid.clone()),
        _ => None,
    };
    DialogAction::ChooseDevice { kind, uid }
}

/// The port that is chosen, by name, if a row is.
pub fn port_choice(ports: &Vec<String>, selected: Option<usize>) -> (r: Option<DialogAction>)
    ensures
        r is Some <==> (selected is Some && selected->0 < ports@.len()),
        r matches Some(a) ==> a matches DialogAction::ConnectPort(name) && name@
            == ports@[selected->0 as int]@,
{
    match selected {
        Some(i) if i < ports.len() => Some(DialogAction::ConnectPort(ports[i].clone())),
        _ => None,
    }
}

// ── Keys and names ─────────────────────────────────────────────────────────
/// There is something in the field.
pub open spec fn is_filled(input: Seq<char>) -> bool {
    crate::text::trimmed(input).len() > 0
}

/// The key that was pasted, as it was pasted, once there is one.
pub fn license_request(input: &String) -> (r: Option<DialogAction>)
    ensures
        r is Some <==> is_filled(input@),
        r matches Some(a) ==> a matches DialogAction::InstallLicense { key } && key@ == input@,
{
    if text::trim(input.as_str()).as_str().is_empty() {
        None
    } else {
        Some(DialogAction::InstallLicense { key: input.clone() })
    }
}

/// The name that was typed, without the space around it, for the notes that
/// were held.
pub fn teach_request(notes: &Vec<u8>, input: &String, apply_all_keys: bool) -> (r: Option<
    DialogAction,
>)
    ensures
        r is Some <==> is_filled(input@),
        r matches Some(a) ==> a matches DialogAction::TeachSave {
            notes: n,
            name,
            apply_all_keys: all,
        } && n@ == notes@ && name@ == crate::text::trimmed(input@) && all == apply_all_keys,
{
    let name = text::trim(input.as_str());
    if name.as_str().is_empty() {
        None
    } else {
        Some(DialogAction::TeachSave { notes: copy_notes(notes), name, apply_all_keys })
    }
}

// ── Correcting a reading ───────────────────────────────────────────────────
/// `name` is what is being read now, with or without a bass note behind it.
pub open spec fn is_reading(current_label: Seq<char>, name: Seq<char>) -> bool {
    current_label == name || (name.is_prefix_of(current_label) && current_label.len() > name.len()
        && current_label[name.len() as int] == '/')
}

pub fn is_current_reading(current_label: &str, name: &str) -> (r: bool)
    ensures
        r == is_reading(current_label@, name@),
{
    if text::same(current_label, name) {
        return true;
    }
    if !text::starts_with(current_label, name) {
        return false;
    }
    let label = text::chars_of(current_label);
    let n: usize = name.unicode_len();
    n < label.len() && label[n] == '/'
}

/// How a candidate reads.
pub fn candidate_row(current_label: &str, name: &str) -> (r: String)
    ensures
        r@ == (if is_reading(current_label@, name@) {
            name@ + "   (current)"@
        } else {
            name@
        }),
{
    if is_current_reading(current_label, name) {
        text::join(name, "   (current)")
    } else {
        name.to_owned()
    }
}

/// The reading to train toward, if a row is selected.
pub fn correction(notes: &Vec<u8>, candidates: &Vec<String>, selected: Option<usize>) -> (r: Option<
    DialogAction,
>)
    ensures
        r is Some <==> (selected is Some && selected->0 < candidates@.len()),
        r matches Some(a) ==> a matches DialogAction::TrainCorrection { notes: n, name } && n@
            == notes@ && name@ == candidates@[selected->0 as int]@,
{
    match selected {
        Some(i) if i < candidates.len() => Some(
            DialogAction::TrainCorrection { notes: copy_notes(notes), name: candidates[i].clone() },
        ),
        _ => None,
    }
}

// ── What has been taught ───────────────────────────────────────────────────
/// A chord that has been given a name.
#[derive(Clone, Debug, PartialEq, Eq)]
pub struct TaughtChord {
    /// The intervals from the bass that it is kept under.
    pub intervals: Vec<u8>,
    pub display_name: String,
    pub voicing: String,
}

/// What has been learned. Weights are kept as they are shown.
#[derive(Clone, Debug, PartialEq, Eq)]
pub struct LearningStatus {
    pub on: bool,
    pub corrections: u32,
    pub has_learned: bool,
    /// One row per leaning that is not zero, ready to be shown.
    pub weights: Vec<String>,
}

impl LearningStatus {
    pub open spec fn forgotten(self) -> bool {
        !self.has_learned && self.corrections == 0 && self.weights@.len() == 0
    }

    /// Show at once that everything learned is gone. The switch stays as it is.
    pub fn forget(&mut self)
        ensures
            final(self).forgotten(),
            final(self).on == old(self).on,
    {
        self.has_learned = false;
        self.corrections = 0;
        self.weights = Vec::new();
    }
}

/// The rows that are kept under other intervals.
pub open spec fn without(rows: Seq<TaughtChord>, intervals: Seq<u8>) -> Seq<TaughtChord>
    decreases rows.len(),
{
    if rows.len() == 0 {
        rows
    } else {
        let above = without(rows.drop_last(), intervals);
        if rows.last().intervals@ == intervals {
            above
        } else {
            above.push(rows.last())
        }
    }
}

/// Show at once that what is kept under `intervals` is gone; the others stay in
/// their order.
pub fn delete_taught(rows: Vec<TaughtChord>, intervals: &Vec<u8>) -> (r: Vec<TaughtChord>)
    ensures
        r@ == without(rows@, intervals@),
{
    let ghost all = rows@;
    let mut kept: Vec<TaughtChord> = Vec::new();
    assert(all.take(0) =~= kept@);
    for row in it: rows
        invariant
            it.seq() == all,
            kept@ == without(all.take(it.index() as int), intervals@),
    {
        let ghost k = it.index() as int;
        assert(all.take(k + 1).drop_last() =~= all.take(k));
        if !same_notes(&row.intervals, intervals) {
            kept.push(row);
        }
    }
    assert(all.take(all.len() as int) =~= all);
    kept
}

/// Deleting leaves nothing under those intervals and touches nothing else.
pub proof fn deleting_removes_exactly_that(
    rows: Seq<TaughtChord>,
    intervals: Seq<u8>,
    row: TaughtChord,
)
    ensures
        without(rows, intervals).contains(row) <==> rows.contains(row) && row.intervals@
            != intervals,
    decreases rows.len(),
{
    if rows.len() > 0 {
        let rest = rows.drop_last();
        let above = without(rest, intervals);
        deleting_removes_exactly_that(rest, intervals, row);
        let out = without(rows, intervals);
        if rest.contains(row) {
            let k = choose|k: int| 0 <= k < rest.len() && rest[k] == row;
            assert(rows[k] == row);
        }
        if rows.contains(row) && !rest.contains(row) {
            let k = choose|k: int| 0 <= k < rows.len() && rows[k] == row;
            if k < rest.len() {
                assert(rest[k] == row);
            }
            assert(rows.last() == row);
        }
        if above.contains(row) {
            let k = choose|k: int| 0 <= k < above.len() && above[k] == row;
            assert(out[k] == row);
        }
        if out.contains(row) && !above.contains(row) {
            let k = choose|k: int| 0 <= k < out.len() && out[k] == row;
            if k < above.len() {
                assert(above[k] == row);
            }
            assert(rows.last() == row);
        }
        if rows.last() == row {
            assert(rows[rows.len() - 1] == row);
            if row.intervals@ != intervals {
                assert(out[above.len() as int] == row);
            }
        }
    }
}

/// The line that says whether chords are being learned.
pub fn learning_line(learning: &LearningStatus) -> (r: String)
    ensures
        r@ == "Chord learning: "@ + (if learning.on {
            "ON"@
        } else {
            "off"@
        }) + "  ("@ + crate::text::decimal(learning.corrections as nat) + " correction"@ + (
        if learning.corrections == 1 {
            ""@
        } else {
            "s"@
        }) + ")"@,
{
    let mut m = text::join(
        "Chord learning: ",
        if learning.on {
            "ON"
        } else {
            "off"
        },
    );
    m.append("  (");
    m.append(text::number(learning.corrections as u64).as_str());
    m.append(" correction");
    m.append(
        if learning.corrections == 1 {
            ""
        } else {
            "s"
        },
    );
    m.append(")");
    m
}

} // verus!
