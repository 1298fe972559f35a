//! The export dialog: what one take writes, and what a finished take can still
//! be turned into.

use super::DialogAction;
use crate::recorder::{DisplayShows, ExportSpec, Resolution, TempoBits, VideoMode, MAX_BPM, MIN_BPM};
use crate::settings::Settings;
use crate::text;
use vstd::prelude::*;

verus! {

/// `spec` as it can be made with the camera, which is as it stands, or without
/// it: every video collapses to the one that can still be made, the display's,
/// and to none at all when there is nothing on the display.
pub open spec fn brought_down(spec: ExportSpec, camera: bool) -> ExportSpec {
    if camera {
        spec
    } else {
        let composite = crate::recorder::Composite { camera: false, ..spec.composite };
        ExportSpec {
            composite,
            video: if spec.video == VideoMode::NoVideo {
                VideoMode::NoVideo
            } else if spec.composite.display && spec.composite.shows.something() {
                VideoMode::Composite
            } else {
                VideoMode::NoVideo
            },
            ..spec
        }
    }
}

/// What a take can still be turned into after it has been recorded.
///
/// Camera frames are composited and encoded while the take runs and nothing
/// keeps them, so nothing that contains the camera can be made again. The tempo
/// mark is a file edit, and a display-only video is replayed from the MIDI.
#[derive(Debug, Clone, Copy, PartialEq, Eq)]
pub struct Rederivable {
    /// The camera tick, and "Match camera".
    pub camera: bool,
    /// The composite layout.
    pub layout: bool,
    /// The display layer and which panels are in it.
    pub display: bool,
    /// The tempo mark.
    pub tempo: bool,
    /// Why something is greyed. `None` when nothing is.
    pub why: Option<&'static str>,
}

impl Rederivable {
    /// Nothing has happened yet, so nothing is fixed.
    pub open spec fn is_everything(self) -> bool {
        self.camera && self.layout && self.display && self.tempo && self.why is None
    }

    /// Before a take.
    pub fn everything() -> (r: Rederivable)
        ensures
            r.is_everything(),
    {
        Rederivable { camera: true, layout: true, display: true, tempo: true, why: None }
    }

    /// `spec` brought down to what can still be made.
    pub open spec fn settled(self, spec: ExportSpec) -> ExportSpec {
        brought_down(spec, self.camera)
    }

    /// Bring a spec down to what this take can actually still produce.
    pub fn clamp(self, spec: ExportSpec) -> (r: ExportSpec)
        ensures
            r == self.settled(spec),
    {
        let mut spec = spec;
        if !self.camera {
            spec.composite.camera = false;
            if spec.video.wants_video() {
                spec.video = if spec.composite.display && spec.composite.shows.any() {
                    VideoMode::Composite
                } else {
                    VideoMode::NoVideo
                };
            }
        }
        spec
    }
}

/// Why the camera and the layout of a finished take are settled.
pub open spec fn settled_because(had_camera: bool) -> Seq<char> {
    if had_camera {
        "This take's camera was composited and encoded as it ran, in the layout chosen then, and the frames were never kept — Tangent has no decoder to read them back. So the camera and the layout are settled now. The tempo mark, and a display-only video in any panel selection, can still be re-made from the recorded MIDI."@
    } else {
        "This take was recorded without the camera, and it can never gain one: camera frames are composited and encoded while the take runs and nothing keeps them. The tempo mark, and a display-only video in any panel selection, can still be re-made from the recorded MIDI."@
    }
}

/// The rule, in one place: before a take everything is open; after one the
/// camera and the layout are settled, whether or not there was a camera.
pub fn rederivable(post_take: bool, had_camera: bool) -> (r: Rederivable)
    ensures
        !post_take ==> r.is_everything(),
        post_take ==> !r.camera && !r.layout && r.display && r.tempo && r.why is Some && r.why->0@
            == settled_because(had_camera),
{
    if !post_take {
        return Rederivable::everything();
    }
    Rederivable {
        camera: false,
        layout: false,
        display: true,
        tempo: true,
        why: Some(
            if had_camera {
                "This take's camera was composited and encoded as it ran, in the layout chosen then, and the frames were never kept — Tangent has no decoder to read them back. So the camera and the layout are settled now. The tempo mark, and a display-only video in any panel selection, can still be re-made from the recorded MIDI."
            } else {
                "This take was recorded without the camera, and it can never gain one: camera frames are composited and encoded while the take runs and nothing keeps them. The tempo mark, and a display-only video in any panel selection, can still be re-made from the recorded MIDI."
            },
        ),
    }
}

/// A finished take can never gain the camera, and what it is brought down to
/// can be written whenever there is anything to write.
pub proof fn a_finished_take_never_gains_the_camera(can: Rederivable, spec: ExportSpec)
    requires
        !can.camera,
    ensures
        !can.settled(spec).composite.camera,
        spec.audio || spec.midi ==> can.settled(spec).sound(),
        can.settled(spec).video != VideoMode::NoVideo ==> can.settled(spec).video
            == VideoMode::Composite && can.settled(spec).composite.display,
{
}

/// Bringing a spec down twice is bringing it down once.
pub proof fn settling_twice_changes_nothing(can: Rederivable, spec: ExportSpec)
    ensures
        can.settled(can.settled(spec)) == can.settled(spec),
{
}

/// Before a take nothing is changed.
pub proof fn before_a_take_nothing_is_settled(can: Rederivable, spec: ExportSpec)
    requires
        can.is_everything(),
    ensures
        can.settled(spec) == spec,
{
}

/// Seed "Display shows" from the panels on screen. The piano and the chord are
/// never off, and the theory band is one panel however many diagrams are in it.
pub fn shows_from_settings(s: &Settings) -> (r: DisplayShows)
    ensures
        r == (DisplayShows {
            piano: true,
            chord: true,
            fretboard: s.show_fretboard,
            theory: s.theory_circle || s.theory_tonnetz || s.theory_triangles,
        }),
{
    DisplayShows {
        piano: true,
        chord: true,
        fretboard: s.show_fretboard,
        theory: s.theory_views().any(),
    }
}

// ── The tempo mark ─────────────────────────────────────────────────────────
/// A tempo mark in range. Infinities, negative numbers and what is no number at
/// all have larger bits than three hundred has.
pub open spec fn tempo_in_range(bits: TempoBits) -> bool {
    MIN_BPM <= bits <= MAX_BPM
}

/// The tempo a text stands for, given the number it reads as, or what is wrong
/// with it. It is refused, never clamped: a field that turned a typed 400 into
/// 300 would be lying.
pub open spec fn tempo_reading(text: Seq<char>, number: Option<TempoBits>) -> Result<
    TempoBits,
    Seq<char>,
> {
    let s = crate::text::trimmed(text);
    if s.len() == 0 {
        Err("The tempo mark is a number of beats per minute, like 120."@)
    } else {
        match number {
            None => Err("\""@ + s + "\" is not a tempo. Type a number, like 120."@),
            Some(bits) => if tempo_in_range(bits) {
                Ok(bits)
            } else {
                Err(
                    "A tempo mark runs from 20 to 300 BPM. It does not move a single note — it decides where a DAW's bar lines land."@,
                )
            },
        }
    }
}

/// Read a tempo mark. `number` is the number that the trimmed text reads as, if
/// it reads as one.
pub fn parse_bpm(text: &str, number: Option<TempoBits>) -> (r: Result<TempoBits, String>)
    ensures
        match (r, tempo_reading(text@, number)) {
            (Ok(a), Ok(b)) => a == b,
            (Err(a), Err(b)) => a@ == b,
            _ => false,
        },
{
    let s = text::trim(text);
    if s.as_str().is_empty() {
        return Err("The tempo mark is a number of beats per minute, like 120.".to_owned());
    }
    let bits: TempoBits = match number {
        Some(bits) => bits,
        None => {
            let mut m = text::join("\"", s.as_str());
            m.append("\" is not a tempo. Type a number, like 120.");
            return Err(m);
        },
    };
    if bits < MIN_BPM || bits > MAX_BPM {
        return Err(
            "A tempo mark runs from 20 to 300 BPM. It does not move a single note — it decides where a DAW's bar lines land.".to_owned(),
        );
    }
    Ok(bits)
}

// ── Committing ─────────────────────────────────────────────────────────────
/// What committing gives: the spec with the tempo on screen, or the first
/// reason against it. Without MIDI there is no file to write a tempo into, so
/// the field has no say.
pub open spec fn commit(
    spec: ExportSpec,
    tempo_text: Seq<char>,
    number: Option<TempoBits>,
) -> Result<ExportSpec, Seq<char>> {
    let tempo = if spec.midi {
        tempo_reading(tempo_text, number)
    } else {
        Ok(spec.tempo_bpm)
    };
    match tempo {
        Err(words) => Err(words),
        Ok(tempo_bpm) => {
            let out = ExportSpec { tempo_bpm, ..spec };
            match out.trouble() {
                Some(p) => Err(p.words()),
                None => Ok(out),
            }
        },
    }
}

/// Build the spec the dialog is currently describing, or say why not. The
/// Export button and the action both come through here.
pub fn export_ready(spec: &ExportSpec, tempo_text: &str, number: Option<TempoBits>) -> (r: Result<
    ExportSpec,
    String,
>)
    ensures
        match (r, commit(*spec, tempo_text@, number)) {
            (Ok(a), Ok(b)) => a == b,
            (Err(a), Err(b)) => a@ == b,
            _ => false,
        },
{
    let tempo_bpm: TempoBits = if spec.midi {
        match parse_bpm(tempo_text, number) {
            Ok(bits) => bits,
            Err(words) => {
                return Err(words);
            },
        }
    } else {
        spec.tempo_bpm
    };
    let out = ExportSpec { tempo_bpm, ..*spec };
    match out.problem() {
        Some(p) => Err(p.message().to_owned()),
        None => Ok(out),
    }
}

/// Nothing is committed that the recorder would refuse, nothing but the tempo
/// is altered on the way, and what is committed has its tempo in range.
pub proof fn only_sound_specs_are_committed(
    spec: ExportSpec,
    tempo_text: Seq<char>,
    number: Option<TempoBits>,
)
    ensures
        commit(spec, tempo_text, number) matches Ok(out) ==> {
            &&& out.sound()
            &&& out == (ExportSpec { tempo_bpm: out.tempo_bpm, ..spec })
            &&& spec.midi ==> tempo_in_range(out.tempo_bpm)
            &&& !spec.midi ==> out == spec
        },
        !spec.sound() ==> commit(spec, tempo_text, number) is Err,
        spec.sound() && (spec.midi ==> tempo_reading(tempo_text, number) is Ok) ==> commit(
            spec,
            tempo_text,
            number,
        ) is Ok,
{
}

/// A dialog that is opened and confirmed unchanged commits the spec it was
/// opened on, as long as the text still reads as its tempo.
pub proof fn an_untouched_spec_is_committed_unchanged(
    spec: ExportSpec,
    tempo_text: Seq<char>,
)
    requires
        spec.sound(),
        tempo_in_range(spec.tempo_bpm),
        crate::text::trimmed(tempo_text).len() > 0,
    ensures
        commit(spec, tempo_text, Some(spec.tempo_bpm)) == Ok::<ExportSpec, Seq<char>>(spec),
{
}

/// Which action a commit is: the tick decides whether it is kept.
pub fn export_action(spec: ExportSpec, remember: bool) -> (r: DialogAction)
    ensures
        r == (if remember {
            DialogAction::SetExportAndRemember(spec)
        } else {
            DialogAction::SetExport(spec)
        }),
{
    if remember {
        DialogAction::SetExportAndRemember(spec)
    } else {
        DialogAction::SetExport(spec)
    }
}

// ── What is live ───────────────────────────────────────────────────────────
/// Which controls of the dialog do anything.
#[derive(Debug, Clone, Copy, PartialEq, Eq, Structural)]
pub struct ExportControls {
    pub tempo: bool,
    /// The modes that make a video; the one that makes none is always live.
    pub video_modes: bool,
    pub camera: bool,
    pub display: bool,
    pub audio: bool,
    pub layout: bool,
    pub shows: bool,
    pub match_camera: bool,
    pub resolution: bool,
    pub fps: bool,
}

/// A control is live while what it is about is being made and can still be.
pub fn export_controls(spec: &ExportSpec, can: Rederivable, video_ready: bool) -> (r:
    ExportControls)
    ensures
        ({
            let video = spec.video != VideoMode::NoVideo;
            r == (ExportControls {
                tempo: can.tempo && spec.midi,
                video_modes: video_ready,
                camera: video && can.camera,
                display: video,
                audio: video,
                layout: spec.video.composes() && can.layout,
                shows: video && spec.composite.display && can.display,
                match_camera: video && can.camera,
                resolution: video,
                fps: video,
            })
        }),
{
    let video_on = spec.video.wants_video();
    let composite_on = spec.video.has_composite();
    ExportControls {
        tempo: can.tempo && spec.midi,
        video_modes: video_ready,
        camera: video_on && can.camera,
        display: video_on,
        audio: video_on,
        layout: composite_on && can.layout,
        shows: video_on && spec.composite.display && can.display,
        match_camera: video_on && can.camera,
        resolution: video_on,
        fps: video_on,
    }
}

impl ExportControls {
    /// Whether a resolution can be chosen: matching the camera needs one.
    pub fn offers(&self, resolution: Resolution) -> (r: bool)
        ensures
            r == (if resolution == Resolution::MatchCamera {
                self.match_camera
            } else {
                self.resolution
            }),
    {
        match resolution {
            Resolution::MatchCamera => self.match_camera,
            _ => self.resolution,
        }
    }
}

// ── The footer ─────────────────────────────────────────────────────────────
pub open spec fn encoder_words(n: int) -> Seq<char> {
    if n == 0 {
        "no video encoder"@
    } else if n == 1 {
        "1 video encoder"@
    } else {
        crate::text::decimal(n as nat) + " video encoders"@
    }
}

/// What this take costs, in disk and in CPU. The rates arrive rounded:
/// megabytes a minute, and tenths of a gigabyte an hour.
pub fn estimate_line(spec: &ExportSpec, megabytes: u64, tenths_of_gigabytes: u64) -> (r: String)
    ensures
        r@ == "~"@ + crate::text::decimal(megabytes as nat) + " MB a minute, about "@
            + crate::text::decimal((tenths_of_gigabytes / 10) as nat) + "."@ + crate::text::decimal(
            (tenths_of_gigabytes % 10) as nat,
        ) + " GB an hour, "@ + encoder_words(spec.encoders()) + "."@,
{
    let count: usize = spec.encoder_count();
    let encoders = if count == 0 {
        "no video encoder".to_owned()
    } else if count == 1 {
        "1 video encoder".to_owned()
    } else {
        text::join(text::number(count as u64).as_str(), " video encoders")
    };
    let mut m = text::join("~", text::number(megabytes).as_str());
    m.append(" MB a minute, about ");
    m.append(text::number(tenths_of_gigabytes / 10).as_str());
    m.append(".");
    m.append(text::number(tenths_of_gigabytes % 10).as_str());
    m.append(" GB an hour, ");
    m.append(encoders.as_str());
    m.append(".");
    m
}

/// The system a build is for.
#[derive(Debug, Clone, Copy, PartialEq, Eq, Structural)]
pub enum Platform {
    MacOs,
    Windows,
    Other,
}

/// What those encoders cost on the system this was built for.
pub fn encoder_note(platform: Platform) -> (r: &'static str)
    ensures
        r@ == (match platform {
            Platform::MacOs => "Video encoding here runs on VideoToolbox, so three 1080p30 streams cost the CPU almost nothing."@,
            Platform::Windows => "Video encoding here runs on Media Foundation, so three 1080p30 streams cost the CPU almost nothing."@,
            Platform::Other => "Video encoding here is a software encoder: every stream is real CPU, and three 1080p30 streams will be felt while you play."@,
        }),
{
    match platform {
        Platform::MacOs => "Video encoding here runs on VideoToolbox, so three 1080p30 streams cost the CPU almost nothing.",
        Platform::Windows => "Video encoding here runs on Media Foundation, so three 1080p30 streams cost the CPU almost nothing.",
        Platform::Other => "Video encoding here is a software encoder: every stream is real CPU, and three 1080p30 streams will be felt while you play.",
    }
}

} // verus!
