//! What a take is, as far as the interface has to know.

use vstd::prelude::*;

verus! {

/// How many beats a bar has, and what one beat is worth.
#[derive(Clone, Copy, PartialEq, Eq, Debug, Structural)]
pub struct TimeSignature {
    pub beats: u8,
    pub unit: u8,
}

impl Default for TimeSignature {
    fn default() -> (r: TimeSignature)
        ensures
            r == (TimeSignature { beats: 4, unit: 4 }),
    {
        TimeSignature { beats: 4, unit: 4 }
    }
}

/// The count-in lengths on offer, in beats.
pub const COUNT_IN_CHOICES: [u32; 3] = [0, 4, 8];

// ── What a take writes ─────────────────────────────────────────────────────
/// Which video files a take makes.
#[derive(Clone, Copy, PartialEq, Eq, Debug, Structural)]
pub enum VideoMode {
    NoVideo,
    /// One video with everything in it.
    Composite,
    /// One video for each source.
    Separate,
    Both,
}

impl VideoMode {
    pub fn wants_video(self) -> (r: bool)
        ensures
            r == (self != VideoMode::NoVideo),
    {
        !matches!(self, VideoMode::NoVideo)
    }

    pub open spec fn composes(self) -> bool {
        self == VideoMode::Composite || self == VideoMode::Both
    }

    pub open spec fn separates(self) -> bool {
        self == VideoMode::Separate || self == VideoMode::Both
    }

    pub fn has_composite(self) -> (r: bool)
        ensures
            r == self.composes(),
    {
        matches!(self, VideoMode::Composite | VideoMode::Both)
    }
}

/// Which panels the display layer of a video draws.
#[derive(Clone, Copy, PartialEq, Eq, Debug, Structural)]
pub struct DisplayShows {
    pub piano: bool,
    pub chord: bool,
    pub fretboard: bool,
    pub theory: bool,
}

impl DisplayShows {
    pub open spec fn something(self) -> bool {
        self.piano || self.chord || self.fretboard || self.theory
    }

    pub fn any(self) -> (r: bool)
        ensures
            r == self.something(),
    {
        self.piano || self.chord || self.fretboard || self.theory
    }
}

impl Default for DisplayShows {
    /// The panels that are never off.
    fn default() -> (r: DisplayShows)
        ensures
            r == (DisplayShows { piano: true, chord: true, fretboard: false, theory: false }),
    {
        DisplayShows { piano: true, chord: true, fretboard: false, theory: false }
    }
}

/// How camera and display share one frame.
#[derive(Clone, Copy, PartialEq, Eq, Debug, Structural)]
pub enum Layout {
    /// Camera full frame, display overlaid.
    CameraFull,
    SideBySide,
}

/// What a video is made of.
#[derive(Clone, Copy, PartialEq, Eq, Debug, Structural)]
pub struct Composite {
    pub camera: bool,
    pub display: bool,
    pub audio: bool,
    pub layout: Layout,
    pub shows: DisplayShows,
}

impl Composite {
    pub open spec fn usual() -> Composite {
        Composite {
            camera: true,
            display: true,
            audio: true,
            layout: Layout::CameraFull,
            shows: DisplayShows { piano: true, chord: true, fretboard: false, theory: false },
        }
    }
}

impl Default for Composite {
    fn default() -> (r: Composite)
        ensures
            r == Composite::usual(),
    {
        Composite {
            camera: true,
            display: true,
            audio: true,
            layout: Layout::CameraFull,
            shows: DisplayShows::default(),
        }
    }
}

/// The size of a video's frame.
#[derive(Clone, Copy, PartialEq, Eq, Debug, Structural)]
pub enum Resolution {
    MatchCamera,
    Fixed { width: u32, height: u32 },
}

/// A tempo mark, as the bits of the number of beats per minute. Numbers that
/// are not negative are ordered as their bits are.
pub type TempoBits = u64;

/// Twenty beats per minute.
pub const MIN_BPM: TempoBits = 0x4034_0000_0000_0000;

/// Three hundred beats per minute.
pub const MAX_BPM: TempoBits = 0x4072_C000_0000_0000;

/// A hundred and twenty beats per minute.
pub const USUAL_BPM: TempoBits = 0x405E_0000_0000_0000;

/// What one take writes.
#[derive(Clone, Copy, PartialEq, Eq, Debug, Structural)]
pub struct ExportSpec {
    pub audio: bool,
    pub midi: bool,
    /// The tempo mark written into the MIDI file.
    pub tempo_bpm: TempoBits,
    pub video: VideoMode,
    pub composite: Composite,
    pub resolution: Resolution,
    pub fps: u32,
}

impl Default for ExportSpec {
    /// The audio and the MIDI, and no video.
    fn default() -> (r: ExportSpec)
        ensures
            r == (ExportSpec {
                audio: true,
                midi: true,
                tempo_bpm: USUAL_BPM,
                video: VideoMode::NoVideo,
                composite: Composite::usual(),
                resolution: Resolution::MatchCamera,
                fps: 30,
            }),
            r.sound(),
    {
        ExportSpec {
            audio: true,
            midi: true,
            tempo_bpm: USUAL_BPM,
            video: VideoMode::NoVideo,
            composite: Composite::default(),
            resolution: Resolution::MatchCamera,
            fps: 30,
        }
    }
}

/// Why a spec cannot be a take.
#[derive(Clone, Copy, PartialEq, Eq, Debug, Structural)]
pub enum SpecProblem {
    /// Neither the audio nor the MIDI.
    NothingToWrite,
    /// A video with neither camera nor display in it.
    NothingInTheVideo,
    /// A display with no panel in it.
    NothingOnTheDisplay,
}

impl SpecProblem {
    pub open spec fn words(self) -> Seq<char> {
        match self {
            SpecProblem::NothingToWrite => "A take has to write its audio or its MIDI. Tick at least one of the two."@,
            SpecProblem::NothingInTheVideo => "A video needs the camera or Tangent's display in it. Tick one, or turn the video off."@,
            SpecProblem::NothingOnTheDisplay => "The display has no panel in it. Tick one, or take the display out of the video."@,
        }
    }

    pub fn message(self) -> (r: &'static str)
        ensures
            r@ == self.words(),
    {
        match self {
            SpecProblem::NothingToWrite => "A take has to write its audio or its MIDI. Tick at least one of the two.",
            SpecProblem::NothingInTheVideo => "A video needs the camera or Tangent's display in it. Tick one, or turn the video off.",
            SpecProblem::NothingOnTheDisplay => "The display has no panel in it. Tick one, or take the display out of the video.",
        }
    }
}

impl ExportSpec {
    /// The first thing that keeps this from being a take.
    pub open spec fn trouble(self) -> Option<SpecProblem> {
        if !self.audio && !self.midi {
            Some(SpecProblem::NothingToWrite)
        } else if self.video == VideoMode::NoVideo {
            None
        } else if !self.composite.camera && !self.composite.display {
            Some(SpecProblem::NothingInTheVideo)
        } else if self.composite.display && !self.composite.shows.something() {
            Some(SpecProblem::NothingOnTheDisplay)
        } else {
            None
        }
    }

    pub open spec fn sound(self) -> bool {
        self.trouble() is None
    }

    pub fn problem(&self) -> (r: Option<SpecProblem>)
        ensures
            r == self.trouble(),
    {
        if !self.audio && !self.midi {
            return Some(SpecProblem::NothingToWrite);
        }
        if !self.video.wants_video() {
            return None;
        }
        if !self.composite.camera && !self.composite.display {
            return Some(SpecProblem::NothingInTheVideo);
        }
        if self.composite.display && !self.composite.shows.any() {
            return Some(SpecProblem::NothingOnTheDisplay);
        }
        None
    }

    pub fn is_valid(&self) -> (r: bool)
        ensures
            r == self.sound(),
    {
        self.problem().is_none()
    }

    /// How many video encoders run at once: one for the composite, and one for
    /// each source that gets a file of its own.
    pub open spec fn encoders(self) -> int {
        let composite: int = if self.video.composes() {
            1
        } else {
            0
        };
        let camera: int = if self.video.separates() && self.composite.camera {
            1
        } else {
            0
        };
        let display: int = if self.video.separates() && self.composite.display {
            1
        } else {
            0
        };
        composite + camera + display
    }

    pub fn encoder_count(&self) -> (r: usize)
        ensures
            r == self.encoders(),
    {
        let mut n: usize = 0;
        if self.video.has_composite() {
            n = n + 1;
        }
        let separate = matches!(self.video, VideoMode::Separate | VideoMode::Both);
        if separate && self.composite.camera {
            n = n + 1;
        }
        if separate && self.composite.display {
            n = n + 1;
        }
        n
    }
}

// ── The desk ───────────────────────────────────────────────────────────────
/// How many general channels there are.
pub const CHANNELS: usize = 8;

/// How many insert slots a channel has.
pub const INSERTS: usize = 3;

/// Which column of the desk something is drawn in.
#[derive(Clone, Copy, PartialEq, Eq, Debug, Structural)]
pub struct Column(pub usize);

/// What feeds a general channel.
#[derive(Clone, Copy, PartialEq, Eq, Debug, Structural)]
pub enum ChannelKind {
    Midi,
    Audio,
}

/// One source on the desk.
#[derive(Clone, Copy, PartialEq, Eq, Debug, Structural)]
pub enum Strip {
    Channel(usize),
    /// The backing track.
    Track,
    /// The metronome.
    Click,
    /// The effects return.
    Fx,
}

impl Strip {
    /// Whether some of it can be sent to the effects. A bus that can feed itself
    /// is a bus that howls, and a metronome in the reverb is not a thing.
    pub open spec fn feeds_effects(self) -> bool {
        self is Channel || self is Track
    }

    /// The place a strip has in the desk's arrays.
    pub open spec fn place(self) -> int {
        match self {
            Strip::Channel(n) => n as int,
            Strip::Track => CHANNELS as int,
            Strip::Click => CHANNELS + 1,
            Strip::Fx => CHANNELS + 2,
        }
    }

    /// The strips that are drawn, from the left: the channels, the backing
    /// track and the click.
    pub open spec fn drawn() -> Seq<Strip> {
        Seq::new(CHANNELS as nat, |i: int| Strip::Channel(i as usize)).push(Strip::Track).push(
            Strip::Click,
        )
    }

    pub fn sends(self) -> (r: bool)
        ensures
            r == self.feeds_effects(),
    {
        matches!(self, Strip::Channel(_) | Strip::Track)
    }

    pub fn index(self) -> (r: usize)
        requires
            self matches Strip::Channel(n) ==> n < CHANNELS,
        ensures
            r == self.place(),
    {
        match self {
            Strip::Channel(n) => n,
            Strip::Track => CHANNELS,
            Strip::Click => CHANNELS + 1,
            Strip::Fx => CHANNELS + 2,
        }
    }

    /// Every strip that is drawn. The effects return is not.
    pub fn shown() -> (r: Vec<Strip>)
        ensures
            r@ == Strip::drawn(),
    {
        let mut out: Vec<Strip> = Vec::new();
        for i in 0..CHANNELS
            invariant
                out@ == Seq::new(i as nat, |k: int| Strip::Channel(k as usize)),
        {
            out.push(Strip::Channel(i));
            assert(out@ =~= Seq::new((i + 1) as nat, |k: int| Strip::Channel(k as usize)));
        }
        out.push(Strip::Track);
        out.push(Strip::Click);
        out
    }

    /// Every strip there is, the effects return last.
    pub fn all() -> (r: Vec<Strip>)
        ensures
            r@ == Strip::drawn().push(Strip::Fx),
    {
        let mut out = Strip::shown();
        out.push(Strip::Fx);
        out
    }
}

/// Every strip owns a place of its own, in the order they stand, so no two can
/// share a send or mute together.
pub proof fn every_strip_has_its_own_place(i: int)
    requires
        0 <= i < CHANNELS + 3,
    ensures
        Strip::drawn().push(Strip::Fx).len() == CHANNELS + 3,
        Strip::drawn().push(Strip::Fx)[i].place() == i,
{
    let all = Strip::drawn().push(Strip::Fx);
    if i < CHANNELS {
        assert(all[i] == Strip::Channel(i as usize));
    }
}

} // verus!
