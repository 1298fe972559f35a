//! Exporting: what a take writes, what a finished one can still become, and what
//! the dialog asks and says.

use crate::dialogs::{
    encoder_note, estimate_line, export_action, export_controls, export_ready, parse_bpm,
    rederivable, shows_from_settings, Dialog, DialogAction, ExportControls, Platform, Rederivable,
};
use crate::recorder::{
    DisplayShows, ExportSpec, Resolution, SpecProblem, TempoBits, VideoMode,
};
use crate::settings::Settings;
use crate::theory_panel::Views;
use vstd::prelude::*;

verus! {

/// The spec with nothing but its video and its camera layer changed.
pub open spec fn keeps_the_rest(spec: ExportSpec, r: ExportSpec) -> bool {
    &&& r.audio == spec.audio
    &&& r.midi == spec.midi
    &&& r.tempo_bpm == spec.tempo_bpm
    &&& r.resolution == spec.resolution
    &&& r.fps == spec.fps
    &&& r.composite.display == spec.composite.display
    &&& r.composite.audio == spec.composite.audio
    &&& r.composite.layout == spec.composite.layout
    &&& r.composite.shows == spec.composite.shows
}

/// Bringing a spec down takes out the camera and changes nothing else but the
/// video: none stays none, and any other becomes the one video that can still be
/// made, of the display, as long as there is anything on the display. Where the
/// camera can still be had nothing is changed at all.
pub proof fn only_the_camera_is_taken_out(can: Rederivable, spec: ExportSpec, r: ExportSpec)
    requires
        call_ensures(Rederivable::clamp, (can, spec), r),
    ensures
        keeps_the_rest(spec, r),
        can.camera ==> r.video == spec.video && r.composite.camera == spec.composite.camera,
        !can.camera ==> !r.composite.camera,
        !can.camera && spec.video == VideoMode::NoVideo ==> r.video == VideoMode::NoVideo,
        ({
            let shown = spec.composite.display && (spec.composite.shows.piano
                || spec.composite.shows.chord || spec.composite.shows.fretboard
                || spec.composite.shows.theory);
            &&& !can.camera && spec.video != VideoMode::NoVideo && shown ==> r.video
                == VideoMode::Composite
            &&& !can.camera && spec.video != VideoMode::NoVideo && !shown ==> r.video
                == VideoMode::NoVideo
        }),
{
}

/// Before a take everything can be chosen and there is nothing to explain. After
/// one the camera and the layout are settled, the display and the tempo are not,
/// and the reason says whether there was a camera.
pub proof fn a_take_settles_its_camera_and_layout(post_take: bool, had_camera: bool, r: Rederivable)
    requires
        call_ensures(rederivable, (post_take, had_camera), r),
    ensures
        r.camera == !post_take,
        r.layout == !post_take,
        r.display,
        r.tempo,
        r.why is Some <==> post_take,
        post_take && had_camera ==> r.why->0@
            == "This take's camera was composited and encoded as it ran, in the layout chosen then, and the frames were never kept — Tangent has no decoder to read them back. So the camera and the layout are settled now. The tempo mark, and a display-only video in any panel selection, can still be re-made from the recorded MIDI."@,
        post_take && !had_camera ==> r.why->0@
            == "This take was recorded without the camera, and it can never gain one: camera frames are composited and encoded while the take runs and nothing keeps them. The tempo mark, and a display-only video in any panel selection, can still be re-made from the recorded MIDI."@,
{
}

/// Before a take nothing is settled.
pub proof fn before_a_take_everything_is_open(r: Rederivable)
    requires
        call_ensures(Rederivable::everything, (), r),
    ensures
        r.camera && r.layout && r.display && r.tempo && r.why is None,
{
}

/// The dialog opens on the spec as it can still be made, remembering nothing,
/// and without a video where none can be written at all.
pub proof fn the_dialog_opens_on_what_can_be_made(
    spec: ExportSpec,
    post_take: bool,
    had_camera: bool,
    video_ready: bool,
    text: String,
    d: Dialog,
    can: Rederivable,
    down: ExportSpec,
)
    requires
        call_ensures(Dialog::export, (spec, post_take, had_camera, video_ready, text), d),
        call_ensures(rederivable, (post_take, had_camera), can),
        call_ensures(Rederivable::clamp, (can, spec), down),
    ensures
        d matches Dialog::Export { spec: s, tempo_text, remember, post_take: p, had_camera: h } && {
            &&& keeps_the_rest(spec, s)
            &&& s.composite.camera == down.composite.camera
            &&& s.video == (if video_ready {
                down.video
            } else {
                VideoMode::NoVideo
            })
            &&& tempo_text@ == text@
            &&& !remember
            &&& p == post_take
            &&& h == had_camera
        },
{
}

/// The video's panels are seeded from those on screen: the piano and the chord
/// are never off, and one diagram of any kind is the theory band.
pub proof fn the_video_starts_with_what_is_on_screen(s: Settings, r: DisplayShows, views: Views)
    requires
        call_ensures(shows_from_settings, (&s,), r),
        call_ensures(Settings::theory_views, (&s,), views),
    ensures
        r.piano && r.chord,
        r.fretboard == s.show_fretboard,
        r.theory <==> s.theory_circle || s.theory_tonnetz || s.theory_triangles,
        views.shown@.contains(crate::theory_panel::View::Circle) <==> s.theory_circle,
        views.shown@.contains(crate::theory_panel::View::Tonnetz) <==> s.theory_tonnetz,
        views.shown@.contains(crate::theory_panel::View::Triangles) <==> s.theory_triangles,
{
    let a = crate::settings::one(s.theory_circle, crate::theory_panel::View::Circle);
    let b = crate::settings::one(s.theory_tonnetz, crate::theory_panel::View::Tonnetz);
    let c = crate::settings::one(s.theory_triangles, crate::theory_panel::View::Triangles);
    let all = a + b + c;
    if s.theory_circle {
        assert(all[0] == crate::theory_panel::View::Circle);
    }
    if s.theory_tonnetz {
        assert(all[a.len() as int] == crate::theory_panel::View::Tonnetz);
    }
    if s.theory_triangles {
        assert(all[(a.len() + b.len()) as int] == crate::theory_panel::View::Triangles);
    }
    assert(forall|i: int| 0 <= i < all.len() ==> (#[trigger] all[i]) == (if i < a.len() {
        a[i]
    } else if i < a.len() + b.len() {
        b[i - a.len()]
    } else {
        c[i - a.len() - b.len()]
    }));
}

// ── The tempo ──────────────────────────────────────────────────────────────
/// The bits of twenty and of three hundred. Among numbers that are not negative
/// a larger number has larger bits.
pub open spec fn twenty_to_three_hundred(bits: TempoBits) -> bool {
    0x4034_0000_0000_0000 <= bits <= 0x4072_C000_0000_0000
}

/// A tempo is taken as it was typed when it is a number from twenty to three
/// hundred, and refused otherwise, never moved into range: a blank field, a text
/// that is no number and a number out of range are told apart.
pub proof fn a_tempo_is_refused_and_never_moved(
    text: &str,
    number: Option<TempoBits>,
    r: Result<TempoBits, String>,
)
    requires
        call_ensures(parse_bpm, (text, number), r),
    ensures
        r is Ok <==> !crate::text::all_white(text@) && number is Some && twenty_to_three_hundred(
            number->0,
        ),
        r is Ok ==> number == Some(r->Ok_0),
        crate::text::all_white(text@) ==> r->Err_0@
            == "The tempo mark is a number of beats per minute, like 120."@,
        !crate::text::all_white(text@) && number is None ==> r->Err_0@ == "\""@
            + crate::text::trimmed(text@) + "\" is not a tempo. Type a number, like 120."@,
        !crate::text::all_white(text@) && number is Some && !twenty_to_three_hundred(number->0)
            ==> r->Err_0@
            == "A tempo mark runs from 20 to 300 BPM. It does not move a single note — it decides where a DAW's bar lines land."@,
{
    crate::laws::text::only_blank_text_is_trimmed_away(text@);
}

// ── Committing ─────────────────────────────────────────────────────────────
/// A spec cannot be a take when it writes neither audio nor MIDI, when its video
/// has neither camera nor display in it, or when the display it has shows
/// nothing; and for no other reason.
pub proof fn a_take_writes_something_and_its_video_shows_something(
    s: ExportSpec,
    r: Option<SpecProblem>,
    valid: bool,
)
    requires
        call_ensures(ExportSpec::problem, (&s,), r),
        call_ensures(ExportSpec::is_valid, (&s,), valid),
    ensures
        ({
            let writes = s.audio || s.midi;
            let video = s.video != VideoMode::NoVideo;
            let shows = s.composite.shows.piano || s.composite.shows.chord
                || s.composite.shows.fretboard || s.composite.shows.theory;
            &&& r == Some(SpecProblem::NothingToWrite) <==> !writes
            &&& r == Some(SpecProblem::NothingInTheVideo) <==> writes && video
                && !s.composite.camera && !s.composite.display
            &&& r == Some(SpecProblem::NothingOnTheDisplay) <==> writes && video
                && s.composite.display && !shows
            &&& valid <==> writes && (video ==> (s.composite.camera || s.composite.display) && (
            s.composite.display ==> shows))
        }),
{
}

/// What is committed is the spec on screen with the tempo that was typed; the
/// tempo is asked only where there is a MIDI file to write it into, and it is
/// asked before the spec itself.
pub proof fn what_is_on_screen_is_what_is_committed(
    spec: ExportSpec,
    text: &str,
    number: Option<TempoBits>,
    r: Result<ExportSpec, String>,
    tempo: Result<TempoBits, String>,
    problem: Option<SpecProblem>,
    words: &'static str,
)
    requires
        call_ensures(export_ready, (&spec, text, number), r),
        call_ensures(parse_bpm, (text, number), tempo),
        call_ensures(ExportSpec::problem, (&spec,), problem),
        problem matches Some(p) ==> call_ensures(SpecProblem::message, (p,), words),
    ensures
        spec.midi && tempo is Err ==> r is Err && r->Err_0@ == tempo->Err_0@,
        (spec.midi ==> tempo is Ok) && problem is Some ==> r is Err && r->Err_0@ == words@,
        r is Ok <==> (spec.midi ==> tempo is Ok) && problem is None,
        r matches Ok(out) ==> {
            &&& keeps_the_rest((ExportSpec { tempo_bpm: out.tempo_bpm, ..spec }), out)
            &&& out.video == spec.video
            &&& out.composite.camera == spec.composite.camera
            &&& spec.midi ==> tempo == Ok::<TempoBits, String>(out.tempo_bpm)
            &&& !spec.midi ==> out.tempo_bpm == spec.tempo_bpm
        },
{
}

/// Each refusal says what to tick.
pub proof fn each_refusal_says_what_to_tick(p: SpecProblem, r: &'static str)
    requires
        call_ensures(SpecProblem::message, (p,), r),
    ensures
        p == SpecProblem::NothingToWrite ==> r@
            == "A take has to write its audio or its MIDI. Tick at least one of the two."@,
        p == SpecProblem::NothingInTheVideo ==> r@
            == "A video needs the camera or Tangent's display in it. Tick one, or turn the video off."@,
        p == SpecProblem::NothingOnTheDisplay ==> r@
            == "The display has no panel in it. Tick one, or take the display out of the video."@,
{
}

/// The tick decides whether a commit is for this session or for every take, and
/// changes nothing of what is committed.
pub proof fn the_tick_decides_what_is_remembered(spec: ExportSpec, remember: bool, r: DialogAction)
    requires
        call_ensures(export_action, (spec, remember), r),
    ensures
        r matches DialogAction::SetExportAndRemember(s) ==> remember && s == spec,
        r matches DialogAction::SetExport(s) ==> !remember && s == spec,
        r is SetExportAndRemember || r is SetExport,
{
}

/// A take as it starts out: audio and MIDI at a hundred and twenty, thirty frames
/// a second if there were a video, and no video.
pub proof fn a_fresh_spec_is_audio_and_midi(r: ExportSpec)
    requires
        call_ensures(ExportSpec::default, (), r),
    ensures
        r.audio && r.midi && r.video == VideoMode::NoVideo,
        r.tempo_bpm == 0x405E_0000_0000_0000,
        r.fps == 30,
        r.composite.camera && r.composite.display && r.composite.audio,
        r.composite.layout == crate::recorder::Layout::CameraFull,
        r.composite.shows.piano && r.composite.shows.chord,
        !r.composite.shows.fretboard && !r.composite.shows.theory,
        r.resolution == Resolution::MatchCamera,
{
}

// ── What is live ───────────────────────────────────────────────────────────
/// A control is greyed when what it is about is not being made or can no longer
/// be: the tempo without MIDI, everything of a video without one, the camera and
/// the layout once they are settled, the layout without a composite, and the
/// panels without the display.
pub proof fn a_control_is_greyed_with_what_it_is_about(
    s: ExportSpec,
    can: Rederivable,
    ready: bool,
    r: ExportControls,
    resolution: Resolution,
    offered: bool,
)
    requires
        call_ensures(export_controls, (&s, can, ready), r),
        call_ensures(ExportControls::offers, (&r, resolution), offered),
    ensures
        ({
            let video = s.video != VideoMode::NoVideo;
            &&& r.tempo <==> s.midi && can.tempo
            &&& r.video_modes <==> ready
            &&& r.display <==> video
            &&& r.audio <==> video
            &&& r.fps <==> video
            &&& r.camera <==> video && can.camera
            &&& r.layout <==> (s.video == VideoMode::Composite || s.video == VideoMode::Both)
                && can.layout
            &&& r.shows <==> video && s.composite.display && can.display
            &&& offered <==> video && (resolution == Resolution::MatchCamera ==> can.camera)
        }),
{
}

// ── What it costs ──────────────────────────────────────────────────────────
/// One encoder for the composite, and one more for each source that gets a file
/// of its own.
pub proof fn encoders_are_counted_by_the_file(s: ExportSpec, r: usize)
    requires
        call_ensures(ExportSpec::encoder_count, (&s,), r),
    ensures
        s.video == VideoMode::NoVideo ==> r == 0,
        s.video == VideoMode::Composite ==> r == 1,
        s.video == VideoMode::Separate && s.composite.camera && s.composite.display ==> r == 2,
        s.video == VideoMode::Separate && s.composite.camera != s.composite.display ==> r == 1,
        s.video == VideoMode::Separate && !s.composite.camera && !s.composite.display ==> r == 0,
        s.video == VideoMode::Both && s.composite.camera && s.composite.display ==> r == 3,
        s.video == VideoMode::Both && s.composite.camera != s.composite.display ==> r == 2,
        s.video == VideoMode::Both && !s.composite.camera && !s.composite.display ==> r == 1,
{
}

/// The estimate is a rate by the minute, a rate by the hour with one decimal,
/// and how many encoders run.
pub proof fn the_estimate_names_the_rate_and_the_encoders(
    s: ExportSpec,
    megabytes: u64,
    gigabytes: u64,
    tenth: u64,
    r: String,
    count: usize,
    mb: String,
    gb: String,
    t: String,
)
    requires
        tenth < 10,
        gigabytes < 1_000_000,
        call_ensures(estimate_line, (&s, megabytes, (gigabytes * 10 + tenth) as u64), r),
        call_ensures(ExportSpec::encoder_count, (&s,), count),
        call_ensures(crate::text::number, (megabytes,), mb),
        call_ensures(crate::text::number, (gigabytes,), gb),
        call_ensures(crate::text::number, (tenth,), t),
    ensures
        ({
            let rates = "~"@ + mb@ + " MB a minute, about "@ + gb@ + "."@ + t@ + " GB an hour, "@;
            &&& count == 0 ==> r@ == rates + "no video encoder"@ + "."@
            &&& count == 1 ==> r@ == rates + "1 video encoder"@ + "."@
            &&& count == 2 ==> r@ == rates + (seq!['2'] + " video encoders"@) + "."@
            &&& count == 3 ==> r@ == rates + (seq!['3'] + " video encoders"@) + "."@
        }),
{
}

/// What an encoder costs is said of the system the program was built for.
pub proof fn the_encoder_is_the_systems_own(platform: Platform, r: &'static str)
    requires
        call_ensures(encoder_note, (platform,), r),
    ensures
        platform == Platform::MacOs ==> r@
            == "Video encoding here runs on VideoToolbox, so three 1080p30 streams cost the CPU almost nothing."@,
        platform == Platform::Windows ==> r@
            == "Video encoding here runs on Media Foundation, so three 1080p30 streams cost the CPU almost nothing."@,
        platform == Platform::Other ==> r@
            == "Video encoding here is a software encoder: every stream is real CPU, and three 1080p30 streams will be felt while you play."@,
{
}

/// A mode makes a video unless it makes none, and a composite when it makes one
/// alone or beside the sources; the display shows something when any panel is
/// on it.
pub proof fn a_mode_says_what_it_makes(
    mode: VideoMode,
    wants: bool,
    composes: bool,
    shows: DisplayShows,
    any: bool,
)
    requires
        call_ensures(VideoMode::wants_video, (mode,), wants),
        call_ensures(VideoMode::has_composite, (mode,), composes),
        call_ensures(DisplayShows::any, (shows,), any),
    ensures
        wants <==> mode == VideoMode::Composite || mode == VideoMode::Separate || mode
            == VideoMode::Both,
        composes <==> mode == VideoMode::Composite || mode == VideoMode::Both,
        any <==> shows.piano || shows.chord || shows.fretboard || shows.theory,
{
}

} // verus!
