//! The custom tuning editor.
//!
//! Every refusal is reported as a reason: an editor that answered a tuning that
//! dips with "invalid" would be hiding the only interesting thing it knows.

use super::pitch::{parse_pitch, pitch_name};
use crate::fretboard::{by_name, Tuning, TuningError, MAX_STRINGS};
use crate::notes::same_notes;
use crate::text;
use vstd::prelude::*;

verus! {

/// One editable string. `text` is what is on screen and what is confirmed;
/// `pitch` is the last value it was successfully read as.
#[derive(Clone, Debug, PartialEq, Eq)]
pub struct TuningString {
    /// A note name or a bare MIDI number.
    pub text: String,
    /// The MIDI pitch of the open string.
    pub pitch: u8,
}

impl TuningString {
    /// The row shows `pitch`, spelled with flats or with sharps.
    pub open spec fn shows(self, pitch: u8, flats: bool) -> bool {
        self.pitch == pitch && self.text@ == super::pitch::spelled(pitch, flats)
    }

    /// A row showing `pitch`, spelled under the caller's accidental preference.
    pub fn new(pitch: u8, prefer_flats: bool) -> (r: TuningString)
        ensures
            r.shows(pitch, prefer_flats),
    {
        TuningString { text: pitch_name(pitch, prefer_flats), pitch }
    }

    /// Take in what was typed: the text stands as it is, and the pitch follows
    /// it once it can be read.
    pub fn typed(&mut self, text: String)
        ensures
            final(self).text@ == text@,
            final(self).pitch == (match super::pitch::reading(text@) {
                Ok(p) => p,
                Err(_) => old(self).pitch,
            }),
    {
        if let Ok(p) = parse_pitch(text.as_str()) {
            self.pitch = p;
        }
        self.text = text;
    }

    /// Take in what was dragged: the pitch, and the name it is spelled by.
    pub fn dragged(&mut self, pitch: u8, prefer_flats: bool)
        ensures
            final(self).shows(pitch, prefer_flats),
    {
        self.pitch = pitch;
        self.text = pitch_name(pitch, prefer_flats);
    }
}

/// A new low string is tuned a fourth below the one above it, which is how
/// every extended-range instrument grows.
pub const ADDED_STRING_DROP: u8 = 5;

/// What a first string is tuned to when there is none to reason from.
pub const DEFAULT_OPEN_PITCH: u8 = 40;

/// The pitches the rows hold.
pub open spec fn held(rows: Seq<TuningString>) -> Seq<u8> {
    rows.map_values(|r: TuningString| r.pitch)
}

/// What an added low string is tuned to. Never above the string it is added
/// under.
pub open spec fn added_pitch(rows: Seq<TuningString>) -> u8 {
    if rows.len() == 0 {
        DEFAULT_OPEN_PITCH
    } else if rows[0].pitch >= ADDED_STRING_DROP {
        (rows[0].pitch - ADDED_STRING_DROP) as u8
    } else {
        0
    }
}

/// Add a string below the lowest one, tuned a fourth down; nothing once there
/// are as many as a tuning may have.
pub fn add_low_string(strings: &mut Vec<TuningString>, prefer_flats: bool)
    ensures
        old(strings)@.len() >= MAX_STRINGS ==> final(strings)@ == old(strings)@,
        old(strings)@.len() < MAX_STRINGS ==> {
            &&& final(strings)@.len() == old(strings)@.len() + 1
            &&& final(strings)@[0].shows(added_pitch(old(strings)@), prefer_flats)
            &&& final(strings)@.drop_first() == old(strings)@
        },
{
    if strings.len() >= MAX_STRINGS {
        return ;
    }
    let pitch: u8 = if strings.len() == 0 {
        DEFAULT_OPEN_PITCH
    } else if strings[0].pitch >= ADDED_STRING_DROP {
        strings[0].pitch - ADDED_STRING_DROP
    } else {
        0
    };
    let ghost before = strings@;
    strings.insert(0, TuningString::new(pitch, prefer_flats));
    assert(strings@.drop_first() =~= before);
}

/// Take the lowest string away again. One string is a legal tuning; none is
/// not.
pub fn remove_low_string(strings: &mut Vec<TuningString>)
    ensures
        final(strings)@ == without_lowest(old(strings)@),
{
    if strings.len() > 1 {
        let ghost before = strings@;
        strings.remove(0);
        assert(strings@ =~= before.drop_first());
    }
}

/// The rows show the pitches `open`, one each and in order.
pub open spec fn show(rows: Seq<TuningString>, open: Seq<u8>, flats: bool) -> bool {
    &&& rows.len() == open.len()
    &&& forall|i: int| 0 <= i < rows.len() ==> (#[trigger] rows[i]).shows(open[i], flats)
}

/// A whole set of rows for a tuning's open strings, spelled and in order.
pub fn rows_for(open: &Vec<u8>, prefer_flats: bool) -> (r: Vec<TuningString>)
    ensures
        show(r@, open@, prefer_flats),
{
    let mut rows: Vec<TuningString> = Vec::new();
    for i in 0..open.len()
        invariant
            rows@.len() == i,
            forall|j: int|
                0 <= j < i ==> (#[trigger] rows@[j]).shows(open@[j], prefer_flats),
    {
        rows.push(TuningString::new(open[i], prefer_flats));
    }
    rows
}

/// Adding a string keeps ascending rows ascending, rows in range in range, and
/// all of them few enough.
pub proof fn adding_a_string_keeps_a_tuning_sound(
    before: Seq<TuningString>,
    after: Seq<TuningString>,
)
    requires
        before.len() < MAX_STRINGS,
        after.len() == before.len() + 1,
        after[0].pitch == added_pitch(before),
        after.drop_first() == before,
    ensures
        crate::fretboard::ascending(held(before)) ==> crate::fretboard::ascending(held(after)),
        crate::fretboard::in_range(held(before)) ==> crate::fretboard::in_range(held(after)),
        1 <= after.len() <= MAX_STRINGS,
{
    let (b, a) = (held(before), held(after));
    assert forall|i: int| 0 < i < a.len() implies a[i] == #[trigger] b[i - 1] by {
        assert(after[i] == after.drop_first()[i - 1]);
    }
    if crate::fretboard::ascending(b) {
        assert forall|i: int, j: int| 0 <= i <= j < a.len() implies #[trigger] a[i]
            <= #[trigger] a[j] by {
            if i > 0 {
                assert(a[i] == b[i - 1] && a[j] == b[j - 1]);
            } else if j > 0 {
                assert(a[j] == b[j - 1]);
                assert(b[0] <= b[j - 1]);
            }
        }
    }
    if crate::fretboard::in_range(b) {
        assert forall|i: int| 0 <= i < a.len() implies #[trigger] a[i]
            <= crate::fretboard::MAX_OPEN_PITCH by {
            if i > 0 {
                assert(a[i] == b[i - 1]);
            } else if b.len() > 0 {
                assert(b[0] <= crate::fretboard::MAX_OPEN_PITCH);
            }
        }
    }
}

/// What removing the lowest string leaves.
pub open spec fn without_lowest(rows: Seq<TuningString>) -> Seq<TuningString> {
    if rows.len() > 1 {
        rows.drop_first()
    } else {
        rows
    }
}

/// Add then Remove gives back what was there: both touch the same end. The
/// first string of all is the exception, since the last one is never removed.
pub proof fn adding_then_removing_changes_nothing(
    before: Seq<TuningString>,
    added: Seq<TuningString>,
)
    requires
        1 <= before.len() < MAX_STRINGS,
        added.len() == before.len() + 1,
        added.drop_first() == before,
    ensures
        without_lowest(added) == before,
{
}

// ── Why not yet ────────────────────────────────────────────────────────────
/// Why the editor will not build a tuning yet.
#[derive(Debug, Clone, PartialEq, Eq)]
pub enum Problem {
    /// A row's text is not a pitch. Strings count from 1 at the low end.
    Unreadable { string: usize, text: String, hint: &'static str },
    /// The name is a preset's, with different pitches behind it.
    NameClash { preset: String },
    Refused(TuningError),
}

/// What a refused tuning is told when no pitch is to blame.
pub open spec fn plain_refusal(e: TuningError) -> Seq<char> {
    match e {
        TuningError::StringCount(n) => "A tuning has between 1 and 12 strings, and this one has "@
            + crate::text::decimal(n as nat) + "."@,
        _ => "A tuning needs a name of its own."@,
    }
}

impl Problem {
    /// What is wrong, then why it matters, in the notation the fields use.
    pub open spec fn words(self, flats: bool) -> Seq<char> {
        match self {
            Problem::Unreadable { string, text, hint } => "String "@ + crate::text::decimal(
                string as nat,
            ) + ": \""@ + text@ + "\" is not a pitch. "@ + hint@,
            Problem::NameClash { preset } => "\""@ + preset@
                + "\" is already a preset. Tangent saves a tuning by name and looks that name back up in the preset table when it starts, so this one would return as the preset and your pitches would be gone. Give it a name of its own."@,
            Problem::Refused(TuningError::NotAscending { string, previous, found }) => "String "@
                + crate::text::decimal((string + 1) as nat) + " ("@ + super::pitch::spelled(
                found,
                flats,
            ) + ") sounds below string "@ + crate::text::decimal(string as nat) + " ("@
                + super::pitch::spelled(previous, flats)
                + "). Strings must run low to high, and that is not tidiness: the voicing solver searches by assuming each string is higher than the last, so a tuning that dips makes it stop finding shapes your instrument can really play."@,
            Problem::Refused(TuningError::PitchRange(p)) => super::pitch::spelled(p, flats)
                + " is too high for an open string: a 24-fret neck reaches two octaves above it and there has to be MIDI left for them. "@
                + super::pitch::spelled(crate::fretboard::MAX_OPEN_PITCH, flats)
                + " is as high as an open string goes."@,
            Problem::Refused(e) => plain_refusal(e),
        }
    }

    /// One sentence of what is wrong, then why it matters.
    pub fn message(&self, prefer_flats: bool) -> (r: String)
        requires
            *self matches Problem::Refused(TuningError::NotAscending { string, .. }) ==> string
                < usize::MAX,
        ensures
            r@ == self.words(prefer_flats),
    {
        match self {
            Problem::Unreadable { string, text, hint } => {
                let mut m = text::join("String ", text::number(*string as u64).as_str());
                m.append(": \"");
                m.append(text.as_str());
                m.append("\" is not a pitch. ");
                m.append(hint);
                m
            },
            Problem::NameClash { preset } => {
                let mut m = text::join("\"", preset.as_str());
                m.append(
                    "\" is already a preset. Tangent saves a tuning by name and looks that name back up in the preset table when it starts, so this one would return as the preset and your pitches would be gone. Give it a name of its own.",
                );
                m
            },
            Problem::Refused(TuningError::NotAscending { string, previous, found }) => {
                let mut m = text::join("String ", text::number((*string + 1) as u64).as_str());
                m.append(" (");
                m.append(pitch_name(*found, prefer_flats).as_str());
                m.append(") sounds below string ");
                m.append(text::number(*string as u64).as_str());
                m.append(" (");
                m.append(pitch_name(*previous, prefer_flats).as_str());
                m.append(
                    "). Strings must run low to high, and that is not tidiness: the voicing solver searches by assuming each string is higher than the last, so a tuning that dips makes it stop finding shapes your instrument can really play.",
                );
                m
            },
            Problem::Refused(TuningError::PitchRange(p)) => {
                let mut m = pitch_name(*p, prefer_flats);
                m.append(
                    " is too high for an open string: a 24-fret neck reaches two octaves above it and there has to be MIDI left for them. ",
                );
                m.append(pitch_name(highest_open_pitch(), prefer_flats).as_str());
                m.append(" is as high as an open string goes.");
                m
            },
            Problem::Refused(TuningError::StringCount(n)) => {
                let mut m = text::join(
                    "A tuning has between 1 and 12 strings, and this one has ",
                    text::number(*n as u64).as_str(),
                );
                m.append(".");
                m
            },
            Problem::Refused(TuningError::EmptyName) => "A tuning needs a name of its own.".to_owned(),
        }
    }
}

/// The highest pitch accepted as an open string. Asked, not copied.
pub fn highest_open_pitch() -> (r: u8)
    ensures
        r == crate::fretboard::MAX_OPEN_PITCH,
{
    proof {
        reveal_strlit("probe");
        assert(crate::text::trimmed("probe"@) == "probe"@) by {
            assert(!crate::text::is_white("probe"@[0]));
            assert(!crate::text::is_white("probe"@.last()));
        }
    }
    let mut p: u8 = 127;
    while p > 0
        invariant
            crate::fretboard::MAX_OPEN_PITCH <= p,
            crate::text::trimmed("probe"@).len() > 0,
        decreases p,
    {
        let mut open: Vec<u8> = Vec::new();
        open.push(p);
        let ghost pitches = open@;
        let accepted = Tuning::custom("probe", open).is_ok();
        proof {
            assert(pitches[0] == p);
            if p <= crate::fretboard::MAX_OPEN_PITCH {
                assert(crate::fretboard::sound("probe"@, pitches));
            }
        }
        if accepted {
            return p;
        }
        p = p - 1;
    }
    0
}

// ── Confirming ─────────────────────────────────────────────────────────────
/// Every row's text can be read.
pub open spec fn readable(rows: Seq<TuningString>) -> bool {
    forall|i: int| 0 <= i < rows.len() ==> super::pitch::reading(#[trigger] rows[i].text@) is Ok
}

/// The pitches the rows' texts stand for.
pub open spec fn read(rows: Seq<TuningString>) -> Seq<u8> {
    rows.map_values(|r: TuningString| super::pitch::reading(r.text@)->Ok_0)
}

/// `name` is preset `at`'s, over pitches that are not.
pub open spec fn clashes(presets: Seq<Tuning>, name: Seq<char>, open: Seq<u8>, at: int) -> bool {
    crate::fretboard::is_first_named(presets, crate::text::trimmed(name), at) && presets[at].open@
        != open
}

/// What confirming gives: the first text that is no pitch, then a preset's name
/// over other pitches, then whatever makes it no tuning, and else the tuning.
/// A copy of a preset under its own name is that preset.
pub open spec fn confirmed(
    name: Seq<char>,
    rows: Seq<TuningString>,
    presets: Seq<Tuning>,
    r: Result<Tuning, Problem>,
) -> bool {
    match r {
        Err(Problem::Unreadable { string, text, hint }) => {
            &&& 1 <= string <= rows.len()
            &&& text@ == rows[string - 1].text@
            &&& super::pitch::reading(text@) == Err::<u8, Seq<char>>(hint@)
            &&& readable(rows.take(string - 1))
        },
        Err(Problem::NameClash { preset }) => readable(rows) && exists|at: int|
            #[trigger] clashes(presets, name, read(rows), at) && preset@ == presets[at].name@,
        Err(Problem::Refused(e)) => {
            &&& readable(rows)
            &&& forall|at: int| !#[trigger] clashes(presets, name, read(rows), at)
            &&& crate::fretboard::refused(name, read(rows), e)
        },
        Ok(t) => {
            &&& readable(rows)
            &&& forall|at: int| !#[trigger] clashes(presets, name, read(rows), at)
            &&& crate::fretboard::sound(name, read(rows))
            &&& t.name@ == crate::text::trimmed(name)
            &&& t.open@ == read(rows)
        },
    }
}

/// Build the tuning the editor is currently describing, or say why not. It
/// reads what is on screen, never the pitch behind it.
pub fn confirm(name: &str, strings: &Vec<TuningString>, presets: &Vec<Tuning>) -> (r: Result<
    Tuning,
    Problem,
>)
    ensures
        confirmed(name@, strings@, presets@, r),
{
    let mut open: Vec<u8> = Vec::new();
    for i in 0..strings.len()
        invariant
            open@.len() == i,
            forall|j: int|
                0 <= j < i ==> super::pitch::reading(#[trigger] strings@[j].text@) == Ok::<
                    u8,
                    Seq<char>,
                >(open@[j]),
    {
        let row = &strings[i];
        match parse_pitch(row.text.as_str()) {
            Ok(p) => {
                open.push(p);
            },
            Err(hint) => {
                let r: Result<Tuning, Problem> = Err(
                    Problem::Unreadable { string: i + 1, text: row.text.clone(), hint },
                );
                proof {
                    let before = strings@.take(i as int);
                    assert forall|j: int| 0 <= j < before.len() implies super::pitch::reading(
                        #[trigger] before[j].text@,
                    ) is Ok by {
                        assert(before[j] == strings@[j]);
                    }
                }
                return r;
            },
        }
    }
    assert(open@ =~= read(strings@));
    let wanted = text::trim(name);
    if let Some(at) = by_name(presets, wanted.as_str()) {
        if !same_notes(&presets[at].open, &open) {
            assert(clashes(presets@, name@, read(strings@), at as int));
            return Err(Problem::NameClash { preset: presets[at].name.clone() });
        }
        proof {
            assert forall|k: int| !#[trigger] clashes(presets@, name@, read(strings@), k) by {
                if crate::fretboard::is_first_named(
                    presets@,
                    crate::text::trimmed(name@),
                    k,
                ) {
                    if k < at {
                        assert(!crate::text::alike(presets@[k].name@, wanted@));
                    }
                    if at < k {
                        assert(!crate::text::alike(presets@[at as int].name@, wanted@));
                    }
                }
            }
        }
    }
    match Tuning::custom(name, open) {
        Ok(t) => Ok(t),
        Err(e) => Err(Problem::Refused(e)),
    }
}

/// Confirming hands on nothing but sound tunings, and refuses nothing that is
/// one under a free name.
pub proof fn only_sound_tunings_are_confirmed(
    name: Seq<char>,
    rows: Seq<TuningString>,
    presets: Seq<Tuning>,
    r: Result<Tuning, Problem>,
)
    requires
        confirmed(name, rows, presets, r),
    ensures
        r matches Ok(t) ==> crate::fretboard::sound(t.name@, t.open@),
        readable(rows) && crate::fretboard::sound(name, read(rows)) && (forall|at: int|
            !#[trigger] clashes(presets, name, read(rows), at)) ==> r is Ok,
{
    if let Ok(t) = r {
        crate::text::trimming_leaves_no_space_around(name);
    }
    if let Err(Problem::Refused(e)) = r {
        if rows.len() <= usize::MAX {
            crate::fretboard::a_refusal_has_one_reason(name, read(rows), e, e);
        }
    }
    if let Err(Problem::Unreadable { string, text, hint }) = r {
        if readable(rows) {
            assert(super::pitch::reading(rows[string - 1].text@) is Ok);
        }
    }
}

/// Confirming has one answer: two results for the same rows are both refusals, or
/// both the same tuning.
pub proof fn confirming_has_one_answer(
    name: Seq<char>,
    rows: Seq<TuningString>,
    presets: Seq<Tuning>,
    a: Result<Tuning, Problem>,
    b: Result<Tuning, Problem>,
)
    requires
        rows.len() <= usize::MAX,
        confirmed(name, rows, presets, a),
        confirmed(name, rows, presets, b),
    ensures
        a is Ok <==> b is Ok,
        a is Ok ==> a->Ok_0.name@ == b->Ok_0.name@ && a->Ok_0.open@ == b->Ok_0.open@,
{
    if a is Ok {
        only_sound_tunings_are_confirmed(name, rows, presets, b);
    }
    if b is Ok {
        only_sound_tunings_are_confirmed(name, rows, presets, a);
    }
}

// ── Opening ────────────────────────────────────────────────────────────────
/// What the editor is opened with.
pub struct TuningEditor {
    pub name: String,
    /// The lowest string first.
    pub strings: Vec<TuningString>,
    pub prefer_flats: bool,
    /// Focus and select the name on the first frame.
    pub focus: bool,
}

/// The name the editor opens on.
pub open spec fn opening_name(name: Seq<char>, is_preset: bool) -> Seq<char> {
    if is_preset {
        name + " (custom)"@
    } else {
        name
    }
}

/// Open the editor on a copy of `from`. A preset's copy gets a name of its own,
/// because the preset's would bring the preset back; a custom tuning keeps its.
pub fn custom_tuning(from: &Tuning, is_preset: bool, prefer_flats: bool) -> (r: TuningEditor)
    ensures
        r.name@ == opening_name(from.name@, is_preset),
        show(r.strings@, from.open@, prefer_flats),
        r.prefer_flats == prefer_flats,
        r.focus,
{
    TuningEditor {
        name: if is_preset {
            text::join(from.name.as_str(), " (custom)")
        } else {
            from.name.clone()
        },
        strings: rows_for(&from.open, prefer_flats),
        prefer_flats,
        focus: true,
    }
}

/// The editor opens on a tuning it would accept: confirmed as it stands, it
/// gives back the strings it was opened on, unless a preset with other strings
/// has that very name.
pub proof fn the_editor_opens_on_what_it_would_accept(
    from: Tuning,
    is_preset: bool,
    flats: bool,
    rows: Seq<TuningString>,
    presets: Seq<Tuning>,
    r: Result<Tuning, Problem>,
)
    requires
        crate::fretboard::sound(from.name@, from.open@),
        rows.len() == from.open@.len(),
        forall|i: int| 0 <= i < rows.len() ==> (#[trigger] rows[i]).shows(from.open@[i], flats),
        confirmed(opening_name(from.name@, is_preset), rows, presets, r),
        forall|at: int|
            !#[trigger] clashes(presets, opening_name(from.name@, is_preset), from.open@, at),
    ensures
        r matches Ok(t) && t.open@ == from.open@ && t.name@ == crate::text::trimmed(
            opening_name(from.name@, is_preset),
        ),
{
    let name = opening_name(from.name@, is_preset);
    assert forall|i: int| 0 <= i < rows.len() implies super::pitch::reading(
        #[trigger] rows[i].text@,
    ) == Ok::<u8, Seq<char>>(from.open@[i]) by {
        assert(rows[i].shows(from.open@[i], flats));
        super::pitch::a_name_reads_back_as_its_pitch(from.open@[i], flats);
    }
    assert(read(rows) =~= from.open@);
    if is_preset {
        reveal_strlit(" (custom)");
        assert(name.last() == ')');
        crate::text::trimming_keeps_what_is_there(name);
    }
    only_sound_tunings_are_confirmed(name, rows, presets, r);
}

// ── While it is open ───────────────────────────────────────────────────────
/// Whether the rows still hold exactly a preset's pitches.
pub fn untouched(strings: &Vec<TuningString>, preset: &Tuning) -> (r: bool)
    ensures
        r == (held(strings@) == preset.open@),
{
    if strings.len() != preset.open.len() {
        return false;
    }
    for i in 0..strings.len()
        invariant
            strings@.len() == preset.open@.len(),
            forall|j: int| 0 <= j < i ==> (#[trigger] strings@[j]).pitch == preset.open@[j],
    {
        if strings[i].pitch != preset.open[i] {
            assert(held(strings@)[i as int] != preset.open@[i as int]);
            return false;
        }
    }
    assert(held(strings@) =~= preset.open@);
    true
}

/// `gaps` are the intervals between the rows, each up from the one below.
pub open spec fn are_gaps(gaps: Seq<Option<i16>>, rows: Seq<TuningString>) -> bool {
    &&& gaps.len() == rows.len()
    &&& forall|i: int|
        0 <= i < gaps.len() ==> #[trigger] gaps[i] == (if i == 0 {
            None
        } else {
            Some((rows[i].pitch - rows[i - 1].pitch) as i16)
        })
}

/// The interval up from the string below, for every string but the lowest. A
/// negative one is a string out of order.
pub fn gaps(strings: &Vec<TuningString>) -> (r: Vec<Option<i16>>)
    ensures
        are_gaps(r@, strings@),
{
    let mut out: Vec<Option<i16>> = Vec::new();
    for i in 0..strings.len()
        invariant
            out@.len() == i,
            forall|j: int|
                0 <= j < i ==> #[trigger] out@[j] == (if j == 0 {
                    None
                } else {
                    Some((strings@[j].pitch - strings@[j - 1].pitch) as i16)
                }),
    {
        if i == 0 {
            out.push(None);
        } else {
            out.push(Some(strings[i].pitch as i16 - strings[i - 1].pitch as i16));
        }
    }
    out
}

/// Pitches spelled out one behind the other.
pub open spec fn spoken(open: Seq<u8>, flats: bool) -> Seq<char>
    decreases open.len(),
{
    if open.len() == 0 {
        seq![]
    } else if open.len() == 1 {
        super::pitch::spelled(open[0], flats)
    } else {
        spoken(open.drop_last(), flats) + " "@ + super::pitch::spelled(open.last(), flats)
    }
}

fn speak(open: &Vec<u8>, flats: bool) -> (r: String)
    ensures
        r@ == spoken(open@, flats),
{
    let mut out = String::new();
    assert(open@.take(0) =~= seq![]);
    for i in 0..open.len()
        invariant
            out@ == spoken(open@.take(i as int), flats),
    {
        assert(open@.take(i + 1).drop_last() =~= open@.take(i as int));
        if i > 0 {
            out.append(" ");
        }
        let ghost lead = out@;
        out.append(pitch_name(open[i], flats).as_str());
        if i == 0 {
            assert(lead + super::pitch::spelled(open@[0], flats) =~= super::pitch::spelled(
                open@[0],
                flats,
            ));
        }
    }
    assert(open@.take(open@.len() as int) =~= open@);
    out
}

/// What is under the strings: the tuning that will be made, or why none will.
pub fn footer(ready: &Result<Tuning, Problem>, prefer_flats: bool) -> (r: String)
    requires
        *ready matches Err(Problem::Refused(TuningError::NotAscending { string, .. })) ==> string
            < usize::MAX,
    ensures
        *ready matches Ok(t) ==> r@ == crate::text::decimal(t.open@.len()) + " strings: "@ + spoken(
            t.open@,
            prefer_flats,
        ),
        *ready matches Err(p) ==> r@ == p.words(prefer_flats),
{
    match ready {
        Ok(t) => {
            let mut m = text::join(text::number(t.open.len() as u64).as_str(), " strings: ");
            m.append(speak(&t.open, prefer_flats).as_str());
            m
        },
        Err(p) => p.message(prefer_flats),
    }
}

} // verus!
