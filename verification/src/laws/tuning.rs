//! Pitches and tunings: how a pitch is written and read, what a tuning may be,
//! and what the editor does to its strings.

use crate::dialogs::tuning::TuningEditor;
use crate::dialogs::{
    add_low_string, confirm, footer, gaps, highest_open_pitch, parse_pitch, pitch_name,
    remove_low_string, rows_for, tuning, untouched, Dialog, Problem, TuningString,
};
use crate::fretboard::{by_name, Tuning, TuningError};
use vstd::prelude::*;

verus! {

// ── Pitches ────────────────────────────────────────────────────────────────
/// A pitch is its class and its octave: twelve semitones to the octave, MIDI 0
/// in octave -1, and each class under its own name in either spelling.
pub proof fn a_pitch_is_spelled_by_class_and_octave(
    octave: int,
    class: int,
    pitch: u8,
    flats: bool,
    r: String,
    o: String,
)
    requires
        call_ensures(pitch_name, (pitch, flats), r),
        pitch == 12 * (octave + 1) + class,
        0 <= class < 12,
        call_ensures(crate::text::signed_number, (octave as i64,), o),
    ensures
        class == 0 ==> r@ == "C"@ + o@,
        class == 1 ==> r@ == (if flats {
            "Db"@
        } else {
            "C#"@
        }) + o@,
        class == 2 ==> r@ == "D"@ + o@,
        class == 3 ==> r@ == (if flats {
            "Eb"@
        } else {
            "D#"@
        }) + o@,
        class == 4 ==> r@ == "E"@ + o@,
        class == 5 ==> r@ == "F"@ + o@,
        class == 6 ==> r@ == (if flats {
            "Gb"@
        } else {
            "F#"@
        }) + o@,
        class == 7 ==> r@ == "G"@ + o@,
        class == 8 ==> r@ == (if flats {
            "Ab"@
        } else {
            "G#"@
        }) + o@,
        class == 9 ==> r@ == "A"@ + o@,
        class == 10 ==> r@ == (if flats {
            "Bb"@
        } else {
            "A#"@
        }) + o@,
        class == 11 ==> r@ == "B"@ + o@,
{
    assert(pitch as int % 12 == class && pitch as int / 12 - 1 == octave);
}

/// How far above its C a note letter stands, in semitones.
pub open spec fn above_c(letter: char, semitones: int) -> bool {
    ||| letter == 'C' && semitones == 0
    ||| letter == 'D' && semitones == 2
    ||| letter == 'E' && semitones == 4
    ||| letter == 'F' && semitones == 5
    ||| letter == 'G' && semitones == 7
    ||| letter == 'A' && semitones == 9
    ||| letter == 'B' && semitones == 11
}

/// A sharp is a semitone up and a flat a semitone down.
pub open spec fn bends(accidental: Seq<char>, by: int) -> bool {
    ||| accidental == Seq::<char>::empty() && by == 0
    ||| accidental == seq!['#'] && by == 1
    ||| accidental == seq!['b'] && by == -1
}

/// A letter, an accidental and an octave are read as so many semitones above the
/// bottom of MIDI. An accidental stays within the octave that is written: the
/// flat of C is the B above it, and the sharp of B the C below.
pub proof fn a_name_is_read_in_semitones(
    letter: char,
    semitones: int,
    accidental: Seq<char>,
    by: int,
    octave: int,
    text: &str,
    r: Result<u8, &'static str>,
)
    requires
        above_c(letter, semitones),
        bends(accidental, by),
        -1 <= octave < 10,
        text@ == seq![letter] + accidental + crate::text::signed_decimal(octave),
        call_ensures(parse_pitch, (text,), r),
    ensures
        ({
            let class = semitones + by;
            let kept = if class < 0 {
                11
            } else if class > 11 {
                0
            } else {
                class
            };
            let midi = (octave + 1) * 12 + kept;
            if midi <= 127 {
                r matches Ok(p) && p == midi
            } else {
                r matches Err(hint) && hint@ == "That pitch is outside MIDI's 0 to 127."@
            }
        }),
{
    let tail = crate::text::signed_decimal(octave);
    crate::dialogs::pitch::lemma_octave(octave);
    let s = text@;
    assert(s[0] == letter);
    assert(s.last() == tail.last());
    assert(!crate::text::is_white(s[0]) && !crate::text::is_white(s.last()));
    assert(crate::text::trimmed(s) == s);
    assert(!crate::text::all_digits(s)) by {
        assert(!crate::text::is_digit(s[0]));
    }
    assert(crate::dialogs::pitch::capitalised(s) =~= s);
    if accidental.len() == 0 {
        assert(s[1] == tail[0]);
        assert(s.skip(1) =~= tail);
    } else {
        assert(s[1] == accidental[0]);
        assert(s.skip(2) =~= tail);
    }
}

/// An octave is any whole number, with a sign or without and with zeros in front
/// or without; one that leads out of MIDI is told so, and one too large to be a
/// number is told that.
pub proof fn an_octave_is_any_whole_number(
    letter: char,
    semitones: int,
    accidental: Seq<char>,
    by: int,
    sign: Seq<char>,
    digits: Seq<char>,
    text: &str,
    r: Result<u8, &'static str>,
)
    requires
        above_c(letter, semitones),
        bends(accidental, by),
        0 <= semitones + by <= 11,
        sign == Seq::<char>::empty() || sign == seq!['+'] || sign == seq!['-'],
        digits.len() > 0,
        crate::text::all_digits(digits),
        text@ == seq![letter] + accidental + sign + digits,
        call_ensures(parse_pitch, (text,), r),
    ensures
        ({
            let size = crate::text::value_of(digits) as int;
            let octave = if sign == seq!['-'] {
                -size
            } else {
                size
            };
            let midi = (octave + 1) * 12 + semitones + by;
            if octave < i32::MIN || octave > i32::MAX {
                r is Err && r->Err_0@
                    == "The octave has to be a number: E2, or E-1 at the very bottom."@
            } else if 0 <= midi <= 127 {
                r is Ok && r->Ok_0 == midi
            } else {
                r is Err && r->Err_0@ == "That pitch is outside MIDI's 0 to 127."@
            }
        }),
{
    let s = text@;
    let tail = sign + digits;
    assert(s =~= seq![letter] + accidental + tail);
    assert(s[0] == letter);
    assert(s.last() == digits[digits.len() - 1]);
    assert(crate::text::is_digit(digits[digits.len() - 1]));
    assert(!crate::text::is_white(s[0]) && !crate::text::is_white(s.last()));
    assert(crate::text::trimmed(s) == s);
    assert(!crate::text::all_digits(s)) by {
        assert(!crate::text::is_digit(s[0]));
    }
    assert(crate::dialogs::pitch::capitalised(s) =~= s);
    assert(crate::text::is_digit(digits[0]));
    if sign.len() == 0 {
        assert(tail =~= digits);
    } else {
        assert(tail.skip(1) =~= digits);
        assert(tail[0] == sign[0]);
    }
    if accidental.len() == 0 {
        assert(s[1] == tail[0]);
        assert(s.skip(1) =~= tail);
    } else {
        assert(s[1] == accidental[0]);
        assert(s.skip(2) =~= tail);
    }
}

/// What is wrong with a text that is no pitch: nothing was typed, a number past
/// MIDI, no note letter, no octave, two accidentals, or an octave that is no
/// number.
pub proof fn a_text_that_is_no_pitch_is_told_why(
    text: &str,
    letter: char,
    rest: Seq<char>,
    r: Result<u8, &'static str>,
)
    requires
        call_ensures(parse_pitch, (text,), r),
    ensures
        crate::text::all_white(text@) ==> r is Err && r->Err_0@
            == "Type a note name like E2, or a MIDI number."@,
        ({
            let whole = text@ == seq![letter] + rest && !crate::text::is_white(letter)
                && !crate::text::is_white(text@.last());
            let digits = crate::text::all_digits(text@);
            let note = 'A' <= letter <= 'G' || 'a' <= letter <= 'g';
            &&& whole && digits && crate::text::value_of(text@) > 127 ==> r is Err && r->Err_0@
                == "A MIDI note number runs from 0 to 127."@
            &&& whole && digits && crate::text::value_of(text@) <= 127 ==> r is Ok && r->Ok_0
                == crate::text::value_of(text@)
            &&& whole && !digits && !note ==> r is Err && r->Err_0@
                == "A pitch starts with a note letter A to G, like E2."@
            &&& whole && note && (rest == Seq::<char>::empty() || rest == seq!['#'] || rest == seq![
                'b',
            ]) ==> r is Err && r->Err_0@ == "A pitch needs an octave: E2, not E."@
            &&& whole && note && rest.len() >= 2 && (rest[0] == '#' || rest[0] == 'b') && (rest[1]
                == '#' || rest[1] == 'b') ==> r is Err && r->Err_0@
                == "One accidental only: E#2 or Eb2."@
            &&& whole && note && rest.len() >= 1 && rest[0] != '#' && rest[0] != 'b' && rest[0]
                != '-' && rest[0] != '+' && !crate::text::is_digit(rest[0]) ==> r is Err && r->Err_0@ == "The octave has to be a number: E2, or E-1 at the very bottom."@
        }),
{
    crate::laws::text::only_blank_text_is_trimmed_away(text@);
    let whole = text@ == seq![letter] + rest && !crate::text::is_white(letter)
        && !crate::text::is_white(text@.last());
    if whole {
        let s = text@;
        assert(s[0] == letter);
        assert(crate::text::trimmed(s) == s);
        let head = crate::dialogs::pitch::capitalised(s);
        let note = 'A' <= letter <= 'G' || 'a' <= letter <= 'g';
        assert(head.skip(1) =~= rest);
        if rest.len() > 0 {
            assert(head[1] == rest[0]);
            assert(head.skip(2) =~= rest.skip(1));
        }
        if note {
            assert(!crate::text::is_digit(s[0]));
            lemma_letter(letter);
        }
        if !note && !crate::text::all_digits(s) {
            lemma_letter(letter);
        }
        if rest.len() >= 1 && !crate::text::is_digit(rest[0]) {
            assert(!crate::text::all_digits(rest));
        }
        if rest.len() >= 2 {
            assert(rest.skip(1)[0] == rest[1]);
        }
    }
}

proof fn lemma_letter(letter: char)
    ensures
        crate::dialogs::pitch::letter_class(crate::text::ascii_upper(letter)) is Some <==> 'A'
            <= letter <= 'G' || 'a' <= letter <= 'g',
{
    let up = crate::text::ascii_upper(letter);
    if 'a' <= letter <= 'z' {
        assert(up as u32 == letter as u32 - 32);
    }
    assert(crate::dialogs::pitch::letter_class(up) is Some <==> 'A' <= up <= 'G');
}

// ── Tunings ────────────────────────────────────────────────────────────────
proof fn lemma_steps(open: Seq<u8>)
    ensures
        crate::fretboard::ascending(open) <==> forall|i: int|
            0 < i < open.len() ==> open[i - 1] <= #[trigger] open[i],
    decreases open.len(),
{
    if forall|i: int| 0 < i < open.len() ==> open[i - 1] <= #[trigger] open[i] {
        assert forall|i: int, j: int| 0 <= i <= j < open.len() implies #[trigger] open[i]
            <= #[trigger] open[j] by {
            lemma_climb(open, i, j);
        }
    }
    if crate::fretboard::ascending(open) {
        assert forall|i: int| 0 < i < open.len() implies open[i - 1] <= #[trigger] open[i] by {
            assert(open[i - 1] <= open[i]);
        }
    }
}

proof fn lemma_climb(open: Seq<u8>, i: int, j: int)
    requires
        0 <= i <= j < open.len(),
        forall|k: int| 0 < k < open.len() ==> open[k - 1] <= #[trigger] open[k],
    ensures
        open[i] <= open[j],
    decreases j - i,
{
    if i < j {
        lemma_climb(open, i, j - 1);
        assert(open[j - 1] <= open[j]);
    }
}

/// A tuning has a name, one to twelve strings, none of them higher than two
/// octaves below the top of MIDI, and no string below the one before it. Nothing
/// else is asked of it, and it is kept as it was given, the name without the
/// space around it.
pub proof fn a_tuning_is_named_playable_and_ascending(
    name: &str,
    open: Vec<u8>,
    r: Result<Tuning, TuningError>,
)
    requires
        call_ensures(Tuning::custom, (name, open), r),
    ensures
        r is Ok <==> {
            &&& !crate::text::all_white(name@)
            &&& 1 <= open@.len() <= 12
            &&& forall|i: int| 0 <= i < open@.len() ==> #[trigger] open@[i] + 24 <= 127
            &&& forall|i: int| 0 < i < open@.len() ==> open@[i - 1] <= #[trigger] open@[i]
        },
        r matches Ok(t) ==> t.open@ == open@ && t.name@ == crate::text::trimmed(name@),
{
    crate::laws::text::only_blank_text_is_trimmed_away(name@);
    lemma_steps(open@);
    if forall|i: int| 0 <= i < open@.len() ==> #[trigger] open@[i] + 24 <= 127 {
        assert(crate::fretboard::in_range(open@));
    }
    if crate::fretboard::in_range(open@) {
        assert forall|i: int| 0 <= i < open@.len() implies #[trigger] open@[i] + 24 <= 127 by {
            assert(open@[i] <= crate::fretboard::MAX_OPEN_PITCH);
        }
    }
}

/// A refused tuning is refused for the first thing wrong with it: its name, its
/// number of strings, a string that is too high, or a string below the one
/// before it, and the lowest string at fault is the one that is named.
pub proof fn a_tuning_is_refused_for_the_first_thing_wrong(
    name: &str,
    open: Vec<u8>,
    r: Result<Tuning, TuningError>,
    k: int,
)
    requires
        call_ensures(Tuning::custom, (name, open), r),
    ensures
        crate::text::all_white(name@) ==> r == Err::<Tuning, TuningError>(TuningError::EmptyName),
        !crate::text::all_white(name@) && (open@.len() == 0 || open@.len() > 12) ==> r == Err::<
            Tuning,
            TuningError,
        >(TuningError::StringCount(open@.len() as usize)),
        ({
            let counted = !crate::text::all_white(name@) && 1 <= open@.len() <= 12;
            &&& counted && 0 <= k < open@.len() && open@[k] > 103 && (forall|i: int|
                0 <= i < k ==> #[trigger] open@[i] <= 103) ==> r == Err::<Tuning, TuningError>(
                TuningError::PitchRange(open@[k]),
            )
            &&& counted && (forall|i: int| 0 <= i < open@.len() ==> #[trigger] open@[i] <= 103) && 0
                < k < open@.len() && open@[k] < open@[k - 1] && (forall|i: int|
                0 < i < k ==> open@[i - 1] <= #[trigger] open@[i]) ==> r == Err::<
                Tuning,
                TuningError,
            >(
                TuningError::NotAscending {
                    string: k as usize,
                    previous: open@[k - 1],
                    found: open@[k],
                },
            )
        }),
{
    crate::laws::text::only_blank_text_is_trimmed_away(name@);
    lemma_vec_len(open);
    let counted = !crate::text::all_white(name@) && 1 <= open@.len() <= 12;
    if counted && 0 <= k < open@.len() && open@[k] > 103 && (forall|i: int|
        0 <= i < k ==> #[trigger] open@[i] <= 103) {
        assert(!crate::fretboard::in_range(open@));
        assert(crate::fretboard::in_range(open@.take(k)));
        let e = TuningError::PitchRange(open@[k]);
        assert(crate::fretboard::refused(name@, open@, e));
        crate::fretboard::a_refusal_has_one_reason(name@, open@, e, r->Err_0);
    }
    if counted && (forall|i: int| 0 <= i < open@.len() ==> #[trigger] open@[i] <= 103) && 0 < k
        < open@.len() && open@[k] < open@[k - 1] && (forall|i: int|
        0 < i < k ==> open@[i - 1] <= #[trigger] open@[i]) {
        let low = open@.take(k);
        assert forall|i: int| 0 < i < low.len() implies low[i - 1] <= #[trigger] low[i] by {
            assert(open@[i - 1] <= open@[i]);
        }
        lemma_steps(low);
        assert(!crate::fretboard::ascending(open@)) by {
            assert(!(open@[k - 1] <= open@[k]));
        }
        let e = TuningError::NotAscending {
            string: k as usize,
            previous: open@[k - 1],
            found: open@[k],
        };
        assert(crate::fretboard::in_range(open@));
        assert(crate::fretboard::refused(name@, open@, e));
        crate::fretboard::a_refusal_has_one_reason(name@, open@, e, r->Err_0);
    }
}

proof fn lemma_vec_len(open: Vec<u8>)
    ensures
        open@.len() <= usize::MAX,
{
    assert(open@.len() == open.len());
}

/// A preset is found under its name in whatever case it is written, the first of
/// several, and nothing is found under a name that no preset has.
pub proof fn a_preset_is_found_in_any_case(
    presets: Vec<Tuning>,
    name: &str,
    r: Option<usize>,
    at: int,
)
    requires
        call_ensures(by_name, (&presets, name), r),
        0 <= at < presets@.len(),
        crate::text::alike(presets@[at].name@, name@),
    ensures
        r is Some,
        r->0 <= at,
        crate::text::alike(presets@[r->0 as int].name@, name@),
{
}

/// A fret raises an open string by a semitone, and fret 0 is the open string,
/// as far as MIDI goes.
pub proof fn a_fret_is_a_semitone(
    t: Tuning,
    string: usize,
    fret: u8,
    r: Option<u8>,
    next: Option<u8>,
)
    requires
        call_ensures(Tuning::pitch_at, (&t, string, fret), r),
        fret < 255 ==> call_ensures(Tuning::pitch_at, (&t, string, (fret + 1) as u8), next),
    ensures
        string >= t.open@.len() ==> r is None,
        string < t.open@.len() && fret == 0 && t.open@[string as int] <= 127 ==> r == Some(
            t.open@[string as int],
        ),
        fret < 255 && r is Some && r->0 < 127 ==> next == Some((r->0 + 1) as u8),
        r is Some ==> r->0 <= 127,
        fret < 255 && (r is None || r->0 == 127) ==> next is None,
{
}

// ── The editor's strings ───────────────────────────────────────────────────
/// A low string is added a fourth below the lowest: five semitones, or as far
/// down as MIDI goes. It is spelled as the editor spells, the strings above it
/// stay as they are, and a full neck takes no more.
pub proof fn an_added_string_is_a_fourth_lower(
    strings: &mut Vec<TuningString>,
    flats: bool,
    name: String,
)
    requires
        call_ensures(add_low_string, (strings, flats), ()),
        final(strings)@.len() > 0 ==> call_ensures(
            pitch_name,
            (final(strings)@[0].pitch, flats),
            name,
        ),
    ensures
        old(strings)@.len() >= 12 ==> final(strings)@ == old(strings)@,
        old(strings)@.len() < 12 ==> final(strings)@.len() == old(strings)@.len() + 1,
        0 < old(strings)@.len() < 12 && old(strings)@[0].pitch >= 5 ==> final(strings)@[0].pitch + 5
            == old(strings)@[0].pitch,
        0 < old(strings)@.len() < 12 && old(strings)@[0].pitch < 5 ==> final(strings)@[0].pitch
            == 0,
        old(strings)@.len() == 0 ==> final(strings)@[0].pitch == 40,
        old(strings)@.len() < 12 ==> final(strings)@[0].text@ == name@,
        old(strings)@.len() < 12 ==> forall|i: int|
            0 <= i < old(strings)@.len() ==> final(strings)@[i + 1] == #[trigger] old(strings)@[i],
{
    if old(strings)@.len() < 12 {
        assert forall|i: int| 0 <= i < old(strings)@.len() implies final(strings)@[i + 1]
            == #[trigger] old(strings)@[i] by {
            assert(final(strings)@.drop_first()[i] == final(strings)@[i + 1]);
        }
    }
}

/// Removing takes the lowest string and no other, and never the last one.
pub proof fn the_lowest_string_is_the_one_removed(strings: &mut Vec<TuningString>)
    requires
        call_ensures(remove_low_string, (strings,), ()),
    ensures
        old(strings)@.len() <= 1 ==> final(strings)@ == old(strings)@,
        old(strings)@.len() > 1 ==> final(strings)@.len() == old(strings)@.len() - 1,
        old(strings)@.len() > 1 ==> forall|i: int|
            0 <= i < final(strings)@.len() ==> #[trigger] final(strings)@[i] == old(strings)@[i + 1],
{
}

/// The editor's rows are the tuning's strings from the lowest up, each under the
/// name its pitch has.
pub proof fn the_rows_are_the_strings(
    open: Vec<u8>,
    flats: bool,
    rows: Vec<TuningString>,
    i: int,
    name: String,
)
    requires
        call_ensures(rows_for, (&open, flats), rows),
        0 <= i < open@.len(),
        call_ensures(pitch_name, (open@[i], flats), name),
    ensures
        rows@.len() == open@.len(),
        rows@[i].pitch == open@[i],
        rows@[i].text@ == name@,
{
    assert(rows@[i].shows(open@[i], flats));
}

/// What is typed stands in the field as it was typed, and moves the pitch only
/// when it reads as one.
pub proof fn typing_moves_the_pitch_once_it_reads(
    row: &mut TuningString,
    text: String,
    read: Result<u8, &'static str>,
)
    requires
        call_ensures(TuningString::typed, (row, text), ()),
        exists|t: &str| t@ == text@ && #[trigger] call_ensures(parse_pitch, (t,), read),
    ensures
        final(row).text@ == text@,
        read matches Ok(p) ==> final(row).pitch == p,
        read is Err ==> final(row).pitch == old(row).pitch,
{
}

/// What is dragged moves the pitch, and the field shows its name.
pub proof fn dragging_moves_the_pitch_and_its_name(
    row: &mut TuningString,
    pitch: u8,
    flats: bool,
    name: String,
    fresh: TuningString,
)
    requires
        call_ensures(TuningString::dragged, (row, pitch, flats), ()),
        call_ensures(TuningString::new, (pitch, flats), fresh),
        call_ensures(pitch_name, (pitch, flats), name),
    ensures
        final(row).pitch == pitch,
        final(row).text@ == name@,
        fresh.pitch == pitch,
        fresh.text@ == name@,
{
}

/// A gap is how far a string stands above the one below it; the lowest has none.
pub proof fn a_gap_is_the_interval_from_below(
    strings: Vec<TuningString>,
    r: Vec<Option<i16>>,
    i: int,
)
    requires
        call_ensures(gaps, (&strings,), r),
        0 <= i < strings@.len(),
    ensures
        r@.len() == strings@.len(),
        i == 0 ==> r@[i] is None,
        i > 0 ==> r@[i] is Some && strings@[i - 1].pitch + r@[i]->0 == strings@[i].pitch,
{
    assert(i > 0 ==> r@[i] == Some((strings@[i].pitch - strings@[i - 1].pitch) as i16));
}

/// A preset is marked while the rows hold exactly its pitches, whatever they are
/// called.
pub proof fn a_preset_is_marked_while_its_pitches_stand(
    strings: Vec<TuningString>,
    preset: Tuning,
    r: bool,
)
    requires
        call_ensures(untouched, (&strings, &preset), r),
    ensures
        r <==> strings@.len() == preset.open@.len() && forall|i: int|
            0 <= i < strings@.len() ==> (#[trigger] strings@[i]).pitch == preset.open@[i],
{
    let held = crate::dialogs::tuning::held(strings@);
    if r {
        assert forall|i: int| 0 <= i < strings@.len() implies (#[trigger] strings@[i]).pitch
            == preset.open@[i] by {
            assert(held[i] == preset.open@[i]);
        }
    }
    if strings@.len() == preset.open@.len() && forall|i: int|
        0 <= i < strings@.len() ==> (#[trigger] strings@[i]).pitch == preset.open@[i] {
        assert(held =~= preset.open@);
    }
}

/// The highest open string leaves room for two octaves of frets.
pub proof fn the_highest_open_string_leaves_two_octaves(r: u8)
    requires
        call_ensures(highest_open_pitch, (), r),
    ensures
        r + 24 == 127,
{
}

/// A preset's copy is opened under a name of its own, so that it cannot come
/// back as the preset; any other tuning keeps its name. The strings are the
/// tuning's own.
pub proof fn a_copy_of_a_preset_is_renamed(
    from: Tuning,
    is_preset: bool,
    flats: bool,
    r: TuningEditor,
    presets: Vec<Tuning>,
    d: Dialog,
    at: int,
)
    requires
        call_ensures(tuning::custom_tuning, (&from, is_preset, flats), r),
        call_ensures(Dialog::custom_tuning, (&from, &presets, flats), d),
    ensures
        is_preset ==> r.name@ == from.name@ + " (custom)"@,
        !is_preset ==> r.name@ == from.name@,
        r.strings@.len() == from.open@.len(),
        r.prefer_flats == flats,
        d matches Dialog::CustomTuning { name, strings, prefer_flats, focus } && {
            &&& (0 <= at < presets@.len() && crate::text::alike(presets@[at].name@, from.name@))
                ==> name@ == from.name@ + " (custom)"@
            &&& (forall|i: int|
                0 <= i < presets@.len() ==> !crate::text::alike(
                    #[trigger] presets@[i].name@,
                    from.name@,
                )) ==> name@ == from.name@
            &&& strings@.len() == from.open@.len()
            &&& forall|i: int|
                0 <= i < strings@.len() ==> (#[trigger] strings@[i]).pitch == from.open@[i]
            &&& prefer_flats == flats
            &&& focus
        },
{
    if let Dialog::CustomTuning { name, strings, prefer_flats, focus } = d {
        assert forall|i: int| 0 <= i < strings@.len() implies (#[trigger] strings@[i]).pitch
            == from.open@[i] by {
            assert(strings@[i].shows(from.open@[i], flats));
        }
    }
}

// ── Confirming ─────────────────────────────────────────────────────────────
/// Row `i` reads as pitch `p`.
pub open spec fn reads(rows: Seq<TuningString>, i: int, p: u8) -> bool {
    crate::dialogs::pitch::reading(rows[i].text@) == Ok::<u8, Seq<char>>(p)
}

/// The first row that cannot be read is the one that is accused, counting from
/// one at the low end, with what was typed and what is wrong with it.
pub proof fn the_first_unreadable_string_is_accused(
    name: &str,
    rows: Vec<TuningString>,
    presets: Vec<Tuning>,
    r: Result<Tuning, Problem>,
    k: int,
    pitches: Seq<u8>,
    hint: Seq<char>,
)
    requires
        call_ensures(confirm, (name, &rows, &presets), r),
        0 <= k < rows@.len(),
        pitches.len() >= k,
        forall|i: int| 0 <= i < k ==> #[trigger] reads(rows@, i, pitches[i]),
        crate::dialogs::pitch::reading(rows@[k].text@) == Err::<u8, Seq<char>>(hint),
    ensures
        r matches Err(Problem::Unreadable { string, text, hint: h }) && string == k + 1 && text@
            == rows@[k].text@ && h@ == hint,
{
    assert(!crate::dialogs::tuning::readable(rows@)) by {
        assert(crate::dialogs::pitch::reading(rows@[k].text@) is Err);
    }
    if let Err(Problem::Unreadable { string, text, hint: h }) = r {
        if string - 1 < k {
            assert(reads(rows@, string - 1, pitches[string - 1]));
        }
        if k < string - 1 {
            let below = rows@.take(string - 1);
            assert(below[k] == rows@[k]);
            assert(crate::dialogs::pitch::reading(below[k].text@) is Ok);
        }
    }
}

/// Rows that can all be read make the tuning they say: under a free name, or
/// under a preset's if they are that preset; under a preset's name with other
/// pitches they are refused for the name; and what is no tuning is refused for
/// what `Tuning::custom` has against it.
pub proof fn readable_strings_make_the_tuning_they_say(
    name: &str,
    rows: Vec<TuningString>,
    presets: Vec<Tuning>,
    r: Result<Tuning, Problem>,
    open: Vec<u8>,
    built: Result<Tuning, TuningError>,
    wanted: &str,
    found: Option<usize>,
)
    requires
        call_ensures(confirm, (name, &rows, &presets), r),
        open@.len() == rows@.len(),
        forall|i: int| 0 <= i < rows@.len() ==> #[trigger] reads(rows@, i, open@[i]),
        call_ensures(Tuning::custom, (name, open), built),
        wanted@ == crate::text::trimmed(name@),
        call_ensures(by_name, (&presets, wanted), found),
    ensures
        found is Some && presets@[found->0 as int].open@ != open@ ==> (r matches Err(
            Problem::NameClash { preset },
        ) && preset@ == presets@[found->0 as int].name@),
        found is None || presets@[found->0 as int].open@ == open@ ==> match (r, built) {
            (Ok(t), Ok(b)) => t.name@ == b.name@ && t.open@ == b.open@,
            (Err(Problem::Refused(e)), Err(f)) => e == f,
            _ => false,
        },
{
    assert forall|i: int| 0 <= i < rows@.len() implies crate::dialogs::pitch::reading(
        #[trigger] rows@[i].text@,
    ) is Ok by {
        assert(reads(rows@, i, open@[i]));
    }
    let read = crate::dialogs::tuning::read(rows@);
    assert forall|i: int| 0 <= i < rows@.len() implies read[i] == open@[i] by {
        assert(reads(rows@, i, open@[i]));
    }
    assert(read =~= open@);
    lemma_vec_len(open);
    if let Err(Problem::Unreadable { string, text, hint }) = r {
        assert(crate::dialogs::pitch::reading(rows@[string - 1].text@) is Ok);
    }
    let clashing = found is Some && presets@[found->0 as int].open@ != open@;
    if clashing {
        assert(crate::dialogs::tuning::clashes(presets@, name@, read, found->0 as int));
    }
    assert forall|k: int| #[trigger]
        crate::dialogs::tuning::clashes(presets@, name@, read, k) implies found == Some(k as usize)
        && clashing by {
        assert(crate::text::alike(presets@[k].name@, wanted@));
        if let Some(at) = found {
            if k < at {
                assert(!crate::text::alike(presets@[k].name@, wanted@));
            }
            if at < k {
                assert(!crate::text::alike(presets@[at as int].name@, wanted@));
            }
        }
    }
    if let Err(Problem::NameClash { preset }) = r {
        let at = choose|at: int| #[trigger]
            crate::dialogs::tuning::clashes(presets@, name@, read, at) && preset@
                == presets@[at].name@;
        assert(found == Some(at as usize));
    }
    if !clashing {
        if let Err(f) = built {
            if let Err(Problem::Refused(e)) = r {
                crate::fretboard::a_refusal_has_one_reason(name@, read, e, f);
            } else {
                crate::fretboard::a_refusal_has_one_reason(name@, read, f, f);
            }
        } else if let Err(Problem::Refused(e)) = r {
            crate::fretboard::a_refusal_has_one_reason(name@, read, e, e);
        }
    }
}

// ── What is said about it ──────────────────────────────────────────────────
/// What is wrong is said first, with the strings counted from one at the low end
/// and the pitches in the notation of the fields.
pub proof fn a_problem_names_the_string_and_the_pitch(
    p: Problem,
    flats: bool,
    r: String,
    found: String,
    other: String,
)
    requires
        call_ensures(Problem::message, (&p, flats), r),
        p matches Problem::Refused(TuningError::NotAscending { found: f, previous, .. })
            ==> call_ensures(pitch_name, (f, flats), found) && call_ensures(
            pitch_name,
            (previous, flats),
            other,
        ),
        p matches Problem::Refused(TuningError::PitchRange(f)) ==> call_ensures(
            pitch_name,
            (f, flats),
            found,
        ) && call_ensures(pitch_name, (103, flats), other),
    ensures
        p matches Problem::Unreadable { string, text, hint } ==> r@ == "String "@
            + crate::text::decimal(string as nat) + ": \""@ + text@ + "\" is not a pitch. "@ + hint@,
        p matches Problem::NameClash { preset } ==> r@ == "\""@ + preset@
            + "\" is already a preset. Tangent saves a tuning by name and looks that name back up in the preset table when it starts, so this one would return as the preset and your pitches would be gone. Give it a name of its own."@,
        p matches Problem::Refused(TuningError::NotAscending { string, .. }) ==> r@ == "String "@
            + crate::text::decimal((string + 1) as nat) + " ("@ + found@
            + ") sounds below string "@ + crate::text::decimal(string as nat) + " ("@ + other@
            + "). Strings must run low to high, and that is not tidiness: the voicing solver searches by assuming each string is higher than the last, so a tuning that dips makes it stop finding shapes your instrument can really play."@,
        p matches Problem::Refused(TuningError::PitchRange(_)) ==> r@ == found@
            + " is too high for an open string: a 24-fret neck reaches two octaves above it and there has to be MIDI left for them. "@
            + other@ + " is as high as an open string goes."@,
        p matches Problem::Refused(TuningError::StringCount(n)) ==> r@
            == "A tuning has between 1 and 12 strings, and this one has "@ + crate::text::decimal(
            n as nat,
        ) + "."@,
        p matches Problem::Refused(TuningError::EmptyName) ==> r@
            == "A tuning needs a name of its own."@,
{
}

/// Pitches by name, each behind a space.
pub open spec fn and_then(open: Seq<u8>, flats: bool) -> Seq<char>
    decreases open.len(),
{
    if open.len() == 0 {
        seq![]
    } else {
        " "@ + crate::dialogs::pitch::spelled(open[0], flats) + and_then(open.drop_first(), flats)
    }
}

proof fn lemma_and_then(open: Seq<u8>, p: u8, flats: bool)
    ensures
        and_then(open.push(p), flats) == and_then(open, flats) + (" "@
            + crate::dialogs::pitch::spelled(p, flats)),
    decreases open.len(),
{
    let more = open.push(p);
    if open.len() == 0 {
        assert(more.drop_first() =~= open);
        assert(and_then(more, flats) =~= and_then(open, flats) + (" "@
            + crate::dialogs::pitch::spelled(p, flats)));
    } else {
        assert(more.drop_first() =~= open.drop_first().push(p));
        assert(more[0] == open[0]);
        lemma_and_then(open.drop_first(), p, flats);
        assert(and_then(more, flats) =~= and_then(open, flats) + (" "@
            + crate::dialogs::pitch::spelled(p, flats)));
    }
}

proof fn lemma_spoken(open: Seq<u8>, flats: bool)
    requires
        open.len() > 0,
    ensures
        crate::dialogs::tuning::spoken(open, flats) == crate::dialogs::pitch::spelled(
            open[0],
            flats,
        ) + and_then(open.drop_first(), flats),
    decreases open.len(),
{
    let first = crate::dialogs::pitch::spelled(open[0], flats);
    if open.len() == 1 {
        assert(first + and_then(open.drop_first(), flats) =~= first);
    } else {
        let upper = open.drop_last();
        lemma_spoken(upper, flats);
        lemma_and_then(upper.drop_first(), open.last(), flats);
        assert(open.drop_first() =~= upper.drop_first().push(open.last()));
        assert(upper[0] == open[0]);
        assert(crate::dialogs::tuning::spoken(open, flats) =~= first + and_then(
            open.drop_first(),
            flats,
        ));
    }
}

/// The line under the strings is the tuning that will be made, counted and
/// spelled out from the lowest string up, or the reason why none will.
pub proof fn the_footer_says_what_will_be_made(
    ready: Result<Tuning, Problem>,
    flats: bool,
    r: String,
    why: String,
    low: String,
)
    requires
        call_ensures(footer, (&ready, flats), r),
        ready matches Err(p) ==> call_ensures(Problem::message, (&p, flats), why),
        ready matches Ok(t) ==> t.open@.len() > 0 && call_ensures(
            pitch_name,
            (t.open@[0], flats),
            low,
        ),
    ensures
        ready is Err ==> r@ == why@,
        ready matches Ok(t) ==> r@ == crate::text::decimal(t.open@.len()) + " strings: "@ + low@
            + and_then(t.open@.drop_first(), flats),
{
    if let Ok(t) = ready {
        lemma_spoken(t.open@, flats);
        assert(r@ =~= crate::text::decimal(t.open@.len()) + " strings: "@ + low@ + and_then(
            t.open@.drop_first(),
            flats,
        ));
    }
}

} // verus!
