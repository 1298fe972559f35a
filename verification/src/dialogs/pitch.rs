//! Pitches the way a guitarist writes them: `E2`, `A#3`, `Db4`, or a bare MIDI
//! number.

use crate::text;
use vstd::prelude::*;

verus! {

/// The twelve pitch classes, spelled with sharps.
pub const NOTE_NAMES: [&'static str; 12] = [
    "C",
    "C#",
    "D",
    "D#",
    "E",
    "F",
    "F#",
    "G",
    "G#",
    "A",
    "A#",
    "B",
];

/// The twelve pitch classes, spelled with flats.
pub const NOTE_NAMES_FLAT: [&'static str; 12] = [
    "C",
    "Db",
    "D",
    "Eb",
    "E",
    "F",
    "Gb",
    "G",
    "Ab",
    "A",
    "Bb",
    "B",
];

/// The name of a pitch class.
pub open spec fn class_name(class: int, flats: bool) -> Seq<char> {
    if flats {
        NOTE_NAMES_FLAT@[class]@
    } else {
        NOTE_NAMES@[class]@
    }
}

/// A MIDI pitch as a name and an octave. MIDI 60 is C4.
pub open spec fn spelled(pitch: u8, flats: bool) -> Seq<char> {
    class_name(pitch as int % 12, flats) + crate::text::signed_decimal(pitch as int / 12 - 1)
}

/// Spell a MIDI pitch, with an octave.
pub fn pitch_name(pitch: u8, prefer_flats: bool) -> (r: String)
    ensures
        r@ == spelled(pitch, prefer_flats),
{
    let class: usize = (pitch % 12) as usize;
    let name = if prefer_flats {
        NOTE_NAMES_FLAT[class]
    } else {
        NOTE_NAMES[class]
    };
    let octave: i64 = (pitch / 12) as i64 - 1;
    text::join(name, text::signed_number(octave).as_str())
}

// ── Reading ────────────────────────────────────────────────────────────────
/// The pitch class of a note letter.
pub open spec fn letter_class(c: char) -> Option<int> {
    match c {
        'C' => Some(0),
        'D' => Some(2),
        'E' => Some(4),
        'F' => Some(5),
        'G' => Some(7),
        'A' => Some(9),
        'B' => Some(11),
        _ => None,
    }
}

/// A note letter with at most one accidental, and what is written behind it.
pub open spec fn root_of(s: Seq<char>) -> Option<(int, Seq<char>)> {
    if s.len() == 0 || letter_class(s[0]) is None {
        None
    } else {
        let class = letter_class(s[0])->0;
        if s.len() > 1 && s[1] == '#' {
            Some(((class + 1) % 12, s.skip(2)))
        } else if s.len() > 1 && s[1] == 'b' {
            Some(((class + 11) % 12, s.skip(2)))
        } else {
            Some((class, s.skip(1)))
        }
    }
}

/// A whole number as it is written: a sign that may be left out, then digits.
/// Only what fits in 32 bits counts as one.
pub open spec fn whole_number(s: Seq<char>) -> Option<int> {
    let signed = s.len() > 0 && (s[0] == '-' || s[0] == '+');
    let digits = if signed {
        s.skip(1)
    } else {
        s
    };
    let size = crate::text::value_of(digits) as int;
    let n = if signed && s[0] == '-' {
        -size
    } else {
        size
    };
    if digits.len() > 0 && crate::text::all_digits(digits) && i32::MIN <= n <= i32::MAX {
        Some(n)
    } else {
        None
    }
}

/// The text with its first letter in upper case. The rest keeps its case: the
/// `b` of `Bb` is a flat.
pub open spec fn capitalised(s: Seq<char>) -> Seq<char> {
    if s.len() == 0 {
        s
    } else {
        s.update(0, crate::text::ascii_upper(s[0]))
    }
}

/// The pitch a text stands for, or the hint that says which of the things that
/// can be wrong with one is wrong with it.
///
/// `Cb2` is the pitch class of Cb in octave 2.
pub open spec fn reading(text: Seq<char>) -> Result<u8, Seq<char>> {
    let s = crate::text::trimmed(text);
    if s.len() == 0 {
        Err("Type a note name like E2, or a MIDI number."@)
    } else if crate::text::all_digits(s) {
        if crate::text::value_of(s) <= 127 {
            Ok(crate::text::value_of(s) as u8)
        } else {
            Err("A MIDI note number runs from 0 to 127."@)
        }
    } else {
        match root_of(capitalised(s)) {
            None => Err("A pitch starts with a note letter A to G, like E2."@),
            Some((class, rest)) => if rest.len() == 0 {
                Err("A pitch needs an octave: E2, not E."@)
            } else if rest[0] == '#' || rest[0] == 'b' {
                Err("One accidental only: E#2 or Eb2."@)
            } else {
                match whole_number(rest) {
                    None => Err("The octave has to be a number: E2, or E-1 at the very bottom."@),
                    Some(octave) => {
                        let midi = (octave + 1) * 12 + class;
                        if 0 <= midi <= 127 {
                            Ok(midi as u8)
                        } else {
                            Err("That pitch is outside MIDI's 0 to 127."@)
                        }
                    },
                }
            },
        }
    }
}

/// A reading as it was returned is the reading that `text` has.
pub open spec fn reads_as(r: Result<u8, &'static str>, text: Seq<char>) -> bool {
    match (r, reading(text)) {
        (Ok(a), Ok(b)) => a == b,
        (Err(a), Err(b)) => a@ == b,
        _ => false,
    }
}

proof fn lemma_value_grows(s: Seq<char>, k: int)
    requires
        0 <= k <= s.len(),
        crate::text::all_digits(s),
    ensures
        crate::text::value_of(s.take(k)) <= crate::text::value_of(s),
    decreases s.len() - k,
{
    if k < s.len() {
        lemma_value_grows(s, k + 1);
        let t = s.take(k + 1);
        assert(t.drop_last() =~= s.take(k));
        assert(t.last() == s[k]);
        assert(crate::text::is_digit(s[k]));
    } else {
        assert(s.take(k) =~= s);
    }
}

fn only_digits(cs: &Vec<char>, from: usize) -> (r: bool)
    requires
        from <= cs@.len(),
    ensures
        r == crate::text::all_digits(cs@.skip(from as int)),
{
    for i in from..cs.len()
        invariant
            from <= cs@.len(),
            forall|j: int| from <= j < i ==> crate::text::is_digit(#[trigger] cs@[j]),
    {
        if !('0' <= cs[i] && cs[i] <= '9') {
            assert(!crate::text::is_digit(cs@.skip(from as int)[i - from]));
            return false;
        }
    }
    assert forall|j: int| 0 <= j < cs@.skip(from as int).len() implies crate::text::is_digit(
        #[trigger] cs@.skip(from as int)[j],
    ) by {
        assert(crate::text::is_digit(cs@[from + j]));
    }
    true
}

/// The number the digits from `from` on spell, if it is no more than `limit`.
fn number_up_to(cs: &Vec<char>, from: usize, limit: u64) -> (r: Option<u64>)
    requires
        from <= cs@.len(),
        crate::text::all_digits(cs@.skip(from as int)),
        limit <= 0x1_0000_0000,
    ensures
        r == (if crate::text::value_of(cs@.skip(from as int)) <= limit {
            Some(crate::text::value_of(cs@.skip(from as int)) as u64)
        } else {
            None
        }),
{
    let ghost digits = cs@.skip(from as int);
    let mut n: u64 = 0;
    assert(digits.take(0).len() == 0);
    for i in from..cs.len()
        invariant
            digits == cs@.skip(from as int),
            from <= cs@.len(),
            crate::text::all_digits(digits),
            limit <= 0x1_0000_0000,
            n <= limit,
            n == crate::text::value_of(digits.take(i - from)),
    {
        proof {
            let k = i - from;
            assert(digits.take(k + 1).drop_last() =~= digits.take(k));
            assert(digits.take(k + 1).last() == cs@[i as int]);
            assert(crate::text::is_digit(digits[k]));
            lemma_value_grows(digits, k + 1);
        }
        let d: u32 = cs[i] as u32 - 0x30;
        n = n * 10 + d as u64;
        if n > limit {
            return None;
        }
    }
    assert(digits.take(digits.len() as int) =~= digits);
    Some(n)
}

/// The whole number written from `from` on.
fn read_whole(cs: &Vec<char>, from: usize) -> (r: Option<i64>)
    requires
        from < cs@.len(),
    ensures
        match whole_number(cs@.skip(from as int)) {
            Some(n) => r is Some && r->0 == n && i32::MIN <= n <= i32::MAX,
            None => r is None,
        },
{
    let ghost s = cs@.skip(from as int);
    let end: usize = cs.len();
    let c = cs[from];
    let signed = c == '-' || c == '+';
    let at: usize = if signed {
        from + 1
    } else {
        from
    };
    assert(s[0] == c);
    assert(signed ==> s.skip(1) =~= cs@.skip(at as int));
    if at == end || !only_digits(cs, at) {
        return None;
    }
    if c == '-' {
        match number_up_to(cs, at, 0x8000_0000) {
            Some(n) => Some(-(n as i64)),
            None => None,
        }
    } else {
        match number_up_to(cs, at, 0x7FFF_FFFF) {
            Some(n) => Some(n as i64),
            None => None,
        }
    }
}

/// The pitch class of a note letter.
fn class_of(c: char) -> (r: Option<u8>)
    ensures
        match letter_class(c) {
            Some(n) => r is Some && r->0 == n && 0 <= n < 12,
            None => r is None,
        },
{
    match c {
        'C' => Some(0),
        'D' => Some(2),
        'E' => Some(4),
        'F' => Some(5),
        'G' => Some(7),
        'A' => Some(9),
        'B' => Some(11),
        _ => None,
    }
}

/// Read a pitch the way a guitarist writes one, or say what is wrong with it.
///
/// Sharps and flats are both accepted, case does not matter for the letter, and
/// a bare number is a MIDI number.
pub fn parse_pitch(text: &str) -> (r: Result<u8, &'static str>)
    ensures
        reads_as(r, text@),
{
    let s = text::trim(text);
    let cs = text::chars_of(s.as_str());
    assert(cs@.skip(0) =~= cs@);
    if cs.len() == 0 {
        return Err("Type a note name like E2, or a MIDI number.");
    }
    if only_digits(&cs, 0) {
        return match number_up_to(&cs, 0, 127) {
            Some(n) => Ok(n as u8),
            None => Err("A MIDI note number runs from 0 to 127."),
        };
    }
    let ghost head = capitalised(cs@);
    let class: u8 = match class_of(text::upper(cs[0])) {
        Some(class) => class,
        None => {
            return Err("A pitch starts with a note letter A to G, like E2.");
        },
    };
    let (class, at): (u8, usize) = if cs.len() > 1 && cs[1] == '#' {
        ((class + 1) % 12, 2)
    } else if cs.len() > 1 && cs[1] == 'b' {
        ((class + 11) % 12, 2)
    } else {
        (class, 1)
    };
    assert(head.skip(at as int) =~= cs@.skip(at as int));
    if at == cs.len() {
        return Err("A pitch needs an octave: E2, not E.");
    }
    if cs[at] == '#' || cs[at] == 'b' {
        return Err("One accidental only: E#2 or Eb2.");
    }
    let octave: i64 = match read_whole(&cs, at) {
        Some(octave) => octave,
        None => {
            return Err("The octave has to be a number: E2, or E-1 at the very bottom.");
        },
    };
    let midi: i64 = (octave + 1) * 12 + class as i64;
    if midi < 0 || midi > 127 {
        return Err("That pitch is outside MIDI's 0 to 127.");
    }
    Ok(midi as u8)
}

// ── There and back ─────────────────────────────────────────────────────────
/// How a pitch class is spelled: a letter, with an accidental or without.
pub(crate) proof fn lemma_class_name(class: int, flats: bool)
    requires
        0 <= class < 12,
    ensures
        ({
            let n = class_name(class, flats);
            &&& 1 <= n.len() <= 2
            &&& 'A' <= n[0] <= 'G'
            &&& letter_class(n[0]) is Some
            &&& n.len() == 1 ==> letter_class(n[0])->0 == class
            &&& n.len() == 2 ==> (n[1] == '#' && (letter_class(n[0])->0 + 1) % 12 == class || n[1]
                == 'b' && (letter_class(n[0])->0 + 11) % 12 == class)
        }),
{
    reveal_strlit("C");
    reveal_strlit("C#");
    reveal_strlit("Db");
    reveal_strlit("D");
    reveal_strlit("D#");
    reveal_strlit("Eb");
    reveal_strlit("E");
    reveal_strlit("F");
    reveal_strlit("F#");
    reveal_strlit("Gb");
    reveal_strlit("G");
    reveal_strlit("G#");
    reveal_strlit("Ab");
    reveal_strlit("A");
    reveal_strlit("A#");
    reveal_strlit("Bb");
    reveal_strlit("B");
}

/// How an octave is written: one digit, or `-1`.
pub(crate) proof fn lemma_octave(n: int)
    requires
        -1 <= n < 10,
    ensures
        ({
            let s = crate::text::signed_decimal(n);
            &&& s.len() > 0
            &&& s[0] != '#' && s[0] != 'b'
            &&& crate::text::is_digit(s.last())
            &&& whole_number(s) == Some(n)
        }),
{
    let s = crate::text::signed_decimal(n);
    if n < 0 {
        let d = crate::text::decimal(1);
        assert(d =~= seq![crate::text::digit(1)]);
        assert(s =~= seq!['-', '1']);
        assert(s.skip(1) =~= seq!['1']);
        assert(seq!['1'].drop_last().len() == 0);
        assert(crate::text::value_of(seq!['1']) == 1) by {
            reveal_with_fuel(crate::text::value_of, 2);
        }
    } else {
        let d = crate::text::digit(n);
        assert(s =~= seq![d]);
        assert(crate::text::is_digit(d));
        assert(seq![d].drop_last().len() == 0);
        assert(crate::text::value_of(seq![d]) == n) by {
            reveal_with_fuel(crate::text::value_of, 2);
        }
    }
}

/// A pitch survives the trip out to its name and back, in either spelling.
pub proof fn a_name_reads_back_as_its_pitch(pitch: u8, flats: bool)
    requires
        pitch <= 127,
    ensures
        reading(spelled(pitch, flats)) == Ok::<u8, Seq<char>>(pitch),
{
    let class = pitch as int % 12;
    let octave = pitch as int / 12 - 1;
    lemma_class_name(class, flats);
    lemma_octave(octave);
    let name = class_name(class, flats);
    let tail = crate::text::signed_decimal(octave);
    let s = spelled(pitch, flats);
    assert(s == name + tail);
    assert(s[0] == name[0]);
    assert(s.last() == tail.last());
    assert(!crate::text::is_white(s[0]) && !crate::text::is_white(s.last()));
    assert(crate::text::trimmed(s) == s);
    assert(!crate::text::all_digits(s)) by {
        assert(!crate::text::is_digit(s[0]));
    }
    assert(capitalised(s) =~= s);
    if name.len() == 1 {
        assert(s[1] == tail[0]);
        assert(s.skip(1) =~= tail);
    } else {
        assert(s[1] == name[1]);
        assert(s.skip(2) =~= tail);
    }
    assert(root_of(s) == Some((class, tail)));
}

/// White space around a pitch makes no difference.
pub proof fn space_around_a_pitch_changes_nothing(front: Seq<char>, text: Seq<char>, back: Seq<char>)
    requires
        crate::text::all_white(front),
        crate::text::all_white(back),
    ensures
        reading(front + text + back) == reading(text),
{
    crate::text::space_around_is_trimmed_away(front, text, back);
}

proof fn lemma_trimmed_first(s: Seq<char>, c: char)
    requires
        s.len() > 0,
        !crate::text::is_white(s[0]),
        !crate::text::is_white(c),
    ensures
        crate::text::trimmed_end(s).len() > 0,
        crate::text::trimmed_end(s)[0] == s[0],
        crate::text::trimmed_end(s.update(0, c)) == crate::text::trimmed_end(s).update(0, c),
    decreases s.len(),
{
    if crate::text::is_white(s.last()) {
        assert(s.len() > 1);
        lemma_trimmed_first(s.drop_last(), c);
        assert(s.update(0, c).drop_last() =~= s.drop_last().update(0, c));
    } else {
        assert(s.update(0, c).len() == s.len());
    }
}

/// The note letter may be typed in either case.
pub proof fn the_case_of_the_letter_changes_nothing(text: Seq<char>)
    requires
        text.len() > 0,
        !crate::text::is_white(text[0]),
    ensures
        reading(text.update(0, crate::text::ascii_lower(text[0]))) == reading(text),
{
    let c = crate::text::ascii_lower(text[0]);
    let other = text.update(0, c);
    lemma_trimmed_first(text, c);
    let (s, t) = (crate::text::trimmed(text), crate::text::trimmed(other));
    assert(t == s.update(0, c));
    assert(crate::text::ascii_upper(c) == crate::text::ascii_upper(text[0]));
    assert(crate::text::all_digits(t) == crate::text::all_digits(s)) by {
        if c != text[0] {
            assert(!crate::text::is_digit(s[0]));
            assert(!crate::text::is_digit(t[0]));
        } else {
            assert(t =~= s);
        }
    }
    if crate::text::all_digits(s) {
        assert(crate::text::is_digit(s[0]));
        assert(t =~= s);
    }
    assert(capitalised(t) =~= capitalised(s));
}

/// A pitch survives the trip however its name is typed: in either spelling, with
/// the letter in lower case, and with white space around it.
pub proof fn a_typed_name_reads_back_as_its_pitch(
    pitch: u8,
    flats: bool,
    front: Seq<char>,
    back: Seq<char>,
)
    requires
        pitch <= 127,
        crate::text::all_white(front),
        crate::text::all_white(back),
    ensures
        reading(front + spelled(pitch, flats) + back) == Ok::<u8, Seq<char>>(pitch),
        reading(
            front + spelled(pitch, flats).update(
                0,
                crate::text::ascii_lower(spelled(pitch, flats)[0]),
            ) + back,
        ) == Ok::<u8, Seq<char>>(pitch),
{
    let s = spelled(pitch, flats);
    lemma_class_name(pitch as int % 12, flats);
    assert(s[0] == class_name(pitch as int % 12, flats)[0]);
    a_name_reads_back_as_its_pitch(pitch, flats);
    the_case_of_the_letter_changes_nothing(s);
    space_around_a_pitch_changes_nothing(front, s, back);
    space_around_a_pitch_changes_nothing(
        front,
        s.update(0, crate::text::ascii_lower(s[0])),
        back,
    );
}

/// A bare MIDI number reads back as its pitch, with white space around it or
/// without.
pub proof fn a_number_reads_back_as_its_pitch(pitch: u8, front: Seq<char>, back: Seq<char>)
    requires
        pitch <= 127,
        crate::text::all_white(front),
        crate::text::all_white(back),
    ensures
        reading(crate::text::decimal(pitch as nat)) == Ok::<u8, Seq<char>>(pitch),
        reading(front + crate::text::decimal(pitch as nat) + back) == Ok::<u8, Seq<char>>(pitch),
{
    let s = crate::text::decimal(pitch as nat);
    crate::text::digits_read_back(pitch as nat);
    assert(crate::text::is_digit(s[0]) && crate::text::is_digit(s.last()));
    assert(crate::text::trimmed(s) == s);
    space_around_a_pitch_changes_nothing(front, s, back);
}

} // verus!
