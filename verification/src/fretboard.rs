//! Tunings, and what makes one playable.

use crate::text;
use vstd::prelude::*;

verus! {

/// The most strings a tuning may have.
pub const MAX_STRINGS: usize = 12;

/// The highest open string. A 24-fret neck reaches two octaves above it and
/// there has to be MIDI left for them.
pub const MAX_OPEN_PITCH: u8 = 103;

/// A named set of open strings, the lowest first.
#[derive(Clone, PartialEq, Eq, Debug)]
pub struct Tuning {
    pub name: String,
    pub open: Vec<u8>,
}

/// Why a tuning was refused.
#[derive(Clone, Copy, PartialEq, Eq, Debug, Structural)]
pub enum TuningError {
    EmptyName,
    StringCount(usize),
    PitchRange(u8),
    /// String `string + 1` from the low end sounds below string `string`.
    NotAscending { string: usize, previous: u8, found: u8 },
}

/// No string sounds below the one before it. The search for shapes rests on
/// this, so it is a rule and not tidiness.
pub open spec fn ascending(open: Seq<u8>) -> bool {
    forall|i: int, j: int| 0 <= i <= j < open.len() ==> #[trigger] open[i] <= #[trigger] open[j]
}

/// No open string is too high to be fretted.
pub open spec fn in_range(open: Seq<u8>) -> bool {
    forall|i: int| 0 <= i < open.len() ==> #[trigger] open[i] <= MAX_OPEN_PITCH
}

/// A name and a set of strings that make a tuning.
pub open spec fn sound(name: Seq<char>, open: Seq<u8>) -> bool {
    &&& crate::text::trimmed(name).len() > 0
    &&& 1 <= open.len() <= MAX_STRINGS
    &&& in_range(open)
    &&& ascending(open)
}

/// `e` is why `name` over `open` makes no tuning: the name is looked at first,
/// then the number of strings, then how high they are, then their order, and
/// the lowest string at fault is the one accused.
pub open spec fn refused(name: Seq<char>, open: Seq<u8>, e: TuningError) -> bool {
    let named = crate::text::trimmed(name).len() > 0;
    let counted = named && 1 <= open.len() <= MAX_STRINGS;
    match e {
        TuningError::EmptyName => !named,
        TuningError::StringCount(n) => named && n == open.len() && !(1 <= n <= MAX_STRINGS),
        TuningError::PitchRange(p) => counted && exists|i: int|
            0 <= i < open.len() && #[trigger] open[i] == p && p > MAX_OPEN_PITCH && in_range(
                open.take(i),
            ),
        TuningError::NotAscending { string, previous, found } => {
            &&& counted
            &&& in_range(open)
            &&& 0 < string < open.len()
            &&& previous == open[string - 1]
            &&& found == open[string as int]
            &&& found < previous
            &&& ascending(open.take(string as int))
        },
    }
}

impl Tuning {
    /// A tuning built by hand, or why it cannot be one.
    pub fn custom(name: &str, open: Vec<u8>) -> (r: Result<Tuning, TuningError>)
        ensures
            r is Ok <==> sound(name@, open@),
            r matches Ok(t) ==> t.name@ == crate::text::trimmed(name@) && t.open@ == open@,
            r matches Err(e) ==> refused(name@, open@, e),
    {
        let kept = text::trim(name);
        if kept.as_str().is_empty() {
            return Err(TuningError::EmptyName);
        }
        if open.len() == 0 || open.len() > MAX_STRINGS {
            return Err(TuningError::StringCount(open.len()));
        }
        for i in 0..open.len()
            invariant
                kept@ == crate::text::trimmed(name@),
                kept@.len() > 0,
                1 <= open@.len() <= MAX_STRINGS,
                forall|j: int| 0 <= j < i ==> #[trigger] open@[j] <= MAX_OPEN_PITCH,
        {
            if open[i] > MAX_OPEN_PITCH {
                proof {
                    assert(in_range(open@.take(i as int)));
                }
                return Err(TuningError::PitchRange(open[i]));
            }
        }
        for i in 1..open.len()
            invariant
                kept@ == crate::text::trimmed(name@),
                kept@.len() > 0,
                1 <= open@.len() <= MAX_STRINGS,
                in_range(open@),
                forall|a: int, b: int|
                    0 <= a <= b < i ==> #[trigger] open@[a] <= #[trigger] open@[b],
        {
            if open[i] < open[i - 1] {
                assert(ascending(open@.take(i as int)));
                assert(!ascending(open@)) by {
                    assert(open@[i - 1] > open@[i as int]);
                }
                return Err(
                    TuningError::NotAscending {
                        string: i,
                        previous: open[i - 1],
                        found: open[i],
                    },
                );
            }
        }
        Ok(Tuning { name: kept, open })
    }

    /// The MIDI pitch of a string pressed at a fret; none where there is no such
    /// string, or where MIDI has no such pitch.
    pub fn pitch_at(&self, string: usize, fret: u8) -> (r: Option<u8>)
        ensures
            r is Some <==> string < self.open@.len() && self.open@[string as int] + fret <= 127,
            r matches Some(p) ==> p == self.open@[string as int] + fret,
    {
        if string >= self.open.len() {
            return None;
        }
        let open: u8 = self.open[string];
        if open <= 127 && fret <= 127 - open {
            Some(open + fret)
        } else {
            None
        }
    }
}

/// On a sound tuning every fret of a two-octave neck is a pitch, and the higher
/// of two strings never sounds below the lower at the same fret.
pub proof fn every_fret_is_a_pitch(name: Seq<char>, open: Seq<u8>, low: int, high: int, fret: u8)
    requires
        sound(name, open),
        0 <= low <= high < open.len(),
        fret <= 24,
    ensures
        open[high] + fret <= 127,
        open[low] + fret <= open[high] + fret,
{
}

/// A tuning is either sound or refused for exactly one reason.
pub proof fn a_refusal_has_one_reason(
    name: Seq<char>,
    open: Seq<u8>,
    a: TuningError,
    b: TuningError,
)
    requires
        open.len() <= usize::MAX,
        refused(name, open, a),
        refused(name, open, b),
    ensures
        a == b,
        !sound(name, open),
{
    if let TuningError::PitchRange(p) = a {
        let i = choose|i: int|
            0 <= i < open.len() && #[trigger] open[i] == p && p > MAX_OPEN_PITCH && in_range(
                open.take(i),
            );
        if let TuningError::PitchRange(q) = b {
            let j = choose|j: int|
                0 <= j < open.len() && #[trigger] open[j] == q && q > MAX_OPEN_PITCH && in_range(
                    open.take(j),
                );
            if i < j {
                assert(open.take(j)[i] == p);
            }
            if j < i {
                assert(open.take(i)[j] == q);
            }
        }
    }
    if let TuningError::NotAscending { string: s, .. } = a {
        if let TuningError::NotAscending { string: t, .. } = b {
            if s < t {
                assert(open.take(t as int)[s - 1] <= open.take(t as int)[s as int]);
            }
            if t < s {
                assert(open.take(s as int)[t - 1] <= open.take(s as int)[t as int]);
            }
        }
    }
}

/// `at` is the first of `presets` called `name`, in whatever case it is written.
pub open spec fn is_first_named(presets: Seq<Tuning>, name: Seq<char>, at: int) -> bool {
    &&& 0 <= at < presets.len()
    &&& crate::text::alike(presets[at].name@, name)
    &&& forall|j: int| 0 <= j < at ==> !crate::text::alike(#[trigger] presets[j].name@, name)
}

/// Some preset is called `name`, in whatever case it is written.
pub open spec fn names_a_preset(presets: Seq<Tuning>, name: Seq<char>) -> bool {
    exists|at: int| 0 <= at < presets.len() && crate::text::alike(#[trigger] presets[at].name@, name)
}

/// The preset called `name`, in whatever case it is written.
pub fn by_name(presets: &Vec<Tuning>, name: &str) -> (r: Option<usize>)
    ensures
        r matches Some(at) ==> is_first_named(presets@, name@, at as int),
        r is None ==> !names_a_preset(presets@, name@),
{
    for i in 0..presets.len()
        invariant
            forall|j: int|
                0 <= j < i ==> !crate::text::alike(#[trigger] presets@[j].name@, name@),
    {
        if text::agrees(presets[i].name.as_str(), name) {
            return Some(i);
        }
    }
    None
}

} // verus!
