//! The guitar view: what is drawn on the neck, and what a click on it means.
//!
//! Nothing here decides a shape. A voicing arrives solved; this module says
//! which pictures it becomes, in the order they are painted.

use crate::color::{Ink, Rgb};
use crate::text;
use vstd::prelude::*;

verus! {

/// What the capo is made of. Cycled by clicking it.
#[derive(Clone, Copy, PartialEq, Eq, Hash, Debug, Structural)]
pub enum CapoStyle {
    /// A wooden capo on a wooden neck is a bar you have to look for, so black
    /// is where it starts.
    Black,
    Silver,
    Wood,
}

/// The colours a capo is drawn in.
#[derive(Clone, Copy, PartialEq, Eq, Debug, Structural)]
pub struct CapoColors {
    pub body: Rgb,
    pub sheen: Rgb,
    pub arm: Rgb,
    /// Fine cross-ticks, for brushed metal.
    pub texture: Option<Rgb>,
    /// Long lines along the bar, for wood grain.
    pub grain: Option<Rgb>,
}

impl Default for CapoStyle {
    fn default() -> (r: CapoStyle)
        ensures
            r == CapoStyle::Black,
    {
        CapoStyle::Black
    }
}

impl CapoStyle {
    pub const ALL: [CapoStyle; 3] = [CapoStyle::Black, CapoStyle::Silver, CapoStyle::Wood];

    /// The name a style is kept under.
    pub open spec fn name(self) -> Seq<char> {
        match self {
            CapoStyle::Wood => "wood"@,
            CapoStyle::Black => "black"@,
            CapoStyle::Silver => "silver"@,
        }
    }

    /// The style a name stands for. One that is not known is black.
    pub open spec fn named(s: Seq<char>) -> CapoStyle {
        if s == "wood"@ {
            CapoStyle::Wood
        } else if s == "silver"@ {
            CapoStyle::Silver
        } else {
            CapoStyle::Black
        }
    }

    /// The style a click moves on to.
    pub open spec fn after(self) -> CapoStyle {
        match self {
            CapoStyle::Black => CapoStyle::Silver,
            CapoStyle::Silver => CapoStyle::Wood,
            CapoStyle::Wood => CapoStyle::Black,
        }
    }

    pub open spec fn paint(self) -> CapoColors {
        match self {
            CapoStyle::Wood => CapoColors {
                body: Rgb::of(0x6b, 0x45, 0x28),
                sheen: Rgb::of(0x9a, 0x6d, 0x44),
                arm: Rgb::of(0x8a, 0x8d, 0x92),
                texture: None,
                grain: Some(Rgb::of(0x53, 0x34, 0x1c)),
            },
            CapoStyle::Black => CapoColors {
                body: Rgb::of(0x1c, 0x1c, 0x1e),
                sheen: Rgb::of(0x6e, 0x6e, 0x74),
                arm: Rgb::of(0x8a, 0x8d, 0x92),
                texture: None,
                grain: None,
            },
            CapoStyle::Silver => CapoColors {
                body: Rgb::of(0xa8, 0xac, 0xb2),
                sheen: Rgb::of(0xe6, 0xe9, 0xee),
                arm: Rgb::of(0x6f, 0x73, 0x79),
                texture: Some(Rgb::of(0x8d, 0x92, 0x99)),
                grain: None,
            },
        }
    }

    pub fn key(self) -> (r: &'static str)
        ensures
            r@ == self.name(),
    {
        match self {
            CapoStyle::Wood => "wood",
            CapoStyle::Black => "black",
            CapoStyle::Silver => "silver",
        }
    }

    /// Unknown values fall back at the point of use, so a settings file written
    /// by a later build keeps its own value.
    pub fn from_key(s: &str) -> (r: CapoStyle)
        ensures
            r == CapoStyle::named(s@),
    {
        if text::same(s, "wood") {
            CapoStyle::Wood
        } else if text::same(s, "silver") {
            CapoStyle::Silver
        } else {
            CapoStyle::Black
        }
    }

    pub fn next(self) -> (r: CapoStyle)
        ensures
            r == self.after(),
    {
        match self {
            CapoStyle::Black => CapoStyle::Silver,
            CapoStyle::Silver => CapoStyle::Wood,
            CapoStyle::Wood => CapoStyle::Black,
        }
    }

    pub fn colors(self) -> (r: CapoColors)
        ensures
            r == self.paint(),
    {
        match self {
            CapoStyle::Wood => CapoColors {
                body: Rgb::new(0x6b, 0x45, 0x28),
                sheen: Rgb::new(0x9a, 0x6d, 0x44),
                arm: Rgb::new(0x8a, 0x8d, 0x92),
                texture: None,
                grain: Some(Rgb::new(0x53, 0x34, 0x1c)),
            },
            CapoStyle::Black => CapoColors {
                body: Rgb::new(0x1c, 0x1c, 0x1e),
                sheen: Rgb::new(0x6e, 0x6e, 0x74),
                arm: Rgb::new(0x8a, 0x8d, 0x92),
                texture: None,
                grain: None,
            },
            CapoStyle::Silver => CapoColors {
                body: Rgb::new(0xa8, 0xac, 0xb2),
                sheen: Rgb::new(0xe6, 0xe9, 0xee),
                arm: Rgb::new(0x6f, 0x73, 0x79),
                texture: Some(Rgb::new(0x8d, 0x92, 0x99)),
                grain: None,
            },
        }
    }
}

/// The name a style is kept under brings that style back.
pub proof fn capo_names_come_back(style: CapoStyle)
    ensures
        CapoStyle::named(style.name()) == style,
{
    reveal_strlit("wood");
    reveal_strlit("black");
    reveal_strlit("silver");
    assert("black"@[0] == 'b');
    assert("silver"@[0] == 's');
    assert("wood"@[0] == 'w');
}

/// Clicking goes through every style and comes back round.
pub proof fn capo_styles_come_round(style: CapoStyle, wanted: CapoStyle)
    ensures
        style.after().after().after() == style,
        style == wanted || style.after() == wanted || style.after().after() == wanted,
        CapoStyle::ALL@.contains(wanted),
{
    assert(CapoStyle::ALL@[0] == CapoStyle::Black);
    assert(CapoStyle::ALL@[1] == CapoStyle::Silver);
    assert(CapoStyle::ALL@[2] == CapoStyle::Wood);
}

/// The three fingerboard woods. Each carries its whole palette: the light
/// strings that read on rosewood vanish on blonde maple.
#[derive(Debug, Clone, Copy, PartialEq, Eq, Structural)]
pub enum Wood {
    /// Warm dark brown.
    Rosewood,
    /// Blonde, the only pale board.
    Maple,
    /// Near-black and high contrast.
    Ebony,
}

impl Default for Wood {
    fn default() -> (r: Wood)
        ensures
            r == Wood::Rosewood,
    {
        Wood::Rosewood
    }
}

impl Wood {
    pub const ALL: [Wood; 3] = [Wood::Rosewood, Wood::Maple, Wood::Ebony];

    pub open spec fn name(self) -> Seq<char> {
        match self {
            Wood::Rosewood => "rosewood"@,
            Wood::Maple => "maple"@,
            Wood::Ebony => "ebony"@,
        }
    }

    pub open spec fn title(self) -> Seq<char> {
        match self {
            Wood::Rosewood => "Rosewood"@,
            Wood::Maple => "Maple"@,
            Wood::Ebony => "Ebony"@,
        }
    }

    /// The wood a name stands for, in any case. One that is not known is
    /// rosewood.
    pub open spec fn named(k: Seq<char>) -> Wood {
        if crate::text::alike("maple"@, k) {
            Wood::Maple
        } else if crate::text::alike("ebony"@, k) {
            Wood::Ebony
        } else {
            Wood::Rosewood
        }
    }

    /// Stored in settings.
    pub fn key(self) -> (r: &'static str)
        ensures
            r@ == self.name(),
    {
        match self {
            Wood::Rosewood => "rosewood",
            Wood::Maple => "maple",
            Wood::Ebony => "ebony",
        }
    }

    pub fn label(self) -> (r: &'static str)
        ensures
            r@ == self.title(),
    {
        match self {
            Wood::Rosewood => "Rosewood",
            Wood::Maple => "Maple",
            Wood::Ebony => "Ebony",
        }
    }

    pub fn from_key(k: &str) -> (r: Wood)
        ensures
            r == Wood::named(k@),
    {
        if text::agrees("maple", k) {
            Wood::Maple
        } else if text::agrees("ebony", k) {
            Wood::Ebony
        } else {
            Wood::Rosewood
        }
    }

    /// True when the board is pale enough that everything on it must be dark.
    pub fn pale(self) -> (r: bool)
        ensures
            r == (self == Wood::Maple),
    {
        matches!(self, Wood::Maple)
    }
}

/// A wood's name brings that wood back, in whatever case it is written.
pub proof fn wood_names_come_back(wood: Wood, spelled: Seq<char>)
    requires
        crate::text::alike(wood.name(), spelled),
    ensures
        Wood::named(spelled) == wood,
{
    reveal_strlit("rosewood");
    reveal_strlit("maple");
    reveal_strlit("ebony");
    assert("maple"@[0] == 'm');
    assert("ebony"@[0] == 'e');
    assert(crate::text::ascii_lower('m') == 'm');
    assert(crate::text::ascii_lower('e') == 'e');
    if wood == Wood::Rosewood {
        assert("rosewood"@.len() == 8);
    } else if wood == Wood::Ebony {
        assert(crate::text::ascii_lower("ebony"@[0]) == crate::text::ascii_lower(spelled[0]));
        assert(crate::text::ascii_lower("maple"@[0]) != crate::text::ascii_lower(spelled[0]));
    }
}

/// What a board of each wood, and everything on it, is painted in.
#[derive(Debug, Clone, Copy, PartialEq, Eq, Structural)]
pub struct Palette {
    /// The fingerboard itself.
    pub board: Rgb,
    pub nut: Rgb,
    pub string: Rgb,
    pub wire: Rgb,
    pub inlay: Ink,
    /// A held note, in whatever colour a held key has on the piano.
    pub dot: Rgb,
    /// Drawn around a note dot when the board is pale, so a light accent colour
    /// on blonde maple is still a dot rather than a smudge.
    pub dot_edge: Option<Rgb>,
    /// Marks on the board.
    pub on_board: Ink,
}

impl Palette {
    /// The paints of `wood`, with held notes in `dot`.
    pub open spec fn of(wood: Wood, dot: Rgb) -> Palette {
        match wood {
            Wood::Rosewood => Palette {
                board: Rgb::of(0x4a, 0x2b, 0x22),
                nut: Rgb::of(0xE8, 0xDC, 0xC0),
                string: Rgb::of(0xC9, 0xC4, 0xBC),
                wire: Rgb::of(0x93, 0x89, 0x7c),
                inlay: Ink::of(0xE8, 0xDC, 0xC0, 34),
                dot,
                dot_edge: None,
                on_board: Ink::of(0xE8, 0xDC, 0xC0, 78),
            },
            Wood::Maple => Palette {
                board: Rgb::of(0xd8, 0xb0, 0x72),
                nut: Rgb::of(0x4a, 0x38, 0x22),
                string: Rgb::of(0x5a, 0x46, 0x2c),
                wire: Rgb::of(0x8a, 0x6f, 0x45),
                inlay: Ink::of(0x3a, 0x2c, 0x1a, 55),
                dot,
                dot_edge: Some(Rgb::of(0x3a, 0x2c, 0x1a)),
                on_board: Ink::of(0x3a, 0x2c, 0x1a, 100),
            },
            Wood::Ebony => Palette {
                board: Rgb::of(0x18, 0x15, 0x13),
                nut: Rgb::of(0xE8, 0xDC, 0xC0),
                string: Rgb::of(0xB8, 0xB2, 0xA8),
                wire: Rgb::of(0x6a, 0x64, 0x5c),
                inlay: Ink::of(0xEC, 0xE6, 0xDA, 42),
                dot,
                dot_edge: None,
                on_board: Ink::of(0xEC, 0xE6, 0xDA, 82),
            },
        }
    }
}

/// The paints of `wood`, with held notes in `dot`. The wood does not follow
/// dark mode: a neck is made of what it is made of.
pub fn palette(wood: Wood, dot: Rgb) -> (r: Palette)
    ensures
        r == Palette::of(wood, dot),
{
    let (board, string, wire, inlay, on_board) = match wood {
        Wood::Rosewood => (
            Rgb::new(0x4a, 0x2b, 0x22),
            Rgb::new(0xC9, 0xC4, 0xBC),
            Rgb::new(0x93, 0x89, 0x7c),
            Ink::new(0xE8, 0xDC, 0xC0, 34),
            Ink::new(0xE8, 0xDC, 0xC0, 78),
        ),
        Wood::Maple => (
            Rgb::new(0xd8, 0xb0, 0x72),
            Rgb::new(0x5a, 0x46, 0x2c),
            Rgb::new(0x8a, 0x6f, 0x45),
            Ink::new(0x3a, 0x2c, 0x1a, 55),
            Ink::new(0x3a, 0x2c, 0x1a, 100),
        ),
        Wood::Ebony => (
            Rgb::new(0x18, 0x15, 0x13),
            Rgb::new(0xB8, 0xB2, 0xA8),
            Rgb::new(0x6a, 0x64, 0x5c),
            Ink::new(0xEC, 0xE6, 0xDA, 42),
            Ink::new(0xEC, 0xE6, 0xDA, 82),
        ),
    };
    Palette {
        board,
        nut: if wood.pale() {
            Rgb::new(0x4a, 0x38, 0x22)
        } else {
            Rgb::new(0xE8, 0xDC, 0xC0)
        },
        string,
        wire,
        inlay,
        dot,
        dot_edge: if wood.pale() {
            Some(Rgb::new(0x3a, 0x2c, 0x1a))
        } else {
            None
        },
        on_board,
    }
}

/// Strings stand out from the board they lie on: dark on pale maple, light on
/// the others, and only the pale board edges its dots.
pub proof fn strings_stand_out_from_the_board(wood: Wood, dot: Rgb)
    ensures
        wood == Wood::Maple ==> Palette::of(wood, dot).board.light() > Palette::of(
            wood,
            dot,
        ).string.light(),
        wood != Wood::Maple ==> Palette::of(wood, dot).board.light() < Palette::of(
            wood,
            dot,
        ).string.light(),
        (wood == Wood::Maple) == (Palette::of(wood, dot).dot_edge is Some),
{
}

// ── What is drawn on the neck ──────────────────────────────────────────────
/// A place on the neck. String 0 is the lowest.
#[derive(Debug, Clone, Copy, PartialEq, Eq, Structural)]
pub struct Position {
    pub string: usize,
    pub fret: u8,
}

/// What became of a held note.
#[derive(Debug, Clone, PartialEq, Eq)]
pub enum Outcome {
    /// It is played here, moved by whole octaves where it had to be.
    Placed { pos: Position, octave_shift: i8 },
    /// It could be played, but not along with the rest: where it wanted to be.
    Conflict { wanted: Vec<Position> },
    /// It cannot be played at all.
    Unreachable,
}

/// What a string is doing.
#[derive(Debug, Clone, Copy, PartialEq, Eq, Structural)]
pub enum StringState {
    Sounding,
    /// It has to be kept quiet.
    Skipped,
    Unused,
}

/// One finger laid across several strings.
#[derive(Debug, Clone, Copy, PartialEq, Eq, Structural)]
pub struct Barre {
    pub lo_string: usize,
    pub hi_string: usize,
    pub fret: u8,
}

/// A solved chord.
#[derive(Debug, Clone, PartialEq, Eq)]
pub struct Voicing {
    pub notes: Vec<Outcome>,
    pub strings: Vec<StringState>,
    pub unreachable_count: usize,
}

/// The neck a chord is drawn on.
#[derive(Debug, Clone, Copy, PartialEq, Eq, Structural)]
pub struct Neck {
    pub strings: usize,
    pub frets: u8,
    pub capo: u8,
}

/// One picture on the neck. The ones that are not an ordinary dot each mean
/// something different.
#[derive(Debug, Clone, Copy, PartialEq, Eq, Structural)]
pub enum Mark {
    Capo,
    Bar(Barre),
    /// A faint ring: not at the same time as the others.
    Ring(Position),
    /// A hollow dot with an arrow: the right note in another octave. Behind the
    /// nut when there is no fret to put it at.
    Folded { string: usize, fret: Option<u8>, up: bool },
    /// A hollow ring behind the nut: an open string.
    Open { string: usize },
    Dot(Position),
    /// A cross behind the nut: a string that does not sound.
    Cross { string: usize, faint: bool },
    /// The whole board struck out: none of these notes can be made.
    Slash,
}

impl Neck {
    /// A capo is fitted where there is a fret for it.
    pub open spec fn has_capo(self) -> bool {
        0 < self.capo <= self.frets
    }

    pub fn capo_fitted(self) -> (r: bool)
        ensures
            r == self.has_capo(),
    {
        0 < self.capo && self.capo <= self.frets
    }
}

/// The faint rings for the places a note wanted, on the strings there are.
pub open spec fn rings_at(wanted: Seq<Position>, strings: int) -> Seq<Mark>
    decreases wanted.len(),
{
    if wanted.len() == 0 {
        seq![]
    } else {
        let above = rings_at(wanted.drop_last(), strings);
        if wanted.last().string < strings {
            above.push(Mark::Ring(wanted.last()))
        } else {
            above
        }
    }
}

/// The faint rings for all the notes that had to give way.
pub open spec fn rings(notes: Seq<Outcome>, strings: int) -> Seq<Mark>
    decreases notes.len(),
{
    if notes.len() == 0 {
        seq![]
    } else {
        let above = rings(notes.drop_last(), strings);
        match notes.last() {
            Outcome::Conflict { wanted } => above + rings_at(wanted@, strings),
            _ => above,
        }
    }
}

/// How a note that is played is drawn: hollow where its octave is not the one
/// that was held, a ring where the string is open, and else a dot.
pub open spec fn placed_mark(pos: Position, octave_shift: i8, capo: u8) -> Mark {
    if octave_shift != 0 {
        Mark::Folded {
            string: pos.string,
            fret: if pos.fret == capo {
                None
            } else {
                Some(pos.fret)
            },
            up: octave_shift > 0,
        }
    } else if pos.fret == capo {
        Mark::Open { string: pos.string }
    } else {
        Mark::Dot(pos)
    }
}

/// The marks of all the notes that are played.
pub open spec fn placed(notes: Seq<Outcome>, neck: Neck) -> Seq<Mark>
    decreases notes.len(),
{
    if notes.len() == 0 {
        seq![]
    } else {
        let above = placed(notes.drop_last(), neck);
        match notes.last() {
            Outcome::Placed { pos, octave_shift } => if pos.string < neck.strings {
                above.push(placed_mark(pos, octave_shift, neck.capo))
            } else {
                above
            },
            _ => above,
        }
    }
}

/// A cross for each of the first `n` strings that does not sound.
pub open spec fn crosses(states: Seq<StringState>, n: int) -> Seq<Mark>
    decreases n,
{
    if n <= 0 {
        seq![]
    } else {
        let above = crosses(states, n - 1);
        match states[n - 1] {
            StringState::Sounding => above,
            StringState::Skipped => above.push(Mark::Cross { string: (n - 1) as usize, faint: false }),
            StringState::Unused => above.push(Mark::Cross { string: (n - 1) as usize, faint: true }),
        }
    }
}

/// Something sounds.
pub open spec fn sounds(states: Seq<StringState>) -> bool {
    exists|i: int| 0 <= i < states.len() && #[trigger] states[i] == StringState::Sounding
}

/// Every picture on the neck, in the order they are painted. Crosses are only
/// drawn while something sounds: on an idle neck they would be noise.
pub open spec fn scene(v: Voicing, neck: Neck, barre: Option<Barre>) -> Seq<Mark> {
    if neck.strings == 0 {
        seq![]
    } else {
        let capo = if neck.has_capo() {
            seq![Mark::Capo]
        } else {
            seq![]
        };
        let bar = if barre is Some && barre->0.hi_string < neck.strings {
            seq![Mark::Bar(barre->0)]
        } else {
            seq![]
        };
        let quiet = if sounds(v.strings@) {
            crosses(
                v.strings@,
                if v.strings@.len() < neck.strings {
                    v.strings@.len() as int
                } else {
                    neck.strings as int
                },
            )
        } else {
            seq![]
        };
        let struck = if v.notes@.len() > 0 && v.unreachable_count == v.notes@.len() {
            seq![Mark::Slash]
        } else {
            seq![]
        };
        capo + bar + rings(v.notes@, neck.strings as int) + placed(v.notes@, neck) + quiet + struck
    }
}

fn add_rings(out: &mut Vec<Mark>, wanted: &Vec<Position>, strings: usize)
    ensures
        final(out)@ == old(out)@ + rings_at(wanted@, strings as int),
{
    let ghost before = out@;
    assert(wanted@.take(0) =~= seq![]);
    assert(out@ =~= before + rings_at(wanted@.take(0), strings as int));
    for i in 0..wanted.len()
        invariant
            out@ == before + rings_at(wanted@.take(i as int), strings as int),
    {
        assert(wanted@.take(i + 1).drop_last() =~= wanted@.take(i as int));
        let pos: Position = wanted[i];
        if pos.string < strings {
            out.push(Mark::Ring(pos));
        }
        assert(out@ =~= before + rings_at(wanted@.take(i + 1), strings as int));
    }
    assert(wanted@.take(wanted@.len() as int) =~= wanted@);
}

fn add_conflicts(out: &mut Vec<Mark>, notes: &Vec<Outcome>, strings: usize)
    ensures
        final(out)@ == old(out)@ + rings(notes@, strings as int),
{
    let ghost before = out@;
    assert(notes@.take(0) =~= seq![]);
    assert(out@ =~= before + rings(notes@.take(0), strings as int));
    for i in 0..notes.len()
        invariant
            out@ == before + rings(notes@.take(i as int), strings as int),
    {
        assert(notes@.take(i + 1).drop_last() =~= notes@.take(i as int));
        if let Outcome::Conflict { wanted } = &notes[i] {
            add_rings(out, wanted, strings);
        }
        assert(out@ =~= before + rings(notes@.take(i + 1), strings as int));
    }
    assert(notes@.take(notes@.len() as int) =~= notes@);
}

fn add_placed(out: &mut Vec<Mark>, notes: &Vec<Outcome>, neck: Neck)
    ensures
        final(out)@ == old(out)@ + placed(notes@, neck),
{
    let ghost before = out@;
    assert(notes@.take(0) =~= seq![]);
    assert(out@ =~= before + placed(notes@.take(0), neck));
    for i in 0..notes.len()
        invariant
            out@ == before + placed(notes@.take(i as int), neck),
    {
        assert(notes@.take(i + 1).drop_last() =~= notes@.take(i as int));
        if let Outcome::Placed { pos, octave_shift } = &notes[i] {
            let (pos, shift): (Position, i8) = (*pos, *octave_shift);
            if pos.string < neck.strings {
                let at_capo = pos.fret == neck.capo;
                out.push(
                    if shift != 0 {
                        Mark::Folded {
                            string: pos.string,
                            fret: if at_capo {
                                None
                            } else {
                                Some(pos.fret)
                            },
                            up: shift > 0,
                        }
                    } else if at_capo {
                        Mark::Open { string: pos.string }
                    } else {
                        Mark::Dot(pos)
                    },
                );
            }
        }
        assert(out@ =~= before + placed(notes@.take(i + 1), neck));
    }
    assert(notes@.take(notes@.len() as int) =~= notes@);
}

fn any_sounding(states: &Vec<StringState>) -> (r: bool)
    ensures
        r == sounds(states@),
{
    for i in 0..states.len()
        invariant
            forall|j: int| 0 <= j < i ==> #[trigger] states@[j] != StringState::Sounding,
    {
        if states[i] == StringState::Sounding {
            return true;
        }
    }
    false
}

/// Every picture on the neck, in the order they are painted.
pub fn marks(v: &Voicing, neck: Neck, barre: Option<Barre>) -> (r: Vec<Mark>)
    ensures
        r@ == scene(*v, neck, barre),
{
    let mut out: Vec<Mark> = Vec::new();
    if neck.strings == 0 {
        return out;
    }
    if neck.capo_fitted() {
        out.push(Mark::Capo);
    }
    if let Some(b) = barre {
        if b.hi_string < neck.strings {
            out.push(Mark::Bar(b));
        }
    }
    add_conflicts(&mut out, &v.notes, neck.strings);
    add_placed(&mut out, &v.notes, neck);
    let ghost lead = out@;
    if any_sounding(&v.strings) {
        let count: usize = if v.strings.len() < neck.strings {
            v.strings.len()
        } else {
            neck.strings
        };
        assert(out@ =~= lead + crosses(v.strings@, 0));
        for i in 0..count
            invariant
                count <= v.strings@.len(),
                out@ == lead + crosses(v.strings@, i as int),
        {
            match v.strings[i] {
                StringState::Sounding => {},
                StringState::Skipped => out.push(Mark::Cross { string: i, faint: false }),
                StringState::Unused => out.push(Mark::Cross { string: i, faint: true }),
            }
            assert(out@ =~= lead + crosses(v.strings@, i + 1));
        }
    }
    let ghost quiet = out@;
    if v.unreachable_count == v.notes.len() && v.notes.len() > 0 {
        out.push(Mark::Slash);
    }
    assert(out@ =~= scene(*v, neck, barre));
    out
}

/// The string a mark is on exists.
pub open spec fn is_on(mark: Mark, strings: int) -> bool {
    match mark {
        Mark::Bar(b) => b.hi_string < strings,
        Mark::Ring(p) => p.string < strings,
        Mark::Folded { string, .. } => string < strings,
        Mark::Open { string } => string < strings,
        Mark::Dot(p) => p.string < strings,
        Mark::Cross { string, .. } => string < strings,
        _ => true,
    }
}

pub open spec fn all_on(marks: Seq<Mark>, strings: int) -> bool {
    forall|i: int| 0 <= i < marks.len() ==> is_on(#[trigger] marks[i], strings)
}

proof fn lemma_rings_at_on(wanted: Seq<Position>, strings: int)
    ensures
        all_on(rings_at(wanted, strings), strings),
    decreases wanted.len(),
{
    if wanted.len() > 0 {
        lemma_rings_at_on(wanted.drop_last(), strings);
    }
}

proof fn lemma_rings_on(notes: Seq<Outcome>, strings: int)
    ensures
        all_on(rings(notes, strings), strings),
    decreases notes.len(),
{
    if notes.len() > 0 {
        lemma_rings_on(notes.drop_last(), strings);
        if let Outcome::Conflict { wanted } = notes.last() {
            lemma_rings_at_on(wanted@, strings);
        }
    }
}

proof fn lemma_placed_on(notes: Seq<Outcome>, neck: Neck)
    ensures
        all_on(placed(notes, neck), neck.strings as int),
    decreases notes.len(),
{
    if notes.len() > 0 {
        lemma_placed_on(notes.drop_last(), neck);
    }
}

proof fn lemma_crosses_on(states: Seq<StringState>, n: int, strings: int)
    requires
        n <= strings <= usize::MAX,
    ensures
        all_on(crosses(states, n), strings),
    decreases n,
{
    if n > 0 {
        lemma_crosses_on(states, n - 1, strings);
    }
}

/// Nothing is ever drawn on a string that is not there.
pub proof fn every_mark_is_on_the_neck(v: Voicing, neck: Neck, barre: Option<Barre>)
    ensures
        all_on(scene(v, neck, barre), neck.strings as int),
{
    lemma_rings_on(v.notes@, neck.strings as int);
    lemma_placed_on(v.notes@, neck);
    let n = if v.strings@.len() < neck.strings {
        v.strings@.len() as int
    } else {
        neck.strings as int
    };
    lemma_crosses_on(v.strings@, n, neck.strings as int);
}

// ── What a click means ─────────────────────────────────────────────────────
/// No wire that can be pressed behind is reached.
pub open spec fn none_reached(reached: Seq<bool>, neck: Neck) -> bool {
    forall|f: int| first_fret(neck) <= f <= neck.frets ==> !#[trigger] reached[f]
}

/// `fret` is the first wire that is reached, of those that can be pressed
/// behind.
pub open spec fn is_first_reached(reached: Seq<bool>, neck: Neck, fret: int) -> bool {
    &&& first_fret(neck) <= fret <= neck.frets
    &&& reached[fret]
    &&& forall|f: int| first_fret(neck) <= f < fret ==> !#[trigger] reached[f]
}

/// The fret a click on a string is at. The open zone at the nut comes first and
/// gives the capo; then the first wire, from the capo on, that the click is not
/// past. `reached[f]` says that the click is at or before wire `f`.
pub fn fret_at(in_open_zone: bool, reached: &Vec<bool>, neck: Neck) -> (r: Option<u8>)
    requires
        reached@.len() > neck.frets,
    ensures
        in_open_zone ==> r == Some(neck.capo),
        !in_open_zone ==> (r is None <==> none_reached(reached@, neck)),
        !in_open_zone ==> (r matches Some(fret) ==> is_first_reached(reached@, neck, fret as int)),
        r matches Some(fret) ==> fret >= neck.capo,
{
    if in_open_zone {
        return Some(neck.capo);
    }
    let first: u8 = if neck.capo > 1 {
        neck.capo
    } else {
        1
    };
    let mut f: usize = first as usize;
    while f <= neck.frets as usize
        invariant
            !in_open_zone,
            reached@.len() > neck.frets,
            first == first_fret(neck),
            first <= f,
            forall|k: int| first <= k < f ==> !#[trigger] reached@[k],
        decreases neck.frets + 1 - f,
    {
        if reached[f] {
            return Some(f as u8);
        }
        f = f + 1;
    }
    None
}

/// The first fret that can be pressed.
pub open spec fn first_fret(neck: Neck) -> int {
    if neck.capo > 1 {
        neck.capo as int
    } else {
        1
    }
}

} // verus!
