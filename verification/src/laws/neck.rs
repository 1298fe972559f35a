//! The neck: what is drawn on it, what it is made of, and what a click means.

use crate::color::Rgb;
use crate::fretboard_panel::{
    fret_at, marks, palette, Barre, CapoColors, CapoStyle, Mark, Neck, Outcome, Palette, Position,
    StringState, Voicing, Wood,
};
use vstd::prelude::*;

verus! {

// ── What is drawn ──────────────────────────────────────────────────────────
/// Note `i` was placed, on a string that is there.
pub open spec fn lands(v: Voicing, strings: usize, i: int, pos: Position, octave_shift: i8) -> bool {
    0 <= i < v.notes@.len() && v.notes@[i] == (Outcome::Placed { pos, octave_shift }) && pos.string
        < strings
}

proof fn lemma_placed_has(notes: Seq<Outcome>, neck: Neck, i: int, pos: Position, shift: i8)
    requires
        0 <= i < notes.len(),
        notes[i] == (Outcome::Placed { pos, octave_shift: shift }),
        pos.string < neck.strings,
    ensures
        crate::fretboard_panel::placed(notes, neck).contains(
            crate::fretboard_panel::placed_mark(pos, shift, neck.capo),
        ),
    decreases notes.len(),
{
    let mark = crate::fretboard_panel::placed_mark(pos, shift, neck.capo);
    let above = crate::fretboard_panel::placed(notes.drop_last(), neck);
    let all = crate::fretboard_panel::placed(notes, neck);
    if i < notes.len() - 1 {
        lemma_placed_has(notes.drop_last(), neck, i, pos, shift);
        let k = choose|k: int| 0 <= k < above.len() && above[k] == mark;
        assert(all[k] == mark);
    } else {
        assert(all[above.len() as int] == mark);
    }
}

proof fn lemma_placed_only(notes: Seq<Outcome>, neck: Neck, mark: Mark)
    requires
        crate::fretboard_panel::placed(notes, neck).contains(mark),
    ensures
        exists|i: int, pos: Position, shift: i8|
            0 <= i < notes.len() && #[trigger] notes[i] == (Outcome::Placed {
                pos,
                octave_shift: shift,
            }) && pos.string < neck.strings && mark == #[trigger]
                crate::fretboard_panel::placed_mark(pos, shift, neck.capo),
    decreases notes.len(),
{
    let above = crate::fretboard_panel::placed(notes.drop_last(), neck);
    let all = crate::fretboard_panel::placed(notes, neck);
    let k = choose|k: int| 0 <= k < all.len() && all[k] == mark;
    if k < above.len() {
        assert(above[k] == mark);
        lemma_placed_only(notes.drop_last(), neck, mark);
        let (i, pos, shift) = choose|i: int, pos: Position, shift: i8|
            0 <= i < notes.drop_last().len() && #[trigger] notes.drop_last()[i]
                == (Outcome::Placed { pos, octave_shift: shift }) && pos.string < neck.strings
                && mark == #[trigger] crate::fretboard_panel::placed_mark(pos, shift, neck.capo);
        assert(notes[i] == (Outcome::Placed { pos, octave_shift: shift }));
    } else {
        let last = notes[notes.len() - 1];
        assert(notes.last() == last);
        if let Outcome::Placed { pos, octave_shift } = last {
            assert(mark == crate::fretboard_panel::placed_mark(pos, octave_shift, neck.capo));
        }
    }
}

proof fn lemma_rings_at(wanted: Seq<Position>, strings: int, mark: Mark)
    ensures
        crate::fretboard_panel::rings_at(wanted, strings).contains(mark) <==> (mark matches
            Mark::Ring(p) && p.string < strings && wanted.contains(p)),
    decreases wanted.len(),
{
    if wanted.len() > 0 {
        let rest = wanted.drop_last();
        lemma_rings_at(rest, strings, mark);
        let above = crate::fretboard_panel::rings_at(rest, strings);
        let all = crate::fretboard_panel::rings_at(wanted, strings);
        if above.contains(mark) {
            let k = choose|k: int| 0 <= k < above.len() && above[k] == mark;
            assert(all[k] == mark);
        }
        if wanted.last().string < strings {
            assert(all[above.len() as int] == Mark::Ring(wanted.last()));
        }
        if all.contains(mark) && !above.contains(mark) {
            let k = choose|k: int| 0 <= k < all.len() && all[k] == mark;
            if k < above.len() {
                assert(above[k] == mark);
            }
            assert(wanted.contains(wanted.last()));
        }
        if let Mark::Ring(p) = mark {
            if wanted.contains(p) && p != wanted.last() {
                let k = choose|k: int| 0 <= k < wanted.len() && wanted[k] == p;
                assert(rest[k] == p);
            }
            if rest.contains(p) {
                let k = choose|k: int| 0 <= k < rest.len() && rest[k] == p;
                assert(wanted[k] == p);
            }
        }
    }
}

/// Note `i` could not be had beside the others, and `p` is one of the places it
/// wanted.
pub open spec fn wants(v: Voicing, i: int, p: Position) -> bool {
    0 <= i < v.notes@.len() && (v.notes@[i] matches Outcome::Conflict { wanted }
        && wanted@.contains(p))
}

proof fn lemma_rings(notes: Seq<Outcome>, strings: int, mark: Mark)
    ensures
        crate::fretboard_panel::rings(notes, strings).contains(mark) <==> (mark matches Mark::Ring(
            p,
        ) && p.string < strings && exists|i: int|
            0 <= i < notes.len() && (#[trigger] notes[i] matches Outcome::Conflict { wanted }
                && wanted@.contains(p))),
    decreases notes.len(),
{
    if notes.len() > 0 {
        let rest = notes.drop_last();
        lemma_rings(rest, strings, mark);
        let above = crate::fretboard_panel::rings(rest, strings);
        let all = crate::fretboard_panel::rings(notes, strings);
        let mine = match notes.last() {
            Outcome::Conflict { wanted } => crate::fretboard_panel::rings_at(wanted@, strings),
            _ => seq![],
        };
        assert(all =~= above + mine);
        if let Outcome::Conflict { wanted } = notes.last() {
            lemma_rings_at(wanted@, strings, mark);
        }
        if above.contains(mark) {
            let k = choose|k: int| 0 <= k < above.len() && above[k] == mark;
            assert(all[k] == mark);
        }
        if mine.contains(mark) {
            let k = choose|k: int| 0 <= k < mine.len() && mine[k] == mark;
            assert(all[above.len() + k] == mark);
            assert(notes[notes.len() - 1] == notes.last());
        }
        if all.contains(mark) && !above.contains(mark) {
            let k = choose|k: int| 0 <= k < all.len() && all[k] == mark;
            if k < above.len() {
                assert(above[k] == mark);
            }
            assert(mine[k - above.len()] == mark);
        }
        if let Mark::Ring(p) = mark {
            if exists|i: int|
                0 <= i < rest.len() && (#[trigger] rest[i] matches Outcome::Conflict { wanted }
                    && wanted@.contains(p)) {
                let i = choose|i: int|
                    0 <= i < rest.len() && (#[trigger] rest[i] matches Outcome::Conflict { wanted }
                        && wanted@.contains(p));
                assert(notes[i] == rest[i]);
            }
            if exists|i: int|
                0 <= i < notes.len() && (#[trigger] notes[i] matches Outcome::Conflict { wanted }
                    && wanted@.contains(p)) {
                let i = choose|i: int|
                    0 <= i < notes.len() && (#[trigger] notes[i] matches Outcome::Conflict {
                        wanted,
                    } && wanted@.contains(p));
                if i < rest.len() {
                    assert(rest[i] == notes[i]);
                }
            }
        }
    }
}

proof fn lemma_crosses(states: Seq<StringState>, n: int, mark: Mark)
    requires
        0 <= n <= usize::MAX,
    ensures
        crate::fretboard_panel::crosses(states, n).contains(mark) <==> (mark matches Mark::Cross {
            string,
            faint,
        } && string < n && states[string as int] == (if faint {
            StringState::Unused
        } else {
            StringState::Skipped
        })),
    decreases n,
{
    if n > 0 {
        lemma_crosses(states, n - 1, mark);
        let above = crate::fretboard_panel::crosses(states, n - 1);
        let all = crate::fretboard_panel::crosses(states, n);
        if above.contains(mark) {
            let k = choose|k: int| 0 <= k < above.len() && above[k] == mark;
            assert(all[k] == mark);
        }
        if all.len() > above.len() {
            assert(all[above.len() as int] == all.last());
        }
        if all.contains(mark) && !above.contains(mark) {
            let k = choose|k: int| 0 <= k < all.len() && all[k] == mark;
            if k < above.len() {
                assert(above[k] == mark);
            }
        }
    }
}

/// The parts of the picture, and that together they are all of it.
proof fn lemma_scene(v: Voicing, neck: Neck, barre: Option<Barre>, mark: Mark)
    requires
        neck.strings > 0,
    ensures
        ({
            let n = if v.strings@.len() < neck.strings {
                v.strings@.len() as int
            } else {
                neck.strings as int
            };
            crate::fretboard_panel::scene(v, neck, barre).contains(mark) <==> {
                ||| mark == Mark::Capo && 0 < neck.capo <= neck.frets
                ||| (mark matches Mark::Bar(b) && barre == Some(b) && b.hi_string < neck.strings)
                ||| crate::fretboard_panel::rings(v.notes@, neck.strings as int).contains(mark)
                ||| crate::fretboard_panel::placed(v.notes@, neck).contains(mark)
                ||| crate::fretboard_panel::sounds(v.strings@) && crate::fretboard_panel::crosses(
                    v.strings@,
                    n,
                ).contains(mark)
                ||| mark == Mark::Slash && v.notes@.len() > 0 && v.unreachable_count
                    == v.notes@.len()
            }
        }),
{
    let n = if v.strings@.len() < neck.strings {
        v.strings@.len() as int
    } else {
        neck.strings as int
    };
    let a = if neck.has_capo() {
        seq![Mark::Capo]
    } else {
        seq![]
    };
    let b = if barre is Some && barre->0.hi_string < neck.strings {
        seq![Mark::Bar(barre->0)]
    } else {
        seq![]
    };
    let c = crate::fretboard_panel::rings(v.notes@, neck.strings as int);
    let d = crate::fretboard_panel::placed(v.notes@, neck);
    let e = if crate::fretboard_panel::sounds(v.strings@) {
        crate::fretboard_panel::crosses(v.strings@, n)
    } else {
        seq![]
    };
    let f = if v.notes@.len() > 0 && v.unreachable_count == v.notes@.len() {
        seq![Mark::Slash]
    } else {
        seq![]
    };
    assert(crate::fretboard_panel::scene(v, neck, barre) =~= a + b + c + d + e + f);
    lemma_in_either(a, b, mark);
    lemma_in_either(a + b, c, mark);
    lemma_in_either(a + b + c, d, mark);
    lemma_in_either(a + b + c + d, e, mark);
    lemma_in_either(a + b + c + d + e, f, mark);
    if a.len() > 0 {
        assert(a[0] == Mark::Capo);
    }
    if b.len() > 0 {
        assert(b[0] == Mark::Bar(barre->0));
    }
    if f.len() > 0 {
        assert(f[0] == Mark::Slash);
    }
}

proof fn lemma_in_either(a: Seq<Mark>, b: Seq<Mark>, mark: Mark)
    ensures
        (a + b).contains(mark) <==> a.contains(mark) || b.contains(mark),
{
    if a.contains(mark) {
        let k = choose|k: int| 0 <= k < a.len() && a[k] == mark;
        assert((a + b)[k] == mark);
    }
    if b.contains(mark) {
        let k = choose|k: int| 0 <= k < b.len() && b[k] == mark;
        assert((a + b)[a.len() + k] == mark);
    }
    if (a + b).contains(mark) {
        let k = choose|k: int| 0 <= k < (a + b).len() && (a + b)[k] == mark;
        if k < a.len() {
            assert(a[k] == mark);
        } else {
            assert(b[k - a.len()] == mark);
        }
    }
}

/// A note that kept its octave is a ring behind the nut exactly when its fret is
/// the capo's, which is what open means under one, and a dot where it is pressed
/// at any other fret. A board without strings shows nothing.
pub proof fn an_open_string_is_a_ring_and_a_fretted_one_a_dot(
    v: Voicing,
    neck: Neck,
    barre: Option<Barre>,
    r: Vec<Mark>,
    string: usize,
    pos: Position,
)
    requires
        call_ensures(marks, (&v, neck, barre), r),
    ensures
        r@.contains(Mark::Open { string }) <==> exists|i: int, p: Position| #[trigger]
            lands(v, neck.strings, i, p, 0) && p.string == string && p.fret == neck.capo,
        r@.contains(Mark::Dot(pos)) <==> pos.fret != neck.capo && exists|i: int| #[trigger]
            lands(v, neck.strings, i, pos, 0),
        neck.strings == 0 ==> r@.len() == 0,
{
    if neck.strings == 0 {
        return ;
    }
    let (open, dot) = (Mark::Open { string }, Mark::Dot(pos));
    lemma_scene(v, neck, barre, open);
    lemma_scene(v, neck, barre, dot);
    lemma_rings(v.notes@, neck.strings as int, open);
    lemma_rings(v.notes@, neck.strings as int, dot);
    let n = if v.strings@.len() < neck.strings {
        v.strings@.len() as int
    } else {
        neck.strings as int
    };
    lemma_crosses(v.strings@, n, open);
    lemma_crosses(v.strings@, n, dot);
    if r@.contains(open) {
        lemma_placed_only(v.notes@, neck, open);
        let (i, p, shift) = choose|i: int, p: Position, shift: i8|
            0 <= i < v.notes@.len() && #[trigger] v.notes@[i] == (Outcome::Placed {
                pos: p,
                octave_shift: shift,
            }) && p.string < neck.strings && open == #[trigger]
                crate::fretboard_panel::placed_mark(p, shift, neck.capo);
        assert(lands(v, neck.strings, i, p, 0));
    }
    if exists|i: int, p: Position| #[trigger]
        lands(v, neck.strings, i, p, 0) && p.string == string && p.fret == neck.capo {
        let (i, p) = choose|i: int, p: Position| #[trigger]
            lands(v, neck.strings, i, p, 0) && p.string == string && p.fret == neck.capo;
        lemma_placed_has(v.notes@, neck, i, p, 0);
    }
    if r@.contains(dot) {
        lemma_placed_only(v.notes@, neck, dot);
        let (i, p, shift) = choose|i: int, p: Position, shift: i8|
            0 <= i < v.notes@.len() && #[trigger] v.notes@[i] == (Outcome::Placed {
                pos: p,
                octave_shift: shift,
            }) && p.string < neck.strings && dot == #[trigger]
                crate::fretboard_panel::placed_mark(p, shift, neck.capo);
        assert(lands(v, neck.strings, i, pos, 0));
    }
    if pos.fret != neck.capo && exists|i: int| #[trigger] lands(v, neck.strings, i, pos, 0) {
        let i = choose|i: int| #[trigger] lands(v, neck.strings, i, pos, 0);
        lemma_placed_has(v.notes@, neck, i, pos, 0);
    }
}

/// A note that lost its octave is hollow, with an arrow the way it moved. It has
/// no fret exactly when its fret is the capo's, and otherwise its own.
pub proof fn a_folded_note_says_which_way_it_moved(
    v: Voicing,
    neck: Neck,
    barre: Option<Barre>,
    r: Vec<Mark>,
    string: usize,
    fret: Option<u8>,
    up: bool,
)
    requires
        call_ensures(marks, (&v, neck, barre), r),
    ensures
        r@.contains(Mark::Folded { string, fret, up }) <==> exists|i: int, p: Position, shift: i8|
            #[trigger]
            lands(v, neck.strings, i, p, shift) && p.string == string && (fret is None <==> p.fret
                == neck.capo) && (fret is Some ==> fret->0 == p.fret) && shift != 0 && (up <==> shift
                > 0),
{
    if neck.strings == 0 {
        return ;
    }
    let mark = Mark::Folded { string, fret, up };
    lemma_scene(v, neck, barre, mark);
    lemma_rings(v.notes@, neck.strings as int, mark);
    let n = if v.strings@.len() < neck.strings {
        v.strings@.len() as int
    } else {
        neck.strings as int
    };
    lemma_crosses(v.strings@, n, mark);
    if r@.contains(mark) {
        lemma_placed_only(v.notes@, neck, mark);
        let (i, p, shift) = choose|i: int, p: Position, shift: i8|
            0 <= i < v.notes@.len() && #[trigger] v.notes@[i] == (Outcome::Placed {
                pos: p,
                octave_shift: shift,
            }) && p.string < neck.strings && mark == #[trigger]
                crate::fretboard_panel::placed_mark(p, shift, neck.capo);
        assert(lands(v, neck.strings, i, p, shift));
    }
    if exists|i: int, p: Position, shift: i8| #[trigger]
        lands(v, neck.strings, i, p, shift) && p.string == string && (fret is None <==> p.fret
            == neck.capo) && (fret is Some ==> fret->0 == p.fret) && shift != 0 && (up <==> shift
            > 0) {
        let (i, p, shift) = choose|i: int, p: Position, shift: i8| #[trigger]
            lands(v, neck.strings, i, p, shift) && p.string == string && (fret is None <==> p.fret
                == neck.capo) && (fret is Some ==> fret->0 == p.fret) && shift != 0 && (up <==> shift
                > 0);
        lemma_placed_has(v.notes@, neck, i, p, shift);
    }
}

/// The capo is drawn where one is fitted, the barre where the caller has one and
/// all its strings are there, a faint ring at every place a note wanted and did
/// not get, and a slash when no note at all could be made.
pub proof fn the_rest_of_the_picture(
    v: Voicing,
    neck: Neck,
    barre: Option<Barre>,
    r: Vec<Mark>,
    b: Barre,
    p: Position,
)
    requires
        call_ensures(marks, (&v, neck, barre), r),
        neck.strings > 0,
    ensures
        r@.contains(Mark::Capo) <==> 0 < neck.capo <= neck.frets,
        r@.contains(Mark::Bar(b)) <==> barre == Some(b) && b.hi_string < neck.strings,
        r@.contains(Mark::Ring(p)) <==> p.string < neck.strings && exists|i: int| #[trigger]
            wants(v, i, p),
        r@.contains(Mark::Slash) <==> v.notes@.len() > 0 && v.unreachable_count == v.notes@.len(),
{
    let n = if v.strings@.len() < neck.strings {
        v.strings@.len() as int
    } else {
        neck.strings as int
    };
    let ring = Mark::Ring(p);
    lemma_no_placed(v.notes@, neck, Mark::Capo);
    lemma_no_placed(v.notes@, neck, Mark::Bar(b));
    lemma_no_placed(v.notes@, neck, ring);
    lemma_no_placed(v.notes@, neck, Mark::Slash);
    lemma_scene(v, neck, barre, Mark::Capo);
    lemma_scene(v, neck, barre, Mark::Bar(b));
    lemma_scene(v, neck, barre, ring);
    lemma_scene(v, neck, barre, Mark::Slash);
    lemma_rings(v.notes@, neck.strings as int, Mark::Capo);
    lemma_rings(v.notes@, neck.strings as int, Mark::Bar(b));
    lemma_rings(v.notes@, neck.strings as int, ring);
    lemma_rings(v.notes@, neck.strings as int, Mark::Slash);
    lemma_crosses(v.strings@, n, Mark::Capo);
    lemma_crosses(v.strings@, n, Mark::Bar(b));
    lemma_crosses(v.strings@, n, ring);
    lemma_crosses(v.strings@, n, Mark::Slash);
    if r@.contains(ring) {
        let i = choose|i: int|
            0 <= i < v.notes@.len() && (#[trigger] v.notes@[i] matches Outcome::Conflict { wanted }
                && wanted@.contains(p));
        assert(wants(v, i, p));
    }
    if exists|i: int| #[trigger] wants(v, i, p) {
        let i = choose|i: int| #[trigger] wants(v, i, p);
        assert(v.notes@[i] is Conflict);
    }
}

proof fn lemma_no_placed(notes: Seq<Outcome>, neck: Neck, mark: Mark)
    requires
        mark is Capo || mark is Bar || mark is Ring || mark is Slash || mark is Cross,
    ensures
        !crate::fretboard_panel::placed(notes, neck).contains(mark),
{
    if crate::fretboard_panel::placed(notes, neck).contains(mark) {
        lemma_placed_only(notes, neck, mark);
    }
}

/// A string is crossed out while something is sounding and it is not: faintly
/// when it is merely not in use, and at full strength when it has to be kept
/// quiet. On an idle board nothing is crossed out.
pub proof fn a_quiet_string_is_crossed_out(
    v: Voicing,
    neck: Neck,
    barre: Option<Barre>,
    r: Vec<Mark>,
    string: usize,
    faint: bool,
)
    requires
        call_ensures(marks, (&v, neck, barre), r),
    ensures
        r@.contains(Mark::Cross { string, faint }) <==> {
            &&& v.strings@.contains(StringState::Sounding)
            &&& string < neck.strings
            &&& string < v.strings@.len()
            &&& v.strings@[string as int] == (if faint {
                StringState::Unused
            } else {
                StringState::Skipped
            })
        },
{
    if neck.strings == 0 {
        return ;
    }
    let mark = Mark::Cross { string, faint };
    let n = if v.strings@.len() < neck.strings {
        v.strings@.len() as int
    } else {
        neck.strings as int
    };
    lemma_no_placed(v.notes@, neck, mark);
    lemma_scene(v, neck, barre, mark);
    lemma_rings(v.notes@, neck.strings as int, mark);
    lemma_crosses(v.strings@, n, mark);
    if crate::fretboard_panel::sounds(v.strings@) {
        let i = choose|i: int|
            0 <= i < v.strings@.len() && #[trigger] v.strings@[i] == StringState::Sounding;
        assert(v.strings@.contains(v.strings@[i]));
    }
    if v.strings@.contains(StringState::Sounding) {
        let i = choose|i: int|
            0 <= i < v.strings@.len() && v.strings@[i] == StringState::Sounding;
        assert(v.strings@[i] == StringState::Sounding);
    }
}

/// Which of the six layers a mark is drawn in.
spec fn layer(mark: Mark) -> int {
    match mark {
        Mark::Capo => 0,
        Mark::Bar(_) => 1,
        Mark::Ring(_) => 2,
        Mark::Folded { .. } => 3,
        Mark::Open { .. } => 3,
        Mark::Dot(_) => 3,
        Mark::Cross { .. } => 4,
        Mark::Slash => 5,
    }
}

spec fn in_layer(marks: Seq<Mark>, l: int) -> bool {
    forall|i: int| 0 <= i < marks.len() ==> layer(#[trigger] marks[i]) == l
}

proof fn lemma_layers(v: Voicing, neck: Neck, n: int)
    ensures
        in_layer(crate::fretboard_panel::rings(v.notes@, neck.strings as int), 2),
        in_layer(crate::fretboard_panel::placed(v.notes@, neck), 3),
        0 <= n <= usize::MAX ==> in_layer(crate::fretboard_panel::crosses(v.strings@, n), 4),
{
    let c = crate::fretboard_panel::rings(v.notes@, neck.strings as int);
    let d = crate::fretboard_panel::placed(v.notes@, neck);
    let e = crate::fretboard_panel::crosses(v.strings@, n);
    assert forall|i: int| 0 <= i < c.len() implies layer(#[trigger] c[i]) == 2 by {
        assert(c.contains(c[i]));
        lemma_rings(v.notes@, neck.strings as int, c[i]);
    }
    assert forall|i: int| 0 <= i < d.len() implies layer(#[trigger] d[i]) == 3 by {
        assert(d.contains(d[i]));
        lemma_placed_only(v.notes@, neck, d[i]);
    }
    if 0 <= n <= usize::MAX {
        assert forall|i: int| 0 <= i < e.len() implies layer(#[trigger] e[i]) == 4 by {
            assert(e.contains(e[i]));
            lemma_crosses(v.strings@, n, e[i]);
        }
    }
}

/// Marks are drawn from the board up: the capo, then the barre under the notes
/// that lie on it, then the faint rings under the notes themselves, then the
/// crosses, and the slash over everything.
pub proof fn dots_are_drawn_over_the_barre(
    v: Voicing,
    neck: Neck,
    barre: Option<Barre>,
    r: Vec<Mark>,
    i: int,
    j: int,
)
    requires
        call_ensures(marks, (&v, neck, barre), r),
        0 <= i < j < r@.len(),
    ensures
        r@[i] is Slash ==> r@[j] is Slash,
        r@[j] is Capo ==> r@[i] is Capo,
        r@[j] is Bar ==> r@[i] is Capo || r@[i] is Bar,
        r@[j] is Ring ==> r@[i] is Capo || r@[i] is Bar || r@[i] is Ring,
        r@[i] is Cross ==> r@[j] is Cross || r@[j] is Slash,
{
    let n = if v.strings@.len() < neck.strings {
        v.strings@.len() as int
    } else {
        neck.strings as int
    };
    lemma_layers(v, neck, n);
    let a = if neck.has_capo() {
        seq![Mark::Capo]
    } else {
        seq![]
    };
    let b = if barre is Some && barre->0.hi_string < neck.strings {
        seq![Mark::Bar(barre->0)]
    } else {
        seq![]
    };
    let c = crate::fretboard_panel::rings(v.notes@, neck.strings as int);
    let d = crate::fretboard_panel::placed(v.notes@, neck);
    let e = if crate::fretboard_panel::sounds(v.strings@) {
        crate::fretboard_panel::crosses(v.strings@, n)
    } else {
        seq![]
    };
    let f = if v.notes@.len() > 0 && v.unreachable_count == v.notes@.len() {
        seq![Mark::Slash]
    } else {
        seq![]
    };
    let all = a + b + c + d + e + f;
    assert(r@ =~= all);
    assert forall|k: int| 0 <= k < all.len() implies layer(#[trigger] all[k]) == (if k < a.len() {
        0int
    } else if k < a.len() + b.len() {
        1
    } else if k < a.len() + b.len() + c.len() {
        2
    } else if k < a.len() + b.len() + c.len() + d.len() {
        3
    } else if k < a.len() + b.len() + c.len() + d.len() + e.len() {
        4
    } else {
        5
    }) by {
        let abc = a.len() + b.len() + c.len();
        if a.len() + b.len() <= k < abc {
            assert(all[k] == c[k - a.len() - b.len()]);
        } else if abc <= k < abc + d.len() {
            assert(all[k] == d[k - abc]);
        } else if abc + d.len() <= k < abc + d.len() + e.len() {
            assert(all[k] == e[k - abc - d.len()]);
        }
    }
    assert(layer(r@[i]) <= layer(r@[j]));
}

/// Every note is drawn once: with one more note that lands there is one more
/// mark, and with one more that lands nowhere or cannot be reached there is none.
pub proof fn every_note_is_drawn_once(
    v: Voicing,
    more: Voicing,
    note: Outcome,
    neck: Neck,
    barre: Option<Barre>,
    r: Vec<Mark>,
    q: Vec<Mark>,
)
    requires
        call_ensures(marks, (&v, neck, barre), r),
        call_ensures(marks, (&more, neck, barre), q),
        more.notes@ == v.notes@.push(note),
        more.strings@ == v.strings@,
        neck.strings > 0,
        v.unreachable_count != v.notes@.len(),
        more.unreachable_count != more.notes@.len(),
    ensures
        note matches Outcome::Placed { pos, .. } ==> q@.len() == r@.len() + (if pos.string
            < neck.strings {
            1int
        } else {
            0
        }),
        note is Unreachable ==> q@.len() == r@.len(),
{
    assert(more.notes@.drop_last() =~= v.notes@);
    assert(more.notes@.last() == note);
    let n = neck.strings as int;
    let rings = crate::fretboard_panel::rings(more.notes@, n);
    if !(note is Conflict) {
        assert(rings == crate::fretboard_panel::rings(v.notes@, n));
    }
}

/// Strings are crossed out from the lowest up, each once.
pub proof fn strings_are_crossed_out_in_order(
    v: Voicing,
    neck: Neck,
    barre: Option<Barre>,
    r: Vec<Mark>,
    i: int,
    j: int,
)
    requires
        call_ensures(marks, (&v, neck, barre), r),
        0 <= i < j < r@.len(),
        r@[i] is Cross && r@[j] is Cross,
    ensures
        r@[i]->Cross_string < r@[j]->Cross_string,
{
    let n = if v.strings@.len() < neck.strings {
        v.strings@.len() as int
    } else {
        neck.strings as int
    };
    let lead = crate::fretboard_panel::scene(v, neck, barre).len()
        - crate::fretboard_panel::crosses(v.strings@, n).len() - (if v.notes@.len() > 0
        && v.unreachable_count == v.notes@.len() {
        1int
    } else {
        0
    });
    let e = crate::fretboard_panel::crosses(v.strings@, n);
    lemma_layers(v, neck, n);
    lemma_crosses_climb(v.strings@, n);
    lemma_no_cross_elsewhere(v, neck, barre, n, i);
    lemma_no_cross_elsewhere(v, neck, barre, n, j);
    assert(r@[i] == e[i - lead] && r@[j] == e[j - lead]);
}

proof fn lemma_no_cross_elsewhere(v: Voicing, neck: Neck, barre: Option<Barre>, n: int, i: int)
    requires
        n == (if v.strings@.len() < neck.strings {
            v.strings@.len() as int
        } else {
            neck.strings as int
        }),
        0 <= i < crate::fretboard_panel::scene(v, neck, barre).len(),
        crate::fretboard_panel::scene(v, neck, barre)[i] is Cross,
    ensures
        ({
            let all = crate::fretboard_panel::scene(v, neck, barre);
            let e = crate::fretboard_panel::crosses(v.strings@, n);
            let lead = all.len() - e.len() - (if v.notes@.len() > 0 && v.unreachable_count
                == v.notes@.len() {
                1int
            } else {
                0
            });
            lead <= i < lead + e.len() && all[i] == e[i - lead]
        }),
{
    lemma_layers(v, neck, n);
    let a = if neck.has_capo() {
        seq![Mark::Capo]
    } else {
        seq![]
    };
    let b = if barre is Some && barre->0.hi_string < neck.strings {
        seq![Mark::Bar(barre->0)]
    } else {
        seq![]
    };
    let c = crate::fretboard_panel::rings(v.notes@, neck.strings as int);
    let d = crate::fretboard_panel::placed(v.notes@, neck);
    let e = if crate::fretboard_panel::sounds(v.strings@) {
        crate::fretboard_panel::crosses(v.strings@, n)
    } else {
        seq![]
    };
    let f = if v.notes@.len() > 0 && v.unreachable_count == v.notes@.len() {
        seq![Mark::Slash]
    } else {
        seq![]
    };
    let all = crate::fretboard_panel::scene(v, neck, barre);
    assert(all =~= a + b + c + d + e + f);
    let ab = a.len() + b.len();
    if ab <= i < ab + c.len() {
        assert(all[i] == c[i - ab]);
    } else if ab + c.len() <= i < ab + c.len() + d.len() {
        assert(all[i] == d[i - ab - c.len()]);
    }
}

proof fn lemma_crosses_climb(states: Seq<StringState>, n: int)
    requires
        0 <= n <= usize::MAX,
    ensures
        ({
            let e = crate::fretboard_panel::crosses(states, n);
            forall|i: int, j: int|
                0 <= i < j < e.len() ==> (#[trigger] e[i])->Cross_string < (
                #[trigger] e[j])->Cross_string
        }),
    decreases n,
{
    if n > 0 {
        lemma_crosses_climb(states, n - 1);
        let above = crate::fretboard_panel::crosses(states, n - 1);
        let e = crate::fretboard_panel::crosses(states, n);
        assert forall|i: int, j: int| 0 <= i < j < e.len() implies (#[trigger] e[i])->Cross_string
            < (#[trigger] e[j])->Cross_string by {
            if j < above.len() {
                assert(above[i] == e[i] && above[j] == e[j]);
            } else {
                assert(above.contains(above[i]));
                lemma_crosses(states, n - 1, above[i]);
            }
        }
    }
}

// ── What a click means ─────────────────────────────────────────────────────
/// In the open zone a click is the open string, which under a capo is the
/// capo's fret. Elsewhere it is the space the click is in: behind the first wire
/// it has not passed, never behind the capo, and none past the last wire.
pub proof fn a_click_is_in_the_space_before_its_wire(
    open: bool,
    reached: Vec<bool>,
    neck: Neck,
    r: Option<u8>,
    wire: int,
)
    requires
        call_ensures(fret_at, (open, &reached, neck), r),
        reached@.len() > neck.frets,
        1 <= wire <= neck.frets,
        wire >= neck.capo,
        reached@[wire],
        forall|f: int| 1 <= f < wire && f >= neck.capo ==> !#[trigger] reached@[f],
    ensures
        open ==> r == Some(neck.capo),
        !open ==> r == Some(wire as u8),
{
    if !open {
        assert(crate::fretboard_panel::first_fret(neck) <= wire);
        if let Some(fret) = r {
            if fret < wire {
                assert(reached@[fret as int]);
            }
            if wire < fret {
                assert(!reached@[wire]);
            }
        }
    }
}

/// Past the last wire there is no fret.
pub proof fn a_click_past_the_neck_is_no_fret(reached: Vec<bool>, neck: Neck, r: Option<u8>)
    requires
        call_ensures(fret_at, (false, &reached, neck), r),
        reached@.len() > neck.frets,
        forall|f: int| 1 <= f <= neck.frets && f >= neck.capo ==> !#[trigger] reached@[f],
    ensures
        r is None,
{
    if let Some(fret) = r {
        assert(reached@[fret as int]);
    }
}

// ── What it is made of ─────────────────────────────────────────────────────
/// The capo's three materials: what each is kept under, which a click brings
/// next, and what an unknown name falls back to.
pub proof fn the_capo_comes_in_three_materials(
    style: CapoStyle,
    key: &'static str,
    next: CapoStyle,
    s: &str,
    named: CapoStyle,
)
    requires
        call_ensures(CapoStyle::key, (style,), key),
        call_ensures(CapoStyle::next, (style,), next),
        call_ensures(CapoStyle::from_key, (s,), named),
    ensures
        style == CapoStyle::Black ==> key@ == "black"@ && next == CapoStyle::Silver,
        style == CapoStyle::Silver ==> key@ == "silver"@ && next == CapoStyle::Wood,
        style == CapoStyle::Wood ==> key@ == "wood"@ && next == CapoStyle::Black,
        s@ == key@ ==> named == style,
        named == CapoStyle::Silver <==> s@ == "silver"@,
        named == CapoStyle::Wood <==> s@ == "wood"@,
{
    crate::fretboard_panel::capo_names_come_back(style);
    reveal_strlit("wood");
    reveal_strlit("silver");
    assert("silver"@[0] == 's' && "wood"@[0] == 'w');
}

/// Brushed metal has ticks, wood has grain and black has neither; every bar
/// catches light that is brighter than itself.
pub proof fn a_capo_looks_like_what_it_is_made_of(style: CapoStyle, r: CapoColors)
    requires
        call_ensures(CapoStyle::colors, (style,), r),
    ensures
        r.texture is Some <==> style == CapoStyle::Silver,
        r.grain is Some <==> style == CapoStyle::Wood,
        r.body.light() < r.sheen.light(),
        r.texture is Some ==> r.texture->0.light() < r.body.light(),
        r.grain is Some ==> r.grain->0.light() < r.body.light(),
        style == CapoStyle::Black ==> r.body.light() < 0x60,
        style == CapoStyle::Silver ==> r.body.light() > 3 * 0x80,
        style == CapoStyle::Wood ==> r.body.r > r.body.g > r.body.b,
{
}

/// The three woods: what each is kept under and called, in whatever case the key
/// is written, and what an unknown one falls back to.
pub proof fn the_neck_comes_in_three_woods(
    wood: Wood,
    key: &'static str,
    label: &'static str,
    s: &str,
    named: Wood,
)
    requires
        call_ensures(Wood::key, (wood,), key),
        call_ensures(Wood::label, (wood,), label),
        call_ensures(Wood::from_key, (s,), named),
    ensures
        wood == Wood::Rosewood ==> key@ == "rosewood"@ && label@ == "Rosewood"@,
        wood == Wood::Maple ==> key@ == "maple"@ && label@ == "Maple"@,
        wood == Wood::Ebony ==> key@ == "ebony"@ && label@ == "Ebony"@,
        crate::text::alike(key@, s@) ==> named == wood,
        named != Wood::Rosewood ==> crate::text::alike(named.name(), s@),
{
    if crate::text::alike(key@, s@) {
        crate::fretboard_panel::wood_names_come_back(wood, s@);
    }
}

/// A pale board turns everything drawn on it dark, and a dark one light; the dot
/// is the colour that was asked for, and has an edge only where the board is
/// pale.
pub proof fn everything_on_the_board_stands_out(wood: Wood, dot: Rgb, p: Palette)
    requires
        call_ensures(palette, (wood, dot), p),
    ensures
        p.dot == dot,
        p.dot_edge is Some <==> wood == Wood::Maple,
        wood == Wood::Maple ==> p.board.light() > p.wire.light() > p.string.light()
            && p.board.light() > p.nut.light() && p.board.light() > p.inlay.color.light()
            && p.board.light() > p.on_board.color.light() && p.dot_edge->0.light()
            < p.board.light(),
        wood != Wood::Maple ==> p.board.light() < p.wire.light() < p.string.light()
            && p.board.light() < p.nut.light() && p.board.light() < p.inlay.color.light()
            && p.board.light() < p.on_board.color.light(),
        p.inlay.percent < p.on_board.percent <= 100,
        wood == Wood::Maple ==> p.on_board.percent == 100,
{
}

/// Ebony is the darkest of the three boards and maple the palest.
pub proof fn the_woods_run_from_ebony_to_maple(dot: Rgb, e: Palette, r: Palette, m: Palette)
    requires
        call_ensures(palette, (Wood::Ebony, dot), e),
        call_ensures(palette, (Wood::Rosewood, dot), r),
        call_ensures(palette, (Wood::Maple, dot), m),
    ensures
        e.board.light() < r.board.light() < m.board.light(),
        r.board.r > r.board.g > r.board.b,
        m.board.r > m.board.g > m.board.b,
{
}

/// What each board is painted in.
pub proof fn each_wood_has_its_own_paint(wood: Wood, dot: Rgb, p: Palette)
    requires
        call_ensures(palette, (wood, dot), p),
    ensures
        wood == Wood::Rosewood ==> {
            &&& p.board == (Rgb { r: 0x4a, g: 0x2b, b: 0x22 })
            &&& p.nut == (Rgb { r: 0xE8, g: 0xDC, b: 0xC0 })
            &&& p.string == (Rgb { r: 0xC9, g: 0xC4, b: 0xBC })
            &&& p.wire == (Rgb { r: 0x93, g: 0x89, b: 0x7c })
            &&& p.inlay.color == p.nut && p.inlay.percent == 34
            &&& p.on_board.color == p.nut && p.on_board.percent == 78
        },
        wood == Wood::Maple ==> {
            &&& p.board == (Rgb { r: 0xd8, g: 0xb0, b: 0x72 })
            &&& p.nut == (Rgb { r: 0x4a, g: 0x38, b: 0x22 })
            &&& p.string == (Rgb { r: 0x5a, g: 0x46, b: 0x2c })
            &&& p.wire == (Rgb { r: 0x8a, g: 0x6f, b: 0x45 })
            &&& p.dot_edge == Some(Rgb { r: 0x3a, g: 0x2c, b: 0x1a })
            &&& p.inlay.color == p.dot_edge->0 && p.inlay.percent == 55
            &&& p.on_board.color == p.dot_edge->0 && p.on_board.percent == 100
        },
        wood == Wood::Ebony ==> {
            &&& p.board == (Rgb { r: 0x18, g: 0x15, b: 0x13 })
            &&& p.nut == (Rgb { r: 0xE8, g: 0xDC, b: 0xC0 })
            &&& p.string == (Rgb { r: 0xB8, g: 0xB2, b: 0xA8 })
            &&& p.wire == (Rgb { r: 0x6a, g: 0x64, b: 0x5c })
            &&& p.inlay.color == (Rgb { r: 0xEC, g: 0xE6, b: 0xDA }) && p.inlay.percent == 42
            &&& p.on_board.color == p.inlay.color && p.on_board.percent == 82
        },
{
}

/// What each capo is painted in.
pub proof fn each_capo_has_its_own_paint(style: CapoStyle, r: CapoColors)
    requires
        call_ensures(CapoStyle::colors, (style,), r),
    ensures
        style == CapoStyle::Black ==> r.body == (Rgb { r: 0x1c, g: 0x1c, b: 0x1e }) && r.sheen
            == (Rgb { r: 0x6e, g: 0x6e, b: 0x74 }) && r.arm == (Rgb { r: 0x8a, g: 0x8d, b: 0x92 }),
        style == CapoStyle::Silver ==> r.body == (Rgb { r: 0xa8, g: 0xac, b: 0xb2 }) && r.sheen
            == (Rgb { r: 0xe6, g: 0xe9, b: 0xee }) && r.arm == (Rgb { r: 0x6f, g: 0x73, b: 0x79 })
            && r.texture == Some(Rgb { r: 0x8d, g: 0x92, b: 0x99 }),
        style == CapoStyle::Wood ==> r.body == (Rgb { r: 0x6b, g: 0x45, b: 0x28 }) && r.sheen
            == (Rgb { r: 0x9a, g: 0x6d, b: 0x44 }) && r.arm == (Rgb { r: 0x8a, g: 0x8d, b: 0x92 })
            && r.grain == Some(Rgb { r: 0x53, g: 0x34, b: 0x1c }),
{
}

/// A capo is fitted when it is past the nut and on the neck; a fresh neck is
/// rosewood, and a fresh capo black.
pub proof fn a_capo_past_the_neck_is_not_fitted(
    neck: Neck,
    fitted: bool,
    wood: Wood,
    pale: bool,
    fresh: Wood,
    style: CapoStyle,
)
    requires
        call_ensures(Neck::capo_fitted, (neck,), fitted),
        call_ensures(Wood::pale, (wood,), pale),
        call_ensures(Wood::default, (), fresh),
        call_ensures(CapoStyle::default, (), style),
    ensures
        fitted <==> neck.capo > 0 && neck.capo <= neck.frets,
        pale <==> wood == Wood::Maple,
        fresh == Wood::Rosewood,
        style == CapoStyle::Black,
{
}

} // verus!
