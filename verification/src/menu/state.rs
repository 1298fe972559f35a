//! An open menu: which hover is showing, and when the whole of it goes away.
//!
//! Times are nanoseconds on whatever clock the caller keeps; only the distance
//! between two of them is ever read.

use super::entries::{build_entries, Entry, Line};
use super::MenuView;
use crate::host::Caps;
use vstd::prelude::*;

verus! {

/// How long the pointer must stay on a different row before the menu acts.
///
/// Short enough to feel immediate when it is where you meant to go, long enough
/// to survive crossing two or three rows on the way to the one that is open.
pub const SUB_SWITCH_DWELL: u64 = 140_000_000;

/// How long the pointer must stay in one place to count as resting.
pub const REST_FOR: u64 = 60_000_000;

/// How long a fresh menu is spared from closing on a loss of focus.
pub const OPENING_GRACE: u64 = 250_000_000;

/// How long ago `since` was. A clock that stepped back reads as no time at all.
pub open spec fn elapsed(since: u64, now: u64) -> int {
    if now >= since {
        now - since
    } else {
        0
    }
}

fn time_since(since: u64, now: u64) -> (r: u64)
    ensures
        r == elapsed(since, now),
{
    if now >= since {
        now - since
    } else {
        0
    }
}

// ── Rest ───────────────────────────────────────────────────────────────────
/// Whether the pointer has come to rest.
///
/// `rest` is since when it has been sitting where it is; `pointer` says whether
/// it is in the window at all and, if so, whether it is still within the slop
/// of the place it was sitting. A pointer that has left starts over on the way
/// back in: re-entry is a crossing, not an arrival.
pub fn note_rest(rest: &mut Option<u64>, pointer: Option<bool>, now: u64) -> (still: bool)
    ensures
        pointer is None ==> *final(rest) is None && !still,
        pointer == Some(true) && *old(rest) is Some ==> *final(rest) == *old(rest) && still == (
        elapsed(old(rest)->0, now) >= REST_FOR),
        pointer is Some && (pointer == Some(false) || *old(rest) is None) ==> *final(rest) == Some(
            now,
        ) && !still,
{
    let near = match pointer {
        None => {
            *rest = None;
            return false;
        },
        Some(near) => near,
    };
    match *rest {
        Some(since) if near => time_since(since, now) >= REST_FOR,
        _ => {
            *rest = Some(now);
            false
        },
    }
}

// ── Which hover is open ────────────────────────────────────────────────────
/// What the pointer asks for: a hover, or none at all. Being over nothing is
/// not an answer, because the gap between the menu and its panel is nothing.
pub open spec fn wanted(hovered: Option<usize>, plain_row: bool) -> Option<Option<usize>> {
    if hovered is Some {
        Some(hovered)
    } else if plain_row {
        Some(None)
    } else {
        None
    }
}

/// `want` has been asked for long enough.
pub open spec fn ripe(
    pending: Option<(Option<usize>, u64)>,
    want: Option<usize>,
    now: u64,
) -> bool {
    pending matches Some((w, at)) && w == want && elapsed(at, now) >= SUB_SWITCH_DWELL
}

/// The hover that is open, the change that is waiting, and whether to come back
/// for it.
pub struct Settled {
    pub open: Option<usize>,
    pub pending: Option<(Option<usize>, u64)>,
    pub waiting: bool,
}

/// What one frame of pointing does to the open hover.
///
/// Nothing until the pointer has moved; a press at once; and every other change
/// of state, opening and closing alike, when the pointer rests or has asked for
/// the same thing long enough.
pub open spec fn settled(
    open: Option<usize>,
    pending: Option<(Option<usize>, u64)>,
    hovered: Option<usize>,
    plain_row: bool,
    armed: bool,
    still: bool,
    clicked: bool,
    now: u64,
) -> Settled {
    if !armed {
        Settled { open, pending, waiting: false }
    } else if clicked && hovered is Some {
        Settled { open: hovered, pending: None, waiting: false }
    } else {
        match wanted(hovered, plain_row) {
            None => Settled { open, pending: None, waiting: false },
            Some(want) => if want == open {
                Settled { open, pending: None, waiting: false }
            } else if still || ripe(pending, want, now) {
                Settled { open: want, pending: None, waiting: false }
            } else {
                Settled {
                    open,
                    pending: if pending is Some && (pending->0).0 == want {
                        pending
                    } else {
                        Some((want, now))
                    },
                    waiting: true,
                }
            },
        }
    }
}

/// Decide which hover is open, given what the pointer is on. True while a
/// change is still pending, so the caller can ask for the frame that completes
/// it.
pub fn settle_submenu(
    open: &mut Option<usize>,
    pending: &mut Option<(Option<usize>, u64)>,
    hovered: Option<usize>,
    hovered_plain_row: bool,
    armed: bool,
    still: bool,
    clicked: bool,
    now: u64,
) -> (waiting: bool)
    ensures
        (Settled { open: *final(open), pending: *final(pending), waiting }) == settled(
            *old(open),
            *old(pending),
            hovered,
            hovered_plain_row,
            armed,
            still,
            clicked,
            now,
        ),
{
    if !armed {
        return false;
    }
    if clicked && hovered.is_some() {
        *open = hovered;
        *pending = None;
        return false;
    }
    let want: Option<usize> = match (hovered, hovered_plain_row) {
        (Some(i), _) => Some(i),
        (None, true) => None,
        (None, false) => {
            *pending = None;
            return false;
        },
    };
    if want == *open {
        *pending = None;
        return false;
    }
    if still {
        *open = want;
        *pending = None;
        return false;
    }
    if let Some((w, at)) = *pending {
        if w == want {
            if time_since(at, now) >= SUB_SWITCH_DWELL {
                *open = want;
                *pending = None;
                return false;
            }
            return true;
        }
    }
    *pending = Some((want, now));
    true
}

/// A menu that appears under the cursor acts on nothing it landed on, however
/// long the pointer sits there.
pub proof fn an_unmoved_pointer_changes_nothing(
    open: Option<usize>,
    pending: Option<(Option<usize>, u64)>,
    hovered: Option<usize>,
    plain_row: bool,
    still: bool,
    clicked: bool,
    now: u64,
)
    ensures
        settled(open, pending, hovered, plain_row, false, still, clicked, now) == (Settled {
            open,
            pending,
            waiting: false,
        }),
{
}

/// A press is a decision, and decisions do not wait.
pub proof fn a_press_opens_at_once(
    open: Option<usize>,
    pending: Option<(Option<usize>, u64)>,
    row: usize,
    plain_row: bool,
    still: bool,
    now: u64,
)
    ensures
        settled(open, pending, Some(row), plain_row, true, still, true, now) == (Settled {
            open: Some(row),
            pending: None,
            waiting: false,
        }),
{
}

/// A pointer that has stopped has arrived: whatever it asks for happens on that
/// frame.
pub proof fn a_rested_pointer_is_answered_at_once(
    open: Option<usize>,
    pending: Option<(Option<usize>, u64)>,
    hovered: Option<usize>,
    plain_row: bool,
    clicked: bool,
    now: u64,
)
    requires
        wanted(hovered, plain_row) is Some,
    ensures
        settled(open, pending, hovered, plain_row, true, true, clicked, now) == (Settled {
            open: wanted(hovered, plain_row)->0,
            pending: None,
            waiting: false,
        }),
{
}

/// Going back to the row that is open cancels a change that was waiting.
pub proof fn returning_cancels_a_pending_change(
    row: usize,
    pending: Option<(Option<usize>, u64)>,
    plain_row: bool,
    still: bool,
    clicked: bool,
    now: u64,
)
    ensures
        settled(Some(row), pending, Some(row), plain_row, true, still, clicked, now) == (Settled {
            open: Some(row),
            pending: None,
            waiting: false,
        }),
{
}

/// The gap between the menu and its panel closes nothing.
pub proof fn empty_space_closes_nothing(
    open: Option<usize>,
    pending: Option<(Option<usize>, u64)>,
    armed: bool,
    still: bool,
    clicked: bool,
    now: u64,
)
    ensures
        settled(open, pending, None, false, armed, still, clicked, now).open == open,
{
}

/// Staying on one row for the dwell is enough, even for a pointer that never
/// quite rests.
pub proof fn a_dwell_is_answered(
    open: Option<usize>,
    hovered: Option<usize>,
    plain_row: bool,
    arrived: u64,
    later: u64,
)
    requires
        wanted(hovered, plain_row) is Some,
        elapsed(arrived, later) >= SUB_SWITCH_DWELL,
    ensures
        ({
            let first = settled(open, None, hovered, plain_row, true, false, false, arrived);
            let second = settled(
                first.open,
                first.pending,
                hovered,
                plain_row,
                true,
                false,
                false,
                later,
            );
            second.open == wanted(hovered, plain_row)->0
        }),
{
}

/// What the pointer is over on one frame.
pub struct Crossing {
    pub hovered: Option<usize>,
    pub plain_row: bool,
    pub now: u64,
}

/// A journey across the menu, frame by frame, by a pointer that neither rests
/// nor presses.
pub open spec fn travelled(
    open: Option<usize>,
    pending: Option<(Option<usize>, u64)>,
    frames: Seq<Crossing>,
) -> Settled
    decreases frames.len(),
{
    if frames.len() == 0 {
        Settled { open, pending, waiting: false }
    } else {
        let before = travelled(open, pending, frames.drop_last());
        let f = frames.last();
        settled(before.open, before.pending, f.hovered, f.plain_row, true, false, false, f.now)
    }
}

proof fn lemma_a_short_journey(
    open: Option<usize>,
    frames: Seq<Crossing>,
    start: u64,
    within: u64,
)
    requires
        within < SUB_SWITCH_DWELL,
        forall|i: int|
            0 <= i < frames.len() ==> start <= (#[trigger] frames[i]).now && frames[i].now - start
                <= within,
    ensures
        travelled(open, None, frames).open == open,
        travelled(open, None, frames).pending matches Some((_, at)) ==> start <= at,
    decreases frames.len(),
{
    if frames.len() > 0 {
        let rest = frames.drop_last();
        assert forall|i: int| 0 <= i < rest.len() implies start <= (#[trigger] rest[i]).now
            && rest[i].now - start <= within by {
            assert(rest[i] == frames[i]);
        }
        lemma_a_short_journey(open, rest, start, within);
        assert(frames.last() == frames[frames.len() - 1]);
    }
}

/// Crossing rows on the way somewhere changes nothing: a journey shorter than
/// the dwell leaves the hover that was open open, whatever it passes over.
pub proof fn a_short_journey_switches_nothing(
    open: Option<usize>,
    frames: Seq<Crossing>,
    start: u64,
)
    requires
        forall|i: int|
            0 <= i < frames.len() ==> start <= (#[trigger] frames[i]).now && frames[i].now - start
                < SUB_SWITCH_DWELL,
    ensures
        travelled(open, None, frames).open == open,
{
    lemma_a_short_journey(open, frames, start, (SUB_SWITCH_DWELL - 1) as u64);
}

proof fn lemma_never_the_same_row(
    open: Option<usize>,
    pending: Option<(Option<usize>, u64)>,
    frames: Seq<Crossing>,
)
    requires
        forall|i: int, j: int|
            #![trigger frames[i], frames[j]]
            0 <= i < frames.len() && j == i + 1 && j < frames.len() ==> wanted(
                frames[i].hovered,
                frames[i].plain_row,
            ) != wanted(frames[j].hovered, frames[j].plain_row),
        pending is None,
    ensures
        travelled(open, pending, frames).open == open,
        travelled(open, pending, frames).pending matches Some((w, _)) ==> frames.len() > 0
            && wanted(frames.last().hovered, frames.last().plain_row) == Some(w),
    decreases frames.len(),
{
    if frames.len() > 0 {
        let rest = frames.drop_last();
        assert forall|i: int, j: int|
            #![trigger rest[i], rest[j]]
            0 <= i < rest.len() && j == i + 1 && j < rest.len() implies wanted(
            rest[i].hovered,
            rest[i].plain_row,
        ) != wanted(rest[j].hovered, rest[j].plain_row) by {
            assert(rest[i] == frames[i] && rest[j] == frames[j]);
        }
        lemma_never_the_same_row(open, pending, rest);
        if rest.len() > 0 {
            let n = frames.len() as int;
            assert(rest.last() == frames[n - 2]);
            assert(frames.last() == frames[n - 1]);
        }
    }
}

/// A flick down the menu opens nothing on the way: a pointer that is over
/// something else on every frame never changes what is open, however long the
/// journey takes.
pub proof fn a_flick_opens_nothing_on_the_way(open: Option<usize>, frames: Seq<Crossing>)
    requires
        forall|i: int, j: int|
            #![trigger frames[i], frames[j]]
            0 <= i < frames.len() && j == i + 1 && j < frames.len() ==> wanted(
                frames[i].hovered,
                frames[i].plain_row,
            ) != wanted(frames[j].hovered, frames[j].plain_row),
    ensures
        travelled(open, None, frames).open == open,
{
    lemma_never_the_same_row(open, None, frames);
}

// ── The open menu ──────────────────────────────────────────────────────────
/// What a surface has to report once it has been drawn. A layer in someone
/// else's window has no focus to lose and no pointer of its own.
#[derive(Clone, Copy, PartialEq, Eq, Debug, Structural)]
pub struct SurfaceReport {
    pub close: bool,
    pub focused: Option<bool>,
    pub pointer_over: Option<bool>,
    pub pressed_outside: bool,
}

/// The pointer inside the menu: how far it has got from where it was first
/// seen, and from where it last sat.
#[derive(Clone, Copy, PartialEq, Eq, Debug, Structural)]
pub struct Sighting {
    /// Further than the arming slop from where it was first seen.
    pub strayed: bool,
    /// Within the resting slop of where it last sat.
    pub near: bool,
}

/// The frames to ask for.
#[derive(Clone, Copy, PartialEq, Eq, Debug, Structural)]
pub struct Waits {
    /// One when the dwell is over.
    pub dwell: bool,
    /// One when the pointer could have come to rest.
    pub rest: bool,
}

/// The menu while it is showing.
pub struct MenuState {
    pub entries: Vec<Entry>,
    /// Which hover is showing, counting hovers from the top.
    pub submenu_open: Option<usize>,
    /// The state the pointer is asking for, and when it started asking.
    pub pending_sub: Option<(Option<usize>, u64)>,
    /// Since when the pointer has been sitting in one place.
    pub rest: Option<u64>,
    /// The pointer has been seen inside the menu.
    pub seen: bool,
    /// The pointer has moved far enough since then to count as pointing at
    /// something. Sticky once true.
    pub armed: bool,
    pub dark_mode: bool,
    pub opened_at: u64,
    pub saw_focus: bool,
    pub caps: Caps,
}

/// `line` opens a hover.
pub open spec fn is_hover(line: Line) -> bool {
    line is Category
}

/// How many of `lines` open a hover.
pub open spec fn hovers(lines: Seq<Line>) -> nat
    decreases lines.len(),
{
    if lines.len() == 0 {
        0
    } else {
        hovers(lines.drop_last()) + (if is_hover(lines.last()) {
            1nat
        } else {
            0nat
        })
    }
}

impl MenuState {
    /// A menu that has just been asked for: nothing open, nothing pointed at.
    pub fn open(view: MenuView, now: u64) -> (r: MenuState)
        ensures
            super::entries::lines_of(r.entries@) == super::entries::menu(view),
            r.submenu_open is None,
            r.pending_sub is None,
            r.rest is None,
            !r.seen,
            !r.armed,
            !r.saw_focus,
            r.dark_mode == view.dark_mode,
            r.opened_at == now,
            r.caps == view.caps,
    {
        let dark_mode = view.dark_mode;
        let caps = view.caps;
        MenuState {
            entries: build_entries(view),
            submenu_open: None,
            pending_sub: None,
            rest: None,
            seen: false,
            armed: false,
            dark_mode,
            opened_at: now,
            saw_focus: false,
            caps,
        }
    }

    /// Take in one frame of pointing.
    pub fn point(
        &mut self,
        pointer: Option<Sighting>,
        hovered: Option<usize>,
        plain_row: bool,
        clicked: bool,
        now: u64,
    ) -> (waits: Waits)
        ensures
            final(self).entries == old(self).entries,
            final(self).dark_mode == old(self).dark_mode,
            final(self).opened_at == old(self).opened_at,
            final(self).saw_focus == old(self).saw_focus,
            final(self).caps == old(self).caps,
            final(self).seen == (old(self).seen || pointer is Some),
            final(self).armed == (old(self).armed || (old(self).seen && pointer is Some
                && pointer->0.strayed)),
            ({
                let sat = pointer is Some && pointer->0.near && old(self).rest is Some;
                let still = sat && elapsed(old(self).rest->0, now) >= REST_FOR;
                &&& final(self).rest == (if pointer is None {
                    None
                } else if sat {
                    old(self).rest
                } else {
                    Some(now)
                })
                &&& waits.rest == (pointer is Some && !still)
                &&& (Settled {
                    open: final(self).submenu_open,
                    pending: final(self).pending_sub,
                    waiting: waits.dwell,
                }) == settled(
                    old(self).submenu_open,
                    old(self).pending_sub,
                    hovered,
                    plain_row,
                    final(self).armed,
                    still,
                    clicked,
                    now,
                )
            }),
    {
        let mut near: Option<bool> = None;
        if let Some(p) = pointer {
            near = Some(p.near);
            if self.seen {
                if p.strayed {
                    self.armed = true;
                }
            } else {
                self.seen = true;
            }
        }
        let still = note_rest(&mut self.rest, near, now);
        let dwell = settle_submenu(
            &mut self.submenu_open,
            &mut self.pending_sub,
            hovered,
            plain_row,
            self.armed,
            still,
            clicked,
            now,
        );
        Waits { dwell, rest: pointer.is_some() && !still }
    }

    /// Where the hover that is showing stands among the entries; none while the
    /// menu is closing.
    pub fn open_hover(&self, closing: bool) -> (r: Option<usize>)
        ensures
            ({
                let lines = super::entries::lines_of(self.entries@);
                &&& r is Some <==> (!closing && self.submenu_open is Some && self.submenu_open->0
                    < hovers(lines))
                &&& r matches Some(at) ==> at < lines.len() && is_hover(lines[at as int]) && hovers(
                    lines.take(at as int),
                ) == self.submenu_open->0
            }),
    {
        if closing {
            return None;
        }
        let wanted: usize = match self.submenu_open {
            Some(n) => n,
            None => {
                return None;
            },
        };
        let ghost lines = super::entries::lines_of(self.entries@);
        let mut above: usize = 0;
        assert(lines.take(0).len() == 0);
        for at in 0..self.entries.len()
            invariant
                lines == super::entries::lines_of(self.entries@),
                !closing,
                self.submenu_open == Some(wanted),
                above <= at,
                above == hovers(lines.take(at as int)),
                above <= wanted,
        {
            let hover = match &self.entries[at] {
                Entry::Submenu { .. } => true,
                _ => false,
            };
            proof {
                assert(lines.take(at + 1).drop_last() =~= lines.take(at as int));
                assert(lines.take(at + 1).last() == self.entries@[at as int]@);
                lemma_hovers_grow(lines, at + 1);
            }
            if hover {
                if above == wanted {
                    return Some(at);
                }
                above = above + 1;
            }
        }
        assert(lines.take(lines.len() as int) =~= lines);
        None
    }

    /// The menu closes on what its surfaces report: either asked to close, or
    /// the user has gone elsewhere.
    ///
    /// A window knows that it lost focus, but that alone is not enough while
    /// the pointer is inside one of the two: under some window managers a fresh
    /// hover takes the focus and the menu never gets it back. A layer has no
    /// focus to lose and watches for a press outside instead.
    pub open spec fn goes(
        self,
        menu: SurfaceReport,
        hover: Option<SurfaceReport>,
        now: u64,
    ) -> bool {
        let asked = menu.close || (hover is Some && hover->0.close);
        let abandoned = if self.caps.child_windows {
            let focus_was_ours = self.saw_focus || menu.focused == Some(true) || (hover is Some
                && hover->0.focused == Some(true));
            let focus_is_elsewhere = menu.focused == Some(false) && !(hover is Some
                && hover->0.focused == Some(true));
            let pointer_is_inside = menu.pointer_over == Some(true) || (hover is Some
                && hover->0.pointer_over == Some(true));
            focus_was_ours && elapsed(self.opened_at, now) > OPENING_GRACE && focus_is_elsewhere
                && !pointer_is_inside
        } else {
            menu.pressed_outside && (hover is None || hover->0.pressed_outside)
        };
        asked || abandoned
    }

    /// Whether the menu closes, once both surfaces have been drawn.
    pub fn closes(
        &mut self,
        menu: SurfaceReport,
        hover: Option<SurfaceReport>,
        now: u64,
    ) -> (r: bool)
        ensures
            r == old(self).goes(menu, hover, now),
            *final(self) == (MenuState {
                saw_focus: old(self).saw_focus || (old(self).caps.child_windows && (menu.focused
                    == Some(true) || (hover is Some && hover->0.focused == Some(true)))),
                ..*old(self)
            }),
    {
        let mut close = menu.close;
        let mut hover_focused = false;
        let mut hover_pointed = false;
        let mut hover_outside = true;
        if let Some(h) = hover {
            close = close || h.close;
            hover_focused = h.focused == Some(true);
            hover_pointed = h.pointer_over == Some(true);
            hover_outside = h.pressed_outside;
        }
        if self.caps.child_windows {
            if menu.focused == Some(true) || hover_focused {
                self.saw_focus = true;
            }
            let grace = time_since(self.opened_at, now) > OPENING_GRACE;
            let all_unfocused = menu.focused == Some(false) && !hover_focused;
            let pointer_inside = menu.pointer_over == Some(true) || hover_pointed;
            if self.saw_focus && grace && all_unfocused && !pointer_inside {
                close = true;
            }
        } else if menu.pressed_outside && hover_outside {
            close = true;
        }
        close
    }
}

proof fn lemma_hovers_grow(lines: Seq<Line>, at: int)
    requires
        0 <= at <= lines.len(),
    ensures
        hovers(lines.take(at)) <= hovers(lines),
    decreases lines.len() - at,
{
    if at < lines.len() {
        lemma_hovers_grow(lines, at + 1);
        assert(lines.take(at + 1).drop_last() =~= lines.take(at));
    } else {
        assert(lines.take(at) =~= lines);
    }
}

/// A menu in its own window stays while the pointer is inside it or its hover,
/// unless it is asked to close.
pub proof fn a_pointer_inside_keeps_the_menu(
    state: MenuState,
    menu: SurfaceReport,
    hover: Option<SurfaceReport>,
    now: u64,
)
    requires
        state.caps.child_windows,
        menu.pointer_over == Some(true) || (hover is Some && hover->0.pointer_over == Some(true)),
        !menu.close,
        hover is Some ==> !hover->0.close,
    ensures
        !state.goes(menu, hover, now),
{
}

} // verus!
