//! The open menu: when a hover opens, when the pointer has come to rest, and
//! when the whole of it closes. Times are in nanoseconds.

use crate::menu::{
    build_entries, move_recorder_to_the_front, move_staff_to_the_front, note_rest, push_category,
    rows_for_test, settle_submenu, Entry, MenuAction, MenuState, MenuView, Sighting, SubItem,
    SurfaceReport, Waits,
};
use vstd::prelude::*;

verus! {

/// Nothing happens until the pointer has moved. Then a press on a hover opens
/// it at once; over nothing at all whatever is open stays; and back on what is
/// open, or with nothing asked for, nothing is left waiting.
pub proof fn a_press_is_answered_and_a_gap_is_not(
    open: &mut Option<usize>,
    pending: &mut Option<(Option<usize>, u64)>,
    hovered: Option<usize>,
    plain: bool,
    armed: bool,
    still: bool,
    clicked: bool,
    now: u64,
    waiting: bool,
)
    requires
        call_ensures(
            settle_submenu,
            (open, pending, hovered, plain, armed, still, clicked, now),
            waiting,
        ),
    ensures
        !armed ==> *final(open) == *old(open) && *final(pending) == *old(pending) && !waiting,
        armed && clicked && hovered is Some ==> *final(open) == hovered && *final(pending) is None
            && !waiting,
        armed && hovered is None && !plain ==> *final(open) == *old(open) && *final(pending) is None
            && !waiting,
        armed && hovered is Some && hovered == *old(open) ==> *final(open) == *old(open)
            && *final(pending) is None && !waiting,
{
}

/// A pointer at rest is answered on that frame: what it is on opens, and a plain
/// row closes what is open. One that is not at rest is answered once it has
/// asked for the same thing for 140 milliseconds, and not before; asking for
/// something else starts the wait over.
pub proof fn a_hover_waits_for_rest_or_140_milliseconds(
    open: &mut Option<usize>,
    pending: &mut Option<(Option<usize>, u64)>,
    hovered: Option<usize>,
    plain: bool,
    still: bool,
    now: u64,
    waiting: bool,
)
    requires
        call_ensures(
            settle_submenu,
            (open, pending, hovered, plain, true, still, false, now),
            waiting,
        ),
        hovered is Some || plain,
        hovered != *old(open),
    ensures
        still ==> *final(open) == hovered && *final(pending) is None && !waiting,
        !still ==> {
            let since = match *old(pending) {
                Some((what, at)) if what == hovered => Some(at),
                _ => None,
            };
            let ripe = since matches Some(at) && now >= at && now - at >= 140_000_000;
            &&& ripe ==> *final(open) == hovered && *final(pending) is None && !waiting
            &&& !ripe ==> *final(open) == *old(open) && waiting
            &&& !ripe && since is Some ==> *final(pending) == *old(pending)
            &&& since is None ==> *final(pending) == Some((hovered, now))
        },
{
}

/// A pointer has come to rest once it has been near one place for 60
/// milliseconds. Straying starts the rest over, and so does leaving.
pub proof fn a_pointer_rests_after_60_milliseconds(
    rest: &mut Option<u64>,
    pointer: Option<bool>,
    now: u64,
    still: bool,
)
    requires
        call_ensures(note_rest, (rest, pointer, now), still),
    ensures
        pointer is None ==> *final(rest) is None && !still,
        pointer == Some(false) ==> *final(rest) == Some(now) && !still,
        pointer == Some(true) && *old(rest) is None ==> *final(rest) == Some(now) && !still,
        pointer == Some(true) && *old(rest) is Some ==> *final(rest) == *old(rest) && (still
            <==> now >= old(rest)->0 && now - old(rest)->0 >= 60_000_000),
{
}

/// A fresh menu has the rows of its view, and nothing is open, pointed at or
/// waiting.
pub proof fn a_fresh_menu_has_nothing_open(view: MenuView, now: u64, m: MenuState, e: Vec<Entry>)
    requires
        call_ensures(MenuState::open, (view, now), m),
        call_ensures(build_entries, (view,), e),
    ensures
        crate::menu::entries::lines_of(m.entries@) == crate::menu::entries::lines_of(e@),
        m.submenu_open is None && m.pending_sub is None && m.rest is None,
        !m.seen && !m.armed && !m.saw_focus,
        m.dark_mode == view.dark_mode && m.caps == view.caps && m.opened_at == now,
{
}

/// The pointer arms the menu by straying from where it was first seen, and
/// never on the frame on which it is first seen. Once armed, always armed.
pub proof fn a_menu_is_armed_by_straying(
    m: &mut MenuState,
    pointer: Option<Sighting>,
    hovered: Option<usize>,
    plain: bool,
    clicked: bool,
    now: u64,
    waits: Waits,
)
    requires
        call_ensures(MenuState::point, (m, pointer, hovered, plain, clicked, now), waits),
    ensures
        old(m).armed ==> final(m).armed,
        !old(m).armed ==> (final(m).armed <==> old(m).seen && pointer is Some
            && pointer->0.strayed),
        final(m).seen <==> old(m).seen || pointer is Some,
        !final(m).armed ==> final(m).submenu_open == old(m).submenu_open,
        final(m).armed && clicked && hovered is Some ==> final(m).submenu_open == hovered,
        final(m).entries == old(m).entries && final(m).caps == old(m).caps,
        final(m).saw_focus == old(m).saw_focus && final(m).opened_at == old(m).opened_at,
        waits.rest ==> pointer is Some,
        pointer is Some && !pointer->0.near ==> waits.rest && final(m).rest == Some(now),
        pointer is Some && pointer->0.near && old(m).rest is Some ==> (waits.rest <==> !(now
            >= old(m).rest->0 && now - old(m).rest->0 >= 60_000_000)),
{
}

/// One frame of pointing is one step of settling: the hover that is open and the
/// change that waits go on from where they were, by whether the pointer is at
/// rest.
pub proof fn pointing_is_settling(
    m: &mut MenuState,
    pointer: Option<Sighting>,
    hovered: Option<usize>,
    plain: bool,
    clicked: bool,
    now: u64,
    waits: Waits,
    rest: &mut Option<u64>,
    still: bool,
    open: &mut Option<usize>,
    pending: &mut Option<(Option<usize>, u64)>,
    waiting: bool,
)
    requires
        call_ensures(MenuState::point, (m, pointer, hovered, plain, clicked, now), waits),
        *old(rest) == old(m).rest,
        call_ensures(
            note_rest,
            (
                rest,
                match pointer {
                    Some(p) => Some(p.near),
                    None => None,
                },
                now,
            ),
            still,
        ),
        *old(open) == old(m).submenu_open,
        *old(pending) == old(m).pending_sub,
        call_ensures(
            settle_submenu,
            (open, pending, hovered, plain, final(m).armed, still, clicked, now),
            waiting,
        ),
    ensures
        final(m).rest == *final(rest),
        final(m).submenu_open == *final(open),
        final(m).pending_sub == *final(pending),
        waits.dwell == waiting,
        waits.rest <==> pointer is Some && !still,
{
}

/// Hovers are counted from the top, and only what opens onto rows is one.
pub proof fn only_categories_are_hovers(
    lines: Seq<crate::menu::entries::Line>,
    line: crate::menu::entries::Line,
)
    ensures
        crate::menu::state::hovers(Seq::empty()) == 0,
        line is Category ==> crate::menu::state::hovers(lines.push(line))
            == crate::menu::state::hovers(lines) + 1,
        !(line is Category) ==> crate::menu::state::hovers(lines.push(line))
            == crate::menu::state::hovers(lines),
{
    assert(lines.push(line).drop_last() =~= lines);
}

/// The hover that is showing is the one with that many hovers above it; none
/// shows while the menu is closing, or past the last.
pub proof fn the_open_hover_is_counted_from_the_top(
    m: MenuState,
    closing: bool,
    r: Option<usize>,
    at: int,
)
    requires
        call_ensures(MenuState::open_hover, (&m, closing), r),
    ensures
        closing || m.submenu_open is None ==> r is None,
        r matches Some(k) ==> k < m.entries@.len() && m.entries@[k as int] is Submenu,
        r matches Some(k) ==> m.submenu_open is Some && crate::menu::state::hovers(
            crate::menu::entries::lines_of(m.entries@).take(k as int),
        ) == m.submenu_open->0,
        !closing && m.submenu_open is Some && m.submenu_open->0 < crate::menu::state::hovers(
            crate::menu::entries::lines_of(m.entries@),
        ) ==> r is Some,
        r matches Some(k) ==> m.submenu_open == Some(0usize) && 0 <= at < k
            ==> !(m.entries@[at] is Submenu),
        !closing && m.submenu_open == Some(0usize) && 0 <= at < m.entries@.len()
            && m.entries@[at] is Submenu ==> r is Some,
{
    let lines = crate::menu::entries::lines_of(m.entries@);
    if let Some(k) = r {
        assert(lines[k as int] == m.entries@[k as int]@);
        if m.submenu_open == Some(0usize) && 0 <= at < k {
            assert(lines[at] == m.entries@[at]@);
            lemma_some_hover(lines.take(k as int), at);
        }
    }
    if 0 <= at < m.entries@.len() && m.entries@[at] is Submenu {
        assert(lines[at] == m.entries@[at]@);
        lemma_some_hover(lines, at);
    }
}

proof fn lemma_some_hover(lines: Seq<crate::menu::entries::Line>, at: int)
    requires
        0 <= at < lines.len(),
    ensures
        lines[at] is Category ==> crate::menu::state::hovers(lines) > 0,
    decreases lines.len(),
{
    if at < lines.len() - 1 {
        lemma_some_hover(lines.drop_last(), at);
    }
}

/// A menu closes when either of its surfaces asks for it. Besides, a window's
/// menu closes when it had the focus, has been open for more than 250
/// milliseconds, and neither it nor its hover has the focus or the pointer; a
/// layer's closes on a press outside both.
pub proof fn a_menu_closes_when_the_user_has_gone_elsewhere(
    m: &mut MenuState,
    menu: SurfaceReport,
    hover: Option<SurfaceReport>,
    now: u64,
    r: bool,
)
    requires
        call_ensures(MenuState::closes, (m, menu, hover, now), r),
    ensures
        ({
            let (hc, hf, hp, ho) = match hover {
                Some(h) => (
                    h.close,
                    h.focused == Some(true),
                    h.pointer_over == Some(true),
                    h.pressed_outside,
                ),
                None => (false, false, false, true),
            };
            let had_focus = old(m).saw_focus || menu.focused == Some(true) || hf;
            let long = now >= old(m).opened_at && now - old(m).opened_at > 250_000_000;
            &&& menu.close || hc ==> r
            &&& !menu.close && !hc && old(m).caps.child_windows ==> (r <==> had_focus && long
                && menu.focused == Some(false) && !hf && menu.pointer_over != Some(true) && !hp)
            &&& !menu.close && !hc && !old(m).caps.child_windows ==> (r <==> menu.pressed_outside
                && ho)
            &&& old(m).caps.child_windows ==> final(m).saw_focus == had_focus
            &&& final(m).submenu_open == old(m).submenu_open && final(m).armed == old(m).armed
            &&& final(m).entries == old(m).entries
        }),
{
}

// ── Building blocks ────────────────────────────────────────────────────────
/// A category of none is nothing, of one is that row itself, and of more is a
/// hover that holds them all in order; what is above it stays.
pub proof fn a_category_is_a_hover_only_over_several_rows(
    entries: &mut Vec<Entry>,
    label: &str,
    items: Vec<SubItem>,
    i: int,
)
    requires
        call_ensures(push_category, (entries, label, items), ()),
    ensures
        items@.len() == 0 ==> final(entries)@.len() == old(entries)@.len(),
        items@.len() > 0 ==> final(entries)@.len() == old(entries)@.len() + 1,
        0 <= i < old(entries)@.len() ==> final(entries)@[i]@ == old(entries)@[i]@,
        items@.len() == 1 ==> (final(entries)@.last()@ matches crate::menu::entries::Line::Item(row)
            && row == items@[0]@),
        items@.len() > 1 ==> (final(entries)@.last()@ matches crate::menu::entries::Line::Category {
            label: l,
            rows,
        } && l == label@ && rows.len() == items@.len() && (0 <= i < rows.len() ==> rows[i]
            == items@[i]@)),
{
    let before = crate::menu::entries::lines_of(old(entries)@);
    let after = crate::menu::entries::lines_of(final(entries)@);
    assert(before.len() == old(entries)@.len() && after.len() == final(entries)@.len());
    if 0 <= i < old(entries)@.len() {
        assert(before[i] == old(entries)@[i]@ && after[i] == final(entries)@[i]@);
    }
    if items@.len() > 0 {
        assert(after.last() == final(entries)@.last()@);
        assert(after.last() == crate::menu::entries::category(
            label@,
            crate::menu::entries::rows_of(items@),
        )[0]);
    }
}

/// Lifting the recorder's hover puts it first with a separator under it, and
/// everything else behind that in its order; where there is no such hover
/// nothing moves.
pub proof fn the_recorder_is_lifted_to_the_front(e: &mut Vec<Entry>, at: int, i: int)
    requires
        call_ensures(move_recorder_to_the_front, (e,), ()),
        0 <= at < old(e)@.len(),
        crate::menu::entries::is_category(old(e)@[at]@, "Plugin folders"@),
        forall|k: int|
            0 <= k < at ==> !crate::menu::entries::is_category(
                #[trigger] old(e)@[k]@,
                "Plugin folders"@,
            ),
    ensures
        final(e)@.len() == old(e)@.len() + 1,
        final(e)@[0]@ == old(e)@[at]@,
        final(e)@[1] is Separator,
        0 <= i < at ==> final(e)@[i + 2]@ == old(e)@[i]@,
        at < i < old(e)@.len() ==> final(e)@[i + 1]@ == old(e)@[i]@,
{
    let before = crate::menu::entries::lines_of(old(e)@);
    let after = crate::menu::entries::lines_of(final(e)@);
    assert(before.len() == old(e)@.len() && after.len() == final(e)@.len());
    assert(before[at] == old(e)@[at]@);
    assert forall|k: int| 0 <= k < at implies !crate::menu::entries::is_category(
        #[trigger] before[k],
        "Plugin folders"@,
    ) by {
        assert(before[k] == old(e)@[k]@);
    }
    crate::menu::entries::lemma_place_is(before, "Plugin folders"@, at);
    assert(after[0] == final(e)@[0]@ && after[1] == final(e)@[1]@);
    if 0 <= i < at {
        assert(after[i + 2] == final(e)@[i + 2]@ && before[i] == old(e)@[i]@);
    }
    if at < i < old(e)@.len() {
        assert(after[i + 1] == final(e)@[i + 1]@ && before[i] == old(e)@[i]@);
    }
}

/// Lifting the notation's hovers puts the clefs first, then the key, then the
/// staves, each as far as it is there.
pub proof fn the_notation_is_lifted_to_the_front(e: &mut Vec<Entry>, c: int, k: int, s: int)
    requires
        call_ensures(move_staff_to_the_front, (e,), ()),
        0 <= c < old(e)@.len() && crate::menu::entries::is_category(old(e)@[c]@, "Clef"@),
        0 <= k < old(e)@.len() && crate::menu::entries::is_category(old(e)@[k]@, "Key"@),
        0 <= s < old(e)@.len() && crate::menu::entries::is_category(old(e)@[s]@, "Staves"@),
    ensures
        final(e)@.len() == old(e)@.len(),
        crate::menu::entries::is_category(final(e)@[0]@, "Clef"@),
        crate::menu::entries::is_category(final(e)@[1]@, "Key"@),
        crate::menu::entries::is_category(final(e)@[2]@, "Staves"@),
{
    reveal_strlit("Clef");
    reveal_strlit("Key");
    reveal_strlit("Staves");
    assert("Clef"@.len() == 4 && "Key"@.len() == 3 && "Staves"@.len() == 6);
    let a = crate::menu::entries::lines_of(old(e)@);
    let after = crate::menu::entries::lines_of(final(e)@);
    assert(a[c] == old(e)@[c]@ && a[k] == old(e)@[k]@ && a[s] == old(e)@[s]@);
    let b = lemma_lift(a, "Staves"@, s, k, c);
    let d = lemma_lift(b.0, "Key"@, b.1, 0, b.2);
    let f = lemma_lift(d.0, "Clef"@, d.2, 0, 1);
    assert(after == f.0);
    assert(after[0] == final(e)@[0]@ && after[1] == final(e)@[1]@ && after[2] == final(e)@[2]@);
}

/// Lifting one hover: it comes first, and two other lines are found again.
proof fn lemma_lift(
    lines: Seq<crate::menu::entries::Line>,
    name: Seq<char>,
    at: int,
    p: int,
    q: int,
) -> (r: (Seq<crate::menu::entries::Line>, int, int))
    requires
        0 <= at < lines.len(),
        crate::menu::entries::is_category(lines[at], name),
        0 <= p < lines.len() && !crate::menu::entries::is_category(lines[p], name),
        0 <= q < lines.len() && !crate::menu::entries::is_category(lines[q], name),
    ensures
        r.0 == crate::menu::entries::led_by(lines, name),
        r.0.len() == lines.len(),
        crate::menu::entries::is_category(r.0[0], name),
        0 <= r.1 < lines.len() && r.0[r.1] == lines[p],
        0 <= r.2 < lines.len() && r.0[r.2] == lines[q],
        p == 0 ==> r.1 == 1,
        q == 0 ==> r.2 == 1,
        q == 1 && p == 0 ==> r.2 == 2,
{
    crate::menu::entries::lemma_place_of(lines, name);
    let m = crate::menu::entries::place_of(lines, name);
    if m > at {
        assert(!crate::menu::entries::is_category(lines[at], name));
    }
    let out = crate::menu::entries::led_by(lines, name);
    let x = if p < m {
        p + 1
    } else {
        p
    };
    let y = if q < m {
        q + 1
    } else {
        q
    };
    assert(out[x] == lines[p] && out[y] == lines[q]);
    (out, x, y)
}

/// The rows that can be clicked at once are the rows of the top level, in order
/// and each with its own action: with one more line at the end there is one more
/// exactly when that line is a row.
pub proof fn the_top_rows_are_the_plain_ones(
    lines: Seq<crate::menu::entries::Line>,
    line: crate::menu::entries::Line,
    v: MenuView,
    r: Vec<(String, MenuAction)>,
    e: Vec<Entry>,
)
    requires
        call_ensures(rows_for_test, (v,), r),
        call_ensures(build_entries, (v,), e),
        crate::menu::entries::lines_of(e@) == lines.push(line),
    ensures
        line is Item ==> r@.len() > 0 && r@.last().0@ == line->Item_0.label && r@.last().1@
            == line->Item_0.ask,
        r@.len() == crate::menu::entries::top_rows(lines).len() + (if line is Item {
            1int
        } else {
            0
        }),
{
    assert(lines.push(line).drop_last() =~= lines);
    let p = crate::menu::entries::pairs_of(r@);
    assert(p.len() == r@.len());
    if line is Item {
        assert(p.last() == (r@.last().0@, r@.last().1@));
    }
}

} // verus!
