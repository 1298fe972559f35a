//! The shape every menu keeps: where its separators stand, how long it is, how
//! it ends, and that reordering it loses nothing.

use super::entries::{Line, Row};
use super::{MenuAction, MenuView};
use vstd::prelude::*;

verus! {

// ── Categories are worth their hover ───────────────────────────────────────
/// A category opens onto at least two rows.
pub open spec fn worth_a_hover(line: Line) -> bool {
    line matches Line::Category { rows, .. } ==> rows.len() >= 2
}

/// Every category in the menu opens onto at least two rows.
pub open spec fn all_worth_a_hover(lines: Seq<Line>) -> bool {
    forall|i: int| 0 <= i < lines.len() ==> worth_a_hover(#[trigger] lines[i])
}

proof fn lemma_block_worth(lines: Seq<Line>, block: Seq<Line>)
    requires
        all_worth_a_hover(lines),
        all_worth_a_hover(block),
    ensures
        all_worth_a_hover(super::entries::with_block(lines, block)),
{
}

proof fn lemma_led_worth(lines: Seq<Line>, name: Seq<char>)
    requires
        all_worth_a_hover(lines),
    ensures
        all_worth_a_hover(super::entries::led_by(lines, name)),
        all_worth_a_hover(super::entries::recorder_led(lines)),
{
    super::entries::lemma_place_of(lines, name);
    super::entries::lemma_place_of(lines, "Plugin folders"@);
}

proof fn lemma_single_worth(lines: Seq<Line>)
    requires
        all_worth_a_hover(lines),
    ensures
        all_worth_a_hover(super::entries::single_separators(lines)),
    decreases lines.len(),
{
    if lines.len() > 0 {
        lemma_single_worth(lines.drop_last());
    }
}

// ── Separators ─────────────────────────────────────────────────────────────
/// No separator leads the menu, none ends it, and no two stand together.
pub open spec fn neat(lines: Seq<Line>) -> bool {
    &&& lines.len() > 0 ==> lines[0] != Line::Separator && lines.last() != Line::Separator
    &&& forall|i: int, j: int|
        0 <= i < lines.len() && 0 <= j < lines.len() && j == i + 1 ==> !(#[trigger] lines[i]
            == Line::Separator && #[trigger] lines[j] == Line::Separator)
}

/// A category that a click on the sheet music brings forward.
pub open spec fn staff_owned(line: Line) -> bool {
    line matches Line::Category { label, .. } && (label == "Clef"@ || label == "Key"@ || label
        == "Staves"@)
}

/// What the sheet music owns is never the last of its block.
pub open spec fn never_last(lines: Seq<Line>) -> bool {
    forall|i: int|
        0 <= i < lines.len() && staff_owned(#[trigger] lines[i]) ==> i + 1 < lines.len() && lines[i
            + 1] != Line::Separator
}

/// No category is the recorder's.
pub open spec fn no_recorder(lines: Seq<Line>) -> bool {
    forall|i: int|
        0 <= i < lines.len() ==> !super::entries::is_category(
            #[trigger] lines[i],
            "Plugin folders"@,
        )
}

/// The names of the categories that move are nobody else's.
pub(crate) proof fn lemma_names_differ()
    ensures
        "Window"@ != "Clef"@ && "Window"@ != "Key"@ && "Window"@ != "Staves"@,
        "Colors"@ != "Clef"@ && "Colors"@ != "Key"@ && "Colors"@ != "Staves"@,
        "Chords"@ != "Clef"@ && "Chords"@ != "Key"@ && "Chords"@ != "Staves"@,
        "Fretboard"@ != "Clef"@ && "Fretboard"@ != "Key"@ && "Fretboard"@ != "Staves"@,
        "Wood"@ != "Clef"@ && "Wood"@ != "Key"@ && "Wood"@ != "Staves"@,
        "Tuning"@ != "Clef"@ && "Tuning"@ != "Key"@ && "Tuning"@ != "Staves"@,
        "Capo"@ != "Clef"@ && "Capo"@ != "Key"@ && "Capo"@ != "Staves"@,
        "Plugin folders"@ != "Clef"@ && "Plugin folders"@ != "Key"@ && "Plugin folders"@
            != "Staves"@,
        "Plugin folders"@ != "Window"@ && "Plugin folders"@ != "Colors"@ && "Plugin folders"@
            != "Chords"@,
        "Plugin folders"@ != "Fretboard"@ && "Plugin folders"@ != "Wood"@ && "Plugin folders"@
            != "Tuning"@ && "Plugin folders"@ != "Capo"@,
{
    reveal_strlit("Window");
    reveal_strlit("Colors");
    reveal_strlit("Chords");
    reveal_strlit("Clef");
    reveal_strlit("Key");
    reveal_strlit("Staves");
    reveal_strlit("Fretboard");
    reveal_strlit("Wood");
    reveal_strlit("Tuning");
    reveal_strlit("Capo");
    reveal_strlit("Plugin folders");
    assert("Clef"@.len() == 4 && "Key"@.len() == 3 && "Staves"@.len() == 6);
    assert("Fretboard"@.len() == 9 && "Plugin folders"@.len() == 14);
    assert("Window"@.len() == 6 && "Colors"@.len() == 6 && "Chords"@.len() == 6);
    assert("Wood"@.len() == 4 && "Tuning"@.len() == 6 && "Capo"@.len() == 4);
    assert("Clef"@[0] == 'C' && "Clef"@[1] == 'l');
    assert("Staves"@[0] == 'S');
    assert("Window"@[0] == 'W');
    assert("Colors"@[0] == 'C');
    assert("Chords"@[0] == 'C');
    assert("Wood"@[0] == 'W');
    assert("Capo"@[1] == 'a');
    assert("Tuning"@[0] == 'T');
}

proof fn lemma_block_neat(lines: Seq<Line>, block: Seq<Line>)
    requires
        neat(lines),
        neat(block),
        never_last(lines),
        never_last(block),
    ensures
        neat(super::entries::with_block(lines, block)),
        never_last(super::entries::with_block(lines, block)),
        no_recorder(lines) && no_recorder(block) ==> no_recorder(
            super::entries::with_block(lines, block),
        ),
{
    let out = super::entries::with_block(lines, block);
    if lines.len() > 0 && block.len() > 0 {
        let n = lines.len() as int;
        assert forall|i: int, j: int|
            0 <= i < out.len() && 0 <= j < out.len() && j == i + 1 implies !(#[trigger] out[i]
            == Line::Separator && #[trigger] out[j] == Line::Separator) by {
            if j < n {
                assert(out[i] == lines[i] && out[j] == lines[j]);
            } else if i > n {
                assert(out[i] == block[i - n - 1] && out[j] == block[j - n - 1]);
            } else if j == n {
                assert(out[i] == lines.last());
            } else {
                assert(out[j] == block[0]);
            }
        }
        assert forall|i: int| 0 <= i < out.len() && staff_owned(#[trigger] out[i]) implies i + 1
            < out.len() && out[i + 1] != Line::Separator by {
            if i < n {
                assert(out[i] == lines[i]);
                assert(out[i + 1] == lines[i + 1]);
            } else {
                assert(out[i] == block[i - n - 1]);
                assert(out[i + 1] == block[i - n]);
            }
        }
        assert forall|i: int|
            no_recorder(lines) && no_recorder(block) && 0 <= i < out.len() implies
            !super::entries::is_category(#[trigger] out[i], "Plugin folders"@) by {
            if i < n {
                assert(out[i] == lines[i]);
            } else if i > n {
                assert(out[i] == block[i - n - 1]);
            }
        }
    }
}

proof fn lemma_led_neat(lines: Seq<Line>, name: Seq<char>)
    requires
        neat(lines),
        never_last(lines),
        name == "Clef"@ || name == "Key"@ || name == "Staves"@,
    ensures
        neat(super::entries::led_by(lines, name)),
        never_last(super::entries::led_by(lines, name)),
{
    super::entries::lemma_place_of(lines, name);
    let p = super::entries::place_of(lines, name);
    let out = super::entries::led_by(lines, name);
    if p < lines.len() {
        assert(staff_owned(lines[p]));
        assert(lines[p + 1] != Line::Separator);
        assert forall|i: int, j: int|
            0 <= i < out.len() && 0 <= j < out.len() && j == i + 1 implies !(#[trigger] out[i]
            == Line::Separator && #[trigger] out[j] == Line::Separator) by {
            if i > 0 {
                if j <= p {
                    assert(out[i] == lines[i - 1] && out[j] == lines[j - 1]);
                } else if i > p {
                    assert(out[i] == lines[i] && out[j] == lines[j]);
                } else {
                    assert(out[j] == lines[p + 1]);
                }
            }
        }
        assert(out.last() == lines.last());
        assert forall|i: int| 0 <= i < out.len() && staff_owned(#[trigger] out[i]) implies i + 1
            < out.len() && out[i + 1] != Line::Separator by {
            if i == 0 {
                if p == 0 {
                    assert(out[1] == lines[1]);
                } else {
                    assert(out[1] == lines[0]);
                }
            } else if i < p {
                assert(out[i] == lines[i - 1]);
                assert(out[i + 1] == lines[i]);
            } else if i == p {
                assert(out[i] == lines[i - 1]);
                assert(out[i + 1] == lines[i + 1]);
            } else {
                assert(out[i] == lines[i]);
                assert(out[i + 1] == lines[i + 1]);
            }
        }
    }
}

/// A run of lines with no separator in it, every category worth its hover.
spec fn tidy(lines: Seq<Line>) -> bool {
    forall|i: int|
        0 <= i < lines.len() ==> #[trigger] lines[i] != Line::Separator && worth_a_hover(lines[i])
}

/// The last line, if there is one, stays where it is.
spec fn ends_still(lines: Seq<Line>) -> bool {
    lines.len() > 0 ==> !staff_owned(lines.last())
}

proof fn lemma_category(label: Seq<char>, rows: Seq<Row>)
    ensures
        tidy(super::entries::category(label, rows)),
        label != "Plugin folders"@ ==> no_recorder(super::entries::category(label, rows)),
        label != "Clef"@ && label != "Key"@ && label != "Staves"@ ==> ends_still(
            super::entries::category(label, rows),
        ),
{
}

proof fn lemma_concat(a: Seq<Line>, b: Seq<Line>)
    requires
        tidy(a),
        tidy(b),
    ensures
        tidy(a + b),
        no_recorder(a) && no_recorder(b) ==> no_recorder(a + b),
        ends_still(b) && (b.len() > 0 || ends_still(a)) ==> ends_still(a + b),
{
    let out = a + b;
    assert forall|i: int| 0 <= i < out.len() implies #[trigger] out[i] != Line::Separator
        && worth_a_hover(out[i]) by {
        if i < a.len() {
            assert(out[i] == a[i]);
        } else {
            assert(out[i] == b[i - a.len()]);
        }
    }
    assert forall|i: int|
        no_recorder(a) && no_recorder(b) && 0 <= i < out.len() implies !super::entries::is_category(
        #[trigger] out[i],
        "Plugin folders"@,
    ) by {
        if i < a.len() {
            assert(out[i] == a[i]);
        } else {
            assert(out[i] == b[i - a.len()]);
        }
    }
    if b.len() == 0 {
        assert(out =~= a);
    } else {
        assert(out.last() == b.last());
    }
}

proof fn lemma_tidy_is_neat(lines: Seq<Line>)
    requires
        tidy(lines),
        ends_still(lines),
    ensures
        neat(lines),
        never_last(lines),
        all_worth_a_hover(lines),
{
}

proof fn lemma_everywhere(v: MenuView)
    ensures
        neat(super::entries::everywhere(v)),
        never_last(super::entries::everywhere(v)),
        all_worth_a_hover(super::entries::everywhere(v)),
        no_recorder(super::entries::everywhere(v)),
{
    lemma_names_differ();
    let device = if v.caps.midi_ports {
        seq![
            Line::Item(
                super::entries::plain("Select MIDI Input..."@, MenuAction::SelectMidiInput),
            ),
        ]
    } else {
        seq![]
    };
    let w = super::entries::category("Window"@, super::entries::window_rows(v));
    let c = super::entries::category("Colors"@, super::entries::color_rows());
    let d = super::entries::category("Chords"@, super::entries::chord_rows(v));
    lemma_category("Window"@, super::entries::window_rows(v));
    lemma_category("Colors"@, super::entries::color_rows());
    lemma_category("Chords"@, super::entries::chord_rows(v));
    lemma_concat(device, w);
    lemma_concat(device + w, c);
    lemma_concat(device + w + c, d);
    lemma_tidy_is_neat(device + w + c + d);
}

proof fn lemma_theory(v: MenuView)
    ensures
        neat(super::entries::theory(v)),
        never_last(super::entries::theory(v)),
        all_worth_a_hover(super::entries::theory(v)),
        no_recorder(super::entries::theory(v)),
{
    lemma_names_differ();
    let showing = super::entries::theory_showing(v);
    let c = if v.staff_on {
        super::entries::category("Clef"@, super::entries::clef_rows(v))
    } else {
        seq![]
    };
    let k = if showing {
        super::entries::category("Key"@, super::entries::key_rows(v))
    } else {
        seq![]
    };
    let s = if v.staff_on {
        super::entries::category("Staves"@, super::entries::stave_rows(v))
    } else {
        seq![]
    };
    let f = if showing {
        seq![
            Line::Item(
                super::entries::plain(
                    if v.theory_follows_midi {
                        "Stop Following MIDI"@
                    } else {
                        "Follow MIDI"@
                    },
                    MenuAction::ToggleTheoryFollowsMidi,
                ),
            ),
        ]
    } else {
        seq![]
    };
    lemma_category("Clef"@, super::entries::clef_rows(v));
    lemma_category("Key"@, super::entries::key_rows(v));
    lemma_category("Staves"@, super::entries::stave_rows(v));
    lemma_concat(c, k);
    lemma_concat(c + k, s);
    lemma_concat(c + k + s, f);
    lemma_tidy_is_neat(c + k + s + f);
}

proof fn lemma_guitar(v: MenuView)
    ensures
        neat(super::entries::guitar(v)),
        never_last(super::entries::guitar(v)),
        all_worth_a_hover(super::entries::guitar(v)),
        no_recorder(super::entries::guitar(v)),
{
    lemma_names_differ();
    let a = super::entries::category("Fretboard"@, super::entries::fretboard_rows(v));
    let b = super::entries::category("Wood"@, super::entries::wood_rows(v));
    let c = super::entries::category("Tuning"@, super::entries::tuning_rows(v));
    let d = super::entries::category("Capo"@, super::entries::capo_rows(v));
    lemma_category("Fretboard"@, super::entries::fretboard_rows(v));
    lemma_category("Wood"@, super::entries::wood_rows(v));
    lemma_category("Tuning"@, super::entries::tuning_rows(v));
    lemma_category("Capo"@, super::entries::capo_rows(v));
    lemma_concat(a, b);
    lemma_concat(a + b, c);
    lemma_concat(a + b + c, d);
    lemma_tidy_is_neat(a + b + c + d);
}

proof fn lemma_short_blocks(v: MenuView)
    ensures
        neat(super::entries::piano(v)) && never_last(super::entries::piano(v)) && no_recorder(
            super::entries::piano(v),
        ) && all_worth_a_hover(super::entries::piano(v)),
        neat(super::entries::band(v)) && never_last(super::entries::band(v)) && all_worth_a_hover(
            super::entries::band(v),
        ),
        !super::entries::band_showing(v) ==> no_recorder(super::entries::band(v)),
        neat(super::entries::tail(v)) && never_last(super::entries::tail(v)) && no_recorder(
            super::entries::tail(v),
        ) && all_worth_a_hover(super::entries::tail(v)),
{
    lemma_names_differ();
    lemma_category("Plugin folders"@, super::entries::plugin_rows(v));
    lemma_tidy_is_neat(super::entries::band(v));
    lemma_tidy_is_neat(super::entries::piano(v));
}

/// The compartments are joined by separators, never two in a row, never one at
/// the top and never one at the bottom, whichever of them are empty.
pub proof fn the_compartments_are_neat(v: MenuView)
    ensures
        neat(super::entries::compartments(v)),
        never_last(super::entries::compartments(v)),
        !super::entries::band_showing(v) ==> no_recorder(super::entries::compartments(v)),
{
    lemma_everywhere(v);
    lemma_theory(v);
    lemma_guitar(v);
    lemma_short_blocks(v);
    let a = super::entries::everywhere(v);
    let b = super::entries::with_block(a, super::entries::piano(v));
    let c = super::entries::with_block(b, super::entries::theory(v));
    let d = super::entries::with_block(c, super::entries::guitar(v));
    let e = super::entries::with_block(d, super::entries::band(v));
    lemma_block_neat(a, super::entries::piano(v));
    lemma_block_neat(b, super::entries::theory(v));
    lemma_block_neat(c, super::entries::guitar(v));
    lemma_block_neat(d, super::entries::band(v));
    lemma_block_neat(e, super::entries::tail(v));
}

/// What the sheet music owns has no separator under it, as far as there is a
/// line under it.
spec fn none_under(lines: Seq<Line>) -> bool {
    forall|i: int, j: int|
        0 <= i < lines.len() && j == i + 1 && j < lines.len() && staff_owned(#[trigger] lines[i])
            ==> #[trigger] lines[j] != Line::Separator
}

proof fn lemma_single_separators(lines: Seq<Line>)
    requires
        lines.len() > 0,
        none_under(lines),
    ensures
        ({
            let out = super::entries::single_separators(lines);
            &&& out.len() > 0
            &&& out[0] == lines[0]
            &&& out.last() == lines.last()
            &&& none_under(out)
            &&& forall|i: int, j: int|
                0 <= i < out.len() && 0 <= j < out.len() && j == i + 1 ==> !(#[trigger] out[i]
                    == Line::Separator && #[trigger] out[j] == Line::Separator)
        }),
    decreases lines.len(),
{
    if lines.len() == 1 {
        assert(super::entries::single_separators(lines.drop_last()) =~= seq![]);
        assert(super::entries::single_separators(lines) =~= seq![lines[0]]);
    } else {
        let upper = lines.drop_last();
        let above = super::entries::single_separators(upper);
        assert(none_under(upper)) by {
            assert forall|i: int, j: int|
                0 <= i < upper.len() && j == i + 1 && j < upper.len() && staff_owned(
                    #[trigger] upper[i],
                ) implies #[trigger] upper[j] != Line::Separator by {
                assert(lines[i] == upper[i] && lines[j] == upper[j]);
            }
        }
        lemma_single_separators(upper);
        assert(above.last() == lines[lines.len() - 2]);
        let out = super::entries::single_separators(lines);
        assert forall|i: int, j: int|
            0 <= i < out.len() && j == i + 1 && j < out.len() && staff_owned(
                #[trigger] out[i],
            ) implies #[trigger] out[j] != Line::Separator by {
            if j < above.len() {
                assert(out[i] == above[i] && out[j] == above[j]);
            } else {
                assert(out[i] == lines[lines.len() - 2] && out[j] == lines[lines.len() - 1]);
            }
        }
    }
}

/// Leading with the recorder's category, and dropping the separator it leaves
/// behind, keeps a neat menu neat.
proof fn lemma_recorder_led_neat(lines: Seq<Line>)
    requires
        lines.len() > 0,
        neat(lines),
        never_last(lines),
        !super::entries::is_category(lines.last(), "Plugin folders"@),
        0 < super::entries::place_of(lines, "Plugin folders"@) < lines.len()
            ==> lines[super::entries::place_of(lines, "Plugin folders"@) - 1] == Line::Separator,
    ensures
        neat(super::entries::single_separators(super::entries::recorder_led(lines))),
        never_last(super::entries::single_separators(super::entries::recorder_led(lines))),
{
    lemma_names_differ();
    super::entries::lemma_place_of(lines, "Plugin folders"@);
    let p = super::entries::place_of(lines, "Plugin folders"@);
    let led = super::entries::recorder_led(lines);
    let n = lines.len() as int;
    assert(!staff_owned(lines.last()));
    assert forall|i: int, j: int|
        0 <= i < led.len() && j == i + 1 && j < led.len() && staff_owned(
            #[trigger] led[i],
        ) implies #[trigger] led[j] != Line::Separator by {
        if p == n {
            assert(lines[i + 1] != Line::Separator);
        } else if i >= 2 {
            if j - 2 < p {
                assert(led[i] == lines[i - 2] && led[j] == lines[j - 2]);
            } else if i - 2 >= p {
                assert(led[i] == lines[i - 1] && led[j] == lines[j - 1]);
            } else {
                assert(led[i] == lines[p - 1]);
            }
        }
    }
    assert(led.last() == lines.last());
    lemma_single_separators(led);
    let out = super::entries::single_separators(led);
    assert forall|i: int| 0 <= i < out.len() && staff_owned(#[trigger] out[i]) implies i + 1
        < out.len() && out[i + 1] != Line::Separator by {
        if i + 1 == out.len() {
            assert(out[i] == lines.last());
        }
    }
}

/// The recorder's category is a block of its own, so a separator stands above
/// it.
proof fn lemma_recorder_stands_alone(v: MenuView)
    ensures
        ({
            let all = super::entries::compartments(v);
            let p = super::entries::place_of(all, "Plugin folders"@);
            0 < p < all.len() ==> all[p - 1] == Line::Separator
        }),
{
    lemma_everywhere(v);
    lemma_theory(v);
    lemma_guitar(v);
    lemma_short_blocks(v);
    let all = super::entries::compartments(v);
    let a = super::entries::everywhere(v);
    let b = super::entries::with_block(a, super::entries::piano(v));
    let c = super::entries::with_block(b, super::entries::theory(v));
    let d = super::entries::with_block(c, super::entries::guitar(v));
    let e = super::entries::with_block(d, super::entries::band(v));
    lemma_block_neat(a, super::entries::piano(v));
    lemma_block_neat(b, super::entries::theory(v));
    lemma_block_neat(c, super::entries::guitar(v));
    super::entries::lemma_place_of(all, "Plugin folders"@);
    if super::entries::band_showing(v) {
        let n = d.len() as int;
        let at: int = if n == 0 {
            0
        } else {
            n + 1
        };
        assert(e[at] == super::entries::band(v)[0]);
        assert(all[at] == e[at]);
        assert forall|j: int| 0 <= j < at implies !super::entries::is_category(
            #[trigger] all[j],
            "Plugin folders"@,
        ) by {
            assert(all[j] == e[j]);
            if j < n {
                assert(e[j] == d[j]);
            }
        }
        super::entries::lemma_place_is(all, "Plugin folders"@, at);
        if at > 0 {
            assert(all[at - 1] == e[at - 1]);
        }
    } else {
        the_compartments_are_neat(v);
    }
}

/// No menu ever shows a stray separator: none leads it, none ends it, and no two
/// stand together, whatever is on screen and wherever the click landed.
pub proof fn no_menu_shows_a_stray_separator(v: MenuView)
    ensures
        super::entries::menu(v).len() > 0,
        neat(super::entries::menu(v)),
{
    the_compartments_are_neat(v);
    let all = super::entries::compartments(v);
    assert(ends_with_reset(super::entries::tail(v)));
    assert(ends_with_reset(all));
    lemma_recorder_stands_alone(v);
    lemma_recorder_led_neat(all);
    let led = super::entries::led(v);
    lemma_led_neat(led, "Staves"@);
    let s = super::entries::led_by(led, "Staves"@);
    lemma_led_neat(s, "Key"@);
    lemma_led_neat(super::entries::led_by(s, "Key"@), "Clef"@);
    the_menu_ends_with_reset(v);
}

/// No category opens onto nothing or onto a single row.
pub proof fn every_category_is_worth_its_hover(v: MenuView)
    ensures
        all_worth_a_hover(super::entries::menu(v)),
{
    lemma_everywhere(v);
    lemma_theory(v);
    lemma_guitar(v);
    lemma_short_blocks(v);
    let a = super::entries::everywhere(v);
    let b = super::entries::with_block(a, super::entries::piano(v));
    let c = super::entries::with_block(b, super::entries::theory(v));
    let d = super::entries::with_block(c, super::entries::guitar(v));
    let e = super::entries::with_block(d, super::entries::band(v));
    lemma_block_worth(a, super::entries::piano(v));
    lemma_block_worth(b, super::entries::theory(v));
    lemma_block_worth(c, super::entries::guitar(v));
    lemma_block_worth(d, super::entries::band(v));
    lemma_block_worth(e, super::entries::tail(v));
    let all = super::entries::compartments(v);
    lemma_led_worth(all, "Clef"@);
    lemma_single_worth(super::entries::recorder_led(all));
    let led = super::entries::led(v);
    lemma_led_worth(led, "Staves"@);
    let s = super::entries::led_by(led, "Staves"@);
    lemma_led_worth(s, "Key"@);
    lemma_led_worth(super::entries::led_by(s, "Key"@), "Clef"@);
}

// ── Reordering ─────────────────────────────────────────────────────────────
proof fn lemma_led_multiset(lines: Seq<Line>, name: Seq<char>)
    ensures
        super::entries::led_by(lines, name).to_multiset() == lines.to_multiset(),
{
    broadcast use vstd::seq_lib::group_to_multiset_ensures;

    super::entries::lemma_place_of(lines, name);
    let i = super::entries::place_of(lines, name);
    if i < lines.len() {
        vstd::seq_lib::lemma_multiset_commutative(seq![lines[i]], lines.remove(i));
        assert(seq![lines[i]] =~= Seq::empty().push(lines[i]));
        assert(lines.contains(lines[i]));
        assert(super::entries::led_by(lines, name).to_multiset() =~= lines.to_multiset());
    }
}

/// Leading with the sheet music's categories only reorders: the same lines are
/// there, each as often as before.
pub proof fn leading_with_the_staff_loses_nothing(lines: Seq<Line>)
    ensures
        super::entries::staff_led(lines).to_multiset() == lines.to_multiset(),
{
    let s = super::entries::led_by(lines, "Staves"@);
    let k = super::entries::led_by(s, "Key"@);
    lemma_led_multiset(lines, "Staves"@);
    lemma_led_multiset(s, "Key"@);
    lemma_led_multiset(k, "Clef"@);
}

/// Leading with the recorder's category adds the separator under it and loses
/// nothing.
pub proof fn leading_with_the_recorder_loses_nothing(lines: Seq<Line>)
    ensures
        super::entries::recorder_led(lines) == lines || super::entries::recorder_led(
            lines,
        ).to_multiset() == lines.to_multiset().insert(Line::Separator),
{
    broadcast use vstd::seq_lib::group_to_multiset_ensures;

    super::entries::lemma_place_of(lines, "Plugin folders"@);
    let i = super::entries::place_of(lines, "Plugin folders"@);
    if i < lines.len() {
        let lead = seq![lines[i], Line::Separator];
        vstd::seq_lib::lemma_multiset_commutative(lead, lines.remove(i));
        assert(lead =~= Seq::empty().push(lines[i]).push(Line::Separator));
        assert(lines.contains(lines[i]));
        assert(super::entries::recorder_led(lines).to_multiset() =~= lines.to_multiset().insert(
            Line::Separator,
        ));
    }
}

/// Dropping doubled separators drops nothing else.
proof fn lemma_single_counts(lines: Seq<Line>, line: Line)
    requires
        line != Line::Separator,
    ensures
        super::entries::single_separators(lines).to_multiset().count(line)
            == lines.to_multiset().count(line),
    decreases lines.len(),
{
    broadcast use vstd::seq_lib::group_to_multiset_ensures;

    if lines.len() > 0 {
        lemma_single_counts(lines.drop_last(), line);
        assert(lines =~= lines.drop_last().push(lines.last()));
    }
}

/// Where the click landed moves lines and loses none: every row and every
/// category is in the menu as often as in its compartments.
pub proof fn the_click_loses_nothing(v: MenuView, line: Line)
    requires
        line != Line::Separator,
    ensures
        super::entries::menu(v).to_multiset().count(line) == super::entries::compartments(
            v,
        ).to_multiset().count(line),
{
    broadcast use vstd::seq_lib::group_to_multiset_ensures;

    let all = super::entries::compartments(v);
    leading_with_the_recorder_loses_nothing(all);
    lemma_single_counts(super::entries::recorder_led(all), line);
    leading_with_the_staff_loses_nothing(super::entries::led(v));
}

/// A right-click on the band leads with the band's own category, and one on the
/// sheet music with the clefs.
pub proof fn the_clicked_surface_leads(v: MenuView)
    ensures
        v.recorder_first && super::entries::band_showing(v) && !(v.staff_first && v.staff_on)
            ==> super::entries::is_category(super::entries::menu(v)[0], "Plugin folders"@),
        v.staff_first && v.staff_on ==> super::entries::is_category(
            super::entries::menu(v)[0],
            "Clef"@,
        ),
{
    let all = super::entries::compartments(v);
    let a = super::entries::everywhere(v);
    let b = super::entries::with_block(a, super::entries::piano(v));
    let c = super::entries::with_block(b, super::entries::theory(v));
    let d = super::entries::with_block(c, super::entries::guitar(v));
    let e = super::entries::with_block(d, super::entries::band(v));
    if v.staff_on {
        assert(super::entries::is_category(super::entries::theory(v)[0], "Clef"@));
        lemma_has_block(b, super::entries::theory(v), "Clef"@);
        lemma_keeps(c, super::entries::guitar(v), "Clef"@);
        lemma_keeps(d, super::entries::band(v), "Clef"@);
        lemma_keeps(e, super::entries::tail(v), "Clef"@);
    }
    if super::entries::band_showing(v) {
        assert(super::entries::is_category(super::entries::band(v)[0], "Plugin folders"@));
        lemma_has_block(d, super::entries::band(v), "Plugin folders"@);
        lemma_keeps(e, super::entries::tail(v), "Plugin folders"@);
    }
    super::entries::lemma_place_of(all, "Plugin folders"@);
    let led = super::entries::led(v);
    if v.staff_on {
        if v.recorder_first {
            lemma_recorder_led_keeps(all, "Clef"@);
            lemma_single_keeps(super::entries::recorder_led(all), "Clef"@);
        }
        let s = super::entries::led_by(led, "Staves"@);
        let k = super::entries::led_by(s, "Key"@);
        lemma_led_keeps(led, "Staves"@, "Clef"@);
        lemma_led_keeps(s, "Key"@, "Clef"@);
        super::entries::lemma_place_of(k, "Clef"@);
        lemma_has(k, "Clef"@);
    }
    if super::entries::band_showing(v) {
        lemma_has(all, "Plugin folders"@);
        lemma_single_starts(super::entries::recorder_led(all));
    }
}

/// A category called `name` is there.
spec fn has(lines: Seq<Line>, name: Seq<char>) -> bool {
    exists|i: int| 0 <= i < lines.len() && super::entries::is_category(#[trigger] lines[i], name)
}

proof fn lemma_has(lines: Seq<Line>, name: Seq<char>)
    requires
        has(lines, name),
    ensures
        0 <= super::entries::place_of(lines, name) < lines.len(),
        super::entries::is_category(lines[super::entries::place_of(lines, name)], name),
{
    super::entries::lemma_place_of(lines, name);
}

proof fn lemma_has_block(lines: Seq<Line>, block: Seq<Line>, name: Seq<char>)
    requires
        block.len() > 0,
        super::entries::is_category(block[0], name),
    ensures
        has(super::entries::with_block(lines, block), name),
{
    let out = super::entries::with_block(lines, block);
    let i: int = if lines.len() == 0 {
        0
    } else {
        lines.len() as int + 1
    };
    assert(out[i] == block[0]);
}

proof fn lemma_keeps(lines: Seq<Line>, block: Seq<Line>, name: Seq<char>)
    requires
        has(lines, name),
    ensures
        has(super::entries::with_block(lines, block), name),
{
    let i = choose|i: int|
        0 <= i < lines.len() && super::entries::is_category(#[trigger] lines[i], name);
    assert(super::entries::with_block(lines, block)[i] == lines[i]);
}

proof fn lemma_moved_keeps(lines: Seq<Line>, lead: Seq<Line>, p: int, name: Seq<char>)
    requires
        has(lines, name),
        0 <= p < lines.len(),
        lead.len() > 0,
        lead[0] == lines[p],
    ensures
        has(lead + lines.remove(p), name),
{
    let out = lead + lines.remove(p);
    let i = choose|i: int|
        0 <= i < lines.len() && super::entries::is_category(#[trigger] lines[i], name);
    let n = lead.len() as int;
    if i == p {
        assert(out[0] == lines[i]);
    } else if i < p {
        assert(out[n + i] == lines[i]);
    } else {
        assert(out[n + i - 1] == lines[i]);
    }
}

proof fn lemma_led_keeps(lines: Seq<Line>, moved: Seq<char>, name: Seq<char>)
    requires
        has(lines, name),
    ensures
        has(super::entries::led_by(lines, moved), name),
{
    super::entries::lemma_place_of(lines, moved);
    let p = super::entries::place_of(lines, moved);
    if p < lines.len() {
        lemma_moved_keeps(lines, seq![lines[p]], p, name);
    }
}

proof fn lemma_recorder_led_keeps(lines: Seq<Line>, name: Seq<char>)
    requires
        has(lines, name),
    ensures
        has(super::entries::recorder_led(lines), name),
{
    super::entries::lemma_place_of(lines, "Plugin folders"@);
    let p = super::entries::place_of(lines, "Plugin folders"@);
    if p < lines.len() {
        lemma_moved_keeps(lines, seq![lines[p], Line::Separator], p, name);
    }
}

proof fn lemma_single_keeps(lines: Seq<Line>, name: Seq<char>)
    requires
        has(lines, name),
    ensures
        has(super::entries::single_separators(lines), name),
    decreases lines.len(),
{
    let i = choose|i: int|
        0 <= i < lines.len() && super::entries::is_category(#[trigger] lines[i], name);
    let upper = lines.drop_last();
    let above = super::entries::single_separators(upper);
    let out = super::entries::single_separators(lines);
    if i < upper.len() {
        assert(upper[i] == lines[i]);
        lemma_single_keeps(upper, name);
        let k = choose|k: int|
            0 <= k < above.len() && super::entries::is_category(#[trigger] above[k], name);
        assert(out[k] == above[k]);
    } else {
        assert(out[above.len() as int] == lines[i]);
    }
}

/// What leads stays in the lead.
proof fn lemma_single_starts(lines: Seq<Line>)
    requires
        lines.len() > 0,
    ensures
        super::entries::single_separators(lines).len() > 0,
        super::entries::single_separators(lines)[0] == lines[0],
    decreases lines.len(),
{
    if lines.len() > 1 {
        lemma_single_starts(lines.drop_last());
    } else {
        assert(super::entries::single_separators(lines.drop_last()) =~= seq![]);
    }
}

// ── Length and ending ──────────────────────────────────────────────────────
/// How many lines of the menu are not separators.
pub open spec fn subjects(lines: Seq<Line>) -> nat
    decreases lines.len(),
{
    if lines.len() == 0 {
        0
    } else {
        subjects(lines.drop_last()) + (if lines.last() == Line::Separator {
            0nat
        } else {
            1nat
        })
    }
}

proof fn lemma_subjects_concat(a: Seq<Line>, b: Seq<Line>)
    ensures
        subjects(a + b) == subjects(a) + subjects(b),
    decreases b.len(),
{
    if b.len() == 0 {
        assert(a + b =~= a);
    } else {
        assert((a + b).drop_last() =~= a + b.drop_last());
        lemma_subjects_concat(a, b.drop_last());
    }
}

proof fn lemma_subjects_at_most(lines: Seq<Line>)
    ensures
        subjects(lines) <= lines.len(),
    decreases lines.len(),
{
    if lines.len() > 0 {
        lemma_subjects_at_most(lines.drop_last());
    }
}

proof fn lemma_subjects_block(lines: Seq<Line>, block: Seq<Line>)
    ensures
        subjects(super::entries::with_block(lines, block)) == subjects(lines) + subjects(block),
{
    lemma_subjects_concat(lines.push(Line::Separator), block);
    assert(lines.push(Line::Separator).drop_last() =~= lines);
}

proof fn lemma_subjects_moved(lines: Seq<Line>, i: int)
    requires
        0 <= i < lines.len(),
    ensures
        subjects(seq![lines[i]] + lines.remove(i)) == subjects(lines),
        subjects(seq![lines[i], Line::Separator] + lines.remove(i)) == subjects(lines),
{
    let upper = lines.subrange(0, i);
    let lower = lines.subrange(i + 1, lines.len() as int);
    let one = seq![lines[i]];
    let two = seq![lines[i], Line::Separator];
    assert(lines =~= upper + one + lower);
    assert(lines.remove(i) =~= upper + lower);
    lemma_subjects_concat(upper + one, lower);
    lemma_subjects_concat(upper, one);
    lemma_subjects_concat(upper, lower);
    lemma_subjects_concat(one, lines.remove(i));
    lemma_subjects_concat(two, lines.remove(i));
    assert(two.drop_last() =~= one);
}

proof fn lemma_subjects_led(lines: Seq<Line>, name: Seq<char>)
    ensures
        subjects(super::entries::led_by(lines, name)) == subjects(lines),
        subjects(super::entries::recorder_led(lines)) == subjects(lines),
{
    super::entries::lemma_place_of(lines, name);
    super::entries::lemma_place_of(lines, "Plugin folders"@);
    let i = super::entries::place_of(lines, name);
    let p = super::entries::place_of(lines, "Plugin folders"@);
    if i < lines.len() {
        lemma_subjects_moved(lines, i);
    }
    if p < lines.len() {
        lemma_subjects_moved(lines, p);
    }
}

proof fn lemma_subjects_single(lines: Seq<Line>)
    ensures
        subjects(super::entries::single_separators(lines)) == subjects(lines),
    decreases lines.len(),
{
    if lines.len() > 0 {
        let above = super::entries::single_separators(lines.drop_last());
        lemma_subjects_single(lines.drop_last());
        assert(above.push(lines.last()).drop_last() =~= above);
    }
}

proof fn lemma_tail_subjects(v: MenuView)
    ensures
        subjects(super::entries::tail(v)) == (if v.supporter {
            4nat
        } else {
            3nat
        }),
{
    let t = super::entries::tail(v);
    reveal_with_fuel(subjects, 6);
    let t1 = t.drop_last();
    let t2 = t1.drop_last();
    let t3 = t2.drop_last();
    let t4 = t3.drop_last();
    assert(t1.last() == t[t.len() - 2]);
    assert(t2.last() == t[t.len() - 3]);
    assert(t3.last() == t[t.len() - 4]);
    if v.supporter {
        assert(t4.last() == t[0]);
        assert(t4.drop_last().len() == 0);
    } else {
        assert(t4.len() == 0);
    }
}

proof fn lemma_category_subjects(label: Seq<char>, rows: Seq<Row>)
    ensures
        subjects(super::entries::category(label, rows)) <= 1,
{
    lemma_subjects_at_most(super::entries::category(label, rows));
}

proof fn lemma_everywhere_subjects(v: MenuView)
    ensures
        subjects(super::entries::everywhere(v)) <= 4,
{
    let device = if v.caps.midi_ports {
        seq![
            Line::Item(
                super::entries::plain("Select MIDI Input..."@, MenuAction::SelectMidiInput),
            ),
        ]
    } else {
        seq![]
    };
    let w = super::entries::category("Window"@, super::entries::window_rows(v));
    let c = super::entries::category("Colors"@, super::entries::color_rows());
    let d = super::entries::category("Chords"@, super::entries::chord_rows(v));
    lemma_subjects_at_most(device);
    lemma_category_subjects("Window"@, super::entries::window_rows(v));
    lemma_category_subjects("Colors"@, super::entries::color_rows());
    lemma_category_subjects("Chords"@, super::entries::chord_rows(v));
    lemma_subjects_concat(device, w);
    lemma_subjects_concat(device + w, c);
    lemma_subjects_concat(device + w + c, d);
}

proof fn lemma_theory_subjects(v: MenuView)
    ensures
        subjects(super::entries::theory(v)) <= 4,
{
    lemma_category_subjects("Clef"@, super::entries::clef_rows(v));
    lemma_category_subjects("Key"@, super::entries::key_rows(v));
    lemma_category_subjects("Staves"@, super::entries::stave_rows(v));
    lemma_subjects_at_most(super::entries::theory(v));
    let c = super::entries::category("Clef"@, super::entries::clef_rows(v));
    let k = super::entries::category("Key"@, super::entries::key_rows(v));
    let s = super::entries::category("Staves"@, super::entries::stave_rows(v));
    assert(c.len() <= 1 && k.len() <= 1 && s.len() <= 1);
}

proof fn lemma_guitar_subjects(v: MenuView)
    ensures
        subjects(super::entries::guitar(v)) <= (if v.fretboard_on {
            4nat
        } else {
            0nat
        }),
{
    lemma_subjects_at_most(super::entries::guitar(v));
    let a = super::entries::category("Fretboard"@, super::entries::fretboard_rows(v));
    let b = super::entries::category("Wood"@, super::entries::wood_rows(v));
    let c = super::entries::category("Tuning"@, super::entries::tuning_rows(v));
    let d = super::entries::category("Capo"@, super::entries::capo_rows(v));
    assert(a.len() <= 1 && b.len() <= 1 && c.len() <= 1 && d.len() <= 1);
}

/// The top level is a short list of subjects: eighteen with everything on
/// screen, twelve for a piano and its notation.
pub proof fn the_top_level_is_short(v: MenuView)
    ensures
        subjects(super::entries::menu(v)) <= 18,
        !v.fretboard_on && !v.recorder_on && !v.supporter ==> subjects(super::entries::menu(v))
            <= 12,
{
    let a = super::entries::everywhere(v);
    let b = super::entries::with_block(a, super::entries::piano(v));
    let c = super::entries::with_block(b, super::entries::theory(v));
    let d = super::entries::with_block(c, super::entries::guitar(v));
    let e = super::entries::with_block(d, super::entries::band(v));
    let all = super::entries::compartments(v);
    lemma_subjects_block(a, super::entries::piano(v));
    lemma_subjects_block(b, super::entries::theory(v));
    lemma_subjects_block(c, super::entries::guitar(v));
    lemma_subjects_block(d, super::entries::band(v));
    lemma_subjects_block(e, super::entries::tail(v));
    lemma_everywhere_subjects(v);
    lemma_subjects_at_most(super::entries::piano(v));
    lemma_theory_subjects(v);
    lemma_guitar_subjects(v);
    lemma_category_subjects("Plugin folders"@, super::entries::plugin_rows(v));
    lemma_tail_subjects(v);
    lemma_subjects_led(all, "Clef"@);
    lemma_subjects_single(super::entries::recorder_led(all));
    let led = super::entries::led(v);
    let s = super::entries::led_by(led, "Staves"@);
    lemma_subjects_led(led, "Staves"@);
    lemma_subjects_led(s, "Key"@);
    lemma_subjects_led(super::entries::led_by(s, "Key"@), "Clef"@);
}

/// The menu ends with About and Reset.
pub open spec fn ends_with_reset(lines: Seq<Line>) -> bool {
    &&& lines.len() >= 2
    &&& lines[lines.len() - 2] == Line::Item(
        super::entries::plain("About"@, MenuAction::ShowAbout),
    )
    &&& lines[lines.len() - 1] == Line::Item(
        super::entries::plain("Reset Settings to Default"@, MenuAction::ResetSettings),
    )
}

proof fn lemma_led_ending(lines: Seq<Line>, name: Seq<char>)
    requires
        ends_with_reset(lines),
    ensures
        ends_with_reset(super::entries::led_by(lines, name)),
        ends_with_reset(super::entries::recorder_led(lines)),
{
    super::entries::lemma_place_of(lines, name);
    super::entries::lemma_place_of(lines, "Plugin folders"@);
}

proof fn lemma_single_ending(lines: Seq<Line>)
    requires
        ends_with_reset(lines),
    ensures
        ends_with_reset(super::entries::single_separators(lines)),
{
    let upper = lines.drop_last();
    let above = super::entries::single_separators(upper);
    let most = super::entries::single_separators(upper.drop_last());
    assert(upper.last() == lines[lines.len() - 2]);
    assert(above == most.push(upper.last()));
    assert(super::entries::single_separators(lines) == above.push(lines.last()));
}

/// Whatever is on screen and wherever the click landed, the last two rows are
/// About and Reset.
pub proof fn the_menu_ends_with_reset(v: MenuView)
    ensures
        ends_with_reset(super::entries::menu(v)),
{
    let all = super::entries::compartments(v);
    assert(ends_with_reset(super::entries::tail(v)));
    assert(ends_with_reset(all));
    lemma_led_ending(all, "Clef"@);
    lemma_single_ending(super::entries::recorder_led(all));
    let led = super::entries::led(v);
    let s = super::entries::led_by(led, "Staves"@);
    lemma_led_ending(led, "Staves"@);
    lemma_led_ending(s, "Key"@);
    lemma_led_ending(super::entries::led_by(s, "Key"@), "Clef"@);
}

} // verus!
