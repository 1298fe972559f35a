//! Colours, notes, views and swatches: the small values everything else is made
//! of.

use crate::color::{Ink, Rgb};
use crate::dialogs::plugins::PluginPicker;
use crate::dialogs::{LearningStatus, PluginEntry};
use crate::fonts::FontChoice;
use crate::mixer_panel::first_swatch;
use crate::notes::{copy_notes, same_notes};
use crate::recorder::{Strip, TimeSignature};
use crate::settings::Settings;
use crate::theory_panel::Views;
use vstd::prelude::*;

verus! {

/// A colour is its three channels, and an ink is a colour at its strength.
pub proof fn a_colour_is_its_channels(r: u8, g: u8, b: u8, percent: u8, c: Rgb, i: Ink)
    requires
        call_ensures(Rgb::new, (r, g, b), c),
        call_ensures(Ink::new, (r, g, b, percent), i),
    ensures
        c.r == r && c.g == g && c.b == b,
        i.color == c && i.percent == percent,
        c.light() == r + g + b,
{
}

/// Notes are the same when there are as many of them and each is the same, and a
/// copy is the same.
pub proof fn notes_are_compared_one_by_one(a: Vec<u8>, b: Vec<u8>, same: bool, copy: Vec<u8>)
    requires
        call_ensures(same_notes, (&a, &b), same),
        call_ensures(copy_notes, (&a,), copy),
    ensures
        same <==> a@.len() == b@.len() && forall|i: int|
            0 <= i < a@.len() ==> #[trigger] a@[i] == b@[i],
        copy@ == a@,
{
    if a@.len() == b@.len() && forall|i: int| 0 <= i < a@.len() ==> #[trigger] a@[i] == b@[i] {
        assert(a@ =~= b@);
    }
}

/// Some diagram is showing unless none is.
pub proof fn one_diagram_is_enough(
    shown: Vec<crate::theory_panel::View>,
    v: Views,
    any: bool,
    fresh: Views,
    settings: Settings,
)
    requires
        call_ensures(Views::of, (shown,), v),
        call_ensures(Views::any, (&v,), any),
        call_ensures(Views::default, (), fresh),
        call_ensures(Settings::default, (), settings),
    ensures
        v.shown@ == shown@,
        any <==> shown@.len() >= 1,
        fresh.shown@.len() == 0,
        !settings.show_fretboard && !settings.theory_circle && !settings.theory_tonnetz
            && !settings.theory_triangles,
{
}

/// Forgetting leaves nothing learned and the switch as it was.
pub proof fn forgetting_leaves_the_switch(l: &mut LearningStatus)
    requires
        call_ensures(LearningStatus::forget, (l,), ()),
    ensures
        final(l).on == old(l).on,
        !final(l).has_learned && final(l).corrections == 0 && final(l).weights@.len() == 0,
{
}

/// A press is on the first swatch it fell on.
pub proof fn the_first_swatch_is_the_one(hits: Vec<bool>, r: Option<usize>, i: int)
    requires
        call_ensures(first_swatch, (&hits,), r),
        0 <= i < hits@.len(),
    ensures
        hits@[i] ==> r is Some && r->0 <= i,
        r is Some ==> r->0 < hits@.len() && hits@[r->0 as int],
{
}

/// The picker's rows are the rows it was given, sorted, and the loaded one is
/// highlighted if it is among them.
pub proof fn sorting_loses_no_row(
    entries: Vec<PluginEntry>,
    current: Option<String>,
    r: PluginPicker,
    row: PluginEntry,
    i: int,
)
    requires
        call_ensures(PluginPicker::over, (entries, current), r),
    ensures
        r.plugins@.len() == entries@.len(),
        r.plugins@.contains(row) <==> entries@.contains(row),
        r.current == current && r.filter@.len() == 0 && r.focus,
        current is Some && 0 <= i < r.plugins@.len() && r.plugins@[i].path@ == current->0@
            ==> r.selected is Some && r.plugins@[r.selected->0 as int].path@ == current->0@,
        current is None ==> r.selected is None,
{
    broadcast use vstd::seq_lib::group_to_multiset_ensures;

    assert(r.plugins@.to_multiset().len() == entries@.to_multiset().len());
    assert(r.plugins@.to_multiset().count(row) == entries@.to_multiset().count(row));
}

/// A source can be sent to the effects, and the effects and the click cannot; the
/// program starts in Courier Prime and in four-four.
pub proof fn sources_are_sent(s: Strip, sends: bool, face: FontChoice, time: TimeSignature)
    requires
        call_ensures(Strip::sends, (s,), sends),
        call_ensures(FontChoice::default, (), face),
        call_ensures(TimeSignature::default, (), time),
    ensures
        sends <==> s is Channel || s == Strip::Track,
        face == FontChoice::Courier,
        time.beats == 4 && time.unit == 4,
{
}

} // verus!
