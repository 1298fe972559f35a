//! The desk: what is heard, what can be pressed and where, and how names are cut.

use crate::color::Rgb;
use crate::mixer_panel::{
    cut_candidates, first_that_fits, ink, meter_ticks, plugin_candidates, resolve_press,
    strip_bands, strip_face, strip_glyph, strip_targets, swatch_cell, targets, DeskInk, DragAxis,
    Face, Glyph, Hit, MixerView, PalettePress, StripBands, StripView,
};
use crate::recorder::{ChannelKind, Column, Strip};
use vstd::prelude::*;

verus! {

/// Once anything is soloed only what is soloed is heard, and otherwise whatever
/// is not muted; the master and an empty slot have nothing to silence.
pub proof fn solo_is_asked_before_mute(v: MixerView, at: usize, r: bool)
    requires
        call_ensures(MixerView::heard, (&v, at), r),
    ensures
        at >= v.strips@.len() ==> r,
        at < v.strips@.len() && (v.strips@[at as int].strip is None || v.strips@[at as int].empty)
            ==> r,
        at < v.strips@.len() && v.strips@[at as int].strip is Some && !v.strips@[at as int].empty
            ==> r == (if v.any_solo {
            v.strips@[at as int].soloed
        } else {
            !v.strips@[at as int].muted
        }),
{
}

/// A filled channel and the backing track can be sent to the effects. The click
/// and the effects' own return cannot, nor the master, nor what is empty.
pub proof fn only_sources_feed_the_effects(v: StripView, sends: bool, live: bool)
    requires
        call_ensures(StripView::sends, (&v,), sends),
        call_ensures(StripView::live, (&v,), live),
    ensures
        sends <==> !v.empty && (v.strip matches Some(s) && (s is Channel || s is Track)),
        live <==> !v.empty && v.strip is Some,
{
}

/// A control's column is the one it was made for, and only a fader and a send
/// are dragged: up and down, over the same distance.
pub proof fn a_control_knows_its_column_and_its_travel(
    at: Column,
    n: usize,
    hit: Hit,
    column: Column,
    axis: Option<DragAxis>,
    travel: Option<u32>,
)
    requires
        call_ensures(Hit::column, (hit,), column),
        call_ensures(Hit::axis, (hit,), axis),
        call_ensures(Hit::travel, (hit,), travel),
        hit == Hit::Fader(at) || hit == Hit::Send(at) || hit == Hit::Mute(at) || hit == Hit::Solo(
            at,
        ) || hit == Hit::Add(at) || hit == Hit::Insert(at, n) || hit == Hit::Paint(at, n) || hit
            == Hit::Palette(at) || hit == Hit::Db(at) || hit == Hit::Name(at),
    ensures
        column == at,
        hit == Hit::Fader(at) || hit == Hit::Send(at) ==> axis == Some(DragAxis::Vertical) && travel
            == Some(420u32),
        hit != Hit::Fader(at) && hit != Hit::Send(at) ==> axis is None && travel is None,
{
}

/// Where everything on a strip stands, in thousandths of its height from the
/// top. What has no send starts its travel higher, and what has no source to
/// choose has its second line where the icon would be.
pub proof fn a_strip_is_read_from_top_to_bottom(v: StripView, r: StripBands)
    requires
        call_ensures(strip_bands, (&v,), r),
    ensures
        ({
            let source = v.strip matches Some(s) && !(s is Fx);
            let sends = v.strip matches Some(s) && (s is Channel || s is Track);
            &&& v.empty ==> r.all_plus && r.name is None && r.icon is None && r.detail is None
                && r.rack is None && r.send is None && r.travel is None && r.db is None
                && r.switches is None
            &&& !v.empty ==> {
                &&& !r.all_plus
                &&& r.name is Some && (r.name->0.top, r.name->0.bottom) == (22u16, 78u16)
                &&& r.icon is Some <==> source
                &&& source ==> (r.icon->0.top, r.icon->0.bottom) == (88u16, 145u16)
                &&& r.detail is Some && (r.detail->0.top, r.detail->0.bottom) == (if source {
                    (152u16, 190u16)
                } else {
                    (86u16, 128u16)
                })
                &&& r.rack is Some && (r.rack->0.top, r.rack->0.bottom) == (195u16, 395u16)
                &&& r.send is Some <==> sends
                &&& sends ==> (r.send->0.top, r.send->0.bottom) == (410u16, 530u16)
                &&& r.travel is Some && (r.travel->0.top, r.travel->0.bottom) == (if sends {
                    (550u16, 820u16)
                } else {
                    (420u16, 820u16)
                })
                &&& r.db is Some && (r.db->0.top, r.db->0.bottom) == (830u16, 888u16)
                &&& r.switches is Some <==> v.strip is Some
                &&& v.strip is Some ==> (r.switches->0.top, r.switches->0.bottom) == (
                    902u16,
                    975u16,
                )
            }
        }),
{
}

/// What can be pressed on a strip: the whole of an empty slot is its plus; a
/// filled strip has its fader, its inserts, its readout and its name, a send if
/// it can be sent, mute and solo unless it is the master, and its icon where it
/// has a source to choose. Nothing else.
pub proof fn a_strip_offers_exactly_its_controls(
    v: StripView,
    at: Column,
    r: Vec<Hit>,
    n: usize,
    hit: Hit,
)
    requires
        call_ensures(strip_targets, (&v, at), r),
    ensures
        v.empty ==> r@ == seq![Hit::Add(at)],
        !v.empty ==> {
            &&& r@.contains(Hit::Fader(at))
            &&& r@.contains(Hit::Db(at))
            &&& r@.contains(Hit::Name(at))
            &&& n < 3 ==> r@.contains(Hit::Insert(at, n))
            &&& r@.contains(Hit::Send(at)) <==> (v.strip matches Some(s) && (s is Channel
                || s is Track))
            &&& r@.contains(Hit::Mute(at)) <==> v.strip is Some
            &&& r@.contains(Hit::Solo(at)) <==> v.strip is Some
            &&& r@.contains(Hit::Add(at)) <==> (v.strip matches Some(s) && !(s is Fx))
        },
        r@.contains(hit) ==> hit == Hit::Fader(at) || hit == Hit::Send(at) || hit == Hit::Mute(at)
            || hit == Hit::Solo(at) || hit == Hit::Add(at) || hit == Hit::Insert(at, 0) || hit
            == Hit::Insert(at, 1) || hit == Hit::Insert(at, 2) || hit == Hit::Db(at) || hit
            == Hit::Name(at),
{
    let o = r@;
    if !v.empty {
        let sends = v.can_send();
        let live = v.is_live();
        let icon = v.has_icon();
        let a: int = if sends {
            2
        } else {
            1
        };
        let b: int = if live {
            a + 2
        } else {
            a
        };
        let c: int = if icon {
            b + 1
        } else {
            b
        };
        assert(o.len() == c + 5);
        assert(o[0] == Hit::Fader(at));
        if sends {
            assert(o[1] == Hit::Send(at));
        }
        if live {
            assert(o[a] == Hit::Mute(at));
            assert(o[a + 1] == Hit::Solo(at));
        }
        if icon {
            assert(o[b] == Hit::Add(at));
        }
        assert(o[c] == Hit::Insert(at, 0));
        assert(o[c + 1] == Hit::Insert(at, 1));
        assert(o[c + 2] == Hit::Insert(at, 2));
        assert(o[c + 3] == Hit::Db(at));
        assert(o[c + 4] == Hit::Name(at));
    }
}

/// The desk offers what its strips offer, from the left: every control of every
/// strip, in its own column.
pub proof fn the_desk_offers_what_its_strips_offer(
    view: MixerView,
    all: Vec<Hit>,
    at: usize,
    one: Vec<Hit>,
    hit: Hit,
)
    requires
        call_ensures(targets, (&view,), all),
        at < view.strips@.len(),
        call_ensures(strip_targets, (&view.strips@[at as int], Column(at)), one),
    ensures
        one@.contains(hit) ==> all@.contains(hit),
        all@.contains(hit) && hit.place() == Column(at) ==> one@.contains(hit),
{
    assert(view.strips@.len() == view.strips.len());
    lemma_offered(view.strips@, view.strips@.len() as int, at as int, hit);
}

proof fn lemma_places(v: StripView, at: Column, hit: Hit)
    ensures
        crate::mixer_panel::offered(v, at).contains(hit) ==> hit.place() == at,
{
    let o = crate::mixer_panel::offered(v, at);
    if o.contains(hit) {
        let i = choose|i: int| 0 <= i < o.len() && o[i] == hit;
        if !v.empty {
            crate::mixer_panel::a_filled_strip_offers_its_own(v, at, i);
        }
    }
}

proof fn lemma_offered(strips: Seq<StripView>, n: int, at: int, hit: Hit)
    requires
        0 <= at < strips.len(),
        0 <= n <= strips.len() <= usize::MAX,
    ensures
        at < n && crate::mixer_panel::offered(strips[at], Column(at as usize)).contains(hit)
            ==> crate::mixer_panel::all_offered(strips, n).contains(hit),
        crate::mixer_panel::all_offered(strips, n).contains(hit) && hit.place() == Column(
            at as usize,
        ) ==> at < n && crate::mixer_panel::offered(strips[at], Column(at as usize)).contains(hit),
    decreases n,
{
    if n > 0 {
        lemma_offered(strips, n - 1, at, hit);
        let above = crate::mixer_panel::all_offered(strips, n - 1);
        let mine = crate::mixer_panel::offered(strips[n - 1], Column((n - 1) as usize));
        let all = crate::mixer_panel::all_offered(strips, n);
        lemma_places(strips[n - 1], Column((n - 1) as usize), hit);
        if above.contains(hit) {
            let k = choose|k: int| 0 <= k < above.len() && above[k] == hit;
            assert(all[k] == hit);
        }
        if mine.contains(hit) {
            let k = choose|k: int| 0 <= k < mine.len() && mine[k] == hit;
            assert(all[above.len() + k] == hit);
        }
        if all.contains(hit) && !above.contains(hit) {
            let k = choose|k: int| 0 <= k < all.len() && all[k] == hit;
            if k < above.len() {
                assert(above[k] == hit);
            }
            assert(mine[k - above.len()] == hit);
        }
    }
}

/// A press is the first control it fell on. An open palette is asked first: a
/// swatch paints, the rest of its strip closes it without painting, and off the
/// strip it is as if it were not there.
pub proof fn a_press_is_the_palettes_first(
    palette: Option<PalettePress>,
    under: Vec<Hit>,
    r: Option<Hit>,
    bare: Option<Hit>,
)
    requires
        call_ensures(resolve_press, (palette, &under), r),
        call_ensures(resolve_press, (None, &under), bare),
    ensures
        under@.len() == 0 ==> bare is None,
        under@.len() > 0 ==> bare == Some(under@[0]),
        palette matches Some(p) ==> {
            &&& p.swatch matches Some(c) ==> r == Some(Hit::Paint(p.at, c))
            &&& p.swatch is None && p.on_panel ==> r == Some(Hit::Paint(p.at, usize::MAX))
            &&& p.swatch is None && !p.on_panel ==> r == bare
        },
        palette is None ==> r == bare,
{
}

/// Swatches fill a row of three before the next.
pub proof fn swatches_stand_three_across(i: usize, r: (usize, usize))
    requires
        i < 27,
        call_ensures(swatch_cell, (i,), r),
    ensures
        3 * r.0 + r.1 == i,
        r.1 < 3,
        r.0 < 9,
{
}

/// A painted strip keeps its paint whether or not it is heard; an unpainted one
/// says when it is not.
pub proof fn paint_outlasts_silence(v: StripView, heard: bool, r: Face)
    requires
        call_ensures(strip_face, (&v, heard), r),
    ensures
        v.color == 0 && heard ==> r == Face::Plain,
        v.color == 0 && !heard ==> r == Face::Silent,
        0 < v.color < 27 ==> (r matches Face::Painted(c) && (c.r, c.g, c.b)
            == crate::mixer_panel::STRIP_COLORS@[v.color as int]),
        v.color >= 27 ==> (r matches Face::Painted(c) && (c.r, c.g, c.b)
            == crate::mixer_panel::STRIP_COLORS@[26]),
{
}

/// The paints run hue by hue after the neutrals, each hue in three tones from
/// dark to light: reds have the most red in them, greens green and blues blue.
pub proof fn the_paints_run_from_dark_to_light(hue: int, tone: int)
    requires
        0 <= hue < 9,
        0 <= tone < 2,
    ensures
        ({
            let c = crate::mixer_panel::STRIP_COLORS@[3 * hue + tone];
            let d = crate::mixer_panel::STRIP_COLORS@[3 * hue + tone + 1];
            &&& c.0 < d.0 && c.1 < d.1 && c.2 < d.2
            &&& hue == 1 ==> c.0 > c.1 && c.0 > c.2 && d.0 > d.1 && d.0 > d.2
            &&& hue == 4 ==> c.1 > c.0 && c.1 > c.2 && d.1 > d.0 && d.1 > d.2
            &&& hue == 6 ==> c.2 > c.0 && c.2 > c.1 && d.2 > d.0 && d.2 > d.1
        }),
{
    let all = crate::mixer_panel::STRIP_COLORS@;
    assert(all.len() == 27);
    assert(all[0] == (0x00u8, 0x00u8, 0x00u8) && all[1] == (0x36u8, 0x33u8, 0x30u8));
}

/// What feeds a strip is what its picture shows: a keyboard for MIDI, a
/// microphone for audio, a waveform for the backing track and a metronome for the
/// click.
pub proof fn the_picture_is_of_the_source(v: StripView, r: Option<Glyph>)
    requires
        call_ensures(strip_glyph, (&v,), r),
    ensures
        r == Some(Glyph::Instrument) <==> (v.strip matches Some(Strip::Channel(_))) && v.kind
            == Some(ChannelKind::Midi),
        r == Some(Glyph::Microphone) <==> (v.strip matches Some(Strip::Channel(_))) && v.kind
            == Some(ChannelKind::Audio),
        r == Some(Glyph::Waveform) <==> v.strip == Some(Strip::Track),
        r == Some(Glyph::Metronome) <==> v.strip == Some(Strip::Click),
{
}

/// The desk is bone on its own wood, paler by day; what is engraved is dark, the
/// lamps tell mute from solo, and a meter warns before it is full.
pub proof fn the_desk_is_bone_on_wood(dark: bool, wood: Rgb, r: DeskInk, day: DeskInk)
    requires
        call_ensures(ink, (dark, wood), r),
        call_ensures(ink, (false, wood), day),
    ensures
        r.wood == wood,
        dark ==> r.face.light() < day.face.light(),
        r.engrave.light() < 0x80 && r.track.light() < r.engrave.light(),
        r.faint.color == r.engrave && r.faint.percent == 55,
        r.lit.b > r.lit.g > r.lit.r,
        r.mute.r > r.mute.b && r.mute.g > r.mute.b,
        r.solo.r > r.solo.g + r.solo.b,
        r.meter_lo.g > r.meter_lo.r && r.meter_lo.g > r.meter_lo.b,
        r.meter_hi == r.mute,
        r.gr.r > r.gr.g > r.gr.b,
{
}

/// The master's scale has every mark of a channel's and more between them.
pub proof fn the_master_has_the_fuller_scale(
    channel: StripView,
    master: StripView,
    c: Vec<i32>,
    m: Vec<i32>,
    db: i32,
)
    requires
        channel.strip is Some,
        master.strip is None,
        call_ensures(meter_ticks, (&channel,), c),
        call_ensures(meter_ticks, (&master,), m),
    ensures
        c@ == seq![0i32, (-12) as i32, (-24) as i32, (-48) as i32],
        m@ == seq![6i32, 0, (-3) as i32, (-6) as i32, (-12) as i32, (-18) as i32, (-24) as i32, (-36) as i32, (-48) as i32],
        c@.contains(db) ==> m@.contains(db),
{
    assert(c@ =~= seq![0i32, (-12) as i32, (-24) as i32, (-48) as i32]);
    assert(m@ =~= seq![6i32, 0, (-3) as i32, (-6) as i32, (-12) as i32, (-18) as i32, (-24) as i32, (-36) as i32, (-48) as i32]);
    assert(m@[1] == 0 && m@[4] == -12 && m@[6] == -24 && m@[8] == -48);
}

// ── Cutting names ──────────────────────────────────────────────────────────
/// A name is tried whole, and then one character shorter each time, with an
/// ellipsis where it was cut and no white space in front of that.
pub proof fn a_name_is_cut_from_the_end(s: &str, r: Vec<String>, i: int)
    requires
        call_ensures(cut_candidates, (s,), r),
        0 <= i <= s@.len(),
    ensures
        r@.len() == s@.len() + 1,
        i == 0 ==> r@[i]@ == s@,
        i > 0 ==> {
            let shown = r@[i]@.drop_last();
            &&& r@[i]@.len() > 0
            &&& r@[i]@.last() == '\u{2026}'
            &&& shown.is_prefix_of(s@.take(s@.len() - i))
            &&& crate::text::all_white(s@.take(s@.len() - i).skip(shown.len() as int))
            &&& shown.len() > 0 ==> !crate::text::is_white(shown.last())
        },
{
    let t = crate::fonts::texts(r@);
    assert(t.len() == r@.len());
    assert(t[i] == r@[i]@);
    if i > 0 {
        let front = s@.take(s@.len() - i);
        let kept = crate::text::trimmed_end(front);
        reveal_strlit("\u{2026}");
        assert("\u{2026}"@ =~= seq!['\u{2026}']);
        assert(r@[i]@ == kept + "\u{2026}"@);
        assert(r@[i]@.drop_last() =~= kept);
        lemma_kept(front);
    }
}

proof fn lemma_kept(s: Seq<char>)
    ensures
        ({
            let kept = crate::text::trimmed_end(s);
            &&& kept.is_prefix_of(s)
            &&& crate::text::all_white(s.skip(kept.len() as int))
            &&& kept.len() > 0 ==> !crate::text::is_white(kept.last())
        }),
    decreases s.len(),
{
    if s.len() > 0 && crate::text::is_white(s.last()) {
        let rest = s.drop_last();
        lemma_kept(rest);
        let kept = crate::text::trimmed_end(s);
        let n = kept.len() as int;
        assert(kept.is_prefix_of(s)) by {
            assert(rest.subrange(0, n) == kept);
            assert(s.subrange(0, n) =~= kept);
        }
        assert forall|i: int| 0 <= i < s.skip(n).len() implies crate::text::is_white(
            #[trigger] s.skip(n)[i],
        ) by {
            if n + i < rest.len() {
                assert(rest.skip(n)[i] == s[n + i]);
            }
        }
    } else {
        assert(s.subrange(0, s.len() as int) =~= s);
    }
}

/// A word has something in it and no white space.
pub open spec fn is_word(w: Seq<char>) -> bool {
    w.len() > 0 && forall|i: int| 0 <= i < w.len() ==> !crate::text::is_white(#[trigger] w[i])
}

proof fn lemma_reading(s: Seq<char>, w: Seq<char>)
    requires
        forall|i: int| 0 <= i < w.len() ==> !crate::text::is_white(#[trigger] w[i]),
    ensures
        crate::mixer_panel::reading_words(s + w) == (
            crate::mixer_panel::reading_words(s).0,
            crate::mixer_panel::reading_words(s).1 + w,
        ),
    decreases w.len(),
{
    if w.len() == 0 {
        assert(s + w =~= s);
        assert(crate::mixer_panel::reading_words(s).1 + w =~= crate::mixer_panel::reading_words(
            s,
        ).1);
    } else {
        lemma_reading(s, w.drop_last());
        assert((s + w).drop_last() =~= s + w.drop_last());
        assert((s + w).last() == w[w.len() - 1]);
        assert(crate::mixer_panel::reading_words(s).1 + w =~= (
        crate::mixer_panel::reading_words(s).1 + w.drop_last()).push(w.last()));
    }
}

/// Words set with single spaces between them are read back as those words.
pub proof fn words_come_back(ws: Seq<Seq<char>>)
    requires
        forall|i: int| 0 <= i < ws.len() ==> is_word(#[trigger] ws[i]),
    ensures
        crate::mixer_panel::words(crate::mixer_panel::spaced(ws)) == ws,
{
    lemma_words_come_back(ws);
    if ws.len() > 0 {
        assert(ws.drop_last().push(ws.last()) =~= ws);
    } else {
        assert(crate::mixer_panel::words(crate::mixer_panel::spaced(ws)) =~= ws);
    }
}

proof fn lemma_words_come_back(ws: Seq<Seq<char>>)
    requires
        forall|i: int| 0 <= i < ws.len() ==> is_word(#[trigger] ws[i]),
    ensures
        ws.len() > 0 ==> crate::mixer_panel::reading_words(crate::mixer_panel::spaced(ws)) == (
            ws.drop_last(),
            ws.last(),
        ),
    decreases ws.len(),
{
    if ws.len() == 1 {
        lemma_reading(seq![], ws[0]);
        assert(seq![] + ws[0] =~= ws[0]);
        assert(ws.drop_last() =~= seq![]);
        assert(is_word(ws[0]));
    } else if ws.len() > 1 {
        let upper = ws.drop_last();
        assert forall|i: int| 0 <= i < upper.len() implies is_word(#[trigger] upper[i]) by {
            assert(upper[i] == ws[i]);
        }
        lemma_words_come_back(upper);
        assert(is_word(ws[ws.len() - 1]));
        assert(is_word(upper[upper.len() - 1]));
        reveal_strlit(" ");
        let lead = crate::mixer_panel::spaced(upper);
        let gap = lead + " "@;
        assert(gap.drop_last() =~= lead);
        assert(gap.last() == ' ');
        assert(crate::mixer_panel::reading_words(gap) == (upper, Seq::<char>::empty())) by {
            assert(upper.drop_last().push(upper.last()) =~= upper);
        }
        lemma_reading(gap, ws.last());
        assert(Seq::<char>::empty() + ws.last() =~= ws.last());
    }
}

proof fn lemma_gap(a: Seq<char>, gap: Seq<char>)
    requires
        gap.len() > 0,
        crate::text::all_white(gap),
    ensures
        crate::mixer_panel::reading_words(a + gap) == (
            crate::mixer_panel::words(a),
            Seq::<char>::empty(),
        ),
    decreases gap.len(),
{
    let all = a + gap;
    let upper = gap.drop_last();
    assert(all.drop_last() =~= a + upper);
    assert(all.last() == gap[gap.len() - 1]);
    assert(crate::text::is_white(gap[gap.len() - 1]));
    if upper.len() > 0 {
        assert forall|i: int| 0 <= i < upper.len() implies crate::text::is_white(
            #[trigger] upper[i],
        ) by {
            assert(upper[i] == gap[i]);
        }
        lemma_gap(a, upper);
    } else {
        assert(a + upper =~= a);
        if crate::mixer_panel::reading_words(a).1.len() == 0 {
            assert(crate::mixer_panel::reading_words(a).1 =~= Seq::<char>::empty());
        }
    }
}

proof fn lemma_go_on(s: Seq<char>, done: Seq<Seq<char>>, b: Seq<char>)
    requires
        crate::mixer_panel::reading_words(s) == (done, Seq::<char>::empty()),
    ensures
        crate::mixer_panel::reading_words(s + b) == (
            done + crate::mixer_panel::reading_words(b).0,
            crate::mixer_panel::reading_words(b).1,
        ),
    decreases b.len(),
{
    if b.len() == 0 {
        assert(s + b =~= s);
        assert(done + crate::mixer_panel::reading_words(b).0 =~= done);
        assert(crate::mixer_panel::reading_words(b).1 =~= Seq::<char>::empty());
    } else {
        lemma_go_on(s, done, b.drop_last());
        assert((s + b).drop_last() =~= s + b.drop_last());
        assert((s + b).last() == b[b.len() - 1]);
        let (w, c) = crate::mixer_panel::reading_words(b.drop_last());
        assert(done + w.push(c) =~= (done + w).push(c));
    }
}

/// White space of any kind and any width parts words: what stands on either side
/// of it has its own words, and a word by itself is one.
pub proof fn any_white_space_parts_words(
    a: Seq<char>,
    gap: Seq<char>,
    b: Seq<char>,
    word: Seq<char>,
)
    requires
        gap.len() > 0,
        crate::text::all_white(gap),
        is_word(word),
    ensures
        crate::mixer_panel::words(a + gap + b) == crate::mixer_panel::words(a)
            + crate::mixer_panel::words(b),
        crate::mixer_panel::words(word) == seq![word],
        crate::mixer_panel::words(Seq::empty()) == Seq::<Seq<char>>::empty(),
{
    lemma_gap(a, gap);
    lemma_go_on(a + gap, crate::mixer_panel::words(a), b);
    let (w, c) = crate::mixer_panel::reading_words(b);
    assert(crate::mixer_panel::words(a) + w.push(c) =~= (crate::mixer_panel::words(a) + w).push(c));
    lemma_reading(Seq::empty(), word);
    assert(Seq::<char>::empty() + word =~= word);
    assert(crate::mixer_panel::words(word) =~= seq![word]);
}

/// Words are set with one space between each and the next.
pub proof fn words_are_set_with_single_spaces(ws: Seq<Seq<char>>, word: Seq<char>)
    ensures
        crate::mixer_panel::spaced(seq![word]) == word,
        ws.len() > 0 ==> crate::mixer_panel::spaced(ws.push(word)) == crate::mixer_panel::spaced(ws)
            + seq![' '] + word,
{
    reveal_strlit(" ");
    assert(" "@ =~= seq![' ']);
    assert(ws.push(word).drop_last() =~= ws);
}

/// A plugin's name is tried whole, then without its first word, then without its
/// first two, as long as a word is left, and then its last word is cut from the
/// end like any other name; so is a name without a word in it.
pub proof fn a_plugin_loses_its_maker_first(
    name: &str,
    r: Vec<String>,
    i: int,
    last: &str,
    cuts: Vec<String>,
)
    requires
        call_ensures(plugin_candidates, (name,), r),
        last@ == (if crate::mixer_panel::words(name@).len() > 0 {
            crate::mixer_panel::words(name@).last()
        } else {
            name@
        }),
        call_ensures(cut_candidates, (last,), cuts),
        0 <= i < r@.len(),
    ensures
        ({
            let ws = crate::mixer_panel::words(name@);
            let n: int = if ws.len() > 0 {
                ws.len() as int
            } else {
                1
            };
            &&& r@.len() == n + cuts@.len()
            &&& r@[0]@ == name@
            &&& 1 <= i < n ==> r@[i]@ == crate::mixer_panel::spaced(ws.skip(i))
            &&& n <= i ==> r@[i]@ == cuts@[i - n]@
        }),
{
    let ws = crate::mixer_panel::words(name@);
    let n: int = if ws.len() > 0 {
        ws.len() as int
    } else {
        1
    };
    let t = crate::fonts::texts(r@);
    let c = crate::fonts::texts(cuts@);
    assert(t.len() == r@.len() && c.len() == cuts@.len());
    assert(c == crate::mixer_panel::cuts(last@));
    assert(t[0] == r@[0]@ && t[i] == r@[i]@);
    if n <= i {
        assert(c[i - n] == cuts@[i - n]@);
    }
}

/// The first candidate that fits is shown, and nothing when none does.
pub proof fn the_first_that_fits_is_shown(
    candidates: Vec<String>,
    fits: Vec<bool>,
    r: String,
    i: int,
)
    requires
        fits@.len() == candidates@.len(),
        call_ensures(first_that_fits, (candidates, &fits), r),
    ensures
        0 <= i < fits@.len() && fits@[i] && crate::mixer_panel::none_before(fits@, i) ==> r@
            == candidates@[i]@,
        crate::mixer_panel::none_before(fits@, fits@.len() as int) ==> r@.len() == 0,
{
}

// ── The strips ─────────────────────────────────────────────────────────────
/// The desk has its eight channels, then the backing track and the click, and
/// last, undrawn, the effects' return; each has its own place.
pub proof fn the_desk_runs_from_the_channels_to_the_return(
    shown: Vec<Strip>,
    all: Vec<Strip>,
    s: Strip,
    place: usize,
)
    requires
        call_ensures(Strip::shown, (), shown),
        call_ensures(Strip::all, (), all),
        call_ensures(Strip::index, (s,), place),
        s matches Strip::Channel(n) ==> n < 8,
    ensures
        shown@.len() == 10,
        all@.len() == 11,
        all@[place as int] == s,
        shown@.contains(s) <==> s != Strip::Fx,
        shown@ == all@.drop_last(),
        s matches Strip::Channel(n) ==> place == n,
        s == Strip::Track ==> place == 8,
        s == Strip::Click ==> place == 9,
        s == Strip::Fx ==> place == 10,
{
    assert(shown@ =~= all@.drop_last());
    if s != Strip::Fx {
        assert(shown@[place as int] == s);
    }
}

/// The paints, the columns they stand in, the master's own, and where the places
/// of a table of eight lead: each to a tone of its own hue.
pub proof fn the_paints_are_these()
    ensures
        crate::mixer_panel::STRIP_COLORS@ == seq![
            (0x00u8, 0x00u8, 0x00u8),
            (0x36u8, 0x33u8, 0x30u8),
            (0x56u8, 0x51u8, 0x4Du8),
            (0x3Fu8, 0x12u8, 0x15u8),
            (0x63u8, 0x17u8, 0x1Cu8),
            (0x86u8, 0x27u8, 0x2Du8),
            (0x3Fu8, 0x27u8, 0x12u8),
            (0x63u8, 0x39u8, 0x17u8),
            (0x86u8, 0x52u8, 0x27u8),
            (0x3Fu8, 0x3Bu8, 0x12u8),
            (0x63u8, 0x5Cu8, 0x17u8),
            (0x86u8, 0x7Du8, 0x27u8),
            (0x21u8, 0x3Fu8, 0x12u8),
            (0x30u8, 0x63u8, 0x17u8),
            (0x46u8, 0x86u8, 0x27u8),
            (0x12u8, 0x3Au8, 0x3Fu8),
            (0x17u8, 0x5Au8, 0x63u8),
            (0x27u8, 0x7Bu8, 0x86u8),
            (0x12u8, 0x24u8, 0x3Fu8),
            (0x17u8, 0x36u8, 0x63u8),
            (0x27u8, 0x4Du8, 0x86u8),
            (0x29u8, 0x12u8, 0x3Fu8),
            (0x3Du8, 0x17u8, 0x63u8),
            (0x57u8, 0x27u8, 0x86u8),
            (0x3Fu8, 0x12u8, 0x33u8),
            (0x63u8, 0x17u8, 0x4Eu8),
            (0x86u8, 0x27u8, 0x6Cu8),
        ],
        crate::mixer_panel::PALETTE_COLUMNS == 3,
        crate::mixer_panel::COLUMNS == 11,
        crate::mixer_panel::MASTER_COLOR == 5,
        crate::mixer_panel::PALETTE_V1_TO_V2@ == seq![0usize, 5, 8, 14, 16, 20, 23, 2],
{
    assert(crate::mixer_panel::STRIP_COLORS@ =~= seq![
        (0x00u8, 0x00u8, 0x00u8),
        (0x36u8, 0x33u8, 0x30u8),
        (0x56u8, 0x51u8, 0x4Du8),
        (0x3Fu8, 0x12u8, 0x15u8),
        (0x63u8, 0x17u8, 0x1Cu8),
        (0x86u8, 0x27u8, 0x2Du8),
        (0x3Fu8, 0x27u8, 0x12u8),
        (0x63u8, 0x39u8, 0x17u8),
        (0x86u8, 0x52u8, 0x27u8),
        (0x3Fu8, 0x3Bu8, 0x12u8),
        (0x63u8, 0x5Cu8, 0x17u8),
        (0x86u8, 0x7Du8, 0x27u8),
        (0x21u8, 0x3Fu8, 0x12u8),
        (0x30u8, 0x63u8, 0x17u8),
        (0x46u8, 0x86u8, 0x27u8),
        (0x12u8, 0x3Au8, 0x3Fu8),
        (0x17u8, 0x5Au8, 0x63u8),
        (0x27u8, 0x7Bu8, 0x86u8),
        (0x12u8, 0x24u8, 0x3Fu8),
        (0x17u8, 0x36u8, 0x63u8),
        (0x27u8, 0x4Du8, 0x86u8),
        (0x29u8, 0x12u8, 0x3Fu8),
        (0x3Du8, 0x17u8, 0x63u8),
        (0x57u8, 0x27u8, 0x86u8),
        (0x3Fu8, 0x12u8, 0x33u8),
        (0x63u8, 0x17u8, 0x4Eu8),
        (0x86u8, 0x27u8, 0x6Cu8),
    ]);
    assert(crate::mixer_panel::PALETTE_V1_TO_V2@ =~= seq![0usize, 5, 8, 14, 16, 20, 23, 2]);
}

/// What the desk is painted in.
pub proof fn the_desk_has_its_own_paint(dark: bool, wood: Rgb, r: DeskInk)
    requires
        call_ensures(ink, (dark, wood), r),
    ensures
        dark ==> r.face == (Rgb { r: 0xC9, g: 0xC0, b: 0xA6 }),
        !dark ==> r.face == (Rgb { r: 0xE3, g: 0xD9, b: 0xBD }),
        r.engrave == (Rgb { r: 0x24, g: 0x20, b: 0x1A }),
        r.track == (Rgb { r: 0x1A, g: 0x17, b: 0x12 }),
        r.lit == (Rgb { r: 0x1C, g: 0x6F, b: 0xD6 }),
        r.mute == (Rgb { r: 0xE0, g: 0xA8, b: 0x22 }),
        r.solo == (Rgb { r: 0xE8, g: 0x3A, b: 0x4E }),
        r.meter_lo == (Rgb { r: 0x3D, g: 0xC0, b: 0x5A }),
        r.gr == (Rgb { r: 0xE8, g: 0x8C, b: 0x2A }),
        r.meter_hi == (Rgb { r: 0xE0, g: 0xA8, b: 0x22 }),
{
}

} // verus!
