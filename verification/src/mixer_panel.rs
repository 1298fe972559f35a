//! The mixer view: every source in the app as a channel strip. What each strip
//! offers, where on it, and what a press means.

use crate::color::{Ink, Rgb};
use crate::recorder::{ChannelKind, Column, Strip, CHANNELS, INSERTS};
use crate::text;
use vstd::prelude::*;

verus! {

/// Eight general channels, the backing track, the click, and the master.
pub const COLUMNS: usize = CHANNELS + 3;

/// One channel, as the painter sees it, but for its levels.
#[derive(Debug, Clone, PartialEq, Eq)]
pub struct StripView {
    /// `None` is the master, which has no send and cannot be muted or soloed.
    pub strip: Option<Strip>,
    pub name: String,
    /// The second line under the name.
    pub detail: String,
    /// What is in each insert slot, by short name. Empty for an empty slot.
    pub inserts: [String; INSERTS],
    /// What feeds a general channel.
    pub kind: Option<ChannelKind>,
    /// Place in `STRIP_COLORS`. Zero is the desk's own wood.
    pub color: usize,
    /// An instrument slot with nothing in it. Drawn, not hidden: a desk does not
    /// change shape under your hands.
    pub empty: bool,
    /// Whether it is a stereo source. A mono one draws one bar.
    pub stereo: bool,
    pub muted: bool,
    pub soloed: bool,
}

impl StripView {
    pub open spec fn can_send(self) -> bool {
        self.strip is Some && self.strip->0.feeds_effects() && !self.empty
    }

    pub open spec fn is_live(self) -> bool {
        self.strip is Some && !self.empty
    }

    /// It carries a source to choose, and the icon that chooses it.
    pub open spec fn has_icon(self) -> bool {
        !self.empty && self.strip is Some && !(self.strip->0 is Fx)
    }

    /// The master and the effects return take no send, and neither does a slot
    /// with nothing in it to send.
    pub fn sends(&self) -> (r: bool)
        ensures
            r == self.can_send(),
    {
        match self.strip {
            Some(s) => s.sends() && !self.empty,
            None => false,
        }
    }

    /// Whether it has controls at all. An empty slot has one: the plus.
    pub fn live(&self) -> (r: bool)
        ensures
            r == self.is_live(),
    {
        self.strip.is_some() && !self.empty
    }
}

/// Everything the mixer draws, but for its levels.
#[derive(Debug, Clone, PartialEq, Eq)]
pub struct MixerView {
    /// Every channel, then the master last.
    pub strips: Vec<StripView>,
    /// True when anything at all is soloed.
    pub any_solo: bool,
    pub dark_mode: bool,
    /// The band's own wood, so the two surfaces are one instrument.
    pub wood: Rgb,
    /// The strip whose colour palette is open, if any.
    pub palette_open: Option<Column>,
    /// A decibel figure being typed, and into which strip.
    pub typing: Option<(Column, String)>,
    /// The channel whose name is being typed, and what is in the field.
    pub naming: Option<(Column, String)>,
}

impl MixerView {
    /// A strip is heard: what cannot be silenced always is, and otherwise solo
    /// decides before mute does.
    pub open spec fn is_heard(self, at: int) -> bool {
        if !(0 <= at < self.strips@.len()) || !self.strips@[at].is_live() {
            true
        } else if self.any_solo {
            self.strips@[at].soloed
        } else {
            !self.strips@[at].muted
        }
    }

    /// Whether a strip is heard right now, which is what dims it.
    pub fn heard(&self, at: usize) -> (r: bool)
        ensures
            r == self.is_heard(at as int),
    {
        if at >= self.strips.len() {
            return true;
        }
        let s = &self.strips[at];
        if !s.live() {
            return true;
        }
        if self.any_solo {
            return s.soloed;
        }
        !s.muted
    }
}

/// Soloing one strip takes out every other that can be taken out, and never the
/// master.
pub proof fn soloing_one_silences_the_rest(v: MixerView, soloed: int, other: int)
    requires
        v.any_solo,
        0 <= soloed < v.strips@.len(),
        v.strips@[soloed].soloed,
        0 <= other < v.strips@.len(),
        !v.strips@[other].soloed,
    ensures
        v.is_heard(soloed),
        v.strips@[other].is_live() ==> !v.is_heard(other),
        v.strips@[other].strip is None ==> v.is_heard(other),
{
}

/// What a press on the mixer means.
#[derive(Debug, Clone, Copy, PartialEq, Eq, Structural)]
pub enum Hit {
    Fader(Column),
    Send(Column),
    Mute(Column),
    Solo(Column),
    /// What is on this channel: the plus on an empty slot, and the icon on a
    /// filled one.
    Add(Column),
    /// One of the insert bays.
    Insert(Column, usize),
    /// A swatch in the open palette.
    Paint(Column, usize),
    /// A right-click anywhere on a strip: open its palette.
    Palette(Column),
    /// The decibel readout: type a number into it.
    Db(Column),
    /// The channel's name: type a new one.
    Name(Column),
}

/// Which way a control travels.
#[derive(Debug, Clone, Copy, PartialEq, Eq, Structural)]
pub enum DragAxis {
    Vertical,
}

/// How far the hand moves to sweep a fader end to end, in points. Longer than
/// the fader: the drag is relative, so the hand leaves it and goes on pulling.
pub const FADER_TRAVEL: u32 = 420;

/// The same, for a send.
pub const SEND_TRAVEL: u32 = 420;

impl Hit {
    pub open spec fn place(self) -> Column {
        match self {
            Hit::Fader(i) => i,
            Hit::Send(i) => i,
            Hit::Mute(i) => i,
            Hit::Solo(i) => i,
            Hit::Add(i) => i,
            Hit::Insert(i, _) => i,
            Hit::Palette(i) => i,
            Hit::Db(i) => i,
            Hit::Name(i) => i,
            Hit::Paint(i, _) => i,
        }
    }

    /// It travels under the hand.
    pub open spec fn travels(self) -> bool {
        self is Fader || self is Send
    }

    /// Which column it is on. Every one of them is on exactly one.
    pub fn column(self) -> (r: Column)
        ensures
            r == self.place(),
    {
        match self {
            Hit::Fader(i) => i,
            Hit::Send(i) => i,
            Hit::Mute(i) => i,
            Hit::Solo(i) => i,
            Hit::Add(i) => i,
            Hit::Insert(i, _) => i,
            Hit::Palette(i) => i,
            Hit::Db(i) => i,
            Hit::Name(i) => i,
            Hit::Paint(i, _) => i,
        }
    }

    /// Whether it travels under the hand, and along which axis.
    pub fn axis(self) -> (r: Option<DragAxis>)
        ensures
            r == (if self.travels() {
                Some(DragAxis::Vertical)
            } else {
                None
            }),
    {
        match self {
            Hit::Fader(_) | Hit::Send(_) => Some(DragAxis::Vertical),
            _ => None,
        }
    }

    /// How far the pointer must move to sweep it end to end, in points.
    pub fn travel(self) -> (r: Option<u32>)
        ensures
            r == (match self {
                Hit::Fader(_) => Some(FADER_TRAVEL),
                Hit::Send(_) => Some(SEND_TRAVEL),
                _ => None,
            }),
            r is Some <==> self.travels(),
            r matches Some(t) ==> t > 0,
    {
        match self {
            Hit::Fader(_) => Some(FADER_TRAVEL),
            Hit::Send(_) => Some(SEND_TRAVEL),
            _ => None,
        }
    }
}

// ── Where things are on a strip ────────────────────────────────────────────
/// A band across a strip, from one thousandth of its height to another.
#[derive(Debug, Clone, Copy, PartialEq, Eq, Structural)]
pub struct Band {
    pub top: u16,
    pub bottom: u16,
}

impl Band {
    pub open spec fn of(top: u16, bottom: u16) -> Band {
        Band { top, bottom }
    }
}

/// The bands of one strip, top to bottom. Read as a sentence: what it is, what
/// is in it, how much goes to the effects, how loud it leaves, and whether it is
/// heard at all.
#[derive(Debug, Clone, Copy, PartialEq, Eq, Structural)]
pub struct StripBands {
    pub name: Option<Band>,
    pub icon: Option<Band>,
    pub detail: Option<Band>,
    /// The insert bays, one above the other.
    pub rack: Option<Band>,
    pub send: Option<Band>,
    /// The meter and the fader, side by side.
    pub travel: Option<Band>,
    pub db: Option<Band>,
    /// Mute and solo, side by side.
    pub switches: Option<Band>,
    /// The whole panel is the plus.
    pub all_plus: bool,
}

impl StripBands {
    /// An empty slot is a panel and a plus, and nothing else. A strip without a
    /// send starts its fader where the send would have been.
    pub open spec fn of(v: StripView) -> StripBands {
        if v.empty {
            StripBands {
                name: None,
                icon: None,
                detail: None,
                rack: None,
                send: None,
                travel: None,
                db: None,
                switches: None,
                all_plus: true,
            }
        } else {
            StripBands {
                name: Some(Band::of(22, 78)),
                icon: if v.has_icon() {
                    Some(Band::of(88, 145))
                } else {
                    None
                },
                detail: Some(
                    if v.has_icon() {
                        Band::of(152, 190)
                    } else {
                        Band::of(86, 128)
                    },
                ),
                rack: Some(Band::of(195, 395)),
                send: if v.can_send() {
                    Some(Band::of(410, 530))
                } else {
                    None
                },
                travel: Some(
                    if v.can_send() {
                        Band::of(550, 820)
                    } else {
                        Band::of(420, 820)
                    },
                ),
                db: Some(Band::of(830, 888)),
                switches: if v.is_live() {
                    Some(Band::of(902, 975))
                } else {
                    None
                },
                all_plus: false,
            }
        }
    }

    /// The bands, in the order they stand.
    pub open spec fn in_order(self) -> Seq<Option<Band>> {
        seq![
            self.name,
            self.icon,
            self.detail,
            self.rack,
            self.send,
            self.travel,
            self.db,
            self.switches,
        ]
    }
}

fn band(top: u16, bottom: u16) -> (r: Band)
    ensures
        r == Band::of(top, bottom),
{
    Band { top, bottom }
}

/// The bands of one strip.
pub fn strip_bands(v: &StripView) -> (r: StripBands)
    ensures
        r == StripBands::of(*v),
{
    if v.empty {
        return StripBands {
            name: None,
            icon: None,
            detail: None,
            rack: None,
            send: None,
            travel: None,
            db: None,
            switches: None,
            all_plus: true,
        };
    }
    let has_icon = matches!(
        v.strip,
        Some(Strip::Channel(_)) | Some(Strip::Track) | Some(Strip::Click)
    );
    let sends = v.sends();
    StripBands {
        name: Some(band(22, 78)),
        icon: if has_icon {
            Some(band(88, 145))
        } else {
            None
        },
        detail: Some(
            if has_icon {
                band(152, 190)
            } else {
                band(86, 128)
            },
        ),
        rack: Some(band(195, 395)),
        send: if sends {
            Some(band(410, 530))
        } else {
            None
        },
        travel: Some(
            if sends {
                band(550, 820)
            } else {
                band(420, 820)
            },
        ),
        db: Some(band(830, 888)),
        switches: if v.live() {
            Some(band(902, 975))
        } else {
            None
        },
        all_plus: false,
    }
}

/// No two controls are in the same place: every band of a strip is inside it,
/// has room in it, and ends before the next begins.
pub proof fn no_two_bands_overlap(v: StripView, i: int, j: int)
    requires
        0 <= i < j < 8,
    ensures
        StripBands::of(v).in_order()[i] matches Some(a) ==> a.top < a.bottom <= 1000,
        StripBands::of(v).in_order()[j] matches Some(b) ==> b.top < b.bottom <= 1000,
        StripBands::of(v).in_order()[i] matches Some(a) ==> (StripBands::of(
            v,
        ).in_order()[j] matches Some(b) ==> a.bottom < b.top),
{
}

/// Every name stands at the same height, the master's too.
pub proof fn every_name_is_at_the_same_height(a: StripView, b: StripView)
    requires
        !a.empty,
        !b.empty,
    ensures
        StripBands::of(a).name == StripBands::of(b).name,
        StripBands::of(a).name is Some,
{
}

/// A strip without a send has a taller meter, and the master is offered neither
/// send nor mute nor solo.
pub proof fn the_master_is_not_offered_what_it_cannot_do(master: StripView, channel: StripView)
    requires
        master.strip is None,
        !master.empty,
        channel.can_send(),
    ensures
        StripBands::of(master).send is None,
        StripBands::of(master).switches is None,
        StripBands::of(master).travel->0.top < StripBands::of(channel).travel->0.top,
        StripBands::of(master).travel->0.bottom == StripBands::of(channel).travel->0.bottom,
{
}

// ── What can be pressed ────────────────────────────────────────────────────
/// What a strip offers, in the order a press is tried against it.
pub open spec fn offered(v: StripView, at: Column) -> Seq<Hit> {
    if v.empty {
        seq![Hit::Add(at)]
    } else {
        let send = if v.can_send() {
            seq![Hit::Fader(at), Hit::Send(at)]
        } else {
            seq![Hit::Fader(at)]
        };
        let switched = if v.is_live() {
            send.push(Hit::Mute(at)).push(Hit::Solo(at))
        } else {
            send
        };
        let picked = if v.has_icon() {
            switched.push(Hit::Add(at))
        } else {
            switched
        };
        picked.push(Hit::Insert(at, 0)).push(Hit::Insert(at, 1)).push(Hit::Insert(at, 2)).push(
            Hit::Db(at),
        ).push(Hit::Name(at))
    }
}

/// What a strip offers.
pub fn strip_targets(v: &StripView, at: Column) -> (r: Vec<Hit>)
    ensures
        r@ == offered(*v, at),
{
    let mut out: Vec<Hit> = Vec::new();
    let bands = strip_bands(v);
    if bands.all_plus {
        out.push(Hit::Add(at));
        return out;
    }
    out.push(Hit::Fader(at));
    if bands.send.is_some() {
        out.push(Hit::Send(at));
    }
    if bands.switches.is_some() {
        out.push(Hit::Mute(at));
        out.push(Hit::Solo(at));
    }
    if bands.icon.is_some() {
        out.push(Hit::Add(at));
    }
    out.push(Hit::Insert(at, 0));
    out.push(Hit::Insert(at, 1));
    out.push(Hit::Insert(at, 2));
    out.push(Hit::Db(at));
    out.push(Hit::Name(at));
    assert(out@ =~= offered(*v, at));
    out
}

/// What the first `n` strips offer, from the left.
pub open spec fn all_offered(strips: Seq<StripView>, n: int) -> Seq<Hit>
    decreases n,
{
    if n <= 0 {
        seq![]
    } else {
        all_offered(strips, n - 1) + offered(strips[n - 1], Column((n - 1) as usize))
    }
}

/// What the whole desk offers, from the left.
pub fn targets(view: &MixerView) -> (r: Vec<Hit>)
    ensures
        r@ == all_offered(view.strips@, view.strips@.len() as int),
{
    let mut out: Vec<Hit> = Vec::new();
    for i in 0..view.strips.len()
        invariant
            out@ == all_offered(view.strips@, i as int),
    {
        let mut more = strip_targets(&view.strips[i], Column(i));
        out.append(&mut more);
    }
    out
}

/// An empty slot offers one control, and it is the plus.
pub proof fn an_empty_slot_is_a_plus_and_nothing_else(v: StripView, at: Column, hit: Hit)
    requires
        v.empty,
    ensures
        offered(v, at).contains(hit) <==> hit == Hit::Add(at),
{
    assert(offered(v, at)[0] == Hit::Add(at));
}

/// Everything a strip offers is on that strip, and every filled one has a
/// fader, a name, a readout and its insert bays.
pub proof fn a_filled_strip_offers_its_own(v: StripView, at: Column, i: int)
    requires
        !v.empty,
        0 <= i < offered(v, at).len(),
    ensures
        offered(v, at)[i].place() == at,
        offered(v, at).contains(Hit::Fader(at)),
        offered(v, at).contains(Hit::Name(at)),
        offered(v, at).contains(Hit::Db(at)),
        offered(v, at).contains(Hit::Insert(at, 0)),
        offered(v, at).contains(Hit::Insert(at, 1)),
        offered(v, at).contains(Hit::Insert(at, 2)),
{
    let o = offered(v, at);
    let n = o.len() as int;
    assert(o[0] == Hit::Fader(at));
    assert(o[n - 1] == Hit::Name(at));
    assert(o[n - 2] == Hit::Db(at));
    assert(o[n - 3] == Hit::Insert(at, 2));
    assert(o[n - 4] == Hit::Insert(at, 1));
    assert(o[n - 5] == Hit::Insert(at, 0));
}

/// Where a press fell on the strip whose palette is open.
#[derive(Debug, Clone, Copy, PartialEq, Eq, Structural)]
pub struct PalettePress {
    pub at: Column,
    /// The swatch it fell on.
    pub swatch: Option<usize>,
    /// It fell on the strip at all.
    pub on_panel: bool,
}

/// `r` is the first of the swatches that a press fell on, where `hits[i]` says
/// that it fell on swatch `i`.
pub open spec fn is_first_swatch(hits: Seq<bool>, r: Option<usize>) -> bool {
    match r {
        Some(i) => i < hits.len() && hits[i as int] && forall|j: int|
            0 <= j < i ==> !#[trigger] hits[j],
        None => forall|j: int| 0 <= j < hits.len() ==> !#[trigger] hits[j],
    }
}

/// The first of the swatches that a press fell on.
pub fn first_swatch(hits: &Vec<bool>) -> (r: Option<usize>)
    ensures
        is_first_swatch(hits@, r),
{
    for i in 0..hits.len()
        invariant
            forall|j: int| 0 <= j < i ==> !#[trigger] hits@[j],
    {
        if hits[i] {
            return Some(i);
        }
    }
    None
}

/// What a press means, given the controls it fell on in the order they are
/// tried. An open palette comes first and swallows the strip under it: off the
/// swatches it closes without painting.
pub open spec fn pressed(palette: Option<PalettePress>, under: Seq<Hit>) -> Option<Hit> {
    if palette is Some && palette->0.swatch is Some {
        Some(Hit::Paint(palette->0.at, palette->0.swatch->0))
    } else if palette is Some && palette->0.on_panel {
        Some(Hit::Paint(palette->0.at, usize::MAX))
    } else if under.len() > 0 {
        Some(under[0])
    } else {
        None
    }
}

/// An open palette swallows its strip and nothing else: a press on the panel
/// paints with the first swatch it fell on, or closes without painting, so that
/// no control under the palette can be reached; a press anywhere else means what
/// it would with no palette open. Every swatch lies on the panel.
pub proof fn an_open_palette_swallows_its_strip_alone(
    p: PalettePress,
    hits: Seq<bool>,
    under: Seq<Hit>,
)
    requires
        is_first_swatch(hits, p.swatch),
        forall|i: int| 0 <= i < hits.len() && #[trigger] hits[i] ==> p.on_panel,
    ensures
        p.on_panel ==> forall|k: usize| #[trigger]
            is_first_swatch(hits, Some(k)) ==> pressed(Some(p), under) == Some(
                Hit::Paint(p.at, k),
            ),
        p.on_panel && is_first_swatch(hits, None) ==> pressed(Some(p), under) == Some(
            Hit::Paint(p.at, usize::MAX),
        ),
        !p.on_panel ==> pressed(Some(p), under) == pressed(None, under),
{
    assert forall|k: usize| p.on_panel && #[trigger]
        is_first_swatch(hits, Some(k)) implies pressed(Some(p), under) == Some(
        Hit::Paint(p.at, k),
    ) by {
        assert(hits[k as int]);
        let i = p.swatch->0;
        assert(p.swatch is Some);
        assert(hits[i as int]);
    }
}

/// What a press means.
pub fn resolve_press(palette: Option<PalettePress>, under: &Vec<Hit>) -> (r: Option<Hit>)
    ensures
        r == pressed(palette, under@),
{
    if let Some(p) = palette {
        if let Some(c) = p.swatch {
            return Some(Hit::Paint(p.at, c));
        }
        if p.on_panel {
            return Some(Hit::Paint(p.at, usize::MAX));
        }
    }
    if under.len() > 0 {
        Some(under[0])
    } else {
        None
    }
}

// ── Colours ────────────────────────────────────────────────────────────────
/// What a channel can be painted: the neutrals first, then a row per hue with
/// three tones across. The first stands for the desk's own wood. Every one is
/// dark enough to carry light text.
pub const STRIP_COLORS: [(u8, u8, u8); 27] = [
    (0x00, 0x00, 0x00),
    (0x36, 0x33, 0x30),
    (0x56, 0x51, 0x4D),
    (0x3F, 0x12, 0x15),
    (0x63, 0x17, 0x1C),
    (0x86, 0x27, 0x2D),
    (0x3F, 0x27, 0x12),
    (0x63, 0x39, 0x17),
    (0x86, 0x52, 0x27),
    (0x3F, 0x3B, 0x12),
    (0x63, 0x5C, 0x17),
    (0x86, 0x7D, 0x27),
    (0x21, 0x3F, 0x12),
    (0x30, 0x63, 0x17),
    (0x46, 0x86, 0x27),
    (0x12, 0x3A, 0x3F),
    (0x17, 0x5A, 0x63),
    (0x27, 0x7B, 0x86),
    (0x12, 0x24, 0x3F),
    (0x17, 0x36, 0x63),
    (0x27, 0x4D, 0x86),
    (0x29, 0x12, 0x3F),
    (0x3D, 0x17, 0x63),
    (0x57, 0x27, 0x86),
    (0x3F, 0x12, 0x33),
    (0x63, 0x17, 0x4E),
    (0x86, 0x27, 0x6C),
];

/// Hues down and tones across.
pub const PALETTE_COLUMNS: usize = 3;

/// The master's colour on a fresh install.
pub const MASTER_COLOR: usize = 5;

/// Where the places of an earlier table of eight moved to: the nearest tone of
/// the same hue. A palette is a set of places somebody has already saved.
pub const PALETTE_V1_TO_V2: [usize; 8] = [0, 5, 8, 14, 16, 20, 23, 2];

/// The colour at a place, the last one for a place beyond the table.
pub open spec fn strip_color(color: usize) -> Rgb {
    let (r, g, b) = STRIP_COLORS@[if color < 27 {
        color as int
    } else {
        26
    }];
    Rgb::of(r, g, b)
}

/// A thousand times the luminance the eye sees.
pub open spec fn luma_thousandths(c: Rgb) -> int {
    299 * c.r + 587 * c.g + 114 * c.b
}

/// Every paint is dark enough to carry light text: none is brighter than the
/// point where dark ink takes over.
pub proof fn every_paint_carries_light_text(i: int)
    requires
        0 <= i < 27,
    ensures
        luma_thousandths(strip_color(i as usize)) <= 140_000,
{
    assert(STRIP_COLORS@.len() == 27);
}

/// The scale can be read on every face a channel can have: printed at sixty-two
/// hundredths, bone stands off from every paint, and dark ink from bare bone, by
/// more than forty steps of luminance.
pub proof fn the_scale_can_be_read_on_every_face(i: int, dark_mode: bool)
    requires
        0 <= i < 27,
    ensures
        luma_thousandths(bone(dark_mode)) > 140_000,
        62 * (luma_thousandths(bone(dark_mode)) - luma_thousandths(strip_color(i as usize)))
            > 100 * 40_000,
        62 * (luma_thousandths(bone(dark_mode)) - luma_thousandths(engraving())) > 100 * 40_000,
{
    assert(STRIP_COLORS@.len() == 27);
}

/// No saved colour leads out of the table, and no two lead to the same place.
pub proof fn saved_colors_stay_apart(i: int, j: int)
    requires
        0 <= i < j < 8,
    ensures
        PALETTE_V1_TO_V2@[i] < 27,
        PALETTE_V1_TO_V2@[j] < 27,
        PALETTE_V1_TO_V2@[i] != PALETTE_V1_TO_V2@[j],
        MASTER_COLOR < 27,
{
    assert(PALETTE_V1_TO_V2@.len() == 8);
}

/// The row and the column of a swatch in the open palette.
pub fn swatch_cell(i: usize) -> (r: (usize, usize))
    requires
        i < 27,
    ensures
        r.0 < 9,
        r.1 < PALETTE_COLUMNS,
        r.0 * PALETTE_COLUMNS + r.1 == i,
{
    (i / PALETTE_COLUMNS, i % PALETTE_COLUMNS)
}

/// What a strip's panel is filled with.
#[derive(Debug, Clone, Copy, PartialEq, Eq, Structural)]
pub enum Face {
    Painted(Rgb),
    Plain,
    /// Not merely unlit: silent.
    Silent,
}

/// What a strip's panel is filled with. Paint stays paint whether or not it is
/// heard; a veil says that instead.
pub fn strip_face(v: &StripView, heard: bool) -> (r: Face)
    ensures
        r == (if v.color != 0 {
            Face::Painted(strip_color(v.color))
        } else if heard {
            Face::Plain
        } else {
            Face::Silent
        }),
{
    if v.color != 0 {
        let at: usize = if v.color < 27 {
            v.color
        } else {
            26
        };
        let (red, green, blue) = STRIP_COLORS[at];
        Face::Painted(Rgb::new(red, green, blue))
    } else if heard {
        Face::Plain
    } else {
        Face::Silent
    }
}

/// The picture that says what feeds a strip.
#[derive(Debug, Clone, Copy, PartialEq, Eq, Structural)]
pub enum Glyph {
    Instrument,
    Microphone,
    Waveform,
    Metronome,
}

/// A general channel's picture is its kind; the backing track and the click have
/// one of their own.
pub fn strip_glyph(v: &StripView) -> (r: Option<Glyph>)
    ensures
        r == (match (v.strip, v.kind) {
            (Some(Strip::Channel(_)), Some(ChannelKind::Midi)) => Some(Glyph::Instrument),
            (Some(Strip::Channel(_)), Some(ChannelKind::Audio)) => Some(Glyph::Microphone),
            (Some(Strip::Track), _) => Some(Glyph::Waveform),
            (Some(Strip::Click), _) => Some(Glyph::Metronome),
            _ => None,
        }),
{
    match (v.strip, v.kind) {
        (Some(Strip::Channel(_)), Some(ChannelKind::Midi)) => Some(Glyph::Instrument),
        (Some(Strip::Channel(_)), Some(ChannelKind::Audio)) => Some(Glyph::Microphone),
        (Some(Strip::Track), _) => Some(Glyph::Waveform),
        (Some(Strip::Click), _) => Some(Glyph::Metronome),
        _ => None,
    }
}

/// What the desk is painted in.
#[derive(Debug, Clone, Copy, PartialEq, Eq, Structural)]
pub struct DeskInk {
    pub wood: Rgb,
    pub face: Rgb,
    pub engrave: Rgb,
    pub faint: Ink,
    pub track: Rgb,
    pub lit: Rgb,
    pub mute: Rgb,
    pub solo: Rgb,
    pub meter_lo: Rgb,
    pub gr: Rgb,
    pub meter_hi: Rgb,
}

/// The strips' own face.
pub open spec fn bone(dark_mode: bool) -> Rgb {
    if dark_mode {
        Rgb::of(0xC9, 0xC0, 0xA6)
    } else {
        Rgb::of(0xE3, 0xD9, 0xBD)
    }
}

/// The dark ink.
pub open spec fn engraving() -> Rgb {
    Rgb::of(0x24, 0x20, 0x1A)
}

/// What the desk is painted in, on its own wood.
pub fn ink(dark_mode: bool, wood: Rgb) -> (r: DeskInk)
    ensures
        r == (DeskInk {
            wood,
            face: bone(dark_mode),
            engrave: engraving(),
            faint: Ink::of(0x24, 0x20, 0x1A, 55),
            track: Rgb::of(0x1A, 0x17, 0x12),
            lit: Rgb::of(0x1C, 0x6F, 0xD6),
            mute: Rgb::of(0xE0, 0xA8, 0x22),
            solo: Rgb::of(0xE8, 0x3A, 0x4E),
            meter_lo: Rgb::of(0x3D, 0xC0, 0x5A),
            gr: Rgb::of(0xE8, 0x8C, 0x2A),
            meter_hi: Rgb::of(0xE0, 0xA8, 0x22),
        }),
{
    DeskInk {
        wood,
        face: if dark_mode {
            Rgb::new(0xC9, 0xC0, 0xA6)
        } else {
            Rgb::new(0xE3, 0xD9, 0xBD)
        },
        engrave: Rgb::new(0x24, 0x20, 0x1A),
        faint: Ink::new(0x24, 0x20, 0x1A, 55),
        track: Rgb::new(0x1A, 0x17, 0x12),
        lit: Rgb::new(0x1C, 0x6F, 0xD6),
        mute: Rgb::new(0xE0, 0xA8, 0x22),
        solo: Rgb::new(0xE8, 0x3A, 0x4E),
        meter_lo: Rgb::new(0x3D, 0xC0, 0x5A),
        gr: Rgb::new(0xE8, 0x8C, 0x2A),
        meter_hi: Rgb::new(0xE0, 0xA8, 0x22),
    }
}

// ── Scales ─────────────────────────────────────────────────────────────────
/// Where the fader stops, in decibels.
pub const TOP_DB: i32 = 12;

pub const BOTTOM_DB: i32 = -60;

/// The marks down the side of a channel's meter, in decibels.
pub const METER_TICKS: [i32; 4] = [0, -12, -24, -48];

/// And the master's, which has the room for a scale you can read a number off.
pub const MASTER_TICKS: [i32; 9] = [6, 0, -3, -6, -12, -18, -24, -36, -48];

/// The scale a strip's meter has.
pub fn meter_ticks(v: &StripView) -> (r: Vec<i32>)
    ensures
        v.strip is None ==> r@ == MASTER_TICKS@,
        v.strip is Some ==> r@ == METER_TICKS@,
{
    let mut out: Vec<i32> = Vec::new();
    if v.strip.is_none() {
        for i in 0..9usize
            invariant
                out@ == MASTER_TICKS@.take(i as int),
        {
            out.push(MASTER_TICKS[i]);
            assert(out@ =~= MASTER_TICKS@.take(i + 1));
        }
        assert(out@ =~= MASTER_TICKS@);
    } else {
        for i in 0..4usize
            invariant
                out@ == METER_TICKS@.take(i as int),
        {
            out.push(METER_TICKS[i]);
            assert(out@ =~= METER_TICKS@.take(i + 1));
        }
        assert(out@ =~= METER_TICKS@);
    }
    out
}

/// Every mark lands inside the fader's travel, none at either end, and each
/// below the one before it.
pub proof fn every_tick_is_on_the_scale(i: int, j: int)
    ensures
        0 <= i < 4 ==> BOTTOM_DB < METER_TICKS@[i] < TOP_DB,
        0 <= i < j < 4 ==> METER_TICKS@[i] > METER_TICKS@[j],
        0 <= i < 9 ==> BOTTOM_DB < MASTER_TICKS@[i] < TOP_DB,
        0 <= i < j < 9 ==> MASTER_TICKS@[i] > MASTER_TICKS@[j],
{
    assert(METER_TICKS@.len() == 4);
    assert(MASTER_TICKS@.len() == 9);
}

// ── Text that fits ─────────────────────────────────────────────────────────
/// What is left of a text when its first `keep` characters stay.
pub open spec fn cut_at(s: Seq<char>, keep: int) -> Seq<char> {
    crate::text::trimmed_end(s.take(keep)) + "\u{2026}"@
}

/// The texts to try, longest first: the whole of it, and then a shorter and
/// shorter front of it with an ellipsis.
pub open spec fn cuts(s: Seq<char>) -> Seq<Seq<char>> {
    seq![s] + Seq::new(s.len(), |i: int| cut_at(s, s.len() - 1 - i))
}

fn put(v: &mut Vec<String>, s: String)
    ensures
        crate::fonts::texts(final(v)@) == crate::fonts::texts(old(v)@).push(s@),
{
    let ghost before = v@;
    v.push(s);
    assert(crate::fonts::texts(v@) =~= crate::fonts::texts(before).push(s@));
}

/// The texts to try in a cell, longest first. The front of a name is the half
/// that identifies it.
pub fn cut_candidates(s: &str) -> (r: Vec<String>)
    ensures
        crate::fonts::texts(r@) == cuts(s@),
{
    let cs = text::chars_of(s);
    let n: usize = cs.len();
    let mut out: Vec<String> = Vec::new();
    assert(crate::fonts::texts(out@) =~= seq![]);
    put(&mut out, s.to_owned());
    assert(crate::fonts::texts(out@) =~= cuts(s@).take(1));
    for i in 0..n
        invariant
            cs@ == s@,
            n == cs@.len(),
            crate::fonts::texts(out@) == cuts(s@).take(i + 1),
    {
        let front = text::trim_end(text::string_of(&cs, 0, n - 1 - i).as_str());
        assert(cs@.subrange(0, n - 1 - i) =~= s@.take(n - 1 - i));
        put(&mut out, text::join(front.as_str(), "\u{2026}"));
        assert(crate::fonts::texts(out@) =~= cuts(s@).take(i + 2));
    }
    assert(crate::fonts::texts(out@) =~= cuts(s@));
    out
}

/// The words of a text, and the one that is still being read.
pub open spec fn reading_words(s: Seq<char>) -> (Seq<Seq<char>>, Seq<char>)
    decreases s.len(),
{
    if s.len() == 0 {
        (seq![], seq![])
    } else {
        let (words, current) = reading_words(s.drop_last());
        if !crate::text::is_white(s.last()) {
            (words, current.push(s.last()))
        } else if current.len() > 0 {
            (words.push(current), seq![])
        } else {
            (words, current)
        }
    }
}

/// The words of a text: what stands between its white space.
pub open spec fn words(s: Seq<char>) -> Seq<Seq<char>> {
    let (done, current) = reading_words(s);
    if current.len() > 0 {
        done.push(current)
    } else {
        done
    }
}

fn words_of(s: &str) -> (r: Vec<String>)
    ensures
        crate::fonts::texts(r@) == words(s@),
{
    let cs = text::chars_of(s);
    let mut done: Vec<String> = Vec::new();
    let mut current = String::new();
    assert(cs@.take(0) =~= seq![]);
    assert(crate::fonts::texts(done@) =~= seq![]);
    for i in 0..cs.len()
        invariant
            cs@ == s@,
            (crate::fonts::texts(done@), current@) == reading_words(s@.take(i as int)),
    {
        assert(s@.take(i + 1).drop_last() =~= s@.take(i as int));
        if !text::white(cs[i]) {
            current.push(cs[i]);
        } else if !current.as_str().is_empty() {
            put(&mut done, current);
            current = String::new();
        }
    }
    assert(s@.take(s@.len() as int) =~= s@);
    if !current.as_str().is_empty() {
        put(&mut done, current);
    }
    done
}

/// Words with one space between them.
pub open spec fn spaced(words: Seq<Seq<char>>) -> Seq<char>
    decreases words.len(),
{
    if words.len() == 0 {
        seq![]
    } else if words.len() == 1 {
        words[0]
    } else {
        spaced(words.drop_last()) + " "@ + words.last()
    }
}

fn join_from(words: &Vec<String>, from: usize) -> (r: String)
    requires
        from < words@.len(),
    ensures
        r@ == spaced(crate::fonts::texts(words@).skip(from as int)),
{
    let ghost all = crate::fonts::texts(words@).skip(from as int);
    let mut out = words[from].clone();
    assert(all.take(1).len() == 1 && all.take(1)[0] == words@[from as int]@);
    for i in from + 1..words.len()
        invariant
            from < words@.len(),
            all == crate::fonts::texts(words@).skip(from as int),
            out@ == spaced(all.take(i - from)),
    {
        assert(all.take(i - from + 1).drop_last() =~= all.take(i - from));
        assert(all.take(i - from + 1).last() == words@[i as int]@);
        out.append(" ");
        out.append(words[i].as_str());
    }
    assert(all.take(all.len() as int) =~= all);
    out
}

/// The texts to try for a plugin in a rack bay: the whole name, then without its
/// leading words, which say who made it and not what it is, and then the last
/// word cut short.
pub open spec fn shortenings(name: Seq<char>) -> Seq<Seq<char>> {
    let w = words(name);
    let tails = Seq::new(
        if w.len() > 0 {
            (w.len() - 1) as nat
        } else {
            0
        },
        |i: int| spaced(w.skip(i + 1)),
    );
    let last = if w.len() > 0 {
        w.last()
    } else {
        name
    };
    seq![name] + tails + cuts(last)
}

/// The texts to try for a plugin in a rack bay.
pub fn plugin_candidates(name: &str) -> (r: Vec<String>)
    ensures
        crate::fonts::texts(r@) == shortenings(name@),
{
    let w = words_of(name);
    let ghost ws = words(name@);
    let count: usize = w.len();
    let mut out: Vec<String> = Vec::new();
    assert(crate::fonts::texts(out@) =~= seq![]);
    put(&mut out, name.to_owned());
    let ghost tails = Seq::new(
        if ws.len() > 0 {
            (ws.len() - 1) as nat
        } else {
            0
        },
        |i: int| spaced(ws.skip(i + 1)),
    );
    assert(crate::fonts::texts(out@) =~= seq![name@] + tails.take(0));
    let mut drop: usize = 1;
    while drop < count
        invariant
            count == w@.len(),
            crate::fonts::texts(w@) == ws,
            ws.len() == count,
            tails == Seq::new(
                if ws.len() > 0 {
                    (ws.len() - 1) as nat
                } else {
                    0
                },
                |i: int| spaced(ws.skip(i + 1)),
            ),
            1 <= drop,
            count > 0 ==> drop <= count,
            count == 0 ==> drop == 1,
            crate::fonts::texts(out@) == seq![name@] + tails.take(drop - 1),
        decreases count - drop,
    {
        put(&mut out, join_from(&w, drop));
        assert(tails.take(drop as int) =~= tails.take(drop - 1).push(spaced(ws.skip(drop as int))));
        drop = drop + 1;
        assert(crate::fonts::texts(out@) =~= seq![name@] + tails.take(drop - 1));
    }
    assert(tails.take(drop - 1) =~= tails);
    let ghost lead = out@;
    let mut more = if count > 0 {
        cut_candidates(w[count - 1].as_str())
    } else {
        cut_candidates(name)
    };
    let ghost ends = more@;
    out.append(&mut more);
    assert(crate::fonts::texts(out@) =~= crate::fonts::texts(lead) + crate::fonts::texts(ends));
    assert(crate::fonts::texts(out@) =~= shortenings(name@));
    out
}

/// None of the first `n` fits.
pub open spec fn none_before(fits: Seq<bool>, n: int) -> bool {
    forall|j: int| 0 <= j < n ==> !#[trigger] fits[j]
}

/// The first text that fits, or nothing at all.
pub fn first_that_fits(candidates: Vec<String>, fits: &Vec<bool>) -> (r: String)
    requires
        fits@.len() == candidates@.len(),
    ensures
        none_before(fits@, fits@.len() as int) ==> r@.len() == 0,
        forall|i: int|
            0 <= i < fits@.len() && #[trigger] fits@[i] && none_before(fits@, i) ==> r@
                == candidates@[i]@,
{
    for i in 0..candidates.len()
        invariant
            fits@.len() == candidates@.len(),
            forall|j: int| 0 <= j < i ==> !#[trigger] fits@[j],
    {
        if fits[i] {
            return candidates[i].clone();
        }
    }
    String::new()
}

} // verus!
