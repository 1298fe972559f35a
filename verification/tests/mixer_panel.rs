//! The desk: what is on it, what can be pressed, and what fits.

use ivory_ui::color::Rgb;
use ivory_ui::mixer_panel::{
    cut_candidates, first_swatch, first_that_fits, ink, meter_ticks, plugin_candidates, resolve_press,
    strip_bands, strip_face, strip_glyph, strip_targets, swatch_cell, targets, DragAxis, Face,
    Glyph, Hit, MixerView, PalettePress, StripView, BOTTOM_DB, COLUMNS, MASTER_COLOR, MASTER_TICKS,
    METER_TICKS, PALETTE_COLUMNS, PALETTE_V1_TO_V2, STRIP_COLORS, TOP_DB,
};
use ivory_ui::recorder::{ChannelKind, Column, Strip, CHANNELS};

fn a_strip(strip: Option<Strip>, empty: bool) -> StripView {
    StripView {
        strip,
        name: "CHANNEL".to_owned(),
        detail: String::new(),
        inserts: [String::new(), String::new(), String::new()],
        kind: (!empty && matches!(strip, Some(Strip::Channel(_)))).then_some(ChannelKind::Midi),
        color: 0,
        stereo: true,
        empty,
        muted: false,
        soloed: false,
    }
}

fn a_view() -> MixerView {
    let channels = Strip::shown();
    MixerView {
        strips: (0..COLUMNS)
            .map(|i| a_strip(channels.get(i).copied(), false))
            .collect(),
        any_solo: false,
        palette_open: None,
        typing: None,
        naming: None,
        dark_mode: true,
        wood: Rgb::new(0x4A, 0x3B, 0x2C),
    }
}

const MASTER: usize = COLUMNS - 1;
const CLICK: usize = COLUMNS - 2;

/// The fader's travel, linear in decibels between its two stops.
fn fader_position(db: i32) -> f32 {
    (db - BOTTOM_DB) as f32 / (TOP_DB - BOTTOM_DB) as f32
}

#[test]
fn soloing_one_strip_silences_the_rest() {
    let mut v = a_view();
    v.strips[2].soloed = true;
    v.any_solo = true;
    assert!(v.heard(2), "the soloed strip was silent");
    assert!(!v.heard(0), "an unsoloed strip was still heard");
    assert!(v.heard(MASTER), "solo silenced the master");
}

#[test]
fn the_desk_has_a_strip_for_every_slot() {
    let channels = Strip::shown();
    for n in 0..CHANNELS {
        assert_eq!(channels[n], Strip::Channel(n), "channel {n} has no column");
    }
    assert_eq!(
        COLUMNS,
        CHANNELS + 3,
        "a drawn channel went missing"
    );
    assert_eq!(channels.len(), CHANNELS + 2);
    assert!(channels.contains(&Strip::Click), "the click lost its column");
    assert!(!channels.contains(&Strip::Fx), "the bus is drawn twice");
    let mut seen: Vec<usize> = Strip::all().iter().map(|s| s.index()).collect();
    let n = seen.len();
    seen.sort_unstable();
    seen.dedup();
    assert_eq!(seen.len(), n, "two channels share an index");
}

#[test]
fn every_meter_tick_lands_where_the_fader_would_put_it() {
    for (which, ticks) in [
        ("channel", &METER_TICKS[..]),
        ("master", &MASTER_TICKS[..]),
    ] {
        let mut seen: Vec<f32> = Vec::new();
        for &db in ticks {
            let t = fader_position(db);
            assert!(
                t > 0.0 && t < 1.0,
                "{which}'s {db} dB mark sits at {t}, which is off the end of \
                 the travel and on top of whatever is there"
            );
            for other in &seen {
                assert!(
                    (other - t).abs() > 0.01,
                    "{which} has two marks at {t}, so one of them is a label \
                     nobody can read"
                );
            }
            seen.push(t);
        }
    }
    assert!(
        MASTER_TICKS.len() > METER_TICKS.len(),
        "the master's scale is no fuller than a channel's"
    );
}

#[test]
fn every_travelling_control_has_an_axis_and_a_distance() {
    for hit in [Hit::Fader(Column(0)), Hit::Send(Column(1))] {
        assert_eq!(hit.axis(), Some(DragAxis::Vertical), "{hit:?}");
        assert!(hit.travel().is_some_and(|t| t > 0), "{hit:?}");
    }
    for hit in [Hit::Mute(Column(0)), Hit::Solo(Column(0))] {
        assert_eq!(hit.axis(), None, "{hit:?} is not a thing you drag");
        assert_eq!(hit.travel(), None, "{hit:?}");
    }
}


#[test]
fn the_master_and_the_bus_are_not_offered_what_they_cannot_do() {
    let v = a_view();
    let master = strip_bands(&v.strips[MASTER]);
    assert!(master.send.is_none(), "the master was given a send");
    assert!(master.switches.is_none(), "the master was given a mute and a solo");
    assert!(master.travel.is_some(), "the master has no fader");
    let click = strip_bands(&v.strips[CLICK]);
    assert!(click.send.is_none(), "the click was given a send");
    assert!(click.switches.is_some());
    assert!(click.travel.is_some(), "the click has no fader");
    let track = strip_bands(&v.strips[CLICK - 1]);
    assert!(track.send.is_some() && track.switches.is_some());
    let bus = strip_bands(&a_strip(Some(Strip::Fx), false));
    assert!(bus.send.is_none() && bus.icon.is_none() && bus.switches.is_some());
}

#[test]
fn a_strip_without_a_send_has_a_taller_meter() {
    let v = a_view();
    let height = |i: usize| {
        let b = strip_bands(&v.strips[i]).travel.unwrap();
        b.bottom - b.top
    };
    assert!(
        height(MASTER) > height(0),
        "the master left a hole where a send would have been"
    );
}

#[test]
fn an_empty_slot_is_a_plus_and_nothing_else() {
    let mut v = a_view();
    v.strips[0].empty = true;
    assert_eq!(strip_targets(&v.strips[0], Column(0)), [Hit::Add(Column(0))]);
    let b = strip_bands(&v.strips[0]);
    assert!(b.all_plus, "there is no way to fill the slot");
    assert!(b.travel.is_none() && b.send.is_none() && b.switches.is_none() && b.name.is_none());
    assert!(strip_bands(&a_view().strips[0]).icon.is_some(), "a filled slot has no icon");
}

#[test]
fn every_label_is_at_the_same_height_as_the_masters() {
    let v = a_view();
    let master = strip_bands(&v.strips[MASTER]).name;
    assert!(master.is_some(), "the master has no name plate");
    for (i, s) in v.strips.iter().enumerate() {
        let b = strip_bands(s);
        assert_eq!(b.name, master, "column {i}'s label is at another height");
        if let (Some(icon), Some(name)) = (b.icon, b.name) {
            assert!(icon.top >= name.bottom, "column {i} draws its icon over its own name");
        }
    }
}

#[test]
fn what_is_pressed_is_tried_in_order() {
    let at = Column(0);
    assert_eq!(
        strip_targets(&a_view().strips[0], at),
        [
            Hit::Fader(at),
            Hit::Send(at),
            Hit::Mute(at),
            Hit::Solo(at),
            Hit::Add(at),
            Hit::Insert(at, 0),
            Hit::Insert(at, 1),
            Hit::Insert(at, 2),
            Hit::Db(at),
            Hit::Name(at),
        ]
    );
    let all = targets(&a_view());
    assert_eq!(all.len(), 9 * 10 + 9 + 6);
    assert_eq!(all.last(), Some(&Hit::Name(Column(MASTER))));
    for hit in all {
        assert!(hit.column().0 < COLUMNS);
    }
    assert_eq!(Hit::Paint(Column(4), 2).column(), Column(4));
}

#[test]
fn an_open_palette_swallows_the_strip_under_it() {
    let under = vec![Hit::Fader(Column(0))];
    let on = PalettePress { at: Column(0), swatch: Some(7), on_panel: true };
    assert_eq!(resolve_press(Some(on), &under), Some(Hit::Paint(Column(0), 7)));
    let beside = PalettePress { swatch: None, ..on };
    assert_eq!(
        resolve_press(Some(beside), &under),
        Some(Hit::Paint(Column(0), usize::MAX))
    );
    let elsewhere = PalettePress { on_panel: false, ..beside };
    assert_eq!(resolve_press(Some(elsewhere), &under), Some(Hit::Fader(Column(0))));
    assert_eq!(resolve_press(None, &under), Some(Hit::Fader(Column(0))));
    assert_eq!(resolve_press(Some(elsewhere), &Vec::new()), None);
    assert_eq!(resolve_press(None, &Vec::new()), None);
    assert_eq!(first_swatch(&vec![false, true, true]), Some(1));
    assert_eq!(first_swatch(&vec![false, false]), None);
}

#[test]
fn mute_silences_only_what_is_not_soloed_away() {
    let mut v = a_view();
    v.strips[1].muted = true;
    assert!(!v.heard(1) && v.heard(0));
    // Solo is asked first.
    v.strips[1].soloed = true;
    v.any_solo = true;
    assert!(v.heard(1) && !v.heard(0));
    v.strips[0].empty = true;
    assert!(v.heard(0), "there is nothing in it to silence");
    assert!(v.heard(99));
}

#[test]
fn the_palette_is_a_grid_and_old_places_still_lead_into_it() {
    assert_eq!(STRIP_COLORS.len() % PALETTE_COLUMNS, 0);
    assert_eq!(swatch_cell(0), (0, 0));
    assert_eq!(swatch_cell(14), (4, 2));
    assert_eq!(swatch_cell(26), (8, 2));
    assert!(MASTER_COLOR < STRIP_COLORS.len());
    for place in PALETTE_V1_TO_V2 {
        assert!(place < STRIP_COLORS.len());
    }
}

#[test]
fn a_strip_is_filled_with_its_paint_or_says_it_is_silent() {
    let mut s = a_strip(Some(Strip::Channel(0)), false);
    assert_eq!(strip_face(&s, true), Face::Plain);
    assert_eq!(strip_face(&s, false), Face::Silent);
    s.color = 5;
    assert_eq!(strip_face(&s, false), Face::Painted(Rgb::new(0x86, 0x27, 0x2D)));
    s.color = 400;
    assert_eq!(strip_face(&s, true), Face::Painted(Rgb::new(0x86, 0x27, 0x6C)));
}

#[test]
fn every_source_has_a_glyph() {
    let mut s = a_strip(Some(Strip::Channel(3)), false);
    assert_eq!(strip_glyph(&s), Some(Glyph::Instrument));
    s.kind = Some(ChannelKind::Audio);
    assert_eq!(strip_glyph(&s), Some(Glyph::Microphone));
    assert_eq!(strip_glyph(&a_strip(Some(Strip::Track), false)), Some(Glyph::Waveform));
    assert_eq!(strip_glyph(&a_strip(Some(Strip::Click), false)), Some(Glyph::Metronome));
    assert_eq!(strip_glyph(&a_strip(None, false)), None);
}

#[test]
fn the_desk_is_bone_on_its_own_wood() {
    let wood = Rgb::new(1, 2, 3);
    assert_eq!(ink(true, wood).wood, wood);
    assert_eq!(ink(true, wood).face, Rgb::new(0xC9, 0xC0, 0xA6));
    assert_eq!(ink(false, wood).face, Rgb::new(0xE3, 0xD9, 0xBD));
    assert_eq!(ink(false, wood).faint.percent, 55);
}

#[test]
fn only_the_master_has_the_full_scale() {
    assert_eq!(meter_ticks(&a_strip(None, false)), MASTER_TICKS);
    assert_eq!(meter_ticks(&a_strip(Some(Strip::Track), false)), METER_TICKS);
}

/// Pick the first candidate of at most `room` characters.
fn fitted(candidates: Vec<String>, room: usize) -> String {
    let fits: Vec<bool> = candidates.iter().map(|c| c.chars().count() <= room).collect();
    first_that_fits(candidates, &fits)
}

#[test]
fn a_long_name_is_cut_and_says_so() {
    assert_eq!(fitted(cut_candidates("Piano"), 5), "Piano");
    assert_eq!(fitted(cut_candidates("Scarlett 18i20"), 10), "Scarlett\u{2026}");
    assert_eq!(fitted(cut_candidates("Scarlett 18i20"), 4), "Sca\u{2026}");
    assert_eq!(fitted(cut_candidates("Scarlett"), 1), "\u{2026}");
    assert_eq!(fitted(cut_candidates("Scarlett"), 0), "");
    assert_eq!(cut_candidates("ab"), ["ab", "a\u{2026}", "\u{2026}"]);
}

#[test]
fn a_plugin_loses_its_makers_name_before_its_own() {
    let name = "FabFilter  Pro-R 2";
    assert_eq!(fitted(plugin_candidates(name), 30), name);
    assert_eq!(fitted(plugin_candidates(name), 8), "Pro-R 2");
    assert_eq!(fitted(plugin_candidates(name), 1), "2");
    assert_eq!(fitted(plugin_candidates("FabFilter Saturn"), 4), "Sat\u{2026}");
    assert_eq!(fitted(plugin_candidates("Pianoteq"), 4), "Pia\u{2026}");
    assert_eq!(fitted(plugin_candidates("  "), 1), "\u{2026}");
}

#[test]
fn bone_stands_off_from_every_paint() {
    let luma = |(r, g, b): (u8, u8, u8)| {
        0.299 * f32::from(r) + 0.587 * f32::from(g) + 0.114 * f32::from(b)
    };
    for dark in [true, false] {
        let p = ink(dark, Rgb::new(0x4A, 0x3B, 0x2C));
        let bone = luma((p.face.r, p.face.g, p.face.b));
        for paint in STRIP_COLORS {
            assert!((bone - luma(paint)) * 0.62 > 40.0, "{paint:?}");
        }
        let dark_ink = luma((p.engrave.r, p.engrave.g, p.engrave.b));
        assert!((bone - dark_ink) * 0.62 > 40.0);
    }
}
