//! The neck: its materials, what is drawn on it, and what a click means.

use ivory_ui::color::Rgb;
use ivory_ui::fretboard::Tuning;
use ivory_ui::fretboard_panel::{
    fret_at, marks, palette, Barre, CapoStyle, Mark, Neck, Outcome, Position, StringState, Voicing,
    Wood,
};

#[test]
fn capo_styles_cycle_and_unknown_values_fall_back() {
    let mut seen = std::collections::HashSet::new();
    let mut c = CapoStyle::default();
    for _ in 0..CapoStyle::ALL.len() {
        seen.insert(c);
        c = c.next();
    }
    assert_eq!(seen.len(), CapoStyle::ALL.len());
    assert_eq!(
        c,
        CapoStyle::default(),
        "the cycle does not come back round"
    );
    assert_eq!(
        CapoStyle::default(),
        CapoStyle::Black,
        "black is the default: a wooden capo on the default rosewood neck \
         is a bar you have to look for"
    );
    assert_eq!(CapoStyle::from_key("teak-from-2027"), CapoStyle::Black);
    for st in CapoStyle::ALL {
        assert_eq!(
            CapoStyle::from_key(st.key()),
            st,
            "{st:?} does not round-trip"
        );
    }
}
#[test]
fn every_wood_round_trips_through_its_settings_key() {
    for w in Wood::ALL {
        assert_eq!(Wood::from_key(w.key()), w);
        assert_eq!(Wood::from_key(&w.key().to_uppercase()), w);
    }
    assert_eq!(Wood::from_key("koa"), Wood::default());
    assert_eq!(Wood::from_key(""), Wood::Rosewood);
    let dot = Rgb::new(0x40, 0x90, 0xE0);
    let maple = palette(Wood::Maple, dot);
    let rose = palette(Wood::Rosewood, dot);
    assert!(
        maple.dot_edge.is_some(),
        "a pale board needs an edge on its dots"
    );
    assert!(rose.dot_edge.is_none());
    let lum = |c: Rgb| c.r as u32 + c.g as u32 + c.b as u32;
    assert!(
        lum(maple.board) > lum(maple.string),
        "maple: dark strings on a pale board"
    );
    assert!(
        lum(rose.board) < lum(rose.string),
        "rosewood: light strings on a dark board"
    );
    assert!(
        lum(palette(Wood::Ebony, dot).board) < lum(rose.board),
        "ebony is the darkest"
    );
}


#[test]
fn every_material_has_its_own_colours() {
    let black = CapoStyle::Black.colors();
    assert_eq!((black.body.r, black.body.g, black.body.b), (0x1c, 0x1c, 0x1e));
    assert!(black.texture.is_none() && black.grain.is_none());
    assert!(CapoStyle::Silver.colors().texture.is_some());
    assert!(CapoStyle::Wood.colors().grain.is_some());
    let maple = palette(Wood::Maple, Rgb::new(1, 2, 3));
    assert_eq!(maple.dot, Rgb::new(1, 2, 3));
    assert_eq!(maple.inlay.percent, 55);
    assert_eq!(Wood::Ebony.label(), "Ebony");
}

fn neck() -> Neck {
    Neck { strings: 6, frets: 22, capo: 0 }
}

fn at(string: usize, fret: u8) -> Position {
    Position { string, fret }
}

#[test]
fn each_kind_of_note_has_a_picture_of_its_own() {
    let v = Voicing {
        notes: vec![
            Outcome::Placed { pos: at(0, 3), octave_shift: 0 },
            Outcome::Placed { pos: at(1, 0), octave_shift: 0 },
            Outcome::Placed { pos: at(2, 5), octave_shift: 1 },
            Outcome::Placed { pos: at(3, 0), octave_shift: -1 },
            Outcome::Conflict { wanted: vec![at(4, 2), at(9, 2)] },
            Outcome::Unreachable,
            Outcome::Placed { pos: at(7, 1), octave_shift: 0 },
        ],
        strings: vec![
            StringState::Sounding,
            StringState::Sounding,
            StringState::Sounding,
            StringState::Sounding,
            StringState::Skipped,
            StringState::Unused,
        ],
        unreachable_count: 1,
    };
    let barre = Barre { lo_string: 0, hi_string: 5, fret: 3 };
    assert_eq!(
        marks(&v, neck(), Some(barre)),
        [
            Mark::Bar(barre),
            Mark::Ring(at(4, 2)),
            Mark::Dot(at(0, 3)),
            Mark::Open { string: 1 },
            Mark::Folded { string: 2, fret: Some(5), up: true },
            Mark::Folded { string: 3, fret: None, up: false },
            Mark::Cross { string: 4, faint: false },
            Mark::Cross { string: 5, faint: true },
        ]
    );
    // A bar across strings that are not there is not drawn.
    let wide = Barre { hi_string: 6, ..barre };
    assert_eq!(marks(&v, neck(), Some(wide))[0], Mark::Ring(at(4, 2)));
}

#[test]
fn an_idle_neck_is_bare_and_an_impossible_chord_strikes_it_out() {
    let idle = Voicing {
        notes: Vec::new(),
        strings: vec![StringState::Unused; 6],
        unreachable_count: 0,
    };
    assert_eq!(marks(&idle, neck(), None), []);
    assert_eq!(marks(&idle, Neck { capo: 3, ..neck() }, None), [Mark::Capo]);
    assert_eq!(marks(&idle, Neck { capo: 23, ..neck() }, None), []);
    let hopeless = Voicing {
        notes: vec![Outcome::Unreachable, Outcome::Unreachable],
        unreachable_count: 2,
        ..idle
    };
    assert_eq!(marks(&hopeless, neck(), None), [Mark::Slash]);
    assert_eq!(marks(&hopeless, Neck { strings: 0, ..neck() }, None), []);
}

#[test]
fn a_click_gives_the_first_wire_it_is_not_past() {
    let mut reached = vec![false; 23];
    assert_eq!(fret_at(false, &reached, neck()), None);
    assert_eq!(fret_at(true, &reached, neck()), Some(0));
    for f in 5..23 {
        reached[f] = true;
    }
    assert_eq!(fret_at(false, &reached, neck()), Some(5));
    // Nothing below the capo can be reached.
    let capo = Neck { capo: 7, ..neck() };
    assert_eq!(fret_at(false, &reached, capo), Some(7));
    assert_eq!(fret_at(true, &reached, capo), Some(7));
    assert!(capo.capo_fitted() && !neck().capo_fitted());
}

#[test]
fn a_fret_raises_an_open_string() {
    let open = vec![40, 45, 50, 55, 59, 64];
    let standard = Tuning::custom("Standard", open).unwrap();
    assert_eq!(standard.pitch_at(0, 0), Some(40));
    assert_eq!(standard.pitch_at(5, 24), Some(88));
    assert_eq!(standard.pitch_at(6, 0), None);
    let high = Tuning::custom("High", vec![103]).unwrap();
    assert_eq!(high.pitch_at(0, 24), Some(127));
    assert_eq!(high.pitch_at(0, 25), None);
    assert_eq!(high.pitch_at(0, 255), None);
}
