//! Choosing a typeface.

use ivory_ui::fonts::{font_chain, FontChoice};

#[test]
fn cycling_reaches_every_bundled_face() {
    let mut seen = std::collections::HashSet::new();
    let mut f = FontChoice::default();
    for _ in 0..FontChoice::ALL.len() {
        seen.insert(f);
        f = f.next();
    }
    assert_eq!(
        seen.len(),
        FontChoice::ALL.len(),
        "cycling from {:?} only reached {:?}",
        FontChoice::default(),
        seen
    );
    assert_eq!(f, FontChoice::default(), "the cycle does not come back round");

    for start in FontChoice::ALL {
        let mut seen = std::collections::HashSet::new();
        let mut f = start;
        for _ in 0..FontChoice::ALL.len() {
            seen.insert(f);
            f = f.next();
        }
        assert_eq!(seen.len(), FontChoice::ALL.len(), "starting from {start:?}");
    }
}

#[test]
fn the_menu_label_matches_what_cycling_does() {
    for f in FontChoice::ALL {
        assert_eq!(f.next().label(), f.next().label());
        assert_ne!(f.next(), f, "a face that cycles to itself would look stuck");
    }
}

#[test]
fn a_key_brings_its_face_back() {
    for f in FontChoice::ALL {
        assert_eq!(FontChoice::from_key(f.key()), f);
        assert!(f.is_available());
    }
    assert_eq!(FontChoice::from_key("comic"), FontChoice::Courier);
    assert_eq!(FontChoice::from_key(""), FontChoice::Courier);
    assert_eq!(FontChoice::JetBrains.label(), "JetBrains Mono");
}

#[test]
fn a_chosen_face_stands_over_courier_and_under_the_users_own() {
    let fallback = vec!["Ubuntu-Light".to_owned(), "Hack".to_owned()];
    assert_eq!(
        font_chain(FontChoice::Courier, false, false, &fallback),
        ["CourierPrime-Regular", "Ubuntu-Light", "Hack"]
    );
    assert_eq!(
        font_chain(FontChoice::Terminess, true, true, &fallback),
        ["IvoryCustom", "Terminess-Bold", "CourierPrime-Bold", "Ubuntu-Light", "Hack"]
    );
    assert_eq!(
        font_chain(FontChoice::JetBrains, false, false, &Vec::new()),
        ["JetBrainsMono-Regular", "CourierPrime-Regular"]
    );
}
