//! The typefaces: what each is kept under and called, which comes next, and in
//! what order they are asked for a glyph.

use crate::fonts::{font_chain, FontChoice};
use vstd::prelude::*;

verus! {

/// The three faces: what each is kept under and called, which a click brings
/// next, and what an unknown name falls back to. All of them can be used.
pub proof fn there_are_three_faces(
    face: FontChoice,
    key: &'static str,
    label: &'static str,
    next: FontChoice,
    usable: bool,
    s: &str,
    named: FontChoice,
)
    requires
        call_ensures(FontChoice::key, (face,), key),
        call_ensures(FontChoice::label, (face,), label),
        call_ensures(FontChoice::next, (face,), next),
        call_ensures(FontChoice::is_available, (face,), usable),
        call_ensures(FontChoice::from_key, (s,), named),
    ensures
        usable,
        face == FontChoice::Courier ==> key@ == "courier"@ && label@ == "Courier Prime"@ && next
            == FontChoice::Terminess,
        face == FontChoice::Terminess ==> key@ == "terminess"@ && label@ == "Terminess"@ && next
            == FontChoice::JetBrains,
        face == FontChoice::JetBrains ==> key@ == "jetbrains"@ && label@ == "JetBrains Mono"@
            && next == FontChoice::Courier,
        s@ == key@ ==> named == face,
        named == FontChoice::Terminess <==> s@ == "terminess"@,
        named == FontChoice::JetBrains <==> s@ == "jetbrains"@,
{
    crate::fonts::font_keys_come_back(face);
    reveal_strlit("terminess");
    reveal_strlit("jetbrains");
    assert("terminess"@[0] == 't' && "jetbrains"@[0] == 'j');
}

/// A family asks the user's own face first, then the chosen one, then Courier
/// Prime in the family's own weight, and then the fallback in its order.
pub proof fn the_chosen_face_stands_between_the_users_own_and_courier(
    choice: FontChoice,
    bold: bool,
    custom: bool,
    fallback: Vec<String>,
    r: Vec<String>,
    i: int,
)
    requires
        call_ensures(font_chain, (choice, bold, custom, &fallback), r),
    ensures
        ({
            let first: int = if custom {
                1
            } else {
                0
            };
            let courier: int = if choice == FontChoice::Courier {
                first
            } else {
                first + 1
            };
            &&& r@.len() == courier + 1 + fallback@.len()
            &&& custom ==> r@[0]@ == "IvoryCustom"@
            &&& choice == FontChoice::Terminess && bold ==> r@[first]@ == "Terminess-Bold"@
            &&& choice == FontChoice::Terminess && !bold ==> r@[first]@ == "Terminess-Regular"@
            &&& choice == FontChoice::JetBrains && bold ==> r@[first]@ == "JetBrainsMono-Bold"@
            &&& choice == FontChoice::JetBrains && !bold ==> r@[first]@ == "JetBrainsMono-Regular"@
            &&& bold ==> r@[courier]@ == "CourierPrime-Bold"@
            &&& !bold ==> r@[courier]@ == "CourierPrime-Regular"@
            &&& 0 <= i < fallback@.len() ==> r@[courier + 1 + i]@ == fallback@[i]@
        }),
{
    let t = crate::fonts::texts(r@);
    let f = crate::fonts::texts(fallback@);
    let first: int = if custom {
        1
    } else {
        0
    };
    let courier: int = if choice == FontChoice::Courier {
        first
    } else {
        first + 1
    };
    assert(t.len() == r@.len() && f.len() == fallback@.len());
    assert(t[0] == r@[0]@);
    assert(t[first] == r@[first]@);
    assert(t[courier] == r@[courier]@);
    if 0 <= i < fallback@.len() {
        assert(t[courier + 1 + i] == r@[courier + 1 + i]@);
        assert(f[i] == fallback@[i]@);
    }
}

} // verus!
