//! The bundled typefaces, and which one is asked for which glyph first.

use crate::text;
use vstd::prelude::*;

verus! {

pub const FAMILY_COURIER: &'static str = "courier";

pub const FAMILY_COURIER_BOLD: &'static str = "courier-bold";

/// A built-in UI typeface the user can pick.
#[derive(Clone, Copy, Debug, PartialEq, Eq, Hash, Structural)]
pub enum FontChoice {
    Courier,
    Terminess,
    JetBrains,
}

impl Default for FontChoice {
    fn default() -> (r: FontChoice)
        ensures
            r == FontChoice::Courier,
    {
        FontChoice::Courier
    }
}

impl FontChoice {
    pub const ALL: [FontChoice; 3] = [
        FontChoice::Courier,
        FontChoice::Terminess,
        FontChoice::JetBrains,
    ];

    pub open spec fn name(self) -> Seq<char> {
        match self {
            FontChoice::Courier => "courier"@,
            FontChoice::Terminess => "terminess"@,
            FontChoice::JetBrains => "jetbrains"@,
        }
    }

    /// The face a name stands for. One that is not known is Courier Prime.
    pub open spec fn named(s: Seq<char>) -> FontChoice {
        if s == "terminess"@ {
            FontChoice::Terminess
        } else if s == "jetbrains"@ {
            FontChoice::JetBrains
        } else {
            FontChoice::Courier
        }
    }

    /// The face the next click brings.
    pub open spec fn after(self) -> FontChoice {
        match self {
            FontChoice::Courier => FontChoice::Terminess,
            FontChoice::Terminess => FontChoice::JetBrains,
            FontChoice::JetBrains => FontChoice::Courier,
        }
    }

    /// The face a settings key stands for.
    pub fn from_key(s: &str) -> (r: FontChoice)
        ensures
            r == FontChoice::named(s@),
    {
        if text::same(s, "terminess") {
            FontChoice::Terminess
        } else if text::same(s, "jetbrains") {
            FontChoice::JetBrains
        } else {
            FontChoice::Courier
        }
    }

    pub fn key(self) -> (r: &'static str)
        ensures
            r@ == self.name(),
    {
        match self {
            FontChoice::Courier => "courier",
            FontChoice::Terminess => "terminess",
            FontChoice::JetBrains => "jetbrains",
        }
    }

    pub fn label(self) -> (r: &'static str)
        ensures
            r@ == (match self {
                FontChoice::Courier => "Courier Prime"@,
                FontChoice::Terminess => "Terminess"@,
                FontChoice::JetBrains => "JetBrains Mono"@,
            }),
    {
        match self {
            FontChoice::Courier => "Courier Prime",
            FontChoice::Terminess => "Terminess",
            FontChoice::JetBrains => "JetBrains Mono",
        }
    }

    /// Every face is compiled in, so every choice is always usable.
    pub fn is_available(self) -> (r: bool)
        ensures
            r,
    {
        true
    }

    /// Where the face stands in the list.
    fn place(self) -> (r: usize)
        ensures
            r < 3,
            FontChoice::ALL@[r as int] == self,
    {
        match self {
            FontChoice::Courier => 0,
            FontChoice::Terminess => 1,
            FontChoice::JetBrains => 2,
        }
    }

    /// The next available face, wrapping.
    pub fn next(self) -> (r: FontChoice)
        ensures
            r == self.after(),
    {
        let here: usize = self.place();
        let candidate: FontChoice = Self::ALL[(here + 1) % 3];
        if candidate.is_available() {
            candidate
        } else {
            self
        }
    }
}

/// The key a face is kept under brings that face back.
pub proof fn font_keys_come_back(face: FontChoice)
    ensures
        FontChoice::named(face.name()) == face,
{
    reveal_strlit("courier");
    reveal_strlit("terminess");
    reveal_strlit("jetbrains");
    assert("courier"@[0] == 'c');
    assert("terminess"@[0] == 't');
    assert("jetbrains"@[0] == 'j');
}

/// Cycling reaches every bundled face from wherever it starts, never stays where
/// it is, and comes back round.
pub proof fn cycling_reaches_every_face(start: FontChoice, wanted: FontChoice)
    ensures
        start.after() != start,
        start.after().after().after() == start,
        start == wanted || start.after() == wanted || start.after().after() == wanted,
        FontChoice::ALL@.contains(wanted),
{
    assert(FontChoice::ALL@[0] == FontChoice::Courier);
    assert(FontChoice::ALL@[1] == FontChoice::Terminess);
    assert(FontChoice::ALL@[2] == FontChoice::JetBrains);
}

/// The faces asked for a glyph, first to last: the user's own where there is
/// one, the chosen face, Courier Prime for what that lacks, and then the rest.
pub open spec fn chain(
    choice: FontChoice,
    bold: bool,
    custom: bool,
    fallback: Seq<Seq<char>>,
) -> Seq<Seq<char>> {
    let own = if custom {
        seq!["IvoryCustom"@]
    } else {
        seq![]
    };
    let chosen = match choice {
        FontChoice::Courier => seq![],
        FontChoice::Terminess => seq![
            if bold {
                "Terminess-Bold"@
            } else {
                "Terminess-Regular"@
            },
        ],
        FontChoice::JetBrains => seq![
            if bold {
                "JetBrainsMono-Bold"@
            } else {
                "JetBrainsMono-Regular"@
            },
        ],
    };
    let courier = seq![
        if bold {
            "CourierPrime-Bold"@
        } else {
            "CourierPrime-Regular"@
        },
    ];
    own + chosen + courier + fallback
}

/// Texts as their characters.
pub open spec fn texts(v: Seq<String>) -> Seq<Seq<char>> {
    v.map_values(|s: String| s@)
}

fn put(v: &mut Vec<String>, s: &str)
    ensures
        texts(final(v)@) == texts(old(v)@).push(s@),
{
    let ghost before = v@;
    v.push(s.to_owned());
    assert(texts(v@) =~= texts(before).push(s@));
}

/// The names of the faces one family is made of.
pub fn font_chain(choice: FontChoice, bold: bool, custom: bool, fallback: &Vec<String>) -> (r: Vec<
    String,
>)
    ensures
        texts(r@) == chain(choice, bold, custom, texts(fallback@)),
{
    let mut names: Vec<String> = Vec::new();
    assert(texts(names@) =~= seq![]);
    if custom {
        put(&mut names, "IvoryCustom");
    }
    match choice {
        FontChoice::Courier => {},
        FontChoice::Terminess => put(
            &mut names,
            if bold {
                "Terminess-Bold"
            } else {
                "Terminess-Regular"
            },
        ),
        FontChoice::JetBrains => put(
            &mut names,
            if bold {
                "JetBrainsMono-Bold"
            } else {
                "JetBrainsMono-Regular"
            },
        ),
    }
    put(
        &mut names,
        if bold {
            "CourierPrime-Bold"
        } else {
            "CourierPrime-Regular"
        },
    );
    let ghost lead = texts(names@);
    for i in 0..fallback.len()
        invariant
            texts(names@) == lead + texts(fallback@).take(i as int),
    {
        put(&mut names, fallback[i].as_str());
        assert(texts(names@) =~= lead + texts(fallback@).take(i + 1));
    }
    assert(texts(names@) =~= chain(choice, bold, custom, texts(fallback@)));
    names
}

/// Courier Prime is in every chain, so a face that lacks a symbol still shows
/// it.
pub proof fn courier_prime_is_always_asked(
    choice: FontChoice,
    bold: bool,
    custom: bool,
    fallback: Seq<Seq<char>>,
)
    ensures
        chain(choice, bold, custom, fallback).contains(
            if bold {
                "CourierPrime-Bold"@
            } else {
                "CourierPrime-Regular"@
            },
        ),
{
    let names = chain(choice, bold, custom, fallback);
    let own: int = if custom {
        1
    } else {
        0
    };
    let at: int = if choice == FontChoice::Courier {
        own
    } else {
        own + 1
    };
    assert(names[at] == (if bold {
        "CourierPrime-Bold"@
    } else {
        "CourierPrime-Regular"@
    }));
}

} // verus!
