//! Keyboard shortcuts, and the card that lists them.
//!
//! The bindings live in one table and the card is made from that table, so a
//! shortcut cannot work without being listed or be listed without working.

use vstd::prelude::*;

verus! {

/// What a keypress asks the app to do.
#[derive(Debug, Clone, Copy, PartialEq, Eq, Structural)]
pub enum KeyAction {
    ToggleHelp,
    ToggleKeytoggle,
    ClearNotes,
    ToggleFretboard,
    ToggleCameraPane,
    CycleClef,
    ToggleNoteNames,
    /// One of the theory band's elements, by its number key.
    ToggleTheoryElement(usize),
    CycleTheory,
    ToggleDarkMode,
    ToggleDetection,
    ToggleBorderless,
    CycleFont,
    ShowAbout,
    ShowSupporterKey,
    TeachChordName,
    CorrectChordName,
    ManageTaughtChords,
    ToggleChordLearning,
    ToggleNotePreference,
    /// Start a take. Separate from stopping: the key that begins a performance
    /// is not the one that ends it.
    StartRecording,
    StopRecording,
    ToggleRecorder,
    /// Fill the screen, and come back.
    ToggleFullscreen,
    TransposeUp,
    TransposeDown,
    CloseHelp,
}

/// The keys that are bound to something.
#[derive(Debug, Clone, Copy, PartialEq, Eq, Structural)]
pub enum Key {
    A,
    B,
    C,
    D,
    E,
    F,
    G,
    H,
    I,
    K,
    L,
    M,
    N,
    P,
    R,
    S,
    T,
    U,
    V,
    W,
    Z,
    Num1,
    Num2,
    Num3,
    Num4,
    F1,
    F11,
    ArrowUp,
    ArrowDown,
    Enter,
    Space,
    Escape,
}

/// What the app is currently offering a key. By default nothing extra is open:
/// a gate nobody remembered costs a shortcut rather than firing one.
#[derive(Debug, Clone, Copy, PartialEq, Eq, Structural)]
pub struct Gates {
    /// The Recorder band is showing. Opening it is the consent to record.
    pub recorder_shown: bool,
    /// This host can record at all.
    pub recorder_available: bool,
    /// This host owns its window.
    pub window_sizing: bool,
}

impl Default for Gates {
    fn default() -> (r: Gates)
        ensures
            !r.recorder_shown && !r.recorder_available && !r.window_sizing,
    {
        Gates { recorder_shown: false, recorder_available: false, window_sizing: false }
    }
}

/// A binding for `action` is live.
pub open spec fn live(action: KeyAction, gates: Gates) -> bool {
    match action {
        KeyAction::StartRecording => gates.recorder_shown,
        KeyAction::StopRecording => gates.recorder_shown,
        KeyAction::ToggleRecorder => gates.recorder_available,
        KeyAction::ToggleFullscreen => gates.window_sizing,
        _ => true,
    }
}

/// Whether a binding is live right now. The keyboard and the card both come
/// through here.
pub fn available(action: KeyAction, gates: Gates) -> (r: bool)
    ensures
        r == live(action, gates),
{
    match action {
        KeyAction::StartRecording | KeyAction::StopRecording => gates.recorder_shown,
        KeyAction::ToggleRecorder => gates.recorder_available,
        KeyAction::ToggleFullscreen => gates.window_sizing,
        _ => true,
    }
}

/// Key, label, and whether it appears on the card; what it does is
/// `Key::action`.
///
/// `H` as well as `F1`, because some systems keep the function keys for
/// themselves, and `F11` beside `Z` for the same reason. The number row is four
/// keys doing one job, listed once. Enter and Space stand last of the listed
/// rows, so their coming and going moves nothing above them.
pub const BINDINGS: [(Key, &'static str, bool); 32] = [
    (Key::H, "H", true),
    (Key::F1, "F1", false),
    (Key::K, "K", true),
    (Key::R, "R", true),
    (Key::G, "G", true),
    (Key::W, "W", true),
    (Key::U, "U", true),
    (Key::I, "I", true),
    (Key::Num1, "1-4", true),
    (Key::Num2, "2", false),
    (Key::Num3, "3", false),
    (Key::Num4, "4", false),
    (Key::T, "T", true),
    (Key::C, "C", true),
    (Key::D, "D", true),
    (Key::B, "B", true),
    (Key::F, "F", true),
    (Key::A, "A", true),
    (Key::S, "S", true),
    (Key::N, "N", true),
    (Key::E, "E", true),
    (Key::M, "M", true),
    (Key::L, "L", true),
    (Key::P, "P", true),
    (Key::Z, "Z", true),
    (Key::F11, "F11", false),
    (Key::ArrowUp, "Up", true),
    (Key::ArrowDown, "Down", true),
    (Key::V, "V", true),
    (Key::Enter, "Enter", true),
    (Key::Space, "Space", true),
    (Key::Escape, "Esc", false),
];

impl Key {
    /// What a key is bound to.
    pub open spec fn bound(self) -> KeyAction {
        match self {
            Key::H => KeyAction::ToggleHelp,
            Key::F1 => KeyAction::ToggleHelp,
            Key::K => KeyAction::ToggleKeytoggle,
            Key::R => KeyAction::ClearNotes,
            Key::G => KeyAction::ToggleFretboard,
            Key::W => KeyAction::ToggleCameraPane,
            Key::U => KeyAction::ToggleNoteNames,
            Key::I => KeyAction::CycleClef,
            Key::Num1 => KeyAction::ToggleTheoryElement(1),
            Key::Num2 => KeyAction::ToggleTheoryElement(2),
            Key::Num3 => KeyAction::ToggleTheoryElement(3),
            Key::Num4 => KeyAction::ToggleTheoryElement(4),
            Key::T => KeyAction::CycleTheory,
            Key::C => KeyAction::ToggleDetection,
            Key::D => KeyAction::ToggleDarkMode,
            Key::B => KeyAction::ToggleBorderless,
            Key::F => KeyAction::CycleFont,
            Key::A => KeyAction::ShowAbout,
            Key::S => KeyAction::ShowSupporterKey,
            Key::N => KeyAction::TeachChordName,
            Key::E => KeyAction::CorrectChordName,
            Key::M => KeyAction::ManageTaughtChords,
            Key::L => KeyAction::ToggleChordLearning,
            Key::P => KeyAction::ToggleNotePreference,
            Key::Z => KeyAction::ToggleFullscreen,
            Key::F11 => KeyAction::ToggleFullscreen,
            Key::ArrowUp => KeyAction::TransposeUp,
            Key::ArrowDown => KeyAction::TransposeDown,
            Key::V => KeyAction::ToggleRecorder,
            Key::Enter => KeyAction::StartRecording,
            Key::Space => KeyAction::StopRecording,
            Key::Escape => KeyAction::CloseHelp,
        }
    }

    /// Where a key stands in the table.
    pub open spec fn place(self) -> int {
        match self {
            Key::H => 0,
            Key::F1 => 1,
            Key::K => 2,
            Key::R => 3,
            Key::G => 4,
            Key::W => 5,
            Key::U => 6,
            Key::I => 7,
            Key::Num1 => 8,
            Key::Num2 => 9,
            Key::Num3 => 10,
            Key::Num4 => 11,
            Key::T => 12,
            Key::C => 13,
            Key::D => 14,
            Key::B => 15,
            Key::F => 16,
            Key::A => 17,
            Key::S => 18,
            Key::N => 19,
            Key::E => 20,
            Key::M => 21,
            Key::L => 22,
            Key::P => 23,
            Key::Z => 24,
            Key::F11 => 25,
            Key::ArrowUp => 26,
            Key::ArrowDown => 27,
            Key::V => 28,
            Key::Enter => 29,
            Key::Space => 30,
            Key::Escape => 31,
        }
    }

    /// What a key does.
    pub fn action(self) -> (r: KeyAction)
        ensures
            r == self.bound(),
    {
        match self {
            Key::H => KeyAction::ToggleHelp,
            Key::F1 => KeyAction::ToggleHelp,
            Key::K => KeyAction::ToggleKeytoggle,
            Key::R => KeyAction::ClearNotes,
            Key::G => KeyAction::ToggleFretboard,
            Key::W => KeyAction::ToggleCameraPane,
            Key::U => KeyAction::ToggleNoteNames,
            Key::I => KeyAction::CycleClef,
            Key::Num1 => KeyAction::ToggleTheoryElement(1),
            Key::Num2 => KeyAction::ToggleTheoryElement(2),
            Key::Num3 => KeyAction::ToggleTheoryElement(3),
            Key::Num4 => KeyAction::ToggleTheoryElement(4),
            Key::T => KeyAction::CycleTheory,
            Key::C => KeyAction::ToggleDetection,
            Key::D => KeyAction::ToggleDarkMode,
            Key::B => KeyAction::ToggleBorderless,
            Key::F => KeyAction::CycleFont,
            Key::A => KeyAction::ShowAbout,
            Key::S => KeyAction::ShowSupporterKey,
            Key::N => KeyAction::TeachChordName,
            Key::E => KeyAction::CorrectChordName,
            Key::M => KeyAction::ManageTaughtChords,
            Key::L => KeyAction::ToggleChordLearning,
            Key::P => KeyAction::ToggleNotePreference,
            Key::Z => KeyAction::ToggleFullscreen,
            Key::F11 => KeyAction::ToggleFullscreen,
            Key::ArrowUp => KeyAction::TransposeUp,
            Key::ArrowDown => KeyAction::TransposeDown,
            Key::V => KeyAction::ToggleRecorder,
            Key::Enter => KeyAction::StartRecording,
            Key::Space => KeyAction::StopRecording,
            Key::Escape => KeyAction::CloseHelp,
        }
    }
}

impl KeyAction {
    /// The control an action belongs to: the number keys are one.
    pub open spec fn control(self) -> KeyAction {
        match self {
            KeyAction::ToggleTheoryElement(_) => KeyAction::ToggleTheoryElement(1),
            other => other,
        }
    }

    /// The action with any per-key payload flattened away.
    pub fn family(self) -> (r: KeyAction)
        ensures
            r == self.control(),
    {
        match self {
            KeyAction::ToggleTheoryElement(_) => KeyAction::ToggleTheoryElement(1),
            other => other,
        }
    }
}

/// What an action does, in words.
pub open spec fn description(a: KeyAction) -> Seq<char> {
    match a {
        KeyAction::ToggleHelp => "hold for this card"@,
        KeyAction::ToggleKeytoggle => "keytoggle: click the piano or the neck to place notes"@,
        KeyAction::ClearNotes => "clear every note you placed"@,
        KeyAction::ToggleFretboard => "guitar view"@,
        KeyAction::ToggleCameraPane => "camera"@,
        KeyAction::CycleClef => "clef"@,
        KeyAction::ToggleNoteNames => "note names"@,
        KeyAction::ToggleTheoryElement(_) => "theory panel on/off (1-4)"@,
        KeyAction::CycleTheory => "cycle the theory band"@,
        KeyAction::ToggleDarkMode => "dark mode"@,
        KeyAction::ToggleDetection => "chord detection"@,
        KeyAction::ToggleBorderless => "window border"@,
        KeyAction::CycleFont => "cycle the typeface"@,
        KeyAction::ShowAbout => "about"@,
        KeyAction::ShowSupporterKey => "enter a supporter key"@,
        KeyAction::TeachChordName => "name the chord you are holding"@,
        KeyAction::CorrectChordName => "correct what it reads"@,
        KeyAction::ManageTaughtChords => "chords you have taught"@,
        KeyAction::ToggleChordLearning => "chord learning"@,
        KeyAction::ToggleNotePreference => "sharps or flats"@,
        KeyAction::StartRecording => "start recording"@,
        KeyAction::StopRecording => "stop recording"@,
        KeyAction::ToggleRecorder => "the recorder"@,
        KeyAction::ToggleFullscreen => "fill the screen"@,
        KeyAction::TransposeUp => "transpose up a semitone"@,
        KeyAction::TransposeDown => "transpose down a semitone"@,
        KeyAction::CloseHelp => "close this card"@,
    }
}

/// One line of help text per binding.
pub fn describe(a: KeyAction) -> (r: &'static str)
    ensures
        r@ == description(a),
{
    match a {
        KeyAction::ToggleHelp => "hold for this card",
        KeyAction::ToggleKeytoggle => "keytoggle: click the piano or the neck to place notes",
        KeyAction::ClearNotes => "clear every note you placed",
        KeyAction::ToggleFretboard => "guitar view",
        KeyAction::ToggleCameraPane => "camera",
        KeyAction::CycleClef => "clef",
        KeyAction::ToggleNoteNames => "note names",
        KeyAction::ToggleTheoryElement(_) => "theory panel on/off (1-4)",
        KeyAction::CycleTheory => "cycle the theory band",
        KeyAction::ToggleDarkMode => "dark mode",
        KeyAction::ToggleDetection => "chord detection",
        KeyAction::ToggleBorderless => "window border",
        KeyAction::CycleFont => "cycle the typeface",
        KeyAction::ShowAbout => "about",
        KeyAction::ShowSupporterKey => "enter a supporter key",
        KeyAction::TeachChordName => "name the chord you are holding",
        KeyAction::CorrectChordName => "correct what it reads",
        KeyAction::ManageTaughtChords => "chords you have taught",
        KeyAction::ToggleChordLearning => "chord learning",
        KeyAction::ToggleNotePreference => "sharps or flats",
        KeyAction::StartRecording => "start recording",
        KeyAction::StopRecording => "stop recording",
        KeyAction::ToggleRecorder => "the recorder",
        KeyAction::ToggleFullscreen => "fill the screen",
        KeyAction::TransposeUp => "transpose up a semitone",
        KeyAction::TransposeDown => "transpose down a semitone",
        KeyAction::CloseHelp => "close this card",
    }
}

// ── The card ───────────────────────────────────────────────────────────────
/// The rows of a card made from the first `n` bindings, in table order.
pub open spec fn rows_from(n: int, gates: Gates) -> Seq<(Seq<char>, Seq<char>)>
    decreases n,
{
    if n <= 0 {
        seq![]
    } else {
        let (key, label, shown) = BINDINGS@[n - 1];
        let above = rows_from(n - 1, gates);
        if shown && live(key.bound(), gates) {
            above.push((label@, description(key.bound())))
        } else {
            above
        }
    }
}

/// The whole card: a label and a description for every binding that is listed
/// and live.
pub open spec fn card(gates: Gates) -> Seq<(Seq<char>, Seq<char>)> {
    rows_from(32, gates)
}

/// Card rows as they read.
pub open spec fn as_read(rows: Seq<(&'static str, &'static str)>) -> Seq<(Seq<char>, Seq<char>)> {
    rows.map_values(|r: (&'static str, &'static str)| (r.0@, r.1@))
}

/// The rows the card shows, in table order.
pub fn card_rows(gates: Gates) -> (r: Vec<(&'static str, &'static str)>)
    ensures
        as_read(r@) == card(gates),
{
    let mut rows: Vec<(&'static str, &'static str)> = Vec::new();
    assert(as_read(rows@) =~= seq![]);
    for i in 0..32usize
        invariant
            as_read(rows@) == rows_from(i as int, gates),
    {
        let (key, label, shown) = BINDINGS[i];
        let action = key.action();
        let ghost above = rows@;
        if shown && available(action, gates) {
            let desc = describe(action);
            rows.push((label, desc));
            assert(as_read(rows@) =~= as_read(above).push((label@, desc@)));
        }
    }
    rows
}

// ── The keyboard ───────────────────────────────────────────────────────────
/// The help key is held rather than pressed, and closing the card is its
/// release.
pub open spec fn is_help(action: KeyAction) -> bool {
    action == KeyAction::ToggleHelp || action == KeyAction::CloseHelp
}

/// Binding `i` fires: its key is among `down`, it is live, and it is not help.
pub open spec fn fires(i: int, down: Seq<Key>, gates: Gates) -> bool {
    let key = BINDINGS@[i].0;
    down.contains(key) && !is_help(key.bound()) && live(key.bound(), gates)
}

/// No binding fires.
pub open spec fn nothing_fires(down: Seq<Key>, gates: Gates) -> bool {
    forall|i: int| 0 <= i < 32 ==> !#[trigger] fires(i, down, gates)
}

/// Whether `key` is among `keys`.
fn among(keys: &Vec<Key>, key: Key) -> (r: bool)
    ensures
        r == keys@.contains(key),
{
    for i in 0..keys.len()
        invariant
            forall|j: int| 0 <= j < i ==> #[trigger] keys@[j] != key,
    {
        if keys[i] == key {
            return true;
        }
    }
    false
}

/// Which action a frame's keypresses ask for: the first binding of the table
/// that fires, and none at all while a modifier is held.
pub fn pressed(modifiers: bool, down: &Vec<Key>, gates: Gates) -> (r: Option<KeyAction>)
    ensures
        modifiers ==> r is None,
        r is None <==> modifiers || nothing_fires(down@, gates),
        r matches Some(action) ==> exists|i: int|
            0 <= i < 32 && #[trigger] fires(i, down@, gates) && action == BINDINGS@[i].0.bound()
                && forall|j: int| 0 <= j < i ==> !#[trigger] fires(j, down@, gates),
{
    if modifiers {
        return None;
    }
    for i in 0..32usize
        invariant
            !modifiers,
            forall|j: int| 0 <= j < i ==> !#[trigger] fires(j, down@, gates),
    {
        let (key, _label, _shown) = BINDINGS[i];
        let action = key.action();
        let help = action == KeyAction::ToggleHelp || action == KeyAction::CloseHelp;
        if !help && available(action, gates) && among(down, key) {
            assert(fires(i as int, down@, gates));
            return Some(action);
        }
        assert(!fires(i as int, down@, gates));
    }
    None
}

/// Whether the card is being held out: a help key is down, alone, and the app
/// lets it be.
pub fn help_held(allowed: bool, modifiers: bool, down: &Vec<Key>) -> (r: bool)
    ensures
        r == (allowed && !modifiers && exists|i: int|
            0 <= i < 32 && (#[trigger] BINDINGS@[i]).0.bound() == KeyAction::ToggleHelp
                && down@.contains(BINDINGS@[i].0)),
{
    if !allowed || modifiers {
        return false;
    }
    for i in 0..32usize
        invariant
            allowed && !modifiers,
            forall|j: int|
                0 <= j < i ==> !((#[trigger] BINDINGS@[j]).0.bound() == KeyAction::ToggleHelp
                    && down@.contains(BINDINGS@[j].0)),
    {
        let (key, _label, _shown) = BINDINGS[i];
        if key.action() == KeyAction::ToggleHelp && among(down, key) {
            assert(BINDINGS@[i as int].0 == key);
            return true;
        }
    }
    false
}

/// Whether any key is bound to `action`.
pub fn binding_for_test(action: KeyAction) -> (r: bool)
    ensures
        r == (exists|i: int| 0 <= i < 32 && (#[trigger] BINDINGS@[i]).0.bound() == action),
{
    for i in 0..32usize
        invariant
            forall|j: int| 0 <= j < i ==> (#[trigger] BINDINGS@[j]).0.bound() != action,
    {
        let (key, _label, _shown) = BINDINGS[i];
        if key.action() == action {
            assert(BINDINGS@[i as int].0 == key);
            return true;
        }
    }
    false
}

// ── Laying the card out ────────────────────────────────────────────────────
/// One way of setting the card: whether it fits the window, and how big its
/// text then is, as a number that is larger for larger text.
#[derive(Debug, Clone, Copy, PartialEq, Eq, Structural)]
pub struct Arrangement {
    pub fits: bool,
    pub size: u32,
}

/// None of them fits.
pub open spec fn none_fits(options: Seq<Arrangement>) -> bool {
    forall|i: int| 0 <= i < options.len() ==> !(#[trigger] options[i]).fits
}

/// `b` fits, and none that fits is bigger, nor as big and before it.
pub open spec fn is_biggest(options: Seq<Arrangement>, b: int) -> bool {
    &&& 0 <= b < options.len()
    &&& options[b].fits
    &&& forall|i: int|
        0 <= i < options.len() && (#[trigger] options[i]).fits ==> options[i].size
            <= options[b].size && (i < b ==> options[i].size < options[b].size)
}

/// The arrangement with the biggest text among those that fit, the first of
/// equals; none when nothing fits.
pub fn best_arrangement(options: &Vec<Arrangement>) -> (r: Option<usize>)
    ensures
        r is None <==> none_fits(options@),
        r matches Some(b) ==> is_biggest(options@, b as int),
{
    let mut best: Option<usize> = None;
    for i in 0..options.len()
        invariant
            best is None <==> forall|j: int| 0 <= j < i ==> !(#[trigger] options@[j]).fits,
            best matches Some(b) ==> b < i && options@[b as int].fits && (forall|j: int|
                0 <= j < i && (#[trigger] options@[j]).fits ==> options@[j].size
                    <= options@[b as int].size && (j < b ==> options@[j].size
                    < options@[b as int].size)),
    {
        if options[i].fits {
            let better = match best {
                None => true,
                Some(b) => options[i].size > options[b].size,
            };
            if better {
                best = Some(i);
            }
        }
    }
    best
}

/// How many rows a column takes when `rows` of them go into `cols` columns.
pub open spec fn column_height(rows: int, cols: int) -> int {
    (rows + cols - 1) / cols
}

/// The column and the place in it of row `i`, when `rows` rows are set in
/// `cols` columns.
pub fn card_cell(i: usize, rows: usize, cols: usize) -> (r: (usize, usize))
    requires
        i < rows,
        0 < cols,
        rows + cols <= usize::MAX,
    ensures
        r.0 == i as int / column_height(rows as int, cols as int),
        r.1 == i as int % column_height(rows as int, cols as int),
        r.0 < cols,
{
    let per_col: usize = (rows + cols - 1) / cols;
    proof {
        let (n, c, p) = (rows as int, cols as int, per_col as int);
        assert(p >= 1 && c * p >= n) by (nonlinear_arith)
            requires
                p == (n + c - 1) / c,
                n >= 1,
                c >= 1,
        ;
        let (k, q) = (i as int, i as int / p);
        assert(q < c) by (nonlinear_arith)
            requires
                q == k / p,
                0 <= k < n,
                c * p >= n,
                p >= 1,
        ;
    }
    (i / per_col, i % per_col)
}

/// The longest description, counted in bytes, and the longest label, counted in
/// characters; 20 and 1 on an empty card.
pub fn card_widths(rows: &Vec<(&'static str, &'static str)>) -> (r: (usize, usize))
    ensures
        rows@.len() == 0 ==> r == (20usize, 1usize),
        rows@.len() > 0 ==> (exists|i: int|
            0 <= i < rows@.len() && r.0 == (#[trigger] rows@[i]).1.len()) && (exists|i: int|
            0 <= i < rows@.len() && r.1 == (#[trigger] rows@[i]).0@.len()),
        forall|i: int|
            0 <= i < rows@.len() ==> r.0 >= (#[trigger] rows@[i]).1.len() && r.1
                >= rows@[i].0@.len(),
{
    if rows.len() == 0 {
        return (20, 1);
    }
    let mut desc: usize = rows[0].1.len();
    let mut label: usize = rows[0].0.unicode_len();
    assert(desc == rows@[0].1.len());
    for i in 1..rows.len()
        invariant
            1 <= rows@.len(),
            exists|j: int| 0 <= j < i && desc == (#[trigger] rows@[j]).1.len(),
            exists|j: int| 0 <= j < i && label == (#[trigger] rows@[j]).0@.len(),
            forall|j: int|
                0 <= j < i ==> desc >= (#[trigger] rows@[j]).1.len() && label
                    >= rows@[j].0@.len(),
    {
        let d: usize = rows[i].1.len();
        let l: usize = rows[i].0.unicode_len();
        if d > desc {
            desc = d;
            assert(desc == rows@[i as int].1.len());
        }
        if l > label {
            label = l;
            assert(label == rows@[i as int].0@.len());
        }
    }
    (desc, label)
}

// ── What holds of the table ────────────────────────────────────────────────
proof fn lemma_places(i: int)
    requires
        0 <= i < 32,
    ensures
        BINDINGS@[i].0.place() == i,
{
    assert(BINDINGS@.len() == 32);
}

/// No key is bound twice.
pub proof fn every_key_is_bound_once(i: int, j: int)
    requires
        0 <= i < 32,
        0 <= j < 32,
        BINDINGS@[i].0 == BINDINGS@[j].0,
    ensures
        i == j,
{
    lemma_places(i);
    lemma_places(j);
}

/// Every key that is bound stands in the table.
pub proof fn every_key_stands_in_the_table(key: Key)
    ensures
        0 <= key.place() < 32,
        BINDINGS@[key.place()].0 == key,
{
}

/// A binding the card does not list is another key for a control that it does
/// list. Only closing the card is never mentioned.
pub proof fn an_unlisted_key_has_a_listed_sibling(i: int)
    requires
        0 <= i < 32,
        !BINDINGS@[i].2,
        BINDINGS@[i].0.bound() != KeyAction::CloseHelp,
    ensures
        exists|j: int|
            0 <= j < 32 && (#[trigger] BINDINGS@[j]).2 && BINDINGS@[j].0.bound().control()
                == BINDINGS@[i].0.bound().control(),
{
    lemma_places(i);
    assert(BINDINGS@[0].2 && BINDINGS@[0].0.bound() == KeyAction::ToggleHelp);
    assert(BINDINGS@[8].2 && BINDINGS@[8].0.bound() == KeyAction::ToggleTheoryElement(1));
    assert(BINDINGS@[24].2 && BINDINGS@[24].0.bound() == KeyAction::ToggleFullscreen);
}

/// With every gate open every binding is live, and what a gate can take away is
/// on the card when it is there.
pub proof fn every_gated_binding_is_listed(i: int, gates: Gates)
    requires
        0 <= i < 32,
    ensures
        gates.recorder_shown && gates.recorder_available && gates.window_sizing ==> live(
            BINDINGS@[i].0.bound(),
            gates,
        ),
        !live(BINDINGS@[i].0.bound(), gates) ==> exists|j: int|
            0 <= j < 32 && (#[trigger] BINDINGS@[j]).2 && BINDINGS@[j].0.bound()
                == BINDINGS@[i].0.bound(),
{
    lemma_places(i);
    assert(BINDINGS@[24].2 && BINDINGS@[24].0.bound() == KeyAction::ToggleFullscreen);
    assert(BINDINGS@[28].2 && BINDINGS@[28].0.bound() == KeyAction::ToggleRecorder);
    assert(BINDINGS@[29].2 && BINDINGS@[29].0.bound() == KeyAction::StartRecording);
    assert(BINDINGS@[30].2 && BINDINGS@[30].0.bound() == KeyAction::StopRecording);
}

proof fn lemma_rows_are_bindings(n: int, gates: Gates, row: (Seq<char>, Seq<char>))
    requires
        0 <= n <= 32,
    ensures
        rows_from(n, gates).contains(row) <==> exists|i: int|
            0 <= i < n && (#[trigger] BINDINGS@[i]).2 && live(BINDINGS@[i].0.bound(), gates)
                && BINDINGS@[i].1@ == row.0 && description(BINDINGS@[i].0.bound()) == row.1,
    decreases n,
{
    if n > 0 {
        lemma_rows_are_bindings(n - 1, gates, row);
        let (key, label, shown) = BINDINGS@[n - 1];
        let above = rows_from(n - 1, gates);
        let rows = rows_from(n, gates);
        if above.contains(row) {
            let k = choose|k: int| 0 <= k < above.len() && above[k] == row;
            assert(rows[k] == row);
        }
        if shown && live(key.bound(), gates) {
            assert(rows[rows.len() - 1] == (label@, description(key.bound())));
        }
        if rows.contains(row) && !above.contains(row) {
            let k = choose|k: int| 0 <= k < rows.len() && rows[k] == row;
            if k < above.len() {
                assert(above[k] == row);
            }
            assert(BINDINGS@[n - 1].2);
        }
    }
}

/// The card lists a row exactly when a binding with that label and description
/// is listed and live: nothing listed is dead.
pub proof fn the_card_lists_exactly_the_live_bindings(gates: Gates, row: (Seq<char>, Seq<char>))
    ensures
        card(gates).contains(row) <==> exists|i: int|
            0 <= i < 32 && (#[trigger] BINDINGS@[i]).2 && live(BINDINGS@[i].0.bound(), gates)
                && BINDINGS@[i].1@ == row.0 && description(BINDINGS@[i].0.bound()) == row.1,
{
    lemma_rows_are_bindings(32, gates, row);
}

proof fn lemma_rows_above_the_transport(n: int, a: Gates, b: Gates)
    requires
        0 <= n <= 29,
        a.recorder_available == b.recorder_available,
        a.window_sizing == b.window_sizing,
    ensures
        rows_from(n, a) == rows_from(n, b),
    decreases n,
{
    if n > 0 {
        lemma_rows_above_the_transport(n - 1, a, b);
        lemma_places(n - 1);
    }
}

/// Opening the recorder's band adds Enter and Space at the end of the card and
/// moves nothing above them.
pub proof fn opening_the_band_adds_enter_and_space(hidden: Gates)
    requires
        !hidden.recorder_shown,
    ensures
        card((Gates { recorder_shown: true, ..hidden })) == card(hidden) + seq![
            ("Enter"@, description(KeyAction::StartRecording)),
            ("Space"@, description(KeyAction::StopRecording)),
        ],
{
    let shown = Gates { recorder_shown: true, ..hidden };
    lemma_rows_above_the_transport(29, hidden, shown);
    assert(BINDINGS@[29] == (Key::Enter, "Enter", true));
    assert(BINDINGS@[30] == (Key::Space, "Space", true));
    assert(BINDINGS@[31] == (Key::Escape, "Esc", false));
    assert(rows_from(32, hidden) == rows_from(31, hidden));
    assert(rows_from(31, hidden) == rows_from(30, hidden));
    assert(rows_from(30, hidden) == rows_from(29, hidden));
    assert(rows_from(32, shown) == rows_from(31, shown));
    assert(rows_from(31, shown) == rows_from(30, shown).push(
        ("Space"@, description(KeyAction::StopRecording)),
    ));
    assert(rows_from(30, shown) == rows_from(29, shown).push(
        ("Enter"@, description(KeyAction::StartRecording)),
    ));
}

} // verus!
