//! The plugin picker: a directory listing, a filter, and a choice.
//!
//! Nothing here opens a plugin. The rows come from file names, and what travels
//! is a path.

use super::export::Platform;
use super::DialogAction;
use crate::text;
use vstd::prelude::*;

verus! {

/// What the row that unloads says: what choosing it does is worth spelling out.
pub const PLUGIN_NONE_ROW: &'static str = "None  —  no instrument; unloads the one that is loaded";

/// One installed plugin, as a directory listing knows it.
#[derive(Clone, Debug, PartialEq, Eq)]
pub struct PluginEntry {
    /// Path to the bundle: the identity and the settings key.
    pub path: String,
    /// What to show.
    pub name: String,
    /// Vendor, when known. Usually empty: knowing it takes opening the module.
    pub vendor: String,
}

// ── File names ─────────────────────────────────────────────────────────────
/// What is written behind the last `c` of `s`; all of it when there is none.
pub open spec fn behind_last(s: Seq<char>, c: char) -> Seq<char>
    decreases s.len(),
{
    if s.len() == 0 || s.last() == c {
        seq![]
    } else {
        behind_last(s.drop_last(), c).push(s.last())
    }
}

/// A file name without what stands behind its last dot. A name that starts with
/// its only dot, or has none, is all stem.
pub open spec fn stem_of(name: Seq<char>) -> Seq<char> {
    let ending = behind_last(name, '.');
    if ending.len() + 1 >= name.len() {
        name
    } else {
        name.take(name.len() - ending.len() - 1)
    }
}

/// A path that every system takes apart in the same way: slashes between its
/// parts, and neither a drive nor a share in front of them.
pub open spec fn is_common_path(path: Seq<char>) -> bool {
    &&& !path.contains('\\')
    &&& !path.contains(':')
    &&& !(path.len() >= 2 && path[0] == '/' && path[1] == '/')
}

/// The last part of a path. Slashes behind it do not count, and neither do dots
/// that stand for the directory in front of them.
pub open spec fn last_part(path: Seq<char>) -> Seq<char>
    decreases path.len(),
{
    let name = behind_last(path, '/');
    if name.len() >= path.len() {
        name
    } else if name.len() == 0 || name == "."@ {
        last_part(path.take(path.len() - name.len() - 1))
    } else {
        name
    }
}

/// The stem of the file that a path names, if it names one: a path that is
/// empty, is a root, or ends in `.` or `..` names none.
pub open spec fn common_stem(path: Seq<char>) -> Option<Seq<char>> {
    let name = last_part(path);
    if name.len() == 0 || name == "."@ || name == ".."@ {
        None
    } else {
        Some(stem_of(name))
    }
}

/// `stem` can be what a system finds to be the stem of `path`: a piece of it, and
/// the one that is plain to see where every system takes it apart alike.
pub open spec fn is_stem_for(path: Seq<char>, stem: Option<Seq<char>>) -> bool {
    &&& is_common_path(path) ==> stem == common_stem(path)
    &&& stem matches Some(s) ==> crate::text::holds(path, s)
}

/// The characters of an owned text that may not be there.
pub open spec fn maybe_owned(s: Option<String>) -> Option<Seq<char>> {
    match s {
        Some(s) => Some(s@),
        None => None,
    }
}

/// `std::path::Path::file_stem`: the last component without its extension, if
/// the path ends in a component that is a name. How a path with a drive, a share
/// or a backslash comes apart is the system's business; of that it is only said
/// that the stem is a piece of the path.
#[verifier::external_body]
fn file_stem(path: &str) -> (r: Option<String>)
    ensures
        is_stem_for(path@, maybe_owned(r)),
{
    std::path::Path::new(path).file_stem().map(|s| s.to_string_lossy().into_owned())
}

/// What a bundle is called: its stem without the space around it, or its whole
/// path when that leaves nothing.
pub open spec fn shown_name(path: Seq<char>, stem: Option<Seq<char>>) -> Seq<char> {
    match stem {
        Some(s) => if crate::text::trimmed(s).len() > 0 {
            crate::text::trimmed(s)
        } else {
            path
        },
        None => path,
    }
}

impl PluginEntry {
    /// A row for `path`, under the name that `stem` gives it.
    pub fn from_stem(path: &str, stem: Option<String>) -> (r: PluginEntry)
        ensures
            r.path@ == path@,
            r.name@ == shown_name(path@, maybe_owned(stem)),
            r.vendor@.len() == 0,
    {
        let name = match stem {
            Some(s) => {
                let t = text::trim(s.as_str());
                if t.as_str().is_empty() {
                    path.to_owned()
                } else {
                    t
                }
            },
            None => path.to_owned(),
        };
        PluginEntry { path: path.to_owned(), name, vendor: String::new() }
    }

    /// Read a row off a bundle path, opening nothing. One that names no file is
    /// shown whole.
    pub fn from_bundle(path: &str) -> (r: PluginEntry)
        ensures
            r.path@ == path@,
            r.vendor@.len() == 0,
            exists|stem: Option<Seq<char>>| #[trigger]
                is_stem_for(path@, stem) && r.name@ == shown_name(path@, stem),
            is_common_path(path@) ==> r.name@ == shown_name(path@, common_stem(path@)),
            is_common_path(path@) && common_stem(path@) is None ==> r.name@ == path@,
    {
        let stem = file_stem(path);
        assert(is_stem_for(path@, maybe_owned(stem)));
        PluginEntry::from_stem(path, stem)
    }
}

// ── Filtering ──────────────────────────────────────────────────────────────
/// What the filter looks for.
pub open spec fn needle(filter: Seq<char>) -> Seq<char> {
    crate::text::lowercase(crate::text::trimmed(filter))
}

/// A row survives the filter: it has the needle in its name or its vendor, in
/// any case. A filter that looks for nothing keeps everything.
pub open spec fn survives(entry: PluginEntry, filter: Seq<char>) -> bool {
    ||| needle(filter).len() == 0
    ||| crate::text::holds(crate::text::lowercase(entry.name@), needle(filter))
    ||| crate::text::holds(crate::text::lowercase(entry.vendor@), needle(filter))
}

/// Whether a row is found, given what the filter looks for and the row's name
/// and vendor, all three in lower case.
pub fn matches_lowered(needle: &str, name: &str, vendor: &str) -> (r: bool)
    ensures
        r == (needle@.len() == 0 || crate::text::holds(name@, needle@) || crate::text::holds(
            vendor@,
            needle@,
        )),
{
    needle.is_empty() || text::contains(name, needle) || text::contains(vendor, needle)
}

/// Whether a row survives the filter box. With nothing in the box it does.
pub fn plugin_matches(entry: &PluginEntry, filter: &str) -> (r: bool)
    ensures
        r == survives(*entry, filter@),
        crate::text::trimmed(filter@).len() == 0 ==> r,
{
    matches_lowered(
        text::to_lowercase(text::trim(filter).as_str()).as_str(),
        text::to_lowercase(entry.name.as_str()).as_str(),
        text::to_lowercase(entry.vendor.as_str()).as_str(),
    )
}

/// Row `i` is on screen.
pub open spec fn on_screen(plugins: Seq<PluginEntry>, filter: Seq<char>, i: int) -> bool {
    0 <= i < plugins.len() && survives(plugins[i], filter)
}

/// `rows` are the places of all the rows on screen, and of no others.
pub open spec fn are_on_screen(
    rows: Seq<usize>,
    plugins: Seq<PluginEntry>,
    filter: Seq<char>,
) -> bool {
    forall|i: usize| #[trigger] rows.contains(i) <==> on_screen(plugins, filter, i as int)
}

/// Rows in the order they stand, each once.
pub open spec fn in_order(rows: Seq<usize>) -> bool {
    forall|a: int, b: int| 0 <= a < b < rows.len() ==> #[trigger] rows[a] < #[trigger] rows[b]
}

/// The rows the filter leaves on screen, in order, by their place in `plugins`.
/// An empty filter shows everything.
pub fn visible_plugins(plugins: &Vec<PluginEntry>, filter: &str) -> (r: Vec<usize>)
    ensures
        in_order(r@),
        are_on_screen(r@, plugins@, filter@),
        crate::text::trimmed(filter@).len() == 0 ==> r@ == Seq::new(
            plugins@.len(),
            |i: int| i as usize,
        ),
{
    let mut rows: Vec<usize> = Vec::new();
    for i in 0..plugins.len()
        invariant
            in_order(rows@),
            forall|k: int| 0 <= k < rows@.len() ==> #[trigger] rows@[k] < i,
            forall|j: usize| #[trigger]
                rows@.contains(j) <==> j < i && on_screen(plugins@, filter@, j as int),
            crate::text::trimmed(filter@).len() == 0 ==> rows@ == Seq::new(
                i as nat,
                |k: int| k as usize,
            ),
    {
        let ghost before = rows@;
        if plugin_matches(&plugins[i], filter) {
            rows.push(i);
            assert forall|j: usize| #[trigger]
                rows@.contains(j) <==> j < i + 1 && on_screen(plugins@, filter@, j as int) by {
                if before.contains(j) {
                    let k = choose|k: int| 0 <= k < before.len() && before[k] == j;
                    assert(rows@[k] == j);
                }
                if j == i {
                    assert(rows@[before.len() as int] == j);
                }
                if rows@.contains(j) && j != i {
                    let k = choose|k: int| 0 <= k < rows@.len() && rows@[k] == j;
                    assert(before[k] == j);
                }
            }
            assert(crate::text::trimmed(filter@).len() == 0 ==> rows@ =~= Seq::new(
                (i + 1) as nat,
                |k: int| k as usize,
            ));
        }
    }
    rows
}

// ── Choosing ───────────────────────────────────────────────────────────────
/// What Load would do, when it would do anything.
#[derive(Debug, PartialEq, Eq)]
pub enum PluginChoice<'a> {
    Load(&'a PluginEntry),
    /// Unload whatever is loaded and play nothing.
    Unload,
}

impl<'a> PluginChoice<'a> {
    /// The action, built from the entry, so that the path travels and the name
    /// stays on screen.
    pub fn action(&self) -> (r: DialogAction)
        ensures
            *self is Unload ==> r == (DialogAction::LoadPlugin { path: None }),
            *self matches PluginChoice::Load(e) ==> (r matches DialogAction::LoadPlugin {
                path: Some(p),
            } && p@ == e.path@),
    {
        DialogAction::LoadPlugin {
            path: match self {
                PluginChoice::Load(e) => Some(e.path.clone()),
                PluginChoice::Unload => None,
            },
        }
    }
}

/// Row `i` is the only one on screen.
pub open spec fn is_only_row(plugins: Seq<PluginEntry>, filter: Seq<char>, i: int) -> bool {
    on_screen(plugins, filter, i) && forall|j: int| #[trigger]
        on_screen(plugins, filter, j) ==> j == i
}

/// Row `i` would be loaded: it is highlighted and on screen, or else the one
/// row that a typed filter has left.
pub open spec fn would_load(
    plugins: Seq<PluginEntry>,
    selected: Option<usize>,
    filter: Seq<char>,
    i: int,
) -> bool {
    if selected is Some && on_screen(plugins, filter, selected->0 as int) {
        i == selected->0
    } else {
        crate::text::trimmed(filter).len() > 0 && is_only_row(plugins, filter, i)
    }
}

/// No row would be loaded.
pub open spec fn nothing_to_load(
    plugins: Seq<PluginEntry>,
    selected: Option<usize>,
    filter: Seq<char>,
) -> bool {
    forall|i: int| !#[trigger] would_load(plugins, selected, filter, i)
}

/// The loaded plugin would be unloaded: no row is highlighted, none would be
/// loaded, and there is something to unload.
pub open spec fn would_unload(
    plugins: Seq<PluginEntry>,
    selected: Option<usize>,
    loaded: bool,
    filter: Seq<char>,
) -> bool {
    selected is None && loaded && nothing_to_load(plugins, selected, filter)
}

/// What the picker is currently offering to do, or nothing. The Load button and
/// the action both come through here.
pub fn plugin_choice<'a>(
    plugins: &'a Vec<PluginEntry>,
    selected: Option<usize>,
    current: Option<&str>,
    filter: &str,
) -> (r: Option<PluginChoice<'a>>)
    ensures
        match r {
            Some(PluginChoice::Load(e)) => exists|i: int|
                #[trigger] would_load(plugins@, selected, filter@, i) && *e == plugins@[i],
            Some(PluginChoice::Unload) => would_unload(
                plugins@,
                selected,
                current is Some,
                filter@,
            ),
            None => !would_unload(plugins@, selected, current is Some, filter@)
                && nothing_to_load(plugins@, selected, filter@),
        },
{
    let visible = visible_plugins(plugins, filter);
    let count: usize = plugins.len();
    if let Some(i) = selected {
        if i < count && plugin_matches(&plugins[i], filter) {
            assert(would_load(plugins@, selected, filter@, i as int));
            return Some(PluginChoice::Load(&plugins[i]));
        }
    }
    assert forall|i: int, j: int| #[trigger]
        on_screen(plugins@, filter@, i) && #[trigger] on_screen(plugins@, filter@, j) && i
            != j implies visible@.len() >= 2 by {
        assert(visible@.contains(i as usize));
        assert(visible@.contains(j as usize));
        let a = choose|a: int| 0 <= a < visible@.len() && visible@[a] == i as usize;
        let b = choose|b: int| 0 <= b < visible@.len() && visible@[b] == j as usize;
        assert(a != b);
    }
    if !text::trim(filter).as_str().is_empty() {
        if visible.len() == 1 {
            let only: usize = visible[0];
            proof {
                assert(visible@.contains(only));
                assert(is_only_row(plugins@, filter@, only as int));
                assert(would_load(plugins@, selected, filter@, only as int));
            }
            return Some(PluginChoice::Load(&plugins[only]));
        }
        assert forall|i: int| !#[trigger] would_load(plugins@, selected, filter@, i) by {
            if is_only_row(plugins@, filter@, i) {
                assert(visible@.contains(i as usize));
                if visible@.len() >= 2 {
                    assert(visible@.contains(visible@[0]) && visible@.contains(visible@[1]));
                    assert(on_screen(plugins@, filter@, visible@[0] as int));
                    assert(on_screen(plugins@, filter@, visible@[1] as int));
                }
            }
        }
    }
    if selected.is_none() && current.is_some() {
        return Some(PluginChoice::Unload);
    }
    None
}

/// Whatever would be loaded is on screen, and no two rows would be: filtering
/// never commits a row the user can no longer see.
pub proof fn only_a_row_on_screen_is_loaded(
    plugins: Seq<PluginEntry>,
    selected: Option<usize>,
    filter: Seq<char>,
    i: int,
    j: int,
)
    requires
        would_load(plugins, selected, filter, i),
    ensures
        on_screen(plugins, filter, i),
        would_load(plugins, selected, filter, j) ==> i == j,
{
}

// ── The list ───────────────────────────────────────────────────────────────
/// A row's text: a mark for the plugin that is loaded, the name, and the vendor
/// when there is one. The mark leads, so the rows line up.
pub open spec fn row_text(entry: PluginEntry, current: Option<Seq<char>>) -> Seq<char> {
    let mark = if current == Some(entry.path@) {
        "\u{2022} "@
    } else {
        "  "@
    };
    if crate::text::trimmed(entry.vendor@).len() == 0 {
        mark + entry.name@
    } else {
        mark + entry.name@ + "   ("@ + entry.vendor@ + ")"@
    }
}

/// The characters of a text that may not be there.
pub open spec fn maybe(s: Option<&str>) -> Option<Seq<char>> {
    match s {
        Some(s) => Some(s@),
        None => None,
    }
}

/// One row's text.
pub fn plugin_row(entry: &PluginEntry, current: Option<&str>) -> (r: String)
    ensures
        r@ == row_text(*entry, maybe(current)),
{
    let loaded = match current {
        Some(c) => text::same(c, entry.path.as_str()),
        None => false,
    };
    let mark = if loaded {
        "\u{2022} "
    } else {
        "  "
    };
    let mut row = text::join(mark, entry.name.as_str());
    if !text::trim(entry.vendor.as_str()).as_str().is_empty() {
        row.append("   (");
        row.append(entry.vendor.as_str());
        row.append(")");
    }
    row
}

/// How many rows there are, and how many of them are on screen once something
/// is typed.
pub fn count_line(shown: usize, installed: usize, filter: &str) -> (r: String)
    ensures
        r@ == (if crate::text::trimmed(filter@).len() == 0 {
            crate::text::decimal(installed as nat) + " installed"@
        } else {
            crate::text::decimal(shown as nat) + " of "@ + crate::text::decimal(installed as nat)
        }),
{
    if text::trim(filter).as_str().is_empty() {
        text::join(text::number(installed as u64).as_str(), " installed")
    } else {
        let mut m = text::join(text::number(shown as u64).as_str(), " of ");
        m.append(text::number(installed as u64).as_str());
        m
    }
}

/// A row called `x` at `p` is read before one called `y` at `q`: by name, and
/// then by path, since two bundles can share a name.
pub open spec fn ordered(x: Seq<char>, p: Seq<char>, y: Seq<char>, q: Seq<char>) -> bool {
    crate::text::before(x, y) || (x == y && crate::text::before(p, q))
}

/// Whether one row is read before another, given their names in lower case and
/// their paths.
pub fn before_lowered(name: &str, path: &str, other: &str, other_path: &str) -> (r: bool)
    ensures
        r == ordered(name@, path@, other@, other_path@),
{
    text::comes_before(name, other) || (text::same(name, other) && text::comes_before(
        path,
        other_path,
    ))
}

/// `a` is read before `b`: by name without regard to case, and then by path.
pub open spec fn reads_before(a: PluginEntry, b: PluginEntry) -> bool {
    ordered(crate::text::lowercase(a.name@), a.path@, crate::text::lowercase(b.name@), b.path@)
}

fn comes_first(a: &PluginEntry, b: &PluginEntry) -> (r: bool)
    ensures
        r == reads_before(*a, *b),
{
    before_lowered(
        text::to_lowercase(a.name.as_str()).as_str(),
        a.path.as_str(),
        text::to_lowercase(b.name.as_str()).as_str(),
        b.path.as_str(),
    )
}

/// No row is read before one above it.
pub open spec fn sorted(rows: Seq<PluginEntry>) -> bool {
    forall|i: int, j: int|
        0 <= i < j < rows.len() ==> !reads_before(#[trigger] rows[j], #[trigger] rows[i])
}

/// The order is one-way, and being no earlier carries on.
proof fn lemma_reading_order(a: PluginEntry, b: PluginEntry, c: PluginEntry)
    ensures
        reads_before(a, b) ==> !reads_before(b, a),
        !reads_before(b, a) && !reads_before(c, b) ==> !reads_before(c, a),
{
    let (x, y, z) = (
        crate::text::lowercase(a.name@),
        crate::text::lowercase(b.name@),
        crate::text::lowercase(c.name@),
    );
    lemma_before_order(x, y, z);
    lemma_before_order(a.path@, b.path@, c.path@);
    lemma_before_order(y, x, z);
    lemma_before_order(z, y, x);
}

proof fn lemma_before_order(a: Seq<char>, b: Seq<char>, c: Seq<char>)
    ensures
        crate::text::before(a, b) ==> !crate::text::before(b, a),
        !crate::text::before(a, b) && !crate::text::before(b, a) ==> a == b,
        !crate::text::before(b, a) && !crate::text::before(c, b) ==> !crate::text::before(c, a),
{
    if crate::text::before(a, b) {
        crate::text::before_is_one_way(a, b);
    }
    if !crate::text::before(a, b) && !crate::text::before(b, a) {
        crate::text::before_tells_texts_apart(a, b);
    }
    if !crate::text::before(b, a) && !crate::text::before(c, b) && crate::text::before(c, a) {
        if crate::text::before(a, b) {
            crate::text::before_carries_on(c, a, b);
        } else {
            crate::text::before_tells_texts_apart(a, b);
        }
    }
}

/// Put a row where it is read, behind those that are not read after it.
fn insert_row(rows: &mut Vec<PluginEntry>, row: PluginEntry)
    requires
        sorted(old(rows)@),
    ensures
        sorted(final(rows)@),
        final(rows)@.to_multiset() == old(rows)@.to_multiset().insert(row),
        final(rows)@.len() == old(rows)@.len() + 1,
{
    let mut at: usize = rows.len();
    while at > 0 && comes_first(&row, &rows[at - 1])
        invariant
            at <= rows@.len(),
            rows@ == old(rows)@,
            forall|k: int| at <= k < rows@.len() ==> reads_before(row, #[trigger] rows@[k]),
        decreases at,
    {
        at = at - 1;
    }
    let ghost before = rows@;
    rows.insert(at, row);
    proof {
        let after = rows@;
        assert(after =~= before.insert(at as int, row));
        assert forall|i: int, j: int| 0 <= i < j < after.len() implies !reads_before(
            #[trigger] after[j],
            #[trigger] after[i],
        ) by {
            if i == at {
                assert(after[j] == before[j - 1]);
                lemma_reading_order(row, before[j - 1], row);
            } else if j == at {
                assert(after[i] == before[i]);
                if i < at - 1 {
                    lemma_reading_order(before[i], before[at - 1], row);
                }
            } else if j < at {
                assert(after[i] == before[i] && after[j] == before[j]);
            } else if i < at {
                assert(after[i] == before[i] && after[j] == before[j - 1]);
            } else {
                assert(after[i] == before[i - 1] && after[j] == before[j - 1]);
            }
        }
        broadcast use vstd::seq_lib::group_to_multiset_ensures;

        assert(after.remove(at as int) =~= before);
        assert(after[at as int] == row);
        assert(after.contains(row));
        assert(after.to_multiset() =~= before.to_multiset().insert(row));
    }
}

/// The picker as it stands open.
#[derive(Clone, Debug, PartialEq, Eq)]
pub struct PluginPicker {
    /// One row per installed bundle, sorted for humans.
    pub plugins: Vec<PluginEntry>,
    /// A place in `plugins`, never in the filtered list.
    pub selected: Option<usize>,
    /// The bundle path currently loaded, if any.
    pub current: Option<String>,
    pub filter: String,
    /// Take keyboard focus on the first frame.
    pub focus: bool,
}

/// `at` is the first row at `path`.
pub open spec fn is_first_at(rows: Seq<PluginEntry>, path: Seq<char>, at: int) -> bool {
    &&& 0 <= at < rows.len()
    &&& rows[at].path@ == path
    &&& forall|k: int| 0 <= k < at ==> (#[trigger] rows[k]).path@ != path
}

fn find_path(rows: &Vec<PluginEntry>, path: &str) -> (r: Option<usize>)
    ensures
        r matches Some(at) ==> is_first_at(rows@, path@, at as int),
        r is None ==> forall|k: int| 0 <= k < rows@.len() ==> (#[trigger] rows@[k]).path@ != path@,
{
    for i in 0..rows.len()
        invariant
            forall|k: int| 0 <= k < i ==> (#[trigger] rows@[k]).path@ != path@,
    {
        if text::same(rows[i].path.as_str(), path) {
            return Some(i);
        }
    }
    None
}

impl PluginPicker {
    /// The picker opens on `current`: highlighted when it is among the rows, and
    /// nothing else is.
    pub open spec fn opens_on(self, current: Option<String>) -> bool {
        &&& self.current == current
        &&& self.selected matches Some(at) ==> current is Some && is_first_at(
            self.plugins@,
            current->0@,
            at as int,
        )
        &&& self.selected is None && current is Some ==> forall|k: int|
            0 <= k < self.plugins@.len() ==> (#[trigger] self.plugins@[k]).path@ != current->0@
        &&& self.filter@.len() == 0
        &&& self.focus
    }

    /// Open on rows that were read already: sorted, none lost and none added.
    pub fn over(entries: Vec<PluginEntry>, current: Option<String>) -> (r: PluginPicker)
        ensures
            sorted(r.plugins@),
            r.plugins@.to_multiset() == entries@.to_multiset(),
            r.opens_on(current),
    {
        let ghost all = entries@;
        let mut plugins: Vec<PluginEntry> = Vec::new();
        proof {
            broadcast use vstd::seq_lib::group_to_multiset_ensures;

            assert(all.take(0) =~= plugins@);
        }
        for e in it: entries
            invariant
                it.seq() == all,
                sorted(plugins@),
                plugins@.to_multiset() == all.take(it.index() as int).to_multiset(),
        {
            let ghost k = it.index() as int;
            proof {
                broadcast use vstd::seq_lib::group_to_multiset_ensures;

                assert(all.take(k + 1) =~= all.take(k).push(all[k]));
            }
            insert_row(&mut plugins, e);
        }
        assert(all.take(all.len() as int) =~= all);
        let selected = match &current {
            Some(c) => find_path(&plugins, c.as_str()),
            None => None,
        };
        PluginPicker { plugins, selected, current, filter: String::new(), focus: true }
    }
}

/// `row` is what is shown for the bundle at `path`.
pub open spec fn is_row_for(row: PluginEntry, path: Seq<char>) -> bool {
    &&& row.path@ == path
    &&& row.vendor@.len() == 0
    &&& exists|stem: Option<Seq<char>>| #[trigger]
        is_stem_for(path, stem) && row.name@ == shown_name(path, stem)
    &&& is_common_path(path) ==> row.name@ == shown_name(path, common_stem(path))
}

/// `plugins` are the rows for `bundles`, one each, in some order.
pub open spec fn lists(plugins: Seq<PluginEntry>, bundles: Seq<String>) -> bool {
    exists|rows: Seq<PluginEntry>|
        {
            &&& #[trigger] rows.to_multiset() == plugins.to_multiset()
            &&& rows.len() == bundles.len()
            &&& forall|i: int| 0 <= i < rows.len() ==> is_row_for(#[trigger] rows[i], bundles[i]@)
        }
}

/// Open the picker on the bundles that were found, in whatever order.
pub fn plugin_picker(bundles: &Vec<String>, current: Option<String>) -> (r: PluginPicker)
    ensures
        sorted(r.plugins@),
        r.opens_on(current),
        lists(r.plugins@, bundles@),
{
    let mut entries: Vec<PluginEntry> = Vec::new();
    for i in 0..bundles.len()
        invariant
            entries@.len() == i,
            forall|k: int| 0 <= k < i ==> is_row_for(#[trigger] entries@[k], bundles@[k]@),
    {
        entries.push(PluginEntry::from_bundle(bundles[i].as_str()));
    }
    PluginPicker::over(entries, current)
}

/// Where plugins live on a system, said out loud when none were found.
pub fn vst3_locations(platform: Platform) -> (r: &'static str)
    ensures
        r@ == (match platform {
            Platform::MacOs => "No VST3 instruments found. macOS keeps them in ~/Library/Audio/Plug-Ins/VST3 for one user and /Library/Audio/Plug-Ins/VST3 for everybody. An installer that offered you AU or VST2 and took the default put nothing in either."@,
            Platform::Windows => "No VST3 instruments found. Windows keeps them in %COMMONPROGRAMFILES%\\VST3 — usually C:\\Program Files\\Common Files\\VST3. An installer that offered you VST2 and took the default put nothing there."@,
            Platform::Other => "No VST3 instruments found. Linux keeps them in ~/.vst3 for one user and /usr/lib/vst3 for everybody."@,
        }),
{
    match platform {
        Platform::MacOs => "No VST3 instruments found. macOS keeps them in ~/Library/Audio/Plug-Ins/VST3 for one user and /Library/Audio/Plug-Ins/VST3 for everybody. An installer that offered you AU or VST2 and took the default put nothing in either.",
        Platform::Windows => "No VST3 instruments found. Windows keeps them in %COMMONPROGRAMFILES%\\VST3 — usually C:\\Program Files\\Common Files\\VST3. An installer that offered you VST2 and took the default put nothing there.",
        Platform::Other => "No VST3 instruments found. Linux keeps them in ~/.vst3 for one user and /usr/lib/vst3 for everybody.",
    }
}

} // verus!
