//! The plugin picker: what a bundle is called, what a filter leaves, and what
//! Load would do.

use crate::dialogs::{
    before_lowered, count_line, matches_lowered, plugin_choice, plugin_matches, plugin_row,
    visible_plugins, vst3_locations, Dialog, DialogAction, Platform, PluginChoice, PluginEntry,
};
use vstd::prelude::*;

verus! {

// ── What a bundle is called ────────────────────────────────────────────────
/// No `c` in `s`.
pub open spec fn lacks(s: Seq<char>, c: char) -> bool {
    forall|i: int| 0 <= i < s.len() ==> #[trigger] s[i] != c
}

proof fn lemma_behind(front: Seq<char>, c: char, name: Seq<char>)
    requires
        lacks(name, c),
    ensures
        crate::dialogs::plugins::behind_last(front.push(c) + name, c) == name,
    decreases name.len(),
{
    let s = front.push(c) + name;
    if name.len() == 0 {
        assert(s =~= front.push(c));
        assert(s.last() == c);
        assert(crate::dialogs::plugins::behind_last(s, c) =~= name);
    } else {
        assert(s.drop_last() =~= front.push(c) + name.drop_last());
        assert(s.last() == name[name.len() - 1]);
        assert forall|i: int| 0 <= i < name.drop_last().len() implies #[trigger] name.drop_last()[i]
            != c by {
            assert(name.drop_last()[i] == name[i]);
        }
        lemma_behind(front, c, name.drop_last());
        assert(name.drop_last().push(name.last()) =~= name);
    }
}

/// A bundle is called after its file, without the ending behind the last dot and
/// the space around what is left. Slashes behind it make no difference, nothing
/// is known of its vendor, and its path is kept as it was found.
pub proof fn a_bundle_is_called_after_its_file(
    dir: Seq<char>,
    stem: Seq<char>,
    ending: Seq<char>,
    path: &str,
    r: PluginEntry,
    slashed: &str,
    q: PluginEntry,
)
    requires
        path@ == dir.push('/') + stem.push('.') + ending,
        slashed@ == path@.push('/'),
        lacks(path@, '\\'),
        lacks(path@, ':'),
        !(dir.len() == 0 && stem.len() > 0 && stem[0] == '/') && !(dir.len() > 0 && dir[0] == '/'
            && (dir.len() == 1 || dir[1] == '/')),
        lacks(stem, '/'),
        lacks(ending, '/'),
        lacks(ending, '.'),
        !crate::text::all_white(stem),
        stem != seq!['.'] || ending.len() > 0,
        call_ensures(PluginEntry::from_bundle, (path,), r),
        call_ensures(PluginEntry::from_bundle, (slashed,), q),
    ensures
        r.path@ == path@ && q.path@ == slashed@,
        r.vendor@.len() == 0 && q.vendor@.len() == 0,
        r.name@ == crate::text::trimmed(stem),
        q.name@ == crate::text::trimmed(stem),
{
    let name = stem.push('.') + ending;
    let s = path@;
    assert(s =~= dir.push('/') + name);
    assert forall|i: int| 0 <= i < name.len() implies #[trigger] name[i] != '/' by {
        if i < stem.len() {
            assert(name[i] == stem[i]);
        } else if i > stem.len() {
            assert(name[i] == ending[i - stem.len() - 1]);
        }
    }
    lemma_behind(dir, '/', name);
    lemma_behind(stem, '.', ending);
    crate::laws::text::only_blank_text_is_trimmed_away(stem);
    if stem.len() == 0 {
        assert(crate::text::all_white(stem));
    }
    reveal_strlit(".");
    reveal_strlit("..");
    assert(name.len() >= 2);
    if name == ".."@ {
        assert(name[0] == '.');
        assert(stem.len() == 1 || ending.len() == 1);
        if stem.len() == 1 {
            assert(stem =~= seq!['.']);
        }
    }
    assert(crate::dialogs::plugins::last_part(s) == name);
    assert(crate::dialogs::plugins::stem_of(name) =~= stem);
    assert(crate::dialogs::plugins::is_common_path(s)) by {
        if s.contains('\\') {
            let i = choose|i: int| 0 <= i < s.len() && s[i] == '\\';
            assert(s[i] != '\\');
        }
        if s.contains(':') {
            let i = choose|i: int| 0 <= i < s.len() && s[i] == ':';
            assert(s[i] != ':');
        }
        if s[0] == '/' && s[1] == '/' {
            if dir.len() == 0 {
                assert(s[1] == name[0]);
            } else {
                assert(s[0] == dir[0]);
            }
        }
    }
    let t = slashed@;
    assert(crate::dialogs::plugins::is_common_path(t)) by {
        assert(t[0] == s[0] && t[1] == s[1]);
        if t.contains('\\') {
            let i = choose|i: int| 0 <= i < t.len() && t[i] == '\\';
            assert(s[i] == t[i]);
            assert(s.contains('\\'));
        }
        if t.contains(':') {
            let i = choose|i: int| 0 <= i < t.len() && t[i] == ':';
            assert(s[i] == t[i]);
            assert(s.contains(':'));
        }
    }
    assert(t =~= s.push('/') + Seq::<char>::empty());
    lemma_behind(s, '/', Seq::empty());
    assert(t.take(t.len() - 1) =~= s);
    assert(crate::dialogs::plugins::last_part(t) == name);
}

/// A path that ends in `..` names no file and is shown whole.
pub proof fn a_path_that_names_no_file_is_shown_whole(dir: Seq<char>, path: &str, r: PluginEntry)
    requires
        path@ == dir.push('/') + ".."@,
        lacks(dir, '\\'),
        lacks(dir, ':'),
        !(dir.len() > 0 && dir[0] == '/' && (dir.len() == 1 || dir[1] == '/')),
        call_ensures(PluginEntry::from_bundle, (path,), r),
    ensures
        r.name@ == path@,
        r.path@ == path@,
{
    reveal_strlit("..");
    reveal_strlit(".");
    let s = path@;
    assert(lacks(".."@, '/'));
    lemma_behind(dir, '/', ".."@);
    assert(crate::dialogs::plugins::last_part(s) == ".."@);
    assert(crate::dialogs::plugins::is_common_path(s)) by {
        if s.contains('\\') {
            let i = choose|i: int| 0 <= i < s.len() && s[i] == '\\';
            if i < dir.len() {
                assert(dir[i] == s[i]);
            }
        }
        if s.contains(':') {
            let i = choose|i: int| 0 <= i < s.len() && s[i] == ':';
            if i < dir.len() {
                assert(dir[i] == s[i]);
            }
        }
        if s[0] == '/' && s[1] == '/' {
            if dir.len() == 0 {
                assert(s[1] == '.');
            } else {
                assert(s[0] == dir[0]);
            }
        }
    }
}

// ── What a filter leaves ───────────────────────────────────────────────────
/// A row is found by a piece of its name or of its vendor, in any case and with
/// space around it or without; a blank filter finds everything; and nothing else
/// is found.
pub proof fn a_row_is_found_by_name_or_vendor(
    e: PluginEntry,
    filter: &str,
    r: bool,
    front: Seq<char>,
    back: Seq<char>,
)
    requires
        call_ensures(plugin_matches, (&e, filter), r),
    ensures
        ({
            let sought = crate::text::lowercase(crate::text::trimmed(filter@));
            &&& crate::text::all_white(filter@) ==> r
            &&& crate::text::lowercase(e.name@) == front + sought + back ==> r
            &&& crate::text::lowercase(e.vendor@) == front + sought + back ==> r
            &&& r ==> sought.len() == 0 || (exists|f: Seq<char>, b: Seq<char>|
                #![trigger f + sought + b]
                crate::text::lowercase(e.name@) == f + sought + b || crate::text::lowercase(
                    e.vendor@,
                ) == f + sought + b)
        }),
{
    crate::laws::text::only_blank_text_is_trimmed_away(filter@);
    let sought = crate::text::lowercase(crate::text::trimmed(filter@));
    lemma_holds(crate::text::lowercase(e.name@), sought, front, back);
    lemma_holds(crate::text::lowercase(e.vendor@), sought, front, back);
    if r && sought.len() > 0 {
        let hay = if crate::text::holds(crate::text::lowercase(e.name@), sought) {
            crate::text::lowercase(e.name@)
        } else {
            crate::text::lowercase(e.vendor@)
        };
        let i = choose|i: int|
            0 <= i <= hay.len() - sought.len() && #[trigger] hay.subrange(i, i + sought.len())
                == sought;
        lemma_around(hay, sought, i);
        assert(hay == hay.take(i) + sought + hay.skip(i + sought.len()));
    }
}

proof fn lemma_around(hay: Seq<char>, sought: Seq<char>, i: int)
    requires
        0 <= i <= hay.len() - sought.len(),
        hay.subrange(i, i + sought.len()) == sought,
    ensures
        hay == hay.take(i) + sought + hay.skip(i + sought.len()),
{
    let whole = hay.take(i) + sought + hay.skip(i + sought.len());
    assert forall|k: int| 0 <= k < hay.len() implies hay[k] == whole[k] by {
        if i <= k < i + sought.len() {
            assert(hay.subrange(i, i + sought.len())[k - i] == hay[k]);
        }
    }
    assert(hay =~= whole);
}

proof fn lemma_holds(hay: Seq<char>, sought: Seq<char>, front: Seq<char>, back: Seq<char>)
    ensures
        hay == front + sought + back ==> crate::text::holds(hay, sought),
{
    if hay == front + sought + back {
        let at = front.len() as int;
        assert(hay.subrange(at, at + sought.len()) =~= sought);
    }
}

/// On texts that are in lower case already: found is a piece of either, and
/// everything is found by nothing.
pub proof fn lowered_texts_are_searched_as_they_are(
    needle: &str,
    name: &str,
    vendor: &str,
    r: bool,
    front: Seq<char>,
    back: Seq<char>,
)
    requires
        call_ensures(matches_lowered, (needle, name, vendor), r),
    ensures
        needle@.len() == 0 ==> r,
        name@ == front + needle@ + back ==> r,
        vendor@ == front + needle@ + back ==> r,
        needle@.len() > name@.len() && needle@.len() > vendor@.len() ==> !r,
{
    lemma_holds(name@, needle@, front, back);
    lemma_holds(vendor@, needle@, front, back);
}

/// White space around what is typed makes no difference to what is found.
pub proof fn space_around_a_filter_changes_nothing(
    e: PluginEntry,
    bare: &str,
    padded: &str,
    front: Seq<char>,
    back: Seq<char>,
    r: bool,
    q: bool,
)
    requires
        padded@ == front + bare@ + back,
        crate::text::all_white(front),
        crate::text::all_white(back),
        call_ensures(plugin_matches, (&e, bare), r),
        call_ensures(plugin_matches, (&e, padded), q),
    ensures
        r == q,
{
    crate::text::space_around_is_trimmed_away(front, bare@, back);
}

/// The rows on screen are those that are found, by their own places and in
/// order.
pub proof fn the_rows_on_screen_are_those_found(
    plugins: Vec<PluginEntry>,
    filter: &str,
    r: Vec<usize>,
    i: usize,
    found: bool,
    a: int,
    b: int,
)
    requires
        call_ensures(visible_plugins, (&plugins, filter), r),
        i < plugins@.len(),
        call_ensures(plugin_matches, (&plugins@[i as int], filter), found),
    ensures
        r@.contains(i) <==> found,
        0 <= a < r@.len() ==> r@[a] < plugins@.len(),
        0 <= a < b < r@.len() ==> r@[a] < r@[b],
{
    if 0 <= a < r@.len() {
        assert(r@.contains(r@[a]));
        assert(crate::dialogs::plugins::on_screen(plugins@, filter@, r@[a] as int));
    }
}

// ── What Load would do ─────────────────────────────────────────────────────
/// Load takes the highlighted row if it is on screen; else the one row that a
/// typed filter has left; else it unloads, if nothing is highlighted and
/// something is loaded; else it does nothing.
pub proof fn load_takes_what_can_be_seen(
    plugins: Vec<PluginEntry>,
    selected: Option<usize>,
    current: Option<&str>,
    filter: &str,
    r: Option<PluginChoice<'_>>,
    rows: Vec<usize>,
)
    requires
        call_ensures(plugin_choice, (&plugins, selected, current, filter), r),
        call_ensures(visible_plugins, (&plugins, filter), rows),
    ensures
        ({
            let seen = selected is Some && rows@.contains(selected->0);
            let only = !crate::text::all_white(filter@) && rows@.len() == 1;
            &&& seen ==> (r matches Some(PluginChoice::Load(e)) && *e == plugins@[selected->0 as int])
            &&& !seen && only ==> (r matches Some(PluginChoice::Load(e)) && *e
                == plugins@[rows@[0] as int])
            &&& !seen && !only && selected is None && current is Some ==> r == Some(
                PluginChoice::Unload,
            )
            &&& !seen && !only && (selected is Some || current is None) ==> r is None
        }),
{
    crate::laws::text::only_blank_text_is_trimmed_away(filter@);
    let (p, f) = (plugins@, filter@);
    assert(p.len() == plugins.len());
    let seen = selected is Some && rows@.contains(selected->0);
    let only = !crate::text::all_white(f) && rows@.len() == 1;
    if seen {
        assert(crate::dialogs::plugins::on_screen(p, f, selected->0 as int));
        assert(crate::dialogs::plugins::would_load(p, selected, f, selected->0 as int));
    } else if only {
        let one = rows@[0];
        assert(rows@.contains(one));
        assert forall|j: int| #[trigger]
            crate::dialogs::plugins::on_screen(p, f, j) implies j == one by {
            assert(rows@.contains(j as usize));
        }
        assert(crate::dialogs::plugins::is_only_row(p, f, one as int));
        assert(crate::dialogs::plugins::would_load(p, selected, f, one as int));
    } else {
        assert forall|i: int| !#[trigger]
            crate::dialogs::plugins::would_load(p, selected, f, i) by {
            if selected is Some && crate::dialogs::plugins::on_screen(p, f, selected->0 as int) {
                assert(rows@.contains(selected->0));
            }
            if crate::text::trimmed(f).len() > 0 && crate::dialogs::plugins::is_only_row(p, f, i) {
                assert(rows@.contains(i as usize));
                assert forall|k: int| 0 <= k < rows@.len() implies rows@[k] == i by {
                    assert(rows@.contains(rows@[k]));
                    assert(crate::dialogs::plugins::on_screen(p, f, rows@[k] as int));
                }
                if rows@.len() >= 2 {
                    assert(rows@[0] < rows@[1]);
                }
            }
        }
        assert(crate::dialogs::plugins::nothing_to_load(p, selected, f));
    }
}

/// What travels is the path of the row, never its name.
pub proof fn the_path_is_what_travels(choice: PluginChoice<'_>, r: DialogAction)
    requires
        call_ensures(PluginChoice::action, (&choice,), r),
    ensures
        choice matches PluginChoice::Load(e) ==> (r matches DialogAction::LoadPlugin {
            path: Some(p),
        } && p@ == e.path@),
        choice is Unload ==> r == (DialogAction::LoadPlugin { path: None }),
{
}

// ── How the list reads ─────────────────────────────────────────────────────
/// The loaded plugin is marked in front, every other row is set in by as much,
/// and a vendor is named only where it is known.
pub proof fn a_row_marks_the_loaded_plugin(
    e: PluginEntry,
    current: &str,
    r: String,
    bare: String,
)
    requires
        call_ensures(plugin_row, (&e, Some(current)), r),
        call_ensures(plugin_row, (&e, None), bare),
    ensures
        ({
            let rest = if crate::text::all_white(e.vendor@) {
                e.name@
            } else {
                e.name@ + "   ("@ + e.vendor@ + ")"@
            };
            &&& bare@ == "  "@ + rest
            &&& current@ == e.path@ ==> r@ == "\u{2022} "@ + rest
            &&& current@ != e.path@ ==> r@ == bare@
        }),
{
    crate::laws::text::only_blank_text_is_trimmed_away(e.vendor@);
    let tail = e.name@ + "   ("@ + e.vendor@ + ")"@;
    assert("\u{2022} "@ + e.name@ + "   ("@ + e.vendor@ + ")"@ =~= "\u{2022} "@ + tail);
    assert("  "@ + e.name@ + "   ("@ + e.vendor@ + ")"@ =~= "  "@ + tail);
}

/// The count is of what is installed, and of what the filter left of it once
/// something is typed.
pub proof fn the_count_is_of_what_is_left(
    shown: usize,
    installed: usize,
    filter: &str,
    r: String,
    s: String,
    n: String,
)
    requires
        call_ensures(count_line, (shown, installed, filter), r),
        call_ensures(crate::text::number, (shown as u64,), s),
        call_ensures(crate::text::number, (installed as u64,), n),
    ensures
        crate::text::all_white(filter@) ==> r@ == n@ + " installed"@,
        !crate::text::all_white(filter@) ==> r@ == s@ + " of "@ + n@,
{
    crate::laws::text::only_blank_text_is_trimmed_away(filter@);
}

/// Rows are ordered by name in lower case, and by path where the names agree.
pub proof fn rows_are_ordered_by_name_and_then_by_path(
    name: &str,
    path: &str,
    other: &str,
    other_path: &str,
    r: bool,
    by_name: bool,
    by_path: bool,
)
    requires
        call_ensures(before_lowered, (name, path, other, other_path), r),
        call_ensures(crate::text::comes_before, (name, other), by_name),
        call_ensures(crate::text::comes_before, (path, other_path), by_path),
    ensures
        name@ != other@ ==> r == by_name,
        name@ == other@ ==> r == by_path,
{
    if name@ == other@ && by_name {
        crate::text::before_is_one_way(name@, other@);
    }
}

/// The picker opens with a row for every bundle, sorted, unfiltered, and with the
/// loaded one highlighted if it is there.
pub proof fn the_picker_opens_on_what_is_loaded(
    bundles: Vec<String>,
    current: Option<String>,
    d: Dialog,
    i: int,
    j: int,
    k: int,
    path: &str,
    row: PluginEntry,
)
    requires
        call_ensures(Dialog::plugin_picker, (&bundles, current), d),
        call_ensures(PluginEntry::from_bundle, (path,), row),
        crate::dialogs::plugins::is_common_path(path@),
    ensures
        d matches Dialog::PluginPicker { plugins, selected, current: loaded, filter, focus } && {
            &&& plugins@.len() == bundles@.len()
            &&& 0 <= k < bundles@.len() && bundles@[k]@ == path@ ==> exists|m: int|
                0 <= m < plugins@.len() && (#[trigger] plugins@[m]).path@ == path@
                    && plugins@[m].name@ == row.name@ && plugins@[m].vendor@.len() == 0
            &&& 0 <= i < j < plugins@.len() ==> {
                let (a, b) = (
                    crate::text::lowercase(plugins@[i].name@),
                    crate::text::lowercase(plugins@[j].name@),
                );
                crate::text::before(a, b) || (a == b && !crate::text::before(
                    plugins@[j].path@,
                    plugins@[i].path@,
                ))
            }
            &&& loaded == current
            &&& selected matches Some(at) ==> at < plugins@.len() && current is Some
                && plugins@[at as int].path@ == current->0@
            &&& current is Some && 0 <= i < plugins@.len() && plugins@[i].path@ == current->0@
                ==> selected is Some
            &&& filter@.len() == 0
            &&& focus
        },
{
    if let Dialog::PluginPicker { plugins, selected, current: loaded, filter, focus } = d {
        let rows = choose|rows: Seq<PluginEntry>|
            {
                &&& #[trigger] rows.to_multiset() == plugins@.to_multiset()
                &&& rows.len() == bundles@.len()
                &&& forall|i: int|
                    0 <= i < rows.len() ==> crate::dialogs::plugins::is_row_for(
                        #[trigger] rows[i],
                        bundles@[i]@,
                    )
            };
        broadcast use vstd::seq_lib::group_to_multiset_ensures;

        assert(plugins@.len() == plugins@.to_multiset().len());
        assert(rows.len() == rows.to_multiset().len());
        if 0 <= k < bundles@.len() && bundles@[k]@ == path@ {
            assert(crate::dialogs::plugins::is_row_for(rows[k], bundles@[k]@));
            assert(rows.contains(rows[k]));
            assert(rows.to_multiset().count(rows[k]) > 0);
            assert(plugins@.to_multiset().count(rows[k]) > 0);
            assert(plugins@.contains(rows[k]));
            let m = choose|m: int| 0 <= m < plugins@.len() && plugins@[m] == rows[k];
            assert(plugins@[m].path@ == bundles@[k]@);
        }
        let picker = crate::dialogs::plugins::PluginPicker {
            plugins,
            selected,
            current: loaded,
            filter,
            focus,
        };
        assert(picker.opens_on(current));
        assert(picker.plugins@[i] == plugins@[i]);
        if 0 <= i < j < plugins@.len() {
            let (a, b) = (
                crate::text::lowercase(plugins@[i].name@),
                crate::text::lowercase(plugins@[j].name@),
            );
            assert(!crate::dialogs::plugins::reads_before(plugins@[j], plugins@[i]));
            if !crate::text::before(a, b) {
                crate::text::before_tells_texts_apart(a, b);
            }
        }
    }
}

/// An empty list says where plugins live on the system it is read on.
pub proof fn an_empty_list_says_where_to_look(
    platform: Platform,
    r: &'static str,
)
    requires
        call_ensures(vst3_locations, (platform,), r),
    ensures
        platform == Platform::MacOs ==> r@
            == "No VST3 instruments found. macOS keeps them in ~/Library/Audio/Plug-Ins/VST3 for one user and /Library/Audio/Plug-Ins/VST3 for everybody. An installer that offered you AU or VST2 and took the default put nothing in either."@,
        platform == Platform::Windows ==> r@
            == "No VST3 instruments found. Windows keeps them in %COMMONPROGRAMFILES%\\VST3 — usually C:\\Program Files\\Common Files\\VST3. An installer that offered you VST2 and took the default put nothing there."@,
        platform == Platform::Other ==> r@
            == "No VST3 instruments found. Linux keeps them in ~/.vst3 for one user and /usr/lib/vst3 for everybody."@,
        crate::dialogs::PLUGIN_NONE_ROW@
            == "None  —  no instrument; unloads the one that is loaded"@,
{
}

/// A row is called by its stem without the space around it, and by its whole
/// path where there is no stem or nothing is left of it.
pub proof fn a_row_without_a_stem_is_its_path(
    path: &str,
    stem: String,
    named: PluginEntry,
    bare: PluginEntry,
)
    requires
        call_ensures(PluginEntry::from_stem, (path, Some(stem)), named),
        call_ensures(PluginEntry::from_stem, (path, None), bare),
    ensures
        bare.name@ == path@ && bare.path@ == path@ && bare.vendor@.len() == 0,
        named.path@ == path@ && named.vendor@.len() == 0,
        crate::text::all_white(stem@) ==> named.name@ == path@,
        !crate::text::all_white(stem@) ==> named.name@ == crate::text::trimmed(stem@),
{
    crate::laws::text::only_blank_text_is_trimmed_away(stem@);
}

} // verus!
