//! Explorer of directories, from which the workspace of a session is chosen.
//! Only directories are listed.

use vstd::prelude::*;

use crate::error::ApiError;
use crate::outside;
use crate::protocol::api::{DirEntry, DirListing, ErrorCode};
use crate::text;

verus! {

/// Which directory is asked for.
#[derive(Debug, PartialEq)]
pub struct ListQuery {
    /// Absolute path; none or empty stands for the user's home.
    pub path: Option<String>,
}

/// Whether a query asks for a path.
pub open spec fn asks_for(query: ListQuery, r: Option<String>) -> bool {
    r == (match query.path {
        Some(p) if p@.len() > 0 => Some(p),
        _ => None,
    })
}

/// The path that a query asks for; none stands for the user's home.
pub fn base(query: ListQuery) -> (r: Option<String>)
    ensures
        asks_for(query, r),
{
    match query.path {
        Some(p) => if p.as_str().is_empty() {
            None
        } else {
            Some(p)
        },
        None => None,
    }
}

/// The error for a path that cannot be reached.
pub fn inaccessible(why: &str) -> (r: ApiError)
    ensures
        r.says(ErrorCode::ValidationFailed, "ruta inaccesible: "@ + why@),
        r.details is None,
{
    ApiError::validation(text::join2("ruta inaccesible: ", why), None)
}

/// The error for a path that is no directory.
pub fn not_a_directory() -> (r: ApiError)
    ensures
        r.says(ErrorCode::ValidationFailed, "la ruta no es un directorio"@),
        r.details is None,
{
    ApiError::validation("la ruta no es un directorio".to_owned(), None)
}

/// The error for a directory that cannot be read.
pub fn unreadable(why: &str) -> (r: ApiError)
    ensures
        r.says(ErrorCode::ValidationFailed, "no se pudo leer el directorio: "@ + why@),
        r.details is None,
{
    ApiError::validation(text::join2("no se pudo leer el directorio: ", why), None)
}

/// An entry of a directory as it was found.
#[derive(Debug, PartialEq)]
pub struct Found {
    pub name: String,
    pub path: String,
    pub is_dir: bool,
}

/// A path without the prefix of extended length.
pub open spec fn clean(path: Seq<char>) -> Seq<char> {
    match text::after_prefix(path, "\\\\?\\"@) {
        Some(rest) => rest,
        None => path,
    }
}

/// The path as it is shown: without the prefix of extended length.
pub fn clean_path(path: &str) -> (r: String)
    ensures
        r@ == clean(path@),
{
    match text::strip_prefix(path, "\\\\?\\") {
        Some(rest) => rest,
        None => path.to_owned(),
    }
}

/// Whether an entry is listed: a directory that is not hidden.
pub open spec fn listed(found: Found) -> bool {
    found.is_dir && !"."@.is_prefix_of(found.name@)
}

/// An entry as it is listed: its name and its path.
pub open spec fn shown(found: Found) -> (Seq<char>, Seq<char>) {
    (found.name@, clean(found.path@))
}

/// What an entry of a listing holds.
pub open spec fn entry_view(entry: DirEntry) -> (Seq<char>, Seq<char>) {
    (entry.name@, entry.path@)
}

/// What a list of entries holds.
pub open spec fn entry_views(entries: Seq<DirEntry>) -> Seq<(Seq<char>, Seq<char>)> {
    entries.map_values(|e: DirEntry| entry_view(e))
}

/// What is listed of the entries found, in the order in which they were found.
pub open spec fn all_listed(found: Seq<Found>) -> Seq<(Seq<char>, Seq<char>)> {
    found.filter(|f: Found| listed(f)).map_values(|f: Found| shown(f))
}

/// Whether a text comes before another, by their first difference.
pub open spec fn precedes(a: Seq<char>, b: Seq<char>) -> bool
    decreases a.len(),
{
    if b.len() == 0 {
        false
    } else if a.len() == 0 {
        true
    } else if a[0] != b[0] {
        a[0] < b[0]
    } else {
        precedes(a.drop_first(), b.drop_first())
    }
}

/// Whether an entry comes before another: by name, whatever the case.
pub open spec fn sooner(a: (Seq<char>, Seq<char>), b: (Seq<char>, Seq<char>)) -> bool {
    precedes(outside::lowercase_text(a.0), outside::lowercase_text(b.0))
}

/// A sequence with one more entry, put behind all that it does not come before.
pub open spec fn placed(
    entries: Seq<(Seq<char>, Seq<char>)>,
    entry: (Seq<char>, Seq<char>),
) -> Seq<(Seq<char>, Seq<char>)>
    decreases entries.len(),
{
    if entries.len() > 0 && sooner(entry, entries.last()) {
        placed(entries.drop_last(), entry).push(entries.last())
    } else {
        entries.push(entry)
    }
}

/// The entries in order of name, whatever the case; entries of one name stay
/// in the order in which they were found.
pub open spec fn ordered(entries: Seq<(Seq<char>, Seq<char>)>) -> Seq<(Seq<char>, Seq<char>)>
    decreases entries.len(),
{
    if entries.len() == 0 {
        entries
    } else {
        placed(ordered(entries.drop_last()), entries.last())
    }
}

/// Whether each entry comes no later than those behind it.
pub open spec fn in_order(entries: Seq<(Seq<char>, Seq<char>)>) -> bool {
    forall|i: int, j: int|
        0 <= i < j < entries.len() ==> !sooner(#[trigger] entries[j], #[trigger] entries[i])
}

/// Of three texts: if the first does not come after the second, nor the
/// second after the third, neither does the first after the third.
proof fn lemma_precedes_chain(a: Seq<char>, b: Seq<char>, c: Seq<char>)
    requires
        !precedes(b, a),
        !precedes(c, b),
    ensures
        !precedes(c, a),
    decreases a.len(),
{
    if a.len() > 0 && b.len() > 0 && c.len() > 0 && a[0] == b[0] && b[0] == c[0] {
        lemma_precedes_chain(a.drop_first(), b.drop_first(), c.drop_first());
    }
}

/// Of two texts at most one comes before the other.
proof fn lemma_precedes_one_way(a: Seq<char>, b: Seq<char>)
    ensures
        !(precedes(a, b) && precedes(b, a)),
    decreases a.len(),
{
    if a.len() > 0 && b.len() > 0 && a[0] == b[0] {
        lemma_precedes_one_way(a.drop_first(), b.drop_first());
    }
}

/// Placing an entry keeps the order and adds just that entry.
proof fn lemma_placed(entries: Seq<(Seq<char>, Seq<char>)>, entry: (Seq<char>, Seq<char>))
    requires
        in_order(entries),
    ensures
        in_order(placed(entries, entry)),
        placed(entries, entry).to_multiset() == entries.to_multiset().insert(entry),
        forall|i: int|
            0 <= i < placed(entries, entry).len() ==> #[trigger] placed(entries, entry)[i] == entry
                || entries.contains(placed(entries, entry)[i]),
    decreases entries.len(),
{
    broadcast use vstd::seq_lib::group_to_multiset_ensures;

    let all = placed(entries, entry);
    if entries.len() > 0 && sooner(entry, entries.last()) {
        let before = entries.drop_last();
        let inner = placed(before, entry);
        lemma_placed(before, entry);
        assert(entries == before.push(entries.last()));
        assert(all == inner.push(entries.last()));
        assert forall|i: int| 0 <= i < inner.len() implies !sooner(
            entries.last(),
            #[trigger] inner[i],
        ) by {
            if inner[i] == entry {
                lemma_precedes_one_way(
                    outside::lowercase_text(entry.0),
                    outside::lowercase_text(entries.last().0),
                );
            } else {
                let k = choose|k: int| 0 <= k < before.len() && before[k] == inner[i];
                assert(entries[k] == before[k]);
            }
        }
        assert forall|i: int| 0 <= i < all.len() implies #[trigger] all[i] == entry
            || entries.contains(all[i]) by {
            if i < inner.len() {
                assert(all[i] == inner[i]);
                if inner[i] != entry {
                    let k = choose|k: int| 0 <= k < before.len() && before[k] == inner[i];
                    assert(entries[k] == before[k]);
                }
            } else {
                assert(entries[entries.len() - 1] == all[i]);
            }
        }
    } else {
        assert forall|i: int| 0 <= i < entries.len() implies !sooner(entry, #[trigger] entries[i]) by {
            if i < entries.len() - 1 {
                lemma_precedes_chain(
                    outside::lowercase_text(entries[i].0),
                    outside::lowercase_text(entries.last().0),
                    outside::lowercase_text(entry.0),
                );
            }
        }
        assert forall|i: int| 0 <= i < all.len() implies #[trigger] all[i] == entry
            || entries.contains(all[i]) by {
            if i < entries.len() {
                assert(all[i] == entries[i]);
            }
        }
    }
}

/// Law: a listing is in order of name, whatever the case, and holds each entry
/// as often as it was found.
pub proof fn law_listing_is_sorted(entries: Seq<(Seq<char>, Seq<char>)>)
    ensures
        in_order(ordered(entries)),
        ordered(entries).to_multiset() == entries.to_multiset(),
    decreases entries.len(),
{
    broadcast use vstd::seq_lib::group_to_multiset_ensures;

    if entries.len() > 0 {
        law_listing_is_sorted(entries.drop_last());
        lemma_placed(ordered(entries.drop_last()), entries.last());
        assert(entries == entries.drop_last().push(entries.last()));
    }
}

/// Where an entry is placed, given that it comes before all from there on.
proof fn lemma_placed_at(
    entries: Seq<(Seq<char>, Seq<char>)>,
    entry: (Seq<char>, Seq<char>),
    at: int,
)
    requires
        0 <= at <= entries.len(),
        forall|i: int| at <= i < entries.len() ==> sooner(entry, #[trigger] entries[i]),
        at > 0 ==> !sooner(entry, entries[at - 1]),
    ensures
        placed(entries, entry) == entries.insert(at, entry),
    decreases entries.len(),
{
    if at < entries.len() {
        assert(sooner(entry, entries[entries.len() - 1]));
        lemma_placed_at(entries.drop_last(), entry, at);
        assert(entries.drop_last().insert(at, entry).push(entries.last()) == entries.insert(
            at,
            entry,
        ));
    } else {
        assert(entries.push(entry) == entries.insert(at, entry));
    }
}

/// Whether a text comes before another, by their first difference.
fn comes_before(a: &str, b: &str) -> (r: bool)
    ensures
        r == precedes(a@, b@),
{
    let x = text::to_chars(a);
    let y = text::to_chars(b);
    let mut i: usize = 0;
    assert(x@.skip(0) == x@);
    assert(y@.skip(0) == y@);
    while i < x.len() && i < y.len() && x[i] == y[i]
        invariant
            i <= x.len(),
            i <= y.len(),
            precedes(x@, y@) == precedes(x@.skip(i as int), y@.skip(i as int)),
        decreases x.len() - i,
    {
        assert(x@.skip(i as int).drop_first() == x@.skip(i + 1));
        assert(y@.skip(i as int).drop_first() == y@.skip(i + 1));
        i += 1;
    }
    if i >= y.len() {
        false
    } else if i >= x.len() {
        true
    } else {
        x[i] < y[i]
    }
}

/// Puts an entry into a list, behind all that it does not come before.
fn place(entries: &mut Vec<DirEntry>, entry: DirEntry)
    ensures
        entry_views(final(entries)@) == placed(entry_views(old(entries)@), entry_view(entry)),
{
    let key = outside::lowercase(entry.name.as_str());
    let mut at: usize = entries.len();
    let ghost views = entry_views(entries@);
    while at > 0 && comes_before(
        key.as_str(),
        outside::lowercase(entries[at - 1].name.as_str()).as_str(),
    )
        invariant
            at <= entries.len(),
            entries@ == old(entries)@,
            views == entry_views(entries@),
            key@ == outside::lowercase_text(entry.name@),
            forall|i: int| at <= i < views.len() ==> sooner(entry_view(entry), #[trigger] views[i]),
        decreases at,
    {
        at -= 1;
    }
    proof {
        lemma_placed_at(views, entry_view(entry), at as int);
    }
    entries.insert(at, entry);
    assert(entry_views(entries@) == views.insert(at as int, entry_view(entry)));
}

/// Whether this is the listing of a directory, given what was found in it.
pub open spec fn is_listing(
    r: DirListing,
    dir: Seq<char>,
    parent: Option<String>,
    found: Seq<Found>,
) -> bool {
    &&& r.path@ == clean(dir)
    &&& match r.parent {
        Some(p) => parent matches Some(above) && p@ == clean(above@) && p@.len() > 0,
        None => parent matches Some(above) ==> clean(above@).len() == 0,
    }
    &&& entry_views(r.entries@) == ordered(all_listed(found))
}

/// The listing of a directory, given what was found in it.
pub fn list(dir: &str, parent: &Option<String>, found: &Vec<Found>) -> (r: DirListing)
    ensures
        is_listing(r, dir@, *parent, found@),
{
    let ghost keep = |f: Found| listed(f);
    let ghost show = |f: Found| shown(f);
    let mut entries: Vec<DirEntry> = Vec::new();
    let mut i: usize = 0;
    proof {
        reveal(Seq::filter);
        assert(found@.take(0).filter(keep).map_values(show)
            == Seq::<(Seq<char>, Seq<char>)>::empty());
    }
    while i < found.len()
        invariant
            i <= found.len(),
            keep == (|f: Found| listed(f)),
            show == (|f: Found| shown(f)),
            entry_views(entries@) == ordered(found@.take(i as int).filter(keep).map_values(show)),
        decreases found.len() - i,
    {
        let f = &found[i];
        proof {
            reveal(Seq::filter);
            assert(found@.take(i + 1).drop_last() == found@.take(i as int));
            let before = found@.take(i as int).filter(keep);
            let grown = before.push(*f).map_values(show);
            assert(grown.drop_last() == before.map_values(show));
        }
        if f.is_dir && !text::begins_with(f.name.as_str(), ".") {
            place(
                &mut entries,
                DirEntry { name: f.name.clone(), path: clean_path(f.path.as_str()) },
            );
        }
        i += 1;
    }
    assert(found@.take(i as int) == found@);
    let parent = match parent {
        Some(above) => {
            let p = clean_path(above.as_str());
            if p.as_str().is_empty() {
                None
            } else {
                Some(p)
            }
        },
        None => None,
    };
    DirListing { path: clean_path(dir), parent, entries }
}

/// Whether an entry shows a directory that is not hidden: its name, and its path
/// without the prefix of extended length.
pub open spec fn shows(entry: DirEntry, found: Found) -> bool {
    &&& found.is_dir
    &&& found.name@.len() > 0 ==> found.name@[0] != '.'
    &&& entry.name@ == found.name@
    &&& entry.path@ == clean(found.path@)
}

/// Whether an entry shows one of the directories found.
pub open spec fn was_found(entry: DirEntry, found: Seq<Found>) -> bool {
    exists|k: int| 0 <= k < found.len() && shows(entry, #[trigger] found[k])
}

/// Law: a listing shows exactly the directories that are not hidden, each under
/// its name, and under its path without the prefix of extended length.
pub proof fn law_listing_shows_directories(found: Seq<Found>, entries: Seq<DirEntry>)
    requires
        entry_views(entries) == ordered(all_listed(found)),
    ensures
        forall|i: int|
            #![trigger entries[i]]
            0 <= i < entries.len() ==> was_found(entries[i], found),
        forall|k: int|
            #![trigger found[k]]
            0 <= k < found.len() && found[k].is_dir && !(found[k].name@.len() > 0
                && found[k].name@[0] == '.') ==> exists|i: int|
                #![trigger entries[i]]
                0 <= i < entries.len() && shows(entries[i], found[k]),
{
    assert forall|i: int| #![trigger entries[i]] 0 <= i < entries.len() implies was_found(
        entries[i],
        found,
    ) by {
        lemma_shown_was_found(found, entries, i);
    }
    assert forall|k: int|
        #![trigger found[k]]
        0 <= k < found.len() && found[k].is_dir && !(found[k].name@.len() > 0 && found[k].name@[0]
            == '.') implies exists|i: int|
        #![trigger entries[i]]
        0 <= i < entries.len() && shows(entries[i], found[k]) by {
        lemma_found_is_shown(found, entries, k);
    }
}

proof fn lemma_shown_was_found(found: Seq<Found>, entries: Seq<DirEntry>, i: int)
    requires
        entry_views(entries) == ordered(all_listed(found)),
        0 <= i < entries.len(),
    ensures
        was_found(entries[i], found),
{
    broadcast use vstd::seq_lib::group_to_multiset_ensures;

    let all = all_listed(found);
    let views = entry_views(entries);
    let keep = |f: Found| listed(f);
    let kept = found.filter(keep);
    law_listing_is_sorted(all);
    reveal_strlit(".");
    assert(views[i] == entry_view(entries[i]));
    assert(views.contains(views[i]));
    assert(views.to_multiset().count(views[i]) > 0);
    assert(all.contains(views[i]));
    let j = choose|j: int| 0 <= j < all.len() && all[j] == views[i];
    assert(all[j] == shown(kept[j]));
    found.lemma_filter_pred(keep, j);
    found.lemma_filter_contains_rev(keep, kept[j]);
    let k = choose|k: int| 0 <= k < found.len() && found[k] == kept[j];
    assert(listed(found[k]));
    if found[k].name@.len() > 0 && found[k].name@[0] == '.' {
        assert("."@ == found[k].name@.take(1));
    }
    assert(shows(entries[i], found[k]));
}

proof fn lemma_found_is_shown(found: Seq<Found>, entries: Seq<DirEntry>, k: int)
    requires
        entry_views(entries) == ordered(all_listed(found)),
        0 <= k < found.len(),
        found[k].is_dir,
        !(found[k].name@.len() > 0 && found[k].name@[0] == '.'),
    ensures
        exists|i: int|
            #![trigger entries[i]]
            0 <= i < entries.len() && shows(entries[i], found[k]),
{
    broadcast use vstd::seq_lib::group_to_multiset_ensures;

    let all = all_listed(found);
    let views = entry_views(entries);
    let keep = |f: Found| listed(f);
    let kept = found.filter(keep);
    law_listing_is_sorted(all);
    reveal_strlit(".");
    if "."@.is_prefix_of(found[k].name@) {
        assert(found[k].name@[0] == found[k].name@.take(1)[0]);
    }
    assert(keep(found[k]));
    found.lemma_filter_contains(keep, k);
    let j = choose|j: int| 0 <= j < kept.len() && kept[j] == found[k];
    assert(all[j] == shown(kept[j]));
    assert(all.contains(all[j]));
    assert(all.to_multiset().count(all[j]) > 0);
    assert(views.contains(all[j]));
    let i = choose|i: int| 0 <= i < views.len() && views[i] == all[j];
    assert(views[i] == entry_view(entries[i]));
    assert(shows(entries[i], found[k]));
}

/// Law: a path loses the prefix of extended length and nothing else.
pub proof fn law_clean(path: Seq<char>)
    ensures
        clean("\\\\?\\"@ + path) == path,
        !"\\\\?\\"@.is_prefix_of(path) ==> clean(path) == path,
{
    let p = "\\\\?\\"@;
    assert((p + path).take(p.len() as int) == p);
    assert((p + path).skip(p.len() as int) == path);
}

/// Law: a text comes before another exactly when, at the first place where they
/// differ, it ends or has the smaller character.
pub proof fn law_precedes(a: Seq<char>, b: Seq<char>, i: int)
    requires
        0 <= i <= a.len(),
        i <= b.len(),
        a.take(i) == b.take(i),
        i < a.len() && i < b.len() ==> a[i] != b[i],
    ensures
        i == b.len() ==> !precedes(a, b),
        i == a.len() && i < b.len() ==> precedes(a, b),
        i < a.len() && i < b.len() ==> (precedes(a, b) <==> a[i] < b[i]),
    decreases i,
{
    if i > 0 {
        assert(a[0] == a.take(i)[0]);
        assert(b[0] == b.take(i)[0]);
        assert(a.drop_first().take(i - 1) == a.take(i).drop_first());
        assert(b.drop_first().take(i - 1) == b.take(i).drop_first());
        law_precedes(a.drop_first(), b.drop_first(), i - 1);
    }
}

/// Law: a listing is of the directory asked for and leads up to its parent,
/// unless there is none.
pub proof fn law_listing_leads_up(
    r: DirListing,
    dir: Seq<char>,
    parent: Option<String>,
    found: Seq<Found>,
)
    requires
        is_listing(r, dir, parent, found),
    ensures
        r.path@ == clean(dir),
        parent is None ==> r.parent is None,
        parent matches Some(above) ==> (clean(above@).len() > 0 ==> (r.parent matches Some(p) && p@
            == clean(above@))) && (clean(above@).len() == 0 ==> r.parent is None),
        forall|i: int|
            #![trigger r.entries@[i]]
            0 <= i < r.entries@.len() ==> was_found(r.entries@[i], found),
        forall|i: int, j: int|
            #![trigger r.entries@[i], r.entries@[j]]
            0 <= i < j < r.entries@.len() ==> !precedes(
                outside::lowercase_text(r.entries@[j].name@),
                outside::lowercase_text(r.entries@[i].name@),
            ),
{
    law_listing_shows_directories(found, r.entries@);
    law_listing_is_sorted(all_listed(found));
    let views = entry_views(r.entries@);
    assert forall|i: int, j: int|
        #![trigger r.entries@[i], r.entries@[j]]
        0 <= i < j < r.entries@.len() implies !precedes(
        outside::lowercase_text(r.entries@[j].name@),
        outside::lowercase_text(r.entries@[i].name@),
    ) by {
        assert(views[i] == entry_view(r.entries@[i]));
        assert(views[j] == entry_view(r.entries@[j]));
        assert(!sooner(views[j], views[i]));
    }
}

/// Law: what is in order stays as it is: entries of one name, whatever their
/// case, keep the order in which they were found.
pub proof fn law_order_is_kept(entries: Seq<(Seq<char>, Seq<char>)>)
    requires
        forall|i: int, j: int|
            #![trigger entries[i], entries[j]]
            0 <= i < j < entries.len() ==> !precedes(
                outside::lowercase_text(entries[j].0),
                outside::lowercase_text(entries[i].0),
            ),
    ensures
        ordered(entries) == entries,
    decreases entries.len(),
{
    if entries.len() > 0 {
        let rest = entries.drop_last();
        assert forall|i: int, j: int|
            #![trigger rest[i], rest[j]]
            0 <= i < j < rest.len() implies !precedes(
            outside::lowercase_text(rest[j].0),
            outside::lowercase_text(rest[i].0),
        ) by {
            assert(entries[i] == rest[i] && entries[j] == rest[j]);
        }
        law_order_is_kept(rest);
        if rest.len() > 0 {
            assert(rest.last() == entries[entries.len() - 2]);
            assert(entries.last() == entries[entries.len() - 1]);
            assert(!sooner(entries.last(), rest.last()));
        }
        assert(rest.push(entries.last()) == entries);
    }
}

/// Law: a query without a path, or with an empty one, asks for the home.
pub proof fn law_no_path_is_home(query: ListQuery, r: Option<String>)
    requires
        asks_for(query, r),
    ensures
        r is Some <==> query.path is Some && query.path->0@.len() > 0,
        r is Some ==> r == query.path,
{
}

} // verus!
