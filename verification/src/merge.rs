//! One library set out of several sources.
//!
//! The install path identifies an entry. Sources are read in a fixed order,
//! the base game first, then the loader; the first entry seen for a path
//! stays and any later entry with that path is dropped, whatever platforms
//! either of them names.

use crate::platform::{all_platforms, universal_platforms};
use crate::types::{placed, LibraryObject, PlacedLibrary};
use vstd::prelude::*;

verus! {

/// The first entry of `libraries` with the install path `path`, if any.
pub open spec fn lookup(libraries: Seq<PlacedLibrary>, path: Seq<char>) -> Option<PlacedLibrary>
    decreases libraries.len(),
{
    if libraries.len() == 0 {
        None
    } else if libraries[0].install_path == path {
        Some(libraries[0])
    } else {
        lookup(libraries.drop_first(), path)
    }
}

/// Whether some entry of `libraries` has the install path `path`.
pub open spec fn has_path(libraries: Seq<PlacedLibrary>, path: Seq<char>) -> bool {
    exists|i: int| 0 <= i < libraries.len() && (#[trigger] libraries[i]).install_path == path
}

/// Whether no two entries share an install path.
pub open spec fn unique_paths(libraries: Seq<PlacedLibrary>) -> bool {
    forall|i: int, j: int|
        0 <= i < j < libraries.len() ==> (#[trigger] libraries[i]).install_path != (
        #[trigger] libraries[j]).install_path
}

/// `set` with `library` added at the end, unless `set` already holds an entry
/// with its path: then `set` unchanged.
pub open spec fn insert_first_wins(set: Seq<PlacedLibrary>, library: PlacedLibrary) -> Seq<
    PlacedLibrary,
> {
    if has_path(set, library.install_path) {
        set
    } else {
        set.push(library)
    }
}

/// `set` after the entries of `source` were offered to it one by one, in
/// order.
pub open spec fn insert_each(set: Seq<PlacedLibrary>, source: Seq<PlacedLibrary>) -> Seq<
    PlacedLibrary,
>
    decreases source.len(),
{
    if source.len() == 0 {
        set
    } else {
        insert_first_wins(insert_each(set, source.drop_last()), source.last())
    }
}

/// The entries of `libraries` in order, each path kept only where it first
/// occurs.
pub open spec fn first_wins(libraries: Seq<PlacedLibrary>) -> Seq<PlacedLibrary> {
    insert_each(Seq::<PlacedLibrary>::empty(), libraries)
}

/// The install path of the base game's own client file.
pub open spec fn client_path() -> Seq<char> {
    "minecraft.jar"@
}

/// The entry for the base game's own client file: it applies to all
/// platforms.
pub open spec fn client_library() -> PlacedLibrary {
    PlacedLibrary { install_path: client_path(), platforms: all_platforms() }
}

/// The merged library set: the base game's entries, then the loader's, then
/// the client file's entry, each path kept only where it first occurs.
pub open spec fn merged(base: Seq<PlacedLibrary>, loader: Seq<PlacedLibrary>) -> Seq<
    PlacedLibrary,
> {
    first_wins(base + loader + seq![client_library()])
}

/// `has_path` says that `lookup` finds something.
pub proof fn lemma_lookup_finds(libraries: Seq<PlacedLibrary>, path: Seq<char>)
    ensures
        has_path(libraries, path) <==> lookup(libraries, path) is Some,
        lookup(libraries, path) is Some ==> lookup(libraries, path)->Some_0.install_path == path
            && libraries.contains(lookup(libraries, path)->Some_0),
    decreases libraries.len(),
{
    if libraries.len() > 0 {
        let rest = libraries.drop_first();
        lemma_lookup_finds(rest, path);
        if libraries[0].install_path != path {
            if has_path(libraries, path) {
                let i = choose|i: int|
                    0 <= i < libraries.len() && (#[trigger] libraries[i]).install_path == path;
                assert(rest[i - 1].install_path == path);
            }
            if has_path(rest, path) {
                let i = choose|i: int|
                    0 <= i < rest.len() && (#[trigger] rest[i]).install_path == path;
                assert(libraries[i + 1].install_path == path);
            }
            if lookup(rest, path) is Some {
                let found = lookup(rest, path)->Some_0;
                let i = choose|i: int| 0 <= i < rest.len() && rest[i] == found;
                assert(libraries[i + 1] == found);
            }
        } else {
            assert(libraries[0].install_path == path);
        }
    }
}

/// What `lookup` finds in a list with one more entry at its end.
pub proof fn lemma_lookup_push(
    libraries: Seq<PlacedLibrary>,
    library: PlacedLibrary,
    path: Seq<char>,
)
    ensures
        lookup(libraries.push(library), path) == if lookup(libraries, path) is Some {
            lookup(libraries, path)
        } else if library.install_path == path {
            Some(library)
        } else {
            None
        },
    decreases libraries.len(),
{
    let longer = libraries.push(library);
    if libraries.len() == 0 {
        assert(longer.drop_first().len() == 0);
    } else {
        assert(longer.drop_first() == libraries.drop_first().push(library));
        lemma_lookup_push(libraries.drop_first(), library, path);
    }
}

/// What `lookup` finds in two lists put one after the other.
pub proof fn lemma_lookup_concat(
    front: Seq<PlacedLibrary>,
    back: Seq<PlacedLibrary>,
    path: Seq<char>,
)
    ensures
        lookup(front + back, path) == if lookup(front, path) is Some {
            lookup(front, path)
        } else {
            lookup(back, path)
        },
    decreases front.len(),
{
    if front.len() == 0 {
        assert(front + back == back);
    } else {
        assert((front + back).drop_first() == front.drop_first() + back);
        lemma_lookup_concat(front.drop_first(), back, path);
    }
}

/// Offering one list and then another is offering the two put together.
pub proof fn lemma_insert_each_concat(
    set: Seq<PlacedLibrary>,
    front: Seq<PlacedLibrary>,
    back: Seq<PlacedLibrary>,
)
    ensures
        insert_each(insert_each(set, front), back) == insert_each(set, front + back),
    decreases back.len(),
{
    if back.len() == 0 {
        assert(front + back == front);
    } else {
        lemma_insert_each_concat(set, front, back.drop_last());
        assert((front + back).drop_last() == front + back.drop_last());
        assert((front + back).last() == back.last());
    }
}

/// Offering entries to a set changes no lookup that the set already
/// answered, and answers the others from the first entry offered for the
/// path.
pub proof fn lemma_insert_each_keeps_first(
    set: Seq<PlacedLibrary>,
    source: Seq<PlacedLibrary>,
    path: Seq<char>,
)
    ensures
        lookup(insert_each(set, source), path) == lookup(set + source, path),
    decreases source.len(),
{
    if source.len() == 0 {
        assert(set + source == set);
    } else {
        let front = source.drop_last();
        let last = source.last();
        let kept = insert_each(set, front);
        lemma_insert_each_keeps_first(set, front, path);
        lemma_insert_each_keeps_first(set, front, last.install_path);
        assert((set + front).push(last) == set + source);
        lemma_lookup_push(set + front, last, path);
        lemma_lookup_finds(kept, last.install_path);
        if !has_path(kept, last.install_path) {
            lemma_lookup_push(kept, last, path);
        }
    }
}

/// Offering entries to a set without repeated paths leaves it without
/// repeated paths.
pub proof fn lemma_insert_each_unique(set: Seq<PlacedLibrary>, source: Seq<PlacedLibrary>)
    requires
        unique_paths(set),
    ensures
        unique_paths(insert_each(set, source)),
    decreases source.len(),
{
    if source.len() > 0 {
        lemma_insert_each_unique(set, source.drop_last());
    }
}

/// Offering entries to a set only adds at its end: what the set held stays
/// where it was.
pub proof fn lemma_insert_each_extends(set: Seq<PlacedLibrary>, source: Seq<PlacedLibrary>)
    ensures
        set.len() <= insert_each(set, source).len(),
        insert_each(set, source).take(set.len() as int) == set,
    decreases source.len(),
{
    if source.len() == 0 {
        assert(set.take(set.len() as int) == set);
    } else {
        let before = insert_each(set, source.drop_last());
        lemma_insert_each_extends(set, source.drop_last());
        let after = insert_each(set, source);
        assert(after.take(set.len() as int) =~= before.take(set.len() as int));
    }
}

/// Dropping later duplicates changes no lookup: for every path the entry
/// found is the one that came first.
pub proof fn lemma_first_wins_keeps_first(libraries: Seq<PlacedLibrary>, path: Seq<char>)
    ensures
        lookup(first_wins(libraries), path) == lookup(libraries, path),
{
    lemma_insert_each_keeps_first(Seq::<PlacedLibrary>::empty(), libraries, path);
    assert(Seq::<PlacedLibrary>::empty() + libraries == libraries);
}

/// After later duplicates are dropped, no path occurs twice.
pub proof fn lemma_first_wins_unique(libraries: Seq<PlacedLibrary>)
    ensures
        unique_paths(first_wins(libraries)),
{
    lemma_insert_each_unique(Seq::<PlacedLibrary>::empty(), libraries);
}

/// A path that the base game lists keeps the base game's entry in the merged
/// set, whatever the loader says of that path and whichever of the two names
/// more platforms.
pub proof fn lemma_base_entry_wins(
    base: Seq<PlacedLibrary>,
    loader: Seq<PlacedLibrary>,
    path: Seq<char>,
)
    requires
        has_path(base, path),
    ensures
        lookup(merged(base, loader), path) == lookup(base, path),
{
    let all = base + loader + seq![client_library()];
    lemma_first_wins_keeps_first(all, path);
    lemma_lookup_concat(base + loader, seq![client_library()], path);
    lemma_lookup_concat(base, loader, path);
    lemma_lookup_finds(base, path);
}

/// A path that only the loader lists has the loader's entry in the merged
/// set.
pub proof fn lemma_loader_entry_added(
    base: Seq<PlacedLibrary>,
    loader: Seq<PlacedLibrary>,
    path: Seq<char>,
)
    requires
        !has_path(base, path),
        has_path(loader, path),
    ensures
        lookup(merged(base, loader), path) == lookup(loader, path),
{
    let all = base + loader + seq![client_library()];
    lemma_first_wins_keeps_first(all, path);
    lemma_lookup_concat(base + loader, seq![client_library()], path);
    lemma_lookup_concat(base, loader, path);
    lemma_lookup_finds(base, path);
    lemma_lookup_finds(loader, path);
}

/// The merged set holds no path twice, and it holds an entry for the client
/// file. That entry is the one that applies to all platforms unless a source
/// lists the client file's path itself: then the first such entry stays.
pub proof fn lemma_merged_has_client(base: Seq<PlacedLibrary>, loader: Seq<PlacedLibrary>)
    ensures
        unique_paths(merged(base, loader)),
        has_path(merged(base, loader), client_path()),
        !has_path(base + loader, client_path()) ==> lookup(merged(base, loader), client_path())
            == Some(client_library()),
        has_path(base + loader, client_path()) ==> lookup(merged(base, loader), client_path())
            == lookup(base + loader, client_path()),
{
    let tail = seq![client_library()];
    let all = base + loader + tail;
    lemma_first_wins_unique(all);
    lemma_first_wins_keeps_first(all, client_path());
    lemma_lookup_concat(base + loader, tail, client_path());
    lemma_lookup_finds(base + loader, client_path());
    lemma_lookup_finds(merged(base, loader), client_path());
    assert(tail.drop_first().len() == 0);
    assert(lookup(tail, client_path()) == Some(client_library()));
}

/// Whether `set` holds an entry with the install path `path`.
pub fn holds_path(set: &Vec<LibraryObject>, path: &String) -> (found: bool)
    ensures
        found == has_path(placed(set@), path@),
{
    let mut i: usize = 0;
    while i < set.len()
        invariant
            i <= set.len(),
            forall|k: int| 0 <= k < i ==> (#[trigger] placed(set@)[k]).install_path != path@,
        decreases set.len() - i,
    {
        if set[i].path == *path {
            assert(placed(set@)[i as int].install_path == path@);
            return true;
        }
        i += 1;
    }
    false
}

/// Adds `library` to `set` unless `set` already holds its path.
pub fn insert_library(set: &mut Vec<LibraryObject>, library: LibraryObject)
    ensures
        placed(final(set)@) == insert_first_wins(placed(old(set)@), library@),
{
    if !holds_path(set, &library.path) {
        set.push(library);
        assert(placed(set@) =~= placed(old(set)@).push(library@));
    }
}

/// Adds the entries of `source` to `set`, in order, each unless `set` already
/// holds its path.
pub fn insert_all(set: &mut Vec<LibraryObject>, source: Vec<LibraryObject>)
    ensures
        placed(final(set)@) == insert_each(placed(old(set)@), placed(source@)),
{
    let ghost from = placed(source@);
    for library in it: source
        invariant
            it.seq() == source@,
            from == placed(source@),
            placed(set@) == insert_each(placed(old(set)@), from.take(it.index())),
    {
        proof {
            let upto = from.take(it.index() + 1);
            assert(upto.drop_last() == from.take(it.index()));
            assert(upto.last() == library@);
        }
        insert_library(set, library);
    }
    proof {
        assert(from.take(source@.len() as int) == from);
    }
}

/// The entry for the base game's own client file.
pub fn client_entry() -> (entry: LibraryObject)
    ensures
        entry@ == client_library(),
{
    LibraryObject { path: "minecraft.jar".to_owned(), os: universal_platforms() }
}

/// Merges the base game's libraries and the loader's into one set without
/// repeated paths. The first entry for a path wins, base game before loader,
/// and the client file's entry is added if no source had one.
pub fn merge(base: Vec<LibraryObject>, loader: Vec<LibraryObject>) -> (set: Vec<LibraryObject>)
    ensures
        placed(set@) == merged(placed(base@), placed(loader@)),
        unique_paths(placed(set@)),
        has_path(placed(set@), client_path()),
{
    let mut set: Vec<LibraryObject> = Vec::new();
    let ghost b = placed(base@);
    let ghost l = placed(loader@);
    let ghost none = Seq::<PlacedLibrary>::empty();
    assert(placed(set@) == none);
    insert_all(&mut set, base);
    insert_all(&mut set, loader);
    let ghost sources = placed(set@);
    insert_library(&mut set, client_entry());
    proof {
        let tail = seq![client_library()];
        assert(tail.drop_last() == none);
        assert(insert_each(sources, none) == sources);
        assert(tail.last() == client_library());
        assert(insert_each(sources, tail) == insert_first_wins(sources, client_library()));
        lemma_insert_each_concat(none, b, l);
        lemma_insert_each_concat(none, b + l, tail);
        lemma_merged_has_client(b, l);
    }
    set
}

} // verus!
