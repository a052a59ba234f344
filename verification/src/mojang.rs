//! The base game's catalog: the version index and a version's descriptor.

use crate::error::{ManifestError, ManifestErrorView};
use crate::maven::{install_path, resolve_maven, valid_coordinate};
use crate::merge::{
    client_entry, client_library, client_path, insert_each, insert_library,
    lemma_insert_each_extends, lemma_insert_each_unique, unique_paths,
};
use crate::platform::{platforms, resolve_platforms};
use crate::text::same_text;
use crate::types::{
    placed, records, Libraries, LibraryObject, LibraryRecord, MojangClientManifest, MojangLibrary,
    MojangLibraryRule, MojangResult, MojangVersionManifest, MojangVersions, PlacedLibrary,
};
use vstd::prelude::*;

verus! {

/// A `MojangResult` with its texts as character sequences.
pub struct BaseGame {
    pub libraries: Seq<LibraryRecord>,
    pub placed: Seq<PlacedLibrary>,
    pub asset_index: Seq<char>,
}

impl View for MojangResult {
    type V = BaseGame;

    open spec fn view(&self) -> BaseGame {
        BaseGame {
            libraries: records(self.libraries@),
            placed: placed(self.hash_libs@),
            asset_index: self.asset_index@,
        }
    }
}

/// Whether entry `at` of the index is the first with the id `id`.
pub open spec fn is_first_match(versions: Seq<MojangVersions>, id: Seq<char>, at: int) -> bool {
    &&& 0 <= at < versions.len()
    &&& versions[at].id@ == id
    &&& forall|k: int| 0 <= k < at ==> (#[trigger] versions[k]).id@ != id
}

/// Whether the index lists the id `id`.
pub open spec fn lists_version(versions: Seq<MojangVersions>, id: Seq<char>) -> bool {
    exists|at: int| 0 <= at < versions.len() && (#[trigger] versions[at]).id@ == id
}

/// Looks up a version of the base game by its exact id. Where the index
/// lists the id more than once, the first entry is taken.
pub fn find_version<'a>(index: &'a MojangVersionManifest, game_version: &str) -> (found: Result<
    &'a MojangVersions,
    ManifestError,
>)
    ensures
        match found {
            Ok(entry) => exists|at: int|
                is_first_match(index.versions@, game_version@, at) && *entry
                    == index.versions@[at],
            Err(e) => !lists_version(index.versions@, game_version@) && e@
                == ManifestErrorView::VersionNotFound(game_version@),
        },
{
    let mut i: usize = 0;
    while i < index.versions.len()
        invariant
            i <= index.versions.len(),
            forall|k: int| 0 <= k < i ==> (#[trigger] index.versions@[k]).id@ != game_version@,
        decreases index.versions.len() - i,
    {
        if same_text(index.versions[i].id.as_str(), game_version) {
            assert(is_first_match(index.versions@, game_version@, i as int));
            return Ok(&index.versions[i]);
        }
        i += 1;
    }
    Err(ManifestError::VersionNotFound(game_version.to_owned()))
}

/// The rules of a library; a library without a rule list has none.
pub open spec fn rules_of(library: MojangLibrary) -> Seq<MojangLibraryRule> {
    match library.rules {
        Some(rules) => rules@,
        None => Seq::<MojangLibraryRule>::empty(),
    }
}

/// Whether the library has a file of its own: its artifact names a path.
pub open spec fn is_placed(library: MojangLibrary) -> bool {
    library.downloads.artifact.path is Some
}

/// The manifest entry of a library that has a file: its coordinate's install
/// path, and the platforms that its rules and its artifact's path leave.
pub open spec fn base_entry(library: MojangLibrary) -> PlacedLibrary {
    PlacedLibrary {
        install_path: install_path(library.name@),
        platforms: platforms(library.downloads.artifact.path->Some_0@, rules_of(library)),
    }
}

/// The manifest entries of the libraries that have a file, in order.
pub open spec fn base_entries(libraries: Seq<MojangLibrary>) -> Seq<PlacedLibrary>
    decreases libraries.len(),
{
    if libraries.len() == 0 {
        Seq::<PlacedLibrary>::empty()
    } else if is_placed(libraries.last()) {
        base_entries(libraries.drop_last()).push(base_entry(libraries.last()))
    } else {
        base_entries(libraries.drop_last())
    }
}

/// The record under which a library is fetched.
pub open spec fn base_record(library: MojangLibrary) -> LibraryRecord {
    LibraryRecord {
        coordinate: library.name@,
        source_url: library.downloads.artifact.url@,
        content_hash: Some(library.downloads.artifact.sha1@),
    }
}

/// The record under which the base game's own client file is fetched. It is
/// named by its file name, not by a coordinate.
pub open spec fn client_record(manifest: MojangClientManifest) -> LibraryRecord {
    LibraryRecord {
        coordinate: client_path(),
        source_url: manifest.downloads.client.url@,
        content_hash: Some(manifest.downloads.client.sha1@),
    }
}

/// Whether library `at` has a file and a malformed coordinate, and no library
/// before it has.
pub open spec fn is_first_malformed(libraries: Seq<MojangLibrary>, at: int) -> bool {
    &&& 0 <= at < libraries.len()
    &&& is_placed(libraries[at])
    &&& !valid_coordinate(libraries[at].name@)
    &&& forall|k: int|
        0 <= k < at && is_placed(#[trigger] libraries[k]) ==> valid_coordinate(libraries[k].name@)
}

/// Whether every library that has a file has a valid coordinate.
pub open spec fn coordinates_valid(libraries: Seq<MojangLibrary>) -> bool {
    forall|k: int|
        0 <= k < libraries.len() && is_placed(#[trigger] libraries[k]) ==> valid_coordinate(
            libraries[k].name@,
        )
}

/// What a descriptor contributes: a record for every library and one for the
/// client file; the client file's entry and then the entry of every library
/// that has a file, each path once, the first one staying; and the id of the
/// asset index.
pub open spec fn base_game(manifest: MojangClientManifest) -> BaseGame {
    BaseGame {
        libraries: Seq::new(
            manifest.libraries@.len(),
            |i: int| base_record(manifest.libraries@[i]),
        ).push(client_record(manifest)),
        placed: insert_each(seq![client_library()], base_entries(manifest.libraries@)),
        asset_index: manifest.assetIndex.id@,
    }
}

/// The manifest entry of one library of the descriptor, or the error for its
/// coordinate.
fn place_library(library: &MojangLibrary, path: &String) -> (entry: Result<
    LibraryObject,
    ManifestError,
>)
    requires
        library.downloads.artifact.path == Some(*path),
    ensures
        match entry {
            Ok(object) => valid_coordinate(library.name@) && object@ == base_entry(*library),
            Err(e) => !valid_coordinate(library.name@) && e@
                == ManifestErrorView::MalformedCoordinate(library.name@),
        },
{
    let resolved = match resolve_maven(library.name.as_str()) {
        Ok(resolved) => resolved,
        Err(e) => {
            return Err(e);
        },
    };
    let os = match &library.rules {
        Some(rules) => resolve_platforms(path.as_str(), rules),
        None => {
            let none: Vec<MojangLibraryRule> = Vec::new();
            resolve_platforms(path.as_str(), &none)
        },
    };
    Ok(LibraryObject { path: resolved, os })
}

/// Reads a version's descriptor: the records to fetch, the manifest entries
/// with their platforms, and the asset index id. Fails on the first library
/// that has a file and a malformed coordinate.
pub fn parse_mojang(manifest: &MojangClientManifest) -> (parsed: Result<
    MojangResult,
    ManifestError,
>)
    ensures
        match parsed {
            Ok(result) => {
                &&& coordinates_valid(manifest.libraries@)
                &&& result@ == base_game(*manifest)
                &&& unique_paths(result@.placed)
                &&& result@.placed.len() > 0
                &&& result@.placed[0] == client_library()
            },
            Err(e) => exists|at: int|
                is_first_malformed(manifest.libraries@, at) && e@
                    == ManifestErrorView::MalformedCoordinate(manifest.libraries@[at].name@),
        },
{
    let mut hash_libs: Vec<LibraryObject> = Vec::new();
    hash_libs.push(client_entry());
    assert(placed(hash_libs@) =~= seq![client_library()]);
    let mut libraries: Vec<Libraries> = Vec::new();
    let ghost all = manifest.libraries@;
    let mut i: usize = 0;
    while i < manifest.libraries.len()
        invariant
            i <= manifest.libraries.len(),
            all == manifest.libraries@,
            coordinates_valid(all.take(i as int)),
            placed(hash_libs@) == insert_each(
                seq![client_library()],
                base_entries(all.take(i as int)),
            ),
            records(libraries@) == Seq::new(i as nat, |k: int| base_record(all[k])),
        decreases manifest.libraries.len() - i,
    {
        let library = &manifest.libraries[i];
        proof {
            let upto = all.take(i + 1);
            assert(upto.drop_last() == all.take(i as int));
            assert(upto.last() == *library);
        }
        match &library.downloads.artifact.path {
            Some(path) => {
                match place_library(library, path) {
                    Ok(object) => {
                        proof {
                            let entries = base_entries(all.take(i as int));
                            let grown = entries.push(object@);
                            assert(grown.drop_last() == entries);
                            assert(grown.last() == object@);
                            assert(base_entries(all.take(i + 1)) == grown);
                        }
                        insert_library(&mut hash_libs, object);
                    },
                    Err(e) => {
                        assert(is_first_malformed(all, i as int)) by {
                            assert forall|k: int|
                                0 <= k < i && is_placed(#[trigger] all[k]) implies valid_coordinate(
                                all[k].name@,
                            ) by {
                                assert(all.take(i as int)[k] == all[k]);
                            }
                        }
                        return Err(e);
                    },
                }
            },
            None => {
                assert(base_entries(all.take(i + 1)) == base_entries(all.take(i as int)));
            },
        }
        let ghost before = records(libraries@);
        libraries.push(
            Libraries {
                name: library.name.clone(),
                url: library.downloads.artifact.url.clone(),
                sha1: Some(library.downloads.artifact.sha1.clone()),
            },
        );
        proof {
            assert(records(libraries@) =~= before.push(base_record(*library)));
            assert(records(libraries@) =~= Seq::new((i + 1) as nat, |k: int| base_record(all[k])));
            assert forall|k: int|
                0 <= k < i + 1 && is_placed(#[trigger] all.take(i + 1)[k]) implies valid_coordinate(
                all.take(i + 1)[k].name@,
            ) by {
                if k < i {
                    assert(all.take(i as int)[k] == all[k]);
                }
            }
        }
        i += 1;
    }
    let ghost before = records(libraries@);
    libraries.push(
        Libraries {
            name: "minecraft.jar".to_owned(),
            url: manifest.downloads.client.url.clone(),
            sha1: Some(manifest.downloads.client.sha1.clone()),
        },
    );
    proof {
        assert(all.take(all.len() as int) == all);
        assert(records(libraries@) =~= before.push(client_record(*manifest)));
        let first = seq![client_library()];
        lemma_insert_each_unique(first, base_entries(all));
        lemma_insert_each_extends(first, base_entries(all));
        assert(placed(hash_libs@).take(1)[0] == first[0]);
    }
    Ok(MojangResult { libraries, hash_libs, asset_index: manifest.assetIndex.id.clone() })
}

} // verus!
