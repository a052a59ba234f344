//! The installer-derived catalogs: a version descriptor that an installer
//! archive carries. Two loaders share this shape.
//!
//! A library of the descriptor counts only if it has a download section; the
//! others come with the installer itself. Its platforms are resolved from
//! its artifact's path, as for the base game; the descriptor has no rules.

use crate::error::{ManifestError, ManifestErrorView};
use crate::forgeinstaller::{ForgeClientManifest, ForgeLibrary};
use crate::manifest::{
    assemble, chain_records, document, well_formed, Resolution, ResolutionView,
};
use crate::maven::{install_path, resolve_maven, valid_coordinate};
use crate::mojang::BaseGame;
use crate::platform::{platforms, resolve_platforms};
use crate::types::{
    placed, records, texts, Libraries, LibraryObject, LibraryRecord, MojangLibraryRule,
    MojangResult, PlacedLibrary,
};
use vstd::prelude::*;

verus! {

/// Whether the library has a download section.
pub open spec fn has_download(library: ForgeLibrary) -> bool {
    library.downloads is Some
}

/// The manifest entry of a library with a download section.
pub open spec fn installer_entry(library: ForgeLibrary) -> PlacedLibrary {
    PlacedLibrary {
        install_path: install_path(library.name@),
        platforms: platforms(
            library.downloads->Some_0.artifact.path@,
            Seq::<MojangLibraryRule>::empty(),
        ),
    }
}

/// The record under which a library with a download section is fetched,
/// with no checksum known.
pub open spec fn installer_record(library: ForgeLibrary) -> LibraryRecord {
    LibraryRecord {
        coordinate: library.name@,
        source_url: library.downloads->Some_0.artifact.url@,
        content_hash: Some(Seq::<char>::empty()),
    }
}

/// The manifest entries of the libraries that have a download section, in
/// order.
pub open spec fn installer_entries(libraries: Seq<ForgeLibrary>) -> Seq<PlacedLibrary>
    decreases libraries.len(),
{
    if libraries.len() == 0 {
        Seq::<PlacedLibrary>::empty()
    } else if has_download(libraries.last()) {
        installer_entries(libraries.drop_last()).push(installer_entry(libraries.last()))
    } else {
        installer_entries(libraries.drop_last())
    }
}

/// The records of the libraries that have a download section, in order.
pub open spec fn installer_records(libraries: Seq<ForgeLibrary>) -> Seq<LibraryRecord>
    decreases libraries.len(),
{
    if libraries.len() == 0 {
        Seq::<LibraryRecord>::empty()
    } else if has_download(libraries.last()) {
        installer_records(libraries.drop_last()).push(installer_record(libraries.last()))
    } else {
        installer_records(libraries.drop_last())
    }
}

/// Whether library `at` has a download section and a malformed coordinate,
/// and no library before it has.
pub open spec fn is_first_malformed(libraries: Seq<ForgeLibrary>, at: int) -> bool {
    &&& 0 <= at < libraries.len()
    &&& has_download(libraries[at])
    &&& !valid_coordinate(libraries[at].name@)
    &&& forall|k: int|
        0 <= k < at && has_download(#[trigger] libraries[k]) ==> valid_coordinate(
            libraries[k].name@,
        )
}

/// Whether every library with a download section has a valid coordinate.
pub open spec fn coordinates_valid(libraries: Seq<ForgeLibrary>) -> bool {
    forall|k: int|
        0 <= k < libraries.len() && has_download(#[trigger] libraries[k]) ==> valid_coordinate(
            libraries[k].name@,
        )
}

/// What a run with an installer-derived loader resolves to.
pub open spec fn installer_resolution(
    base: BaseGame,
    descriptor: ForgeClientManifest,
) -> ResolutionView {
    ResolutionView {
        manifest: document(
            descriptor.mainClass@,
            base.asset_index,
            base.placed,
            installer_entries(descriptor.libraries@),
            texts(descriptor.arguments.jvm@),
            texts(descriptor.arguments.game@),
        ),
        downloads: base.libraries + installer_records(descriptor.libraries@),
    }
}

/// Builds the manifest and the fetch records of a run with an
/// installer-derived loader, from what the base game contributed and the
/// installer's descriptor. Fails on the first library with a download
/// section and a malformed coordinate.
pub fn resolve_installer(mojang_parsed: MojangResult, descriptor: ForgeClientManifest) -> (
    created: Result<Resolution, ManifestError>
)
    ensures
        match created {
            Ok(resolution) => {
                &&& coordinates_valid(descriptor.libraries@)
                &&& resolution@ == installer_resolution(mojang_parsed@, descriptor)
                &&& well_formed(resolution@.manifest)
            },
            Err(e) => exists|at: int|
                is_first_malformed(descriptor.libraries@, at) && e@
                    == ManifestErrorView::MalformedCoordinate(descriptor.libraries@[at].name@),
        },
{
    let mut entries: Vec<LibraryObject> = Vec::new();
    let mut fetched: Vec<Libraries> = Vec::new();
    let no_rules: Vec<MojangLibraryRule> = Vec::new();
    let ghost all = descriptor.libraries@;
    let mut i: usize = 0;
    while i < descriptor.libraries.len()
        invariant
            i <= descriptor.libraries.len(),
            all == descriptor.libraries@,
            no_rules@ == Seq::<MojangLibraryRule>::empty(),
            coordinates_valid(all.take(i as int)),
            placed(entries@) == installer_entries(all.take(i as int)),
            records(fetched@) == installer_records(all.take(i as int)),
        decreases descriptor.libraries.len() - i,
    {
        let library = &descriptor.libraries[i];
        proof {
            let upto = all.take(i + 1);
            assert(upto.drop_last() == all.take(i as int));
            assert(upto.last() == *library);
        }
        match &library.downloads {
            Some(downloads) => {
                let path = match resolve_maven(library.name.as_str()) {
                    Ok(path) => path,
                    Err(e) => {
                        assert(is_first_malformed(all, i as int)) by {
                            assert forall|k: int|
                                0 <= k < i && has_download(
                                    #[trigger] all[k],
                                ) implies valid_coordinate(all[k].name@) by {
                                assert(all.take(i as int)[k] == all[k]);
                            }
                        }
                        return Err(e);
                    },
                };
                let os = resolve_platforms(downloads.artifact.path.as_str(), &no_rules);
                let ghost entries_before = placed(entries@);
                let ghost fetched_before = records(fetched@);
                entries.push(LibraryObject { path, os });
                fetched.push(
                    Libraries {
                        name: library.name.clone(),
                        url: downloads.artifact.url.clone(),
                        sha1: Some(String::new()),
                    },
                );
                proof {
                    assert(placed(entries@) =~= entries_before.push(installer_entry(*library)));
                    assert(records(fetched@) =~= fetched_before.push(installer_record(*library)));
                }
            },
            None => {},
        }
        proof {
            assert forall|k: int|
                0 <= k < i + 1 && has_download(
                    #[trigger] all.take(i + 1)[k],
                ) implies valid_coordinate(all.take(i + 1)[k].name@) by {
                if k < i {
                    assert(all.take(i as int)[k] == all[k]);
                }
            }
        }
        i += 1;
    }
    proof {
        assert(all.take(all.len() as int) == all);
    }
    let manifest = assemble(
        descriptor.mainClass,
        mojang_parsed.asset_index,
        mojang_parsed.hash_libs,
        entries,
        descriptor.arguments.jvm,
        descriptor.arguments.game,
    );
    let downloads = chain_records(mojang_parsed.libraries, fetched);
    Ok(Resolution { manifest, downloads })
}

} // verus!
