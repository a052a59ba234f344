//! The Fabric-style catalog: a loader profile whose libraries apply to every
//! platform and are served from a repository named per library.

use crate::error::{ManifestError, ManifestErrorView};
use crate::manifest::{
    assemble, chain_records, document, well_formed, Resolution, ResolutionView,
};
use crate::maven::{install_path, resolve_maven, valid_coordinate};
use crate::mojang::BaseGame;
use crate::platform::{all_platforms, universal_platforms};
use crate::text::{chars_of, push_text, string_of, text_after};
use crate::types::{
    placed, records, texts, FabricLibraries, FabricManifest, Libraries, LibraryObject,
    LibraryRecord, MojangResult, PlacedLibrary,
};
use vstd::prelude::*;

verus! {

/// The manifest entry of a profile's library: its coordinate's install path,
/// on all platforms.
pub open spec fn fabric_entry(library: FabricLibraries) -> PlacedLibrary {
    PlacedLibrary { install_path: install_path(library.name@), platforms: all_platforms() }
}

/// The record under which a profile's library is fetched: from the
/// library's repository, at its install path, with no checksum known.
pub open spec fn fabric_record(library: FabricLibraries) -> LibraryRecord {
    LibraryRecord {
        coordinate: library.name@,
        source_url: library.url@ + install_path(library.name@),
        content_hash: Some(Seq::<char>::empty()),
    }
}

/// The manifest entries of a profile's libraries, in order.
pub open spec fn fabric_entries(libraries: Seq<FabricLibraries>) -> Seq<PlacedLibrary> {
    Seq::new(libraries.len(), |i: int| fabric_entry(libraries[i]))
}

/// The records of a profile's libraries, in order.
pub open spec fn fabric_records(libraries: Seq<FabricLibraries>) -> Seq<LibraryRecord> {
    Seq::new(libraries.len(), |i: int| fabric_record(libraries[i]))
}

/// Whether library `at` of the profile is the first with a malformed
/// coordinate.
pub open spec fn is_first_malformed(libraries: Seq<FabricLibraries>, at: int) -> bool {
    &&& 0 <= at < libraries.len()
    &&& !valid_coordinate(libraries[at].name@)
    &&& forall|k: int| 0 <= k < at ==> valid_coordinate((#[trigger] libraries[k]).name@)
}

/// Whether every library of the profile has a valid coordinate.
pub open spec fn coordinates_valid(libraries: Seq<FabricLibraries>) -> bool {
    forall|k: int| 0 <= k < libraries.len() ==> valid_coordinate((#[trigger] libraries[k]).name@)
}

/// What a run with a Fabric-style loader resolves to.
pub open spec fn fabric_resolution(base: BaseGame, profile: FabricManifest) -> ResolutionView {
    ResolutionView {
        manifest: document(
            profile.mainClass@,
            base.asset_index,
            base.placed,
            fabric_entries(profile.libraries@),
            texts(profile.arguments.jvm@),
            texts(profile.arguments.game@),
        ),
        downloads: base.libraries + fabric_records(profile.libraries@),
    }
}

/// Where the profile of a loader version is served for a game version.
pub open spec fn profile_address(mc_version: Seq<char>, fabric_version: Seq<char>) -> Seq<char> {
    "https://meta.fabricmc.net/v2/versions/loader/"@ + mc_version + "/"@ + fabric_version
        + "/profile/json"@
}

/// The address of the profile of a loader version for a game version.
pub fn profile_url(mc_version: &str, fabric_version: &str) -> (url: String)
    ensures
        url@ == profile_address(mc_version@, fabric_version@),
{
    let mut url = chars_of("https://meta.fabricmc.net/v2/versions/loader/");
    push_text(&mut url, mc_version);
    push_text(&mut url, "/");
    push_text(&mut url, fabric_version);
    push_text(&mut url, "/profile/json");
    string_of(&url)
}

/// Builds the manifest and the fetch records of a run with a Fabric-style
/// loader, from what the base game contributed and the loader's profile.
/// Fails on the first library of the profile with a malformed coordinate.
pub fn create_fabric_manifest(mojang_parsed: MojangResult, fabric_manifest: FabricManifest) -> (
    created: Result<Resolution, ManifestError>
)
    ensures
        match created {
            Ok(resolution) => {
                &&& coordinates_valid(fabric_manifest.libraries@)
                &&& resolution@ == fabric_resolution(mojang_parsed@, fabric_manifest)
                &&& well_formed(resolution@.manifest)
            },
            Err(e) => exists|at: int|
                is_first_malformed(fabric_manifest.libraries@, at) && e@
                    == ManifestErrorView::MalformedCoordinate(
                    fabric_manifest.libraries@[at].name@,
                ),
        },
{
    let mut entries: Vec<LibraryObject> = Vec::new();
    let mut fetched: Vec<Libraries> = Vec::new();
    let ghost all = fabric_manifest.libraries@;
    let mut i: usize = 0;
    while i < fabric_manifest.libraries.len()
        invariant
            i <= fabric_manifest.libraries.len(),
            all == fabric_manifest.libraries@,
            forall|k: int| 0 <= k < i ==> valid_coordinate((#[trigger] all[k]).name@),
            placed(entries@) == Seq::new(i as nat, |k: int| fabric_entry(all[k])),
            records(fetched@) == Seq::new(i as nat, |k: int| fabric_record(all[k])),
        decreases fabric_manifest.libraries.len() - i,
    {
        let library = &fabric_manifest.libraries[i];
        let path = match resolve_maven(library.name.as_str()) {
            Ok(path) => path,
            Err(e) => {
                assert(is_first_malformed(all, i as int));
                return Err(e);
            },
        };
        let url = text_after(library.url.as_str(), path.as_str());
        let ghost entries_before = placed(entries@);
        let ghost fetched_before = records(fetched@);
        entries.push(LibraryObject { path, os: universal_platforms() });
        fetched.push(Libraries { name: library.name.clone(), url, sha1: Some(String::new()) });
        proof {
            assert(placed(entries@) =~= entries_before.push(fabric_entry(*library)));
            assert(records(fetched@) =~= fetched_before.push(fabric_record(*library)));
            assert(placed(entries@) =~= Seq::new((i + 1) as nat, |k: int| fabric_entry(all[k])));
            assert(records(fetched@) =~= Seq::new((i + 1) as nat, |k: int| fabric_record(all[k])));
        }
        i += 1;
    }
    let manifest = assemble(
        fabric_manifest.mainClass,
        mojang_parsed.asset_index,
        mojang_parsed.hash_libs,
        entries,
        fabric_manifest.arguments.jvm,
        fabric_manifest.arguments.game,
    );
    let downloads = chain_records(mojang_parsed.libraries, fetched);
    Ok(Resolution { manifest, downloads })
}

} // verus!
