//! Putting a manifest together from what the sources gave.

use crate::merge::{
    client_path, has_path, lemma_merged_has_client, merge, merged, unique_paths,
};
use crate::types::{
    placed, records, texts, Libraries, LibraryObject, LibraryRecord, ManifestDocument, NekoManifest,
    PlacedLibrary,
};
use crate::utils::{
    baseline_jvm_args, default_jvm_args, ignore_list, ignored_files, verified_subtrees, verify_list,
};
use vstd::prelude::*;

verus! {

/// The outcome of resolving one run: the manifest, and the records of the
/// files to fetch, the base game's before the loader's.
#[derive(Clone, Debug, PartialEq, Eq)]
pub struct Resolution {
    pub manifest: NekoManifest,
    pub downloads: Vec<Libraries>,
}

/// A `Resolution` with its texts as character sequences.
pub struct ResolutionView {
    pub manifest: ManifestDocument,
    pub downloads: Seq<LibraryRecord>,
}

impl View for Resolution {
    type V = ResolutionView;

    open spec fn view(&self) -> ResolutionView {
        ResolutionView { manifest: self.manifest@, downloads: records(self.downloads@) }
    }
}

/// The manifest of a run: the loader's main class and game arguments, the
/// base game's asset index, the merged library set, and the baseline
/// arguments of the Java machine followed by the loader's.
pub open spec fn document(
    main_class: Seq<char>,
    asset_index: Seq<char>,
    base: Seq<PlacedLibrary>,
    loader: Seq<PlacedLibrary>,
    loader_jvm: Seq<Seq<char>>,
    game: Seq<Seq<char>>,
) -> ManifestDocument {
    ManifestDocument {
        main_class,
        asset_index_id: asset_index,
        libraries: merged(base, loader),
        jvm: baseline_jvm_args() + loader_jvm,
        game,
        verify: verified_subtrees(),
        ignore: ignored_files(),
    }
}

/// What holds of every manifest that is built here: its library set holds
/// no path twice and holds the client file, its arguments for the Java
/// machine begin with the baseline, and its two fixed lists are the fixed
/// lists.
pub open spec fn well_formed(manifest: ManifestDocument) -> bool {
    &&& unique_paths(manifest.libraries)
    &&& has_path(manifest.libraries, client_path())
    &&& baseline_jvm_args().is_prefix_of(manifest.jvm)
    &&& manifest.verify == verified_subtrees()
    &&& manifest.ignore == ignored_files()
}

/// Whatever the sources gave, the manifest of a run is well formed.
pub proof fn lemma_document_well_formed(
    main_class: Seq<char>,
    asset_index: Seq<char>,
    base: Seq<PlacedLibrary>,
    loader: Seq<PlacedLibrary>,
    loader_jvm: Seq<Seq<char>>,
    game: Seq<Seq<char>>,
)
    ensures
        well_formed(document(main_class, asset_index, base, loader, loader_jvm, game)),
{
    lemma_merged_has_client(base, loader);
    let jvm = baseline_jvm_args() + loader_jvm;
    assert(jvm.subrange(0, baseline_jvm_args().len() as int) =~= baseline_jvm_args());
}

/// Builds the manifest of a run. Its library set holds no path twice and
/// holds the client file.
pub fn assemble(
    main_class: String,
    asset_index: String,
    base: Vec<LibraryObject>,
    loader: Vec<LibraryObject>,
    loader_jvm: Vec<String>,
    game: Vec<String>,
) -> (manifest: NekoManifest)
    ensures
        manifest@ == document(
            main_class@,
            asset_index@,
            placed(base@),
            placed(loader@),
            texts(loader_jvm@),
            texts(game@),
        ),
        well_formed(manifest@),
{
    proof {
        lemma_document_well_formed(
            main_class@,
            asset_index@,
            placed(base@),
            placed(loader@),
            texts(loader_jvm@),
            texts(game@),
        );
    }
    let libraries = merge(base, loader);
    let mut jvm = default_jvm_args();
    let mut more = loader_jvm;
    let ghost baseline = jvm@;
    jvm.append(&mut more);
    proof {
        assert(texts(jvm@) =~= texts(baseline) + texts(loader_jvm@));
    }
    NekoManifest {
        mainclass: main_class,
        assetIndex: asset_index,
        libraries,
        jvm,
        game,
        verify: verify_list(),
        ignore: ignore_list(),
    }
}

/// The records of two sources, one after the other.
pub fn chain_records(first: Vec<Libraries>, second: Vec<Libraries>) -> (all: Vec<Libraries>)
    ensures
        records(all@) == records(first@) + records(second@),
{
    let mut all = first;
    let mut rest = second;
    all.append(&mut rest);
    proof {
        assert(records(all@) =~= records(first@) + records(second@));
    }
    all
}

} // verus!
