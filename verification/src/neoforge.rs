//! Runs with the NeoForge loader, whose catalog is its installer's descriptor.

use crate::error::{ManifestError, ManifestErrorView};
use crate::forgeinstaller::ForgeClientManifest;
use crate::installer::{
    coordinates_valid, installer_resolution, is_first_malformed, resolve_installer,
};
use crate::manifest::{well_formed, Resolution};
use crate::types::MojangResult;
use vstd::prelude::*;

verus! {

/// Builds the manifest and the fetch records of a run with NeoForge, from
/// what the base game contributed and the descriptor of NeoForge's
/// installer. Fails on the first library with a download section and a
/// malformed coordinate.
pub fn create_neoforge_manifest(
    mojang_parsed: MojangResult,
    neoforge_manifest: ForgeClientManifest,
) -> (created: Result<Resolution, ManifestError>)
    ensures
        match created {
            Ok(resolution) => {
                &&& coordinates_valid(neoforge_manifest.libraries@)
                &&& resolution@ == installer_resolution(mojang_parsed@, neoforge_manifest)
                &&& well_formed(resolution@.manifest)
            },
            Err(e) => exists|at: int|
                is_first_malformed(neoforge_manifest.libraries@, at) && e@
                    == ManifestErrorView::MalformedCoordinate(
                    neoforge_manifest.libraries@[at].name@,
                ),
        },
{
    resolve_installer(mojang_parsed, neoforge_manifest)
}

} // verus!
