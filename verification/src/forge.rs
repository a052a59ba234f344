//! Runs with the Forge loader, whose catalog is its installer's descriptor.

use crate::error::{ManifestError, ManifestErrorView};
use crate::forgeinstaller::ForgeClientManifest;
use crate::installer::{
    coordinates_valid, installer_resolution, is_first_malformed, resolve_installer,
};
use crate::manifest::{well_formed, Resolution};
use crate::types::MojangResult;
use vstd::prelude::*;

verus! {

/// Builds the manifest and the fetch records of a run with Forge, from what
/// the base game contributed and the descriptor of Forge's installer. Fails
/// on the first library with a download section and a malformed coordinate.
pub fn create_forge_manifest(mojang_parsed: MojangResult, forge_manifest: ForgeClientManifest) -> (
    created: Result<Resolution, ManifestError>
)
    ensures
        match created {
            Ok(resolution) => {
                &&& coordinates_valid(forge_manifest.libraries@)
                &&& resolution@ == installer_resolution(mojang_parsed@, forge_manifest)
                &&& well_formed(resolution@.manifest)
            },
            Err(e) => exists|at: int|
                is_first_malformed(forge_manifest.libraries@, at) && e@
                    == ManifestErrorView::MalformedCoordinate(forge_manifest.libraries@[at].name@),
        },
{
    resolve_installer(mojang_parsed, forge_manifest)
}

} // verus!
