//! The version descriptor that an installer archive carries.

use vstd::prelude::*;

verus! {

/// The descriptor embedded in an installer archive.
#[allow(non_snake_case)]
#[derive(Clone, Debug, PartialEq, Eq)]
pub struct ForgeClientManifest {
    pub id: String,
    pub inheritsFrom: String,
    pub mainClass: String,
    pub libraries: Vec<ForgeLibrary>,
    pub arguments: ForgeArguments,
}

#[derive(Clone, Debug, PartialEq, Eq)]
pub struct ForgeArguments {
    pub game: Vec<String>,
    pub jvm: Vec<String>,
}

/// A library of the descriptor. One without a download section is provided
/// by the installer itself.
#[derive(Clone, Debug, PartialEq, Eq)]
pub struct ForgeLibrary {
    pub name: String,
    pub downloads: Option<ForgeLibraryDownloads>,
}

#[derive(Clone, Debug, PartialEq, Eq)]
pub struct ForgeLibraryDownloads {
    pub artifact: ForgeArtifact,
}

#[derive(Clone, Debug, PartialEq, Eq)]
pub struct ForgeArtifact {
    pub path: String,
    pub url: String,
    pub sha1: String,
    pub size: Option<u64>,
}

} // verus!
