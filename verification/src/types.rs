//! The documents that the upstream catalogs serve, and the manifest that is
//! built from them.

use vstd::prelude::*;

verus! {

/// An operating system that a library may apply to.
#[derive(Clone, Copy, Debug, PartialEq, Eq, Structural, Hash)]
pub enum OsType {
    MacOs,
    Windows,
    Linux,
}

/// One fetchable artifact: its coordinate, where it is served, and its
/// checksum where the catalog gives one.
#[derive(Clone, Debug, PartialEq, Eq)]
pub struct Libraries {
    pub name: String,
    pub url: String,
    pub sha1: Option<String>,
}

/// A `Libraries` record with its texts as character sequences.
pub struct LibraryRecord {
    pub coordinate: Seq<char>,
    pub source_url: Seq<char>,
    pub content_hash: Option<Seq<char>>,
}

impl View for Libraries {
    type V = LibraryRecord;

    open spec fn view(&self) -> LibraryRecord {
        LibraryRecord {
            coordinate: self.name@,
            source_url: self.url@,
            content_hash: match self.sha1 {
                Some(hash) => Some(hash@),
                None => None,
            },
        }
    }
}

/// A file of the client and the platforms it applies to. Within a manifest
/// the path identifies the entry.
#[derive(Clone, Debug, PartialEq, Eq)]
pub struct LibraryObject {
    pub path: String,
    pub os: Vec<OsType>,
}

/// A `LibraryObject` with its path as a character sequence.
pub struct PlacedLibrary {
    pub install_path: Seq<char>,
    pub platforms: Seq<OsType>,
}

impl View for LibraryObject {
    type V = PlacedLibrary;

    open spec fn view(&self) -> PlacedLibrary {
        PlacedLibrary { install_path: self.path@, platforms: self.os@ }
    }
}

/// The views of a list of placed libraries, in order.
pub open spec fn placed(libraries: Seq<LibraryObject>) -> Seq<PlacedLibrary> {
    Seq::new(libraries.len(), |i: int| libraries[i]@)
}

/// The views of a list of library records, in order.
pub open spec fn records(libraries: Seq<Libraries>) -> Seq<LibraryRecord> {
    Seq::new(libraries.len(), |i: int| libraries[i]@)
}

/// The texts of a list of strings, in order.
pub open spec fn texts(strings: Seq<String>) -> Seq<Seq<char>> {
    Seq::new(strings.len(), |i: int| strings[i]@)
}

/// What the base-game catalog contributes to a run.
#[derive(Clone, Debug, PartialEq, Eq)]
pub struct MojangResult {
    pub libraries: Vec<Libraries>,
    pub hash_libs: Vec<LibraryObject>,
    pub asset_index: String,
}

/// The index of all known versions of the base game.
#[derive(Clone, Debug, PartialEq, Eq)]
pub struct MojangVersionManifest {
    pub versions: Vec<MojangVersions>,
}

/// One entry of the version index: a version's id and the address of its
/// descriptor.
#[derive(Clone, Debug, PartialEq, Eq)]
pub struct MojangVersions {
    pub id: String,
    pub url: String,
}

/// The profile that a Fabric-style catalog serves for one loader version.
#[allow(non_snake_case)]
#[derive(Clone, Debug, PartialEq, Eq)]
pub struct FabricManifest {
    pub mainClass: String,
    pub arguments: FabricArguments,
    pub libraries: Vec<FabricLibraries>,
}

#[derive(Clone, Debug, PartialEq, Eq)]
pub struct FabricArguments {
    pub game: Vec<String>,
    pub jvm: Vec<String>,
}

/// A library of a Fabric-style profile; `url` is the repository's base.
#[derive(Clone, Debug, PartialEq, Eq)]
pub struct FabricLibraries {
    pub name: String,
    pub url: String,
    pub sha1: Option<String>,
}

/// The descriptor of one version of the base game.
#[allow(non_snake_case)]
#[derive(Clone, Debug, PartialEq, Eq)]
pub struct MojangClientManifest {
    pub assetIndex: MojangAssetIndex,
    pub libraries: Vec<MojangLibrary>,
    pub downloads: MojangDownloads,
}

#[derive(Clone, Debug, PartialEq, Eq)]
pub struct MojangAssetIndex {
    pub id: String,
}

#[derive(Clone, Debug, PartialEq, Eq)]
pub struct MojangLibrary {
    pub downloads: MojangLibraryDownloads,
    pub name: String,
    pub rules: Option<Vec<MojangLibraryRule>>,
}

#[derive(Clone, Debug, PartialEq, Eq)]
pub struct MojangLibraryDownloads {
    pub artifact: MojangArtifact,
}

/// A rule of a library: an action, `allow` or `disallow`, and the platform
/// it names.
#[derive(Clone, Debug, PartialEq, Eq)]
pub struct MojangLibraryRule {
    pub action: String,
    pub os: MojangOs,
}

#[derive(Clone, Debug, PartialEq, Eq)]
pub struct MojangOs {
    pub name: OsType,
}

#[derive(Clone, Debug, PartialEq, Eq)]
pub struct MojangArtifact {
    pub path: Option<String>,
    pub sha1: String,
    pub url: String,
}

#[derive(Clone, Debug, PartialEq, Eq)]
pub struct MojangDownloads {
    pub client: MojangArtifact,
    pub client_mappings: MojangArtifact,
}

/// The finished manifest. `libraries` holds no path twice.
#[allow(non_snake_case)]
#[derive(Clone, Debug, PartialEq, Eq)]
pub struct NekoManifest {
    pub mainclass: String,
    pub assetIndex: String,
    pub libraries: Vec<LibraryObject>,
    pub jvm: Vec<String>,
    pub game: Vec<String>,
    pub verify: Vec<String>,
    pub ignore: Vec<String>,
}

/// A `NekoManifest` with its texts as character sequences.
pub struct ManifestDocument {
    pub main_class: Seq<char>,
    pub asset_index_id: Seq<char>,
    pub libraries: Seq<PlacedLibrary>,
    pub jvm: Seq<Seq<char>>,
    pub game: Seq<Seq<char>>,
    pub verify: Seq<Seq<char>>,
    pub ignore: Seq<Seq<char>>,
}

impl View for NekoManifest {
    type V = ManifestDocument;

    open spec fn view(&self) -> ManifestDocument {
        ManifestDocument {
            main_class: self.mainclass@,
            asset_index_id: self.assetIndex@,
            libraries: placed(self.libraries@),
            jvm: texts(self.jvm@),
            game: texts(self.game@),
            verify: texts(self.verify@),
            ignore: texts(self.ignore@),
        }
    }
}

/// The catalog of Java runtimes, by platform.
#[derive(Clone, Debug, PartialEq, Eq)]
pub struct JavaRuntime {
    pub linux: PlatformVersions,
    pub mac_os: PlatformVersions,
    pub mac_os_arm64: PlatformVersions,
    pub windows_x64: PlatformVersions,
    pub windows_arm64: PlatformVersions,
}

/// The runtimes offered for one platform, by component.
#[derive(Clone, Debug, PartialEq, Eq)]
pub struct PlatformVersions {
    pub java_runtime_alpha: Vec<VersionDetails>,
    pub java_runtime_beta: Vec<VersionDetails>,
    pub java_runtime_delta: Vec<VersionDetails>,
    pub java_runtime_gamma: Vec<VersionDetails>,
    pub java_runtime_gamma_snapshot: Vec<VersionDetails>,
    pub jre_legacy: Vec<VersionDetails>,
    pub minecraft_java_exe: Vec<VersionDetails>,
}

#[derive(Clone, Debug, PartialEq, Eq)]
pub struct VersionDetails {
    pub availability: Availability,
    pub manifest: Manifest,
    pub version: Version,
}

#[derive(Clone, Debug, PartialEq, Eq)]
pub struct Availability {
    pub group: u32,
    pub progress: u32,
}

/// Where the file list of one runtime is served.
#[derive(Clone, Debug, PartialEq, Eq)]
pub struct Manifest {
    pub sha1: String,
    pub size: u32,
    pub url: String,
}

#[derive(Clone, Debug, PartialEq, Eq)]
pub struct Version {
    pub name: String,
    pub released: String,
}

/// The file list of one runtime: each entry's relative path and what it is,
/// in the order in which they are to be handled.
#[derive(Clone, Debug, PartialEq, Eq)]
pub struct SelectedJavaManifest {
    pub files: Vec<(String, FileEntry)>,
}

/// One entry of a runtime's file list.
#[derive(Clone, Debug, PartialEq, Eq)]
pub enum FileEntry {
    Directory,
    File { downloads: DownloadVariants, executable: bool },
    Ignored,
}

#[derive(Clone, Debug, PartialEq, Eq)]
pub struct DownloadVariants {
    pub lzma: Option<DownloadInfo>,
    pub raw: DownloadInfo,
}

#[derive(Clone, Debug, PartialEq, Eq)]
pub struct DownloadInfo {
    pub sha1: String,
    pub size: u64,
    pub url: String,
}

} // verus!
