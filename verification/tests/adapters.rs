use neko_manifest::error::ManifestError;
use neko_manifest::fabric::{create_fabric_manifest, profile_url};
use neko_manifest::forge::create_forge_manifest;
use neko_manifest::forgeinstaller::{
    ForgeArguments, ForgeArtifact, ForgeClientManifest, ForgeLibrary, ForgeLibraryDownloads,
};
use neko_manifest::installer::resolve_installer;
use neko_manifest::manifest::{assemble, chain_records};
use neko_manifest::mojang::{find_version, parse_mojang};
use neko_manifest::neoforge::create_neoforge_manifest;
use neko_manifest::types::{
    FabricArguments, FabricLibraries, FabricManifest, Libraries, LibraryObject, MojangArtifact,
    MojangAssetIndex, MojangClientManifest, MojangDownloads, MojangLibrary,
    MojangLibraryDownloads, MojangLibraryRule, MojangOs, MojangResult, MojangVersionManifest,
    MojangVersions, OsType,
};
use neko_manifest::utils::default_jvm_args;

const ALL: [OsType; 3] = [OsType::Windows, OsType::Linux, OsType::MacOs];

fn text(s: &str) -> String {
    s.to_string()
}

fn placed(path: &str, os: &[OsType]) -> LibraryObject {
    LibraryObject { path: text(path), os: os.to_vec() }
}

fn record(name: &str, url: &str, sha1: &str) -> Libraries {
    Libraries { name: text(name), url: text(url), sha1: Some(text(sha1)) }
}

fn artifact(path: Option<&str>, url: &str, sha1: &str) -> MojangArtifact {
    MojangArtifact { path: path.map(text), sha1: text(sha1), url: text(url) }
}

fn base_library(
    name: &str,
    path: Option<&str>,
    url: &str,
    rules: Option<Vec<MojangLibraryRule>>,
) -> MojangLibrary {
    MojangLibrary {
        downloads: MojangLibraryDownloads { artifact: artifact(path, url, "cafe") },
        name: text(name),
        rules,
    }
}

fn descriptor(libraries: Vec<MojangLibrary>) -> MojangClientManifest {
    MojangClientManifest {
        assetIndex: MojangAssetIndex { id: text("5") },
        libraries,
        downloads: MojangDownloads {
            client: artifact(None, "https://game/client.jar", "c11e"),
            client_mappings: artifact(None, "https://game/client.txt", "3a99"),
        },
    }
}

fn two_library_descriptor() -> MojangClientManifest {
    descriptor(vec![
        base_library(
            "org.lwjgl:lwjgl:3.3.1:natives-windows",
            Some("org/lwjgl/lwjgl/3.3.1/lwjgl-3.3.1-natives-windows.jar"),
            "https://libs/lwjgl-windows.jar",
            None,
        ),
        base_library(
            "com.google.guava:guava:31.0",
            Some("com/google/guava/guava/31.0/guava-31.0.jar"),
            "https://libs/guava.jar",
            None,
        ),
    ])
}

fn fabric_library(name: &str, url: &str) -> FabricLibraries {
    FabricLibraries { name: text(name), url: text(url), sha1: Some(text("abcd")) }
}

fn fabric_profile(libraries: Vec<FabricLibraries>) -> FabricManifest {
    FabricManifest {
        mainClass: text("net.fabricmc.loader.impl.launch.knot.KnotClient"),
        arguments: FabricArguments {
            game: vec![text("--demo")],
            jvm: vec![text("-DFabricMcEmu= net.minecraft.client.main.Main ")],
        },
        libraries,
    }
}

fn forge_library(name: &str, download: Option<(&str, &str)>) -> ForgeLibrary {
    ForgeLibrary {
        name: text(name),
        downloads: download.map(|(path, url)| ForgeLibraryDownloads {
            artifact: ForgeArtifact {
                path: text(path),
                url: text(url),
                sha1: text("f00d"),
                size: Some(7),
            },
        }),
    }
}

fn forge_descriptor(libraries: Vec<ForgeLibrary>) -> ForgeClientManifest {
    ForgeClientManifest {
        id: text("1.20.1-forge-47.2.0"),
        inheritsFrom: text("1.20.1"),
        mainClass: text("cpw.mods.bootstraplauncher.BootstrapLauncher"),
        libraries,
        arguments: ForgeArguments {
            game: vec![text("--launchTarget"), text("forgeclient")],
            jvm: vec![text("-Djava.net.preferIPv6Addresses=system")],
        },
    }
}

#[test]
fn find_version_takes_the_exact_id() {
    let index = MojangVersionManifest {
        versions: vec![
            MojangVersions { id: text("1.20.10"), url: text("https://v/1.20.10.json") },
            MojangVersions { id: text("1.20.1"), url: text("https://v/1.20.1.json") },
            MojangVersions { id: text("1.20.1"), url: text("https://v/other.json") },
        ],
    };
    assert_eq!(find_version(&index, "1.20.1"), Ok(&index.versions[1]));
    assert_eq!(find_version(&index, "1.20.10"), Ok(&index.versions[0]));
}

#[test]
fn find_version_reports_a_missing_id() {
    let index = MojangVersionManifest {
        versions: vec![MojangVersions { id: text("1.20.1"), url: text("u") }],
    };
    assert_eq!(find_version(&index, "1.20"), Err(ManifestError::VersionNotFound(text("1.20"))));
    let empty = MojangVersionManifest { versions: vec![] };
    assert_eq!(find_version(&empty, "1.20.1"), Err(ManifestError::VersionNotFound(text("1.20.1"))));
}

#[test]
fn parse_mojang_places_libraries_and_the_client() {
    let parsed = parse_mojang(&two_library_descriptor()).unwrap();
    assert_eq!(
        parsed.hash_libs,
        vec![
            placed("minecraft.jar", &ALL),
            placed("org/lwjgl/lwjgl/3.3.1/lwjgl-3.3.1-natives-windows.jar", &[OsType::Windows]),
            placed("com/google/guava/guava/31.0/guava-31.0.jar", &ALL),
        ]
    );
    assert_eq!(
        parsed.libraries,
        vec![
            record("org.lwjgl:lwjgl:3.3.1:natives-windows", "https://libs/lwjgl-windows.jar", "cafe"),
            record("com.google.guava:guava:31.0", "https://libs/guava.jar", "cafe"),
            record("minecraft.jar", "https://game/client.jar", "c11e"),
        ]
    );
    assert_eq!(parsed.asset_index, "5");
}

#[test]
fn parse_mojang_applies_rules_and_skips_libraries_without_a_file() {
    let rules = vec![
        MojangLibraryRule { action: text("allow"), os: MojangOs { name: OsType::Linux } },
        MojangLibraryRule { action: text("disallow"), os: MojangOs { name: OsType::MacOs } },
    ];
    let manifest = descriptor(vec![
        base_library("a:b:1", Some("a/b/1/b-1.jar"), "https://libs/b.jar", Some(rules)),
        base_library("broken", None, "https://libs/none.jar", None),
        base_library("a:b:1", Some("a/b/1/b-1-linux.jar"), "https://libs/b2.jar", None),
    ]);
    let parsed = parse_mojang(&manifest).unwrap();
    assert_eq!(
        parsed.hash_libs,
        vec![placed("minecraft.jar", &ALL), placed("a/b/1/b-1.jar", &[OsType::Windows, OsType::Linux])]
    );
    assert_eq!(parsed.libraries.len(), 4);
    assert_eq!(parsed.libraries[1], record("broken", "https://libs/none.jar", "cafe"));
}

#[test]
fn parse_mojang_rejects_the_first_malformed_coordinate() {
    let manifest = descriptor(vec![
        base_library("a:b:1", Some("p"), "u", None),
        base_library("bad:one", Some("p"), "u", None),
        base_library("worse", Some("p"), "u", None),
    ]);
    assert_eq!(parse_mojang(&manifest), Err(ManifestError::MalformedCoordinate(text("bad:one"))));
}

#[test]
fn end_to_end_fabric_run_has_four_libraries() {
    let base = parse_mojang(&two_library_descriptor()).unwrap();
    let profile = fabric_profile(vec![fabric_library(
        "net.fabricmc:fabric-loader:0.15.0",
        "https://maven.fabricmc.net/",
    )]);
    let resolution = create_fabric_manifest(base, profile).unwrap();
    let manifest = resolution.manifest;
    assert_eq!(
        manifest.libraries,
        vec![
            placed("minecraft.jar", &ALL),
            placed("org/lwjgl/lwjgl/3.3.1/lwjgl-3.3.1-natives-windows.jar", &[OsType::Windows]),
            placed("com/google/guava/guava/31.0/guava-31.0.jar", &ALL),
            placed("net/fabricmc/fabric-loader/0.15.0/fabric-loader-0.15.0.jar", &ALL),
        ]
    );
    assert_eq!(manifest.libraries.len(), 4);
    for (i, one) in manifest.libraries.iter().enumerate() {
        for other in &manifest.libraries[i + 1..] {
            assert_ne!(one.path, other.path);
        }
    }
    assert_eq!(manifest.mainclass, "net.fabricmc.loader.impl.launch.knot.KnotClient");
    assert_eq!(manifest.assetIndex, "5");
    let mut jvm = default_jvm_args();
    jvm.push(text("-DFabricMcEmu= net.minecraft.client.main.Main "));
    assert_eq!(manifest.jvm, jvm);
    assert_eq!(manifest.game, vec![text("--demo")]);
    assert_eq!(manifest.verify, vec![text("mods"), text("libraries"), text("minecraft.jar")]);
    assert_eq!(manifest.ignore, vec![text("options.txt")]);
    assert_eq!(
        resolution.downloads,
        vec![
            record("org.lwjgl:lwjgl:3.3.1:natives-windows", "https://libs/lwjgl-windows.jar", "cafe"),
            record("com.google.guava:guava:31.0", "https://libs/guava.jar", "cafe"),
            record("minecraft.jar", "https://game/client.jar", "c11e"),
            record(
                "net.fabricmc:fabric-loader:0.15.0",
                "https://maven.fabricmc.net/net/fabricmc/fabric-loader/0.15.0/fabric-loader-0.15.0.jar",
                ""
            ),
        ]
    );
}

#[test]
fn fabric_libraries_apply_to_all_platforms_whatever_their_name() {
    let base = parse_mojang(&descriptor(vec![])).unwrap();
    let profile = fabric_profile(vec![fabric_library("g:natives-windows:1", "https://r/")]);
    let manifest = create_fabric_manifest(base, profile).unwrap().manifest;
    assert_eq!(
        manifest.libraries,
        vec![placed("minecraft.jar", &ALL), placed("g/natives-windows/1/natives-windows-1.jar", &ALL)]
    );
}

#[test]
fn fabric_rejects_the_first_malformed_coordinate() {
    let base = parse_mojang(&descriptor(vec![])).unwrap();
    let profile = fabric_profile(vec![
        fabric_library("g:a:1", "https://r/"),
        fabric_library("g:a", "https://r/"),
        fabric_library("g", "https://r/"),
    ]);
    assert_eq!(
        create_fabric_manifest(base, profile),
        Err(ManifestError::MalformedCoordinate(text("g:a")))
    );
}

#[test]
fn fabric_duplicate_of_a_base_library_is_dropped() {
    let base = parse_mojang(&two_library_descriptor()).unwrap();
    let profile = fabric_profile(vec![fabric_library(
        "org.lwjgl:lwjgl:3.3.1:natives-windows",
        "https://maven.fabricmc.net/",
    )]);
    let resolution = create_fabric_manifest(base, profile).unwrap();
    assert_eq!(resolution.manifest.libraries.len(), 3);
    assert_eq!(
        resolution.manifest.libraries[1],
        placed("org/lwjgl/lwjgl/3.3.1/lwjgl-3.3.1-natives-windows.jar", &[OsType::Windows])
    );
    assert_eq!(resolution.downloads.len(), 4);
}

#[test]
fn installer_run_skips_libraries_without_downloads() {
    let base = parse_mojang(&two_library_descriptor()).unwrap();
    let installer = forge_descriptor(vec![
        forge_library("net.minecraftforge:forge:1.20.1-47.2.0:client", None),
        forge_library(
            "net.minecraftforge:fmlcore:1.20.1-47.2.0",
            Some(("net/minecraftforge/fmlcore/1.20.1-47.2.0/fmlcore-1.20.1-47.2.0.jar", "https://f/fmlcore.jar")),
        ),
        forge_library("g:native:2", Some(("g/native/2/native-2-linux.jar", ""))),
    ]);
    let resolution = resolve_installer(base, installer).unwrap();
    assert_eq!(
        resolution.manifest.libraries,
        vec![
            placed("minecraft.jar", &ALL),
            placed("org/lwjgl/lwjgl/3.3.1/lwjgl-3.3.1-natives-windows.jar", &[OsType::Windows]),
            placed("com/google/guava/guava/31.0/guava-31.0.jar", &ALL),
            placed("net/minecraftforge/fmlcore/1.20.1-47.2.0/fmlcore-1.20.1-47.2.0.jar", &ALL),
            placed("g/native/2/native-2.jar", &[OsType::Linux]),
        ]
    );
    assert_eq!(resolution.downloads.len(), 5);
    assert_eq!(
        resolution.downloads[3],
        record("net.minecraftforge:fmlcore:1.20.1-47.2.0", "https://f/fmlcore.jar", "")
    );
    assert_eq!(resolution.downloads[4], record("g:native:2", "", ""));
    let mut jvm = default_jvm_args();
    jvm.push(text("-Djava.net.preferIPv6Addresses=system"));
    assert_eq!(resolution.manifest.jvm, jvm);
    assert_eq!(resolution.manifest.game, vec![text("--launchTarget"), text("forgeclient")]);
    assert_eq!(resolution.manifest.mainclass, "cpw.mods.bootstraplauncher.BootstrapLauncher");
}

#[test]
fn installer_run_ignores_malformed_names_without_downloads() {
    let base = parse_mojang(&descriptor(vec![])).unwrap();
    let installer = forge_descriptor(vec![
        forge_library("nameless", None),
        forge_library("also:bad", Some(("p", "u"))),
        forge_library("bad", Some(("p", "u"))),
    ]);
    assert_eq!(
        resolve_installer(base, installer),
        Err(ManifestError::MalformedCoordinate(text("also:bad")))
    );
}

#[test]
fn forge_and_neoforge_share_one_shape() {
    let installer = forge_descriptor(vec![forge_library("g:a:1", Some(("g/a/1/a-1.jar", "https://f/a.jar")))]);
    let base = parse_mojang(&two_library_descriptor()).unwrap();
    let forge = create_forge_manifest(base.clone(), installer.clone());
    let neoforge = create_neoforge_manifest(base.clone(), installer.clone());
    assert_eq!(forge, neoforge);
    assert_eq!(forge, resolve_installer(base, installer));
    assert_eq!(forge.unwrap().manifest.libraries.len(), 4);
}

#[test]
fn assemble_merges_and_appends_loader_arguments() {
    let manifest = assemble(
        text("Main"),
        text("17"),
        vec![placed("a.jar", &[OsType::Linux])],
        vec![placed("a.jar", &ALL), placed("b.jar", &[])],
        vec![text("-Xmx2G")],
        vec![text("--fullscreen")],
    );
    assert_eq!(
        manifest.libraries,
        vec![placed("a.jar", &[OsType::Linux]), placed("b.jar", &[]), placed("minecraft.jar", &ALL)]
    );
    assert_eq!(manifest.jvm.len(), 11);
    assert_eq!(manifest.jvm[10], "-Xmx2G");
    assert_eq!(manifest.jvm[0], "-XX:+IgnoreUnrecognizedVMOptions");
    assert_eq!(manifest.mainclass, "Main");
    assert_eq!(manifest.assetIndex, "17");
}

#[test]
fn chain_records_keeps_base_before_loader() {
    let all = chain_records(vec![record("a", "1", "x")], vec![record("b", "2", "y"), record("c", "3", "z")]);
    assert_eq!(all, vec![record("a", "1", "x"), record("b", "2", "y"), record("c", "3", "z")]);
}

#[test]
fn a_base_contribution_can_be_written_by_hand() {
    let base = MojangResult {
        libraries: vec![],
        hash_libs: vec![placed("a.jar", &[OsType::Windows])],
        asset_index: text("1"),
    };
    let resolution = create_fabric_manifest(base, fabric_profile(vec![])).unwrap();
    assert_eq!(
        resolution.manifest.libraries,
        vec![placed("a.jar", &[OsType::Windows]), placed("minecraft.jar", &ALL)]
    );
    assert!(resolution.downloads.is_empty());
}

#[test]
fn profile_url_names_game_and_loader() {
    assert_eq!(
        profile_url("1.20.1", "0.15.0"),
        "https://meta.fabricmc.net/v2/versions/loader/1.20.1/0.15.0/profile/json"
    );
}
