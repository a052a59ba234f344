//! Fixed parts of a run: the baseline arguments of the Java machine, the
//! lists that every manifest carries, and where installers are served.

use crate::error::{ManifestError, ManifestErrorView};
use crate::text::{push_text, same_text, string_of};
use crate::types::texts;
use vstd::prelude::*;

verus! {

/// The arguments that every manifest passes to the Java machine, before any
/// that a loader adds.
pub open spec fn baseline_jvm_args() -> Seq<Seq<char>> {
    seq![
        "-XX:+IgnoreUnrecognizedVMOptions"@,
        "-XX:HeapDumpPath=MojangTricksIntelDriversForPerformance_javaw.exe_minecraft.exe.heapdump"@,
        "-XX:+DisableAttachMechanism"@,
        "-XX:+UnlockExperimentalVMOptions"@,
        "-Xss1M"@,
        "-XX:+UseG1GC"@,
        "-XX:G1NewSizePercent=20"@,
        "-XX:G1ReservePercent=20"@,
        "-XX:MaxGCPauseMillis=50"@,
        "-XX:G1HeapRegionSize=32M"@,
    ]
}

/// The subtrees whose checksums the launcher verifies.
pub open spec fn verified_subtrees() -> Seq<Seq<char>> {
    seq!["mods"@, "libraries"@, "minecraft.jar"@]
}

/// The files that the launcher leaves alone.
pub open spec fn ignored_files() -> Seq<Seq<char>> {
    seq!["options.txt"@]
}

/// The baseline arguments of the Java machine.
pub fn default_jvm_args() -> (args: Vec<String>)
    ensures
        texts(args@) == baseline_jvm_args(),
{
    let mut args: Vec<String> = Vec::new();
    args.push("-XX:+IgnoreUnrecognizedVMOptions".to_owned());
    args.push(
        "-XX:HeapDumpPath=MojangTricksIntelDriversForPerformance_javaw.exe_minecraft.exe.heapdump".to_owned(),
    );
    args.push("-XX:+DisableAttachMechanism".to_owned());
    args.push("-XX:+UnlockExperimentalVMOptions".to_owned());
    args.push("-Xss1M".to_owned());
    args.push("-XX:+UseG1GC".to_owned());
    args.push("-XX:G1NewSizePercent=20".to_owned());
    args.push("-XX:G1ReservePercent=20".to_owned());
    args.push("-XX:MaxGCPauseMillis=50".to_owned());
    args.push("-XX:G1HeapRegionSize=32M".to_owned());
    proof {
        assert(texts(args@) =~= baseline_jvm_args());
    }
    args
}

/// The subtrees whose checksums the launcher verifies.
pub fn verify_list() -> (list: Vec<String>)
    ensures
        texts(list@) == verified_subtrees(),
{
    let mut list: Vec<String> = Vec::new();
    list.push("mods".to_owned());
    list.push("libraries".to_owned());
    list.push("minecraft.jar".to_owned());
    proof {
        assert(texts(list@) =~= verified_subtrees());
    }
    list
}

/// The files that the launcher leaves alone.
pub fn ignore_list() -> (list: Vec<String>)
    ensures
        texts(list@) == ignored_files(),
{
    let mut list: Vec<String> = Vec::new();
    list.push("options.txt".to_owned());
    proof {
        assert(texts(list@) =~= ignored_files());
    }
    list
}

/// Where the installer of a loader is served, for the two loaders that have
/// one: `forge` and `neoforge`.
pub open spec fn installer_address(
    loader_type: Seq<char>,
    mc_version: Seq<char>,
    loader_version: Seq<char>,
) -> Option<Seq<char>> {
    if loader_type == "forge"@ {
        Some(
            "https://maven.minecraftforge.net/net/minecraftforge/forge/"@ + mc_version + "-"@
                + loader_version + "/forge-"@ + mc_version + "-"@ + loader_version
                + "-installer.jar"@,
        )
    } else if loader_type == "neoforge"@ {
        Some(
            "https://maven.neoforged.net/releases/net/neoforged/neoforge/"@ + loader_version
                + "/neoforge-"@ + loader_version + "-installer.jar"@,
        )
    } else {
        None
    }
}

/// The file name under which the installer of a loader is stored.
pub open spec fn installer_file(loader_type: Seq<char>) -> Seq<char> {
    if loader_type == "forge"@ {
        "forge-installer.jar"@
    } else if loader_type == "neoforge"@ {
        "neoforge-installer.jar"@
    } else {
        "installer.jar"@
    }
}

/// What an installer leaves behind and is removed after it ran: the launcher
/// profiles, the installer itself and its log; for `forge` also the
/// `versions` subtree that it generates.
pub open spec fn installer_leftovers(loader_type: Seq<char>) -> Seq<Seq<char>> {
    let common = seq!["launcher_profiles.json"@, installer_file(loader_type), "installer.log"@];
    if loader_type == "forge"@ {
        common.push("versions"@)
    } else {
        common
    }
}

/// The address of a loader's installer, or nothing for a loader without
/// one.
pub fn installer_url(loader_type: &str, mc_version: &str, loader_version: &str) -> (url: Option<
    String,
>)
    ensures
        match url {
            Some(address) => installer_address(loader_type@, mc_version@, loader_version@)
                == Some(address@),
            None => installer_address(loader_type@, mc_version@, loader_version@) is None,
        },
{
    let mut url: Vec<char> = Vec::new();
    if same_text(loader_type, "forge") {
        push_text(&mut url, "https://maven.minecraftforge.net/net/minecraftforge/forge/");
        push_text(&mut url, mc_version);
        push_text(&mut url, "-");
        push_text(&mut url, loader_version);
        push_text(&mut url, "/forge-");
        push_text(&mut url, mc_version);
        push_text(&mut url, "-");
        push_text(&mut url, loader_version);
        push_text(&mut url, "-installer.jar");
        proof {
            assert(url@ =~= installer_address(loader_type@, mc_version@, loader_version@)->Some_0);
        }
        Some(string_of(&url))
    } else if same_text(loader_type, "neoforge") {
        push_text(&mut url, "https://maven.neoforged.net/releases/net/neoforged/neoforge/");
        push_text(&mut url, loader_version);
        push_text(&mut url, "/neoforge-");
        push_text(&mut url, loader_version);
        push_text(&mut url, "-installer.jar");
        proof {
            assert(url@ =~= installer_address(loader_type@, mc_version@, loader_version@)->Some_0);
        }
        Some(string_of(&url))
    } else {
        None
    }
}

/// The file name under which the installer of a loader is stored.
pub fn installer_name(loader_type: &str) -> (name: String)
    ensures
        name@ == installer_file(loader_type@),
{
    if same_text(loader_type, "forge") {
        "forge-installer.jar".to_owned()
    } else if same_text(loader_type, "neoforge") {
        "neoforge-installer.jar".to_owned()
    } else {
        "installer.jar".to_owned()
    }
}

/// The files and directories to remove after the installer of a loader ran,
/// relative to the directory it ran in.
pub fn installer_cleanup(loader_type: &str) -> (leftovers: Vec<String>)
    ensures
        texts(leftovers@) == installer_leftovers(loader_type@),
{
    let mut leftovers: Vec<String> = Vec::new();
    leftovers.push("launcher_profiles.json".to_owned());
    leftovers.push(installer_name(loader_type));
    leftovers.push("installer.log".to_owned());
    if same_text(loader_type, "forge") {
        leftovers.push("versions".to_owned());
    }
    proof {
        assert(texts(leftovers@) =~= installer_leftovers(loader_type@));
    }
    leftovers
}

/// Judges how the installer ended: a status of zero is success, any other is
/// a failure that carries the status.
pub fn installer_outcome(status: i32) -> (outcome: Result<(), ManifestError>)
    ensures
        match outcome {
            Ok(_) => status == 0,
            Err(e) => status != 0 && e@ == ManifestErrorView::InstallerFailure(status),
        },
{
    if status == 0 {
        Ok(())
    } else {
        Err(ManifestError::InstallerFailure(status))
    }
}

} // verus!
