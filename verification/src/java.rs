//! Picking a Java runtime and listing its files.

use crate::fetch::{task_views, FetchTask, FetchTaskView};
use crate::text::{chars_of, push_text, string_of};
use crate::types::{
    FileEntry, JavaRuntime, PlatformVersions, SelectedJavaManifest, VersionDetails,
};
use vstd::prelude::*;

verus! {

/// Where the file list of the chosen runtime is served for one platform, and
/// the directory that the platform's files go under.
#[derive(Clone, Debug, PartialEq, Eq)]
pub struct JavaSource {
    pub platform: String,
    pub url: String,
}

/// A `JavaSource` with its texts as character sequences.
pub struct JavaSourceView {
    pub platform: Seq<char>,
    pub url: Seq<char>,
}

impl View for JavaSource {
    type V = JavaSourceView;

    open spec fn view(&self) -> JavaSourceView {
        JavaSourceView { platform: self.platform@, url: self.url@ }
    }
}

/// The chosen runtime: the name of its component and its sources, one per
/// platform.
#[derive(Clone, Debug, PartialEq, Eq)]
pub struct JavaSelection {
    pub name: String,
    pub sources: Vec<JavaSource>,
}

/// A `JavaSelection` with its texts as character sequences.
pub struct JavaSelectionView {
    pub name: Seq<char>,
    pub sources: Seq<JavaSourceView>,
}

impl View for JavaSelection {
    type V = JavaSelectionView;

    open spec fn view(&self) -> JavaSelectionView {
        JavaSelectionView {
            name: self.name@,
            sources: Seq::new(self.sources@.len(), |i: int| self.sources@[i]@),
        }
    }
}

/// The component that holds Java `version`: `gamma` for 17, `delta` for any
/// other.
pub open spec fn component_name(version: u64) -> Seq<char> {
    if version == 17 {
        "java_runtime_gamma"@
    } else {
        "java_runtime_delta"@
    }
}

/// The releases of that component on one platform.
pub open spec fn component(platform: PlatformVersions, version: u64) -> Seq<VersionDetails> {
    if version == 17 {
        platform.java_runtime_gamma@
    } else {
        platform.java_runtime_delta@
    }
}

/// Whether every platform offers a release of the component.
pub open spec fn offers(runtime: JavaRuntime, version: u64) -> bool {
    &&& component(runtime.windows_x64, version).len() > 0
    &&& component(runtime.windows_arm64, version).len() > 0
    &&& component(runtime.mac_os, version).len() > 0
    &&& component(runtime.mac_os_arm64, version).len() > 0
    &&& component(runtime.linux, version).len() > 0
}

/// The source of the component's first release on one platform.
pub open spec fn source(
    directory: Seq<char>,
    platform: PlatformVersions,
    version: u64,
) -> JavaSourceView {
    JavaSourceView { platform: directory, url: component(platform, version)[0].manifest.url@ }
}

/// The selection for Java `version`: the component's first release on each
/// of the five platforms, in a fixed order.
pub open spec fn selection(runtime: JavaRuntime, version: u64) -> JavaSelectionView {
    JavaSelectionView {
        name: component_name(version),
        sources: seq![
            source("windows"@, runtime.windows_x64, version),
            source("windows_arm64"@, runtime.windows_arm64, version),
            source("mac_os"@, runtime.mac_os, version),
            source("mac_os_arm64"@, runtime.mac_os_arm64, version),
            source("linux"@, runtime.linux, version),
        ],
    }
}

/// The source of the component's first release on one platform, if it has a
/// release.
fn first_source(directory: &str, platform: &PlatformVersions, version: u64) -> (found: Option<
    JavaSource,
>)
    ensures
        found is Some <==> component(*platform, version).len() > 0,
        found is Some ==> found->Some_0@ == source(directory@, *platform, version),
{
    let releases = if version == 17 {
        &platform.java_runtime_gamma
    } else {
        &platform.java_runtime_delta
    };
    if releases.len() == 0 {
        return None;
    }
    Some(JavaSource { platform: directory.to_owned(), url: releases[0].manifest.url.clone() })
}

/// Picks the runtime for Java `version` on all five platforms, or nothing
/// if some platform offers no release of it.
pub fn select_java(runtime: &JavaRuntime, version: u64) -> (picked: Option<JavaSelection>)
    ensures
        picked is Some <==> offers(*runtime, version),
        picked is Some ==> picked->Some_0@ == selection(*runtime, version),
{
    let windows = first_source("windows", &runtime.windows_x64, version)?;
    let windows_arm64 = first_source("windows_arm64", &runtime.windows_arm64, version)?;
    let mac_os = first_source("mac_os", &runtime.mac_os, version)?;
    let mac_os_arm64 = first_source("mac_os_arm64", &runtime.mac_os_arm64, version)?;
    let linux = first_source("linux", &runtime.linux, version)?;
    let name = if version == 17 {
        "java_runtime_gamma".to_owned()
    } else {
        "java_runtime_delta".to_owned()
    };
    let mut sources: Vec<JavaSource> = Vec::new();
    sources.push(windows);
    sources.push(windows_arm64);
    sources.push(mac_os);
    sources.push(mac_os_arm64);
    sources.push(linux);
    let picked = JavaSelection { name, sources };
    proof {
        assert(picked@.sources =~= selection(*runtime, version).sources);
    }
    Some(picked)
}

/// Whether an entry of a runtime's file list is a file to fetch.
pub open spec fn is_file(entry: FileEntry) -> bool {
    entry is File
}

/// The task that fetches one file of a runtime: its raw download, to
/// `platform/name/path`.
pub open spec fn file_task(
    platform: Seq<char>,
    name: Seq<char>,
    path: Seq<char>,
    entry: FileEntry,
) -> FetchTaskView {
    FetchTaskView {
        url: entry->File_downloads.raw.url@,
        destination: platform + "/"@ + name + "/"@ + path,
    }
}

/// The tasks for the files of a runtime, in the order of its file list.
/// Directories and entries of unknown kind give no task.
pub open spec fn file_tasks(
    files: Seq<(String, FileEntry)>,
    name: Seq<char>,
    platform: Seq<char>,
) -> Seq<FetchTaskView>
    decreases files.len(),
{
    if files.len() == 0 {
        Seq::<FetchTaskView>::empty()
    } else if is_file(files.last().1) {
        file_tasks(files.drop_last(), name, platform).push(
            file_task(platform, name, files.last().0@, files.last().1),
        )
    } else {
        file_tasks(files.drop_last(), name, platform)
    }
}

/// Lists the fetch tasks for the files of one runtime on one platform.
pub fn java_download_tasks(
    selected_java_manifest: &SelectedJavaManifest,
    name: &str,
    platform: &str,
) -> (tasks: Vec<FetchTask>)
    ensures
        task_views(tasks@) == file_tasks(selected_java_manifest.files@, name@, platform@),
{
    let mut tasks: Vec<FetchTask> = Vec::new();
    let ghost files = selected_java_manifest.files@;
    let mut i: usize = 0;
    while i < selected_java_manifest.files.len()
        invariant
            i <= selected_java_manifest.files.len(),
            files == selected_java_manifest.files@,
            task_views(tasks@) == file_tasks(files.take(i as int), name@, platform@),
        decreases selected_java_manifest.files.len() - i,
    {
        let entry = &selected_java_manifest.files[i];
        proof {
            let upto = files.take(i + 1);
            assert(upto.drop_last() == files.take(i as int));
            assert(upto.last() == *entry);
        }
        match &entry.1 {
            FileEntry::File { downloads, executable: _ } => {
                let mut destination = chars_of(platform);
                push_text(&mut destination, "/");
                push_text(&mut destination, name);
                push_text(&mut destination, "/");
                push_text(&mut destination, entry.0.as_str());
                let ghost before = task_views(tasks@);
                let task = FetchTask {
                    url: downloads.raw.url.clone(),
                    destination: string_of(&destination),
                };
                tasks.push(task);
                proof {
                    assert(task_views(tasks@) =~= before.push(
                        file_task(platform@, name@, entry.0@, entry.1),
                    ));
                }
            },
            FileEntry::Directory => {},
            FileEntry::Ignored => {},
        }
        i += 1;
    }
    proof {
        assert(files.take(files.len() as int) == files);
    }
    tasks
}

} // verus!
