//! From fetch records to fetch tasks: where each file goes.

use crate::error::{ManifestError, ManifestErrorView};
use crate::fetch::{task_views, FetchTask, FetchTaskView};
use crate::maven::{install_path, resolve_maven, valid_coordinate};
use crate::merge::client_path;
use crate::text::{chars_of, push_text, same_text, string_of};
use crate::types::{records, Libraries, LibraryRecord};
use vstd::prelude::*;

verus! {

/// Whether the record is the client file's, which is named by its file name.
pub open spec fn is_client(record: LibraryRecord) -> bool {
    record.coordinate == client_path()
}

/// Whether a record can be placed: it is the client file's, or its
/// coordinate is valid.
pub open spec fn placeable(record: LibraryRecord) -> bool {
    is_client(record) || valid_coordinate(record.coordinate)
}

/// Where a record's file goes, relative to the root: the client file under
/// its own name, a library at its coordinate's install path.
pub open spec fn record_path(record: LibraryRecord) -> Seq<char> {
    if is_client(record) {
        client_path()
    } else {
        install_path(record.coordinate)
    }
}

/// The task that fetches a record's file to its place under `root`.
pub open spec fn record_task(root: Seq<char>, record: LibraryRecord) -> FetchTaskView {
    FetchTaskView { url: record.source_url, destination: root + "/"@ + record_path(record) }
}

/// Whether record `at` is the first that cannot be placed.
pub open spec fn is_first_unplaceable(all: Seq<LibraryRecord>, at: int) -> bool {
    &&& 0 <= at < all.len()
    &&& !placeable(all[at])
    &&& forall|k: int| 0 <= k < at ==> placeable(#[trigger] all[k])
}

/// The task for one record, or the error for its coordinate.
pub fn plan_one(record: &Libraries, root: &str) -> (planned: Result<FetchTask, ManifestError>)
    ensures
        match planned {
            Ok(task) => placeable(record@) && task@ == record_task(root@, record@),
            Err(e) => !placeable(record@) && e@ == ManifestErrorView::MalformedCoordinate(
                record@.coordinate,
            ),
        },
{
    let path = if same_text(record.name.as_str(), "minecraft.jar") {
        "minecraft.jar".to_owned()
    } else {
        match resolve_maven(record.name.as_str()) {
            Ok(path) => path,
            Err(e) => {
                return Err(e);
            },
        }
    };
    let mut destination = chars_of(root);
    push_text(&mut destination, "/");
    push_text(&mut destination, path.as_str());
    Ok(FetchTask { url: record.url.clone(), destination: string_of(&destination) })
}

/// One fetch task per record, in order, each file going to its place under
/// `root`. A record without an address still gets its task: the engine
/// skips and reports it. Fails on the first record that cannot be placed.
pub fn download_plan(all: &Vec<Libraries>, root: &str) -> (plan: Result<
    Vec<FetchTask>,
    ManifestError,
>)
    ensures
        match plan {
            Ok(tasks) => {
                &&& forall|k: int|
                    0 <= k < all.len() ==> placeable(#[trigger] records(all@)[k])
                &&& task_views(tasks@) == Seq::new(
                    all.len() as nat,
                    |k: int| record_task(root@, records(all@)[k]),
                )
            },
            Err(e) => exists|at: int|
                is_first_unplaceable(records(all@), at) && e@
                    == ManifestErrorView::MalformedCoordinate(records(all@)[at].coordinate),
        },
{
    let mut tasks: Vec<FetchTask> = Vec::new();
    let mut i: usize = 0;
    while i < all.len()
        invariant
            i <= all.len(),
            forall|k: int| 0 <= k < i ==> placeable(#[trigger] records(all@)[k]),
            task_views(tasks@) == Seq::new(
                i as nat,
                |k: int| record_task(root@, records(all@)[k]),
            ),
        decreases all.len() - i,
    {
        let task = match plan_one(&all[i], root) {
            Ok(task) => task,
            Err(e) => {
                assert(records(all@)[i as int] == all@[i as int]@);
                assert(is_first_unplaceable(records(all@), i as int));
                return Err(e);
            },
        };
        let ghost before = task_views(tasks@);
        tasks.push(task);
        proof {
            assert(records(all@)[i as int] == all@[i as int]@);
            assert(task_views(tasks@) =~= before.push(task@));
            assert(task_views(tasks@) =~= Seq::new(
                (i + 1) as nat,
                |k: int| record_task(root@, records(all@)[k]),
            ));
        }
        i += 1;
    }
    Ok(tasks)
}

} // verus!
