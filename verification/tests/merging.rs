use neko_manifest::merge::{client_entry, holds_path, insert_all, insert_library, merge};
use neko_manifest::types::{LibraryObject, OsType};

fn lib(path: &str, os: &[OsType]) -> LibraryObject {
    LibraryObject { path: path.to_string(), os: os.to_vec() }
}

const ALL: [OsType; 3] = [OsType::Windows, OsType::Linux, OsType::MacOs];

#[test]
fn base_entry_wins_over_broader_loader_entry() {
    let base = vec![client_entry(), lib("a/b/1/b-1.jar", &[OsType::Windows])];
    let loader = vec![lib("a/b/1/b-1.jar", &ALL)];
    assert_eq!(
        merge(base, loader),
        vec![client_entry(), lib("a/b/1/b-1.jar", &[OsType::Windows])]
    );
}

#[test]
fn base_entry_wins_over_narrower_loader_entry() {
    let base = vec![client_entry(), lib("a/b/1/b-1.jar", &ALL)];
    let loader = vec![lib("a/b/1/b-1.jar", &[OsType::Linux]), lib("c/d/2/d-2.jar", &[])];
    assert_eq!(
        merge(base, loader),
        vec![client_entry(), lib("a/b/1/b-1.jar", &ALL), lib("c/d/2/d-2.jar", &[])]
    );
}

#[test]
fn merge_keeps_order_and_drops_later_duplicates() {
    let base = vec![lib("x.jar", &ALL), lib("y.jar", &[OsType::MacOs]), lib("x.jar", &[])];
    let loader = vec![lib("z.jar", &ALL), lib("y.jar", &ALL), lib("z.jar", &[OsType::Linux])];
    assert_eq!(
        merge(base, loader),
        vec![lib("x.jar", &ALL), lib("y.jar", &[OsType::MacOs]), lib("z.jar", &ALL), client_entry()]
    );
}

#[test]
fn merge_of_nothing_is_the_client_file() {
    assert_eq!(merge(vec![], vec![]), vec![lib("minecraft.jar", &ALL)]);
}

#[test]
fn a_listed_client_path_stays_as_listed() {
    let loader = vec![lib("minecraft.jar", &[OsType::Linux])];
    assert_eq!(merge(vec![], loader), vec![lib("minecraft.jar", &[OsType::Linux])]);
}

#[test]
fn merged_paths_are_unique() {
    let base = vec![client_entry(), lib("a.jar", &ALL), lib("a.jar", &ALL)];
    let loader = vec![lib("a.jar", &[]), lib("minecraft.jar", &[]), lib("b.jar", &ALL)];
    let set = merge(base, loader);
    for (i, one) in set.iter().enumerate() {
        for other in &set[i + 1..] {
            assert_ne!(one.path, other.path);
        }
    }
    assert_eq!(set.len(), 3);
}

#[test]
fn insert_library_keeps_the_first() {
    let mut set = vec![lib("a.jar", &ALL)];
    insert_library(&mut set, lib("a.jar", &[]));
    assert_eq!(set, vec![lib("a.jar", &ALL)]);
    insert_library(&mut set, lib("b.jar", &[]));
    assert_eq!(set, vec![lib("a.jar", &ALL), lib("b.jar", &[])]);
}

#[test]
fn insert_all_offers_each_in_order() {
    let mut set = vec![lib("a.jar", &ALL)];
    insert_all(&mut set, vec![lib("b.jar", &[]), lib("a.jar", &[]), lib("b.jar", &ALL)]);
    assert_eq!(set, vec![lib("a.jar", &ALL), lib("b.jar", &[])]);
}

#[test]
fn holds_path_looks_at_paths_only() {
    let set = vec![lib("a.jar", &ALL)];
    assert!(holds_path(&set, &"a.jar".to_string()));
    assert!(!holds_path(&set, &"A.jar".to_string()));
    assert!(!holds_path(&vec![], &"a.jar".to_string()));
}
