use neko_manifest::platform::{resolve_platforms, universal_platforms};
use neko_manifest::types::{MojangLibraryRule, MojangOs, OsType};

fn rule(action: &str, os: OsType) -> MojangLibraryRule {
    MojangLibraryRule { action: action.to_string(), os: MojangOs { name: os } }
}

#[test]
fn no_rules_and_no_token_gives_all_platforms() {
    assert_eq!(
        resolve_platforms("com/google/guava/guava/31.0/guava-31.0.jar", &vec![]),
        vec![OsType::Windows, OsType::Linux, OsType::MacOs]
    );
}

#[test]
fn disallow_removes_the_named_platform() {
    assert_eq!(
        resolve_platforms("a/b/1/b-1.jar", &vec![rule("disallow", OsType::MacOs)]),
        vec![OsType::Windows, OsType::Linux]
    );
}

#[test]
fn a_single_token_narrows_to_its_platform() {
    assert_eq!(
        resolve_platforms("org/lwjgl/lwjgl/3.3.1/lwjgl-3.3.1-natives-windows-x86.jar", &vec![]),
        vec![OsType::Windows]
    );
    assert_eq!(resolve_platforms("x-linux.jar", &vec![]), vec![OsType::Linux]);
    assert_eq!(resolve_platforms("x-macos-arm64.jar", &vec![]), vec![OsType::MacOs]);
}

#[test]
fn a_removed_platform_does_not_come_back() {
    assert_eq!(
        resolve_platforms("x-natives-windows.jar", &vec![rule("disallow", OsType::Windows)]),
        Vec::<OsType>::new()
    );
}

#[test]
fn allow_rules_change_nothing() {
    assert_eq!(
        resolve_platforms("a.jar", &vec![rule("allow", OsType::MacOs)]),
        vec![OsType::Windows, OsType::Linux, OsType::MacOs]
    );
    assert_eq!(
        resolve_platforms("a-linux.jar", &vec![rule("allow", OsType::Windows)]),
        vec![OsType::Linux]
    );
}

#[test]
fn two_tokens_do_not_narrow() {
    assert_eq!(
        resolve_platforms("x-windows-linux.jar", &vec![]),
        vec![OsType::Windows, OsType::Linux, OsType::MacOs]
    );
    assert_eq!(
        resolve_platforms("macos/linux/windows", &vec![rule("disallow", OsType::Linux)]),
        vec![OsType::Windows, OsType::MacOs]
    );
}

#[test]
fn rules_and_token_on_different_platforms() {
    assert_eq!(
        resolve_platforms("x-linux.jar", &vec![rule("disallow", OsType::MacOs)]),
        vec![OsType::Linux]
    );
}

#[test]
fn all_platforms_disallowed_gives_nothing() {
    let rules = vec![
        rule("disallow", OsType::Windows),
        rule("disallow", OsType::Linux),
        rule("disallow", OsType::MacOs),
        rule("disallow", OsType::Linux),
    ];
    assert_eq!(resolve_platforms("a.jar", &rules), Vec::<OsType>::new());
}

#[test]
fn the_token_osx_names_no_platform() {
    assert_eq!(
        resolve_platforms("x-natives-osx.jar", &vec![]),
        vec![OsType::Windows, OsType::Linux, OsType::MacOs]
    );
}

#[test]
fn actions_are_matched_exactly() {
    assert_eq!(
        resolve_platforms("a.jar", &vec![rule("Disallow", OsType::Linux)]),
        vec![OsType::Windows, OsType::Linux, OsType::MacOs]
    );
}

#[test]
fn universal_platforms_are_in_fixed_order() {
    assert_eq!(universal_platforms(), vec![OsType::Windows, OsType::Linux, OsType::MacOs]);
}
