use neko_manifest::error::ManifestError;
use neko_manifest::maven::resolve_maven;
use neko_manifest::text::{
    chars_of, contains_text, replace_char, same_text, split_on, string_of, text_after,
};

fn pieces(text: &str, sep: char) -> Vec<String> {
    split_on(&chars_of(text), sep).iter().map(string_of).collect()
}

#[test]
fn resolves_three_segments() {
    assert_eq!(
        resolve_maven("org.ow2.asm:asm:9.2"),
        Ok("org/ow2/asm/asm/9.2/asm-9.2.jar".to_string())
    );
}

#[test]
fn resolves_classifier() {
    assert_eq!(
        resolve_maven("org.ow2.asm:asm:9.2:linux"),
        Ok("org/ow2/asm/asm/9.2/asm-9.2-linux.jar".to_string())
    );
}

#[test]
fn resolving_twice_gives_the_same_path() {
    let coordinate = "org.lwjgl:lwjgl-glfw:3.3.1:natives-windows";
    let first = resolve_maven(coordinate);
    let second = resolve_maven(coordinate);
    assert_eq!(first, second);
    assert_eq!(
        first,
        Ok("org/lwjgl/lwjgl-glfw/3.3.1/lwjgl-glfw-3.3.1-natives-windows.jar".to_string())
    );
}

#[test]
fn rejects_two_segments() {
    assert_eq!(
        resolve_maven("org.ow2.asm:asm"),
        Err(ManifestError::MalformedCoordinate("org.ow2.asm:asm".to_string()))
    );
}

#[test]
fn rejects_one_segment_and_empty_text() {
    assert_eq!(
        resolve_maven("minecraft.jar"),
        Err(ManifestError::MalformedCoordinate("minecraft.jar".to_string()))
    );
    assert_eq!(resolve_maven(""), Err(ManifestError::MalformedCoordinate(String::new())));
}

#[test]
fn five_segments_have_no_classifier() {
    assert_eq!(resolve_maven("g.h:a:1:c:d"), Ok("g/h/a/1/a-1.jar".to_string()));
}

#[test]
fn empty_segments_are_segments() {
    assert_eq!(resolve_maven("::"), Ok("///-.jar".to_string()));
    assert_eq!(resolve_maven("g:a:1:"), Ok("g/a/1/a-1-.jar".to_string()));
}

#[test]
fn only_the_group_has_its_dots_replaced() {
    assert_eq!(resolve_maven("a.b:c.d:1.0"), Ok("a/b/c.d/1.0/c.d-1.0.jar".to_string()));
}

#[test]
fn coordinates_may_hold_any_characters() {
    assert_eq!(resolve_maven("é.ü:ß:1"), Ok("é/ü/ß/1/ß-1.jar".to_string()));
}

#[test]
fn split_has_one_piece_more_than_separators() {
    assert_eq!(pieces("", ':'), vec![""]);
    assert_eq!(pieces("abc", ':'), vec!["abc"]);
    assert_eq!(pieces("a:b", ':'), vec!["a", "b"]);
    assert_eq!(pieces(":a::", ':'), vec!["", "a", "", ""]);
}

#[test]
fn split_pieces_join_back() {
    let text = "net.fabricmc:fabric-loader:0.15.0";
    assert_eq!(pieces(text, ':').join(":"), text);
}

#[test]
fn replace_changes_every_occurrence() {
    assert_eq!(string_of(&replace_char(&chars_of("a.b..c"), '.', '/')), "a/b//c");
    assert_eq!(string_of(&replace_char(&chars_of("abc"), '.', '/')), "abc");
}

#[test]
fn contains_finds_runs() {
    assert!(contains_text("lwjgl-natives-windows-x86.jar", "windows"));
    assert!(contains_text("windows", "windows"));
    assert!(contains_text("abc", ""));
    assert!(contains_text("", ""));
    assert!(!contains_text("window", "windows"));
    assert!(!contains_text("win-dows", "windows"));
    assert!(!contains_text("", "a"));
    assert!(contains_text("xxlinux", "linux"));
}

#[test]
fn same_text_compares_characters() {
    assert!(same_text("forge", "forge"));
    assert!(!same_text("forge", "forgе"));
    assert!(!same_text("forge", "forg"));
    assert!(same_text("", ""));
}

#[test]
fn text_after_puts_tail_after_head() {
    assert_eq!(text_after("https://maven/", "a/b.jar"), "https://maven/a/b.jar");
    assert_eq!(text_after("", ""), "");
}

#[test]
fn chars_and_strings_convert_back_and_forth() {
    assert_eq!(string_of(&chars_of("héllo")), "héllo");
    assert_eq!(chars_of("ab"), vec!['a', 'b']);
}
