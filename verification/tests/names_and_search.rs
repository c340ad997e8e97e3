use comrade::naming::{get_program_name, is_affirmative, staging_dir_name, trim_str};
use comrade::search::{CatalogEntry, search_program};

#[test]
fn marker_contents_are_trimmed() {
    let r = get_program_name(Some("foo\n".to_string()), "pkg");
    assert_eq!(r, "foo");
}

#[test]
fn missing_marker_uses_package_name() {
    let r = get_program_name(None, "pkg");
    assert_eq!(r, "pkg");
}

#[test]
fn marker_with_surrounding_whitespace() {
    let r = get_program_name(Some("  my-tool \t\r\n".to_string()), "pkg");
    assert_eq!(r, "my-tool");
}

#[test]
fn trim_keeps_inner_whitespace() {
    assert_eq!(trim_str(" a b "), "a b");
    assert_eq!(trim_str(""), "");
    assert_eq!(trim_str(" \t\n\r"), "");
    assert_eq!(trim_str("abc"), "abc");
}

#[test]
fn trim_covers_unicode_whitespace() {
    // The trimmed class is the Unicode White_Space set, as str::trim has it.
    for text in [
        "a\u{000B}",
        "\u{000C}b",
        "\u{0085}c\u{00A0}",
        "\u{1680}d\u{2000}",
        "\u{2005}e\u{200A}",
        "\u{2028}f\u{2029}",
        "\u{202F}g\u{205F}",
        "\u{3000}h\u{3000}",
        "\u{00A0}",
        "i j",
    ] {
        assert_eq!(trim_str(text), text.trim());
    }
    assert_eq!(get_program_name(Some("a\u{000B}".to_string()), "pkg"), "a");
}

#[test]
fn staging_names() {
    assert_eq!(staging_dir_name("pkg", true), "build");
    assert_eq!(staging_dir_name("pkg", false), "build/pkg");
    assert_ne!(staging_dir_name("p1", false), staging_dir_name("p2", false));
}

#[test]
fn affirmative_answers() {
    assert!(is_affirmative(""));
    assert!(is_affirmative("y"));
    assert!(is_affirmative("yes"));
    assert!(is_affirmative(" y \n"));
    assert!(is_affirmative("y\u{000C}"));
    assert!(is_affirmative("\u{2009}yes\u{0085}"));
    assert!(!is_affirmative("n"));
    assert!(!is_affirmative("Y"));
    assert!(!is_affirmative("no"));
}

fn entry(name: &str, is_dir: bool) -> CatalogEntry {
    CatalogEntry { name: name.to_string(), is_dir }
}

#[test]
fn search_finds_directory_entry() {
    let entries = vec![entry("alpha", true), entry("beta", true)];
    assert!(search_program(&entries, "beta"));
    assert!(!search_program(&entries, "gamma"));
}

#[test]
fn search_first_match_decides() {
    // A plain file with the name shadows a later directory entry.
    let entries = vec![entry("pkg", false), entry("pkg", true)];
    assert!(!search_program(&entries, "pkg"));
}

#[test]
fn search_empty_catalog() {
    let entries: Vec<CatalogEntry> = Vec::new();
    assert!(!search_program(&entries, "pkg"));
}
