use dirscan::filter::should_include_file;

fn exts(list: &[&str]) -> Vec<String> {
    list.iter().map(|s| s.to_string()).collect()
}

#[test]
fn wildcard_includes_every_file() {
    let e = exts(&["*"]);
    assert!(should_include_file("a.txt", &e));
    assert!(should_include_file("c.md", &e));
    assert!(should_include_file("README", &e));
    assert!(should_include_file(".gitignore", &e));
    assert!(should_include_file("", &e));
}

#[test]
fn wildcard_with_other_entries_still_includes() {
    let e = exts(&["md", "*"]);
    assert!(should_include_file("noext", &e));
}

#[test]
fn extension_match_is_case_insensitive() {
    let e = exts(&["txt"]);
    assert!(should_include_file("a.txt", &e));
    assert!(should_include_file("b.TXT", &e));
    assert!(should_include_file("b.TxT", &e));
    let upper = exts(&["TXT"]);
    assert!(should_include_file("a.txt", &upper));
}

#[test]
fn non_matching_extension_is_excluded() {
    let e = exts(&["txt"]);
    assert!(!should_include_file("c.md", &e));
    assert!(!should_include_file("archive.txt.gz", &e));
}

#[test]
fn file_without_extension_is_excluded() {
    let e = exts(&["txt"]);
    assert!(!should_include_file("README", &e));
    assert!(!should_include_file("", &e));
}

#[test]
fn leading_dot_alone_is_no_extension() {
    let e = exts(&["gitignore"]);
    assert!(!should_include_file(".gitignore", &e));
    let tar = exts(&["gz"]);
    assert!(should_include_file(".archive.gz", &tar));
}

#[test]
fn empty_allowed_list_excludes_everything() {
    let e = exts(&[]);
    assert!(!should_include_file("a.txt", &e));
    assert!(!should_include_file("README", &e));
}

#[test]
fn non_ascii_names_match_by_extension() {
    let e = exts(&["txt"]);
    assert!(should_include_file("übersicht.TXT", &e));
    assert!(!should_include_file("übersicht", &e));
}

#[test]
fn case_folding_covers_non_ascii_letters() {
    let lower = exts(&["ü"]);
    assert!(should_include_file("x.Ü", &lower));
    let upper = exts(&["Ü"]);
    assert!(should_include_file("x.ü", &upper));
    assert!(!should_include_file("x.u", &lower));
}

#[test]
fn last_extension_counts() {
    let e = exts(&["gz"]);
    assert!(should_include_file("archive.tar.gz", &e));
    let tar = exts(&["tar"]);
    assert!(!should_include_file("archive.tar.gz", &tar));
}
