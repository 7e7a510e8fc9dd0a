use dirscan::record::create_file_info;
use dirscan::scan::scan_directory;
use dirscan::scan::FileMeta;
use dirscan::scan::FsEntry;
use dirscan::scan::ScanError;
use dirscan::scan::ScanInput;
use dirscan::scan::SkipReason;

fn exts(list: &[&str]) -> Vec<String> {
    list.iter().map(|s| s.to_string()).collect()
}

fn file(name: &str, size: u64) -> FsEntry {
    FsEntry::File {
        name: name.to_string(),
        meta: Some(FileMeta { size, modified: format!("m-{}", name) }),
    }
}

/// The tree under `/tmp/t`: `a.txt` (10), `b.TXT` (5), `c.md` (3) and
/// `sub/d.txt` (1).
fn sample_tree() -> Vec<FsEntry> {
    vec![
        file("a.txt", 10),
        file("b.TXT", 5),
        file("c.md", 3),
        FsEntry::Dir { name: "sub".to_string(), listing: Some(vec![file("d.txt", 1)]) },
    ]
}

#[test]
fn scan_txt_without_recursion() {
    let r = scan_directory("/tmp/t", ScanInput::Directory(sample_tree()), &exts(&["txt"]), false)
        .unwrap();
    assert_eq!(r.files.len(), 2);
    assert_eq!(r.files[0].name, "a.txt");
    assert_eq!(r.files[0].path, "/tmp/t/a.txt");
    assert_eq!(r.files[0].size, 10);
    assert_eq!(r.files[0].extension, "txt");
    assert_eq!(r.files[0].modified, "m-a.txt");
    assert_eq!(r.files[1].name, "b.TXT");
    assert_eq!(r.files[1].path, "/tmp/t/b.TXT");
    assert_eq!(r.files[1].size, 5);
    assert_eq!(r.files[1].extension, "TXT");
    assert_eq!(r.skipped.len(), 0);
}

#[test]
fn scan_txt_with_recursion() {
    let r = scan_directory("/tmp/t", ScanInput::Directory(sample_tree()), &exts(&["txt"]), true)
        .unwrap();
    assert_eq!(r.files.len(), 3);
    assert_eq!(r.files[0].name, "a.txt");
    assert_eq!(r.files[1].name, "b.TXT");
    assert_eq!(r.files[2].name, "d.txt");
    assert_eq!(r.files[2].path, "/tmp/t/sub/d.txt");
    assert_eq!(r.files[2].size, 1);
    assert_eq!(r.skipped.len(), 0);
}

#[test]
fn scan_wildcard_without_recursion() {
    let r = scan_directory("/tmp/t", ScanInput::Directory(sample_tree()), &exts(&["*"]), false)
        .unwrap();
    let names: Vec<&str> = r.files.iter().map(|f| f.name.as_str()).collect();
    assert_eq!(names, vec!["a.txt", "b.TXT", "c.md"]);
}

#[test]
fn missing_root_fails_with_not_found() {
    let r = scan_directory("/nope", ScanInput::Missing, &exts(&["*"]), true);
    let e = r.err().unwrap();
    assert_eq!(e, ScanError::NotFound);
    assert_eq!(e.message("/nope"), "directory does not exist: /nope");
}

#[test]
fn file_root_fails_with_not_a_directory() {
    let r = scan_directory("/tmp/t/a.txt", ScanInput::NotADirectory, &exts(&["*"]), false);
    let e = r.err().unwrap();
    assert_eq!(e, ScanError::NotADirectory);
    assert_eq!(e.message("/tmp/t/a.txt"), "path is not a directory: /tmp/t/a.txt");
}

#[test]
fn unreadable_root_is_not_fatal() {
    let r = scan_directory("/tmp/t", ScanInput::Unreadable, &exts(&["*"]), false).unwrap();
    assert_eq!(r.files.len(), 0);
    assert_eq!(r.skipped.len(), 1);
    assert_eq!(r.skipped[0].path, "/tmp/t");
    assert_eq!(r.skipped[0].reason, SkipReason::UnreadableDir);
}

#[test]
fn metadata_failure_skips_only_that_file() {
    let tree = vec![
        FsEntry::File { name: "bad.txt".to_string(), meta: None },
        file("good.txt", 7),
    ];
    let r = scan_directory("/d", ScanInput::Directory(tree), &exts(&["txt"]), false).unwrap();
    assert_eq!(r.files.len(), 1);
    assert_eq!(r.files[0].name, "good.txt");
    assert_eq!(r.skipped.len(), 1);
    assert_eq!(r.skipped[0].path, "/d/bad.txt");
    assert_eq!(r.skipped[0].reason, SkipReason::Metadata);
}

#[test]
fn metadata_failure_of_filtered_file_is_silent() {
    let tree = vec![FsEntry::File { name: "bad.md".to_string(), meta: None }];
    let r = scan_directory("/d", ScanInput::Directory(tree), &exts(&["txt"]), false).unwrap();
    assert_eq!(r.files.len(), 0);
    assert_eq!(r.skipped.len(), 0);
}

#[test]
fn unreadable_subdirectory_skips_only_that_subtree() {
    let tree = vec![
        FsEntry::Dir { name: "locked".to_string(), listing: None },
        file("a.txt", 2),
    ];
    let r = scan_directory("/d", ScanInput::Directory(tree), &exts(&["txt"]), true).unwrap();
    assert_eq!(r.files.len(), 1);
    assert_eq!(r.files[0].name, "a.txt");
    assert_eq!(r.skipped.len(), 1);
    assert_eq!(r.skipped[0].path, "/d/locked");
    assert_eq!(r.skipped[0].reason, SkipReason::UnreadableDir);
}

#[test]
fn unreadable_subdirectory_ignored_without_recursion() {
    let tree = vec![FsEntry::Dir { name: "locked".to_string(), listing: None }];
    let r = scan_directory("/d", ScanInput::Directory(tree), &exts(&["*"]), false).unwrap();
    assert_eq!(r.files.len(), 0);
    assert_eq!(r.skipped.len(), 0);
}

#[test]
fn nested_recursion_collects_depth_first() {
    let inner = vec![file("deep.txt", 4)];
    let tree = vec![
        FsEntry::Dir {
            name: "outer".to_string(),
            listing: Some(vec![
                file("mid.txt", 3),
                FsEntry::Dir { name: "inner".to_string(), listing: Some(inner) },
            ]),
        },
        file("top.txt", 9),
    ];
    let r = scan_directory("/r", ScanInput::Directory(tree), &exts(&["txt"]), true).unwrap();
    let paths: Vec<&str> = r.files.iter().map(|f| f.path.as_str()).collect();
    assert_eq!(paths, vec!["/r/outer/mid.txt", "/r/outer/inner/deep.txt", "/r/top.txt"]);
}

#[test]
fn create_file_info_derives_name_and_extension() {
    let info = create_file_info("/tmp/t/a.txt", 10, "stamp".to_string());
    assert_eq!(info.name, "a.txt");
    assert_eq!(info.path, "/tmp/t/a.txt");
    assert_eq!(info.size, 10);
    assert_eq!(info.modified, "stamp");
    assert_eq!(info.extension, "txt");
}

#[test]
fn create_file_info_handles_odd_paths() {
    let no_ext = create_file_info("/tmp/README", 1, "s".to_string());
    assert_eq!(no_ext.name, "README");
    assert_eq!(no_ext.extension, "");

    let hidden = create_file_info("/tmp/.gitignore", 1, "s".to_string());
    assert_eq!(hidden.name, ".gitignore");
    assert_eq!(hidden.extension, "");

    let trailing = create_file_info("/tmp/dir/", 1, "s".to_string());
    assert_eq!(trailing.name, "dir");
    assert_eq!(trailing.extension, "");

    let only_seps = create_file_info("///", 1, "s".to_string());
    assert_eq!(only_seps.name, "Unknown");
    assert_eq!(only_seps.extension, "");

    let dots = create_file_info("/tmp/..", 1, "s".to_string());
    assert_eq!(dots.name, "Unknown");

    let bare = create_file_info("plain.md", 2, "s".to_string());
    assert_eq!(bare.name, "plain.md");
    assert_eq!(bare.extension, "md");
}
