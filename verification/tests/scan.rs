use python_supervisor::scan::{accept, summarize_scan, FoundFile, ScanDirectoryResult, ScannedFile};

fn found(name: &str, extension: Option<&str>, size: u64) -> FoundFile {
    FoundFile {
        path: format!("/docs/{}", name),
        name: name.to_string(),
        extension: extension.map(|text| text.to_string()),
        size,
    }
}

fn scanned(name: &str, extension: &str, size: u64) -> ScannedFile {
    ScannedFile {
        path: format!("/docs/{}", name),
        name: name.to_string(),
        size,
        extension: extension.to_string(),
    }
}

#[test]
fn files_are_accepted_by_extension() {
    assert_eq!(accept(&found("a.TXT", Some("TXT"), 3)), Some(scanned("a.TXT", ".txt", 3)));
    assert_eq!(accept(&found("b.docx", Some("docx"), 0)), Some(scanned("b.docx", ".docx", 0)));
    assert_eq!(accept(&found("c.pdf", Some("pdf"), 9)), None);
    assert_eq!(accept(&found("Makefile", None, 9)), None);
}

#[test]
fn empty_scan_is_empty() {
    assert_eq!(
        summarize_scan(&Vec::new()),
        Some(ScanDirectoryResult { files: Vec::new(), total_size: 0, skipped: 0 })
    );
}

#[test]
fn scan_keeps_sums_and_orders() {
    let walk = vec![
        found("zeta.md", Some("md"), 10),
        found("image.png", Some("png"), 1000),
        found("Alpha.txt", Some("txt"), 20),
        found("README", None, 5),
        found("beta.RTF", Some("RTF"), 30),
        found("alpha.doc", Some("doc"), 40),
    ];
    let summary = summarize_scan(&walk).unwrap();
    assert_eq!(summary.total_size, 100);
    assert_eq!(summary.skipped, 2);
    let names: Vec<&str> = summary.files.iter().map(|file| file.name.as_str()).collect();
    assert_eq!(names, vec!["alpha.doc", "Alpha.txt", "beta.RTF", "zeta.md"]);
    assert_eq!(summary.files[2], scanned("beta.RTF", ".rtf", 30));
}

#[test]
fn equal_names_keep_the_order_of_the_walk() {
    let mut first = found("Notes.txt", Some("txt"), 1);
    first.path = "/a/Notes.txt".to_string();
    let mut second = found("notes.TXT", Some("TXT"), 2);
    second.path = "/b/notes.TXT".to_string();
    let mut third = found("NOTES.txt", Some("txt"), 3);
    third.path = "/c/NOTES.txt".to_string();
    let summary =
        summarize_scan(&vec![first, found("m.md", Some("md"), 0), second, third]).unwrap();
    let paths: Vec<&str> = summary.files.iter().map(|file| file.path.as_str()).collect();
    assert_eq!(paths, vec!["/docs/m.md", "/a/Notes.txt", "/b/notes.TXT", "/c/NOTES.txt"]);
}

#[test]
fn scan_orders_as_strings_compare() {
    let names = ["b.txt", "a.txt", "ab.txt", "a b.txt", "Zz.txt", "émile.txt", "a.md", "10.txt", "9.txt", "_x.txt"];
    let walk: Vec<FoundFile> = names
        .iter()
        .map(|name| found(name, name.rsplit('.').next(), 1))
        .collect();
    let summary = summarize_scan(&walk).unwrap();
    let mut expected: Vec<&str> = names.to_vec();
    expected.sort_by(|left, right| left.to_lowercase().cmp(&right.to_lowercase()));
    let names: Vec<&str> = summary.files.iter().map(|file| file.name.as_str()).collect();
    assert_eq!(names, expected);
    assert_eq!(summary.total_size, 10);
}

#[test]
fn sizes_that_do_not_fit_give_no_summary() {
    let walk = vec![found("a.txt", Some("txt"), u64::MAX), found("b.txt", Some("txt"), 1)];
    assert_eq!(summarize_scan(&walk), None);
    let walk = vec![found("a.txt", Some("txt"), u64::MAX), found("b.bin", Some("bin"), 1)];
    assert_eq!(summarize_scan(&walk).map(|summary| summary.total_size), Some(u64::MAX));
    let walk = vec![found("a.txt", Some("txt"), u64::MAX - 1), found("b.md", Some("md"), 1)];
    assert_eq!(summarize_scan(&walk).map(|summary| summary.total_size), Some(u64::MAX));
}
