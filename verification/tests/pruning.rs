use backup_reporter::prune::{prune_selection, ReportFile};

fn file(name: &str, modified: i64) -> ReportFile {
    ReportFile { name: String::from(name), modified }
}

fn names(files: &[ReportFile]) -> Vec<&str> {
    files.iter().map(|f| f.name.as_str()).collect()
}

#[test]
fn five_files_retain_two_newest() {
    // scrambled listing order on purpose
    let files = vec![
        file("c", 300),
        file("e", 500),
        file("a", 100),
        file("d", 400),
        file("b", 200),
    ];
    let r = prune_selection(files, 2);
    assert_eq!(names(&r.delete), vec!["a", "b", "c"]);
    assert_eq!(names(&r.keep), vec!["d", "e"]);
}

#[test]
fn deletion_is_independent_of_listing_order() {
    let r1 = prune_selection(
        vec![file("a", 100), file("b", 200), file("c", 300), file("d", 400), file("e", 500)],
        2,
    );
    let r2 = prune_selection(
        vec![file("e", 500), file("d", 400), file("c", 300), file("b", 200), file("a", 100)],
        2,
    );
    assert_eq!(names(&r1.delete), names(&r2.delete));
    assert_eq!(names(&r1.keep), names(&r2.keep));
}

#[test]
fn zero_retention_deletes_every_file() {
    let r = prune_selection(vec![file("a", 100), file("b", 200)], 0);
    assert_eq!(r.keep.len(), 0);
    assert_eq!(names(&r.delete), vec!["a", "b"]);
}

#[test]
fn under_the_limit_nothing_is_deleted() {
    let r = prune_selection(vec![file("a", 100), file("b", 200)], 5);
    assert_eq!(r.delete.len(), 0);
    assert_eq!(names(&r.keep), vec!["a", "b"]);
}

#[test]
fn empty_directory_prunes_nothing() {
    let r = prune_selection(Vec::new(), 3);
    assert_eq!(r.delete.len(), 0);
    assert_eq!(r.keep.len(), 0);
}

#[test]
fn equal_times_keep_the_right_count() {
    let r = prune_selection(
        vec![file("a", 100), file("b", 100), file("c", 100), file("d", 100)],
        2,
    );
    assert_eq!(r.delete.len(), 2);
    assert_eq!(r.keep.len(), 2);
    // every kept file is at least as new as every deleted one
    for d in &r.delete {
        for k in &r.keep {
            assert!(d.modified <= k.modified);
        }
    }
}
