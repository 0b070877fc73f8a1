use file_age_tracker::actions::find_split_point;
use file_age_tracker::{
    delete_files, flag_files, flagged_path, Batch, BatchStatus, File, FileOp, Timestamp,
};

fn file(path: &str) -> File {
    File::new(path.to_string(), Timestamp::new(0, 0).unwrap(), Timestamp::new(10, 0).unwrap())
}

fn remove(path: &str) -> FileOp {
    FileOp::Remove { path: path.to_string() }
}

fn rename(from: &str, to: &str) -> FileOp {
    FileOp::Rename { from: from.to_string(), to: to.to_string() }
}

#[test]
fn flag_goes_before_the_extension() {
    assert_eq!(
        flagged_path("/home/user/report.pdf"),
        "/home/user/report_flagged.pdf"
    );
    assert_eq!(flagged_path("report.pdf"), "report_flagged.pdf");
}

#[test]
fn flag_goes_before_the_last_extension() {
    assert_eq!(flagged_path("backup.tar.gz"), "backup.tar_flagged.gz");
    assert_eq!(flagged_path("a/b/.hidden"), "a/b/_flagged.hidden");
    assert_eq!(flagged_path("a/b/name."), "a/b/name_flagged.");
}

#[test]
fn flag_passes_over_dots_in_directories() {
    assert_eq!(
        flagged_path("/srv/v1.2/data/report.pdf"),
        "/srv/v1.2/data/report_flagged.pdf"
    );
    assert_eq!(flagged_path("./old.txt"), "./old_flagged.txt");
    assert_eq!(flagged_path("../x/old.txt"), "../x/old_flagged.txt");
    assert_eq!(flagged_path("a.b/report.pdf"), "a.b/report_flagged.pdf");
}

#[test]
fn flag_leaves_a_name_without_dot() {
    assert_eq!(flagged_path("/srv/v1.2/README"), "/srv/v1.2/README");
    assert_eq!(flagged_path("README"), "README");
    assert_eq!(flagged_path(""), "");
    assert_eq!(flagged_path("dir.d/"), "dir.d/");
}

#[test]
fn flag_counts_characters_not_bytes() {
    assert_eq!(flagged_path("/données/été.txt"), "/données/été_flagged.txt");
    assert_eq!(find_split_point("/données/été.txt"), Some(12));
}

#[test]
fn split_point_is_found_or_not() {
    assert_eq!(find_split_point("a.b/c.d.e"), Some(7));
    assert_eq!(find_split_point("a.b/cde"), None);
    assert_eq!(find_split_point(""), None);
    assert_eq!(find_split_point("."), Some(0));
}

#[test]
fn deletion_plan_removes_each_file_in_order() {
    let entries = vec![file("/a/one.txt"), file("/a/two"), file("three.log")];
    assert_eq!(
        delete_files(&entries),
        vec![remove("/a/one.txt"), remove("/a/two"), remove("three.log")]
    );
}

#[test]
fn flagging_plan_renames_each_file_in_order() {
    let entries = vec![file("/a/one.txt"), file("/a/two"), file("x.y/three.tar.gz")];
    assert_eq!(
        flag_files(&entries),
        vec![
            rename("/a/one.txt", "/a/one_flagged.txt"),
            rename("/a/two", "/a/two"),
            rename("x.y/three.tar.gz", "x.y/three.tar_flagged.gz"),
        ]
    );
}

#[test]
fn plans_for_nothing_are_empty() {
    assert_eq!(delete_files(&vec![]), vec![]);
    assert_eq!(flag_files(&vec![]), vec![]);
}

#[test]
fn plans_leave_the_entries_alone() {
    let entries = vec![file("/a/one.txt")];
    let before = entries.clone();
    delete_files(&entries);
    flag_files(&entries);
    assert_eq!(entries, before);
}

#[test]
fn batch_hands_out_the_operations_in_order() {
    let mut batch = Batch::new(vec![remove("a"), remove("b")]);
    assert_eq!(batch.status(), BatchStatus::Pending);
    assert_eq!(batch.next_operation(), Some(&remove("a")));
    assert_eq!(batch.next_operation(), Some(&remove("a")));
    batch.record(true);
    assert_eq!(batch.completed(), 1);
    assert_eq!(batch.next_operation(), Some(&remove("b")));
    batch.record(true);
    assert_eq!(batch.next_operation(), None);
    assert_eq!(batch.status(), BatchStatus::Completed);
    assert_eq!(batch.completed(), 2);
}

#[test]
fn batch_ends_at_the_first_failure() {
    let mut batch = Batch::new(vec![remove("a"), remove("b"), remove("c")]);
    batch.record(true);
    batch.record(false);
    assert_eq!(batch.status(), BatchStatus::Failed { index: 1 });
    assert_eq!(batch.next_operation(), None);
    assert_eq!(batch.completed(), 1);
    batch.record(true);
    assert_eq!(batch.status(), BatchStatus::Failed { index: 1 });
    assert_eq!(batch.completed(), 1);
}

#[test]
fn empty_batch_is_complete() {
    let mut batch = Batch::new(vec![]);
    assert_eq!(batch.status(), BatchStatus::Completed);
    assert_eq!(batch.next_operation(), None);
    batch.record(false);
    assert_eq!(batch.status(), BatchStatus::Completed);
    assert_eq!(batch.completed(), 0);
}
