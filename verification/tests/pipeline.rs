use file_age_tracker::{
    build_table, filter_files, notice_after, parse_threshold, read_folder_content, Batch,
    BatchStatus, Controller, File, FileOp, Notice, Report, State, Timestamp, WalkItem,
};

const NOW: i64 = 1_700_000_000;

/// A directory with `old.txt`, ten days old, and `new.txt`, one hour old,
/// scanned and filtered by a threshold of one day.
fn filtered(root: &str) -> Vec<File> {
    let items = vec![
        WalkItem::Directory,
        WalkItem::RegularFile {
            path: format!("{}/old.txt", root),
            created: Timestamp::new(NOW - 10 * 86400, 0),
        },
        WalkItem::RegularFile { path: format!("{}/new.txt", root), created: Timestamp::new(NOW - 3600, 0) },
    ];
    let entries = read_folder_content(items, Timestamp::new(NOW, 0).unwrap()).unwrap();
    assert_eq!(entries.len(), 2);
    filter_files(entries, parse_threshold("1d").unwrap())
}

#[test]
fn only_the_old_file_passes_the_filter() {
    let kept = filtered("/data");
    assert_eq!(kept.len(), 1);
    assert_eq!(kept[0].full_path(), "/data/old.txt");
    let table = build_table(&kept).unwrap();
    assert_eq!(table.len(), 2);
    let shown: Vec<String> = table[1].iter().map(|cell| cell.get_content()).collect();
    assert_eq!(shown, vec!["/data", "old.txt", "1 week ago"]);
}

#[test]
fn no_then_yes_flags_the_old_file() {
    let mut controller = Controller::new(filtered("/data"));
    let first = controller.respond("no\n");
    assert_eq!(first.operations, vec![]);
    let second = controller.respond("yes\n");
    assert_eq!(
        second.operations,
        vec![FileOp::Rename {
            from: "/data/old.txt".to_string(),
            to: "/data/old_flagged.txt".to_string()
        }]
    );
    assert_eq!(second.report, Some(Report::Flagged));
    assert_eq!(controller.state(), State::FlagExecuted);
}

#[test]
fn no_then_yes_flags_the_old_file_under_a_dotted_root() {
    let mut controller = Controller::new(filtered("/tmp/.scratch.1"));
    controller.respond("no");
    assert_eq!(
        controller.respond("yes").operations,
        vec![FileOp::Rename {
            from: "/tmp/.scratch.1/old.txt".to_string(),
            to: "/tmp/.scratch.1/old_flagged.txt".to_string()
        }]
    );
}

#[test]
fn yes_deletes_the_old_file() {
    let mut controller = Controller::new(filtered("/data"));
    let response = controller.respond("yes\n");
    assert_eq!(response.operations, vec![FileOp::Remove { path: "/data/old.txt".to_string() }]);
    assert_eq!(response.report, Some(Report::Deleted));
    assert_eq!(controller.state(), State::DeleteExecuted);
    let mut batch = Batch::new(response.operations);
    let mut touched = Vec::new();
    while let Some(operation) = batch.next_operation() {
        touched.push(operation.clone());
        batch.record(true);
    }
    assert_eq!(touched, vec![FileOp::Remove { path: "/data/old.txt".to_string() }]);
    assert_eq!(batch.status(), BatchStatus::Completed);
    assert_eq!(notice_after(response.report, batch.status()), Notice::Report(Report::Deleted));
}

#[test]
fn failed_deletion_is_not_reported_as_done() {
    let mut controller = Controller::new(filtered("/data"));
    let response = controller.respond("yes\n");
    let mut batch = Batch::new(response.operations);
    batch.record(false);
    assert_eq!(batch.next_operation(), None);
    assert_eq!(
        notice_after(response.report, batch.status()),
        Notice::ActionFailed { index: 0 }
    );
}

#[test]
fn unknown_answer_touches_nothing() {
    let mut controller = Controller::new(filtered("/data"));
    let response = controller.respond("delete them\n");
    assert_eq!(response.operations, vec![]);
    assert_eq!(response.report, Some(Report::CommandNotFound));
    assert_eq!(response.report.unwrap().message(), "--> command not found");
    assert_eq!(controller.state(), State::Unrecognized);
    assert_eq!(controller.respond("yes").operations, vec![]);
}
