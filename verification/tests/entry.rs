use file_age_tracker::{normalize_separators, File, Span, Timestamp};

fn at(secs: i64) -> Timestamp {
    Timestamp::new(secs, 0).unwrap()
}

fn aged(path: &str, age_secs: i64) -> File {
    File::new(path.to_string(), at(1_000_000), at(1_000_000 + age_secs))
}

#[test]
fn new_file_keeps_what_it_was_given() {
    let created = Timestamp::new(1_700_000_000, 5).unwrap();
    let now = Timestamp::new(1_700_000_100, 5).unwrap();
    let file = File::new("/data/report.pdf".to_string(), created, now);
    assert_eq!(file.full_path(), "/data/report.pdf");
    assert_eq!(file.creation_date(), created);
    assert_eq!(file.time_since_creation(), Span::from_secs(100));
}

#[test]
fn age_is_now_less_creation() {
    let created = Timestamp::new(10, 900_000_000).unwrap();
    let now = Timestamp::new(15, 100_000_000).unwrap();
    let file = File::new("a".to_string(), created, now);
    assert_eq!(file.time_since_creation(), Span::new(4, 200_000_000).unwrap());
}

#[test]
fn file_created_now_has_no_age() {
    let file = File::new("a".to_string(), at(77), at(77));
    assert_eq!(file.time_since_creation(), Span::from_secs(0));
}

#[test]
fn path_is_the_directory() {
    assert_eq!(aged("/home/user/docs/report.pdf", 1).get_path(), "/home/user/docs");
    assert_eq!(aged("docs/report.pdf", 1).get_path(), "docs");
    assert_eq!(aged("/report.pdf", 1).get_path(), "/");
}

#[test]
fn path_of_a_bare_name_is_empty() {
    assert_eq!(aged("report.pdf", 1).get_path(), "");
}

#[test]
fn path_has_no_doubled_separator() {
    assert_eq!(aged("/home//user/docs/report.pdf", 1).get_path(), "/home/user/docs");
    assert_eq!(aged("//srv//data//x.bin", 1).get_path(), "/srv/data");
}

#[test]
fn file_name_is_the_last_component() {
    assert_eq!(aged("/home/user/docs/report.pdf", 1).get_file_name(), "report.pdf");
    assert_eq!(aged("report.pdf", 1).get_file_name(), "report.pdf");
    assert_eq!(aged("a/b/.hidden", 1).get_file_name(), ".hidden");
}

#[test]
fn ordinary_paths_are_locatable() {
    assert!(aged("/home/user/report.pdf", 1).is_locatable());
    assert!(aged("report.pdf", 1).is_locatable());
}

#[test]
fn paths_without_directory_or_name_are_not_locatable() {
    assert!(!aged("", 1).is_locatable());
    assert!(!aged("/", 1).is_locatable());
    assert!(!aged("a/..", 1).is_locatable());
}

#[test]
fn age_is_told_in_words() {
    assert_eq!(aged("a", 3600).get_time_since_creation(), "1 hour ago");
    assert_eq!(aged("a", 5 * 3600).get_time_since_creation(), "5 hours ago");
    assert_eq!(aged("a", 3 * 86400).get_time_since_creation(), "3 days ago");
    assert_eq!(aged("a", 10 * 86400).get_time_since_creation(), "1 week ago");
    assert_eq!(aged("a", 45).get_time_since_creation(), "45 seconds ago");
}

#[test]
fn no_age_is_now() {
    assert_eq!(aged("a", 0).get_time_since_creation(), "now");
}

#[test]
fn separators_are_collapsed() {
    assert_eq!(normalize_separators("a//b"), "a/b");
    assert_eq!(normalize_separators("//a//b//"), "/a/b/");
    assert_eq!(normalize_separators("a///b////c"), "a/b/c");
}

#[test]
fn single_separators_stay() {
    assert_eq!(normalize_separators("/a/b/c"), "/a/b/c");
    assert_eq!(normalize_separators(""), "");
    assert_eq!(normalize_separators("/"), "/");
    assert_eq!(normalize_separators("no separator"), "no separator");
}

#[test]
fn normalizing_twice_changes_nothing_more() {
    let once = normalize_separators("x////y//z/");
    assert_eq!(normalize_separators(&once), once);
}
