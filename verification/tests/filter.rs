use file_age_tracker::{filter_files, File, Span, Timestamp};

fn aged(path: &str, age_secs: i64) -> File {
    let created = Timestamp::new(1_000_000, 0).unwrap();
    let now = Timestamp::new(1_000_000 + age_secs, 0).unwrap();
    File::new(path.to_string(), created, now)
}

fn paths(files: &Vec<File>) -> Vec<String> {
    files.iter().map(|file| file.full_path().to_string()).collect()
}

#[test]
fn file_as_old_as_the_threshold_is_kept() {
    let kept = filter_files(vec![aged("a", 100)], Span::from_secs(100));
    assert_eq!(kept, vec![aged("a", 100)]);
}

#[test]
fn file_younger_than_the_threshold_is_dropped() {
    let kept = filter_files(vec![aged("a", 100)], Span::from_secs(101));
    assert_eq!(kept, Vec::<File>::new());
}

#[test]
fn a_nanosecond_decides() {
    let created = Timestamp::new(0, 1).unwrap();
    let now = Timestamp::new(100, 0).unwrap();
    let young = File::new("young".to_string(), created, now);
    assert_eq!(filter_files(vec![young.clone()], Span::from_secs(100)), Vec::<File>::new());
    assert_eq!(
        filter_files(vec![young.clone()], Span::new(99, 999_999_999).unwrap()),
        vec![young]
    );
}

#[test]
fn file_is_kept_by_its_own_age_and_dropped_by_a_longer_one() {
    for age in [0i64, 1, 59, 3600, 86399, 86400, 31536000] {
        let own = Span::from_secs(age as u64);
        let longer = Span::new(age as u64, 1).unwrap();
        assert_eq!(filter_files(vec![aged("f", age)], own).len(), 1);
        assert_eq!(filter_files(vec![aged("f", age)], longer).len(), 0);
    }
}

#[test]
fn filter_keeps_the_order() {
    let entries = vec![aged("a", 500), aged("b", 10), aged("c", 900)];
    let kept = filter_files(entries, Span::from_secs(100));
    assert_eq!(paths(&kept), vec!["a", "c"]);
}

#[test]
fn filter_keeps_the_order_among_many() {
    let entries = vec![
        aged("1", 7),
        aged("2", 70),
        aged("3", 6),
        aged("4", 60),
        aged("5", 50),
        aged("6", 5),
        aged("7", 50),
    ];
    let kept = filter_files(entries, Span::from_secs(50));
    assert_eq!(paths(&kept), vec!["2", "4", "5", "7"]);
}

#[test]
fn filter_of_nothing_is_nothing() {
    assert_eq!(filter_files(Vec::new(), Span::from_secs(0)), Vec::<File>::new());
}

#[test]
fn threshold_of_zero_keeps_all() {
    let entries = vec![aged("a", 0), aged("b", 1)];
    assert_eq!(filter_files(entries.clone(), Span::from_secs(0)), entries);
}

#[test]
fn filter_leaves_the_files_as_they_were() {
    let kept = filter_files(vec![aged("/x/y.txt", 10)], Span::from_secs(5));
    assert_eq!(kept[0].full_path(), "/x/y.txt");
    assert_eq!(kept[0].time_since_creation(), Span::from_secs(10));
    assert_eq!(kept[0].creation_date(), Timestamp::new(1_000_000, 0).unwrap());
}
