use file_age_tracker::{
    build_table, header_row, is_printable, push_row, table_row, File, TableRow, Timestamp,
};
use prettytable::Table;

fn aged(path: &str, age_secs: i64) -> File {
    let created = Timestamp::new(1_000_000, 0).unwrap();
    let now = Timestamp::new(1_000_000 + age_secs, 0).unwrap();
    File::new(path.to_string(), created, now)
}

fn row(path: &str, filename: &str, age: &str) -> TableRow {
    TableRow::new(path.to_string(), filename.to_string(), age.to_string())
}

/// The texts of the cells of `table`, row by row.
fn texts(table: &Table) -> Vec<Vec<String>> {
    table.row_iter().map(|row| row.iter().map(|cell| cell.get_content()).collect()).collect()
}

#[test]
fn header_names_the_three_columns() {
    let header = header_row();
    assert_eq!(header.path, "path");
    assert_eq!(header.filename, "filename");
    assert_eq!(header.age, "time since creation");
}

#[test]
fn row_is_made_of_its_cells() {
    let made = TableRow::new("a".to_string(), "b".to_string(), "c".to_string());
    assert_eq!(made.path, "a");
    assert_eq!(made.filename, "b");
    assert_eq!(made.age, "c");
}

#[test]
fn row_shows_directory_name_and_age() {
    assert_eq!(
        table_row(&aged("/home/user/docs/old.txt", 3 * 86400)),
        Some(row("/home/user/docs", "old.txt", "3 days ago"))
    );
}

#[test]
fn row_shows_the_directory_without_doubled_separators() {
    assert_eq!(
        table_row(&aged("/home//user/old.txt", 7200)),
        Some(row("/home/user", "old.txt", "2 hours ago"))
    );
}

#[test]
fn path_without_a_name_has_no_row() {
    assert_eq!(table_row(&aged("/", 1)), None);
    assert_eq!(table_row(&aged("", 1)), None);
    assert_eq!(table_row(&aged("x/..", 1)), None);
}

#[test]
fn pushed_row_goes_last() {
    let mut table = Table::new();
    push_row(&mut table, &row("/d", "b.txt", "1 day ago"));
    assert_eq!(texts(&table), vec![vec!["/d", "b.txt", "1 day ago"]]);
    push_row(&mut table, &row("", "c", "now"));
    assert_eq!(texts(&table), vec![vec!["/d", "b.txt", "1 day ago"], vec!["", "c", "now"]]);
}

#[test]
fn cell_holds_the_lines_of_its_text() {
    let mut table = Table::new();
    push_row(&mut table, &row("/d", "two\nlines.txt", "now\n"));
    assert_eq!(texts(&table), vec![vec!["/d", "two\nlines.txt", "now"]]);
}

#[test]
fn text_with_an_escape_character_is_not_printable() {
    assert!(is_printable(""));
    assert!(is_printable("old.txt"));
    assert!(is_printable("[\u{644}\u{627}\u{644}\u{627}"));
    assert!(!is_printable("\u{1b}"));
    assert!(!is_printable("a\u{1b}[31m"));
    assert!(!is_printable("\u{1b}[\u{644}\u{627}\u{644}\u{627}"));
    assert!(!is_printable("name.txt\u{1b}"));
}

#[test]
fn file_with_an_escape_character_has_no_row() {
    assert_eq!(table_row(&aged("/d/\u{1b}[\u{644}\u{627}\u{644}\u{627}", 1)), None);
    assert_eq!(table_row(&aged("/d\u{1b}/a.txt", 1)), None);
    assert_eq!(table_row(&aged("/d/a\u{1b}.txt", 1)), None);
}

#[test]
fn table_needs_every_file_to_be_printable() {
    let entries = vec![aged("/d/b.txt", 1), aged("/d/\u{1b}[\u{644}\u{627}\u{644}\u{627}", 1)];
    assert_eq!(build_table(&entries), None);
}

#[test]
fn wide_and_joining_characters_have_a_row() {
    let shown = table_row(&aged("/d/\u{644}\u{627}\u{644}\u{627} 日本.txt", 60)).unwrap();
    let mut table = Table::new();
    push_row(&mut table, &shown);
    assert_eq!(texts(&table), vec![vec!["/d", "\u{644}\u{627}\u{644}\u{627} 日本.txt", "1 minute ago"]]);
}

#[test]
fn table_has_a_row_for_each_file_in_order() {
    let entries =
        vec![aged("/d/b.txt", 86400), aged("/d/e/a.txt", 60), aged("c.txt", 2 * 31536000)];
    let table = build_table(&entries).unwrap();
    assert_eq!(
        texts(&table),
        vec![
            vec!["path", "filename", "time since creation"],
            vec!["/d", "b.txt", "1 day ago"],
            vec!["/d/e", "a.txt", "1 minute ago"],
            vec!["", "c.txt", "1 year ago"],
        ]
    );
}

#[test]
fn table_is_drawn_with_its_header_on_top() {
    let table = build_table(&vec![aged("/d/b.txt", 86400)]).unwrap();
    let drawn = table.to_string().replace("\r\n", "\n");
    let expected = "\
+------+----------+---------------------+
| path | filename | time since creation |
+------+----------+---------------------+
| /d   | b.txt    | 1 day ago           |
+------+----------+---------------------+
";
    assert_eq!(drawn, expected);
}

#[test]
fn table_of_nothing_has_only_the_header() {
    let table = build_table(&vec![]).unwrap();
    assert_eq!(texts(&table), vec![vec!["path", "filename", "time since creation"]]);
}

#[test]
fn table_needs_every_file_to_have_a_row() {
    assert_eq!(build_table(&vec![aged("/d/b.txt", 1), aged("/", 1)]), None);
}

#[test]
fn table_leaves_the_entries_alone() {
    let entries = vec![aged("/d/b.txt", 86400)];
    let before = entries.clone();
    build_table(&entries);
    assert_eq!(entries, before);
}
