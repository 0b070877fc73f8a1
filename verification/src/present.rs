//! The presenter: the table in which the filtered files are shown. The
//! table is filled here; printing it is the caller's. The files are only
//! read.

use vstd::prelude::*;
use crate::entry::{collapse_separators, locatable, File, FileView};
use crate::text::chars_of;
use crate::trusted::{
    add_row, cell_text, empty_table, path_file_name, path_parent, relative_age_text, table_rows,
};

verus! {

/// The character that opens a terminal escape sequence.
pub const ESCAPE: char = '\u{1b}';

/// One row of the table.
#[derive(Debug, Clone, PartialEq, Eq)]
pub struct TableRow {
    /// The directory that holds the file.
    pub path: String,
    /// The file's name.
    pub filename: String,
    /// The file's age in words.
    pub age: String,
}

/// What a `TableRow` stands for.
pub struct TableRowView {
    pub path: Seq<char>,
    pub filename: Seq<char>,
    pub age: Seq<char>,
}

impl View for TableRow {
    type V = TableRowView;

    open spec fn view(&self) -> TableRowView {
        TableRowView { path: self.path@, filename: self.filename@, age: self.age@ }
    }
}

/// The row that heads the table.
pub open spec fn header() -> TableRowView {
    TableRowView { path: "path"@, filename: "filename"@, age: "time since creation"@ }
}

/// The row that shows `file`: its directory with no separator doubled, its
/// name, and its age in words.
pub open spec fn row_of(file: FileView) -> TableRowView {
    TableRowView {
        path: collapse_separators(path_parent(file.path)->0),
        filename: path_file_name(file.path)->0,
        age: relative_age_text(
            (file.time_since_creation / 1_000_000_000) as int,
            (file.time_since_creation % 1_000_000_000) as int,
        ),
    }
}

/// Whether `text` can stand in a cell: whether it holds no escape
/// character.
pub open spec fn printable(text: Seq<char>) -> bool {
    !text.contains(ESCAPE)
}

/// Whether every cell of `row` can stand in a table.
pub open spec fn row_printable(row: TableRowView) -> bool {
    printable(row.path) && printable(row.filename) && printable(row.age)
}

/// Whether `file` can be shown: whether its path has a directory and a file
/// name, and the row that shows it can stand in a table.
pub open spec fn showable(file: FileView) -> bool {
    locatable(file.path) && row_printable(row_of(file))
}

/// The cells of a table's row that shows `row`.
pub open spec fn cells_of(row: TableRowView) -> Seq<Seq<char>> {
    seq![cell_text(row.path), cell_text(row.filename), cell_text(row.age)]
}

/// The rows of the table that shows `entries`: the header, then one row for
/// each file, in their order.
pub open spec fn table_of(entries: Seq<File>) -> Seq<Seq<Seq<char>>> {
    Seq::new(
        entries.len() + 1,
        |i: int|
            if i == 0 {
                cells_of(header())
            } else {
                cells_of(row_of(entries[i - 1]@))
            },
    )
}

impl TableRow {
    /// A row of these three cells.
    pub fn new(path: String, filename: String, age: String) -> (row: TableRow)
        ensures
            row@ == (TableRowView { path: path@, filename: filename@, age: age@ }),
    {
        TableRow { path, filename, age }
    }
}

/// Whether `text` can stand in a cell.
pub fn is_printable(text: &str) -> (fit: bool)
    ensures
        fit == printable(text@),
{
    let chars = chars_of(text);
    let mut i: usize = 0;
    while i < chars.len()
        invariant
            i <= chars.len(),
            chars@ == text@,
            forall|j: int| 0 <= j < i ==> chars@[j] != ESCAPE,
        decreases chars.len() - i,
    {
        if chars[i] == ESCAPE {
            return false;
        }
        i += 1;
    }
    true
}

/// The row that heads the table: `path`, `filename`, `time since creation`.
pub fn header_row() -> (row: TableRow)
    ensures
        row@ == header(),
        row_printable(row@),
{
    proof {
        reveal_strlit("path");
        reveal_strlit("filename");
        reveal_strlit("time since creation");
    }
    TableRow::new(
        String::from_str("path"),
        String::from_str("filename"),
        String::from_str("time since creation"),
    )
}

/// The row that shows `entry`; none where it cannot be shown, because its
/// path has no directory or no file name, or because one of the three texts
/// holds an escape character.
pub fn table_row(entry: &File) -> (row: Option<TableRow>)
    ensures
        row is Some <==> showable(entry@),
        row matches Some(shown) ==> shown@ == row_of(entry@),
{
    if !entry.is_locatable() {
        return None;
    }
    let path = entry.get_path();
    let filename = entry.get_file_name();
    let age = entry.get_time_since_creation();
    if is_printable(path.as_str()) && is_printable(filename.as_str()) && is_printable(
        age.as_str(),
    ) {
        Some(TableRow::new(path, filename, age))
    } else {
        None
    }
}

/// Puts `row` behind the rows of `table`.
pub fn push_row(table: &mut prettytable::Table, row: &TableRow)
    requires
        row_printable(row@),
    ensures
        table_rows(*final(table)) == table_rows(*old(table)).push(cells_of(row@)),
{
    add_row(table, row.path.as_str(), row.filename.as_str(), row.age.as_str());
}

/// The table that shows `entries`: the header and one row for each file, in
/// their order; none where some file cannot be shown. The files are left as
/// they are.
pub fn build_table(entries: &Vec<File>) -> (table: Option<prettytable::Table>)
    ensures
        table is Some <==> forall|i: int|
            0 <= i < entries.len() ==> showable((#[trigger] entries@[i])@),
        table matches Some(shown) ==> table_rows(shown) == table_of(entries@),
{
    let mut table = empty_table();
    push_row(&mut table, &header_row());
    let mut i: usize = 0;
    while i < entries.len()
        invariant
            i <= entries.len(),
            forall|j: int| 0 <= j < i ==> showable((#[trigger] entries@[j])@),
            table_rows(table) == table_of(entries@.take(i as int)),
        decreases entries.len() - i,
    {
        match table_row(&entries[i]) {
            Some(row) => {
                push_row(&mut table, &row);
            },
            None => {
                return None;
            },
        }
        i += 1;
        assert(table_rows(table) =~= table_of(entries@.take(i as int)));
    }
    assert(entries@.take(i as int) =~= entries@);
    Some(table)
}

} // verus!
