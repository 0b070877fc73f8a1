//! What this library takes on trust: the few calls it makes into code that
//! Verus does not read. Each contract below restates what that code is
//! documented to do; nothing here is proved.

use vstd::prelude::*;

verus! {

/// `String::push` of std puts one character at the end of the string and
/// leaves the rest as it was.
pub assume_specification[ String::push ](s: &mut String, ch: char)
    ensures
        final(s)@ == old(s)@.push(ch),
;

/// The path that `Path::parent` of std gives for the path written as `path`:
/// the path without its last component, or none where there is no such
/// component to take away.
pub uninterp spec fn path_parent(path: Seq<char>) -> Option<Seq<char>>;

/// The text that `Path::file_name` of std gives for the path written as
/// `path`: its last component, or none where the path ends in `..` or has no
/// component at all.
pub uninterp spec fn path_file_name(path: Seq<char>) -> Option<Seq<char>>;

/// The phrase that `timeago::Formatter::convert` gives, with the formatter
/// as `timeago::Formatter::new` makes it, for a duration of `secs` seconds
/// and `nanos` nanoseconds.
pub uninterp spec fn relative_age_text(secs: int, nanos: int) -> Seq<char>;

/// `prettytable::Table`: a table of rows, each row of cells. Verus sees
/// nothing inside it.
#[verifier::external_type_specification]
#[verifier::external_body]
pub struct ExTable(prettytable::Table);

/// The rows of `table` from top to bottom, each as the texts that its cells
/// hold from left to right, a cell's text being what
/// `prettytable::Cell::get_content` gives.
pub uninterp spec fn table_rows(table: prettytable::Table) -> Seq<Seq<Seq<char>>>;

/// The text held by a cell that `prettytable::Cell::new` made from `text`:
/// the lines of `text`, joined by line feeds.
pub uninterp spec fn cell_text(text: Seq<char>) -> Seq<char>;

/// Calls `prettytable::Table::new`, which makes a table without rows.
#[verifier::external_body]
pub(crate) fn empty_table() -> (table: prettytable::Table)
    ensures
        table_rows(table) == Seq::<Seq<Seq<char>>>::empty(),
{
    prettytable::Table::new()
}

/// Calls `prettytable::Table::add_row` with a row of three cells, each made
/// by `prettytable::Cell::new`. The row goes behind the rows that the table
/// has, and those stay as they are.
///
/// `Cell::new` measures its text, and the measuring ends in an assertion
/// that can fail once the text has opened a terminal escape sequence, which
/// begins with U+001B. A text without that character opens none, so such
/// texts are all that is let in.
#[verifier::external_body]
pub(crate) fn add_row(table: &mut prettytable::Table, path: &str, filename: &str, age: &str)
    requires
        !path@.contains('\u{1b}'),
        !filename@.contains('\u{1b}'),
        !age@.contains('\u{1b}'),
    ensures
        table_rows(*final(table)) == table_rows(*old(table)).push(
            seq![cell_text(path@), cell_text(filename@), cell_text(age@)],
        ),
{
    let cells = vec![
        prettytable::Cell::new(path),
        prettytable::Cell::new(filename),
        prettytable::Cell::new(age),
    ];
    table.add_row(prettytable::Row::new(cells));
}

/// Calls `Path::parent` of std on `path`. The contract only gives the
/// outcome its name, `path_parent`: the same text always has the same parent.
#[verifier::external_body]
pub(crate) fn parent_of(path: &str) -> (parent: Option<String>)
    ensures
        parent is Some <==> path_parent(path@) is Some,
        parent matches Some(dir) ==> path_parent(path@) == Some(dir@),
{
    std::path::Path::new(path).parent().and_then(|dir| dir.to_str()).map(str::to_string)
}

/// Calls `Path::file_name` of std on `path`. The contract only gives the
/// outcome its name, `path_file_name`.
#[verifier::external_body]
pub(crate) fn file_name_of(path: &str) -> (name: Option<String>)
    ensures
        name is Some <==> path_file_name(path@) is Some,
        name matches Some(text) ==> path_file_name(path@) == Some(text@),
{
    std::path::Path::new(path).file_name().and_then(|name| name.to_str()).map(str::to_string)
}

/// Calls `timeago::Formatter::convert` on a formatter fresh from
/// `timeago::Formatter::new`. The contract only gives the phrase its name,
/// `relative_age_text`. `Duration::new` of std panics where the nanoseconds
/// carry over the largest number of seconds; with less than a second of
/// them nothing is carried.
#[verifier::external_body]
pub(crate) fn humanize(secs: u64, nanos: u32) -> (text: String)
    requires
        nanos < 1_000_000_000,
    ensures
        text@ == relative_age_text(secs as int, nanos as int),
{
    timeago::Formatter::new().convert(std::time::Duration::new(secs, nanos))
}

} // verus!
