//! Tracks the age of the files under a directory: which of them are at least
//! as old as a threshold, how they are shown, and what is done with them once
//! the operator has answered.
//!
//! The library holds the rules. Walking directories, printing, asking the
//! operator and touching files are left to the caller, who hands in what was
//! found and is handed back what to show and what to do.
//!
//! - `threshold` reads a threshold such as `30d`.
//! - `scan` turns what a walk met into the list of files.
//! - `filter` keeps the files that are old enough.
//! - `present` fills the table that shows them.
//! - `dialog` leads the operator through two questions.
//! - `actions` plans the deleting and the flagging, and follows a plan while
//!   it is carried out.
//! - `entry`, `time` and `text` hold what the others share; `trusted` holds
//!   the calls into code that is not verified.

pub mod actions;
pub mod dialog;
pub mod entry;
pub mod filter;
pub mod present;
pub mod scan;
pub mod text;
pub mod threshold;
pub mod time;
pub mod trusted;

pub use crate::actions::{
    delete_files, flag_files, flagged_path, Batch, BatchStatus, FileOp,
};
pub use crate::dialog::{
    classify_answer, notice_after, prompt, transition, Action, Answer, Controller, Notice, Report,
    Response, State,
};
pub use crate::entry::{normalize_separators, File};
pub use crate::filter::filter_files;
pub use crate::present::{build_table, header_row, is_printable, push_row, table_row, TableRow};
pub use crate::scan::{read_folder_content, scan_item, ScanError, WalkItem};
pub use crate::threshold::{parse_threshold, time_unit, ParseError, TimeUnit};
pub use crate::time::{Span, Timestamp};
