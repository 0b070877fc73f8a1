//! The disposition controller: two questions to the operator, and what
//! follows from the answers.
//!
//! The operator is first asked whether the listed files are to be deleted
//! and, after a no, whether they are to be flagged. The whole batch goes one
//! way; no file is picked out of it.

use vstd::prelude::*;
use crate::actions::{
    delete_files, flag_files, flagging_plan, plan_view, removal_plan, BatchStatus, FileOp,
    FileOpView,
};
use crate::entry::File;
use crate::text::chars_of;

verus! {

/// What the operator's line comes to.
#[derive(Debug, Clone, Copy, PartialEq, Eq)]
pub enum Answer {
    Yes,
    No,
    Unrecognized,
}

/// Where the dialog stands.
#[derive(Debug, Clone, Copy, PartialEq, Eq)]
pub enum State {
    /// The first question is open: delete the files?
    AwaitDeleteDecision,
    /// The second question is open: flag the files?
    AwaitFlagDecision,
    /// The files were handed over for deletion. The dialog is over.
    DeleteExecuted,
    /// The files were handed over for flagging. The dialog is over.
    FlagExecuted,
    /// The operator declined both. The dialog is over.
    NoActionTaken,
    /// An answer was neither a yes nor a no. The dialog is over.
    Unrecognized,
}

/// What is done to the files on an answer.
#[derive(Debug, Clone, Copy, PartialEq, Eq)]
pub enum Action {
    Delete,
    Flag,
    Nothing,
}

/// What the operator is told about an answer, once what the answer asked
/// for has been done.
#[derive(Debug, Clone, Copy, PartialEq, Eq)]
pub enum Report {
    /// The listed files were deleted.
    Deleted,
    /// The listed files were flagged.
    Flagged,
    /// Nothing was done to the files.
    NoActionTaken,
    /// The answer was not understood; nothing was done to the files.
    CommandNotFound,
}

/// Whether `c` is the small letter `letter` or its capital. `letter` is one
/// of `a` to `z`.
pub open spec fn is_letter(c: char, letter: char) -> bool {
    c == letter || c as int + 32 == letter as int
}

/// Whether `word`, written in small letters, stands in `s` at place `at`,
/// in small or capital letters or any mix of them.
pub open spec fn word_at(s: Seq<char>, word: Seq<char>, at: int) -> bool {
    &&& 0 <= at
    &&& at + word.len() <= s.len()
    &&& forall|k: int| 0 <= k < word.len() ==> is_letter(s[at + k], #[trigger] word[k])
}

/// Whether `word` stands somewhere in `s`.
pub open spec fn holds_word(s: Seq<char>, word: Seq<char>) -> bool {
    exists|at: int| word_at(s, word, at)
}

/// The word that agrees.
pub open spec fn yes_word() -> Seq<char> {
    seq!['y', 'e', 's']
}

/// The word that declines.
pub open spec fn no_word() -> Seq<char> {
    seq!['n', 'o']
}

/// What a line comes to: a yes where it holds `yes` anywhere, else a no
/// where it holds `no` anywhere, whatever stands around them.
pub open spec fn answer_of(line: Seq<char>) -> Answer {
    if holds_word(line, yes_word()) {
        Answer::Yes
    } else if holds_word(line, no_word()) {
        Answer::No
    } else {
        Answer::Unrecognized
    }
}

/// Whether the dialog is over in `state`.
pub open spec fn is_terminal(state: State) -> bool {
    !(state is AwaitDeleteDecision) && !(state is AwaitFlagDecision)
}

/// The state that follows `state` on `answer`.
pub open spec fn next_state(state: State, answer: Answer) -> State {
    match (state, answer) {
        (State::AwaitDeleteDecision, Answer::Yes) => State::DeleteExecuted,
        (State::AwaitDeleteDecision, Answer::No) => State::AwaitFlagDecision,
        (State::AwaitDeleteDecision, Answer::Unrecognized) => State::Unrecognized,
        (State::AwaitFlagDecision, Answer::Yes) => State::FlagExecuted,
        (State::AwaitFlagDecision, Answer::No) => State::NoActionTaken,
        (State::AwaitFlagDecision, Answer::Unrecognized) => State::Unrecognized,
        (over, _) => over,
    }
}

/// What is done to the files when `answer` comes in `state`.
pub open spec fn action_on(state: State, answer: Answer) -> Action {
    match (state, answer) {
        (State::AwaitDeleteDecision, Answer::Yes) => Action::Delete,
        (State::AwaitFlagDecision, Answer::Yes) => Action::Flag,
        _ => Action::Nothing,
    }
}

/// The report that belongs to `answer` in `state`. Once the dialog is over
/// there is nothing more to tell.
pub open spec fn report_on(state: State, answer: Answer) -> Option<Report> {
    match (state, answer) {
        (State::AwaitDeleteDecision, Answer::Yes) => Some(Report::Deleted),
        (State::AwaitDeleteDecision, Answer::No) => Some(Report::NoActionTaken),
        (State::AwaitDeleteDecision, Answer::Unrecognized) => Some(Report::CommandNotFound),
        (State::AwaitFlagDecision, Answer::Yes) => Some(Report::Flagged),
        (State::AwaitFlagDecision, Answer::No) => Some(Report::NoActionTaken),
        (State::AwaitFlagDecision, Answer::Unrecognized) => Some(Report::CommandNotFound),
        _ => None,
    }
}

/// The state of a dialog that began with the first question and has had
/// `answers`, in their order.
pub open spec fn state_after(answers: Seq<Answer>) -> State
    decreases answers.len(),
{
    if answers.len() == 0 {
        State::AwaitDeleteDecision
    } else {
        next_state(state_after(answers.drop_last()), answers.last())
    }
}

/// What is done to the files on the `k`-th of `answers`.
pub open spec fn action_at(answers: Seq<Answer>, k: int) -> Action {
    action_on(state_after(answers.take(k)), answers[k])
}

/// Once the dialog is over, an answer changes nothing, does nothing to the
/// files and is not replied to.
pub proof fn lemma_terminal_state_is_final(state: State, answer: Answer)
    requires
        is_terminal(state),
    ensures
        next_state(state, answer) == state,
        action_on(state, answer) == Action::Nothing,
        report_on(state, answer) is None,
{
}

/// Two answers end every dialog.
pub proof fn lemma_two_answers_end_dialog(first: Answer, second: Answer)
    ensures
        is_terminal(next_state(next_state(State::AwaitDeleteDecision, first), second)),
{
}

/// An answer that does something to the files ends the dialog.
pub proof fn lemma_action_ends_dialog(state: State, answer: Answer)
    requires
        action_on(state, answer) != Action::Nothing,
    ensures
        is_terminal(next_state(state, answer)),
{
}

proof fn lemma_over_stays_over(answers: Seq<Answer>, k: int)
    requires
        0 <= k <= answers.len(),
        is_terminal(state_after(answers.take(k))),
    ensures
        state_after(answers) == state_after(answers.take(k)),
    decreases answers.len() - k,
{
    if k < answers.len() {
        assert(answers.take(k + 1).drop_last() =~= answers.take(k));
        lemma_over_stays_over(answers, k + 1);
    } else {
        assert(answers.take(k) =~= answers);
    }
}

/// Whatever the operator answers, and however often, the files are dealt
/// with at most once.
pub proof fn lemma_files_dealt_with_once(answers: Seq<Answer>, earlier: int, later: int)
    requires
        0 <= earlier < later < answers.len(),
        action_at(answers, earlier) != Action::Nothing,
    ensures
        action_at(answers, later) == Action::Nothing,
{
    let upto = answers.take(later);
    lemma_over_stays_over(upto, earlier + 1);
}

fn is_letter_char(c: char, letter: char) -> (same: bool)
    ensures
        same == is_letter(c, letter),
{
    c == letter || c as u32 + 32 == letter as u32
}

fn word_stands_at(chars: &Vec<char>, word: &Vec<char>, at: usize) -> (stands: bool)
    requires
        at + word.len() <= chars.len(),
    ensures
        stands == word_at(chars@, word@, at as int),
{
    let mut k: usize = 0;
    while k < word.len()
        invariant
            k <= word.len(),
            at + word.len() <= chars.len(),
            forall|j: int| 0 <= j < k ==> is_letter(chars@[at + j], #[trigger] word@[j]),
        decreases word.len() - k,
    {
        if !is_letter_char(chars[at + k], word[k]) {
            return false;
        }
        k += 1;
    }
    true
}

fn holds_word_in(chars: &Vec<char>, word: &Vec<char>) -> (held: bool)
    ensures
        held == holds_word(chars@, word@),
{
    if word.len() > chars.len() {
        return false;
    }
    let last = chars.len() - word.len();
    let mut at: usize = 0;
    while at <= last
        invariant
            at <= last + 1,
            last == chars.len() - word.len(),
            forall|j: int| 0 <= j < at ==> !word_at(chars@, word@, j),
        decreases last + 1 - at,
    {
        if word_stands_at(chars, word, at) {
            return true;
        }
        at += 1;
    }
    false
}

/// Reads the operator's line.
pub fn classify_answer(line: &str) -> (answer: Answer)
    ensures
        answer == answer_of(line@),
{
    let chars = chars_of(line);
    let yes: Vec<char> = vec!['y', 'e', 's'];
    let no: Vec<char> = vec!['n', 'o'];
    if holds_word_in(&chars, &yes) {
        Answer::Yes
    } else if holds_word_in(&chars, &no) {
        Answer::No
    } else {
        Answer::Unrecognized
    }
}

/// Whether the dialog is over in `state`.
pub fn dialog_over(state: State) -> (over: bool)
    ensures
        over == is_terminal(state),
{
    match state {
        State::AwaitDeleteDecision => false,
        State::AwaitFlagDecision => false,
        _ => true,
    }
}

/// What follows when `answer` comes in `state`: the next state, what is
/// done to the files, and what the operator is told.
pub fn transition(state: State, answer: Answer) -> (step: (State, Action, Option<Report>))
    ensures
        step.0 == next_state(state, answer),
        step.1 == action_on(state, answer),
        step.2 == report_on(state, answer),
{
    match (state, answer) {
        (State::AwaitDeleteDecision, Answer::Yes) => (
            State::DeleteExecuted,
            Action::Delete,
            Some(Report::Deleted),
        ),
        (State::AwaitDeleteDecision, Answer::No) => (
            State::AwaitFlagDecision,
            Action::Nothing,
            Some(Report::NoActionTaken),
        ),
        (State::AwaitDeleteDecision, Answer::Unrecognized) => (
            State::Unrecognized,
            Action::Nothing,
            Some(Report::CommandNotFound),
        ),
        (State::AwaitFlagDecision, Answer::Yes) => (
            State::FlagExecuted,
            Action::Flag,
            Some(Report::Flagged),
        ),
        (State::AwaitFlagDecision, Answer::No) => (
            State::NoActionTaken,
            Action::Nothing,
            Some(Report::NoActionTaken),
        ),
        (State::AwaitFlagDecision, Answer::Unrecognized) => (
            State::Unrecognized,
            Action::Nothing,
            Some(Report::CommandNotFound),
        ),
        (over, _) => (over, Action::Nothing, None),
    }
}

/// The operations that `action` asks for on `entries`: none where nothing is
/// to be done, else one for each file, in their order.
pub open spec fn operations_for(action: Action, entries: Seq<File>) -> Seq<FileOpView> {
    match action {
        Action::Delete => removal_plan(entries),
        Action::Flag => flagging_plan(entries),
        Action::Nothing => Seq::empty(),
    }
}

/// The question that is open in `state`; none once the dialog is over.
pub open spec fn question_in(state: State) -> Option<Seq<char>> {
    match state {
        State::AwaitDeleteDecision => Some(
            "\ndo you want to delete the files listed? yes / no\n(deleted files will not appear in trash!)"@,
        ),
        State::AwaitFlagDecision => Some(
            "should the listed files be flagged in filename (*_flagged.*)? yes / no"@,
        ),
        _ => None,
    }
}

/// The words in which the operator is told `report`.
pub open spec fn message_of(report: Report) -> Seq<char> {
    match report {
        Report::Deleted => "--> listed files were deleted"@,
        Report::Flagged => "--> files have been flagged"@,
        Report::NoActionTaken => "--> no action taken"@,
        Report::CommandNotFound => "--> command not found"@,
    }
}

/// What the operator is asked in `state`; nothing once the dialog is over.
pub fn prompt(state: State) -> (question: Option<&'static str>)
    ensures
        question is Some <==> !is_terminal(state),
        match question {
            Some(text) => question_in(state) == Some(text@),
            None => question_in(state) is None,
        },
{
    match state {
        State::AwaitDeleteDecision => Some(
            "\ndo you want to delete the files listed? yes / no\n(deleted files will not appear in trash!)",
        ),
        State::AwaitFlagDecision => Some(
            "should the listed files be flagged in filename (*_flagged.*)? yes / no",
        ),
        _ => None,
    }
}

impl Report {
    /// The words in which the operator is told.
    pub fn message(self) -> (text: &'static str)
        ensures
            text@ == message_of(self),
    {
        match self {
            Report::Deleted => "--> listed files were deleted",
            Report::Flagged => "--> files have been flagged",
            Report::NoActionTaken => "--> no action taken",
            Report::CommandNotFound => "--> command not found",
        }
    }
}

/// What the operator is told once the operations of a response have been
/// tried.
#[derive(Debug, Clone, Copy, PartialEq, Eq)]
pub enum Notice {
    /// Nothing: operations are still due, or the answer has no report.
    Nothing,
    /// The report of the answer. Every operation that the answer asked for
    /// has been carried out.
    Report(Report),
    /// The operation at `index` failed. The report of the answer is not
    /// given, and the run ends.
    ActionFailed { index: usize },
}

/// What the operator is told when the answer's report is `report` and its
/// operations have come as far as `status`: the report only once all of them
/// are carried out, the failure where one has failed.
pub open spec fn notice_of(report: Option<Report>, status: BatchStatus) -> Notice {
    match status {
        BatchStatus::Pending => Notice::Nothing,
        BatchStatus::Failed { index } => Notice::ActionFailed { index },
        BatchStatus::Completed => match report {
            Some(told) => Notice::Report(told),
            None => Notice::Nothing,
        },
    }
}

/// What to tell the operator after the operations of a response have been
/// tried.
pub fn notice_after(report: Option<Report>, status: BatchStatus) -> (notice: Notice)
    ensures
        notice == notice_of(report, status),
        notice is Report ==> status is Completed,
{
    match status {
        BatchStatus::Pending => Notice::Nothing,
        BatchStatus::Failed { index } => Notice::ActionFailed { index },
        BatchStatus::Completed => match report {
            Some(told) => Notice::Report(told),
            None => Notice::Nothing,
        },
    }
}

/// What a `Controller` stands for.
pub struct ControllerView {
    /// Where the dialog stands.
    pub state: State,
    /// The files that the dialog is about.
    pub entries: Seq<File>,
}

/// What the controller asks of its caller after an answer.
#[derive(Debug)]
pub struct Response {
    /// The operations to carry out, in this order.
    pub operations: Vec<FileOp>,
    /// What to tell the operator once they are all carried out; what is told
    /// in the end is for `notice_after` to say.
    pub report: Option<Report>,
}

/// The dialog about one batch of files. It owns the batch, and hands out
/// operations on it at most once.
#[derive(Debug)]
pub struct Controller {
    state: State,
    entries: Vec<File>,
}

impl View for Controller {
    type V = ControllerView;

    closed spec fn view(&self) -> ControllerView {
        ControllerView { state: self.state, entries: self.entries@ }
    }
}

impl Controller {
    /// A dialog about `entries` that is about to put its first question.
    pub fn new(entries: Vec<File>) -> (controller: Controller)
        ensures
            controller@ == (ControllerView {
                state: State::AwaitDeleteDecision,
                entries: entries@,
            }),
    {
        Controller { state: State::AwaitDeleteDecision, entries }
    }

    /// Where the dialog stands.
    pub fn state(&self) -> (state: State)
        ensures
            state == self@.state,
    {
        self.state
    }

    /// The files that the dialog is about.
    pub fn entries(&self) -> (entries: &Vec<File>)
        ensures
            entries@ == self@.entries,
    {
        &self.entries
    }

    /// Takes the operator's line as the answer to the open question. The
    /// files stay as they are; the state moves on, and the response holds
    /// the operations that the answer asks for.
    pub fn respond(&mut self, line: &str) -> (response: Response)
        ensures
            final(self)@ == (ControllerView {
                state: next_state(old(self)@.state, answer_of(line@)),
                ..old(self)@
            }),
            plan_view(response.operations@) == operations_for(
                action_on(old(self)@.state, answer_of(line@)),
                old(self)@.entries,
            ),
            response.report == report_on(old(self)@.state, answer_of(line@)),
    {
        let (next, action, report) = transition(self.state, classify_answer(line));
        let operations = match action {
            Action::Delete => delete_files(&self.entries),
            Action::Flag => flag_files(&self.entries),
            Action::Nothing => Vec::new(),
        };
        self.state = next;
        Response { operations, report }
    }
}

} // verus!
