//! Setting the state of one checkbox in a document.
//!
//! The change itself is computed here, on the lines of the document. The
//! work on the file system and on the repository is done by the caller, one
//! step at a time: [`CheckboxMutator`] says what to do next and takes back
//! what came of it.
//!
//! A request goes through these phases, and ends at the first failure:
//!
//! 1. `Resolving`: the paths of the data directory and of the document are
//!    made canonical. A document outside the directory ends the request
//!    with `PathEscape`, and so does a path that cannot be resolved.
//! 2. `Opening`, then `Reading`: the document is opened and read whole.
//! 3. The line is looked up and its marker is read. A line number out of
//!    range and a line without checkbox end the request with an error, and a
//!    checkbox that is in the wanted state already ends it with success.
//! 4. `Writing`: the text with the one marker changed replaces the document.
//! 5. `Committing`: the change is committed. Whether that succeeds or not,
//!    the request has succeeded.

use crate::checkbox::{checkbox_state, lemma_with_marker, with_marker, write_checkbox};
use crate::commit::{commit_record, CommitRecord, CommitView};
use crate::confinement::{is_confined, is_within};
use crate::lines::{join_lines, joined, split, split_lines};
use crate::text::texts;
use vstd::prelude::*;

verus! {

/// A request to put one checkbox of one document in a given state.
#[derive(Clone, Debug, PartialEq, Eq)]
pub struct UpdateCheckboxStatusArgs {
    file_path: String,
    line_number: usize,
    is_checked: bool,
}

/// A request as plain values.
pub struct ArgsView {
    pub file_path: Seq<char>,
    pub line_number: nat,
    pub is_checked: bool,
}

impl View for UpdateCheckboxStatusArgs {
    type V = ArgsView;

    closed spec fn view(&self) -> ArgsView {
        ArgsView {
            file_path: self.file_path@,
            line_number: self.line_number as nat,
            is_checked: self.is_checked,
        }
    }
}

impl UpdateCheckboxStatusArgs {
    /// A request to put the checkbox on line `line_number` of the document
    /// `file_path` in the state `is_checked`. Lines count from one.
    pub fn new(file_path: String, line_number: usize, is_checked: bool) -> (args: Self)
        ensures
            args@ == (ArgsView {
                file_path: file_path@,
                line_number: line_number as nat,
                is_checked,
            }),
    {
        UpdateCheckboxStatusArgs { file_path, line_number, is_checked }
    }

    /// The document, relative to the data directory.
    pub fn file_path(&self) -> (path: &str)
        ensures
            path@ == self@.file_path,
    {
        self.file_path.as_str()
    }

    /// The line of the checkbox, counted from one.
    pub fn line_number(&self) -> (n: usize)
        ensures
            n == self@.line_number,
    {
        self.line_number
    }

    /// The state that the checkbox is to have.
    pub fn is_checked(&self) -> (checked: bool)
        ensures
            checked == self@.is_checked,
    {
        self.is_checked
    }
}

/// Why a request was not carried out.
#[derive(Clone, Debug, PartialEq, Eq)]
pub enum MutationError {
    /// The document does not lie in the data directory.
    PathEscape,
    /// The document could not be opened.
    OpenFailed(String),
    /// The document could not be read.
    ReadFailed(String),
    /// The document has no line of that number.
    LineOutOfRange,
    /// The line does not begin with a checkbox.
    NotACheckbox,
    /// The document could not be written.
    WriteFailed(String),
}

/// A failure as plain values.
pub enum ErrorView {
    PathEscape,
    OpenFailed(Seq<char>),
    ReadFailed(Seq<char>),
    LineOutOfRange,
    NotACheckbox,
    WriteFailed(Seq<char>),
}

impl View for MutationError {
    type V = ErrorView;

    open spec fn view(&self) -> ErrorView {
        match self {
            MutationError::PathEscape => ErrorView::PathEscape,
            MutationError::OpenFailed(cause) => ErrorView::OpenFailed(cause@),
            MutationError::ReadFailed(cause) => ErrorView::ReadFailed(cause@),
            MutationError::LineOutOfRange => ErrorView::LineOutOfRange,
            MutationError::NotACheckbox => ErrorView::NotACheckbox,
            MutationError::WriteFailed(cause) => ErrorView::WriteFailed(cause@),
        }
    }
}

/// What a request does to the lines of a document: it fails, or the checkbox
/// is in the wanted state already and nothing changes (`Ok(None)`), or one
/// line gets the other marker.
pub open spec fn toggled(lines: Seq<Seq<char>>, line_number: nat, is_checked: bool) -> Result<
    Option<Seq<Seq<char>>>,
    ErrorView,
> {
    if line_number < 1 || line_number > lines.len() {
        Err(ErrorView::LineOutOfRange)
    } else {
        let line = lines[line_number - 1];
        match checkbox_state(line) {
            None => Err(ErrorView::NotACheckbox),
            Some(state) => if state == is_checked {
                Ok(None)
            } else {
                Ok(Some(lines.update(line_number - 1, with_marker(line, is_checked))))
            },
        }
    }
}

/// Puts the checkbox on line `line_number` of `lines` in the state
/// `is_checked`, and tells whether a line was changed for it.
pub fn toggle_checkbox(lines: &mut Vec<String>, line_number: usize, is_checked: bool) -> (changed:
    Result<bool, MutationError>)
    ensures
        match toggled(texts(old(lines)@), line_number as nat, is_checked) {
            Err(e) => changed is Err && changed->Err_0@ == e && final(lines)@ == old(lines)@,
            Ok(None) => changed == Ok::<bool, MutationError>(false) && final(lines)@ == old(
                lines,
            )@,
            Ok(Some(updated)) => changed == Ok::<bool, MutationError>(true) && texts(
                final(lines)@,
            ) == updated,
        },
{
    if line_number < 1 || line_number > lines.len() {
        return Err(MutationError::LineOutOfRange);
    }
    let index = line_number - 1;
    match write_checkbox(lines[index].as_str(), is_checked) {
        None => Err(MutationError::NotACheckbox),
        Some(line) => {
            proof {
                lemma_with_marker(lines@[index as int]@, is_checked);
            }
            if line == lines[index] {
                Ok(false)
            } else {
                lines.set(index, line);
                Ok(true)
            }
        },
    }
}

/// How far a request has come.
#[derive(Clone, Copy, Debug, PartialEq, Eq, Structural)]
pub enum Phase {
    /// The paths of the data directory and of the document are being made
    /// canonical.
    Resolving,
    /// The document is being opened.
    Opening,
    /// The document is being read.
    Reading,
    /// The changed text is being written.
    Writing,
    /// The change is being committed.
    Committing,
    /// The request has been answered.
    Done,
}

/// What the caller found when it did the last thing asked of it.
#[derive(Clone, Debug, PartialEq, Eq)]
pub enum MutatorEvent {
    /// Both paths are canonical; these are their components.
    Resolved { root: Vec<String>, path: Vec<String> },
    /// One of the two paths could not be made canonical.
    ResolveFailed,
    /// The document is open for reading and writing.
    Opened,
    /// The document could not be opened.
    OpenFailed(String),
    /// The whole text of the document.
    Loaded(String),
    /// The document could not be read.
    ReadFailed(String),
    /// The document now holds the text that was to be written.
    Written,
    /// The text could not be written.
    WriteFailed(String),
    /// The change is committed.
    Committed,
    /// The change could not be committed.
    CommitFailed,
}

/// An event as plain values.
pub enum EventView {
    Resolved { root: Seq<Seq<char>>, path: Seq<Seq<char>> },
    ResolveFailed,
    Opened,
    OpenFailed(Seq<char>),
    Loaded(Seq<char>),
    ReadFailed(Seq<char>),
    Written,
    WriteFailed(Seq<char>),
    Committed,
    CommitFailed,
}

impl View for MutatorEvent {
    type V = EventView;

    open spec fn view(&self) -> EventView {
        match self {
            MutatorEvent::Resolved { root, path } => EventView::Resolved {
                root: texts(root@),
                path: texts(path@),
            },
            MutatorEvent::ResolveFailed => EventView::ResolveFailed,
            MutatorEvent::Opened => EventView::Opened,
            MutatorEvent::OpenFailed(cause) => EventView::OpenFailed(cause@),
            MutatorEvent::Loaded(text) => EventView::Loaded(text@),
            MutatorEvent::ReadFailed(cause) => EventView::ReadFailed(cause@),
            MutatorEvent::Written => EventView::Written,
            MutatorEvent::WriteFailed(cause) => EventView::WriteFailed(cause@),
            MutatorEvent::Committed => EventView::Committed,
            MutatorEvent::CommitFailed => EventView::CommitFailed,
        }
    }
}

/// What the caller is to do next.
#[derive(Debug, PartialEq, Eq)]
pub enum MutatorAction {
    /// Make the path of the data directory and that of this document in it
    /// canonical.
    Resolve(String),
    /// Open the document for reading and writing.
    Open,
    /// Read the whole document.
    Read,
    /// Replace the content of the document by this text.
    Write(String),
    /// Stage the document and commit it with this record.
    Commit(CommitRecord),
    /// Answer the request with this result.
    Finish(Result<(), MutationError>),
}

/// An action as plain values.
pub enum ActionView {
    Resolve(Seq<char>),
    Open,
    Read,
    Write(Seq<char>),
    Commit(CommitView),
    Finish(Result<(), ErrorView>),
}

impl View for MutatorAction {
    type V = ActionView;

    open spec fn view(&self) -> ActionView {
        match self {
            MutatorAction::Resolve(file_path) => ActionView::Resolve(file_path@),
            MutatorAction::Open => ActionView::Open,
            MutatorAction::Read => ActionView::Read,
            MutatorAction::Write(text) => ActionView::Write(text@),
            MutatorAction::Commit(record) => ActionView::Commit(record@),
            MutatorAction::Finish(result) => ActionView::Finish(
                match result {
                    Ok(_) => Ok(()),
                    Err(e) => Err(e@),
                },
            ),
        }
    }
}

/// A request on its way: what was asked, and how far it has come.
#[derive(Clone, Debug, PartialEq, Eq)]
pub struct CheckboxMutator {
    args: UpdateCheckboxStatusArgs,
    phase: Phase,
}

/// A request on its way, as plain values.
pub struct MutatorView {
    pub args: ArgsView,
    pub phase: Phase,
}

impl View for CheckboxMutator {
    type V = MutatorView;

    closed spec fn view(&self) -> MutatorView {
        MutatorView { args: self.args@, phase: self.phase }
    }
}

impl MutatorView {
    /// The same request in another phase.
    pub open spec fn at(self, phase: Phase) -> MutatorView {
        MutatorView { args: self.args, phase }
    }

    /// The end of the request with the given answer.
    pub open spec fn finish(self, result: Result<(), ErrorView>) -> Option<
        (MutatorView, ActionView),
    > {
        Some((self.at(Phase::Done), ActionView::Finish(result)))
    }
}

/// A request before anything has been done for it.
pub open spec fn start(args: ArgsView) -> MutatorView {
    MutatorView { args, phase: Phase::Resolving }
}

/// The next phase and action after `event`, or `None` where the request does
/// not await that event in its phase.
pub open spec fn step(m: MutatorView, event: EventView) -> Option<(MutatorView, ActionView)> {
    match (m.phase, event) {
        (Phase::Resolving, EventView::Resolved { root, path }) => if is_within(root, path) {
            Some((m.at(Phase::Opening), ActionView::Open))
        } else {
            m.finish(Err(ErrorView::PathEscape))
        },
        (Phase::Resolving, EventView::ResolveFailed) => m.finish(Err(ErrorView::PathEscape)),
        (Phase::Opening, EventView::Opened) => Some((m.at(Phase::Reading), ActionView::Read)),
        (Phase::Opening, EventView::OpenFailed(cause)) => m.finish(
            Err(ErrorView::OpenFailed(cause)),
        ),
        (Phase::Reading, EventView::Loaded(text)) => match toggled(
            split(text),
            m.args.line_number,
            m.args.is_checked,
        ) {
            Err(e) => m.finish(Err(e)),
            Ok(None) => m.finish(Ok(())),
            Ok(Some(lines)) => Some((m.at(Phase::Writing), ActionView::Write(joined(lines)))),
        },
        (Phase::Reading, EventView::ReadFailed(cause)) => m.finish(
            Err(ErrorView::ReadFailed(cause)),
        ),
        (Phase::Writing, EventView::Written) => Some(
            (
                m.at(Phase::Committing),
                ActionView::Commit(
                    commit_record(m.args.file_path, m.args.line_number, m.args.is_checked),
                ),
            ),
        ),
        (Phase::Writing, EventView::WriteFailed(cause)) => m.finish(
            Err(ErrorView::WriteFailed(cause)),
        ),
        (Phase::Committing, EventView::Committed) => m.finish(Ok(())),
        (Phase::Committing, EventView::CommitFailed) => m.finish(Ok(())),
        _ => None,
    }
}

impl CheckboxMutator {
    /// Takes up a request. The first thing to do is to resolve its document.
    pub fn apply(args: UpdateCheckboxStatusArgs) -> (begun: (CheckboxMutator, MutatorAction))
        ensures
            begun.0@ == start(args@),
            begun.1@ == ActionView::Resolve(args@.file_path),
    {
        let file_path = args.file_path.clone();
        (CheckboxMutator { args, phase: Phase::Resolving }, MutatorAction::Resolve(file_path))
    }

    /// The request.
    pub fn args(&self) -> (args: &UpdateCheckboxStatusArgs)
        ensures
            args@ == self@.args,
    {
        &self.args
    }

    /// How far the request has come.
    pub fn phase(&self) -> (phase: Phase)
        ensures
            phase == self@.phase,
    {
        self.phase
    }

    fn at(self, phase: Phase) -> (next: CheckboxMutator)
        ensures
            next@ == self@.at(phase),
    {
        CheckboxMutator { args: self.args, phase }
    }

    fn finish(self, result: Result<(), MutationError>) -> (end: Option<
        (CheckboxMutator, MutatorAction),
    >)
        ensures
            end matches Some((m, action)) && m@ == self@.at(Phase::Done) && action@
                == MutatorAction::Finish(result)@,
    {
        Some((self.at(Phase::Done), MutatorAction::Finish(result)))
    }

    /// Takes what came of the last action and says what to do next. An
    /// event that the request does not await in its phase gives `None`.
    pub fn step(self, event: MutatorEvent) -> (next: Option<(CheckboxMutator, MutatorAction)>)
        ensures
            match step(self@, event@) {
                None => next is None,
                Some((m, action)) => next matches Some((m2, action2)) && m2@ == m && action2@
                    == action,
            },
    {
        match (self.phase, event) {
            (Phase::Resolving, MutatorEvent::Resolved { root, path }) => {
                if is_confined(&root, &path) {
                    Some((self.at(Phase::Opening), MutatorAction::Open))
                } else {
                    self.finish(Err(MutationError::PathEscape))
                }
            },
            (Phase::Resolving, MutatorEvent::ResolveFailed) => self.finish(
                Err(MutationError::PathEscape),
            ),
            (Phase::Opening, MutatorEvent::Opened) => Some(
                (self.at(Phase::Reading), MutatorAction::Read),
            ),
            (Phase::Opening, MutatorEvent::OpenFailed(cause)) => self.finish(
                Err(MutationError::OpenFailed(cause)),
            ),
            (Phase::Reading, MutatorEvent::Loaded(text)) => {
                let mut lines = split_lines(text.as_str());
                match toggle_checkbox(&mut lines, self.args.line_number, self.args.is_checked) {
                    Err(e) => self.finish(Err(e)),
                    Ok(false) => self.finish(Ok(())),
                    Ok(true) => {
                        let text = join_lines(&lines);
                        Some((self.at(Phase::Writing), MutatorAction::Write(text)))
                    },
                }
            },
            (Phase::Reading, MutatorEvent::ReadFailed(cause)) => self.finish(
                Err(MutationError::ReadFailed(cause)),
            ),
            (Phase::Writing, MutatorEvent::Written) => {
                let record = CommitRecord::new(
                    self.args.file_path.clone(),
                    self.args.line_number,
                    self.args.is_checked,
                );
                Some((self.at(Phase::Committing), MutatorAction::Commit(record)))
            },
            (Phase::Writing, MutatorEvent::WriteFailed(cause)) => self.finish(
                Err(MutationError::WriteFailed(cause)),
            ),
            (Phase::Committing, MutatorEvent::Committed) => self.finish(Ok(())),
            (Phase::Committing, MutatorEvent::CommitFailed) => self.finish(Ok(())),
            _ => None,
        }
    }
}

} // verus!
