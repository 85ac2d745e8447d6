//! The record of one change for the version-control history.

use crate::text::{decimal, from_chars, push_decimal, push_str};
use vstd::prelude::*;

verus! {

/// Name under which every change is committed.
pub const AUTHOR_NAME: &'static str = "Git Note Taking App";

/// Address under which every change is committed.
pub const AUTHOR_EMAIL: &'static str = "git-it-done@hockersten.se";

/// One change of one checkbox, as the history records it.
#[derive(Clone, Debug, PartialEq, Eq)]
pub struct CommitRecord {
    file_path: String,
    line_number: usize,
    is_checked: bool,
    message: String,
}

/// A commit record as plain values.
pub struct CommitView {
    pub file_path: Seq<char>,
    pub line_number: nat,
    pub is_checked: bool,
    pub message: Seq<char>,
}

/// The word for the state that a checkbox was put in.
pub open spec fn state_word(is_checked: bool) -> Seq<char> {
    if is_checked {
        "checked"@
    } else {
        "unchecked"@
    }
}

/// The message of the commit that records a change.
pub open spec fn commit_message(file_path: Seq<char>, line_number: nat, is_checked: bool) -> Seq<
    char,
> {
    "Update checkbox status in "@ + file_path + " line "@ + decimal(line_number) + ": "@
        + state_word(is_checked)
}

/// The record of the change of line `line_number` of `file_path`.
pub open spec fn commit_record(file_path: Seq<char>, line_number: nat, is_checked: bool)
    -> CommitView {
    CommitView {
        file_path,
        line_number,
        is_checked,
        message: commit_message(file_path, line_number, is_checked),
    }
}

impl View for CommitRecord {
    type V = CommitView;

    closed spec fn view(&self) -> CommitView {
        CommitView {
            file_path: self.file_path@,
            line_number: self.line_number as nat,
            is_checked: self.is_checked,
            message: self.message@,
        }
    }
}

impl CommitRecord {
    /// Describes the change of the checkbox on line `line_number` of
    /// `file_path` to the state `is_checked`.
    pub fn new(file_path: String, line_number: usize, is_checked: bool) -> (record: CommitRecord)
        ensures
            record@ == commit_record(file_path@, line_number as nat, is_checked),
    {
        let mut text: Vec<char> = Vec::new();
        push_str(&mut text, "Update checkbox status in ");
        push_str(&mut text, file_path.as_str());
        push_str(&mut text, " line ");
        push_decimal(&mut text, line_number);
        push_str(&mut text, ": ");
        push_str(&mut text, if is_checked { "checked" } else { "unchecked" });
        let message = from_chars(&text);
        CommitRecord { file_path, line_number, is_checked, message }
    }

    /// The document that was changed, relative to the data directory.
    pub fn file_path(&self) -> (path: &str)
        ensures
            path@ == self@.file_path,
    {
        self.file_path.as_str()
    }

    /// The line of the checkbox, counted from one.
    pub fn line_number(&self) -> (n: usize)
        ensures
            n == self@.line_number,
    {
        self.line_number
    }

    /// The state that the checkbox was put in.
    pub fn is_checked(&self) -> (checked: bool)
        ensures
            checked == self@.is_checked,
    {
        self.is_checked
    }

    /// The commit message.
    pub fn message(&self) -> (text: &str)
        ensures
            text@ == self@.message,
    {
        self.message.as_str()
    }
}

} // verus!
