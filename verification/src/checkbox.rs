//! The checkbox marker of a list item: `- [ ] ` when the item is open and
//! `- [x] ` when it is done, standing at the start of a line after white
//! space only.

use crate::text::{from_chars, is_whitespace, is_whitespace_char, to_chars};
use vstd::prelude::*;

verus! {

/// Number of characters in a marker.
pub const MARKER_WIDTH: usize = 6;

/// Place within a marker of the one character that tells the two apart.
pub const MARK_OFFSET: usize = 3;

/// The character between the brackets.
pub open spec fn mark(checked: bool) -> char {
    if checked {
        'x'
    } else {
        ' '
    }
}

/// The marker of a list item in the given state.
pub open spec fn marker(checked: bool) -> Seq<char> {
    seq!['-', ' ', '[', mark(checked), ']', ' ']
}

/// Number of white-space characters at the start of `line`.
pub open spec fn indent(line: Seq<char>) -> nat
    decreases line.len(),
{
    if line.len() > 0 && is_whitespace(line[0]) {
        1 + indent(line.drop_first())
    } else {
        0
    }
}

/// Whether the marker for `checked` follows the indentation of `line`.
pub open spec fn has_marker(line: Seq<char>, checked: bool) -> bool {
    marker(checked).is_prefix_of(line.skip(indent(line) as int))
}

/// The state of the checkbox that `line` begins with, if it begins with one.
pub open spec fn checkbox_state(line: Seq<char>) -> Option<bool> {
    if has_marker(line, false) {
        Some(false)
    } else if has_marker(line, true) {
        Some(true)
    } else {
        None
    }
}

/// `line` with the six characters after its indentation replaced by the
/// marker for `checked`.
pub open spec fn with_marker(line: Seq<char>, checked: bool) -> Seq<char> {
    let k = indent(line) as int;
    line.take(k) + marker(checked) + line.skip(k + MARKER_WIDTH)
}

/// The indentation ends at the first character that is not white space.
pub proof fn lemma_indent_bounds(line: Seq<char>)
    ensures
        indent(line) <= line.len(),
        forall|i: int| 0 <= i < indent(line) ==> is_whitespace(#[trigger] line[i]),
        indent(line) < line.len() ==> !is_whitespace(line[indent(line) as int]),
    decreases line.len(),
{
    if line.len() > 0 && is_whitespace(line[0]) {
        let rest = line.drop_first();
        lemma_indent_bounds(rest);
        assert forall|i: int| 0 <= i < indent(line) implies is_whitespace(#[trigger] line[i]) by {
            if i > 0 {
                assert(line[i] == rest[i - 1]);
            }
        }
    }
}

/// A run of white space that starts the line and cannot be extended is the
/// indentation.
pub proof fn lemma_indent_is(line: Seq<char>, k: int)
    requires
        0 <= k <= line.len(),
        forall|i: int| 0 <= i < k ==> is_whitespace(#[trigger] line[i]),
        k < line.len() ==> !is_whitespace(line[k]),
    ensures
        indent(line) == k,
    decreases k,
{
    if k > 0 {
        lemma_indent_is(line.drop_first(), k - 1);
    }
}

/// Replacing the marker of a checkbox line changes one character and nothing
/// else, so the indentation stays and the line then holds the new state.
pub proof fn lemma_with_marker(line: Seq<char>, checked: bool)
    requires
        checkbox_state(line) is Some,
    ensures
        with_marker(line, checked) == line.update(indent(line) + MARK_OFFSET, mark(checked)),
        with_marker(line, checked).len() == line.len(),
        indent(with_marker(line, checked)) == indent(line),
        checkbox_state(with_marker(line, checked)) == Some(checked),
        checkbox_state(line) == Some(checked) ==> with_marker(line, checked) == line,
{
    let k = indent(line) as int;
    let state = checkbox_state(line)->0;
    lemma_indent_bounds(line);
    assert(forall|j: int| 0 <= j < MARKER_WIDTH ==> line[k + j] == #[trigger] marker(state)[j]);
    lemma_indent_is(with_marker(line, checked), k);
    assert(marker(true) != marker(false));
}

/// Number of white-space characters at the start of `line`.
pub fn indent_width(line: &Vec<char>) -> (k: usize)
    ensures
        k == indent(line@),
{
    let mut k: usize = 0;
    while k < line.len() && is_whitespace_char(line[k])
        invariant
            k <= line.len(),
            forall|i: int| 0 <= i < k ==> is_whitespace(#[trigger] line@[i]),
        decreases line.len() - k,
    {
        k = k + 1;
    }
    proof {
        lemma_indent_is(line@, k as int);
    }
    k
}

/// Reads the checkbox at the start of a line of characters.
pub fn checkbox_of(line: &Vec<char>) -> (state: Option<bool>)
    ensures
        state == checkbox_state(line@),
{
    let k = indent_width(line);
    proof {
        lemma_indent_bounds(line@);
    }
    if line.len() - k < MARKER_WIDTH {
        return None;
    }
    let framed = line[k] == '-' && line[k + 1] == ' ' && line[k + 2] == '[' && line[k + 4] == ']'
        && line[k + 5] == ' ';
    let m = line[k + 3];
    proof {
        let rest = line@.skip(k as int);
        assert forall|c: bool| has_marker(line@, c) implies framed && m == mark(c) by {
            let p = rest.subrange(0, 6);
            assert(p[0] == rest[0] && p[1] == rest[1] && p[2] == rest[2] && p[3] == rest[3] && p[4]
                == rest[4] && p[5] == rest[5]);
        }
    }
    if framed && m == ' ' {
        Some(false)
    } else if framed && m == 'x' {
        Some(true)
    } else {
        None
    }
}

/// Reads the checkbox that `line` begins with: `Some(false)` for `- [ ] `,
/// `Some(true)` for `- [x] `, and `None` for every other line.
pub fn read_checkbox(line: &str) -> (state: Option<bool>)
    ensures
        state == checkbox_state(line@),
{
    let chars = to_chars(line);
    checkbox_of(&chars)
}

/// Puts the marker for `checked` in place of the one that `line` begins with.
/// A line that begins with no checkbox gives `None`.
pub fn write_checkbox(line: &str, checked: bool) -> (updated: Option<String>)
    ensures
        checkbox_state(line@) is None ==> updated is None,
        checkbox_state(line@) is Some ==> updated is Some && updated->0@ == with_marker(
            line@,
            checked,
        ),
{
    let mut chars = to_chars(line);
    match checkbox_of(&chars) {
        None => None,
        Some(_) => {
            let k = indent_width(&chars);
            let len = chars.len();
            proof {
                lemma_indent_bounds(line@);
                lemma_with_marker(line@, checked);
            }
            chars.set(k + MARK_OFFSET, if checked { 'x' } else { ' ' });
            Some(from_chars(&chars))
        },
    }
}

} // verus!
