//! A document as a sequence of lines.
//!
//! Reading splits the text at line feeds and drops the terminator of each
//! line, a carriage return before the line feed included. Writing puts one
//! line feed behind every line, the last one too.

use crate::text::{from_chars, texts, to_chars};
use vstd::prelude::*;
use vstd::string::StringExecFns;

verus! {

/// Number of characters before the first line feed of `text`, or the length
/// of `text` where it holds none.
pub open spec fn line_len(text: Seq<char>) -> nat
    decreases text.len(),
{
    if text.len() == 0 || text[0] == '\n' {
        0
    } else {
        1 + line_len(text.drop_first())
    }
}

/// `line` without the carriage return at its end, if it ends in one.
pub open spec fn strip_cr(line: Seq<char>) -> Seq<char> {
    if line.len() > 0 && line.last() == '\r' {
        line.drop_last()
    } else {
        line
    }
}

/// The lines of `text`. A line ends at a line feed or at the end of the text;
/// the empty text has no line, and a line feed at the very end starts no
/// further line.
pub open spec fn split(text: Seq<char>) -> Seq<Seq<char>>
    decreases text.len(),
{
    let n = line_len(text) as int;
    if text.len() == 0 {
        Seq::empty()
    } else if n >= text.len() {
        seq![text]
    } else {
        seq![strip_cr(text.take(n))] + split(text.skip(n + 1))
    }
}

/// The text that holds `lines` in order, each followed by a line feed.
pub open spec fn joined(lines: Seq<Seq<char>>) -> Seq<char>
    decreases lines.len(),
{
    if lines.len() == 0 {
        Seq::empty()
    } else {
        lines.first() + seq!['\n'] + joined(lines.drop_first())
    }
}

/// Whether `line` can be written and read back as it is: it holds no line
/// feed and does not end in a carriage return.
pub open spec fn is_plain_line(line: Seq<char>) -> bool {
    &&& forall|i: int| 0 <= i < line.len() ==> line[i] != '\n'
    &&& strip_cr(line) == line
}

/// A stretch without line feed that starts the text and ends at a line feed
/// or at the end of the text is the first line.
pub proof fn lemma_line_len_is(text: Seq<char>, n: int)
    requires
        0 <= n <= text.len(),
        forall|i: int| 0 <= i < n ==> text[i] != '\n',
        n < text.len() ==> text[n] == '\n',
    ensures
        line_len(text) == n,
    decreases n,
{
    if n > 0 {
        lemma_line_len_is(text.drop_first(), n - 1);
    }
}

/// The first line holds no line feed and ends where the text does or at one.
pub proof fn lemma_line_len_bounds(text: Seq<char>)
    ensures
        line_len(text) <= text.len(),
        forall|i: int| 0 <= i < line_len(text) ==> text[i] != '\n',
        line_len(text) < text.len() ==> text[line_len(text) as int] == '\n',
    decreases text.len(),
{
    if !(text.len() == 0 || text[0] == '\n') {
        let rest = text.drop_first();
        lemma_line_len_bounds(rest);
        assert forall|i: int| 0 <= i < line_len(text) implies text[i] != '\n' by {
            if i > 0 {
                assert(text[i] == rest[i - 1]);
            }
        }
    }
}

/// No line of a text holds a line feed.
pub proof fn lemma_split_no_line_feed(text: Seq<char>)
    ensures
        forall|k: int, i: int|
            0 <= k < split(text).len() && 0 <= i < split(text)[k].len() ==> split(text)[k][i]
                != '\n',
    decreases text.len(),
{
    let n = line_len(text) as int;
    lemma_line_len_bounds(text);
    if n < text.len() {
        let rest = text.skip(n + 1);
        lemma_split_no_line_feed(rest);
        assert forall|k: int, i: int|
            0 <= k < split(text).len() && 0 <= i < split(text)[k].len() implies split(text)[k][i]
            != '\n' by {
            if k > 0 {
                assert(split(text)[k] == split(rest)[k - 1]);
            }
        }
    }
}

/// Adding a line at the end adds it and a line feed to the text.
pub proof fn lemma_joined_push(lines: Seq<Seq<char>>, line: Seq<char>)
    ensures
        joined(lines.push(line)) == joined(lines) + line + seq!['\n'],
    decreases lines.len(),
{
    let more = lines.push(line);
    if lines.len() == 0 {
        assert(more.drop_first() =~= lines);
    } else {
        assert(more.drop_first() =~= lines.drop_first().push(line));
        lemma_joined_push(lines.drop_first(), line);
    }
}

/// Lines that are written and read again come back unchanged, where each of
/// them can be written as it is.
pub proof fn lemma_split_joined(lines: Seq<Seq<char>>)
    requires
        forall|k: int| 0 <= k < lines.len() ==> is_plain_line(#[trigger] lines[k]),
    ensures
        split(joined(lines)) == lines,
    decreases lines.len(),
{
    if lines.len() > 0 {
        let head = lines.first();
        let rest = lines.drop_first();
        let text = joined(lines);
        let n = head.len() as int;
        assert(forall|k: int| 0 <= k < rest.len() ==> is_plain_line(#[trigger] rest[k]));
        lemma_split_joined(rest);
        assert(forall|i: int| 0 <= i < n ==> text[i] != '\n');
        lemma_line_len_is(text, n);
        assert(text.take(n) =~= head);
        assert(text.skip(n + 1) =~= joined(rest));
    }
}

/// Splits `text` into its lines.
pub fn split_lines(text: &str) -> (lines: Vec<String>)
    ensures
        texts(lines@) == split(text@),
{
    let chars = to_chars(text);
    let mut lines: Vec<String> = Vec::new();
    let mut current: Vec<char> = Vec::new();
    let ghost mut start: int = 0;
    let mut i: usize = 0;
    assert(chars@.skip(0) == chars@);
    while i < chars.len()
        invariant
            0 <= start <= i <= chars.len(),
            current@ == chars@.subrange(start, i as int),
            forall|j: int| start <= j < i ==> chars@[j] != '\n',
            split(chars@) == texts(lines@) + split(chars@.skip(start)),
        decreases chars.len() - i,
    {
        let c = chars[i];
        if c == '\n' {
            let ghost rest = chars@.skip(start);
            let ghost n = i - start;
            proof {
                lemma_line_len_is(rest, n);
                assert(rest.skip(n + 1) == chars@.skip(i + 1));
            }
            let len = current.len();
            if len > 0 && current[len - 1] == '\r' {
                current.pop();
            }
            let line = from_chars(&current);
            proof {
                assert(line@ == strip_cr(rest.take(n)));
                assert(texts(lines@).push(line@) + split(chars@.skip(i + 1)) == texts(lines@) + (
                seq![line@] + split(chars@.skip(i + 1))));
            }
            lines.push(line);
            current = Vec::new();
            proof {
                start = i + 1;
            }
        } else {
            current.push(c);
        }
        i = i + 1;
    }
    if current.len() > 0 {
        proof {
            let rest = chars@.skip(start);
            lemma_line_len_is(rest, rest.len() as int);
        }
        lines.push(from_chars(&current));
    }
    lines
}

/// Writes `lines` as one text, a line feed behind each.
pub fn join_lines(lines: &Vec<String>) -> (text: String)
    ensures
        text@ == joined(texts(lines@)),
{
    let mut text = String::new();
    let mut i: usize = 0;
    while i < lines.len()
        invariant
            i <= lines.len(),
            text@ == joined(texts(lines@.take(i as int))),
        decreases lines.len() - i,
    {
        proof {
            lemma_joined_push(texts(lines@.take(i as int)), lines@[i as int]@);
            assert(texts(lines@.take(i + 1)) == texts(lines@.take(i as int)).push(
                lines@[i as int]@,
            ));
        }
        text.append(lines[i].as_str());
        text.push('\n');
        i = i + 1;
    }
    assert(lines@.take(lines@.len() as int) == lines@);
    text
}

} // verus!
