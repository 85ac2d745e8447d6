//! What holds of every request, whatever the document holds and whatever the
//! file system and the repository answer.

use crate::checkbox::{
    checkbox_state, indent, lemma_indent_bounds, lemma_with_marker, mark, MARK_OFFSET,
};
use crate::confinement::is_within;
use crate::lines::{
    is_plain_line, joined, lemma_split_joined, lemma_split_no_line_feed, split, strip_cr,
};
use crate::update_server::{
    start, step, toggled, ActionView, ArgsView, ErrorView, EventView, MutatorView, Phase,
};
use vstd::prelude::*;

verus! {

/// Line zero and the line after the last are out of range, and a line in
/// range that begins with no checkbox is refused as such.
pub proof fn law_line_bounds(lines: Seq<Seq<char>>, line_number: nat, is_checked: bool)
    ensures
        toggled(lines, 0, is_checked) == Err::<Option<Seq<Seq<char>>>, _>(
            ErrorView::LineOutOfRange,
        ),
        toggled(lines, lines.len() + 1, is_checked) == Err::<Option<Seq<Seq<char>>>, _>(
            ErrorView::LineOutOfRange,
        ),
        1 <= line_number <= lines.len() && checkbox_state(lines[line_number - 1]) is None
            ==> toggled(lines, line_number, is_checked) == Err::<Option<Seq<Seq<char>>>, _>(
            ErrorView::NotACheckbox,
        ),
{
}

/// Nothing changes exactly where the checkbox is in the wanted state
/// already.
pub proof fn law_no_change_iff_wanted_state(
    lines: Seq<Seq<char>>,
    line_number: nat,
    is_checked: bool,
)
    ensures
        toggled(lines, line_number, is_checked) == Ok::<_, ErrorView>(
            None::<Seq<Seq<char>>>,
        ) <==> 1 <= line_number <= lines.len() && checkbox_state(lines[line_number - 1]) == Some(
            is_checked,
        ),
{
}

/// After a change the same request changes nothing more.
pub proof fn law_second_request_changes_nothing(
    lines: Seq<Seq<char>>,
    line_number: nat,
    is_checked: bool,
)
    requires
        toggled(lines, line_number, is_checked) matches Ok(Some(_)),
    ensures
        toggled(toggled(lines, line_number, is_checked)->Ok_0->0, line_number, is_checked) == Ok::<
            _,
            ErrorView,
        >(None::<Seq<Seq<char>>>),
{
    lemma_with_marker(lines[line_number - 1], is_checked);
}

/// A change touches one character of one line: the one between the brackets
/// of the marker. Every other line and every other character stays.
pub proof fn law_change_is_one_mark(lines: Seq<Seq<char>>, line_number: nat, is_checked: bool)
    requires
        toggled(lines, line_number, is_checked) matches Ok(Some(_)),
    ensures
        ({
            let after = toggled(lines, line_number, is_checked)->Ok_0->0;
            let line = lines[line_number - 1];
            &&& after.len() == lines.len()
            &&& forall|k: int|
                0 <= k < lines.len() && k != line_number - 1 ==> #[trigger] after[k] == lines[k]
            &&& checkbox_state(line) == Some(!is_checked)
            &&& checkbox_state(after[line_number - 1]) == Some(is_checked)
            &&& indent(line) + MARK_OFFSET < line.len()
            &&& after[line_number - 1] == line.update(
                indent(line) + MARK_OFFSET,
                mark(is_checked),
            )
        }),
{
    let line = lines[line_number - 1];
    lemma_with_marker(line, is_checked);
    lemma_indent_bounds(line);
}

/// The text that is written for a change reads back as the lines of the
/// document with that one change, where no line of the document ends in a
/// carriage return of its own.
pub proof fn law_written_text_reads_back(text: Seq<char>, line_number: nat, is_checked: bool)
    requires
        toggled(split(text), line_number, is_checked) matches Ok(Some(_)),
        forall|k: int|
            0 <= k < split(text).len() ==> strip_cr(#[trigger] split(text)[k]) == split(text)[k],
    ensures
        split(joined(toggled(split(text), line_number, is_checked)->Ok_0->0)) == toggled(
            split(text),
            line_number,
            is_checked,
        )->Ok_0->0,
{
    let before = split(text);
    let after = toggled(before, line_number, is_checked)->Ok_0->0;
    law_change_is_one_mark(before, line_number, is_checked);
    lemma_split_no_line_feed(text);
    assert forall|k: int| 0 <= k < after.len() implies is_plain_line(#[trigger] after[k]) by {
        if k == line_number - 1 {
            lemma_indent_bounds(before[k]);
        }
    }
    lemma_split_joined(after);
}

/// The actions that a request asks for, one after each event, up to the
/// first event that it does not await.
pub open spec fn actions(m: MutatorView, events: Seq<EventView>) -> Seq<ActionView>
    decreases events.len(),
{
    if events.len() == 0 {
        Seq::empty()
    } else {
        match step(m, events.first()) {
            None => Seq::empty(),
            Some((next, action)) => seq![action] + actions(next, events.drop_first()),
        }
    }
}

/// The state of the checkbox on line `line_number` of `text`, if that line
/// exists and begins with one.
pub open spec fn state_at(text: Seq<char>, line_number: nat) -> Option<bool> {
    let lines = split(text);
    if 1 <= line_number <= lines.len() {
        checkbox_state(lines[line_number - 1])
    } else {
        None
    }
}

/// Whether every text that `events` load has the checkbox of `args` in the
/// state that `args` ask for.
pub open spec fn loads_wanted_state(args: ArgsView, events: Seq<EventView>) -> bool {
    forall|i: int|
        0 <= i < events.len() ==> (#[trigger] events[i] matches EventView::Loaded(text)
            ==> state_at(text, args.line_number) == Some(args.is_checked))
}

/// Whether every pair of paths that `events` resolve has the document
/// outside the data directory.
pub open spec fn resolves_outside(events: Seq<EventView>) -> bool {
    forall|i: int|
        0 <= i < events.len() ==> (#[trigger] events[i] matches EventView::Resolved { root, path }
            ==> !is_within(root, path))
}

/// The place of a phase in the course of a request.
pub open spec fn rank(phase: Phase) -> nat {
    match phase {
        Phase::Resolving => 0,
        Phase::Opening => 1,
        Phase::Reading => 2,
        Phase::Writing => 3,
        Phase::Committing => 4,
        Phase::Done => 5,
    }
}

/// The phase in which a request waits once it has asked for `action`.
pub open spec fn phase_after(action: ActionView) -> Phase {
    match action {
        ActionView::Resolve(_) => Phase::Resolving,
        ActionView::Open => Phase::Opening,
        ActionView::Read => Phase::Reading,
        ActionView::Write(_) => Phase::Writing,
        ActionView::Commit(_) => Phase::Committing,
        ActionView::Finish(_) => Phase::Done,
    }
}

proof fn lemma_wanted_state_writes_nothing(m: MutatorView, events: Seq<EventView>)
    requires
        rank(m.phase) <= rank(Phase::Reading) || m.phase == Phase::Done,
        loads_wanted_state(m.args, events),
    ensures
        forall|j: int|
            0 <= j < actions(m, events).len() ==> !(#[trigger] actions(m, events)[j] is Write)
                && !(actions(m, events)[j] is Commit),
    decreases events.len(),
{
    if events.len() > 0 {
        if let Some((next, _)) = step(m, events.first()) {
            let rest = events.drop_first();
            assert(forall|i: int| 0 <= i < rest.len() ==> #[trigger] rest[i] == events[i + 1]);
            lemma_wanted_state_writes_nothing(next, rest);
        }
    }
}

/// A request for the state that its checkbox has already never asks to
/// write the document and never asks for a commit, whatever else happens.
pub proof fn law_wanted_state_writes_nothing(args: ArgsView, events: Seq<EventView>)
    requires
        loads_wanted_state(args, events),
    ensures
        forall|j: int|
            0 <= j < actions(start(args), events).len() ==> !(#[trigger] actions(
                start(args),
                events,
            )[j] is Write) && !(actions(start(args), events)[j] is Commit),
{
    lemma_wanted_state_writes_nothing(start(args), events);
}

proof fn lemma_escape_opens_nothing(m: MutatorView, events: Seq<EventView>)
    requires
        m.phase == Phase::Resolving || m.phase == Phase::Done,
        resolves_outside(events),
    ensures
        forall|j: int|
            0 <= j < actions(m, events).len() ==> #[trigger] actions(m, events)[j]
                == ActionView::Finish(Err(ErrorView::PathEscape)),
    decreases events.len(),
{
    if events.len() > 0 {
        if let Some((next, _)) = step(m, events.first()) {
            let rest = events.drop_first();
            assert(forall|i: int| 0 <= i < rest.len() ==> #[trigger] rest[i] == events[i + 1]);
            lemma_escape_opens_nothing(next, rest);
        }
    }
}

/// A request for a document outside the data directory is answered with
/// `PathEscape` and asks for nothing else: no file is opened, read or
/// written, and nothing is committed.
pub proof fn law_escape_opens_nothing(args: ArgsView, events: Seq<EventView>)
    requires
        resolves_outside(events),
    ensures
        forall|j: int|
            0 <= j < actions(start(args), events).len() ==> #[trigger] actions(
                start(args),
                events,
            )[j] == ActionView::Finish(Err(ErrorView::PathEscape)),
{
    lemma_escape_opens_nothing(start(args), events);
}

proof fn lemma_phases_advance(m: MutatorView, events: Seq<EventView>)
    ensures
        forall|j: int|
            0 <= j < actions(m, events).len() ==> rank(m.phase) < rank(
                phase_after(#[trigger] actions(m, events)[j]),
            ),
        forall|i: int, j: int|
            0 <= i < j < actions(m, events).len() ==> rank(
                phase_after(#[trigger] actions(m, events)[i]),
            ) < rank(phase_after(#[trigger] actions(m, events)[j])),
    decreases events.len(),
{
    if events.len() > 0 {
        if let Some((next, _)) = step(m, events.first()) {
            lemma_phases_advance(next, events.drop_first());
        }
    }
}

/// A request only moves on: it asks to open, to read, to write, to commit
/// and to finish in this order and for each at most once. So one change is
/// written once and committed once, and the commit comes after the writing.
pub proof fn law_phases_advance(args: ArgsView, events: Seq<EventView>)
    ensures
        forall|i: int, j: int|
            0 <= i < j < actions(start(args), events).len() ==> rank(
                phase_after(#[trigger] actions(start(args), events)[i]),
            ) < rank(phase_after(#[trigger] actions(start(args), events)[j])),
{
    lemma_phases_advance(start(args), events);
}

} // verus!
