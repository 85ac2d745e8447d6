use git_it_done::commit::CommitRecord;
use git_it_done::confinement::is_confined;
use git_it_done::markdown_renderer::{Checkbox, MarkdownRenderer, ViewNode};
use git_it_done::update_server::{
    toggle_checkbox, CheckboxMutator, MutationError, MutatorAction, MutatorEvent, Phase,
    UpdateCheckboxStatusArgs,
};

const DOCUMENT: &str = "# Shopping\n\n- [ ] buy milk\n- [x] eat\n- plain\n";

fn strings(lines: &[&str]) -> Vec<String> {
    lines.iter().map(|line| line.to_string()).collect()
}

fn request(line_number: usize, is_checked: bool) -> UpdateCheckboxStatusArgs {
    UpdateCheckboxStatusArgs::new("Handla.md".to_string(), line_number, is_checked)
}

fn inside() -> MutatorEvent {
    MutatorEvent::Resolved {
        root: strings(&["/", "srv", "data"]),
        path: strings(&["/", "srv", "data", "Handla.md"]),
    }
}

/// Feeds the events to a request one by one and collects what it asks for,
/// up to the first event that it does not await.
fn run(args: UpdateCheckboxStatusArgs, events: Vec<MutatorEvent>) -> Vec<MutatorAction> {
    let (mut mutator, first) = CheckboxMutator::apply(args);
    let mut actions = vec![first];
    for event in events {
        match mutator.step(event) {
            Some((next, action)) => {
                mutator = next;
                actions.push(action);
            }
            None => break,
        }
    }
    actions
}

fn writes(actions: &[MutatorAction]) -> usize {
    actions.iter().filter(|action| matches!(action, MutatorAction::Write(_))).count()
}

fn commits(actions: &[MutatorAction]) -> usize {
    actions.iter().filter(|action| matches!(action, MutatorAction::Commit(_))).count()
}

#[test]
fn the_request_keeps_what_it_was_made_of() {
    let args = UpdateCheckboxStatusArgs::new("Handla.md".to_string(), 3, true);
    assert_eq!(args.file_path(), "Handla.md");
    assert_eq!(args.line_number(), 3);
    assert!(args.is_checked());
    assert_eq!(args.clone(), args);
    assert_ne!(args, UpdateCheckboxStatusArgs::new("Handla.md".to_string(), 3, false));
}

#[test]
fn checking_an_open_item_changes_its_line_only() {
    let mut lines = strings(&["# Shopping", "", "- [ ] buy milk", "- [x] eat", "- plain"]);
    assert_eq!(toggle_checkbox(&mut lines, 3, true), Ok(true));
    assert_eq!(lines, strings(&["# Shopping", "", "- [x] buy milk", "- [x] eat", "- plain"]));
}

#[test]
fn unchecking_a_done_item_changes_its_line_only() {
    let mut lines = strings(&["# Shopping", "", "- [ ] buy milk", "- [x] eat", "- plain"]);
    assert_eq!(toggle_checkbox(&mut lines, 4, false), Ok(true));
    assert_eq!(lines, strings(&["# Shopping", "", "- [ ] buy milk", "- [ ] eat", "- plain"]));
}

#[test]
fn asking_for_the_state_that_is_there_changes_nothing() {
    let before = strings(&["# Shopping", "", "- [ ] buy milk", "- [x] eat", "- plain"]);
    let mut lines = before.clone();
    assert_eq!(toggle_checkbox(&mut lines, 3, false), Ok(false));
    assert_eq!(lines, before);
    assert_eq!(toggle_checkbox(&mut lines, 4, true), Ok(false));
    assert_eq!(lines, before);
}

#[test]
fn asking_twice_changes_once() {
    let mut lines = strings(&["", "", "- [ ] buy milk"]);
    assert_eq!(toggle_checkbox(&mut lines, 3, true), Ok(true));
    assert_eq!(toggle_checkbox(&mut lines, 3, true), Ok(false));
    assert_eq!(lines, strings(&["", "", "- [x] buy milk"]));
}

#[test]
fn line_zero_and_the_line_after_the_last_are_out_of_range() {
    let before = strings(&["- [ ] a", "- [ ] b"]);
    let mut lines = before.clone();
    assert_eq!(toggle_checkbox(&mut lines, 0, true), Err(MutationError::LineOutOfRange));
    assert_eq!(toggle_checkbox(&mut lines, 3, true), Err(MutationError::LineOutOfRange));
    assert_eq!(toggle_checkbox(&mut lines, usize::MAX, true), Err(MutationError::LineOutOfRange));
    assert_eq!(lines, before);
    let mut none: Vec<String> = Vec::new();
    assert_eq!(toggle_checkbox(&mut none, 0, true), Err(MutationError::LineOutOfRange));
    assert_eq!(toggle_checkbox(&mut none, 1, true), Err(MutationError::LineOutOfRange));
}

#[test]
fn the_first_and_the_last_line_are_in_range() {
    let mut lines = strings(&["- [ ] a", "- [ ] b"]);
    assert_eq!(toggle_checkbox(&mut lines, 1, true), Ok(true));
    assert_eq!(toggle_checkbox(&mut lines, 2, true), Ok(true));
    assert_eq!(lines, strings(&["- [x] a", "- [x] b"]));
}

#[test]
fn a_line_without_checkbox_is_refused() {
    let before = strings(&["# Shopping", "", "- plain", "- [X] upper", "* [ ] star"]);
    let mut lines = before.clone();
    for line_number in 1..=5 {
        assert_eq!(
            toggle_checkbox(&mut lines, line_number, true),
            Err(MutationError::NotACheckbox)
        );
        assert_eq!(
            toggle_checkbox(&mut lines, line_number, false),
            Err(MutationError::NotACheckbox)
        );
    }
    assert_eq!(lines, before);
}

#[test]
fn an_indented_item_keeps_its_indentation() {
    let mut lines = strings(&["- [ ] outer", "    - [ ] inner - [ ] not this"]);
    assert_eq!(toggle_checkbox(&mut lines, 2, true), Ok(true));
    assert_eq!(lines, strings(&["- [ ] outer", "    - [x] inner - [ ] not this"]));
}

#[test]
fn a_change_is_written_and_committed_once() {
    let actions = run(
        request(3, true),
        vec![
            inside(),
            MutatorEvent::Opened,
            MutatorEvent::Loaded(DOCUMENT.to_string()),
            MutatorEvent::Written,
            MutatorEvent::Committed,
        ],
    );
    assert_eq!(
        actions,
        vec![
            MutatorAction::Resolve("Handla.md".to_string()),
            MutatorAction::Open,
            MutatorAction::Read,
            MutatorAction::Write("# Shopping\n\n- [x] buy milk\n- [x] eat\n- plain\n".to_string()),
            MutatorAction::Commit(CommitRecord::new("Handla.md".to_string(), 3, true)),
            MutatorAction::Finish(Ok(())),
        ]
    );
    assert_eq!(writes(&actions), 1);
    assert_eq!(commits(&actions), 1);
    match &actions[4] {
        MutatorAction::Commit(record) => {
            assert_eq!(record.message(), "Update checkbox status in Handla.md line 3: checked");
            assert_eq!(record.file_path(), "Handla.md");
        }
        _ => unreachable!(),
    }
}

#[test]
fn the_same_request_again_writes_and_commits_nothing() {
    let first = run(
        request(3, true),
        vec![inside(), MutatorEvent::Opened, MutatorEvent::Loaded(DOCUMENT.to_string())],
    );
    let written = match first.last() {
        Some(MutatorAction::Write(text)) => text.clone(),
        _ => unreachable!(),
    };
    let second = run(
        request(3, true),
        vec![
            inside(),
            MutatorEvent::Opened,
            MutatorEvent::Loaded(written),
            MutatorEvent::Written,
            MutatorEvent::Committed,
        ],
    );
    assert_eq!(
        second,
        vec![
            MutatorAction::Resolve("Handla.md".to_string()),
            MutatorAction::Open,
            MutatorAction::Read,
            MutatorAction::Finish(Ok(())),
        ]
    );
    assert_eq!(writes(&second), 0);
    assert_eq!(commits(&second), 0);
}

#[test]
fn a_request_for_the_state_that_is_there_writes_nothing() {
    for (line_number, is_checked) in [(3, false), (4, true)] {
        let actions = run(
            request(line_number, is_checked),
            vec![
                inside(),
                MutatorEvent::Opened,
                MutatorEvent::Loaded(DOCUMENT.to_string()),
                MutatorEvent::Written,
                MutatorEvent::Committed,
            ],
        );
        assert_eq!(actions.last(), Some(&MutatorAction::Finish(Ok(()))));
        assert_eq!(actions.len(), 4);
        assert_eq!(writes(&actions), 0);
        assert_eq!(commits(&actions), 0);
    }
}

#[test]
fn a_document_outside_the_data_directory_is_refused_before_it_is_opened() {
    // What `/srv/data/../secret.md` resolves to.
    let outside = MutatorEvent::Resolved {
        root: strings(&["/", "srv", "data"]),
        path: strings(&["/", "srv", "secret.md"]),
    };
    let actions = run(
        UpdateCheckboxStatusArgs::new("../secret.md".to_string(), 1, true),
        vec![outside, MutatorEvent::Opened, MutatorEvent::Loaded("- [ ] a\n".to_string())],
    );
    assert_eq!(
        actions,
        vec![
            MutatorAction::Resolve("../secret.md".to_string()),
            MutatorAction::Finish(Err(MutationError::PathEscape)),
        ]
    );
}

#[test]
fn a_directory_whose_name_only_begins_like_the_root_is_outside() {
    let root = strings(&["/", "srv", "data"]);
    assert!(is_confined(&root, &strings(&["/", "srv", "data", "Handla.md"])));
    assert!(is_confined(&root, &strings(&["/", "srv", "data", "lists", "todo.md"])));
    assert!(is_confined(&root, &strings(&["/", "srv", "data"])));
    assert!(!is_confined(&root, &strings(&["/", "srv", "data2", "Handla.md"])));
    assert!(!is_confined(&root, &strings(&["/", "srv", "secret.md"])));
    assert!(!is_confined(&root, &strings(&["/", "srv"])));
    assert!(!is_confined(&root, &strings(&["/", "etc", "data", "Handla.md"])));
    assert!(!is_confined(&root, &Vec::new()));
    assert!(is_confined(&Vec::new(), &Vec::new()));
}

#[test]
fn a_path_that_cannot_be_resolved_is_refused() {
    let actions = run(request(3, true), vec![MutatorEvent::ResolveFailed, MutatorEvent::Opened]);
    assert_eq!(
        actions,
        vec![
            MutatorAction::Resolve("Handla.md".to_string()),
            MutatorAction::Finish(Err(MutationError::PathEscape)),
        ]
    );
}

#[test]
fn a_document_that_cannot_be_opened() {
    let actions = run(
        request(3, true),
        vec![inside(), MutatorEvent::OpenFailed("permission denied".to_string())],
    );
    assert_eq!(
        actions.last(),
        Some(&MutatorAction::Finish(Err(MutationError::OpenFailed(
            "permission denied".to_string()
        ))))
    );
    assert_eq!(actions.len(), 3);
}

#[test]
fn a_document_that_cannot_be_read() {
    let actions = run(
        request(3, true),
        vec![
            inside(),
            MutatorEvent::Opened,
            MutatorEvent::ReadFailed("stream did not contain valid UTF-8".to_string()),
        ],
    );
    assert_eq!(
        actions.last(),
        Some(&MutatorAction::Finish(Err(MutationError::ReadFailed(
            "stream did not contain valid UTF-8".to_string()
        ))))
    );
    assert_eq!(actions.len(), 4);
}

#[test]
fn a_document_that_cannot_be_written() {
    let actions = run(
        request(3, true),
        vec![
            inside(),
            MutatorEvent::Opened,
            MutatorEvent::Loaded(DOCUMENT.to_string()),
            MutatorEvent::WriteFailed("disk full".to_string()),
            MutatorEvent::Committed,
        ],
    );
    assert_eq!(
        actions.last(),
        Some(&MutatorAction::Finish(Err(MutationError::WriteFailed("disk full".to_string()))))
    );
    assert_eq!(writes(&actions), 1);
    assert_eq!(commits(&actions), 0);
}

#[test]
fn a_commit_that_fails_does_not_fail_the_request() {
    let actions = run(
        request(3, true),
        vec![
            inside(),
            MutatorEvent::Opened,
            MutatorEvent::Loaded(DOCUMENT.to_string()),
            MutatorEvent::Written,
            MutatorEvent::CommitFailed,
        ],
    );
    assert_eq!(actions.last(), Some(&MutatorAction::Finish(Ok(()))));
    assert_eq!(writes(&actions), 1);
    assert_eq!(commits(&actions), 1);
}

#[test]
fn a_line_number_out_of_range_ends_the_request() {
    for line_number in [0, 6, 7] {
        let actions = run(
            request(line_number, true),
            vec![inside(), MutatorEvent::Opened, MutatorEvent::Loaded(DOCUMENT.to_string())],
        );
        assert_eq!(
            actions.last(),
            Some(&MutatorAction::Finish(Err(MutationError::LineOutOfRange)))
        );
    }
}

#[test]
fn a_line_without_checkbox_ends_the_request() {
    for line_number in [1, 2, 5] {
        let actions = run(
            request(line_number, true),
            vec![inside(), MutatorEvent::Opened, MutatorEvent::Loaded(DOCUMENT.to_string())],
        );
        assert_eq!(
            actions.last(),
            Some(&MutatorAction::Finish(Err(MutationError::NotACheckbox)))
        );
        assert_eq!(writes(&actions), 0);
    }
}

#[test]
fn an_event_that_is_not_awaited_is_not_taken() {
    let (mutator, _) = CheckboxMutator::apply(request(3, true));
    assert_eq!(mutator.phase(), Phase::Resolving);
    assert_eq!(mutator.args(), &request(3, true));
    assert_eq!(mutator.clone().step(MutatorEvent::Opened), None);
    assert_eq!(mutator.clone().step(MutatorEvent::Loaded(DOCUMENT.to_string())), None);
    assert_eq!(mutator.clone().step(MutatorEvent::Written), None);
    assert_eq!(mutator.clone().step(MutatorEvent::Committed), None);
    let (opening, _) = mutator.step(inside()).unwrap();
    assert_eq!(opening.phase(), Phase::Opening);
    assert_eq!(opening.clone().step(inside()), None);
    let (done, _) = opening.step(MutatorEvent::OpenFailed(String::new())).unwrap();
    assert_eq!(done.phase(), Phase::Done);
    assert_eq!(done.clone().step(MutatorEvent::Opened), None);
    assert_eq!(done.step(MutatorEvent::CommitFailed), None);
}

#[test]
fn the_phases_follow_the_steps() {
    let (m, _) = CheckboxMutator::apply(request(3, true));
    let (m, _) = m.step(inside()).unwrap();
    assert_eq!(m.phase(), Phase::Opening);
    let (m, _) = m.step(MutatorEvent::Opened).unwrap();
    assert_eq!(m.phase(), Phase::Reading);
    let (m, _) = m.step(MutatorEvent::Loaded(DOCUMENT.to_string())).unwrap();
    assert_eq!(m.phase(), Phase::Writing);
    let (m, _) = m.step(MutatorEvent::Written).unwrap();
    assert_eq!(m.phase(), Phase::Committing);
    let (m, _) = m.step(MutatorEvent::Committed).unwrap();
    assert_eq!(m.phase(), Phase::Done);
}

#[test]
fn writing_gives_every_line_one_line_feed() {
    let actions = run(
        request(2, true),
        vec![
            inside(),
            MutatorEvent::Opened,
            MutatorEvent::Loaded("# T\r\n- [ ] a\r\nlast".to_string()),
        ],
    );
    assert_eq!(actions.last(), Some(&MutatorAction::Write("# T\n- [x] a\nlast\n".to_string())));
}

#[test]
fn the_view_of_the_written_text_differs_in_one_checkbox() {
    let before = MarkdownRenderer.render_document(DOCUMENT, "Handla.md").unwrap();
    let actions = run(
        request(3, true),
        vec![inside(), MutatorEvent::Opened, MutatorEvent::Loaded(DOCUMENT.to_string())],
    );
    let written = match actions.last() {
        Some(MutatorAction::Write(text)) => text.clone(),
        _ => unreachable!(),
    };
    assert_eq!(written, DOCUMENT.replace("- [ ] buy milk", "- [x] buy milk"));
    let after = MarkdownRenderer.render_document(&written, "Handla.md").unwrap();
    let item = |checked: Option<bool>, line: usize, value: &str| ViewNode::ListItem {
        checkbox: checked.map(|state| Checkbox::new(state, "Handla.md".to_string(), Some(line))),
        children: vec![ViewNode::Paragraph(vec![ViewNode::Text(value.to_string())])],
    };
    let view = |first: bool| {
        ViewNode::Fragment(vec![
            ViewNode::Heading { level: 1, text: "Shopping".to_string() },
            ViewNode::List {
                ordered: false,
                items: vec![
                    item(Some(first), 3, "buy milk"),
                    item(Some(true), 4, "eat"),
                    item(None, 5, "plain"),
                ],
            },
        ])
    };
    assert_eq!(before, view(false));
    assert_eq!(after, view(true));
}

#[test]
fn the_request_of_a_rendered_checkbox_changes_the_line_it_came_from() {
    let rendered = MarkdownRenderer.render_document(DOCUMENT, "Handla.md").unwrap();
    let checkbox = match rendered {
        ViewNode::Fragment(mut nodes) => match nodes.remove(1) {
            ViewNode::List { mut items, .. } => match items.remove(1) {
                ViewNode::ListItem { checkbox: Some(checkbox), .. } => checkbox,
                _ => unreachable!(),
            },
            _ => unreachable!(),
        },
        _ => unreachable!(),
    };
    let args = checkbox.toggle().unwrap();
    assert_eq!(args, request(4, false));
    let actions = run(
        args,
        vec![inside(), MutatorEvent::Opened, MutatorEvent::Loaded(DOCUMENT.to_string())],
    );
    assert_eq!(
        actions.last(),
        Some(&MutatorAction::Write(
            "# Shopping\n\n- [ ] buy milk\n- [ ] eat\n- plain\n".to_string()
        ))
    );
}

/// Every string over `alphabet` of at most `max_len` characters.
fn strings_over(alphabet: &[char], max_len: usize) -> Vec<String> {
    let mut all = vec![String::new()];
    let mut last = vec![String::new()];
    for _ in 0..max_len {
        let mut next = Vec::new();
        for prefix in &last {
            for c in alphabet {
                let mut longer = prefix.clone();
                longer.push(*c);
                next.push(longer);
            }
        }
        all.extend(next.iter().cloned());
        last = next;
    }
    all
}

/// The change of one line by trimming, searching and replacing in the string.
fn by_search(line: &str, is_checked: bool) -> Result<Option<String>, MutationError> {
    let mut line = line.to_string();
    let (from, to) = if line.trim_start().starts_with("- [ ] ") {
        ("- [ ] ", "- [x] ")
    } else if line.trim_start().starts_with("- [x] ") {
        ("- [x] ", "- [ ] ")
    } else {
        return Err(MutationError::NotACheckbox);
    };
    if is_checked == (to == "- [x] ") {
        if let Some(pos) = line.find(from) {
            line.replace_range(pos..(pos + 6), to);
            return Ok(Some(line));
        }
    }
    Ok(None)
}

#[test]
fn changing_a_line_agrees_with_searching_and_replacing_in_it() {
    let lines = strings_over(&[' ', '-', '[', ']', 'x', '\u{2003}'], 7);
    assert_eq!(lines.len(), 335_923);
    for line in lines {
        for is_checked in [false, true] {
            let mut document = vec![line.clone()];
            let changed = toggle_checkbox(&mut document, 1, is_checked);
            match by_search(&line, is_checked) {
                Err(e) => {
                    assert_eq!(changed, Err(e), "{:?}", line);
                    assert_eq!(document, vec![line.clone()]);
                }
                Ok(None) => {
                    assert_eq!(changed, Ok(false), "{:?}", line);
                    assert_eq!(document, vec![line.clone()]);
                }
                Ok(Some(replaced)) => {
                    assert_eq!(changed, Ok(true), "{:?}", line);
                    assert_eq!(document, vec![replaced]);
                }
            }
        }
    }
}
