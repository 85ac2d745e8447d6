use git_it_done::commit::{CommitRecord, AUTHOR_EMAIL, AUTHOR_NAME};

#[test]
fn the_message_names_document_line_and_state() {
    let record = CommitRecord::new("Handla.md".to_string(), 3, true);
    assert_eq!(record.message(), "Update checkbox status in Handla.md line 3: checked");
    let record = CommitRecord::new("lists/todo.md".to_string(), 120, false);
    assert_eq!(record.message(), "Update checkbox status in lists/todo.md line 120: unchecked");
}

#[test]
fn the_record_keeps_what_it_was_made_of() {
    let record = CommitRecord::new("Handla.md".to_string(), 7, false);
    assert_eq!(record.file_path(), "Handla.md");
    assert_eq!(record.line_number(), 7);
    assert!(!record.is_checked());
}

#[test]
fn the_message_is_the_same_for_the_same_change() {
    let one = CommitRecord::new("a.md".to_string(), 1, true);
    let other = CommitRecord::new("a.md".to_string(), 1, true);
    assert_eq!(one, other);
    assert_eq!(
        one.message(),
        format!("Update checkbox status in {} line {}: {}", "a.md", 1, "checked")
    );
}

#[test]
fn the_message_holds_the_largest_line_number() {
    let record = CommitRecord::new(String::new(), usize::MAX, true);
    assert_eq!(
        record.message(),
        format!("Update checkbox status in  line {}: checked", usize::MAX)
    );
}

#[test]
fn the_author_is_fixed() {
    assert_eq!(AUTHOR_NAME, "Git Note Taking App");
    assert_eq!(AUTHOR_EMAIL, "git-it-done@hockersten.se");
}
