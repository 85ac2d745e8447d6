use git_it_done::lines::{join_lines, split_lines};
use std::io::BufRead;

fn strings(lines: &[&str]) -> Vec<String> {
    lines.iter().map(|line| line.to_string()).collect()
}

#[test]
fn the_empty_text_has_no_line() {
    assert_eq!(split_lines(""), Vec::<String>::new());
}

#[test]
fn lines_end_at_line_feeds() {
    assert_eq!(split_lines("a\nb\nc\n"), strings(&["a", "b", "c"]));
    assert_eq!(split_lines("a\n\nc\n"), strings(&["a", "", "c"]));
    assert_eq!(split_lines("\n"), strings(&[""]));
    assert_eq!(split_lines("\n\n"), strings(&["", ""]));
}

#[test]
fn the_last_line_needs_no_terminator() {
    assert_eq!(split_lines("a\nb"), strings(&["a", "b"]));
    assert_eq!(split_lines("a"), strings(&["a"]));
}

#[test]
fn a_carriage_return_before_the_line_feed_is_dropped() {
    assert_eq!(split_lines("a\r\nb\r\n"), strings(&["a", "b"]));
    assert_eq!(split_lines("a\r\r\nb"), strings(&["a\r", "b"]));
    assert_eq!(split_lines("a\rb\n"), strings(&["a\rb"]));
    assert_eq!(split_lines("\r\n"), strings(&[""]));
}

#[test]
fn a_carriage_return_at_the_very_end_stays() {
    assert_eq!(split_lines("a\nb\r"), strings(&["a", "b\r"]));
    assert_eq!(split_lines("\r"), strings(&["\r"]));
}

#[test]
fn splitting_agrees_with_reading_lines_from_a_buffer() {
    let texts = [
        "",
        "a",
        "a\n",
        "a\r\n",
        "a\r",
        "\n",
        "\r\n",
        "\r",
        "a\n\nb",
        "a\r\r\nb\r",
        "# T\r\n\r\n- [ ] x\r\n- [x] y",
        "caf\u{e9}\n\u{1F600}\n",
    ];
    for text in texts {
        let expected: Vec<String> =
            std::io::Cursor::new(text.as_bytes()).lines().map(|line| line.unwrap()).collect();
        assert_eq!(split_lines(text), expected, "{:?}", text);
    }
}

#[test]
fn every_line_is_written_with_a_line_feed() {
    assert_eq!(join_lines(&strings(&["a", "b", "c"])), "a\nb\nc\n");
    assert_eq!(join_lines(&strings(&["a"])), "a\n");
    assert_eq!(join_lines(&strings(&[""])), "\n");
    assert_eq!(join_lines(&Vec::new()), "");
}

#[test]
fn writing_normalises_the_terminators() {
    assert_eq!(join_lines(&split_lines("a\r\nb")), "a\nb\n");
    assert_eq!(join_lines(&split_lines("a\nb\n")), "a\nb\n");
}

#[test]
fn written_lines_read_back() {
    let lines = strings(&["# Shopping", "", "- [ ] buy milk", "  - [x] caf\u{e9}"]);
    assert_eq!(split_lines(&join_lines(&lines)), lines);
}

#[test]
fn a_line_that_ends_in_a_carriage_return_does_not_read_back() {
    let lines = strings(&["a\r"]);
    assert_eq!(split_lines(&join_lines(&lines)), strings(&["a"]));
}

#[test]
fn splitting_agrees_with_reading_lines_of_every_short_text() {
    let alphabet = ['a', '\r', '\n'];
    let mut texts = vec![String::new()];
    let mut last = vec![String::new()];
    for _ in 0..8 {
        let mut next = Vec::new();
        for prefix in &last {
            for c in alphabet {
                let mut longer = prefix.clone();
                longer.push(c);
                next.push(longer);
            }
        }
        texts.extend(next.iter().cloned());
        last = next;
    }
    assert_eq!(texts.len(), 9841);
    for text in texts {
        let expected: Vec<String> =
            std::io::Cursor::new(text.as_bytes()).lines().map(|line| line.unwrap()).collect();
        assert_eq!(split_lines(&text), expected, "{:?}", text);
        let written = join_lines(&expected);
        let mut by_line = String::new();
        for line in &expected {
            by_line.push_str(line);
            by_line.push('\n');
        }
        assert_eq!(written, by_line, "{:?}", text);
    }
}
