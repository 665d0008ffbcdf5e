use focus::logger::{add_task, LogError};

fn appended(existing: &str, content: &str) -> String {
    let w = add_task(Some("/var/log/tasks.txt".to_string()), content.to_string()).unwrap();
    format!("{}{}", existing, w.line)
}

#[test]
fn add_task_builds_line_and_keeps_path() {
    let w = add_task(Some("/home/u/tasks.txt".to_string()), "write report".to_string()).unwrap();
    assert_eq!(w.path, "/home/u/tasks.txt");
    assert_eq!(w.line, "write report\n");
}

#[test]
fn add_task_without_path_fails() {
    let r = add_task(None, "write report".to_string());
    assert_eq!(r.unwrap_err(), LogError::MissingPath);
}

#[test]
fn add_task_empty_entry_is_terminator_only() {
    let w = add_task(Some("t.txt".to_string()), String::new()).unwrap();
    assert_eq!(w.line, "\n");
}

#[test]
fn append_adds_exactly_one_line() {
    let before = "first\nsecond\n";
    let after = appended(before, "third");
    assert_eq!(before.lines().count() + 1, after.lines().count());
    assert_eq!(after.lines().last(), Some("third"));
    assert!(after.ends_with('\n'));
}

#[test]
fn append_to_empty_log() {
    let after = appended("", "only");
    assert_eq!(after, "only\n");
    assert_eq!(after.lines().collect::<Vec<_>>(), vec!["only"]);
}

#[test]
fn appends_keep_submission_order() {
    let entries = ["buy milk", "call Sam", "fix bug #12"];
    let mut log = String::new();
    for e in entries.iter() {
        log = appended(&log, e);
    }
    assert_eq!(log.lines().collect::<Vec<_>>(), entries.to_vec());
}

#[test]
fn entry_with_newline_spans_two_lines() {
    let after = appended("", "a\nb");
    assert_eq!(after.lines().count(), 2);
}
