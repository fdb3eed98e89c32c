use fith::interpreter::Interpreter;
use fith::session::{Key, Session, Step};

fn type_line(s: &mut Session, text: &str) {
    for c in text.chars() {
        s.handle_key(Key::Char(c));
    }
}

/// The preview a fresh clone of `committed_line`'s evaluator would give for
/// `buffer`, computed without any session.
fn direct_preview(committed_line: &str, buffer: &str) -> (String, Result<String, String>) {
    let mut committed = Interpreter::new();
    committed.execute_line(committed_line).unwrap();
    let mut copy = committed.duplicate();
    let out = copy.execute_line(buffer);
    (copy.stack_display(), out)
}

#[test]
fn fresh_session_previews_empty() {
    let s = Session::new();
    let (stack, out) = s.preview();
    assert_eq!(stack, "");
    assert_eq!(out, Ok(String::new()));
}

#[test]
fn typing_updates_preview_without_committing() {
    let mut s = Session::new();
    type_line(&mut s, "3 4 +");
    let (stack, out) = s.preview();
    assert_eq!(stack, "7");
    assert_eq!(out, Ok(String::new()));
    // nothing was committed: clearing the buffer previews the committed stack
    for _ in 0.."3 4 +".len() {
        s.handle_key(Key::Backspace);
    }
    let (stack, out) = s.preview();
    assert_eq!(stack, "");
    assert_eq!(out, Ok(String::new()));
    assert_eq!(s.buffer_text(), "");
}

#[test]
fn commit_promotes_the_speculative_copy() {
    let mut s = Session::new();
    type_line(&mut s, "3 4 +");
    let r = s.handle_key(Key::Commit);
    match r {
        Step::Committed { output } => assert_eq!(output, Ok(String::new())),
        _ => panic!("commit did not report a committed line"),
    }
    assert_eq!(s.buffer_text(), "");
    assert_eq!(s.cursor(), 0);
    let (stack, out) = s.preview();
    assert_eq!(stack, "7");
    assert_eq!(out, Ok(String::new()));
}

#[test]
fn preview_errors_are_values_not_failures() {
    let mut s = Session::new();
    type_line(&mut s, "dup");
    let (stack, out) = s.preview();
    assert_eq!(stack, "");
    assert_eq!(out, Err("Can't dup, empty stack".to_string()));
}

#[test]
fn previews_depend_only_on_committed_state_and_buffer() {
    let mut s = Session::new();
    type_line(&mut s, "1 2");
    s.handle_key(Key::Commit);

    // committed stack is [1, 2]; edit "+", erase it, then type "+ +"
    type_line(&mut s, "+");
    assert_eq!(s.preview(), direct_preview("1 2", "+"));

    s.handle_key(Key::Backspace);
    assert_eq!(s.buffer_text(), "");
    assert_eq!(s.preview(), direct_preview("1 2", ""));

    type_line(&mut s, "+ +");
    assert_eq!(s.preview(), direct_preview("1 2", "+ +"));

    // the second + underflows: preview shows the error, committed state stays
    let (_, out) = s.preview();
    assert_eq!(
        out,
        Err("Can't add, less than two elements on the stack".to_string())
    );
    for _ in 0..3 {
        s.handle_key(Key::Backspace);
    }
    assert_eq!(s.preview(), direct_preview("1 2", ""));
    assert_eq!(s.preview().0, "1 2");
}

#[test]
fn cursor_moves_are_clamped() {
    let mut s = Session::new();
    type_line(&mut s, "ab");
    assert_eq!(s.cursor(), 2);
    assert!(matches!(s.handle_key(Key::Right), Step::Moved));
    assert_eq!(s.cursor(), 2);
    s.handle_key(Key::Left);
    s.handle_key(Key::Left);
    assert_eq!(s.cursor(), 0);
    assert!(matches!(s.handle_key(Key::Left), Step::Moved));
    assert_eq!(s.cursor(), 0);
    s.handle_key(Key::End);
    assert_eq!(s.cursor(), 2);
    s.handle_key(Key::Home);
    assert_eq!(s.cursor(), 0);
}

#[test]
fn insertion_happens_at_the_cursor() {
    let mut s = Session::new();
    type_line(&mut s, "13");
    s.handle_key(Key::Left);
    s.handle_key(Key::Char('2'));
    assert_eq!(s.buffer_text(), "123");
    assert_eq!(s.cursor(), 2);
}

#[test]
fn backspace_removes_left_of_cursor() {
    let mut s = Session::new();
    type_line(&mut s, "123");
    s.handle_key(Key::Left);
    assert!(matches!(s.handle_key(Key::Backspace), Step::Edited));
    assert_eq!(s.buffer_text(), "13");
    assert_eq!(s.cursor(), 1);
    // backspace at the start of the line is a plain cursor event
    s.handle_key(Key::Home);
    assert!(matches!(s.handle_key(Key::Backspace), Step::Moved));
    assert_eq!(s.buffer_text(), "13");
}

#[test]
fn kill_keys_cut_around_the_cursor() {
    let mut s = Session::new();
    type_line(&mut s, "12345");
    s.handle_key(Key::Left);
    s.handle_key(Key::Left);
    assert!(matches!(s.handle_key(Key::KillToEnd), Step::Edited));
    assert_eq!(s.buffer_text(), "123");
    assert_eq!(s.cursor(), 3);
    s.handle_key(Key::Left);
    assert!(matches!(s.handle_key(Key::KillToStart), Step::Edited));
    assert_eq!(s.buffer_text(), "3");
    assert_eq!(s.cursor(), 0);
    assert!(matches!(s.handle_key(Key::KillToStart), Step::Moved));
}

#[test]
fn interrupt_reports_termination_and_changes_nothing() {
    let mut s = Session::new();
    type_line(&mut s, "7");
    assert!(matches!(s.handle_key(Key::Interrupt), Step::Terminated));
    assert_eq!(s.buffer_text(), "7");
    let (stack, _) = s.preview();
    assert_eq!(stack, "7");
}

#[test]
fn edits_without_commit_never_change_committed_state() {
    let mut s = Session::new();
    type_line(&mut s, "1 2");
    s.handle_key(Key::Commit);
    // a storm of commit-free keys
    type_line(&mut s, "999 dup + rot");
    s.handle_key(Key::Home);
    s.handle_key(Key::Char('x'));
    s.handle_key(Key::Backspace);
    s.handle_key(Key::End);
    s.handle_key(Key::KillToStart);
    assert_eq!(s.buffer_text(), "");
    assert_eq!(s.preview().0, "1 2");
}
