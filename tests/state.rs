use rush::history::History;
use rush::parser::parse;

fn words(line: &str) -> Vec<Vec<String>> {
    parse(line)
        .into_iter()
        .map(|c| {
            let mut w = vec![c.name];
            w.extend(c.args);
            w
        })
        .collect()
}

#[test]
fn line_splits_into_commands_and_words() {
    assert_eq!(words("ls -a /tmp"), vec![vec!["ls", "-a", "/tmp"]]);
    assert_eq!(words("  cd  ~ ; pwd;;  "), vec![vec!["cd", "~"], vec!["pwd"]]);
    assert_eq!(words("a\tb\r\n"), vec![vec!["a", "b"]]);
    assert!(words("").is_empty());
    assert!(words(" ; ").is_empty());
    let c = parse("echo x y");
    assert_eq!(c[0].name, "echo");
    assert_eq!(c[0].args, vec!["x".to_string(), "y".to_string()]);
}

#[test]
fn history_goes_back_and_forward() {
    let mut h = History::new();
    h.visit("/a".to_string(), None);
    h.visit("/b".to_string(), None);
    assert_eq!(h.go_back("/c".to_string()), Some("/b".to_string()));
    assert_eq!(h.forward, vec!["/c".to_string()]);
    assert_eq!(h.go_forward("/b".to_string()), Some("/c".to_string()));
    assert_eq!(h.back, vec!["/a".to_string(), "/b".to_string()]);
    assert_eq!(h.go_forward("/c".to_string()), None);
    h.visit("/c".to_string(), None);
    assert!(h.forward.is_empty());
}

#[test]
fn history_keeps_at_most_the_limit() {
    let mut h = History::new();
    for d in ["/1", "/2", "/3", "/4"] {
        h.visit(d.to_string(), Some(2));
    }
    assert_eq!(h.back, vec!["/3".to_string(), "/4".to_string()]);
    h.visit("/5".to_string(), Some(0));
    assert!(h.back.is_empty());
    let mut e = History::new();
    assert_eq!(e.go_back("/x".to_string()), None);
    assert!(e.forward.is_empty());
}

use rush::console::{ConsoleState, Key, ReplAction};

fn typed(s: &mut ConsoleState, text: &str) {
    for c in text.chars() {
        assert_eq!(s.handle_key(Key::Char(c)), ReplAction::RedrawFrame);
    }
}

#[test]
fn line_editing_at_the_cursor() {
    let mut s = ConsoleState::new();
    assert_eq!(s.handle_key(Key::Enter), ReplAction::Ignore);
    typed(&mut s, "lx");
    s.handle_key(Key::Left);
    typed(&mut s, "é");
    assert_eq!(s.line(), "léx");
    assert_eq!(s.cursor(), 2);
    s.handle_key(Key::Delete);
    assert_eq!(s.line(), "lé");
    s.handle_key(Key::Backspace);
    assert_eq!(s.line(), "l");
    s.handle_key(Key::Left);
    s.handle_key(Key::Left);
    s.handle_key(Key::Backspace);
    assert_eq!(s.cursor(), 0);
    s.handle_key(Key::Right);
    s.handle_key(Key::Right);
    assert_eq!(s.cursor(), 1);
    assert_eq!(s.handle_key(Key::Enter), ReplAction::Return);
    assert_eq!(s.handle_key(Key::Interrupt), ReplAction::Exit);
    assert_eq!(s.handle_key(Key::Other), ReplAction::Ignore);
    s.reset_line();
    assert_eq!(s.line(), "");
}

#[test]
fn view_keys() {
    let mut s = ConsoleState::new();
    s.handle_key(Key::ScrollUp);
    assert_eq!(s.scroll, 0);
    s.handle_key(Key::ScrollDown);
    s.handle_key(Key::ScrollDown);
    s.handle_key(Key::ScrollUp);
    assert_eq!(s.scroll, 1);
    assert_eq!(s.handle_key(Key::ToggleDebug), ReplAction::RedrawFrame);
    assert!(s.debug_mode);
    s.append_newline("x");
    assert_eq!(s.handle_key(Key::ClearScreen), ReplAction::RedrawFrame);
    assert!(s.output().is_empty());
    assert_eq!(s.handle_key(Key::Resize), ReplAction::RedrawFrame);
}

#[test]
fn output_lines_continue_and_break() {
    let mut s = ConsoleState::new();
    s.append_str("");
    assert!(s.output().is_empty());
    s.append_str("ab");
    s.append_str("c\nd");
    assert_eq!(s.output(), &vec!["abc".to_string(), "d".to_string()]);
    s.append_newline("e");
    assert_eq!(s.output(), &vec!["abc".to_string(), "de".to_string(), "".to_string()]);
    s.enforce_spacing();
    assert_eq!(s.output().len(), 3);
    s.append_str("f");
    s.enforce_spacing();
    assert_eq!(s.output(), &vec!["abc".to_string(), "de".to_string(), "f".to_string(), "".to_string()]);
    s.clear_output();
    s.enforce_spacing();
    assert!(s.output().is_empty());
}
