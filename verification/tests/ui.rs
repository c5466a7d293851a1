use llmq::api::{Msg, Role};
use llmq::config::Config;
use llmq::ui::{Event, KeyCode, KeyEvent, Reaction, State, Ui, ACCEPT_PREFIX};

fn key(code: KeyCode) -> KeyEvent {
    KeyEvent { code, ctrl: false }
}

fn ctrl(c: char) -> KeyEvent {
    KeyEvent {
        code: KeyCode::Char(c),
        ctrl: true,
    }
}

fn ui_with(query: &str) -> Ui {
    let mut ui = Ui::new(Config::default(), String::new());
    for c in query.chars() {
        ui.handle(key(KeyCode::Char(c)));
    }
    ui
}

fn browsing(answer: &str) -> Ui {
    let mut ui = ui_with("q");
    ui.handle(key(KeyCode::Enter));
    ui.pump(vec![Msg::Chunk(answer.to_string()), Msg::Done]);
    ui
}

#[test]
fn cursor_edits_mid_string_by_char_not_byte() {
    let mut ui = ui_with("héllo");
    ui.handle(key(KeyCode::Left));
    ui.handle(key(KeyCode::Left));
    ui.handle(key(KeyCode::Char('X')));
    assert_eq!(ui.query, "hélXlo");
    ui.handle(key(KeyCode::Home));
    ui.handle(key(KeyCode::Delete));
    assert_eq!(ui.query, "élXlo");
    ui.handle(key(KeyCode::End));
    ui.handle(key(KeyCode::Backspace));
    assert_eq!(ui.query, "élXl");
}

#[test]
fn kill_bindings_are_cursor_aware() {
    let mut ui = ui_with("one two three");
    for _ in 0..6 {
        ui.handle(key(KeyCode::Left));
    }
    ui.handle(ctrl('w')); // deletes "two", not "three"
    assert_eq!(ui.query, "one  three");
    ui.handle(ctrl('k'));
    assert_eq!(ui.query, "one ");
    ui.handle(ctrl('u'));
    assert_eq!(ui.query, "");
}

#[test]
fn cursor_never_leaves_the_query() {
    let mut ui = ui_with("ab");
    ui.handle(key(KeyCode::Right));
    assert_eq!(ui.cursor, 2);
    ui.handle(key(KeyCode::Home));
    ui.handle(key(KeyCode::Left));
    assert_eq!(ui.cursor, 0);
    ui.handle(key(KeyCode::Backspace));
    assert_eq!(ui.query, "ab");
}

#[test]
fn control_moves_the_cursor_too() {
    let mut ui = ui_with("añb");
    ui.handle(ctrl('a'));
    assert_eq!(ui.cursor, 0);
    ui.handle(ctrl('f'));
    assert_eq!(ui.cursor, 1);
    ui.handle(ctrl('e'));
    assert_eq!(ui.cursor, 3);
    ui.handle(ctrl('f'));
    assert_eq!(ui.cursor, 3);
    ui.handle(ctrl('b'));
    assert_eq!(ui.cursor, 2);
    ui.handle(ctrl('z'));
    ui.handle(key(KeyCode::Char('\u{7f}')));
    ui.handle(key(KeyCode::Other));
    ui.handle(key(KeyCode::Up));
    assert_eq!((ui.query.as_str(), ui.cursor), ("añb", 2));
}

#[test]
fn a_word_is_taken_out_with_the_blanks_behind_it() {
    let mut ui = ui_with("one two  ");
    ui.handle(ctrl('w'));
    assert_eq!((ui.query.as_str(), ui.cursor), ("one ", 4));
    ui.handle(ctrl('w'));
    ui.handle(ctrl('w'));
    assert_eq!((ui.query.as_str(), ui.cursor), ("", 0));
}

#[test]
fn backspace_takes_back_what_was_typed() {
    let mut ui = ui_with("日本");
    ui.handle(key(KeyCode::Left));
    ui.handle(key(KeyCode::Char('語')));
    assert_eq!((ui.query.as_str(), ui.cursor), ("日語本", 2));
    ui.handle(key(KeyCode::Backspace));
    assert_eq!((ui.query.as_str(), ui.cursor), ("日本", 1));
}

#[test]
fn a_question_is_sent_with_its_context() {
    let mut ui = Ui::new(Config::default(), "  git sta ".to_string());
    assert!(matches!(ui.handle(key(KeyCode::Enter)), Reaction::Stay));
    ui.handle(key(KeyCode::Char(' ')));
    assert!(matches!(ui.handle(key(KeyCode::Enter)), Reaction::Stay));
    ui.handle(key(KeyCode::Char('x')));
    ui.error = "old".to_string();
    match ui.handle(key(KeyCode::Enter)) {
        Reaction::Send(messages) => {
            assert_eq!(messages.len(), 2);
            assert_eq!(messages[0].role, Role::System);
            assert_eq!(messages[0].content, Config::default().prompt.system);
            assert_eq!(messages[1].role, Role::User);
            assert_eq!(messages[1].content, " x\n\n[current command line: git sta]");
        }
        other => panic!("{:?}", other),
    }
    assert_eq!(ui.state, State::Stream);
    assert_eq!(ui.error, "");
}

#[test]
fn context_can_be_left_out() {
    let mut cfg = Config::default();
    cfg.prompt.include_context = false;
    let mut ui = Ui::new(cfg, "git sta".to_string());
    ui.handle(key(KeyCode::Char('x')));
    assert_eq!(ui.submit()[1].content, "x");
    let mut blank = Ui::new(Config::default(), " \t".to_string());
    blank.handle(key(KeyCode::Char('x')));
    assert_eq!(blank.submit()[1].content, "x");
}

#[test]
fn an_answer_is_collected_and_offered() {
    let mut ui = ui_with("q");
    ui.handle(key(KeyCode::Enter));
    ui.pump(vec![Msg::Chunk("a\n".to_string())]);
    assert!(matches!(ui.handle(key(KeyCode::Char('x'))), Reaction::Stay));
    ui.receive(Msg::Chunk("b".to_string()));
    assert_eq!((ui.buffer.as_str(), ui.state), ("a\nb", State::Stream));
    ui.pump(vec![Msg::Done]);
    assert_eq!(ui.lines, vec!["a", "b"]);
    assert_eq!((ui.state, ui.sel, ui.scroll), (State::Browse, 0, 0));
    assert_eq!(ui.query, "q");
}

#[test]
fn an_error_leads_back_to_the_question() {
    let mut ui = ui_with("q");
    ui.handle(key(KeyCode::Enter));
    ui.pump(vec![Msg::Error("HTTP 401: no".to_string()), Msg::Done]);
    assert_eq!(ui.error, "HTTP 401: no");
    assert_eq!(ui.state, State::Ask);
    assert!(ui.lines.is_empty());
}

#[test]
fn picking_stops_at_the_ends() {
    let mut ui = browsing("a\nb\nc");
    ui.handle(key(KeyCode::Up));
    assert_eq!(ui.sel, 0);
    ui.handle(key(KeyCode::Down));
    ui.handle(ctrl('n'));
    ui.handle(key(KeyCode::Char('j')));
    assert_eq!(ui.sel, 2);
    ui.handle(ctrl('p'));
    ui.handle(key(KeyCode::Char('k')));
    assert_eq!(ui.sel, 0);
    ui.handle(ctrl('j'));
    ui.handle(key(KeyCode::Char('n')));
    assert_eq!(ui.sel, 0);
}

#[test]
fn choosing_a_line() {
    let mut ui = browsing("a\nb");
    ui.handle(key(KeyCode::Down));
    assert!(matches!(ui.handle(key(KeyCode::Enter)), Reaction::Leave));
    assert_eq!(ui.take_result(), Some("b".to_string()));
    assert_eq!(ui.take_result(), None);

    let mut ui = browsing("a\nb");
    assert!(matches!(ui.handle(ctrl('a')), Reaction::Leave));
    assert_eq!(ui.take_result(), Some("a\nb".to_string()));

    let mut ui = browsing("a\nb");
    assert!(matches!(ui.handle(ctrl('x')), Reaction::Leave));
    assert_eq!(ui.take_result(), Some("__llmq_accept__:a".to_string()));
    assert_eq!(ACCEPT_PREFIX, "__llmq_accept__:");
}

#[test]
fn esc_cancels() {
    let mut ui = ui_with("q");
    assert!(matches!(ui.handle(key(KeyCode::Esc)), Reaction::Leave));
    assert_eq!(ui.take_result(), None);

    let mut ui = ui_with("q");
    ui.handle(key(KeyCode::Enter));
    assert!(matches!(ui.handle(key(KeyCode::Esc)), Reaction::Abort));
    assert_eq!((ui.state, ui.query.as_str()), (State::Ask, "q"));

    let mut ui = browsing("a");
    assert!(matches!(ui.handle(key(KeyCode::Esc)), Reaction::Leave));
    assert_eq!(ui.take_result(), None);
}

#[test]
fn back_to_the_question() {
    for c in ['e', '/'] {
        let mut ui = browsing("a");
        ui.cursor = 0;
        assert!(matches!(ui.handle(key(KeyCode::Char(c))), Reaction::Stay));
        assert_eq!((ui.state, ui.query.as_str(), ui.cursor), (State::Ask, "q", 1));
    }
}

#[test]
fn only_keys_that_go_down_count() {
    let mut ui = ui_with("");
    assert!(matches!(ui.notice(Event::OtherKey(key(KeyCode::Esc))), Reaction::Stay));
    assert!(matches!(ui.notice(Event::Other), Reaction::Stay));
    ui.notice(Event::OtherKey(key(KeyCode::Char('x'))));
    assert_eq!(ui.query, "");
    ui.notice(Event::Press(key(KeyCode::Char('x'))));
    assert_eq!(ui.query, "x");
    assert!(matches!(ui.notice(Event::Press(key(KeyCode::Esc))), Reaction::Leave));
}

#[test]
fn hints() {
    let mut ui = ui_with("q");
    assert_eq!(ui.hint(), " enter send · esc cancel ");
    ui.handle(key(KeyCode::Enter));
    assert_eq!(ui.hint(), " streaming… · esc abort ");
    assert_eq!(
        browsing("a").hint(),
        " enter insert · ^a insert all · ^x insert+run · esc cancel "
    );
}

#[test]
fn batches_of_messages_do_not_matter() {
    let mut one = ui_with("q");
    one.pump(vec![
        Msg::Chunk("a".to_string()),
        Msg::Chunk("b\nc".to_string()),
        Msg::Done,
    ]);
    let mut two = ui_with("q");
    two.pump(vec![Msg::Chunk("a".to_string())]);
    two.pump(vec![]);
    two.pump(vec![Msg::Chunk("b\nc".to_string()), Msg::Done]);
    assert_eq!(one.lines, vec!["ab", "c"]);
    assert_eq!(one.lines, two.lines);
}

#[test]
fn delete_takes_out_what_is_under_the_cursor() {
    let mut one = ui_with("añb");
    one.handle(key(KeyCode::Delete));
    assert_eq!((one.query.as_str(), one.cursor), ("añb", 3));
    one.handle(key(KeyCode::Home));
    one.handle(key(KeyCode::Right));
    let mut two = ui_with("añb");
    two.handle(key(KeyCode::Home));
    two.handle(key(KeyCode::Right));
    one.handle(key(KeyCode::Delete));
    two.handle(key(KeyCode::Right));
    two.handle(key(KeyCode::Backspace));
    assert_eq!((one.query.as_str(), one.cursor), ("ab", 1));
    assert_eq!((two.query.as_str(), two.cursor), ("ab", 1));
}
