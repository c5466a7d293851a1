use llmq::api::Msg;
use llmq::config::Config;
use llmq::screen::Paint;
use llmq::ui::{KeyCode, KeyEvent, Ui};

fn press(ui: &mut Ui, code: KeyCode) {
    ui.handle(KeyEvent { code, ctrl: false });
}

fn ui_with(query: &str) -> Ui {
    let mut ui = Ui::new(Config::default(), String::new());
    for c in query.chars() {
        press(&mut ui, KeyCode::Char(c));
    }
    ui
}

fn browsing(answer: &str) -> Ui {
    let mut ui = ui_with("q");
    press(&mut ui, KeyCode::Enter);
    ui.pump(vec![Msg::Chunk(answer.to_string()), Msg::Done]);
    ui
}

/// What a terminal shows after the steps, and where its cursor is if it shows.
fn screen(steps: &Vec<Paint>, w: usize, h: usize) -> (Vec<String>, Option<(u16, u16)>) {
    let mut cells = vec![vec![' '; w]; h];
    let mut at: (u16, u16) = (0, 0);
    let mut visible = false;
    for step in steps {
        match step {
            Paint::HideCursor => visible = false,
            Paint::ShowCursor => visible = true,
            Paint::Clear => cells = vec![vec![' '; w]; h],
            Paint::MoveTo(x, y) => at = (*x, *y),
            Paint::Print(s) => {
                for c in s.chars() {
                    cells[at.1 as usize][at.0 as usize] = c;
                    at.0 += 1;
                }
            }
            _ => {}
        }
    }
    let rows = cells.iter().map(|r| r.iter().collect()).collect();
    (rows, if visible { Some(at) } else { None })
}

/// The texts printed in reverse.
fn reversed(steps: &Vec<Paint>) -> Vec<&str> {
    let mut on = false;
    let mut out: Vec<&str> = Vec::new();
    for step in steps {
        match step {
            Paint::Reverse => on = true,
            Paint::NotReverse => on = false,
            Paint::Print(s) if on => out.push(s.as_str()),
            _ => {}
        }
    }
    out
}

#[test]
fn the_box_of_a_usual_terminal() {
    let ui = ui_with("");
    assert_eq!(ui.geom(80, 24), (5, 8, 14, 64));
    assert_eq!(ui.geom(200, 50), (10, 20, 30, 160));
}

#[test]
fn the_box_never_leaves_the_screen() {
    let ui = ui_with("");
    // A floor of 40 columns does not fit 38.
    assert_eq!(ui.geom(38, 24), (5, 1, 14, 36));
    assert_eq!(ui.geom(30, 6), (0, 0, 6, 30));
    assert_eq!(ui.geom(31, 7), (0, 0, 6, 30));
    let mut wide = ui_with("");
    wide.cfg.ui.width_pct = 65535;
    wide.cfg.ui.height_pct = 65535;
    assert_eq!(wide.geom(65535, 65535), (1, 1, 65533, 65533));
}

#[test]
fn a_terminal_that_is_too_small_is_told_so() {
    let mut ui = ui_with("abc");
    for (w, h) in [(29, 24), (80, 5)] {
        let steps = ui.draw(w, h);
        assert_eq!(steps.len(), 4);
        assert!(matches!(&steps[0], Paint::HideCursor));
        assert!(matches!(&steps[1], Paint::Clear));
        assert!(matches!(&steps[2], Paint::MoveTo(0, 0)));
        assert!(matches!(&steps[3], Paint::Print(s) if s == "llmq: terminal too small"));
    }
    assert!(matches!(&ui.draw(5, 5)[3], Paint::Print(s) if s == "llmq"));
    assert!(matches!(&ui.draw(0, 0)[3], Paint::Print(s) if s.is_empty()));
}

#[test]
fn the_question_is_drawn() {
    let mut ui = ui_with("find files");
    let (rows, cursor) = screen(&ui.draw(42, 10), 42, 10);
    assert_eq!(
        rows,
        vec![
            "                                          ",
            " ┌─ llmq ───────────────────────────────┐ ",
            " │ ask> find files                      │ ",
            " │──────────────────────────────────────│ ",
            " │                                      │ ",
            " │                                      │ ",
            " │                                      │ ",
            " │─ enter send · esc cancel ────────────│ ",
            " └──────────────────────────────────────┘ ",
            "                                          ",
        ]
    );
    assert_eq!(cursor, Some((18, 2)));
}

#[test]
fn a_long_question_scrolls_with_the_cursor() {
    let query: String = "0123456789".repeat(6);
    let mut ui = ui_with(&query);
    let (rows, cursor) = screen(&ui.draw(42, 10), 42, 10);
    // The box has 36 columns of text, and the prompt takes five of them.
    assert!(rows[2].contains(&format!("ask> {}", &query[29..60])));
    assert_eq!(cursor, Some((39, 2)));
    press(&mut ui, KeyCode::Home);
    let (rows, cursor) = screen(&ui.draw(42, 10), 42, 10);
    assert!(rows[2].contains(&format!("ask> {}", &query[0..31])));
    assert_eq!(cursor, Some((8, 2)));
}

#[test]
fn a_title_that_does_not_fit_is_left_out() {
    let mut ui = ui_with("");
    ui.cfg.ui.title = "x".repeat(36);
    let (rows, _) = screen(&ui.draw(42, 10), 42, 10);
    assert!(!rows[1].contains('x'));
    ui.cfg.ui.title = "x".repeat(35);
    let (rows, _) = screen(&ui.draw(42, 10), 42, 10);
    assert!(rows[1].contains(&"x".repeat(35)));
}

#[test]
fn the_end_of_a_stream_is_drawn() {
    let mut ui = ui_with("q");
    press(&mut ui, KeyCode::Enter);
    let (rows, cursor) = screen(&ui.draw(42, 10), 42, 10);
    assert_eq!(rows[2], " │   q> q                               │ ");
    assert_eq!(rows[4], " │                                      │ ");
    assert_eq!(rows[7], " │─ streaming… · esc abort ─────────────│ ");
    assert_eq!(cursor, None);
    ui.receive(Msg::Chunk("one\ntwo\nthree\nfour".to_string()));
    let (rows, _) = screen(&ui.draw(42, 10), 42, 10);
    assert!(rows[4].contains("two") && rows[5].contains("three") && rows[6].contains("four"));
}

#[test]
fn an_error_is_drawn_over_the_lines() {
    let mut ui = browsing("ls");
    ui.receive(Msg::Error("e".repeat(80)));
    let (rows, _) = screen(&ui.draw(42, 10), 42, 10);
    assert_eq!(rows[4], format!(" │ {} │ ", "e".repeat(36)));
    assert_eq!(rows[5], format!(" │ {} │ ", "e".repeat(36)));
    assert_eq!(rows[6], format!(" │ {}{} │ ", "e".repeat(8), " ".repeat(28)));
    ui.receive(Msg::Error("f".repeat(1000)));
    let (rows, _) = screen(&ui.draw(42, 10), 42, 10);
    assert!(rows[6].contains(&"f".repeat(36)) && !rows[7].contains('f'));
}

#[test]
fn the_picked_line_comes_into_view() {
    let mut ui = browsing("a\nb\nc\nd\ne");
    let steps = ui.draw(42, 10);
    assert_eq!(reversed(&steps), vec![format!("a{}", " ".repeat(35))]);
    let (rows, cursor) = screen(&steps, 42, 10);
    assert!(rows[4].contains('a') && rows[5].contains('b') && rows[6].contains('c'));
    assert_eq!(cursor, None);
    for _ in 0..4 {
        press(&mut ui, KeyCode::Down);
    }
    let steps = ui.draw(42, 10);
    assert_eq!(ui.scroll, 2);
    assert_eq!(reversed(&steps), vec![format!("e{}", " ".repeat(35))]);
    press(&mut ui, KeyCode::Up);
    ui.draw(42, 10);
    assert_eq!((ui.sel, ui.scroll), (3, 2));
    for _ in 0..3 {
        press(&mut ui, KeyCode::Up);
    }
    ui.draw(42, 10);
    assert_eq!((ui.sel, ui.scroll), (0, 0));
}

#[test]
fn a_line_that_wraps_is_picked_whole() {
    let long = "x".repeat(50);
    let mut ui = browsing(&format!("a\n{}\nb\nc", long));
    press(&mut ui, KeyCode::Down);
    let steps = ui.draw(42, 10);
    assert_eq!(
        reversed(&steps),
        vec!["x".repeat(36), format!("{}{}", "x".repeat(14), " ".repeat(22))]
    );
    assert_eq!(ui.scroll, 0);
    press(&mut ui, KeyCode::Down);
    ui.draw(42, 10);
    assert_eq!(ui.scroll, 1);
}

#[test]
fn painting_again_paints_the_same() {
    let mut ui = browsing("a\nb\nc\nd\ne");
    for _ in 0..4 {
        press(&mut ui, KeyCode::Down);
    }
    let first = screen(&ui.draw(42, 10), 42, 10);
    let second = screen(&ui.draw(42, 10), 42, 10);
    assert_eq!(first, second);
}

#[test]
fn nothing_is_painted_outside_the_box() {
    // `screen` would index out of its rows and columns.
    let mut ui = browsing("a\nbb\nccc");
    for (w, h) in [(30u16, 6u16), (31, 7), (38, 9), (80, 24), (132, 60)] {
        let steps = ui.draw(w, h);
        screen(&steps, w as usize, h as usize);
        let (top, left, height, width) = ui.geom(w as usize, h as usize);
        for step in &steps {
            if let Paint::MoveTo(x, y) = step {
                assert!(left <= *x as usize && (*x as usize) < left + width);
                assert!(top <= *y as usize && (*y as usize) < top + height);
            }
        }
    }
}
