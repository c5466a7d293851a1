use llmq::cli::{
    in_tmux_popup_mode, parse_args, report, wants_popup, Args, Parsed, Report, ERR_PREFIX, USAGE,
};
use llmq::config::Config;
use llmq::popup::{
    make_temp, plan_popup, popup_command, popup_result, temp_name, tmux_args, TempResult, TempStep,
    TmuxExit, ATTEMPTS,
};
use llmq::session::{Output, Phase, Session, SessionAction, SessionEvent};
use llmq::tty::{write_fd, Redirect, TtyEvent, TtyStep};

fn strings(words: &[&str]) -> Vec<String> {
    words.iter().map(|w| w.to_string()).collect()
}

fn parsed(words: &[&str]) -> Args {
    match parse_args(&strings(words)) {
        Ok(Parsed::Go(args)) => args,
        other => panic!("{:?}", other),
    }
}

fn refused(words: &[&str]) -> String {
    match parse_args(&strings(words)) {
        Err(e) => e,
        other => panic!("{:?}", other),
    }
}

#[test]
fn options_are_read() {
    let args = parsed(&[]);
    assert_eq!((args.context.as_str(), args.config.as_str()), ("", ""));
    assert!(!args.no_popup && !args.print_config && args.popup_out.is_empty());
    let args = parsed(&[
        "--context", "--help", "--no-popup", "--config", "c", "--popup-out", "p",
        "--print-config", "--config", "d",
    ]);
    assert_eq!(args.context, "--help");
    assert_eq!(args.config, "d");
    assert_eq!(args.popup_out, "p");
    assert!(args.no_popup && args.print_config);
}

#[test]
fn options_are_refused() {
    assert_eq!(refused(&["--context"]), "--context needs a value");
    assert_eq!(refused(&["--config"]), "--config needs a value");
    assert_eq!(refused(&["--popup-out"]), "--popup-out needs a value");
    assert_eq!(refused(&["--no-popup", "é", "-h"]), "unknown option: é");
    assert_eq!(refused(&[""]), "unknown option: ");
}

#[test]
fn help_comes_before_what_follows() {
    for words in [["-h", "--nonsense"], ["--help", "--context"]] {
        assert!(matches!(parse_args(&strings(&words)), Ok(Parsed::Help)));
    }
    assert!(USAGE.starts_with("usage: llmq [options]\n\n  --context TEXT     current"));
    assert!(USAGE.ends_with("  -h, --help         show this message\n"));
}

#[test]
fn when_a_popup_is_opened() {
    let cfg = Config::default();
    let plain = Args::default();
    assert!(in_tmux_popup_mode(&cfg, &plain, true));
    assert!(!in_tmux_popup_mode(&cfg, &plain, false));
    assert!(!in_tmux_popup_mode(&cfg, &parsed(&["--no-popup"]), true));
    assert!(!in_tmux_popup_mode(&cfg, &parsed(&["--popup-out", "x"]), true));
    assert!(wants_popup(true, &plain, true));
    assert!(!wants_popup(false, &plain, true));
}

#[test]
fn failures_are_reported_where_they_can_be_seen() {
    assert!(matches!(report(&Args::default(), "no"), Report::Stderr(s) if s == "llmq: no"));
    match report(&parsed(&["--popup-out", "/tmp/x"]), "no") {
        Report::File(path, data) => {
            assert_eq!(path, "/tmp/x");
            assert_eq!(data, "__llmq_error__:no");
        }
        other => panic!("{:?}", other),
    }
    assert_eq!(ERR_PREFIX, "__llmq_error__:");
}

#[test]
fn names_for_the_result_file() {
    assert_eq!(temp_name(12, 345, 6), "llmq-12-345-6");
    assert_eq!(temp_name(0, u32::MAX, 63), "llmq-0-4294967295-63");
}

#[test]
fn the_search_for_a_name_ends() {
    assert!(matches!(make_temp(3, TempResult::Created), TempStep::Found));
    assert!(matches!(
        make_temp(3, TempResult::Failed("full".to_string())),
        TempStep::GiveUp(s) if s == "temp file: full"
    ));
    let mut attempt = 0;
    let mut tries = 1;
    while let TempStep::Try(n) = make_temp(attempt, TempResult::Exists) {
        assert_eq!(n, attempt + 1);
        attempt = n;
        tries += 1;
    }
    assert_eq!(tries, ATTEMPTS);
    assert!(matches!(
        make_temp(attempt, TempResult::Exists),
        TempStep::GiveUp(s) if s == "temp file: could not create a temp file"
    ));
    assert!(matches!(make_temp(u32::MAX, TempResult::Exists), TempStep::GiveUp(_)));
}

#[test]
fn the_popup_runs_this_program_with_the_same_arguments() {
    let args = parsed(&["--context", "git 'sta", "--config", "", "--no-popup"]);
    assert_eq!(
        popup_command("/bin/llmq", "/tmp/r", &args),
        vec!["/bin/llmq", "--popup-out", "/tmp/r", "--context", "git 'sta"]
    );
    let args = parsed(&["--context", "x", "--config", "/c.toml"]);
    let words = popup_command("me", "/tmp/r", &args);
    match parse_args(&words[1..].to_vec()) {
        Ok(Parsed::Go(inner)) => {
            assert_eq!(inner.context, "x");
            assert_eq!(inner.config, "/c.toml");
            assert_eq!(inner.popup_out, "/tmp/r");
            assert!(!wants_popup(true, &inner, true));
        }
        other => panic!("{:?}", other),
    }
}

#[test]
fn the_popup_is_planned() {
    let cfg = Config::default();
    let args = parsed(&["--context", "a b'c$d"]);
    let me = Ok("/bin/llmq".to_string());
    let plan = plan_popup(&cfg, &args, "/tmp/r", me).unwrap();
    assert_eq!(
        plan[..8],
        strings(&["display-popup", "-E", "-w", "80%", "-h", "60%", "-T", "llmq"])
    );
    assert_eq!(plan.len(), 9);
    assert_eq!(
        shlex::split(&plan[8]).unwrap(),
        strings(&["/bin/llmq", "--popup-out", "/tmp/r", "--context", "a b'c$d"])
    );
    assert_ne!(plan[8], "/bin/llmq --popup-out /tmp/r --context a b'c$d");
    assert_eq!(tmux_args(&cfg, "x".to_string())[8], "x");
}

#[test]
fn words_come_back_from_the_line_of_the_popup() {
    let cfg = Config::default();
    for word in ["^x", "!y^z", "`a`\\\"'", "#c", "\n\t\r", "é", "''", "\\", "a=b{c}", "\u{7f}"] {
        let args = parsed(&["--context", word, "--config", " "]);
        let plan = plan_popup(&cfg, &args, "", Ok(String::new())).unwrap();
        assert_eq!(
            shlex::split(&plan[8]).unwrap(),
            strings(&["", "--popup-out", "", "--context", word, "--config", " "])
        );
    }
}

#[test]
fn the_popup_cannot_be_planned() {
    let cfg = Config::default();
    assert_eq!(
        plan_popup(&cfg, &Args::default(), "/r", Err("gone".to_string())).unwrap_err(),
        "current_exe: gone"
    );
    let nul = parsed(&["--context", "a\0b"]);
    assert_eq!(
        plan_popup(&cfg, &nul, "/r", Ok("me".to_string())).unwrap_err(),
        "cannot quote command: cannot shell-quote string containing nul byte"
    );
}

#[test]
fn what_comes_back_from_the_popup() {
    let ended = |success: bool, code: Option<i32>| TmuxExit::Ended(success, code);
    let data = |s: &str| s.to_string();
    assert_eq!(popup_result(ended(true, Some(0)), data("ls")), Ok(Some(data("ls"))));
    assert_eq!(popup_result(ended(false, Some(1)), data("ls")), Ok(Some(data("ls"))));
    assert_eq!(popup_result(ended(true, Some(0)), data("")), Ok(None));
    assert_eq!(
        popup_result(ended(false, Some(129)), data("")),
        Err(data("tmux display-popup exited 129"))
    );
    assert_eq!(
        popup_result(ended(false, None), data("")),
        Err(data("tmux display-popup exited -1"))
    );
    assert_eq!(
        popup_result(ended(true, Some(0)), data("__llmq_error__:no terminal")),
        Err(data("no terminal"))
    );
    assert_eq!(
        popup_result(TmuxExit::NotStarted(data("not found")), data("ls")),
        Err(data("tmux: not found"))
    );
}

fn started(words: &[&str]) -> Session {
    let mut session = Session::new();
    let config = parsed(words).config;
    assert!(matches!(
        session.step(SessionEvent::Argv(strings(words))),
        SessionAction::Load(path) if path == config
    ));
    session
}

#[test]
fn a_bad_command_line_ends_the_run() {
    let mut session = Session::new();
    match session.step(SessionEvent::Argv(strings(&["-x"]))) {
        SessionAction::Exit(2, Output::Stderr(s)) => {
            assert_eq!(s, format!("llmq: unknown option: -x\n\n{}", USAGE))
        }
        other => panic!("{:?}", other),
    }
    assert_eq!(session.phase, Phase::Ended);
    assert!(matches!(session.step(SessionEvent::Argv(Vec::new())), SessionAction::Wait));
    let mut session = Session::new();
    match session.step(SessionEvent::Argv(strings(&["-h"]))) {
        SessionAction::Exit(0, Output::Stdout(s)) => assert_eq!(s, USAGE),
        other => panic!("{:?}", other),
    }
}

#[test]
fn the_configuration_is_shown_or_missed() {
    let failed = || SessionEvent::Loaded(Err("no config".to_string()), true);
    match started(&[]).step(failed()) {
        SessionAction::Exit(2, Output::Stderr(s)) => assert_eq!(s, "llmq: no config"),
        other => panic!("{:?}", other),
    }
    assert!(matches!(
        started(&["--print-config"]).step(failed()),
        SessionAction::Exit(0, Output::DefaultConfig)
    ));
    assert!(matches!(
        started(&["--print-config"]).step(SessionEvent::Loaded(Ok(true), true)),
        SessionAction::Exit(0, Output::Config)
    ));
}

#[test]
fn a_run_through_the_popup() {
    let popup = || {
        let mut session = started(&["--config", "c"]);
        assert!(matches!(
            session.step(SessionEvent::Loaded(Ok(true), true)),
            SessionAction::OpenPopup
        ));
        session
    };
    assert!(matches!(
        popup().step(SessionEvent::PopupEnded(Ok(Some("ls".to_string())))),
        SessionAction::Exit(0, Output::Stdout(s)) if s == "ls"
    ));
    assert!(matches!(
        popup().step(SessionEvent::PopupEnded(Ok(None))),
        SessionAction::Exit(0, Output::Nothing)
    ));
    assert!(matches!(
        popup().step(SessionEvent::PopupEnded(Err("tmux: x".to_string()))),
        SessionAction::Exit(1, Output::Stderr(s)) if s == "llmq: tmux: x"
    ));
}

fn at_the_terminal(words: &[&str]) -> Session {
    let mut session = started(words);
    assert!(matches!(
        session.step(SessionEvent::Loaded(Ok(false), true)),
        SessionAction::OpenTerminal
    ));
    session
}

fn asking(words: &[&str]) -> Session {
    let mut session = at_the_terminal(words);
    let context = session.args.context.clone();
    assert!(matches!(
        session.step(SessionEvent::Terminal(Ok(7))),
        SessionAction::AskUser(c) if c == context
    ));
    session
}

#[test]
fn a_run_on_the_terminal() {
    let chosen = |s: &str| SessionEvent::Chosen(Ok(Some(s.to_string())));
    let failed = |s: &str| SessionEvent::Chosen(Err(s.to_string()));
    assert!(matches!(
        asking(&["--context", "git"]).step(chosen("ls")),
        SessionAction::Exit(0, Output::Descriptor(7, s)) if s == "ls"
    ));
    assert!(matches!(
        asking(&[]).step(SessionEvent::Chosen(Ok(None))),
        SessionAction::Exit(0, Output::Nothing)
    ));
    assert!(matches!(
        asking(&[]).step(failed("broken")),
        SessionAction::Exit(1, Output::Stderr(s)) if s == "llmq: broken"
    ));
    assert!(matches!(
        at_the_terminal(&[]).step(SessionEvent::Terminal(Err("none".to_string()))),
        SessionAction::Exit(1, Output::Stderr(s)) if s == "llmq: none"
    ));
}

#[test]
fn a_run_inside_the_popup() {
    let inside = ["--popup-out", "/r"];
    let mut session = asking(&inside);
    assert!(matches!(
        session.step(SessionEvent::Chosen(Ok(Some("ls".to_string())))),
        SessionAction::WriteFile(path, s) if path == "/r" && s == "ls"
    ));
    assert!(matches!(
        session.step(SessionEvent::Written(Ok(()))),
        SessionAction::Exit(0, Output::Nothing)
    ));
    let mut session = asking(&inside);
    session.step(SessionEvent::Chosen(Ok(Some("ls".to_string()))));
    assert!(matches!(
        session.step(SessionEvent::Written(Err("full".to_string()))),
        SessionAction::Exit(1, Output::Stderr(s)) if s == "llmq: full"
    ));
    let outputs = [
        asking(&inside).step(SessionEvent::Chosen(Err("broken".to_string()))),
        at_the_terminal(&inside).step(SessionEvent::Terminal(Err("broken".to_string()))),
    ];
    for output in outputs {
        match output {
            SessionAction::Exit(1, Output::File(path, data)) => {
                assert_eq!(path, "/r");
                assert_eq!(
                    popup_result(TmuxExit::Ended(false, Some(1)), data),
                    Err("broken".to_string())
                );
            }
            other => panic!("{:?}", other),
        }
    }
}

#[test]
fn a_bad_configuration_inside_the_popup_is_handed_back() {
    let failed = || SessionEvent::Loaded(Err("no config at /c".to_string()), true);
    let mut session = started(&["--popup-out", "/r", "--config", "/c"]);
    match session.step(failed()) {
        SessionAction::Exit(2, Output::File(path, data)) => {
            assert_eq!(path, "/r");
            assert_eq!(data, "__llmq_error__:no config at /c");
            assert_eq!(
                popup_result(TmuxExit::Ended(false, Some(2)), data),
                Err("no config at /c".to_string())
            );
        }
        other => panic!("{:?}", other),
    }
    assert_eq!(session.phase, Phase::Ended);
    assert!(matches!(
        started(&["--popup-out", "/r", "--print-config"]).step(failed()),
        SessionAction::Exit(0, Output::DefaultConfig)
    ));
}

#[test]
fn redirecting_to_the_terminal() {
    let (mut r, step) = Redirect::start();
    assert!(matches!(step, TtyStep::Duplicate));
    assert!(matches!(r.step(TtyEvent::Duplicated(9)), TtyStep::Check(1)));
    assert!(matches!(r.step(TtyEvent::Checked(false)), TtyStep::Open(1, true)));
    assert!(matches!(r.step(TtyEvent::Opened(4)), TtyStep::Install(4, 1)));
    assert!(matches!(r.step(TtyEvent::Opened(4)), TtyStep::Wait));
    assert!(matches!(r.step(TtyEvent::Installed), TtyStep::Check(0)));
    assert!(matches!(r.step(TtyEvent::Checked(true)), TtyStep::Finished(Ok(9))));
    assert!(matches!(r.step(TtyEvent::Checked(true)), TtyStep::Wait));

    let (mut r, _) = Redirect::start();
    r.step(TtyEvent::Duplicated(0));
    assert!(matches!(r.step(TtyEvent::Checked(true)), TtyStep::Check(0)));
    assert!(matches!(r.step(TtyEvent::Checked(false)), TtyStep::Open(0, false)));
    assert!(matches!(r.step(TtyEvent::Opened(5)), TtyStep::Install(5, 0)));
    assert!(matches!(r.step(TtyEvent::Installed), TtyStep::Finished(Ok(0))));
}

#[test]
fn there_may_be_no_terminal() {
    let (mut r, _) = Redirect::start();
    assert!(matches!(
        r.step(TtyEvent::Duplicated(-1)),
        TtyStep::Finished(Err(s)) if s == "cannot duplicate stdout"
    ));
    let (mut r, _) = Redirect::start();
    r.step(TtyEvent::Duplicated(3));
    r.step(TtyEvent::Checked(false));
    assert!(matches!(
        r.step(TtyEvent::Opened(-1)),
        TtyStep::Finished(Err(s)) if s == "no controlling terminal (/dev/tty)"
    ));
}

#[test]
fn writing_goes_on_until_everything_is_written() {
    assert_eq!(write_fd(10, 0, 10), None);
    assert_eq!(write_fd(10, 0, 4), Some(4));
    assert_eq!(write_fd(10, 4, 5), Some(9));
    assert_eq!(write_fd(10, 9, 1), None);
    assert_eq!(write_fd(10, 4, 0), None);
    assert_eq!(write_fd(10, 4, -1), None);
    assert_eq!(write_fd(usize::MAX, 1, isize::MAX), Some(1 + isize::MAX as usize));
}

#[test]
fn only_answers_move_a_session() {
    let mut session = Session::new();
    let early = SessionEvent::Loaded(Ok(true), true);
    assert!(matches!(session.step(early), SessionAction::Wait));
    assert_eq!(session.phase, Phase::Start);
    let mut session = asking(&["--popup-out", "/r"]);
    let late = SessionEvent::Terminal(Ok(8));
    assert!(matches!(session.step(late), SessionAction::Wait));
    assert_eq!(session.phase, Phase::User(7));
    // Every run is over after five answers: this one takes all of them.
    session.step(SessionEvent::Chosen(Ok(Some("ls".to_string()))));
    session.step(SessionEvent::Written(Ok(())));
    assert_eq!(session.phase, Phase::Ended);
}

#[test]
fn the_longest_way_to_the_terminal() {
    let (mut r, _) = Redirect::start();
    assert!(matches!(r.step(TtyEvent::Installed), TtyStep::Wait));
    let mut answers = 1;
    let mut step = r.step(TtyEvent::Duplicated(3));
    while !matches!(step, TtyStep::Finished(_)) {
        step = r.step(match step {
            TtyStep::Check(_) => TtyEvent::Checked(false),
            TtyStep::Open(fd, _) => TtyEvent::Opened(10 + fd),
            TtyStep::Install(_, _) => TtyEvent::Installed,
            other => panic!("{:?}", other),
        });
        answers += 1;
    }
    assert!(matches!(step, TtyStep::Finished(Ok(3))));
    assert_eq!(answers, 7);
}
