//! One run of the program, from the command line to the exit code.
//!
//! The session decides; whoever drives it performs each action and hands back
//! the event that answers it.

use vstd::prelude::*;
use vstd::string::*;
use crate::cli;
use crate::cli::{Args, ArgsView, Parsed, ParsedView, Report, ReportView};
use crate::popup;
use crate::text;

verus! {

/// How far the session is.
#[derive(Debug, Clone, Copy, PartialEq, Eq, Structural)]
pub enum Phase {
    /// Waiting for the command line.
    Start,
    /// Waiting for the configuration.
    Loading,
    /// Waiting for the popup.
    Popup,
    /// Waiting for the terminal.
    Terminal,
    /// Waiting for the user; the answer goes to this file descriptor.
    User(i32),
    /// Waiting until the result file was written.
    Writing,
    /// Nothing is left to do.
    Ended,
}

/// What happened outside.
#[derive(Debug)]
pub enum SessionEvent {
    /// The command line, without the name of the program.
    Argv(Vec<String>),
    /// Whether the configuration wants a popup, or what is wrong with it; and
    /// whether this runs inside tmux.
    Loaded(Result<bool, String>, bool),
    /// What came back from the popup.
    PopupEnded(Result<Option<String>, String>),
    /// The descriptor of the original standard output, or why there is no
    /// terminal.
    Terminal(Result<i32, String>),
    /// What the user chose, or why the user interface failed.
    Chosen(Result<Option<String>, String>),
    /// Whether the result file was written.
    Written(Result<(), String>),
}

/// What is left to be seen of the run.
#[derive(Debug)]
pub enum Output {
    Nothing,
    /// On standard output, as it is.
    Stdout(String),
    /// On standard error, as a line.
    Stderr(String),
    /// Into the file at the path.
    File(String, String),
    /// To the file descriptor.
    Descriptor(i32, String),
    /// The effective configuration, on standard output.
    Config,
    /// The default configuration, on standard output.
    DefaultConfig,
}

/// What an `Output` says.
pub enum OutputView {
    Nothing,
    Stdout(Seq<char>),
    Stderr(Seq<char>),
    File(Seq<char>, Seq<char>),
    Descriptor(i32, Seq<char>),
    Config,
    DefaultConfig,
}

impl View for Output {
    type V = OutputView;

    open spec fn view(&self) -> OutputView {
        match self {
            Output::Nothing => OutputView::Nothing,
            Output::Stdout(s) => OutputView::Stdout(s@),
            Output::Stderr(s) => OutputView::Stderr(s@),
            Output::File(path, s) => OutputView::File(path@, s@),
            Output::Descriptor(fd, s) => OutputView::Descriptor(*fd, s@),
            Output::Config => OutputView::Config,
            Output::DefaultConfig => OutputView::DefaultConfig,
        }
    }
}

/// What to do next.
#[derive(Debug)]
pub enum SessionAction {
    /// Load the configuration, from this path unless it is empty.
    Load(String),
    /// Open the popup.
    OpenPopup,
    /// Point input and output at the terminal.
    OpenTerminal,
    /// Run the user interface with this context.
    AskUser(String),
    /// Write the result file.
    WriteFile(String, String),
    /// Show this and exit with this code.
    Exit(i32, Output),
    /// Nothing: the event answers no action that is open.
    Wait,
}

/// What a `SessionAction` says.
pub enum SessionActionView {
    Load(Seq<char>),
    OpenPopup,
    OpenTerminal,
    AskUser(Seq<char>),
    WriteFile(Seq<char>, Seq<char>),
    Exit(i32, OutputView),
    Wait,
}

impl View for SessionAction {
    type V = SessionActionView;

    open spec fn view(&self) -> SessionActionView {
        match self {
            SessionAction::Load(path) => SessionActionView::Load(path@),
            SessionAction::OpenPopup => SessionActionView::OpenPopup,
            SessionAction::OpenTerminal => SessionActionView::OpenTerminal,
            SessionAction::AskUser(context) => SessionActionView::AskUser(context@),
            SessionAction::WriteFile(path, s) => SessionActionView::WriteFile(path@, s@),
            SessionAction::Exit(code, output) => SessionActionView::Exit(*code, output@),
            SessionAction::Wait => SessionActionView::Wait,
        }
    }
}

/// One run of the program.
#[derive(Debug)]
pub struct Session {
    pub phase: Phase,
    pub args: Args,
}

/// What a `Session` knows.
pub struct SessionView {
    pub phase: Phase,
    pub args: ArgsView,
}

impl View for Session {
    type V = SessionView;

    open spec fn view(&self) -> SessionView {
        SessionView { phase: self.phase, args: self.args@ }
    }
}

/// Exiting with `code`.
pub open spec fn exit(s: SessionView, code: i32, output: OutputView) -> (
    SessionView,
    SessionActionView,
) {
    (SessionView { phase: Phase::Ended, ..s }, SessionActionView::Exit(code, output))
}

/// Exiting with a failure that is reported where it can be seen.
pub open spec fn exit_reporting(s: SessionView, code: i32, msg: Seq<char>) -> (
    SessionView,
    SessionActionView,
) {
    exit(
        s,
        code,
        match cli::reported(s.args, msg) {
            ReportView::Stderr(line) => OutputView::Stderr(line),
            ReportView::File(path, data) => OutputView::File(path, data),
        },
    )
}

/// After the command line.
pub open spec fn after_argv(s: SessionView, argv: Seq<Seq<char>>) -> (
    SessionView,
    SessionActionView,
) {
    match cli::parsed(cli::no_args(), argv) {
        Err(reason) => exit(
            s,
            2,
            OutputView::Stderr("llmq: "@ + reason + "\n\n"@ + cli::USAGE@),
        ),
        Ok(ParsedView::Help) => exit(s, 0, OutputView::Stdout(cli::USAGE@)),
        Ok(ParsedView::Go(args)) => (
            SessionView { phase: Phase::Loading, args },
            SessionActionView::Load(args.config),
        ),
    }
}

/// After the configuration. From inside a popup a failure goes into the result
/// file: what is printed in there is gone with the popup.
pub open spec fn after_load(s: SessionView, r: Result<bool, String>, in_tmux: bool) -> (
    SessionView,
    SessionActionView,
) {
    match r {
        Err(reason) => if s.args.print_config {
            exit(s, 0, OutputView::DefaultConfig)
        } else if s.args.popup_out.len() > 0 {
            exit(s, 2, OutputView::File(s.args.popup_out, cli::ERR_PREFIX@ + reason@))
        } else {
            exit(s, 2, OutputView::Stderr("llmq: "@ + reason@))
        },
        Ok(enabled) => if s.args.print_config {
            exit(s, 0, OutputView::Config)
        } else if cli::popup_mode(enabled, s.args, in_tmux) {
            (SessionView { phase: Phase::Popup, ..s }, SessionActionView::OpenPopup)
        } else {
            (SessionView { phase: Phase::Terminal, ..s }, SessionActionView::OpenTerminal)
        },
    }
}

/// After the popup.
pub open spec fn after_popup(s: SessionView, r: Result<Option<String>, String>) -> (
    SessionView,
    SessionActionView,
) {
    match r {
        Ok(Some(answer)) => exit(s, 0, OutputView::Stdout(answer@)),
        Ok(None) => exit(s, 0, OutputView::Nothing),
        Err(reason) => exit(s, 1, OutputView::Stderr("llmq: "@ + reason@)),
    }
}

/// After the user left.
pub open spec fn after_choice(s: SessionView, fd: i32, r: Result<Option<String>, String>) -> (
    SessionView,
    SessionActionView,
) {
    match r {
        Ok(Some(answer)) => if s.args.popup_out.len() > 0 {
            (
                SessionView { phase: Phase::Writing, ..s },
                SessionActionView::WriteFile(s.args.popup_out, answer@),
            )
        } else {
            exit(s, 0, OutputView::Descriptor(fd, answer@))
        },
        Ok(None) => exit(s, 0, OutputView::Nothing),
        Err(reason) => exit_reporting(s, 1, reason@),
    }
}

/// Where an event takes the session, and what it does then. An event that
/// answers no open action changes nothing.
pub open spec fn next(s: SessionView, event: SessionEvent) -> (SessionView, SessionActionView) {
    match (s.phase, event) {
        (Phase::Start, SessionEvent::Argv(argv)) => after_argv(s, text::texts(argv@)),
        (Phase::Loading, SessionEvent::Loaded(r, in_tmux)) => after_load(s, r, in_tmux),
        (Phase::Popup, SessionEvent::PopupEnded(r)) => after_popup(s, r),
        (Phase::Terminal, SessionEvent::Terminal(Ok(fd))) => (
            SessionView { phase: Phase::User(fd), ..s },
            SessionActionView::AskUser(s.args.context),
        ),
        (Phase::Terminal, SessionEvent::Terminal(Err(reason))) => exit_reporting(s, 1, reason@),
        (Phase::User(fd), SessionEvent::Chosen(r)) => after_choice(s, fd, r),
        (Phase::Writing, SessionEvent::Written(Ok(_))) => exit(s, 0, OutputView::Nothing),
        (Phase::Writing, SessionEvent::Written(Err(reason))) => exit(
            s,
            1,
            OutputView::Stderr("llmq: "@ + reason@),
        ),
        _ => (s, SessionActionView::Wait),
    }
}

impl Session {
    /// A session that waits for the command line.
    pub fn new() -> (r: Session)
        ensures
            r@ == (SessionView { phase: Phase::Start, args: cli::no_args() }),
    {
        Session { phase: Phase::Start, args: Args::default() }
    }

    /// Ends with `code`.
    fn quit(&mut self, code: i32, output: Output) -> (r: SessionAction)
        ensures
            (final(self)@, r@) == exit(old(self)@, code, output@),
    {
        self.phase = Phase::Ended;
        SessionAction::Exit(code, output)
    }

    /// Ends with a failure on standard error.
    fn quit_saying(&mut self, msg: &str) -> (r: SessionAction)
        ensures
            (final(self)@, r@) == exit(old(self)@, 1, OutputView::Stderr("llmq: "@ + msg@)),
    {
        self.quit(1, Output::Stderr(text::concat("llmq: ", msg)))
    }

    /// Ends with a failure that is reported where it can be seen.
    fn quit_reporting(&mut self, code: i32, msg: &str) -> (r: SessionAction)
        ensures
            (final(self)@, r@) == exit_reporting(old(self)@, code, msg@),
    {
        match cli::report(&self.args, msg) {
            Report::Stderr(line) => self.quit(code, Output::Stderr(line)),
            Report::File(path, data) => self.quit(code, Output::File(path, data)),
        }
    }

    /// Reads the command line.
    fn on_argv(&mut self, argv: Vec<String>) -> (r: SessionAction)
        ensures
            (final(self)@, r@) == after_argv(old(self)@, text::texts(argv@)),
    {
        match cli::parse_args(&argv) {
            Err(reason) => {
                let mut out = text::concat("llmq: ", reason.as_str());
                out.append("\n\n");
                out.append(cli::USAGE);
                self.quit(2, Output::Stderr(out))
            },
            Ok(Parsed::Help) => self.quit(0, Output::Stdout(cli::USAGE.to_string())),
            Ok(Parsed::Go(args)) => {
                let path = args.config.clone();
                self.args = args;
                self.phase = Phase::Loading;
                SessionAction::Load(path)
            },
        }
    }

    /// Has the configuration, or knows that there is none.
    fn on_load(&mut self, r: Result<bool, String>, in_tmux: bool) -> (a: SessionAction)
        ensures
            (final(self)@, a@) == after_load(old(self)@, r, in_tmux),
    {
        match r {
            Err(reason) => if self.args.print_config {
                // Still useful: it shows what the defaults are.
                self.quit(0, Output::DefaultConfig)
            } else {
                self.quit_reporting(2, reason.as_str())
            },
            Ok(enabled) => if self.args.print_config {
                self.quit(0, Output::Config)
            } else if cli::wants_popup(enabled, &self.args, in_tmux) {
                self.phase = Phase::Popup;
                SessionAction::OpenPopup
            } else {
                self.phase = Phase::Terminal;
                SessionAction::OpenTerminal
            },
        }
    }

    /// Knows what the user chose.
    fn on_choice(&mut self, fd: i32, r: Result<Option<String>, String>) -> (a: SessionAction)
        ensures
            (final(self)@, a@) == after_choice(old(self)@, fd, r),
    {
        match r {
            Ok(Some(answer)) => {
                if self.args.popup_out.as_str().is_empty() {
                    self.quit(0, Output::Descriptor(fd, answer))
                } else {
                    self.phase = Phase::Writing;
                    SessionAction::WriteFile(self.args.popup_out.clone(), answer)
                }
            },
            Ok(None) => self.quit(0, Output::Nothing),
            Err(reason) => self.quit_reporting(1, reason.as_str()),
        }
    }

    /// Takes an event and says what to do next.
    pub fn step(&mut self, event: SessionEvent) -> (r: SessionAction)
        ensures
            (final(self)@, r@) == next(old(self)@, event),
    {
        match (self.phase, event) {
            (Phase::Start, SessionEvent::Argv(argv)) => self.on_argv(argv),
            (Phase::Loading, SessionEvent::Loaded(r, in_tmux)) => self.on_load(r, in_tmux),
            (Phase::Popup, SessionEvent::PopupEnded(Ok(Some(answer)))) => {
                self.quit(0, Output::Stdout(answer))
            },
            (Phase::Popup, SessionEvent::PopupEnded(Ok(None))) => self.quit(0, Output::Nothing),
            (Phase::Popup, SessionEvent::PopupEnded(Err(reason))) => {
                self.quit_saying(reason.as_str())
            },
            (Phase::Terminal, SessionEvent::Terminal(Ok(fd))) => {
                self.phase = Phase::User(fd);
                SessionAction::AskUser(self.args.context.clone())
            },
            (Phase::Terminal, SessionEvent::Terminal(Err(reason))) => {
                self.quit_reporting(1, reason.as_str())
            },
            (Phase::User(fd), SessionEvent::Chosen(r)) => self.on_choice(fd, r),
            (Phase::Writing, SessionEvent::Written(Ok(_))) => self.quit(0, Output::Nothing),
            (Phase::Writing, SessionEvent::Written(Err(reason))) => {
                self.quit_saying(reason.as_str())
            },
            _ => SessionAction::Wait,
        }
    }
}

/// Standard output stays clean: a run that fails leaves nothing there, and a run
/// that does well exits with 0.
pub proof fn law_failures_keep_stdout_clean(s: SessionView, event: SessionEvent)
    ensures
        next(s, event).1 matches SessionActionView::Exit(code, output) ==> {
            &&& code == 0 || code == 1 || code == 2
            &&& code != 0 <==> output is Stderr || output is File
            &&& next(s, event).0.phase == Phase::Ended
        },
{
}

/// From inside a popup, a failure of the configuration, of the terminal or of the
/// user interface goes into the result file, where it comes back as it was.
pub proof fn law_popup_failures_are_handed_back(
    s: SessionView,
    reason: String,
    fd: i32,
    in_tmux: bool,
    success: bool,
    code: Option<i32>,
)
    requires
        s.args.popup_out.len() > 0,
    ensures
        s.phase == Phase::Loading && !s.args.print_config ==> next(
            s,
            SessionEvent::Loaded(Err(reason), in_tmux),
        ).1 == SessionActionView::Exit(
            2,
            OutputView::File(s.args.popup_out, cli::ERR_PREFIX@ + reason@),
        ),
        s.phase == Phase::Terminal ==> next(s, SessionEvent::Terminal(Err(reason))).1
            == SessionActionView::Exit(
            1,
            OutputView::File(s.args.popup_out, cli::ERR_PREFIX@ + reason@),
        ),
        s.phase == Phase::User(fd) ==> next(s, SessionEvent::Chosen(Err(reason))).1
            == SessionActionView::Exit(
            1,
            OutputView::File(s.args.popup_out, cli::ERR_PREFIX@ + reason@),
        ),
        popup::popup_outcome(popup::TmuxExit::Ended(success, code), cli::ERR_PREFIX@ + reason@)
            == Err::<Option<Seq<char>>, Seq<char>>(reason@),
{
    popup::law_failures_come_back(s.args, reason@, success, code);
}

/// What the user chose is what is left of the run: in the result file from
/// inside a popup, on the original standard output elsewhere.
pub proof fn law_choice_is_delivered(s: SessionView, fd: i32, answer: String)
    requires
        s.phase == Phase::User(fd),
    ensures
        ({
            let (after, action) = next(s, SessionEvent::Chosen(Ok(Some(answer))));
            &&& s.args.popup_out.len() == 0 ==> action == SessionActionView::Exit(
                0,
                OutputView::Descriptor(fd, answer@),
            )
            &&& s.args.popup_out.len() > 0 ==> {
                &&& action == SessionActionView::WriteFile(s.args.popup_out, answer@)
                &&& next(after, SessionEvent::Written(Ok(()))).1 == SessionActionView::Exit(
                    0,
                    OutputView::Nothing,
                )
            }
        }),
{
}

/// A session that has ended stays so.
pub proof fn law_ended_is_final(s: SessionView, event: SessionEvent)
    requires
        s.phase == Phase::Ended,
    ensures
        next(s, event) == (s, SessionActionView::Wait),
{
}

/// The arguments stay what the command line said, and with `--no-popup`, inside
/// a popup, or outside of tmux, no popup is opened.
pub proof fn law_no_popup(s: SessionView, event: SessionEvent)
    ensures
        s.phase != Phase::Start ==> next(s, event).0.args == s.args,
        next(s, event).1 is OpenPopup ==> {
            &&& event matches SessionEvent::Loaded(Ok(enabled), in_tmux)
            &&& enabled
            &&& in_tmux
            &&& !s.args.no_popup
            &&& s.args.popup_out.len() == 0
            &&& !s.args.print_config
        },
{
}

/// Whether an event answers what a session in this phase waits for.
pub open spec fn answers(phase: Phase, event: SessionEvent) -> bool {
    match phase {
        Phase::Start => event is Argv,
        Phase::Loading => event is Loaded,
        Phase::Popup => event is PopupEnded,
        Phase::Terminal => event is Terminal,
        Phase::User(_) => event is Chosen,
        Phase::Writing => event is Written,
        Phase::Ended => false,
    }
}

/// Whether an event tells what came of an action.
pub open spec fn replies(action: SessionActionView, event: SessionEvent) -> bool {
    match action {
        SessionActionView::Load(_) => event is Loaded,
        SessionActionView::OpenPopup => event is PopupEnded,
        SessionActionView::OpenTerminal => event is Terminal,
        SessionActionView::AskUser(_) => event is Chosen,
        SessionActionView::WriteFile(_, _) => event is Written,
        SessionActionView::Exit(_, _) | SessionActionView::Wait => false,
    }
}

/// How many answers a session in this phase takes at most.
pub open spec fn steps_left(phase: Phase) -> nat {
    match phase {
        Phase::Start => 5,
        Phase::Loading => 4,
        Phase::Popup | Phase::Terminal => 3,
        Phase::User(_) => 2,
        Phase::Writing => 1,
        Phase::Ended => 0,
    }
}

/// An answer is never met with `Wait`, and anything else changes nothing. What
/// comes of an action is what the session then waits for, and each answer brings
/// the session closer to its end, where it exits.
pub proof fn law_every_answer_counts(s: SessionView, event: SessionEvent, reply: SessionEvent)
    ensures
        answers(s.phase, event) <==> !(next(s, event).1 is Wait),
        !answers(s.phase, event) ==> next(s, event).0 == s,
        answers(s.phase, event) ==> {
            &&& next(s, event).1 is Exit <==> next(s, event).0.phase == Phase::Ended
            &&& replies(next(s, event).1, reply) <==> answers(next(s, event).0.phase, reply)
            &&& steps_left(next(s, event).0.phase) < steps_left(s.phase)
        },
{
}

/// The command line: help is shown on standard output, a bad one is refused on
/// standard error with the usage behind it, and a good one leads to the config file
/// that it names, and keeps what it asks for.
pub proof fn law_after_the_command_line(s: SessionView, argv: Vec<String>)
    requires
        s.phase == Phase::Start,
    ensures
        ({
            let (after, action) = next(s, SessionEvent::Argv(argv));
            match cli::parsed(cli::no_args(), text::texts(argv@)) {
                Ok(ParsedView::Go(args)) => {
                    &&& after == (SessionView { phase: Phase::Loading, args })
                    &&& action == SessionActionView::Load(args.config)
                },
                Ok(ParsedView::Help) => {
                    &&& after.phase == Phase::Ended
                    &&& action == SessionActionView::Exit(0, OutputView::Stdout(cli::USAGE@))
                },
                Err(reason) => {
                    &&& after.phase == Phase::Ended
                    &&& action == SessionActionView::Exit(
                        2,
                        OutputView::Stderr("llmq: "@ + reason + "\n\n"@ + cli::USAGE@),
                    )
                },
            }
        }),
{
}

/// The configuration: `--print-config` shows it, or the defaults where there is
/// none. Else a bad one ends the run, and a good one leads to the popup or to the
/// terminal.
pub proof fn law_after_the_configuration(
    s: SessionView,
    reason: String,
    enabled: bool,
    in_tmux: bool,
)
    requires
        s.phase == Phase::Loading,
    ensures
        s.args.print_config ==> {
            &&& next(s, SessionEvent::Loaded(Err(reason), in_tmux)).1 == SessionActionView::Exit(
                0,
                OutputView::DefaultConfig,
            )
            &&& next(s, SessionEvent::Loaded(Ok(enabled), in_tmux)).1 == SessionActionView::Exit(
                0,
                OutputView::Config,
            )
        },
        !s.args.print_config ==> {
            let popup = enabled && in_tmux && s.args.popup_out.len() == 0 && !s.args.no_popup;
            &&& s.args.popup_out.len() == 0 ==> next(
                s,
                SessionEvent::Loaded(Err(reason), in_tmux),
            ).1 == SessionActionView::Exit(2, OutputView::Stderr("llmq: "@ + reason@))
            &&& s.args.popup_out.len() > 0 ==> next(
                s,
                SessionEvent::Loaded(Err(reason), in_tmux),
            ).1 == SessionActionView::Exit(
                2,
                OutputView::File(s.args.popup_out, "__llmq_error__:"@ + reason@),
            )
            &&& popup ==> next(s, SessionEvent::Loaded(Ok(enabled), in_tmux)) == (
                SessionView { phase: Phase::Popup, args: s.args },
                SessionActionView::OpenPopup,
            )
            &&& !popup ==> next(s, SessionEvent::Loaded(Ok(enabled), in_tmux)) == (
                SessionView { phase: Phase::Terminal, args: s.args },
                SessionActionView::OpenTerminal,
            )
        },
{
}

/// What came back from the popup is the run: an answer on standard output as it
/// is, nothing, or a failure on standard error.
pub proof fn law_after_the_popup(s: SessionView, answer: String, reason: String)
    requires
        s.phase == Phase::Popup,
    ensures
        next(s, SessionEvent::PopupEnded(Ok(Some(answer)))).1 == SessionActionView::Exit(
            0,
            OutputView::Stdout(answer@),
        ),
        next(s, SessionEvent::PopupEnded(Ok(None))).1 == SessionActionView::Exit(
            0,
            OutputView::Nothing,
        ),
        next(s, SessionEvent::PopupEnded(Err(reason))).1 == SessionActionView::Exit(
            1,
            OutputView::Stderr("llmq: "@ + reason@),
        ),
{
}

/// On the terminal the user is asked with the context that was given, and what
/// they choose goes where it belongs; leaving without a choice leaves nothing, and
/// each failure is told where it can be seen.
pub proof fn law_on_the_terminal(s: SessionView, fd: i32, answer: String, reason: String)
    ensures
        s.phase == Phase::Terminal ==> {
            &&& next(s, SessionEvent::Terminal(Ok(fd))) == (
                SessionView { phase: Phase::User(fd), args: s.args },
                SessionActionView::AskUser(s.args.context),
            )
            &&& s.args.popup_out.len() == 0 ==> next(s, SessionEvent::Terminal(Err(reason))).1
                == SessionActionView::Exit(1, OutputView::Stderr("llmq: "@ + reason@))
            &&& s.args.popup_out.len() > 0 ==> next(s, SessionEvent::Terminal(Err(reason))).1
                == SessionActionView::Exit(
                1,
                OutputView::File(s.args.popup_out, "__llmq_error__:"@ + reason@),
            )
        },
        s.phase == Phase::User(fd) ==> {
            &&& next(s, SessionEvent::Chosen(Ok(None))).1 == SessionActionView::Exit(
                0,
                OutputView::Nothing,
            )
            &&& s.args.popup_out.len() == 0 ==> {
                &&& next(s, SessionEvent::Chosen(Ok(Some(answer)))).1 == SessionActionView::Exit(
                    0,
                    OutputView::Descriptor(fd, answer@),
                )
                &&& next(s, SessionEvent::Chosen(Err(reason))).1 == SessionActionView::Exit(
                    1,
                    OutputView::Stderr("llmq: "@ + reason@),
                )
            }
            &&& s.args.popup_out.len() > 0 ==> {
                &&& next(s, SessionEvent::Chosen(Ok(Some(answer)))) == (
                    SessionView { phase: Phase::Writing, args: s.args },
                    SessionActionView::WriteFile(s.args.popup_out, answer@),
                )
                &&& next(s, SessionEvent::Chosen(Err(reason))).1 == SessionActionView::Exit(
                    1,
                    OutputView::File(s.args.popup_out, "__llmq_error__:"@ + reason@),
                )
            }
        },
        s.phase == Phase::Writing ==> {
            &&& next(s, SessionEvent::Written(Ok(()))).1 == SessionActionView::Exit(
                0,
                OutputView::Nothing,
            )
            &&& next(s, SessionEvent::Written(Err(reason))).1 == SessionActionView::Exit(
                1,
                OutputView::Stderr("llmq: "@ + reason@),
            )
        },
{
}

} // verus!
