//! The tmux popup: the command that it runs, and what comes back from it through
//! a file.

use vstd::prelude::*;
use vstd::string::*;
use crate::cli;
use crate::cli::{Args, ArgsView};
use crate::config::{Config, ConfigView};
use crate::key;
use crate::text;
use crate::text_laws;

verus! {

/// How many names are tried for the result file.
pub const ATTEMPTS: u32 = 64;

/// The name of the result file: the process, the time and the attempt.
pub open spec fn temp_file(pid: u32, nanos: u32, attempt: u32) -> Seq<char> {
    "llmq-"@ + text::decimal(pid as nat) + "-"@ + text::decimal(nanos as nat) + "-"@
        + text::decimal(attempt as nat)
}

/// The name of the result file.
pub fn temp_name(pid: u32, nanos: u32, attempt: u32) -> (r: String)
    ensures
        r@ == temp_file(pid, nanos, attempt),
{
    let mut out = "llmq-".to_string();
    out.append(text::show(pid as u64).as_str());
    out.append("-");
    out.append(text::show(nanos as u64).as_str());
    out.append("-");
    out.append(text::show(attempt as u64).as_str());
    out
}

/// What came of making the result file.
#[derive(Debug)]
pub enum TempResult {
    Created,
    /// There is such a file already.
    Exists,
    Failed(String),
}

/// What comes next.
#[derive(Debug)]
pub enum TempStep {
    /// Try the name for this attempt.
    Try(u32),
    /// The file is there.
    Found,
    /// There will be none.
    GiveUp(String),
}

/// What a `TempStep` says.
pub enum TempStepView {
    Try(u32),
    Found,
    GiveUp(Seq<char>),
}

impl View for TempStep {
    type V = TempStepView;

    open spec fn view(&self) -> TempStepView {
        match self {
            TempStep::Try(n) => TempStepView::Try(*n),
            TempStep::Found => TempStepView::Found,
            TempStep::GiveUp(s) => TempStepView::GiveUp(s@),
        }
    }
}

/// What comes after an attempt: only a name that is taken leads to another one.
pub open spec fn after_attempt(attempt: u32, r: TempResult) -> TempStepView {
    match r {
        TempResult::Created => TempStepView::Found,
        TempResult::Exists => if attempt + 1 < ATTEMPTS {
            TempStepView::Try((attempt + 1) as u32)
        } else {
            TempStepView::GiveUp("temp file: could not create a temp file"@)
        },
        TempResult::Failed(reason) => TempStepView::GiveUp("temp file: "@ + reason@),
    }
}

/// What comes after an attempt to make the result file.
pub fn make_temp(attempt: u32, r: TempResult) -> (step: TempStep)
    ensures
        step@ == after_attempt(attempt, r),
{
    match r {
        TempResult::Created => TempStep::Found,
        TempResult::Exists => if attempt < ATTEMPTS - 1 {
            TempStep::Try(attempt + 1)
        } else {
            TempStep::GiveUp("temp file: could not create a temp file".to_string())
        },
        TempResult::Failed(reason) => TempStep::GiveUp(
            text::concat("temp file: ", reason.as_str()),
        ),
    }
}

/// The command that runs in the popup: this program, with the result file, and
/// with the context and the config file where they were given.
pub open spec fn inner_command(me: Seq<char>, path: Seq<char>, args: ArgsView) -> Seq<Seq<char>> {
    let base = seq![me, "--popup-out"@, path];
    let context = if args.context.len() > 0 {
        seq!["--context"@, args.context]
    } else {
        seq![]
    };
    let config = if args.config.len() > 0 {
        seq!["--config"@, args.config]
    } else {
        seq![]
    };
    base + context + config
}

/// The command that runs in the popup.
pub fn popup_command(me: &str, path: &str, args: &Args) -> (r: Vec<String>)
    ensures
        text::texts(r@) == inner_command(me@, path@, args@),
{
    let mut out: Vec<String> = Vec::new();
    out.push(me.to_string());
    out.push("--popup-out".to_string());
    out.push(path.to_string());
    if !args.context.as_str().is_empty() {
        out.push("--context".to_string());
        out.push(args.context.clone());
    }
    if !args.config.as_str().is_empty() {
        out.push("--config".to_string());
        out.push(args.config.clone());
    }
    assert(text::texts(out@) == inner_command(me@, path@, args@));
    out
}

/// Why words cannot be quoted for a shell.
#[verifier::external_type_specification]
#[verifier::external_body]
pub struct ExQuoteError(shlex::QuoteError);

/// The shell command line that `shlex::try_join` makes of words.
pub uninterp spec fn shell_line(words: Seq<Seq<char>>) -> Seq<char>;

/// Whether one of the words holds a NUL.
pub open spec fn holds_nul(words: Seq<Seq<char>>) -> bool {
    exists|i: int| 0 <= i < words.len() && (#[trigger] words[i]).contains('\0')
}

/// `shlex::try_join` quotes words for a shell and puts them on one line. It
/// refuses them exactly where one holds a NUL, and `shlex::split` reads the line
/// back as the same words. How it quotes is left to the name `shell_line`.
#[verifier::external_body]
fn join_words(words: &Vec<String>) -> (r: Result<String, shlex::QuoteError>)
    ensures
        r is Err == holds_nul(text::texts(words@)),
        r matches Ok(line) ==> line@ == shell_line(text::texts(words@)),
        r matches Ok(line) ==> key::shell_words(line@) == Some(text::texts(words@)),
{
    shlex::try_join(words.iter().map(String::as_str))
}

/// How `shlex::QuoteError` displays itself: a NUL is its only cause.
#[verifier::external_body]
fn quote_error_text(error: &shlex::QuoteError) -> (r: String)
    ensures
        r@ == "cannot shell-quote string containing nul byte"@,
{
    error.to_string()
}

/// The arguments for tmux that open the popup on a command line.
pub open spec fn popup_args(cfg: ConfigView, line: Seq<char>) -> Seq<Seq<char>> {
    seq![
        "display-popup"@,
        "-E"@,
        "-w"@,
        cfg.tmux.width,
        "-h"@,
        cfg.tmux.height,
        "-T"@,
        text::trimmed(cfg.ui.title),
        line,
    ]
}

/// The arguments for tmux that open the popup on a command line.
pub fn tmux_args(cfg: &Config, line: String) -> (r: Vec<String>)
    ensures
        text::texts(r@) == popup_args(cfg@, line@),
{
    let mut out: Vec<String> = Vec::new();
    out.push("display-popup".to_string());
    out.push("-E".to_string());
    out.push("-w".to_string());
    out.push(cfg.tmux.width.clone());
    out.push("-h".to_string());
    out.push(cfg.tmux.height.clone());
    out.push("-T".to_string());
    out.push(text::trim(cfg.ui.title.as_str()).to_string());
    out.push(line);
    assert(text::texts(out@) == popup_args(cfg@, line@));
    out
}

/// The arguments for tmux that open the popup, or why there is none. `me` is
/// this program, or why its path is not known. A shell reads the command line
/// back as the words of the command.
pub fn plan_popup(cfg: &Config, args: &Args, path: &str, me: Result<String, String>) -> (r: Result<
    Vec<String>,
    String,
>)
    ensures
        match me {
            Err(reason) => r matches Err(msg) && msg@ == "current_exe: "@ + reason@,
            Ok(exe) => {
                let words = inner_command(exe@, path@, args@);
                if holds_nul(words) {
                    r matches Err(msg) && msg@
                        == "cannot quote command: cannot shell-quote string containing nul byte"@
                } else {
                    &&& r matches Ok(out) && text::texts(out@) == popup_args(
                        cfg@,
                        shell_line(words),
                    )
                    &&& key::shell_words(shell_line(words)) == Some(words)
                }
            },
        },
{
    match me {
        Err(reason) => Err(text::concat("current_exe: ", reason.as_str())),
        Ok(exe) => {
            let words = popup_command(exe.as_str(), path, args);
            match join_words(&words) {
                Ok(line) => Ok(tmux_args(cfg, line)),
                Err(error) => {
                    let reason = quote_error_text(&error);
                    let msg = text::concat("cannot quote command: ", reason.as_str());
                    proof {
                        reveal_strlit("cannot quote command: ");
                        reveal_strlit("cannot shell-quote string containing nul byte");
                        reveal_strlit(
                            "cannot quote command: cannot shell-quote string containing nul byte",
                        );
                        assert(msg@
                            == "cannot quote command: cannot shell-quote string containing nul byte"@);
                    }
                    Err(msg)
                },
            }
        },
    }
}

/// How tmux ended.
#[derive(Debug)]
pub enum TmuxExit {
    /// It could not be started.
    NotStarted(String),
    /// Whether it ended well, and its exit code, unless a signal ended it.
    Ended(bool, Option<i32>),
}

/// What came back from the popup: an answer, none, or a failure.
pub open spec fn popup_outcome(exit: TmuxExit, data: Seq<char>) -> Result<
    Option<Seq<char>>,
    Seq<char>,
> {
    match exit {
        TmuxExit::NotStarted(reason) => Err("tmux: "@ + reason@),
        TmuxExit::Ended(success, code) => if !success && data.len() == 0 {
            let number: int = match code {
                Some(n) => n as int,
                None => -1,
            };
            Err("tmux display-popup exited "@ + text::signed_decimal(number))
        } else if cli::ERR_PREFIX@.is_prefix_of(data) {
            Err(data.skip(cli::ERR_PREFIX@.len() as int))
        } else if data.len() == 0 {
            Ok(None)
        } else {
            Ok(Some(data))
        },
    }
}

/// What a result with an optional text says.
pub open spec fn outcome_view(r: Result<Option<String>, String>) -> Result<
    Option<Seq<char>>,
    Seq<char>,
> {
    match r {
        Ok(Some(s)) => Ok(Some(s@)),
        Ok(None) => Ok(None),
        Err(s) => Err(s@),
    }
}

/// What came back from the popup, where the result file holds `data`.
pub fn popup_result(exit: TmuxExit, data: String) -> (r: Result<Option<String>, String>)
    ensures
        outcome_view(r) == popup_outcome(exit, data@),
{
    match exit {
        TmuxExit::NotStarted(reason) => Err(text::concat("tmux: ", reason.as_str())),
        TmuxExit::Ended(success, code) => {
            if !success && data.as_str().is_empty() {
                let number: i32 = code.unwrap_or(-1);
                return Err(
                    text::concat("tmux display-popup exited ", text::show_signed(number).as_str()),
                );
            }
            // The popup is gone the instant the program in it ends, so a failure
            // in there comes back through the file.
            match text::strip_prefix(data.as_str(), cli::ERR_PREFIX) {
                Some(msg) => {
                    return Err(msg.to_string());
                },
                None => {},
            }
            if data.as_str().is_empty() {
                Ok(None)
            } else {
                Ok(Some(data))
            }
        },
    }
}

/// The program in the popup gets the context and the config file that this one
/// got, leaves its result in the file, and opens no popup of its own.
pub proof fn law_popup_gets_the_same_arguments(
    me: Seq<char>,
    path: Seq<char>,
    args: ArgsView,
    enabled: bool,
    in_tmux: bool,
)
    requires
        path.len() > 0,
    ensures
        ({
            let given = ArgsView {
                context: args.context,
                config: args.config,
                popup_out: path,
                no_popup: false,
                print_config: false,
            };
            &&& cli::parsed(cli::no_args(), inner_command(me, path, args).skip(1)) == Ok::<
                cli::ParsedView,
                Seq<char>,
            >(cli::ParsedView::Go(given))
            &&& !cli::popup_mode(enabled, given, in_tmux)
        }),
{
    reveal_strlit("--context");
    reveal_strlit("--config");
    reveal_strlit("--popup-out");
    assert("--context"@[3] == 'o' && "--config"@[3] == 'o' && "--popup-out"@[3] == 'o');
    assert("--context"@.len() == 9 && "--config"@.len() == 8 && "--popup-out"@.len() == 11);
    let all = inner_command(me, path, args).skip(1);
    let one = ArgsView { popup_out: path, ..cli::no_args() };
    assert(all[0] == "--popup-out"@ && all[1] == path);
    let rest = all.skip(2);
    assert(cli::parsed(cli::no_args(), all) == cli::parsed(one, rest));
    let two = ArgsView { context: args.context, ..one };
    let last = if args.context.len() > 0 {
        assert(rest[0] == "--context"@ && rest[1] == args.context);
        assert(cli::parsed(one, rest) == cli::parsed(two, rest.skip(2)));
        rest.skip(2)
    } else {
        assert(args.context == Seq::<char>::empty());
        rest
    };
    let three = ArgsView { config: args.config, ..two };
    if args.config.len() > 0 {
        assert(last[0] == "--config"@ && last[1] == args.config);
        assert(last.skip(2).len() == 0);
        assert(cli::parsed(two, last) == cli::parsed(three, last.skip(2)));
    } else {
        assert(args.config == Seq::<char>::empty());
        assert(last.len() == 0);
    }
}

/// A failure in a popup surfaces as it was: what is reported into the result
/// file comes back as the same failure, however tmux ended.
pub proof fn law_failures_come_back(
    args: ArgsView,
    msg: Seq<char>,
    success: bool,
    code: Option<i32>,
)
    requires
        args.popup_out.len() > 0,
    ensures
        ({
            &&& cli::reported(args, msg) matches cli::ReportView::File(path, data)
            &&& path == args.popup_out
            &&& popup_outcome(TmuxExit::Ended(success, code), data) == Err::<
                Option<Seq<char>>,
                Seq<char>,
            >(msg)
        }),
{
    reveal_strlit("__llmq_error__:");
    let data = cli::ERR_PREFIX@ + msg;
    assert(cli::ERR_PREFIX@.is_prefix_of(data));
    assert(data.skip(cli::ERR_PREFIX@.len() as int) == msg);
}

/// An answer from a popup comes back as it was, however tmux ended, unless it
/// reads like a failure.
pub proof fn law_answers_come_back(data: Seq<char>, success: bool, code: Option<i32>)
    requires
        data.len() > 0,
        !cli::ERR_PREFIX@.is_prefix_of(data),
    ensures
        popup_outcome(TmuxExit::Ended(success, code), data) == Ok::<Option<Seq<char>>, Seq<char>>(
            Some(data),
        ),
{
}

/// The attempts up to the one that settles the matter.
pub open spec fn tries(attempt: u32, results: Seq<TempResult>) -> TempStepView
    decreases results.len(),
{
    if results.len() == 0 {
        TempStepView::Try(attempt)
    } else {
        match after_attempt(attempt, results[0]) {
            TempStepView::Try(n) => tries(n, results.skip(1)),
            settled => settled,
        }
    }
}

/// The search for a name ends: after 64 attempts there is a file, or there will
/// be none.
pub proof fn law_search_ends(attempt: u32, results: Seq<TempResult>)
    requires
        attempt < ATTEMPTS,
        results.len() + attempt >= ATTEMPTS,
    ensures
        !(tries(attempt, results) is Try),
    decreases results.len(),
{
    if after_attempt(attempt, results[0]) is Try {
        law_search_ends((attempt + 1) as u32, results.skip(1));
    }
}

/// The name of the result file holds the process, the time and the attempt, so two
/// attempts never try the same name.
pub proof fn law_temp_names(pid: u32, nanos: u32, attempt: u32, other: u32)
    ensures
        temp_file(pid, nanos, attempt) == "llmq-"@ + text::decimal(pid as nat) + "-"@
            + text::decimal(nanos as nat) + "-"@ + text::decimal(attempt as nat),
        temp_file(pid, nanos, attempt) == temp_file(pid, nanos, other) ==> attempt == other,
{
    let head = "llmq-"@ + text::decimal(pid as nat) + "-"@ + text::decimal(nanos as nat) + "-"@;
    let a = temp_file(pid, nanos, attempt);
    let b = temp_file(pid, nanos, other);
    assert(a.skip(head.len() as int) == text::decimal(attempt as nat));
    assert(b.skip(head.len() as int) == text::decimal(other as nat));
    text_laws::law_decimal(attempt as nat);
    text_laws::law_decimal(other as nat);
}

/// Only a name that is taken leads to another attempt, the next one, up to the
/// last; a file that was made is taken, and any other failure is passed on at
/// once.
pub proof fn law_attempts(attempt: u32, reason: String)
    ensures
        after_attempt(attempt, TempResult::Created) == TempStepView::Found,
        after_attempt(attempt, TempResult::Failed(reason)) == TempStepView::GiveUp(
            "temp file: "@ + reason@,
        ),
        attempt < 63 ==> after_attempt(attempt, TempResult::Exists) == TempStepView::Try(
            (attempt + 1) as u32,
        ),
        attempt >= 63 ==> after_attempt(attempt, TempResult::Exists) == TempStepView::GiveUp(
            "temp file: could not create a temp file"@,
        ),
{
}

/// The command in the popup is this program, told where its result goes; context
/// and config file follow where they were given, as they are.
pub proof fn law_inner_command(me: Seq<char>, path: Seq<char>, args: ArgsView)
    ensures
        ({
            let words = inner_command(me, path, args);
            let n = words.len() as int;
            &&& words[0] == me
            &&& words[1] == "--popup-out"@
            &&& words[2] == path
            &&& n == 3 + (if args.context.len() > 0 { 2int } else { 0 }) + (if args.config.len() > 0 {
                2int
            } else {
                0
            })
            &&& args.context.len() > 0 ==> words[3] == "--context"@ && words[4] == args.context
            &&& args.config.len() > 0 ==> words[n - 2] == "--config"@ && words[n - 1] == args.config
        }),
{
}

/// Words cannot be quoted exactly where a character of one of them is NUL.
pub proof fn law_nul(words: Seq<Seq<char>>)
    ensures
        holds_nul(words) <==> exists|i: int, j: int|
            0 <= i < words.len() && 0 <= j < words[i].len() && #[trigger] words[i][j] == '\0',
{
    if holds_nul(words) {
        let i = choose|i: int| 0 <= i < words.len() && (#[trigger] words[i]).contains('\0');
        let j = choose|j: int| 0 <= j < words[i].len() && words[i][j] == '\0';
        assert(words[i][j] == '\0');
    }
    if exists|i: int, j: int|
        0 <= i < words.len() && 0 <= j < words[i].len() && #[trigger] words[i][j] == '\0' {
        let (i, j) = choose|i: int, j: int|
            0 <= i < words.len() && 0 <= j < words[i].len() && #[trigger] words[i][j] == '\0';
        assert(words[i].contains('\0'));
    }
}

/// The popup has the configured size and title, closes with its command, and runs
/// the command line that it is given.
pub proof fn law_popup_args(cfg: ConfigView, line: Seq<char>)
    ensures
        ({
            let args = popup_args(cfg, line);
            &&& args.len() == 9
            &&& args[0] == "display-popup"@
            &&& args[1] == "-E"@
            &&& args[2] == "-w"@ && args[3] == cfg.tmux.width
            &&& args[4] == "-h"@ && args[5] == cfg.tmux.height
            &&& args[6] == "-T"@ && args[7] == text::trimmed(cfg.ui.title)
            &&& args[8] == line
        }),
{
}

/// What comes back from the popup: that tmux could not be started counts before
/// anything in the file; tmux that failed counts only where the file is empty; an
/// empty file is no answer, a marked one a failure, and any other one the answer.
pub proof fn law_popup_outcome(
    reason: String,
    data: Seq<char>,
    msg: Seq<char>,
    success: bool,
    code: Option<i32>,
)
    ensures
        popup_outcome(TmuxExit::NotStarted(reason), data) == Err::<Option<Seq<char>>, Seq<char>>(
            "tmux: "@ + reason@,
        ),
        popup_outcome(TmuxExit::Ended(true, code), Seq::<char>::empty()) == Ok::<
            Option<Seq<char>>,
            Seq<char>,
        >(None),
        popup_outcome(TmuxExit::Ended(false, code), Seq::<char>::empty()) == Err::<
            Option<Seq<char>>,
            Seq<char>,
        >(
            "tmux display-popup exited "@ + (match code {
                Some(n) => text::signed_decimal(n as int),
                None => seq!['-', '1'],
            }),
        ),
        popup_outcome(TmuxExit::Ended(success, code), "__llmq_error__:"@ + msg) == Err::<
            Option<Seq<char>>,
            Seq<char>,
        >(msg),
        data.len() > 0 && !"__llmq_error__:"@.is_prefix_of(data) ==> popup_outcome(
            TmuxExit::Ended(success, code),
            data,
        ) == Ok::<Option<Seq<char>>, Seq<char>>(Some(data)),
{
    reveal_strlit("__llmq_error__:");
    let marked = "__llmq_error__:"@ + msg;
    assert("__llmq_error__:"@.is_prefix_of(marked));
    assert(marked.skip("__llmq_error__:"@.len() as int) == msg);
    assert(text::signed_decimal(-1) == seq!['-', '1']) by {
        assert(text::decimal(1) == seq!['1']);
        assert(seq!['-'] + seq!['1'] == seq!['-', '1']);
    }
}

} // verus!
