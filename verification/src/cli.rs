//! The command line, and where a failure is reported.

use vstd::prelude::*;
use vstd::string::*;
use crate::config::Config;
use crate::text;

verus! {

/// Stands before a failure that is handed back through a file.
pub const ERR_PREFIX: &'static str = "__llmq_error__:";

/// How to call the program.
pub const USAGE: &'static str = "usage: llmq [options]

  --context TEXT     current command line, sent as context
  --config PATH      path to config.toml
  --no-popup         never use the tmux popup
  --print-config     dump effective config and exit
  -h, --help         show this message
";

/// What the command line asks for.
#[derive(Debug)]
pub struct Args {
    pub context: String,
    pub config: String,
    /// Where a popup leaves its result, in place of standard output.
    pub popup_out: String,
    pub no_popup: bool,
    pub print_config: bool,
}

/// What an `Args` says.
pub struct ArgsView {
    pub context: Seq<char>,
    pub config: Seq<char>,
    pub popup_out: Seq<char>,
    pub no_popup: bool,
    pub print_config: bool,
}

impl View for Args {
    type V = ArgsView;

    open spec fn view(&self) -> ArgsView {
        ArgsView {
            context: self.context@,
            config: self.config@,
            popup_out: self.popup_out@,
            no_popup: self.no_popup,
            print_config: self.print_config,
        }
    }
}

/// What an empty command line asks for.
pub open spec fn no_args() -> ArgsView {
    ArgsView {
        context: seq![],
        config: seq![],
        popup_out: seq![],
        no_popup: false,
        print_config: false,
    }
}

impl Default for Args {
    fn default() -> (r: Self)
        ensures
            r@ == no_args(),
    {
        Args {
            context: String::new(),
            config: String::new(),
            popup_out: String::new(),
            no_popup: false,
            print_config: false,
        }
    }
}

/// What came of reading the command line.
#[derive(Debug)]
pub enum Parsed {
    /// Go on with these.
    Go(Args),
    /// Show how to call the program.
    Help,
}

/// What a `Parsed` says.
pub enum ParsedView {
    Go(ArgsView),
    Help,
}

impl View for Parsed {
    type V = ParsedView;

    open spec fn view(&self) -> ParsedView {
        match self {
            Parsed::Go(args) => ParsedView::Go(args@),
            Parsed::Help => ParsedView::Help,
        }
    }
}

/// What the result of reading the command line says.
pub open spec fn parsed_view(r: Result<Parsed, String>) -> Result<ParsedView, Seq<char>> {
    match r {
        Ok(p) => Ok(p@),
        Err(s) => Err(s@),
    }
}

/// The rest of a command line, where what stands before it asked for `args`. A
/// later option overrides an earlier one; the first one that is unknown or
/// lacks its value, or the first call for help, settles the matter.
pub open spec fn parsed(args: ArgsView, argv: Seq<Seq<char>>) -> Result<ParsedView, Seq<char>>
    decreases argv.len(),
{
    if argv.len() == 0 {
        Ok(ParsedView::Go(args))
    } else if argv[0] == "--context"@ {
        if argv.len() < 2 {
            Err("--context needs a value"@)
        } else {
            parsed(ArgsView { context: argv[1], ..args }, argv.skip(2))
        }
    } else if argv[0] == "--config"@ {
        if argv.len() < 2 {
            Err("--config needs a value"@)
        } else {
            parsed(ArgsView { config: argv[1], ..args }, argv.skip(2))
        }
    } else if argv[0] == "--popup-out"@ {
        if argv.len() < 2 {
            Err("--popup-out needs a value"@)
        } else {
            parsed(ArgsView { popup_out: argv[1], ..args }, argv.skip(2))
        }
    } else if argv[0] == "--no-popup"@ {
        parsed(ArgsView { no_popup: true, ..args }, argv.skip(1))
    } else if argv[0] == "--print-config"@ {
        parsed(ArgsView { print_config: true, ..args }, argv.skip(1))
    } else if argv[0] == "-h"@ || argv[0] == "--help"@ {
        Ok(ParsedView::Help)
    } else {
        Err("unknown option: "@ + argv[0])
    }
}

/// Reads the command line, without the name of the program.
pub fn parse_args(argv: &Vec<String>) -> (r: Result<Parsed, String>)
    ensures
        parsed_view(r) == parsed(no_args(), text::texts(argv@)),
{
    let ghost all = text::texts(argv@);
    let n: usize = argv.len();
    let mut args = Args::default();
    let mut i: usize = 0;
    assert(all.skip(0) == all);
    while i < n
        invariant
            n == argv@.len(),
            i <= n,
            all == text::texts(argv@),
            parsed(args@, all.skip(i as int)) == parsed(no_args(), all),
        decreases n - i,
    {
        let option = argv[i].as_str();
        let ghost rest = all.skip(i as int);
        assert(rest[0] == option@);
        assert(rest.skip(1) == all.skip(i + 1));
        if i + 1 < n {
            assert(rest[1] == argv@[i + 1]@);
            assert(rest.skip(2) == all.skip(i + 2));
        }
        if text::same(option, "--context") {
            if n - i < 2 {
                return Err("--context needs a value".to_string());
            }
            args.context = argv[i + 1].clone();
            i = i + 2;
        } else if text::same(option, "--config") {
            if n - i < 2 {
                return Err("--config needs a value".to_string());
            }
            args.config = argv[i + 1].clone();
            i = i + 2;
        } else if text::same(option, "--popup-out") {
            if n - i < 2 {
                return Err("--popup-out needs a value".to_string());
            }
            args.popup_out = argv[i + 1].clone();
            i = i + 2;
        } else if text::same(option, "--no-popup") {
            args.no_popup = true;
            i = i + 1;
        } else if text::same(option, "--print-config") {
            args.print_config = true;
            i = i + 1;
        } else if text::same(option, "-h") || text::same(option, "--help") {
            return Ok(Parsed::Help);
        } else {
            return Err(text::concat("unknown option: ", option));
        }
    }
    Ok(Parsed::Go(args))
}

/// Whether to open a tmux popup: inside tmux, where the configuration wants it,
/// the command line does not forbid it, and this is not the popup itself.
pub open spec fn popup_mode(tmux_enabled: bool, args: ArgsView, in_tmux: bool) -> bool {
    tmux_enabled && in_tmux && args.popup_out.len() == 0 && !args.no_popup
}

/// Whether to open a tmux popup.
pub fn in_tmux_popup_mode(cfg: &Config, args: &Args, in_tmux: bool) -> (r: bool)
    ensures
        r == popup_mode(cfg@.tmux.enabled, args@, in_tmux),
{
    wants_popup(cfg.tmux.enabled, args, in_tmux)
}

/// Whether to open a tmux popup, where the configuration says `enabled` of it.
pub fn wants_popup(enabled: bool, args: &Args, in_tmux: bool) -> (r: bool)
    ensures
        r == popup_mode(enabled, args@, in_tmux),
{
    enabled && in_tmux && args.popup_out.as_str().is_empty() && !args.no_popup
}

/// Where a failure goes, and how it reads there.
#[derive(Debug)]
pub enum Report {
    /// On standard error.
    Stderr(String),
    /// Into the file at the path.
    File(String, String),
}

/// What a `Report` says.
pub enum ReportView {
    Stderr(Seq<char>),
    File(Seq<char>, Seq<char>),
}

impl View for Report {
    type V = ReportView;

    open spec fn view(&self) -> ReportView {
        match self {
            Report::Stderr(s) => ReportView::Stderr(s@),
            Report::File(path, s) => ReportView::File(path@, s@),
        }
    }
}

/// A failure goes where whoever called can see it: through the result file from
/// inside a popup, on standard error elsewhere.
pub open spec fn reported(args: ArgsView, msg: Seq<char>) -> ReportView {
    if args.popup_out.len() == 0 {
        ReportView::Stderr("llmq: "@ + msg)
    } else {
        ReportView::File(args.popup_out, ERR_PREFIX@ + msg)
    }
}

/// Where a failure goes, and how it reads there.
pub fn report(args: &Args, msg: &str) -> (r: Report)
    ensures
        r@ == reported(args@, msg@),
{
    if args.popup_out.as_str().is_empty() {
        Report::Stderr(text::concat("llmq: ", msg))
    } else {
        Report::File(args.popup_out.clone(), text::concat(ERR_PREFIX, msg))
    }
}

proof fn lemma_options_differ()
    ensures
        "--context"@.len() == 9,
        "--config"@.len() == 8,
        "--popup-out"@.len() == 11,
        "--no-popup"@.len() == 10,
        "--print-config"@.len() == 14,
        "-h"@.len() == 2,
        "--help"@.len() == 6,
{
    reveal_strlit("--context");
    reveal_strlit("--config");
    reveal_strlit("--popup-out");
    reveal_strlit("--no-popup");
    reveal_strlit("--print-config");
    reveal_strlit("-h");
    reveal_strlit("--help");
}

/// Each option sets its own value and nothing else, whatever was set before, and
/// the rest of the command line goes on from there. A value may be any text.
pub proof fn law_options(args: ArgsView, value: Seq<char>, rest: Seq<Seq<char>>)
    ensures
        parsed(args, Seq::<Seq<char>>::empty()) == Ok::<ParsedView, Seq<char>>(
            ParsedView::Go(args),
        ),
        parsed(args, seq!["--context"@, value] + rest) == parsed(
            ArgsView { context: value, ..args },
            rest,
        ),
        parsed(args, seq!["--config"@, value] + rest) == parsed(
            ArgsView { config: value, ..args },
            rest,
        ),
        parsed(args, seq!["--popup-out"@, value] + rest) == parsed(
            ArgsView { popup_out: value, ..args },
            rest,
        ),
        parsed(args, seq!["--no-popup"@] + rest) == parsed(
            ArgsView { no_popup: true, ..args },
            rest,
        ),
        parsed(args, seq!["--print-config"@] + rest) == parsed(
            ArgsView { print_config: true, ..args },
            rest,
        ),
{
    lemma_options_differ();
    assert((seq!["--context"@, value] + rest).skip(2) == rest);
    assert((seq!["--config"@, value] + rest).skip(2) == rest);
    assert((seq!["--popup-out"@, value] + rest).skip(2) == rest);
    assert((seq!["--no-popup"@] + rest).skip(1) == rest);
    assert((seq!["--print-config"@] + rest).skip(1) == rest);
}

/// A call for help is one whatever follows; an option without its value, and a
/// word that is no option, are refused by name whatever follows.
pub proof fn law_refused_options(args: ArgsView, word: Seq<char>, rest: Seq<Seq<char>>)
    ensures
        parsed(args, seq!["-h"@] + rest) == Ok::<ParsedView, Seq<char>>(ParsedView::Help),
        parsed(args, seq!["--help"@] + rest) == Ok::<ParsedView, Seq<char>>(ParsedView::Help),
        parsed(args, seq!["--context"@]) == Err::<ParsedView, Seq<char>>(
            "--context"@ + " needs a value"@,
        ),
        parsed(args, seq!["--config"@]) == Err::<ParsedView, Seq<char>>(
            "--config"@ + " needs a value"@,
        ),
        parsed(args, seq!["--popup-out"@]) == Err::<ParsedView, Seq<char>>(
            "--popup-out"@ + " needs a value"@,
        ),
        word != "--context"@ && word != "--config"@ && word != "--popup-out"@ && word
            != "--no-popup"@ && word != "--print-config"@ && word != "-h"@ && word != "--help"@
            ==> parsed(args, seq![word] + rest) == Err::<ParsedView, Seq<char>>(
            "unknown option: "@ + word,
        ),
{
    lemma_options_differ();
    reveal_strlit("--context");
    reveal_strlit("--config");
    reveal_strlit("--popup-out");
    reveal_strlit(" needs a value");
    reveal_strlit("--context needs a value");
    reveal_strlit("--config needs a value");
    reveal_strlit("--popup-out needs a value");
    assert("--context needs a value"@ == "--context"@ + " needs a value"@);
    assert("--config needs a value"@ == "--config"@ + " needs a value"@);
    assert("--popup-out needs a value"@ == "--popup-out"@ + " needs a value"@);
    assert((seq![word] + rest)[0] == word);
    assert((seq!["-h"@] + rest)[0] == "-h"@);
    assert((seq!["--help"@] + rest)[0] == "--help"@);
}

/// An empty command line asks for nothing; a popup is opened exactly inside tmux,
/// where it is wanted, not forbidden, and this is not the popup itself.
pub proof fn law_popup_mode(enabled: bool, args: ArgsView, in_tmux: bool)
    ensures
        no_args().context.len() == 0,
        no_args().config.len() == 0,
        no_args().popup_out.len() == 0,
        !no_args().no_popup,
        !no_args().print_config,
        popup_mode(enabled, no_args(), in_tmux) <==> enabled && in_tmux,
        args.no_popup || args.popup_out.len() > 0 ==> !popup_mode(enabled, args, in_tmux),
        popup_mode(enabled, args, in_tmux) <==> enabled && in_tmux && !(args.no_popup
            || args.popup_out.len() > 0),
{
}

/// A failure is told as it is: on standard error with the name of the program, or
/// marked in the result file of a popup.
pub proof fn law_reported(args: ArgsView, msg: Seq<char>)
    ensures
        args.popup_out.len() == 0 ==> reported(args, msg) == ReportView::Stderr("llmq: "@ + msg),
        args.popup_out.len() > 0 ==> reported(args, msg) == ReportView::File(
            args.popup_out,
            "__llmq_error__:"@ + msg,
        ),
{
}

/// The usage names every option that is meant for users.
pub proof fn law_usage()
    ensures
        USAGE@
            == "usage: llmq [options]\n\n  --context TEXT     current command line, sent as context\n  --config PATH      path to config.toml\n  --no-popup         never use the tmux popup\n  --print-config     dump effective config and exit\n  -h, --help         show this message\n"@,
        ERR_PREFIX@ == "__llmq_error__:"@,
{
}

} // verus!
