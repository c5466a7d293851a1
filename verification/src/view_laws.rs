//! What is seen of a value is what it holds: nothing is left out, and nothing is
//! changed.

use vstd::prelude::*;
use crate::api;
use crate::api::{LineStep, LineStepView, Message, Msg, MsgView, Request};
use crate::cli;
use crate::cli::{Args, Parsed, ParsedView, Report, ReportView};
use crate::config;
use crate::config::Config;
use crate::json;
use crate::json::Json;
use crate::key;
use crate::key::{KeyStep, KeyStepView};
use crate::popup;
use crate::popup::{TempStep, TempStepView};
use crate::screen;
use crate::screen::{Paint, PaintView};
use crate::session::{Output, OutputView, Session, SessionAction, SessionActionView};
use crate::text;
use crate::tty::{TtyStep, TtyStepView};
use crate::ui;
use crate::ui::{Reaction, ReactionView, Ui};
use crate::worker::{Worker, WorkerAction, WorkerActionView};

verus! {

/// Every key of the configuration is seen as it is.
pub proof fn law_config(c: Config)
    ensures
        c@.api == c.api@,
        c@.prompt == c.prompt@,
        c@.ui == c.ui@,
        c@.tmux == c.tmux@,
        c.api@.url == c.api.url@,
        c.api@.key == c.api.key@,
        c.api@.key_command == c.api.key_command@,
        c.api@.model == c.api.model@,
        c.api@.temperature == c.api.temperature,
        c.api@.max_tokens == c.api.max_tokens,
        c.api@.timeout == c.api.timeout,
        c.api@.extra == json::members_of(c.api.extra@),
        c.prompt@.system == c.prompt.system@,
        c.prompt@.include_context == c.prompt.include_context,
        c.ui@.width_pct == c.ui.width_pct,
        c.ui@.height_pct == c.ui.height_pct,
        c.ui@.title == c.ui.title@,
        c.tmux@.enabled == c.tmux.enabled,
        c.tmux@.width == c.tmux.width@,
        c.tmux@.height == c.tmux.height@,
{
}

/// Members and items are seen one by one, in order.
pub proof fn law_lists(
    members: Seq<(String, Json)>,
    items: Seq<Json>,
    messages: Seq<Message>,
    msgs: Seq<Msg>,
    headers: Seq<(String, String)>,
    steps: Seq<Paint>,
    i: int,
)
    ensures
        json::members_of(members).len() == members.len(),
        0 <= i < members.len() ==> json::members_of(members)[i] == (
            members[i].0@,
            members[i].1.tree(),
        ),
        json::trees(items).len() == items.len(),
        0 <= i < items.len() ==> json::trees(items)[i] == items[i].tree(),
        api::chat(messages).len() == messages.len(),
        0 <= i < messages.len() ==> api::chat(messages)[i].role == messages[i].role && api::chat(
            messages,
        )[i].content == messages[i].content@,
        ui::news(msgs).len() == msgs.len(),
        0 <= i < msgs.len() ==> ui::news(msgs)[i] == msgs[i]@,
        api::headers_of(headers).len() == headers.len(),
        0 <= i < headers.len() ==> api::headers_of(headers)[i] == (headers[i].0@, headers[i].1@),
        screen::paints(steps).len() == steps.len(),
        0 <= i < steps.len() ==> screen::paints(steps)[i] == steps[i]@,
{
}

/// An optional value, or a result, is seen as it is.
pub proof fn law_options_and_results(
    s: String,
    t: String,
    list: Vec<String>,
    bytes: &[u8],
    args: Args,
)
    ensures
        ui::text_in(Some(s)) == Some(s@),
        ui::text_in(None) is None,
        key::result_view(Ok(s)) == Ok::<Seq<char>, Seq<char>>(s@),
        key::result_view(Err(t)) == Err::<Seq<char>, Seq<char>>(t@),
        key::words_in(Some(list)) == Some(text::texts(list@)),
        key::words_in(None) is None,
        config::bytes_in(Some(bytes)) == Some(bytes@),
        config::bytes_in(None) is None,
        popup::outcome_view(Ok(Some(s))) == Ok::<Option<Seq<char>>, Seq<char>>(Some(s@)),
        popup::outcome_view(Ok(None)) == Ok::<Option<Seq<char>>, Seq<char>>(None),
        popup::outcome_view(Err(t)) == Err::<Option<Seq<char>>, Seq<char>>(t@),
        cli::parsed_view(Ok(Parsed::Go(args))) == Ok::<ParsedView, Seq<char>>(
            ParsedView::Go(args@),
        ),
        cli::parsed_view(Ok(Parsed::Help)) == Ok::<ParsedView, Seq<char>>(ParsedView::Help),
        cli::parsed_view(Err(t)) == Err::<ParsedView, Seq<char>>(t@),
{
}

/// The messages between the worker, the server and the user interface are seen as
/// they are.
pub proof fn law_traffic(
    s: String,
    chunk: String,
    m: Message,
    r: Request,
    w: Worker,
    msg: Msg,
    list: Vec<Message>,
)
    ensures
        Msg::Chunk(s)@ == MsgView::Chunk(s@),
        Msg::Error(s)@ == MsgView::Error(s@),
        Msg::Done@ == MsgView::Done,
        m@.role == m.role,
        m@.content == m.content@,
        r@.url == r.url@,
        r@.headers == api::headers_of(r.headers@),
        r@.body == r.body.tree(),
        r@.timeout == r.timeout,
        LineStep::Skip@ == LineStepView::Skip,
        LineStep::Chunk(chunk)@ == LineStepView::Chunk(chunk@),
        LineStep::Finish@ == LineStepView::Finish,
        w@.phase == w.phase,
        w@.api == w.api@,
        w@.messages == api::chat(w.messages@),
        WorkerAction::Post(r)@ == WorkerActionView::Post(r@),
        WorkerAction::ReadBody@ == WorkerActionView::ReadBody,
        WorkerAction::ReadLine@ == WorkerActionView::ReadLine,
        WorkerAction::Emit(msg)@ == WorkerActionView::Emit(msg@),
        WorkerAction::Quit@ == WorkerActionView::Quit,
        WorkerAction::Wait@ == WorkerActionView::Wait,
        Reaction::Stay@ == ReactionView::Stay,
        Reaction::Send(list)@ == ReactionView::Send(api::chat(list@)),
        Reaction::Abort@ == ReactionView::Abort,
        Reaction::Leave@ == ReactionView::Leave,
{
}

/// The user interface is seen as it is.
pub proof fn law_user_interface(u: Ui)
    ensures
        u@.cfg == u.cfg@,
        u@.context == u.context@,
        u@.state == u.state,
        u@.query == u.query@,
        u@.cursor == u.cursor,
        u@.buffer == u.buffer@,
        u@.error == u.error@,
        u@.lines == text::texts(u.lines@),
        u@.sel == u.sel,
        u@.scroll == u.scroll,
        u@.result == ui::text_in(u.result),
        u@.wf() <==> {
            &&& u.cursor <= u.query@.len()
            &&& u.state == ui::State::Browse ==> u.sel < u.lines@.len()
        },
{
}

/// Steps of painting are seen as they are.
pub proof fn law_painting(x: u16, y: u16, s: String)
    ensures
        Paint::HideCursor@ == PaintView::HideCursor,
        Paint::ShowCursor@ == PaintView::ShowCursor,
        Paint::Clear@ == PaintView::Clear,
        Paint::MoveTo(x, y)@ == PaintView::MoveTo(x as int, y as int),
        Paint::Print(s)@ == PaintView::Print(s@),
        Paint::Bold@ == PaintView::Bold,
        Paint::NotBold@ == PaintView::NotBold,
        Paint::Reverse@ == PaintView::Reverse,
        Paint::NotReverse@ == PaintView::NotReverse,
{
}

/// The command line, and what is reported, are seen as they are.
pub proof fn law_command_line(a: Args, s: String, path: String)
    ensures
        a@.context == a.context@,
        a@.config == a.config@,
        a@.popup_out == a.popup_out@,
        a@.no_popup == a.no_popup,
        a@.print_config == a.print_config,
        Parsed::Go(a)@ == ParsedView::Go(a@),
        Parsed::Help@ == ParsedView::Help,
        Report::Stderr(s)@ == ReportView::Stderr(s@),
        Report::File(path, s)@ == ReportView::File(path@, s@),
{
}

/// What a run does is seen as it is.
pub proof fn law_run(x: Session, s: String, path: String, n: i32, out: Output)
    ensures
        x@.phase == x.phase,
        x@.args == x.args@,
        Output::Nothing@ == OutputView::Nothing,
        Output::Stdout(s)@ == OutputView::Stdout(s@),
        Output::Stderr(s)@ == OutputView::Stderr(s@),
        Output::File(path, s)@ == OutputView::File(path@, s@),
        Output::Descriptor(n, s)@ == OutputView::Descriptor(n, s@),
        Output::Config@ == OutputView::Config,
        Output::DefaultConfig@ == OutputView::DefaultConfig,
        SessionAction::Load(s)@ == SessionActionView::Load(s@),
        SessionAction::OpenPopup@ == SessionActionView::OpenPopup,
        SessionAction::OpenTerminal@ == SessionActionView::OpenTerminal,
        SessionAction::AskUser(s)@ == SessionActionView::AskUser(s@),
        SessionAction::WriteFile(path, s)@ == SessionActionView::WriteFile(path@, s@),
        SessionAction::Exit(n, out)@ == SessionActionView::Exit(n, out@),
        SessionAction::Wait@ == SessionActionView::Wait,
{
}

/// Steps on the way to the key, the result file and the terminal are seen as they
/// are.
pub proof fn law_steps(
    s: String,
    list: Vec<String>,
    r: Result<String, String>,
    n: i32,
    m: i32,
    k: u32,
    b: bool,
)
    ensures
        KeyStep::Run(s, list)@ == KeyStepView::Run(s@, text::texts(list@)),
        KeyStep::ReadVariable(s)@ == KeyStepView::ReadVariable(s@),
        KeyStep::Resolved(r)@ == KeyStepView::Resolved(key::result_view(r)),
        TempStep::Try(k)@ == TempStepView::Try(k),
        TempStep::Found@ == TempStepView::Found,
        TempStep::GiveUp(s)@ == TempStepView::GiveUp(s@),
        TtyStep::Duplicate@ == TtyStepView::Duplicate,
        TtyStep::Check(n)@ == TtyStepView::Check(n),
        TtyStep::Open(n, b)@ == TtyStepView::Open(n, b),
        TtyStep::Install(n, m)@ == TtyStepView::Install(n, m),
        TtyStep::Finished(Ok(n))@ == TtyStepView::Finished(Ok(n)),
        TtyStep::Finished(Err(s))@ == TtyStepView::Finished(Err(s@)),
        TtyStep::Wait@ == TtyStepView::Wait,
{
}

} // verus!
