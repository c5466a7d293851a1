//! The worker behind one question: it resolves the key, sends the request, reads
//! the reply line by line and tells the user interface what comes of it.
//!
//! The worker decides; whoever drives it performs each action and hands back the
//! event that answers it.

use vstd::prelude::*;
use vstd::string::*;
use crate::api;
use crate::api::{LineStep, Message, MessageView, Msg, MsgView, Request, RequestView};
use crate::config::{Api, ApiView};
use crate::key;
use crate::key::{KeyReply, KeyStepView};
use crate::text;

verus! {

/// How far the worker is.
#[derive(Debug, Clone, Copy, PartialEq, Eq, Structural)]
pub enum Phase {
    /// Waiting for the key.
    Key,
    /// Waiting for the reply to the request.
    Sending,
    /// Waiting for the body of a reply with this status, which is no success.
    Refused(u16),
    /// Waiting for a line of the reply.
    Reading,
    /// Waiting until a chunk was handed over.
    Delivering,
    /// Waiting until an error was handed over.
    Failing,
    /// Waiting until the end was handed over.
    Closing,
    /// Nothing is left to do.
    Ended,
}

/// What came of reading a line.
#[derive(Debug)]
pub enum LineRead {
    /// The reply is over.
    End,
    /// Reading failed.
    Failed(String),
    /// A line, without its ending.
    Text(String),
}

/// What happened outside.
#[derive(Debug)]
pub enum WorkerEvent {
    /// The key, or why there is none.
    Key(Result<String, String>),
    /// The status of the reply, or why there is none.
    Sent(Result<u16, String>),
    /// The body of a reply that is no success.
    Body(String),
    /// A line, and whether the user wants the worker to stop.
    Line(bool, LineRead),
    /// Whether anyone took the message.
    Delivered(bool),
}

/// What to do next.
#[derive(Debug)]
pub enum WorkerAction {
    /// Send this request.
    Post(Request),
    /// Read the whole body.
    ReadBody,
    /// Read a line.
    ReadLine,
    /// Hand this message over.
    Emit(Msg),
    /// Stop.
    Quit,
    /// Nothing: the event answers no action that is open.
    Wait,
}

/// What a `WorkerAction` says.
pub enum WorkerActionView {
    Post(RequestView),
    ReadBody,
    ReadLine,
    Emit(MsgView),
    Quit,
    Wait,
}

impl View for WorkerAction {
    type V = WorkerActionView;

    open spec fn view(&self) -> WorkerActionView {
        match self {
            WorkerAction::Post(request) => WorkerActionView::Post(request@),
            WorkerAction::ReadBody => WorkerActionView::ReadBody,
            WorkerAction::ReadLine => WorkerActionView::ReadLine,
            WorkerAction::Emit(msg) => WorkerActionView::Emit(msg@),
            WorkerAction::Quit => WorkerActionView::Quit,
            WorkerAction::Wait => WorkerActionView::Wait,
        }
    }
}

/// The worker behind one question.
#[derive(Debug)]
pub struct Worker {
    pub phase: Phase,
    pub api: Api,
    pub messages: Vec<Message>,
}

/// What a `Worker` knows.
pub struct WorkerView {
    pub phase: Phase,
    pub api: ApiView,
    pub messages: Seq<MessageView>,
}

impl View for Worker {
    type V = WorkerView;

    open spec fn view(&self) -> WorkerView {
        WorkerView { phase: self.phase, api: self.api@, messages: api::chat(self.messages@) }
    }
}

/// What is said of a reply whose status is no success: the status, and the start
/// of the body.
pub open spec fn refusal(status: u16, body: Seq<char>) -> Seq<char> {
    "HTTP "@ + text::decimal(status as nat) + ": "@ + text::clipped(body, 400)
}

/// Giving up with an error.
pub open spec fn fail(reason: Seq<char>) -> (Phase, WorkerActionView) {
    (Phase::Failing, WorkerActionView::Emit(MsgView::Error(reason)))
}

/// Coming to the end.
pub open spec fn finish() -> (Phase, WorkerActionView) {
    (Phase::Closing, WorkerActionView::Emit(MsgView::Done))
}

/// After the key.
pub open spec fn after_key(w: WorkerView, r: Result<String, String>) -> (Phase, WorkerActionView) {
    match r {
        Ok(key) => (
            Phase::Sending,
            WorkerActionView::Post(api::request_for(w.api, key@, w.messages)),
        ),
        Err(reason) => fail("key_command failed: "@ + reason@),
    }
}

/// After the request.
pub open spec fn after_send(r: Result<u16, String>) -> (Phase, WorkerActionView) {
    match r {
        Ok(status) => if 200 <= status < 300 {
            (Phase::Reading, WorkerActionView::ReadLine)
        } else {
            (Phase::Refused(status), WorkerActionView::ReadBody)
        },
        Err(reason) => fail(reason@),
    }
}

/// After a line: a wish to stop counts from the next line on, whatever it is.
pub open spec fn after_line(stop: bool, line: LineRead) -> (Phase, WorkerActionView) {
    match line {
        LineRead::End => finish(),
        LineRead::Failed(reason) => if stop {
            finish()
        } else {
            fail(reason@)
        },
        LineRead::Text(s) => if stop {
            finish()
        } else {
            match api::line_step(s@) {
                api::LineStepView::Skip => (Phase::Reading, WorkerActionView::ReadLine),
                api::LineStepView::Finish => finish(),
                api::LineStepView::Chunk(chunk) => (
                    Phase::Delivering,
                    WorkerActionView::Emit(MsgView::Chunk(chunk)),
                ),
            }
        },
    }
}

/// Where an event takes the worker, and what it does then. An event that answers
/// no open action changes nothing.
pub open spec fn next(w: WorkerView, event: WorkerEvent) -> (Phase, WorkerActionView) {
    match (w.phase, event) {
        (Phase::Key, WorkerEvent::Key(r)) => after_key(w, r),
        (Phase::Sending, WorkerEvent::Sent(r)) => after_send(r),
        (Phase::Refused(status), WorkerEvent::Body(body)) => fail(refusal(status, body@)),
        (Phase::Reading, WorkerEvent::Line(stop, line)) => after_line(stop, line),
        (Phase::Delivering, WorkerEvent::Delivered(taken)) => if taken {
            (Phase::Reading, WorkerActionView::ReadLine)
        } else {
            finish()
        },
        (Phase::Failing, WorkerEvent::Delivered(_)) => finish(),
        (Phase::Closing, WorkerEvent::Delivered(_)) => (Phase::Ended, WorkerActionView::Quit),
        _ => (w.phase, WorkerActionView::Wait),
    }
}

/// Comes to the end.
fn close() -> (r: (Phase, WorkerAction))
    ensures
        (r.0, r.1@) == finish(),
{
    (Phase::Closing, WorkerAction::Emit(Msg::Done))
}

/// Gives up with an error.
fn give_up(reason: String) -> (r: (Phase, WorkerAction))
    ensures
        (r.0, r.1@) == fail(reason@),
{
    (Phase::Failing, WorkerAction::Emit(Msg::Error(reason)))
}

/// What is said of a reply whose status is no success.
pub fn refusal_message(status: u16, body: &str) -> (r: String)
    ensures
        r@ == refusal(status, body@),
{
    let mut out = "HTTP ".to_string();
    out.append(text::show(status as u64).as_str());
    out.append(": ");
    out.append(text::clip(body, 400).as_str());
    out
}

/// Reads a line of the reply.
fn on_line(stop: bool, line: LineRead) -> (r: (Phase, WorkerAction))
    ensures
        (r.0, r.1@) == after_line(stop, line),
{
    match line {
        LineRead::End => close(),
        LineRead::Failed(reason) => if stop {
            close()
        } else {
            give_up(reason)
        },
        LineRead::Text(s) => if stop {
            close()
        } else {
            match api::read_line(s.as_str()) {
                LineStep::Skip => (Phase::Reading, WorkerAction::ReadLine),
                LineStep::Finish => close(),
                LineStep::Chunk(chunk) => (Phase::Delivering, WorkerAction::Emit(Msg::Chunk(chunk))),
            }
        },
    }
}

impl Worker {
    /// A worker for one question. It waits for the key.
    pub fn new(api: Api, messages: Vec<Message>) -> (r: Worker)
        ensures
            r@ == (WorkerView { phase: Phase::Key, api: api@, messages: api::chat(messages@) }),
    {
        Worker { phase: Phase::Key, api, messages }
    }

    /// Takes an event and says what to do next.
    pub fn step(&mut self, event: WorkerEvent) -> (r: WorkerAction)
        ensures
            (final(self)@.phase, r@) == next(old(self)@, event),
            final(self)@.api == old(self)@.api,
            final(self)@.messages == old(self)@.messages,
    {
        let (phase, action): (Phase, WorkerAction) = match (self.phase, event) {
            (Phase::Key, WorkerEvent::Key(Ok(key))) => (
                Phase::Sending,
                WorkerAction::Post(api::build_request(&self.api, key.as_str(), &self.messages)),
            ),
            (Phase::Key, WorkerEvent::Key(Err(reason))) => {
                give_up(text::concat("key_command failed: ", reason.as_str()))
            },
            (Phase::Sending, WorkerEvent::Sent(Ok(status))) => if 200 <= status && status < 300 {
                (Phase::Reading, WorkerAction::ReadLine)
            } else {
                (Phase::Refused(status), WorkerAction::ReadBody)
            },
            (Phase::Sending, WorkerEvent::Sent(Err(reason))) => give_up(reason),
            (Phase::Refused(status), WorkerEvent::Body(body)) => {
                give_up(refusal_message(status, body.as_str()))
            },
            (Phase::Reading, WorkerEvent::Line(stop, line)) => on_line(stop, line),
            (Phase::Delivering, WorkerEvent::Delivered(taken)) => if taken {
                (Phase::Reading, WorkerAction::ReadLine)
            } else {
                close()
            },
            (Phase::Failing, WorkerEvent::Delivered(_)) => close(),
            (Phase::Closing, WorkerEvent::Delivered(_)) => (Phase::Ended, WorkerAction::Quit),
            (now, _) => (now, WorkerAction::Wait),
        };
        self.phase = phase;
        action
    }
}

/// The worker after `events`, and the messages it handed over on the way.
pub open spec fn run(w: WorkerView, events: Seq<WorkerEvent>) -> (WorkerView, Seq<MsgView>)
    decreases events.len(),
{
    if events.len() == 0 {
        (w, seq![])
    } else {
        let (before, sent) = run(w, events.drop_last());
        let (phase, action) = next(before, events.last());
        (
            WorkerView { phase, ..before },
            match action {
                WorkerActionView::Emit(msg) => sent.push(msg),
                _ => sent,
            },
        )
    }
}

/// Whether the messages are chunks of the answer only.
pub open spec fn only_chunks(sent: Seq<MsgView>) -> bool {
    forall|i: int| 0 <= i < sent.len() ==> (#[trigger] sent[i]) is Chunk
}

/// Whether the messages are chunks with an error behind them.
pub open spec fn chunks_and_error(sent: Seq<MsgView>) -> bool {
    sent.len() > 0 && sent.last() is Error && only_chunks(sent.drop_last())
}

/// Whether the worker closes: it said that it is done.
pub open spec fn closing(phase: Phase) -> bool {
    phase == Phase::Closing || phase == Phase::Ended
}

/// Every way out sends exactly one `Done`, as the last message. Before it stand
/// chunks, and at most one error, behind them. Until the worker closes there is
/// no `Done`.
pub proof fn law_exactly_one_done(w: WorkerView, events: Seq<WorkerEvent>)
    requires
        w.phase == Phase::Key,
    ensures
        ({
            let (after, sent) = run(w, events);
            &&& closing(after.phase) ==> sent.len() > 0 && sent.last() is Done && (only_chunks(
                sent.drop_last(),
            ) || chunks_and_error(sent.drop_last()))
            &&& after.phase == Phase::Failing ==> chunks_and_error(sent)
            &&& !closing(after.phase) && after.phase != Phase::Failing ==> only_chunks(sent)
            &&& forall|i: int|
                0 <= i < sent.len() && (#[trigger] sent[i]) is Done ==> closing(after.phase) && i
                    == sent.len() - 1
        }),
    decreases events.len(),
{
    if events.len() > 0 {
        law_exactly_one_done(w, events.drop_last());
        let (before, sent) = run(w, events.drop_last());
        let (after, more) = run(w, events);
        let (phase, action) = next(before, events.last());
        if action is Emit {
            assert(more.drop_last() == sent);
        }
    }
}

/// A worker that has ended stays so and sends nothing more.
pub proof fn law_ended_is_final(w: WorkerView, event: WorkerEvent)
    requires
        w.phase == Phase::Ended,
    ensures
        next(w, event) == (Phase::Ended, WorkerActionView::Wait),
{
}

/// The chunks of the answer among the messages, one after the other.
pub open spec fn answer(sent: Seq<MsgView>) -> Seq<char>
    decreases sent.len(),
{
    if sent.len() == 0 {
        seq![]
    } else {
        match sent.last() {
            MsgView::Chunk(s) => answer(sent.drop_last()) + s,
            _ => answer(sent.drop_last()),
        }
    }
}

/// A reply that is no success is answered with its status and the first 400
/// characters of its body, and with the end after that, whoever listens.
pub proof fn law_refused_request(w: WorkerView, status: u16, body: String, taken: bool, again: bool)
    requires
        w.phase == Phase::Sending,
        !(200 <= status < 300),
    ensures
        ({
            let events = seq![
                WorkerEvent::Sent(Ok(status)),
                WorkerEvent::Body(body),
                WorkerEvent::Delivered(taken),
                WorkerEvent::Delivered(again),
            ];
            run(w, events) == (
                WorkerView { phase: Phase::Ended, ..w },
                seq![MsgView::Error(refusal(status, body@)), MsgView::Done],
            )
        }),
{
    let e0: Seq<WorkerEvent> = seq![];
    let e1 = e0.push(WorkerEvent::Sent(Ok(status)));
    let e2 = e1.push(WorkerEvent::Body(body));
    let e3 = e2.push(WorkerEvent::Delivered(taken));
    let e4 = e3.push(WorkerEvent::Delivered(again));
    assert(e1.drop_last() == e0 && e2.drop_last() == e1 && e3.drop_last() == e2 && e4.drop_last()
        == e3);
    assert(run(w, e0) == (w, Seq::<MsgView>::empty()));
    assert(run(w, e1).0 == (WorkerView { phase: Phase::Refused(status), ..w }));
    assert(run(w, e2).0 == (WorkerView { phase: Phase::Failing, ..w }));
    assert(run(w, e2).1 == seq![MsgView::Error(refusal(status, body@))]);
    assert(run(w, e3).0 == (WorkerView { phase: Phase::Closing, ..w }));
    assert(run(w, e3).1 == seq![MsgView::Error(refusal(status, body@)), MsgView::Done]);
    assert(e4 == seq![
        WorkerEvent::Sent(Ok(status)),
        WorkerEvent::Body(body),
        WorkerEvent::Delivered(taken),
        WorkerEvent::Delivered(again),
    ]);
}

/// A wish to stop ends the answer at the next line, whatever it is: nothing more
/// comes but the end.
pub proof fn law_stop_ends_the_answer(w: WorkerView, line: LineRead)
    requires
        w.phase == Phase::Reading,
    ensures
        next(w, WorkerEvent::Line(true, line)) == finish(),
{
}

/// What happens while lines of a reply come in that do not end it, and somebody
/// listens.
pub open spec fn reading(lines: Seq<String>) -> Seq<WorkerEvent>
    decreases lines.len(),
{
    if lines.len() == 0 {
        seq![]
    } else {
        let now = reading(lines.drop_last()).push(
            WorkerEvent::Line(false, LineRead::Text(lines.last())),
        );
        if api::line_step(lines.last()@) is Chunk {
            now.push(WorkerEvent::Delivered(true))
        } else {
            now
        }
    }
}

/// The pieces of the answer in the lines of a reply, one after the other.
pub open spec fn streamed(lines: Seq<String>) -> Seq<char>
    decreases lines.len(),
{
    if lines.len() == 0 {
        seq![]
    } else {
        match api::line_step(lines.last()@) {
            api::LineStepView::Chunk(chunk) => streamed(lines.drop_last()) + chunk,
            _ => streamed(lines.drop_last()),
        }
    }
}

/// The answer that is handed over is what the server streamed: the pieces in the
/// lines, in order, and nothing else.
pub proof fn law_streamed_answer(w: WorkerView, lines: Seq<String>)
    requires
        w.phase == Phase::Reading,
        forall|i: int| 0 <= i < lines.len() ==> !(api::line_step((#[trigger] lines[i])@) is Finish),
    ensures
        run(w, reading(lines)).0 == w,
        only_chunks(run(w, reading(lines)).1),
        answer(run(w, reading(lines)).1) == streamed(lines),
    decreases lines.len(),
{
    if lines.len() > 0 {
        let init = lines.drop_last();
        assert forall|i: int| 0 <= i < init.len() implies !(api::line_step(
            (#[trigger] init[i])@,
        ) is Finish) by {
            assert(init[i] == lines[i]);
        }
        law_streamed_answer(w, init);
        let line = WorkerEvent::Line(false, LineRead::Text(lines.last()));
        let now = reading(init).push(line);
        let sent = run(w, reading(init)).1;
        assert(now.drop_last() == reading(init));
        assert(!(api::line_step(lines[lines.len() - 1]@) is Finish));
        if api::line_step(lines.last()@) is Chunk {
            let chunk = MsgView::Chunk(api::line_step(lines.last()@)->Chunk_0);
            assert(run(w, now) == (WorkerView { phase: Phase::Delivering, ..w }, sent.push(chunk)));
            assert(reading(lines).drop_last() == now);
            assert(sent.push(chunk).drop_last() == sent);
        }
    }
}

/// The end of a reply closes an answer: after it comes `Done`, and that is all.
pub proof fn law_reply_ends(w: WorkerView, line: LineRead, taken: bool)
    requires
        w.phase == Phase::Reading,
        line matches LineRead::Text(s) ==> api::line_step(s@) is Finish,
        !(line is Failed),
    ensures
        run(w, seq![WorkerEvent::Line(false, line), WorkerEvent::Delivered(taken)]) == (
            WorkerView { phase: Phase::Ended, ..w },
            seq![MsgView::Done],
        ),
{
    let e0: Seq<WorkerEvent> = seq![];
    let e1 = e0.push(WorkerEvent::Line(false, line));
    let e2 = e1.push(WorkerEvent::Delivered(taken));
    assert(e1.drop_last() == e0 && e2.drop_last() == e1);
    assert(run(w, e0) == (w, Seq::<MsgView>::empty()));
    assert(run(w, e1) == (WorkerView { phase: Phase::Closing, ..w }, seq![MsgView::Done]));
    assert(e2 == seq![WorkerEvent::Line(false, line), WorkerEvent::Delivered(taken)]);
}

/// A server that wants no key gets none: with a blank key and no key command the
/// request is made at once, and nothing in it is an authorization.
pub proof fn law_works_without_a_key(w: WorkerView, none: String, words: Option<Seq<Seq<char>>>)
    requires
        w.phase == Phase::Key,
        w.api.key_command.len() == 0,
        text::trimmed(w.api.key).len() == 0,
        none@.len() == 0,
    ensures
        key::key_step(w.api, words, KeyReply::Nothing) == KeyStepView::Resolved(Ok(none@)),
        next(w, WorkerEvent::Key(Ok(none))) matches (Phase::Sending, WorkerActionView::Post(r))
            && r.headers == seq![("Content-Type"@, "application/json"@)],
{
    assert(text::trimmed(w.api.key) == none@);
}

/// Whether an event answers what a worker in this phase waits for.
pub open spec fn answers(phase: Phase, event: WorkerEvent) -> bool {
    match phase {
        Phase::Key => event is Key,
        Phase::Sending => event is Sent,
        Phase::Refused(_) => event is Body,
        Phase::Reading => event is Line,
        Phase::Delivering | Phase::Failing | Phase::Closing => event is Delivered,
        Phase::Ended => false,
    }
}

/// Whether an event tells what came of an action.
pub open spec fn replies(action: WorkerActionView, event: WorkerEvent) -> bool {
    match action {
        WorkerActionView::Post(_) => event is Sent,
        WorkerActionView::ReadBody => event is Body,
        WorkerActionView::ReadLine => event is Line,
        WorkerActionView::Emit(_) => event is Delivered,
        WorkerActionView::Quit | WorkerActionView::Wait => false,
    }
}

/// An answer is never met with `Wait`, and anything else changes nothing. The
/// worker quits exactly when the end was handed over. What comes of an action is
/// what the worker then waits for.
pub proof fn law_every_answer_counts(w: WorkerView, event: WorkerEvent, reply: WorkerEvent)
    ensures
        answers(w.phase, event) <==> !(next(w, event).1 is Wait),
        !answers(w.phase, event) ==> next(w, event).0 == w.phase,
        next(w, event).1 is Quit <==> w.phase == Phase::Closing && answers(w.phase, event),
        next(w, event).1 is Quit ==> next(w, event).0 == Phase::Ended,
        answers(w.phase, event) && next(w, event).0 == Phase::Ended ==> next(w, event).1 is Quit,
        answers(w.phase, event) ==> (replies(next(w, event).1, reply) <==> answers(
            next(w, event).0,
            reply,
        )),
{
}

/// Whether each of the events answers what the worker waits for when it comes.
pub open spec fn driven(w: WorkerView, events: Seq<WorkerEvent>) -> bool
    decreases events.len(),
{
    events.len() == 0 || {
        &&& driven(w, events.drop_last())
        &&& answers(run(w, events.drop_last()).0.phase, events.last())
    }
}

/// Every way out sends exactly one `Done`: a worker whose actions are all answered
/// never falls idle, and when it quits it has said `Done` once, last of all.
pub proof fn law_every_way_out(w: WorkerView, events: Seq<WorkerEvent>)
    requires
        w.phase == Phase::Key,
        driven(w, events),
        events.len() > 0,
    ensures
        ({
            let before = run(w, events.drop_last()).0;
            let action = next(before, events.last()).1;
            let (after, sent) = run(w, events);
            &&& !(action is Wait)
            &&& action is Quit <==> after.phase == Phase::Ended
            &&& action is Quit ==> {
                &&& sent.len() > 0
                &&& sent.last() is Done
                &&& forall|i: int| 0 <= i < sent.len() - 1 ==> !((#[trigger] sent[i]) is Done)
            }
        }),
{
    let before = run(w, events.drop_last()).0;
    law_every_answer_counts(before, events.last(), events.last());
    law_exactly_one_done(w, events);
}

/// With a key the request for the chat goes out; without one the reason is passed
/// on.
pub proof fn law_after_the_key(w: WorkerView, key: String, reason: String)
    requires
        w.phase == Phase::Key,
    ensures
        next(w, WorkerEvent::Key(Ok(key))) == (
            Phase::Sending,
            WorkerActionView::Post(api::request_for(w.api, key@, w.messages)),
        ),
        next(w, WorkerEvent::Key(Err(reason))) == (
            Phase::Failing,
            WorkerActionView::Emit(MsgView::Error("key_command failed: "@ + reason@)),
        ),
{
}

/// A reply from 200 to 299 is read line by line, the body of any other one is read
/// whole, and that there is none is passed on.
pub proof fn law_after_the_request(w: WorkerView, status: u16, reason: String)
    requires
        w.phase == Phase::Sending,
    ensures
        200 <= status <= 299 ==> next(w, WorkerEvent::Sent(Ok(status))) == (
            Phase::Reading,
            WorkerActionView::ReadLine,
        ),
        status < 200 || status > 299 ==> next(w, WorkerEvent::Sent(Ok(status))) == (
            Phase::Refused(status),
            WorkerActionView::ReadBody,
        ),
        next(w, WorkerEvent::Sent(Err(reason))) == (
            Phase::Failing,
            WorkerActionView::Emit(MsgView::Error(reason@)),
        ),
{
}

/// A refusal names the status and shows up to 400 characters of the body.
pub proof fn law_refusal(w: WorkerView, status: u16, body: String)
    requires
        w.phase == Phase::Refused(status),
    ensures
        body@.len() <= 400 ==> refusal(status, body@) == "HTTP "@ + text::decimal(status as nat)
            + ": "@ + body@,
        body@.len() > 400 ==> refusal(status, body@) == "HTTP "@ + text::decimal(status as nat)
            + ": "@ + body@.take(400),
        next(w, WorkerEvent::Body(body)) == (
            Phase::Failing,
            WorkerActionView::Emit(MsgView::Error(refusal(status, body@))),
        ),
{
    if body@.len() <= 400 {
        assert(text::clipped(body@, 400) == body@);
    }
}

/// What a line comes to is done; the end of the reply ends the answer, and a
/// failure to read is passed on. After a piece the next line is read, unless nobody
/// listens; after an error comes the end, whoever listens.
pub proof fn law_while_reading(w: WorkerView, line: String, reason: String, taken: bool)
    ensures
        w.phase == Phase::Reading ==> {
            let step = next(w, WorkerEvent::Line(false, LineRead::Text(line)));
            &&& api::line_step(line@) is Skip ==> step == (
                Phase::Reading,
                WorkerActionView::ReadLine,
            )
            &&& api::line_step(line@) is Finish ==> step == (
                Phase::Closing,
                WorkerActionView::Emit(MsgView::Done),
            )
            &&& api::line_step(line@) matches api::LineStepView::Chunk(piece) ==> step == (
                Phase::Delivering,
                WorkerActionView::Emit(MsgView::Chunk(piece)),
            )
            &&& next(w, WorkerEvent::Line(false, LineRead::Failed(reason))) == (
                Phase::Failing,
                WorkerActionView::Emit(MsgView::Error(reason@)),
            )
            &&& next(w, WorkerEvent::Line(taken, LineRead::End)) == (
                Phase::Closing,
                WorkerActionView::Emit(MsgView::Done),
            )
            &&& next(w, WorkerEvent::Line(true, LineRead::Text(line))) == (
                Phase::Closing,
                WorkerActionView::Emit(MsgView::Done),
            )
            &&& next(w, WorkerEvent::Line(true, LineRead::Failed(reason))) == (
                Phase::Closing,
                WorkerActionView::Emit(MsgView::Done),
            )
        },
        w.phase == Phase::Delivering ==> {
            &&& next(w, WorkerEvent::Delivered(true)) == (
                Phase::Reading,
                WorkerActionView::ReadLine,
            )
            &&& next(w, WorkerEvent::Delivered(false)) == (
                Phase::Closing,
                WorkerActionView::Emit(MsgView::Done),
            )
        },
        w.phase == Phase::Failing ==> next(w, WorkerEvent::Delivered(taken)) == (
            Phase::Closing,
            WorkerActionView::Emit(MsgView::Done),
        ),
        w.phase == Phase::Closing ==> next(w, WorkerEvent::Delivered(taken)) == (
            Phase::Ended,
            WorkerActionView::Quit,
        ),
{
}

/// The answer among messages is their pieces, in order; other messages add
/// nothing.
pub proof fn law_answer(sent: Seq<MsgView>, piece: Seq<char>, other: MsgView)
    requires
        !(other is Chunk),
    ensures
        answer(Seq::<MsgView>::empty()) == Seq::<char>::empty(),
        answer(sent.push(MsgView::Chunk(piece))) == answer(sent) + piece,
        answer(sent.push(other)) == answer(sent),
{
    assert(sent.push(MsgView::Chunk(piece)).drop_last() == sent);
    assert(sent.push(other).drop_last() == sent);
}

} // verus!
