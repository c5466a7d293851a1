//! The user interface: a question that is edited, an answer that streams in, and
//! lines of it to pick from.

use vstd::prelude::*;
use vstd::string::*;
use crate::api;
use crate::api::{Message, MessageView, Msg, MsgView, Role};
use crate::config::{Config, ConfigView};
use crate::text;

verus! {

/// Stands before a result that is to be run at once.
pub const ACCEPT_PREFIX: &'static str = "__llmq_accept__:";

/// What the user is doing.
#[derive(Debug, Clone, Copy, PartialEq, Eq, Structural)]
pub enum State {
    /// Writing the question.
    Ask,
    /// Watching the answer come in.
    Stream,
    /// Picking from the answer.
    Browse,
}

/// A key of the keyboard.
#[derive(Debug, Clone, Copy, PartialEq, Eq, Structural)]
pub enum KeyCode {
    Esc,
    Enter,
    Left,
    Right,
    Up,
    Down,
    Home,
    End,
    Backspace,
    Delete,
    Char(char),
    /// Any other key.
    Other,
}

/// A key that was pressed.
#[derive(Debug, Clone, Copy, PartialEq, Eq, Structural)]
pub struct KeyEvent {
    pub code: KeyCode,
    /// Whether control was held down.
    pub ctrl: bool,
}

/// Something that happened at the terminal.
#[derive(Debug, Clone, Copy, PartialEq, Eq, Structural)]
pub enum Event {
    /// A key went down.
    Press(KeyEvent),
    /// A key repeats, or went up again.
    OtherKey(KeyEvent),
    /// Anything else.
    Other,
}

/// What a key leads to.
#[derive(Debug)]
pub enum Reaction {
    /// Nothing outside.
    Stay,
    /// Ask these messages.
    Send(Vec<Message>),
    /// Give up the answer that comes in.
    Abort,
    /// Leave the user interface.
    Leave,
}

/// What a `Reaction` says.
pub enum ReactionView {
    Stay,
    Send(Seq<MessageView>),
    Abort,
    Leave,
}

impl View for Reaction {
    type V = ReactionView;

    open spec fn view(&self) -> ReactionView {
        match self {
            Reaction::Stay => ReactionView::Stay,
            Reaction::Send(messages) => ReactionView::Send(api::chat(messages@)),
            Reaction::Abort => ReactionView::Abort,
            Reaction::Leave => ReactionView::Leave,
        }
    }
}

/// The user interface.
#[derive(Debug)]
pub struct Ui {
    pub cfg: Config,
    /// The command line that the user came from.
    pub context: String,
    pub state: State,
    pub query: String,
    /// Where the next character goes, in characters.
    pub cursor: usize,
    /// The answer so far.
    pub buffer: String,
    pub error: String,
    /// The lines to pick from.
    pub lines: Vec<String>,
    pub sel: usize,
    pub scroll: usize,
    pub result: Option<String>,
}

/// What a `Ui` knows.
pub struct UiView {
    pub cfg: ConfigView,
    pub context: Seq<char>,
    pub state: State,
    pub query: Seq<char>,
    pub cursor: int,
    pub buffer: Seq<char>,
    pub error: Seq<char>,
    pub lines: Seq<Seq<char>>,
    pub sel: int,
    pub scroll: int,
    pub result: Option<Seq<char>>,
}

/// The text that an optional string holds.
pub open spec fn text_in(s: Option<String>) -> Option<Seq<char>> {
    match s {
        Some(t) => Some(t@),
        None => None,
    }
}

impl View for Ui {
    type V = UiView;

    open spec fn view(&self) -> UiView {
        UiView {
            cfg: self.cfg@,
            context: self.context@,
            state: self.state,
            query: self.query@,
            cursor: self.cursor as int,
            buffer: self.buffer@,
            error: self.error@,
            lines: text::texts(self.lines@),
            sel: self.sel as int,
            scroll: self.scroll as int,
            result: text_in(self.result),
        }
    }
}

impl UiView {
    /// The cursor is in the query or right behind it, and while the user picks
    /// there is a line picked.
    pub open spec fn wf(self) -> bool {
        &&& 0 <= self.cursor <= self.query.len()
        &&& 0 <= self.scroll
        &&& 0 <= self.sel
        &&& self.state == State::Browse ==> self.sel < self.lines.len()
    }

    /// Cursor moved to `at`.
    pub open spec fn at(self, at: int) -> UiView {
        UiView { cursor: at, ..self }
    }

    /// Query and cursor changed.
    pub open spec fn edited(self, query: Seq<char>, cursor: int) -> UiView {
        UiView { query, cursor, ..self }
    }

    /// One character to the left.
    pub open spec fn left(self) -> UiView {
        self.at(text::monus(self.cursor, 1))
    }

    /// One character to the right.
    pub open spec fn right(self) -> UiView {
        self.at(text::least(self.cursor + 1, self.query.len() as int))
    }

    /// The line below picked.
    pub open spec fn down(self) -> UiView {
        UiView { sel: text::least(self.sel + 1, self.lines.len() - 1), ..self }
    }

    /// The line above picked.
    pub open spec fn up(self) -> UiView {
        UiView { sel: text::monus(self.sel, 1), ..self }
    }

    /// Ready to leave with `result`.
    pub open spec fn chose(self, result: Seq<char>) -> UiView {
        UiView { result: Some(result), ..self }
    }
}

/// What is left of `i` when the blanks before it are passed over.
pub open spec fn over_blanks(query: Seq<char>, i: int) -> int
    decreases i,
{
    if i > 0 && query[i - 1] == ' ' {
        over_blanks(query, i - 1)
    } else {
        i
    }
}

/// What is left of `i` when everything but blanks before it is passed over.
pub open spec fn over_word(query: Seq<char>, i: int) -> int
    decreases i,
{
    if i > 0 && query[i - 1] != ' ' {
        over_word(query, i - 1)
    } else {
        i
    }
}

/// Where the word before the cursor starts.
pub open spec fn word_start(query: Seq<char>, cursor: int) -> int {
    over_word(query, over_blanks(query, cursor))
}

/// What the user asks: the query, and the command line they came from where the
/// configuration wants it and there is one.
pub open spec fn question(ui: UiView) -> Seq<char> {
    let context = text::trimmed(ui.context);
    if ui.cfg.prompt.include_context && context.len() > 0 {
        ui.query + "\n\n[current command line: "@ + context + "]"@
    } else {
        ui.query
    }
}

/// The chat that asks the question.
pub open spec fn question_chat(ui: UiView) -> Seq<MessageView> {
    seq![
        MessageView { role: Role::System, content: ui.cfg.prompt.system },
        MessageView { role: Role::User, content: question(ui) },
    ]
}

/// Waiting for an answer, with nothing of it there yet.
pub open spec fn submitted(ui: UiView) -> UiView {
    UiView { state: State::Stream, buffer: seq![], error: seq![], ..ui }
}

/// What a key with control does to the query.
pub open spec fn after_ctrl(ui: UiView, c: char) -> UiView {
    if c == 'a' {
        ui.at(0)
    } else if c == 'e' {
        ui.at(ui.query.len() as int)
    } else if c == 'b' {
        ui.left()
    } else if c == 'f' {
        ui.right()
    } else if c == 'u' {
        ui.edited(ui.query.skip(ui.cursor), 0)
    } else if c == 'k' {
        ui.edited(ui.query.take(ui.cursor), ui.cursor)
    } else if c == 'w' {
        let i = word_start(ui.query, ui.cursor);
        ui.edited(ui.query.take(i) + ui.query.skip(ui.cursor), i)
    } else {
        ui
    }
}

/// What a key does while the question is written.
pub open spec fn asked(ui: UiView, k: KeyEvent) -> (UiView, ReactionView) {
    match k.code {
        KeyCode::Enter => if text::trimmed(ui.query).len() > 0 {
            (submitted(ui), ReactionView::Send(question_chat(ui)))
        } else {
            (ui, ReactionView::Stay)
        },
        KeyCode::Left => (ui.left(), ReactionView::Stay),
        KeyCode::Right => (ui.right(), ReactionView::Stay),
        KeyCode::Home => (ui.at(0), ReactionView::Stay),
        KeyCode::End => (ui.at(ui.query.len() as int), ReactionView::Stay),
        KeyCode::Backspace => (
            if ui.cursor > 0 {
                ui.edited(ui.query.remove(ui.cursor - 1), ui.cursor - 1)
            } else {
                ui
            },
            ReactionView::Stay,
        ),
        KeyCode::Delete => (
            if ui.cursor < ui.query.len() {
                ui.edited(ui.query.remove(ui.cursor), ui.cursor)
            } else {
                ui
            },
            ReactionView::Stay,
        ),
        KeyCode::Char(c) => (
            if k.ctrl {
                after_ctrl(ui, c)
            } else if text::control(c) {
                ui
            } else {
                ui.edited(ui.query.insert(ui.cursor, c), ui.cursor + 1)
            },
            ReactionView::Stay,
        ),
        _ => (ui, ReactionView::Stay),
    }
}

/// What a key does while a line is picked.
pub open spec fn browsed(ui: UiView, k: KeyEvent) -> (UiView, ReactionView) {
    match k.code {
        KeyCode::Down => (ui.down(), ReactionView::Stay),
        KeyCode::Up => (ui.up(), ReactionView::Stay),
        KeyCode::Enter => (ui.chose(ui.lines[ui.sel]), ReactionView::Leave),
        KeyCode::Char(c) => if k.ctrl {
            if c == 'n' {
                (ui.down(), ReactionView::Stay)
            } else if c == 'p' {
                (ui.up(), ReactionView::Stay)
            } else if c == 'a' {
                (ui.chose(text::joined(ui.lines, seq!['\n'])), ReactionView::Leave)
            } else if c == 'x' {
                (ui.chose(ACCEPT_PREFIX@ + ui.lines[ui.sel]), ReactionView::Leave)
            } else {
                (ui, ReactionView::Stay)
            }
        } else if c == 'j' {
            (ui.down(), ReactionView::Stay)
        } else if c == 'k' {
            (ui.up(), ReactionView::Stay)
        } else if c == 'e' || c == '/' {
            (
                UiView { state: State::Ask, ..ui.at(ui.query.len() as int) },
                ReactionView::Stay,
            )
        } else {
            (ui, ReactionView::Stay)
        },
        _ => (ui, ReactionView::Stay),
    }
}

/// What a key does.
pub open spec fn handled(ui: UiView, k: KeyEvent) -> (UiView, ReactionView) {
    if k.code == KeyCode::Esc {
        if ui.state == State::Stream {
            (UiView { state: State::Ask, ..ui }, ReactionView::Abort)
        } else {
            (ui, ReactionView::Leave)
        }
    } else {
        match ui.state {
            State::Ask => asked(ui, k),
            State::Stream => (ui, ReactionView::Stay),
            State::Browse => browsed(ui, k),
        }
    }
}

/// What an event at the terminal does: only a key that goes down counts.
pub open spec fn noticed(ui: UiView, event: Event) -> (UiView, ReactionView) {
    match event {
        Event::Press(k) => handled(ui, k),
        _ => (ui, ReactionView::Stay),
    }
}

/// What a message from the worker does.
pub open spec fn received(ui: UiView, msg: MsgView) -> UiView {
    match msg {
        MsgView::Chunk(s) => UiView { buffer: ui.buffer + s, ..ui },
        MsgView::Error(s) => UiView { error: s, ..ui },
        MsgView::Done => {
            let lines = text::selectable(ui.buffer);
            UiView {
                lines,
                sel: 0,
                scroll: 0,
                state: if lines.len() == 0 {
                    State::Ask
                } else {
                    State::Browse
                },
                ..ui
            }
        },
    }
}

/// What messages from the worker do, one after the other.
pub open spec fn pumped(ui: UiView, msgs: Seq<MsgView>) -> UiView
    decreases msgs.len(),
{
    if msgs.len() == 0 {
        ui
    } else {
        received(pumped(ui, msgs.drop_last()), msgs.last())
    }
}

/// What a list of messages from the worker says.
pub open spec fn news(msgs: Seq<Msg>) -> Seq<MsgView> {
    Seq::new(msgs.len(), |i: int| msgs[i]@)
}

impl Ui {
    /// A user interface with nothing asked yet.
    pub fn new(cfg: Config, context: String) -> (r: Ui)
        ensures
            r@.wf(),
            r@ == (UiView {
                cfg: cfg@,
                context: context@,
                state: State::Ask,
                query: seq![],
                cursor: 0,
                buffer: seq![],
                error: seq![],
                lines: seq![],
                sel: 0,
                scroll: 0,
                result: None,
            }),
    {
        let r = Ui {
            cfg,
            context,
            state: State::Ask,
            query: String::new(),
            cursor: 0,
            buffer: String::new(),
            error: String::new(),
            lines: Vec::new(),
            sel: 0,
            scroll: 0,
            result: None,
        };
        assert(r@.lines == Seq::<Seq<char>>::empty());
        r
    }

    /// What can be done now.
    pub fn hint(&self) -> (r: &'static str)
        ensures
            r@ == hint_for(self.state),
    {
        match self.state {
            State::Ask => " enter send · esc cancel ",
            State::Stream => " streaming… · esc abort ",
            State::Browse => " enter insert · ^a insert all · ^x insert+run · esc cancel ",
        }
    }

    /// Asks the question.
    pub fn submit(&mut self) -> (r: Vec<Message>)
        requires
            old(self)@.wf(),
        ensures
            final(self)@ == submitted(old(self)@),
            final(self)@.wf(),
            api::chat(r@) == question_chat(old(self)@),
    {
        self.state = State::Stream;
        self.buffer = String::new();
        self.error = String::new();
        let mut user = self.query.clone();
        let context = text::trim(self.context.as_str());
        if self.cfg.prompt.include_context && !context.is_empty() {
            user.append("\n\n[current command line: ");
            user.append(context);
            user.append("]");
        }
        let mut messages: Vec<Message> = Vec::new();
        messages.push(Message { role: Role::System, content: self.cfg.prompt.system.clone() });
        messages.push(Message { role: Role::User, content: user });
        assert(api::chat(messages@) == question_chat(old(self)@));
        messages
    }

    /// Takes a message from the worker.
    pub fn receive(&mut self, msg: Msg)
        requires
            old(self)@.wf(),
        ensures
            final(self)@ == received(old(self)@, msg@),
            final(self)@.wf(),
    {
        match msg {
            Msg::Chunk(s) => {
                self.buffer.append(s.as_str());
            },
            Msg::Error(s) => {
                self.error = s;
            },
            Msg::Done => {
                self.lines = text::selectable_lines(self.buffer.as_str());
                self.sel = 0;
                self.scroll = 0;
                self.state = if self.lines.len() == 0 {
                    State::Ask
                } else {
                    State::Browse
                };
            },
        }
    }

    /// Takes the messages that have come from the worker, in order.
    pub fn pump(&mut self, msgs: Vec<Msg>)
        requires
            old(self)@.wf(),
        ensures
            final(self)@ == pumped(old(self)@, news(msgs@)),
            final(self)@.wf(),
    {
        let ghost first = self@;
        let ghost all = news(msgs@);
        for msg in it: msgs
            invariant
                all == news(it.seq()),
                self@ == pumped(first, all.take(it.index() as int)),
                self@.wf(),
        {
            assert(all.take(it.index() + 1).drop_last() == all.take(it.index() as int));
            self.receive(msg);
        }
        assert(all.take(all.len() as int) == all);
    }

    /// Puts the cursor one character to the left.
    fn go_left(&mut self)
        requires
            old(self)@.wf(),
        ensures
            final(self)@ == old(self)@.left(),
    {
        if self.cursor > 0 {
            self.cursor = self.cursor - 1;
        }
    }

    /// Puts the cursor one character to the right.
    fn go_right(&mut self)
        requires
            old(self)@.wf(),
        ensures
            final(self)@ == old(self)@.right(),
    {
        let len: usize = self.query.as_str().unicode_len();
        if self.cursor < len {
            self.cursor = self.cursor + 1;
        }
    }

    /// Puts the cursor behind the query.
    fn go_to_end(&mut self)
        ensures
            final(self)@ == old(self)@.at(old(self)@.query.len() as int),
    {
        self.cursor = self.query.as_str().unicode_len();
    }

    /// Takes out the characters from `from` up to `to`, and puts the cursor
    /// where they were.
    fn take_out(&mut self, from: usize, to: usize)
        requires
            from <= to <= old(self)@.query.len(),
        ensures
            final(self)@ == old(self)@.edited(
                old(self)@.query.take(from as int) + old(self)@.query.skip(to as int),
                from as int,
            ),
    {
        let (_, tail) = text::cut(self.query.as_str(), to);
        let (head, _) = text::cut(self.query.as_str(), from);
        let query = text::concat(head, tail);
        self.query = query;
        self.cursor = from;
    }

    /// Puts `c` in at the cursor.
    fn put_in(&mut self, c: char)
        requires
            old(self)@.wf(),
        ensures
            final(self)@ == old(self)@.edited(
                old(self)@.query.insert(old(self)@.cursor, c),
                old(self)@.cursor + 1,
            ),
    {
        let (head, tail) = text::cut(self.query.as_str(), self.cursor);
        let mut query = head.to_string();
        query.push(c);
        query.append(tail);
        assert(query@ == self@.query.insert(self@.cursor, c));
        let len: usize = query.as_str().unicode_len();
        assert(self.cursor < len);
        self.query = query;
        self.cursor = self.cursor + 1;
    }

    /// Where the word before the cursor starts.
    fn word_before(&self) -> (r: usize)
        requires
            self@.wf(),
        ensures
            r == word_start(self@.query, self@.cursor),
            r <= self.cursor,
    {
        let chars = text::chars_of(self.query.as_str());
        let mut i: usize = self.cursor;
        while i > 0 && chars[i - 1] == ' '
            invariant
                i <= self.cursor <= chars@.len(),
                chars@ == self@.query,
                over_blanks(self@.query, i as int) == over_blanks(self@.query, self@.cursor),
            decreases i,
        {
            i = i - 1;
        }
        let ghost after = i as int;
        while i > 0 && chars[i - 1] != ' '
            invariant
                i <= self.cursor <= chars@.len(),
                chars@ == self@.query,
                over_word(self@.query, i as int) == over_word(self@.query, after),
            decreases i,
        {
            i = i - 1;
        }
        i
    }

    /// Picks the line below.
    fn go_down(&mut self)
        requires
            old(self)@.wf(),
            old(self)@.state == State::Browse,
        ensures
            final(self)@ == old(self)@.down(),
    {
        if self.sel < self.lines.len() - 1 {
            self.sel = self.sel + 1;
        }
    }

    /// Picks the line above.
    fn go_up(&mut self)
        requires
            old(self)@.wf(),
        ensures
            final(self)@ == old(self)@.up(),
    {
        if self.sel > 0 {
            self.sel = self.sel - 1;
        }
    }

    /// A key with control, while the question is written.
    fn edit_with_ctrl(&mut self, c: char)
        requires
            old(self)@.wf(),
        ensures
            final(self)@ == after_ctrl(old(self)@, c),
    {
        let cursor: usize = self.cursor;
        if c == 'a' {
            self.cursor = 0;
        } else if c == 'e' {
            self.go_to_end();
        } else if c == 'b' {
            self.go_left();
        } else if c == 'f' {
            self.go_right();
        } else if c == 'u' {
            self.take_out(0, cursor);
            assert(self@.query == old(self)@.query.skip(cursor as int));
        } else if c == 'k' {
            let len: usize = self.query.as_str().unicode_len();
            self.take_out(cursor, len);
            assert(self@.query == old(self)@.query.take(cursor as int));
        } else if c == 'w' {
            let start: usize = self.word_before();
            self.take_out(start, cursor);
        }
    }

    /// A key, while the question is written.
    fn handle_ask(&mut self, k: KeyEvent) -> (r: Reaction)
        requires
            old(self)@.wf(),
        ensures
            (final(self)@, r@) == asked(old(self)@, k),
    {
        match k.code {
            KeyCode::Enter => {
                if !text::trim(self.query.as_str()).is_empty() {
                    return Reaction::Send(self.submit());
                }
            },
            KeyCode::Left => {
                self.go_left();
            },
            KeyCode::Right => {
                self.go_right();
            },
            KeyCode::Home => {
                self.cursor = 0;
            },
            KeyCode::End => {
                self.go_to_end();
            },
            KeyCode::Backspace => {
                let cursor: usize = self.cursor;
                if cursor > 0 {
                    self.take_out(cursor - 1, cursor);
                    assert(self@.query == old(self)@.query.remove(cursor - 1));
                }
            },
            KeyCode::Delete => {
                let cursor: usize = self.cursor;
                let len: usize = self.query.as_str().unicode_len();
                if cursor < len {
                    self.take_out(cursor, cursor + 1);
                    assert(self@.query == old(self)@.query.remove(cursor as int));
                }
            },
            KeyCode::Char(c) => {
                if k.ctrl {
                    self.edit_with_ctrl(c);
                } else if !text::is_control(c) {
                    self.put_in(c);
                }
            },
            _ => {},
        }
        Reaction::Stay
    }

    /// A key, while a line is picked.
    fn handle_browse(&mut self, k: KeyEvent) -> (r: Reaction)
        requires
            old(self)@.wf(),
            old(self)@.state == State::Browse,
        ensures
            (final(self)@, r@) == browsed(old(self)@, k),
    {
        match k.code {
            KeyCode::Down => {
                self.go_down();
            },
            KeyCode::Up => {
                self.go_up();
            },
            KeyCode::Enter => {
                self.result = Some(self.lines[self.sel].clone());
                return Reaction::Leave;
            },
            KeyCode::Char(c) => {
                if k.ctrl {
                    if c == 'n' {
                        self.go_down();
                    } else if c == 'p' {
                        self.go_up();
                    } else if c == 'a' {
                        let all = text::join(&self.lines, "\n");
                        proof {
                            reveal_strlit("\n");
                            assert("\n"@ == seq!['\n']);
                        }
                        self.result = Some(all);
                        return Reaction::Leave;
                    } else if c == 'x' {
                        let line = text::concat(ACCEPT_PREFIX, self.lines[self.sel].as_str());
                        self.result = Some(line);
                        return Reaction::Leave;
                    }
                } else if c == 'j' {
                    self.go_down();
                } else if c == 'k' {
                    self.go_up();
                } else if c == 'e' || c == '/' {
                    self.state = State::Ask;
                    self.go_to_end();
                }
            },
            _ => {},
        }
        Reaction::Stay
    }

    /// Takes a key that was pressed.
    pub fn handle(&mut self, k: KeyEvent) -> (r: Reaction)
        requires
            old(self)@.wf(),
        ensures
            (final(self)@, r@) == handled(old(self)@, k),
            final(self)@.wf(),
    {
        proof {
            lemma_handled_wf(self@, k);
        }
        if k.code == KeyCode::Esc {
            if self.state == State::Stream {
                self.state = State::Ask;
                return Reaction::Abort;
            }
            return Reaction::Leave;
        }
        match self.state {
            State::Ask => self.handle_ask(k),
            State::Stream => Reaction::Stay,
            State::Browse => self.handle_browse(k),
        }
    }

    /// Takes something that happened at the terminal.
    pub fn notice(&mut self, event: Event) -> (r: Reaction)
        requires
            old(self)@.wf(),
        ensures
            (final(self)@, r@) == noticed(old(self)@, event),
            final(self)@.wf(),
    {
        match event {
            Event::Press(k) => self.handle(k),
            _ => Reaction::Stay,
        }
    }

    /// Hands out what the user chose, and keeps nothing of it.
    pub fn take_result(&mut self) -> (r: Option<String>)
        requires
            old(self)@.wf(),
        ensures
            text_in(r) == old(self)@.result,
            final(self)@ == (UiView { result: None, ..old(self)@ }),
            final(self)@.wf(),
    {
        self.result.take()
    }
}

/// The word before the cursor starts before it.
pub proof fn lemma_word_start(query: Seq<char>, cursor: int)
    requires
        0 <= cursor <= query.len(),
    ensures
        0 <= word_start(query, cursor) <= over_blanks(query, cursor) <= cursor,
        forall|i: int| over_blanks(query, cursor) <= i < cursor ==> query[i] == ' ',
        over_blanks(query, cursor) > 0 ==> query[over_blanks(query, cursor) - 1] != ' ',
        forall|i: int|
            word_start(query, cursor) <= i < over_blanks(query, cursor) ==> query[i] != ' ',
        word_start(query, cursor) > 0 ==> query[word_start(query, cursor) - 1] == ' ',
{
    lemma_over_blanks(query, cursor);
    lemma_over_word(query, over_blanks(query, cursor));
}

proof fn lemma_over_blanks(query: Seq<char>, i: int)
    requires
        0 <= i <= query.len(),
    ensures
        0 <= over_blanks(query, i) <= i,
        forall|n: int| over_blanks(query, i) <= n < i ==> query[n] == ' ',
        over_blanks(query, i) > 0 ==> query[over_blanks(query, i) - 1] != ' ',
    decreases i,
{
    if i > 0 && query[i - 1] == ' ' {
        lemma_over_blanks(query, i - 1);
    }
}

proof fn lemma_over_word(query: Seq<char>, i: int)
    requires
        0 <= i <= query.len(),
    ensures
        0 <= over_word(query, i) <= i,
        forall|n: int| over_word(query, i) <= n < i ==> query[n] != ' ',
        over_word(query, i) > 0 ==> query[over_word(query, i) - 1] == ' ',
    decreases i,
{
    if i > 0 && query[i - 1] != ' ' {
        lemma_over_word(query, i - 1);
    }
}

/// No key takes the cursor out of the query, or the choice off the lines.
pub proof fn lemma_handled_wf(ui: UiView, k: KeyEvent)
    requires
        ui.wf(),
    ensures
        handled(ui, k).0.wf(),
        handled(ui, k).0.cfg == ui.cfg,
        handled(ui, k).0.context == ui.context,
{
    lemma_word_start(ui.query, ui.cursor);
}

/// What can be done in a state.
pub open spec fn hint_for(state: State) -> Seq<char> {
    match state {
        State::Ask => " enter send · esc cancel "@,
        State::Stream => " streaming… · esc abort "@,
        State::Browse => " enter insert · ^a insert all · ^x insert+run · esc cancel "@,
    }
}

} // verus!
