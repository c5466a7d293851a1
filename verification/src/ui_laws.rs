//! What holds of the user interface, whatever is typed and whatever comes in.

use vstd::prelude::*;
use crate::api::{MsgView, Role};
use crate::screen;
use crate::screen_laws;
use crate::text;
use crate::ui;
use crate::ui::{Event, KeyCode, KeyEvent, ReactionView, State, UiView};
use crate::worker;

verus! {

/// A key without control.
pub open spec fn key(code: KeyCode) -> KeyEvent {
    KeyEvent { code, ctrl: false }
}

/// A character with control.
pub open spec fn ctrl(c: char) -> KeyEvent {
    KeyEvent { code: KeyCode::Char(c), ctrl: true }
}

/// Something that reaches the user interface.
pub enum Input {
    Key(KeyEvent),
    News(MsgView),
    /// It is painted on a terminal of that many columns and rows.
    Paint(u16, u16),
}

/// The user interface after all of `inputs`.
pub open spec fn after(start: UiView, inputs: Seq<Input>) -> UiView
    decreases inputs.len(),
{
    if inputs.len() == 0 {
        start
    } else {
        let before = after(start, inputs.drop_last());
        match inputs.last() {
            Input::Key(k) => ui::handled(before, k).0,
            Input::News(msg) => ui::received(before, msg),
            Input::Paint(w, h) => screen::painted(before, w as int, h as int),
        }
    }
}

/// Whatever is typed, comes in and is painted, the cursor never leaves the query,
/// and while the user picks there is a line picked. Configuration and context
/// stay as they are.
pub proof fn law_always_well_formed(start: UiView, inputs: Seq<Input>)
    requires
        start.wf(),
    ensures
        after(start, inputs).wf(),
        after(start, inputs).cfg == start.cfg,
        after(start, inputs).context == start.context,
    decreases inputs.len(),
{
    if inputs.len() > 0 {
        law_always_well_formed(start, inputs.drop_last());
        let before = after(start, inputs.drop_last());
        match inputs.last() {
            Input::Key(k) => {
                ui::lemma_handled_wf(before, k);
            },
            Input::News(msg) => {},
            Input::Paint(w, h) => {
                lemma_painted_wf(before, w as int, h as int);
            },
        }
    }
}

proof fn lemma_painted_wf(ui: UiView, w: int, h: int)
    requires
        ui.wf(),
    ensures
        screen::painted(ui, w, h).wf(),
        screen::painted(ui, w, h).cfg == ui.cfg,
        screen::painted(ui, w, h).context == ui.context,
{
    if screen::fits(w, h) && ui.state == State::Browse {
        screen_laws::law_picked_line_is_visible(ui, w, h);
    }
}

/// A character that was typed goes in at the cursor, and Backspace takes it out
/// again.
pub proof fn law_backspace_undoes_typing(start: UiView, c: char)
    requires
        start.wf(),
        start.state == State::Ask,
        !text::control(c),
    ensures
        ({
            let typed = ui::handled(start, key(KeyCode::Char(c))).0;
            &&& typed.query == start.query.take(start.cursor).push(c) + start.query.skip(
                start.cursor,
            )
            &&& typed.cursor == start.cursor + 1
            &&& ui::handled(typed, key(KeyCode::Backspace)).0 == start
        }),
{
    let typed = ui::handled(start, key(KeyCode::Char(c))).0;
    assert(typed.query == start.query.take(start.cursor).push(c) + start.query.skip(start.cursor));
    let back = ui::handled(typed, key(KeyCode::Backspace)).0;
    assert(back.query == start.query);
}

/// Delete takes out what Backspace takes out from one place further on.
pub proof fn law_delete_is_backspace_from_the_right(start: UiView)
    requires
        start.wf(),
        start.state == State::Ask,
        start.cursor < start.query.len(),
    ensures
        ui::handled(start, key(KeyCode::Delete)).0 == ui::handled(
            ui::handled(start, key(KeyCode::Right)).0,
            key(KeyCode::Backspace),
        ).0,
{
}

/// At the ends of the query Backspace and Delete change nothing.
pub proof fn law_nothing_to_take_out(start: UiView)
    requires
        start.wf(),
        start.state == State::Ask,
    ensures
        start.cursor == 0 ==> ui::handled(start, key(KeyCode::Backspace)).0 == start,
        start.cursor == start.query.len() ==> ui::handled(start, key(KeyCode::Delete)).0 == start,
{
}

/// The user interface after the characters of `typed`.
pub open spec fn after_typing(start: UiView, typed: Seq<char>) -> UiView
    decreases typed.len(),
{
    if typed.len() == 0 {
        start
    } else {
        ui::handled(after_typing(start, typed.drop_last()), key(KeyCode::Char(typed.last()))).0
    }
}

/// A text that is typed stands in the query where the cursor was, character by
/// character, whatever its length in bytes.
pub proof fn law_typing(start: UiView, typed: Seq<char>)
    requires
        start.wf(),
        start.state == State::Ask,
        forall|i: int| 0 <= i < typed.len() ==> !text::control(#[trigger] typed[i]),
    ensures
        after_typing(start, typed) == start.edited(
            start.query.take(start.cursor) + typed + start.query.skip(start.cursor),
            start.cursor + typed.len(),
        ),
    decreases typed.len(),
{
    if typed.len() == 0 {
        assert(start.query.take(start.cursor) + typed + start.query.skip(start.cursor)
            == start.query);
    } else {
        let init = typed.drop_last();
        assert forall|i: int| 0 <= i < init.len() implies !text::control(#[trigger] init[i]) by {
            assert(init[i] == typed[i]);
        }
        law_typing(start, init);
        let before = after_typing(start, init);
        assert(!text::control(typed[typed.len() - 1]));
        assert(before.query.insert(before.cursor, typed.last()) == start.query.take(start.cursor)
            + typed + start.query.skip(start.cursor));
    }
}

/// Each binding with control does what its key does.
pub proof fn law_bindings(start: UiView)
    requires
        start.wf(),
    ensures
        start.state == State::Ask ==> {
            &&& ui::handled(start, ctrl('a')) == ui::handled(start, key(KeyCode::Home))
            &&& ui::handled(start, ctrl('e')) == ui::handled(start, key(KeyCode::End))
            &&& ui::handled(start, ctrl('b')) == ui::handled(start, key(KeyCode::Left))
            &&& ui::handled(start, ctrl('f')) == ui::handled(start, key(KeyCode::Right))
        },
        start.state == State::Browse ==> {
            &&& ui::handled(start, ctrl('n')) == ui::handled(start, key(KeyCode::Down))
            &&& ui::handled(start, key(KeyCode::Char('j'))) == ui::handled(
                start,
                key(KeyCode::Down),
            )
            &&& ui::handled(start, ctrl('p')) == ui::handled(start, key(KeyCode::Up))
            &&& ui::handled(start, key(KeyCode::Char('k'))) == ui::handled(start, key(KeyCode::Up))
        },
{
}

/// The kill bindings heed the cursor: `^u` keeps what stands behind it, `^k`
/// what stands before it, and both together keep nothing. `^w` takes out the
/// word before the cursor and the blanks behind that word, and nothing else.
pub proof fn law_kill_bindings(start: UiView)
    requires
        start.wf(),
        start.state == State::Ask,
    ensures
        ui::handled(start, ctrl('u')).0 == start.edited(start.query.skip(start.cursor), 0),
        ui::handled(start, ctrl('k')).0 == start.edited(
            start.query.take(start.cursor),
            start.cursor,
        ),
        ui::handled(ui::handled(start, ctrl('k')).0, ctrl('u')).0.query.len() == 0,
        ({
            let i = ui::word_start(start.query, start.cursor);
            let blanks = ui::over_blanks(start.query, start.cursor);
            &&& 0 <= i <= blanks <= start.cursor
            &&& forall|n: int| i <= n < blanks ==> start.query[n] != ' '
            &&& forall|n: int| blanks <= n < start.cursor ==> start.query[n] == ' '
            &&& blanks > 0 ==> start.query[blanks - 1] != ' '
            &&& i > 0 ==> start.query[i - 1] == ' '
            &&& ui::handled(start, ctrl('w')).0 == start.edited(
                start.query.take(i) + start.query.skip(start.cursor),
                i,
            )
        }),
{
    ui::lemma_word_start(start.query, start.cursor);
}

/// Esc gives up an answer that comes in, and leaves otherwise; it never chooses
/// anything. While an answer comes in no other key does anything.
pub proof fn law_esc(start: UiView, k: KeyEvent)
    requires
        start.wf(),
    ensures
        k.code == KeyCode::Esc && start.state == State::Stream ==> ui::handled(start, k) == (
            UiView { state: State::Ask, ..start },
            ReactionView::Abort,
        ),
        k.code == KeyCode::Esc && start.state != State::Stream ==> ui::handled(start, k) == (
            start,
            ReactionView::Leave,
        ),
        k.code != KeyCode::Esc && start.state == State::Stream ==> ui::handled(start, k) == (
            start,
            ReactionView::Stay,
        ),
{
}

/// Something is chosen only on leaving, and only from the lines: Enter takes the
/// picked line, `^x` the same line marked to be run, `^a` all lines.
pub proof fn law_choosing(start: UiView, k: KeyEvent)
    requires
        start.wf(),
        start.result is None,
    ensures
        ({
            let (end, reaction) = ui::handled(start, k);
            end.result is Some ==> {
                &&& reaction is Leave
                &&& start.state == State::Browse
                &&& 0 <= start.sel < start.lines.len()
                &&& {
                    ||| k.code == KeyCode::Enter && end.result == Some(start.lines[start.sel])
                    ||| k == ctrl('x') && end.result == Some(
                        ui::ACCEPT_PREFIX@ + start.lines[start.sel],
                    )
                    ||| k == ctrl('a') && end.result == Some(
                        text::joined(start.lines, seq!['\n']),
                    )
                }
            }
        }),
        start.state == State::Browse ==> {
            &&& ui::handled(start, key(KeyCode::Enter)).0.result == Some(start.lines[start.sel])
            &&& ui::handled(start, ctrl('x')).0.result == Some(
                ui::ACCEPT_PREFIX@ + start.lines[start.sel],
            )
            &&& ui::handled(start, ctrl('a')).0.result == Some(
                text::joined(start.lines, seq!['\n']),
            )
        },
{
}

/// Going back to the question keeps it, and the answer too.
pub proof fn law_back_to_the_question(start: UiView, c: char)
    requires
        start.wf(),
        start.state == State::Browse,
        c == 'e' || c == '/',
    ensures
        ui::handled(start, key(KeyCode::Char(c))).0 == (UiView {
            state: State::Ask,
            cursor: start.query.len() as int,
            ..start
        }),
{
}

/// A question is sent only where it is not blank, and it carries the query as it
/// stands.
pub proof fn law_sending(start: UiView, k: KeyEvent)
    requires
        start.wf(),
    ensures
        ui::handled(start, k).1 is Send <==> start.state == State::Ask && k.code == KeyCode::Enter
            && text::trimmed(start.query).len() > 0,
        start.state == State::Ask && k.code == KeyCode::Enter && text::trimmed(start.query).len()
            == 0 ==> ui::handled(start, k) == (start, ReactionView::Stay),
        ui::handled(start, k).1 matches ReactionView::Send(chat) ==> {
            &&& chat.len() == 2
            &&& start.query.is_prefix_of(chat[1].content)
            &&& chat[0].content == start.cfg.prompt.system
            &&& ui::handled(start, k).0 == ui::submitted(start)
        },
{
}

/// The picks move one line at a time and stop at the ends.
pub proof fn law_picking(start: UiView)
    requires
        start.wf(),
        start.state == State::Browse,
    ensures
        ({
            let down = ui::handled(start, key(KeyCode::Down)).0;
            let up = ui::handled(start, key(KeyCode::Up)).0;
            &&& down.sel == (if start.sel + 1 < start.lines.len() { start.sel + 1 } else { start.sel })
            &&& up.sel == (if start.sel > 0 { start.sel - 1 } else { start.sel })
            &&& start.sel + 1 < start.lines.len() ==> ui::handled(down, key(KeyCode::Up)).0 == start
        }),
{
}

/// What comes in is collected in order.
pub proof fn law_chunks_are_collected(start: UiView, msgs: Seq<MsgView>)
    ensures
        ui::pumped(start, msgs).buffer == start.buffer + worker::answer(msgs),
        ui::pumped(start, msgs).query == start.query,
        ui::pumped(start, msgs).cursor == start.cursor,
        ui::pumped(start, msgs).result == start.result,
    decreases msgs.len(),
{
    if msgs.len() > 0 {
        law_chunks_are_collected(start, msgs.drop_last());
    } else {
        assert(start.buffer + worker::answer(msgs) == start.buffer);
    }
}

/// Messages that come in two batches do what they do in one.
pub proof fn law_batches(start: UiView, first: Seq<MsgView>, second: Seq<MsgView>)
    ensures
        ui::pumped(start, first + second) == ui::pumped(ui::pumped(start, first), second),
    decreases second.len(),
{
    if second.len() == 0 {
        assert(first + second == first);
    } else {
        law_batches(start, first, second.drop_last());
        assert((first + second).drop_last() == first + second.drop_last());
    }
}

/// From the question to the lines: once everything that a worker sends for a
/// question has come in, the lines to pick from are those of the answer it
/// streamed, the first one is picked, and without any line the user is back at
/// the question.
pub proof fn law_question_to_lines(
    start: UiView,
    w: worker::WorkerView,
    events: Seq<worker::WorkerEvent>,
)
    requires
        start.wf(),
        w.phase == worker::Phase::Key,
        worker::closing(worker::run(w, events).0.phase),
    ensures
        ({
            let sent = worker::run(w, events).1;
            let end = ui::pumped(ui::submitted(start), sent);
            &&& end.buffer == worker::answer(sent)
            &&& end.lines == text::selectable(worker::answer(sent))
            &&& end.sel == 0
            &&& end.state == (if end.lines.len() == 0 { State::Ask } else { State::Browse })
            &&& end.query == start.query
        }),
{
    let sent = worker::run(w, events).1;
    worker::law_exactly_one_done(w, events);
    law_chunks_are_collected(ui::submitted(start), sent);
    law_chunks_are_collected(ui::submitted(start), sent.drop_last());
    assert(Seq::<char>::empty() + worker::answer(sent) == worker::answer(sent));
    assert(Seq::<char>::empty() + worker::answer(sent.drop_last()) == worker::answer(
        sent.drop_last(),
    ));
}

/// While the question is written the cursor moves by one character or to an end,
/// and nothing else changes.
pub proof fn law_moving(start: UiView)
    requires
        start.wf(),
        start.state == State::Ask,
    ensures
        ui::handled(start, key(KeyCode::Left)) == (
            UiView {
                cursor: if start.cursor > 0 { start.cursor - 1 } else { 0 },
                ..start
            },
            ReactionView::Stay,
        ),
        ui::handled(start, key(KeyCode::Right)) == (
            UiView {
                cursor: if start.cursor < start.query.len() {
                    start.cursor + 1
                } else {
                    start.cursor
                },
                ..start
            },
            ReactionView::Stay,
        ),
        ui::handled(start, key(KeyCode::Home)) == (
            UiView { cursor: 0, ..start },
            ReactionView::Stay,
        ),
        ui::handled(start, key(KeyCode::End)) == (
            UiView { cursor: start.query.len() as int, ..start },
            ReactionView::Stay,
        ),
{
}

/// Backspace takes out the character before the cursor, Delete the one behind it,
/// and nothing else changes, whether control is held down or not.
pub proof fn law_taking_out(start: UiView, held: bool)
    requires
        start.wf(),
        start.state == State::Ask,
    ensures
        start.cursor > 0 ==> ui::handled(
            start,
            KeyEvent { code: KeyCode::Backspace, ctrl: held },
        ) == (
            UiView {
                query: start.query.take(start.cursor - 1) + start.query.skip(start.cursor),
                cursor: start.cursor - 1,
                ..start
            },
            ReactionView::Stay,
        ),
        start.cursor < start.query.len() ==> ui::handled(
            start,
            KeyEvent { code: KeyCode::Delete, ctrl: held },
        ) == (
            UiView {
                query: start.query.take(start.cursor) + start.query.skip(start.cursor + 1),
                ..start
            },
            ReactionView::Stay,
        ),
{
    if start.cursor > 0 {
        assert(start.query.remove(start.cursor - 1) == start.query.take(start.cursor - 1)
            + start.query.skip(start.cursor));
    }
    if start.cursor < start.query.len() {
        assert(start.query.remove(start.cursor) == start.query.take(start.cursor)
            + start.query.skip(start.cursor + 1));
    }
}

/// The keys that mean nothing change nothing: while the question is written, up,
/// down, unknown keys, control characters and unbound letters with control; while a
/// line is picked, every key without a meaning there.
pub proof fn law_keys_without_a_meaning(start: UiView, c: char)
    requires
        start.wf(),
    ensures
        start.state == State::Ask ==> {
            &&& ui::handled(start, key(KeyCode::Up)) == (start, ReactionView::Stay)
            &&& ui::handled(start, key(KeyCode::Down)) == (start, ReactionView::Stay)
            &&& ui::handled(start, key(KeyCode::Other)) == (start, ReactionView::Stay)
            &&& (c as u32) < 32 || 127 <= (c as u32) < 160 ==> ui::handled(
                start,
                key(KeyCode::Char(c)),
            ) == (start, ReactionView::Stay)
            &&& c != 'a' && c != 'b' && c != 'e' && c != 'f' && c != 'k' && c != 'u' && c != 'w'
                ==> ui::handled(start, ctrl(c)) == (start, ReactionView::Stay)
        },
        start.state == State::Browse ==> {
            &&& ui::handled(start, key(KeyCode::Left)) == (start, ReactionView::Stay)
            &&& ui::handled(start, key(KeyCode::Right)) == (start, ReactionView::Stay)
            &&& ui::handled(start, key(KeyCode::Home)) == (start, ReactionView::Stay)
            &&& ui::handled(start, key(KeyCode::End)) == (start, ReactionView::Stay)
            &&& ui::handled(start, key(KeyCode::Backspace)) == (start, ReactionView::Stay)
            &&& ui::handled(start, key(KeyCode::Delete)) == (start, ReactionView::Stay)
            &&& ui::handled(start, key(KeyCode::Other)) == (start, ReactionView::Stay)
            &&& c != 'j' && c != 'k' && c != 'e' && c != '/' ==> ui::handled(
                start,
                key(KeyCode::Char(c)),
            ) == (start, ReactionView::Stay)
            &&& c != 'n' && c != 'p' && c != 'a' && c != 'x' ==> ui::handled(start, ctrl(c)) == (
                start,
                ReactionView::Stay,
            )
        },
{
}

/// Control makes no difference to a key that is no character.
pub proof fn law_control_is_for_characters(start: UiView, code: KeyCode)
    requires
        !(code is Char),
    ensures
        ui::handled(start, KeyEvent { code, ctrl: true }) == ui::handled(
            start,
            KeyEvent { code, ctrl: false },
        ),
{
}

/// A question that is sent holds the system prompt and the query as it stands;
/// where the configuration wants it and there is one, the command line follows,
/// without the white space around it. The answer starts anew, and nothing else
/// changes.
pub proof fn law_question(start: UiView)
    requires
        start.wf(),
        start.state == State::Ask,
        text::trimmed(start.query).len() > 0,
    ensures
        ({
            let (end, reaction) = ui::handled(start, key(KeyCode::Enter));
            let context = text::trimmed(start.context);
            &&& end == (UiView {
                state: State::Stream,
                buffer: Seq::<char>::empty(),
                error: Seq::<char>::empty(),
                ..start
            })
            &&& reaction matches ReactionView::Send(chat)
            &&& chat.len() == 2
            &&& chat[0].role == Role::System
            &&& chat[0].content == start.cfg.prompt.system
            &&& chat[1].role == Role::User
            &&& start.cfg.prompt.include_context && context.len() > 0 ==> chat[1].content
                == start.query + "\n\n[current command line: "@ + context + "]"@
            &&& !start.cfg.prompt.include_context || context.len() == 0 ==> chat[1].content
                == start.query
        }),
{
}

/// Choosing changes the result alone, and moving the pick the pick alone.
pub proof fn law_choosing_changes_nothing_else(start: UiView)
    requires
        start.wf(),
        start.state == State::Browse,
    ensures
        ui::handled(start, key(KeyCode::Enter)) == (
            UiView { result: Some(start.lines[start.sel]), ..start },
            ReactionView::Leave,
        ),
        ui::handled(start, ctrl('x')) == (
            UiView { result: Some("__llmq_accept__:"@ + start.lines[start.sel]), ..start },
            ReactionView::Leave,
        ),
        ui::handled(start, ctrl('a')) == (
            UiView { result: Some(text::joined(start.lines, seq!['\n'])), ..start },
            ReactionView::Leave,
        ),
        ui::handled(start, key(KeyCode::Down)) == (
            UiView {
                sel: if start.sel + 1 < start.lines.len() { start.sel + 1 } else { start.sel },
                ..start
            },
            ReactionView::Stay,
        ),
        ui::handled(start, key(KeyCode::Up)) == (
            UiView { sel: if start.sel > 0 { start.sel - 1 } else { 0 }, ..start },
            ReactionView::Stay,
        ),
{
}

/// A piece of the answer is appended, an error replaces the one before, and the end
/// offers the lines of what has come in, the first of them picked; without any line
/// the user is back at the question. Whatever comes in leaves everything else as it
/// is.
pub proof fn law_messages(start: UiView, s: Seq<char>)
    ensures
        ui::received(start, MsgView::Chunk(s)) == (UiView { buffer: start.buffer + s, ..start }),
        ui::received(start, MsgView::Error(s)) == (UiView { error: s, ..start }),
        ui::received(start, MsgView::Done) == (UiView {
            lines: text::selectable(start.buffer),
            sel: 0,
            scroll: 0,
            state: if text::selectable(start.buffer).len() > 0 {
                State::Browse
            } else {
                State::Ask
            },
            ..start
        }),
{
}

/// Messages are taken one after the other.
pub proof fn law_message_by_message(start: UiView, msgs: Seq<MsgView>, msg: MsgView)
    ensures
        ui::pumped(start, Seq::<MsgView>::empty()) == start,
        ui::pumped(start, msgs.push(msg)) == ui::received(ui::pumped(start, msgs), msg),
        ui::pumped(start, seq![msg] + msgs) == ui::pumped(ui::received(start, msg), msgs),
{
    assert(msgs.push(msg).drop_last() == msgs);
    let one = seq![msg];
    assert(one.drop_last() == Seq::<MsgView>::empty());
    assert(ui::pumped(start, one) == ui::received(start, msg));
    law_batches(start, one, msgs);
}

/// Only a key that goes down counts, and it counts as that key.
pub proof fn law_events(start: UiView, k: KeyEvent)
    ensures
        ui::noticed(start, Event::Press(k)) == ui::handled(start, k),
        ui::noticed(start, Event::OtherKey(k)) == (start, ReactionView::Stay),
        ui::noticed(start, Event::Other) == (start, ReactionView::Stay),
{
}

/// The hint says what can be done in each state.
pub proof fn law_hints()
    ensures
        ui::hint_for(State::Ask) == " enter send · esc cancel "@,
        ui::hint_for(State::Stream) == " streaming… · esc abort "@,
        ui::hint_for(State::Browse)
            == " enter insert · ^a insert all · ^x insert+run · esc cancel "@,
{
}

} // verus!
