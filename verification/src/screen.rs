//! The picture: a box in the middle of the terminal, with the question on top,
//! the answer below it and a hint at the bottom.

use vstd::prelude::*;
use vstd::string::*;
use crate::config::UiCfgView;
use crate::text;
use crate::ui;
use crate::ui::{State, Ui, UiView};

verus! {

/// Below this the box has no room for a border, the question and one line of the
/// answer.
pub const MIN_W: usize = 30;

/// See `MIN_W`.
pub const MIN_H: usize = 6;

/// One step of painting.
#[derive(Debug)]
pub enum Paint {
    /// Hide the cursor.
    HideCursor,
    /// Show the cursor where it is.
    ShowCursor,
    /// Wipe the screen.
    Clear,
    /// Go to a column and a row.
    MoveTo(u16, u16),
    /// Write from there.
    Print(String),
    Bold,
    NotBold,
    Reverse,
    NotReverse,
}

/// What a `Paint` says.
pub enum PaintView {
    HideCursor,
    ShowCursor,
    Clear,
    MoveTo(int, int),
    Print(Seq<char>),
    Bold,
    NotBold,
    Reverse,
    NotReverse,
}

impl View for Paint {
    type V = PaintView;

    open spec fn view(&self) -> PaintView {
        match self {
            Paint::HideCursor => PaintView::HideCursor,
            Paint::ShowCursor => PaintView::ShowCursor,
            Paint::Clear => PaintView::Clear,
            Paint::MoveTo(x, y) => PaintView::MoveTo(*x as int, *y as int),
            Paint::Print(s) => PaintView::Print(s@),
            Paint::Bold => PaintView::Bold,
            Paint::NotBold => PaintView::NotBold,
            Paint::Reverse => PaintView::Reverse,
            Paint::NotReverse => PaintView::NotReverse,
        }
    }
}

/// What steps of painting say.
pub open spec fn paints(steps: Seq<Paint>) -> Seq<PaintView> {
    Seq::new(steps.len(), |i: int| steps[i]@)
}

/// Where the box stands.
pub struct Frame {
    pub top: int,
    pub left: int,
    pub height: int,
    pub width: int,
}

/// The box for a terminal of `w` columns and `h` rows: a share of it, at least
/// 40 by 8, but never more than the screen has.
pub open spec fn frame(cfg: UiCfgView, w: int, h: int) -> Frame {
    let width = text::least(
        text::greatest(40, w * (cfg.width_pct as int) / 100),
        text::greatest(MIN_W as int, w - 2),
    );
    let height = text::least(
        text::greatest(8, h * (cfg.height_pct as int) / 100),
        text::greatest(MIN_H as int, h - 2),
    );
    Frame { top: (h - height) / 2, left: (w - width) / 2, height, width }
}

/// The share of the box that text can fill.
pub open spec fn inner(f: Frame) -> int {
    f.width - 4
}

/// The rows of the box that the answer can fill.
pub open spec fn body_rows(f: Frame) -> int {
    f.height - 5
}

/// A horizontal line as wide as the inside of the box.
pub open spec fn bar(f: Frame) -> Seq<char> {
    text::copies('─', (f.width - 2) as nat)
}

/// The left and right border of the first `n` rows below the top.
pub open spec fn sides(f: Frame, n: int) -> Seq<PaintView>
    decreases n,
{
    if n <= 0 {
        seq![]
    } else {
        sides(f, n - 1) + seq![
            PaintView::MoveTo(f.left, f.top + n),
            PaintView::Print(seq!['│']),
            PaintView::MoveTo(f.left + f.width - 1, f.top + n),
            PaintView::Print(seq!['│']),
        ]
    }
}

/// The border.
pub open spec fn border(f: Frame) -> Seq<PaintView> {
    seq![
        PaintView::MoveTo(f.left, f.top),
        PaintView::Print(seq!['┌'] + bar(f) + seq!['┐']),
    ] + sides(f, f.height - 2) + seq![
        PaintView::MoveTo(f.left, f.top + f.height - 1),
        PaintView::Print(seq!['└'] + bar(f) + seq!['┘']),
    ]
}

/// The title, where it fits.
pub open spec fn title(ui: UiView, f: Frame) -> Seq<PaintView> {
    if ui.cfg.ui.title.len() < f.width - 4 {
        seq![
            PaintView::MoveTo(f.left + 2, f.top),
            PaintView::Bold,
            PaintView::Print(ui.cfg.ui.title),
            PaintView::NotBold,
        ]
    } else {
        seq![]
    }
}

/// What stands before the question.
pub open spec fn prompt(state: State) -> Seq<char> {
    if state == State::Ask {
        "ask> "@
    } else {
        "  q> "@
    }
}

/// How many characters of the question fit behind the five of the prompt.
pub open spec fn room(f: Frame) -> int {
    text::monus(inner(f), 5)
}

/// The first character of the question that is shown: far enough on that the
/// cursor stays visible.
pub open spec fn shown_from(ui: UiView, f: Frame) -> int {
    text::monus(ui.cursor, room(f))
}

/// The part of the question that is shown.
pub open spec fn shown(ui: UiView, f: Frame) -> Seq<char> {
    ui.query.subrange(
        shown_from(ui, f),
        text::least(shown_from(ui, f) + room(f), ui.query.len() as int),
    )
}

/// The question, and the line below it.
pub open spec fn question_row(ui: UiView, f: Frame) -> Seq<PaintView> {
    seq![
        PaintView::MoveTo(f.left + 2, f.top + 1),
        PaintView::Bold,
        PaintView::Print(text::clipped(prompt(ui.state) + shown(ui, f), inner(f))),
        PaintView::NotBold,
        PaintView::MoveTo(f.left + 1, f.top + 2),
        PaintView::Print(bar(f)),
    ]
}

/// The first `n` rows of an error.
pub open spec fn error_rows(f: Frame, rows: Seq<Seq<char>>, n: int) -> Seq<PaintView>
    decreases n,
{
    if n <= 0 {
        seq![]
    } else {
        error_rows(f, rows, n - 1) + seq![
            PaintView::MoveTo(f.left + 2, f.top + 3 + (n - 1)),
            PaintView::Bold,
            PaintView::Print(rows[n - 1]),
            PaintView::NotBold,
        ]
    }
}

/// The rows that the lines take, one line after the other.
pub open spec fn rows_of(lines: Seq<Seq<char>>, width: int) -> Seq<Seq<char>>
    decreases lines.len(),
{
    if lines.len() == 0 {
        seq![]
    } else {
        rows_of(lines.drop_last(), width) + text::wrapped(lines.last(), width)
    }
}

/// The rows that the answer so far takes.
pub open spec fn stream_source(ui: UiView, f: Frame) -> Seq<Seq<char>> {
    if ui.buffer.len() == 0 {
        rows_of(seq![seq![]], inner(f))
    } else {
        rows_of(text::lines_of(ui.buffer), inner(f))
    }
}

/// The first `n` rows of an answer that comes in.
pub open spec fn stream_rows(f: Frame, rows: Seq<Seq<char>>, n: int) -> Seq<PaintView>
    decreases n,
{
    if n <= 0 {
        seq![]
    } else {
        stream_rows(f, rows, n - 1) + seq![
            PaintView::MoveTo(f.left + 2, f.top + 3 + (n - 1)),
            PaintView::Print(text::clipped(rows[n - 1], inner(f))),
        ]
    }
}

/// The first row of the line at `i`.
pub open spec fn first_row(lines: Seq<Seq<char>>, i: int, width: int) -> int {
    rows_of(lines.take(i), width).len() as int
}

/// The last row of the line at `i`.
pub open spec fn last_row(lines: Seq<Seq<char>>, i: int, width: int) -> int {
    first_row(lines, i + 1, width) - 1
}

/// Where the rows start that are shown: as before where the picked line is
/// visible then, else so that it comes into view.
pub open spec fn scrolled(ui: UiView, f: Frame) -> int {
    let first = first_row(ui.lines, ui.sel, inner(f));
    let last = last_row(ui.lines, ui.sel, inner(f));
    let up = text::least(first, ui.scroll);
    if last >= up + body_rows(f) {
        last + 1 - body_rows(f)
    } else {
        up
    }
}

/// One row of the lines to pick from, `n` rows below the top of the answer.
pub open spec fn pick_row(f: Frame, row: Seq<char>, picked: bool, n: int) -> Seq<PaintView> {
    let at = PaintView::MoveTo(f.left + 2, f.top + 3 + n);
    let what = PaintView::Print(text::padded(row, inner(f)));
    if picked {
        seq![PaintView::Reverse, at, what, PaintView::NotReverse]
    } else {
        seq![at, what]
    }
}

/// The first `n` of the rows to pick from that are shown.
pub open spec fn pick_rows(ui: UiView, f: Frame, from: int, n: int) -> Seq<PaintView>
    decreases n,
{
    if n <= 0 {
        seq![]
    } else {
        let i = from + n - 1;
        let first = first_row(ui.lines, ui.sel, inner(f));
        let last = last_row(ui.lines, ui.sel, inner(f));
        pick_rows(ui, f, from, n - 1) + pick_row(
            f,
            rows_of(ui.lines, inner(f))[i],
            first <= i <= last,
            n - 1,
        )
    }
}

/// The answer: an error comes first; else the end of what has come in, or the
/// lines to pick from.
pub open spec fn body(ui: UiView, f: Frame) -> Seq<PaintView> {
    if ui.error.len() > 0 {
        let rows = text::wrapped(ui.error, inner(f));
        error_rows(f, rows, text::least(rows.len() as int, body_rows(f)))
    } else if ui.state == State::Stream {
        let rows = stream_source(ui, f);
        let from = text::monus(rows.len() as int, body_rows(f));
        stream_rows(f, rows.skip(from), rows.len() - from)
    } else if ui.state == State::Browse {
        let total = rows_of(ui.lines, inner(f)).len() as int;
        let from = scrolled(ui, f);
        pick_rows(ui, f, from, text::least(text::monus(total, from), body_rows(f)))
    } else {
        seq![]
    }
}

/// The line below the answer, with the hint on it.
pub open spec fn footer(ui: UiView, f: Frame) -> Seq<PaintView> {
    seq![
        PaintView::MoveTo(f.left + 1, f.top + f.height - 2),
        PaintView::Print(bar(f)),
        PaintView::MoveTo(f.left + 2, f.top + f.height - 2),
        PaintView::Print(text::clipped(ui::hint_for(ui.state), inner(f))),
    ]
}

/// The column of the cursor, from the left of the box.
pub open spec fn caret_column(ui: UiView, f: Frame) -> int {
    text::least(2 + 5 + (ui.cursor - shown_from(ui, f)), f.width - 2)
}

/// The cursor, while the question is written.
pub open spec fn caret(ui: UiView, f: Frame) -> Seq<PaintView> {
    if ui.state == State::Ask {
        seq![
            PaintView::MoveTo(f.left + caret_column(ui, f), f.top + 1),
            PaintView::ShowCursor,
        ]
    } else {
        seq![]
    }
}

/// Whether the terminal has room for the box.
pub open spec fn fits(w: int, h: int) -> bool {
    w >= MIN_W && h >= MIN_H
}

/// The whole picture.
pub open spec fn picture(ui: UiView, w: int, h: int) -> Seq<PaintView> {
    let start = seq![PaintView::HideCursor, PaintView::Clear];
    if !fits(w, h) {
        start + seq![
            PaintView::MoveTo(0, 0),
            PaintView::Print(text::clipped("llmq: terminal too small"@, text::monus(w, 1))),
        ]
    } else {
        let f = frame(ui.cfg.ui, w, h);
        start + border(f) + title(ui, f) + question_row(ui, f) + body(ui, f) + footer(ui, f)
            + caret(ui, f)
    }
}

/// What painting changes: where the rows start that are shown.
pub open spec fn painted(ui: UiView, w: int, h: int) -> UiView {
    if fits(w, h) && ui.error.len() == 0 && ui.state == State::Browse {
        UiView { scroll: scrolled(ui, frame(ui.cfg.ui, w, h)), ..ui }
    } else {
        ui
    }
}

/// The box is on the screen, in the middle of it, and has room for everything
/// that stands in it.
pub proof fn law_box_on_the_screen(cfg: UiCfgView, w: int, h: int)
    requires
        fits(w, h),
    ensures
        ({
            let f = frame(cfg, w, h);
            &&& MIN_W <= f.width <= w
            &&& MIN_H <= f.height <= h
            &&& 0 <= f.left
            &&& 0 <= f.top
            &&& 0 <= (w - f.width - f.left) - f.left <= 1
            &&& 0 <= (h - f.height - f.top) - f.top <= 1
        }),
{
}

/// Where the box stands.
#[derive(Debug, Clone, Copy)]
struct Place {
    x: u16,
    y: u16,
    width: usize,
    height: usize,
}

impl Place {
    /// Where the box stands.
    spec fn frame(self) -> Frame {
        Frame {
            top: self.y as int,
            left: self.x as int,
            height: self.height as int,
            width: self.width as int,
        }
    }

    /// Whether the box is on a screen that `u16` can count.
    spec fn wf(self) -> bool {
        &&& MIN_W <= self.width
        &&& MIN_H <= self.height
        &&& self.x + self.width <= u16::MAX
        &&& self.y + self.height <= u16::MAX
    }
}

/// Adds a step.
fn put(out: &mut Vec<Paint>, step: Paint)
    ensures
        paints(final(out)@) == paints(old(out)@).push(step@),
{
    let ghost before = paints(out@);
    out.push(step);
    assert(paints(out@) == before.push(step@));
}

/// Goes to a column and a row.
fn go(out: &mut Vec<Paint>, x: u16, y: u16)
    ensures
        paints(final(out)@) == paints(old(out)@).push(PaintView::MoveTo(x as int, y as int)),
{
    put(out, Paint::MoveTo(x, y));
}

/// Writes a text.
fn print(out: &mut Vec<Paint>, what: String)
    ensures
        paints(final(out)@) == paints(old(out)@).push(PaintView::Print(what@)),
{
    put(out, Paint::Print(what));
}

/// A horizontal line between two corners.
fn edge(from: char, width: usize, to: char) -> (r: String)
    requires
        width >= 2,
    ensures
        r@ == seq![from] + text::copies('─', (width - 2) as nat) + seq![to],
{
    let mut out = String::new();
    out.push(from);
    out.append(text::repeat('─', width - 2).as_str());
    out.push(to);
    assert(out@ == seq![from] + text::copies('─', (width - 2) as nat) + seq![to]);
    out
}

/// Paints the border.
fn paint_border(out: &mut Vec<Paint>, p: Place)
    requires
        p.wf(),
    ensures
        paints(final(out)@) == paints(old(out)@) + border(p.frame()),
{
    let ghost f = p.frame();
    let ghost before = paints(out@);
    go(out, p.x, p.y);
    print(out, edge('┌', p.width, '┐'));
    let ghost top = seq![
        PaintView::MoveTo(f.left, f.top),
        PaintView::Print(seq!['┌'] + bar(f) + seq!['┐']),
    ];
    assert(paints(out@) == before + top);
    assert(top + sides(f, 0) == top);
    let mut row: usize = 1;
    while row < p.height - 1
        invariant
            p.wf(),
            f == p.frame(),
            1 <= row <= p.height - 1,
            paints(out@) == before + (top + sides(f, row - 1)),
        decreases p.height - row,
    {
        go(out, p.x, p.y + row as u16);
        let mut left = String::new();
        left.push('│');
        assert(left@ == seq!['│']);
        print(out, left);
        go(out, p.x + (p.width - 1) as u16, p.y + row as u16);
        let mut right = String::new();
        right.push('│');
        assert(right@ == seq!['│']);
        print(out, right);
        assert(paints(out@) == before + (top + sides(f, row as int)));
        row = row + 1;
    }
    go(out, p.x, p.y + (p.height - 1) as u16);
    print(out, edge('└', p.width, '┘'));
    assert(paints(out@) == before + border(f));
}

/// Paints the first rows of an error.
fn paint_error(out: &mut Vec<Paint>, p: Place, error: &str)
    requires
        p.wf(),
    ensures
        paints(final(out)@) == paints(old(out)@) + ({
            let rows = text::wrapped(error@, inner(p.frame()));
            error_rows(p.frame(), rows, text::least(rows.len() as int, body_rows(p.frame())))
        }),
{
    let ghost f = p.frame();
    let ghost before = paints(out@);
    let rows = text::wrap(error, p.width - 4);
    let ghost all = text::texts(rows@);
    let mut i: usize = 0;
    assert(before + error_rows(f, all, 0) == before);
    while i < rows.len() && i < p.height - 5
        invariant
            p.wf(),
            f == p.frame(),
            all == text::texts(rows@),
            i <= rows@.len(),
            i <= p.height - 5,
            paints(out@) == before + error_rows(f, all, i as int),
        decreases rows@.len() - i,
    {
        go(out, p.x + 2, p.y + 3 + i as u16);
        put(out, Paint::Bold);
        print(out, rows[i].clone());
        put(out, Paint::NotBold);
        assert(paints(out@) == before + error_rows(f, all, i + 1));
        i = i + 1;
    }
}

/// The rows that the lines take.
fn wrap_all(lines: &Vec<String>, width: usize) -> (r: Vec<String>)
    ensures
        text::texts(r@) == rows_of(text::texts(lines@), width as int),
{
    let ghost all = text::texts(lines@);
    let mut out: Vec<String> = Vec::new();
    let mut i: usize = 0;
    assert(text::texts(out@) == rows_of(all.take(0), width as int));
    while i < lines.len()
        invariant
            all == text::texts(lines@),
            i <= lines@.len(),
            text::texts(out@) == rows_of(all.take(i as int), width as int),
        decreases lines@.len() - i,
    {
        let ghost before = text::texts(out@);
        let mut rows = text::wrap(lines[i].as_str(), width);
        let ghost more = text::texts(rows@);
        out.append(&mut rows);
        assert(text::texts(out@) == before + more);
        assert(all.take(i + 1).drop_last() == all.take(i as int));
        assert(all.take(i + 1).last() == lines@[i as int]@);
        i = i + 1;
    }
    assert(all.take(i as int) == all);
    out
}

/// Paints the end of an answer that comes in.
fn paint_stream(out: &mut Vec<Paint>, p: Place, buffer: &str)
    requires
        p.wf(),
    ensures
        paints(final(out)@) == paints(old(out)@) + ({
            let f = p.frame();
            let rows = if buffer@.len() == 0 {
                rows_of(seq![seq![]], inner(f))
            } else {
                rows_of(text::lines_of(buffer@), inner(f))
            };
            let from = text::monus(rows.len() as int, body_rows(f));
            stream_rows(f, rows.skip(from), rows.len() - from)
        }),
{
    let ghost f = p.frame();
    let ghost before = paints(out@);
    let lines: Vec<String> = if buffer.is_empty() {
        let mut one: Vec<String> = Vec::new();
        one.push(String::new());
        assert(text::texts(one@) == seq![Seq::<char>::empty()]);
        one
    } else {
        text::split_lines(buffer)
    };
    let rows = wrap_all(&lines, p.width - 4);
    let ghost all = text::texts(rows@);
    let total: usize = rows.len();
    let from: usize = if total > p.height - 5 {
        total - (p.height - 5)
    } else {
        0
    };
    let ghost end = all.skip(from as int);
    let count: usize = total - from;
    let mut i: usize = 0;
    assert(before + stream_rows(f, end, 0) == before);
    while i < count
        invariant
            p.wf(),
            f == p.frame(),
            all == text::texts(rows@),
            end == all.skip(from as int),
            i <= count <= p.height - 5,
            from + count == total == rows@.len(),
            paints(out@) == before + stream_rows(f, end, i as int),
        decreases count - i,
    {
        assert(end[i as int] == rows@[from + i]@);
        go(out, p.x + 2, p.y + 3 + i as u16);
        print(out, text::clip(rows[from + i].as_str(), p.width - 4));
        assert(paints(out@) == before + stream_rows(f, end, i + 1));
        i = i + 1;
    }
}

impl Ui {
    /// Where the box stands, and how large it is: top, left, height, width.
    pub fn geom(&self, w: usize, h: usize) -> (r: (usize, usize, usize, usize))
        requires
            fits(w as int, h as int),
            w * self.cfg.ui.width_pct <= usize::MAX,
            h * self.cfg.ui.height_pct <= usize::MAX,
        ensures
            (Frame { top: r.0 as int, left: r.1 as int, height: r.2 as int, width: r.3 as int })
                == frame(self@.cfg.ui, w as int, h as int),
    {
        // The screen comes last: a floor of 40 columns on a terminal of 38 would
        // put the box off the edge.
        let share: usize = w * (self.cfg.ui.width_pct as usize) / 100;
        let wanted: usize = if share > 40 {
            share
        } else {
            40
        };
        let most: usize = if w - 2 > MIN_W {
            w - 2
        } else {
            MIN_W
        };
        let width: usize = if wanted < most {
            wanted
        } else {
            most
        };
        let share: usize = h * (self.cfg.ui.height_pct as usize) / 100;
        let wanted: usize = if share > 8 {
            share
        } else {
            8
        };
        let most: usize = if h - 2 > MIN_H {
            h - 2
        } else {
            MIN_H
        };
        let height: usize = if wanted < most {
            wanted
        } else {
            most
        };
        ((h - height) / 2, (w - width) / 2, height, width)
    }

    /// Paints the title.
    fn paint_title(&self, out: &mut Vec<Paint>, p: Place)
        requires
            p.wf(),
        ensures
            paints(final(out)@) == paints(old(out)@) + title(self@, p.frame()),
    {
        let ghost before = paints(out@);
        if self.cfg.ui.title.as_str().unicode_len() < p.width - 4 {
            go(out, p.x + 2, p.y);
            put(out, Paint::Bold);
            print(out, self.cfg.ui.title.clone());
            put(out, Paint::NotBold);
        }
        assert(paints(out@) == before + title(self@, p.frame()));
    }

    /// The first character of the question that is shown.
    fn visible_from(&self, p: Place) -> (r: usize)
        requires
            p.wf(),
            self@.wf(),
        ensures
            r == shown_from(self@, p.frame()),
    {
        let room: usize = p.width - 4 - 5;
        if self.cursor > room {
            self.cursor - room
        } else {
            0
        }
    }

    /// Paints the question.
    fn paint_question(&self, out: &mut Vec<Paint>, p: Place)
        requires
            p.wf(),
            self@.wf(),
        ensures
            paints(final(out)@) == paints(old(out)@) + question_row(self@, p.frame()),
    {
        let ghost before = paints(out@);
        let prompt = if self.state == State::Ask {
            "ask> "
        } else {
            "  q> "
        };
        let room: usize = p.width - 4 - 5;
        let from: usize = self.visible_from(p);
        let len: usize = self.query.as_str().unicode_len();
        let to: usize = if len - from > room {
            from + room
        } else {
            len
        };
        let row = text::concat(prompt, self.query.as_str().substring_char(from, to));
        go(out, p.x + 2, p.y + 1);
        put(out, Paint::Bold);
        print(out, text::clip(row.as_str(), p.width - 4));
        put(out, Paint::NotBold);
        go(out, p.x + 1, p.y + 2);
        print(out, text::repeat('─', p.width - 2));
        assert(paints(out@) == before + question_row(self@, p.frame()));
    }

    /// Paints the lines to pick from, and scrolls to the one that is picked.
    fn paint_lines(&mut self, out: &mut Vec<Paint>, p: Place)
        requires
            p.wf(),
            old(self)@.wf(),
            old(self)@.state == State::Browse,
        ensures
            final(self)@ == (UiView { scroll: scrolled(old(self)@, p.frame()), ..old(self)@ }),
            paints(final(out)@) == paints(old(out)@) + ({
                let f = p.frame();
                let total = rows_of(old(self)@.lines, inner(f)).len() as int;
                let from = scrolled(old(self)@, f);
                pick_rows(
                    old(self)@,
                    f,
                    from,
                    text::least(text::monus(total, from), body_rows(f)),
                )
            }),
    {
        let ghost f = p.frame();
        let ghost before = paints(out@);
        let ghost start = self@;
        let body: usize = p.height - 5;
        let rows = wrap_all(&self.lines, p.width - 4);
        let ghost all = text::texts(rows@);
        let (first, last): (usize, usize) = self.picked_rows(p.width - 4);
        if first < self.scroll {
            self.scroll = first;
        }
        if last >= self.scroll && last - self.scroll >= body {
            self.scroll = last - body + 1;
        }
        assert(self@.scroll == scrolled(start, f));
        let from: usize = self.scroll;
        let mut i: usize = 0;
        assert(before + pick_rows(start, f, from as int, 0) == before);
        while i < body && from < rows.len() && i < rows.len() - from
            invariant
                p.wf(),
                f == p.frame(),
                body == p.height - 5,
                all == text::texts(rows@),
                all == rows_of(start.lines, inner(f)),
                first == first_row(start.lines, start.sel, inner(f)),
                last == last_row(start.lines, start.sel, inner(f)),
                i <= body,
                from <= rows@.len() ==> i <= rows@.len() - from,
                from > rows@.len() ==> i == 0,
                paints(out@) == before + pick_rows(start, f, from as int, i as int),
            decreases body - i,
        {
            let n: usize = from + i;
            let picked: bool = first <= n && n <= last;
            if picked {
                put(out, Paint::Reverse);
            }
            go(out, p.x + 2, p.y + 3 + i as u16);
            print(out, text::pad_clip(rows[n].as_str(), p.width - 4));
            if picked {
                put(out, Paint::NotReverse);
            }
            assert(paints(out@) == before + pick_rows(start, f, from as int, i + 1));
            i = i + 1;
        }
    }

    /// The first and the last row of the line that is picked.
    fn picked_rows(&self, width: usize) -> (r: (usize, usize))
        requires
            self@.wf(),
            self@.state == State::Browse,
            width >= 4,
        ensures
            r.0 == first_row(self@.lines, self@.sel, width as int),
            r.1 == last_row(self@.lines, self@.sel, width as int),
            r.0 <= r.1,
    {
        let ghost all = self@.lines;
        let mut before: Vec<String> = Vec::new();
        let mut i: usize = 0;
        assert(text::texts(before@) == rows_of(all.take(0), width as int));
        while i < self.sel
            invariant
                all == text::texts(self.lines@),
                i <= self.sel < self.lines@.len(),
                text::texts(before@) == rows_of(all.take(i as int), width as int),
            decreases self.sel - i,
        {
            let ghost had = text::texts(before@);
            let mut rows = text::wrap(self.lines[i].as_str(), width);
            let ghost more = text::texts(rows@);
            before.append(&mut rows);
            assert(text::texts(before@) == had + more);
            assert(all.take(i + 1).drop_last() == all.take(i as int));
            assert(all.take(i + 1).last() == all[i as int]);
            i = i + 1;
        }
        let first: usize = before.len();
        let ghost had = text::texts(before@);
        let mut rows = text::wrap(self.lines[i].as_str(), width);
        let ghost more = text::texts(rows@);
        before.append(&mut rows);
        proof {
            assert(text::texts(before@) == had + more);
            assert(all.take(i + 1).drop_last() == all.take(i as int));
            assert(all.take(i + 1).last() == all[i as int]);
            crate::text_laws::law_wrapped_rows_fit(all[i as int], width as int);
        }
        (first, before.len() - 1)
    }

    /// Paints the answer.
    fn paint_body(&mut self, out: &mut Vec<Paint>, p: Place)
        requires
            p.wf(),
            old(self)@.wf(),
        ensures
            final(self)@ == (if old(self)@.error.len() == 0 && old(self)@.state == State::Browse {
                UiView { scroll: scrolled(old(self)@, p.frame()), ..old(self)@ }
            } else {
                old(self)@
            }),
            paints(final(out)@) == paints(old(out)@) + body(old(self)@, p.frame()),
    {
        let ghost before = paints(out@);
        if !self.error.as_str().is_empty() {
            paint_error(out, p, self.error.as_str());
        } else if self.state == State::Stream {
            paint_stream(out, p, self.buffer.as_str());
        } else if self.state == State::Browse {
            self.paint_lines(out, p);
        } else {
            assert(before + body(self@, p.frame()) == before);
        }
    }

    /// Paints the line below the answer, and the hint.
    fn paint_footer(&self, out: &mut Vec<Paint>, p: Place)
        requires
            p.wf(),
        ensures
            paints(final(out)@) == paints(old(out)@) + footer(self@, p.frame()),
    {
        let ghost before = paints(out@);
        let y: u16 = p.y + (p.height - 2) as u16;
        go(out, p.x + 1, y);
        print(out, text::repeat('─', p.width - 2));
        go(out, p.x + 2, y);
        print(out, text::clip(self.hint(), p.width - 4));
        assert(paints(out@) == before + footer(self@, p.frame()));
    }

    /// Paints the cursor.
    fn paint_caret(&self, out: &mut Vec<Paint>, p: Place)
        requires
            p.wf(),
            self@.wf(),
        ensures
            paints(final(out)@) == paints(old(out)@) + caret(self@, p.frame()),
    {
        let ghost before = paints(out@);
        if self.state == State::Ask {
            let past: usize = self.cursor - self.visible_from(p);
            let column: usize = if 2 + 5 + past < p.width - 2 {
                2 + 5 + past
            } else {
                p.width - 2
            };
            go(out, p.x + column as u16, p.y + 1);
            put(out, Paint::ShowCursor);
        }
        assert(paints(out@) == before + caret(self@, p.frame()));
    }

    /// Paints everything on a terminal of `w` columns and `h` rows.
    pub fn draw(&mut self, w: u16, h: u16) -> (r: Vec<Paint>)
        requires
            old(self)@.wf(),
        ensures
            paints(r@) == picture(old(self)@, w as int, h as int),
            final(self)@ == painted(old(self)@, w as int, h as int),
            final(self)@.wf(),
    {
        let ghost start = self@;
        let mut out: Vec<Paint> = Vec::new();
        put(&mut out, Paint::HideCursor);
        put(&mut out, Paint::Clear);
        assert(paints(out@) == seq![PaintView::HideCursor, PaintView::Clear]);
        let (cols, rows): (usize, usize) = (w as usize, h as usize);
        if cols < MIN_W || rows < MIN_H {
            let room: usize = if cols > 0 {
                cols - 1
            } else {
                0
            };
            go(&mut out, 0, 0);
            print(&mut out, text::clip("llmq: terminal too small", room));
            assert(paints(out@) == picture(start, w as int, h as int));
            return out;
        }
        proof {
            law_box_on_the_screen(self@.cfg.ui, w as int, h as int);
            lemma_share(cols, self.cfg.ui.width_pct);
            lemma_share(rows, self.cfg.ui.height_pct);
        }
        let (top, left, height, width): (usize, usize, usize, usize) = self.geom(cols, rows);
        let p = Place { x: left as u16, y: top as u16, width, height };
        assert(p.frame() == frame(start.cfg.ui, w as int, h as int));
        paint_border(&mut out, p);
        self.paint_title(&mut out, p);
        self.paint_question(&mut out, p);
        self.paint_body(&mut out, p);
        self.paint_footer(&mut out, p);
        self.paint_caret(&mut out, p);
        out
    }
}

/// The share of a screen that `u16` can count does not overflow.
proof fn lemma_share(size: usize, pct: u16)
    requires
        size <= u16::MAX,
    ensures
        size * pct <= 65535 * 65535,
{
    assert(size * pct <= 65535 * 65535) by (nonlinear_arith)
        requires
            size <= 65535,
            pct <= 65535,
    ;
}

} // verus!
