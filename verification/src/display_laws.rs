//! What a terminal shows once the picture is painted: every cell of it, and the
//! cursor.

use vstd::prelude::*;
use crate::config::UiCfgView;
use crate::screen;
use crate::screen::{Frame, PaintView};
use crate::screen_laws;
use crate::text;
use crate::text_laws;
use crate::ui;
use crate::ui::{State, UiView};

verus! {

/// A character on the screen, and how it looks.
pub struct Cell {
    pub c: char,
    pub bold: bool,
    pub reverse: bool,
}

/// Whether text is bold after the first `n` steps.
pub open spec fn bold_after(steps: Seq<PaintView>, n: int) -> bool
    decreases n,
{
    n > 0 && match steps[n - 1] {
        PaintView::Bold => true,
        PaintView::NotBold => false,
        _ => bold_after(steps, n - 1),
    }
}

/// Whether text is in reverse after the first `n` steps.
pub open spec fn reverse_after(steps: Seq<PaintView>, n: int) -> bool
    decreases n,
{
    n > 0 && match steps[n - 1] {
        PaintView::Reverse => true,
        PaintView::NotReverse => false,
        _ => reverse_after(steps, n - 1),
    }
}

/// Whether the cursor shows after the first `n` steps.
pub open spec fn cursor_after(steps: Seq<PaintView>, n: int) -> bool
    decreases n,
{
    n > 0 && match steps[n - 1] {
        PaintView::ShowCursor => true,
        PaintView::HideCursor => false,
        _ => cursor_after(steps, n - 1),
    }
}

/// What the cell in column `x` and row `y` shows after the first `n` steps.
pub open spec fn cell_after(steps: Seq<PaintView>, n: int, x: int, y: int) -> Option<Cell>
    decreases n,
{
    if n <= 0 {
        None
    } else {
        match steps[n - 1] {
            PaintView::Clear => None,
            PaintView::Print(s) => match screen_laws::place(steps, n - 1) {
                Some(at) => if at.1 == y && at.0 <= x < at.0 + s.len() {
                    Some(
                        Cell {
                            c: s[x - at.0],
                            bold: bold_after(steps, n - 1),
                            reverse: reverse_after(steps, n - 1),
                        },
                    )
                } else {
                    cell_after(steps, n - 1, x, y)
                },
                None => cell_after(steps, n - 1, x, y),
            },
            _ => cell_after(steps, n - 1, x, y),
        }
    }
}

/// What the cell in column `x` and row `y` shows in the end.
pub open spec fn cell(steps: Seq<PaintView>, x: int, y: int) -> Option<Cell> {
    cell_after(steps, steps.len() as int, x, y)
}

/// A cell that is neither bold nor in reverse.
pub open spec fn plain(c: char) -> Option<Cell> {
    Some(Cell { c, bold: false, reverse: false })
}

/// A cell that is bold.
pub open spec fn bold(c: char) -> Option<Cell> {
    Some(Cell { c, bold: true, reverse: false })
}

/// Whether the style is back to normal in the end.
spec fn settled(steps: Seq<PaintView>) -> bool {
    !bold_after(steps, steps.len() as int) && !reverse_after(steps, steps.len() as int)
}

/// Whether steps wipe nothing, and each text has a place of its own.
spec fn tame(steps: Seq<PaintView>) -> bool {
    forall|i: int|
        #![trigger steps[i]]
        0 <= i < steps.len() ==> !(steps[i] is Clear) && (steps[i] is Print ==> screen_laws::place(
            steps,
            i,
        ) is Some)
}

/// What is on top where it is painted, else what is below.
spec fn over(below: Option<Cell>, above: Option<Cell>) -> Option<Cell> {
    if above is Some {
        above
    } else {
        below
    }
}

proof fn lemma_front(a: Seq<PaintView>, b: Seq<PaintView>, n: int, x: int, y: int)
    requires
        0 <= n <= a.len(),
    ensures
        cell_after(a + b, n, x, y) == cell_after(a, n, x, y),
        bold_after(a + b, n) == bold_after(a, n),
        reverse_after(a + b, n) == reverse_after(a, n),
        cursor_after(a + b, n) == cursor_after(a, n),
    decreases n,
{
    if n > 0 {
        lemma_front(a, b, n - 1, x, y);
        assert((a + b)[n - 1] == a[n - 1]);
        screen_laws::lemma_place_front(a, b, n - 1);
    }
}

proof fn lemma_back(a: Seq<PaintView>, b: Seq<PaintView>, n: int, x: int, y: int)
    requires
        0 <= n <= b.len(),
        settled(a),
        tame(b),
    ensures
        cell_after(a + b, a.len() + n, x, y) == over(cell(a, x, y), cell_after(b, n, x, y)),
        bold_after(a + b, a.len() + n) == bold_after(b, n),
        reverse_after(a + b, a.len() + n) == reverse_after(b, n),
    decreases n,
{
    lemma_front(a, b, a.len() as int, x, y);
    if n > 0 {
        lemma_back(a, b, n - 1, x, y);
        assert((a + b)[a.len() + n - 1] == b[n - 1]);
        if b[n - 1] is Print {
            screen_laws::lemma_place_back(a, b, n - 1);
        }
    }
}

/// One part of a picture after the other.
proof fn lemma_add(a: Seq<PaintView>, b: Seq<PaintView>, x: int, y: int)
    requires
        settled(a),
        settled(b),
        tame(b),
    ensures
        cell(a + b, x, y) == over(cell(a, x, y), cell(b, x, y)),
        settled(a + b),
{
    lemma_back(a, b, b.len() as int, x, y);
}

proof fn lemma_tame_add(a: Seq<PaintView>, b: Seq<PaintView>)
    requires
        tame(a),
        tame(b),
    ensures
        tame(a + b),
{
    let c = a + b;
    assert forall|i: int|
        #![trigger c[i]]
        0 <= i < c.len() implies !(c[i] is Clear) && (c[i] is Print ==> screen_laws::place(
        c,
        i,
    ) is Some) by {
        if i < a.len() {
            assert(c[i] == a[i]);
            screen_laws::lemma_place_front(a, b, i);
        } else {
            assert(c[i] == b[i - a.len()]);
            if c[i] is Print {
                screen_laws::lemma_place_back(a, b, i - a.len());
            }
        }
    }
}

/// What a text that is written at a place looks like.
spec fn ink(
    x0: int,
    y0: int,
    s: Seq<char>,
    bold: bool,
    reverse: bool,
    x: int,
    y: int,
) -> Option<Cell> {
    if y == y0 && x0 <= x < x0 + s.len() {
        Some(Cell { c: s[x - x0], bold, reverse })
    } else {
        None
    }
}

proof fn lemma_write(x0: int, y0: int, s: Seq<char>, x: int, y: int)
    ensures
        ({
            let b = seq![PaintView::MoveTo(x0, y0), PaintView::Print(s)];
            tame(b) && settled(b) && cell(b, x, y) == ink(x0, y0, s, false, false, x, y)
        }),
{
    let b = seq![PaintView::MoveTo(x0, y0), PaintView::Print(s)];
    assert(b[0] == PaintView::MoveTo(x0, y0) && b[1] == PaintView::Print(s));
    assert(screen_laws::place(b, 1) == Some((x0, y0)));
    assert(cell_after(b, 0, x, y) is None);
    assert(cell_after(b, 1, x, y) is None);
    assert(!bold_after(b, 0) && !reverse_after(b, 0));
    assert(!bold_after(b, 1) && !reverse_after(b, 1));
}

proof fn lemma_write_bold(x0: int, y0: int, s: Seq<char>, x: int, y: int)
    ensures
        ({
            let b = seq![
                PaintView::MoveTo(x0, y0),
                PaintView::Bold,
                PaintView::Print(s),
                PaintView::NotBold,
            ];
            tame(b) && settled(b) && cell(b, x, y) == ink(x0, y0, s, true, false, x, y)
        }),
{
    let b = seq![
        PaintView::MoveTo(x0, y0),
        PaintView::Bold,
        PaintView::Print(s),
        PaintView::NotBold,
    ];
    assert(b[0] == PaintView::MoveTo(x0, y0) && b[1] == PaintView::Bold && b[2]
        == PaintView::Print(s) && b[3] == PaintView::NotBold);
    assert(screen_laws::place(b, 1) == Some((x0, y0)));
    assert(screen_laws::place(b, 2) == Some((x0, y0)));
    assert(cell_after(b, 0, x, y) is None);
    assert(cell_after(b, 1, x, y) is None);
    assert(cell_after(b, 2, x, y) is None);
    assert(!reverse_after(b, 0));
    assert(!reverse_after(b, 1));
    assert(!reverse_after(b, 2) && bold_after(b, 2));
    assert(!reverse_after(b, 3));
    assert(cell_after(b, 3, x, y) == ink(x0, y0, s, true, false, x, y));
}

proof fn lemma_write_reverse(x0: int, y0: int, s: Seq<char>, x: int, y: int)
    ensures
        ({
            let b = seq![
                PaintView::Reverse,
                PaintView::MoveTo(x0, y0),
                PaintView::Print(s),
                PaintView::NotReverse,
            ];
            tame(b) && settled(b) && cell(b, x, y) == ink(x0, y0, s, false, true, x, y)
        }),
{
    let b = seq![
        PaintView::Reverse,
        PaintView::MoveTo(x0, y0),
        PaintView::Print(s),
        PaintView::NotReverse,
    ];
    assert(b[0] == PaintView::Reverse && b[1] == PaintView::MoveTo(x0, y0) && b[2]
        == PaintView::Print(s) && b[3] == PaintView::NotReverse);
    assert(screen_laws::place(b, 2) == Some((x0, y0)));
    assert(cell_after(b, 0, x, y) is None);
    assert(cell_after(b, 1, x, y) is None);
    assert(cell_after(b, 2, x, y) is None);
    assert(!bold_after(b, 0));
    assert(!bold_after(b, 1) && reverse_after(b, 1));
    assert(!bold_after(b, 2) && reverse_after(b, 2));
    assert(!bold_after(b, 3));
    assert(cell_after(b, 3, x, y) == ink(x0, y0, s, false, true, x, y));
}

proof fn lemma_nothing(x: int, y: int)
    ensures
        ({
            let b = Seq::<PaintView>::empty();
            tame(b) && settled(b) && cell(b, x, y) is None
        }),
{
}

proof fn lemma_sides(f: Frame, n: int, x: int, y: int)
    requires
        f.width >= 2,
    ensures
        tame(screen::sides(f, n)),
        settled(screen::sides(f, n)),
        cell(screen::sides(f, n), x, y) == (if f.top < y <= f.top + n && (x == f.left || x == f.left
            + f.width - 1) {
            plain('│')
        } else {
            None
        }),
    decreases n,
{
    if n > 0 {
        lemma_sides(f, n - 1, x, y);
        let rest = screen::sides(f, n - 1);
        let side = seq!['│'];
        let left = seq![PaintView::MoveTo(f.left, f.top + n), PaintView::Print(side)];
        let right = seq![
            PaintView::MoveTo(f.left + f.width - 1, f.top + n),
            PaintView::Print(side),
        ];
        lemma_write(f.left, f.top + n, side, x, y);
        lemma_write(f.left + f.width - 1, f.top + n, side, x, y);
        lemma_add(rest, left, x, y);
        lemma_tame_add(rest, left);
        lemma_add(rest + left, right, x, y);
        lemma_tame_add(rest + left, right);
        assert(screen::sides(f, n) == rest + left + right);
    } else {
        lemma_nothing(x, y);
    }
}

/// The border, cell by cell.
spec fn border_cell(f: Frame, x: int, y: int) -> Option<Cell> {
    let right = f.left + f.width - 1;
    let bottom = f.top + f.height - 1;
    if y == bottom && f.left <= x <= right {
        plain(if x == f.left { '└' } else if x == right { '┘' } else { '─' })
    } else if f.top < y < bottom && (x == f.left || x == right) {
        plain('│')
    } else if y == f.top && f.left <= x <= right {
        plain(if x == f.left { '┌' } else if x == right { '┐' } else { '─' })
    } else {
        None
    }
}

proof fn lemma_border(f: Frame, x: int, y: int)
    requires
        f.width >= screen::MIN_W,
        f.height >= screen::MIN_H,
    ensures
        tame(screen::border(f)),
        settled(screen::border(f)),
        cell(screen::border(f), x, y) == border_cell(f, x, y),
{
    let top = seq!['┌'] + screen::bar(f) + seq!['┐'];
    let bottom = seq!['└'] + screen::bar(f) + seq!['┘'];
    let a = seq![PaintView::MoveTo(f.left, f.top), PaintView::Print(top)];
    let b = screen::sides(f, f.height - 2);
    let c = seq![PaintView::MoveTo(f.left, f.top + f.height - 1), PaintView::Print(bottom)];
    lemma_write(f.left, f.top, top, x, y);
    lemma_sides(f, f.height - 2, x, y);
    lemma_write(f.left, f.top + f.height - 1, bottom, x, y);
    lemma_add(a, b, x, y);
    lemma_tame_add(a, b);
    lemma_add(a + b, c, x, y);
    lemma_tame_add(a + b, c);
    assert(screen::border(f) == a + b + c);
    let i = x - f.left;
    if 0 < i < f.width - 1 {
        assert(top[i] == screen::bar(f)[i - 1]);
        assert(bottom[i] == screen::bar(f)[i - 1]);
    }
}

proof fn lemma_title(ui: UiView, f: Frame, x: int, y: int)
    ensures
        tame(screen::title(ui, f)),
        settled(screen::title(ui, f)),
        cell(screen::title(ui, f), x, y) == (if ui.cfg.ui.title.len() < f.width - 4 {
            ink(f.left + 2, f.top, ui.cfg.ui.title, true, false, x, y)
        } else {
            None
        }),
{
    if ui.cfg.ui.title.len() < f.width - 4 {
        lemma_write_bold(f.left + 2, f.top, ui.cfg.ui.title, x, y);
    } else {
        lemma_nothing(x, y);
    }
}

/// The question as it is written in its row.
spec fn question_text(ui: UiView, f: Frame) -> Seq<char> {
    text::clipped(screen::prompt(ui.state) + screen::shown(ui, f), screen::inner(f))
}

proof fn lemma_question(ui: UiView, f: Frame, x: int, y: int)
    ensures
        tame(screen::question_row(ui, f)),
        settled(screen::question_row(ui, f)),
        cell(screen::question_row(ui, f), x, y) == over(
            ink(f.left + 2, f.top + 1, question_text(ui, f), true, false, x, y),
            ink(f.left + 1, f.top + 2, screen::bar(f), false, false, x, y),
        ),
{
    let row = question_text(ui, f);
    let a = seq![
        PaintView::MoveTo(f.left + 2, f.top + 1),
        PaintView::Bold,
        PaintView::Print(row),
        PaintView::NotBold,
    ];
    let b = seq![PaintView::MoveTo(f.left + 1, f.top + 2), PaintView::Print(screen::bar(f))];
    lemma_write_bold(f.left + 2, f.top + 1, row, x, y);
    lemma_write(f.left + 1, f.top + 2, screen::bar(f), x, y);
    lemma_add(a, b, x, y);
    lemma_tame_add(a, b);
    assert(screen::question_row(ui, f) == a + b);
}

proof fn lemma_error_rows(f: Frame, rows: Seq<Seq<char>>, n: int, x: int, y: int)
    ensures
        tame(screen::error_rows(f, rows, n)),
        settled(screen::error_rows(f, rows, n)),
        cell(screen::error_rows(f, rows, n), x, y) == (if 0 <= y - (f.top + 3) < n {
            ink(f.left + 2, y, rows[y - (f.top + 3)], true, false, x, y)
        } else {
            None
        }),
    decreases n,
{
    if n > 0 {
        lemma_error_rows(f, rows, n - 1, x, y);
        let rest = screen::error_rows(f, rows, n - 1);
        let at = f.top + 3 + (n - 1);
        let one = seq![
            PaintView::MoveTo(f.left + 2, at),
            PaintView::Bold,
            PaintView::Print(rows[n - 1]),
            PaintView::NotBold,
        ];
        lemma_write_bold(f.left + 2, at, rows[n - 1], x, y);
        lemma_add(rest, one, x, y);
        lemma_tame_add(rest, one);
        assert(screen::error_rows(f, rows, n) == rest + one);
    } else {
        lemma_nothing(x, y);
    }
}

proof fn lemma_stream_rows(f: Frame, rows: Seq<Seq<char>>, n: int, x: int, y: int)
    ensures
        tame(screen::stream_rows(f, rows, n)),
        settled(screen::stream_rows(f, rows, n)),
        cell(screen::stream_rows(f, rows, n), x, y) == (if 0 <= y - (f.top + 3) < n {
            ink(
                f.left + 2,
                y,
                text::clipped(rows[y - (f.top + 3)], screen::inner(f)),
                false,
                false,
                x,
                y,
            )
        } else {
            None
        }),
    decreases n,
{
    if n > 0 {
        lemma_stream_rows(f, rows, n - 1, x, y);
        let rest = screen::stream_rows(f, rows, n - 1);
        let at = f.top + 3 + (n - 1);
        let row = text::clipped(rows[n - 1], screen::inner(f));
        let one = seq![PaintView::MoveTo(f.left + 2, at), PaintView::Print(row)];
        lemma_write(f.left + 2, at, row, x, y);
        lemma_add(rest, one, x, y);
        lemma_tame_add(rest, one);
        assert(screen::stream_rows(f, rows, n) == rest + one);
    } else {
        lemma_nothing(x, y);
    }
}

/// Whether a row belongs to the line that is picked.
spec fn picked(ui: UiView, f: Frame, i: int) -> bool {
    screen::first_row(ui.lines, ui.sel, screen::inner(f)) <= i <= screen::last_row(
        ui.lines,
        ui.sel,
        screen::inner(f),
    )
}

proof fn lemma_pick_rows(ui: UiView, f: Frame, from: int, n: int, x: int, y: int)
    ensures
        tame(screen::pick_rows(ui, f, from, n)),
        settled(screen::pick_rows(ui, f, from, n)),
        cell(screen::pick_rows(ui, f, from, n), x, y) == (if 0 <= y - (f.top + 3) < n {
            let i = from + (y - (f.top + 3));
            ink(
                f.left + 2,
                y,
                text::padded(screen::rows_of(ui.lines, screen::inner(f))[i], screen::inner(f)),
                false,
                picked(ui, f, i),
                x,
                y,
            )
        } else {
            None
        }),
    decreases n,
{
    if n > 0 {
        lemma_pick_rows(ui, f, from, n - 1, x, y);
        let rest = screen::pick_rows(ui, f, from, n - 1);
        let i = from + n - 1;
        let at = f.top + 3 + (n - 1);
        let line = screen::rows_of(ui.lines, screen::inner(f))[i];
        let row = text::padded(line, screen::inner(f));
        let one = screen::pick_row(f, line, picked(ui, f, i), n - 1);
        lemma_write(f.left + 2, at, row, x, y);
        lemma_write_reverse(f.left + 2, at, row, x, y);
        lemma_add(rest, one, x, y);
        lemma_tame_add(rest, one);
        assert(screen::pick_rows(ui, f, from, n) == rest + one);
    } else {
        lemma_nothing(x, y);
    }
}

/// How many rows of lines to pick from are shown.
spec fn pick_count(ui: UiView, f: Frame) -> int {
    text::least(
        text::monus(
            screen::rows_of(ui.lines, screen::inner(f)).len() as int,
            screen::scrolled(ui, f),
        ),
        screen::body_rows(f),
    )
}

proof fn lemma_body(ui: UiView, f: Frame, x: int, y: int)
    requires
        f.height >= screen::MIN_H,
    ensures
        tame(screen::body(ui, f)),
        settled(screen::body(ui, f)),
        cell(screen::body(ui, f), x, y) is Some ==> f.top + 3 <= y < f.top + f.height - 2,
{
    if ui.error.len() > 0 {
        let rows = text::wrapped(ui.error, screen::inner(f));
        lemma_error_rows(f, rows, text::least(rows.len() as int, screen::body_rows(f)), x, y);
    } else if ui.state == State::Stream {
        let rows = screen::stream_source(ui, f);
        let from = text::monus(rows.len() as int, screen::body_rows(f));
        lemma_stream_rows(f, rows.skip(from), rows.len() - from, x, y);
    } else if ui.state == State::Browse {
        lemma_pick_rows(ui, f, screen::scrolled(ui, f), pick_count(ui, f), x, y);
    } else {
        lemma_nothing(x, y);
    }
}

proof fn lemma_footer(ui: UiView, f: Frame, x: int, y: int)
    ensures
        tame(screen::footer(ui, f)),
        settled(screen::footer(ui, f)),
        cell(screen::footer(ui, f), x, y) == over(
            ink(f.left + 1, f.top + f.height - 2, screen::bar(f), false, false, x, y),
            ink(
                f.left + 2,
                f.top + f.height - 2,
                text::clipped(ui::hint_for(ui.state), screen::inner(f)),
                false,
                false,
                x,
                y,
            ),
        ),
{
    let at = f.top + f.height - 2;
    let hint = text::clipped(ui::hint_for(ui.state), screen::inner(f));
    let a = seq![PaintView::MoveTo(f.left + 1, at), PaintView::Print(screen::bar(f))];
    let b = seq![PaintView::MoveTo(f.left + 2, at), PaintView::Print(hint)];
    lemma_write(f.left + 1, at, screen::bar(f), x, y);
    lemma_write(f.left + 2, at, hint, x, y);
    lemma_add(a, b, x, y);
    lemma_tame_add(a, b);
    assert(screen::footer(ui, f) == a + b);
}

proof fn lemma_caret(ui: UiView, f: Frame, x: int, y: int)
    ensures
        tame(screen::caret(ui, f)),
        settled(screen::caret(ui, f)),
        cell(screen::caret(ui, f), x, y) is None,
{
    let b = screen::caret(ui, f);
    lemma_nothing(x, y);
    if b.len() == 2 {
        assert(!(b[0] is Print) && !(b[1] is Print) && !(b[0] is Clear) && !(b[1] is Clear));
        assert(cell_after(b, 0, x, y) is None);
        assert(cell_after(b, 1, x, y) is None);
        assert(!bold_after(b, 0) && !reverse_after(b, 0));
        assert(!bold_after(b, 1) && !reverse_after(b, 1));
    }
}

/// The parts of the picture lie over each other in the order they are painted.
proof fn lemma_picture(ui: UiView, w: int, h: int, x: int, y: int)
    requires
        screen::fits(w, h),
    ensures
        ({
            let f = screen::frame(ui.cfg.ui, w, h);
            cell(screen::picture(ui, w, h), x, y) == over(
                over(
                    over(
                        over(border_cell(f, x, y), cell(screen::title(ui, f), x, y)),
                        cell(screen::question_row(ui, f), x, y),
                    ),
                    cell(screen::body(ui, f), x, y),
                ),
                cell(screen::footer(ui, f), x, y),
            )
        }),
{
    let f = screen::frame(ui.cfg.ui, w, h);
    screen::law_box_on_the_screen(ui.cfg.ui, w, h);
    let start = seq![PaintView::HideCursor, PaintView::Clear];
    assert(start[0] == PaintView::HideCursor && start[1] == PaintView::Clear);
    assert(cell(start, x, y) is None);
    assert(!bold_after(start, 0) && !reverse_after(start, 0));
    assert(!bold_after(start, 1) && !reverse_after(start, 1));
    assert(settled(start));
    lemma_border(f, x, y);
    lemma_title(ui, f, x, y);
    lemma_question(ui, f, x, y);
    lemma_body(ui, f, x, y);
    lemma_footer(ui, f, x, y);
    lemma_caret(ui, f, x, y);
    let a = start + screen::border(f);
    lemma_add(start, screen::border(f), x, y);
    let b = a + screen::title(ui, f);
    lemma_add(a, screen::title(ui, f), x, y);
    let c = b + screen::question_row(ui, f);
    lemma_add(b, screen::question_row(ui, f), x, y);
    let d = c + screen::body(ui, f);
    lemma_add(c, screen::body(ui, f), x, y);
    let e = d + screen::footer(ui, f);
    lemma_add(d, screen::footer(ui, f), x, y);
    lemma_add(e, screen::caret(ui, f), x, y);
}

/// The box is drawn all round, with a line below the question; outside of it
/// nothing is shown.
pub proof fn law_box_is_drawn(ui: UiView, w: int, h: int, x: int, y: int)
    requires
        ui.wf(),
        screen::fits(w, h),
    ensures
        ({
            let f = screen::frame(ui.cfg.ui, w, h);
            let right = f.left + f.width - 1;
            let bottom = f.top + f.height - 1;
            let shown = cell(screen::picture(ui, w, h), x, y);
            &&& x == f.left && y == f.top ==> shown == plain('┌')
            &&& x == right && y == f.top ==> shown == plain('┐')
            &&& x == f.left && y == bottom ==> shown == plain('└')
            &&& x == right && y == bottom ==> shown == plain('┘')
            &&& f.left < x < right && y == bottom ==> shown == plain('─')
            &&& f.left < x < right && y == f.top + 2 ==> shown == plain('─')
            &&& (x == f.left || x == right) && f.top < y < bottom ==> shown == plain('│')
            &&& x < f.left || x > right || y < f.top || y > bottom ==> shown is None
        }),
{
    let f = screen::frame(ui.cfg.ui, w, h);
    screen::law_box_on_the_screen(ui.cfg.ui, w, h);
    lemma_picture(ui, w, h, x, y);
    lemma_title(ui, f, x, y);
    lemma_question(ui, f, x, y);
    lemma_body(ui, f, x, y);
    lemma_footer(ui, f, x, y);
    lemma_body_columns(ui, f, x, y);
}

/// The answer keeps off the sides of the box.
proof fn lemma_body_columns(ui: UiView, f: Frame, x: int, y: int)
    requires
        f.width >= screen::MIN_W,
        f.height >= screen::MIN_H,
    ensures
        cell(screen::body(ui, f), x, y) is Some ==> f.left + 2 <= x < f.left + f.width - 2,
{
    if ui.error.len() > 0 {
        let rows = text::wrapped(ui.error, screen::inner(f));
        text_laws::law_wrapped_rows_fit(ui.error, screen::inner(f));
        lemma_error_rows(f, rows, text::least(rows.len() as int, screen::body_rows(f)), x, y);
    } else if ui.state == State::Stream {
        let rows = screen::stream_source(ui, f);
        let from = text::monus(rows.len() as int, screen::body_rows(f));
        lemma_stream_rows(f, rows.skip(from), rows.len() - from, x, y);
    } else if ui.state == State::Browse {
        lemma_pick_rows(ui, f, screen::scrolled(ui, f), pick_count(ui, f), x, y);
    } else {
        lemma_nothing(x, y);
    }
}

/// The title stands in bold on the top of the box where it fits, and where it does
/// not the top is a line.
pub proof fn law_title_is_shown(ui: UiView, w: int, h: int, i: int)
    requires
        ui.wf(),
        screen::fits(w, h),
    ensures
        ({
            let f = screen::frame(ui.cfg.ui, w, h);
            let title = ui.cfg.ui.title;
            let shown = cell(screen::picture(ui, w, h), f.left + 2 + i, f.top);
            0 <= i < f.width - 3 ==> shown == (if title.len() < f.width - 4 && i < title.len() {
                bold(title[i])
            } else {
                plain('─')
            })
        }),
        ({
            let f = screen::frame(ui.cfg.ui, w, h);
            cell(screen::picture(ui, w, h), f.left + 1, f.top) == plain('─')
        }),
{
    let f = screen::frame(ui.cfg.ui, w, h);
    screen::law_box_on_the_screen(ui.cfg.ui, w, h);
    let x = f.left + 2 + i;
    lemma_picture(ui, w, h, x, f.top);
    lemma_title(ui, f, x, f.top);
    lemma_question(ui, f, x, f.top);
    lemma_body(ui, f, x, f.top);
    lemma_footer(ui, f, x, f.top);
    lemma_picture(ui, w, h, f.left + 1, f.top);
    lemma_title(ui, f, f.left + 1, f.top);
    lemma_question(ui, f, f.left + 1, f.top);
    lemma_body(ui, f, f.left + 1, f.top);
    lemma_footer(ui, f, f.left + 1, f.top);
}

/// The question stands in bold behind its prompt, from the first character that is
/// shown on, as far as there is room; the rest of its row is blank.
pub proof fn law_question_is_shown(ui: UiView, w: int, h: int, i: int)
    requires
        ui.wf(),
        screen::fits(w, h),
    ensures
        ({
            let f = screen::frame(ui.cfg.ui, w, h);
            let room = f.width - 9;
            let from = if ui.cursor > room { ui.cursor - room } else { 0 };
            let shown = cell(screen::picture(ui, w, h), f.left + 2 + i, f.top + 1);
            &&& 0 <= i < 5 ==> shown == bold(
                if ui.state == State::Ask { "ask> "@[i] } else { "  q> "@[i] },
            )
            &&& 5 <= i < f.width - 4 && from + i - 5 < ui.query.len() ==> shown == bold(
                ui.query[from + i - 5],
            )
            &&& 5 <= i < f.width - 4 && from + i - 5 >= ui.query.len() ==> shown is None
        }),
        ({
            let f = screen::frame(ui.cfg.ui, w, h);
            &&& cell(screen::picture(ui, w, h), f.left + 1, f.top + 1) is None
            &&& cell(screen::picture(ui, w, h), f.left + f.width - 2, f.top + 1) is None
        }),
{
    reveal_strlit("ask> ");
    reveal_strlit("  q> ");
    let f = screen::frame(ui.cfg.ui, w, h);
    screen::law_box_on_the_screen(ui.cfg.ui, w, h);
    let y = f.top + 1;
    lemma_question_cell(ui, w, h, f.left + 2 + i);
    lemma_question_cell(ui, w, h, f.left + 1);
    lemma_question_cell(ui, w, h, f.left + f.width - 2);
    let prompt = screen::prompt(ui.state);
    assert(prompt.len() == 5);
    let all = prompt + screen::shown(ui, f);
    assert(all.len() <= screen::inner(f));
    assert(question_text(ui, f) == all);
    if 5 <= i < all.len() {
        assert(all[i] == screen::shown(ui, f)[i - 5]);
    }
}

proof fn lemma_question_cell(ui: UiView, w: int, h: int, x: int)
    requires
        screen::fits(w, h),
    ensures
        ({
            let f = screen::frame(ui.cfg.ui, w, h);
            f.left < x < f.left + f.width - 1 ==> cell(
                screen::picture(ui, w, h),
                x,
                f.top + 1,
            ) == ink(f.left + 2, f.top + 1, question_text(ui, f), true, false, x, f.top + 1)
        }),
{
    let f = screen::frame(ui.cfg.ui, w, h);
    screen::law_box_on_the_screen(ui.cfg.ui, w, h);
    let y = f.top + 1;
    lemma_picture(ui, w, h, x, y);
    lemma_title(ui, f, x, y);
    lemma_question(ui, f, x, y);
    lemma_body(ui, f, x, y);
    lemma_footer(ui, f, x, y);
}

/// The hint stands on the line below the answer, as far as there is room.
pub proof fn law_hint_is_shown(ui: UiView, w: int, h: int, i: int)
    requires
        ui.wf(),
        screen::fits(w, h),
    ensures
        ({
            let f = screen::frame(ui.cfg.ui, w, h);
            let hint = ui::hint_for(ui.state);
            let y = f.top + f.height - 2;
            &&& 0 <= i < f.width - 4 ==> cell(screen::picture(ui, w, h), f.left + 2 + i, y) == plain(
                if i < hint.len() { hint[i] } else { '─' },
            )
            &&& cell(screen::picture(ui, w, h), f.left + 1, y) == plain('─')
            &&& cell(screen::picture(ui, w, h), f.left + f.width - 2, y) == plain('─')
        }),
{
    let f = screen::frame(ui.cfg.ui, w, h);
    screen::law_box_on_the_screen(ui.cfg.ui, w, h);
    let y = f.top + f.height - 2;
    lemma_picture(ui, w, h, f.left + 2 + i, y);
    lemma_footer(ui, f, f.left + 2 + i, y);
    lemma_picture(ui, w, h, f.left + 1, y);
    lemma_footer(ui, f, f.left + 1, y);
    lemma_picture(ui, w, h, f.left + f.width - 2, y);
    lemma_footer(ui, f, f.left + f.width - 2, y);
}

/// Inside the box, between the lines, there is the answer and nothing else.
proof fn lemma_body_cell(ui: UiView, w: int, h: int, x: int, y: int)
    requires
        screen::fits(w, h),
    ensures
        ({
            let f = screen::frame(ui.cfg.ui, w, h);
            f.left < x < f.left + f.width - 1 && f.top + 3 <= y < f.top + f.height - 2 ==> cell(
                screen::picture(ui, w, h),
                x,
                y,
            ) == cell(screen::body(ui, f), x, y)
        }),
{
    let f = screen::frame(ui.cfg.ui, w, h);
    screen::law_box_on_the_screen(ui.cfg.ui, w, h);
    lemma_picture(ui, w, h, x, y);
    lemma_title(ui, f, x, y);
    lemma_question(ui, f, x, y);
    lemma_body(ui, f, x, y);
    lemma_footer(ui, f, x, y);
}

/// While the user picks, every row of the lines from the first that is shown on
/// stands in the answer, one below the other, filled up with blanks to the whole
/// width, as far as there are rows and room; exactly the rows of the picked line
/// are in reverse. Below them it is blank.
pub proof fn law_lines_are_shown(ui: UiView, w: int, h: int, k: int, i: int)
    requires
        ui.wf(),
        ui.state == State::Browse,
        ui.error.len() == 0,
        screen::fits(w, h),
    ensures
        ({
            let f = screen::frame(ui.cfg.ui, w, h);
            let rows = screen::rows_of(ui.lines, f.width - 4);
            let from = screen::scrolled(ui, f);
            let shown = cell(screen::picture(ui, w, h), f.left + 2 + i, f.top + 3 + k);
            0 <= k < f.height - 5 && 0 <= i < f.width - 4 ==> {
                &&& from + k < rows.len() ==> shown == Some(
                    Cell {
                        c: if i < rows[from + k].len() { rows[from + k][i] } else { ' ' },
                        bold: false,
                        reverse: screen::first_row(ui.lines, ui.sel, f.width - 4) <= from + k
                            < screen::first_row(ui.lines, ui.sel + 1, f.width - 4),
                    },
                )
                &&& from + k >= rows.len() ==> shown is None
            }
        }),
{
    let f = screen::frame(ui.cfg.ui, w, h);
    screen::law_box_on_the_screen(ui.cfg.ui, w, h);
    let x = f.left + 2 + i;
    let y = f.top + 3 + k;
    screen_laws::law_picked_line_is_visible(ui, w, h);
    lemma_body_cell(ui, w, h, x, y);
    lemma_pick_rows(ui, f, screen::scrolled(ui, f), pick_count(ui, f), x, y);
    let rows = screen::rows_of(ui.lines, screen::inner(f));
    let n = screen::scrolled(ui, f) + k;
    if 0 <= i && i < screen::inner(f) && 0 <= n < rows.len() {
        text_laws::law_clipped_and_padded(rows[n], screen::inner(f) as nat, i, ' ');
    }
}

/// The picked line is on the screen, in reverse: its last row always, and each of
/// its rows where they all have room.
pub proof fn law_picked_line_is_shown(ui: UiView, w: int, h: int, r: int, i: int)
    requires
        ui.wf(),
        ui.state == State::Browse,
        ui.error.len() == 0,
        screen::fits(w, h),
    ensures
        ({
            let f = screen::frame(ui.cfg.ui, w, h);
            let rows = text::wrapped(ui.lines[ui.sel], f.width - 4);
            0 <= r < rows.len() && (r == rows.len() - 1 || rows.len() <= f.height - 5) ==> exists|
                y: int,
            |
                f.top + 3 <= y < f.top + f.height - 2 && #[trigger] row_shows(
                    screen::picture(ui, w, h),
                    f,
                    y,
                    rows[r],
                )
        }),
{
    let f = screen::frame(ui.cfg.ui, w, h);
    screen::law_box_on_the_screen(ui.cfg.ui, w, h);
    let width = screen::inner(f);
    let rows = text::wrapped(ui.lines[ui.sel], width);
    let all = screen::rows_of(ui.lines, width);
    let first = screen::first_row(ui.lines, ui.sel, width);
    let from = screen::scrolled(ui, f);
    if 0 <= r < rows.len() && (r == rows.len() - 1 || rows.len() <= screen::body_rows(f)) {
        screen_laws::law_picked_line_is_visible(ui, w, h);
        law_rows_of_a_line(ui.lines, ui.sel, width, r);
        let k = first + r - from;
        let y = f.top + 3 + k;
        assert(0 <= k < screen::body_rows(f));
        let steps = screen::picture(ui, w, h);
        assert forall|j: int| 0 <= j < f.width - 4 implies #[trigger] cell(steps, f.left + 2 + j, y)
            == Some(
            Cell {
                c: if j < rows[r].len() { rows[r][j] } else { ' ' },
                bold: false,
                reverse: true,
            },
        ) by {
            law_lines_are_shown(ui, w, h, k, j);
        }
        assert(row_shows(steps, f, y, rows[r]));
    }
}

/// Whether a row of the answer shows a text in reverse, all across.
pub open spec fn row_shows(steps: Seq<PaintView>, f: Frame, y: int, s: Seq<char>) -> bool {
    forall|j: int|
        0 <= j < f.width - 4 ==> #[trigger] cell(steps, f.left + 2 + j, y) == Some(
            Cell { c: if j < s.len() { s[j] } else { ' ' }, bold: false, reverse: true },
        )
}

/// While an answer comes in, its last rows are shown, one below the other, as many
/// as there is room for; a longer answer has scrolled up. Below them it is blank.
pub proof fn law_stream_is_shown(ui: UiView, w: int, h: int, k: int, i: int)
    requires
        ui.wf(),
        ui.state == State::Stream,
        ui.error.len() == 0,
        screen::fits(w, h),
    ensures
        ({
            let f = screen::frame(ui.cfg.ui, w, h);
            let rows = screen::rows_of(text::lines_of(ui.buffer), f.width - 4);
            let from = if rows.len() > f.height - 5 { rows.len() - (f.height - 5) } else { 0 };
            let shown = cell(screen::picture(ui, w, h), f.left + 2 + i, f.top + 3 + k);
            0 <= k < f.height - 5 && 0 <= i < f.width - 4 ==> {
                &&& from + k < rows.len() && i < rows[from + k].len() ==> shown == plain(
                    rows[from + k][i],
                )
                &&& from + k >= rows.len() || i >= rows[from + k].len() ==> shown is None
            }
        }),
{
    let f = screen::frame(ui.cfg.ui, w, h);
    screen::law_box_on_the_screen(ui.cfg.ui, w, h);
    let x = f.left + 2 + i;
    let y = f.top + 3 + k;
    let width = screen::inner(f);
    lemma_body_cell(ui, w, h, x, y);
    let rows = screen::stream_source(ui, f);
    let from = text::monus(rows.len() as int, screen::body_rows(f));
    lemma_stream_rows(f, rows.skip(from), rows.len() - from, x, y);
    if ui.buffer.len() == 0 {
        let none = Seq::<char>::empty();
        assert(ui.buffer == none);
        assert(text::lines_of(ui.buffer) == Seq::<Seq<char>>::empty());
        assert(screen::rows_of(Seq::<Seq<char>>::empty(), width) == Seq::<Seq<char>>::empty());
        let one = seq![none];
        assert(one.drop_last() == Seq::<Seq<char>>::empty());
        assert(text::wrapped(none, width) == seq![none]);
        assert(rows == seq![none]);
        assert(rows.skip(0) == rows);
        if k == 0 {
            assert(text::clipped(none, width) == none);
        }
    } else if 0 <= k && from + k < rows.len() {
        assert(rows.skip(from)[k] == rows[from + k]);
        law_rows_fit(text::lines_of(ui.buffer), width, from + k);
        assert(text::clipped(rows[from + k], width) == rows[from + k]);
    }
}

/// An error is shown in bold in place of the answer, from its start, as far as
/// there is room. Below it, it is blank.
pub proof fn law_error_is_shown(ui: UiView, w: int, h: int, k: int, i: int)
    requires
        ui.wf(),
        ui.error.len() > 0,
        screen::fits(w, h),
    ensures
        ({
            let f = screen::frame(ui.cfg.ui, w, h);
            let rows = text::wrapped(ui.error, f.width - 4);
            let shown = cell(screen::picture(ui, w, h), f.left + 2 + i, f.top + 3 + k);
            0 <= k < f.height - 5 && 0 <= i < f.width - 4 ==> {
                &&& k < rows.len() && i < rows[k].len() ==> shown == bold(rows[k][i])
                &&& k >= rows.len() || i >= rows[k].len() ==> shown is None
            }
        }),
{
    let f = screen::frame(ui.cfg.ui, w, h);
    screen::law_box_on_the_screen(ui.cfg.ui, w, h);
    let x = f.left + 2 + i;
    let y = f.top + 3 + k;
    lemma_body_cell(ui, w, h, x, y);
    let rows = text::wrapped(ui.error, screen::inner(f));
    lemma_error_rows(f, rows, text::least(rows.len() as int, screen::body_rows(f)), x, y);
}

/// While the question is written and nothing went wrong, there is no answer to
/// show.
pub proof fn law_no_answer_yet(ui: UiView, w: int, h: int, x: int, y: int)
    requires
        ui.wf(),
        ui.state == State::Ask,
        ui.error.len() == 0,
        screen::fits(w, h),
    ensures
        ({
            let f = screen::frame(ui.cfg.ui, w, h);
            f.left < x < f.left + f.width - 1 && f.top + 3 <= y < f.top + f.height - 2 ==> cell(
                screen::picture(ui, w, h),
                x,
                y,
            ) is None
        }),
{
    let f = screen::frame(ui.cfg.ui, w, h);
    lemma_body_cell(ui, w, h, x, y);
    lemma_nothing(x, y);
}

/// The columns next to the sides of the box are blank beside the answer.
pub proof fn law_margins_are_blank(ui: UiView, w: int, h: int, y: int)
    requires
        ui.wf(),
        screen::fits(w, h),
    ensures
        ({
            let f = screen::frame(ui.cfg.ui, w, h);
            f.top + 3 <= y < f.top + f.height - 2 ==> {
                &&& cell(screen::picture(ui, w, h), f.left + 1, y) is None
                &&& cell(screen::picture(ui, w, h), f.left + f.width - 2, y) is None
            }
        }),
{
    let f = screen::frame(ui.cfg.ui, w, h);
    screen::law_box_on_the_screen(ui.cfg.ui, w, h);
    lemma_body_cell(ui, w, h, f.left + 1, y);
    lemma_body_cell(ui, w, h, f.left + f.width - 2, y);
    lemma_body_columns(ui, f, f.left + 1, y);
    lemma_body_columns(ui, f, f.left + f.width - 2, y);
}

/// Whether no step shows the cursor.
spec fn quiet(steps: Seq<PaintView>) -> bool {
    forall|i: int| 0 <= i < steps.len() ==> !((#[trigger] steps[i]) is ShowCursor)
}

proof fn lemma_quiet(steps: Seq<PaintView>, n: int)
    requires
        0 <= n <= steps.len(),
        quiet(steps),
    ensures
        !cursor_after(steps, n),
    decreases n,
{
    if n > 0 {
        lemma_quiet(steps, n - 1);
    }
}

proof fn lemma_quiet_rows(ui: UiView, f: Frame, rows: Seq<Seq<char>>, from: int, n: int)
    ensures
        quiet(screen::sides(f, n)),
        quiet(screen::error_rows(f, rows, n)),
        quiet(screen::stream_rows(f, rows, n)),
        quiet(screen::pick_rows(ui, f, from, n)),
    decreases n,
{
    if n > 0 {
        lemma_quiet_rows(ui, f, rows, from, n - 1);
    }
}

/// Once the question is sent the cursor is hidden, and so it is on a screen that is
/// too small.
pub proof fn law_cursor_is_hidden(ui: UiView, w: int, h: int)
    requires
        ui.wf(),
        ui.state != State::Ask || w < 30 || h < 6,
    ensures
        ({
            let steps = screen::picture(ui, w, h);
            !cursor_after(steps, steps.len() as int)
        }),
{
    let steps = screen::picture(ui, w, h);
    if screen::fits(w, h) {
        let f = screen::frame(ui.cfg.ui, w, h);
        let none = Seq::<Seq<char>>::empty();
        lemma_quiet_rows(ui, f, none, 0, f.height - 2);
        assert(quiet(screen::border(f)));
        let body = screen::body(ui, f);
        assert(quiet(body)) by {
            if ui.error.len() > 0 {
                let rows = text::wrapped(ui.error, screen::inner(f));
                let n = text::least(rows.len() as int, screen::body_rows(f));
                lemma_quiet_rows(ui, f, rows, 0, n);
            } else if ui.state == State::Stream {
                let rows = screen::stream_source(ui, f);
                let from = text::monus(rows.len() as int, screen::body_rows(f));
                lemma_quiet_rows(ui, f, rows.skip(from), 0, rows.len() - from);
            } else {
                lemma_quiet_rows(ui, f, none, screen::scrolled(ui, f), pick_count(ui, f));
            }
        }
        let a = seq![PaintView::HideCursor, PaintView::Clear] + screen::border(f) + screen::title(
            ui,
            f,
        );
        assert(quiet(a));
        let b = a + screen::question_row(ui, f);
        assert(quiet(b));
        assert(quiet(b + body));
        assert(quiet(b + body + screen::footer(ui, f)));
        assert(steps == b + body + screen::footer(ui, f) + screen::caret(ui, f));
    }
    assert(quiet(steps));
    lemma_quiet(steps, steps.len() as int);
}

/// While the question is written the cursor shows, right behind the character of
/// it that stands before the cursor.
pub proof fn law_cursor_is_shown(ui: UiView, w: int, h: int)
    requires
        ui.wf(),
        ui.state == State::Ask,
        screen::fits(w, h),
    ensures
        ({
            let f = screen::frame(ui.cfg.ui, w, h);
            let room = f.width - 9;
            let from = if ui.cursor > room { ui.cursor - room } else { 0 };
            let steps = screen::picture(ui, w, h);
            &&& cursor_after(steps, steps.len() as int)
            &&& screen_laws::place(steps, steps.len() as int) == Some(
                (f.left + 7 + (ui.cursor - from), f.top + 1),
            )
        }),
{
    let f = screen::frame(ui.cfg.ui, w, h);
    screen::law_box_on_the_screen(ui.cfg.ui, w, h);
    let steps = screen::picture(ui, w, h);
    let n = steps.len() as int;
    assert(steps[n - 1] == PaintView::ShowCursor);
    assert(steps[n - 2] == PaintView::MoveTo(
        f.left + screen::caret_column(ui, f),
        f.top + 1,
    ));
    assert(screen_laws::place(steps, n - 1) == Some(
        (f.left + screen::caret_column(ui, f), f.top + 1),
    ));
}

/// A screen that is too small says so from its top left corner, as far as there is
/// room, and shows nothing else.
pub proof fn law_too_small(ui: UiView, w: int, h: int, x: int, y: int)
    requires
        !screen::fits(w, h),
        w >= 0,
    ensures
        ({
            let s = "llmq: terminal too small"@;
            cell(screen::picture(ui, w, h), x, y) == (if y == 0 && 0 <= x < s.len() && x < w - 1 {
                plain(s[x])
            } else {
                None
            })
        }),
        screen::fits(w, h) <==> w >= 30 && h >= 6,
{
    let start = seq![PaintView::HideCursor, PaintView::Clear];
    assert(start[0] == PaintView::HideCursor && start[1] == PaintView::Clear);
    assert(cell(start, x, y) is None);
    assert(!bold_after(start, 0) && !reverse_after(start, 0));
    assert(!bold_after(start, 1) && !reverse_after(start, 1));
    assert(settled(start));
    let s = text::clipped("llmq: terminal too small"@, text::monus(w, 1));
    let b = seq![PaintView::MoveTo(0, 0), PaintView::Print(s)];
    lemma_write(0, 0, s, x, y);
    lemma_add(start, b, x, y);
}

/// The box is the configured share of the screen, at least 40 by 8, but leaves a
/// column and a row free on each side while it is larger than 30 by 6. It fits
/// wherever the screen has 30 columns and 6 rows.
pub proof fn law_box_size(cfg: UiCfgView, w: int, h: int)
    requires
        w >= 30,
        h >= 6,
    ensures
        ({
            let f = screen::frame(cfg, w, h);
            let wide = w * (cfg.width_pct as int) / 100;
            let high = h * (cfg.height_pct as int) / 100;
            &&& screen::fits(w, h)
            &&& 40 <= wide <= w - 2 ==> f.width == wide
            &&& wide < 40 && w >= 42 ==> f.width == 40
            &&& w >= 32 && (wide > w - 2 || w < 42) ==> f.width == w - 2
            &&& w < 32 ==> f.width == 30
            &&& 8 <= high <= h - 2 ==> f.height == high
            &&& high < 8 && h >= 10 ==> f.height == 8
            &&& h >= 8 && (high > h - 2 || h < 10) ==> f.height == h - 2
            &&& h < 8 ==> f.height == 6
            &&& 0 <= (w - f.width) - 2 * f.left <= 1
            &&& 0 <= (h - f.height) - 2 * f.top <= 1
        }),
{
}

/// The rows of a line are its wrapped pieces, in order, from its first row on; the
/// next line starts right below.
pub proof fn law_rows_of_a_line(lines: Seq<Seq<char>>, i: int, width: int, r: int)
    requires
        0 <= i < lines.len(),
    ensures
        ({
            let rows = text::wrapped(lines[i], width);
            &&& screen::first_row(lines, 0, width) == 0
            &&& screen::first_row(lines, i + 1, width) == screen::first_row(lines, i, width)
                + rows.len()
            &&& screen::last_row(lines, i, width) == screen::first_row(lines, i + 1, width) - 1
            &&& screen::first_row(lines, lines.len() as int, width) == screen::rows_of(
                lines,
                width,
            ).len()
            &&& 0 <= r < rows.len() ==> screen::rows_of(lines, width)[screen::first_row(
                lines,
                i,
                width,
            ) + r] == rows[r]
        }),
{
    assert(lines.take(0).len() == 0);
    assert(lines.take(i + 1).drop_last() == lines.take(i));
    assert(lines.take(i + 1).last() == lines[i]);
    assert(lines.take(lines.len() as int) == lines);
    lemma_rows_prefix(lines, i + 1, width);
    let rows = text::wrapped(lines[i], width);
    let first = screen::first_row(lines, i, width);
    if 0 <= r < rows.len() {
        let part = screen::rows_of(lines.take(i + 1), width);
        assert(part == screen::rows_of(lines.take(i), width) + rows);
        assert(part[first + r] == rows[r]);
    }
}

/// Later lines change nothing about the rows of earlier ones.
proof fn lemma_rows_prefix(lines: Seq<Seq<char>>, n: int, width: int)
    requires
        0 <= n <= lines.len(),
    ensures
        screen::rows_of(lines.take(n), width).is_prefix_of(screen::rows_of(lines, width)),
    decreases lines.len(),
{
    if n == lines.len() {
        assert(lines.take(n) == lines);
        assert(screen::rows_of(lines, width).is_prefix_of(screen::rows_of(lines, width)));
    } else {
        let init = lines.drop_last();
        lemma_rows_prefix(init, n, width);
        assert(init.take(n) == lines.take(n));
        let a = screen::rows_of(lines.take(n), width);
        let b = screen::rows_of(init, width);
        let c = screen::rows_of(lines, width);
        assert(c == b + text::wrapped(lines.last(), width));
        assert(c.subrange(0, a.len() as int) == b.subrange(0, a.len() as int));
    }
}

/// No row is wider than there is room.
pub proof fn law_rows_fit(lines: Seq<Seq<char>>, width: int, i: int)
    requires
        width >= 4,
        0 <= i < screen::rows_of(lines, width).len(),
    ensures
        screen::rows_of(lines, width)[i].len() <= width,
    decreases lines.len(),
{
    if lines.len() > 0 {
        let rest = screen::rows_of(lines.drop_last(), width);
        let last = text::wrapped(lines.last(), width);
        text_laws::law_wrapped_rows_fit(lines.last(), width);
        assert(screen::rows_of(lines, width) == rest + last);
        if i < rest.len() {
            law_rows_fit(lines.drop_last(), width, i);
        } else {
            assert(screen::rows_of(lines, width)[i] == last[i - rest.len()]);
        }
    }
}

/// Painting scrolls only where it must: up to the first row of the picked line
/// where that is above, down until its last row is at the bottom where that is
/// below; it changes nothing else, and elsewhere nothing at all.
pub proof fn law_scrolling(ui: UiView, w: int, h: int)
    requires
        ui.wf(),
    ensures
        ({
            let after = screen::painted(ui, w, h);
            let f = screen::frame(ui.cfg.ui, w, h);
            let room = f.height - 5;
            let first = screen::first_row(ui.lines, ui.sel, f.width - 4);
            let last = screen::first_row(ui.lines, ui.sel + 1, f.width - 4) - 1;
            &&& after == (UiView { scroll: after.scroll, ..ui })
            &&& ui.state != State::Browse || ui.error.len() > 0 || w < 30 || h < 6 ==> after == ui
            &&& ui.state == State::Browse && ui.error.len() == 0 && w >= 30 && h >= 6 ==> {
                &&& after.scroll == screen::scrolled(ui, f)
                &&& ui.scroll <= first && last < ui.scroll + room ==> after.scroll == ui.scroll
                &&& first < ui.scroll && last < first + room ==> after.scroll == first
                &&& last >= ui.scroll + room || last >= first + room ==> after.scroll == last + 1
                    - room
            }
        }),
{
    if screen::fits(w, h) && ui.state == State::Browse {
        screen_laws::law_picked_line_is_visible(ui, w, h);
    }
}

} // verus!
