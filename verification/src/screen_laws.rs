//! What holds of every picture.

use vstd::prelude::*;
use crate::screen;
use crate::screen::{Frame, PaintView};
use crate::text;
use crate::text_laws;
use crate::ui;
use crate::ui::{State, UiView};

verus! {

/// The place that a text printed as step `i` starts at: where the last step but
/// for changes of style went.
pub open spec fn place(steps: Seq<PaintView>, i: int) -> Option<(int, int)>
    decreases i,
{
    if i <= 0 {
        None
    } else {
        match steps[i - 1] {
            PaintView::MoveTo(x, y) => Some((x, y)),
            PaintView::Print(_) => None,
            _ => place(steps, i - 1),
        }
    }
}

/// Whether a place is in the box.
pub open spec fn in_box(f: Frame, x: int, y: int) -> bool {
    f.left <= x < f.left + f.width && f.top <= y < f.top + f.height
}

/// Whether a step keeps within the box: it goes nowhere else, and a text ends in
/// the row and before the column where the box ends.
pub open spec fn step_in_box(steps: Seq<PaintView>, i: int, f: Frame) -> bool {
    match steps[i] {
        PaintView::MoveTo(x, y) => in_box(f, x, y),
        PaintView::Print(s) => place(steps, i) matches Some(at) && in_box(f, at.0, at.1) && at.0
            + s.len() <= f.left + f.width,
        _ => true,
    }
}

/// Whether all steps keep within the box.
pub open spec fn within(steps: Seq<PaintView>, f: Frame) -> bool {
    forall|i: int| 0 <= i < steps.len() ==> #[trigger] step_in_box(steps, i, f)
}

/// What follows does not change the place of a step.
pub proof fn lemma_place_front(a: Seq<PaintView>, b: Seq<PaintView>, i: int)
    requires
        0 <= i <= a.len(),
    ensures
        place(a + b, i) == place(a, i),
    decreases i,
{
    if i > 0 {
        lemma_place_front(a, b, i - 1);
        assert((a + b)[i - 1] == a[i - 1]);
    }
}

/// What comes before does not change a place that was gone to since.
pub proof fn lemma_place_back(a: Seq<PaintView>, b: Seq<PaintView>, j: int)
    requires
        0 <= j <= b.len(),
        place(b, j) is Some,
    ensures
        place(a + b, a.len() + j) == place(b, j),
    decreases j,
{
    if j > 0 {
        assert((a + b)[a.len() + j - 1] == b[j - 1]);
        match b[j - 1] {
            PaintView::MoveTo(x, y) => {},
            PaintView::Print(_) => {},
            _ => {
                lemma_place_back(a, b, j - 1);
            },
        }
    }
}

/// Steps that keep within the box do so one after the other, too.
proof fn lemma_within_concat(a: Seq<PaintView>, b: Seq<PaintView>, f: Frame)
    requires
        within(a, f),
        within(b, f),
    ensures
        within(a + b, f),
{
    let c = a + b;
    assert forall|i: int| 0 <= i < c.len() implies #[trigger] step_in_box(c, i, f) by {
        if i < a.len() {
            assert(c[i] == a[i]);
            lemma_place_front(a, b, i);
            assert(step_in_box(a, i, f));
        } else {
            let j = i - a.len();
            assert(c[i] == b[j]);
            assert(step_in_box(b, j, f));
            if b[j] is Print {
                lemma_place_back(a, b, j);
            }
        }
    }
}

/// Going somewhere and writing there.
proof fn lemma_write(f: Frame, x: int, y: int, s: Seq<char>)
    requires
        in_box(f, x, y),
        x + s.len() <= f.left + f.width,
    ensures
        within(seq![PaintView::MoveTo(x, y), PaintView::Print(s)], f),
        within(
            seq![PaintView::MoveTo(x, y), PaintView::Bold, PaintView::Print(s), PaintView::NotBold],
            f,
        ),
        within(
            seq![
                PaintView::Reverse,
                PaintView::MoveTo(x, y),
                PaintView::Print(s),
                PaintView::NotReverse,
            ],
            f,
        ),
{
    let plain = seq![PaintView::MoveTo(x, y), PaintView::Print(s)];
    assert(place(plain, 1) == Some((x, y)));
    let bold = seq![
        PaintView::MoveTo(x, y),
        PaintView::Bold,
        PaintView::Print(s),
        PaintView::NotBold,
    ];
    assert(place(bold, 1) == Some((x, y)));
    assert(place(bold, 2) == Some((x, y)));
    let reverse = seq![
        PaintView::Reverse,
        PaintView::MoveTo(x, y),
        PaintView::Print(s),
        PaintView::NotReverse,
    ];
    assert(place(reverse, 2) == Some((x, y)));
}

/// Whether the box has room for what stands in it.
spec fn roomy(f: Frame) -> bool {
    f.width >= screen::MIN_W && f.height >= screen::MIN_H
}

proof fn lemma_sides(f: Frame, n: int)
    requires
        roomy(f),
        n <= f.height - 2,
    ensures
        within(screen::sides(f, n), f),
    decreases n,
{
    if n > 0 {
        lemma_sides(f, n - 1);
        let left = seq![PaintView::MoveTo(f.left, f.top + n), PaintView::Print(seq!['│'])];
        let right = seq![
            PaintView::MoveTo(f.left + f.width - 1, f.top + n),
            PaintView::Print(seq!['│']),
        ];
        lemma_write(f, f.left, f.top + n, seq!['│']);
        lemma_write(f, f.left + f.width - 1, f.top + n, seq!['│']);
        lemma_within_concat(left, right, f);
        lemma_within_concat(screen::sides(f, n - 1), left + right, f);
        assert(screen::sides(f, n) == screen::sides(f, n - 1) + (left + right));
    }
}

proof fn lemma_border(f: Frame)
    requires
        roomy(f),
    ensures
        within(screen::border(f), f),
{
    let top = seq!['┌'] + screen::bar(f) + seq!['┐'];
    let bottom = seq!['└'] + screen::bar(f) + seq!['┘'];
    lemma_write(f, f.left, f.top, top);
    lemma_write(f, f.left, f.top + f.height - 1, bottom);
    lemma_sides(f, f.height - 2);
    let first = seq![PaintView::MoveTo(f.left, f.top), PaintView::Print(top)];
    let last = seq![PaintView::MoveTo(f.left, f.top + f.height - 1), PaintView::Print(bottom)];
    lemma_within_concat(first, screen::sides(f, f.height - 2), f);
    lemma_within_concat(first + screen::sides(f, f.height - 2), last, f);
}

proof fn lemma_title(ui: UiView, f: Frame)
    requires
        roomy(f),
    ensures
        within(screen::title(ui, f), f),
{
    if ui.cfg.ui.title.len() < f.width - 4 {
        lemma_write(f, f.left + 2, f.top, ui.cfg.ui.title);
    }
}

proof fn lemma_question_row(ui: UiView, f: Frame)
    requires
        roomy(f),
    ensures
        within(screen::question_row(ui, f), f),
{
    let row = text::clipped(screen::prompt(ui.state) + screen::shown(ui, f), screen::inner(f));
    lemma_write(f, f.left + 2, f.top + 1, row);
    lemma_write(f, f.left + 1, f.top + 2, screen::bar(f));
    let a = seq![
        PaintView::MoveTo(f.left + 2, f.top + 1),
        PaintView::Bold,
        PaintView::Print(row),
        PaintView::NotBold,
    ];
    let b = seq![PaintView::MoveTo(f.left + 1, f.top + 2), PaintView::Print(screen::bar(f))];
    lemma_within_concat(a, b, f);
    assert(screen::question_row(ui, f) == a + b);
}

proof fn lemma_error_rows(f: Frame, rows: Seq<Seq<char>>, n: int)
    requires
        roomy(f),
        n <= screen::body_rows(f),
        n <= rows.len(),
        forall|i: int| 0 <= i < rows.len() ==> (#[trigger] rows[i]).len() <= screen::inner(f),
    ensures
        within(screen::error_rows(f, rows, n), f),
    decreases n,
{
    if n > 0 {
        lemma_error_rows(f, rows, n - 1);
        lemma_write(f, f.left + 2, f.top + 3 + (n - 1), rows[n - 1]);
        lemma_within_concat(
            screen::error_rows(f, rows, n - 1),
            seq![
                PaintView::MoveTo(f.left + 2, f.top + 3 + (n - 1)),
                PaintView::Bold,
                PaintView::Print(rows[n - 1]),
                PaintView::NotBold,
            ],
            f,
        );
    }
}

proof fn lemma_stream_rows(f: Frame, rows: Seq<Seq<char>>, n: int)
    requires
        roomy(f),
        n <= screen::body_rows(f),
    ensures
        within(screen::stream_rows(f, rows, n), f),
    decreases n,
{
    if n > 0 {
        lemma_stream_rows(f, rows, n - 1);
        let row = text::clipped(rows[n - 1], screen::inner(f));
        lemma_write(f, f.left + 2, f.top + 3 + (n - 1), row);
        lemma_within_concat(
            screen::stream_rows(f, rows, n - 1),
            seq![PaintView::MoveTo(f.left + 2, f.top + 3 + (n - 1)), PaintView::Print(row)],
            f,
        );
    }
}

proof fn lemma_pick_rows(ui: UiView, f: Frame, from: int, n: int)
    requires
        roomy(f),
        n <= screen::body_rows(f),
    ensures
        within(screen::pick_rows(ui, f, from, n), f),
    decreases n,
{
    if n > 0 {
        lemma_pick_rows(ui, f, from, n - 1);
        let i = from + n - 1;
        let row = screen::rows_of(ui.lines, screen::inner(f))[i];
        let first = screen::first_row(ui.lines, ui.sel, screen::inner(f));
        let last = screen::last_row(ui.lines, ui.sel, screen::inner(f));
        text_laws::law_padded_width(row, screen::inner(f) as nat);
        lemma_write(
            f,
            f.left + 2,
            f.top + 3 + (n - 1),
            text::padded(row, screen::inner(f)),
        );
        lemma_within_concat(
            screen::pick_rows(ui, f, from, n - 1),
            screen::pick_row(f, row, first <= i <= last, n - 1),
            f,
        );
    }
}

proof fn lemma_body(ui: UiView, f: Frame)
    requires
        roomy(f),
    ensures
        within(screen::body(ui, f), f),
{
    if ui.error.len() > 0 {
        let rows = text::wrapped(ui.error, screen::inner(f));
        text_laws::law_wrapped_rows_fit(ui.error, screen::inner(f));
        lemma_error_rows(f, rows, text::least(rows.len() as int, screen::body_rows(f)));
    } else if ui.state == State::Stream {
        let rows = screen::stream_source(ui, f);
        let from = text::monus(rows.len() as int, screen::body_rows(f));
        lemma_stream_rows(f, rows.skip(from), rows.len() - from);
    } else if ui.state == State::Browse {
        let total = screen::rows_of(ui.lines, screen::inner(f)).len() as int;
        let from = screen::scrolled(ui, f);
        lemma_pick_rows(
            ui,
            f,
            from,
            text::least(text::monus(total, from), screen::body_rows(f)),
        );
    }
}

proof fn lemma_footer(ui: UiView, f: Frame)
    requires
        roomy(f),
    ensures
        within(screen::footer(ui, f), f),
{
    let y = f.top + f.height - 2;
    let hint = text::clipped(ui::hint_for(ui.state), screen::inner(f));
    lemma_write(f, f.left + 1, y, screen::bar(f));
    lemma_write(f, f.left + 2, y, hint);
    let a = seq![PaintView::MoveTo(f.left + 1, y), PaintView::Print(screen::bar(f))];
    let b = seq![PaintView::MoveTo(f.left + 2, y), PaintView::Print(hint)];
    lemma_within_concat(a, b, f);
    assert(screen::footer(ui, f) == a + b);
}

/// Where there is room for the box, nothing is painted outside of it: the cursor
/// never leaves it, and no text reaches over its right edge.
pub proof fn law_nothing_outside_the_box(ui: UiView, w: int, h: int)
    requires
        ui.wf(),
        screen::fits(w, h),
    ensures
        within(screen::picture(ui, w, h), screen::frame(ui.cfg.ui, w, h)),
{
    let f = screen::frame(ui.cfg.ui, w, h);
    let start = seq![PaintView::HideCursor, PaintView::Clear];
    assert(within(start, f));
    lemma_border(f);
    lemma_title(ui, f);
    lemma_question_row(ui, f);
    lemma_body(ui, f);
    lemma_footer(ui, f);
    assert(within(screen::caret(ui, f), f));
    let a = start + screen::border(f);
    lemma_within_concat(start, screen::border(f), f);
    let b = a + screen::title(ui, f);
    lemma_within_concat(a, screen::title(ui, f), f);
    let c = b + screen::question_row(ui, f);
    lemma_within_concat(b, screen::question_row(ui, f), f);
    let d = c + screen::body(ui, f);
    lemma_within_concat(c, screen::body(ui, f), f);
    let e = d + screen::footer(ui, f);
    lemma_within_concat(d, screen::footer(ui, f), f);
    lemma_within_concat(e, screen::caret(ui, f), f);
}

/// The cursor stays visible: it stands in the box, right behind the part of the
/// question that is shown before it.
pub proof fn law_cursor_is_visible(ui: UiView, w: int, h: int)
    requires
        ui.wf(),
        screen::fits(w, h),
    ensures
        ({
            let f = screen::frame(ui.cfg.ui, w, h);
            let from = screen::shown_from(ui, f);
            &&& 0 <= from <= ui.cursor <= from + screen::room(f)
            &&& ui.cursor - from <= screen::shown(ui, f).len()
            &&& screen::shown(ui, f).take(ui.cursor - from) == ui.query.subrange(from, ui.cursor)
            &&& screen::caret_column(ui, f) == 2 + screen::prompt(ui.state).len() + (ui.cursor
                - from)
            &&& 2 <= screen::caret_column(ui, f) <= f.width - 2
        }),
{
    reveal_strlit("ask> ");
    reveal_strlit("  q> ");
    let f = screen::frame(ui.cfg.ui, w, h);
    let from = screen::shown_from(ui, f);
    assert(screen::shown(ui, f).take(ui.cursor - from) == ui.query.subrange(from, ui.cursor));
}

/// Every line takes at least one row, so later lines start further down.
pub proof fn lemma_rows_grow(lines: Seq<Seq<char>>, i: int, j: int, width: int)
    requires
        0 <= i <= j <= lines.len(),
        width >= 4,
    ensures
        screen::first_row(lines, i, width) + (j - i) <= screen::first_row(lines, j, width),
        screen::first_row(lines, 0, width) == 0,
        screen::first_row(lines, lines.len() as int, width) == screen::rows_of(lines, width).len(),
    decreases j - i,
{
    assert(lines.take(lines.len() as int) == lines);
    if i < j {
        lemma_rows_grow(lines, i, j - 1, width);
        assert(lines.take(j).drop_last() == lines.take(j - 1));
        text_laws::law_wrapped_rows_fit(lines.take(j).last(), width);
    }
}

/// While the user picks, the picked line is in view: its last row always is, and
/// all of it where it has no more rows than there are.
pub proof fn law_picked_line_is_visible(ui: UiView, w: int, h: int)
    requires
        ui.wf(),
        ui.state == State::Browse,
        screen::fits(w, h),
    ensures
        ({
            let f = screen::frame(ui.cfg.ui, w, h);
            let first = screen::first_row(ui.lines, ui.sel, screen::inner(f));
            let last = screen::last_row(ui.lines, ui.sel, screen::inner(f));
            let from = screen::scrolled(ui, f);
            let total = screen::rows_of(ui.lines, screen::inner(f)).len();
            &&& 0 <= first <= last < total
            &&& 0 <= from < total
            &&& from <= last < from + screen::body_rows(f)
            &&& last - first < screen::body_rows(f) ==> from <= first
        }),
{
    let f = screen::frame(ui.cfg.ui, w, h);
    lemma_rows_grow(ui.lines, ui.sel, ui.sel + 1, screen::inner(f));
    lemma_rows_grow(ui.lines, ui.sel + 1, ui.lines.len() as int, screen::inner(f));
    lemma_rows_grow(ui.lines, 0, ui.sel, screen::inner(f));
}

/// Painting again paints the same.
pub proof fn law_painting_again(ui: UiView, w: int, h: int)
    requires
        ui.wf(),
    ensures
        screen::painted(screen::painted(ui, w, h), w, h) == screen::painted(ui, w, h),
        screen::picture(screen::painted(ui, w, h), w, h) == screen::picture(ui, w, h),
{
    let again = screen::painted(ui, w, h);
    if screen::fits(w, h) && ui.error.len() == 0 && ui.state == State::Browse {
        let f = screen::frame(ui.cfg.ui, w, h);
        law_picked_line_is_visible(ui, w, h);
        assert(screen::scrolled(again, f) == screen::scrolled(ui, f));
        let total = screen::rows_of(ui.lines, screen::inner(f)).len() as int;
        let from = screen::scrolled(ui, f);
        lemma_same_picks(
            ui,
            again,
            f,
            from,
            text::least(text::monus(total, from), screen::body_rows(f)),
        );
        assert(screen::body(again, f) == screen::body(ui, f));
    }
}

proof fn lemma_same_picks(a: UiView, b: UiView, f: Frame, from: int, n: int)
    requires
        a.lines == b.lines,
        a.sel == b.sel,
    ensures
        screen::pick_rows(a, f, from, n) == screen::pick_rows(b, f, from, n),
    decreases n,
{
    if n > 0 {
        lemma_same_picks(a, b, f, from, n - 1);
    }
}

} // verus!
