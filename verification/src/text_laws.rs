//! What holds of wrapping, padding and picking, whatever the text.

use vstd::prelude::*;
use crate::text;

verus! {

/// Where the leading white space of `s` ends.
pub proof fn lemma_trimmed_start(s: Seq<char>) -> (j: int)
    ensures
        0 <= j <= s.len(),
        text::trimmed_start(s) == s.skip(j),
        forall|i: int| 0 <= i < j ==> text::space(#[trigger] s[i]),
        j < s.len() ==> !text::space(s[j]),
    decreases s.len(),
{
    if s.len() > 0 && text::space(s[0]) {
        let k = lemma_trimmed_start(s.skip(1));
        assert(s.skip(1).skip(k) == s.skip(k + 1));
        assert forall|i: int| 0 <= i < k + 1 implies text::space(#[trigger] s[i]) by {
            if i > 0 {
                assert(s.skip(1)[i - 1] == s[i]);
            }
        }
        k + 1
    } else {
        assert(s.skip(0) == s);
        0
    }
}

/// Where the trailing white space of `s` starts.
pub proof fn lemma_trimmed_end(s: Seq<char>) -> (k: int)
    ensures
        0 <= k <= s.len(),
        text::trimmed_end(s) == s.take(k),
        forall|i: int| k <= i < s.len() ==> text::space(#[trigger] s[i]),
        k > 0 ==> !text::space(s[k - 1]),
    decreases s.len(),
{
    if s.len() > 0 && text::space(s.last()) {
        let k = lemma_trimmed_end(s.drop_last());
        assert(s.drop_last().take(k) == s.take(k));
        assert forall|i: int| k <= i < s.len() implies text::space(#[trigger] s[i]) by {
            if i < s.len() - 1 {
                assert(s.drop_last()[i] == s[i]);
            }
        }
        k
    } else {
        assert(s.take(s.len() as int) == s);
        s.len() as int
    }
}

/// Wrapping loses nothing: the rows one after the other are the line.
pub proof fn law_wrap_keeps_the_line(s: Seq<char>, width: int)
    ensures
        text::wrapped(s, width).flatten() == s,
{
    if width < 4 {
        seq![s].lemma_flatten_one_element();
    } else {
        lemma_pieces_flatten(s, width);
    }
}

proof fn lemma_pieces_flatten(s: Seq<char>, width: int)
    ensures
        text::pieces(s, width).flatten() == s,
    decreases s.len(),
{
    if width <= 0 || s.len() <= width {
        seq![s].lemma_flatten_one_element();
    } else {
        let rows = text::pieces(s, width);
        lemma_pieces_flatten(s.skip(width), width);
        assert(rows.drop_first() == text::pieces(s.skip(width), width));
        assert(rows.first() == s.take(width));
        assert(s.take(width) + s.skip(width) == s);
    }
}

/// From four columns on every row fits the width, every row but the last fills
/// it, and there is at least one row.
pub proof fn law_wrapped_rows_fit(s: Seq<char>, width: int)
    requires
        width >= 4,
    ensures
        text::wrapped(s, width).len() >= 1,
        forall|i: int|
            0 <= i < text::wrapped(s, width).len() ==> (#[trigger] text::wrapped(s, width)[i]).len() <= width,
        forall|i: int|
            0 <= i < text::wrapped(s, width).len() - 1 ==> (#[trigger] text::wrapped(s, width)[i]).len()
                == width,
    decreases s.len(),
{
    if s.len() > width {
        let rest = text::pieces(s.skip(width), width);
        law_wrapped_rows_fit(s.skip(width), width);
        assert forall|i: int| 0 <= i < text::pieces(s, width).len() implies (#[trigger] text::pieces(
            s,
            width,
        )[i]).len() <= width && (i < text::pieces(s, width).len() - 1 ==> text::pieces(s, width)[i].len()
            == width) by {
            if i > 0 {
                assert(text::pieces(s, width)[i] == rest[i - 1]);
                assert(text::wrapped(s.skip(width), width)[i - 1] == rest[i - 1]);
            }
        }
    }
}

/// A padded text has exactly the width asked for, and clipping comes first.
pub proof fn law_padded_width(s: Seq<char>, width: nat)
    ensures
        text::padded(s, width as int).len() == width,
        text::clipped(s, width as int).is_prefix_of(text::padded(s, width as int)),
{
}

/// A line that can be picked still can once the white space at its end is gone.
proof fn lemma_pickable_trimmed(line: Seq<char>)
    requires
        text::pickable(line),
    ensures
        text::pickable(text::trimmed_end(line)),
        text::trimmed_end(line).len() > 0,
        !text::space(text::trimmed_end(line).last()),
        text::trimmed_end(text::trimmed_end(line)) == text::trimmed_end(line),
{
    let k = lemma_trimmed_end(line);
    let j = lemma_trimmed_start(line);
    let t = text::trimmed_end(line);
    let head = text::trimmed_start(line);
    lemma_trimmed_end(head);
    assert(head.len() > 0);
    assert(!text::space(line[j]));
    assert(j < k);
    let i = lemma_trimmed_start(t);
    assert(t[j] == line[j]);
    assert(i == j) by {
        if i < j {
            assert(t[i] == line[i]);
        }
    }
    let body = text::trimmed_start(t);
    assert(body == line.take(k).skip(j));
    if "```"@.is_prefix_of(body) {
        assert("```"@ == body.take("```"@.len() as int));
        assert(body.take("```"@.len() as int) == head.take("```"@.len() as int));
        assert("```"@.is_prefix_of(head));
    }
    let m = lemma_trimmed_end(body);
    assert(m > 0) by {
        if m == 0 {
            assert(text::space(body[0]));
            assert(body[0] == line[j]);
        }
    }
    lemma_trimmed_end(t);
}

/// No line of a text holds a line feed.
proof fn lemma_lines_hold_no_feed(s: Seq<char>)
    ensures
        forall|i: int, k: int|
            0 <= i < text::lines_of(s).len() && 0 <= k < text::lines_of(s)[i].len()
                ==> #[trigger] text::lines_of(s)[i][k] != '\n',
    decreases s.len(),
{
    text::lemma_line_end(s);
    if s.len() == 0 {
    } else if text::line_end(s) >= s.len() {
    } else {
        let rest = s.skip(text::line_end(s) + 1);
        lemma_lines_hold_no_feed(rest);
        assert forall|i: int, k: int|
            0 <= i < text::lines_of(s).len() && 0 <= k < text::lines_of(s)[i].len() implies #[trigger] text::lines_of(
            s,
        )[i][k] != '\n' by {
            if i > 0 {
                assert(text::lines_of(s)[i] == text::lines_of(rest)[i - 1]);
                assert(text::lines_of(rest)[i - 1][k] != '\n');
            } else {
                assert(text::lines_of(s)[0][k] == s[k]);
            }
        }
    }
}

/// Every line that is offered is one line of text: not blank, no fence, without
/// a line feed and without white space at its end.
pub proof fn law_offered_lines(s: Seq<char>, i: int)
    requires
        0 <= i < text::selectable(s).len(),
    ensures
        text::pickable(text::selectable(s)[i]),
        text::selectable(s)[i].len() > 0,
        !text::space(text::selectable(s)[i].last()),
        text::trimmed_end(text::selectable(s)[i]) == text::selectable(s)[i],
        forall|k: int| 0 <= k < text::selectable(s)[i].len() ==> #[trigger] text::selectable(s)[i][k] != '\n',
{
    let keep = |line: Seq<char>| text::pickable(line);
    let kept = text::lines_of(s).filter(keep);
    text::lines_of(s).lemma_filter_pred(keep, i);
    assert(keep(kept[i]));
    lemma_pickable_trimmed(kept[i]);
    text::lines_of(s).lemma_filter_contains_rev(keep, kept[i]);
    let from = choose|n: int| 0 <= n < text::lines_of(s).len() && text::lines_of(s)[n] == kept[i];
    lemma_lines_hold_no_feed(s);
    let k = lemma_trimmed_end(kept[i]);
    assert(text::selectable(s)[i] == text::trimmed_end(kept[i]));
    assert forall|m: int| 0 <= m < text::selectable(s)[i].len() implies #[trigger] text::selectable(s)[i][m]
        != '\n' by {
        assert(text::lines_of(s)[from][m] != '\n');
    }
}

/// Joining from the front.
pub proof fn lemma_joined_front(parts: Seq<Seq<char>>, between: Seq<char>)
    requires
        parts.len() >= 2,
    ensures
        text::joined(parts, between) == parts[0] + between + text::joined(parts.skip(1), between),
    decreases parts.len(),
{
    if parts.len() == 2 {
        assert(parts.drop_last().len() == 1);
        assert(parts.skip(1).len() == 1);
        assert(text::joined(parts.drop_last(), between) == parts[0]);
        assert(text::joined(parts.skip(1), between) == parts[1]);
    } else {
        let init = parts.drop_last();
        lemma_joined_front(init, between);
        assert(init.skip(1) == parts.skip(1).drop_last());
        assert(parts.skip(1).last() == parts.last());
        assert(text::joined(parts, between) == text::joined(init, between) + between + parts.last());
        assert(text::joined(parts.skip(1), between) == text::joined(init.skip(1), between) + between
            + parts.last());
        assert(text::joined(parts, between) == parts[0] + between + text::joined(parts.skip(1), between));
    }
}

/// Lines joined by line feeds split into the same lines again.
proof fn lemma_lines_of_joined(lines: Seq<Seq<char>>)
    requires
        forall|i: int|
            #![trigger lines[i]]
            0 <= i < lines.len() ==> lines[i].len() > 0 && lines[i].last() != '\r',
        forall|i: int, k: int|
            0 <= i < lines.len() && 0 <= k < lines[i].len() ==> #[trigger] lines[i][k] != '\n',
    ensures
        text::lines_of(text::joined(lines, seq!['\n'])) == lines,
    decreases lines.len(),
{
    let all = text::joined(lines, seq!['\n']);
    text::lemma_line_end(all);
    if lines.len() == 0 {
    } else if lines.len() == 1 {
        assert(all == lines[0]);
        if text::line_end(all) < all.len() {
            assert(lines[0][text::line_end(all)] != '\n');
        }
        assert(text::lines_of(all) == lines);
    } else {
        let first = lines[0];
        let rest = lines.skip(1);
        lemma_joined_front(lines, seq!['\n']);
        assert forall|i: int, k: int|
            0 <= i < rest.len() && 0 <= k < rest[i].len() implies #[trigger] rest[i][k]
            != '\n' by {
            assert(lines[i + 1][k] != '\n');
        }
        lemma_lines_of_joined(rest);
        assert(all[first.len() as int] == '\n');
        assert(text::line_end(all) == first.len()) by {
            if text::line_end(all) < first.len() {
                assert(all[text::line_end(all)] == first[text::line_end(all)]);
                assert(lines[0][text::line_end(all)] != '\n');
            }
        }
        assert(all.take(text::line_end(all)) == first);
        assert(all.skip(text::line_end(all) + 1) == text::joined(rest, seq!['\n']));
        assert(text::lines_of(all) == seq![first] + rest);
        assert(seq![first] + rest == lines);
    }
}

proof fn lemma_filter_all(lines: Seq<Seq<char>>, keep: spec_fn(Seq<char>) -> bool)
    requires
        forall|i: int| 0 <= i < lines.len() ==> keep(#[trigger] lines[i]),
    ensures
        lines.filter(keep) == lines,
    decreases lines.len(),
{
    reveal(Seq::filter);
    if lines.len() > 0 {
        lemma_filter_all(lines.drop_last(), keep);
        assert(lines.drop_last().push(lines.last()) == lines);
    }
}

/// The whole answer, inserted as one text, offers the same lines again.
pub proof fn law_inserted_answer_offers_the_same(s: Seq<char>)
    ensures
        text::selectable(text::joined(text::selectable(s), seq!['\n'])) == text::selectable(s),
{
    let lines = text::selectable(s);
    assert forall|i: int|
        #![trigger lines[i]]
        0 <= i < lines.len() implies lines[i].len() > 0 && lines[i].last() != '\r' && text::pickable(
        lines[i],
    ) && text::trimmed_end(lines[i]) == lines[i] by {
        law_offered_lines(s, i);
    }
    assert forall|i: int, k: int|
        0 <= i < lines.len() && 0 <= k < lines[i].len() implies #[trigger] lines[i][k] != '\n' by {
        law_offered_lines(s, i);
    }
    lemma_lines_of_joined(lines);
    lemma_filter_all(lines, |line: Seq<char>| text::pickable(line));
    assert(text::selectable(text::joined(lines, seq!['\n'])) == lines);
}

/// White space and control characters, by their code points.
pub proof fn law_characters(c: char)
    ensures
        text::space(c) <==> {
            let n = c as u32;
            ||| n == 0x20
            ||| 9 <= n < 14
            ||| n == 0x85
            ||| n == 0xa0
            ||| n == 0x1680
            ||| 0x2000 <= n < 0x200b
            ||| n == 0x2028
            ||| n == 0x2029
            ||| n == 0x202f
            ||| n == 0x205f
            ||| n == 0x3000
        },
        text::control(c) <==> (c as u32) < 32 || 127 <= (c as u32) < 160,
        '!' <= c <= '~' ==> !text::space(c) && !text::control(c),
{
}

/// Lengths: the smaller, the larger, and what is left.
pub proof fn law_lengths(a: int, b: int)
    ensures
        text::least(a, b) <= a && text::least(a, b) <= b,
        text::least(a, b) == a || text::least(a, b) == b,
        text::greatest(a, b) >= a && text::greatest(a, b) >= b,
        text::greatest(a, b) == a || text::greatest(a, b) == b,
        text::monus(a, b) >= 0 && text::monus(a, b) >= a - b,
        text::monus(a, b) == 0 || text::monus(a, b) == a - b,
{
}

/// A list of strings holds the text of each, in order.
pub proof fn law_texts(strings: Seq<String>, i: int)
    requires
        0 <= i < strings.len(),
    ensures
        text::texts(strings).len() == strings.len(),
        text::texts(strings)[i] == strings[i]@,
{
}

/// Trimming takes the white space off both ends, all of it, and nothing else: what
/// is left runs from `r.0` to `r.1`.
pub proof fn law_trimmed(s: Seq<char>) -> (r: (int, int))
    ensures
        0 <= r.0 <= r.1 <= s.len(),
        text::trimmed(s) == s.subrange(r.0, r.1),
        forall|i: int| 0 <= i < r.0 ==> text::space(#[trigger] s[i]),
        forall|i: int| r.1 <= i < s.len() ==> text::space(#[trigger] s[i]),
        r.0 < r.1 ==> !text::space(s[r.0]) && !text::space(s[r.1 - 1]),
{
    let j = lemma_trimmed_start(s);
    let head = text::trimmed_start(s);
    let k = lemma_trimmed_end(head);
    assert(head.take(k) == s.subrange(j, j + k));
    assert forall|i: int| j + k <= i < s.len() implies text::space(#[trigger] s[i]) by {
        assert(head[i - j] == s[i]);
    }
    if k > 0 {
        assert(head[k - 1] == s[j + k - 1]);
        assert(j < s.len());
    }
    (j, j + k)
}

/// A text with white space around it trims to itself.
pub proof fn law_trimmed_between(before: Seq<char>, s: Seq<char>, after: Seq<char>)
    requires
        forall|i: int| 0 <= i < before.len() ==> text::space(#[trigger] before[i]),
        forall|i: int| 0 <= i < after.len() ==> text::space(#[trigger] after[i]),
        s.len() > 0 ==> !text::space(s[0]) && !text::space(s.last()),
    ensures
        text::trimmed(before + s + after) == s,
{
    let all = before + s + after;
    let (j, k) = law_trimmed(all);
    if s.len() == 0 {
        if j < k {
            if j < before.len() {
                assert(all[j] == before[j]);
            } else {
                assert(all[j] == after[j - before.len()]);
            }
        }
        assert(text::trimmed(all) == s);
    } else {
        let n = before.len() as int;
        let m = n + s.len();
        assert(all[n] == s[0] && all[m - 1] == s.last());
        assert(j <= n && k >= m);
        if j < n {
            assert(all[j] == before[j]);
        }
        if k > m {
            assert(all[k - 1] == after[k - 1 - m]);
        }
        assert(all.subrange(n, m) == s);
    }
}

/// Slashes come off the end, all of them, and nothing else: `k` characters stay.
pub proof fn law_without_slashes(s: Seq<char>) -> (k: int)
    ensures
        0 <= k <= s.len(),
        text::without_slashes(s) == s.take(k),
        forall|i: int| k <= i < s.len() ==> #[trigger] s[i] == '/',
        k > 0 ==> s[k - 1] != '/',
    decreases s.len(),
{
    if s.len() > 0 && s.last() == '/' {
        let k = law_without_slashes(s.drop_last());
        assert(s.drop_last().take(k) == s.take(k));
        assert forall|i: int| k <= i < s.len() implies #[trigger] s[i] == '/' by {
            if i < s.len() - 1 {
                assert(s.drop_last()[i] == s[i]);
            }
        }
        k
    } else {
        assert(s.take(s.len() as int) == s);
        s.len() as int
    }
}

/// Whether a text holds a line feed.
pub open spec fn feeds(s: Seq<char>) -> bool {
    exists|i: int| 0 <= i < s.len() && s[i] == '\n'
}

/// A line ends at its line feed, with or without a carriage return before it, and
/// the rest goes on from there; the last line needs no line feed. Nothing is no
/// line.
pub proof fn law_lines(line: Seq<char>, rest: Seq<char>)
    requires
        !feeds(line),
    ensures
        text::lines_of(Seq::<char>::empty()) == Seq::<Seq<char>>::empty(),
        line.len() > 0 ==> text::lines_of(line) == seq![line],
        line.len() == 0 || line.last() != '\r' ==> text::lines_of(line + seq!['\n'] + rest)
            == seq![line] + text::lines_of(rest),
        text::lines_of(line + seq!['\r', '\n'] + rest) == seq![line] + text::lines_of(rest),
{
    text::lemma_line_end(line);
    if line.len() > 0 {
        assert(text::line_end(line) == line.len());
    }
    let plain = line + seq!['\n'] + rest;
    lemma_feed_at(plain, line.len() as int);
    assert(plain.take(line.len() as int) == line);
    assert(plain.skip(line.len() as int + 1) == rest);
    let other = line + seq!['\r', '\n'] + rest;
    lemma_feed_at(other, line.len() as int + 1);
    assert(other.take(line.len() as int + 1) == line.push('\r'));
    assert(line.push('\r').drop_last() == line);
    assert(other.skip(line.len() as int + 2) == rest);
}

proof fn lemma_feed_at(s: Seq<char>, at: int)
    requires
        0 <= at < s.len(),
        s[at] == '\n',
        forall|i: int| 0 <= i < at ==> s[i] != '\n',
    ensures
        text::line_end(s) == at,
{
    text::lemma_line_end(s);
}

/// Whether a text is white space only.
pub open spec fn blank(line: Seq<char>) -> bool {
    forall|i: int| 0 <= i < line.len() ==> text::space(#[trigger] line[i])
}

/// Whether three backticks stand at `j`, with white space only before them.
pub open spec fn fence_at(line: Seq<char>, j: int) -> bool {
    &&& 0 <= j
    &&& j + 3 <= line.len()
    &&& line[j] == '`' && line[j + 1] == '`' && line[j + 2] == '`'
    &&& forall|i: int| 0 <= i < j ==> text::space(#[trigger] line[i])
}

/// Whether a line is a markdown fence.
pub open spec fn fence(line: Seq<char>) -> bool {
    exists|j: int| fence_at(line, j)
}

/// A line can be picked unless it is blank or a fence: whatever else it holds does
/// not matter.
pub proof fn law_pickable(line: Seq<char>)
    ensures
        text::pickable(line) <==> !blank(line) && !fence(line),
{
    reveal_strlit("```");
    let ticks = "```"@;
    let j = lemma_trimmed_start(line);
    let head = text::trimmed_start(line);
    let k = lemma_trimmed_end(head);
    assert(text::trimmed(line).len() > 0 <==> !blank(line)) by {
        if k > 0 {
            assert(head[k - 1] == line[j + k - 1]);
            assert(!text::space(line[j + k - 1]));
        } else {
            assert forall|i: int| 0 <= i < line.len() implies text::space(#[trigger] line[i]) by {
                if i >= j {
                    assert(head[i - j] == line[i]);
                }
            }
        }
    }
    assert(ticks.len() == 3 && ticks[0] == '`' && ticks[1] == '`' && ticks[2] == '`');
    if ticks.is_prefix_of(head) {
        assert(head.take(3) == ticks);
        assert(head[0] == ticks[0] && head[1] == ticks[1] && head[2] == ticks[2]) by {
            assert(head.take(3)[0] == head[0]);
            assert(head.take(3)[1] == head[1]);
            assert(head.take(3)[2] == head[2]);
        }
        assert(fence_at(line, j));
    }
    if fence(line) {
        let n = choose|n: int| fence_at(line, n);
        law_characters('`');
        assert(!text::space(line[n]));
        assert(n == j) by {
            if n < j {
                assert(text::space(line[n]));
            }
            if j < n {
                assert(text::space(line[j]));
            }
        }
        assert(head.take(3) == ticks);
    }
}

/// What a line adds to the lines that are offered.
pub open spec fn offer(line: Seq<char>) -> Seq<Seq<char>> {
    if blank(line) || fence(line) {
        seq![]
    } else {
        seq![text::trimmed_end(line)]
    }
}

/// Line by line, each line that is neither blank nor a fence is offered, without
/// the white space at its end, in the order of the answer; no line is lost.
pub proof fn law_offered_line_by_line(line: Seq<char>, rest: Seq<char>)
    requires
        !feeds(line),
    ensures
        text::selectable(Seq::<char>::empty()) == Seq::<Seq<char>>::empty(),
        text::selectable(line) == offer(line),
        line.len() == 0 || line.last() != '\r' ==> text::selectable(line + seq!['\n'] + rest)
            == offer(line) + text::selectable(rest),
        text::selectable(line + seq!['\r', '\n'] + rest) == offer(line) + text::selectable(rest),
{
    law_lines(line, rest);
    law_pickable(line);
    lemma_offer(line, text::lines_of(rest));
    lemma_offer(line, seq![]);
    let keep = |l: Seq<char>| text::pickable(l);
    let cut = |l: Seq<char>| text::trimmed_end(l);
    let none = Seq::<Seq<char>>::empty();
    assert(none.filter(keep) == none) by {
        reveal(Seq::filter);
    }
    assert(none.map_values(cut) == none);
    assert(text::selectable(Seq::<char>::empty()) == none);
    assert(seq![line] + none == seq![line]);
    assert(offer(line) + none == offer(line));
    if line.len() == 0 {
        assert(line == Seq::<char>::empty());
        assert(blank(line));
    }
}

proof fn lemma_offer(line: Seq<char>, rest: Seq<Seq<char>>)
    ensures
        (seq![line] + rest).filter(|l: Seq<char>| text::pickable(l)).map_values(
            |l: Seq<char>| text::trimmed_end(l),
        ) == offer(line) + rest.filter(|l: Seq<char>| text::pickable(l)).map_values(
            |l: Seq<char>| text::trimmed_end(l),
        ),
{
    let keep = |l: Seq<char>| text::pickable(l);
    law_pickable(line);
    Seq::filter_distributes_over_add(seq![line], rest, keep);
    assert(seq![line].filter(keep) == (if text::pickable(line) {
        seq![line]
    } else {
        seq![]
    })) by {
        reveal(Seq::filter);
        let none = Seq::<Seq<char>>::empty();
        assert(seq![line].drop_last() == none);
        assert(none.filter(keep) == none);
    }
}

/// Every line of an answer that is neither blank nor a fence is offered.
pub proof fn law_no_line_is_lost(s: Seq<char>, n: int)
    requires
        0 <= n < text::lines_of(s).len(),
        !blank(text::lines_of(s)[n]),
        !fence(text::lines_of(s)[n]),
    ensures
        text::selectable(s).contains(text::trimmed_end(text::lines_of(s)[n])),
{
    let line = text::lines_of(s)[n];
    let keep = |l: Seq<char>| text::pickable(l);
    law_pickable(line);
    text::lines_of(s).lemma_filter_contains(keep, n);
    let kept = text::lines_of(s).filter(keep);
    let i = choose|i: int| 0 <= i < kept.len() && kept[i] == line;
    assert(text::selectable(s)[i] == text::trimmed_end(line));
}

/// Below four columns a line is left whole; from there on no row is empty but the
/// one of an empty line.
pub proof fn law_wrapped_last_row(s: Seq<char>, width: int)
    ensures
        width < 4 ==> text::wrapped(s, width) == seq![s],
        width >= 4 && s.len() > 0 ==> text::wrapped(s, width).last().len() > 0,
        width >= 4 && s.len() <= width ==> text::wrapped(s, width) == seq![s],
    decreases s.len(),
{
    if width >= 4 && s.len() > width {
        law_wrapped_last_row(s.skip(width), width);
        law_wrapped_rows_fit(s.skip(width), width);
        assert(text::pieces(s, width).last() == text::pieces(s.skip(width), width).last());
    }
}

/// Clipping keeps the first characters, padding fills up with blanks, and copies
/// are all the same.
pub proof fn law_clipped_and_padded(s: Seq<char>, width: nat, i: int, c: char)
    ensures
        text::clipped(s, width as int).len() == (if s.len() < width { s.len() } else { width }),
        0 <= i < s.len() && i < width ==> text::clipped(s, width as int)[i] == s[i],
        text::padded(s, width as int).len() == width,
        0 <= i < width ==> text::padded(s, width as int)[i] == (if i < s.len() { s[i] } else { ' ' }),
        text::copies(c, width).len() == width,
        0 <= i < width ==> text::copies(c, width)[i] == c,
{
}

/// Joining puts the separator between any two parts, and nowhere else.
pub proof fn law_joined(parts: Seq<Seq<char>>, part: Seq<char>, between: Seq<char>)
    ensures
        text::joined(Seq::<Seq<char>>::empty(), between) == Seq::<char>::empty(),
        text::joined(seq![part], between) == part,
        parts.len() > 0 ==> text::joined(parts.push(part), between) == text::joined(parts, between)
            + between + part,
{
    assert(parts.push(part).drop_last() == parts);
}

/// The number that decimal digits stand for.
pub open spec fn value(digits: Seq<char>) -> int
    decreases digits.len(),
{
    if digits.len() == 0 {
        0
    } else {
        value(digits.drop_last()) * 10 + (digits.last() as int - '0' as int)
    }
}

/// A number in decimal: digits only, that stand for it, without a leading zero.
pub proof fn law_decimal(n: nat)
    ensures
        value(text::decimal(n)) == n,
        text::decimal(n).len() > 0,
        text::decimal(n).len() > 1 ==> text::decimal(n)[0] != '0',
        forall|i: int|
            0 <= i < text::decimal(n).len() ==> '0' <= #[trigger] text::decimal(n)[i] <= '9',
        text::signed_decimal(n as int) == text::decimal(n),
        n > 0 ==> text::signed_decimal(-n) == seq!['-'] + text::decimal(n),
    decreases n,
{
    let all = text::decimal(n);
    if n < 10 {
        assert(all.drop_last() == Seq::<char>::empty());
        assert(value(all.drop_last()) == 0);
    } else {
        law_decimal(n / 10);
        assert(all.drop_last() == text::decimal(n / 10));
        assert(all[0] == text::decimal(n / 10)[0]);
        if text::decimal(n / 10).len() == 1 {
            let d = text::decimal(n / 10);
            assert(d.drop_last() == Seq::<char>::empty());
            assert(value(d.drop_last()) == 0);
            assert(value(d) == d[0] as int - '0' as int);
        }
        assert forall|i: int| 0 <= i < all.len() implies '0' <= #[trigger] all[i] <= '9' by {
            if i < all.len() - 1 {
                assert(all[i] == text::decimal(n / 10)[i]);
            }
        }
    }
}

} // verus!
