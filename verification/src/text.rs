//! Text as a sequence of characters: whitespace, trimming, lines, wrapping.
//!
//! Every function here counts characters, never bytes; `byte_at` is the one
//! bridge between the two.

use vstd::prelude::*;
use vstd::string::*;
use vstd::utf8::*;

verus! {

/// `String::push` appends one character.
pub assume_specification[ String::push ](s: &mut String, c: char)
    ensures
        final(s)@ == old(s)@.push(c),
;

/// The texts that a sequence of strings holds.
pub open spec fn texts(strings: Seq<String>) -> Seq<Seq<char>> {
    Seq::new(strings.len(), |i: int| strings[i]@)
}

/// `n` copies of `c`.
pub open spec fn copies(c: char, n: nat) -> Seq<char> {
    Seq::new(n, |i: int| c)
}

/// The smaller of two lengths.
pub open spec fn least(a: int, b: int) -> int {
    if a <= b {
        a
    } else {
        b
    }
}

/// The larger of two lengths.
pub open spec fn greatest(a: int, b: int) -> int {
    if a >= b {
        a
    } else {
        b
    }
}

/// What is left of `a` when `b` is taken away, or nothing.
pub open spec fn monus(a: int, b: int) -> int {
    if a >= b {
        a - b
    } else {
        0
    }
}

/// The Unicode property White_Space.
pub open spec fn space(c: char) -> bool {
    ||| '\u{9}' <= c <= '\u{d}'
    ||| c == ' '
    ||| c == '\u{85}'
    ||| c == '\u{a0}'
    ||| c == '\u{1680}'
    ||| '\u{2000}' <= c <= '\u{200a}'
    ||| c == '\u{2028}'
    ||| c == '\u{2029}'
    ||| c == '\u{202f}'
    ||| c == '\u{205f}'
    ||| c == '\u{3000}'
}

/// The Unicode general category Cc.
pub open spec fn control(c: char) -> bool {
    c <= '\u{1f}' || '\u{7f}' <= c <= '\u{9f}'
}

/// `s` without the white space it starts with.
pub open spec fn trimmed_start(s: Seq<char>) -> Seq<char>
    decreases s.len(),
{
    if s.len() > 0 && space(s[0]) {
        trimmed_start(s.skip(1))
    } else {
        s
    }
}

/// `s` without the white space it ends with.
pub open spec fn trimmed_end(s: Seq<char>) -> Seq<char>
    decreases s.len(),
{
    if s.len() > 0 && space(s.last()) {
        trimmed_end(s.drop_last())
    } else {
        s
    }
}

/// `s` without the white space at either end.
pub open spec fn trimmed(s: Seq<char>) -> Seq<char> {
    trimmed_end(trimmed_start(s))
}

/// `s` without the slashes it ends with.
pub open spec fn without_slashes(s: Seq<char>) -> Seq<char>
    decreases s.len(),
{
    if s.len() > 0 && s.last() == '/' {
        without_slashes(s.drop_last())
    } else {
        s
    }
}

/// The place of the first line feed in `s`, or the length of `s` without one.
pub open spec fn line_end(s: Seq<char>) -> int
    decreases s.len(),
{
    if s.len() == 0 || s[0] == '\n' {
        0
    } else {
        1 + line_end(s.skip(1))
    }
}

/// `s` without a carriage return at its end.
pub open spec fn without_return(s: Seq<char>) -> Seq<char> {
    if s.len() > 0 && s.last() == '\r' {
        s.drop_last()
    } else {
        s
    }
}

/// The lines of `s`: each ends at a line feed or at the end of `s`. A carriage
/// return before the line feed belongs to the ending, and no empty line follows
/// the last line feed.
pub open spec fn lines_of(s: Seq<char>) -> Seq<Seq<char>>
    decreases s.len(),
    via lines_of_ends
{
    if s.len() == 0 {
        seq![]
    } else if line_end(s) >= s.len() {
        seq![s]
    } else {
        seq![without_return(s.take(line_end(s)))] + lines_of(s.skip(line_end(s) + 1))
    }
}

#[via_fn]
proof fn lines_of_ends(s: Seq<char>) {
    lemma_line_end(s);
}

/// The first line feed is where `line_end` says.
pub proof fn lemma_line_end(s: Seq<char>)
    ensures
        0 <= line_end(s) <= s.len(),
        line_end(s) < s.len() ==> s[line_end(s)] == '\n',
        forall|i: int| 0 <= i < line_end(s) ==> s[i] != '\n',
    decreases s.len(),
{
    if s.len() > 0 && s[0] != '\n' {
        lemma_line_end(s.skip(1));
        assert forall|i: int| 0 <= i < line_end(s) implies s[i] != '\n' by {
            if i > 0 {
                assert(s.skip(1)[i - 1] == s[i]);
            }
        }
    }
}

/// Whether a line of an answer can be picked: it is no markdown fence and not
/// blank.
pub open spec fn pickable(line: Seq<char>) -> bool {
    &&& !"```"@.is_prefix_of(trimmed_start(line))
    &&& trimmed(line).len() > 0
}

/// The lines of an answer that can be picked, without the white space at their
/// ends.
pub open spec fn selectable(s: Seq<char>) -> Seq<Seq<char>> {
    lines_of(s).filter(|line: Seq<char>| pickable(line)).map_values(
        |line: Seq<char>| trimmed_end(line),
    )
}

/// `s` cut into rows of `width` characters; the last row holds what is left.
pub open spec fn pieces(s: Seq<char>, width: int) -> Seq<Seq<char>>
    decreases s.len(),
{
    if width <= 0 || s.len() <= width {
        seq![s]
    } else {
        seq![s.take(width)] + pieces(s.skip(width), width)
    }
}

/// The rows that show a line in `width` columns. Below four columns the line is
/// left whole.
pub open spec fn wrapped(s: Seq<char>, width: int) -> Seq<Seq<char>> {
    if width < 4 {
        seq![s]
    } else {
        pieces(s, width)
    }
}

/// The first `width` characters of `s`.
pub open spec fn clipped(s: Seq<char>, width: int) -> Seq<char> {
    s.take(least(width, s.len() as int))
}

/// The first `width` characters of `s`, filled up with blanks to that width.
pub open spec fn padded(s: Seq<char>, width: int) -> Seq<char> {
    clipped(s, width) + copies(' ', monus(width, s.len() as int) as nat)
}

/// The texts one after the other, with `between` after each but the last.
pub open spec fn joined(parts: Seq<Seq<char>>, between: Seq<char>) -> Seq<char>
    decreases parts.len(),
{
    if parts.len() == 0 {
        seq![]
    } else if parts.len() == 1 {
        parts[0]
    } else {
        joined(parts.drop_last(), between) + between + parts.last()
    }
}

/// The decimal digit for `d`.
pub open spec fn digit(d: nat) -> char {
    (48 + d) as char
}

/// `n` in decimal.
pub open spec fn decimal(n: nat) -> Seq<char>
    decreases n,
{
    if n < 10 {
        seq![digit(n)]
    } else {
        decimal(n / 10).push(digit(n % 10))
    }
}

/// `n` in decimal, with a minus sign where it is negative.
pub open spec fn signed_decimal(n: int) -> Seq<char> {
    if n < 0 {
        seq!['-'] + decimal((-n) as nat)
    } else {
        decimal(n as nat)
    }
}

/// Whether `c` is white space.
pub fn is_whitespace(c: char) -> (r: bool)
    ensures
        r == space(c),
{
    ('\u{9}' <= c && c <= '\u{d}') || c == ' ' || c == '\u{85}' || c == '\u{a0}' || c == '\u{1680}'
        || ('\u{2000}' <= c && c <= '\u{200a}') || c == '\u{2028}' || c == '\u{2029}' || c
        == '\u{202f}' || c == '\u{205f}' || c == '\u{3000}'
}

/// Whether `c` is a control character.
pub fn is_control(c: char) -> (r: bool)
    ensures
        r == control(c),
{
    c <= '\u{1f}' || ('\u{7f}' <= c && c <= '\u{9f}')
}

/// The characters of `text`.
pub fn chars_of(text: &str) -> (r: Vec<char>)
    ensures
        r@ == text@,
{
    let mut out: Vec<char> = Vec::new();
    for c in it: text.chars()
        invariant
            out@ == it.seq().take(it.index() as int),
            it.seq() == text@,
    {
        out.push(c);
    }
    assert(out@ == text@);
    out
}

/// The text made of `chars[from..to]`.
pub fn text_of(chars: &Vec<char>, from: usize, to: usize) -> (r: String)
    requires
        from <= to <= chars@.len(),
    ensures
        r@ == chars@.subrange(from as int, to as int),
{
    let mut out = String::new();
    let mut i: usize = from;
    while i < to
        invariant
            from <= i <= to <= chars@.len(),
            out@ == chars@.subrange(from as int, i as int),
        decreases to - i,
    {
        out.push(chars[i]);
        i = i + 1;
    }
    out
}

/// Whether two texts are the same.
pub fn same(a: &str, b: &str) -> (r: bool)
    ensures
        r == (a@ == b@),
{
    let x = chars_of(a);
    let y = chars_of(b);
    if x.len() != y.len() {
        return false;
    }
    let mut i: usize = 0;
    while i < x.len()
        invariant
            i <= x@.len() == y@.len(),
            x@.take(i as int) == y@.take(i as int),
            x@ == a@,
            y@ == b@,
        decreases x@.len() - i,
    {
        if x[i] != y[i] {
            assert(a@[i as int] != b@[i as int]);
            return false;
        }
        assert(x@.take(i + 1) == x@.take(i as int).push(x@[i as int]));
        assert(y@.take(i + 1) == y@.take(i as int).push(y@[i as int]));
        i = i + 1;
    }
    assert(x@.take(i as int) == a@);
    assert(y@.take(i as int) == b@);
    true
}

/// Two texts, one after the other.
pub fn concat(a: &str, b: &str) -> (r: String)
    ensures
        r@ == a@ + b@,
{
    let mut out = a.to_string();
    out.append(b);
    out
}

/// What follows `prefix` in `text`, where `text` starts with it.
pub fn strip_prefix<'a>(text: &'a str, prefix: &str) -> (r: Option<&'a str>)
    ensures
        r is Some == prefix@.is_prefix_of(text@),
        r matches Some(rest) ==> rest@ == text@.skip(prefix@.len() as int) && text@ == prefix@
            + rest@,
{
    let n: usize = text.unicode_len();
    let k: usize = prefix.unicode_len();
    if k > n {
        return None;
    }
    if same(text.substring_char(0, k), prefix) {
        let rest = text.substring_char(k, n);
        assert(text@ == prefix@ + rest@);
        Some(rest)
    } else {
        None
    }
}

/// Whether `text` ends with `suffix`.
pub fn ends_with(text: &str, suffix: &str) -> (r: bool)
    ensures
        r == suffix@.is_suffix_of(text@),
{
    let n: usize = text.unicode_len();
    let k: usize = suffix.unicode_len();
    k <= n && same(text.substring_char(n - k, n), suffix)
}

/// `text` without the white space it starts with.
pub fn trim_start(text: &str) -> (r: &str)
    ensures
        r@ == trimmed_start(text@),
{
    let chars = chars_of(text);
    let mut i: usize = 0;
    assert(text@.skip(0) == text@);
    while i < chars.len() && is_whitespace(chars[i])
        invariant
            i <= chars@.len(),
            chars@ == text@,
            trimmed_start(text@) == trimmed_start(text@.skip(i as int)),
        decreases chars@.len() - i,
    {
        assert(text@.skip(i as int).skip(1) == text@.skip(i + 1));
        i = i + 1;
    }
    text.substring_char(i, chars.len())
}

/// `text` without the white space it ends with.
pub fn trim_end(text: &str) -> (r: &str)
    ensures
        r@ == trimmed_end(text@),
{
    let chars = chars_of(text);
    let mut i: usize = chars.len();
    assert(text@.take(i as int) == text@);
    while i > 0 && is_whitespace(chars[i - 1])
        invariant
            i <= chars@.len(),
            chars@ == text@,
            trimmed_end(text@) == trimmed_end(text@.take(i as int)),
        decreases i,
    {
        assert(text@.take(i as int).drop_last() == text@.take(i - 1));
        i = i - 1;
    }
    text.substring_char(0, i)
}

/// `text` without the white space at either end.
pub fn trim(text: &str) -> (r: &str)
    ensures
        r@ == trimmed(text@),
{
    trim_end(trim_start(text))
}

/// `text` without the slashes it ends with.
pub fn trim_slashes(text: &str) -> (r: &str)
    ensures
        r@ == without_slashes(text@),
{
    let chars = chars_of(text);
    let mut i: usize = chars.len();
    assert(text@.take(i as int) == text@);
    while i > 0 && chars[i - 1] == '/'
        invariant
            i <= chars@.len(),
            chars@ == text@,
            without_slashes(text@) == without_slashes(text@.take(i as int)),
        decreases i,
    {
        assert(text@.take(i as int).drop_last() == text@.take(i - 1));
        i = i - 1;
    }
    text.substring_char(0, i)
}

/// The lines of `text`.
pub fn split_lines(text: &str) -> (r: Vec<String>)
    ensures
        texts(r@) == lines_of(text@),
{
    let chars = chars_of(text);
    let n: usize = chars.len();
    let mut out: Vec<String> = Vec::new();
    let mut at: usize = 0;
    assert(text@.skip(0) == text@);
    assert(texts(out@) + lines_of(text@) == lines_of(text@));
    while at < n
        invariant
            at <= n == chars@.len(),
            chars@ == text@,
            texts(out@) + lines_of(text@.skip(at as int)) == lines_of(text@),
        decreases n - at,
    {
        let ghost rest = text@.skip(at as int);
        let mut stop: usize = at;
        while stop < n && chars[stop] != '\n'
            invariant
                at <= stop <= n == chars@.len(),
                rest == chars@.skip(at as int),
                forall|i: int| 0 <= i < stop - at ==> rest[i] != '\n',
            decreases n - stop,
        {
            assert(rest[stop - at] == chars@[stop as int]);
            stop = stop + 1;
        }
        proof {
            lemma_line_end(rest);
            if stop < n {
                assert(rest[stop - at] == '\n');
            }
            assert(line_end(rest) == stop - at);
        }
        let ghost before = texts(out@);
        if stop == n {
            let line = text_of(&chars, at, n);
            assert(line@ == rest);
            out.push(line);
            assert(texts(out@) == before + lines_of(rest));
            assert(text@.skip(n as int) == Seq::<char>::empty());
            assert(lines_of(text@.skip(n as int)) == Seq::<Seq<char>>::empty());
            at = n;
        } else {
            let ghost whole = rest.take(line_end(rest));
            let to: usize = if stop > at && chars[stop - 1] == '\r' {
                stop - 1
            } else {
                stop
            };
            let line = text_of(&chars, at, to);
            assert(line@ == without_return(whole));
            out.push(line);
            assert(rest.skip(line_end(rest) + 1) == text@.skip(stop + 1));
            assert(texts(out@) == before + seq![without_return(whole)]);
            assert(texts(out@) + lines_of(text@.skip(stop + 1)) == before + lines_of(rest));
            at = stop + 1;
        }
    }
    assert(text@.skip(n as int) == Seq::<char>::empty());
    assert(lines_of(text@.skip(n as int)) == Seq::<Seq<char>>::empty());
    out
}

/// Splits an answer into the lines that can be picked, dropping markdown
/// fences.
pub fn selectable_lines(text: &str) -> (r: Vec<String>)
    ensures
        texts(r@) == selectable(text@),
{
    let lines = split_lines(text);
    let ghost all = lines_of(text@);
    let ghost keep = |line: Seq<char>| pickable(line);
    let ghost trim_all = |line: Seq<char>| trimmed_end(line);
    let mut out: Vec<String> = Vec::new();
    let mut i: usize = 0;
    assert(all.take(0).filter(keep).map_values(trim_all) == Seq::<Seq<char>>::empty()) by {
        reveal(Seq::filter);
    }
    while i < lines.len()
        invariant
            i <= lines@.len(),
            texts(lines@) == all,
            keep == (|line: Seq<char>| pickable(line)),
            trim_all == (|line: Seq<char>| trimmed_end(line)),
            texts(out@) == all.take(i as int).filter(keep).map_values(trim_all),
        decreases lines@.len() - i,
    {
        let line = lines[i].as_str();
        assert(line@ == all[i as int]);
        let fence = strip_prefix(trim_start(line), "```").is_some();
        let blank = trim(line).is_empty();
        proof {
            assert(all.take(i + 1) == all.take(i as int).push(all[i as int]));
            all.take(i as int).lemma_filter_push(all[i as int], keep);
        }
        let ghost before = texts(out@);
        if !fence && !blank {
            out.push(trim_end(line).to_string());
            assert(texts(out@) == before.push(trimmed_end(all[i as int])));
            assert(all.take(i + 1).filter(keep).map_values(trim_all) == before.push(
                trimmed_end(all[i as int]),
            ));
        }
        i = i + 1;
    }
    assert(all.take(i as int) == all);
    out
}

/// Hard-wraps a line by character count.
pub fn wrap(line: &str, width: usize) -> (r: Vec<String>)
    ensures
        texts(r@) == wrapped(line@, width as int),
{
    let mut out: Vec<String> = Vec::new();
    if width < 4 {
        out.push(line.to_string());
        assert(texts(out@) == seq![line@]);
        return out;
    }
    let chars = chars_of(line);
    let n: usize = chars.len();
    let mut at: usize = 0;
    assert(line@.skip(0) == line@);
    assert(texts(out@) + pieces(line@, width as int) == pieces(line@, width as int));
    while n - at > width
        invariant
            at <= n == chars@.len(),
            width >= 4,
            chars@ == line@,
            texts(out@) + pieces(line@.skip(at as int), width as int) == pieces(
                line@,
                width as int,
            ),
        decreases n - at,
    {
        let ghost rest = line@.skip(at as int);
        let ghost before = texts(out@);
        let row = text_of(&chars, at, at + width);
        assert(row@ == rest.take(width as int));
        out.push(row);
        assert(rest.skip(width as int) == line@.skip(at + width));
        assert(texts(out@) == before + seq![rest.take(width as int)]);
        assert(texts(out@) + pieces(line@.skip(at + width), width as int) == before + pieces(
            rest,
            width as int,
        ));
        at = at + width;
    }
    let ghost before = texts(out@);
    let row = text_of(&chars, at, n);
    assert(row@ == line@.skip(at as int));
    out.push(row);
    assert(texts(out@) == before + seq![line@.skip(at as int)]);
    out
}

/// The first `width` characters of `text`.
pub fn clip(text: &str, width: usize) -> (r: String)
    ensures
        r@ == clipped(text@, width as int),
{
    let n: usize = text.unicode_len();
    let k: usize = if width < n {
        width
    } else {
        n
    };
    text.substring_char(0, k).to_string()
}

/// `n` copies of `c`.
pub fn repeat(c: char, n: usize) -> (r: String)
    ensures
        r@ == copies(c, n as nat),
{
    let mut out = String::new();
    let mut i: usize = 0;
    while i < n
        invariant
            i <= n,
            out@ == copies(c, i as nat),
        decreases n - i,
    {
        out.push(c);
        i = i + 1;
        assert(out@ == copies(c, i as nat));
    }
    out
}

/// The first `width` characters of `text`, filled up with blanks.
pub fn pad_clip(text: &str, width: usize) -> (r: String)
    ensures
        r@ == padded(text@, width as int),
{
    let mut out = clip(text, width);
    let n: usize = out.as_str().unicode_len();
    if n < width {
        let blanks = repeat(' ', width - n);
        out.append(blanks.as_str());
    }
    assert(out@ == padded(text@, width as int));
    out
}

/// The texts one after the other, with `between` after each but the last.
pub fn join(parts: &Vec<String>, between: &str) -> (r: String)
    ensures
        r@ == joined(texts(parts@), between@),
{
    let ghost all = texts(parts@);
    let mut out = String::new();
    let mut i: usize = 0;
    while i < parts.len()
        invariant
            i <= parts@.len(),
            all == texts(parts@),
            out@ == joined(all.take(i as int), between@),
        decreases parts@.len() - i,
    {
        if i > 0 {
            out.append(between);
        }
        out.append(parts[i].as_str());
        assert(all.take(i + 1).drop_last() == all.take(i as int));
        assert(all.take(i + 1).last() == parts@[i as int]@);
        assert(out@ == joined(all.take(i + 1), between@));
        i = i + 1;
    }
    assert(all.take(i as int) == all);
    out
}

/// `n` in decimal.
pub fn show(n: u64) -> (r: String)
    ensures
        r@ == decimal(n as nat),
    decreases n,
{
    let d: u8 = (n % 10) as u8;
    let c: char = (48 + d) as char;
    if n < 10 {
        let mut out = String::new();
        out.push(c);
        assert(out@ == decimal(n as nat));
        out
    } else {
        let mut out = show(n / 10);
        out.push(c);
        out
    }
}

/// `n` in decimal, with a minus sign where it is negative.
pub fn show_signed(n: i32) -> (r: String)
    ensures
        r@ == signed_decimal(n as int),
{
    if n < 0 {
        let digits = show((-(n as i64)) as u64);
        let out = concat("-", digits.as_str());
        proof {
            reveal_strlit("-");
            assert("-"@ == seq!['-']);
        }
        out
    } else {
        show(n as u64)
    }
}

/// The number of bytes that UTF-8 takes for `c`.
fn width_of(c: char) -> (r: usize)
    ensures
        r == encode_scalar(c as u32).len(),
{
    let v: u32 = c as u32;
    if v <= 0x7f {
        1
    } else if v <= 0x7ff {
        2
    } else if v <= 0xffff {
        3
    } else {
        4
    }
}

/// Encoding a text is encoding its parts.
pub proof fn lemma_encode_concat(a: Seq<char>, b: Seq<char>)
    ensures
        encode_utf8(a + b) == encode_utf8(a) + encode_utf8(b),
    decreases a.len(),
{
    if a.len() == 0 {
        assert(a + b == b);
        assert(encode_utf8(a) + encode_utf8(b) == encode_utf8(b));
    } else {
        assert((a + b).drop_first() == a.drop_first() + b);
        lemma_encode_concat(a.drop_first(), b);
        assert(encode_utf8(a + b) == encode_utf8(a) + encode_utf8(b));
    }
}

/// The end of a prefix is a character boundary.
proof fn lemma_prefix_boundary(a: Seq<char>, b: Seq<char>)
    ensures
        is_char_boundary(encode_utf8(a + b), encode_utf8(a).len() as int),
    decreases a.len(),
{
    encode_utf8_valid_utf8(a + b);
    lemma_encode_concat(a, b);
    if a.len() == 0 {
    } else {
        let bytes = encode_utf8(a + b);
        encode_utf8_first_scalar(a + b);
        assert((a + b).drop_first() == a.drop_first() + b);
        lemma_prefix_boundary(a.drop_first(), b);
        assert(pop_first_scalar(bytes) == encode_utf8(a.drop_first() + b));
    }
}

/// The byte offset of the character at `i`, or the length in bytes where there
/// is none.
pub fn byte_at(text: &str, i: usize) -> (r: usize)
    ensures
        r == encode_utf8(text@.take(least(i as int, text@.len() as int))).len(),
{
    let total: usize = text.as_bytes().len();
    let chars = chars_of(text);
    let mut k: usize = 0;
    let mut at: usize = 0;
    while k < i && k < chars.len()
        invariant
            k <= i,
            k <= chars@.len(),
            chars@ == text@,
            total == encode_utf8(text@).len(),
            at == encode_utf8(text@.take(k as int)).len(),
        decreases chars@.len() - k,
    {
        proof {
            let now = text@.take(k as int);
            let one = seq![text@[k as int]];
            assert(text@.take(k + 1) == now + one);
            lemma_encode_concat(now, one);
            assert(one.drop_first() == Seq::<char>::empty());
            assert(encode_utf8(one) == encode_scalar(one[0] as u32)) by {
                reveal_with_fuel(encode_utf8, 2);
            }
            assert(text@ == text@.take(k + 1) + text@.skip(k + 1));
            lemma_encode_concat(text@.take(k + 1), text@.skip(k + 1));
        }
        at = at + width_of(chars[k]);
        k = k + 1;
    }
    at
}

/// The text before the character at `i`, and the text from there on.
pub fn cut(text: &str, i: usize) -> (r: (&str, &str))
    ensures
        r.0@ == text@.take(least(i as int, text@.len() as int)),
        r.1@ == text@.skip(least(i as int, text@.len() as int)),
{
    let ghost left = text@.take(least(i as int, text@.len() as int));
    let ghost right = text@.skip(least(i as int, text@.len() as int));
    let at: usize = byte_at(text, i);
    proof {
        assert(left + right == text@);
        lemma_prefix_boundary(left, right);
        lemma_encode_concat(left, right);
    }
    let r = text.split_at(at);
    proof {
        assert(encode_utf8(r.0@) == encode_utf8(left));
        assert(encode_utf8(r.1@) == encode_utf8(right));
        encode_utf8_decode_utf8(left);
        encode_utf8_decode_utf8(right);
        encode_utf8_decode_utf8(r.0@);
        encode_utf8_decode_utf8(r.1@);
    }
    r
}

} // verus!
