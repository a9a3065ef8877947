//! The URL list: one URL per line of a text, blank lines dropped.

use vstd::prelude::*;
use crate::text::{chars_of, string_of};

verus! {

/// The characters that count as whitespace: those with the Unicode property
/// `White_Space`.
pub open spec fn is_whitespace(c: char) -> bool {
    let n = c as u32;
    ||| 0x09 <= n <= 0x0D
    ||| n == 0x20
    ||| n == 0x85
    ||| n == 0xA0
    ||| n == 0x1680
    ||| 0x2000 <= n <= 0x200A
    ||| n == 0x2028
    ||| n == 0x2029
    ||| n == 0x202F
    ||| n == 0x205F
    ||| n == 0x3000
}

/// `s` without the whitespace at its start.
pub open spec fn trim_start(s: Seq<char>) -> Seq<char>
    decreases s.len(),
{
    if s.len() > 0 && is_whitespace(s.first()) {
        trim_start(s.drop_first())
    } else {
        s
    }
}

/// `s` without the whitespace at its end.
pub open spec fn trim_end(s: Seq<char>) -> Seq<char>
    decreases s.len(),
{
    if s.len() > 0 && is_whitespace(s.last()) {
        trim_end(s.drop_last())
    } else {
        s
    }
}

/// `s` without the whitespace around it.
pub open spec fn trim(s: Seq<char>) -> Seq<char> {
    trim_end(trim_start(s))
}

/// Where the last line of `text` starts: behind its last line feed, or at 0
/// where it has none.
pub open spec fn last_line_start(text: Seq<char>) -> int
    decreases text.len(),
{
    if text.len() == 0 {
        0
    } else if text.last() == '\n' {
        text.len() as int
    } else {
        last_line_start(text.drop_last())
    }
}

/// The lines of `text`: the pieces between its line feeds, in order. A text
/// with n line feeds has n + 1 lines, some of which may be empty.
pub open spec fn lines(text: Seq<char>) -> Seq<Seq<char>>
    decreases text.len(),
{
    let start = last_line_start(text);
    let last = text.subrange(start, text.len() as int);
    if 0 < start <= text.len() {
        lines(text.subrange(0, start - 1)).push(last)
    } else {
        seq![last]
    }
}

/// The URLs that a list of lines holds: each line trimmed, blank ones left
/// out.
pub open spec fn urls_of_lines(lines: Seq<Seq<char>>) -> Seq<Seq<char>> {
    lines.map_values(|line: Seq<char>| trim(line)).filter(|line: Seq<char>| line.len() > 0)
}

/// The URL list that `text` holds: one URL per line, trimmed of surrounding
/// whitespace, in the order of the lines; lines that are empty or all
/// whitespace hold none.
pub open spec fn spec_parse_urls(text: Seq<char>) -> Seq<Seq<char>> {
    urls_of_lines(lines(text))
}

/// The contents of a list of strings.
pub open spec fn views(strings: Seq<String>) -> Seq<Seq<char>> {
    strings.map_values(|s: String| s@)
}

/// The last line starts inside the text or right behind it.
proof fn lemma_last_line_start_bounds(text: Seq<char>)
    ensures
        0 <= last_line_start(text) <= text.len(),
    decreases text.len(),
{
    if text.len() > 0 && text.last() != '\n' {
        lemma_last_line_start_bounds(text.drop_last());
    }
}

/// Where the first `a` characters are whitespace and the next is not,
/// `trim_start` cuts off exactly those.
proof fn lemma_trim_start(s: Seq<char>, a: int)
    requires
        0 <= a <= s.len(),
        forall|j: int| 0 <= j < a ==> is_whitespace(s[j]),
        a < s.len() ==> !is_whitespace(s[a]),
    ensures
        trim_start(s) == s.subrange(a, s.len() as int),
    decreases a,
{
    if a == 0 {
        assert(s.subrange(0, s.len() as int) == s);
    } else {
        let rest = s.drop_first();
        assert forall|j: int| 0 <= j < a - 1 implies is_whitespace(rest[j]) by {
            assert(rest[j] == s[j + 1]);
        }
        lemma_trim_start(rest, a - 1);
        assert(rest.subrange(a - 1, rest.len() as int) == s.subrange(a, s.len() as int));
    }
}

/// Where all characters from `b` on are whitespace and the one before is
/// not, `trim_end` keeps exactly the first `b`.
proof fn lemma_trim_end(s: Seq<char>, b: int)
    requires
        0 <= b <= s.len(),
        forall|j: int| b <= j < s.len() ==> is_whitespace(s[j]),
        b > 0 ==> !is_whitespace(s[b - 1]),
    ensures
        trim_end(s) == s.subrange(0, b),
    decreases s.len() - b,
{
    if b == s.len() {
        assert(s.subrange(0, s.len() as int) == s);
    } else {
        let rest = s.drop_last();
        lemma_trim_end(rest, b);
        assert(rest.subrange(0, b) == s.subrange(0, b));
    }
}

/// One more line adds its URL, where it holds one, behind the others.
proof fn lemma_urls_push(lines: Seq<Seq<char>>, line: Seq<char>)
    ensures
        urls_of_lines(lines.push(line)) == if trim(line).len() > 0 {
            urls_of_lines(lines).push(trim(line))
        } else {
            urls_of_lines(lines)
        },
{
    let trimmed = |line: Seq<char>| trim(line);
    let filled = |line: Seq<char>| line.len() > 0;
    reveal(Seq::filter);
    assert(lines.push(line).map_values(trimmed) == lines.map_values(trimmed).push(trim(line)));
    assert(lines.map_values(trimmed).push(trim(line)).drop_last() == lines.map_values(trimmed));
}

/// Whether `c` is whitespace.
pub fn is_space(c: char) -> (space: bool)
    ensures
        space == is_whitespace(c),
{
    let n: u32 = c as u32;
    (0x09 <= n && n <= 0x0D) || n == 0x20 || n == 0x85 || n == 0xA0 || n == 0x1680 || (0x2000 <= n
        && n <= 0x200A) || n == 0x2028 || n == 0x2029 || n == 0x202F || n == 0x205F || n == 0x3000
}

/// The bounds of `chars[from..to]` without the whitespace around it.
fn trim_bounds(chars: &Vec<char>, from: usize, to: usize) -> (bounds: (usize, usize))
    requires
        from <= to <= chars@.len(),
    ensures
        from <= bounds.0 <= bounds.1 <= to,
        chars@.subrange(bounds.0 as int, bounds.1 as int) == trim(
            chars@.subrange(from as int, to as int),
        ),
{
    let ghost piece = chars@.subrange(from as int, to as int);
    let mut a: usize = from;
    while a < to && is_space(chars[a])
        invariant
            from <= a <= to <= chars@.len(),
            forall|j: int| from <= j < a ==> is_whitespace(chars@[j]),
        decreases to - a,
    {
        a += 1;
    }
    let mut b: usize = to;
    while b > a && is_space(chars[b - 1])
        invariant
            from <= a <= b <= to <= chars@.len(),
            forall|j: int| b <= j < to ==> is_whitespace(chars@[j]),
        decreases b - a,
    {
        b -= 1;
    }
    proof {
        lemma_trim_start(piece, a - from);
        let rest = piece.subrange(a - from, piece.len() as int);
        assert(rest == chars@.subrange(a as int, to as int));
        lemma_trim_end(rest, b - a);
        assert(rest.subrange(0, b - a) == chars@.subrange(a as int, b as int));
    }
    (a, b)
}

/// Adds to `urls` the URL that the line `chars[from..to]` holds, if any.
fn push_line(chars: &Vec<char>, from: usize, to: usize, urls: &mut Vec<String>)
    requires
        from <= to <= chars@.len(),
    ensures
        views(final(urls)@) == if trim(chars@.subrange(from as int, to as int)).len() > 0 {
            views(old(urls)@).push(trim(chars@.subrange(from as int, to as int)))
        } else {
            views(old(urls)@)
        },
{
    let (a, b) = trim_bounds(chars, from, to);
    if a < b {
        let url = string_of(chars, a, b);
        urls.push(url);
        assert(views(urls@) == views(old(urls)@).push(url@));
    }
}

/// The URL list that `text` holds: one URL per line, trimmed of surrounding
/// whitespace, in the order of the lines. Lines that are empty or hold only
/// whitespace are dropped, so no URL of the list is empty.
pub fn parse_urls(text: &str) -> (urls: Vec<String>)
    ensures
        views(urls@) == spec_parse_urls(text@),
        forall|i: int| 0 <= i < urls@.len() ==> (#[trigger] urls@[i])@.len() > 0,
{
    let chars = chars_of(text);
    let mut urls: Vec<String> = Vec::new();
    let mut line_start: usize = 0;
    let mut i: usize = 0;
    assert(views(urls@) == Seq::<Seq<char>>::empty());
    while i < chars.len()
        invariant
            0 <= line_start <= i <= chars@.len(),
            line_start == last_line_start(chars@.take(i as int)),
            views(urls@) == if line_start == 0 {
                Seq::<Seq<char>>::empty()
            } else {
                spec_parse_urls(chars@.take(line_start - 1))
            },
        decreases chars@.len() - i,
    {
        assert(chars@.take(i + 1).drop_last() == chars@.take(i as int));
        if chars[i] == '\n' {
            proof {
                lemma_lines_step(chars@.take(i as int));
                if line_start > 0 {
                    assert(chars@.take(i as int).subrange(0, line_start - 1) == chars@.take(
                        line_start - 1,
                    ));
                }
                assert(chars@.take(i as int).subrange(line_start as int, i as int)
                    == chars@.subrange(line_start as int, i as int));
            }
            push_line(&chars, line_start, i, &mut urls);
            line_start = i + 1;
        }
        i += 1;
    }
    proof {
        assert(chars@.take(i as int) == chars@);
        lemma_lines_step(chars@);
        if line_start > 0 {
            assert(chars@.subrange(0, line_start - 1) == chars@.take(line_start - 1));
        }
    }
    push_line(&chars, line_start, i, &mut urls);
    assert forall|i: int| 0 <= i < urls@.len() implies (#[trigger] urls@[i])@.len() > 0 by {
        assert(views(urls@)[i] == urls@[i]@);
        lemma_parsed_urls_are_trimmed(text@, i);
    }
    urls
}

/// The URLs of a text are those of the text before its last line, followed
/// by the URL of the last line where it holds one.
proof fn lemma_lines_step(text: Seq<char>)
    ensures
        ({
            let start = last_line_start(text);
            let last = trim(text.subrange(start, text.len() as int));
            let before = if start == 0 {
                Seq::<Seq<char>>::empty()
            } else {
                spec_parse_urls(text.subrange(0, start - 1))
            };
            spec_parse_urls(text) == if last.len() > 0 {
                before.push(last)
            } else {
                before
            }
        }),
{
    let start = last_line_start(text);
    let last = text.subrange(start, text.len() as int);
    lemma_last_line_start_bounds(text);
    if start == 0 {
        assert(lines(text) == Seq::<Seq<char>>::empty().push(last));
        lemma_urls_push(Seq::<Seq<char>>::empty(), last);
        reveal(Seq::filter);
    } else {
        lemma_urls_push(lines(text.subrange(0, start - 1)), last);
    }
}

/// `trim_start` cuts whitespace off the front and nothing else.
proof fn lemma_trim_start_cut(s: Seq<char>)
    ensures
        trim_start(s).len() <= s.len(),
        trim_start(s) == s.subrange(s.len() - trim_start(s).len(), s.len() as int),
        trim_start(s).len() > 0 ==> !is_whitespace(trim_start(s).first()),
    decreases s.len(),
{
    if s.len() > 0 && is_whitespace(s.first()) {
        let rest = s.drop_first();
        lemma_trim_start_cut(rest);
        let kept = trim_start(rest).len();
        assert(rest.subrange(rest.len() - kept, rest.len() as int) == s.subrange(
            s.len() - kept,
            s.len() as int,
        ));
    } else {
        assert(s.subrange(0, s.len() as int) == s);
    }
}

/// `trim_end` cuts whitespace off the back and nothing else.
proof fn lemma_trim_end_cut(s: Seq<char>)
    ensures
        trim_end(s).len() <= s.len(),
        trim_end(s) == s.subrange(0, trim_end(s).len() as int),
        trim_end(s).len() > 0 ==> !is_whitespace(trim_end(s).last()),
    decreases s.len(),
{
    if s.len() > 0 && is_whitespace(s.last()) {
        let rest = s.drop_last();
        lemma_trim_end_cut(rest);
        assert(rest.subrange(0, trim_end(rest).len() as int) == s.subrange(
            0,
            trim_end(rest).len() as int,
        ));
    } else {
        assert(s.subrange(0, s.len() as int) == s);
    }
}

/// No line feed lies behind the start of the last line.
proof fn lemma_last_line_has_no_feed(text: Seq<char>, j: int)
    requires
        last_line_start(text) <= j < text.len(),
    ensures
        text[j] != '\n',
    decreases text.len(),
{
    lemma_last_line_start_bounds(text);
    if text.len() > 0 && text.last() != '\n' && j < text.len() - 1 {
        lemma_last_line_has_no_feed(text.drop_last(), j);
    }
}

/// No line holds a line feed.
proof fn lemma_lines_have_no_feed(text: Seq<char>, i: int, j: int)
    requires
        0 <= i < lines(text).len(),
        0 <= j < lines(text)[i].len(),
    ensures
        lines(text)[i][j] != '\n',
    decreases text.len(),
{
    let start = last_line_start(text);
    lemma_last_line_start_bounds(text);
    if 0 < start && i < lines(text).len() - 1 {
        lemma_lines_have_no_feed(text.subrange(0, start - 1), i, j);
    } else {
        lemma_last_line_has_no_feed(text, start + j);
    }
}

/// Every URL of the list is usable as it stands: it is not empty, neither
/// starts nor ends with whitespace, and holds no line feed.
pub proof fn lemma_parsed_urls_are_trimmed(text: Seq<char>, i: int)
    requires
        0 <= i < spec_parse_urls(text).len(),
    ensures
        spec_parse_urls(text)[i].len() > 0,
        !is_whitespace(spec_parse_urls(text)[i].first()),
        !is_whitespace(spec_parse_urls(text)[i].last()),
        !spec_parse_urls(text)[i].contains('\n'),
{
    let trimmed = lines(text).map_values(|line: Seq<char>| trim(line));
    let filled = |line: Seq<char>| line.len() > 0;
    let url = spec_parse_urls(text)[i];
    trimmed.lemma_filter_pred(filled, i);
    assert(trimmed.filter(filled).contains(url));
    trimmed.lemma_filter_contains_rev(filled, url);
    let k = choose|k: int| 0 <= k < trimmed.len() && trimmed[k] == url;
    let line = lines(text)[k];
    let front = trim_start(line);
    lemma_trim_start_cut(line);
    lemma_trim_end_cut(front);
    assert(url == trim_end(front));
    assert(url.first() == front.first());
    assert forall|j: int| 0 <= j < url.len() implies url[j] != '\n' by {
        assert(url[j] == front[j]);
        assert(front[j] == line[line.len() - front.len() + j]);
        lemma_lines_have_no_feed(text, k, line.len() - front.len() + j);
    }
}

} // verus!
