//! The start-up configuration: lines of `key = value`, with `#` opening a
//! comment line. Reading the file is the caller's part; finding a setting in
//! its text is done here.

use vstd::prelude::*;
use vstd::string::*;

verus! {

/// The key under which the relay's address is configured.
pub const JITO_URL_KEY: &'static str = "JITO-SHRED-URL";

/// A range of character positions.
#[derive(Clone, Copy, Debug, PartialEq, Eq)]
pub struct Span {
    pub start: usize,
    pub end: usize,
}

/// Whether a character is white space.
pub open spec fn is_space(c: char) -> bool {
    let n = c as u32;
    (0x09 <= n <= 0x0d) || n == 0x20 || n == 0x85 || n == 0xa0 || n == 0x1680 || (0x2000 <= n
        <= 0x200a) || n == 0x2028 || n == 0x2029 || n == 0x202f || n == 0x205f || n == 0x3000
}

/// The first position from `from` on that holds `c`, or the length of `s`.
pub open spec fn position_of(s: Seq<char>, c: char, from: int) -> int
    decreases s.len() - from,
{
    if from >= s.len() {
        s.len() as int
    } else if s[from] == c {
        from
    } else {
        position_of(s, c, from + 1)
    }
}

/// The first position from `from` on that holds no white space, or the
/// length of `s`.
pub open spec fn first_visible(s: Seq<char>, from: int) -> int
    decreases s.len() - from,
{
    if from >= s.len() {
        s.len() as int
    } else if !is_space(s[from]) {
        from
    } else {
        first_visible(s, from + 1)
    }
}

/// The position behind the last character before `to` that is no white
/// space, or 0.
pub open spec fn visible_end(s: Seq<char>, to: int) -> int
    decreases to,
{
    if to <= 0 {
        0
    } else if !is_space(s[to - 1]) {
        to
    } else {
        visible_end(s, to - 1)
    }
}

/// `s` without the white space at its start and at its end.
pub open spec fn trimmed(s: Seq<char>) -> Seq<char> {
    let a = first_visible(s, 0);
    let b = visible_end(s, s.len() as int);
    if a >= b {
        Seq::empty()
    } else {
        s.subrange(a, b)
    }
}

/// What one line sets `key` to: nothing if the line opens with `#`, is blank
/// or has no `=`; else the text behind the first `=`, trimmed, provided that
/// the text before it, trimmed, is `key`.
pub open spec fn setting_of_line(line: Seq<char>, key: Seq<char>) -> Option<Seq<char>> {
    let eq = position_of(line, '=', 0);
    if (line.len() > 0 && line[0] == '#') || trimmed(line).len() == 0 {
        None
    } else if eq >= line.len() {
        None
    } else if trimmed(line.subrange(0, eq)) == key {
        Some(trimmed(line.subrange(eq + 1, line.len() as int)))
    } else {
        None
    }
}

/// What the lines of `content` from position `from` on set `key` to: the
/// setting of the first line that has one.
pub open spec fn setting_from(content: Seq<char>, key: Seq<char>, from: int) -> Option<Seq<char>>
    decreases content.len() - from,
{
    if from < 0 || from >= content.len() {
        None
    } else {
        let end = position_of(content, '\n', from);
        match setting_of_line(content.subrange(from, end), key) {
            Some(value) => Some(value),
            None => if end >= content.len() {
                None
            } else {
                proof {
                    lemma_position_bounds(content, '\n', from);
                }
                setting_from(content, key, end + 1)
            },
        }
    }
}

/// What `content` sets `key` to.
pub open spec fn setting_in(content: Seq<char>, key: Seq<char>) -> Option<Seq<char>> {
    setting_from(content, key, 0)
}

/// A search from `from` ends at `from` or behind it, and not behind the end.
pub proof fn lemma_position_bounds(s: Seq<char>, c: char, from: int)
    requires
        0 <= from <= s.len(),
    ensures
        from <= position_of(s, c, from) <= s.len(),
    decreases s.len() - from,
{
    if from < s.len() && s[from] != c {
        lemma_position_bounds(s, c, from + 1);
    }
}

/// Whether a character is white space.
pub fn is_space_char(c: char) -> (r: bool)
    ensures
        r == is_space(c),
{
    let n: u32 = c as u32;
    (0x09 <= n && n <= 0x0d) || n == 0x20 || n == 0x85 || n == 0xa0 || n == 0x1680 || (0x2000 <= n
        && n <= 0x200a) || n == 0x2028 || n == 0x2029 || n == 0x202f || n == 0x205f || n == 0x3000
}

/// The characters of a text.
pub fn chars_of(text: &str) -> (chars: Vec<char>)
    ensures
        chars@ == text@,
{
    let mut chars: Vec<char> = Vec::new();
    let mut i: usize = 0;
    let total: usize = text.unicode_len();
    while i < total
        invariant
            i <= total,
            total == text@.len(),
            chars@ == text@.take(i as int),
        decreases total - i,
    {
        chars.push(text.get_char(i));
        assert(chars@ =~= text@.take(i as int + 1));
        i += 1;
    }
    assert(text@.take(i as int) =~= text@);
    chars
}

/// The first position in `lo..hi` that holds `c`, or `hi`.
fn find_char(chars: &Vec<char>, c: char, lo: usize, hi: usize) -> (at: usize)
    requires
        lo <= hi <= chars.len(),
    ensures
        lo <= at <= hi,
        at - lo == position_of(chars@.subrange(lo as int, hi as int), c, 0),
{
    let ghost s = chars@.subrange(lo as int, hi as int);
    let mut i: usize = lo;
    while i < hi
        invariant
            lo <= i <= hi <= chars.len(),
            s == chars@.subrange(lo as int, hi as int),
            position_of(s, c, 0) == position_of(s, c, i - lo),
        decreases hi - i,
    {
        assert(s[i - lo] == chars@[i as int]);
        if chars[i] == c {
            return i;
        }
        i += 1;
    }
    i
}

/// The part of `lo..hi` that is left when white space is trimmed off both
/// ends.
fn trim_span(chars: &Vec<char>, lo: usize, hi: usize) -> (span: Span)
    requires
        lo <= hi <= chars.len(),
    ensures
        lo <= span.start <= span.end <= hi,
        chars@.subrange(span.start as int, span.end as int) == trimmed(
            chars@.subrange(lo as int, hi as int),
        ),
{
    let ghost s = chars@.subrange(lo as int, hi as int);
    let mut a: usize = lo;
    while a < hi && is_space_char(chars[a])
        invariant
            lo <= a <= hi <= chars.len(),
            s == chars@.subrange(lo as int, hi as int),
            first_visible(s, 0) == first_visible(s, a - lo),
        decreases hi - a,
    {
        assert(s[a - lo] == chars@[a as int]);
        a += 1;
    }
    assert(first_visible(s, 0) == a - lo) by {
        if a < hi {
            assert(s[a - lo] == chars@[a as int]);
        }
    }
    let mut b: usize = hi;
    while b > lo && is_space_char(chars[b - 1])
        invariant
            lo <= b <= hi <= chars.len(),
            s == chars@.subrange(lo as int, hi as int),
            visible_end(s, s.len() as int) == visible_end(s, b - lo),
        decreases b - lo,
    {
        assert(s[b - lo - 1] == chars@[b as int - 1]);
        b -= 1;
    }
    assert(visible_end(s, s.len() as int) == b - lo) by {
        if b > lo {
            assert(s[b - lo - 1] == chars@[b as int - 1]);
        }
    }
    if a >= b {
        assert(chars@.subrange(hi as int, hi as int) =~= Seq::<char>::empty());
        Span { start: hi, end: hi }
    } else {
        assert(chars@.subrange(a as int, b as int) =~= s.subrange(a - lo, b - lo));
        Span { start: a, end: b }
    }
}

/// Whether the characters in `span` are exactly `key`.
fn span_is(chars: &Vec<char>, span: Span, key: &Vec<char>) -> (r: bool)
    requires
        span.start <= span.end <= chars.len(),
    ensures
        r == (chars@.subrange(span.start as int, span.end as int) == key@),
{
    let ghost s = chars@.subrange(span.start as int, span.end as int);
    if span.end - span.start != key.len() {
        return false;
    }
    let mut i: usize = 0;
    while i < key.len()
        invariant
            i <= key.len(),
            span.start <= span.end <= chars.len(),
            span.end - span.start == key.len(),
            s == chars@.subrange(span.start as int, span.end as int),
            forall|j: int| 0 <= j < i ==> s[j] == key@[j],
        decreases key.len() - i,
    {
        assert(s[i as int] == chars@[span.start + i]);
        if chars[span.start + i] != key[i] {
            return false;
        }
        i += 1;
    }
    assert(s =~= key@);
    true
}

/// What the line in `lo..hi` sets `key` to, as the span of the value.
fn line_setting(chars: &Vec<char>, lo: usize, hi: usize, key: &Vec<char>) -> (r: Option<Span>)
    requires
        lo <= hi <= chars.len(),
    ensures
        match r {
            Some(span) => {
                &&& span.start <= span.end <= chars.len()
                &&& setting_of_line(chars@.subrange(lo as int, hi as int), key@) == Some(
                    chars@.subrange(span.start as int, span.end as int),
                )
            },
            None => setting_of_line(chars@.subrange(lo as int, hi as int), key@) is None,
        },
{
    let ghost line = chars@.subrange(lo as int, hi as int);
    if lo < hi && chars[lo] == '#' {
        assert(line[0] == chars@[lo as int]);
        return None;
    }
    proof {
        if lo < hi {
            assert(line[0] == chars@[lo as int]);
        }
    }
    let whole = trim_span(chars, lo, hi);
    if whole.start == whole.end {
        return None;
    }
    let eq = find_char(chars, '=', lo, hi);
    if eq >= hi {
        return None;
    }
    assert(line.subrange(0, eq - lo) =~= chars@.subrange(lo as int, eq as int));
    assert(line.subrange(eq - lo + 1, line.len() as int) =~= chars@.subrange(
        eq as int + 1,
        hi as int,
    ));
    let name = trim_span(chars, lo, eq);
    if !span_is(chars, name, key) {
        return None;
    }
    Some(trim_span(chars, eq + 1, hi))
}

/// Finds what `content` sets `key` to. Lines that open with `#`, blank lines
/// and lines without `=` are passed over; of the others the first whose text
/// before the first `=` is `key`, white space aside, decides: its value is
/// the rest of the line, trimmed. `None` when no line sets `key`.
pub fn find_setting(content: &str, key: &str) -> (r: Option<String>)
    ensures
        match r {
            Some(value) => setting_in(content@, key@) == Some(value@),
            None => setting_in(content@, key@) is None,
        },
{
    let chars = chars_of(content);
    let name = chars_of(key);
    let total: usize = chars.len();
    let mut from: usize = 0;
    while from < total
        invariant
            from <= total,
            total == chars.len(),
            chars@ == content@,
            name@ == key@,
            setting_in(content@, key@) == setting_from(content@, key@, from as int),
        decreases total - from,
    {
        let end = find_char(&chars, '\n', from, total);
        proof {
            lemma_line_end(chars@, from as int, total as int);
        }
        match line_setting(&chars, from, end, &name) {
            Some(span) => {
                let value = content.substring_char(span.start, span.end);
                return Some(value.to_owned());
            },
            None => {},
        }
        if end >= total {
            return None;
        }
        from = end + 1;
    }
    None
}

/// The end of the line that starts at `from` is the same whether the search
/// for it runs over the whole text or over its rest.
proof fn lemma_line_end(s: Seq<char>, from: int, total: int)
    requires
        0 <= from <= total == s.len(),
    ensures
        position_of(s, '\n', from) == from + position_of(s.subrange(from, total), '\n', 0),
{
    lemma_position_shift(s, from, total, 0);
}

proof fn lemma_position_shift(s: Seq<char>, from: int, total: int, i: int)
    requires
        0 <= from <= total == s.len(),
        0 <= i <= total - from,
    ensures
        position_of(s, '\n', from + i) == from + position_of(s.subrange(from, total), '\n', i),
    decreases total - from - i,
{
    let rest = s.subrange(from, total);
    if i < total - from {
        assert(rest[i] == s[from + i]);
        if s[from + i] != '\n' {
            lemma_position_shift(s, from, total, i + 1);
        }
    }
}

/// The relay's address as `content` configures it, if it does.
pub fn jito_url_in(content: &str) -> (r: Option<String>)
    ensures
        match r {
            Some(value) => setting_in(content@, JITO_URL_KEY@) == Some(value@),
            None => setting_in(content@, JITO_URL_KEY@) is None,
        },
{
    find_setting(content, JITO_URL_KEY)
}

} // verus!
