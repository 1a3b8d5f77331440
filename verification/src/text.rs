//! Character classes, runs of characters and lines, over sequences of `char`.
//!
//! Every scanner of this crate is phrased with two functions: [`run_end`],
//! the end of the longest run of one class that starts at an index, and
//! [`run_start`], the start of the longest run that ends at an index.

use crate::model::views;
use vstd::prelude::*;

verus! {

/// A class of characters that a scanner can run over.
#[derive(Clone, Copy, Debug, PartialEq, Eq, Structural)]
pub enum CharClass {
    /// Unicode white space.
    Whitespace,
    /// ASCII white space: space, tab, line feed, form feed, carriage return.
    AsciiWhitespace,
    /// The ASCII decimal digits.
    Digit,
    /// The path separator `/`.
    Slash,
    /// Everything but the path separator.
    NotSlash,
    /// Everything but a parenthesis and Unicode white space.
    VersionChar,
    /// Everything but the line feed.
    NotNewline,
}

/// An ASCII decimal digit.
pub open spec fn is_digit(c: char) -> bool {
    '0' <= c && c <= '9'
}

/// A character with the Unicode property `White_Space`.
pub open spec fn is_whitespace(c: char) -> bool {
    ||| ('\u{9}' <= c && c <= '\u{d}')
    ||| c == ' '
    ||| c == '\u{85}'
    ||| c == '\u{a0}'
    ||| c == '\u{1680}'
    ||| ('\u{2000}' <= c && c <= '\u{200a}')
    ||| c == '\u{2028}'
    ||| c == '\u{2029}'
    ||| c == '\u{202f}'
    ||| c == '\u{205f}'
    ||| c == '\u{3000}'
}

/// Space, tab, line feed, form feed or carriage return.
pub open spec fn is_ascii_whitespace(c: char) -> bool {
    c == ' ' || c == '\u{9}' || c == '\u{a}' || c == '\u{c}' || c == '\u{d}'
}

impl CharClass {
    /// Whether `c` belongs to the class.
    pub open spec fn holds(self, c: char) -> bool {
        match self {
            CharClass::Whitespace => is_whitespace(c),
            CharClass::AsciiWhitespace => is_ascii_whitespace(c),
            CharClass::Digit => is_digit(c),
            CharClass::Slash => c == '/',
            CharClass::NotSlash => c != '/',
            CharClass::VersionChar => c != '(' && c != ')' && !is_whitespace(c),
            CharClass::NotNewline => c != '\n',
        }
    }

    /// Tests whether `c` belongs to the class.
    pub fn test(self, c: char) -> (r: bool)
        ensures
            r == self.holds(c),
    {
        match self {
            CharClass::Whitespace => char_is_whitespace(c),
            CharClass::AsciiWhitespace => {
                c == ' ' || c == '\u{9}' || c == '\u{a}' || c == '\u{c}' || c == '\u{d}'
            },
            CharClass::Digit => '0' <= c && c <= '9',
            CharClass::Slash => c == '/',
            CharClass::NotSlash => c != '/',
            CharClass::VersionChar => c != '(' && c != ')' && !char_is_whitespace(c),
            CharClass::NotNewline => c != '\n',
        }
    }
}

/// Tests whether `c` is Unicode white space.
pub fn char_is_whitespace(c: char) -> (r: bool)
    ensures
        r == is_whitespace(c),
{
    ('\u{9}' <= c && c <= '\u{d}') || c == ' ' || c == '\u{85}' || c == '\u{a0}' || c
        == '\u{1680}' || ('\u{2000}' <= c && c <= '\u{200a}') || c == '\u{2028}' || c
        == '\u{2029}' || c == '\u{202f}' || c == '\u{205f}' || c == '\u{3000}'
}

/// The end of the longest run of `class` in `s` that starts at `from`: the
/// least index at or after `from` that is the end of `s` or holds a character
/// outside the class.
pub open spec fn run_end(s: Seq<char>, from: int, class: CharClass) -> int
    decreases s.len() - from,
{
    if 0 <= from < s.len() && class.holds(s[from]) {
        run_end(s, from + 1, class)
    } else {
        from
    }
}

/// The start of the longest run of `class` in `s` that ends at `to`: the
/// greatest index at or before `to` that is the start of `s` or follows a
/// character outside the class.
pub open spec fn run_start(s: Seq<char>, to: int, class: CharClass) -> int
    decreases to,
{
    if 0 < to <= s.len() && class.holds(s[to - 1]) {
        run_start(s, to - 1, class)
    } else {
        to
    }
}

/// What pins `run_end` down: it stays inside `s`, everything before it
/// belongs to the class, and the run cannot go on.
pub proof fn lemma_run_end(s: Seq<char>, from: int, class: CharClass)
    requires
        0 <= from <= s.len(),
    ensures
        from <= run_end(s, from, class) <= s.len(),
        forall|i: int| from <= i < run_end(s, from, class) ==> class.holds(#[trigger] s[i]),
        run_end(s, from, class) < s.len() ==> !class.holds(s[run_end(s, from, class)]),
    decreases s.len() - from,
{
    if from < s.len() && class.holds(s[from]) {
        lemma_run_end(s, from + 1, class);
    }
}

/// Runs forward over `class` from `from`.
pub fn scan_forward(v: &Vec<char>, from: usize, class: CharClass) -> (end: usize)
    requires
        from <= v.len(),
    ensures
        end == run_end(v@, from as int, class),
        from <= end <= v.len(),
{
    let mut i: usize = from;
    while i < v.len() && class.test(v[i])
        invariant
            from <= i <= v.len(),
            run_end(v@, from as int, class) == run_end(v@, i as int, class),
        decreases v.len() - i,
    {
        i = i + 1;
    }
    i
}

/// Runs backward over `class` from `to`.
pub fn scan_backward(v: &Vec<char>, to: usize, class: CharClass) -> (start: usize)
    requires
        to <= v.len(),
    ensures
        start == run_start(v@, to as int, class),
        start <= to,
{
    let mut i: usize = to;
    while i > 0 && class.test(v[i - 1])
        invariant
            i <= to <= v.len(),
            run_start(v@, to as int, class) == run_start(v@, i as int, class),
        decreases i,
    {
        i = i - 1;
    }
    i
}

/// `s` without the run of `class` at its start and the run at its end.
pub open spec fn trimmed(s: Seq<char>, class: CharClass) -> Seq<char> {
    let from = run_end(s, 0, class);
    let to = run_start(s, s.len() as int, class);
    if from < to {
        s.subrange(from, to)
    } else {
        Seq::empty()
    }
}

/// `s` without Unicode white space at either end.
pub open spec fn trim(s: Seq<char>) -> Seq<char> {
    trimmed(s, CharClass::Whitespace)
}

/// The bounds of `trimmed(v@, class)` inside `v`.
pub fn trim_bounds(v: &Vec<char>, class: CharClass) -> (b: (usize, usize))
    ensures
        b.0 <= b.1 <= v.len(),
        trimmed(v@, class) == v@.subrange(b.0 as int, b.1 as int),
{
    let from = scan_forward(v, 0, class);
    let to = scan_backward(v, v.len(), class);
    if from < to {
        (from, to)
    } else {
        (0, 0)
    }
}

/// The characters of `s`, in order.
pub fn chars_of(s: &str) -> (v: Vec<char>)
    ensures
        v@ == s@,
{
    let mut v: Vec<char> = Vec::new();
    for c in it: s.chars()
        invariant
            v@ == it.seq().take(it.index() as int),
            it.seq() == s@,
    {
        v.push(c);
    }
    v
}

/// The characters of `s` from `from` up to `to`, as a string of their own.
pub fn piece(s: &str, from: usize, to: usize) -> (r: String)
    requires
        from <= to <= s@.len(),
    ensures
        r@ == s@.subrange(from as int, to as int),
{
    s.substring_char(from, to).to_owned()
}

/// `s` without Unicode white space at either end.
pub fn trim_str(s: &str) -> (r: String)
    ensures
        r@ == trim(s@),
{
    let v = chars_of(s);
    let (from, to) = trim_bounds(&v, CharClass::Whitespace);
    piece(s, from, to)
}

/// `c` with an ASCII capital letter turned into the small one.
pub open spec fn ascii_lower(c: char) -> char {
    if 'A' <= c && c <= 'Z' {
        ((c as u8) + 32) as char
    } else {
        c
    }
}

/// Whether `a` and `b` are equal up to the case of ASCII letters.
pub open spec fn eq_ignore_ascii_case(a: Seq<char>, b: Seq<char>) -> bool {
    a.len() == b.len() && forall|i: int|
        0 <= i < a.len() ==> ascii_lower(#[trigger] a[i]) == ascii_lower(b[i])
}

/// Turns an ASCII capital letter into the small one.
pub fn char_ascii_lower(c: char) -> (r: char)
    ensures
        r == ascii_lower(c),
{
    if 'A' <= c && c <= 'Z' {
        ((c as u8) + 32) as char
    } else {
        c
    }
}

/// Tests whether `a` and `b` are equal up to the case of ASCII letters.
pub fn same_ignoring_ascii_case(a: &Vec<char>, b: &Vec<char>) -> (r: bool)
    ensures
        r == eq_ignore_ascii_case(a@, b@),
{
    if a.len() != b.len() {
        return false;
    }
    let mut i: usize = 0;
    while i < a.len()
        invariant
            i <= a.len(),
            a.len() == b.len(),
            forall|j: int| 0 <= j < i ==> ascii_lower(#[trigger] a@[j]) == ascii_lower(b@[j]),
        decreases a.len() - i,
    {
        if char_ascii_lower(a[i]) != char_ascii_lower(b[i]) {
            return false;
        }
        i = i + 1;
    }
    true
}

/// Tests whether `a` and `b` hold the same characters.
pub fn same_chars(a: &Vec<char>, b: &Vec<char>) -> (r: bool)
    ensures
        r == (a@ == b@),
{
    if a.len() != b.len() {
        return false;
    }
    let mut i: usize = 0;
    while i < a.len()
        invariant
            i <= a.len(),
            a.len() == b.len(),
            forall|j: int| 0 <= j < i ==> a@[j] == b@[j],
        decreases a.len() - i,
    {
        if a[i] != b[i] {
            return false;
        }
        i = i + 1;
    }
    assert(a@ =~= b@);
    true
}

/// A run in the rest of `s` behind `k` ends where it ends in `s`.
pub proof fn lemma_run_end_skip(s: Seq<char>, k: int, from: int, class: CharClass)
    requires
        0 <= k <= s.len(),
        0 <= from <= s.len() - k,
    ensures
        run_end(s.skip(k), from, class) == run_end(s, k + from, class) - k,
    decreases s.len() - k - from,
{
    if from < s.len() - k && class.holds(s[k + from]) {
        lemma_run_end_skip(s, k, from + 1, class);
    }
}

/// `line` without a carriage return at its end.
pub open spec fn without_cr(line: Seq<char>) -> Seq<char> {
    if line.len() > 0 && line.last() == '\r' {
        line.drop_last()
    } else {
        line
    }
}

/// The lines of `s`. A line ends with a line feed, or with a carriage
/// return and a line feed, neither of which belongs to it; what follows the
/// last line feed is a line too, unless it is empty.
pub open spec fn lines(s: Seq<char>) -> Seq<Seq<char>>
    decreases s.len(),
{
    let end = run_end(s, 0, CharClass::NotNewline);
    if s.len() == 0 {
        Seq::empty()
    } else if end >= s.len() {
        seq![s]
    } else {
        proof {
            lemma_run_end(s, 0, CharClass::NotNewline);
        }
        seq![without_cr(s.take(end))] + lines(s.skip(end + 1))
    }
}

/// The lines of `s`.
pub fn split_lines(s: &str) -> (r: Vec<String>)
    ensures
        views(r@) == lines(s@),
{
    let v = chars_of(s);
    let mut out: Vec<String> = Vec::new();
    let mut start: usize = 0;
    assert(s@.skip(0) =~= s@);
    while start < v.len()
        invariant
            start <= v.len(),
            v@ == s@,
            lines(s@) == views(out@) + lines(s@.skip(start as int)),
        decreases v.len() - start,
    {
        let end = scan_forward(&v, start, CharClass::NotNewline);
        let ghost rest = s@.skip(start as int);
        let ghost before = views(out@);
        proof {
            lemma_run_end_skip(s@, start as int, 0, CharClass::NotNewline);
            lemma_run_end(s@, start as int, CharClass::NotNewline);
        }
        if end == v.len() {
            let line = piece(s, start, end);
            assert(line@ =~= rest);
            out.push(line);
            start = end;
            assert(lines(s@.skip(start as int)) =~= Seq::<Seq<char>>::empty());
            assert(views(out@) =~= before + seq![rest]);
        } else {
            let stop = if end > start && v[end - 1] == '\r' {
                end - 1
            } else {
                end
            };
            let line = piece(s, start, stop);
            assert(rest.take(end - start) =~= s@.subrange(start as int, end as int));
            assert(line@ =~= without_cr(rest.take(end - start)));
            assert(rest.skip(end - start + 1) =~= s@.skip(end + 1));
            let ghost text = line@;
            out.push(line);
            assert(views(out@) =~= before + seq![text]);
            start = end + 1;
        }
    }
    assert(lines(s@.skip(start as int)) =~= Seq::<Seq<char>>::empty());
    assert(views(out@) =~= lines(s@));
    out
}

} // verus!
