//! The lines of the protocol: what counts of a line, and its words.

use vstd::prelude::*;
use crate::text::{chars_of, string_of};

verus! {

/// The control characters of ASCII.
pub open spec fn is_control(c: char) -> bool {
    (c as u32) < 32 || c as u32 == 127
}

/// The characters that count as white space.
pub open spec fn is_whitespace(c: char) -> bool {
    let code = c as u32;
    ||| 9 <= code <= 13
    ||| code == 0x20
    ||| code == 0x85
    ||| code == 0xa0
    ||| code == 0x1680
    ||| 0x2000 <= code <= 0x200a
    ||| code == 0x2028
    ||| code == 0x2029
    ||| code == 0x202f
    ||| code == 0x205f
    ||| code == 0x3000
}

/// A line read from left to right: a tab counts as a space, other control
/// characters do not count, and from the first `#` on nothing counts.
pub open spec fn cleaned(s: Seq<char>) -> Seq<char>
    decreases s.len(),
{
    if s.len() == 0 {
        s
    } else if s[0] == '\t' {
        seq![' '] + cleaned(s.drop_first())
    } else if is_control(s[0]) {
        cleaned(s.drop_first())
    } else if s[0] == '#' {
        Seq::empty()
    } else {
        seq![s[0]] + cleaned(s.drop_first())
    }
}

/// A text without the white space at its start.
pub open spec fn trim_start(s: Seq<char>) -> Seq<char>
    decreases s.len(),
{
    if s.len() > 0 && is_whitespace(s[0]) {
        trim_start(s.drop_first())
    } else {
        s
    }
}

/// A text without the white space at its end.
pub open spec fn trim_end(s: Seq<char>) -> Seq<char>
    decreases s.len(),
{
    if s.len() > 0 && is_whitespace(s.last()) {
        trim_end(s.drop_last())
    } else {
        s
    }
}

/// What counts of a line, without the white space around it.
pub open spec fn preprocessed(input: Seq<char>) -> Seq<char> {
    trim_end(trim_start(cleaned(input)))
}

/// The words of a text. Every space ends a word and begins the next, so
/// two spaces in a row hold an empty word between them.
pub open spec fn words(s: Seq<char>) -> Seq<Seq<char>>
    decreases s.len(),
{
    if s.len() == 0 {
        seq![Seq::empty()]
    } else {
        let before = words(s.drop_last());
        if s.last() == ' ' {
            before.push(Seq::empty())
        } else {
            before.drop_last().push(before.last().push(s.last()))
        }
    }
}

/// What each of the vectors holds.
pub open spec fn texts(tokens: Seq<Vec<char>>) -> Seq<Seq<char>> {
    Seq::new(tokens.len(), |i: int| tokens[i]@)
}

pub fn is_control_char(c: char) -> (b: bool)
    ensures
        b == is_control(c),
{
    let code: u32 = c as u32;
    code < 32 || code == 127
}

pub fn is_whitespace_char(c: char) -> (b: bool)
    ensures
        b == is_whitespace(c),
{
    let code: u32 = c as u32;
    (9 <= code && code <= 13) || code == 0x20 || code == 0x85 || code == 0xa0 || code == 0x1680 || (0x2000
        <= code && code <= 0x200a) || code == 0x2028 || code == 0x2029 || code == 0x202f || code == 0x205f
        || code == 0x3000
}

/// What counts of a line.
pub fn clean(input: &Vec<char>) -> (out: Vec<char>)
    ensures
        out@ == cleaned(input@),
{
    let mut out: Vec<char> = Vec::new();
    let mut i: usize = 0;
    assert(input@.skip(0) =~= input@);
    while i < input.len()
        invariant
            i <= input@.len(),
            cleaned(input@) == out@ + cleaned(input@.skip(i as int)),
        decreases input@.len() - i,
    {
        let c: char = input[i];
        let ghost rest = input@.skip(i as int);
        assert(rest.drop_first() =~= input@.skip(i + 1));
        if c == '\t' {
            // Convert tab to space
            out.push(' ');
        } else if is_control_char(c) {
            // Remove all control characters
        } else if c == '#' {
            // Then we remove anything after a #
            return out;
        } else {
            out.push(c);
        }
        i += 1;
    }
    out
}

/// The text without the white space around it.
pub fn trim(s: &Vec<char>) -> (out: Vec<char>)
    ensures
        out@ == trim_end(trim_start(s@)),
{
    let n: usize = s.len();
    let mut start: usize = 0;
    assert(s@.skip(0) =~= s@);
    while start < n && is_whitespace_char(s[start])
        invariant
            start <= n,
            n == s@.len(),
            trim_start(s@) == trim_start(s@.skip(start as int)),
        decreases n - start,
    {
        assert(s@.skip(start as int).drop_first() =~= s@.skip(start + 1));
        start += 1;
    }
    let ghost body = s@.skip(start as int);
    let mut end: usize = n;
    assert(body.take(n - start) =~= body);
    while end > start && is_whitespace_char(s[end - 1])
        invariant
            start <= end <= n,
            n == s@.len(),
            body == s@.skip(start as int),
            trim_end(body) == trim_end(body.take(end - start)),
        decreases end,
    {
        assert(body.take(end - start).drop_last() =~= body.take(end - start - 1));
        end -= 1;
    }
    let mut out: Vec<char> = Vec::new();
    let mut i: usize = start;
    while i < end
        invariant
            start <= i <= end <= n,
            n == s@.len(),
            out@ == s@.subrange(start as int, i as int),
        decreases end - i,
    {
        out.push(s[i]);
        i += 1;
    }
    out
}

/// What counts of a line of input, without the white space around it.
pub fn preprocess(input: &str) -> (out: String)
    ensures
        out@ == preprocessed(input@),
{
    let line = trim(&clean(&chars_of(input)));
    let out = string_of(&line, 0, line.len());
    out
}

/// The words of a text.
pub fn split(s: &Vec<char>) -> (tokens: Vec<Vec<char>>)
    ensures
        texts(tokens@) == words(s@),
        tokens@.len() >= 1,
{
    let mut tokens: Vec<Vec<char>> = Vec::new();
    let mut current: Vec<char> = Vec::new();
    let mut i: usize = 0;
    while i < s.len()
        invariant
            i <= s@.len(),
            words(s@.take(i as int)) == texts(tokens@).push(current@),
        decreases s@.len() - i,
    {
        let c: char = s[i];
        let ghost prefix = s@.take(i as int);
        let ghost next = s@.take(i + 1);
        assert(next.drop_last() =~= prefix);
        if c == ' ' {
            tokens.push(current);
            current = Vec::new();
        } else {
            current.push(c);
        }
        i += 1;
    }
    assert(s@.take(i as int) =~= s@);
    tokens.push(current);
    tokens
}

} // verus!
