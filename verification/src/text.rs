//! Characters, decimal numerals and strings.

use vstd::prelude::*;
use vstd::string::*;

verus! {

/// `String::push` of the standard library: the character is appended at the
/// end, and nothing else changes.
pub assume_specification[ String::push ](s: &mut String, ch: char)
    ensures
        final(s)@ == old(s)@.push(ch),
;

pub open spec fn is_digit(c: char) -> bool {
    '0' <= c <= '9'
}

/// The number that a decimal digit stands for.
pub open spec fn digit_value(c: char) -> nat {
    (c as int - '0' as int) as nat
}

/// The decimal digit that stands for a number below ten.
pub open spec fn digit_char(d: nat) -> char {
    (d + 48) as u8 as char
}

/// The decimal numeral of a number, without leading zeros.
pub open spec fn decimal(n: nat) -> Seq<char>
    decreases n,
{
    if n < 10 {
        seq![digit_char(n)]
    } else {
        decimal(n / 10).push(digit_char(n % 10))
    }
}

pub open spec fn all_digits(s: Seq<char>) -> bool {
    forall|i: int| 0 <= i < s.len() ==> is_digit(#[trigger] s[i])
}

/// The number that a sequence of decimal digits stands for.
pub open spec fn digits_value(s: Seq<char>) -> nat
    decreases s.len(),
{
    if s.len() == 0 {
        0
    } else {
        digits_value(s.drop_last()) * 10 + digit_value(s.last())
    }
}

/// The number written by a non-empty sequence of decimal digits.
pub open spec fn parse_digits(s: Seq<char>) -> Option<nat> {
    if s.len() > 0 && all_digits(s) {
        Some(digits_value(s))
    } else {
        None
    }
}

/// An unsigned numeral: digits, with `+` allowed in front.
pub open spec fn parse_unsigned(s: Seq<char>) -> Option<nat> {
    if s.len() > 0 && s[0] == '+' {
        parse_digits(s.skip(1))
    } else {
        parse_digits(s)
    }
}

/// A signed numeral: digits, with `+` or `-` allowed in front.
pub open spec fn parse_signed(s: Seq<char>) -> Option<int> {
    if s.len() > 0 && s[0] == '-' {
        match parse_digits(s.skip(1)) {
            Some(v) => Some(-(v as int)),
            None => None,
        }
    } else {
        match parse_unsigned(s) {
            Some(v) => Some(v as int),
            None => None,
        }
    }
}

/// A numeral without leading zeros.
pub open spec fn is_canonical(s: Seq<char>) -> bool {
    s.len() > 0 && all_digits(s) && (s.len() > 1 ==> s[0] != '0')
}

pub open spec fn to_upper(c: char) -> char {
    if 'a' <= c <= 'z' {
        (c as int - 32) as u8 as char
    } else {
        c
    }
}

pub open spec fn to_lower(c: char) -> char {
    if 'A' <= c <= 'Z' {
        (c as int + 32) as u8 as char
    } else {
        c
    }
}

pub open spec fn upper(s: Seq<char>) -> Seq<char> {
    Seq::new(s.len(), |i: int| to_upper(s[i]))
}

pub open spec fn lower(s: Seq<char>) -> Seq<char> {
    Seq::new(s.len(), |i: int| to_lower(s[i]))
}

pub proof fn lemma_decimal_digits(n: nat)
    ensures
        is_canonical(decimal(n)),
        digits_value(decimal(n)) == n,
    decreases n,
{
    if n < 10 {
        let s = decimal(n);
        assert(s.len() == 1 && s[0] == digit_char(n));
        assert(s.drop_last() =~= Seq::<char>::empty());
        assert(digits_value(s.drop_last()) == 0);
    } else {
        lemma_decimal_digits(n / 10);
        let p = decimal(n / 10);
        let s = decimal(n);
        assert(s.drop_last() =~= p);
        assert(s.last() == digit_char(n % 10));
        assert(s[0] == p[0]);
        if p.len() == 1 {
            assert(p.drop_last() =~= Seq::<char>::empty());
            assert(digits_value(p.drop_last()) == 0);
            assert(digits_value(p) == digit_value(p[0]));
        }
    }
}

pub proof fn lemma_digits_value_canonical(s: Seq<char>)
    requires
        is_canonical(s),
    ensures
        decimal(digits_value(s)) == s,
        s.len() > 1 ==> digits_value(s) >= 10,
    decreases s.len(),
{
    if s.len() == 1 {
        assert(s.drop_last() =~= Seq::<char>::empty());
        assert(digits_value(s.drop_last()) == 0);
        assert(decimal(digits_value(s)) =~= s);
    } else {
        let p = s.drop_last();
        assert(is_canonical(p));
        lemma_digits_value_canonical(p);
        let v = digits_value(p);
        if p.len() == 1 {
            assert(p.drop_last() =~= Seq::<char>::empty());
            assert(digits_value(p.drop_last()) == 0);
            assert(v == digit_value(p[0]));
            assert(v >= 1);
        }
        let d = digit_value(s.last());
        assert(digits_value(s) == v * 10 + d);
        assert((v * 10 + d) / 10 == v);
        assert((v * 10 + d) % 10 == d);
        assert(decimal(digits_value(s)) =~= s);
    }
}

/// The characters of a string slice.
pub fn chars_of(s: &str) -> (out: Vec<char>)
    ensures
        out@ == s@,
{
    let n: usize = s.unicode_len();
    let mut out: Vec<char> = Vec::new();
    let mut i: usize = 0;
    while i < n
        invariant
            i <= n,
            n == s@.len(),
            out@ == s@.subrange(0, i as int),
        decreases n - i,
    {
        out.push(s.get_char(i));
        i += 1;
    }
    out
}

/// The string made of the characters `chars[from..to]`.
pub fn string_of(chars: &Vec<char>, from: usize, to: usize) -> (out: String)
    requires
        from <= to <= chars.len(),
    ensures
        out@ == chars@.subrange(from as int, to as int),
{
    let mut out: String = String::new();
    let mut i: usize = from;
    while i < to
        invariant
            from <= i <= to <= chars.len(),
            out@ == chars@.subrange(from as int, i as int),
        decreases to - i,
    {
        out.push(chars[i]);
        i += 1;
    }
    out
}

/// Appends the decimal numeral of `n`.
pub fn push_decimal(out: &mut String, n: usize)
    ensures
        final(out)@ == old(out)@ + decimal(n as nat),
    decreases n,
{
    if n >= 10 {
        push_decimal(out, n / 10);
    }
    let d: u8 = (n % 10) as u8;
    out.push((d + 48) as char);
}

pub fn is_digit_char(c: char) -> (b: bool)
    ensures
        b == is_digit(c),
{
    let code: u32 = c as u32;
    48 <= code && code <= 57
}

/// Reads the digits `chars[from..]` as a number that is at most `limit`.
pub fn read_digits(chars: &Vec<char>, from: usize, limit: u64) -> (r: Option<u64>)
    requires
        from <= chars.len(),
        limit < 0x1000_0000_0000_0000,
    ensures
        r == match parse_digits(chars@.skip(from as int)) {
            Some(v) => if v <= limit { Some(v as u64) } else { None },
            None => None,
        },
{
    let n: usize = chars.len();
    if from == n {
        return None;
    }
    let ghost s = chars@.skip(from as int);
    let mut acc: u64 = 0;
    let mut over: bool = false;
    let mut i: usize = from;
    while i < n
        invariant
            from <= i <= n,
            n == chars.len(),
            s == chars@.skip(from as int),
            limit < 0x1000_0000_0000_0000,
            all_digits(s.take(i - from)),
            !over ==> acc == digits_value(s.take(i - from)) && acc <= limit,
            over ==> digits_value(s.take(i - from)) > limit,
        decreases n - i,
    {
        let c: char = chars[i];
        let ghost prefix = s.take(i - from);
        let ghost next = s.take(i - from + 1);
        assert(next.drop_last() =~= prefix);
        assert(next.last() == c);
        if !is_digit_char(c) {
            assert(!all_digits(s)) by {
                assert(s[i - from] == c);
            }
            return None;
        }
        assert(all_digits(next)) by {
            assert forall|k: int| 0 <= k < next.len() implies is_digit(#[trigger] next[k]) by {
                if k < prefix.len() {
                    assert(next[k] == prefix[k]);
                }
            }
        }
        let d: u64 = (c as u32 - 48) as u64;
        assert(d == digit_value(c));
        assert(digits_value(next) == digits_value(prefix) * 10 + d);
        if !over {
            if limit < d || acc > (limit - d) / 10 {
                over = true;
                assert(acc * 10 + d > limit) by (nonlinear_arith)
                    requires
                        acc > (limit - d) / 10 || limit < d,
                        d <= 9,
                        limit >= 0,
                        acc >= 0,
                ;
            } else {
                assert(acc * 10 + d <= limit) by (nonlinear_arith)
                    requires
                        acc <= (limit - d) / 10,
                        limit >= d,
                        acc >= 0,
                ;
                acc = acc * 10 + d;
            }
        }
        i += 1;
    }
    assert(s.take(n - from) =~= s);
    if over {
        None
    } else {
        Some(acc)
    }
}

/// The number of an unsigned numeral, where it fits 8 bits.
pub open spec fn as_u8(s: Seq<char>) -> Option<u8> {
    match parse_unsigned(s) {
        Some(v) => if v <= u8::MAX {
            Some(v as u8)
        } else {
            None
        },
        None => None,
    }
}

/// The number of an unsigned numeral, where it fits 32 bits.
pub open spec fn as_u32(s: Seq<char>) -> Option<u32> {
    match parse_unsigned(s) {
        Some(v) => if v <= u32::MAX {
            Some(v as u32)
        } else {
            None
        },
        None => None,
    }
}

/// The number of a signed numeral, where it fits 32 bits.
pub open spec fn as_i32(s: Seq<char>) -> Option<i32> {
    match parse_signed(s) {
        Some(v) => if i32::MIN <= v <= i32::MAX {
            Some(v as i32)
        } else {
            None
        },
        None => None,
    }
}

fn read_unsigned(chars: &Vec<char>, limit: u64) -> (r: Option<u64>)
    requires
        limit < 0x1000_0000_0000_0000,
    ensures
        r == match parse_unsigned(chars@) {
            Some(v) => if v <= limit {
                Some(v as u64)
            } else {
                None
            },
            None => None,
        },
{
    assert(chars@.skip(0) =~= chars@);
    let from: usize = if chars.len() > 0 && chars[0] == '+' {
        1
    } else {
        0
    };
    read_digits(chars, from, limit)
}

pub fn parse_u8(chars: &Vec<char>) -> (r: Option<u8>)
    ensures
        r == as_u8(chars@),
{
    match read_unsigned(chars, 255) {
        Some(v) => Some(v as u8),
        None => None,
    }
}

pub fn parse_u32(chars: &Vec<char>) -> (r: Option<u32>)
    ensures
        r == as_u32(chars@),
{
    match read_unsigned(chars, 0xffff_ffff) {
        Some(v) => Some(v as u32),
        None => None,
    }
}

pub fn parse_i32(chars: &Vec<char>) -> (r: Option<i32>)
    ensures
        r == as_i32(chars@),
{
    if chars.len() > 0 && chars[0] == '-' {
        match read_digits(chars, 1, 0x8000_0000) {
            Some(v) => Some((-(v as i64)) as i32),
            None => None,
        }
    } else {
        match read_unsigned(chars, 0x7fff_ffff) {
            Some(v) => Some(v as i32),
            None => None,
        }
    }
}

/// Whether two texts are the same.
pub fn same_text(a: &Vec<char>, b: &str) -> (r: bool)
    ensures
        r == (a@ == b@),
{
    let other = chars_of(b);
    if a.len() != other.len() {
        return false;
    }
    let mut i: usize = 0;
    while i < a.len()
        invariant
            i <= a.len(),
            a.len() == other.len(),
            other@ == b@,
            forall|k: int| 0 <= k < i ==> a[k] == other[k],
        decreases a.len() - i,
    {
        if a[i] != other[i] {
            return false;
        }
        i += 1;
    }
    assert(a@ =~= other@);
    true
}

pub fn lower_char(c: char) -> (l: char)
    ensures
        l == to_lower(c),
{
    let code: u32 = c as u32;
    if 65 <= code && code <= 90 {
        ((code + 32) as u8) as char
    } else {
        c
    }
}

/// Whether `s`, with its capital letters made small, reads as `word`.
pub fn reads_as(s: &Vec<char>, word: &Vec<char>) -> (b: bool)
    ensures
        b == (lower(s@) == word@),
{
    if s.len() != word.len() {
        return false;
    }
    let mut i: usize = 0;
    while i < s.len()
        invariant
            i <= s.len(),
            s.len() == word.len(),
            forall|k: int| 0 <= k < i ==> to_lower(s[k]) == word[k],
        decreases s.len() - i,
    {
        if lower_char(s[i]) != word[i] {
            return false;
        }
        i += 1;
    }
    assert(lower(s@) =~= word@);
    true
}

} // verus!
