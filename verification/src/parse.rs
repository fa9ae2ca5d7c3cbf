//! Reading numbers and lists out of command-line text, as `str::parse`,
//! `str::trim` and `str::split` read them.

use vstd::prelude::*;
use vstd::string::*;
use crate::text::push_char;

verus! {

/// Why text is not an integer of the wanted type (the kinds of
/// `std::num::ParseIntError` that unsigned parsing produces).
#[derive(Debug, Clone, Copy, PartialEq, Eq, Structural)]
pub enum IntParseError {
    Empty,
    InvalidDigit,
    PosOverflow,
}

impl IntParseError {
    /// The message `ParseIntError` displays for the kind.
    pub open spec fn spec_message(self) -> Seq<char> {
        match self {
            IntParseError::Empty => "cannot parse integer from empty string"@,
            IntParseError::InvalidDigit => "invalid digit found in string"@,
            IntParseError::PosOverflow => "number too large to fit in target type"@,
        }
    }

    /// Renders the error as text.
    pub fn message(&self) -> (r: String)
        ensures
            r@ == self.spec_message(),
    {
        match self {
            IntParseError::Empty => String::from_str("cannot parse integer from empty string"),
            IntParseError::InvalidDigit => String::from_str("invalid digit found in string"),
            IntParseError::PosOverflow => String::from_str("number too large to fit in target type"),
        }
    }
}

/// An ASCII decimal digit.
pub open spec fn is_digit(c: char) -> bool {
    '0' <= c <= '9'
}

/// The value of a decimal digit.
pub open spec fn digit_value(c: char) -> nat {
    (c as int - 48) as nat
}

/// Reads the digits of `d` left to right onto `acc`, failing at the first
/// character that is not a digit or that takes the value above `max`.
pub open spec fn scan_digits(d: Seq<char>, acc: nat, max: nat) -> Result<nat, IntParseError>
    decreases d.len(),
{
    if d.len() == 0 {
        Ok(acc)
    } else if !is_digit(d[0]) {
        Err(IntParseError::InvalidDigit)
    } else if acc * 10 + digit_value(d[0]) > max {
        Err(IntParseError::PosOverflow)
    } else {
        scan_digits(d.drop_first(), acc * 10 + digit_value(d[0]), max)
    }
}

/// What parsing `s` as an unsigned integer no larger than `max` gives: an
/// optional `+`, then decimal digits; no whitespace.
pub open spec fn spec_parse_unsigned(s: Seq<char>, max: nat) -> Result<nat, IntParseError> {
    if s.len() == 0 {
        Err(IntParseError::Empty)
    } else if s.len() >= 2 && s[0] == '+' {
        scan_digits(s.drop_first(), 0, max)
    } else {
        scan_digits(s, 0, max)
    }
}

/// A successful parse never exceeds the bound.
pub proof fn lemma_scan_bound(d: Seq<char>, acc: nat, max: nat)
    requires
        acc <= max,
    ensures
        scan_digits(d, acc, max) matches Ok(v) ==> v <= max,
    decreases d.len(),
{
    if d.len() > 0 && is_digit(d[0]) && acc * 10 + digit_value(d[0]) <= max {
        lemma_scan_bound(d.drop_first(), acc * 10 + digit_value(d[0]), max);
    }
}

/// A successful parse never exceeds the bound.
pub proof fn lemma_parse_bound(s: Seq<char>, max: nat)
    ensures
        spec_parse_unsigned(s, max) matches Ok(v) ==> v <= max,
{
    lemma_scan_bound(s, 0, max);
    if s.len() >= 1 {
        lemma_scan_bound(s.drop_first(), 0, max);
    }
}

proof fn lemma_scan_step(d: Seq<char>, i: int, acc: nat, max: nat)
    requires
        0 <= i < d.len(),
    ensures
        scan_digits(d.subrange(i, d.len() as int), acc, max) == if !is_digit(d[i]) {
            Err(IntParseError::InvalidDigit)
        } else if acc * 10 + digit_value(d[i]) > max {
            Err(IntParseError::PosOverflow)
        } else {
            scan_digits(d.subrange(i + 1, d.len() as int), acc * 10 + digit_value(d[i]), max)
        },
{
    let t = d.subrange(i, d.len() as int);
    assert(t[0] == d[i]);
    assert(t.drop_first() =~= d.subrange(i + 1, d.len() as int));
}

/// Parses `s` as an unsigned integer no larger than `max`
/// (`s.parse::<u8>()`, `::<u32>()` or `::<u64>()` for the matching `max`).
pub fn parse_unsigned(s: &str, max: u64) -> (r: Result<u64, IntParseError>)
    ensures
        match spec_parse_unsigned(s@, max as nat) {
            Ok(v) => r == Ok::<u64, IntParseError>(v as u64),
            Err(e) => r == Err::<u64, IntParseError>(e),
        },
        r matches Ok(v) ==> v <= max,
{
    let n = s.unicode_len();
    if n == 0 {
        return Err(IntParseError::Empty);
    }
    let start: usize = if n >= 2 && s.get_char(0) == '+' {
        1
    } else {
        0
    };
    let ghost d = s@.subrange(start as int, n as int);
    proof {
        if start == 1 {
            assert(s@.drop_first() =~= d);
        } else {
            assert(s@ =~= d);
        }
    }
    let mut acc: u64 = 0;
    let mut i: usize = start;
    while i < n
        invariant
            n == s@.len(),
            start <= i <= n,
            acc <= max,
            d == s@.subrange(start as int, n as int),
            spec_parse_unsigned(s@, max as nat) == scan_digits(d, 0, max as nat),
            scan_digits(d, 0, max as nat) == scan_digits(
                s@.subrange(i as int, n as int),
                acc as nat,
                max as nat,
            ),
        decreases n - i,
    {
        proof {
            if i == start {
                assert(s@.subrange(i as int, n as int) =~= d);
            }
            lemma_scan_step(s@, i as int, acc as nat, max as nat);
        }
        let c = s.get_char(i);
        if !('0' <= c && c <= '9') {
            return Err(IntParseError::InvalidDigit);
        }
        let dv: u64 = (c as u32 - 48) as u64;
        let next: u128 = (acc as u128) * 10 + (dv as u128);
        if next > max as u128 {
            return Err(IntParseError::PosOverflow);
        }
        acc = next as u64;
        i += 1;
    }
    proof {
        assert(s@.subrange(n as int, n as int).len() == 0);
    }
    Ok(acc)
}

/// `char::is_whitespace`: the Unicode White_Space characters.
pub open spec fn is_whitespace(c: char) -> bool {
    ||| '\u{9}' <= c <= '\u{d}'
    ||| c == ' '
    ||| c == '\u{85}'
    ||| c == '\u{a0}'
    ||| c == '\u{1680}'
    ||| '\u{2000}' <= c <= '\u{200a}'
    ||| c == '\u{2028}'
    ||| c == '\u{2029}'
    ||| c == '\u{202f}'
    ||| c == '\u{205f}'
    ||| c == '\u{3000}'
}

fn char_is_whitespace(c: char) -> (r: bool)
    ensures
        r == is_whitespace(c),
{
    ('\u{9}' <= c && c <= '\u{d}') || c == ' ' || c == '\u{85}' || c == '\u{a0}' || c
        == '\u{1680}' || ('\u{2000}' <= c && c <= '\u{200a}') || c == '\u{2028}' || c
        == '\u{2029}' || c == '\u{202f}' || c == '\u{205f}' || c == '\u{3000}'
}

/// Number of whitespace characters `s` starts with.
pub open spec fn leading_ws(s: Seq<char>) -> nat
    decreases s.len(),
{
    if s.len() > 0 && is_whitespace(s[0]) {
        1 + leading_ws(s.drop_first())
    } else {
        0
    }
}

/// Number of whitespace characters `s` ends with.
pub open spec fn trailing_ws(s: Seq<char>) -> nat
    decreases s.len(),
{
    if s.len() > 0 && is_whitespace(s.last()) {
        1 + trailing_ws(s.drop_last())
    } else {
        0
    }
}

/// `s` without leading and trailing whitespace (`str::trim`).
pub open spec fn spec_trim(s: Seq<char>) -> Seq<char> {
    let rest = s.skip(leading_ws(s) as int);
    rest.take(rest.len() - trailing_ws(rest))
}

proof fn lemma_leading_ws_bound(s: Seq<char>)
    ensures
        leading_ws(s) <= s.len(),
    decreases s.len(),
{
    if s.len() > 0 && is_whitespace(s[0]) {
        lemma_leading_ws_bound(s.drop_first());
    }
}

proof fn lemma_trailing_ws_bound(s: Seq<char>)
    ensures
        trailing_ws(s) <= s.len(),
    decreases s.len(),
{
    if s.len() > 0 && is_whitespace(s.last()) {
        lemma_trailing_ws_bound(s.drop_last());
    }
}

/// Copies `s[from..to]` into a new string.
fn copy_range(s: &str, from: usize, to: usize) -> (r: String)
    requires
        from <= to <= s@.len(),
    ensures
        r@ == s@.subrange(from as int, to as int),
{
    let mut r = String::new();
    let mut i = from;
    while i < to
        invariant
            from <= i <= to,
            to <= s@.len(),
            r@ == s@.subrange(from as int, i as int),
        decreases to - i,
    {
        let c = s.get_char(i);
        push_char(&mut r, c);
        assert(r@ =~= s@.subrange(from as int, i + 1));
        i += 1;
    }
    r
}

/// `s` without leading and trailing whitespace.
pub fn trim(s: &str) -> (r: String)
    ensures
        r@ == spec_trim(s@),
{
    let n = s.unicode_len();
    let mut a: usize = 0;
    assert(s@.skip(0) =~= s@);
    while a < n && char_is_whitespace(s.get_char(a))
        invariant
            n == s@.len(),
            a <= n,
            leading_ws(s@) == a + leading_ws(s@.skip(a as int)),
        decreases n - a,
    {
        proof {
            let t = s@.skip(a as int);
            assert(t[0] == s@[a as int]);
            assert(t.drop_first() =~= s@.skip(a + 1));
        }
        a += 1;
    }
    proof {
        let t = s@.skip(a as int);
        if a < n {
            assert(t[0] == s@[a as int]);
        }
        assert(leading_ws(t) == 0);
    }
    let ghost rest = s@.skip(a as int);
    let mut b: usize = n;
    while b > a && char_is_whitespace(s.get_char(b - 1))
        invariant
            n == s@.len(),
            a <= b <= n,
            rest == s@.skip(a as int),
            trailing_ws(rest) == (n - b) + trailing_ws(s@.subrange(a as int, b as int)),
        decreases b - a,
    {
        proof {
            let t = s@.subrange(a as int, b as int);
            assert(t.last() == s@[b - 1]);
            assert(t.drop_last() =~= s@.subrange(a as int, b - 1));
        }
        b -= 1;
    }
    proof {
        let t = s@.subrange(a as int, b as int);
        if b > a {
            assert(t.last() == s@[b - 1]);
        }
        assert(trailing_ws(t) == 0);
        assert(rest =~= s@.subrange(a as int, n as int));
        assert(rest.take(rest.len() - trailing_ws(rest)) =~= t);
    }
    copy_range(s, a, b)
}

/// The pieces of `s` between occurrences of `sep` (`str::split` with a
/// character): always at least one piece, empty pieces kept.
pub open spec fn spec_split(s: Seq<char>, sep: char) -> Seq<Seq<char>>
    decreases s.len(),
{
    if s.len() == 0 {
        seq![Seq::empty()]
    } else {
        let p = spec_split(s.drop_last(), sep);
        if s.last() == sep {
            p.push(Seq::empty())
        } else {
            p.update(p.len() - 1, p.last().push(s.last()))
        }
    }
}

proof fn lemma_split_nonempty(s: Seq<char>, sep: char)
    ensures
        spec_split(s, sep).len() >= 1,
    decreases s.len(),
{
    if s.len() > 0 {
        lemma_split_nonempty(s.drop_last(), sep);
    }
}

/// The views of a list of strings.
pub open spec fn strings_view(v: Seq<String>) -> Seq<Seq<char>> {
    v.map_values(|p: String| p@)
}

/// Splits `s` at every `sep`.
pub fn split(s: &str, sep: char) -> (r: Vec<String>)
    ensures
        strings_view(r@) == spec_split(s@, sep),
{
    let n = s.unicode_len();
    let mut pieces: Vec<String> = Vec::new();
    let mut current = String::new();
    let mut i: usize = 0;
    proof {
        assert(s@.take(0) =~= Seq::<char>::empty());
        assert(strings_view(pieces@).push(current@) =~= seq![Seq::<char>::empty()]);
    }
    while i < n
        invariant
            n == s@.len(),
            i <= n,
            spec_split(s@.take(i as int), sep) == strings_view(pieces@).push(current@),
        decreases n - i,
    {
        let c = s.get_char(i);
        let ghost before = s@.take(i as int);
        proof {
            assert(s@.take(i + 1).drop_last() =~= before);
            assert(s@.take(i + 1).last() == c);
            lemma_split_nonempty(before, sep);
        }
        if c == sep {
            let done = current;
            pieces.push(done);
            current = String::new();
            proof {
                assert(strings_view(pieces@).push(current@) =~= spec_split(before, sep).push(
                    Seq::empty(),
                ));
            }
        } else {
            push_char(&mut current, c);
            proof {
                let p = spec_split(before, sep);
                assert(strings_view(pieces@).push(current@) =~= p.update(
                    p.len() - 1,
                    p.last().push(c),
                ));
            }
        }
        i += 1;
    }
    proof {
        assert(s@.take(n as int) =~= s@);
    }
    pieces.push(current);
    assert(strings_view(pieces@) =~= spec_split(s@, sep));
    pieces
}

} // verus!
