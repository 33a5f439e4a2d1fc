//! Character-level helpers: comparing text, splitting it at a separator and
//! reading unsigned decimal numbers.

use vstd::prelude::*;

verus! {

/// Why a piece of text is not an unsigned decimal number.
#[derive(Clone, Copy, Debug, PartialEq, Eq, Structural)]
pub enum ParseIntError {
    /// The text is empty.
    Empty,
    /// A character is not a decimal digit, or the text is a lone sign.
    InvalidDigit,
    /// The number is larger than the target type can hold.
    PosOverflow,
}

pub open spec fn is_digit(c: char) -> bool {
    '0' <= c && c <= '9'
}

pub open spec fn digit_value(c: char) -> nat {
    (c as u32 - '0' as u32) as nat
}

/// The number that the digits `s` spell, read from the left with `limit` as the
/// largest value allowed. The first character that is not a digit, or the first
/// digit that takes the value above `limit`, decides the failure.
pub open spec fn digits_value(s: Seq<char>, limit: nat) -> Result<nat, ParseIntError>
    decreases s.len(),
{
    if s.len() == 0 {
        Ok(0)
    } else {
        match digits_value(s.drop_last(), limit) {
            Err(e) => Err(e),
            Ok(v) => if !is_digit(s.last()) {
                Err(ParseIntError::InvalidDigit)
            } else if v * 10 + digit_value(s.last()) > limit {
                Err(ParseIntError::PosOverflow)
            } else {
                Ok(v * 10 + digit_value(s.last()))
            },
        }
    }
}

/// The unsigned decimal number that `s` spells: digits with an optional leading
/// `+`, at most `limit`.
pub open spec fn decimal_value(s: Seq<char>, limit: nat) -> Result<nat, ParseIntError> {
    if s.len() == 0 {
        Err(ParseIntError::Empty)
    } else if s.len() == 1 && (s[0] == '+' || s[0] == '-') {
        Err(ParseIntError::InvalidDigit)
    } else if s[0] == '+' {
        digits_value(s.subrange(1, s.len() as int), limit)
    } else {
        digits_value(s, limit)
    }
}

/// The parts of `s` between occurrences of `sep`, read from the left: a
/// separator opens a new part, any other character extends the last one.
/// There is always at least one part.
pub open spec fn split_on(s: Seq<char>, sep: char) -> Seq<Seq<char>>
    decreases s.len(),
{
    if s.len() == 0 {
        seq![Seq::<char>::empty()]
    } else {
        let before = split_on(s.drop_last(), sep);
        if s.last() == sep {
            before.push(Seq::<char>::empty())
        } else {
            before.drop_last().push(before.last().push(s.last()))
        }
    }
}

/// The texts that a vector of character vectors holds.
pub open spec fn parts_view(parts: Seq<Vec<char>>) -> Seq<Seq<char>> {
    Seq::new(parts.len(), |i: int| parts[i]@)
}

/// The characters of `s`, in order.
pub fn chars_of(s: &str) -> (v: Vec<char>)
    ensures
        v@ == s@,
{
    let mut v: Vec<char> = Vec::new();
    for c in iter: s.chars()
        invariant
            iter.seq() == s@,
            v@ == iter.seq().take(iter.index()),
    {
        v.push(c);
    }
    v
}

/// Whether the characters `chars` spell the text `text`.
pub fn spells(chars: &Vec<char>, text: &str) -> (r: bool)
    ensures
        r == (chars@ == text@),
{
    let other = chars_of(text);
    if chars.len() != other.len() {
        return false;
    }
    let mut i: usize = 0;
    while i < chars.len()
        invariant
            i <= chars.len(),
            chars.len() == other.len(),
            other@ == text@,
            chars@.take(i as int) == other@.take(i as int),
        decreases chars.len() - i,
    {
        if chars[i] != other[i] {
            assert(chars@[i as int] != text@[i as int]);
            return false;
        }
        assert(chars@.take(i + 1) == chars@.take(i as int).push(chars@[i as int]));
        assert(other@.take(i + 1) == other@.take(i as int).push(other@[i as int]));
        i = i + 1;
    }
    assert(chars@.take(chars@.len() as int) == chars@);
    assert(other@.take(other@.len() as int) == other@);
    true
}

/// Splits `chars` at every occurrence of `sep`.
pub fn split_chars(chars: &Vec<char>, sep: char) -> (parts: Vec<Vec<char>>)
    ensures
        parts_view(parts@) == split_on(chars@, sep),
{
    let mut done: Vec<Vec<char>> = Vec::new();
    let mut current: Vec<char> = Vec::new();
    let mut i: usize = 0;
    while i < chars.len()
        invariant
            i <= chars.len(),
            split_on(chars@.take(i as int), sep) == parts_view(done@).push(current@),
        decreases chars.len() - i,
    {
        let c = chars[i];
        proof {
            let prefix = chars@.take(i + 1);
            assert(prefix.drop_last() == chars@.take(i as int));
            assert(prefix.last() == c);
            let before = parts_view(done@).push(current@);
            assert(before.drop_last() == parts_view(done@));
        }
        if c == sep {
            let ghost old_done = done@;
            done.push(current);
            current = Vec::new();
            assert(parts_view(done@) == parts_view(old_done).push(done@.last()@));
        } else {
            current.push(c);
        }
        i = i + 1;
    }
    assert(chars@.take(chars@.len() as int) == chars@);
    let ghost old_done = done@;
    done.push(current);
    assert(parts_view(done@) == parts_view(old_done).push(done@.last()@));
    done
}

/// Reads the unsigned decimal number that `chars` spells, if it is at most
/// `limit`.
pub fn parse_decimal(chars: &Vec<char>, limit: u64) -> (r: Result<u64, ParseIntError>)
    ensures
        match r {
            Ok(v) => decimal_value(chars@, limit as nat) == Ok::<nat, ParseIntError>(v as nat),
            Err(e) => decimal_value(chars@, limit as nat) == Err::<nat, ParseIntError>(e),
        },
{
    let n = chars.len();
    if n == 0 {
        return Err(ParseIntError::Empty);
    }
    let first = chars[0];
    if n == 1 && (first == '+' || first == '-') {
        return Err(ParseIntError::InvalidDigit);
    }
    let start: usize = if first == '+' {
        1
    } else {
        0
    };
    let ghost digits = chars@.subrange(start as int, n as int);
    assert(start == 0 ==> digits == chars@);
    assert(decimal_value(chars@, limit as nat) == digits_value(digits, limit as nat));
    let mut value: u64 = 0;
    let mut i: usize = start;
    while i < n
        invariant
            start <= i <= n,
            n == chars.len(),
            digits == chars@.subrange(start as int, n as int),
            decimal_value(chars@, limit as nat) == digits_value(digits, limit as nat),
            digits_value(digits.take(i - start), limit as nat) == Ok::<nat, ParseIntError>(
                value as nat,
            ),
            value <= limit,
        decreases n - i,
    {
        let c = chars[i];
        let ghost prefix = digits.take(i - start + 1);
        assert(prefix.drop_last() == digits.take(i - start));
        assert(prefix.last() == c);
        if !(c >= '0' && c <= '9') {
            proof {
                assert(digits_value(prefix, limit as nat) == Err::<nat, ParseIntError>(
                    ParseIntError::InvalidDigit,
                ));
                lemma_digits_failure_lasts(digits, i - start + 1, limit as nat);
            }
            return Err(ParseIntError::InvalidDigit);
        }
        let d: u64 = (c as u32 - '0' as u32) as u64;
        if d > limit || value > (limit - d) / 10 {
            proof {
                assert(digits_value(prefix, limit as nat) == Err::<nat, ParseIntError>(
                    ParseIntError::PosOverflow,
                ));
                lemma_digits_failure_lasts(digits, i - start + 1, limit as nat);
            }
            return Err(ParseIntError::PosOverflow);
        }
        value = value * 10 + d;
        i = i + 1;
    }
    assert(digits.take(n - start) == digits);
    Ok(value)
}

/// Once a prefix of the digits has failed, the whole text fails in the same way.
pub proof fn lemma_digits_failure_lasts(s: Seq<char>, k: int, limit: nat)
    requires
        0 <= k <= s.len(),
        digits_value(s.take(k), limit) is Err,
    ensures
        digits_value(s, limit) == digits_value(s.take(k), limit),
    decreases s.len() - k,
{
    if k < s.len() {
        assert(s.take(k + 1).drop_last() == s.take(k));
        lemma_digits_failure_lasts(s, k + 1, limit);
    } else {
        assert(s.take(k) == s);
    }
}

/// The character of the digit `d`.
pub open spec fn digit_char(d: nat) -> char {
    if d == 0 {
        '0'
    } else if d == 1 {
        '1'
    } else if d == 2 {
        '2'
    } else if d == 3 {
        '3'
    } else if d == 4 {
        '4'
    } else if d == 5 {
        '5'
    } else if d == 6 {
        '6'
    } else if d == 7 {
        '7'
    } else if d == 8 {
        '8'
    } else {
        '9'
    }
}

/// The decimal digits of `n`, without leading zeros.
pub open spec fn decimal_digits(n: nat) -> Seq<char>
    decreases n,
{
    if n < 10 {
        seq![digit_char(n)]
    } else {
        decimal_digits(n / 10).push(digit_char(n % 10))
    }
}

fn digit_str(d: u64) -> (r: &'static str)
    requires
        d < 10,
    ensures
        r@ == seq![digit_char(d as nat)],
{
    proof {
        reveal_strlit("0");
        reveal_strlit("1");
        reveal_strlit("2");
        reveal_strlit("3");
        reveal_strlit("4");
        reveal_strlit("5");
        reveal_strlit("6");
        reveal_strlit("7");
        reveal_strlit("8");
        reveal_strlit("9");
    }
    let r = if d == 0 {
        "0"
    } else if d == 1 {
        "1"
    } else if d == 2 {
        "2"
    } else if d == 3 {
        "3"
    } else if d == 4 {
        "4"
    } else if d == 5 {
        "5"
    } else if d == 6 {
        "6"
    } else if d == 7 {
        "7"
    } else if d == 8 {
        "8"
    } else {
        "9"
    };
    assert(r@.len() == 1);
    assert(r@ == seq![r@[0]]);
    r
}

/// Writes `n` in decimal digits.
pub fn decimal_string(n: u64) -> (r: String)
    ensures
        r@ == decimal_digits(n as nat),
    decreases n,
{
    if n < 10 {
        digit_str(n).to_owned()
    } else {
        let mut text = decimal_string(n / 10);
        text.append(digit_str(n % 10));
        assert(seq![digit_char((n % 10) as nat)] == Seq::<char>::empty().push(
            digit_char((n % 10) as nat),
        ));
        text
    }
}

/// Takes a string and keeps it only if it is not empty.
pub fn non_empty_string(s: String) -> (r: Option<String>)
    ensures
        r == non_empty(s),
{
    if s.as_str().unicode_len() == 0 {
        None
    } else {
        Some(s)
    }
}

/// `None` for the empty string, the string itself otherwise.
pub open spec fn non_empty(s: String) -> Option<String> {
    if s@.len() == 0 {
        None
    } else {
        Some(s)
    }
}

/// A number that was read is at most the limit it was read with.
pub proof fn lemma_decimal_value_bounded(s: Seq<char>, limit: nat)
    ensures
        decimal_value(s, limit) matches Ok(v) ==> v <= limit,
{
    if s.len() > 0 {
        lemma_digits_value_bounded(s, limit);
        lemma_digits_value_bounded(s.subrange(1, s.len() as int), limit);
    }
}

pub proof fn lemma_digits_value_bounded(s: Seq<char>, limit: nat)
    ensures
        digits_value(s, limit) matches Ok(v) ==> v <= limit,
    decreases s.len(),
{
    if s.len() > 0 {
        lemma_digits_value_bounded(s.drop_last(), limit);
    }
}

} // verus!
