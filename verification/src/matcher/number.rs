//! Decimal numbers as `str::parse` reads them.

use vstd::prelude::*;

verus! {

/// Whether every character of `s` is an ASCII digit.
pub open spec fn all_digits(s: Seq<char>) -> bool {
    forall|i: int| 0 <= i < s.len() ==> '0' <= #[trigger] s[i] <= '9'
}

/// The value of an ASCII digit.
pub open spec fn digit_value(c: char) -> int {
    (c as int) - ('0' as int)
}

/// The value of a string of ASCII digits, read in base ten.
pub open spec fn digits_value(s: Seq<char>) -> int
    decreases s.len(),
{
    if s.len() == 0 {
        0
    } else {
        digits_value(s.drop_last()) * 10 + digit_value(s.last())
    }
}

/// The value that `str::parse::<u32>` gives: an optional `+`, then at least
/// one ASCII digit and nothing else, of a value that fits.
pub open spec fn spec_parse_u32(s: Seq<char>) -> Option<u32> {
    let digits = if s.len() > 0 && s[0] == '+' { s.skip(1) } else { s };
    if digits.len() > 0 && all_digits(digits) && digits_value(digits) <= u32::MAX {
        Some(digits_value(digits) as u32)
    } else {
        None
    }
}

/// The value that `str::parse::<i32>` gives: an optional `+` or `-`, then at
/// least one ASCII digit and nothing else, of a value that fits.
pub open spec fn spec_parse_i32(s: Seq<char>) -> Option<i32> {
    let negative = s.len() > 0 && s[0] == '-';
    let digits = if s.len() > 0 && (s[0] == '+' || s[0] == '-') { s.skip(1) } else { s };
    let value = if negative { -digits_value(digits) } else { digits_value(digits) };
    if digits.len() > 0 && all_digits(digits) && i32::MIN <= value <= i32::MAX {
        Some(value as i32)
    } else {
        None
    }
}

/// A longer string of digits never has a smaller value.
proof fn lemma_digits_value_grows(s: Seq<char>, i: int, j: int)
    requires
        0 <= i <= j <= s.len(),
        all_digits(s),
    ensures
        digits_value(s.take(i)) <= digits_value(s.take(j)),
        digits_value(s.take(i)) >= 0,
    decreases j - i,
{
    if i < j {
        lemma_digits_value_grows(s, i, j - 1);
        assert(s.take(j).drop_last() =~= s.take(j - 1));
        assert(s.take(j).last() == s[j - 1]);
        assert('0' <= s[j - 1] <= '9');
    } else {
        lemma_digits_value_nonneg(s, i);
    }
}

proof fn lemma_digits_value_nonneg(s: Seq<char>, i: int)
    requires
        0 <= i <= s.len(),
        all_digits(s),
    ensures
        digits_value(s.take(i)) >= 0,
    decreases i,
{
    if i > 0 {
        lemma_digits_value_nonneg(s, i - 1);
        assert(s.take(i).drop_last() =~= s.take(i - 1));
        assert('0' <= s[i - 1] <= '9');
    }
}

/// Reads the ASCII digits of `s` from position `start`: the value when every
/// character from there on is a digit and the value is at most `limit`.
fn digits_from(s: &str, start: usize, limit: u64) -> (res: Option<u64>)
    requires
        start <= s@.len(),
        limit <= u32::MAX + 1,
    ensures
        res matches Some(v) ==> v == digits_value(s@.skip(start as int)) && v <= limit,
        res is Some <==> (all_digits(s@.skip(start as int)) && digits_value(s@.skip(start as int)) <= limit),
{
    let len = s.unicode_len();
    let ghost d = s@.skip(start as int);
    let mut value: u64 = 0;
    let mut i = start;
    assert(d.take(0) =~= Seq::<char>::empty());
    while i < len
        invariant
            start <= i <= len,
            len == s@.len(),
            d == s@.skip(start as int),
            limit <= u32::MAX + 1,
            value <= limit,
            value == digits_value(d.take(i - start)),
            all_digits(d.take(i - start)),
        decreases len - i,
    {
        let c = s.get_char(i);
        let ghost k = i - start;
        if c < '0' || c > '9' {
            assert(d[k] == c);
            return None;
        }
        assert(d.take(k + 1).drop_last() =~= d.take(k));
        assert(d.take(k + 1).last() == c);
        let digit = (c as u32 - '0' as u32) as u64;
        let next = value * 10 + digit;
        if next > limit {
            proof {
                assert(all_digits(d.take(k + 1)));
                if all_digits(d) {
                    assert(d.take(d.len() as int) =~= d);
                    lemma_digits_value_grows(d, k + 1, d.len() as int);
                }
            }
            return None;
        }
        value = next;
        i = i + 1;
        assert(all_digits(d.take(i - start)));
    }
    assert(d.take(i - start) =~= d);
    Some(value)
}

/// `str::parse::<u32>`.
pub fn parse_u32(s: &str) -> (res: Option<u32>)
    ensures
        res == spec_parse_u32(s@),
{
    let len = s.unicode_len();
    let start: usize = if len > 0 && s.get_char(0) == '+' { 1 } else { 0 };
    if start >= len {
        assert(s@.skip(start as int).len() == 0);
        return None;
    }
    proof {
        if start == 0 {
            assert(s@.skip(0) =~= s@);
        }
    }
    match digits_from(s, start, 0xffff_ffff) {
        Some(v) => Some(v as u32),
        None => None,
    }
}

/// `str::parse::<i32>`.
pub fn parse_i32(s: &str) -> (res: Option<i32>)
    ensures
        res == spec_parse_i32(s@),
{
    let len = s.unicode_len();
    let negative = len > 0 && s.get_char(0) == '-';
    let start: usize = if len > 0 && (s.get_char(0) == '+' || s.get_char(0) == '-') { 1 } else { 0 };
    if start >= len {
        assert(s@.skip(start as int).len() == 0);
        return None;
    }
    proof {
        if start == 0 {
            assert(s@.skip(0) =~= s@);
        }
    }
    let limit: u64 = if negative { 0x8000_0000 } else { 0x7fff_ffff };
    match digits_from(s, start, limit) {
        Some(v) => {
            if negative {
                if v == 0x8000_0000 {
                    Some(i32::MIN)
                } else {
                    Some(-(v as i32))
                }
            } else {
                Some(v as i32)
            }
        },
        None => None,
    }
}

} // verus!
