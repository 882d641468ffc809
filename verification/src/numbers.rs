//! Decimal numbers in text: parsing as std's `str::parse` does for
//! integers, and formatting.

use vstd::prelude::*;
use crate::text::{push_char, to_chars};

verus! {

pub open spec fn is_digit(c: char) -> bool {
    '0' <= c && c <= '9'
}

pub open spec fn digit_value(c: char) -> nat {
    (c as nat - '0' as nat) as nat
}

pub open spec fn all_digits(s: Seq<char>) -> bool {
    forall|i: int| 0 <= i < s.len() ==> is_digit(#[trigger] s[i])
}

/// The value of a string of decimal digits.
pub open spec fn digits_value(s: Seq<char>) -> nat
    decreases s.len(),
{
    if s.len() == 0 {
        0
    } else {
        digits_value(s.drop_last()) * 10 + digit_value(s.last())
    }
}

/// The digits of an unsigned number: an optional `+` followed by at least
/// one decimal digit.
pub open spec fn unsigned_body(s: Seq<char>) -> Option<Seq<char>> {
    let body = if s.len() > 0 && s[0] == '+' { s.skip(1) } else { s };
    if body.len() > 0 && all_digits(body) { Some(body) } else { None }
}

/// `s` parsed as an unsigned integer of at most `max`, as std's `parse`
/// does for unsigned integer types.
pub open spec fn parse_unsigned(s: Seq<char>, max: nat) -> Option<nat> {
    match unsigned_body(s) {
        Some(d) => if digits_value(d) <= max { Some(digits_value(d)) } else { None },
        None => None,
    }
}

/// `s` parsed as a signed integer in `[-(max + 1), max]`, as std's `parse`
/// does for signed integer types (an optional `+` or `-` sign).
pub open spec fn parse_signed(s: Seq<char>, max: nat) -> Option<int> {
    if s.len() > 0 && s[0] == '-' {
        let body = s.skip(1);
        if body.len() > 0 && all_digits(body) && digits_value(body) <= max + 1 {
            Some(-(digits_value(body) as int))
        } else {
            None
        }
    } else {
        match parse_unsigned(s, max) {
            Some(v) => Some(v as int),
            None => None,
        }
    }
}

/// A number parsed from at most two characters is at most 99.
pub proof fn lemma_short_digits_small(s: Seq<char>)
    requires
        s.len() <= 2,
    ensures
        parse_unsigned(s, u32::MAX as nat) matches Some(n) ==> n <= 99,
{
    match unsigned_body(s) {
        Some(d) => {
            assert(d.len() <= 2);
            assert(forall|c: char| is_digit(c) ==> digit_value(c) <= 9);
            if d.len() == 2 {
                let d1 = d.drop_last();
                assert(d1.drop_last().len() == 0);
                assert(is_digit(d[0]) && is_digit(d[1]));
                assert(d1.last() == d[0]);
                assert(d.last() == d[1]);
                assert(digits_value(d1.drop_last()) == 0);
                assert(digits_value(d1) == digit_value(d[0]));
                assert(digits_value(d) == digits_value(d1) * 10 + digit_value(d[1]));
            } else if d.len() == 1 {
                assert(d.drop_last().len() == 0);
                assert(is_digit(d[0]));
                assert(digits_value(d.drop_last()) == 0);
                assert(digits_value(d) == digit_value(d[0]));
            }
        },
        None => {},
    }
}

proof fn lemma_digits_value_prefix_grows(s: Seq<char>, i: int)
    requires
        0 <= i <= s.len(),
    ensures
        digits_value(s.take(i)) <= digits_value(s),
    decreases s.len() - i,
{
    if i < s.len() {
        lemma_digits_value_prefix_grows(s, i + 1);
        assert(s.take(i + 1).drop_last() =~= s.take(i));
    } else {
        assert(s.take(i) =~= s);
    }
}

/// The value of the digits `v[from..]`, when it is at most `max`.
fn digits_at_most(v: &Vec<char>, from: usize, max: u64) -> (r: Option<u64>)
    requires
        from <= v@.len(),
    ensures
        ({
            let d = v@.skip(from as int);
            match r {
                Some(x) => all_digits(d) && x == digits_value(d) && x <= max,
                None => !all_digits(d) || digits_value(d) > max,
            }
        }),
{
    let ghost d = v@.skip(from as int);
    let mut acc: u64 = 0;
    let mut i = from;
    while i < v.len()
        invariant
            from <= i <= v@.len(),
            d == v@.skip(from as int),
            all_digits(d.take(i - from)),
            acc == digits_value(d.take(i - from)),
            acc <= max,
        decreases v@.len() - i,
    {
        let c = v[i];
        proof {
            assert(d[i - from] == c);
            assert(d.take(i - from + 1).drop_last() =~= d.take(i - from));
        }
        if !('0' <= c && c <= '9') {
            proof {
                assert(!is_digit(d[i - from]));
            }
            return None;
        }
        let dv = (c as u32 - '0' as u32) as u64;
        let next = match acc.checked_mul(10) {
            Some(m) => m.checked_add(dv),
            None => None,
        };
        match next {
            Some(n) if n <= max => {
                acc = n;
                i = i + 1;
                proof {
                    assert(all_digits(d.take(i - from))) by {
                        assert forall|j: int| 0 <= j < d.take(i - from).len() implies is_digit(
                            #[trigger] d.take(i - from)[j],
                        ) by {
                            if j < i - from - 1 {
                                assert(d.take(i - from)[j] == d.take(i - from - 1)[j]);
                            }
                        }
                    }
                }
            },
            _ => {
                proof {
                    lemma_digits_value_prefix_grows(d, i - from + 1);
                    if all_digits(d) {
                        assert(digits_value(d.take(i - from + 1)) == acc * 10 + dv);
                    }
                }
                return None;
            },
        }
    }
    proof {
        assert(d.take(i - from) =~= d);
    }
    Some(acc)
}

/// `s` parsed as an unsigned integer of at most `max` (see
/// [`parse_unsigned`]).
pub fn parse_unsigned_at_most(s: &str, max: u64) -> (r: Option<u64>)
    ensures
        match r {
            Some(x) => parse_unsigned(s@, max as nat) == Some(x as nat),
            None => parse_unsigned(s@, max as nat) is None,
        },
{
    let v = to_chars(s);
    let from: usize = if v.len() > 0 && v[0] == '+' { 1 } else { 0 };
    proof {
        assert(v@.skip(from as int) == (if s@.len() > 0 && s@[0] == '+' { s@.skip(1) } else { s@ }));
    }
    if from == v.len() {
        return None;
    }
    digits_at_most(&v, from, max)
}

/// std's `str::parse::<u64>`.
pub fn parse_u64(s: &str) -> (r: Option<u64>)
    ensures
        match r {
            Some(x) => parse_unsigned(s@, u64::MAX as nat) == Some(x as nat),
            None => parse_unsigned(s@, u64::MAX as nat) is None,
        },
{
    parse_unsigned_at_most(s, u64::MAX)
}

/// std's `str::parse::<u32>`.
pub fn parse_u32(s: &str) -> (r: Option<u32>)
    ensures
        match r {
            Some(x) => parse_unsigned(s@, u32::MAX as nat) == Some(x as nat),
            None => parse_unsigned(s@, u32::MAX as nat) is None,
        },
{
    match parse_unsigned_at_most(s, u32::MAX as u64) {
        Some(x) => Some(x as u32),
        None => None,
    }
}

/// std's `str::parse::<usize>`.
pub fn parse_usize(s: &str) -> (r: Option<usize>)
    ensures
        match r {
            Some(x) => parse_unsigned(s@, usize::MAX as nat) == Some(x as nat),
            None => parse_unsigned(s@, usize::MAX as nat) is None,
        },
{
    match parse_unsigned_at_most(s, usize::MAX as u64) {
        Some(x) => Some(x as usize),
        None => None,
    }
}

/// std's `str::parse::<isize>`.
pub fn parse_isize(s: &str) -> (r: Option<isize>)
    ensures
        match r {
            Some(x) => parse_signed(s@, isize::MAX as nat) == Some(x as int),
            None => parse_signed(s@, isize::MAX as nat) is None,
        },
{
    let v = to_chars(s);
    if v.len() > 0 && v[0] == '-' {
        if v.len() == 1 {
            return None;
        }
        let limit: u64 = (isize::MAX as u64) + 1;
        match digits_at_most(&v, 1, limit) {
            Some(x) => {
                proof {
                    assert(v@.skip(1) =~= s@.skip(1));
                }
                if x == limit {
                    Some(isize::MIN)
                } else {
                    let p = x as isize;
                    Some(-p)
                }
            },
            None => {
                proof {
                    assert(v@.skip(1) =~= s@.skip(1));
                }
                None
            },
        }
    } else {
        match parse_unsigned_at_most(s, isize::MAX as u64) {
            Some(x) => Some(x as isize),
            None => None,
        }
    }
}

/// The decimal digits of `n`, without leading zeros.
pub open spec fn decimal(n: nat) -> Seq<char>
    decreases n,
{
    if n < 10 {
        seq![('0' as nat + n) as char]
    } else {
        decimal(n / 10).push(('0' as nat + n % 10) as char)
    }
}

/// `n` written in decimal.
pub fn u64_to_decimal(n: u64) -> (s: String)
    ensures
        s@ == decimal(n as nat),
    decreases n,
{
    if n < 10 {
        let mut s = String::new();
        let c = digit_char(n);
        push_char(&mut s, c);
        assert(s@ =~= decimal(n as nat));
        s
    } else {
        let mut s = u64_to_decimal(n / 10);
        let c = digit_char(n % 10);
        push_char(&mut s, c);
        s
    }
}

fn digit_char(d: u64) -> (c: char)
    requires
        d < 10,
    ensures
        c == ('0' as nat + d) as char,
{
    let b = (48 + d) as u8;
    b as char
}

/// `n` written in decimal.
pub fn usize_to_decimal(n: usize) -> (s: String)
    ensures
        s@ == decimal(n as nat),
{
    u64_to_decimal(n as u64)
}

/// std's `str::parse::<i32>`.
pub fn parse_i32(s: &str) -> (r: Option<i32>)
    ensures
        match r {
            Some(x) => parse_signed(s@, i32::MAX as nat) == Some(x as int),
            None => parse_signed(s@, i32::MAX as nat) is None,
        },
{
    let v = to_chars(s);
    if v.len() > 0 && v[0] == '-' {
        if v.len() == 1 {
            return None;
        }
        let limit: u64 = (i32::MAX as u64) + 1;
        match digits_at_most(&v, 1, limit) {
            Some(x) => {
                proof {
                    assert(v@.skip(1) =~= s@.skip(1));
                }
                if x == limit {
                    Some(i32::MIN)
                } else {
                    let p = x as i32;
                    Some(-p)
                }
            },
            None => {
                proof {
                    assert(v@.skip(1) =~= s@.skip(1));
                }
                None
            },
        }
    } else {
        match parse_unsigned_at_most(s, i32::MAX as u64) {
            Some(x) => Some(x as i32),
            None => None,
        }
    }
}

} // verus!
