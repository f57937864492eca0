//! Decimal parsing and formatting of integers, as `str::parse` and `format!` do it.
use vstd::prelude::*;

verus! {

pub open spec fn is_digit(c: char) -> bool {
    '0' <= c && c <= '9'
}

pub open spec fn digit_of(c: char) -> nat {
    (c as int - '0' as int) as nat
}

pub open spec fn digit_char(d: nat) -> char {
    (d + '0' as int) as char
}

pub open spec fn all_digits(s: Seq<char>) -> bool {
    forall|i: int| 0 <= i < s.len() ==> is_digit(#[trigger] s[i])
}

/// The number that a string of decimal digits denotes.
pub open spec fn digits_value(s: Seq<char>) -> nat
    decreases s.len(),
{
    if s.len() == 0 {
        0
    } else {
        digits_value(s.drop_last()) * 10 + digit_of(s.last())
    }
}

/// What `str::parse` gives for an unsigned integer type without bound: an
/// optional `+`, then at least one decimal digit.
pub open spec fn parse_unsigned(s: Seq<char>) -> Option<nat> {
    let body = if s.len() > 0 && s[0] == '+' { s.drop_first() } else { s };
    if body.len() > 0 && all_digits(body) {
        Some(digits_value(body))
    } else {
        None
    }
}

/// What `str::parse` gives for a signed integer type without bound: an
/// optional sign, then at least one decimal digit.
pub open spec fn parse_signed(s: Seq<char>) -> Option<int> {
    if s.len() > 0 && s[0] == '-' {
        let body = s.drop_first();
        if body.len() > 0 && all_digits(body) {
            Some(-digits_value(body))
        } else {
            None
        }
    } else {
        match parse_unsigned(s) {
            Some(v) => Some(v as int),
            None => None,
        }
    }
}

/// Decimal representation of a natural number, without leading zeros.
pub open spec fn decimal(n: nat) -> Seq<char>
    decreases n,
{
    if n < 10 {
        seq![digit_char(n)]
    } else {
        decimal(n / 10).push(digit_char(n % 10))
    }
}

/// Decimal representation of an integer, with a leading `-` when negative.
pub open spec fn signed_decimal(n: int) -> Seq<char> {
    if n < 0 {
        seq!['-'] + decimal((-n) as nat)
    } else {
        decimal(n as nat)
    }
}

proof fn lemma_digits_value_monotone(s: Seq<char>, i: int)
    requires
        0 <= i <= s.len(),
    ensures
        digits_value(s.subrange(0, i)) <= digits_value(s),
    decreases s.len() - i,
{
    if i < s.len() {
        lemma_digits_value_monotone(s, i + 1);
        assert(s.subrange(0, i + 1).drop_last() =~= s.subrange(0, i));
    } else {
        assert(s.subrange(0, i) =~= s);
    }
}

/// Value of the digits `s[from..]` when all are digits, there is at least one,
/// and the value is at most `limit`.
fn parse_digits(s: &Vec<char>, from: usize, limit: u64) -> (r: Option<u64>)
    requires
        from <= s.len(),
    ensures
        ({
            let body = s@.subrange(from as int, s.len() as int);
            r == if body.len() > 0 && all_digits(body) && digits_value(body) <= limit {
                Some(digits_value(body) as u64)
            } else {
                None::<u64>
            }
        }),
{
    let ghost body = s@.subrange(from as int, s.len() as int);
    if from == s.len() {
        return None;
    }
    let mut acc: u64 = 0;
    let mut i: usize = from;
    while i < s.len()
        invariant
            from <= i <= s.len(),
            body == s@.subrange(from as int, s.len() as int),
            forall|m: int| from <= m < i ==> is_digit(#[trigger] s@[m]),
            acc as nat == digits_value(s@.subrange(from as int, i as int)),
            acc <= limit,
        decreases s.len() - i,
    {
        let c = s[i];
        if !('0' <= c && c <= '9') {
            assert(body[i - from] == c);
            return None;
        }
        let d = (c as u32 - '0' as u32) as u64;
        assert(s@.subrange(from as int, i + 1).drop_last() =~= s@.subrange(from as int, i as int));
        if d > limit || acc > (limit - d) / 10 {
            assert(acc * 10 + d > limit) by (nonlinear_arith)
                requires
                    d > limit || acc > (limit - d) / 10,
                    d <= 9,
            ;
            proof {
                assert(body.subrange(0, i + 1 - from) =~= s@.subrange(from as int, i + 1));
                lemma_digits_value_monotone(body, i + 1 - from);
                assert(forall|m: int| 0 <= m < body.len() && m < i + 1 - from ==> is_digit(#[trigger] body[m]));
            }
            if i + 1 < s.len() {
                // The remaining characters decide between "not a number" and "too large".
                let mut k: usize = i + 1;
                while k < s.len()
                    invariant
                        from <= i,
                        i + 1 <= k <= s.len(),
                        body == s@.subrange(from as int, s.len() as int),
                        forall|m: int| from <= m < k ==> is_digit(#[trigger] s@[m]),
                    decreases s.len() - k,
                {
                    let c2 = s[k];
                    if !('0' <= c2 && c2 <= '9') {
                        assert(body[k - from] == c2);
                        return None;
                    }
                    k = k + 1;
                }
            }
            assert(s@.subrange(from as int, i + 1) =~= body.subrange(0, i + 1 - from));
            assert(all_digits(body));
            return None;
        }
        assert(acc * 10 + d <= limit) by (nonlinear_arith)
            requires
                d <= limit,
                acc <= (limit - d) / 10,
        ;
        acc = acc * 10 + d;
        i = i + 1;
    }
    assert(s@.subrange(from as int, i as int) =~= body);
    Some(acc)
}

/// `str::parse::<u64>`-style parsing with an upper bound: `Some(v)` exactly
/// when `s` is an optional `+` followed by digits denoting `v <= limit`.
pub fn parse_unsigned_bounded(s: &Vec<char>, limit: u64) -> (r: Option<u64>)
    ensures
        r == match parse_unsigned(s@) {
            Some(v) => if v <= limit { Some(v as u64) } else { None::<u64> },
            None => None::<u64>,
        },
{
    let from: usize = if s.len() > 0 && s[0] == '+' { 1 } else { 0 };
    proof {
        if s@.len() > 0 && s@[0] == '+' {
            assert(s@.subrange(1, s@.len() as int) =~= s@.drop_first());
        } else {
            assert(s@.subrange(0, s@.len() as int) =~= s@);
        }
    }
    parse_digits(s, from, limit)
}

/// `str::parse::<usize>`.
pub fn parse_usize(s: &Vec<char>) -> (r: Option<usize>)
    ensures
        r == match parse_unsigned(s@) {
            Some(v) => if v <= usize::MAX { Some(v as usize) } else { None::<usize> },
            None => None::<usize>,
        },
{
    match parse_unsigned_bounded(s, usize::MAX as u64) {
        Some(v) => Some(v as usize),
        None => None,
    }
}

/// `str::parse::<u32>`.
pub fn parse_u32(s: &Vec<char>) -> (r: Option<u32>)
    ensures
        r == match parse_unsigned(s@) {
            Some(v) => if v <= u32::MAX { Some(v as u32) } else { None::<u32> },
            None => None::<u32>,
        },
{
    match parse_unsigned_bounded(s, u32::MAX as u64) {
        Some(v) => Some(v as u32),
        None => None,
    }
}

/// `str::parse::<i64>`.
pub fn parse_i64(s: &Vec<char>) -> (r: Option<i64>)
    ensures
        r == match parse_signed(s@) {
            Some(v) => if i64::MIN <= v <= i64::MAX { Some(v as i64) } else { None::<i64> },
            None => None::<i64>,
        },
{
    if s.len() > 0 && s[0] == '-' {
        assert(s@.subrange(1, s@.len() as int) =~= s@.drop_first());
        match parse_digits(s, 1, 0x8000_0000_0000_0000u64) {
            Some(m) => {
                if m == 0x8000_0000_0000_0000u64 {
                    Some(i64::MIN)
                } else {
                    Some(-(m as i64))
                }
            },
            None => None,
        }
    } else {
        match parse_unsigned_bounded(s, i64::MAX as u64) {
            Some(v) => Some(v as i64),
            None => None,
        }
    }
}

fn digit_to_char(d: u64) -> (c: char)
    requires
        d < 10,
    ensures
        c == digit_char(d as nat),
{
    let b: u8 = 48u8 + d as u8;
    b as char
}

/// Decimal digits of `n`.
pub fn decimal_u64(n: u64) -> (r: Vec<char>)
    ensures
        r@ == decimal(n as nat),
    decreases n,
{
    if n < 10 {
        let mut v: Vec<char> = Vec::new();
        v.push(digit_to_char(n));
        assert(v@ =~= seq![digit_char(n as nat)]);
        v
    } else {
        let mut v = decimal_u64(n / 10);
        v.push(digit_to_char(n % 10));
        v
    }
}

/// `format!("{}", n)` for an `i64`.
pub fn decimal_i64(n: i64) -> (r: Vec<char>)
    ensures
        r@ == signed_decimal(n as int),
{
    if n < 0 {
        let m: u64 = if n == i64::MIN { 0x8000_0000_0000_0000u64 } else { (-n) as u64 };
        let d = decimal_u64(m);
        let mut r: Vec<char> = Vec::new();
        r.push('-');
        let mut k: usize = 0;
        while k < d.len()
            invariant
                k <= d.len(),
                r@ == seq!['-'] + d@.subrange(0, k as int),
            decreases d.len() - k,
        {
            r.push(d[k]);
            k = k + 1;
            assert(r@ =~= seq!['-'] + d@.subrange(0, k as int));
        }
        assert(d@.subrange(0, d.len() as int) =~= d@);
        r
    } else {
        decimal_u64(n as u64)
    }
}

/// `format!("{}", n)` for a `usize`.
pub fn usize_to_string(n: usize) -> (r: String)
    ensures
        r@ == decimal(n as nat),
{
    let v = decimal_u64(n as u64);
    crate::text::string_from(v.as_slice())
}

} // verus!
