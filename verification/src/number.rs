//! Reading integers from text, as `str::parse` does for the integer types.
use vstd::prelude::*;
use crate::text::{chars_of, dec_int, dec_nat, digit_char};

verus! {

/// `c` is an ASCII decimal digit.
pub open spec fn is_digit(c: char) -> bool {
    c == '0' || c == '1' || c == '2' || c == '3' || c == '4' || c == '5' || c == '6' || c == '7' || c == '8' || c == '9'
}

/// The value of a decimal digit.
pub open spec fn digit_value(c: char) -> nat {
    if c == '0' { 0 } else if c == '1' { 1 } else if c == '2' { 2 } else if c == '3' { 3 } else if c == '4' { 4 }
    else if c == '5' { 5 } else if c == '6' { 6 } else if c == '7' { 7 } else if c == '8' { 8 } else { 9 }
}

/// Every character is a decimal digit.
pub open spec fn all_digits(s: Seq<char>) -> bool {
    forall|i: int| 0 <= i < s.len() ==> #[trigger] is_digit(s[i])
}

/// The number the decimal digits stand for.
pub open spec fn digits_value(s: Seq<char>) -> nat
    decreases s.len(),
{
    if s.len() == 0 {
        0
    } else {
        digits_value(s.drop_last()) * 10 + digit_value(s.last())
    }
}

/// `str::parse` for an integer type with the range `min..=max`: an optional
/// `+` (or, for a signed type, `-`) and then one or more decimal digits
/// whose value is in range.
pub open spec fn parse_spec(s: Seq<char>, signed: bool, min: int, max: int) -> Option<int> {
    let neg = signed && s.len() > 0 && s[0] == '-';
    let body = if s.len() > 0 && (s[0] == '+' || neg) { s.drop_first() } else { s };
    if body.len() == 0 || !all_digits(body) {
        None
    } else {
        let v = if neg { -(digits_value(body) as int) } else { digits_value(body) as int };
        if min <= v <= max { Some(v) } else { None }
    }
}

/// `str::parse::<i32>`.
pub open spec fn parse_i32_spec(s: Seq<char>) -> Option<int> {
    parse_spec(s, true, i32::MIN as int, i32::MAX as int)
}

/// `str::parse::<u64>`.
pub open spec fn parse_u64_spec(s: Seq<char>) -> Option<int> {
    parse_spec(s, false, 0, u64::MAX as int)
}

proof fn lemma_digits_value_take(s: Seq<char>, i: int)
    requires
        0 <= i <= s.len(),
    ensures
        digits_value(s.take(i)) <= digits_value(s),
    decreases s.len() - i,
{
    if i < s.len() {
        lemma_digits_value_take(s, i + 1);
        assert(s.take(i + 1).drop_last() =~= s.take(i));
    } else {
        assert(s.take(i) =~= s);
    }
}

fn digit_of_char(c: char) -> (r: Option<u8>)
    ensures
        r is Some <==> is_digit(c),
        r matches Some(d) ==> d == digit_value(c),
{
    if c == '0' { Some(0) } else if c == '1' { Some(1) } else if c == '2' { Some(2) } else if c == '3' { Some(3) }
    else if c == '4' { Some(4) } else if c == '5' { Some(5) } else if c == '6' { Some(6) } else if c == '7' { Some(7) }
    else if c == '8' { Some(8) } else if c == '9' { Some(9) } else { None }
}

/// The value of `s[start..]` when it is made of digits only and the value is
/// at most `limit`.
fn parse_digits(s: &[char], start: usize, limit: u64) -> (r: Option<u64>)
    requires
        start <= s@.len(),
    ensures
        ({
            let body = s@.subrange(start as int, s@.len() as int);
            r == (if body.len() > 0 && all_digits(body) && digits_value(body) <= limit {
                Some(digits_value(body) as u64)
            } else {
                None::<u64>
            })
        }),
{
    let ghost body = s@.subrange(start as int, s@.len() as int);
    let n = s.len();
    if start == n {
        return None;
    }
    let mut acc: u128 = 0;
    let mut i = start;
    while i < n
        invariant
            start <= i <= n,
            n == s@.len(),
            body == s@.subrange(start as int, n as int),
            all_digits(body.take(i - start)),
            acc == digits_value(body.take(i - start)),
            acc <= limit,
        decreases n - i,
    {
        let ghost k = i - start;
        assert(body.take(k + 1).drop_last() =~= body.take(k));
        assert(body[k] == s@[i as int]);
        match digit_of_char(s[i]) {
            Some(d) => {
                acc = acc * 10 + d as u128;
                if acc > limit as u128 {
                    proof {
                        lemma_digits_value_take(body, k + 1);
                    }
                    return None;
                }
            },
            None => {
                return None;
            },
        }
        i = i + 1;
    }
    assert(body.take(n - start) =~= body);
    Some(acc as u64)
}

/// `str::parse::<i32>`: `None` where it gives an error.
pub fn parse_i32(s: &str) -> (r: Option<i32>)
    ensures
        r matches Some(v) ==> parse_i32_spec(s@) == Some(v as int),
        r is None ==> parse_i32_spec(s@) is None,
{
    let v = chars_of(s);
    let neg = v.len() > 0 && v[0] == '-';
    let start: usize = if v.len() > 0 && (v[0] == '+' || neg) { 1 } else { 0 };
    assert(v@.subrange(start as int, v@.len() as int) =~= (if start == 1 { s@.drop_first() } else { s@ }));
    let limit: u64 = if neg { 2147483648 } else { 2147483647 };
    match parse_digits(v.as_slice(), start, limit) {
        Some(m) => if neg {
            Some((-(m as i64)) as i32)
        } else {
            Some(m as i32)
        },
        None => None,
    }
}

/// `str::parse::<u64>`: `None` where it gives an error.
pub fn parse_u64(s: &str) -> (r: Option<u64>)
    ensures
        r matches Some(v) ==> parse_u64_spec(s@) == Some(v as int),
        r is None ==> parse_u64_spec(s@) is None,
{
    let v = chars_of(s);
    let start: usize = if v.len() > 0 && v[0] == '+' { 1 } else { 0 };
    assert(v@.subrange(start as int, v@.len() as int) =~= (if start == 1 { s@.drop_first() } else { s@ }));
    parse_digits(v.as_slice(), start, u64::MAX)
}

proof fn lemma_dec_digits(n: nat)
    ensures
        dec_nat(n).len() > 0,
        all_digits(dec_nat(n)),
        digits_value(dec_nat(n)) == n,
        dec_nat(n)[0] != '-' && dec_nat(n)[0] != '+',
    decreases n,
{
    let last = digit_char(n % 10);
    assert(is_digit(last) && digit_value(last) == n % 10);
    if n >= 10 {
        lemma_dec_digits(n / 10);
        assert(dec_nat(n).last() == last);
        let d = dec_nat(n);
        assert(d.drop_last() =~= dec_nat(n / 10));
        assert(digits_value(d) == digits_value(dec_nat(n / 10)) * 10 + n % 10);
        assert forall|i: int| 0 <= i < d.len() implies #[trigger] is_digit(d[i]) by {
            if i < d.len() - 1 {
                assert(d[i] == dec_nat(n / 10)[i]);
            }
        }
    } else {
        let d = dec_nat(n);
        assert(d.drop_last() =~= Seq::<char>::empty());
        assert(digits_value(d) == digits_value(Seq::<char>::empty()) * 10 + digit_value(last));
    }
}

/// The first character of a decimal rendering is a digit or `-`, both ASCII.
pub proof fn lemma_dec_first(n: int)
    ensures
        dec_int(n).len() > 0,
        (dec_int(n)[0] as u32) < 128,
{
    if n < 0 {
        lemma_dec_digits((-n) as nat);
    } else {
        lemma_dec_digits(n as nat);
        let c = dec_nat(n as nat)[0];
        assert(is_digit(c));
    }
}

/// Reading back a number written in decimal gives the number.
pub proof fn law_parse_reads_decimal(n: int, signed: bool, min: int, max: int)
    requires
        min <= n <= max,
        signed || n >= 0,
    ensures
        parse_spec(dec_int(n), signed, min, max) == Some(n),
{
    if n < 0 {
        lemma_dec_digits((-n) as nat);
        let s = dec_int(n);
        assert(s.drop_first() =~= dec_nat((-n) as nat));
    } else {
        lemma_dec_digits(n as nat);
    }
}

} // verus!
