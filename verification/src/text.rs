//! Characters and decimal digits: the small amount of text handling that the
//! bucket durations and the feed's numbers need.

use vstd::prelude::*;

verus! {

/// `c` is one of the ten ASCII decimal digits.
pub open spec fn is_digit(c: char) -> bool {
    '0' <= c && c <= '9'
}

/// The number that a decimal digit stands for.
pub open spec fn digit_value(c: char) -> nat {
    (c as int - '0' as int) as nat
}

/// Every character of `s` is a decimal digit.
pub open spec fn all_digits(s: Seq<char>) -> bool {
    forall|i: int| 0 <= i < s.len() ==> is_digit(#[trigger] s[i])
}

/// The natural number written by the digit string `s`, most significant digit
/// first; the empty string denotes zero.
pub open spec fn digits_value(s: Seq<char>) -> nat
    decreases s.len(),
{
    if s.len() == 0 {
        0
    } else {
        digits_value(s.drop_last()) * 10 + digit_value(s.last())
    }
}

/// The integer that `s` denotes when it is an optional sign followed by at
/// least one decimal digit, and `None` for any other text.
pub open spec fn signed_value(s: Seq<char>) -> Option<int> {
    if s.len() > 0 && (s[0] == '-' || s[0] == '+') {
        let body = s.skip(1);
        if body.len() == 0 || !all_digits(body) {
            None
        } else if s[0] == '-' {
            Some(-(digits_value(body) as int))
        } else {
            Some(digits_value(body) as int)
        }
    } else if s.len() == 0 || !all_digits(s) {
        None
    } else {
        Some(digits_value(s) as int)
    }
}

/// The value of `s` as a 64-bit signed integer: `signed_value` where it fits,
/// `None` where the text is no integer or the integer is out of range.
pub open spec fn i64_of(s: Seq<char>) -> Option<int> {
    match signed_value(s) {
        Some(v) => if i64::MIN <= v && v <= i64::MAX {
            Some(v)
        } else {
            None
        },
        None => None,
    }
}

/// Appending a digit never makes the denoted number smaller.
pub proof fn lemma_digits_value_grows(s: Seq<char>, n: int)
    requires
        0 <= n <= s.len(),
    ensures
        digits_value(s.take(n)) <= digits_value(s),
    decreases s.len() - n,
{
    if n == s.len() {
        assert(s.take(n) =~= s);
    } else {
        assert(s.drop_last().take(n) =~= s.take(n));
        lemma_digits_value_grows(s.drop_last(), n);
    }
}

/// The characters of `s`, in order.
pub fn chars_of(s: &str) -> (v: Vec<char>)
    ensures
        v@ == s@,
{
    let mut v: Vec<char> = Vec::new();
    for c in it: s.chars()
        invariant
            it.seq() == s@,
            v@ == s@.take(it.index() as int),
    {
        v.push(c);
    }
    v
}

/// Whether `a` and `b` hold the same characters.
pub fn same_chars(a: &Vec<char>, b: &Vec<char>) -> (r: bool)
    ensures
        r == (a@ == b@),
{
    if a.len() != b.len() {
        return false;
    }
    let mut i: usize = 0;
    while i < a.len()
        invariant
            a.len() == b.len(),
            i <= a.len(),
            a@.take(i as int) == b@.take(i as int),
        decreases a.len() - i,
    {
        if a[i] != b[i] {
            return false;
        }
        assert(a@.take(i + 1) =~= a@.take(i as int).push(a@[i as int]));
        assert(b@.take(i + 1) =~= b@.take(i as int).push(b@[i as int]));
        i += 1;
    }
    assert(a@.take(a.len() as int) =~= a@);
    assert(b@.take(b.len() as int) =~= b@);
    true
}

/// Whether `s` and `t` hold the same characters.
pub fn str_equal(s: &str, t: &str) -> (r: bool)
    ensures
        r == (s@ == t@),
{
    let a = chars_of(s);
    let b = chars_of(t);
    same_chars(&a, &b)
}

/// `s` begins with `prefix`.
pub open spec fn has_prefix(s: Seq<char>, prefix: Seq<char>) -> bool {
    prefix.len() <= s.len() && s.take(prefix.len() as int) == prefix
}

/// Whether `v` begins with `prefix`.
pub fn starts_with(v: &Vec<char>, prefix: &Vec<char>) -> (r: bool)
    ensures
        r == has_prefix(v@, prefix@),
{
    if prefix.len() > v.len() {
        return false;
    }
    let mut i: usize = 0;
    while i < prefix.len()
        invariant
            prefix.len() <= v.len(),
            i <= prefix.len(),
            v@.take(i as int) == prefix@.take(i as int),
        decreases prefix.len() - i,
    {
        if v[i] != prefix[i] {
            assert(v@.take(prefix.len() as int)[i as int] != prefix@[i as int]);
            return false;
        }
        assert(v@.take(i + 1) =~= v@.take(i as int).push(v@[i as int]));
        assert(prefix@.take(i + 1) =~= prefix@.take(i as int).push(prefix@[i as int]));
        i += 1;
    }
    assert(prefix@.take(prefix.len() as int) =~= prefix@);
    true
}

/// The string made of the characters `v[from..]`.
pub fn string_from(v: &Vec<char>, from: usize) -> (s: String)
    requires
        from <= v.len(),
    ensures
        s@ == v@.skip(from as int),
{
    let mut s = String::new();
    let mut i: usize = from;
    while i < v.len()
        invariant
            from <= i <= v.len(),
            s@ == v@.subrange(from as int, i as int),
        decreases v.len() - i,
    {
        s.push(v[i]);
        assert(v@.subrange(from as int, i + 1) =~= v@.subrange(from as int, i as int).push(
            v@[i as int],
        ));
        i += 1;
    }
    assert(v@.subrange(from as int, v.len() as int) =~= v@.skip(from as int));
    s
}

/// Whether `v[start..end]` consists of decimal digits only.
pub fn digits_only(v: &Vec<char>, start: usize, end: usize) -> (r: bool)
    requires
        start <= end <= v.len(),
    ensures
        r == all_digits(v@.subrange(start as int, end as int)),
{
    let mut i: usize = start;
    while i < end
        invariant
            start <= i <= end <= v.len(),
            all_digits(v@.subrange(start as int, i as int)),
        decreases end - i,
    {
        let c = v[i];
        if !('0' <= c && c <= '9') {
            assert(v@.subrange(start as int, end as int)[i - start] == c);
            return false;
        }
        assert forall|k: int| 0 <= k < i + 1 - start implies is_digit(
            #[trigger] v@.subrange(start as int, i + 1)[k],
        ) by {
            if k < i - start {
                assert(v@.subrange(start as int, i as int)[k] == v@[start + k]);
            }
        }
        i += 1;
    }
    true
}

/// One more than `i64::MAX`: the magnitude of the most negative 64-bit
/// integer.
pub const MAGNITUDE_LIMIT: u64 = 0x8000_0000_0000_0000;

/// The largest cap that `capped_value` works with.
pub const CAP_LIMIT: u128 = 10_000_000_000_000_000_000_000_000_000_000_000_000;

/// The number written by the digits `v[start..end]`, or `None` when it is
/// larger than `cap`.
pub fn capped_value(v: &Vec<char>, start: usize, end: usize, cap: u128) -> (r: Option<u128>)
    requires
        start <= end <= v.len(),
        all_digits(v@.subrange(start as int, end as int)),
        cap <= CAP_LIMIT,
    ensures
        r == if digits_value(v@.subrange(start as int, end as int)) <= cap {
            Some(digits_value(v@.subrange(start as int, end as int)) as u128)
        } else {
            None
        },
{
    let ghost whole = v@.subrange(start as int, end as int);
    let mut acc: u128 = 0;
    let mut i: usize = start;
    while i < end
        invariant
            start <= i <= end <= v.len(),
            whole == v@.subrange(start as int, end as int),
            all_digits(whole),
            cap <= CAP_LIMIT,
            acc <= cap,
            acc == digits_value(whole.take(i - start)),
        decreases end - i,
    {
        let c = v[i];
        assert(whole[i - start] == c);
        assert(is_digit(c));
        let d: u128 = (c as u32 - '0' as u32) as u128;
        assert(d == digit_value(c));
        proof {
            let next = whole.take(i + 1 - start);
            assert(next.drop_last() =~= whole.take(i - start));
            assert(next.last() == c);
            assert(digits_value(next) == acc * 10 + d);
            lemma_digits_value_grows(whole, i + 1 - start);
        }
        let next: u128 = acc * 10 + d;
        if next > cap {
            return None;
        }
        acc = next;
        i += 1;
    }
    assert(whole.take(end - start) =~= whole);
    Some(acc)
}

/// The number written by the digits `v[start..end]`, or `None` when it is
/// larger than `MAGNITUDE_LIMIT`.
pub fn magnitude_of(v: &Vec<char>, start: usize, end: usize) -> (r: Option<u64>)
    requires
        start <= end <= v.len(),
        all_digits(v@.subrange(start as int, end as int)),
    ensures
        r == if digits_value(v@.subrange(start as int, end as int)) <= MAGNITUDE_LIMIT {
            Some(digits_value(v@.subrange(start as int, end as int)) as u64)
        } else {
            None
        },
{
    match capped_value(v, start, end, MAGNITUDE_LIMIT as u128) {
        Some(m) => Some(m as u64),
        None => None,
    }
}

/// Index of the first character at or after `from` that is no digit.
pub open spec fn digits_end(s: Seq<char>, from: int) -> int
    decreases s.len() - from,
{
    if 0 <= from < s.len() && is_digit(s[from]) {
        digits_end(s, from + 1)
    } else {
        from
    }
}

/// Index of the first character at or after `from` that is no digit.
pub fn scan_digits(v: &Vec<char>, from: usize) -> (end: usize)
    requires
        from <= v.len(),
    ensures
        end == digits_end(v@, from as int),
        from <= end <= v.len(),
        all_digits(v@.subrange(from as int, end as int)),
{
    let mut i: usize = from;
    while i < v.len() && '0' <= v[i] && v[i] <= '9'
        invariant
            from <= i <= v.len(),
            digits_end(v@, from as int) == digits_end(v@, i as int),
            all_digits(v@.subrange(from as int, i as int)),
        decreases v.len() - i,
    {
        assert forall|k: int| 0 <= k < i + 1 - from implies is_digit(
            #[trigger] v@.subrange(from as int, i + 1)[k],
        ) by {
            if k < i - from {
                assert(v@.subrange(from as int, i as int)[k] == v@[from + k]);
            }
        }
        i += 1;
    }
    i
}

/// The character of a decimal digit.
pub open spec fn digit_char(d: nat) -> char {
    ('0' as u8 + d) as char
}

/// The decimal digits of `n`, most significant first, without leading zeros.
pub open spec fn nat_text(n: nat) -> Seq<char>
    decreases n,
{
    if n < 10 {
        seq![digit_char(n)]
    } else {
        nat_text(n / 10).push(digit_char(n % 10))
    }
}

/// The decimal form of `n`, with a minus sign if it is negative.
pub open spec fn int_text(n: int) -> Seq<char> {
    if n < 0 {
        seq!['-'] + nat_text((-n) as nat)
    } else {
        nat_text(n as nat)
    }
}

/// `String::push` appends the character to the end of the string.
pub assume_specification[ String::push ](s: &mut String, c: char)
    ensures
        final(s)@ == old(s)@.push(c),
;

/// Appends the decimal digits of `n` to `out`.
pub fn push_nat(out: &mut String, n: u64)
    ensures
        final(out)@ == old(out)@ + nat_text(n as nat),
    decreases n,
{
    if n >= 10 {
        push_nat(out, n / 10);
    }
    let d: u8 = (n % 10) as u8;
    let c: char = (48u8 + d) as char;
    assert(c == digit_char((n % 10) as nat));
    out.push(c);
    proof {
        if n >= 10 {
            assert(old(out)@ + nat_text(n as nat) =~= (old(out)@ + nat_text((n / 10) as nat)).push(
                c,
            ));
        } else {
            assert(old(out)@ + nat_text(n as nat) =~= old(out)@.push(c));
        }
    }
}

/// Appends the decimal form of `n` to `out`.
pub fn push_i64(out: &mut String, n: i64)
    ensures
        final(out)@ == old(out)@ + int_text(n as int),
{
    if n < 0 {
        out.push('-');
        let m: u64 = if n == i64::MIN {
            MAGNITUDE_LIMIT
        } else {
            (-n) as u64
        };
        push_nat(out, m);
        assert(old(out)@ + int_text(n as int) =~= old(out)@.push('-') + nat_text(m as nat));
    } else {
        push_nat(out, n as u64);
    }
}

/// Reads an optionally signed decimal integer that fits in 64 bits.
pub fn parse_i64(v: &Vec<char>) -> (r: Option<i64>)
    ensures
        r matches Some(x) ==> i64_of(v@) == Some(x as int),
        r is None ==> i64_of(v@) is None,
{
    let n = v.len();
    if n == 0 {
        return None;
    }
    let signed = v[0] == '-' || v[0] == '+';
    let start: usize = if signed { 1 } else { 0 };
    assert(v@.subrange(start as int, n as int) =~= if signed { v@.skip(1) } else { v@ });
    if start == n || !digits_only(v, start, n) {
        return None;
    }
    match magnitude_of(v, start, n) {
        None => None,
        Some(m) => {
            if v[0] == '-' {
                if m == MAGNITUDE_LIMIT {
                    Some(i64::MIN)
                } else {
                    Some(-(m as i64))
                }
            } else if m == MAGNITUDE_LIMIT {
                None
            } else {
                Some(m as i64)
            }
        },
    }
}

} // verus!
