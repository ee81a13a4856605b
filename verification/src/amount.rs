//! Decimal numbers of the feed as fixed-point integers.
//!
//! A number is an optional sign, digits, an optional fraction and an
//! optional decimal exponent, as in `"50000.0"`, `"1.5"` or `"1e-7"`. Its
//! amount is its value times `AMOUNT_SCALE`, rounded toward zero.

use vstd::prelude::*;
use crate::text::{
    all_digits,
    capped_value,
    digit_char,
    digits_end,
    digits_value,
    nat_text,
    push_nat,
    scan_digits,
    MAGNITUDE_LIMIT,
};
use crate::types::AMOUNT_SCALE;

verus! {

/// Number of decimal places that an amount keeps.
pub const AMOUNT_DIGITS: u8 = 8;

/// Largest mantissa, as a number, that is read.
pub const MANTISSA_LIMIT: u128 = 1_000_000_000_000_000_000_000_000_000_000;

/// Largest magnitude of a decimal exponent that is read.
pub const EXPONENT_LIMIT: u128 = 1000;

/// Ten to the power `n`.
pub open spec fn pow10(n: nat) -> nat
    decreases n,
{
    if n == 0 {
        1
    } else {
        10 * pow10((n - 1) as nat)
    }
}

/// `m` with its decimal point moved `shift` places to the right, or to the
/// left for a negative `shift`, rounded down.
pub open spec fn shifted(m: nat, shift: int) -> nat {
    if shift >= 0 {
        m * pow10(shift as nat)
    } else {
        m / pow10((-shift) as nat)
    }
}

pub open spec fn is_sign(c: char) -> bool {
    c == '-' || c == '+'
}

/// 1 if a sign stands at `at`, else 0.
pub open spec fn sign_len(s: Seq<char>, at: int) -> int {
    if 0 <= at < s.len() && is_sign(s[at]) {
        1
    } else {
        0
    }
}

/// Where the integer digits end.
pub open spec fn int_end(s: Seq<char>) -> int {
    digits_end(s, sign_len(s, 0))
}

/// A decimal point follows the integer digits.
pub open spec fn has_fraction(s: Seq<char>) -> bool {
    int_end(s) < s.len() && s[int_end(s)] == '.'
}

/// Where the mantissa ends.
pub open spec fn frac_end(s: Seq<char>) -> int {
    if has_fraction(s) {
        digits_end(s, int_end(s) + 1)
    } else {
        int_end(s)
    }
}

/// An exponent marker follows the mantissa.
pub open spec fn has_exponent(s: Seq<char>) -> bool {
    frac_end(s) < s.len() && (s[frac_end(s)] == 'e' || s[frac_end(s)] == 'E')
}

/// Where the digits of the exponent start.
pub open spec fn exp_start(s: Seq<char>) -> int {
    frac_end(s) + 1 + sign_len(s, frac_end(s) + 1)
}

/// Where the number ends.
pub open spec fn exp_end(s: Seq<char>) -> int {
    if has_exponent(s) {
        digits_end(s, exp_start(s))
    } else {
        frac_end(s)
    }
}

/// `s` is a decimal number: at least one integer digit, at least one digit
/// after a decimal point and after an exponent marker, and nothing else.
pub open spec fn well_shaped(s: Seq<char>) -> bool {
    &&& int_end(s) > sign_len(s, 0)
    &&& has_fraction(s) ==> frac_end(s) > int_end(s) + 1
    &&& has_exponent(s) ==> exp_end(s) > exp_start(s)
    &&& exp_end(s) == s.len()
}

/// The digits after the decimal point.
pub open spec fn fraction_digits(s: Seq<char>) -> Seq<char> {
    if has_fraction(s) {
        s.subrange(int_end(s) + 1, frac_end(s))
    } else {
        Seq::empty()
    }
}

/// The digits of the mantissa, the decimal point left out.
pub open spec fn mantissa_digits(s: Seq<char>) -> Seq<char> {
    s.subrange(sign_len(s, 0), int_end(s)) + fraction_digits(s)
}

/// The digits of the exponent.
pub open spec fn exponent_digits(s: Seq<char>) -> Seq<char> {
    if has_exponent(s) {
        s.subrange(exp_start(s), exp_end(s))
    } else {
        Seq::empty()
    }
}

/// The decimal exponent.
pub open spec fn exponent_of(s: Seq<char>) -> int {
    if has_exponent(s) && s[frac_end(s) + 1] == '-' {
        -(digits_value(exponent_digits(s)) as int)
    } else {
        digits_value(exponent_digits(s)) as int
    }
}

/// The amount that the decimal number `s` denotes: its value times
/// `AMOUNT_SCALE`, rounded toward zero. `None` when `s` is no decimal
/// number, when its mantissa or exponent is beyond the limits, or when the
/// amount does not fit in 64 bits.
pub open spec fn amount_of(s: Seq<char>) -> Option<int> {
    if !well_shaped(s) || digits_value(mantissa_digits(s)) > MANTISSA_LIMIT || digits_value(
        exponent_digits(s),
    ) > EXPONENT_LIMIT {
        None
    } else {
        let magnitude = shifted(
            digits_value(mantissa_digits(s)),
            AMOUNT_DIGITS - fraction_digits(s).len() + exponent_of(s),
        );
        let value = if s[0] == '-' {
            -(magnitude as int)
        } else {
            magnitude as int
        };
        if i64::MIN <= value <= i64::MAX {
            Some(value)
        } else {
            None
        }
    }
}

pub proof fn lemma_pow10_positive(n: nat)
    ensures
        pow10(n) >= 1,
    decreases n,
{
    if n > 0 {
        lemma_pow10_positive((n - 1) as nat);
    }
}

pub proof fn lemma_pow10_grows(a: nat, b: nat)
    requires
        a <= b,
    ensures
        pow10(a) <= pow10(b),
    decreases b,
{
    if a < b {
        lemma_pow10_grows(a, (b - 1) as nat);
        lemma_pow10_positive((b - 1) as nat);
    }
}

/// `m * 10^shift` for a `shift` that is not negative, or `None` when that
/// is more than `MAGNITUDE_LIMIT`.
pub fn shift_left(m: u128, shift: u128) -> (r: Option<u64>)
    requires
        m <= MANTISSA_LIMIT,
    ensures
        r == if m * pow10(shift as nat) <= MAGNITUDE_LIMIT {
            Some((m * pow10(shift as nat)) as u64)
        } else {
            None
        },
{
    if m == 0 {
        assert(0 * pow10(shift as nat) == 0) by (nonlinear_arith);
        return Some(0);
    }
    let mut acc: u128 = m;
    let mut k: u128 = 0;
    if acc > MAGNITUDE_LIMIT as u128 {
        proof {
            lemma_pow10_positive(shift as nat);
            assert(m * pow10(shift as nat) >= m) by (nonlinear_arith)
                requires
                    pow10(shift as nat) >= 1,
            ;
        }
        return None;
    }
    assert(m * pow10(0) == m) by (nonlinear_arith)
        requires
            pow10(0) == 1,
    ;
    while k < shift
        invariant
            k <= shift,
            1 <= m,
            acc == m * pow10(k as nat),
            acc <= MAGNITUDE_LIMIT,
        decreases shift - k,
    {
        assert(pow10((k + 1) as nat) == 10 * pow10(k as nat));
        assert(m * pow10((k + 1) as nat) == acc * 10) by (nonlinear_arith)
            requires
                acc == m * pow10(k as nat),
                pow10((k + 1) as nat) == 10 * pow10(k as nat),
        ;
        if acc * 10 > MAGNITUDE_LIMIT as u128 {
            proof {
                lemma_pow10_grows((k + 1) as nat, shift as nat);
                assert(m * pow10(shift as nat) >= m * pow10((k + 1) as nat)) by (nonlinear_arith)
                    requires
                        pow10((k + 1) as nat) <= pow10(shift as nat),
                ;
            }
            return None;
        }
        acc = acc * 10;
        k += 1;
    }
    Some(acc as u64)
}

/// `m / 10^shift`, rounded down.
pub fn shift_right(m: u128, shift: u128) -> (r: u128)
    ensures
        r == (m as nat) / pow10(shift as nat),
{
    let mut acc: u128 = m;
    let mut k: u128 = 0;
    assert(pow10(0) == 1);
    while k < shift && acc > 0
        invariant
            k <= shift,
            acc == (m as nat) / pow10(k as nat),
        decreases shift - k,
    {
        proof {
            lemma_pow10_positive(k as nat);
            assert(pow10((k + 1) as nat) == pow10(k as nat) * 10);
            vstd::arithmetic::div_mod::lemma_div_denominator(
                m as int,
                pow10(k as nat) as int,
                10,
            );
        }
        acc = acc / 10;
        k += 1;
    }
    proof {
        if k < shift {
            lemma_pow10_grows(k as nat, shift as nat);
            lemma_pow10_positive(k as nat);
            vstd::arithmetic::div_mod::lemma_div_is_ordered_by_denominator(
                m as int,
                pow10(k as nat) as int,
                pow10(shift as nat) as int,
            );
            vstd::arithmetic::div_mod::lemma_div_pos_is_pos(
                m as int,
                pow10(shift as nat) as int,
            );
        }
    }
    acc
}

/// Where the parts of a decimal number lie in its text.
pub struct Shape {
    pub negative: bool,
    pub int_start: usize,
    pub int_stop: usize,
    pub fraction: bool,
    pub frac_stop: usize,
    pub exponent: bool,
    pub exp_negative: bool,
    pub exp_from: usize,
    pub exp_stop: usize,
}

impl Shape {
    /// The shape is that of the decimal number `s`.
    pub open spec fn describes(self, s: Seq<char>) -> bool {
        &&& well_shaped(s)
        &&& self.negative == (s[0] == '-')
        &&& self.int_start == sign_len(s, 0)
        &&& self.int_stop == int_end(s)
        &&& self.fraction == has_fraction(s)
        &&& self.frac_stop == frac_end(s)
        &&& self.exponent == has_exponent(s)
        &&& self.exponent ==> self.exp_negative == (s[frac_end(s) + 1] == '-')
        &&& self.exponent ==> self.exp_from == exp_start(s)
        &&& self.exp_stop == exp_end(s)
        &&& self.int_start < self.int_stop <= self.frac_stop <= self.exp_stop == s.len()
        &&& self.fraction ==> self.int_stop + 1 < self.frac_stop
        &&& self.exponent ==> self.frac_stop < self.exp_from < self.exp_stop
        &&& all_digits(mantissa_digits(s))
        &&& all_digits(exponent_digits(s))
    }
}

/// Finds the parts of a decimal number, or `None` if `v` is none.
pub fn scan_shape(v: &Vec<char>) -> (r: Option<Shape>)
    ensures
        match r {
            Some(shape) => shape.describes(v@),
            None => !well_shaped(v@),
        },
{
    let n = v.len();
    let int_start: usize = if n > 0 && (v[0] == '-' || v[0] == '+') {
        1
    } else {
        0
    };
    let negative = n > 0 && v[0] == '-';
    let int_stop = scan_digits(v, int_start);
    if int_stop == int_start {
        return None;
    }
    let fraction = int_stop < n && v[int_stop] == '.';
    let frac_stop = if fraction {
        scan_digits(v, int_stop + 1)
    } else {
        int_stop
    };
    if fraction && frac_stop == int_stop + 1 {
        return None;
    }
    let exponent = frac_stop < n && (v[frac_stop] == 'e' || v[frac_stop] == 'E');
    let mut exp_negative = false;
    let mut exp_from = frac_stop;
    let mut exp_stop = frac_stop;
    if exponent {
        exp_from = frac_stop + 1;
        if exp_from < n && (v[exp_from] == '-' || v[exp_from] == '+') {
            exp_negative = v[exp_from] == '-';
            exp_from = exp_from + 1;
        }
        exp_stop = scan_digits(v, exp_from);
        if exp_stop == exp_from {
            return None;
        }
    }
    if exp_stop != n {
        return None;
    }
    proof {
        let s = v@;
        let whole = s.subrange(int_start as int, int_stop as int);
        let frac = fraction_digits(s);
        assert forall|k: int| 0 <= k < mantissa_digits(s).len() implies crate::text::is_digit(
            #[trigger] mantissa_digits(s)[k],
        ) by {
            if k < whole.len() {
                assert(mantissa_digits(s)[k] == whole[k]);
            } else {
                assert(mantissa_digits(s)[k] == frac[k - whole.len()]);
            }
        }
    }
    Some(
        Shape {
            negative,
            int_start,
            int_stop,
            fraction,
            frac_stop,
            exponent,
            exp_negative,
            exp_from,
            exp_stop,
        },
    )
}

/// Copies `v[from..to]` to the end of `out`.
pub fn push_range(out: &mut Vec<char>, v: &Vec<char>, from: usize, to: usize)
    requires
        from <= to <= v.len(),
    ensures
        final(out)@ == old(out)@ + v@.subrange(from as int, to as int),
{
    let mut i: usize = from;
    while i < to
        invariant
            from <= i <= to <= v.len(),
            out@ == old(out)@ + v@.subrange(from as int, i as int),
        decreases to - i,
    {
        out.push(v[i]);
        assert(old(out)@ + v@.subrange(from as int, i + 1) =~= (old(out)@ + v@.subrange(
            from as int,
            i as int,
        )).push(v@[i as int]));
        i += 1;
    }
}

/// The magnitude of the amount with mantissa `mantissa`, `frac_len` digits
/// after the decimal point and the exponent `exp_value`, negated if
/// `exp_negative`; `None` when it is above `MAGNITUDE_LIMIT`.
pub fn scale(mantissa: u128, frac_len: usize, exp_value: u128, exp_negative: bool) -> (r: Option<
    u64,
>)
    requires
        mantissa <= MANTISSA_LIMIT,
        exp_value <= EXPONENT_LIMIT,
    ensures
        ({
            let exponent = if exp_negative {
                -(exp_value as int)
            } else {
                exp_value as int
            };
            let magnitude = shifted(mantissa as nat, AMOUNT_DIGITS - frac_len + exponent);
            r == if magnitude <= MAGNITUDE_LIMIT {
                Some(magnitude as u64)
            } else {
                None
            }
        }),
{
    // Places by which the decimal point moves to the right: the scale's
    // digits and the exponent, less the digits of the fraction.
    let gain: u128 = if exp_negative {
        AMOUNT_DIGITS as u128
    } else {
        AMOUNT_DIGITS as u128 + exp_value
    };
    let loss: u128 = if exp_negative {
        frac_len as u128 + exp_value
    } else {
        frac_len as u128
    };
    if gain >= loss {
        shift_left(mantissa, gain - loss)
    } else {
        let x = shift_right(mantissa, loss - gain);
        if x > MAGNITUDE_LIMIT as u128 {
            None
        } else {
            Some(x as u64)
        }
    }
}

/// Reads a decimal number as an amount.
pub fn parse_amount(v: &Vec<char>) -> (r: Option<i64>)
    ensures
        match r {
            Some(x) => amount_of(v@) == Some(x as int),
            None => amount_of(v@) is None,
        },
{
    let shape = match scan_shape(v) {
        Some(shape) => shape,
        None => { return None; },
    };
    let mut digits: Vec<char> = Vec::new();
    push_range(&mut digits, v, shape.int_start, shape.int_stop);
    let mut frac_len: usize = 0;
    if shape.fraction {
        push_range(&mut digits, v, shape.int_stop + 1, shape.frac_stop);
        frac_len = shape.frac_stop - (shape.int_stop + 1);
    }
    assert(digits@ =~= mantissa_digits(v@));
    assert(digits@.subrange(0, digits@.len() as int) =~= digits@);
    let mantissa = match capped_value(&digits, 0, digits.len(), MANTISSA_LIMIT) {
        Some(m) => m,
        None => { return None; },
    };
    let mut exp_value: u128 = 0;
    if shape.exponent {
        exp_value =
        match capped_value(v, shape.exp_from, shape.exp_stop, EXPONENT_LIMIT) {
            Some(e) => e,
            None => { return None; },
        };
    }
    let magnitude = match scale(mantissa, frac_len, exp_value, shape.exp_negative) {
        Some(x) => x,
        None => { return None; },
    };
    if shape.negative {
        if magnitude == MAGNITUDE_LIMIT {
            Some(i64::MIN)
        } else {
            Some(-(magnitude as i64))
        }
    } else if magnitude == MAGNITUDE_LIMIT {
        None
    } else {
        Some(magnitude as i64)
    }
}

/// The last `width` decimal digits of `n`, with leading zeros.
pub open spec fn padded_text(n: nat, width: nat) -> Seq<char>
    decreases width,
{
    if width == 0 {
        Seq::empty()
    } else {
        padded_text(n / 10, (width - 1) as nat).push(digit_char(n % 10))
    }
}

/// The decimal form of an amount: the whole part, a decimal point, and all
/// `AMOUNT_DIGITS` decimal places; a minus sign first if the amount is
/// negative.
pub open spec fn amount_text(v: int) -> Seq<char> {
    let m = if v < 0 {
        (-v) as nat
    } else {
        v as nat
    };
    let body = nat_text(m / (AMOUNT_SCALE as nat)) + seq!['.'] + padded_text(
        m % (AMOUNT_SCALE as nat),
        AMOUNT_DIGITS as nat,
    );
    if v < 0 {
        seq!['-'] + body
    } else {
        body
    }
}

/// Appends the last `width` decimal digits of `n` to `out`, with leading
/// zeros.
pub fn push_padded(out: &mut String, n: u64, width: u8)
    ensures
        final(out)@ == old(out)@ + padded_text(n as nat, width as nat),
    decreases width,
{
    if width == 0 {
        assert(old(out)@ + padded_text(n as nat, 0) =~= old(out)@);
    } else {
        push_padded(out, n / 10, width - 1);
        let d: u8 = (n % 10) as u8;
        let c: char = (48u8 + d) as char;
        assert(c == digit_char((n % 10) as nat));
        out.push(c);
        assert(old(out)@ + padded_text(n as nat, width as nat) =~= (old(out)@ + padded_text(
            (n / 10) as nat,
            (width - 1) as nat,
        )).push(c));
    }
}

/// Appends the decimal form of the amount `v` to `out`.
pub fn push_amount(out: &mut String, v: i64)
    ensures
        final(out)@ == old(out)@ + amount_text(v as int),
{
    let m: u64 = if v == i64::MIN {
        MAGNITUDE_LIMIT
    } else if v < 0 {
        (-v) as u64
    } else {
        v as u64
    };
    if v < 0 {
        out.push('-');
    }
    let ghost signed = out@;
    push_nat(out, m / (AMOUNT_SCALE as u64));
    out.push('.');
    push_padded(out, m % (AMOUNT_SCALE as u64), AMOUNT_DIGITS);
    proof {
        let body = nat_text((m as nat) / (AMOUNT_SCALE as nat)) + seq!['.'] + padded_text(
            (m as nat) % (AMOUNT_SCALE as nat),
            AMOUNT_DIGITS as nat,
        );
        assert(out@ =~= signed + body);
        if v < 0 {
            assert(signed =~= old(out)@ + seq!['-']);
            assert(out@ =~= old(out)@ + (seq!['-'] + body));
        }
    }
}

} // verus!
