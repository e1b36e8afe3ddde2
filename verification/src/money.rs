//! Prices: resolving a currency code against the ISO-4217 table and
//! computing the decimal value of an amount numeral against it.
use vstd::prelude::*;
use vstd::string::StrSliceExecFns;
use crate::envelope::RequestError;
use crate::markets::Meters;
use crate::text::all_dec_digits;
use crate::text::dec_val;
use crate::text::dec_digit_val;
use crate::text::is_dec_digit;

verus! {

#[verifier::external_type_specification]
#[verifier::external_body]
pub struct ExCurrency(rusty_money::iso::Currency);

/// The decimal exponent the ISO-4217 table assigns to a currency code:
/// nothing when the table lacks the code. A function of the string alone.
pub uninterp spec fn iso_exponent_of(code: Seq<char>) -> Option<int>;

/// Whether a string is a known ISO-4217 alphabetic currency code.
pub open spec fn iso_currency_known(code: Seq<char>) -> bool {
    iso_exponent_of(code) is Some
}

/// Relies on `rusty_money::iso::find` and the currency's exponent field:
/// looks the code up in the crate's ISO-4217 table, whose exponents all
/// lie between zero and four.
#[verifier::external_body]
fn find_currency_exponent(code: &str) -> (r: Option<u32>)
    ensures
        match r {
            Some(e) => iso_exponent_of(code@) == Some(e as int) && e <= 4,
            None => iso_exponent_of(code@) is None,
        },
{
    rusty_money::iso::find(code).map(|currency| currency.exponent)
}

/// Ten to the given power.
pub open spec fn pow10(n: nat) -> int
    decreases n,
{
    if n == 0 {
        1
    } else {
        10 * pow10((n - 1) as nat)
    }
}

proof fn lemma_pow10_add(a: nat, b: nat)
    ensures
        pow10(a + b) == pow10(a) * pow10(b),
    decreases a,
{
    if a == 0 {
    } else {
        lemma_pow10_add((a - 1) as nat, b);
        assert(pow10(a + b) == 10 * pow10((a + b - 1) as nat));
        assert(pow10(a) * pow10(b) == 10 * (pow10((a - 1) as nat) * pow10(b)))
            by (nonlinear_arith)
            requires
                pow10(a) == 10 * pow10((a - 1) as nat),
        {}
    }
}

proof fn lemma_pow10_pos(n: nat)
    ensures
        pow10(n) >= 1,
    decreases n,
{
    if n > 0 {
        lemma_pow10_pos((n - 1) as nat);
    }
}

proof fn lemma_pow10_mono(a: nat, b: nat)
    requires
        a <= b,
    ensures
        pow10(a) <= pow10(b),
{
    lemma_pow10_add(a, (b - a) as nat);
    lemma_pow10_pos(a);
    lemma_pow10_pos((b - a) as nat);
    assert(pow10(a) * pow10((b - a) as nat) >= pow10(a) * 1) by (nonlinear_arith)
        requires
            pow10(a) >= 1,
            pow10((b - a) as nat) >= 1,
    {}
}

/// A digit string's value lies below ten to its length.
proof fn lemma_dec_val_bound(s: Seq<char>)
    requires
        all_dec_digits(s),
    ensures
        0 <= dec_val(s) < pow10(s.len()),
    decreases s.len(),
{
    if s.len() > 0 {
        assert(all_dec_digits(s.drop_last()));
        lemma_dec_val_bound(s.drop_last());
        assert(dec_digit_val(s.last()) <= 9);
        assert(dec_val(s.drop_last()) * 10 + 9 < pow10(s.len())) by (nonlinear_arith)
            requires
                dec_val(s.drop_last()) < pow10((s.len() - 1) as nat),
                pow10(s.len()) == 10 * pow10((s.len() - 1) as nat),
        {}
    }
}

/// The index of the first decimal point, or the length when none is
/// there.
pub open spec fn spec_first_dot(t: Seq<char>) -> int
    decreases t.len(),
{
    if t.len() == 0 {
        0
    } else if t[0] == '.' {
        0
    } else {
        1 + spec_first_dot(t.skip(1))
    }
}

proof fn lemma_first_dot_at(t: Seq<char>, k: int)
    requires
        0 <= k <= t.len(),
        forall|j: int| 0 <= j < k ==> t[j] != '.',
        k < t.len() ==> t[k] == '.',
    ensures
        spec_first_dot(t) == k,
    decreases t.len(),
{
    if t.len() > 0 {
        if k == 0 {
        } else {
            assert(t[0] != '.');
            assert(forall|j: int| 0 <= j < k - 1 ==> #[trigger] t.skip(1)[j] == t[j + 1]);
            assert(k - 1 < t.skip(1).len() ==> t.skip(1)[k - 1] == t[k as int]);
            lemma_first_dot_at(t.skip(1), k - 1);
        }
    }
}

/// An unsigned amount numeral: one to twenty digits, with at most one
/// decimal point followed by one to eight digits.
pub open spec fn spec_amount_body(t: Seq<char>) -> bool {
    ||| (1 <= t.len() <= 20 && all_dec_digits(t))
    ||| (exists|d: int|
        1 <= d <= 20 && d + 2 <= t.len() <= d + 9 && #[trigger] t[d] == '.' && all_dec_digits(
            t.take(d),
        ) && all_dec_digits(t.skip(d + 1)))
}

/// A plain signed amount numeral: an optional leading minus sign, then an
/// unsigned amount numeral.
pub open spec fn spec_plain_amount(s: Seq<char>) -> bool {
    if s.len() > 0 && s[0] == '-' {
        spec_amount_body(s.skip(1))
    } else {
        spec_amount_body(s)
    }
}

/// An unsigned decimal numeral of any length: digits, with at most one
/// decimal point strictly inside them.
pub open spec fn spec_numeral_body(t: Seq<char>) -> bool {
    ||| (1 <= t.len() && all_dec_digits(t))
    ||| (exists|d: int|
        1 <= d && d + 2 <= t.len() && #[trigger] t[d] == '.' && all_dec_digits(t.take(d))
            && all_dec_digits(t.skip(d + 1)))
}

/// A signed decimal numeral of any length: an optional leading minus
/// sign, then an unsigned decimal numeral.
pub open spec fn spec_decimal_numeral(s: Seq<char>) -> bool {
    if s.len() > 0 && s[0] == '-' {
        spec_numeral_body(s.skip(1))
    } else {
        spec_numeral_body(s)
    }
}

/// A sequence with two dot positions, digits before and between them, is
/// no numeral of either shape.
proof fn lemma_two_dots_refute(t: Seq<char>, p1: int, p2: int)
    requires
        0 <= p1 < p2 < t.len(),
        t[p1] == '.',
        t[p2] == '.',
        !is_dec_digit(t[p1]),
        all_dec_digits(t.take(p1)),
        forall|j: int| p1 < j < p2 ==> is_dec_digit(#[trigger] t[j]),
    ensures
        !spec_amount_body(t),
        !spec_numeral_body(t),
{
    assert forall|d: int|
        !(1 <= d && d + 2 <= t.len() && #[trigger] t[d] == '.' && all_dec_digits(t.take(d))
            && all_dec_digits(t.skip(d + 1))) by {
        if 1 <= d < t.len() && t[d] == '.' {
            if d > p1 {
                assert(t.take(d)[p1] == t[p1]);
            } else if d == p1 {
                assert(t.skip(d + 1)[p2 - d - 1] == t[p2]);
                assert(t[p2] == t[p1]);
            } else {
                assert(t.take(p1)[d] == t[d]);
                assert(is_dec_digit(t[d]));
                assert(t[d] == t[p1]);
            }
        }
    }
}

/// A sequence holding a character that is neither a digit nor a dot is no
/// numeral of either shape.
proof fn lemma_bad_char_refutes(t: Seq<char>, p: int)
    requires
        0 <= p < t.len(),
        !is_dec_digit(t[p]),
        t[p] != '.',
    ensures
        !spec_amount_body(t),
        !spec_numeral_body(t),
{
    assert forall|d: int|
        !(1 <= d && d + 2 <= t.len() && #[trigger] t[d] == '.' && all_dec_digits(t.take(d))
            && all_dec_digits(t.skip(d + 1))) by {
        if 1 <= d < t.len() && t[d] == '.' {
            if d > p {
                assert(t.take(d)[p] == t[p]);
            } else if d < p {
                assert(t.skip(d + 1)[p - d - 1] == t[p]);
            }
        }
    }
}

/// A sequence with exactly one dot, at its edge, is no numeral of either
/// shape; one with digit runs out of the amount bounds is no amount
/// numeral.
proof fn lemma_one_dot_refutes(t: Seq<char>, p: int)
    requires
        0 <= p < t.len(),
        t[p] == '.',
        !is_dec_digit(t[p]),
        all_dec_digits(t.take(p)),
        forall|j: int| p < j < t.len() ==> is_dec_digit(#[trigger] t[j]),
    ensures
        !(1 <= p && p + 2 <= t.len()) ==> !spec_numeral_body(t),
        !(1 <= p <= 20 && p + 2 <= t.len() <= p + 9) ==> !spec_amount_body(t),
{
    assert forall|d: int|
        (1 <= d && d + 2 <= t.len() && #[trigger] t[d] == '.' && all_dec_digits(t.take(d))
            && all_dec_digits(t.skip(d + 1))) implies d == p by {
        if 1 <= d < t.len() && t[d] == '.' && d != p {
            if d > p {
                assert(t.take(d)[p] == t[p]);
            } else {
                assert(t.take(p)[d] == t[d]);
                assert(is_dec_digit(t[d]));
                assert(t[d] == t[p]);
            }
        }
    }
}

/// The mantissa and scale denoted by a plain amount numeral against a
/// currency exponent: a fractional numeral keeps its own scale, and a
/// whole numeral is scaled up to the currency's exponent.
pub open spec fn spec_money_parts(s: Seq<char>, exponent: int) -> (int, int) {
    let negative = s.len() > 0 && s[0] == '-';
    let t = if negative {
        s.skip(1)
    } else {
        s
    };
    let d = spec_first_dot(t);
    let magnitude = if d == t.len() {
        dec_val(t) * pow10(exponent as nat)
    } else {
        dec_val(t.take(d) + t.skip(d + 1))
    };
    let scale = if d == t.len() {
        exponent
    } else {
        t.len() - d - 1
    };
    (
        if negative {
            -magnitude
        } else {
            magnitude
        },
        scale,
    )
}

/// Ten to a currency exponent.
fn pow10_exec(e: u32) -> (r: i128)
    requires
        e <= 4,
    ensures
        r == pow10(e as nat),
{
    proof {
        reveal_with_fuel(pow10, 6);
    }
    match e {
        0 => 1,
        1 => 10,
        2 => 100,
        3 => 1000,
        _ => 10000,
    }
}

proof fn lemma_pow10_limits()
    ensures
        pow10(27) * 10 + 9 < i128::MAX,
        pow10(24) < i128::MAX,
{
    reveal_with_fuel(pow10, 30);
}

/// Reads a plain amount numeral into its mantissa and scale against a
/// currency exponent; accepts exactly the plain amount numerals.
#[verifier::loop_isolation(false)]
#[verifier::rlimit(60)]
fn parse_amount(s: &str, exponent: u32) -> (r: Option<(i128, u32)>)
    requires
        exponent <= 4,
    ensures
        match r {
            Some(p) => spec_plain_amount(s@) && (p.0 as int, p.1 as int) == spec_money_parts(
                s@,
                exponent as int,
            ),
            None => !spec_plain_amount(s@),
        },
{
    proof {
        lemma_pow10_limits();
    }
    let len = s.unicode_len();
    let negative = len > 0 && s.get_char(0) == '-';
    let start: usize = if negative {
        1
    } else {
        0
    };
    let ghost body = if start == 1 {
        s@.skip(1)
    } else {
        s@
    };
    proof {
        assert(spec_plain_amount(s@) == spec_amount_body(body));
    }
    if len == start {
        return None;
    }
    let mut dot: usize = 0;
    let mut seen_dot: bool = false;
    let mut digit_count: usize = 0;
    let mut magnitude: i128 = 0;
    let ghost mut digits = Seq::<char>::empty();
    let mut i: usize = start;
    while i < len
        invariant
            start <= i <= len,
            start <= 1,
            len == s@.len(),
            body == s@.skip(start as int),
            spec_plain_amount(s@) == spec_amount_body(body),
            seen_dot ==> start <= dot < i && body[dot - start] == '.' && !is_dec_digit(
                body[dot - start],
            ),
            seen_dot ==> all_dec_digits(body.take(dot - start)),
            seen_dot ==> forall|j: int|
                dot - start < j < i - start ==> is_dec_digit(#[trigger] body[j]),
            !seen_dot ==> all_dec_digits(body.take(i - start)),
            digit_count == i - start - (if seen_dot {
                1int
            } else {
                0int
            }),
            all_dec_digits(digits),
            digits.len() == digit_count,
            !seen_dot ==> digits == body.take(i - start),
            seen_dot ==> digits == body.take(dot - start) + body.subrange(
                dot - start + 1,
                i - start,
            ),
            digit_count <= 28 ==> magnitude == dec_val(digits),
        decreases len - i,
    {
        let c = s.get_char(i);
        let cv = c as u32;
        proof {
            assert(body[i - start] == s@[i as int]);
        }
        if cv >= 48 && cv <= 57 {
            if digit_count < 28 {
                proof {
                    lemma_dec_val_bound(digits);
                    lemma_pow10_mono(digits.len() as nat, 27);
                    assert(magnitude * 10 + (cv - 48) < i128::MAX) by (nonlinear_arith)
                        requires
                            0 <= magnitude < pow10(27),
                            cv < 58,
                            pow10(27) * 10 + 9 < i128::MAX,
                    {}
                }
                magnitude = magnitude * 10 + ((cv - 48) as i128);
            }
            digit_count = digit_count + 1;
            proof {
                let extended = digits.push(body[i - start]);
                assert(extended.drop_last() =~= digits);
                digits = extended;
                if seen_dot {
                    assert(digits =~= body.take(dot - start) + body.subrange(
                        dot - start + 1,
                        i - start + 1,
                    ));
                } else {
                    assert(digits =~= body.take(i - start + 1));
                }
            }
        } else if c == '.' {
            if seen_dot {
                proof {
                    lemma_two_dots_refute(body, dot - start, i - start);
                }
                return None;
            }
            dot = i;
            seen_dot = true;
        } else {
            proof {
                lemma_bad_char_refutes(body, i - start);
            }
            return None;
        }
        i = i + 1;
    }
    if seen_dot {
        let int_len = dot - start;
        let frac_len = len - dot - 1;
        proof {
            let d = dot - start;
            assert(all_dec_digits(body.skip(d + 1))) by {
                assert(forall|j: int|
                    0 <= j < body.skip(d + 1).len() ==> #[trigger] body.skip(d + 1)[j] == body[d
                        + 1 + j]);
            }
            assert forall|j: int| 0 <= j < d implies body[j] != body[d as int] by {
                assert(body.take(d)[j] == body[j]);
                assert(is_dec_digit(body[j]));
            }
            lemma_first_dot_at(body, d);
        }
        if !(1 <= int_len && int_len <= 20 && 1 <= frac_len && frac_len <= 8) {
            proof {
                lemma_one_dot_refutes(body, dot - start);
            }
            return None;
        }
        proof {
            let d = dot - start;
            assert(digits =~= body.take(d) + body.skip(d + 1));
            assert(body[d as int] == '.');
            lemma_dec_val_bound(digits);
            lemma_pow10_mono(digits.len() as nat, 28);
            lemma_pow10_limits();
            assert(pow10(28) == 10 * pow10(27));
        }
        let mantissa = if negative {
            -magnitude
        } else {
            magnitude
        };
        Some((mantissa, frac_len as u32))
    } else {
        proof {
            assert(body.take(body.len() as int) =~= body);
            assert forall|j: int| 0 <= j < body.len() implies body[j] != '.' by {
                assert(is_dec_digit(body[j]));
                assert('.' as u32 == 46);
            }
            lemma_first_dot_at(body, body.len() as int);
        }
        if len - start > 20 {
            proof {
                assert(!spec_amount_body(body));
            }
            return None;
        }
        proof {
            lemma_dec_val_bound(digits);
            lemma_pow10_mono(digits.len() as nat, 20);
            lemma_pow10_mono(exponent as nat, 4);
            lemma_pow10_pos(exponent as nat);
            lemma_pow10_add(20, 4);
            assert(magnitude * pow10(exponent as nat) < pow10(20) * pow10(4))
                by (nonlinear_arith)
                requires
                    0 <= magnitude < pow10(20),
                    1 <= pow10(exponent as nat) <= pow10(4),
            {}
            assert(magnitude * pow10(exponent as nat) >= 0) by (nonlinear_arith)
                requires
                    magnitude >= 0,
                    pow10(exponent as nat) >= 1,
            {}
        }
        let scaled = magnitude * pow10_exec(exponent);
        let mantissa = if negative {
            -scaled
        } else {
            scaled
        };
        Some((mantissa, exponent))
    }
}

/// Recognises exactly the signed decimal numerals.
pub(crate) fn decimal_numeral(s: &str) -> (r: bool)
    ensures
        r == spec_decimal_numeral(s@),
{
    let len = s.unicode_len();
    let start: usize = if len > 0 && s.get_char(0) == '-' {
        1
    } else {
        0
    };
    let ghost body = if start == 1 {
        s@.skip(1)
    } else {
        s@
    };
    proof {
        assert(spec_decimal_numeral(s@) == spec_numeral_body(body));
    }
    if len == start {
        return false;
    }
    let mut dot: usize = 0;
    let mut seen_dot: bool = false;
    let mut i: usize = start;
    while i < len
        invariant
            start <= i <= len,
            start <= 1,
            len == s@.len(),
            body == s@.skip(start as int),
            spec_decimal_numeral(s@) == spec_numeral_body(body),
            seen_dot ==> start <= dot < i && body[dot - start] == '.' && !is_dec_digit(
                body[dot - start],
            ),
            seen_dot ==> all_dec_digits(body.take(dot - start)),
            seen_dot ==> forall|j: int|
                dot - start < j < i - start ==> is_dec_digit(#[trigger] body[j]),
            !seen_dot ==> all_dec_digits(body.take(i - start)),
        decreases len - i,
    {
        let c = s.get_char(i);
        let cv = c as u32;
        proof {
            assert(body[i - start] == s@[i as int]);
        }
        if cv >= 48 && cv <= 57 {
        } else if c == '.' {
            if seen_dot {
                proof {
                    lemma_two_dots_refute(body, dot - start, i - start);
                }
                return false;
            }
            dot = i;
            seen_dot = true;
        } else {
            proof {
                lemma_bad_char_refutes(body, i - start);
            }
            return false;
        }
        i = i + 1;
    }
    if seen_dot {
        let int_len = dot - start;
        let frac_len = len - dot - 1;
        let ok = 1 <= int_len && 1 <= frac_len;
        proof {
            let d = dot - start;
            assert(all_dec_digits(body.skip(d + 1))) by {
                assert(forall|j: int|
                    0 <= j < body.skip(d + 1).len() ==> #[trigger] body.skip(d + 1)[j] == body[d
                        + 1 + j]);
            }
            if !ok {
                lemma_one_dot_refutes(body, d);
            }
        }
        ok
    } else {
        proof {
            assert(body.take(body.len() as int) =~= body);
        }
        true
    }
}

/// A monetary amount: the decimal value `mantissa / 10^scale` in the
/// currency named by its ISO-4217 code.
#[derive(Clone, Debug, PartialEq, Eq)]
pub struct Price {
    pub mantissa: i128,
    pub scale: u32,
    pub currency: String,
}

/// Failure of a quote call: a request failure, or a semantically malformed
/// price in an otherwise successful response.
#[derive(Debug, PartialEq)]
pub enum QuoteError {
    /// The request itself failed.
    RequestError(RequestError),
    /// The price breakdown named a currency the ISO-4217 table lacks.
    CurrencyNotFound,
    /// The price breakdown's amount is no plain numeral; carries the
    /// amount verbatim.
    MoneyError(String),
}

/// A priced quotation: the route's distance and its price.
#[derive(Clone, Debug)]
pub struct Quote {
    pub distance: Meters,
    pub price: Price,
}

/// Resolves a price breakdown: the currency code against the ISO-4217
/// table, and the amount numeral against that currency's exponent. Fails
/// with `CurrencyNotFound` exactly when the code is unknown, and with
/// `MoneyError` exactly when the amount is no plain numeral; otherwise
/// the price carries the numeral's mantissa and scale under the given
/// code.
pub fn parse_price(total: &str, currency_code: &str) -> (r: Result<Price, QuoteError>)
    ensures
        !iso_currency_known(currency_code@) <==> r == Err::<Price, QuoteError>(
            QuoteError::CurrencyNotFound,
        ),
        iso_currency_known(currency_code@) && !spec_plain_amount(total@) ==> (r matches Err(e)
            && e matches QuoteError::MoneyError(a) && a@ == total@),
        iso_currency_known(currency_code@) && spec_plain_amount(total@) ==> (r matches Ok(price)
            && price.currency@ == currency_code@ && price.mantissa as int == spec_money_parts(
            total@,
            iso_exponent_of(currency_code@)->Some_0,
        ).0 && price.scale as int == spec_money_parts(
            total@,
            iso_exponent_of(currency_code@)->Some_0,
        ).1),
{
    let exponent = match find_currency_exponent(currency_code) {
        Some(exponent) => exponent,
        None => {
            return Err(QuoteError::CurrencyNotFound);
        },
    };
    match parse_amount(total, exponent) {
        Some(parts) => Ok(
            Price { mantissa: parts.0, scale: parts.1, currency: currency_code.to_owned() },
        ),
        None => Err(QuoteError::MoneyError(total.to_owned())),
    }
}

} // verus!
