//! Decimal numerals: parsing of unsigned decimal integers as `str::parse`
//! accepts them (optional leading `+`, digits only, no overflow), and
//! formatting of integers as decimal strings.

use vstd::prelude::*;

verus! {

pub open spec fn is_digit(c: char) -> bool {
    48 <= c as u32 <= 57
}

pub open spec fn digit_val(c: char) -> int {
    c as u32 - 48
}

/// The decimal digit character for `d` in 0..10.
pub open spec fn digit_char(d: int) -> char {
    if d == 0 {
        '0'
    } else if d == 1 {
        '1'
    } else if d == 2 {
        '2'
    } else if d == 3 {
        '3'
    } else if d == 4 {
        '4'
    } else if d == 5 {
        '5'
    } else if d == 6 {
        '6'
    } else if d == 7 {
        '7'
    } else if d == 8 {
        '8'
    } else {
        '9'
    }
}

pub open spec fn all_digits(s: Seq<char>) -> bool {
    forall|i: int| 0 <= i < s.len() ==> is_digit(#[trigger] s[i])
}

/// Value of a digit string read in base ten.
pub open spec fn digits_value(s: Seq<char>) -> int
    decreases s.len(),
{
    if s.len() == 0 {
        0
    } else {
        digits_value(s.drop_last()) * 10 + digit_val(s.last())
    }
}

/// The digits of a numeral, a single leading `+` sign stripped.
pub open spec fn numeral_body(s: Seq<char>) -> Seq<char> {
    if s.len() > 0 && s[0] == '+' {
        s.drop_first()
    } else {
        s
    }
}

/// What `str::parse` makes of `s` for an unsigned integer type whose
/// largest value is `max`: an optional leading `+`, then one or more
/// digits whose value does not exceed `max`.
pub open spec fn parse_uint_spec(s: Seq<char>, max: int) -> Option<int> {
    let body = numeral_body(s);
    if body.len() > 0 && all_digits(body) && digits_value(body) <= max {
        Some(digits_value(body))
    } else {
        None
    }
}

pub open spec fn parse_u64_spec(s: Seq<char>) -> Option<u64> {
    match parse_uint_spec(s, u64::MAX as int) {
        Some(v) => Some(v as u64),
        None => None,
    }
}

/// Decimal digits of `n` (no sign, no padding).
pub open spec fn dec_digits(n: int) -> Seq<char>
    decreases n,
{
    if n < 10 {
        seq![digit_char(n)]
    } else {
        dec_digits(n / 10).push(digit_char(n % 10))
    }
}

/// Decimal digits of `n`, zero-padded on the left to at least two digits.
pub open spec fn pad2(n: int) -> Seq<char> {
    if n < 10 {
        seq!['0'] + dec_digits(n)
    } else {
        dec_digits(n)
    }
}

/// Decimal form of a signed integer: a `-` sign when negative.
pub open spec fn signed_digits(n: int) -> Seq<char> {
    if n < 0 {
        seq!['-'] + dec_digits(-n)
    } else {
        dec_digits(n)
    }
}

pub proof fn lemma_digits_value_nonneg(s: Seq<char>)
    requires
        all_digits(s),
    ensures
        digits_value(s) >= 0,
    decreases s.len(),
{
    if s.len() > 0 {
        assert(all_digits(s.drop_last()));
        lemma_digits_value_nonneg(s.drop_last());
    }
}

/// Under all-digit strings the value of a prefix never exceeds the value
/// of the whole.
pub proof fn lemma_digits_value_prefix(s: Seq<char>, k: int)
    requires
        all_digits(s),
        0 <= k <= s.len(),
    ensures
        digits_value(s.take(k)) <= digits_value(s),
    decreases s.len() - k,
{
    if k < s.len() {
        lemma_digits_value_prefix(s.drop_last(), k);
        assert(s.drop_last().take(k) =~= s.take(k));
        assert(all_digits(s.drop_last()));
        lemma_digits_value_nonneg(s.drop_last());
        assert(digits_value(s) == digits_value(s.drop_last()) * 10 + digit_val(s.last()));
        assert(digits_value(s.drop_last()) * 10 >= digits_value(s.drop_last())) by {
            lemma_digits_value_nonneg(s.drop_last());
        }
    } else {
        assert(s.take(k) =~= s);
    }
}

/// Parse an unsigned decimal integer bounded by `max`, as `str::parse`
/// would for the type whose largest value is `max`.
pub fn parse_uint(s: &str, max: u64) -> (r: Option<u64>)
    requires
        max >= 9,
    ensures
        match r {
            Some(v) => parse_uint_spec(s@, max as int) == Some(v as int) && v <= max,
            None => parse_uint_spec(s@, max as int) is None,
        },
{
    let n = s.unicode_len();
    let start: usize = if n > 0 && s.get_char(0) == '+' {
        1
    } else {
        0
    };
    let ghost body: Seq<char> = numeral_body(s@);
    proof {
        assert(body =~= s@.skip(start as int));
    }
    if n == start {
        return None;
    }
    let mut val: u64 = 0;
    let mut i: usize = start;
    while i < n
        invariant
            start <= i <= n,
            n == s@.len(),
            start <= 1,
            max >= 9,
            body == numeral_body(s@),
            body =~= s@.skip(start as int),
            all_digits(body.take(i - start)),
            val == digits_value(body.take(i - start)),
            val <= max,
        decreases n - i,
    {
        let ghost k = i - start;
        let c = s.get_char(i);
        proof {
            assert(body[k] == c);
        }
        let u = c as u32;
        if u < 48 || u > 57 {
            proof {
                assert(!is_digit(body[k]));
            }
            return None;
        }
        let d = ((u - 48) as u8) as u64;
        proof {
            assert(is_digit(body[k]));
            assert(d as int == digit_val(body[k]));
            assert(body.take(k + 1).drop_last() =~= body.take(k));
            assert(body.take(k + 1).last() == body[k]);
            assert(digits_value(body.take(k + 1)) == val * 10 + d);
            assert forall|j: int| 0 <= j < k + 1 implies is_digit(#[trigger] body.take(k + 1)[j]) by {
                assert(body.take(k + 1)[j] == body[j]);
                if j < k {
                    assert(is_digit(body.take(k)[j]));
                    assert(body.take(k)[j] == body[j]);
                }
            }
            assert(all_digits(body.take(k + 1)));
        }
        if val > (max - d) / 10 {
            proof {
                assert(val * 10 + d > max) by (nonlinear_arith)
                    requires
                        val > (max - d) / 10,
                        d <= max,
                        10 * ((max - d) / 10) + (max - d) % 10 == max - d,
                        0 <= (max - d) % 10 < 10,
                ;
                if all_digits(body) {
                    lemma_digits_value_prefix(body, k + 1);
                    assert(digits_value(body) > max);
                }
            }
            return None;
        }
        proof {
            assert(val * 10 + d <= max) by (nonlinear_arith)
                requires
                    val <= (max - d) / 10,
                    d <= max,
                    10 * ((max - d) / 10) + (max - d) % 10 == max - d,
                    0 <= (max - d) % 10 < 10,
            ;
        }
        val = val * 10 + d;
        i = i + 1;
    }
    proof {
        assert(body.take(i - start) =~= body);
    }
    Some(val)
}

pub fn parse_u64(s: &str) -> (r: Option<u64>)
    ensures
        r == parse_u64_spec(s@),
{
    let r = parse_uint(s, u64::MAX);
    proof {
        match r {
            Some(v) => assert(parse_u64_spec(s@) == Some(v)),
            None => assert(parse_u64_spec(s@) is None),
        }
    }
    r
}

/// One-character string for a decimal digit.
fn digit_str(d: u64) -> (r: &'static str)
    requires
        d < 10,
    ensures
        r@ =~= seq![digit_char(d as int)],
{
    proof {
        reveal_strlit("0");
        reveal_strlit("1");
        reveal_strlit("2");
        reveal_strlit("3");
        reveal_strlit("4");
        reveal_strlit("5");
        reveal_strlit("6");
        reveal_strlit("7");
        reveal_strlit("8");
        reveal_strlit("9");
    }
    if d == 0 {
        "0"
    } else if d == 1 {
        "1"
    } else if d == 2 {
        "2"
    } else if d == 3 {
        "3"
    } else if d == 4 {
        "4"
    } else if d == 5 {
        "5"
    } else if d == 6 {
        "6"
    } else if d == 7 {
        "7"
    } else if d == 8 {
        "8"
    } else {
        "9"
    }
}

/// Decimal form of an unsigned integer.
pub fn u64_to_string(n: u64) -> (r: String)
    ensures
        r@ == dec_digits(n as int),
    decreases n,
{
    if n < 10 {
        String::from_str(digit_str(n))
    } else {
        let rest = u64_to_string(n / 10);
        let r = rest.concat(digit_str(n % 10));
        assert(r@ =~= dec_digits(n as int / 10).push(digit_char(n as int % 10)));
        r
    }
}

pub proof fn lemma_dec_digits_wf(n: int)
    requires
        n >= 0,
    ensures
        dec_digits(n).len() >= 1,
        all_digits(dec_digits(n)),
        digits_value(dec_digits(n)) == n,
        n < 10 ==> dec_digits(n).len() == 1,
        n >= 10 ==> dec_digits(n).len() >= 2,
        10 <= n < 100 ==> dec_digits(n).len() == 2,
    decreases n,
{
    if n < 10 {
        assert(dec_digits(n) =~= seq![digit_char(n)]);
        assert(is_digit(digit_char(n)));
        assert(seq![digit_char(n)].drop_last() =~= Seq::<char>::empty());
        assert(digits_value(Seq::<char>::empty()) == 0);
        assert(digits_value(seq![digit_char(n)]) == digit_val(digit_char(n)));
    } else {
        lemma_dec_digits_wf(n / 10);
        let t = dec_digits(n / 10);
        let whole = t.push(digit_char(n % 10));
        assert(whole.drop_last() =~= t);
        assert(is_digit(digit_char(n % 10)));
        assert forall|i: int| 0 <= i < whole.len() implies is_digit(#[trigger] whole[i]) by {
            if i < t.len() {
                assert(whole[i] == t[i]);
            }
        }
        assert(digits_value(whole) == digits_value(t) * 10 + digit_val(digit_char(n % 10)));
        assert(n / 10 * 10 + n % 10 == n) by {
            vstd::arithmetic::div_mod::lemma_fundamental_div_mod(n, 10);
        }
    }
}

/// A leading zero does not change the value of a digit string.
pub proof fn lemma_digits_value_prepend_zero(t: Seq<char>)
    ensures
        digits_value(seq!['0'] + t) == digits_value(t),
    decreases t.len(),
{
    if t.len() == 0 {
        assert(seq!['0'] + t =~= seq!['0']);
        assert(seq!['0'].drop_last() =~= Seq::<char>::empty());
        assert(digits_value(Seq::<char>::empty()) == 0);
        assert(digits_value(seq!['0']) == digit_val('0'));
    } else {
        assert((seq!['0'] + t).drop_last() =~= seq!['0'] + t.drop_last());
        assert((seq!['0'] + t).last() == t.last());
        lemma_digits_value_prepend_zero(t.drop_last());
    }
}

/// A zero-padded field is a numeral whose value is the field itself.
pub proof fn lemma_pad2_wf(n: int)
    requires
        0 <= n <= u64::MAX,
    ensures
        pad2(n).len() >= 2,
        n < 100 ==> pad2(n).len() == 2,
        all_digits(pad2(n)),
        parse_u64_spec(pad2(n)) == Some(n as u64),
    decreases n,
{
    lemma_dec_digits_wf(n);
    if n < 10 {
        let w = seq!['0'] + dec_digits(n);
        assert(is_digit('0'));
        assert forall|i: int| 0 <= i < w.len() implies is_digit(#[trigger] w[i]) by {
            if i >= 1 {
                assert(w[i] == dec_digits(n)[i - 1]);
            }
        }
        lemma_digits_value_prepend_zero(dec_digits(n));
    }
    assert(is_digit(pad2(n)[0]));
    assert(pad2(n)[0] != '+');
    assert(numeral_body(pad2(n)) == pad2(n));
}

/// Decimal form of an unsigned integer, zero-padded to at least two
/// digits.
pub fn pad2_string(n: u64) -> (r: String)
    ensures
        r@ == pad2(n as int),
{
    if n < 10 {
        proof {
            reveal_strlit("0");
        }
        let r = String::from_str("0").concat(u64_to_string(n).as_str());
        assert(r@ =~= seq!['0'] + dec_digits(n as int));
        r
    } else {
        u64_to_string(n)
    }
}

/// Decimal form of a signed integer.
pub fn i64_to_string(n: i64) -> (r: String)
    ensures
        r@ == signed_digits(n as int),
{
    if n >= 0 {
        u64_to_string(n as u64)
    } else {
        let mag: u64 = if n == i64::MIN {
            9223372036854775808
        } else {
            (-n) as u64
        };
        proof {
            reveal_strlit("-");
        }
        let r = String::from_str("-").concat(u64_to_string(mag).as_str());
        assert(r@ =~= seq!['-'] + dec_digits(-(n as int)));
        r
    }
}

} // verus!
