//! Decimal text: the exact meaning of a signed 64-bit integer literal, and a
//! verified parser for it. A string parses exactly when it is an optional
//! sign followed by one or more decimal digits and its value is
//! representable; this is the grammar the item-id column of the reference
//! dataset uses.

use vstd::prelude::*;
use vstd::string::{StrSliceExecFns, StringExecFns};

verus! {

/// Whether `c` is a decimal digit.
pub open spec fn is_digit(c: char) -> bool {
    ||| c == '0'
    ||| c == '1'
    ||| c == '2'
    ||| c == '3'
    ||| c == '4'
    ||| c == '5'
    ||| c == '6'
    ||| c == '7'
    ||| c == '8'
    ||| c == '9'
}

/// Numeric value of a decimal digit; 0 for any other character.
pub open spec fn digit_val(c: char) -> int {
    if c == '1' {
        1
    } else if c == '2' {
        2
    } else if c == '3' {
        3
    } else if c == '4' {
        4
    } else if c == '5' {
        5
    } else if c == '6' {
        6
    } else if c == '7' {
        7
    } else if c == '8' {
        8
    } else if c == '9' {
        9
    } else {
        0
    }
}

/// Whether every character of `s` is a decimal digit.
pub open spec fn all_digits(s: Seq<char>) -> bool {
    forall|i: int| 0 <= i < s.len() ==> is_digit(#[trigger] s[i])
}

/// Value of a digit sequence read most-significant first.
pub open spec fn digits_val(s: Seq<char>) -> int
    decreases s.len(),
{
    if s.len() == 0 {
        0
    } else {
        digits_val(s.drop_last()) * 10 + digit_val(s.last())
    }
}

/// The digit part of a literal: everything after an optional leading sign.
pub open spec fn literal_body(s: Seq<char>) -> Seq<char> {
    if s.len() > 0 && (s[0] == '+' || s[0] == '-') {
        s.drop_first()
    } else {
        s
    }
}

/// Sign carried by the literal: -1 for a leading minus, else 1.
pub open spec fn literal_sign(s: Seq<char>) -> int {
    if s.len() > 0 && s[0] == '-' {
        -1
    } else {
        1
    }
}

/// Mathematical value of the literal, before any range restriction.
pub open spec fn literal_val(s: Seq<char>) -> int {
    literal_sign(s) * digits_val(literal_body(s))
}

/// Whether `s` is a well-formed `i64` literal: an optional sign, then one or
/// more decimal digits, with a representable value.
pub open spec fn is_i64_literal(s: Seq<char>) -> bool {
    &&& literal_body(s).len() > 0
    &&& all_digits(literal_body(s))
    &&& i64::MIN <= literal_val(s) <= i64::MAX
}

/// A digit sequence has a non-negative value.
pub proof fn lemma_digits_val_nonneg(s: Seq<char>)
    ensures
        digits_val(s) >= 0,
    decreases s.len(),
{
    if s.len() > 0 {
        lemma_digits_val_nonneg(s.drop_last());
    }
}

/// Reading more digits never shrinks the value.
pub proof fn lemma_digits_val_take(s: Seq<char>, k: int)
    requires
        0 <= k <= s.len(),
    ensures
        digits_val(s.take(k)) <= digits_val(s),
    decreases s.len(),
{
    if k == s.len() {
        assert(s.take(k) =~= s);
    } else {
        assert(s.take(k) =~= s.drop_last().take(k));
        lemma_digits_val_take(s.drop_last(), k);
        lemma_digits_val_nonneg(s.drop_last());
    }
}

/// The digit character for a value below ten.
pub open spec fn digit_char(d: int) -> char {
    if d == 1 {
        '1'
    } else if d == 2 {
        '2'
    } else if d == 3 {
        '3'
    } else if d == 4 {
        '4'
    } else if d == 5 {
        '5'
    } else if d == 6 {
        '6'
    } else if d == 7 {
        '7'
    } else if d == 8 {
        '8'
    } else if d == 9 {
        '9'
    } else {
        '0'
    }
}

/// Decimal rendering of a non-negative value, most significant digit first,
/// with no leading zeros (a single `0` for zero).
pub open spec fn dec_digits(n: int) -> Seq<char>
    decreases n,
{
    if n < 10 {
        seq![digit_char(n)]
    } else {
        dec_digits(n / 10).push(digit_char(n % 10))
    }
}

/// Decimal rendering of a signed value: a minus sign for negatives, then the
/// digits of the magnitude.
pub open spec fn dec_i64(v: int) -> Seq<char> {
    if v < 0 {
        seq!['-'] + dec_digits(-v)
    } else {
        dec_digits(v)
    }
}

/// Every character of a rendering is a digit, and reading the digits back
/// recovers the value: rendering is a right inverse of digit reading.
pub proof fn lemma_dec_digits_val(n: int)
    requires
        n >= 0,
    ensures
        dec_digits(n).len() >= 1,
        all_digits(dec_digits(n)),
        digits_val(dec_digits(n)) == n,
    decreases n,
{
    if n < 10 {
        assert(dec_digits(n) =~= seq![digit_char(n)]);
        assert(dec_digits(n).drop_last() =~= Seq::<char>::empty());
        assert(dec_digits(n).last() == digit_char(n));
        assert(digits_val(Seq::<char>::empty()) == 0);
        assert(digits_val(dec_digits(n)) == digit_val(digit_char(n)));
    } else {
        lemma_dec_digits_val(n / 10);
        let d = dec_digits(n);
        assert(d =~= dec_digits(n / 10).push(digit_char(n % 10)));
        assert(d.drop_last() =~= dec_digits(n / 10));
        assert(d.last() == digit_char(n % 10));
        assert forall|i: int| 0 <= i < d.len() implies is_digit(#[trigger] d[i]) by {
            if i < d.len() - 1 {
                assert(d[i] == dec_digits(n / 10)[i]);
            }
        }
        assert(digits_val(d) == digits_val(dec_digits(n / 10)) * 10 + digit_val(
            digit_char(n % 10),
        ));
    }
}

/// Round trip: the decimal rendering of any representable value is a
/// well-formed literal, and parsing it yields the value back.
pub proof fn lemma_dec_i64_round_trip(v: int)
    requires
        i64::MIN <= v <= i64::MAX,
    ensures
        is_i64_literal(dec_i64(v)),
        literal_val(dec_i64(v)) == v,
{
    if v < 0 {
        lemma_dec_digits_val(-v);
        let s = dec_i64(v);
        assert(s =~= seq!['-'] + dec_digits(-v));
        assert(s[0] == '-');
        assert(literal_body(s) =~= dec_digits(-v));
        assert(literal_sign(s) == -1);
    } else {
        lemma_dec_digits_val(v);
        let s = dec_i64(v);
        assert(s =~= dec_digits(v));
        assert(s[0] != '-' && s[0] != '+') by {
            assert(is_digit(s[0]));
        }
        assert(literal_body(s) =~= dec_digits(v));
        assert(literal_sign(s) == 1);
    }
}

/// The one-character string for a digit value.
fn digit_str(d: u64) -> (r: &'static str)
    requires
        d < 10,
    ensures
        r@ =~= seq![digit_char(d as int)],
{
    let r = match d {
        0u64 => "0",
        1u64 => "1",
        2u64 => "2",
        3u64 => "3",
        4u64 => "4",
        5u64 => "5",
        6u64 => "6",
        7u64 => "7",
        8u64 => "8",
        _ => "9",
    };
    proof {
        reveal_strlit("0");
        reveal_strlit("1");
        reveal_strlit("2");
        reveal_strlit("3");
        reveal_strlit("4");
        reveal_strlit("5");
        reveal_strlit("6");
        reveal_strlit("7");
        reveal_strlit("8");
        reveal_strlit("9");
    }
    r
}

/// Digits of `rev` read back to front.
spec fn rev_chars(rev: Seq<u64>) -> Seq<char> {
    Seq::new(rev.len(), |i: int| digit_char(rev[rev.len() - 1 - i] as int))
}

/// Renders a non-negative value in decimal.
pub fn format_u64(n: u64) -> (s: String)
    ensures
        s@ == dec_digits(n as int),
{
    let mut m: u64 = n;
    let mut rev: Vec<u64> = Vec::new();
    proof {
        assert(rev_chars(rev@) =~= Seq::<char>::empty());
    }
    while m >= 10
        invariant
            dec_digits(n as int) =~= dec_digits(m as int) + rev_chars(rev@),
            forall|i: int| 0 <= i < rev@.len() ==> #[trigger] rev@[i] < 10,
        decreases m,
    {
        let ghost old_rev = rev@;
        let d: u64 = m % 10;
        rev.push(d);
        proof {
            assert(rev_chars(rev@) =~= seq![digit_char(d as int)] + rev_chars(old_rev));
            assert(dec_digits(m as int) =~= dec_digits(m as int / 10) + seq![
                digit_char(m as int % 10),
            ]);
        }
        m = m / 10;
    }
    let mut s = String::from_str(digit_str(m));
    let mut k: usize = rev.len();
    proof {
        assert(rev_chars(rev@).take(0) =~= Seq::<char>::empty());
        assert(s@ =~= dec_digits(m as int) + rev_chars(rev@).take(rev@.len() - k as int));
    }
    while k > 0
        invariant
            0 <= k <= rev@.len(),
            forall|i: int| 0 <= i < rev@.len() ==> #[trigger] rev@[i] < 10,
            dec_digits(n as int) =~= dec_digits(m as int) + rev_chars(rev@),
            m < 10,
            s@ =~= dec_digits(m as int) + rev_chars(rev@).take(rev@.len() - k as int),
        decreases k,
    {
        k -= 1;
        s.append(digit_str(rev[k]));
        proof {
            assert(rev_chars(rev@)[rev@.len() - k - 1] == digit_char(rev@[k as int] as int));
            assert(rev_chars(rev@).take(rev@.len() - k as int) =~= rev_chars(rev@).take(
                rev@.len() - k as int - 1,
            ).push(digit_char(rev@[k as int] as int)));
        }
    }
    proof {
        assert(rev_chars(rev@).take(rev@.len() as int) =~= rev_chars(rev@));
    }
    s
}

/// Renders a signed value in decimal, with a leading minus for negatives.
pub fn format_i64(v: i64) -> (s: String)
    ensures
        s@ == dec_i64(v as int),
{
    if v >= 0 {
        format_u64(v as u64)
    } else {
        let mag: u64 = ((-(v + 1)) as u64) + 1;
        assert(mag as int == -(v as int));
        let digits = format_u64(mag);
        let mut s = String::from_str("-");
        proof {
            reveal_strlit("-");
            assert(s@ =~= seq!['-']);
        }
        s.append(digits.as_str());
        s
    }
}

/// Parses `s` as a signed 64-bit integer: an optional `+` or `-`, then one or
/// more decimal digits. Returns the value exactly when `s` is a well-formed,
/// representable literal, and nothing otherwise.
pub fn parse_i64(s: &str) -> (r: Option<i64>)
    ensures
        match r {
            Some(v) => is_i64_literal(s@) && v as int == literal_val(s@),
            None => !is_i64_literal(s@),
        },
{
    let n = s.unicode_len();
    if n == 0 {
        return None;
    }
    let first = s.get_char(0);
    let negative = first == '-';
    let start: usize = if first == '-' || first == '+' {
        1
    } else {
        0
    };
    let ghost body = literal_body(s@);
    proof {
        assert(body =~= s@.subrange(start as int, n as int));
    }
    if n == start {
        return None;
    }
    // Largest magnitude a value of the requested sign may have.
    let limit: u64 = if negative {
        9223372036854775808u64
    } else {
        9223372036854775807u64
    };
    let mut mag: u64 = 0;
    let mut i: usize = start;
    while i < n
        invariant
            start <= i <= n,
            n == s@.len(),
            start == if s@[0] == '-' || s@[0] == '+' { 1int } else { 0int },
            negative == (s@[0] == '-'),
            limit == if negative { 9223372036854775808u64 } else { 9223372036854775807u64 },
            body == literal_body(s@),
            body =~= s@.subrange(start as int, n as int),
            body.len() == n - start,
            all_digits(body.take(i - start)),
            mag == digits_val(body.take(i - start)),
            mag <= limit,
        decreases n - i,
    {
        let ghost k = i - start;
        let c = s.get_char(i);
        proof {
            assert(body[k] == s@[i as int]);
            assert(body.take(k + 1).drop_last() =~= body.take(k));
            assert(body.take(k + 1).last() == body[k]);
        }
        let d: u64 = match c {
            '0' => 0,
            '1' => 1,
            '2' => 2,
            '3' => 3,
            '4' => 4,
            '5' => 5,
            '6' => 6,
            '7' => 7,
            '8' => 8,
            '9' => 9,
            _ => {
                proof {
                    assert(!is_digit(body[k]));
                }
                return None;
            },
        };
        let grown = match mag.checked_mul(10) {
            Some(t) => t.checked_add(d),
            None => None,
        };
        let next = match grown {
            Some(t) => {
                if t > limit {
                    None
                } else {
                    Some(t)
                }
            },
            None => None,
        };
        match next {
            Some(t) => {
                mag = t;
            },
            None => {
                proof {
                    assert(digits_val(body.take(k + 1)) == mag * 10 + digit_val(body[k]));
                    assert(digits_val(body.take(k + 1)) > limit);
                    if is_i64_literal(s@) {
                        lemma_digits_val_take(body, k + 1);
                        assert(digits_val(body) > limit);
                        if negative {
                            assert(literal_val(s@) == -digits_val(body));
                            assert(literal_val(s@) < i64::MIN);
                        } else {
                            assert(literal_val(s@) == digits_val(body));
                            assert(literal_val(s@) > i64::MAX);
                        }
                    }
                }
                return None;
            },
        }
        i += 1;
    }
    proof {
        assert(body.take(n - start) =~= body);
    }
    if negative {
        if mag == 9223372036854775808u64 {
            Some(i64::MIN)
        } else {
            Some(-(mag as i64))
        }
    } else {
        Some(mag as i64)
    }
}

} // verus!
