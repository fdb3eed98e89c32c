//! Decimal reading and rendering of the stack's integers.

use vstd::prelude::*;

verus! {

/// An ASCII decimal digit.
pub open spec fn is_digit(c: char) -> bool {
    '0' <= c && c <= '9'
}

/// The numeric value of a decimal digit.
pub open spec fn digit_val(c: char) -> int {
    c as int - '0' as int
}

/// The digit character for a value below ten.
pub open spec fn digit_char(d: int) -> char {
    if d == 0 {
        '0'
    } else if d == 1 {
        '1'
    } else if d == 2 {
        '2'
    } else if d == 3 {
        '3'
    } else if d == 4 {
        '4'
    } else if d == 5 {
        '5'
    } else if d == 6 {
        '6'
    } else if d == 7 {
        '7'
    } else if d == 8 {
        '8'
    } else {
        '9'
    }
}

/// The value of a string of decimal digits, read left to right.
pub open spec fn dec_val(s: Seq<char>) -> int
    decreases s.len(),
{
    if s.len() == 0 {
        0
    } else {
        dec_val(s.drop_last()) * 10 + digit_val(s.last())
    }
}

/// Whether every character of `s` is a decimal digit.
pub open spec fn all_digits(s: Seq<char>) -> bool {
    forall|i: int| 0 <= i < s.len() ==> is_digit(s[i])
}

/// The digit part of a candidate integer literal: everything after an
/// optional leading sign.
pub open spec fn literal_body(s: Seq<char>) -> Seq<char> {
    if s.len() > 0 && (s[0] == '+' || s[0] == '-') {
        s.drop_first()
    } else {
        s
    }
}

/// The mathematical value a candidate literal denotes (digits with an
/// optional sign), meaningful only where the shape is right.
pub open spec fn literal_val(s: Seq<char>) -> int {
    if s.len() > 0 && s[0] == '-' {
        -dec_val(literal_body(s))
    } else {
        dec_val(literal_body(s))
    }
}

/// Whether `s` parses as an `i32`: an optional sign, one or more digits,
/// and a value within the `i32` range.
pub open spec fn is_i32_literal(s: Seq<char>) -> bool {
    &&& literal_body(s).len() > 0
    &&& all_digits(literal_body(s))
    &&& i32::MIN <= literal_val(s) <= i32::MAX
}

/// The decimal digits of a nonnegative value, most significant first.
pub open spec fn udec(n: int) -> Seq<char>
    decreases n,
{
    if n < 10 {
        seq![digit_char(n)]
    } else {
        udec(n / 10) + seq![digit_char(n % 10)]
    }
}

/// The decimal rendering of a signed integer.
pub open spec fn int_dec(v: i32) -> Seq<char> {
    if v >= 0 {
        udec(v as int)
    } else {
        seq!['-'] + udec(-(v as int))
    }
}

/// A string of digits denotes a nonnegative value.
pub proof fn lemma_dec_val_nonneg(s: Seq<char>)
    requires
        all_digits(s),
    ensures
        dec_val(s) >= 0,
    decreases s.len(),
{
    if s.len() > 0 {
        assert(all_digits(s.drop_last()));
        lemma_dec_val_nonneg(s.drop_last());
    }
}

/// Reading further digits never lowers the value already read.
pub proof fn lemma_dec_val_prefix(s: Seq<char>, k: int)
    requires
        all_digits(s),
        0 <= k <= s.len(),
    ensures
        dec_val(s.take(k)) <= dec_val(s),
    decreases s.len() - k,
{
    if k == s.len() {
        assert(s.take(k) =~= s);
    } else {
        assert(s.take(k + 1).drop_last() =~= s.take(k));
        assert(all_digits(s.take(k)));
        lemma_dec_val_nonneg(s.take(k));
        lemma_dec_val_prefix(s, k + 1);
    }
}

/// Reads a token as a signed 32-bit integer: an optional sign followed by
/// one or more decimal digits, rejected when malformed or out of range.
pub fn parse_i32(token: &str) -> (r: Option<i32>)
    ensures
        r is Some <==> is_i32_literal(token@),
        r is Some ==> r->0 as int == literal_val(token@),
{
    let n = token.unicode_len();
    if n == 0 {
        return None;
    }
    let first = token.get_char(0);
    let neg = first == '-';
    let start: usize = if first == '-' || first == '+' {
        1
    } else {
        0
    };
    proof {
        assert(literal_body(token@) =~= token@.subrange(start as int, n as int));
    }
    if start == n {
        return None;
    }
    let ghost body = token@.subrange(start as int, n as int);
    let mut acc: u64 = 0;
    let mut k: usize = start;
    while k < n
        invariant
            start <= k <= n,
            n == token@.len(),
            body == token@.subrange(start as int, n as int),
            body == literal_body(token@),
            all_digits(body.take(k - start)),
            acc == dec_val(body.take(k - start)),
            acc <= 0x8000_0000,
        decreases n - k,
    {
        let c = token.get_char(k);
        let cu = c as u32;
        if cu < 48 || cu > 57 {
            proof {
                assert(body[k - start] == c);
                assert(!is_digit(c));
            }
            return None;
        }
        let d: u64 = (cu - 48) as u64;
        acc = acc * 10 + d;
        proof {
            assert(body.take(k + 1 - start).drop_last() =~= body.take(k - start));
            assert(body.take(k + 1 - start).last() == c);
            assert(d as int == digit_val(c));
        }
        if acc > 0x8000_0000 {
            proof {
                if all_digits(body) {
                    lemma_dec_val_prefix(body, k + 1 - start);
                }
            }
            return None;
        }
        k += 1;
    }
    proof {
        assert(body.take(n - start) =~= body);
    }
    if neg {
        if acc == 0x8000_0000 {
            Some(i32::MIN)
        } else {
            Some(-(acc as i32))
        }
    } else {
        if acc > 0x7fff_ffff {
            None
        } else {
            Some(acc as i32)
        }
    }
}

/// The one-character string for a digit value.
fn digit_str(d: u32) -> (r: &'static str)
    requires
        d < 10,
    ensures
        r@ == seq![digit_char(d as int)],
{
    proof {
        reveal_strlit("0");
        reveal_strlit("1");
        reveal_strlit("2");
        reveal_strlit("3");
        reveal_strlit("4");
        reveal_strlit("5");
        reveal_strlit("6");
        reveal_strlit("7");
        reveal_strlit("8");
        reveal_strlit("9");
    }
    let r: &'static str = if d == 0 {
        "0"
    } else if d == 1 {
        "1"
    } else if d == 2 {
        "2"
    } else if d == 3 {
        "3"
    } else if d == 4 {
        "4"
    } else if d == 5 {
        "5"
    } else if d == 6 {
        "6"
    } else if d == 7 {
        "7"
    } else if d == 8 {
        "8"
    } else {
        "9"
    };
    proof {
        assert(r@ =~= seq![digit_char(d as int)]);
    }
    r
}

/// The decimal string of a nonnegative value.
fn udec_string(n: u32) -> (r: String)
    ensures
        r@ == udec(n as int),
    decreases n,
{
    if n < 10 {
        let r = digit_str(n).to_owned();
        proof {
            assert(r@ =~= udec(n as int));
        }
        r
    } else {
        let mut r = udec_string(n / 10);
        r.append(digit_str(n % 10));
        proof {
            assert(r@ =~= udec(n as int));
        }
        r
    }
}

/// The decimal string of a signed integer, with a leading minus sign for
/// negative values.
pub fn to_decimal(v: i32) -> (r: String)
    ensures
        r@ == int_dec(v),
{
    if v >= 0 {
        udec_string(v as u32)
    } else {
        let magnitude: i64 = -(v as i64);
        let mut r = "-".to_owned();
        r.append(udec_string(magnitude as u32).as_str());
        proof {
            reveal_strlit("-");
            assert(r@ =~= int_dec(v));
        }
        r
    }
}

} // verus!
