//! Decimal parsing of the capture form's round counts: an optional sign
//! followed by one or more digits, accepted exactly when the value fits a
//! 32-bit signed integer.

use vstd::prelude::*;

verus! {

/// The form held a field that is not a decimal 32-bit integer.
#[derive(PartialEq, Eq, Structural, Clone, Copy, Debug)]
pub struct NumberParseError;

pub open spec fn is_digit(c: char) -> bool {
    48 <= c as int && c as int <= 57
}

pub open spec fn digit_value(c: char) -> int {
    c as int - 48
}

pub open spec fn all_digits(s: Seq<char>) -> bool {
    forall|i: int| 0 <= i < s.len() ==> is_digit(s[i])
}

/// Value of a non-empty digit string, most significant digit first.
pub open spec fn digits_value(s: Seq<char>) -> int
    decreases s.len(),
{
    if s.len() == 0 {
        0
    } else {
        10 * digits_value(s.drop_last()) + digit_value(s.last())
    }
}

/// The digit part of a decimal literal: everything after an optional sign.
pub open spec fn digit_part(s: Seq<char>) -> Seq<char> {
    if s.len() > 0 && (s[0] == '-' || s[0] == '+') {
        s.subrange(1, s.len() as int)
    } else {
        s
    }
}

/// The signed value of a decimal literal, assuming its shape is well-formed.
pub open spec fn spec_int_of(s: Seq<char>) -> int {
    if s.len() > 0 && s[0] == '-' {
        -digits_value(digit_part(s))
    } else {
        digits_value(digit_part(s))
    }
}

/// A string is a 32-bit decimal literal when an optional sign is followed by
/// at least one digit and the signed value fits in an `i32`.
pub open spec fn is_i32_literal(s: Seq<char>) -> bool {
    &&& digit_part(s).len() > 0
    &&& all_digits(digit_part(s))
    &&& i32::MIN as int <= spec_int_of(s) <= i32::MAX as int
}

proof fn lemma_digits_value_nonneg(s: Seq<char>)
    requires
        all_digits(s),
    ensures
        digits_value(s) >= 0,
    decreases s.len(),
{
    if s.len() > 0 {
        assert(all_digits(s.drop_last()));
        lemma_digits_value_nonneg(s.drop_last());
    }
}

/// Appending further digits never decreases the value of a digit string.
proof fn lemma_digits_value_append_ge(u: Seq<char>, v: Seq<char>)
    requires
        all_digits(u),
        all_digits(v),
    ensures
        digits_value(u + v) >= digits_value(u),
    decreases v.len(),
{
    if v.len() == 0 {
        assert(u + v =~= u);
    } else {
        let w = u + v.drop_last();
        assert(all_digits(w));
        lemma_digits_value_append_ge(u, v.drop_last());
        lemma_digits_value_nonneg(w);
        assert((u + v).drop_last() =~= w);
        assert((u + v).last() == v.last());
        assert(digits_value(u + v) == 10 * digits_value(w) + digit_value(v.last()));
        assert(is_digit(v.last()));
    }
}

/// Parses a decimal 32-bit integer, exactly as the capture form's fields are
/// read: an optional `+` or `-` sign, then one or more digits, rejected when
/// the value overflows.
pub fn parse_i32(s: &str) -> (r: Result<i32, NumberParseError>)
    ensures
        match r {
            Ok(v) => is_i32_literal(s@) && v as int == spec_int_of(s@),
            Err(_) => !is_i32_literal(s@),
        },
{
    let len = s.unicode_len();
    if len == 0 {
        return Err(NumberParseError);
    }
    let first = s.get_char(0);
    let neg = first == '-';
    let start: usize = if first == '-' || first == '+' {
        1
    } else {
        0
    };
    if start == len {
        assert(digit_part(s@).len() == 0);
        return Err(NumberParseError);
    }
    let ghost d = digit_part(s@);
    assert(d =~= s@.subrange(start as int, len as int));
    let limit: i64 = if neg {
        2147483648
    } else {
        2147483647
    };
    let mut acc: i64 = 0;
    let mut i: usize = start;
    while i < len
        invariant
            start <= i <= len,
            len == s@.len(),
            start == 1 ==> (s@[0] == '-' || s@[0] == '+'),
            start == 0 ==> !(s@[0] == '-' || s@[0] == '+'),
            neg == (s@[0] == '-'),
            limit == if neg { 2147483648int } else { 2147483647int },
            d == digit_part(s@),
            d =~= s@.subrange(start as int, len as int),
            all_digits(s@.subrange(start as int, i as int)),
            acc == digits_value(s@.subrange(start as int, i as int)),
            0 <= acc <= limit,
        decreases len - i,
    {
        let c = s.get_char(i);
        let cv = c as u32;
        if cv < 48 || cv > 57 {
            proof {
                let k = i - start;
                assert(d[k] == s@[i as int]);
                assert(!is_digit(d[k]));
            }
            return Err(NumberParseError);
        }
        let dv = (cv - 48) as i64;
        let new_acc: i64 = acc * 10 + dv;
        proof {
            let p = s@.subrange(start as int, i as int);
            let q = s@.subrange(start as int, i + 1int);
            assert(q.drop_last() =~= p);
            assert(q.last() == s@[i as int]);
            assert(digits_value(q) == 10 * digits_value(p) + digit_value(s@[i as int]));
            assert(all_digits(q));
        }
        if new_acc > limit {
            proof {
                let q = s@.subrange(start as int, i + 1int);
                if is_i32_literal(s@) {
                    let rest = s@.subrange(i + 1int, len as int);
                    assert(d =~= q + rest);
                    assert(all_digits(q));
                    assert forall|j: int| 0 <= j < rest.len() implies is_digit(rest[j]) by {
                        assert(rest[j] == s@[i + 1 + j]);
                        assert(d[i + 1 - start + j] == s@[i + 1 + j]);
                        assert(is_digit(d[i + 1 - start + j]));
                    };
                    assert(all_digits(rest));
                    lemma_digits_value_append_ge(q, rest);
                    assert(digits_value(d) >= digits_value(q));
                    assert(digits_value(q) > limit);
                    if neg {
                        assert(spec_int_of(s@) == -digits_value(d));
                        assert(spec_int_of(s@) < i32::MIN as int);
                    } else {
                        assert(spec_int_of(s@) == digits_value(d));
                        assert(spec_int_of(s@) > i32::MAX as int);
                    }
                    assert(false);
                }
            }
            return Err(NumberParseError);
        }
        acc = new_acc;
        i = i + 1;
    }
    proof {
        assert(s@.subrange(start as int, len as int) =~= d);
        assert(acc == digits_value(d));
        assert(all_digits(d));
        assert(d.len() > 0);
        if neg {
            assert(spec_int_of(s@) == -digits_value(d));
        } else {
            assert(spec_int_of(s@) == digits_value(d));
        }
    }
    if neg {
        Ok((-acc) as i32)
    } else {
        Ok(acc as i32)
    }
}

} // verus!
