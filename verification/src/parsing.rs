//! Verified decimal-integer parsing: an optional sign followed by one
//! or more ASCII digits, rejected on any other shape or on overflow.
//! Used by the wizard's age step and by identifier parsing.

use vstd::prelude::*;

verus! {

pub open spec fn is_digit(c: char) -> bool {
    48 <= c as int <= 57
}

pub open spec fn digit_val(c: char) -> int {
    c as int - 48
}

pub open spec fn all_digits(s: Seq<char>) -> bool {
    forall|i: int| 0 <= i < s.len() ==> is_digit(s[i])
}

/// Value of a non-empty digit string, most significant digit first.
pub open spec fn digits_val(s: Seq<char>) -> int
    decreases s.len(),
{
    if s.len() == 0 {
        0
    } else {
        digits_val(s.drop_last()) * 10 + digit_val(s.last())
    }
}

/// Shape accepted by the parser: `sign? digit+`.
pub open spec fn valid_int_string(s: Seq<char>) -> bool {
    if s.len() == 0 {
        false
    } else if s[0] == '+' || s[0] == '-' {
        s.len() > 1 && all_digits(s.subrange(1, s.len() as int))
    } else {
        all_digits(s)
    }
}

/// Signed value of a string of valid shape.
pub open spec fn int_string_val(s: Seq<char>) -> int {
    if s[0] == '-' {
        -digits_val(s.subrange(1, s.len() as int))
    } else if s[0] == '+' {
        digits_val(s.subrange(1, s.len() as int))
    } else {
        digits_val(s)
    }
}

/// What i64 parsing returns: the value when the shape is valid and the
/// value fits, nothing otherwise.
pub open spec fn spec_parse_i64(s: Seq<char>) -> Option<i64> {
    if valid_int_string(s) && i64::MIN <= int_string_val(s) <= i64::MAX {
        Some(int_string_val(s) as i64)
    } else {
        None
    }
}

/// What u64 parsing returns: no `-` sign is accepted.
pub open spec fn spec_parse_u64(s: Seq<char>) -> Option<u64> {
    if valid_int_string(s) && s[0] != '-' && int_string_val(s) <= u64::MAX {
        Some(int_string_val(s) as u64)
    } else {
        None
    }
}

pub proof fn lemma_digits_val_nonneg(s: Seq<char>)
    requires
        all_digits(s),
    ensures
        digits_val(s) >= 0,
    decreases s.len(),
{
    if s.len() > 0 {
        assert(all_digits(s.drop_last()));
        lemma_digits_val_nonneg(s.drop_last());
    }
}

/// Appending one digit multiplies the value by ten and adds the digit.
pub proof fn lemma_digits_val_step(s: Seq<char>, i: int)
    requires
        0 <= i < s.len(),
    ensures
        digits_val(s.subrange(0, i + 1)) == digits_val(s.subrange(0, i)) * 10 + digit_val(s[i]),
{
    let t = s.subrange(0, i + 1);
    assert(t.drop_last() =~= s.subrange(0, i));
    assert(t.last() == s[i]);
}

/// A digit string is at least as large as any of its prefixes.
pub proof fn lemma_digits_prefix_le(s: Seq<char>, i: int)
    requires
        all_digits(s),
        0 <= i <= s.len(),
    ensures
        digits_val(s.subrange(0, i)) <= digits_val(s),
    decreases s.len() - i,
{
    if i == s.len() {
        assert(s.subrange(0, i) =~= s);
    } else {
        lemma_digits_val_step(s, i);
        assert(all_digits(s.subrange(0, i))) by {
            assert(forall|j: int|
                0 <= j < i ==> s.subrange(0, i)[j] == s[j] && is_digit(s[j]));
        }
        lemma_digits_val_nonneg(s.subrange(0, i));
        assert(digits_val(s.subrange(0, i)) <= digits_val(s.subrange(0, i + 1)));
        lemma_digits_prefix_le(s, i + 1);
    }
}

/// Magnitude of the digit run `s[start..]`, accumulated left to right;
/// reports overflow past `max_mag` instead of a value.
fn parse_magnitude(s: &str, start: usize, max_mag: u64) -> (r: Option<u64>)
    requires
        start < s@.len(),
    ensures
        match r {
            Some(m) => all_digits(s@.subrange(start as int, s@.len() as int)) && m
                == digits_val(s@.subrange(start as int, s@.len() as int)) && m <= max_mag,
            None => !all_digits(s@.subrange(start as int, s@.len() as int)) || digits_val(
                s@.subrange(start as int, s@.len() as int),
            ) > max_mag,
        },
{
    let ghost digits = s@.subrange(start as int, s@.len() as int);
    let n = s.unicode_len();
    let mut acc: u64 = 0;
    let mut i: usize = start;
    while i < n
        invariant
            start <= i <= n,
            n == s@.len(),
            start < s@.len(),
            digits == s@.subrange(start as int, s@.len() as int),
            all_digits(s@.subrange(start as int, i as int)),
            acc == digits_val(s@.subrange(start as int, i as int)),
            acc <= max_mag,
        decreases n - i,
    {
        let c = s.get_char(i);
        let cv = c as u32;
        if cv < 48 || cv > 57 {
            assert(!is_digit(s@[i as int]));
            assert(digits[i - start] == s@[i as int]);
            return None;
        }
        let d = (cv - 48) as u64;
        proof {
            assert(s@.subrange(start as int, i as int) =~= s@.subrange(
                start as int,
                i + 1 as int,
            ).drop_last());
            assert(s@.subrange(start as int, i + 1 as int).last() == s@[i as int]);
        }
        if acc as u128 * 10 + d as u128 > max_mag as u128 {
            proof {
                let full = s@.subrange(start as int, s@.len() as int);
                if all_digits(full) {
                    assert(s@.subrange(start as int, i + 1 as int) =~= full.subrange(
                        0,
                        i + 1 - start,
                    ));
                    assert(full.subrange(0, i + 1 - start).drop_last() =~= s@.subrange(
                        start as int,
                        i as int,
                    ));
                    assert(digits_val(full.subrange(0, i + 1 - start)) == acc * 10 + d);
                    lemma_digits_prefix_le(full, i + 1 - start);
                }
            }
            return None;
        }
        acc = acc * 10 + d;
        i = i + 1;
    }
    assert(s@.subrange(start as int, i as int) =~= digits);
    Some(acc)
}

/// Parses a signed 64-bit integer; mirrors [`spec_parse_i64`] exactly.
pub fn parse_i64(s: &str) -> (r: Option<i64>)
    ensures
        r == spec_parse_i64(s@),
{
    let n = s.unicode_len();
    if n == 0 {
        return None;
    }
    let first = s.get_char(0);
    let (start, negative): (usize, bool) = if first == '-' {
        (1, true)
    } else if first == '+' {
        (1, false)
    } else {
        (0, false)
    };
    if start >= n {
        // a bare sign has no digits
        return None;
    }
    let max_mag: u64 = if negative {
        9223372036854775808u64
    } else {
        9223372036854775807u64
    };
    let ghost digits = s@.subrange(start as int, s@.len() as int);
    match parse_magnitude(s, start, max_mag) {
        Some(m) => {
            proof {
                if start == 0 {
                    assert(digits =~= s@);
                }
            }
            if negative {
                if m == 9223372036854775808u64 {
                    Some(i64::MIN)
                } else {
                    Some(-(m as i64))
                }
            } else {
                Some(m as i64)
            }
        },
        None => {
            proof {
                if start == 0 {
                    assert(digits =~= s@);
                }
                if all_digits(digits) {
                    lemma_digits_val_nonneg(digits);
                }
            }
            None
        },
    }
}

/// Parses an unsigned 64-bit integer; mirrors [`spec_parse_u64`].
pub fn parse_u64(s: &str) -> (r: Option<u64>)
    ensures
        r == spec_parse_u64(s@),
{
    let n = s.unicode_len();
    if n == 0 {
        return None;
    }
    let first = s.get_char(0);
    if first == '-' {
        return None;
    }
    let start: usize = if first == '+' {
        1
    } else {
        0
    };
    if start >= n {
        return None;
    }
    let ghost digits = s@.subrange(start as int, s@.len() as int);
    let r = parse_magnitude(s, start, u64::MAX);
    proof {
        if start == 0 {
            assert(digits =~= s@);
        }
        if all_digits(digits) {
            lemma_digits_val_nonneg(digits);
        }
    }
    r
}

} // verus!
