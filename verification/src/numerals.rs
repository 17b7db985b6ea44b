//! Decimal text: rendering an integer as its decimal byte string, and
//! reading a signed decimal integer from a line of input bytes the way the
//! "read integer" instruction demands it (surrounding whitespace ignored,
//! an optional sign, at least one digit, and a value that fits in 32 bits).

use vstd::prelude::*;
use vstd::arithmetic::div_mod::lemma_div_is_strictly_smaller;

verus! {

/// The decimal digit bytes of `n`, most significant first.
pub open spec fn dec_digits(n: nat) -> Seq<u8>
    decreases n,
{
    if n < 10 {
        seq![(48 + n) as u8]
    } else {
        dec_digits((n / 10) as nat).push((48 + n % 10) as u8)
    }
}

/// The decimal byte string of `i`: a minus sign for a negative value,
/// then the digits of its magnitude.
pub open spec fn dec_repr(i: int) -> Seq<u8> {
    if i < 0 {
        seq![45u8] + dec_digits((-i) as nat)
    } else {
        dec_digits(i as nat)
    }
}

fn push_dec_digits(n: u32, out: &mut Vec<u8>)
    ensures
        final(out)@ == old(out)@ + dec_digits(n as nat),
    decreases n,
{
    if n < 10 {
        out.push(48 + (n as u8));
        proof {
            assert(final(out)@ =~= old(out)@ + dec_digits(n as nat));
        }
    } else {
        proof {
            lemma_div_is_strictly_smaller(n as int, 10);
        }
        push_dec_digits(n / 10, out);
        out.push(48 + ((n % 10) as u8));
        proof {
            assert(final(out)@ =~= old(out)@ + dec_digits(n as nat));
        }
    }
}

/// Renders `value` as its decimal byte string.
pub fn format_int(value: i32) -> (out: Vec<u8>)
    ensures
        out@ == dec_repr(value as int),
{
    let mut out: Vec<u8> = Vec::new();
    let wide: i64 = value as i64;
    if wide < 0 {
        out.push(45);
        let magnitude: u32 = (-wide) as u32;
        push_dec_digits(magnitude, &mut out);
        proof {
            assert(out@ =~= dec_repr(value as int));
        }
    } else {
        let magnitude: u32 = wide as u32;
        push_dec_digits(magnitude, &mut out);
        proof {
            assert(out@ =~= dec_repr(value as int));
        }
    }
    out
}

pub open spec fn is_dec_digit(b: u8) -> bool {
    48 <= b <= 57
}

pub open spec fn all_dec_digits(s: Seq<u8>) -> bool {
    forall|i: int| 0 <= i < s.len() ==> is_dec_digit(#[trigger] s[i])
}

/// The integer denoted by a sequence of decimal digit bytes, most
/// significant first.
pub open spec fn digits_value(s: Seq<u8>) -> int
    decreases s.len(),
{
    if s.len() == 0 {
        0
    } else {
        digits_value(s.drop_last()) * 10 + (s.last() - 48)
    }
}

pub proof fn lemma_digits_value_nonneg(s: Seq<u8>)
    requires
        all_dec_digits(s),
    ensures
        digits_value(s) >= 0,
    decreases s.len(),
{
    if s.len() > 0 {
        assert(all_dec_digits(s.drop_last()));
        lemma_digits_value_nonneg(s.drop_last());
    }
}

pub open spec fn is_ascii_space(b: u8) -> bool {
    b == 32 || 9 <= b <= 13
}

pub open spec fn trim_front(s: Seq<u8>) -> Seq<u8>
    decreases s.len(),
{
    if s.len() > 0 && is_ascii_space(s.first()) {
        trim_front(s.drop_first())
    } else {
        s
    }
}

pub open spec fn trim_back(s: Seq<u8>) -> Seq<u8>
    decreases s.len(),
{
    if s.len() > 0 && is_ascii_space(s.last()) {
        trim_back(s.drop_last())
    } else {
        s
    }
}

/// The bytes with all leading and trailing whitespace removed.
pub open spec fn trimmed(s: Seq<u8>) -> Seq<u8> {
    trim_back(trim_front(s))
}

/// The digit part of an integer text: everything after an optional
/// leading `+` or `-`.
pub open spec fn int_text_digits(t: Seq<u8>) -> Seq<u8> {
    if t.len() > 0 && (t.first() == 43 || t.first() == 45) {
        t.drop_first()
    } else {
        t
    }
}

pub open spec fn int_text_negative(t: Seq<u8>) -> bool {
    t.len() > 0 && t.first() == 45
}

/// An integer text is an optional sign followed by at least one decimal
/// digit and nothing else.
pub open spec fn valid_int_text(t: Seq<u8>) -> bool {
    int_text_digits(t).len() > 0 && all_dec_digits(int_text_digits(t))
}

/// The value denoted by a valid integer text.
pub open spec fn int_text_value(t: Seq<u8>) -> int {
    if int_text_negative(t) {
        -digits_value(int_text_digits(t))
    } else {
        digits_value(int_text_digits(t))
    }
}

/// Reads a signed 32-bit integer from a line of bytes: surrounding
/// whitespace is ignored, and the reading succeeds exactly when what is
/// left is an optional sign with at least one digit whose value fits.
pub fn parse_int(line: &Vec<u8>) -> (r: Option<i32>)
    ensures
        ({
            let t = trimmed(line@);
            match r {
                Some(v) => valid_int_text(t) && i32::MIN <= int_text_value(t) <= i32::MAX
                    && v == int_text_value(t),
                None => !(valid_int_text(t) && i32::MIN <= int_text_value(t) <= i32::MAX),
            }
        }),
{
    let len = line.len();
    proof {
        assert(line@.subrange(0, line@.len() as int) =~= line@);
    }
    let mut start: usize = 0;
    while start < len && is_space_byte(line[start])
        invariant
            0 <= start <= len,
            len == line@.len(),
            trim_front(line@) == trim_front(line@.subrange(start as int, len as int)),
        decreases len - start,
    {
        proof {
            let cur = line@.subrange(start as int, len as int);
            assert(cur.drop_first() =~= line@.subrange(start + 1, len as int));
        }
        start = start + 1;
    }
    proof {
        let cur = line@.subrange(start as int, len as int);
        if start < len {
            assert(!is_ascii_space(cur.first()));
        }
        assert(trim_front(line@) == cur);
    }
    let mut end: usize = len;
    while end > start && is_space_byte(line[end - 1])
        invariant
            start <= end <= len,
            len == line@.len(),
            trim_front(line@) == line@.subrange(start as int, len as int),
            trimmed(line@) == trim_back(line@.subrange(start as int, end as int)),
        decreases end,
    {
        proof {
            let cur = line@.subrange(start as int, end as int);
            assert(cur.drop_last() =~= line@.subrange(start as int, end - 1));
        }
        end = end - 1;
    }
    let ghost t = line@.subrange(start as int, end as int);
    proof {
        if end > start {
            assert(!is_ascii_space(t.last()));
        }
        assert(trimmed(line@) == t);
    }
    let mut negative: bool = false;
    let mut i: usize = start;
    if i < end && (line[i] == 43 || line[i] == 45) {
        negative = line[i] == 45;
        i = i + 1;
    }
    let ghost digits = int_text_digits(t);
    proof {
        assert(digits =~= line@.subrange(i as int, end as int));
        assert(negative == int_text_negative(t));
    }
    if i == end {
        // no digits at all
        return None;
    }
    let digit_start: usize = i;
    let mut acc: i64 = 0;
    let mut too_big: bool = false;
    while i < end
        invariant
            digit_start <= i <= end,
            end <= line@.len(),
            t == trimmed(line@),
            digits == int_text_digits(t),
            negative == int_text_negative(t),
            digits == line@.subrange(digit_start as int, end as int),
            all_dec_digits(line@.subrange(digit_start as int, i as int)),
            !too_big ==> 0 <= acc <= 2147483648i64
                && acc == digits_value(line@.subrange(digit_start as int, i as int)),
            too_big ==> digits_value(line@.subrange(digit_start as int, i as int)) > 2147483648,
        decreases end - i,
    {
        let b = line[i];
        if b < 48 || b > 57 {
            // a non-digit byte makes the whole text invalid
            assert(digits[i - digit_start] == line@[i as int]);
            assert(!all_dec_digits(digits));
            return None;
        }
        let ghost prefix = line@.subrange(digit_start as int, i as int);
        let ghost extended = line@.subrange(digit_start as int, i + 1);
        proof {
            assert(extended.drop_last() =~= prefix);
            assert(extended.last() == line@[i as int]);
            if too_big {
                lemma_digits_value_nonneg(prefix);
            }
        }
        if !too_big {
            acc = acc * 10 + ((b - 48) as i64);
            if acc > 2147483648 {
                too_big = true;
            }
        }
        i = i + 1;
    }
    proof {
        assert(line@.subrange(digit_start as int, i as int) == digits);
        assert(all_dec_digits(digits));
        assert(valid_int_text(t));
    }
    if too_big {
        return None;
    }
    if negative {
        let value: i64 = -acc;
        Some(value as i32)
    } else {
        if acc > 2147483647 {
            return None;
        }
        Some(acc as i32)
    }
}

fn is_space_byte(b: u8) -> (r: bool)
    ensures
        r == is_ascii_space(b),
{
    b == 32 || (9 <= b && b <= 13)
}

} // verus!
