//! Character-level string helpers: exact, verified building blocks for the
//! pattern compiler, the listen-address parser and the response builder.

use vstd::prelude::*;
use vstd::string::StrSliceExecFns;

verus! {

/// Relies on `String::push`: appends exactly one character to the string.
#[verifier::external_body]
pub(crate) fn push_char(s: &mut String, c: char)
    ensures
        final(s)@ == old(s)@.push(c),
{
    s.push(c);
}

/// The characters of a string slice as a vector, for O(1) indexed access.
pub fn chars_of(s: &str) -> (r: Vec<char>)
    ensures
        r@ == s@,
{
    let n = s.unicode_len();
    let mut r: Vec<char> = Vec::new();
    let mut i: usize = 0;
    while i < n
        invariant
            i <= n,
            n == s@.len(),
            r@ == s@.take(i as int),
        decreases n - i,
    {
        r.push(s.get_char(i));
        i = i + 1;
        proof {
            assert(r@ =~= s@.take(i as int));
        }
    }
    proof {
        assert(s@.take(n as int) =~= s@);
    }
    r
}

/// Character-for-character equality of two string slices.
pub fn str_eq(a: &str, b: &str) -> (r: bool)
    ensures
        r == (a@ == b@),
{
    let na = a.unicode_len();
    let nb = b.unicode_len();
    if na != nb {
        return false;
    }
    let mut i: usize = 0;
    while i < na
        invariant
            i <= na,
            na == a@.len(),
            na == b@.len(),
            forall|k: int| 0 <= k < i ==> a@[k] == b@[k],
        decreases na - i,
    {
        if a.get_char(i) != b.get_char(i) {
            return false;
        }
        i = i + 1;
    }
    proof {
        assert(a@ =~= b@);
    }
    true
}

/// The numeric value of a decimal digit character, or 10 for any other
/// character (so that a non-digit can never alias a digit).
pub open spec fn spec_digit_value(c: char) -> int {
    if '0' <= c && c <= '9' {
        c as int - '0' as int
    } else {
        10
    }
}

/// Whether every character of the sequence is a decimal digit.
pub open spec fn spec_all_digits(s: Seq<char>) -> bool {
    forall|i: int| 0 <= i < s.len() ==> spec_digit_value(s[i]) < 10
}

/// What `str::parse::<u16>` accepts: an optional leading `+`, then one or
/// more decimal digits whose value fits in sixteen bits.
pub open spec fn spec_parse_u16(s: Seq<char>) -> Option<u16> {
    let digits = if s.len() > 0 && s[0] == '+' {
        s.drop_first()
    } else {
        s
    };
    if digits.len() == 0 || !spec_all_digits(digits) {
        None
    } else if spec_digits_value(digits) > u16::MAX {
        None
    } else {
        Some(spec_digits_value(digits) as u16)
    }
}

/// The value of a digit sequence read left to right.
pub open spec fn spec_digits_value(s: Seq<char>) -> int
    decreases s.len(),
{
    if s.len() == 0 {
        0
    } else {
        spec_digits_value(s.drop_last()) * 10 + spec_digit_value(s.last())
    }
}

/// Parses a decimal port number exactly as `str::parse::<u16>` does.
pub fn parse_u16(s: &str) -> (r: Option<u16>)
    ensures
        r == spec_parse_u16(s@),
{
    let chars = chars_of(s);
    let start: usize = if chars.len() > 0 && chars[0] == '+' {
        1
    } else {
        0
    };
    let ghost digits = s@.skip(start as int);
    proof {
        if s@.len() > 0 && s@[0] == '+' {
            assert(digits =~= s@.drop_first());
        } else {
            assert(digits =~= s@);
        }
    }
    if chars.len() == start {
        proof {
            assert(digits.len() == 0);
        }
        return None;
    }
    let mut acc: u32 = 0;
    let mut i: usize = start;
    while i < chars.len()
        invariant
            start <= i <= chars@.len(),
            chars@ == s@,
            digits == s@.skip(start as int),
            digits.len() == s@.len() - start,
            start == if s@.len() > 0 && s@[0] == '+' { 1int } else { 0int },
            acc <= u16::MAX,
            forall|k: int| start <= k < i ==> spec_digit_value(chars@[k]) < 10,
            acc == spec_digits_value(s@.subrange(start as int, i as int)),
        decreases chars@.len() - i,
    {
        let c = chars[i];
        if c < '0' || c > '9' {
            proof {
                assert(digits[i - start] == chars@[i as int]);
                assert(!spec_all_digits(digits)) by {
                    assert(spec_digit_value(digits[i - start]) >= 10);
                }
            }
            return None;
        }
        let d: u32 = (c as u32) - ('0' as u32);
        let next: u32 = acc * 10 + d;
        let ghost pre = s@.subrange(start as int, i + 1);
        proof {
            assert(pre.drop_last() =~= s@.subrange(start as int, i as int));
            assert(pre.last() == chars@[i as int]);
            assert(spec_digits_value(pre) == acc * 10 + d);
        }
        if next > 65535 {
            proof {
                assert(pre =~= digits.take(i + 1 - start));
                assert forall|k: int| 0 <= k < i + 1 - start implies spec_digit_value(
                    digits[k],
                ) < 10 by {
                    assert(digits[k] == chars@[k + start]);
                }
                lemma_digits_value_grows(digits, i + 1 - start);
                assert(digits == (if s@.len() > 0 && s@[0] == '+' {
                    s@.drop_first()
                } else {
                    s@
                }));
            }
            return None;
        }
        acc = next;
        i = i + 1;
    }
    proof {
        assert(s@.subrange(start as int, chars@.len() as int) =~= digits);
        assert forall|k: int| 0 <= k < digits.len() implies spec_digit_value(digits[k]) < 10 by {
            assert(digits[k] == chars@[k + start]);
        }
    }
    Some(acc as u16)
}

/// Once a digit prefix exceeds the sixteen-bit range, every extension of it
/// does too.
proof fn lemma_digits_value_grows(s: Seq<char>, i: int)
    requires
        0 <= i <= s.len(),
        forall|k: int| 0 <= k < i ==> spec_digit_value(s[k]) < 10,
        spec_digits_value(s.take(i)) > u16::MAX,
    ensures
        spec_digits_value(s) > u16::MAX || !spec_all_digits(s),
    decreases s.len() - i,
{
    if i == s.len() {
        assert(s.take(i) =~= s);
    } else {
        if spec_digit_value(s[i]) >= 10 {
            assert(!spec_all_digits(s)) by {
                assert(spec_digit_value(s[i]) >= 10);
            }
        } else {
            assert(s.take(i + 1).drop_last() =~= s.take(i));
            assert(spec_digits_value(s.take(i + 1)) == spec_digits_value(s.take(i)) * 10
                + spec_digit_value(s.take(i + 1).last()));
            lemma_digits_value_grows(s, i + 1);
        }
    }
}

/// The decimal rendering of a number, most significant digit first.
pub open spec fn spec_decimal(n: int) -> Seq<char>
    decreases n,
{
    if n < 10 {
        seq![spec_digit_char(n)]
    } else {
        spec_decimal(n / 10).push(spec_digit_char(n % 10))
    }
}

/// The character for a digit value, or `'?'` out of range.
pub open spec fn spec_digit_char(d: int) -> char {
    if d == 0 {
        '0'
    } else if d == 1 {
        '1'
    } else if d == 2 {
        '2'
    } else if d == 3 {
        '3'
    } else if d == 4 {
        '4'
    } else if d == 5 {
        '5'
    } else if d == 6 {
        '6'
    } else if d == 7 {
        '7'
    } else if d == 8 {
        '8'
    } else if d == 9 {
        '9'
    } else {
        '?'
    }
}

fn digit_char(d: u64) -> (c: char)
    requires
        d < 10,
    ensures
        c == spec_digit_char(d as int),
{
    if d == 0 {
        '0'
    } else if d == 1 {
        '1'
    } else if d == 2 {
        '2'
    } else if d == 3 {
        '3'
    } else if d == 4 {
        '4'
    } else if d == 5 {
        '5'
    } else if d == 6 {
        '6'
    } else if d == 7 {
        '7'
    } else if d == 8 {
        '8'
    } else {
        '9'
    }
}

/// The decimal rendering of a 64-bit number as a string.
pub fn decimal_string(n: u64) -> (r: String)
    ensures
        r@ == spec_decimal(n as int),
{
    let mut rev: Vec<char> = Vec::new();
    let mut m: u64 = n;
    while m >= 10
        invariant
            spec_decimal(n as int) == spec_decimal(m as int) + rev@.reverse(),
        decreases m,
    {
        let d = m % 10;
        let ghost prev = rev@;
        rev.push(digit_char(d));
        m = m / 10;
        proof {
            assert(rev@.reverse() =~= seq![spec_digit_char(d as int)] + prev.reverse());
            assert(spec_decimal(m as int).push(spec_digit_char(d as int)) + prev.reverse()
                =~= spec_decimal(m as int) + rev@.reverse());
        }
    }
    let ghost tail = rev@;
    rev.push(digit_char(m));
    proof {
        assert(rev@.reverse() =~= seq![spec_digit_char(m as int)] + tail.reverse());
        assert(spec_decimal(m as int) =~= seq![spec_digit_char(m as int)]);
        assert(spec_decimal(m as int) + tail.reverse() =~= rev@.reverse());
    }
    let mut out = String::new();
    let mut i: usize = rev.len();
    while i > 0
        invariant
            i <= rev@.len(),
            out@ == rev@.skip(i as int).reverse(),
        decreases i,
    {
        i = i - 1;
        push_char(&mut out, rev[i]);
        proof {
            assert(out@ =~= rev@.skip(i as int).reverse());
        }
    }
    proof {
        assert(rev@.skip(0) =~= rev@);
    }
    out
}

} // verus!
