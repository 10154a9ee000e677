//! Validation of configuration values.
//!
//! Configuration arrives as environment strings; reading the environment
//! is the caller's business.  The one value with structure is the voice
//! server's port: a decimal number, with an optional leading `+`, that
//! must fit in 16 bits.

use vstd::prelude::*;

use vstd::string::StrSliceExecFns;

verus! {

/// Whether `c` is a decimal digit.
pub open spec fn is_ascii_digit(c: char) -> bool {
    0x30 <= c as u32 <= 0x39
}

/// Whether every character of `s` is a decimal digit.
pub open spec fn all_ascii_digits(s: Seq<char>) -> bool {
    forall|i: int| 0 <= i < s.len() ==> is_ascii_digit(s[i])
}

/// The value of a string of decimal digits, most significant first.
pub open spec fn dec_value(s: Seq<char>) -> int
    recommends
        all_ascii_digits(s),
    decreases s.len(),
{
    if s.len() == 0 {
        0
    } else {
        dec_value(s.drop_last()) * 10 + (s.last() as u32 - 0x30)
    }
}

/// The string with a single leading `+` sign stripped, if one is there.
pub open spec fn digit_part(s: Seq<char>) -> Seq<char> {
    if s.len() > 0 && s[0] == '+' {
        s.drop_first()
    } else {
        s
    }
}

/// The port a configuration string names: defined exactly when, after an
/// optional single leading `+`, the string is a nonempty run of decimal
/// digits whose value fits in 16 bits.
pub open spec fn port_of(s: Seq<char>) -> Option<u16> {
    let d = digit_part(s);
    if d.len() > 0 && all_ascii_digits(d) && dec_value(d) <= 0xffff {
        Some(dec_value(d) as u16)
    } else {
        None
    }
}

/// Parses a configured port number.  Returns `Some` exactly for an
/// optional single leading `+` followed by a nonempty run of decimal
/// digits whose value fits in 16 bits, and `None` for every other string.
pub fn parse_port(s: &str) -> (r: Option<u16>)
    ensures
        r == port_of(s@),
{
    let n = s.unicode_len();
    if n == 0 {
        return None;
    }
    let start: usize = if s.get_char(0) == '+' {
        1
    } else {
        0
    };
    let ghost d = digit_part(s@);
    proof {
        assert(d =~= s@.subrange(start as int, n as int));
    }
    if n == start {
        // A bare sign names no port.
        return None;
    }
    let mut i: usize = start;
    let mut value: u32 = 0;
    let mut too_big: bool = false;
    while i < n
        invariant
            n == s@.len(),
            start <= i <= n,
            d == digit_part(s@),
            d =~= s@.subrange(start as int, n as int),
            forall|j: int| 0 <= j < i - start ==> is_ascii_digit(d[j]),
            !too_big ==> value == dec_value(d.take(i - start)) && value <= 0xffff,
            too_big ==> dec_value(d.take(i - start)) > 0xffff,
        decreases n - i,
    {
        let c = s.get_char(i);
        let u = c as u32;
        if u < 0x30 || u > 0x39 {
            proof {
                assert(d[i - start] == s@[i as int]);
            }
            return None;
        }
        let digit = u - 0x30;
        proof {
            assert(d.take(i - start + 1).drop_last() =~= d.take(i - start));
            assert(d.take(i - start + 1).last() == d[i - start]);
            assert(d[i - start] == s@[i as int]);
        }
        if !too_big {
            let next = value * 10 + digit;
            if next > 0xffff {
                too_big = true;
            } else {
                value = next;
            }
        }
        i += 1;
    }
    proof {
        assert(d.take(n - start) =~= d);
    }
    if too_big {
        None
    } else {
        Some(value as u16)
    }
}

} // verus!
