//! Parsing a status word from its textual form.
//!
//! A diagnostic argument names a 32-bit word either in decimal (possibly
//! negative, wrapped to the unsigned word), in hex behind a `0x` or `x`
//! prefix, or — as a fallback when decimal fails — in bare hex.  The
//! grammar follows the standard library's integer parsing: an optional
//! sign, then one or more digits, and the value must fit the type.

use vstd::prelude::*;
use vstd::string::StringSliceAdditionalSpecFns;

verus! {

/// ASCII `+`.
pub const PLUS: u8 = 0x2B;

/// ASCII `-`.
pub const MINUS: u8 = 0x2D;

/// The value of an ASCII byte as a digit, decimal or hex (either case).
pub open spec fn spec_digit(b: u8, hex: bool) -> Option<u32> {
    if 0x30 <= b <= 0x39 {
        Some((b - 0x30) as u32)
    } else if hex && 0x61 <= b <= 0x66 {
        Some((b - 0x61 + 10) as u32)
    } else if hex && 0x41 <= b <= 0x46 {
        Some((b - 0x41 + 10) as u32)
    } else {
        None
    }
}

/// One or more bytes, every one a digit of the base.
pub open spec fn spec_is_digits(t: Seq<u8>, hex: bool) -> bool {
    t.len() > 0 && forall|i: int| 0 <= i < t.len() ==> (#[trigger] spec_digit(t[i], hex)) is Some
}

/// The unbounded value of a digit string, most significant digit first.
pub open spec fn spec_digits_value(t: Seq<u8>, hex: bool) -> nat
    decreases t.len(),
{
    if t.len() == 0 {
        0
    } else {
        spec_digits_value(t.drop_last(), hex) * (if hex {
            16nat
        } else {
            10nat
        }) + spec_digit(t.last(), hex).unwrap_or(0) as nat
    }
}

/// The word named by a digit string, if the string is all digits and its
/// value fits 32 bits.
pub open spec fn spec_digits_u32(t: Seq<u8>, hex: bool) -> Option<u32> {
    if spec_is_digits(t, hex) && spec_digits_value(t, hex) <= u32::MAX {
        Some(spec_digits_value(t, hex) as u32)
    } else {
        None
    }
}

/// The bytes after an optional leading plus sign.
pub open spec fn spec_strip_plus(s: Seq<u8>) -> Seq<u8> {
    if s.len() > 0 && s[0] == PLUS {
        s.skip(1)
    } else {
        s
    }
}

/// Standard unsigned parsing: an optional plus sign, then digits whose
/// value fits 32 bits.
pub open spec fn spec_parse_u32(s: Seq<u8>, hex: bool) -> Option<u32> {
    spec_digits_u32(spec_strip_plus(s), hex)
}

/// Standard signed 32-bit decimal parsing, with the parsed value wrapped
/// into the unsigned word it casts to.
pub open spec fn spec_parse_i32_wrapped(s: Seq<u8>) -> Option<u32> {
    if s.len() > 0 && s[0] == MINUS {
        match spec_digits_u32(s.skip(1), false) {
            Some(v) => if v <= 0x8000_0000 {
                Some(((0x1_0000_0000 - v) % 0x1_0000_0000) as u32)
            } else {
                None
            },
            None => None,
        }
    } else {
        match spec_parse_u32(s, false) {
            Some(v) => if v <= 0x7FFF_FFFF {
                Some(v)
            } else {
                None
            },
            None => None,
        }
    }
}

/// The word a textual argument denotes: hex behind a `0x` or `x` prefix;
/// otherwise decimal, unsigned first and signed-wrapped second; and bare
/// hex as the last resort.
pub open spec fn spec_parse_arg(s: Seq<u8>) -> Option<u32> {
    if s.len() >= 2 && s[0] == 0x30 && s[1] == 0x78 {
        spec_parse_u32(s.skip(2), true)
    } else if s.len() >= 1 && s[0] == 0x78 {
        spec_parse_u32(s.skip(1), true)
    } else if spec_parse_u32(s, false) is Some {
        spec_parse_u32(s, false)
    } else if spec_parse_i32_wrapped(s) is Some {
        spec_parse_i32_wrapped(s)
    } else {
        spec_parse_u32(s, true)
    }
}

/// A longer digit string never names a smaller value.
proof fn lemma_digits_value_prefix_monotone(t: Seq<u8>, hex: bool, m: int)
    requires
        0 <= m <= t.len(),
    ensures
        spec_digits_value(t, hex) >= spec_digits_value(t.take(m), hex),
    decreases t.len() - m,
{
    if m < t.len() {
        lemma_digits_value_prefix_monotone(t, hex, m + 1);
        assert(t.take(m + 1).drop_last() =~= t.take(m));
        let base: nat = if hex {
            16
        } else {
            10
        };
        let prefix = spec_digits_value(t.take(m), hex);
        assert(prefix * base >= prefix * 1) by (nonlinear_arith)
            requires
                base >= 1,
                prefix >= 0,
        ;
    } else {
        assert(t.take(m) =~= t);
    }
}

/// The value of an ASCII byte as a digit of the base.
fn digit_value(b: u8, hex: bool) -> (r: Option<u32>)
    ensures
        r == spec_digit(b, hex),
{
    if 0x30 <= b && b <= 0x39 {
        Some((b - 0x30) as u32)
    } else if hex && 0x61 <= b && b <= 0x66 {
        Some((b - 0x61 + 10) as u32)
    } else if hex && 0x41 <= b && b <= 0x46 {
        Some((b - 0x41 + 10) as u32)
    } else {
        None
    }
}

/// Parses the digits of `b` from `start` on, in the given base, failing
/// on an empty string, a non-digit, or a value over 32 bits.
fn parse_digits(b: &[u8], start: usize, hex: bool) -> (r: Option<u32>)
    requires
        start <= b@.len(),
    ensures
        r == spec_digits_u32(b@.skip(start as int), hex),
{
    let ghost t = b@.skip(start as int);
    if start == b.len() {
        return None;
    }
    let base: u32 = if hex {
        16
    } else {
        10
    };
    let mut acc: u32 = 0;
    let mut j = start;
    while j < b.len()
        invariant
            start <= j <= b@.len(),
            t == b@.skip(start as int),
            hex ==> base == 16,
            !hex ==> base == 10,
            forall|i: int|
                0 <= i < j - start ==> (#[trigger] spec_digit(t[i], hex)) is Some,
            acc == spec_digits_value(t.take(j - start), hex),
        decreases b@.len() - j,
    {
        proof {
            assert(t[j - start] == b@[j as int]);
        }
        let d = match digit_value(b[j], hex) {
            Some(d) => d,
            None => {
                proof {
                    assert(!spec_is_digits(t, hex));
                }
                return None;
            },
        };
        let next = match acc.checked_mul(base) {
            Some(x) => x.checked_add(d),
            None => None,
        };
        proof {
            assert(t.take(j - start + 1).drop_last() =~= t.take(j - start));
            assert(t.take(j - start + 1).last() == t[j - start]);
        }
        acc = match next {
            Some(x) => x,
            None => {
                proof {
                    // The value of the digits seen so far already exceeds 32
                    // bits, so the value of the whole string does too.
                    lemma_digits_value_prefix_monotone(t, hex, j - start + 1);
                }
                return None;
            },
        };
        j = j + 1;
    }
    proof {
        assert(t.take(t.len() as int) =~= t);
    }
    Some(acc)
}

/// Parses an unsigned 32-bit value: an optional plus sign, then digits.
fn parse_u32_digits(b: &[u8], start: usize, hex: bool) -> (r: Option<u32>)
    requires
        start <= b@.len(),
    ensures
        r == spec_parse_u32(b@.skip(start as int), hex),
{
    let ghost s = b@.skip(start as int);
    if start < b.len() && b[start] == PLUS {
        proof {
            assert(spec_strip_plus(s) =~= b@.skip(start + 1));
        }
        parse_digits(b, start + 1, hex)
    } else {
        proof {
            assert(spec_strip_plus(s) =~= s);
        }
        parse_digits(b, start, hex)
    }
}

/// Parses a signed 32-bit decimal value and wraps it into the unsigned
/// word it casts to.
fn parse_i32_wrapped(b: &[u8]) -> (r: Option<u32>)
    ensures
        r == spec_parse_i32_wrapped(b@),
{
    if b.len() > 0 && b[0] == MINUS {
        proof {
            assert(b@.skip(0int).skip(1) =~= b@.skip(1));
        }
        match parse_digits(b, 1, false) {
            Some(v) => {
                if v <= 0x8000_0000 {
                    let r: u32 = if v == 0 {
                        0
                    } else {
                        0xFFFF_FFFF - v + 1
                    };
                    proof {
                        if v > 0 {
                            assert((0x1_0000_0000 - v) % 0x1_0000_0000 == 0x1_0000_0000 - v) by (
                            nonlinear_arith)
                                requires
                                    0 < v <= 0x8000_0000,
                            ;
                        }
                    }
                    Some(r)
                } else {
                    None
                }
            },
            None => None,
        }
    } else {
        match parse_u32_digits(b, 0, false) {
            Some(v) => {
                proof {
                    assert(b@.skip(0int) =~= b@);
                }
                if v <= 0x7FFF_FFFF {
                    Some(v)
                } else {
                    None
                }
            },
            None => {
                proof {
                    assert(b@.skip(0int) =~= b@);
                }
                None
            },
        }
    }
}

/// Parses one diagnostic argument as a 32-bit status word.
///
/// A `0x` or `x` prefix forces hex.  Otherwise the argument is first
/// parsed as unsigned decimal, then as signed decimal wrapped into the
/// unsigned word, and finally as bare hex.
pub fn parse_arg(arg: &str) -> (r: Option<u32>)
    ensures
        r == spec_parse_arg(arg.spec_bytes()),
{
    let b = arg.as_bytes();
    proof {
        assert(b@.skip(0int) =~= b@);
    }
    if b.len() >= 2 && b[0] == 0x30 && b[1] == 0x78 {
        parse_u32_digits(b, 2, true)
    } else if b.len() >= 1 && b[0] == 0x78 {
        parse_u32_digits(b, 1, true)
    } else {
        match parse_u32_digits(b, 0, false) {
            Some(v) => Some(v),
            None => match parse_i32_wrapped(b) {
                Some(v) => Some(v),
                None => parse_u32_digits(b, 0, true),
            },
        }
    }
}

} // verus!
