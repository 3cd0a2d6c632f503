//! Lowercase hex rendering, for diagnostics and debug prints.

use vstd::prelude::*;

verus! {

/// The lowercase hex digit naming a nibble.
pub open spec fn spec_hex_digit(n: u8) -> char {
    match n {
        0u8 => '0',
        1u8 => '1',
        2u8 => '2',
        3u8 => '3',
        4u8 => '4',
        5u8 => '5',
        6u8 => '6',
        7u8 => '7',
        8u8 => '8',
        9u8 => '9',
        10u8 => 'a',
        11u8 => 'b',
        12u8 => 'c',
        13u8 => 'd',
        14u8 => 'e',
        _ => 'f',
    }
}

/// The hex rendering of a byte sequence: two lowercase digits per byte,
/// high nibble first.
pub open spec fn spec_hex_of(s: Seq<u8>) -> Seq<char>
    decreases s.len(),
{
    if s.len() == 0 {
        Seq::empty()
    } else {
        spec_hex_of(s.drop_last()) + seq![
            spec_hex_digit((s.last() / 16) as u8),
            spec_hex_digit((s.last() % 16) as u8),
        ]
    }
}

/// The minimal hex rendering of a 32-bit value, most significant digit
/// first, without leading zeros (a lone `0` for zero).
pub open spec fn spec_hex_u32(v: u32) -> Seq<char>
    decreases v,
{
    if v < 16 {
        seq![spec_hex_digit(v as u8)]
    } else {
        spec_hex_u32(v / 16) + seq![spec_hex_digit((v % 16) as u8)]
    }
}

/// The one-character string naming a nibble.
pub(crate) fn hex_digit(n: u8) -> (r: &'static str)
    requires
        n < 16,
    ensures
        r@ == seq![spec_hex_digit(n)],
{
    let r = match n {
        0u8 => "0",
        1u8 => "1",
        2u8 => "2",
        3u8 => "3",
        4u8 => "4",
        5u8 => "5",
        6u8 => "6",
        7u8 => "7",
        8u8 => "8",
        9u8 => "9",
        10u8 => "a",
        11u8 => "b",
        12u8 => "c",
        13u8 => "d",
        14u8 => "e",
        _ => "f",
    };
    proof {
        reveal_strlit("0");
        reveal_strlit("1");
        reveal_strlit("2");
        reveal_strlit("3");
        reveal_strlit("4");
        reveal_strlit("5");
        reveal_strlit("6");
        reveal_strlit("7");
        reveal_strlit("8");
        reveal_strlit("9");
        reveal_strlit("a");
        reveal_strlit("b");
        reveal_strlit("c");
        reveal_strlit("d");
        reveal_strlit("e");
        reveal_strlit("f");
        assert(r@ =~= seq![spec_hex_digit(n)]);
    }
    r
}

/// Converts the given byte array into a hex string (intended for debug
/// prints).
pub fn bytes_to_hex(bytes: &[u8]) -> (out: String)
    ensures
        out@ == spec_hex_of(bytes@),
        out@.len() == 2 * bytes@.len(),
{
    let mut out = String::new();
    let mut i: usize = 0;
    while i < bytes.len()
        invariant
            i <= bytes@.len(),
            out@ == spec_hex_of(bytes@.take(i as int)),
            out@.len() == 2 * i,
        decreases bytes@.len() - i,
    {
        let b = bytes[i];
        proof {
            assert(b / 16 < 16 && b % 16 < 16) by (bit_vector);
            assert(bytes@.take(i + 1).drop_last() =~= bytes@.take(i as int));
            assert(bytes@.take(i + 1).last() == b);
        }
        out.append(hex_digit(b / 16));
        out.append(hex_digit(b % 16));
        i = i + 1;
        proof {
            assert(out@ =~= spec_hex_of(bytes@.take(i as int)));
        }
    }
    proof {
        assert(bytes@.take(bytes@.len() as int) =~= bytes@);
    }
    out
}

/// Renders a 32-bit value as minimal lowercase hex digits.
pub fn hex_u32(v: u32) -> (out: String)
    ensures
        out@ == spec_hex_u32(v),
    decreases v,
{
    if v < 16 {
        String::from_str(hex_digit(v as u8))
    } else {
        let mut out = hex_u32(v / 16);
        out.append(hex_digit((v % 16) as u8));
        out
    }
}

} // verus!
