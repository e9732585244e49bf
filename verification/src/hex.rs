//! Hexadecimal text framing for the stanza arguments.
//!
//! Encoding always produces lower-case digits; decoding accepts either case,
//! and rejects odd lengths and non-hex bytes as wire-format errors, kept
//! distinct from any cryptographic failure.

use vstd::prelude::*;

use crate::agile::AgileHpkeError;

verus! {

/// The lower-case hex digit for a nibble.
pub open spec fn spec_hex_digit(n: int) -> u8
    recommends
        0 <= n < 16,
{
    if n < 10 {
        (0x30 + n) as u8
    } else {
        (0x57 + n) as u8
    }
}

/// The lower-case hex text for a byte string: two digits per byte, high
/// nibble first.
pub open spec fn spec_hex_encode(data: Seq<u8>) -> Seq<u8> {
    Seq::new(
        data.len() * 2,
        |i: int|
            if i % 2 == 0 {
                spec_hex_digit((data[i / 2] as int) / 16)
            } else {
                spec_hex_digit((data[i / 2] as int) % 16)
            },
    )
}

/// Whether a byte is a hex digit, upper or lower case.
pub open spec fn spec_is_hex_digit(c: u8) -> bool {
    (0x30 <= c <= 0x39) || (0x61 <= c <= 0x66) || (0x41 <= c <= 0x46)
}

/// The value of a hex digit.
pub open spec fn spec_hex_val(c: u8) -> int
    recommends
        spec_is_hex_digit(c),
{
    if 0x30 <= c <= 0x39 {
        c - 0x30
    } else if 0x61 <= c <= 0x66 {
        c - 0x57
    } else {
        c - 0x37
    }
}

/// Whether a byte string is well-formed hex text: even length, hex digits
/// throughout.
pub open spec fn spec_hex_valid(s: Seq<u8>) -> bool {
    s.len() % 2 == 0 && (forall|i: int| 0 <= i < s.len() ==> spec_is_hex_digit(s[i]))
}

/// The bytes a well-formed hex text stands for.
pub open spec fn spec_hex_decode(s: Seq<u8>) -> Seq<u8>
    recommends
        spec_hex_valid(s),
{
    Seq::new(s.len() / 2, |i: int| (spec_hex_val(s[2 * i]) * 16 + spec_hex_val(s[2 * i + 1])) as u8)
}

/// Encoding a nibble gives a digit that decodes back to it.
proof fn lemma_hex_digit_val(n: int)
    requires
        0 <= n < 16,
    ensures
        spec_is_hex_digit(spec_hex_digit(n)),
        spec_hex_val(spec_hex_digit(n)) == n,
{
}

/// Hex encoding round-trips: the text it produces is well-formed and decodes
/// to the original bytes, whatever they are.
pub proof fn lemma_hex_round_trip(data: Seq<u8>)
    ensures
        spec_hex_valid(spec_hex_encode(data)),
        spec_hex_decode(spec_hex_encode(data)) == data,
{
    let e = spec_hex_encode(data);
    assert forall|i: int| 0 <= i < e.len() implies spec_is_hex_digit(e[i]) by {
        let b = data[i / 2] as int;
        assert(0 <= b < 256);
        assert(0 <= b / 16 < 16);
        assert(0 <= b % 16 < 16);
        if i % 2 == 0 {
            lemma_hex_digit_val(b / 16);
        } else {
            lemma_hex_digit_val(b % 16);
        }
    }
    assert forall|i: int| 0 <= i < data.len() implies spec_hex_decode(e)[i] == data[i] by {
        let b = data[i] as int;
        assert(e[2 * i] == spec_hex_digit(b / 16));
        assert(e[2 * i + 1] == spec_hex_digit(b % 16));
        lemma_hex_digit_val(b / 16);
        lemma_hex_digit_val(b % 16);
        vstd::arithmetic::div_mod::lemma_fundamental_div_mod(b, 16);
    }
    assert(spec_hex_decode(e) =~= data);
}

/// Encodes bytes as lower-case hex text.
pub fn hex_encode(data: &[u8]) -> (r: Vec<u8>)
    ensures
        r@ == spec_hex_encode(data@),
{
    let mut out: Vec<u8> = Vec::new();
    let mut i: usize = 0;
    while i < data.len()
        invariant
            i <= data@.len(),
            out@ == spec_hex_encode(data@.subrange(0, i as int)),
        decreases data@.len() - i,
    {
        let b = data[i];
        let hi = b / 16;
        let lo = b % 16;
        let hc: u8 = if hi < 10 {
            0x30 + hi
        } else {
            0x57 + hi
        };
        let lc: u8 = if lo < 10 {
            0x30 + lo
        } else {
            0x57 + lo
        };
        out.push(hc);
        out.push(lc);
        i = i + 1;
        proof {
            assert(out@ =~= spec_hex_encode(data@.subrange(0, i as int)));
        }
    }
    proof {
        assert(data@.subrange(0, data@.len() as int) == data@);
    }
    out
}

/// The value of one hex digit byte, either case; `None` on anything else.
fn hex_val(c: u8) -> (r: Option<u8>)
    ensures
        r is Some <==> spec_is_hex_digit(c),
        r matches Some(v) ==> v == spec_hex_val(c) && v < 16,
{
    if 0x30 <= c && c <= 0x39 {
        Some(c - 0x30)
    } else if 0x61 <= c && c <= 0x66 {
        Some(c - 0x57)
    } else if 0x41 <= c && c <= 0x46 {
        Some(c - 0x37)
    } else {
        None
    }
}

/// Decodes hex text back into bytes. Odd lengths and non-hex bytes are
/// wire-format errors, never a panic and never confused with an
/// authentication failure.
pub fn hex_decode(s: &[u8]) -> (r: Result<Vec<u8>, AgileHpkeError>)
    ensures
        r is Ok <==> spec_hex_valid(s@),
        r matches Ok(v) ==> v@ == spec_hex_decode(s@),
        r matches Err(e) ==> e == AgileHpkeError::FormatError,
{
    if s.len() % 2 != 0 {
        return Err(AgileHpkeError::FormatError);
    }
    let mut out: Vec<u8> = Vec::new();
    let mut i: usize = 0;
    while i < s.len()
        invariant
            i % 2 == 0,
            i <= s@.len(),
            s@.len() % 2 == 0,
            forall|j: int| 0 <= j < i ==> spec_is_hex_digit(s@[j]),
            out@ == spec_hex_decode(s@.subrange(0, i as int)),
        decreases s@.len() - i,
    {
        let hi = match hex_val(s[i]) {
            Some(v) => v,
            None => {
                return Err(AgileHpkeError::FormatError);
            },
        };
        let lo = match hex_val(s[i + 1]) {
            Some(v) => v,
            None => {
                return Err(AgileHpkeError::FormatError);
            },
        };
        out.push(hi * 16 + lo);
        i = i + 2;
        proof {
            assert(out@ =~= spec_hex_decode(s@.subrange(0, i as int)));
        }
    }
    proof {
        assert(s@.subrange(0, s@.len() as int) == s@);
    }
    Ok(out)
}

} // verus!
