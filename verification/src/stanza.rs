//! The stanza wire codec.
//!
//! One wrapped-key record on the wire: a type tag, exactly three hex-text
//! arguments — associated data, encapsulated key, authentication tag — and a
//! raw ciphertext body. Any other argument count, or text that is not hex,
//! is a wire-format error, distinct from every cryptographic failure.

use vstd::prelude::*;

use crate::agile::AgileHpkeError;
use crate::hex::{
    hex_decode, hex_encode, lemma_hex_round_trip, spec_hex_decode, spec_hex_encode, spec_hex_valid,
};

verus! {

/// A self-describing wire record: tag, ordered text arguments, binary body.
#[derive(Debug, Clone, PartialEq, Eq)]
pub struct Stanza {
    pub tag: Vec<u8>,
    pub args: Vec<Vec<u8>>,
    pub body: Vec<u8>,
}

/// The type tag of this scheme's stanzas: the ASCII bytes of "hpke".
pub open spec fn spec_stanza_tag() -> Seq<u8> {
    seq![0x68u8, 0x70u8, 0x6bu8, 0x65u8]
}

/// A decodable stanza: exactly three arguments, each well-formed hex text.
pub open spec fn spec_stanza_wellformed(s: Stanza) -> bool {
    &&& s.args@.len() == 3
    &&& spec_hex_valid(s.args@[0]@)
    &&& spec_hex_valid(s.args@[1]@)
    &&& spec_hex_valid(s.args@[2]@)
}

/// The four fields a well-formed stanza carries: associated data,
/// encapsulated key, authentication tag, ciphertext body.
pub open spec fn spec_stanza_fields(s: Stanza) -> (Seq<u8>, Seq<u8>, Seq<u8>, Seq<u8>)
    recommends
        spec_stanza_wellformed(s),
{
    (
        spec_hex_decode(s.args@[0]@),
        spec_hex_decode(s.args@[1]@),
        spec_hex_decode(s.args@[2]@),
        s.body@,
    )
}

/// The ASCII bytes of "hpke" as a vector.
pub fn stanza_tag() -> (r: Vec<u8>)
    ensures
        r@ == spec_stanza_tag(),
{
    let mut t: Vec<u8> = Vec::new();
    t.push(0x68);
    t.push(0x70);
    t.push(0x6b);
    t.push(0x65);
    proof {
        assert(t@ =~= spec_stanza_tag());
    }
    t
}

/// Renders the three public fields as hex text and the ciphertext as the raw
/// body, under this scheme's tag.
pub fn encode_stanza(
    associated_data: &[u8],
    encapped_key: &[u8],
    tag: &[u8],
    ciphertext: &[u8],
) -> (r: Stanza)
    ensures
        r.tag@ == spec_stanza_tag(),
        r.args@.len() == 3,
        r.args@[0]@ == spec_hex_encode(associated_data@),
        r.args@[1]@ == spec_hex_encode(encapped_key@),
        r.args@[2]@ == spec_hex_encode(tag@),
        r.body@ == ciphertext@,
{
    let mut args: Vec<Vec<u8>> = Vec::new();
    args.push(hex_encode(associated_data));
    args.push(hex_encode(encapped_key));
    args.push(hex_encode(tag));
    Stanza { tag: stanza_tag(), args, body: vstd::slice::slice_to_vec(ciphertext) }
}

/// Parses a stanza back into its four fields. A wrong argument count or
/// non-hex text is a wire-format error, never a panic; the tag is the
/// caller's concern.
pub fn decode_stanza(s: &Stanza) -> (r: Result<(Vec<u8>, Vec<u8>, Vec<u8>, Vec<u8>), AgileHpkeError>)
    ensures
        r is Ok <==> spec_stanza_wellformed(*s),
        r matches Ok(t) ==> (t.0@, t.1@, t.2@, t.3@) == spec_stanza_fields(*s),
        r matches Err(e) ==> e == AgileHpkeError::FormatError,
{
    if s.args.len() != 3 {
        return Err(AgileHpkeError::FormatError);
    }
    let associated_data = match hex_decode(s.args[0].as_slice()) {
        Ok(v) => v,
        Err(e) => {
            return Err(e);
        },
    };
    let encapped_key = match hex_decode(s.args[1].as_slice()) {
        Ok(v) => v,
        Err(e) => {
            return Err(e);
        },
    };
    let tag = match hex_decode(s.args[2].as_slice()) {
        Ok(v) => v,
        Err(e) => {
            return Err(e);
        },
    };
    Ok((associated_data, encapped_key, tag, vstd::slice::slice_to_vec(s.body.as_slice())))
}

/// The stanza codec round-trips: a stanza whose arguments are the hex
/// encodings of arbitrary byte strings is well-formed, and decodes to
/// exactly those byte strings and its body.
pub proof fn lemma_stanza_round_trip(
    st: Stanza,
    associated_data: Seq<u8>,
    encapped_key: Seq<u8>,
    tag: Seq<u8>,
    ciphertext: Seq<u8>,
)
    requires
        st.args@.len() == 3,
        st.args@[0]@ == spec_hex_encode(associated_data),
        st.args@[1]@ == spec_hex_encode(encapped_key),
        st.args@[2]@ == spec_hex_encode(tag),
        st.body@ == ciphertext,
    ensures
        spec_stanza_wellformed(st),
        spec_stanza_fields(st) == (associated_data, encapped_key, tag, ciphertext),
{
    lemma_hex_round_trip(associated_data);
    lemma_hex_round_trip(encapped_key);
    lemma_hex_round_trip(tag);
}

} // verus!
