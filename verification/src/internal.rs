//! Identities and recipients: the persisted key records and the plugin-side
//! wrap/unwrap flows built on them.
//!
//! The persisted encoding is a length-delimited structure. An identity is
//! {KEM id, AEAD id, KDF id, private-key bytes}; a recipient is {KEM id,
//! AEAD id, KDF id, public-key bytes, associated-data bytes}. Algorithm IDs
//! are two bytes little-endian, each byte string is preceded by its
//! eight-byte little-endian length, and a buffer is rejected unless it is
//! consumed exactly: truncated or extended input never decodes.

use vstd::prelude::*;

use crate::agile::{
    spec_aead_from_id, spec_aead_id, spec_kdf_from_id, spec_kdf_id, spec_kem_from_id, spec_kem_id,
    AgileEncappedKey, AgileHpkeError, AgileKeypair, AgileOpModeR, AgileOpModeRTy, AgileOpModeS,
    AgileOpModeSTy, AgilePrivateKey, AgilePublicKey, AeadAlg, AlgKind, KdfAlg, KemAlg,
};
use crate::dispatch::{agile_setup_receiver, agile_setup_sender, spec_sender_checks};
use crate::hex::spec_hex_encode;
use crate::stanza::{decode_stanza, encode_stanza, spec_stanza_tag, spec_stanza_wellformed, Stanza};
use crate::util::bytes_eq;
use rand::rngs::StdRng;
use vstd::bytes::{
    lemma_auto_spec_u16_to_from_le_bytes, lemma_auto_spec_u64_to_from_le_bytes,
    spec_u16_from_le_bytes, spec_u16_to_le_bytes, spec_u64_from_le_bytes, spec_u64_to_le_bytes,
    u16_from_le_bytes, u16_to_le_bytes, u64_from_le_bytes, u64_to_le_bytes,
};

verus! {

/// A byte string framed by its eight-byte little-endian length.
pub open spec fn spec_len_prefixed(b: Seq<u8>) -> Seq<u8> {
    spec_u64_to_le_bytes(b.len() as u64) + b
}

/// The two-byte little-endian field at offset `k`.
pub open spec fn spec_id_at(data: Seq<u8>, k: int) -> u16 {
    spec_u16_from_le_bytes(data.subrange(k, k + 2))
}

/// The persisted bytes of an identity: the three algorithm IDs, then the
/// length-framed private key.
pub open spec fn spec_identity_bytes(kem: KemAlg, aead: AeadAlg, kdf: KdfAlg, sk: Seq<u8>) -> Seq<
    u8,
> {
    spec_u16_to_le_bytes(spec_kem_id(kem)) + spec_u16_to_le_bytes(spec_aead_id(aead))
        + spec_u16_to_le_bytes(spec_kdf_id(kdf)) + spec_len_prefixed(sk)
}

/// What parsing identity bytes yields: the three algorithms and the
/// private-key bytes, or the first error in parse order — a buffer too short
/// for the header, an unregistered algorithm ID, or a length field that does
/// not match what is left.
pub open spec fn spec_parse_identity(data: Seq<u8>) -> Result<
    (KemAlg, AeadAlg, KdfAlg, Seq<u8>),
    AgileHpkeError,
> {
    if data.len() < 6 {
        Err(AgileHpkeError::FormatError)
    } else {
        match spec_kem_from_id(spec_id_at(data, 0)) {
            None => Err(AgileHpkeError::UnknownAlgIdent(AlgKind::Kem, spec_id_at(data, 0))),
            Some(kem) => match spec_aead_from_id(spec_id_at(data, 2)) {
                None => Err(AgileHpkeError::UnknownAlgIdent(AlgKind::Aead, spec_id_at(data, 2))),
                Some(aead) => match spec_kdf_from_id(spec_id_at(data, 4)) {
                    None => Err(
                        AgileHpkeError::UnknownAlgIdent(AlgKind::Kdf, spec_id_at(data, 4)),
                    ),
                    Some(kdf) => if data.len() < 14 {
                        Err(AgileHpkeError::FormatError)
                    } else if spec_u64_from_le_bytes(data.subrange(6, 14)) != data.len() - 14 {
                        Err(AgileHpkeError::FormatError)
                    } else {
                        Ok((kem, aead, kdf, data.subrange(14, data.len() as int)))
                    },
                },
            },
        }
    }
}

/// Identity encoding round-trips: what `spec_identity_bytes` produces parses
/// back to exactly the encoded fields, for every private key that fits in
/// memory.
pub proof fn lemma_identity_round_trip(kem: KemAlg, aead: AeadAlg, kdf: KdfAlg, sk: Seq<u8>)
    requires
        sk.len() <= u64::MAX,
    ensures
        spec_parse_identity(spec_identity_bytes(kem, aead, kdf, sk)) == Ok::<
            (KemAlg, AeadAlg, KdfAlg, Seq<u8>),
            AgileHpkeError,
        >((kem, aead, kdf, sk)),
{
    lemma_auto_spec_u16_to_from_le_bytes();
    lemma_auto_spec_u64_to_from_le_bytes();
    let data = spec_identity_bytes(kem, aead, kdf, sk);
    assert(data.len() == 14 + sk.len());
    assert(data.subrange(0, 2) =~= spec_u16_to_le_bytes(spec_kem_id(kem)));
    assert(data.subrange(2, 4) =~= spec_u16_to_le_bytes(spec_aead_id(aead)));
    assert(data.subrange(4, 6) =~= spec_u16_to_le_bytes(spec_kdf_id(kdf)));
    assert(data.subrange(6, 14) =~= spec_u64_to_le_bytes(sk.len() as u64));
    assert(data.subrange(14, data.len() as int) =~= sk);
}

/// Whatever parses as an identity is a canonical encoding of what it parsed
/// to: there is no slack, so a truncated or extended buffer never parses.
pub proof fn lemma_identity_parse_exact(data: Seq<u8>)
    requires
        spec_parse_identity(data) is Ok,
    ensures
        ({
            let f = spec_parse_identity(data)->Ok_0;
            data == spec_identity_bytes(f.0, f.1, f.2, f.3)
        }),
{
    lemma_auto_spec_u16_to_from_le_bytes();
    lemma_auto_spec_u64_to_from_le_bytes();
    let f = spec_parse_identity(data)->Ok_0;
    let e = spec_identity_bytes(f.0, f.1, f.2, f.3);
    assert(spec_u16_to_le_bytes(spec_kem_id(f.0)) =~= data.subrange(0, 2));
    assert(spec_u16_to_le_bytes(spec_aead_id(f.1)) =~= data.subrange(2, 4));
    assert(spec_u16_to_le_bytes(spec_kdf_id(f.2)) =~= data.subrange(4, 6));
    assert(spec_u64_to_le_bytes(f.3.len() as u64) =~= data.subrange(6, 14));
    assert(e =~= data);
}

/// The persisted bytes of a recipient: the three algorithm IDs, then the
/// length-framed public key and associated data.
pub open spec fn spec_recipient_bytes(
    kem: KemAlg,
    aead: AeadAlg,
    kdf: KdfAlg,
    pk: Seq<u8>,
    ad: Seq<u8>,
) -> Seq<u8> {
    spec_u16_to_le_bytes(spec_kem_id(kem)) + spec_u16_to_le_bytes(spec_aead_id(aead))
        + spec_u16_to_le_bytes(spec_kdf_id(kdf)) + spec_len_prefixed(pk) + spec_len_prefixed(ad)
}

/// What parsing recipient bytes yields: the three algorithms, the public-key
/// bytes and the associated data, or the first error in parse order.
pub open spec fn spec_parse_recipient(data: Seq<u8>) -> Result<
    (KemAlg, AeadAlg, KdfAlg, Seq<u8>, Seq<u8>),
    AgileHpkeError,
> {
    if data.len() < 6 {
        Err(AgileHpkeError::FormatError)
    } else {
        match spec_kem_from_id(spec_id_at(data, 0)) {
            None => Err(AgileHpkeError::UnknownAlgIdent(AlgKind::Kem, spec_id_at(data, 0))),
            Some(kem) => match spec_aead_from_id(spec_id_at(data, 2)) {
                None => Err(AgileHpkeError::UnknownAlgIdent(AlgKind::Aead, spec_id_at(data, 2))),
                Some(aead) => match spec_kdf_from_id(spec_id_at(data, 4)) {
                    None => Err(
                        AgileHpkeError::UnknownAlgIdent(AlgKind::Kdf, spec_id_at(data, 4)),
                    ),
                    Some(kdf) => if data.len() < 14 {
                        Err(AgileHpkeError::FormatError)
                    } else {
                        let pk_len = spec_u64_from_le_bytes(data.subrange(6, 14)) as int;
                        if data.len() < 22 + pk_len {
                            Err(AgileHpkeError::FormatError)
                        } else {
                            let ad_len = spec_u64_from_le_bytes(
                                data.subrange(14 + pk_len, 22 + pk_len),
                            ) as int;
                            if ad_len != data.len() - 22 - pk_len {
                                Err(AgileHpkeError::FormatError)
                            } else {
                                Ok(
                                    (
                                        kem,
                                        aead,
                                        kdf,
                                        data.subrange(14, 14 + pk_len),
                                        data.subrange(22 + pk_len, data.len() as int),
                                    ),
                                )
                            }
                        }
                    },
                },
            },
        }
    }
}

/// Recipient encoding round-trips: what `spec_recipient_bytes` produces
/// parses back to exactly the encoded fields.
pub proof fn lemma_recipient_round_trip(
    kem: KemAlg,
    aead: AeadAlg,
    kdf: KdfAlg,
    pk: Seq<u8>,
    ad: Seq<u8>,
)
    requires
        pk.len() <= u64::MAX,
        ad.len() <= u64::MAX,
    ensures
        spec_parse_recipient(spec_recipient_bytes(kem, aead, kdf, pk, ad)) == Ok::<
            (KemAlg, AeadAlg, KdfAlg, Seq<u8>, Seq<u8>),
            AgileHpkeError,
        >((kem, aead, kdf, pk, ad)),
{
    lemma_auto_spec_u16_to_from_le_bytes();
    lemma_auto_spec_u64_to_from_le_bytes();
    let data = spec_recipient_bytes(kem, aead, kdf, pk, ad);
    let n = pk.len() as int;
    assert(data.len() == 22 + pk.len() + ad.len());
    assert(data.subrange(0, 2) =~= spec_u16_to_le_bytes(spec_kem_id(kem)));
    assert(data.subrange(2, 4) =~= spec_u16_to_le_bytes(spec_aead_id(aead)));
    assert(data.subrange(4, 6) =~= spec_u16_to_le_bytes(spec_kdf_id(kdf)));
    assert(data.subrange(6, 14) =~= spec_u64_to_le_bytes(pk.len() as u64));
    assert(data.subrange(14, 14 + n) =~= pk);
    assert(data.subrange(14 + n, 22 + n) =~= spec_u64_to_le_bytes(ad.len() as u64));
    assert(data.subrange(22 + n, data.len() as int) =~= ad);
}

/// Whatever parses as a recipient is a canonical encoding of what it parsed
/// to: a truncated or extended buffer never parses.
pub proof fn lemma_recipient_parse_exact(data: Seq<u8>)
    requires
        spec_parse_recipient(data) is Ok,
    ensures
        ({
            let f = spec_parse_recipient(data)->Ok_0;
            data == spec_recipient_bytes(f.0, f.1, f.2, f.3, f.4)
        }),
{
    lemma_auto_spec_u16_to_from_le_bytes();
    lemma_auto_spec_u64_to_from_le_bytes();
    let f = spec_parse_recipient(data)->Ok_0;
    let e = spec_recipient_bytes(f.0, f.1, f.2, f.3, f.4);
    let n = f.3.len() as int;
    assert(spec_u16_to_le_bytes(spec_kem_id(f.0)) =~= data.subrange(0, 2));
    assert(spec_u16_to_le_bytes(spec_aead_id(f.1)) =~= data.subrange(2, 4));
    assert(spec_u16_to_le_bytes(spec_kdf_id(f.2)) =~= data.subrange(4, 6));
    assert(spec_u64_to_le_bytes(f.3.len() as u64) =~= data.subrange(6, 14));
    assert(spec_u64_to_le_bytes(f.4.len() as u64) =~= data.subrange(14 + n, 22 + n));
    assert(e =~= data);
}

/// The name this plugin registers under: the ASCII bytes of "hpke".
pub open spec fn spec_plugin_name() -> Seq<u8> {
    seq![0x68u8, 0x70u8, 0x6bu8, 0x65u8]
}

/// The ASCII bytes of "hpke" as a vector.
pub fn plugin_name() -> (r: Vec<u8>)
    ensures
        r@ == spec_plugin_name(),
{
    let mut t: Vec<u8> = Vec::new();
    t.push(0x68);
    t.push(0x70);
    t.push(0x6b);
    t.push(0x65);
    proof {
        assert(t@ =~= spec_plugin_name());
    }
    t
}

/// The HPKE info string bound into every exchange of this scheme: the ASCII
/// bytes of "age-plugin-hpke".
pub open spec fn spec_info_str() -> Seq<u8> {
    seq![
        0x61u8,
        0x67u8,
        0x65u8,
        0x2du8,
        0x70u8,
        0x6cu8,
        0x75u8,
        0x67u8,
        0x69u8,
        0x6eu8,
        0x2du8,
        0x68u8,
        0x70u8,
        0x6bu8,
        0x65u8,
    ]
}

/// The ASCII bytes of "age-plugin-hpke" as a vector.
pub fn info_str() -> (r: Vec<u8>)
    ensures
        r@ == spec_info_str(),
{
    let mut t: Vec<u8> = Vec::new();
    t.push(0x61);
    t.push(0x67);
    t.push(0x65);
    t.push(0x2d);
    t.push(0x70);
    t.push(0x6c);
    t.push(0x75);
    t.push(0x67);
    t.push(0x69);
    t.push(0x6e);
    t.push(0x2d);
    t.push(0x68);
    t.push(0x70);
    t.push(0x6b);
    t.push(0x65);
    proof {
        assert(t@ =~= spec_info_str());
    }
    t
}

/// A persisted identity: the algorithm triple it was created for and the
/// tagged private key.
#[derive(Debug, Clone, PartialEq, Eq)]
pub struct Identity {
    pub kem: KemAlg,
    pub aead: AeadAlg,
    pub kdf: KdfAlg,
    pub private_key: AgilePrivateKey,
}

impl Identity {
    pub fn new(kem: KemAlg, aead: AeadAlg, kdf: KdfAlg, private_key: &AgilePrivateKey) -> (r: Self)
        ensures
            r.kem == kem,
            r.aead == aead,
            r.kdf == kdf,
            r.private_key.kem_alg == private_key.kem_alg,
            r.private_key.privkey_bytes@ == private_key.privkey_bytes@,
    {
        Identity {
            kem,
            aead,
            kdf,
            private_key: AgilePrivateKey {
                kem_alg: private_key.kem_alg,
                privkey_bytes: vstd::slice::slice_to_vec(private_key.privkey_bytes.as_slice()),
            },
        }
    }

    /// Serializes the identity into its persisted byte form.
    pub fn to_bytes(&self) -> (r: Vec<u8>)
        ensures
            r@ == spec_identity_bytes(
                self.kem,
                self.aead,
                self.kdf,
                self.private_key.privkey_bytes@,
            ),
    {
        let mut out = u16_to_le_bytes(self.kem.to_u16());
        let aead_b = u16_to_le_bytes(self.aead.to_u16());
        crate::util::vec_append(&mut out, aead_b.as_slice());
        let kdf_b = u16_to_le_bytes(self.kdf.to_u16());
        crate::util::vec_append(&mut out, kdf_b.as_slice());
        let len_b = u64_to_le_bytes(self.private_key.privkey_bytes.len() as u64);
        crate::util::vec_append(&mut out, len_b.as_slice());
        crate::util::vec_append(&mut out, self.private_key.privkey_bytes.as_slice());
        proof {
            assert(out@ =~= spec_identity_bytes(
                self.kem,
                self.aead,
                self.kdf,
                self.private_key.privkey_bytes@,
            ));
        }
        out
    }

    /// Parses an identity back from its persisted byte form; the private key
    /// comes back tagged with the decoded KEM. A buffer that is not consumed
    /// exactly is rejected.
    pub fn from_bytes(data: &[u8]) -> (r: Result<Identity, AgileHpkeError>)
        ensures
            match spec_parse_identity(data@) {
                Ok(f) => {
                    &&& r matches Ok(id)
                    &&& id.kem == f.0
                    &&& id.aead == f.1
                    &&& id.kdf == f.2
                    &&& id.private_key.kem_alg == f.0
                    &&& id.private_key.privkey_bytes@ == f.3
                },
                Err(e) => r == Err::<Identity, AgileHpkeError>(e),
            },
    {
        if data.len() < 6 {
            return Err(AgileHpkeError::FormatError);
        }
        let kem = match KemAlg::try_from_u16(u16_from_le_bytes(
            vstd::slice::slice_subrange(data, 0, 2),
        )) {
            Ok(a) => a,
            Err(e) => {
                return Err(e);
            },
        };
        let aead = match AeadAlg::try_from_u16(u16_from_le_bytes(
            vstd::slice::slice_subrange(data, 2, 4),
        )) {
            Ok(a) => a,
            Err(e) => {
                return Err(e);
            },
        };
        let kdf = match KdfAlg::try_from_u16(u16_from_le_bytes(
            vstd::slice::slice_subrange(data, 4, 6),
        )) {
            Ok(a) => a,
            Err(e) => {
                return Err(e);
            },
        };
        if data.len() < 14 {
            return Err(AgileHpkeError::FormatError);
        }
        let sk_len = u64_from_le_bytes(vstd::slice::slice_subrange(data, 6, 14));
        if sk_len != (data.len() - 14) as u64 {
            return Err(AgileHpkeError::FormatError);
        }
        let sk = vstd::slice::slice_to_vec(vstd::slice::slice_subrange(data, 14, data.len()));
        Ok(
            Identity {
                kem,
                aead,
                kdf,
                private_key: AgilePrivateKey { kem_alg: kem, privkey_bytes: sk },
            },
        )
    }
}

/// A persisted recipient: the algorithm triple, the tagged public key, and
/// the associated data that wrapping will authenticate.
#[derive(Debug, Clone, PartialEq, Eq)]
pub struct Recipient {
    pub kem: KemAlg,
    pub aead: AeadAlg,
    pub kdf: KdfAlg,
    pub public_key: AgilePublicKey,
    pub associated_data: Vec<u8>,
}

impl Recipient {
    pub fn new(
        kem: KemAlg,
        aead: AeadAlg,
        kdf: KdfAlg,
        public_key: &AgilePublicKey,
        associated_data: &[u8],
    ) -> (r: Self)
        ensures
            r.kem == kem,
            r.aead == aead,
            r.kdf == kdf,
            r.public_key.kem_alg == public_key.kem_alg,
            r.public_key.pubkey_bytes@ == public_key.pubkey_bytes@,
            r.associated_data@ == associated_data@,
    {
        Recipient {
            kem,
            aead,
            kdf,
            public_key: AgilePublicKey {
                kem_alg: public_key.kem_alg,
                pubkey_bytes: vstd::slice::slice_to_vec(public_key.pubkey_bytes.as_slice()),
            },
            associated_data: vstd::slice::slice_to_vec(associated_data),
        }
    }

    /// Serializes the recipient into its persisted byte form.
    pub fn to_bytes(&self) -> (r: Vec<u8>)
        ensures
            r@ == spec_recipient_bytes(
                self.kem,
                self.aead,
                self.kdf,
                self.public_key.pubkey_bytes@,
                self.associated_data@,
            ),
    {
        let mut out = u16_to_le_bytes(self.kem.to_u16());
        let aead_b = u16_to_le_bytes(self.aead.to_u16());
        crate::util::vec_append(&mut out, aead_b.as_slice());
        let kdf_b = u16_to_le_bytes(self.kdf.to_u16());
        crate::util::vec_append(&mut out, kdf_b.as_slice());
        let pk_len_b = u64_to_le_bytes(self.public_key.pubkey_bytes.len() as u64);
        crate::util::vec_append(&mut out, pk_len_b.as_slice());
        crate::util::vec_append(&mut out, self.public_key.pubkey_bytes.as_slice());
        let ad_len_b = u64_to_le_bytes(self.associated_data.len() as u64);
        crate::util::vec_append(&mut out, ad_len_b.as_slice());
        crate::util::vec_append(&mut out, self.associated_data.as_slice());
        proof {
            assert(out@ =~= spec_recipient_bytes(
                self.kem,
                self.aead,
                self.kdf,
                self.public_key.pubkey_bytes@,
                self.associated_data@,
            ));
        }
        out
    }

    /// Parses a recipient back from its persisted byte form; the public key
    /// comes back tagged with the decoded KEM. A buffer that is not consumed
    /// exactly is rejected.
    pub fn from_bytes(data: &[u8]) -> (r: Result<Recipient, AgileHpkeError>)
        ensures
            match spec_parse_recipient(data@) {
                Ok(f) => {
                    &&& r matches Ok(rec)
                    &&& rec.kem == f.0
                    &&& rec.aead == f.1
                    &&& rec.kdf == f.2
                    &&& rec.public_key.kem_alg == f.0
                    &&& rec.public_key.pubkey_bytes@ == f.3
                    &&& rec.associated_data@ == f.4
                },
                Err(e) => r == Err::<Recipient, AgileHpkeError>(e),
            },
    {
        if data.len() < 6 {
            return Err(AgileHpkeError::FormatError);
        }
        let kem = match KemAlg::try_from_u16(u16_from_le_bytes(
            vstd::slice::slice_subrange(data, 0, 2),
        )) {
            Ok(a) => a,
            Err(e) => {
                return Err(e);
            },
        };
        let aead = match AeadAlg::try_from_u16(u16_from_le_bytes(
            vstd::slice::slice_subrange(data, 2, 4),
        )) {
            Ok(a) => a,
            Err(e) => {
                return Err(e);
            },
        };
        let kdf = match KdfAlg::try_from_u16(u16_from_le_bytes(
            vstd::slice::slice_subrange(data, 4, 6),
        )) {
            Ok(a) => a,
            Err(e) => {
                return Err(e);
            },
        };
        if data.len() < 14 {
            return Err(AgileHpkeError::FormatError);
        }
        let pk_len = u64_from_le_bytes(vstd::slice::slice_subrange(data, 6, 14));
        if data.len() < 22 || pk_len > (data.len() - 22) as u64 {
            return Err(AgileHpkeError::FormatError);
        }
        let pk_end = 14 + (pk_len as usize);
        let pk = vstd::slice::slice_to_vec(vstd::slice::slice_subrange(data, 14, pk_end));
        let ad_len = u64_from_le_bytes(vstd::slice::slice_subrange(data, pk_end, pk_end + 8));
        if ad_len != (data.len() - pk_end - 8) as u64 {
            return Err(AgileHpkeError::FormatError);
        }
        let ad = vstd::slice::slice_to_vec(
            vstd::slice::slice_subrange(data, pk_end + 8, data.len()),
        );
        Ok(
            Recipient {
                kem,
                aead,
                kdf,
                public_key: AgilePublicKey { kem_alg: kem, pubkey_bytes: pk },
                associated_data: ad,
            },
        )
    }
}

/// How a file's unwrap entry relates to the file's first stanza that bears
/// this scheme's tag: such a stanza exists, and when it is malformed the
/// entry is exactly the wire-format error.
pub open spec fn spec_first_tagged_entry(
    stanzas: Seq<Stanza>,
    entry: Option<Result<Vec<u8>, AgileHpkeError>>,
) -> bool {
    exists|j: int|
        #![auto]
        {
            &&& 0 <= j < stanzas.len()
            &&& stanzas[j].tag@ == spec_stanza_tag()
            &&& forall|j2: int| 0 <= j2 < j ==> stanzas[j2].tag@ != spec_stanza_tag()
            &&& !spec_stanza_wellformed(stanzas[j]) ==> entry == Some(
                Err::<Vec<u8>, AgileHpkeError>(AgileHpkeError::FormatError),
            )
        }
}

/// The fixed shape of every stanza a recipient's wrapping produces: this
/// scheme's tag, exactly three arguments of which the first is the hex text
/// of that recipient's associated data, and a 16-byte ciphertext body.
pub open spec fn spec_wrapped_stanza_shape(st: Stanza, rec: Recipient) -> bool {
    &&& st.tag@ == spec_stanza_tag()
    &&& st.args@.len() == 3
    &&& st.args@[0]@ == spec_hex_encode(rec.associated_data@)
    &&& st.args@[2]@.len() == 32
    &&& st.body@.len() == 16
}

/// The sender mode a recipient wraps under: plain Base mode for its KEM.
pub open spec fn spec_base_mode_s(kem: KemAlg) -> AgileOpModeS {
    AgileOpModeS { kem_alg: kem, op_mode_ty: AgileOpModeSTy::Base }
}

/// The receiver mode an identity unwraps under: plain Base mode for its KEM.
pub open spec fn spec_base_mode_r(kem: KemAlg) -> AgileOpModeR {
    AgileOpModeR { kem_alg: kem, op_mode_ty: AgileOpModeRTy::Base }
}

impl Recipient {
    /// Wraps a 16-byte file key for this recipient: sets up a Base-mode
    /// sender exchange under the recipient's triple, seals the key with the
    /// recipient's associated data, and renders the stanza.
    pub fn wrap_file_key(&self, file_key: &[u8], csprng: &mut StdRng) -> (r: Result<
        Stanza,
        AgileHpkeError,
    >)
        requires
            file_key@.len() == 16,
        ensures
            r matches Ok(st) ==> {
                &&& st.tag@ == spec_stanza_tag()
                &&& st.args@.len() == 3
                &&& st.args@[0]@ == spec_hex_encode(self.associated_data@)
                &&& self.kem == KemAlg::X25519HkdfSha256 ==> st.args@[1]@.len() == 64
                &&& self.kem == KemAlg::DhP256HkdfSha256 ==> st.args@[1]@.len() == 130
                &&& st.args@[2]@.len() == 32
                &&& st.body@.len() == 16
            },
            spec_sender_checks(self.aead, self.kdf, self.kem, spec_base_mode_s(self.kem), self.public_key)
                matches Err(e) ==> r == Err::<Stanza, AgileHpkeError>(e),
            spec_sender_checks(self.aead, self.kdf, self.kem, spec_base_mode_s(self.kem), self.public_key)
                is Ok ==> (r matches Err(e) ==> (e == AgileHpkeError::InvalidKey || e
                == AgileHpkeError::SealError)),
    {
        let mode = AgileOpModeS { kem_alg: self.kem, op_mode_ty: AgileOpModeSTy::Base };
        let info = info_str();
        let (encapped, mut ctx) = match agile_setup_sender(
            self.aead,
            self.kdf,
            self.kem,
            &mode,
            &self.public_key,
            info.as_slice(),
            csprng,
        ) {
            Ok(p) => p,
            Err(e) => {
                return Err(e);
            },
        };
        let mut ciphertext = vstd::slice::slice_to_vec(file_key);
        let tag = match ctx.seal_in_place_detached(&mut ciphertext, self.associated_data.as_slice())
            {
            Ok(t) => t,
            Err(e) => {
                return Err(e);
            },
        };
        Ok(
            encode_stanza(
                self.associated_data.as_slice(),
                encapped.encapped_key_bytes.as_slice(),
                tag.as_slice(),
                ciphertext.as_slice(),
            ),
        )
    }
}

impl Identity {
    /// Tries to unwrap one stanza with this identity: `None` when the stanza
    /// carries another scheme's tag; otherwise the recovered 16-byte file
    /// key, a wire-format error, or the constant-shape authentication error.
    pub fn unwrap_stanza(&self, stanza: &Stanza) -> (r: Option<Result<Vec<u8>, AgileHpkeError>>)
        ensures
            r is None <==> stanza.tag@ != spec_stanza_tag(),
            r matches Some(p) ==> (p matches Ok(fk) ==> fk@.len() == 16),
            stanza.tag@ == spec_stanza_tag() && !spec_stanza_wellformed(*stanza) ==> r == Some(
                Err::<Vec<u8>, AgileHpkeError>(AgileHpkeError::FormatError),
            ),
    {
        let tag_bytes = crate::stanza::stanza_tag();
        if !bytes_eq(stanza.tag.as_slice(), tag_bytes.as_slice()) {
            return None;
        }
        let (associated_data, encapped_bytes, tag, mut ciphertext) = match decode_stanza(stanza) {
            Ok(t) => t,
            Err(e) => {
                return Some(Err(e));
            },
        };
        let pk = match self.private_key.to_pk() {
            Ok(p) => p,
            Err(e) => {
                return Some(Err(e));
            },
        };
        let sk = AgilePrivateKey {
            kem_alg: self.private_key.kem_alg,
            privkey_bytes: vstd::slice::slice_to_vec(self.private_key.privkey_bytes.as_slice()),
        };
        let keypair = AgileKeypair(sk, pk);
        let encapped = AgileEncappedKey { kem_alg: self.kem, encapped_key_bytes: encapped_bytes };
        let mode = AgileOpModeR { kem_alg: self.kem, op_mode_ty: AgileOpModeRTy::Base };
        let info = info_str();
        let mut ctx = match agile_setup_receiver(
            self.aead,
            self.kdf,
            self.kem,
            &mode,
            &keypair,
            &encapped,
            info.as_slice(),
        ) {
            Ok(c) => c,
            Err(e) => {
                return Some(Err(e));
            },
        };
        match ctx.open_in_place_detached(&mut ciphertext, associated_data.as_slice(), tag.as_slice())
            {
            Ok(_) => {},
            Err(e) => {
                return Some(Err(e));
            },
        }
        if ciphertext.len() != 16 {
            return Some(Err(AgileHpkeError::FormatError));
        }
        Some(Ok(ciphertext))
    }
}

/// The identity-side plugin state: the identities the host has handed over.
pub struct IdentityPlugin {
    pub identities: Vec<Identity>,
}

impl IdentityPlugin {
    pub fn new() -> (r: Self)
        ensures
            r.identities@.len() == 0,
    {
        IdentityPlugin { identities: Vec::new() }
    }

    /// Accepts one persisted identity, rejecting another plugin's name and
    /// any byte string that does not decode exactly.
    pub fn add_identity(&mut self, plugin_name_arg: &[u8], bytes: &[u8]) -> (r: Result<
        (),
        AgileHpkeError,
    >)
        ensures
            plugin_name_arg@ != spec_plugin_name() ==> r == Err::<(), AgileHpkeError>(
                AgileHpkeError::FormatError,
            ) && final(self).identities@ == old(self).identities@,
            plugin_name_arg@ == spec_plugin_name() ==> match spec_parse_identity(bytes@) {
                Ok(f) => {
                    &&& r is Ok
                    &&& final(self).identities@.len() == old(self).identities@.len() + 1
                    &&& final(self).identities@.subrange(0, old(self).identities@.len() as int)
                        == old(self).identities@
                    &&& final(self).identities@.last().kem == f.0
                    &&& final(self).identities@.last().aead == f.1
                    &&& final(self).identities@.last().kdf == f.2
                    &&& final(self).identities@.last().private_key.kem_alg == f.0
                    &&& final(self).identities@.last().private_key.privkey_bytes@ == f.3
                },
                Err(e) => r == Err::<(), AgileHpkeError>(e) && final(self).identities@ == old(
                    self,
                ).identities@,
            },
    {
        let name = plugin_name();
        if !bytes_eq(plugin_name_arg, name.as_slice()) {
            return Err(AgileHpkeError::FormatError);
        }
        match Identity::from_bytes(bytes) {
            Ok(id) => {
                self.identities.push(id);
                proof {
                    assert(final(self).identities@.subrange(
                        0,
                        old(self).identities@.len() as int,
                    ) =~= old(self).identities@);
                }
                Ok(())
            },
            Err(e) => Err(e),
        }
    }

    /// Unwraps one file key per file: for each file, the result of the first
    /// stanza bearing this scheme's tag, tried with the first identity; no
    /// entry where no stanza matches or no identity was added. When that
    /// first matching stanza is malformed, the file's entry is the
    /// wire-format error, never a crash.
    pub fn unwrap_file_keys(&self, files: &Vec<Vec<Stanza>>) -> (r: Vec<
        Option<Result<Vec<u8>, AgileHpkeError>>,
    >)
        ensures
            r@.len() == files@.len(),
            forall|i: int|
                0 <= i < files@.len() ==> ((r@[i] is Some) <==> (self.identities@.len() > 0
                    && exists|j: int|
                    0 <= j < files@[i]@.len() && files@[i]@[j].tag@ == spec_stanza_tag())),
            forall|i: int|
                0 <= i < files@.len() ==> (#[trigger] r@[i] matches Some(p) ==> (p matches Ok(fk)
                    ==> fk@.len() == 16)),
            forall|i: int|
                0 <= i < files@.len() ==> (#[trigger] r@[i] is Some
                    ==> spec_first_tagged_entry(files@[i]@, r@[i])),
    {
        let tag_bytes = crate::stanza::stanza_tag();
        let mut out: Vec<Option<Result<Vec<u8>, AgileHpkeError>>> = Vec::new();
        let mut i: usize = 0;
        while i < files.len()
            invariant
                i <= files@.len(),
                out@.len() == i,
                tag_bytes@ == spec_stanza_tag(),
                forall|k: int|
                    0 <= k < i ==> ((out@[k] is Some) <==> (self.identities@.len() > 0 && exists|
                        j: int,
                    |
                        0 <= j < files@[k]@.len() && files@[k]@[j].tag@ == spec_stanza_tag())),
                forall|k: int|
                    0 <= k < i ==> (#[trigger] out@[k] matches Some(p) ==> (p matches Ok(fk)
                        ==> fk@.len() == 16)),
                forall|k: int|
                    0 <= k < i ==> (#[trigger] out@[k] is Some ==> spec_first_tagged_entry(
                        files@[k]@,
                        out@[k],
                    )),
            decreases files@.len() - i,
        {
            let stanzas = &files[i];
            let mut entry: Option<Result<Vec<u8>, AgileHpkeError>> = None;
            let mut j: usize = 0;
            let mut found: bool = false;
            let ghost mut fj: int = 0;
            while j < stanzas.len()
                invariant
                    j <= stanzas@.len(),
                    tag_bytes@ == spec_stanza_tag(),
                    !found ==> entry is None && (forall|j2: int|
                        0 <= j2 < j ==> stanzas@[j2].tag@ != spec_stanza_tag()),
                    found ==> {
                        &&& 0 <= fj < j
                        &&& stanzas@[fj].tag@ == spec_stanza_tag()
                        &&& forall|j2: int| 0 <= j2 < fj ==> stanzas@[j2].tag@ != spec_stanza_tag()
                        &&& self.identities@.len() > 0 ==> entry is Some
                        &&& self.identities@.len() == 0 ==> entry is None
                        &&& entry is Some && !spec_stanza_wellformed(stanzas@[fj]) ==> entry
                            == Some(
                            Err::<Vec<u8>, AgileHpkeError>(AgileHpkeError::FormatError),
                        )
                    },
                    entry matches Some(p) ==> (p matches Ok(fk) ==> fk@.len() == 16),
                decreases stanzas@.len() - j,
            {
                if !found && bytes_eq(stanzas[j].tag.as_slice(), tag_bytes.as_slice()) {
                    found = true;
                    proof {
                        fj = j as int;
                    }
                    if self.identities.len() > 0 {
                        let res = self.identities[0].unwrap_stanza(&stanzas[j]);
                        proof {
                            assert(res is Some);
                        }
                        entry = res;
                    }
                }
                j = j + 1;
            }
            proof {
                if entry is Some {
                    assert(spec_first_tagged_entry(stanzas@, entry)) by {
                        assert(0 <= fj < stanzas@.len() && stanzas@[fj].tag@ == spec_stanza_tag()
                            && (forall|j2: int|
                            0 <= j2 < fj ==> stanzas@[j2].tag@ != spec_stanza_tag()) && (
                        !spec_stanza_wellformed(stanzas@[fj]) ==> entry == Some(
                            Err::<Vec<u8>, AgileHpkeError>(AgileHpkeError::FormatError),
                        )));
                    }
                }
            }
            out.push(entry);
            i = i + 1;
        }
        out
    }
}

/// The recipient-side plugin state: the recipients and identities the host
/// has handed over.
pub struct RecipientPlugin {
    pub identities: Vec<Identity>,
    pub recipients: Vec<Recipient>,
}

impl RecipientPlugin {
    pub fn new() -> (r: Self)
        ensures
            r.identities@.len() == 0,
            r.recipients@.len() == 0,
    {
        RecipientPlugin { identities: Vec::new(), recipients: Vec::new() }
    }

    /// Accepts one persisted recipient, rejecting another plugin's name and
    /// any byte string that does not decode exactly.
    pub fn add_recipient(&mut self, plugin_name_arg: &[u8], bytes: &[u8]) -> (r: Result<
        (),
        AgileHpkeError,
    >)
        ensures
            plugin_name_arg@ != spec_plugin_name() ==> r == Err::<(), AgileHpkeError>(
                AgileHpkeError::FormatError,
            ) && final(self).recipients@ == old(self).recipients@,
            plugin_name_arg@ == spec_plugin_name() ==> match spec_parse_recipient(bytes@) {
                Ok(f) => {
                    &&& r is Ok
                    &&& final(self).recipients@.len() == old(self).recipients@.len() + 1
                    &&& final(self).recipients@.subrange(0, old(self).recipients@.len() as int)
                        == old(self).recipients@
                    &&& final(self).recipients@.last().kem == f.0
                    &&& final(self).recipients@.last().aead == f.1
                    &&& final(self).recipients@.last().kdf == f.2
                    &&& final(self).recipients@.last().public_key.kem_alg == f.0
                    &&& final(self).recipients@.last().public_key.pubkey_bytes@ == f.3
                    &&& final(self).recipients@.last().associated_data@ == f.4
                },
                Err(e) => r == Err::<(), AgileHpkeError>(e) && final(self).recipients@ == old(
                    self,
                ).recipients@,
            },
            final(self).identities@ == old(self).identities@,
    {
        let name = plugin_name();
        if !bytes_eq(plugin_name_arg, name.as_slice()) {
            return Err(AgileHpkeError::FormatError);
        }
        match Recipient::from_bytes(bytes) {
            Ok(rec) => {
                self.recipients.push(rec);
                proof {
                    assert(final(self).recipients@.subrange(
                        0,
                        old(self).recipients@.len() as int,
                    ) =~= old(self).recipients@);
                }
                Ok(())
            },
            Err(e) => Err(e),
        }
    }

    /// Accepts one persisted identity, rejecting another plugin's name and
    /// any byte string that does not decode exactly.
    pub fn add_identity(&mut self, plugin_name_arg: &[u8], bytes: &[u8]) -> (r: Result<
        (),
        AgileHpkeError,
    >)
        ensures
            plugin_name_arg@ != spec_plugin_name() ==> r == Err::<(), AgileHpkeError>(
                AgileHpkeError::FormatError,
            ) && final(self).identities@ == old(self).identities@,
            plugin_name_arg@ == spec_plugin_name() ==> match spec_parse_identity(bytes@) {
                Ok(f) => {
                    &&& r is Ok
                    &&& final(self).identities@.len() == old(self).identities@.len() + 1
                    &&& final(self).identities@.subrange(0, old(self).identities@.len() as int)
                        == old(self).identities@
                    &&& final(self).identities@.last().kem == f.0
                    &&& final(self).identities@.last().private_key.privkey_bytes@ == f.3
                },
                Err(e) => r == Err::<(), AgileHpkeError>(e) && final(self).identities@ == old(
                    self,
                ).identities@,
            },
            final(self).recipients@ == old(self).recipients@,
    {
        let name = plugin_name();
        if !bytes_eq(plugin_name_arg, name.as_slice()) {
            return Err(AgileHpkeError::FormatError);
        }
        match Identity::from_bytes(bytes) {
            Ok(id) => {
                self.identities.push(id);
                proof {
                    assert(final(self).identities@.subrange(
                        0,
                        old(self).identities@.len() as int,
                    ) =~= old(self).identities@);
                }
                Ok(())
            },
            Err(e) => Err(e),
        }
    }

    /// Wraps each file key for every recipient, in order, failing fast on
    /// the first error: one stanza per (file key, recipient) pair. With no
    /// file keys or no recipients there is nothing that can fail; any error
    /// is one of some recipient's own identifier-check errors, or a key or
    /// sealing failure.
    pub fn wrap_file_keys(&self, file_keys: &Vec<Vec<u8>>, csprng: &mut StdRng) -> (r: Result<
        Vec<Vec<Stanza>>,
        AgileHpkeError,
    >)
        requires
            forall|i: int| 0 <= i < file_keys@.len() ==> file_keys@[i]@.len() == 16,
        ensures
            r matches Ok(out) ==> {
                &&& out@.len() == file_keys@.len()
                &&& forall|i: int|
                    0 <= i < out@.len() ==> (#[trigger] out@[i])@.len() == self.recipients@.len()
                &&& forall|i: int, k: int|
                    0 <= i < out@.len() && 0 <= k < self.recipients@.len()
                        ==> spec_wrapped_stanza_shape(
                        #[trigger] out@[i]@[k],
                        self.recipients@[k],
                    )
            },
            file_keys@.len() == 0 ==> r is Ok,
            self.recipients@.len() == 0 ==> r is Ok,
            r matches Err(e) ==> ({
                ||| exists|k: int|
                    0 <= k < self.recipients@.len() && spec_sender_checks(
                        (#[trigger] self.recipients@[k]).aead,
                        self.recipients@[k].kdf,
                        self.recipients@[k].kem,
                        spec_base_mode_s(self.recipients@[k].kem),
                        self.recipients@[k].public_key,
                    ) == Err::<(), AgileHpkeError>(e)
                ||| e == AgileHpkeError::InvalidKey
                ||| e == AgileHpkeError::SealError
            }),
    {
        let mut out: Vec<Vec<Stanza>> = Vec::new();
        let mut i: usize = 0;
        while i < file_keys.len()
            invariant
                i <= file_keys@.len(),
                out@.len() == i,
                forall|i2: int| 0 <= i2 < file_keys@.len() ==> file_keys@[i2]@.len() == 16,
                forall|k: int| 0 <= k < i ==> (#[trigger] out@[k])@.len() == self.recipients@.len(),
                forall|i2: int, k: int|
                    0 <= i2 < i && 0 <= k < self.recipients@.len() ==> spec_wrapped_stanza_shape(
                        #[trigger] out@[i2]@[k],
                        self.recipients@[k],
                    ),
            decreases file_keys@.len() - i,
        {
            let mut per_file: Vec<Stanza> = Vec::new();
            let mut k: usize = 0;
            while k < self.recipients.len()
                invariant
                    k <= self.recipients@.len(),
                    per_file@.len() == k,
                    i < file_keys@.len(),
                    forall|i2: int| 0 <= i2 < file_keys@.len() ==> file_keys@[i2]@.len() == 16,
                    forall|k2: int|
                        0 <= k2 < k ==> spec_wrapped_stanza_shape(
                            #[trigger] per_file@[k2],
                            self.recipients@[k2],
                        ),
                decreases self.recipients@.len() - k,
            {
                let st = match self.recipients[k].wrap_file_key(file_keys[i].as_slice(), csprng) {
                    Ok(s) => s,
                    Err(e) => {
                        proof {
                            let rec = self.recipients@[k as int];
                            if spec_sender_checks(
                                rec.aead,
                                rec.kdf,
                                rec.kem,
                                spec_base_mode_s(rec.kem),
                                rec.public_key,
                            ) is Err {
                                assert(spec_sender_checks(
                                    rec.aead,
                                    rec.kdf,
                                    rec.kem,
                                    spec_base_mode_s(rec.kem),
                                    rec.public_key,
                                ) == Err::<(), AgileHpkeError>(e));
                            }
                        }
                        return Err(e);
                    },
                };
                per_file.push(st);
                k = k + 1;
            }
            out.push(per_file);
            i = i + 1;
        }
        Ok(out)
    }
}

} // verus!
