//! The dispatch engine and the uniform encryption contexts.
//!
//! A fixed, compile-time enumerated list of supported (AEAD, KDF, KEM)
//! triples is the single place where "which algorithms are actually
//! supported" is declared: every supported KEM is paired with its canonical
//! KDF and with each of the three AEADs. Dispatch first checks that every
//! supplied identifier agrees, then scans that closed list; a triple outside
//! it is a fatal configuration error (`DispatchUnsupported`), never a silent
//! fallback to a different algorithm.

use vstd::prelude::*;

use crate::agile::{
    AgileEncappedKey, AgileHpkeError, AgileKeypair, AgileOpModeR, AgileOpModeRTy, AgileOpModeS,
    AgileOpModeSTy, AgilePrivateKey, AgilePskBundle, AgilePublicKey, AeadAlg, AlgLoc, KdfAlg,
    KemAlg, spec_kdf_of_kem,
};
use crate::backend;
use crate::backend::{
    spec_p256_sk_to_pk, spec_p384_sk_to_pk, spec_x25519_sk_to_pk, ReceiverCtxRaw, SenderCtxRaw,
};
use rand::rngs::StdRng;

verus! {

/// The KEMs that the compiled dispatch list covers. The other registered
/// KEMs are identifiers only: valid on the wire, not executable here.
pub open spec fn spec_kem_supported(kem: KemAlg) -> bool {
    kem == KemAlg::X25519HkdfSha256 || kem == KemAlg::DhP256HkdfSha256
}

/// The KEMs a keypair can be generated for, and a public key derived for.
/// P-384 keys can be generated and persisted here even though the dispatch
/// list does not (yet) compile any triple over them.
pub open spec fn spec_kem_generatable(kem: KemAlg) -> bool {
    kem == KemAlg::X25519HkdfSha256 || kem == KemAlg::DhP256HkdfSha256 || kem
        == KemAlg::DhP384HkdfSha384
}

/// The compiled list of supported triples: each supported KEM, paired with
/// its canonical KDF, under any of the three AEADs.
pub open spec fn spec_supported(aead: AeadAlg, kdf: KdfAlg, kem: KemAlg) -> bool {
    spec_kem_supported(kem) && kdf == spec_kdf_of_kem(kem)
}

/// Whether a triple is in the compiled dispatch list.
pub fn supported_triple(aead_alg: AeadAlg, kdf_alg: KdfAlg, kem_alg: KemAlg) -> (r: bool)
    ensures
        r == spec_supported(aead_alg, kdf_alg, kem_alg),
{
    let kem_ok = kem_alg == KemAlg::X25519HkdfSha256 || kem_alg == KemAlg::DhP256HkdfSha256;
    let kdf_ok = kdf_alg == kem_alg.kdf_alg();
    kem_ok && kdf_ok
}

/// The sender-side encryption context: one negotiated triple, one HPKE
/// exchange. Sealing advances an internal sequence counter, so the same
/// context must not be reused across unrelated messages.
pub struct AgileAeadCtxS {
    aead: AeadAlg,
    kdf: KdfAlg,
    kem: KemAlg,
    raw: SenderCtxRaw,
}

impl AgileAeadCtxS {
    /// The AEAD this context was negotiated with.
    pub closed spec fn spec_aead(self) -> AeadAlg {
        self.aead
    }

    /// The KDF this context was negotiated with.
    pub closed spec fn spec_kdf(self) -> KdfAlg {
        self.kdf
    }

    /// The KEM this context was negotiated with.
    pub closed spec fn spec_kem(self) -> KemAlg {
        self.kem
    }

    pub fn aead_alg(&self) -> (r: AeadAlg)
        ensures
            r == self.spec_aead(),
    {
        self.aead
    }

    pub fn kdf_alg(&self) -> (r: KdfAlg)
        ensures
            r == self.spec_kdf(),
    {
        self.kdf
    }

    pub fn kem_alg(&self) -> (r: KemAlg)
        ensures
            r == self.spec_kem(),
    {
        self.kem
    }

    /// Encrypts the buffer in place and returns the detached authentication
    /// tag covering both the ciphertext and the associated data.
    pub fn seal_in_place_detached(&mut self, plaintext: &mut Vec<u8>, aad: &[u8]) -> (r: Result<
        Vec<u8>,
        AgileHpkeError,
    >)
        ensures
            final(plaintext)@.len() == old(plaintext)@.len(),
            r matches Ok(tag) ==> tag@.len() == 16,
            r matches Err(e) ==> e == AgileHpkeError::SealError,
            final(self).spec_aead() == old(self).spec_aead(),
            final(self).spec_kdf() == old(self).spec_kdf(),
            final(self).spec_kem() == old(self).spec_kem(),
    {
        backend::raw_seal_in_place_detached(&mut self.raw, plaintext, aad)
    }

    /// Encrypts a copy of the plaintext and returns it with the 16-byte
    /// authentication tag appended.
    pub fn seal(&mut self, plaintext: &[u8], aad: &[u8]) -> (r: Result<Vec<u8>, AgileHpkeError>)
        ensures
            r matches Ok(ct) ==> ct@.len() == plaintext@.len() + 16,
            r matches Err(e) ==> e == AgileHpkeError::SealError,
            final(self).spec_aead() == old(self).spec_aead(),
            final(self).spec_kdf() == old(self).spec_kdf(),
            final(self).spec_kem() == old(self).spec_kem(),
    {
        let mut buf = vstd::slice::slice_to_vec(plaintext);
        let tag = match self.seal_in_place_detached(&mut buf, aad) {
            Ok(t) => t,
            Err(e) => {
                return Err(e);
            },
        };
        crate::util::vec_append(&mut buf, tag.as_slice());
        Ok(buf)
    }
}

/// The receiver-side encryption context: one negotiated triple, one HPKE
/// exchange.
pub struct AgileAeadCtxR {
    aead: AeadAlg,
    kdf: KdfAlg,
    kem: KemAlg,
    raw: ReceiverCtxRaw,
}

impl AgileAeadCtxR {
    /// The AEAD this context was negotiated with.
    pub closed spec fn spec_aead(self) -> AeadAlg {
        self.aead
    }

    /// The KDF this context was negotiated with.
    pub closed spec fn spec_kdf(self) -> KdfAlg {
        self.kdf
    }

    /// The KEM this context was negotiated with.
    pub closed spec fn spec_kem(self) -> KemAlg {
        self.kem
    }

    pub fn aead_alg(&self) -> (r: AeadAlg)
        ensures
            r == self.spec_aead(),
    {
        self.aead
    }

    pub fn kdf_alg(&self) -> (r: KdfAlg)
        ensures
            r == self.spec_kdf(),
    {
        self.kdf
    }

    pub fn kem_alg(&self) -> (r: KemAlg)
        ensures
            r == self.spec_kem(),
    {
        self.kem
    }

    /// Authenticates the buffer against the tag and the associated data and
    /// decrypts it in place. Any mismatch, malformed tag bytes included, is
    /// the single constant-shape authentication failure; tag bytes of any
    /// length but 16 always fail, and on failure the buffer content is
    /// invalid and unusable.
    pub fn open_in_place_detached(
        &mut self,
        ciphertext: &mut Vec<u8>,
        aad: &[u8],
        tag_bytes: &[u8],
    ) -> (r: Result<(), AgileHpkeError>)
        ensures
            final(ciphertext)@.len() == old(ciphertext)@.len(),
            r matches Err(e) ==> e == AgileHpkeError::OpenError,
            tag_bytes@.len() != 16 ==> r is Err,
            final(self).spec_aead() == old(self).spec_aead(),
            final(self).spec_kdf() == old(self).spec_kdf(),
            final(self).spec_kem() == old(self).spec_kem(),
    {
        backend::raw_open_in_place_detached(&mut self.raw, ciphertext, aad, tag_bytes)
    }

    /// Splits off the trailing 16-byte tag, authenticates and decrypts the
    /// body, and returns the plaintext. A ciphertext too short to hold a tag
    /// fails like any other invalid ciphertext.
    pub fn open(&mut self, ciphertext: &[u8], aad: &[u8]) -> (r: Result<Vec<u8>, AgileHpkeError>)
        ensures
            r matches Ok(pt) ==> pt@.len() + 16 == ciphertext@.len(),
            r matches Err(e) ==> e == AgileHpkeError::OpenError,
            ciphertext@.len() < 16 ==> r == Err::<Vec<u8>, AgileHpkeError>(
                AgileHpkeError::OpenError,
            ),
            final(self).spec_aead() == old(self).spec_aead(),
            final(self).spec_kdf() == old(self).spec_kdf(),
            final(self).spec_kem() == old(self).spec_kem(),
    {
        if ciphertext.len() < 16 {
            return Err(AgileHpkeError::OpenError);
        }
        let msg_len = ciphertext.len() - 16;
        let mut buf = vstd::slice::slice_to_vec(
            vstd::slice::slice_subrange(ciphertext, 0, msg_len),
        );
        let tag = vstd::slice::slice_subrange(ciphertext, msg_len, ciphertext.len());
        match self.open_in_place_detached(&mut buf, aad, tag) {
            Ok(()) => Ok(buf),
            Err(e) => Err(e),
        }
    }
}

/// What the identifier checks of the sender setup return, in the order they
/// are made: mode self-consistency, recipient key tag against the mode,
/// requested KEM against the mode, and membership in the compiled list.
pub open spec fn spec_sender_checks(
    aead_alg: AeadAlg,
    kdf_alg: KdfAlg,
    kem_alg: KemAlg,
    mode: AgileOpModeS,
    pk_recip: AgilePublicKey,
) -> Result<(), AgileHpkeError> {
    match mode.spec_validate() {
        Err(e) => Err(e),
        Ok(_) => if mode.kem_alg != pk_recip.kem_alg {
            Err(
                AgileHpkeError::AlgMismatch(
                    mode.kem_alg,
                    AlgLoc::ModeKemAlg,
                    pk_recip.kem_alg,
                    AlgLoc::RecipPubkeyKemAlg,
                ),
            )
        } else if kem_alg != mode.kem_alg {
            Err(
                AgileHpkeError::AlgMismatch(
                    kem_alg,
                    AlgLoc::RequestedKemAlg,
                    mode.kem_alg,
                    AlgLoc::ModeKemAlg,
                ),
            )
        } else if !spec_supported(aead_alg, kdf_alg, kem_alg) {
            Err(AgileHpkeError::DispatchUnsupported)
        } else {
            Ok(())
        },
    }
}

/// Sets up the sender side of one HPKE exchange for a runtime-chosen triple.
///
/// Every pairwise identifier check happens before any cryptographic work;
/// only then is the triple matched against the compiled list and the keys
/// lifted into the matching concrete representations.
pub fn agile_setup_sender(
    aead_alg: AeadAlg,
    kdf_alg: KdfAlg,
    kem_alg: KemAlg,
    mode: &AgileOpModeS,
    pk_recip: &AgilePublicKey,
    info: &[u8],
    csprng: &mut StdRng,
) -> (r: Result<(AgileEncappedKey, AgileAeadCtxS), AgileHpkeError>)
    ensures
        spec_sender_checks(aead_alg, kdf_alg, kem_alg, *mode, *pk_recip) matches Err(e) ==> r
            == Err::<(AgileEncappedKey, AgileAeadCtxS), AgileHpkeError>(e),
        spec_sender_checks(aead_alg, kdf_alg, kem_alg, *mode, *pk_recip) is Ok ==> ({
            &&& r matches Ok(p) ==> {
                &&& p.0.kem_alg == kem_alg
                &&& p.1.spec_aead() == aead_alg
                &&& p.1.spec_kdf() == kdf_alg
                &&& p.1.spec_kem() == kem_alg
                &&& kem_alg == KemAlg::X25519HkdfSha256 ==> p.0.encapped_key_bytes@.len() == 32
                &&& kem_alg == KemAlg::DhP256HkdfSha256 ==> p.0.encapped_key_bytes@.len() == 65
            }
            &&& r matches Err(e) ==> (e == AgileHpkeError::InvalidKey || e
                == AgileHpkeError::SealError)
            &&& kem_alg == KemAlg::X25519HkdfSha256 && pk_recip.pubkey_bytes@.len() != 32 ==> r
                == Err::<(AgileEncappedKey, AgileAeadCtxS), AgileHpkeError>(
                AgileHpkeError::InvalidKey,
            )
            &&& kem_alg == KemAlg::DhP256HkdfSha256 && pk_recip.pubkey_bytes@.len() != 65 ==> r
                == Err::<(AgileEncappedKey, AgileAeadCtxS), AgileHpkeError>(
                AgileHpkeError::InvalidKey,
            )
        }),
{
    match mode.validate() {
        Ok(_) => {},
        Err(e) => {
            return Err(e);
        },
    }
    if mode.kem_alg != pk_recip.kem_alg {
        return Err(AgileHpkeError::AlgMismatch(
            mode.kem_alg,
            AlgLoc::ModeKemAlg,
            pk_recip.kem_alg,
            AlgLoc::RecipPubkeyKemAlg,
        ));
    }
    if kem_alg != mode.kem_alg {
        return Err(AgileHpkeError::AlgMismatch(
            kem_alg,
            AlgLoc::RequestedKemAlg,
            mode.kem_alg,
            AlgLoc::ModeKemAlg,
        ));
    }
    if !supported_triple(aead_alg, kdf_alg, kem_alg) {
        return Err(AgileHpkeError::DispatchUnsupported);
    }
    let psk: Option<&AgilePskBundle> = match &mode.op_mode_ty {
        AgileOpModeSTy::Psk(b) => Some(b),
        AgileOpModeSTy::AuthPsk(_, b) => Some(b),
        _ => None,
    };
    match kem_alg {
        KemAlg::X25519HkdfSha256 => {
            let auth = match &mode.op_mode_ty {
                AgileOpModeSTy::Auth(kp) => match backend::lift_keypair_x25519(kp) {
                    Ok(l) => Some(l),
                    Err(e) => {
                        return Err(e);
                    },
                },
                AgileOpModeSTy::AuthPsk(kp, _) => match backend::lift_keypair_x25519(kp) {
                    Ok(l) => Some(l),
                    Err(e) => {
                        return Err(e);
                    },
                },
                _ => None,
            };
            let pk = match backend::lift_pk_x25519(pk_recip) {
                Ok(l) => l,
                Err(e) => {
                    return Err(e);
                },
            };
            let setup = match aead_alg {
                AeadAlg::ChaCha20Poly1305 => backend::setup_sender_x25519_chacha(
                    auth.as_ref(),
                    psk,
                    &pk,
                    info,
                    csprng,
                ),
                AeadAlg::AesGcm128 => backend::setup_sender_x25519_gcm128(
                    auth.as_ref(),
                    psk,
                    &pk,
                    info,
                    csprng,
                ),
                AeadAlg::AesGcm256 => backend::setup_sender_x25519_gcm256(
                    auth.as_ref(),
                    psk,
                    &pk,
                    info,
                    csprng,
                ),
            };
            match setup {
                Ok((ek_bytes, raw)) => Ok(
                    (
                        AgileEncappedKey { kem_alg, encapped_key_bytes: ek_bytes },
                        AgileAeadCtxS { aead: aead_alg, kdf: kdf_alg, kem: kem_alg, raw },
                    ),
                ),
                Err(e) => Err(e),
            }
        },
        KemAlg::DhP256HkdfSha256 => {
            let auth = match &mode.op_mode_ty {
                AgileOpModeSTy::Auth(kp) => match backend::lift_keypair_p256(kp) {
                    Ok(l) => Some(l),
                    Err(e) => {
                        return Err(e);
                    },
                },
                AgileOpModeSTy::AuthPsk(kp, _) => match backend::lift_keypair_p256(kp) {
                    Ok(l) => Some(l),
                    Err(e) => {
                        return Err(e);
                    },
                },
                _ => None,
            };
            let pk = match backend::lift_pk_p256(pk_recip) {
                Ok(l) => l,
                Err(e) => {
                    return Err(e);
                },
            };
            let setup = match aead_alg {
                AeadAlg::ChaCha20Poly1305 => backend::setup_sender_p256_chacha(
                    auth.as_ref(),
                    psk,
                    &pk,
                    info,
                    csprng,
                ),
                AeadAlg::AesGcm128 => backend::setup_sender_p256_gcm128(
                    auth.as_ref(),
                    psk,
                    &pk,
                    info,
                    csprng,
                ),
                AeadAlg::AesGcm256 => backend::setup_sender_p256_gcm256(
                    auth.as_ref(),
                    psk,
                    &pk,
                    info,
                    csprng,
                ),
            };
            match setup {
                Ok((ek_bytes, raw)) => Ok(
                    (
                        AgileEncappedKey { kem_alg, encapped_key_bytes: ek_bytes },
                        AgileAeadCtxS { aead: aead_alg, kdf: kdf_alg, kem: kem_alg, raw },
                    ),
                ),
                Err(e) => Err(e),
            }
        },
        _ => vstd::pervasive::unreached(),
    }
}

/// What the identifier checks of the receiver setup return, in the order
/// they are made: recipient keypair self-consistency, mode self-consistency,
/// recipient keypair tag against the mode, requested KEM against the mode,
/// encapsulated key tag against the recipient keypair, and membership in the
/// compiled list.
pub open spec fn spec_receiver_checks(
    aead_alg: AeadAlg,
    kdf_alg: KdfAlg,
    kem_alg: KemAlg,
    mode: AgileOpModeR,
    recip_keypair: AgileKeypair,
    encapped_key: AgileEncappedKey,
) -> Result<(), AgileHpkeError> {
    match recip_keypair.spec_validate_result() {
        Err(e) => Err(e),
        Ok(_) => match mode.spec_validate() {
            Err(e) => Err(e),
            Ok(_) => if mode.kem_alg != recip_keypair.0.kem_alg {
                Err(
                    AgileHpkeError::AlgMismatch(
                        mode.kem_alg,
                        AlgLoc::ModeKemAlg,
                        recip_keypair.0.kem_alg,
                        AlgLoc::RecipKeypairKemAlg,
                    ),
                )
            } else if kem_alg != mode.kem_alg {
                Err(
                    AgileHpkeError::AlgMismatch(
                        kem_alg,
                        AlgLoc::RequestedKemAlg,
                        mode.kem_alg,
                        AlgLoc::ModeKemAlg,
                    ),
                )
            } else if recip_keypair.0.kem_alg != encapped_key.kem_alg {
                Err(
                    AgileHpkeError::AlgMismatch(
                        recip_keypair.0.kem_alg,
                        AlgLoc::RecipKeypairKemAlg,
                        encapped_key.kem_alg,
                        AlgLoc::EncappedKeyKemAlg,
                    ),
                )
            } else if !spec_supported(aead_alg, kdf_alg, kem_alg) {
                Err(AgileHpkeError::DispatchUnsupported)
            } else {
                Ok(())
            },
        },
    }
}

/// Sets up the receiver side of one HPKE exchange for a runtime-chosen
/// triple. Every pairwise identifier check happens before any cryptographic
/// work; authentication failures never say why.
pub fn agile_setup_receiver(
    aead_alg: AeadAlg,
    kdf_alg: KdfAlg,
    kem_alg: KemAlg,
    mode: &AgileOpModeR,
    recip_keypair: &AgileKeypair,
    encapped_key: &AgileEncappedKey,
    info: &[u8],
) -> (r: Result<AgileAeadCtxR, AgileHpkeError>)
    ensures
        spec_receiver_checks(aead_alg, kdf_alg, kem_alg, *mode, *recip_keypair, *encapped_key)
            matches Err(e) ==> r == Err::<AgileAeadCtxR, AgileHpkeError>(e),
        spec_receiver_checks(aead_alg, kdf_alg, kem_alg, *mode, *recip_keypair, *encapped_key)
            is Ok ==> ({
            &&& r matches Ok(c) ==> {
                &&& c.spec_aead() == aead_alg
                &&& c.spec_kdf() == kdf_alg
                &&& c.spec_kem() == kem_alg
            }
            &&& r matches Err(e) ==> (e == AgileHpkeError::InvalidKey || e
                == AgileHpkeError::OpenError)
            &&& kem_alg == KemAlg::X25519HkdfSha256 && (recip_keypair.0.privkey_bytes@.len() != 32
                || recip_keypair.1.pubkey_bytes@.len() != 32
                || encapped_key.encapped_key_bytes@.len() != 32) ==> r == Err::<
                AgileAeadCtxR,
                AgileHpkeError,
            >(AgileHpkeError::InvalidKey)
        }),
{
    match recip_keypair.validate() {
        Ok(_) => {},
        Err(e) => {
            return Err(e);
        },
    }
    match mode.validate() {
        Ok(_) => {},
        Err(e) => {
            return Err(e);
        },
    }
    if mode.kem_alg != recip_keypair.0.kem_alg {
        return Err(AgileHpkeError::AlgMismatch(
            mode.kem_alg,
            AlgLoc::ModeKemAlg,
            recip_keypair.0.kem_alg,
            AlgLoc::RecipKeypairKemAlg,
        ));
    }
    if kem_alg != mode.kem_alg {
        return Err(AgileHpkeError::AlgMismatch(
            kem_alg,
            AlgLoc::RequestedKemAlg,
            mode.kem_alg,
            AlgLoc::ModeKemAlg,
        ));
    }
    if recip_keypair.0.kem_alg != encapped_key.kem_alg {
        return Err(AgileHpkeError::AlgMismatch(
            recip_keypair.0.kem_alg,
            AlgLoc::RecipKeypairKemAlg,
            encapped_key.kem_alg,
            AlgLoc::EncappedKeyKemAlg,
        ));
    }
    if !supported_triple(aead_alg, kdf_alg, kem_alg) {
        return Err(AgileHpkeError::DispatchUnsupported);
    }
    let psk: Option<&AgilePskBundle> = match &mode.op_mode_ty {
        AgileOpModeRTy::Psk(b) => Some(b),
        AgileOpModeRTy::AuthPsk(_, b) => Some(b),
        _ => None,
    };
    match kem_alg {
        KemAlg::X25519HkdfSha256 => {
            let auth = match &mode.op_mode_ty {
                AgileOpModeRTy::Auth(pk) => match backend::lift_pk_x25519(pk) {
                    Ok(l) => Some(l),
                    Err(e) => {
                        return Err(e);
                    },
                },
                AgileOpModeRTy::AuthPsk(pk, _) => match backend::lift_pk_x25519(pk) {
                    Ok(l) => Some(l),
                    Err(e) => {
                        return Err(e);
                    },
                },
                _ => None,
            };
            let recip = match backend::lift_keypair_x25519(recip_keypair) {
                Ok(l) => l,
                Err(e) => {
                    return Err(e);
                },
            };
            let ek = match backend::lift_ek_x25519(&encapped_key.encapped_key_bytes) {
                Ok(l) => l,
                Err(e) => {
                    return Err(e);
                },
            };
            let setup = match aead_alg {
                AeadAlg::ChaCha20Poly1305 => backend::setup_receiver_x25519_chacha(
                    auth.as_ref(),
                    psk,
                    &recip,
                    &ek,
                    info,
                ),
                AeadAlg::AesGcm128 => backend::setup_receiver_x25519_gcm128(
                    auth.as_ref(),
                    psk,
                    &recip,
                    &ek,
                    info,
                ),
                AeadAlg::AesGcm256 => backend::setup_receiver_x25519_gcm256(
                    auth.as_ref(),
                    psk,
                    &recip,
                    &ek,
                    info,
                ),
            };
            match setup {
                Ok(raw) => Ok(AgileAeadCtxR { aead: aead_alg, kdf: kdf_alg, kem: kem_alg, raw }),
                Err(e) => Err(e),
            }
        },
        KemAlg::DhP256HkdfSha256 => {
            let auth = match &mode.op_mode_ty {
                AgileOpModeRTy::Auth(pk) => match backend::lift_pk_p256(pk) {
                    Ok(l) => Some(l),
                    Err(e) => {
                        return Err(e);
                    },
                },
                AgileOpModeRTy::AuthPsk(pk, _) => match backend::lift_pk_p256(pk) {
                    Ok(l) => Some(l),
                    Err(e) => {
                        return Err(e);
                    },
                },
                _ => None,
            };
            let recip = match backend::lift_keypair_p256(recip_keypair) {
                Ok(l) => l,
                Err(e) => {
                    return Err(e);
                },
            };
            let ek = match backend::lift_ek_p256(&encapped_key.encapped_key_bytes) {
                Ok(l) => l,
                Err(e) => {
                    return Err(e);
                },
            };
            let setup = match aead_alg {
                AeadAlg::ChaCha20Poly1305 => backend::setup_receiver_p256_chacha(
                    auth.as_ref(),
                    psk,
                    &recip,
                    &ek,
                    info,
                ),
                AeadAlg::AesGcm128 => backend::setup_receiver_p256_gcm128(
                    auth.as_ref(),
                    psk,
                    &recip,
                    &ek,
                    info,
                ),
                AeadAlg::AesGcm256 => backend::setup_receiver_p256_gcm256(
                    auth.as_ref(),
                    psk,
                    &recip,
                    &ek,
                    info,
                ),
            };
            match setup {
                Ok(raw) => Ok(AgileAeadCtxR { aead: aead_alg, kdf: kdf_alg, kem: kem_alg, raw }),
                Err(e) => Err(e),
            }
        },
        _ => vstd::pervasive::unreached(),
    }
}

/// Generates a fresh keypair for a supported KEM; both halves carry the
/// KEM's tag. For a registered KEM without an executable implementation the
/// answer is the fatal configuration error, never a panic.
pub fn agile_gen_keypair(kem_alg: KemAlg, csprng: &mut StdRng) -> (r: Result<
    AgileKeypair,
    AgileHpkeError,
>)
    ensures
        r is Ok <==> spec_kem_generatable(kem_alg),
        r matches Ok(kp) ==> {
            &&& kp.0.kem_alg == kem_alg
            &&& kp.1.kem_alg == kem_alg
            &&& kp.spec_consistent()
            &&& kem_alg == KemAlg::X25519HkdfSha256 ==> kp.0.privkey_bytes@.len() == 32
                && kp.1.pubkey_bytes@.len() == 32
            &&& kem_alg == KemAlg::DhP256HkdfSha256 ==> kp.0.privkey_bytes@.len() == 32
                && kp.1.pubkey_bytes@.len() == 65
            &&& kem_alg == KemAlg::DhP384HkdfSha384 ==> kp.0.privkey_bytes@.len() == 48
                && kp.1.pubkey_bytes@.len() == 97
            &&& kp.1.pubkey_bytes@ == spec_sk_to_pk_bytes(kem_alg, kp.0.privkey_bytes@)
        },
        r matches Err(e) ==> e == AgileHpkeError::DispatchUnsupported,
{
    match kem_alg {
        KemAlg::X25519HkdfSha256 => {
            let (sk_bytes, pk_bytes) = backend::gen_keypair_x25519(csprng);
            Ok(
                AgileKeypair(
                    AgilePrivateKey { kem_alg, privkey_bytes: sk_bytes },
                    AgilePublicKey { kem_alg, pubkey_bytes: pk_bytes },
                ),
            )
        },
        KemAlg::DhP256HkdfSha256 => {
            let (sk_bytes, pk_bytes) = backend::gen_keypair_p256(csprng);
            Ok(
                AgileKeypair(
                    AgilePrivateKey { kem_alg, privkey_bytes: sk_bytes },
                    AgilePublicKey { kem_alg, pubkey_bytes: pk_bytes },
                ),
            )
        },
        KemAlg::DhP384HkdfSha384 => {
            let (sk_bytes, pk_bytes) = backend::gen_keypair_p384(csprng);
            Ok(
                AgileKeypair(
                    AgilePrivateKey { kem_alg, privkey_bytes: sk_bytes },
                    AgilePublicKey { kem_alg, pubkey_bytes: pk_bytes },
                ),
            )
        },
        _ => Err(AgileHpkeError::DispatchUnsupported),
    }
}

/// The public-key bytes derivation yields for a supported KEM's private-key
/// bytes.
pub open spec fn spec_sk_to_pk_bytes(kem: KemAlg, sk: Seq<u8>) -> Seq<u8>
    recommends
        spec_kem_generatable(kem),
{
    match kem {
        KemAlg::X25519HkdfSha256 => spec_x25519_sk_to_pk(sk),
        KemAlg::DhP256HkdfSha256 => spec_p256_sk_to_pk(sk),
        KemAlg::DhP384HkdfSha384 => spec_p384_sk_to_pk(sk),
        _ => Seq::empty(),
    }
}

impl AgilePrivateKey {
    /// Derives the public key that belongs to this private key. Derivation
    /// is wired in only for the supported KEMs; anywhere else it is a
    /// distinct, fatal configuration error, to be surfaced rather than
    /// retried.
    pub fn to_pk(&self) -> (r: Result<AgilePublicKey, AgileHpkeError>)
        ensures
            !spec_kem_generatable(self.kem_alg) ==> r == Err::<AgilePublicKey, AgileHpkeError>(
                AgileHpkeError::DispatchUnsupported,
            ),
            self.kem_alg == KemAlg::X25519HkdfSha256 ==> ((r is Ok) <==> self.privkey_bytes@.len()
                == 32),
            r matches Ok(pk) ==> pk.kem_alg == self.kem_alg && pk.pubkey_bytes@
                == spec_sk_to_pk_bytes(self.kem_alg, self.privkey_bytes@),
            r matches Err(e) ==> (if spec_kem_generatable(self.kem_alg) {
                e == AgileHpkeError::InvalidKey
            } else {
                e == AgileHpkeError::DispatchUnsupported
            }),
    {
        match self.kem_alg {
            KemAlg::X25519HkdfSha256 => match backend::sk_to_pk_x25519(&self.privkey_bytes) {
                Ok(pk_bytes) => Ok(
                    AgilePublicKey { kem_alg: self.kem_alg, pubkey_bytes: pk_bytes },
                ),
                Err(e) => Err(e),
            },
            KemAlg::DhP256HkdfSha256 => match backend::sk_to_pk_p256(&self.privkey_bytes) {
                Ok(pk_bytes) => Ok(
                    AgilePublicKey { kem_alg: self.kem_alg, pubkey_bytes: pk_bytes },
                ),
                Err(e) => Err(e),
            },
            KemAlg::DhP384HkdfSha384 => match backend::sk_to_pk_p384(&self.privkey_bytes) {
                Ok(pk_bytes) => Ok(
                    AgilePublicKey { kem_alg: self.kem_alg, pubkey_bytes: pk_bytes },
                ),
                Err(e) => Err(e),
            },
            _ => Err(AgileHpkeError::DispatchUnsupported),
        }
    }
}

/// Dispatch on identifiers that agree but name a triple outside the
/// compiled list answers `DispatchUnsupported`: there is no fallback to a
/// different algorithm.
pub proof fn lemma_dispatch_unsupported(
    aead_alg: AeadAlg,
    kdf_alg: KdfAlg,
    kem_alg: KemAlg,
    mode: AgileOpModeS,
    pk_recip: AgilePublicKey,
)
    requires
        mode.spec_validate() is Ok,
        mode.kem_alg == pk_recip.kem_alg,
        kem_alg == mode.kem_alg,
        !spec_supported(aead_alg, kdf_alg, kem_alg),
    ensures
        spec_sender_checks(aead_alg, kdf_alg, kem_alg, mode, pk_recip) == Err::<
            (),
            AgileHpkeError,
        >(AgileHpkeError::DispatchUnsupported),
{
}

} // verus!
