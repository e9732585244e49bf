//! The trusted boundary to the `hpke` and `rand` crates.
//!
//! Everything in this module either declares an outside type or wraps one
//! outside call in a function whose contract Verus believes. All dispatch
//! decisions, validation, byte framing and error ordering stand outside this
//! module, in verified code.
//!
//! The concrete `hpke` context types are generic over the crate's `Aead`,
//! `Kdf` and `Kem` traits, which cannot be named in verified signatures, so
//! each setup wrapper erases its concrete context into a boxed closure held
//! by [`SenderCtxRaw`] or [`ReceiverCtxRaw`]; the stored closure does nothing
//! but forward to the context's own seal or open method.

use vstd::prelude::*;

use crate::agile::{AgileHpkeError, AgileKeypair, AgilePskBundle, AgilePublicKey};
use hpke::aead::{AesGcm128, AesGcm256, ChaCha20Poly1305};
use hpke::kdf::HkdfSha256;
use hpke::kem::{DhP256HkdfSha256, DhP384HkdfSha384, X25519HkdfSha256};
use hpke::{setup_receiver, setup_sender, Deserializable, Kem as KemTrait, OpModeR, OpModeS, PskBundle, Serializable};
use rand::rngs::StdRng;

verus! {

#[verifier::external_type_specification]
#[verifier::external_body]
pub struct ExStdRng(StdRng);

#[verifier::external_type_specification]
#[verifier::external_body]
pub struct ExPskBundle<'a>(PskBundle<'a>);

/// Relies on hpke's `PskBundle` being a plain pair of borrowed byte strings.
#[verifier::external_body]
pub(crate) fn mk_psk<'a>(b: &'a AgilePskBundle) -> PskBundle<'a> {
    PskBundle { psk: b.psk.as_slice(), psk_id: b.psk_id.as_slice() }
}

/// The sealing half of one negotiated HPKE exchange, erased: the closure
/// forwards to `AeadCtxS::seal_in_place_detached` of the concrete context
/// captured at setup, whose internal sequence counter advances on each call.
#[verifier::external_body]
pub(crate) struct SenderCtxRaw {
    f: Box<dyn FnMut(&mut [u8], &[u8]) -> Result<Vec<u8>, hpke::HpkeError>>,
}

/// The opening half of one negotiated HPKE exchange, erased: the closure
/// parses the tag bytes and forwards to `AeadCtxR::open_in_place_detached`
/// of the concrete context captured at setup.
#[verifier::external_body]
pub(crate) struct ReceiverCtxRaw {
    f: Box<dyn FnMut(&mut [u8], &[u8], &[u8]) -> Result<(), hpke::HpkeError>>,
}

/// Relies on hpke's `AeadCtxS::seal_in_place_detached`, reached through the
/// closure stored at setup: encrypts the buffer in place (the length cannot
/// change) and returns the 16-byte authentication tag; every supported AEAD
/// has a 16-byte tag.
#[verifier::external_body]
pub(crate) fn raw_seal_in_place_detached(
    ctx: &mut SenderCtxRaw,
    plaintext: &mut Vec<u8>,
    aad: &[u8],
) -> (r: Result<Vec<u8>, AgileHpkeError>)
    ensures
        final(plaintext)@.len() == old(plaintext)@.len(),
        r matches Ok(tag) ==> tag@.len() == 16,
        r matches Err(e) ==> e == AgileHpkeError::SealError,
{
    (ctx.f)(plaintext.as_mut_slice(), aad).map_err(|_| AgileHpkeError::SealError)
}

/// Relies on hpke's `AeadCtxR::open_in_place_detached`, reached through the
/// closure stored at setup: authenticates the buffer against the tag and the
/// associated data and decrypts it in place (the length cannot change). Tag
/// bytes of any length but 16 are rejected before decryption is attempted,
/// and any failure, malformed tag bytes included, is the one constant-shape
/// authentication error.
#[verifier::external_body]
pub(crate) fn raw_open_in_place_detached(
    ctx: &mut ReceiverCtxRaw,
    ciphertext: &mut Vec<u8>,
    aad: &[u8],
    tag: &[u8],
) -> (r: Result<(), AgileHpkeError>)
    ensures
        final(ciphertext)@.len() == old(ciphertext)@.len(),
        r matches Err(e) ==> e == AgileHpkeError::OpenError,
        tag@.len() != 16 ==> r is Err,
{
    (ctx.f)(ciphertext.as_mut_slice(), aad, tag).map_err(|_| AgileHpkeError::OpenError)
}

/// An X25519 keypair lifted into its concrete representation.
#[verifier::external_body]
pub(crate) struct LiftedKeypairX25519 {
    kp: (<X25519HkdfSha256 as KemTrait>::PrivateKey, <X25519HkdfSha256 as KemTrait>::PublicKey),
}

/// An X25519 public key lifted into its concrete representation.
#[verifier::external_body]
pub(crate) struct LiftedPkX25519 {
    pk: <X25519HkdfSha256 as KemTrait>::PublicKey,
}

/// An X25519 encapsulated key lifted into its concrete representation.
#[verifier::external_body]
pub(crate) struct LiftedEkX25519 {
    ek: <X25519HkdfSha256 as KemTrait>::EncappedKey,
}

/// Relies on hpke's `Deserializable::from_bytes` for X25519 keys: a private
/// or public key lifts exactly when it is 32 bytes long.
#[verifier::external_body]
pub(crate) fn lift_keypair_x25519(kp: &AgileKeypair) -> (r: Result<LiftedKeypairX25519, AgileHpkeError>)
    ensures
        (r is Ok) <==> (kp.0.privkey_bytes@.len() == 32 && kp.1.pubkey_bytes@.len() == 32),
        r matches Err(e) ==> e == AgileHpkeError::InvalidKey,
{
    Ok(LiftedKeypairX25519 {
        kp: (
            Deserializable::from_bytes(kp.0.privkey_bytes.as_slice())
                .map_err(|_| AgileHpkeError::InvalidKey)?,
            Deserializable::from_bytes(kp.1.pubkey_bytes.as_slice())
                .map_err(|_| AgileHpkeError::InvalidKey)?,
        ),
    })
}

/// Relies on hpke's `Deserializable::from_bytes` for X25519 public keys: a
/// key lifts exactly when it is 32 bytes long.
#[verifier::external_body]
pub(crate) fn lift_pk_x25519(pk: &AgilePublicKey) -> (r: Result<LiftedPkX25519, AgileHpkeError>)
    ensures
        r is Ok <==> pk.pubkey_bytes@.len() == 32,
        r matches Err(e) ==> e == AgileHpkeError::InvalidKey,
{
    Ok(LiftedPkX25519 {
        pk: Deserializable::from_bytes(pk.pubkey_bytes.as_slice())
            .map_err(|_| AgileHpkeError::InvalidKey)?,
    })
}

/// Relies on hpke's `Deserializable::from_bytes` for X25519 encapsulated
/// keys: they lift exactly when 32 bytes long.
#[verifier::external_body]
pub(crate) fn lift_ek_x25519(ek: &Vec<u8>) -> (r: Result<LiftedEkX25519, AgileHpkeError>)
    ensures
        r is Ok <==> ek@.len() == 32,
        r matches Err(e) ==> e == AgileHpkeError::InvalidKey,
{
    Ok(LiftedEkX25519 {
        ek: Deserializable::from_bytes(ek.as_slice()).map_err(|_| AgileHpkeError::InvalidKey)?,
    })
}

/// Relies on hpke's `setup_sender` instantiated at
/// (ChaCha20Poly1305, HkdfSha256, X25519HkdfSha256): encapsulates a fresh
/// shared secret to the recipient key and returns the serialized encapsulated
/// key (32 bytes for X25519) with the sealing context, erased.
#[verifier::external_body]
pub(crate) fn setup_sender_x25519_chacha(
    auth: Option<&LiftedKeypairX25519>,
    psk: Option<&AgilePskBundle>,
    pk_recip: &LiftedPkX25519,
    info: &[u8],
    csprng: &mut StdRng,
) -> (r: Result<(Vec<u8>, SenderCtxRaw), AgileHpkeError>)
    ensures
        r matches Ok(p) ==> p.0@.len() == 32,
        r matches Err(e) ==> e == AgileHpkeError::SealError,
{
    let m = match (auth, psk) {
        (None, None) => OpModeS::Base,
        (None, Some(b)) => OpModeS::Psk(mk_psk(b)),
        (Some(k), None) => OpModeS::Auth(k.kp.clone()),
        (Some(k), Some(b)) => OpModeS::AuthPsk(k.kp.clone(), mk_psk(b)),
    };
    let (ek, mut c) = setup_sender::<ChaCha20Poly1305, HkdfSha256, X25519HkdfSha256, _>(
        &m, &pk_recip.pk, info, csprng
    ).map_err(|_| AgileHpkeError::SealError)?;
    Ok((ek.to_bytes().to_vec(), SenderCtxRaw {
        f: Box::new(move |pt, aad| c.seal_in_place_detached(pt, aad)
            .map(|t| t.to_bytes().to_vec())),
    }))
}

/// Relies on hpke's `setup_receiver` instantiated at
/// (ChaCha20Poly1305, HkdfSha256, X25519HkdfSha256): decapsulates the shared
/// secret with the recipient private key and returns the opening context,
/// erased.
#[verifier::external_body]
pub(crate) fn setup_receiver_x25519_chacha(
    auth: Option<&LiftedPkX25519>,
    psk: Option<&AgilePskBundle>,
    recip: &LiftedKeypairX25519,
    encapped: &LiftedEkX25519,
    info: &[u8],
) -> (r: Result<ReceiverCtxRaw, AgileHpkeError>)
    ensures
        r matches Err(e) ==> e == AgileHpkeError::OpenError,
{
    let m = match (auth, psk) {
        (None, None) => OpModeR::Base,
        (None, Some(b)) => OpModeR::Psk(mk_psk(b)),
        (Some(p), None) => OpModeR::Auth(p.pk.clone()),
        (Some(p), Some(b)) => OpModeR::AuthPsk(p.pk.clone(), mk_psk(b)),
    };
    let mut c = setup_receiver::<ChaCha20Poly1305, HkdfSha256, X25519HkdfSha256>(
        &m, &recip.kp.0, &encapped.ek, info
    ).map_err(|_| AgileHpkeError::OpenError)?;
    Ok(ReceiverCtxRaw {
        f: Box::new(move |ct, aad, tag| c.open_in_place_detached(ct, aad, &Deserializable::from_bytes(tag)?)),
    })
}

/// Relies on hpke's `setup_sender` instantiated at
/// (AesGcm128, HkdfSha256, X25519HkdfSha256): encapsulates a fresh shared
/// secret to the recipient key and returns the serialized encapsulated key
/// (32 bytes for X25519) with the sealing context, erased.
#[verifier::external_body]
pub(crate) fn setup_sender_x25519_gcm128(
    auth: Option<&LiftedKeypairX25519>,
    psk: Option<&AgilePskBundle>,
    pk_recip: &LiftedPkX25519,
    info: &[u8],
    csprng: &mut StdRng,
) -> (r: Result<(Vec<u8>, SenderCtxRaw), AgileHpkeError>)
    ensures
        r matches Ok(p) ==> p.0@.len() == 32,
        r matches Err(e) ==> e == AgileHpkeError::SealError,
{
    let m = match (auth, psk) {
        (None, None) => OpModeS::Base,
        (None, Some(b)) => OpModeS::Psk(mk_psk(b)),
        (Some(k), None) => OpModeS::Auth(k.kp.clone()),
        (Some(k), Some(b)) => OpModeS::AuthPsk(k.kp.clone(), mk_psk(b)),
    };
    let (ek, mut c) = setup_sender::<AesGcm128, HkdfSha256, X25519HkdfSha256, _>(
        &m, &pk_recip.pk, info, csprng
    ).map_err(|_| AgileHpkeError::SealError)?;
    Ok((ek.to_bytes().to_vec(), SenderCtxRaw {
        f: Box::new(move |pt, aad| c.seal_in_place_detached(pt, aad)
            .map(|t| t.to_bytes().to_vec())),
    }))
}

/// Relies on hpke's `setup_sender` instantiated at
/// (AesGcm256, HkdfSha256, X25519HkdfSha256): encapsulates a fresh shared
/// secret to the recipient key and returns the serialized encapsulated key
/// (32 bytes for X25519) with the sealing context, erased.
#[verifier::external_body]
pub(crate) fn setup_sender_x25519_gcm256(
    auth: Option<&LiftedKeypairX25519>,
    psk: Option<&AgilePskBundle>,
    pk_recip: &LiftedPkX25519,
    info: &[u8],
    csprng: &mut StdRng,
) -> (r: Result<(Vec<u8>, SenderCtxRaw), AgileHpkeError>)
    ensures
        r matches Ok(p) ==> p.0@.len() == 32,
        r matches Err(e) ==> e == AgileHpkeError::SealError,
{
    let m = match (auth, psk) {
        (None, None) => OpModeS::Base,
        (None, Some(b)) => OpModeS::Psk(mk_psk(b)),
        (Some(k), None) => OpModeS::Auth(k.kp.clone()),
        (Some(k), Some(b)) => OpModeS::AuthPsk(k.kp.clone(), mk_psk(b)),
    };
    let (ek, mut c) = setup_sender::<AesGcm256, HkdfSha256, X25519HkdfSha256, _>(
        &m, &pk_recip.pk, info, csprng
    ).map_err(|_| AgileHpkeError::SealError)?;
    Ok((ek.to_bytes().to_vec(), SenderCtxRaw {
        f: Box::new(move |pt, aad| c.seal_in_place_detached(pt, aad)
            .map(|t| t.to_bytes().to_vec())),
    }))
}

/// Relies on hpke's `setup_receiver` instantiated at
/// (AesGcm128, HkdfSha256, X25519HkdfSha256): decapsulates the shared secret
/// with the recipient private key and returns the opening context, erased.
#[verifier::external_body]
pub(crate) fn setup_receiver_x25519_gcm128(
    auth: Option<&LiftedPkX25519>,
    psk: Option<&AgilePskBundle>,
    recip: &LiftedKeypairX25519,
    encapped: &LiftedEkX25519,
    info: &[u8],
) -> (r: Result<ReceiverCtxRaw, AgileHpkeError>)
    ensures
        r matches Err(e) ==> e == AgileHpkeError::OpenError,
{
    let m = match (auth, psk) {
        (None, None) => OpModeR::Base,
        (None, Some(b)) => OpModeR::Psk(mk_psk(b)),
        (Some(p), None) => OpModeR::Auth(p.pk.clone()),
        (Some(p), Some(b)) => OpModeR::AuthPsk(p.pk.clone(), mk_psk(b)),
    };
    let mut c = setup_receiver::<AesGcm128, HkdfSha256, X25519HkdfSha256>(
        &m, &recip.kp.0, &encapped.ek, info
    ).map_err(|_| AgileHpkeError::OpenError)?;
    Ok(ReceiverCtxRaw {
        f: Box::new(move |ct, aad, tag| c.open_in_place_detached(ct, aad, &Deserializable::from_bytes(tag)?)),
    })
}

/// Relies on hpke's `setup_receiver` instantiated at
/// (AesGcm256, HkdfSha256, X25519HkdfSha256): decapsulates the shared secret
/// with the recipient private key and returns the opening context, erased.
#[verifier::external_body]
pub(crate) fn setup_receiver_x25519_gcm256(
    auth: Option<&LiftedPkX25519>,
    psk: Option<&AgilePskBundle>,
    recip: &LiftedKeypairX25519,
    encapped: &LiftedEkX25519,
    info: &[u8],
) -> (r: Result<ReceiverCtxRaw, AgileHpkeError>)
    ensures
        r matches Err(e) ==> e == AgileHpkeError::OpenError,
{
    let m = match (auth, psk) {
        (None, None) => OpModeR::Base,
        (None, Some(b)) => OpModeR::Psk(mk_psk(b)),
        (Some(p), None) => OpModeR::Auth(p.pk.clone()),
        (Some(p), Some(b)) => OpModeR::AuthPsk(p.pk.clone(), mk_psk(b)),
    };
    let mut c = setup_receiver::<AesGcm256, HkdfSha256, X25519HkdfSha256>(
        &m, &recip.kp.0, &encapped.ek, info
    ).map_err(|_| AgileHpkeError::OpenError)?;
    Ok(ReceiverCtxRaw {
        f: Box::new(move |ct, aad, tag| c.open_in_place_detached(ct, aad, &Deserializable::from_bytes(tag)?)),
    })
}

/// A P-256 keypair lifted into its concrete representation.
#[verifier::external_body]
pub(crate) struct LiftedKeypairP256 {
    kp: (<DhP256HkdfSha256 as KemTrait>::PrivateKey, <DhP256HkdfSha256 as KemTrait>::PublicKey),
}

/// A P-256 public key lifted into its concrete representation.
#[verifier::external_body]
pub(crate) struct LiftedPkP256 {
    pk: <DhP256HkdfSha256 as KemTrait>::PublicKey,
}

/// A P-256 encapsulated key lifted into its concrete representation.
#[verifier::external_body]
pub(crate) struct LiftedEkP256 {
    ek: <DhP256HkdfSha256 as KemTrait>::EncappedKey,
}

/// Relies on hpke's `Deserializable::from_bytes` for P-256 keys: a private
/// key must be 32 bytes and a nonzero scalar, a public key must be 65 bytes
/// and a valid curve point; anything else is rejected.
#[verifier::external_body]
pub(crate) fn lift_keypair_p256(kp: &AgileKeypair) -> (r: Result<LiftedKeypairP256, AgileHpkeError>)
    ensures
        r is Ok ==> kp.0.privkey_bytes@.len() == 32 && kp.1.pubkey_bytes@.len() == 65,
        r matches Err(e) ==> e == AgileHpkeError::InvalidKey,
{
    Ok(LiftedKeypairP256 {
        kp: (
            Deserializable::from_bytes(kp.0.privkey_bytes.as_slice())
                .map_err(|_| AgileHpkeError::InvalidKey)?,
            Deserializable::from_bytes(kp.1.pubkey_bytes.as_slice())
                .map_err(|_| AgileHpkeError::InvalidKey)?,
        ),
    })
}

/// Relies on hpke's `Deserializable::from_bytes` for P-256 public keys: the
/// key must be 65 bytes and a valid curve point; anything else is rejected.
#[verifier::external_body]
pub(crate) fn lift_pk_p256(pk: &AgilePublicKey) -> (r: Result<LiftedPkP256, AgileHpkeError>)
    ensures
        r is Ok ==> pk.pubkey_bytes@.len() == 65,
        r matches Err(e) ==> e == AgileHpkeError::InvalidKey,
{
    Ok(LiftedPkP256 {
        pk: Deserializable::from_bytes(pk.pubkey_bytes.as_slice())
            .map_err(|_| AgileHpkeError::InvalidKey)?,
    })
}

/// Relies on hpke's `Deserializable::from_bytes` for P-256 encapsulated
/// keys: they must be 65 bytes and a valid curve point.
#[verifier::external_body]
pub(crate) fn lift_ek_p256(ek: &Vec<u8>) -> (r: Result<LiftedEkP256, AgileHpkeError>)
    ensures
        r is Ok ==> ek@.len() == 65,
        r matches Err(e) ==> e == AgileHpkeError::InvalidKey,
{
    Ok(LiftedEkP256 {
        ek: Deserializable::from_bytes(ek.as_slice()).map_err(|_| AgileHpkeError::InvalidKey)?,
    })
}

/// Relies on hpke's `setup_sender` instantiated at
/// (ChaCha20Poly1305, HkdfSha256, DhP256HkdfSha256): encapsulates a fresh
/// shared secret to the recipient key and returns the serialized encapsulated
/// key (65 bytes for P-256) with the sealing context, erased.
#[verifier::external_body]
pub(crate) fn setup_sender_p256_chacha(
    auth: Option<&LiftedKeypairP256>,
    psk: Option<&AgilePskBundle>,
    pk_recip: &LiftedPkP256,
    info: &[u8],
    csprng: &mut StdRng,
) -> (r: Result<(Vec<u8>, SenderCtxRaw), AgileHpkeError>)
    ensures
        r matches Ok(p) ==> p.0@.len() == 65,
        r matches Err(e) ==> e == AgileHpkeError::SealError,
{
    let m = match (auth, psk) {
        (None, None) => OpModeS::Base,
        (None, Some(b)) => OpModeS::Psk(mk_psk(b)),
        (Some(k), None) => OpModeS::Auth(k.kp.clone()),
        (Some(k), Some(b)) => OpModeS::AuthPsk(k.kp.clone(), mk_psk(b)),
    };
    let (ek, mut c) = setup_sender::<ChaCha20Poly1305, HkdfSha256, DhP256HkdfSha256, _>(
        &m, &pk_recip.pk, info, csprng
    ).map_err(|_| AgileHpkeError::SealError)?;
    Ok((ek.to_bytes().to_vec(), SenderCtxRaw {
        f: Box::new(move |pt, aad| c.seal_in_place_detached(pt, aad)
            .map(|t| t.to_bytes().to_vec())),
    }))
}

/// Relies on hpke's `setup_sender` instantiated at
/// (AesGcm128, HkdfSha256, DhP256HkdfSha256): encapsulates a fresh shared
/// secret to the recipient key and returns the serialized encapsulated key
/// (65 bytes for P-256) with the sealing context, erased.
#[verifier::external_body]
pub(crate) fn setup_sender_p256_gcm128(
    auth: Option<&LiftedKeypairP256>,
    psk: Option<&AgilePskBundle>,
    pk_recip: &LiftedPkP256,
    info: &[u8],
    csprng: &mut StdRng,
) -> (r: Result<(Vec<u8>, SenderCtxRaw), AgileHpkeError>)
    ensures
        r matches Ok(p) ==> p.0@.len() == 65,
        r matches Err(e) ==> e == AgileHpkeError::SealError,
{
    let m = match (auth, psk) {
        (None, None) => OpModeS::Base,
        (None, Some(b)) => OpModeS::Psk(mk_psk(b)),
        (Some(k), None) => OpModeS::Auth(k.kp.clone()),
        (Some(k), Some(b)) => OpModeS::AuthPsk(k.kp.clone(), mk_psk(b)),
    };
    let (ek, mut c) = setup_sender::<AesGcm128, HkdfSha256, DhP256HkdfSha256, _>(
        &m, &pk_recip.pk, info, csprng
    ).map_err(|_| AgileHpkeError::SealError)?;
    Ok((ek.to_bytes().to_vec(), SenderCtxRaw {
        f: Box::new(move |pt, aad| c.seal_in_place_detached(pt, aad)
            .map(|t| t.to_bytes().to_vec())),
    }))
}

/// Relies on hpke's `setup_sender` instantiated at
/// (AesGcm256, HkdfSha256, DhP256HkdfSha256): encapsulates a fresh shared
/// secret to the recipient key and returns the serialized encapsulated key
/// (65 bytes for P-256) with the sealing context, erased.
#[verifier::external_body]
pub(crate) fn setup_sender_p256_gcm256(
    auth: Option<&LiftedKeypairP256>,
    psk: Option<&AgilePskBundle>,
    pk_recip: &LiftedPkP256,
    info: &[u8],
    csprng: &mut StdRng,
) -> (r: Result<(Vec<u8>, SenderCtxRaw), AgileHpkeError>)
    ensures
        r matches Ok(p) ==> p.0@.len() == 65,
        r matches Err(e) ==> e == AgileHpkeError::SealError,
{
    let m = match (auth, psk) {
        (None, None) => OpModeS::Base,
        (None, Some(b)) => OpModeS::Psk(mk_psk(b)),
        (Some(k), None) => OpModeS::Auth(k.kp.clone()),
        (Some(k), Some(b)) => OpModeS::AuthPsk(k.kp.clone(), mk_psk(b)),
    };
    let (ek, mut c) = setup_sender::<AesGcm256, HkdfSha256, DhP256HkdfSha256, _>(
        &m, &pk_recip.pk, info, csprng
    ).map_err(|_| AgileHpkeError::SealError)?;
    Ok((ek.to_bytes().to_vec(), SenderCtxRaw {
        f: Box::new(move |pt, aad| c.seal_in_place_detached(pt, aad)
            .map(|t| t.to_bytes().to_vec())),
    }))
}

/// Relies on hpke's `setup_receiver` instantiated at
/// (ChaCha20Poly1305, HkdfSha256, DhP256HkdfSha256): decapsulates the shared
/// secret with the recipient private key and returns the opening context,
/// erased.
#[verifier::external_body]
pub(crate) fn setup_receiver_p256_chacha(
    auth: Option<&LiftedPkP256>,
    psk: Option<&AgilePskBundle>,
    recip: &LiftedKeypairP256,
    encapped: &LiftedEkP256,
    info: &[u8],
) -> (r: Result<ReceiverCtxRaw, AgileHpkeError>)
    ensures
        r matches Err(e) ==> e == AgileHpkeError::OpenError,
{
    let m = match (auth, psk) {
        (None, None) => OpModeR::Base,
        (None, Some(b)) => OpModeR::Psk(mk_psk(b)),
        (Some(p), None) => OpModeR::Auth(p.pk.clone()),
        (Some(p), Some(b)) => OpModeR::AuthPsk(p.pk.clone(), mk_psk(b)),
    };
    let mut c = setup_receiver::<ChaCha20Poly1305, HkdfSha256, DhP256HkdfSha256>(
        &m, &recip.kp.0, &encapped.ek, info
    ).map_err(|_| AgileHpkeError::OpenError)?;
    Ok(ReceiverCtxRaw {
        f: Box::new(move |ct, aad, tag| c.open_in_place_detached(ct, aad, &Deserializable::from_bytes(tag)?)),
    })
}

/// Relies on hpke's `setup_receiver` instantiated at
/// (AesGcm128, HkdfSha256, DhP256HkdfSha256): decapsulates the shared secret
/// with the recipient private key and returns the opening context, erased.
#[verifier::external_body]
pub(crate) fn setup_receiver_p256_gcm128(
    auth: Option<&LiftedPkP256>,
    psk: Option<&AgilePskBundle>,
    recip: &LiftedKeypairP256,
    encapped: &LiftedEkP256,
    info: &[u8],
) -> (r: Result<ReceiverCtxRaw, AgileHpkeError>)
    ensures
        r matches Err(e) ==> e == AgileHpkeError::OpenError,
{
    let m = match (auth, psk) {
        (None, None) => OpModeR::Base,
        (None, Some(b)) => OpModeR::Psk(mk_psk(b)),
        (Some(p), None) => OpModeR::Auth(p.pk.clone()),
        (Some(p), Some(b)) => OpModeR::AuthPsk(p.pk.clone(), mk_psk(b)),
    };
    let mut c = setup_receiver::<AesGcm128, HkdfSha256, DhP256HkdfSha256>(
        &m, &recip.kp.0, &encapped.ek, info
    ).map_err(|_| AgileHpkeError::OpenError)?;
    Ok(ReceiverCtxRaw {
        f: Box::new(move |ct, aad, tag| c.open_in_place_detached(ct, aad, &Deserializable::from_bytes(tag)?)),
    })
}

/// Relies on hpke's `setup_receiver` instantiated at
/// (AesGcm256, HkdfSha256, DhP256HkdfSha256): decapsulates the shared secret
/// with the recipient private key and returns the opening context, erased.
#[verifier::external_body]
pub(crate) fn setup_receiver_p256_gcm256(
    auth: Option<&LiftedPkP256>,
    psk: Option<&AgilePskBundle>,
    recip: &LiftedKeypairP256,
    encapped: &LiftedEkP256,
    info: &[u8],
) -> (r: Result<ReceiverCtxRaw, AgileHpkeError>)
    ensures
        r matches Err(e) ==> e == AgileHpkeError::OpenError,
{
    let m = match (auth, psk) {
        (None, None) => OpModeR::Base,
        (None, Some(b)) => OpModeR::Psk(mk_psk(b)),
        (Some(p), None) => OpModeR::Auth(p.pk.clone()),
        (Some(p), Some(b)) => OpModeR::AuthPsk(p.pk.clone(), mk_psk(b)),
    };
    let mut c = setup_receiver::<AesGcm256, HkdfSha256, DhP256HkdfSha256>(
        &m, &recip.kp.0, &encapped.ek, info
    ).map_err(|_| AgileHpkeError::OpenError)?;
    Ok(ReceiverCtxRaw {
        f: Box::new(move |ct, aad, tag| c.open_in_place_detached(ct, aad, &Deserializable::from_bytes(tag)?)),
    })
}

/// Relies on hpke's `Kem::gen_keypair` for P-256: draws a fresh keypair from
/// the given generator. The private key serializes to 32 bytes, the public
/// key to 65 bytes, and the public key is exactly the derivation of the
/// private key: `gen_keypair` returns `(sk, sk_to_pk(sk))`.
#[verifier::external_body]
pub(crate) fn gen_keypair_p256(csprng: &mut StdRng) -> (r: (Vec<u8>, Vec<u8>))
    ensures
        r.0@.len() == 32,
        r.1@.len() == 65,
        r.1@ == spec_p256_sk_to_pk(r.0@),
{
    let (sk, pk) = DhP256HkdfSha256::gen_keypair(csprng);
    (sk.to_bytes().to_vec(), pk.to_bytes().to_vec())
}

/// What P-256 public-key derivation returns: a function of the private-key
/// bytes alone.
pub uninterp spec fn spec_p256_sk_to_pk(sk: Seq<u8>) -> Seq<u8>;

/// Relies on hpke's `Kem::sk_to_pk` for P-256: derives the public key from
/// the private key. The private key lifts only when it is 32 bytes and a
/// nonzero scalar, and the derived public key depends on the private-key
/// bytes alone.
#[verifier::external_body]
pub(crate) fn sk_to_pk_p256(sk: &Vec<u8>) -> (r: Result<Vec<u8>, AgileHpkeError>)
    ensures
        r is Ok ==> sk@.len() == 32,
        r matches Ok(pk) ==> pk@ == spec_p256_sk_to_pk(sk@) && pk@.len() == 65,
        r matches Err(e) ==> e == AgileHpkeError::InvalidKey,
{
    let k: <DhP256HkdfSha256 as KemTrait>::PrivateKey = Deserializable::from_bytes(
        sk.as_slice(),
    ).map_err(|_| AgileHpkeError::InvalidKey)?;
    Ok(DhP256HkdfSha256::sk_to_pk(&k).to_bytes().to_vec())
}

/// Relies on hpke's `Kem::gen_keypair` for X25519: draws a fresh keypair
/// from the given generator. Private and public keys serialize to 32 bytes,
/// and the public key is exactly the derivation of the private key:
/// `gen_keypair` returns `(sk, sk_to_pk(sk))`.
#[verifier::external_body]
pub(crate) fn gen_keypair_x25519(csprng: &mut StdRng) -> (r: (Vec<u8>, Vec<u8>))
    ensures
        r.0@.len() == 32,
        r.1@.len() == 32,
        r.1@ == spec_x25519_sk_to_pk(r.0@),
{
    let (sk, pk) = X25519HkdfSha256::gen_keypair(csprng);
    (sk.to_bytes().to_vec(), pk.to_bytes().to_vec())
}

/// Relies on hpke's `Kem::gen_keypair` for P-384: draws a fresh keypair from
/// the given generator. The private key serializes to 48 bytes, the public
/// key to 97 bytes, and the public key is exactly the derivation of the
/// private key: `gen_keypair` returns `(sk, sk_to_pk(sk))`.
#[verifier::external_body]
pub(crate) fn gen_keypair_p384(csprng: &mut StdRng) -> (r: (Vec<u8>, Vec<u8>))
    ensures
        r.0@.len() == 48,
        r.1@.len() == 97,
        r.1@ == spec_p384_sk_to_pk(r.0@),
{
    let (sk, pk) = DhP384HkdfSha384::gen_keypair(csprng);
    (sk.to_bytes().to_vec(), pk.to_bytes().to_vec())
}

/// What P-384 public-key derivation returns: a function of the private-key
/// bytes alone.
pub uninterp spec fn spec_p384_sk_to_pk(sk: Seq<u8>) -> Seq<u8>;

/// Relies on hpke's `Kem::sk_to_pk` for P-384: derives the public key from
/// the private key. The private key lifts only when it is 48 bytes and a
/// nonzero scalar, and the derived public key depends on the private-key
/// bytes alone.
#[verifier::external_body]
pub(crate) fn sk_to_pk_p384(sk: &Vec<u8>) -> (r: Result<Vec<u8>, AgileHpkeError>)
    ensures
        r is Ok ==> sk@.len() == 48,
        r matches Ok(pk) ==> pk@ == spec_p384_sk_to_pk(sk@) && pk@.len() == 97,
        r matches Err(e) ==> e == AgileHpkeError::InvalidKey,
{
    let k: <DhP384HkdfSha384 as KemTrait>::PrivateKey = Deserializable::from_bytes(
        sk.as_slice(),
    ).map_err(|_| AgileHpkeError::InvalidKey)?;
    Ok(DhP384HkdfSha384::sk_to_pk(&k).to_bytes().to_vec())
}

/// What X25519 public-key derivation returns: a function of the private-key
/// bytes alone.
pub uninterp spec fn spec_x25519_sk_to_pk(sk: Seq<u8>) -> Seq<u8>;

/// Relies on hpke's `Kem::sk_to_pk` for X25519: derives the public key from
/// the private key. The private key lifts exactly when it is 32 bytes long,
/// and the derived public key depends on the private-key bytes alone.
#[verifier::external_body]
pub(crate) fn sk_to_pk_x25519(sk: &Vec<u8>) -> (r: Result<Vec<u8>, AgileHpkeError>)
    ensures
        r is Ok <==> sk@.len() == 32,
        r matches Ok(pk) ==> pk@ == spec_x25519_sk_to_pk(sk@) && pk@.len() == 32,
        r matches Err(e) ==> e == AgileHpkeError::InvalidKey,
{
    let k: <X25519HkdfSha256 as KemTrait>::PrivateKey = Deserializable::from_bytes(
        sk.as_slice(),
    ).map_err(|_| AgileHpkeError::InvalidKey)?;
    Ok(X25519HkdfSha256::sk_to_pk(&k).to_bytes().to_vec())
}

} // verus!
