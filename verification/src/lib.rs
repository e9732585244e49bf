//! Crypto agility over Hybrid Public Key Encryption (HPKE).
//!
//! A caller selects, at runtime, one (AEAD, KDF, KEM) combination out of a
//! fixed supported set, validates that the chosen combination and the
//! supplied keys are mutually consistent, and obtains a uniform
//! sender/receiver encryption context regardless of which concrete
//! algorithms were chosen.

pub mod agile;
pub mod backend;
pub mod cli;
pub mod dispatch;
pub mod hex;
pub mod internal;
pub mod stanza;
pub mod util;

use vstd::prelude::*;

use crate::agile::{AgileHpkeError, AeadAlg, KemAlg, spec_kdf_of_kem};
use crate::dispatch::{agile_gen_keypair, spec_kem_generatable, spec_sk_to_pk_bytes};
use crate::internal::{
    spec_identity_bytes, spec_parse_identity, spec_recipient_bytes, Identity, Recipient,
};
use rand::rngs::StdRng;

verus! {

/// Generates one fresh keypair for the given KEM and returns the identity
/// and recipient built from it, under the KEM's canonical KDF, in their
/// persisted byte forms: the identity carries the private key and the
/// recipient carries exactly that key's derived public key. A KEM without an
/// executable implementation is a fatal configuration error.
pub fn new_identity(
    kem: KemAlg,
    aead: AeadAlg,
    associated_data: &[u8],
    csprng: &mut StdRng,
) -> (r: Result<(Vec<u8>, Vec<u8>), AgileHpkeError>)
    ensures
        r is Ok <==> spec_kem_generatable(kem),
        r matches Err(e) ==> e == AgileHpkeError::DispatchUnsupported,
        r matches Ok(p) ==> exists|sk: Seq<u8>|
            p.0@ == spec_identity_bytes(kem, aead, spec_kdf_of_kem(kem), sk) && p.1@
                == spec_recipient_bytes(
                kem,
                aead,
                spec_kdf_of_kem(kem),
                spec_sk_to_pk_bytes(kem, sk),
                associated_data@,
            ),
{
    let keypair = match agile_gen_keypair(kem, csprng) {
        Ok(kp) => kp,
        Err(e) => {
            return Err(e);
        },
    };
    let kdf = kem.kdf_alg();
    let identity = Identity::new(kem, aead, kdf, keypair.private_key());
    let recipient = Recipient::new(kem, aead, kdf, keypair.public_key(), associated_data);
    let id_bytes = identity.to_bytes();
    let rec_bytes = recipient.to_bytes();
    proof {
        let sk0 = keypair.0.privkey_bytes@;
        assert(id_bytes@ == spec_identity_bytes(kem, aead, spec_kdf_of_kem(kem), sk0) && rec_bytes@
            == spec_recipient_bytes(
            kem,
            aead,
            spec_kdf_of_kem(kem),
            spec_sk_to_pk_bytes(kem, sk0),
            associated_data@,
        ));
    }
    Ok((id_bytes, rec_bytes))
}

/// Rebuilds the persisted recipient that belongs to a persisted identity:
/// the same algorithm triple, the public key derived from the private key,
/// and empty associated data. Identity bytes that do not decode, an identity
/// whose KEM has no executable derivation, and a private key that does not
/// lift are each rejected with their own error.
pub fn convert_identity_to_recipient(identity: &[u8]) -> (r: Result<Vec<u8>, AgileHpkeError>)
    ensures
        spec_parse_identity(identity@) matches Err(e) ==> r == Err::<Vec<u8>, AgileHpkeError>(e),
        spec_parse_identity(identity@) matches Ok(f) ==> {
            &&& (r matches Ok(v) ==> spec_kem_generatable(f.0) && v@ == spec_recipient_bytes(
                f.0,
                f.1,
                f.2,
                spec_sk_to_pk_bytes(f.0, f.3),
                Seq::<u8>::empty(),
            ))
            &&& (r matches Err(e) ==> (if spec_kem_generatable(f.0) {
                e == AgileHpkeError::InvalidKey
            } else {
                e == AgileHpkeError::DispatchUnsupported
            }))
            &&& (f.0 == KemAlg::X25519HkdfSha256 ==> ((r is Ok) <==> f.3.len() == 32))
        },
{
    let id = match Identity::from_bytes(identity) {
        Ok(id) => id,
        Err(e) => {
            return Err(e);
        },
    };
    let pk = match id.private_key.to_pk() {
        Ok(p) => p,
        Err(e) => {
            return Err(e);
        },
    };
    let empty_ad: Vec<u8> = Vec::new();
    let recipient = Recipient::new(id.kem, id.aead, id.kdf, &pk, empty_ad.as_slice());
    Ok(recipient.to_bytes())
}

} // verus!
