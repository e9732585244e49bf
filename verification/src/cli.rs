//! The command-line vocabulary: the algorithm names a user can pick from and
//! their mapping into the registry. Argument parsing itself lives with the
//! binary; these are the values it hands over.

use vstd::prelude::*;

use crate::agile::{AeadAlg, KemAlg};

verus! {

/// The KEM choices offered on the command line.
#[derive(Debug, Clone, Copy, PartialEq, Eq, Structural)]
pub enum Kem {
    X25519HkdfSha256,
    X25519Kyber768Draft00,
    P256HkdfSha256,
    P521HkdfSha512,
}

/// The registry KEM a command-line choice stands for.
pub open spec fn spec_kem_choice(k: Kem) -> KemAlg {
    match k {
        Kem::X25519HkdfSha256 => KemAlg::X25519HkdfSha256,
        Kem::X25519Kyber768Draft00 => KemAlg::X25519Kyber768Draft00,
        Kem::P256HkdfSha256 => KemAlg::DhP256HkdfSha256,
        Kem::P521HkdfSha512 => KemAlg::DhP521HkdfSha512,
    }
}

impl Kem {
    pub fn to_alg(&self) -> (r: KemAlg)
        ensures
            r == spec_kem_choice(*self),
    {
        match self {
            Kem::X25519HkdfSha256 => KemAlg::X25519HkdfSha256,
            Kem::X25519Kyber768Draft00 => KemAlg::X25519Kyber768Draft00,
            Kem::P256HkdfSha256 => KemAlg::DhP256HkdfSha256,
            Kem::P521HkdfSha512 => KemAlg::DhP521HkdfSha512,
        }
    }
}

/// The AEAD choices offered on the command line.
#[derive(Debug, Clone, Copy, PartialEq, Eq, Structural)]
pub enum Aead {
    AesGcm128,
    AesGcm256,
    ChaCha20Poly1305,
}

/// The registry AEAD a command-line choice stands for.
pub open spec fn spec_aead_choice(a: Aead) -> AeadAlg {
    match a {
        Aead::AesGcm128 => AeadAlg::AesGcm128,
        Aead::AesGcm256 => AeadAlg::AesGcm256,
        Aead::ChaCha20Poly1305 => AeadAlg::ChaCha20Poly1305,
    }
}

impl Aead {
    pub fn to_alg(&self) -> (r: AeadAlg)
        ensures
            r == spec_aead_choice(*self),
    {
        match self {
            Aead::AesGcm128 => AeadAlg::AesGcm128,
            Aead::AesGcm256 => AeadAlg::AesGcm256,
            Aead::ChaCha20Poly1305 => AeadAlg::ChaCha20Poly1305,
        }
    }
}

/// The key-generation request as it arrives from the command line.
pub struct GenerateArg {
    pub generate: bool,
    pub associated_data: Option<String>,
    pub kem: Option<Kem>,
    pub aead: Option<Aead>,
}

} // verus!
