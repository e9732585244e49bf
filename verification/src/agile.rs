//! Algorithm registry and algorithm-tagged ("agile") key material.
//!
//! The registry is a closed set of KEM, KDF and AEAD identifiers with stable
//! numeric wire IDs and a canonical KEM-to-KDF pairing. Keys are opaque byte
//! payloads tagged with the KEM they belong to; a tag mismatch is always a
//! validation error, never a silent reinterpretation of the bytes.

use vstd::prelude::*;

verus! {

/// The supported AEAD algorithms.
#[derive(Debug, Clone, Copy, PartialEq, Eq, Structural)]
pub enum AeadAlg {
    AesGcm128,
    AesGcm256,
    ChaCha20Poly1305,
}

/// The supported KDF algorithms.
#[derive(Debug, Clone, Copy, PartialEq, Eq, Structural)]
pub enum KdfAlg {
    HkdfSha256,
    HkdfSha384,
    HkdfSha512,
}

/// The registered KEM algorithms. Registration gives an identifier a stable
/// wire ID; it does not by itself make the algorithm executable here.
#[derive(Debug, Clone, Copy, PartialEq, Eq, Structural)]
pub enum KemAlg {
    X25519HkdfSha256,
    X25519Kyber768Draft00,
    X448HkdfSha512,
    DhP256HkdfSha256,
    DhP384HkdfSha384,
    DhP521HkdfSha512,
}

/// Which of the three algorithm families an identifier belongs to.
#[derive(Debug, Clone, Copy, PartialEq, Eq, Structural)]
pub enum AlgKind {
    Aead,
    Kdf,
    Kem,
}

/// The logical location of an algorithm tag, used to report which two of
/// several supplied objects disagree.
#[derive(Debug, Clone, Copy, PartialEq, Eq, Structural)]
pub enum AlgLoc {
    /// The KEM declared by an operation mode (`kem_alg` field).
    ModeKemAlg,
    /// The KEM requested explicitly at dispatch.
    RequestedKemAlg,
    /// The tag on a public key embedded in a receiver mode.
    ModePubkeyKemAlg,
    /// The tag on the private key of a keypair embedded in a sender mode.
    ModePrivkeyKemAlg,
    /// The tag on the private half of a keypair.
    KeypairPrivkey,
    /// The tag on the public half of a keypair.
    KeypairPubkey,
    /// The tag on the recipient public key handed to the sender setup.
    RecipPubkeyKemAlg,
    /// The tag on the recipient keypair handed to the receiver setup.
    RecipKeypairKemAlg,
    /// The tag on an encapsulated key.
    EncappedKeyKemAlg,
}

/// Everything that can go wrong in this library.
#[derive(Debug, Clone, Copy, PartialEq, Eq, Structural)]
pub enum AgileHpkeError {
    /// Two related algorithm identifiers disagree. Carries the two
    /// conflicting algorithms, each with the location it was found at.
    AlgMismatch(KemAlg, AlgLoc, KemAlg, AlgLoc),
    /// A numeric identifier outside the registry. Carries the family that
    /// was asked for and the offending ID.
    UnknownAlgIdent(AlgKind, u16),
    /// Malformed key bytes for the target concrete representation.
    InvalidKey,
    /// The requested combination is not among the compiled ones; a fatal
    /// configuration error, never a silent fallback.
    DispatchUnsupported,
    /// The underlying primitive failed while sealing.
    SealError,
    /// Authentication failure while opening: deliberately a single constant
    /// shape, never saying why the ciphertext was invalid.
    OpenError,
    /// A wire-level decoding problem (argument count, hex text, lengths),
    /// kept distinct from cryptographic failures.
    FormatError,
}

/// The stable numeric wire ID of a KEM.
pub open spec fn spec_kem_id(a: KemAlg) -> u16 {
    match a {
        KemAlg::DhP256HkdfSha256 => 0x10,
        KemAlg::DhP384HkdfSha384 => 0x11,
        KemAlg::DhP521HkdfSha512 => 0x12,
        KemAlg::X25519HkdfSha256 => 0x20,
        KemAlg::X448HkdfSha512 => 0x21,
        KemAlg::X25519Kyber768Draft00 => 0x22,
    }
}

/// The KEM registered under a numeric wire ID, if any.
pub open spec fn spec_kem_from_id(id: u16) -> Option<KemAlg> {
    if id == 0x10 {
        Some(KemAlg::DhP256HkdfSha256)
    } else if id == 0x11 {
        Some(KemAlg::DhP384HkdfSha384)
    } else if id == 0x12 {
        Some(KemAlg::DhP521HkdfSha512)
    } else if id == 0x20 {
        Some(KemAlg::X25519HkdfSha256)
    } else if id == 0x21 {
        Some(KemAlg::X448HkdfSha512)
    } else if id == 0x22 {
        Some(KemAlg::X25519Kyber768Draft00)
    } else {
        None
    }
}

/// The canonical KDF paired with a KEM; fixed by the HPKE suites, not
/// caller-selectable.
pub open spec fn spec_kdf_of_kem(a: KemAlg) -> KdfAlg {
    match a {
        KemAlg::X25519HkdfSha256 => KdfAlg::HkdfSha256,
        KemAlg::X25519Kyber768Draft00 => KdfAlg::HkdfSha256,
        KemAlg::X448HkdfSha512 => KdfAlg::HkdfSha512,
        KemAlg::DhP256HkdfSha256 => KdfAlg::HkdfSha256,
        KemAlg::DhP384HkdfSha384 => KdfAlg::HkdfSha384,
        KemAlg::DhP521HkdfSha512 => KdfAlg::HkdfSha512,
    }
}

/// The registry IDs are a bijection: decoding an encoded KEM gives it back.
pub proof fn lemma_kem_id_round_trip(a: KemAlg)
    ensures
        spec_kem_from_id(spec_kem_id(a)) == Some(a),
{
}

/// Decoding succeeds exactly on the six registered IDs, and re-encoding the
/// decoded KEM gives the same ID back.
pub proof fn lemma_kem_from_id_round_trip(id: u16)
    ensures
        spec_kem_from_id(id) matches Some(a) ==> spec_kem_id(a) == id,
        spec_kem_from_id(id) is Some <==> (0x10 <= id <= 0x12 || 0x20 <= id <= 0x22),
{
}

/// The stable numeric wire ID of an AEAD, as the HPKE registry gives it.
pub open spec fn spec_aead_id(a: AeadAlg) -> u16 {
    match a {
        AeadAlg::AesGcm128 => 0x01,
        AeadAlg::AesGcm256 => 0x02,
        AeadAlg::ChaCha20Poly1305 => 0x03,
    }
}

/// The AEAD registered under a numeric wire ID, if any.
pub open spec fn spec_aead_from_id(id: u16) -> Option<AeadAlg> {
    if id == 0x01 {
        Some(AeadAlg::AesGcm128)
    } else if id == 0x02 {
        Some(AeadAlg::AesGcm256)
    } else if id == 0x03 {
        Some(AeadAlg::ChaCha20Poly1305)
    } else {
        None
    }
}

/// The stable numeric wire ID of a KDF, as the HPKE registry gives it.
pub open spec fn spec_kdf_id(a: KdfAlg) -> u16 {
    match a {
        KdfAlg::HkdfSha256 => 0x01,
        KdfAlg::HkdfSha384 => 0x02,
        KdfAlg::HkdfSha512 => 0x03,
    }
}

/// The KDF registered under a numeric wire ID, if any.
pub open spec fn spec_kdf_from_id(id: u16) -> Option<KdfAlg> {
    if id == 0x01 {
        Some(KdfAlg::HkdfSha256)
    } else if id == 0x02 {
        Some(KdfAlg::HkdfSha384)
    } else if id == 0x03 {
        Some(KdfAlg::HkdfSha512)
    } else {
        None
    }
}

/// The AEAD registry IDs are a bijection as well.
pub proof fn lemma_aead_id_round_trip(a: AeadAlg)
    ensures
        spec_aead_from_id(spec_aead_id(a)) == Some(a),
{
}

/// The KDF registry IDs are a bijection as well.
pub proof fn lemma_kdf_id_round_trip(a: KdfAlg)
    ensures
        spec_kdf_from_id(spec_kdf_id(a)) == Some(a),
{
}

impl AeadAlg {
    /// Decode a numeric wire ID into a registered AEAD; IDs outside the
    /// registry are rejected, never defaulted to a nearby algorithm.
    pub fn try_from_u16(id: u16) -> (r: Result<AeadAlg, AgileHpkeError>)
        ensures
            match spec_aead_from_id(id) {
                Some(a) => r == Ok::<AeadAlg, AgileHpkeError>(a),
                None => r == Err::<AeadAlg, AgileHpkeError>(
                    AgileHpkeError::UnknownAlgIdent(AlgKind::Aead, id),
                ),
            },
    {
        match id {
            0x01 => Ok(AeadAlg::AesGcm128),
            0x02 => Ok(AeadAlg::AesGcm256),
            0x03 => Ok(AeadAlg::ChaCha20Poly1305),
            _ => Err(AgileHpkeError::UnknownAlgIdent(AlgKind::Aead, id)),
        }
    }

    /// The stable numeric wire ID of this AEAD.
    pub fn to_u16(self) -> (r: u16)
        ensures
            r == spec_aead_id(self),
    {
        match self {
            AeadAlg::AesGcm128 => 0x01,
            AeadAlg::AesGcm256 => 0x02,
            AeadAlg::ChaCha20Poly1305 => 0x03,
        }
    }
}

impl KdfAlg {
    /// Decode a numeric wire ID into a registered KDF; IDs outside the
    /// registry are rejected, never defaulted to a nearby algorithm.
    pub fn try_from_u16(id: u16) -> (r: Result<KdfAlg, AgileHpkeError>)
        ensures
            match spec_kdf_from_id(id) {
                Some(a) => r == Ok::<KdfAlg, AgileHpkeError>(a),
                None => r == Err::<KdfAlg, AgileHpkeError>(
                    AgileHpkeError::UnknownAlgIdent(AlgKind::Kdf, id),
                ),
            },
    {
        match id {
            0x01 => Ok(KdfAlg::HkdfSha256),
            0x02 => Ok(KdfAlg::HkdfSha384),
            0x03 => Ok(KdfAlg::HkdfSha512),
            _ => Err(AgileHpkeError::UnknownAlgIdent(AlgKind::Kdf, id)),
        }
    }

    /// The stable numeric wire ID of this KDF.
    pub fn to_u16(self) -> (r: u16)
        ensures
            r == spec_kdf_id(self),
    {
        match self {
            KdfAlg::HkdfSha256 => 0x01,
            KdfAlg::HkdfSha384 => 0x02,
            KdfAlg::HkdfSha512 => 0x03,
        }
    }
}

impl KemAlg {
    /// The name of the KEM, as it appears in error reports.
    pub fn name(&self) -> (r: &'static str)
        ensures
            r@ == spec_kem_name(*self),
    {
        match self {
            KemAlg::DhP256HkdfSha256 => "DhP256HkdfSha256",
            KemAlg::DhP384HkdfSha384 => "DhP384HkdfSha384",
            KemAlg::DhP521HkdfSha512 => "DhP521HkdfSha512",
            KemAlg::X25519HkdfSha256 => "X25519HkdfSha256",
            KemAlg::X25519Kyber768Draft00 => "X25519Kyber768Draft00",
            KemAlg::X448HkdfSha512 => "X448HkdfSha512",
        }
    }

    /// Decode a numeric wire ID into a registered KEM; IDs outside the
    /// registry are rejected, never defaulted to a nearby algorithm.
    pub fn try_from_u16(id: u16) -> (r: Result<KemAlg, AgileHpkeError>)
        ensures
            match spec_kem_from_id(id) {
                Some(a) => r == Ok::<KemAlg, AgileHpkeError>(a),
                None => r == Err::<KemAlg, AgileHpkeError>(
                    AgileHpkeError::UnknownAlgIdent(AlgKind::Kem, id),
                ),
            },
    {
        let res = match id {
            0x10 => KemAlg::DhP256HkdfSha256,
            0x11 => KemAlg::DhP384HkdfSha384,
            0x12 => KemAlg::DhP521HkdfSha512,
            0x20 => KemAlg::X25519HkdfSha256,
            0x22 => KemAlg::X25519Kyber768Draft00,
            0x21 => KemAlg::X448HkdfSha512,
            _ => {
                return Err(AgileHpkeError::UnknownAlgIdent(AlgKind::Kem, id));
            },
        };
        Ok(res)
    }

    /// The stable numeric wire ID of this KEM.
    pub fn to_u16(self) -> (r: u16)
        ensures
            r == spec_kem_id(self),
    {
        match self {
            KemAlg::DhP256HkdfSha256 => 0x10,
            KemAlg::DhP384HkdfSha384 => 0x11,
            KemAlg::DhP521HkdfSha512 => 0x12,
            KemAlg::X25519HkdfSha256 => 0x20,
            KemAlg::X25519Kyber768Draft00 => 0x22,
            KemAlg::X448HkdfSha512 => 0x21,
        }
    }

    /// The canonical KDF paired with this KEM.
    pub fn kdf_alg(&self) -> (r: KdfAlg)
        ensures
            r == spec_kdf_of_kem(*self),
    {
        match self {
            KemAlg::X25519HkdfSha256 => KdfAlg::HkdfSha256,
            KemAlg::X25519Kyber768Draft00 => KdfAlg::HkdfSha256,
            KemAlg::X448HkdfSha512 => KdfAlg::HkdfSha512,
            KemAlg::DhP256HkdfSha256 => KdfAlg::HkdfSha256,
            KemAlg::DhP384HkdfSha384 => KdfAlg::HkdfSha384,
            KemAlg::DhP521HkdfSha512 => KdfAlg::HkdfSha512,
        }
    }
}

/// A public key: an opaque byte payload tagged with the KEM it belongs to.
/// The bytes stay unparsed until they are lifted into one concrete
/// algorithm's representation at the point of use.
#[derive(Debug, Clone, PartialEq, Eq)]
pub struct AgilePublicKey {
    pub kem_alg: KemAlg,
    pub pubkey_bytes: Vec<u8>,
}

impl AgilePublicKey {
    pub fn new(kem_alg: KemAlg, pubkey_bytes: &[u8]) -> (r: Self)
        ensures
            r.kem_alg == kem_alg,
            r.pubkey_bytes@ == pubkey_bytes@,
    {
        AgilePublicKey { kem_alg, pubkey_bytes: vstd::slice::slice_to_vec(pubkey_bytes) }
    }

    pub fn to_bytes(&self) -> (r: Vec<u8>)
        ensures
            r@ == self.pubkey_bytes@,
    {
        vstd::slice::slice_to_vec(self.pubkey_bytes.as_slice())
    }
}

/// An encapsulated key produced by the sender-side setup, tagged with its KEM.
#[derive(Debug, Clone, PartialEq, Eq)]
pub struct AgileEncappedKey {
    pub kem_alg: KemAlg,
    pub encapped_key_bytes: Vec<u8>,
}

impl AgileEncappedKey {
    pub fn new(kem_alg: KemAlg, encapped_key_bytes: &[u8]) -> (r: Self)
        ensures
            r.kem_alg == kem_alg,
            r.encapped_key_bytes@ == encapped_key_bytes@,
    {
        AgileEncappedKey {
            kem_alg,
            encapped_key_bytes: vstd::slice::slice_to_vec(encapped_key_bytes),
        }
    }

    pub fn to_bytes(&self) -> (r: Vec<u8>)
        ensures
            r@ == self.encapped_key_bytes@,
    {
        vstd::slice::slice_to_vec(self.encapped_key_bytes.as_slice())
    }
}

/// A private key: an opaque byte payload tagged with the KEM it belongs to.
#[derive(Debug, Clone, PartialEq, Eq)]
pub struct AgilePrivateKey {
    pub kem_alg: KemAlg,
    pub privkey_bytes: Vec<u8>,
}

impl AgilePrivateKey {
    pub fn new(kem_alg: KemAlg, privkey_bytes: &[u8]) -> (r: Self)
        ensures
            r.kem_alg == kem_alg,
            r.privkey_bytes@ == privkey_bytes@,
    {
        AgilePrivateKey { kem_alg, privkey_bytes: vstd::slice::slice_to_vec(privkey_bytes) }
    }

    pub fn to_bytes(&self) -> (r: Vec<u8>)
        ensures
            r@ == self.privkey_bytes@,
    {
        vstd::slice::slice_to_vec(self.privkey_bytes.as_slice())
    }
}

/// An associated (private key, public key) pair. Both halves must carry the
/// same KEM tag; that is checked by an explicit `validate` step before use,
/// not enforced at construction.
#[derive(Debug, Clone, PartialEq, Eq)]
pub struct AgileKeypair(pub AgilePrivateKey, pub AgilePublicKey);

impl AgileKeypair {
    pub fn new(sk: AgilePrivateKey, pk: AgilePublicKey) -> (r: Self)
        ensures
            r.0 == sk,
            r.1 == pk,
    {
        AgileKeypair(sk, pk)
    }

    /// Both halves of the pair carry the same KEM tag.
    pub open spec fn spec_consistent(self) -> bool {
        self.0.kem_alg == self.1.kem_alg
    }

    /// What validation returns: success exactly when the pair is consistent,
    /// and otherwise the error naming both tags and their locations.
    pub open spec fn spec_validate_result(self) -> Result<(), AgileHpkeError> {
        if self.spec_consistent() {
            Ok(())
        } else {
            Err(
                AgileHpkeError::AlgMismatch(
                    self.0.kem_alg,
                    AlgLoc::KeypairPrivkey,
                    self.1.kem_alg,
                    AlgLoc::KeypairPubkey,
                ),
            )
        }
    }

    /// Checks that the two halves carry the same KEM tag, reporting the two
    /// conflicting tags and their locations otherwise.
    pub fn validate(&self) -> (r: Result<(), AgileHpkeError>)
        ensures
            self.spec_consistent() ==> r == Ok::<(), AgileHpkeError>(()),
            !self.spec_consistent() ==> r == Err::<(), AgileHpkeError>(
                AgileHpkeError::AlgMismatch(
                    self.0.kem_alg,
                    AlgLoc::KeypairPrivkey,
                    self.1.kem_alg,
                    AlgLoc::KeypairPubkey,
                ),
            ),
    {
        if self.0.kem_alg != self.1.kem_alg {
            Err(AgileHpkeError::AlgMismatch(
                self.0.kem_alg,
                AlgLoc::KeypairPrivkey,
                self.1.kem_alg,
                AlgLoc::KeypairPubkey,
            ))
        } else {
            Ok(())
        }
    }

    pub fn private_key(&self) -> (r: &AgilePrivateKey)
        ensures
            r == self.0,
    {
        &self.0
    }

    pub fn public_key(&self) -> (r: &AgilePublicKey)
        ensures
            r == self.1,
    {
        &self.1
    }
}

/// Opaque pre-shared-key material plus its identifier, used only by the
/// PSK-carrying modes.
#[derive(Debug, Clone, PartialEq, Eq)]
pub struct AgilePskBundle {
    pub psk: Vec<u8>,
    pub psk_id: Vec<u8>,
}

/// The four HPKE operation modes, receiver's view.
#[derive(Debug, Clone, PartialEq, Eq)]
pub enum AgileOpModeRTy {
    Base,
    Psk(AgilePskBundle),
    Auth(AgilePublicKey),
    AuthPsk(AgilePublicKey, AgilePskBundle),
}

/// A receiver operation mode together with the KEM it declares. Any key
/// embedded in the mode must carry the declared KEM's tag.
#[derive(Debug, Clone, PartialEq, Eq)]
pub struct AgileOpModeR {
    pub kem_alg: KemAlg,
    pub op_mode_ty: AgileOpModeRTy,
}

impl AgileOpModeR {
    pub fn new(kem_alg: KemAlg, op_mode_ty: AgileOpModeRTy) -> (r: Self)
        ensures
            r.kem_alg == kem_alg,
            r.op_mode_ty == op_mode_ty,
    {
        AgileOpModeR { kem_alg, op_mode_ty }
    }

    /// What validation returns: for the modes that embed a sender public key,
    /// its tag must equal the declared KEM.
    pub open spec fn spec_validate(self) -> Result<(), AgileHpkeError> {
        match self.op_mode_ty {
            AgileOpModeRTy::Auth(pk) => if pk.kem_alg != self.kem_alg {
                Err(
                    AgileHpkeError::AlgMismatch(
                        self.kem_alg,
                        AlgLoc::ModeKemAlg,
                        pk.kem_alg,
                        AlgLoc::ModePubkeyKemAlg,
                    ),
                )
            } else {
                Ok(())
            },
            AgileOpModeRTy::AuthPsk(pk, _) => if pk.kem_alg != self.kem_alg {
                Err(
                    AgileHpkeError::AlgMismatch(
                        self.kem_alg,
                        AlgLoc::ModeKemAlg,
                        pk.kem_alg,
                        AlgLoc::ModePubkeyKemAlg,
                    ),
                )
            } else {
                Ok(())
            },
            _ => Ok(()),
        }
    }

    /// Walks the mode variant and checks that every embedded key agrees with
    /// the declared KEM; any inconsistency is a hard error naming both tags,
    /// never an implicit coercion.
    pub fn validate(&self) -> (r: Result<(), AgileHpkeError>)
        ensures
            r == self.spec_validate(),
    {
        match &self.op_mode_ty {
            AgileOpModeRTy::Auth(pk) => {
                if pk.kem_alg != self.kem_alg {
                    return Err(AgileHpkeError::AlgMismatch(
                        self.kem_alg,
                        AlgLoc::ModeKemAlg,
                        pk.kem_alg,
                        AlgLoc::ModePubkeyKemAlg,
                    ));
                }
            },
            AgileOpModeRTy::AuthPsk(pk, _) => {
                if pk.kem_alg != self.kem_alg {
                    return Err(AgileHpkeError::AlgMismatch(
                        self.kem_alg,
                        AlgLoc::ModeKemAlg,
                        pk.kem_alg,
                        AlgLoc::ModePubkeyKemAlg,
                    ));
                }
            },
            _ => {},
        }
        Ok(())
    }
}

/// The four HPKE operation modes, sender's view.
#[derive(Debug, Clone, PartialEq, Eq)]
pub enum AgileOpModeSTy {
    Base,
    Psk(AgilePskBundle),
    Auth(AgileKeypair),
    AuthPsk(AgileKeypair, AgilePskBundle),
}

/// A sender operation mode together with the KEM it declares. Any keypair
/// embedded in the mode must be self-consistent and carry the declared KEM's
/// tag.
#[derive(Debug, Clone, PartialEq, Eq)]
pub struct AgileOpModeS {
    pub kem_alg: KemAlg,
    pub op_mode_ty: AgileOpModeSTy,
}

impl AgileOpModeS {
    pub fn new(kem_alg: KemAlg, op_mode_ty: AgileOpModeSTy) -> (r: Self)
        ensures
            r.kem_alg == kem_alg,
            r.op_mode_ty == op_mode_ty,
    {
        AgileOpModeS { kem_alg, op_mode_ty }
    }

    /// What validation returns: for the modes that embed a keypair, the pair
    /// must be self-consistent and its private key's tag must equal the
    /// declared KEM.
    pub open spec fn spec_validate(self) -> Result<(), AgileHpkeError> {
        match self.op_mode_ty {
            AgileOpModeSTy::Auth(kp) => if !kp.spec_consistent() {
                Err(
                    AgileHpkeError::AlgMismatch(
                        kp.0.kem_alg,
                        AlgLoc::KeypairPrivkey,
                        kp.1.kem_alg,
                        AlgLoc::KeypairPubkey,
                    ),
                )
            } else if kp.0.kem_alg != self.kem_alg {
                Err(
                    AgileHpkeError::AlgMismatch(
                        self.kem_alg,
                        AlgLoc::ModeKemAlg,
                        kp.0.kem_alg,
                        AlgLoc::ModePrivkeyKemAlg,
                    ),
                )
            } else {
                Ok(())
            },
            AgileOpModeSTy::AuthPsk(kp, _) => if !kp.spec_consistent() {
                Err(
                    AgileHpkeError::AlgMismatch(
                        kp.0.kem_alg,
                        AlgLoc::KeypairPrivkey,
                        kp.1.kem_alg,
                        AlgLoc::KeypairPubkey,
                    ),
                )
            } else if kp.0.kem_alg != self.kem_alg {
                Err(
                    AgileHpkeError::AlgMismatch(
                        self.kem_alg,
                        AlgLoc::ModeKemAlg,
                        kp.0.kem_alg,
                        AlgLoc::ModePrivkeyKemAlg,
                    ),
                )
            } else {
                Ok(())
            },
            _ => Ok(()),
        }
    }

    /// Walks the mode variant and checks that every embedded key agrees with
    /// the declared KEM; any inconsistency is a hard error naming both tags,
    /// never an implicit coercion.
    pub fn validate(&self) -> (r: Result<(), AgileHpkeError>)
        ensures
            r == self.spec_validate(),
    {
        match &self.op_mode_ty {
            AgileOpModeSTy::Auth(kp) => {
                kp.validate()?;
                if kp.0.kem_alg != self.kem_alg {
                    return Err(AgileHpkeError::AlgMismatch(
                        self.kem_alg,
                        AlgLoc::ModeKemAlg,
                        kp.0.kem_alg,
                        AlgLoc::ModePrivkeyKemAlg,
                    ));
                }
            },
            AgileOpModeSTy::AuthPsk(kp, _) => {
                kp.validate()?;
                if kp.0.kem_alg != self.kem_alg {
                    return Err(AgileHpkeError::AlgMismatch(
                        self.kem_alg,
                        AlgLoc::ModeKemAlg,
                        kp.0.kem_alg,
                        AlgLoc::ModePrivkeyKemAlg,
                    ));
                }
            },
            _ => {},
        }
        Ok(())
    }
}

/// A sender mode with a keypair whose private half disagrees with the mode's
/// declared KEM never validates: the error names the two conflicting tags
/// and where each stands.
pub proof fn lemma_validate_s_mismatch(m: AgileOpModeS, kp: AgileKeypair)
    requires
        ({
            ||| m.op_mode_ty matches AgileOpModeSTy::Auth(k) && k == kp
            ||| m.op_mode_ty matches AgileOpModeSTy::AuthPsk(k, _) && k == kp
        }),
        kp.spec_consistent(),
        kp.0.kem_alg != m.kem_alg,
    ensures
        m.spec_validate() == Err::<(), AgileHpkeError>(
            AgileHpkeError::AlgMismatch(
                m.kem_alg,
                AlgLoc::ModeKemAlg,
                kp.0.kem_alg,
                AlgLoc::ModePrivkeyKemAlg,
            ),
        ),
{
}

/// A receiver mode with an embedded sender public key whose tag disagrees
/// with the mode's declared KEM never validates: the error names the two
/// conflicting tags and where each stands.
pub proof fn lemma_validate_r_mismatch(m: AgileOpModeR, pk: AgilePublicKey)
    requires
        ({
            ||| m.op_mode_ty matches AgileOpModeRTy::Auth(k) && k == pk
            ||| m.op_mode_ty matches AgileOpModeRTy::AuthPsk(k, _) && k == pk
        }),
        pk.kem_alg != m.kem_alg,
    ensures
        m.spec_validate() == Err::<(), AgileHpkeError>(
            AgileHpkeError::AlgMismatch(
                m.kem_alg,
                AlgLoc::ModeKemAlg,
                pk.kem_alg,
                AlgLoc::ModePubkeyKemAlg,
            ),
        ),
{
}

/// The name of a KEM as a character sequence.
pub open spec fn spec_kem_name(a: KemAlg) -> Seq<char> {
    match a {
        KemAlg::DhP256HkdfSha256 => "DhP256HkdfSha256"@,
        KemAlg::DhP384HkdfSha384 => "DhP384HkdfSha384"@,
        KemAlg::DhP521HkdfSha512 => "DhP521HkdfSha512"@,
        KemAlg::X25519HkdfSha256 => "X25519HkdfSha256"@,
        KemAlg::X25519Kyber768Draft00 => "X25519Kyber768Draft00"@,
        KemAlg::X448HkdfSha512 => "X448HkdfSha512"@,
    }
}

} // verus!
