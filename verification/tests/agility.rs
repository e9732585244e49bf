//! End-to-end tests of the agile HPKE flows: the registry bijection, mode
//! validation, dispatch over every compiled triple, tamper detection, and
//! the plugin-side wrap/unwrap scenario.

use age_plugin_hpke::agile::{
    AeadAlg, AgileEncappedKey, AgileHpkeError, AgileKeypair, AgileOpModeR, AgileOpModeRTy,
    AgileOpModeS, AgileOpModeSTy, AgilePrivateKey, AgilePublicKey, AlgKind, AlgLoc, KdfAlg, KemAlg,
};
use rand::rngs::StdRng;
use rand::SeedableRng;
use age_plugin_hpke::dispatch::{agile_gen_keypair, agile_setup_receiver, agile_setup_sender};
use age_plugin_hpke::internal::{Identity, IdentityPlugin, Recipient, RecipientPlugin};
use age_plugin_hpke::stanza::Stanza;
use age_plugin_hpke::{convert_identity_to_recipient, new_identity};

const SUPPORTED_KEMS: [KemAlg; 2] = [KemAlg::X25519HkdfSha256, KemAlg::DhP256HkdfSha256];
const AEADS: [AeadAlg; 3] = [AeadAlg::ChaCha20Poly1305, AeadAlg::AesGcm128, AeadAlg::AesGcm256];

#[test]
fn kem_id_bijection() {
    let all = [
        KemAlg::DhP256HkdfSha256,
        KemAlg::DhP384HkdfSha384,
        KemAlg::DhP521HkdfSha512,
        KemAlg::X25519HkdfSha256,
        KemAlg::X448HkdfSha512,
        KemAlg::X25519Kyber768Draft00,
    ];
    for kem in all {
        assert_eq!(KemAlg::try_from_u16(kem.to_u16()), Ok(kem));
    }
    assert_eq!(KemAlg::try_from_u16(0x10), Ok(KemAlg::DhP256HkdfSha256));
    assert_eq!(KemAlg::try_from_u16(0x20), Ok(KemAlg::X25519HkdfSha256));
    for bad in [0x00u16, 0x13, 0x1f, 0x23, 0xffff] {
        assert_eq!(
            KemAlg::try_from_u16(bad),
            Err(AgileHpkeError::UnknownAlgIdent(AlgKind::Kem, bad))
        );
    }
}

#[test]
fn aead_and_kdf_id_bijection() {
    for aead in AEADS {
        assert_eq!(AeadAlg::try_from_u16(aead.to_u16()), Ok(aead));
    }
    for kdf in [KdfAlg::HkdfSha256, KdfAlg::HkdfSha384, KdfAlg::HkdfSha512] {
        assert_eq!(KdfAlg::try_from_u16(kdf.to_u16()), Ok(kdf));
    }
    assert_eq!(
        AeadAlg::try_from_u16(0x04),
        Err(AgileHpkeError::UnknownAlgIdent(AlgKind::Aead, 0x04))
    );
    assert_eq!(
        KdfAlg::try_from_u16(0x00),
        Err(AgileHpkeError::UnknownAlgIdent(AlgKind::Kdf, 0x00))
    );
}

#[test]
fn canonical_kdf_pairing() {
    assert_eq!(KemAlg::X25519HkdfSha256.kdf_alg(), KdfAlg::HkdfSha256);
    assert_eq!(KemAlg::X25519Kyber768Draft00.kdf_alg(), KdfAlg::HkdfSha256);
    assert_eq!(KemAlg::DhP256HkdfSha256.kdf_alg(), KdfAlg::HkdfSha256);
    assert_eq!(KemAlg::DhP384HkdfSha384.kdf_alg(), KdfAlg::HkdfSha384);
    assert_eq!(KemAlg::DhP521HkdfSha512.kdf_alg(), KdfAlg::HkdfSha512);
    assert_eq!(KemAlg::X448HkdfSha512.kdf_alg(), KdfAlg::HkdfSha512);
}

#[test]
fn keypair_validate_reports_both_locations() {
    let sk = AgilePrivateKey::new(KemAlg::X25519HkdfSha256, &[1u8; 32]);
    let pk = AgilePublicKey::new(KemAlg::DhP256HkdfSha256, &[2u8; 65]);
    let kp = AgileKeypair::new(sk, pk);
    assert_eq!(
        kp.validate(),
        Err(AgileHpkeError::AlgMismatch(
            KemAlg::X25519HkdfSha256,
            AlgLoc::KeypairPrivkey,
            KemAlg::DhP256HkdfSha256,
            AlgLoc::KeypairPubkey,
        ))
    );
    let sk2 = AgilePrivateKey::new(KemAlg::X25519HkdfSha256, &[1u8; 32]);
    let pk2 = AgilePublicKey::new(KemAlg::X25519HkdfSha256, &[2u8; 32]);
    assert_eq!(AgileKeypair::new(sk2, pk2).validate(), Ok(()));
}

#[test]
fn mode_validate_mismatch_never_succeeds() {
    // Sender side: the embedded keypair's tag disagrees with the mode's KEM.
    let mut rng = StdRng::from_entropy();
    let kp = agile_gen_keypair(KemAlg::X25519HkdfSha256, &mut rng).unwrap();
    let mode_s = AgileOpModeS::new(KemAlg::DhP256HkdfSha256, AgileOpModeSTy::Auth(kp.clone()));
    assert_eq!(
        mode_s.validate(),
        Err(AgileHpkeError::AlgMismatch(
            KemAlg::DhP256HkdfSha256,
            AlgLoc::ModeKemAlg,
            KemAlg::X25519HkdfSha256,
            AlgLoc::ModePrivkeyKemAlg,
        ))
    );
    // Receiver side: the embedded sender public key disagrees.
    let mode_r = AgileOpModeR::new(
        KemAlg::DhP256HkdfSha256,
        AgileOpModeRTy::Auth(kp.public_key().clone()),
    );
    assert_eq!(
        mode_r.validate(),
        Err(AgileHpkeError::AlgMismatch(
            KemAlg::DhP256HkdfSha256,
            AlgLoc::ModeKemAlg,
            KemAlg::X25519HkdfSha256,
            AlgLoc::ModePubkeyKemAlg,
        ))
    );
    // Consistent modes validate.
    let mode_ok = AgileOpModeS::new(KemAlg::X25519HkdfSha256, AgileOpModeSTy::Auth(kp));
    assert_eq!(mode_ok.validate(), Ok(()));
}

#[test]
fn round_trip_every_supported_triple_and_length() {
    let mut rng = StdRng::from_entropy();
    let info = b"round trip";
    let aad = b"aad bytes";
    let lengths: [usize; 4] = [0, 1, 16, 100];
    for kem in SUPPORTED_KEMS {
        let kdf = kem.kdf_alg();
        for aead in AEADS {
            let kp = agile_gen_keypair(kem, &mut rng).unwrap();
            for n in lengths {
                let plaintext: Vec<u8> = (0..n).map(|i| (i * 7 + 3) as u8).collect();
                let mode_s = AgileOpModeS::new(kem, AgileOpModeSTy::Base);
                let (encapped, mut sender) = agile_setup_sender(
                    aead,
                    kdf,
                    kem,
                    &mode_s,
                    kp.public_key(),
                    info,
                    &mut rng,
                )
                .unwrap();
                assert_eq!(sender.aead_alg(), aead);
                assert_eq!(sender.kdf_alg(), kdf);
                assert_eq!(sender.kem_alg(), kem);
                let ciphertext = sender.seal(&plaintext, aad).unwrap();
                assert_eq!(ciphertext.len(), plaintext.len() + 16);
                if n > 0 {
                    assert_ne!(&ciphertext[..n], &plaintext[..]);
                }
                let mode_r = AgileOpModeR::new(kem, AgileOpModeRTy::Base);
                let mut receiver = agile_setup_receiver(
                    aead,
                    kdf,
                    kem,
                    &mode_r,
                    &kp,
                    &encapped,
                    info,
                )
                .unwrap();
                let recovered = receiver.open(&ciphertext, aad).unwrap();
                assert_eq!(recovered, plaintext);
            }
        }
    }
}

#[test]
fn round_trip_auth_and_psk_modes() {
    let mut rng = StdRng::from_entropy();
    let kem = KemAlg::X25519HkdfSha256;
    let kdf = kem.kdf_alg();
    let aead = AeadAlg::ChaCha20Poly1305;
    let recip_kp = agile_gen_keypair(kem, &mut rng).unwrap();
    let sender_kp = agile_gen_keypair(kem, &mut rng).unwrap();
    let psk = age_plugin_hpke::agile::AgilePskBundle {
        psk: vec![0x42; 32],
        psk_id: b"a preshared key".to_vec(),
    };
    let plaintext = b"auth mode payload".to_vec();
    let modes: Vec<(AgileOpModeSTy, AgileOpModeRTy)> = vec![
        (
            AgileOpModeSTy::Psk(psk.clone()),
            AgileOpModeRTy::Psk(psk.clone()),
        ),
        (
            AgileOpModeSTy::Auth(sender_kp.clone()),
            AgileOpModeRTy::Auth(sender_kp.public_key().clone()),
        ),
        (
            AgileOpModeSTy::AuthPsk(sender_kp.clone(), psk.clone()),
            AgileOpModeRTy::AuthPsk(sender_kp.public_key().clone(), psk.clone()),
        ),
    ];
    for (s_ty, r_ty) in modes {
        let mode_s = AgileOpModeS::new(kem, s_ty);
        let (encapped, mut sender) =
            agile_setup_sender(aead, kdf, kem, &mode_s, recip_kp.public_key(), b"i", &mut rng)
                .unwrap();
        let ct = sender.seal(&plaintext, b"a").unwrap();
        let mode_r = AgileOpModeR::new(kem, r_ty);
        let mut receiver =
            agile_setup_receiver(aead, kdf, kem, &mode_r, &recip_kp, &encapped, b"i").unwrap();
        assert_eq!(receiver.open(&ct, b"a").unwrap(), plaintext);
    }
}

#[test]
fn tampering_any_byte_fails_open() {
    let mut rng = StdRng::from_entropy();
    let info = b"tamper";
    let aad = b"aad";
    let plaintext = b"sixteen byte key".to_vec();
    for kem in SUPPORTED_KEMS {
        let kdf = kem.kdf_alg();
        for aead in AEADS {
            let kp = agile_gen_keypair(kem, &mut rng).unwrap();
            let mode_s = AgileOpModeS::new(kem, AgileOpModeSTy::Base);
            let (encapped, mut sender) =
                agile_setup_sender(aead, kdf, kem, &mode_s, kp.public_key(), info, &mut rng)
                    .unwrap();
            let mut ciphertext = plaintext.clone();
            let tag = sender
                .seal_in_place_detached(&mut ciphertext, aad)
                .unwrap();
            let mode_r = AgileOpModeR::new(kem, AgileOpModeRTy::Base);
            for i in 0..ciphertext.len() {
                let mut bad = ciphertext.clone();
                bad[i] ^= 0x01;
                let mut receiver =
                    agile_setup_receiver(aead, kdf, kem, &mode_r, &kp, &encapped, info).unwrap();
                assert_eq!(
                    receiver.open_in_place_detached(&mut bad, aad, &tag),
                    Err(AgileHpkeError::OpenError)
                );
            }
            for i in 0..tag.len() {
                let mut bad_tag = tag.clone();
                bad_tag[i] ^= 0x80;
                let mut buf = ciphertext.clone();
                let mut receiver =
                    agile_setup_receiver(aead, kdf, kem, &mode_r, &kp, &encapped, info).unwrap();
                assert_eq!(
                    receiver.open_in_place_detached(&mut buf, aad, &bad_tag),
                    Err(AgileHpkeError::OpenError)
                );
            }
            // Tampered associated data must also fail authentication.
            let mut buf = ciphertext.clone();
            let mut receiver =
                agile_setup_receiver(aead, kdf, kem, &mode_r, &kp, &encapped, info).unwrap();
            assert_eq!(
                receiver.open_in_place_detached(&mut buf, b"axd", &tag),
                Err(AgileHpkeError::OpenError)
            );
            // The untampered exchange still opens.
            let mut buf = ciphertext.clone();
            let mut receiver =
                agile_setup_receiver(aead, kdf, kem, &mode_r, &kp, &encapped, info).unwrap();
            assert_eq!(receiver.open_in_place_detached(&mut buf, aad, &tag), Ok(()));
            assert_eq!(buf, plaintext);
        }
    }
}

#[test]
fn dispatch_unsupported_kem_never_falls_back() {
    let mut rng = StdRng::from_entropy();
    // DhP384 is registered (it has a wire ID) but not in the compiled list.
    let kem = KemAlg::DhP384HkdfSha384;
    let pk = AgilePublicKey::new(kem, &[0u8; 97]);
    let mode_s = AgileOpModeS::new(kem, AgileOpModeSTy::Base);
    let r = agile_setup_sender(
        AeadAlg::ChaCha20Poly1305,
        KdfAlg::HkdfSha384,
        kem,
        &mode_s,
        &pk,
        b"i",
        &mut rng,
    );
    assert!(matches!(r, Err(AgileHpkeError::DispatchUnsupported)));
    let kp = AgileKeypair::new(
        AgilePrivateKey::new(kem, &[0u8; 48]),
        AgilePublicKey::new(kem, &[0u8; 97]),
    );
    let encapped = AgileEncappedKey::new(kem, &[0u8; 97]);
    let mode_r = AgileOpModeR::new(kem, AgileOpModeRTy::Base);
    let r2 = agile_setup_receiver(
        AeadAlg::ChaCha20Poly1305,
        KdfAlg::HkdfSha384,
        kem,
        &mode_r,
        &kp,
        &encapped,
        b"i",
    );
    assert!(matches!(r2, Err(AgileHpkeError::DispatchUnsupported)));
    // A supported KEM under the wrong KDF is also outside the compiled list.
    let kp2 = agile_gen_keypair(KemAlg::X25519HkdfSha256, &mut rng).unwrap();
    let mode3 = AgileOpModeS::new(KemAlg::X25519HkdfSha256, AgileOpModeSTy::Base);
    let r3 = agile_setup_sender(
        AeadAlg::ChaCha20Poly1305,
        KdfAlg::HkdfSha512,
        KemAlg::X25519HkdfSha256,
        &mode3,
        kp2.public_key(),
        b"i",
        &mut rng,
    );
    assert!(matches!(r3, Err(AgileHpkeError::DispatchUnsupported)));
}

#[test]
fn setup_rejects_malformed_recipient_key() {
    let mut rng = StdRng::from_entropy();
    let kem = KemAlg::X25519HkdfSha256;
    // 31 bytes is not a valid X25519 public key.
    let pk = AgilePublicKey::new(kem, &[0u8; 31]);
    let mode_s = AgileOpModeS::new(kem, AgileOpModeSTy::Base);
    let r = agile_setup_sender(
        AeadAlg::ChaCha20Poly1305,
        KdfAlg::HkdfSha256,
        kem,
        &mode_s,
        &pk,
        b"i",
        &mut rng,
    );
    assert!(matches!(r, Err(AgileHpkeError::InvalidKey)));
}

#[test]
fn setup_reports_identifier_mismatches_in_order() {
    let mut rng = StdRng::from_entropy();
    let kp = agile_gen_keypair(KemAlg::X25519HkdfSha256, &mut rng).unwrap();
    // The recipient key is tagged with a different KEM than the mode declares.
    let other_pk = AgilePublicKey::new(KemAlg::DhP256HkdfSha256, &[0u8; 65]);
    let mode_s = AgileOpModeS::new(KemAlg::X25519HkdfSha256, AgileOpModeSTy::Base);
    let r = agile_setup_sender(
        AeadAlg::ChaCha20Poly1305,
        KdfAlg::HkdfSha256,
        KemAlg::X25519HkdfSha256,
        &mode_s,
        &other_pk,
        b"i",
        &mut rng,
    );
    assert_eq!(
        r.err().map(|e| format!("{e:?}")),
        Some(format!(
            "{:?}",
            AgileHpkeError::AlgMismatch(
                KemAlg::X25519HkdfSha256,
                AlgLoc::ModeKemAlg,
                KemAlg::DhP256HkdfSha256,
                AlgLoc::RecipPubkeyKemAlg,
            )
        ))
    );
    // The requested KEM disagrees with the mode's declared KEM.
    let r2 = agile_setup_sender(
        AeadAlg::ChaCha20Poly1305,
        KdfAlg::HkdfSha256,
        KemAlg::DhP256HkdfSha256,
        &mode_s,
        kp.public_key(),
        b"i",
        &mut rng,
    );
    assert_eq!(
        r2.err().map(|e| format!("{e:?}")),
        Some(format!(
            "{:?}",
            AgileHpkeError::AlgMismatch(
                KemAlg::DhP256HkdfSha256,
                AlgLoc::RequestedKemAlg,
                KemAlg::X25519HkdfSha256,
                AlgLoc::ModeKemAlg,
            )
        ))
    );
}

#[test]
fn wrap_and_unwrap_scenario() {
    // Generate an X25519/ChaCha identity with associated data "test", wrap
    // the all-zero 16-byte file key, and check the stanza shape.
    let mut rng = StdRng::from_entropy();
    let kem = KemAlg::X25519HkdfSha256;
    let aead = AeadAlg::ChaCha20Poly1305;
    let (id_bytes, rec_bytes) = new_identity(kem, aead, b"test", &mut rng).unwrap();
    let identity = Identity::from_bytes(&id_bytes).unwrap();
    let recipient = Recipient::from_bytes(&rec_bytes).unwrap();
    assert_eq!(recipient.associated_data, b"test".to_vec());

    let file_key = [0u8; 16];
    let stanza = recipient.wrap_file_key(&file_key, &mut rng).unwrap();
    assert_eq!(stanza.tag, b"hpke".to_vec());
    assert_eq!(stanza.args.len(), 3);
    assert!(!stanza.body.is_empty());
    assert_ne!(stanza.body, file_key.to_vec());

    let unwrapped = identity.unwrap_stanza(&stanza).unwrap().unwrap();
    assert_eq!(unwrapped, file_key.to_vec());

    // A different, unrelated identity yields an authentication failure, not
    // a crash.
    let (other_id_bytes, _) = new_identity(kem, aead, b"test", &mut rng).unwrap();
    let other_identity = Identity::from_bytes(&other_id_bytes).unwrap();
    let stolen = other_identity.unwrap_stanza(&stanza).unwrap();
    assert_eq!(stolen, Err(AgileHpkeError::OpenError));

    // A stanza for another scheme is not ours to answer.
    let mut foreign = stanza.clone();
    foreign.tag = b"ssh".to_vec();
    assert!(identity.unwrap_stanza(&foreign).is_none());
}

#[test]
fn convert_identity_matches_generated_recipient() {
    let mut rng = StdRng::from_entropy();
    for kem in SUPPORTED_KEMS {
        let (id_bytes, rec_bytes) = new_identity(kem, AeadAlg::AesGcm256, b"", &mut rng).unwrap();
        let converted = convert_identity_to_recipient(&id_bytes).unwrap();
        // The generated recipient had empty associated data here, so the
        // conversion must reproduce it byte for byte.
        assert_eq!(converted, rec_bytes);
    }
    assert_eq!(
        convert_identity_to_recipient(&[]),
        Err(AgileHpkeError::FormatError)
    );
}

#[test]
fn plugins_collect_and_process() {
    let mut rng = StdRng::from_entropy();
    let (id_bytes, rec_bytes) =
        new_identity(KemAlg::X25519HkdfSha256, AeadAlg::ChaCha20Poly1305, b"ad", &mut rng).unwrap();

    let mut rp = RecipientPlugin::new();
    assert_eq!(rp.add_recipient(b"hpke", &rec_bytes), Ok(()));
    assert_eq!(rp.add_identity(b"hpke", &id_bytes), Ok(()));
    assert_eq!(
        rp.add_recipient(b"other", &rec_bytes),
        Err(AgileHpkeError::FormatError)
    );
    let file_keys = vec![vec![7u8; 16], vec![9u8; 16]];
    let wrapped = rp.wrap_file_keys(&file_keys, &mut rng).unwrap();
    assert_eq!(wrapped.len(), 2);
    assert_eq!(wrapped[0].len(), 1);

    let mut ip = IdentityPlugin::new();
    assert_eq!(ip.add_identity(b"hpke", &id_bytes), Ok(()));
    assert_eq!(
        ip.add_identity(b"hpke", b"junk"),
        Err(AgileHpkeError::FormatError)
    );
    assert_eq!(
        ip.add_identity(b"hpke", b"not an identity"),
        Err(AgileHpkeError::UnknownAlgIdent(AlgKind::Kem, u16::from_le_bytes([b'n', b'o'])))
    );
    let results = ip.unwrap_file_keys(&wrapped);
    assert_eq!(results.len(), 2);
    assert_eq!(results[0].clone().unwrap().unwrap(), vec![7u8; 16]);
    assert_eq!(results[1].clone().unwrap().unwrap(), vec![9u8; 16]);

    // A file with no stanza of ours gets no entry.
    let results2 = ip.unwrap_file_keys(&vec![vec![]]);
    assert_eq!(results2, vec![None]);
}

#[test]
fn wrong_length_tag_always_fails_open() {
    let mut rng = StdRng::from_entropy();
    let kem = KemAlg::X25519HkdfSha256;
    let kp = agile_gen_keypair(kem, &mut rng).unwrap();
    let mode_s = AgileOpModeS::new(kem, AgileOpModeSTy::Base);
    let (encapped, mut sender) = agile_setup_sender(
        AeadAlg::ChaCha20Poly1305,
        KdfAlg::HkdfSha256,
        kem,
        &mode_s,
        kp.public_key(),
        b"i",
        &mut rng,
    )
    .unwrap();
    let mut buf = b"sixteen byte key".to_vec();
    let tag = sender.seal_in_place_detached(&mut buf, b"a").unwrap();
    let mode_r = AgileOpModeR::new(kem, AgileOpModeRTy::Base);
    for bad_tag in [&tag[..3], &tag[..15], &[][..]] {
        let mut ct = buf.clone();
        let mut receiver = agile_setup_receiver(
            AeadAlg::ChaCha20Poly1305,
            KdfAlg::HkdfSha256,
            kem,
            &mode_r,
            &kp,
            &encapped,
            b"i",
        )
        .unwrap();
        assert_eq!(
            receiver.open_in_place_detached(&mut ct, b"a", bad_tag),
            Err(AgileHpkeError::OpenError)
        );
    }
}

#[test]
fn wrap_file_keys_on_empty_input_succeeds() {
    let mut rng = StdRng::from_entropy();
    let (_, rec_bytes) =
        new_identity(KemAlg::X25519HkdfSha256, AeadAlg::ChaCha20Poly1305, b"ad", &mut rng).unwrap();
    // No file keys: nothing to wrap, so nothing can fail.
    let mut rp = RecipientPlugin::new();
    rp.add_recipient(b"hpke", &rec_bytes).unwrap();
    assert_eq!(rp.wrap_file_keys(&vec![], &mut rng), Ok(vec![]));
    // No recipients: every file gets an empty stanza list.
    let rp2 = RecipientPlugin::new();
    let wrapped = rp2.wrap_file_keys(&vec![vec![0u8; 16]], &mut rng).unwrap();
    assert_eq!(wrapped, vec![Vec::new()]);
}

#[test]
fn unwrap_file_keys_reports_malformed_first_stanza() {
    let mut rng = StdRng::from_entropy();
    let (id_bytes, _) =
        new_identity(KemAlg::X25519HkdfSha256, AeadAlg::ChaCha20Poly1305, b"ad", &mut rng).unwrap();
    let mut ip = IdentityPlugin::new();
    ip.add_identity(b"hpke", &id_bytes).unwrap();
    // The first stanza of ours in the file has the wrong argument count:
    // the entry is the wire-format error, not a crash and not an
    // authentication failure.
    let malformed = Stanza {
        tag: b"hpke".to_vec(),
        args: vec![b"00".to_vec(), b"11".to_vec()],
        body: vec![1, 2, 3],
    };
    let results = ip.unwrap_file_keys(&vec![vec![malformed]]);
    assert_eq!(results, vec![Some(Err(AgileHpkeError::FormatError))]);
}

#[test]
fn p384_keys_generate_but_never_dispatch() {
    // P-384 has a key backend (generation and derivation) but no compiled
    // triple, so a P-384 recipient can be created and persisted yet wrapping
    // with it is a fatal configuration error.
    let mut rng = StdRng::from_entropy();
    let kem = KemAlg::DhP384HkdfSha384;
    let kp = agile_gen_keypair(kem, &mut rng).unwrap();
    assert_eq!(kp.private_key().to_bytes().len(), 48);
    assert_eq!(kp.public_key().to_bytes().len(), 97);
    let derived = kp.private_key().to_pk().unwrap();
    assert_eq!(derived.to_bytes(), kp.public_key().to_bytes());
    let (id_bytes, rec_bytes) = new_identity(kem, AeadAlg::AesGcm128, b"x", &mut rng).unwrap();
    assert_eq!(convert_identity_to_recipient(&id_bytes).is_ok(), true);
    let recipient = Recipient::from_bytes(&rec_bytes).unwrap();
    assert_eq!(
        recipient.wrap_file_key(&[0u8; 16], &mut rng),
        Err(AgileHpkeError::DispatchUnsupported)
    );
}

#[test]
fn gen_keypair_rejects_unregistered_backends() {
    let mut rng = StdRng::from_entropy();
    for kem in [KemAlg::X448HkdfSha512, KemAlg::DhP521HkdfSha512, KemAlg::X25519Kyber768Draft00] {
        assert!(matches!(
            agile_gen_keypair(kem, &mut rng),
            Err(AgileHpkeError::DispatchUnsupported)
        ));
    }
    let kp = agile_gen_keypair(KemAlg::X25519HkdfSha256, &mut rng).unwrap();
    assert_eq!(kp.validate(), Ok(()));
    assert_ne!(kp.private_key().to_bytes(), kp.public_key().to_bytes());
    // Public-key derivation is deterministic and reproduces the generated
    // public key.
    let derived = kp.private_key().to_pk().unwrap();
    assert_eq!(derived.to_bytes(), kp.public_key().to_bytes());
    let derived2 = kp.private_key().to_pk().unwrap();
    assert_eq!(derived.to_bytes(), derived2.to_bytes());
}
