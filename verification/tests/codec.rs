//! Wire-level tests: hex text, stanza framing, persisted identity and
//! recipient records, and comment stripping.

use age_plugin_hpke::agile::{AeadAlg, AgileHpkeError, AgilePrivateKey, AgilePublicKey, KdfAlg, KemAlg};
use age_plugin_hpke::hex::{hex_decode, hex_encode};
use age_plugin_hpke::internal::{Identity, Recipient};
use age_plugin_hpke::stanza::{decode_stanza, encode_stanza, Stanza};
use age_plugin_hpke::util::strip_comment_lines;

#[test]
fn hex_encode_matches_reference() {
    let samples: Vec<Vec<u8>> = vec![
        vec![],
        vec![0x00],
        vec![0xff],
        vec![0xde, 0xad, 0xbe, 0xef],
        (0u8..=255u8).collect(),
    ];
    for s in samples {
        assert_eq!(hex_encode(&s), hex::encode(&s).into_bytes());
    }
}

#[test]
fn hex_decode_accepts_both_cases() {
    assert_eq!(hex_decode(b"deadBEEF").unwrap(), vec![0xde, 0xad, 0xbe, 0xef]);
    assert_eq!(hex_decode(b"").unwrap(), Vec::<u8>::new());
}

#[test]
fn hex_decode_rejects_bad_input() {
    assert_eq!(hex_decode(b"abc"), Err(AgileHpkeError::FormatError));
    assert_eq!(hex_decode(b"zz"), Err(AgileHpkeError::FormatError));
    assert_eq!(hex_decode(b"0g"), Err(AgileHpkeError::FormatError));
}

#[test]
fn stanza_round_trip_arbitrary_bytes() {
    let aad: Vec<u8> = vec![0, 1, 2, 255, 128];
    let ek: Vec<u8> = (0u8..32).collect();
    let tag: Vec<u8> = vec![9; 16];
    let ct: Vec<u8> = vec![];
    let st = encode_stanza(&aad, &ek, &tag, &ct);
    assert_eq!(st.tag, b"hpke".to_vec());
    assert_eq!(st.args.len(), 3);
    let (aad2, ek2, tag2, ct2) = decode_stanza(&st).unwrap();
    assert_eq!(aad2, aad);
    assert_eq!(ek2, ek);
    assert_eq!(tag2, tag);
    assert_eq!(ct2, ct);
}

#[test]
fn stanza_decode_rejects_wrong_arg_count() {
    let two = Stanza { tag: b"hpke".to_vec(), args: vec![b"00".to_vec(), b"11".to_vec()], body: vec![] };
    assert_eq!(decode_stanza(&two), Err(AgileHpkeError::FormatError));
    let four = Stanza {
        tag: b"hpke".to_vec(),
        args: vec![b"00".to_vec(), b"11".to_vec(), b"22".to_vec(), b"33".to_vec()],
        body: vec![],
    };
    assert_eq!(decode_stanza(&four), Err(AgileHpkeError::FormatError));
}

#[test]
fn stanza_decode_rejects_non_hex_argument() {
    let st = Stanza {
        tag: b"hpke".to_vec(),
        args: vec![b"00".to_vec(), b"xy".to_vec(), b"22".to_vec()],
        body: vec![1, 2, 3],
    };
    assert_eq!(decode_stanza(&st), Err(AgileHpkeError::FormatError));
}

#[test]
fn identity_bytes_round_trip() {
    let sk = AgilePrivateKey::new(KemAlg::X25519HkdfSha256, &[7u8; 32]);
    let id = Identity::new(KemAlg::X25519HkdfSha256, AeadAlg::ChaCha20Poly1305, KdfAlg::HkdfSha256, &sk);
    let bytes = id.to_bytes();
    let back = Identity::from_bytes(&bytes).unwrap();
    assert_eq!(back, id);
}

#[test]
fn identity_bytes_reject_truncation_and_extension() {
    let sk = AgilePrivateKey::new(KemAlg::DhP256HkdfSha256, &[3u8; 32]);
    let id = Identity::new(KemAlg::DhP256HkdfSha256, AeadAlg::AesGcm256, KdfAlg::HkdfSha256, &sk);
    let bytes = id.to_bytes();
    let mut truncated = bytes.clone();
    truncated.pop();
    assert_eq!(Identity::from_bytes(&truncated), Err(AgileHpkeError::FormatError));
    let mut extended = bytes.clone();
    extended.push(0);
    assert_eq!(Identity::from_bytes(&extended), Err(AgileHpkeError::FormatError));
    assert_eq!(Identity::from_bytes(&[]), Err(AgileHpkeError::FormatError));
}

#[test]
fn identity_bytes_reject_unknown_ids() {
    let sk = AgilePrivateKey::new(KemAlg::X25519HkdfSha256, &[7u8; 32]);
    let id = Identity::new(KemAlg::X25519HkdfSha256, AeadAlg::ChaCha20Poly1305, KdfAlg::HkdfSha256, &sk);
    let mut bytes = id.to_bytes();
    // The first two bytes are the little-endian KEM ID; 0x99 is unregistered.
    bytes[0] = 0x99;
    bytes[1] = 0x00;
    assert_eq!(
        Identity::from_bytes(&bytes),
        Err(AgileHpkeError::UnknownAlgIdent(age_plugin_hpke::agile::AlgKind::Kem, 0x99))
    );
}

#[test]
fn recipient_bytes_round_trip() {
    let pk = AgilePublicKey::new(KemAlg::X25519HkdfSha256, &[9u8; 32]);
    let rec = Recipient::new(
        KemAlg::X25519HkdfSha256,
        AeadAlg::AesGcm128,
        KdfAlg::HkdfSha256,
        &pk,
        b"some associated data",
    );
    let bytes = rec.to_bytes();
    let back = Recipient::from_bytes(&bytes).unwrap();
    assert_eq!(back, rec);
}

#[test]
fn recipient_bytes_reject_truncation_and_extension() {
    let pk = AgilePublicKey::new(KemAlg::X25519HkdfSha256, &[9u8; 32]);
    let rec = Recipient::new(KemAlg::X25519HkdfSha256, AeadAlg::AesGcm128, KdfAlg::HkdfSha256, &pk, b"ad");
    let bytes = rec.to_bytes();
    let mut truncated = bytes.clone();
    truncated.pop();
    assert_eq!(Recipient::from_bytes(&truncated), Err(AgileHpkeError::FormatError));
    let mut extended = bytes.clone();
    extended.push(0);
    assert_eq!(Recipient::from_bytes(&extended), Err(AgileHpkeError::FormatError));
}

#[test]
fn strip_comment_lines_drops_header() {
    let text = b"# created: now\n# recipient: age1xyz\nAGE-PLUGIN-HPKE-1ABC";
    assert_eq!(strip_comment_lines(text), b"AGE-PLUGIN-HPKE-1ABC".to_vec());
    let spaced = b"  \n\t# only a comment";
    assert_eq!(strip_comment_lines(spaced), Vec::<u8>::new());
    let plain = b"AGE-PLUGIN-HPKE-1ABC";
    assert_eq!(strip_comment_lines(plain), plain.to_vec());
}
