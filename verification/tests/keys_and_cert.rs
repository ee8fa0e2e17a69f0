//! Serialization and deserialization of full identities, one pair of tests
//! per signing key algorithm, over deterministic fixture bytes.
#![allow(non_snake_case)]

use i2pd_rs::certificate::{Certificate, KeyCertificate};
use i2pd_rs::identity::KeysAndCert;
use i2pd_rs::keys::{PublicKey, PublicKeyType, SigningPublicKey, SigningPublicKeyType};

/// Deterministic pseudo-random bytes, so every run sees the same fixture.
fn sample_bytes(len: usize, seed: u64) -> Vec<u8> {
    let mut v = Vec::with_capacity(len);
    let mut state = seed.wrapping_mul(6364136223846793005).wrapping_add(1442695040888963407);
    for _ in 0..len {
        state = state.wrapping_mul(6364136223846793005).wrapping_add(1442695040888963407);
        v.push((state >> 33) as u8);
    }
    v
}

/// The `Key` certificate envelope for the given algorithm: tag, big-endian
/// payload length, both wire ids, and the overflow bytes of the key.
fn key_cert_envelope(alg_id: u16, signing_key: &[u8], overflow: usize) -> Vec<u8> {
    let mut c = vec![5u8];
    c.extend_from_slice(&((4 + overflow) as u16).to_be_bytes());
    c.extend_from_slice(&alg_id.to_be_bytes());
    c.extend_from_slice(&0u16.to_be_bytes());
    c.extend_from_slice(&signing_key[signing_key.len() - overflow..]);
    c
}

/// The full wire form: public key, zero padding, the low-order signing key
/// bytes, and the certificate envelope.
fn wire_bytes(public_key: &[u8], signing_key: &[u8], cert: &[u8]) -> Vec<u8> {
    let padding = 128usize.saturating_sub(signing_key.len());
    let overflow = signing_key.len().saturating_sub(128);
    let mut v = Vec::new();
    v.extend_from_slice(public_key);
    v.extend_from_slice(&vec![0u8; padding]);
    v.extend_from_slice(&signing_key[..signing_key.len() - overflow]);
    v.extend_from_slice(cert);
    v
}

/// Fixture data for one algorithm: the serialized identity, the public key
/// bytes, and the signing key bytes.
fn get_key_and_cert_fixture_data(alg_id: u16, key_length: usize) -> (Vec<u8>, Vec<u8>, Vec<u8>) {
    let public_key_data = sample_bytes(256, 1000 + alg_id as u64);
    let signing_key_data = sample_bytes(key_length, 2000 + alg_id as u64);
    let overflow = key_length.saturating_sub(128);
    let cert = if alg_id == 0 {
        // the legacy default declares no certificate
        vec![0u8, 0, 0]
    } else {
        key_cert_envelope(alg_id, &signing_key_data, overflow)
    };
    let keys_and_cert_data = wire_bytes(&public_key_data, &signing_key_data, &cert);
    (keys_and_cert_data, public_key_data, signing_key_data)
}

fn check_serialize(alg: SigningPublicKeyType, alg_id: u16, key_length: usize) {
    let (keys_and_cert_data, public_key_data, signing_key_data) =
        get_key_and_cert_fixture_data(alg_id, key_length);

    let public_key = PublicKey::ElGamal(public_key_data);
    let signing_key = SigningPublicKey::new(alg, &signing_key_data);
    let certificate = if alg_id == 0 {
        Certificate::Null
    } else {
        Certificate::Key(KeyCertificate::new(&public_key, &signing_key).unwrap())
    };
    let keys_and_cert = KeysAndCert::new(public_key, signing_key, certificate);

    let mut buffer: Vec<u8> = Vec::new();
    let size = keys_and_cert.serialize(&mut buffer).unwrap();
    let (padding_size, _) = SigningPublicKey::padding_size(&alg).unwrap();
    assert_eq!(keys_and_cert_data[..256], buffer[..256]);
    assert_eq!(
        keys_and_cert_data[256 + padding_size..size],
        buffer[256 + padding_size..]
    );
}

fn check_deserialize(alg: SigningPublicKeyType, alg_id: u16, key_length: usize) {
    let (keys_and_cert_data, public_key_data, signing_key_data) =
        get_key_and_cert_fixture_data(alg_id, key_length);

    let keys_and_cert_result = KeysAndCert::deserialize(keys_and_cert_data.as_slice());
    assert!(keys_and_cert_result.is_ok());
    let keys_and_cert = keys_and_cert_result.unwrap();

    match keys_and_cert.public_key() {
        PublicKey::ElGamal(data) => {
            assert_eq!(*public_key_data.as_slice(), **data);
        }
    };
    assert_eq!(alg, keys_and_cert.signing_key().get_type());
    assert_eq!(&signing_key_data, keys_and_cert.signing_key().data());
    if alg_id == 0 {
        assert_eq!(Certificate::Null, *keys_and_cert.certificate());
    } else {
        match keys_and_cert.certificate() {
            Certificate::Key(key_cert) => {
                assert_eq!(key_cert.crypto_key_type(), PublicKeyType::ElGamal);
                assert_eq!(key_cert.signing_key_type(), alg);
            }
            _ => assert!(false),
        }
    }
}

#[test]
fn test_serialize_DSA_SHA1_keys_and_cert() {
    check_serialize(SigningPublicKeyType::DSA_SHA1, 0, 128);
}

#[test]
fn test_deserialize_DSA_SHA1_keys_and_cert() {
    check_deserialize(SigningPublicKeyType::DSA_SHA1, 0, 128);
}

#[test]
fn test_serialize_ECDSA_SHA256_P256_keys_and_cert() {
    check_serialize(SigningPublicKeyType::ECDSA_SHA256_P256, 1, 64);
}

#[test]
fn test_deserialize_ECDSA_SHA256_P256_keys_and_cert() {
    check_deserialize(SigningPublicKeyType::ECDSA_SHA256_P256, 1, 64);
}

#[test]
fn test_serialize_ECDSA_SHA384_P384_keys_and_cert() {
    check_serialize(SigningPublicKeyType::ECDSA_SHA384_P384, 2, 96);
}

#[test]
fn test_deserialize_ECDSA_SHA384_P384_keys_and_cert() {
    check_deserialize(SigningPublicKeyType::ECDSA_SHA384_P384, 2, 96);
}

#[test]
fn test_serialize_ECDSA_SHA512_P521_keys_and_cert() {
    check_serialize(SigningPublicKeyType::ECDSA_SHA512_P521, 3, 132);
}

#[test]
fn test_deserialize_ECDSA_SHA512_P521_keys_and_cert() {
    check_deserialize(SigningPublicKeyType::ECDSA_SHA512_P521, 3, 132);
}

#[test]
fn test_serialize_EdDSA_SHA512_Ed25519_keys_and_cert() {
    check_serialize(SigningPublicKeyType::EdDSA_SHA512_Ed25519, 7, 32);
}

#[test]
fn test_deserialize_EdDSA_SHA512_Ed25519_keys_and_cert() {
    check_deserialize(SigningPublicKeyType::EdDSA_SHA512_Ed25519, 7, 32);
}

#[test]
fn test_serialize_EdDSA_SHA512_Ed25519ph_keys_and_cert() {
    check_serialize(SigningPublicKeyType::EdDSA_SHA512_Ed25519ph, 8, 32);
}

#[test]
fn test_deserialize_EdDSA_SHA512_Ed25519ph_keys_and_cert() {
    check_deserialize(SigningPublicKeyType::EdDSA_SHA512_Ed25519ph, 8, 32);
}

#[test]
fn test_serialize_RSA_SHA256_2048_keys_and_cert() {
    check_serialize(SigningPublicKeyType::RSA_SHA256_2048, 4, 256);
}

#[test]
fn test_deserialize_RSA_SHA256_2048_keys_and_cert() {
    check_deserialize(SigningPublicKeyType::RSA_SHA256_2048, 4, 256);
}

#[test]
fn test_serialize_RSA_SHA384_3072_keys_and_cert() {
    check_serialize(SigningPublicKeyType::RSA_SHA384_3072, 5, 384);
}

#[test]
fn test_deserialize_RSA_SHA384_3072_keys_and_cert() {
    check_deserialize(SigningPublicKeyType::RSA_SHA384_3072, 5, 384);
}

#[test]
fn test_serialize_RSA_SHA512_4096_keys_and_cert() {
    check_serialize(SigningPublicKeyType::RSA_SHA512_4096, 6, 512);
}

#[test]
fn test_deserialize_RSA_SHA512_4096_keys_and_cert() {
    check_deserialize(SigningPublicKeyType::RSA_SHA512_4096, 6, 512);
}
