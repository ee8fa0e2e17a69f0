#![allow(non_camel_case_types)]

use crate::error::Error;
use vstd::prelude::*;
use vstd::slice::{slice_subrange, slice_to_vec};

verus! {

/// The registry of crypto (encryption) key algorithms; one exists today.
#[derive(Clone, Copy, Debug, PartialEq, Eq, Structural)]
pub enum PublicKeyType {
    ElGamal,
}

impl PublicKeyType {
    /// The identifier this algorithm carries on the wire.
    pub open spec fn spec_wire_id(self) -> u16 {
        match self {
            PublicKeyType::ElGamal => 0,
        }
    }

    /// The algorithm a wire identifier names, or the error a decoder reports.
    pub open spec fn spec_from_u16(t: u16) -> Result<PublicKeyType, Error> {
        if t == 0 {
            Ok(PublicKeyType::ElGamal)
        } else {
            Err(Error::UnsupportedAlgorithm(t))
        }
    }

    pub fn wire_id(self) -> (id: u16)
        ensures
            id == self.spec_wire_id(),
    {
        match self {
            PublicKeyType::ElGamal => 0,
        }
    }

    pub fn from_u16(t: u16) -> (r: Result<PublicKeyType, Error>)
        ensures
            r == PublicKeyType::spec_from_u16(t),
    {
        match t {
            0 => Ok(PublicKeyType::ElGamal),
            _ => Err(Error::UnsupportedAlgorithm(t)),
        }
    }
}

/// An encryption public key: an algorithm-tagged blob of raw bytes.
#[derive(Debug, PartialEq)]
pub enum PublicKey {
    ElGamal(Vec<u8>),
}

/// The serialized size of an ElGamal public key.
pub const PUBLIC_KEY_LENGTH: usize = 256;

impl View for PublicKey {
    type V = Seq<u8>;

    open spec fn view(&self) -> Seq<u8> {
        match self {
            PublicKey::ElGamal(data) => data@,
        }
    }
}

impl PublicKey {
    /// A well-formed public key fills its fixed-size slot exactly.
    pub open spec fn wf(self) -> bool {
        self@.len() == PUBLIC_KEY_LENGTH
    }

    pub fn get_type(&self) -> (t: PublicKeyType)
        ensures
            t == PublicKeyType::ElGamal,
    {
        match self {
            PublicKey::ElGamal(_) => PublicKeyType::ElGamal,
        }
    }

    pub fn length(&self) -> (n: usize)
        ensures
            n == self@.len(),
    {
        match self {
            PublicKey::ElGamal(data) => data.len(),
        }
    }

    /// Append the raw key bytes to `out`.
    pub fn serialize(&self, out: &mut Vec<u8>) -> (r: Result<usize, Error>)
        ensures
            final(out)@ == old(out)@ + self@,
            r == Ok::<usize, Error>(self@.len() as usize),
    {
        match self {
            PublicKey::ElGamal(data) => {
                crate::wire::push_bytes(out, data.as_slice(), 0, data.len());
                proof {
                    assert(data@.subrange(0, data@.len() as int) =~= data@);
                }
                Ok(data.len())
            },
        }
    }

    /// Read an ElGamal key from the first `PUBLIC_KEY_LENGTH` bytes of `input`.
    pub fn deserialize(input: &[u8]) -> (r: Result<PublicKey, Error>)
        ensures
            input@.len() >= PUBLIC_KEY_LENGTH ==> (r matches Ok(k) && k@ == input@.subrange(
                0,
                PUBLIC_KEY_LENGTH as int,
            )),
            input@.len() < PUBLIC_KEY_LENGTH ==> r == Err::<PublicKey, Error>(
                Error::TruncatedInput,
            ),
    {
        if input.len() < PUBLIC_KEY_LENGTH {
            return Err(Error::TruncatedInput);
        }
        let data = slice_to_vec(slice_subrange(input, 0, PUBLIC_KEY_LENGTH));
        Ok(PublicKey::ElGamal(data))
    }
}

/// An encryption private key, opaque to this codec.
pub enum PrivateKey {
    ElGamal(Vec<u8>),
}

/// A symmetric session key, opaque to this codec.
pub enum SessionKey {
    ElGamal(Vec<u8>),
}

/// The registry of signing key algorithms.
#[derive(Clone, Copy, Debug, PartialEq, Eq, Structural)]
pub enum SigningPublicKeyType {
    DSA_SHA1,
    ECDSA_SHA256_P256,
    ECDSA_SHA384_P384,
    ECDSA_SHA512_P521,
    RSA_SHA256_2048,
    RSA_SHA384_3072,
    RSA_SHA512_4096,
    EdDSA_SHA512_Ed25519,
    EdDSA_SHA512_Ed25519ph,
}

/// The size of the legacy signing key slot, sized for `DSA_SHA1`.
pub const LEGACY_SLOT_LENGTH: usize = 128;

impl SigningPublicKeyType {
    /// The identifier this algorithm carries on the wire.
    pub open spec fn spec_wire_id(self) -> u16 {
        match self {
            SigningPublicKeyType::DSA_SHA1 => 0,
            SigningPublicKeyType::ECDSA_SHA256_P256 => 1,
            SigningPublicKeyType::ECDSA_SHA384_P384 => 2,
            SigningPublicKeyType::ECDSA_SHA512_P521 => 3,
            SigningPublicKeyType::RSA_SHA256_2048 => 4,
            SigningPublicKeyType::RSA_SHA384_3072 => 5,
            SigningPublicKeyType::RSA_SHA512_4096 => 6,
            SigningPublicKeyType::EdDSA_SHA512_Ed25519 => 7,
            SigningPublicKeyType::EdDSA_SHA512_Ed25519ph => 8,
        }
    }

    /// The algorithm a wire identifier names, or the error a decoder reports.
    pub open spec fn spec_from_u16(t: u16) -> Result<SigningPublicKeyType, Error> {
        if t == 0 {
            Ok(SigningPublicKeyType::DSA_SHA1)
        } else if t == 1 {
            Ok(SigningPublicKeyType::ECDSA_SHA256_P256)
        } else if t == 2 {
            Ok(SigningPublicKeyType::ECDSA_SHA384_P384)
        } else if t == 3 {
            Ok(SigningPublicKeyType::ECDSA_SHA512_P521)
        } else if t == 4 {
            Ok(SigningPublicKeyType::RSA_SHA256_2048)
        } else if t == 5 {
            Ok(SigningPublicKeyType::RSA_SHA384_3072)
        } else if t == 6 {
            Ok(SigningPublicKeyType::RSA_SHA512_4096)
        } else if t == 7 {
            Ok(SigningPublicKeyType::EdDSA_SHA512_Ed25519)
        } else if t == 8 {
            Ok(SigningPublicKeyType::EdDSA_SHA512_Ed25519ph)
        } else {
            Err(Error::UnsupportedAlgorithm(t))
        }
    }

    /// The registry's byte length for this algorithm's public key.
    pub open spec fn spec_length(self) -> int {
        match self {
            SigningPublicKeyType::DSA_SHA1 => 128,
            SigningPublicKeyType::ECDSA_SHA256_P256 => 64,
            SigningPublicKeyType::ECDSA_SHA384_P384 => 96,
            SigningPublicKeyType::ECDSA_SHA512_P521 => 132,
            SigningPublicKeyType::RSA_SHA256_2048 => 256,
            SigningPublicKeyType::RSA_SHA384_3072 => 384,
            SigningPublicKeyType::RSA_SHA512_4096 => 512,
            SigningPublicKeyType::EdDSA_SHA512_Ed25519 => 32,
            SigningPublicKeyType::EdDSA_SHA512_Ed25519ph => 32,
        }
    }

    /// Filler bytes in front of a key shorter than the legacy slot.
    pub open spec fn spec_padding(self) -> int {
        if self.spec_length() < LEGACY_SLOT_LENGTH {
            LEGACY_SLOT_LENGTH - self.spec_length()
        } else {
            0
        }
    }

    /// Key bytes that do not fit in the legacy slot.
    pub open spec fn spec_overflow(self) -> int {
        if self.spec_length() > LEGACY_SLOT_LENGTH {
            self.spec_length() - LEGACY_SLOT_LENGTH
        } else {
            0
        }
    }

    pub fn wire_id(self) -> (id: u16)
        ensures
            id == self.spec_wire_id(),
    {
        match self {
            SigningPublicKeyType::DSA_SHA1 => 0,
            SigningPublicKeyType::ECDSA_SHA256_P256 => 1,
            SigningPublicKeyType::ECDSA_SHA384_P384 => 2,
            SigningPublicKeyType::ECDSA_SHA512_P521 => 3,
            SigningPublicKeyType::RSA_SHA256_2048 => 4,
            SigningPublicKeyType::RSA_SHA384_3072 => 5,
            SigningPublicKeyType::RSA_SHA512_4096 => 6,
            SigningPublicKeyType::EdDSA_SHA512_Ed25519 => 7,
            SigningPublicKeyType::EdDSA_SHA512_Ed25519ph => 8,
        }
    }

    pub fn from_u16(t: u16) -> (r: Result<SigningPublicKeyType, Error>)
        ensures
            r == SigningPublicKeyType::spec_from_u16(t),
    {
        match t {
            0 => Ok(SigningPublicKeyType::DSA_SHA1),
            1 => Ok(SigningPublicKeyType::ECDSA_SHA256_P256),
            2 => Ok(SigningPublicKeyType::ECDSA_SHA384_P384),
            3 => Ok(SigningPublicKeyType::ECDSA_SHA512_P521),
            4 => Ok(SigningPublicKeyType::RSA_SHA256_2048),
            5 => Ok(SigningPublicKeyType::RSA_SHA384_3072),
            6 => Ok(SigningPublicKeyType::RSA_SHA512_4096),
            7 => Ok(SigningPublicKeyType::EdDSA_SHA512_Ed25519),
            8 => Ok(SigningPublicKeyType::EdDSA_SHA512_Ed25519ph),
            _ => Err(Error::UnsupportedAlgorithm(t)),
        }
    }
}

/// Looking an algorithm up by its own wire identifier gives it back, and
/// every algorithm's identifier lies in the registry range.
pub proof fn lemma_registry_ids(t: SigningPublicKeyType)
    ensures
        SigningPublicKeyType::spec_from_u16(t.spec_wire_id()) == Ok::<SigningPublicKeyType, Error>(
            t,
        ),
        t.spec_wire_id() <= 8,
{
}

/// The legacy slot arithmetic behind every encoding: real key bytes in the
/// slot plus the overflow carried by a certificate always add up to the
/// registry length, the slot is never overrun, and at most one of padding
/// and overflow is nonzero (both zero exactly when the key fills the slot).
pub proof fn lemma_legacy_slot_split(t: SigningPublicKeyType)
    ensures
        (t.spec_length() - t.spec_overflow()) + t.spec_overflow() == t.spec_length(),
        t.spec_length() - t.spec_overflow() <= LEGACY_SLOT_LENGTH,
        t.spec_padding() + (t.spec_length() - t.spec_overflow()) == LEGACY_SLOT_LENGTH,
        t.spec_padding() == 0 || t.spec_overflow() == 0,
        t.spec_padding() == 0 && t.spec_overflow() == 0 ==> t.spec_length() == LEGACY_SLOT_LENGTH,
{
}

/// The ghost shape of a signing public key: its algorithm and its bytes.
pub struct SigningKeyModel {
    pub key_type: SigningPublicKeyType,
    pub data: Seq<u8>,
}

impl SigningKeyModel {
    /// A well-formed signing key has exactly the registry length for its
    /// algorithm.
    pub open spec fn wf(self) -> bool {
        self.data.len() == self.key_type.spec_length()
    }
}

/// A signing public key: an algorithm tag and the key bytes, whose length a
/// well-formed value keeps equal to the registry length of the algorithm.
#[derive(Debug, PartialEq)]
pub struct SigningPublicKey {
    key_type: SigningPublicKeyType,
    data: Vec<u8>,
}

impl View for SigningPublicKey {
    type V = SigningKeyModel;

    closed spec fn view(&self) -> SigningKeyModel {
        SigningKeyModel { key_type: self.key_type, data: self.data@ }
    }
}

impl SigningPublicKey {
    pub fn get_type(&self) -> (t: SigningPublicKeyType)
        ensures
            t == self@.key_type,
    {
        self.key_type
    }

    /// The raw key bytes.
    pub fn data(&self) -> (d: &Vec<u8>)
        ensures
            d@ == self@.data,
    {
        &self.data
    }

    /// The registry byte length of a signing public key of the given
    /// algorithm.
    pub fn length(key_type: &SigningPublicKeyType) -> (n: usize)
        ensures
            n == key_type.spec_length(),
    {
        match key_type {
            SigningPublicKeyType::DSA_SHA1 => 128,
            SigningPublicKeyType::ECDSA_SHA256_P256 => 64,
            SigningPublicKeyType::ECDSA_SHA384_P384 => 96,
            SigningPublicKeyType::ECDSA_SHA512_P521 => 132,
            SigningPublicKeyType::RSA_SHA256_2048 => 256,
            SigningPublicKeyType::RSA_SHA384_3072 => 384,
            SigningPublicKeyType::RSA_SHA512_4096 => 512,
            SigningPublicKeyType::EdDSA_SHA512_Ed25519 => 32,
            SigningPublicKeyType::EdDSA_SHA512_Ed25519ph => 32,
        }
    }

    /// The filler in front of the key within the legacy slot, and the key
    /// bytes that overflow it, for the given algorithm. Exactly one of the
    /// two is nonzero unless the key fills the slot exactly.
    pub fn padding_size(key_type: &SigningPublicKeyType) -> (r: Result<(usize, usize), Error>)
        ensures
            r == Ok::<(usize, usize), Error>(
                (key_type.spec_padding() as usize, key_type.spec_overflow() as usize),
            ),
    {
        let length = SigningPublicKey::length(key_type);
        if length < LEGACY_SLOT_LENGTH {
            Ok((LEGACY_SLOT_LENGTH - length, 0))
        } else {
            Ok((0, length - LEGACY_SLOT_LENGTH))
        }
    }

    pub fn new(key_type: SigningPublicKeyType, data: &[u8]) -> (k: SigningPublicKey)
        ensures
            k@ == (SigningKeyModel { key_type, data: data@ }),
    {
        SigningPublicKey { key_type, data: slice_to_vec(data) }
    }

    /// Append the raw key bytes to `out`; placing them within the legacy
    /// slot and the certificate overflow is the identity codec's concern.
    pub fn serialize(&self, out: &mut Vec<u8>) -> (r: Result<usize, Error>)
        ensures
            final(out)@ == old(out)@ + self@.data,
            r == Ok::<usize, Error>(self@.data.len() as usize),
    {
        crate::wire::push_bytes(out, self.data.as_slice(), 0, self.data.len());
        proof {
            assert(self.data@.subrange(0, self.data@.len() as int) =~= self.data@);
        }
        Ok(self.data.len())
    }

    /// Read a key of the given algorithm from `input`: skip the legacy
    /// padding, then take exactly the registry length of key bytes.
    pub fn deserialize(key_type: SigningPublicKeyType, input: &[u8]) -> (r: Result<
        SigningPublicKey,
        Error,
    >)
        ensures
            input@.len() >= key_type.spec_padding() + key_type.spec_length() ==> (r matches Ok(k)
                && k@ == (SigningKeyModel {
                key_type,
                data: input@.subrange(
                    key_type.spec_padding(),
                    key_type.spec_padding() + key_type.spec_length(),
                ),
            })),
            input@.len() < key_type.spec_padding() + key_type.spec_length() ==> r == Err::<
                SigningPublicKey,
                Error,
            >(Error::TruncatedInput),
    {
        let (padding, _) = match SigningPublicKey::padding_size(&key_type) {
            Ok(p) => p,
            Err(e) => {
                return Err(e);
            },
        };
        let length = SigningPublicKey::length(&key_type);
        if input.len() < padding || input.len() - padding < length {
            return Err(Error::TruncatedInput);
        }
        let data = slice_to_vec(slice_subrange(input, padding, padding + length));
        Ok(SigningPublicKey { key_type, data })
    }
}

/// A signing private key, opaque to this codec.
pub enum SigningPrivateKey {
    DSA_SHA1(Vec<u8>),
    ECDSA_SHA256_P256(Vec<u8>),
    ECDSA_SHA384_P384(Vec<u8>),
    ECDSA_SHA512_P521(Vec<u8>),
    RSA_SHA256_2048(Vec<u8>),
    RSA_SHA384_3072(Vec<u8>),
    RSA_SHA512_4096(Vec<u8>),
    EdDSA_SHA512_Ed25519(Vec<u8>),
    EdDSA_SHA512_Ed25519ph(Vec<u8>),
}

/// A detached signature, opaque to this codec.
pub enum Signature {
    DSA_SHA1(Vec<u8>),
    ECDSA_SHA256_P256(Vec<u8>),
    ECDSA_SHA384_P384(Vec<u8>),
    ECDSA_SHA512_P521(Vec<u8>),
    RSA_SHA256_2048(Vec<u8>),
    RSA_SHA384_3072(Vec<u8>),
    RSA_SHA512_4096(Vec<u8>),
    EdDSA_SHA512_Ed25519(Vec<u8>),
    EdDSA_SHA512_Ed25519ph(Vec<u8>),
}

/// A message digest, opaque to this codec.
pub enum Hash {
    SHA256(Vec<u8>),
}

} // verus!
