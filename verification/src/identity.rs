use crate::certificate::{parse_certificate, CertModel, Certificate, KeyCertModel, KeyCertificate};
use crate::error::Error;
use crate::keys::{
    PublicKey, SigningKeyModel, SigningPublicKey, SigningPublicKeyType, LEGACY_SLOT_LENGTH,
    PUBLIC_KEY_LENGTH,
};
use crate::wire::zeros;
use vstd::prelude::*;
use vstd::slice::{slice_subrange, slice_to_vec};

verus! {

/// The ghost shape of a full identity: the encryption key bytes, the
/// signing key, and the certificate.
pub struct IdModel {
    pub public_key: Seq<u8>,
    pub signing_key: SigningKeyModel,
    pub certificate: CertModel,
}

impl IdModel {
    /// The signing algorithm the serialized form declares: the one named
    /// by a `Key` certificate, else the legacy default, the only algorithm
    /// whose key exactly fills the legacy slot.
    pub open spec fn alg(self) -> SigningPublicKeyType {
        match self.certificate {
            CertModel::Key(kc) => kc.signing_key_type,
            _ => SigningPublicKeyType::DSA_SHA1,
        }
    }

    /// A well-formed identity: a full-size encryption key, a signing key
    /// of its registry length, a certificate that declares that same
    /// algorithm, and a well-formed certificate.
    pub open spec fn wf(self) -> bool {
        &&& self.public_key.len() == PUBLIC_KEY_LENGTH
        &&& self.signing_key.wf()
        &&& self.signing_key.key_type == self.alg()
        &&& self.certificate.wf()
    }

    /// The signing key bytes past the legacy slot, recomputed fresh from
    /// the key material.
    pub open spec fn fresh_extra(self) -> Seq<u8> {
        self.signing_key.data.skip(self.alg().spec_length() - self.alg().spec_overflow())
    }

    /// The certificate as it is encoded: a `Key` certificate carries the
    /// overflow bytes recomputed from the signing key, never a stale copy.
    pub open spec fn enc_cert(self) -> CertModel {
        match self.certificate {
            CertModel::Key(kc) => CertModel::Key(
                KeyCertModel {
                    signing_key_type: kc.signing_key_type,
                    crypto_key_type: kc.crypto_key_type,
                    extra_bytes: self.fresh_extra(),
                },
            ),
            c => c,
        }
    }

    /// The stored certificate already carries exactly the overflow bytes
    /// of the signing key.
    pub open spec fn canonical(self) -> bool {
        self.certificate == self.enc_cert()
    }

    /// The serialized identity: the encryption key, the legacy slot —
    /// zero-fill padding, then the low-order signing key bytes — and the
    /// certificate envelope.
    pub open spec fn enc(self) -> Seq<u8> {
        self.public_key + zeros(self.alg().spec_padding()) + self.signing_key.data.take(
            self.alg().spec_length() - self.alg().spec_overflow(),
        ) + self.enc_cert().enc()
    }
}

/// What a byte stream starting with an identity parses to — the identity
/// and the count of bytes consumed — or the error reported.
pub open spec fn parse_identity(b: Seq<u8>) -> Result<(IdModel, int), Error> {
    if b.len() < PUBLIC_KEY_LENGTH + LEGACY_SLOT_LENGTH {
        Err(Error::TruncatedInput)
    } else {
        match parse_certificate(b.skip(PUBLIC_KEY_LENGTH + LEGACY_SLOT_LENGTH)) {
            Err(e) => Err(e),
            Ok((certificate, cert_len)) => {
                let key_type = match certificate {
                    CertModel::Key(kc) => kc.signing_key_type,
                    _ => SigningPublicKeyType::DSA_SHA1,
                };
                let extra = match certificate {
                    CertModel::Key(kc) => kc.extra_bytes,
                    _ => Seq::empty(),
                };
                let staging = b.take(PUBLIC_KEY_LENGTH + LEGACY_SLOT_LENGTH) + extra;
                let padding = key_type.spec_padding();
                let length = key_type.spec_length();
                if staging.len() < PUBLIC_KEY_LENGTH + padding + length {
                    Err(Error::TruncatedInput)
                } else {
                    Ok(
                        (
                            IdModel {
                                public_key: staging.subrange(0, PUBLIC_KEY_LENGTH as int),
                                signing_key: SigningKeyModel {
                                    key_type,
                                    data: staging.subrange(
                                        PUBLIC_KEY_LENGTH + padding,
                                        PUBLIC_KEY_LENGTH + padding + length,
                                    ),
                                },
                                certificate,
                            },
                            PUBLIC_KEY_LENGTH + LEGACY_SLOT_LENGTH + cert_len,
                        ),
                    )
                }
            },
        }
    }
}

/// The padding and overflow reconciliation of the decode path, kept apart
/// from stream handling: reinterpret the fixed-size staging area — with
/// the certificate-carried overflow bytes appended — from offset zero as
/// the encryption key followed by the signing key of the given algorithm.
pub fn reassemble_keys(key_type: SigningPublicKeyType, staging: &[u8], extra_bytes: &[u8]) -> (r:
    Result<(PublicKey, SigningPublicKey), Error>)
    requires
        staging@.len() == PUBLIC_KEY_LENGTH + LEGACY_SLOT_LENGTH,
    ensures
        ({
            let full = staging@ + extra_bytes@;
            let padding = key_type.spec_padding();
            let length = key_type.spec_length();
            &&& full.len() >= PUBLIC_KEY_LENGTH + padding + length ==> (r matches Ok((pk, sk))
                && pk@ == full.subrange(0, PUBLIC_KEY_LENGTH as int) && sk@ == (SigningKeyModel {
                key_type,
                data: full.subrange(
                    PUBLIC_KEY_LENGTH + padding,
                    PUBLIC_KEY_LENGTH + padding + length,
                ),
            }))
            &&& full.len() < PUBLIC_KEY_LENGTH + padding + length ==> r == Err::<
                (PublicKey, SigningPublicKey),
                Error,
            >(Error::TruncatedInput)
        }),
{
    let mut full = slice_to_vec(staging);
    crate::wire::push_bytes(&mut full, extra_bytes, 0, extra_bytes.len());
    proof {
        assert(extra_bytes@.subrange(0, extra_bytes@.len() as int) =~= extra_bytes@);
    }
    let public_key = match PublicKey::deserialize(full.as_slice()) {
        Ok(k) => k,
        Err(e) => {
            return Err(e);
        },
    };
    proof {
        let padding = key_type.spec_padding();
        let length = key_type.spec_length();
        if full@.len() >= PUBLIC_KEY_LENGTH + padding + length {
            assert(full@.subrange(PUBLIC_KEY_LENGTH as int, full@.len() as int).subrange(
                padding,
                padding + length,
            ) =~= full@.subrange(
                PUBLIC_KEY_LENGTH + padding,
                PUBLIC_KEY_LENGTH + padding + length,
            ));
        }
    }
    let signing_key = match SigningPublicKey::deserialize(
        key_type,
        slice_subrange(full.as_slice(), PUBLIC_KEY_LENGTH, full.len()),
    ) {
        Ok(k) => k,
        Err(e) => {
            return Err(e);
        },
    };
    Ok((public_key, signing_key))
}

/// A router's full public identity: encryption key, signing key, and
/// certificate. The serialized form reconciles variable-length signing
/// keys with the fixed legacy slot through padding and overflow.
#[derive(Debug, PartialEq)]
pub struct KeysAndCert {
    public_key: PublicKey,
    signing_key: SigningPublicKey,
    certificate: Certificate,
}

/// The identity structure under its historical name.
pub type RouterIdentity = KeysAndCert;

impl View for KeysAndCert {
    type V = IdModel;

    closed spec fn view(&self) -> IdModel {
        IdModel {
            public_key: self.public_key@,
            signing_key: self.signing_key@,
            certificate: self.certificate@,
        }
    }
}

impl KeysAndCert {
    pub fn new(public_key: PublicKey, signing_key: SigningPublicKey, certificate: Certificate) -> (r:
        KeysAndCert)
        ensures
            r@ == (IdModel {
                public_key: public_key@,
                signing_key: signing_key@,
                certificate: certificate@,
            }),
    {
        KeysAndCert { public_key, signing_key, certificate }
    }

    pub fn public_key(&self) -> (k: &PublicKey)
        ensures
            k@ == self@.public_key,
    {
        &self.public_key
    }

    pub fn signing_key(&self) -> (k: &SigningPublicKey)
        ensures
            k@ == self@.signing_key,
    {
        &self.signing_key
    }

    pub fn certificate(&self) -> (c: &Certificate)
        ensures
            c@ == self@.certificate,
    {
        &self.certificate
    }

    /// Whether this identity can be serialized: a full-size encryption
    /// key, a signing key of its registry length, and a well-formed
    /// certificate that declares that same algorithm.
    pub fn is_well_formed(&self) -> (b: bool)
        ensures
            b == self@.wf(),
    {
        let alg = match &self.certificate {
            Certificate::Key(kc) => kc.signing_key_type(),
            _ => SigningPublicKeyType::DSA_SHA1,
        };
        let key_type = self.signing_key.get_type();
        self.public_key.length() == PUBLIC_KEY_LENGTH && self.signing_key.data().len()
            == SigningPublicKey::length(&key_type) && key_type == alg
            && self.certificate.is_well_formed()
    }

    /// Append the serialized identity to `out` and return how many bytes
    /// were written: the encryption key, zero-fill padding, the low-order
    /// signing key bytes, and the certificate with its overflow bytes
    /// recomputed fresh from the signing key.
    pub fn serialize(&self, out: &mut Vec<u8>) -> (r: Result<usize, Error>)
        requires
            self@.wf(),
        ensures
            final(out)@ == old(out)@ + self@.enc(),
            r == Ok::<usize, Error>(self@.enc().len() as usize),
    {
        let mut written = match self.public_key.serialize(out) {
            Ok(n) => n,
            Err(e) => {
                return Err(e);
            },
        };
        let key_type = match &self.certificate {
            Certificate::Key(kc) => kc.signing_key_type(),
            _ => SigningPublicKeyType::DSA_SHA1,
        };
        let (padding, overflow) = match SigningPublicKey::padding_size(&key_type) {
            Ok(p) => p,
            Err(e) => {
                return Err(e);
            },
        };
        crate::wire::push_zeros(out, padding);
        let data = self.signing_key.data();
        crate::wire::push_bytes(out, data.as_slice(), 0, data.len() - overflow);
        written = written + padding + (data.len() - overflow);
        let cert_written = match &self.certificate {
            Certificate::Key(_) => {
                let kc = match KeyCertificate::new(&self.public_key, &self.signing_key) {
                    Ok(kc) => kc,
                    Err(e) => {
                        return Err(e);
                    },
                };
                let fresh = Certificate::Key(kc);
                proof {
                    assert(fresh@ == self@.enc_cert());
                }
                match fresh.serialize(out) {
                    Ok(n) => n,
                    Err(e) => {
                        return Err(e);
                    },
                }
            },
            _ => {
                proof {
                    assert(self@.enc_cert() == self@.certificate);
                }
                match self.certificate.serialize(out) {
                    Ok(n) => n,
                    Err(e) => {
                        return Err(e);
                    },
                }
            },
        };
        proof {
            assert(out@ =~= old(out)@ + self@.enc());
        }
        Ok(written + cert_written)
    }

    /// Parse an identity from the front of `input`: the fixed-size staging
    /// area, then the certificate, then — with the overflow bytes the
    /// certificate carries appended to the staging area — the two keys.
    pub fn deserialize(input: &[u8]) -> (r: Result<KeysAndCert, Error>)
        ensures
            parse_identity(input@) matches Ok((m, n)) ==> (r matches Ok(v) && v@ == m),
            parse_identity(input@) matches Err(e) ==> r == Err::<KeysAndCert, Error>(e),
    {
        let staging_len = PUBLIC_KEY_LENGTH + LEGACY_SLOT_LENGTH;
        if input.len() < staging_len {
            return Err(Error::TruncatedInput);
        }
        let certificate = match Certificate::deserialize(
            slice_subrange(input, staging_len, input.len()),
        ) {
            Ok(c) => c,
            Err(e) => {
                proof {
                    assert(input@.subrange(staging_len as int, input@.len() as int) =~= input@.skip(
                        staging_len as int,
                    ));
                }
                return Err(e);
            },
        };
        proof {
            assert(input@.subrange(staging_len as int, input@.len() as int) =~= input@.skip(
                staging_len as int,
            ));
        }
        let key_type = match &certificate {
            Certificate::Key(kc) => kc.signing_key_type(),
            _ => SigningPublicKeyType::DSA_SHA1,
        };
        let staging = slice_subrange(input, 0, staging_len);
        let empty: Vec<u8> = Vec::new();
        let reassembled = match &certificate {
            Certificate::Key(kc) => reassemble_keys(key_type, staging, kc.extra_bytes().as_slice()),
            _ => reassemble_keys(key_type, staging, empty.as_slice()),
        };
        proof {
            let b = input@;
            let sl = staging_len as int;
            let cm = parse_certificate(b.skip(sl))->Ok_0.0;
            let staging_spec = b.take(sl) + (match cm {
                CertModel::Key(kc) => kc.extra_bytes,
                _ => Seq::<u8>::empty(),
            });
            assert(staging@ + (match cm {
                CertModel::Key(kc) => kc.extra_bytes,
                _ => Seq::<u8>::empty(),
            }) =~= staging_spec);
        }
        let (public_key, signing_key) = match reassembled {
            Ok(keys) => keys,
            Err(e) => {
                return Err(e);
            },
        };
        Ok(KeysAndCert { public_key, signing_key, certificate })
    }
}

/// Round trip: parsing the serialized form of a well-formed identity
/// gives back its fields exactly and consumes every byte written. The
/// padding does not take part — it is written as zeros and discarded —
/// and a `Key` certificate comes back carrying the overflow bytes
/// recomputed from the signing key, which for a canonical identity are
/// the stored ones.
pub proof fn lemma_round_trip(m: IdModel)
    requires
        m.wf(),
    ensures
        parse_identity(m.enc()) == Ok::<(IdModel, int), Error>(
            (
                IdModel {
                    public_key: m.public_key,
                    signing_key: m.signing_key,
                    certificate: m.enc_cert(),
                },
                m.enc().len() as int,
            ),
        ),
        m.canonical() ==> parse_identity(m.enc()) == Ok::<(IdModel, int), Error>(
            (m, m.enc().len() as int),
        ),
{
    let b = m.enc();
    let t = m.alg();
    let padding = t.spec_padding();
    let length = t.spec_length();
    let overflow = t.spec_overflow();
    crate::keys::lemma_legacy_slot_split(t);
    let low = m.signing_key.data.take(length - overflow);
    let cm = m.enc_cert();
    let certenc = cm.enc();
    assert(m.fresh_extra().len() == overflow);
    assert(cm.wf());
    assert(b.len() == PUBLIC_KEY_LENGTH + LEGACY_SLOT_LENGTH + certenc.len());
    crate::certificate::lemma_parse_certificate_enc(cm, Seq::empty());
    assert(certenc + Seq::<u8>::empty() =~= certenc);
    assert(b.skip(PUBLIC_KEY_LENGTH + LEGACY_SLOT_LENGTH) =~= certenc);
    let extra = match cm {
        CertModel::Key(kc) => kc.extra_bytes,
        _ => Seq::<u8>::empty(),
    };
    assert(extra =~= m.fresh_extra());
    let staging = b.take(PUBLIC_KEY_LENGTH + LEGACY_SLOT_LENGTH) + extra;
    assert(b.take(PUBLIC_KEY_LENGTH + LEGACY_SLOT_LENGTH) =~= m.public_key + zeros(padding) + low);
    assert(staging.len() == PUBLIC_KEY_LENGTH + padding + length);
    assert(staging.subrange(0, PUBLIC_KEY_LENGTH as int) =~= m.public_key);
    assert(staging.subrange(PUBLIC_KEY_LENGTH + padding, PUBLIC_KEY_LENGTH + padding + length)
        =~= m.signing_key.data);
}

/// Byte stability: re-serializing a parsed identity writes back exactly
/// the bytes that were consumed, for every conformant input — one whose
/// padding region carries the canonical zero fill, whose `Key`
/// certificate carries exactly the registry overflow for its algorithm
/// (that is `m.wf()`), and whose `Null` or `Hidden` certificate envelope
/// declares no payload.
pub proof fn lemma_byte_stability(b: Seq<u8>, m: IdModel, n: int)
    requires
        parse_identity(b) == Ok::<(IdModel, int), Error>((m, n)),
        m.wf(),
        b.subrange(PUBLIC_KEY_LENGTH as int, PUBLIC_KEY_LENGTH + m.alg().spec_padding()) == zeros(
            m.alg().spec_padding(),
        ),
        m.certificate matches CertModel::Null ==> n == PUBLIC_KEY_LENGTH + LEGACY_SLOT_LENGTH + 3,
        m.certificate matches CertModel::Hidden ==> n == PUBLIC_KEY_LENGTH + LEGACY_SLOT_LENGTH
            + 3,
    ensures
        m.enc() == b.take(n),
        m.canonical(),
{
    let sl = PUBLIC_KEY_LENGTH + LEGACY_SLOT_LENGTH;
    let t = m.alg();
    let padding = t.spec_padding();
    let length = t.spec_length();
    let overflow = t.spec_overflow();
    crate::keys::lemma_legacy_slot_split(t);
    let cert_len = n - sl;
    crate::certificate::lemma_certificate_byte_stability(b.skip(sl as int), m.certificate, cert_len);
    let extra = match m.certificate {
        CertModel::Key(kc) => kc.extra_bytes,
        _ => Seq::<u8>::empty(),
    };
    let staging = b.take(sl as int) + extra;
    assert(m.signing_key.data == staging.subrange(
        PUBLIC_KEY_LENGTH + padding,
        PUBLIC_KEY_LENGTH + padding + length,
    ));
    assert(m.fresh_extra() =~= extra);
    assert(m.canonical());
    assert(m.public_key =~= b.subrange(0, PUBLIC_KEY_LENGTH as int));
    assert(m.signing_key.data.take(length - overflow) =~= b.subrange(
        PUBLIC_KEY_LENGTH + padding,
        sl as int,
    ));
    assert(m.certificate.enc() =~= b.subrange(sl as int, n));
    assert(m.enc() =~= b.take(n));
}

} // verus!
