use crate::error::Error;
use crate::keys::{PublicKey, PublicKeyType, SigningPublicKey, SigningPublicKeyType};
use crate::wire::{be16, be16_val, push_bytes, push_u16_be, read_u16_be};
use vstd::prelude::*;
use vstd::slice::{slice_subrange, slice_to_vec};
use vstd::utf8::{decode_utf8, encode_utf8, valid_utf8};

verus! {

/// The wire tags of the certificate envelope.
#[derive(Clone, Copy, Debug, PartialEq, Eq, Structural)]
pub enum CertificateType {
    Null,
    HashCash,
    Hidden,
    Signed,
    Multiple,
    Key,
}

impl CertificateType {
    /// The tag byte this certificate kind carries on the wire.
    pub open spec fn spec_wire_id(self) -> u8 {
        match self {
            CertificateType::Null => 0,
            CertificateType::HashCash => 1,
            CertificateType::Hidden => 2,
            CertificateType::Signed => 3,
            CertificateType::Multiple => 4,
            CertificateType::Key => 5,
        }
    }

    pub fn wire_id(self) -> (id: u8)
        ensures
            id == self.spec_wire_id(),
    {
        match self {
            CertificateType::Null => 0,
            CertificateType::HashCash => 1,
            CertificateType::Hidden => 2,
            CertificateType::Signed => 3,
            CertificateType::Multiple => 4,
            CertificateType::Key => 5,
        }
    }
}

/// The ghost shape of a `Key` certificate's payload.
pub struct KeyCertModel {
    pub signing_key_type: SigningPublicKeyType,
    pub crypto_key_type: PublicKeyType,
    pub extra_bytes: Seq<u8>,
}

impl KeyCertModel {
    /// A well-formed `Key` certificate carries exactly the signing key
    /// bytes that overflow the legacy slot.
    pub open spec fn wf(self) -> bool {
        self.extra_bytes.len() == self.signing_key_type.spec_overflow()
    }

    /// The payload bytes: both wire ids, then the overflow bytes verbatim.
    pub open spec fn payload(self) -> Seq<u8> {
        be16(self.signing_key_type.spec_wire_id() as int) + be16(
            self.crypto_key_type.spec_wire_id() as int,
        ) + self.extra_bytes
    }
}

/// What a `Key` certificate payload parses to, or the error reported.
pub open spec fn parse_key_cert(b: Seq<u8>) -> Result<KeyCertModel, Error> {
    if b.len() < 4 {
        Err(Error::TruncatedInput)
    } else {
        match SigningPublicKeyType::spec_from_u16(be16_val(b[0], b[1]) as u16) {
            Err(e) => Err(e),
            Ok(signing_key_type) => match PublicKeyType::spec_from_u16(
                be16_val(b[2], b[3]) as u16,
            ) {
                Err(e) => Err(e),
                Ok(crypto_key_type) => Ok(
                    KeyCertModel { signing_key_type, crypto_key_type, extra_bytes: b.skip(4) },
                ),
            },
        }
    }
}

/// The payload of a `Key` certificate: it declares the identity's real
/// signing and crypto key algorithms and carries the signing key bytes
/// that overflow the legacy slot.
#[derive(Debug, PartialEq)]
pub struct KeyCertificate {
    signing_key_type: SigningPublicKeyType,
    crypto_key_type: PublicKeyType,
    extra_bytes: Vec<u8>,
}

impl View for KeyCertificate {
    type V = KeyCertModel;

    closed spec fn view(&self) -> KeyCertModel {
        KeyCertModel {
            signing_key_type: self.signing_key_type,
            crypto_key_type: self.crypto_key_type,
            extra_bytes: self.extra_bytes@,
        }
    }
}

impl KeyCertificate {
    /// Build the certificate for the given keys, recomputing the overflow
    /// bytes fresh from the signing key material.
    pub fn new(public_key: &PublicKey, signing_key: &SigningPublicKey) -> (r: Result<
        KeyCertificate,
        Error,
    >)
        requires
            signing_key@.wf(),
        ensures
            r matches Ok(kc) && kc@ == (KeyCertModel {
                signing_key_type: signing_key@.key_type,
                crypto_key_type: PublicKeyType::ElGamal,
                extra_bytes: signing_key@.data.skip(
                    signing_key@.key_type.spec_length() - signing_key@.key_type.spec_overflow(),
                ),
            }),
            r matches Ok(kc) && kc@.wf(),
    {
        let key_type = signing_key.get_type();
        let (_, overflow) = match SigningPublicKey::padding_size(&key_type) {
            Ok(p) => p,
            Err(e) => {
                return Err(e);
            },
        };
        let data = signing_key.data();
        let start = data.len() - overflow;
        let extra_bytes = slice_to_vec(slice_subrange(data.as_slice(), start, data.len()));
        proof {
            assert(data@.subrange(start as int, data@.len() as int) =~= data@.skip(
                key_type.spec_length() - key_type.spec_overflow(),
            ));
        }
        Ok(
            KeyCertificate {
                signing_key_type: key_type,
                crypto_key_type: public_key.get_type(),
                extra_bytes,
            },
        )
    }

    pub fn signing_key_type(&self) -> (t: SigningPublicKeyType)
        ensures
            t == self@.signing_key_type,
    {
        self.signing_key_type
    }

    pub fn crypto_key_type(&self) -> (t: PublicKeyType)
        ensures
            t == self@.crypto_key_type,
    {
        self.crypto_key_type
    }

    /// The signing key bytes that overflow the legacy slot.
    pub fn extra_bytes(&self) -> (d: &Vec<u8>)
        ensures
            d@ == self@.extra_bytes,
    {
        &self.extra_bytes
    }

    /// Append the payload bytes to `out`.
    pub fn serialize(&self, out: &mut Vec<u8>) -> (r: Result<usize, Error>)
        requires
            self@.wf(),
        ensures
            final(out)@ == old(out)@ + self@.payload(),
            r == Ok::<usize, Error>(self@.payload().len() as usize),
    {
        push_u16_be(out, self.signing_key_type.wire_id());
        push_u16_be(out, self.crypto_key_type.wire_id());
        push_bytes(out, self.extra_bytes.as_slice(), 0, self.extra_bytes.len());
        proof {
            assert(self.extra_bytes@.subrange(0, self.extra_bytes@.len() as int)
                =~= self.extra_bytes@);
            assert(out@ =~= old(out)@ + self@.payload());
        }
        Ok(4 + self.extra_bytes.len())
    }

    /// Parse the payload of a `Key` certificate: both wire ids, then every
    /// remaining byte as overflow.
    pub fn deserialize(payload: &[u8]) -> (r: Result<KeyCertificate, Error>)
        ensures
            parse_key_cert(payload@) matches Ok(m) ==> (r matches Ok(kc) && kc@ == m),
            parse_key_cert(payload@) matches Err(e) ==> r == Err::<KeyCertificate, Error>(e),
    {
        if payload.len() < 4 {
            return Err(Error::TruncatedInput);
        }
        let signing_id = read_u16_be(payload[0], payload[1]);
        let crypto_id = read_u16_be(payload[2], payload[3]);
        let signing_key_type = match SigningPublicKeyType::from_u16(signing_id) {
            Ok(t) => t,
            Err(e) => {
                return Err(e);
            },
        };
        let crypto_key_type = match PublicKeyType::from_u16(crypto_id) {
            Ok(t) => t,
            Err(e) => {
                return Err(e);
            },
        };
        let extra_bytes = slice_to_vec(slice_subrange(payload, 4, payload.len()));
        proof {
            assert(payload@.subrange(4, payload@.len() as int) =~= payload@.skip(4));
        }
        Ok(KeyCertificate { signing_key_type, crypto_key_type, extra_bytes })
    }
}

/// The ghost shape of a certificate.
pub enum CertModel {
    Null,
    HashCash(Seq<char>),
    Hidden,
    Signed(Seq<u8>),
    Multiple(Seq<u8>),
    Key(KeyCertModel),
}

impl CertModel {
    /// The tag byte of this certificate's envelope.
    pub open spec fn tag(self) -> u8 {
        match self {
            CertModel::Null => 0,
            CertModel::HashCash(_) => 1,
            CertModel::Hidden => 2,
            CertModel::Signed(_) => 3,
            CertModel::Multiple(_) => 4,
            CertModel::Key(_) => 5,
        }
    }

    /// The payload bytes of this certificate's envelope.
    pub open spec fn payload(self) -> Seq<u8> {
        match self {
            CertModel::Null => Seq::empty(),
            CertModel::HashCash(s) => encode_utf8(s),
            CertModel::Hidden => Seq::empty(),
            CertModel::Signed(d) => d,
            CertModel::Multiple(d) => d,
            CertModel::Key(kc) => kc.payload(),
        }
    }

    /// A well-formed certificate has a payload that fits the two-byte
    /// length field, and a `Key` payload carries exactly the overflow.
    pub open spec fn wf(self) -> bool {
        &&& self.payload().len() <= 0xFFFF
        &&& match self {
            CertModel::Key(kc) => kc.wf(),
            _ => true,
        }
    }

    /// The envelope bytes: tag, big-endian payload length, payload.
    pub open spec fn enc(self) -> Seq<u8> {
        seq![self.tag()] + be16(self.payload().len() as int) + self.payload()
    }
}

/// What a byte stream starting with a certificate envelope parses to — the
/// certificate and the count of bytes consumed — or the error reported.
pub open spec fn parse_certificate(b: Seq<u8>) -> Result<(CertModel, int), Error> {
    if b.len() < 3 {
        Err(Error::TruncatedInput)
    } else {
        let tag = b[0];
        let len = be16_val(b[1], b[2]);
        if b.len() < 3 + len {
            Err(Error::TruncatedInput)
        } else {
            let payload = b.subrange(3, 3 + len);
            let consumed = 3 + len;
            if tag == 0 {
                Ok((CertModel::Null, consumed))
            } else if tag == 1 {
                if valid_utf8(payload) {
                    Ok((CertModel::HashCash(decode_utf8(payload)), consumed))
                } else {
                    Err(Error::InvalidEncoding)
                }
            } else if tag == 2 {
                Ok((CertModel::Hidden, consumed))
            } else if tag == 3 {
                Ok((CertModel::Signed(payload), consumed))
            } else if tag == 4 {
                Ok((CertModel::Multiple(payload), consumed))
            } else if tag == 5 {
                match parse_key_cert(payload) {
                    Ok(kc) => Ok((CertModel::Key(kc), consumed)),
                    Err(e) => Err(e),
                }
            } else {
                Err(Error::UnknownCertificateType(tag))
            }
        }
    }
}

/// A certificate: the tagged, variable-length trailer of an identity,
/// chiefly used to declare non-default signing key algorithms.
#[derive(Debug, PartialEq)]
pub enum Certificate {
    Null,
    HashCash(String),
    Hidden,
    Signed(Vec<u8>),
    Multiple(Vec<u8>),
    Key(KeyCertificate),
}

impl View for Certificate {
    type V = CertModel;

    open spec fn view(&self) -> CertModel {
        match self {
            Certificate::Null => CertModel::Null,
            Certificate::HashCash(s) => CertModel::HashCash(s@),
            Certificate::Hidden => CertModel::Hidden,
            Certificate::Signed(d) => CertModel::Signed(d@),
            Certificate::Multiple(d) => CertModel::Multiple(d@),
            Certificate::Key(kc) => CertModel::Key(kc@),
        }
    }
}

/// Relies on `String::from_utf8`: it succeeds exactly on input that is
/// valid UTF-8, and then returns the string of the decoded characters.
#[verifier::external_body]
fn string_from_bytes(bytes: Vec<u8>) -> (r: Option<String>)
    ensures
        r is Some <==> valid_utf8(bytes@),
        r matches Some(s) ==> s@ == decode_utf8(bytes@),
{
    String::from_utf8(bytes).ok()
}

impl Certificate {
    /// Append the envelope bytes — tag, big-endian payload length, payload
    /// — to `out`, and return how many bytes were written.
    pub fn serialize(&self, out: &mut Vec<u8>) -> (r: Result<usize, Error>)
        requires
            self@.wf(),
        ensures
            final(out)@ == old(out)@ + self@.enc(),
            r == Ok::<usize, Error>(self@.enc().len() as usize),
    {
        match self {
            Certificate::Null => {
                out.push(CertificateType::Null.wire_id());
                push_u16_be(out, 0);
                proof {
                    assert(out@ =~= old(out)@ + self@.enc());
                }
                Ok(3)
            },
            Certificate::HashCash(s) => {
                out.push(CertificateType::HashCash.wire_id());
                let payload = slice_to_vec(s.as_str().as_bytes());
                push_u16_be(out, payload.len() as u16);
                push_bytes(out, payload.as_slice(), 0, payload.len());
                proof {
                    assert(payload@.subrange(0, payload@.len() as int) =~= payload@);
                    assert(out@ =~= old(out)@ + self@.enc());
                }
                Ok(3 + payload.len())
            },
            Certificate::Hidden => {
                out.push(CertificateType::Hidden.wire_id());
                push_u16_be(out, 0);
                proof {
                    assert(out@ =~= old(out)@ + self@.enc());
                }
                Ok(3)
            },
            Certificate::Signed(data) => {
                out.push(CertificateType::Signed.wire_id());
                push_u16_be(out, data.len() as u16);
                push_bytes(out, data.as_slice(), 0, data.len());
                proof {
                    assert(data@.subrange(0, data@.len() as int) =~= data@);
                    assert(out@ =~= old(out)@ + self@.enc());
                }
                Ok(3 + data.len())
            },
            Certificate::Multiple(data) => {
                out.push(CertificateType::Multiple.wire_id());
                push_u16_be(out, data.len() as u16);
                push_bytes(out, data.as_slice(), 0, data.len());
                proof {
                    assert(data@.subrange(0, data@.len() as int) =~= data@);
                    assert(out@ =~= old(out)@ + self@.enc());
                }
                Ok(3 + data.len())
            },
            Certificate::Key(kc) => {
                out.push(CertificateType::Key.wire_id());
                push_u16_be(out, (4 + kc.extra_bytes.len()) as u16);
                let written = match kc.serialize(out) {
                    Ok(n) => n,
                    Err(e) => {
                        return Err(e);
                    },
                };
                proof {
                    assert(out@ =~= old(out)@ + self@.enc());
                }
                Ok(3 + written)
            },
        }
    }

    /// Whether this certificate can be serialized: its payload fits the
    /// two-byte length field, and a `Key` certificate carries exactly the
    /// registry overflow for its algorithm.
    pub fn is_well_formed(&self) -> (b: bool)
        ensures
            b == self@.wf(),
    {
        match self {
            Certificate::Null => true,
            Certificate::HashCash(s) => s.as_str().as_bytes().len() <= 0xFFFF,
            Certificate::Hidden => true,
            Certificate::Signed(d) => d.len() <= 0xFFFF,
            Certificate::Multiple(d) => d.len() <= 0xFFFF,
            Certificate::Key(kc) => {
                let (_, overflow) = match SigningPublicKey::padding_size(&kc.signing_key_type) {
                    Ok(p) => p,
                    Err(_) => {
                        return false;
                    },
                };
                kc.extra_bytes.len() == overflow
            },
        }
    }

    /// Parse a certificate envelope from the front of `input`; bytes after
    /// the envelope are left untouched.
    pub fn deserialize(input: &[u8]) -> (r: Result<Certificate, Error>)
        ensures
            parse_certificate(input@) matches Ok((m, n)) ==> (r matches Ok(c) && c@ == m),
            parse_certificate(input@) matches Err(e) ==> r == Err::<Certificate, Error>(e),
    {
        if input.len() < 3 {
            return Err(Error::TruncatedInput);
        }
        let tag = input[0];
        let len = read_u16_be(input[1], input[2]) as usize;
        if input.len() - 3 < len {
            return Err(Error::TruncatedInput);
        }
        let payload = slice_to_vec(slice_subrange(input, 3, 3 + len));
        match tag {
            0 => Ok(Certificate::Null),
            1 => match string_from_bytes(payload) {
                Some(s) => Ok(Certificate::HashCash(s)),
                None => Err(Error::InvalidEncoding),
            },
            2 => Ok(Certificate::Hidden),
            3 => Ok(Certificate::Signed(payload)),
            4 => Ok(Certificate::Multiple(payload)),
            5 => match KeyCertificate::deserialize(payload.as_slice()) {
                Ok(kc) => Ok(Certificate::Key(kc)),
                Err(e) => Err(e),
            },
            _ => Err(Error::UnknownCertificateType(tag)),
        }
    }
}

/// Parsing a `Key` certificate payload gives back exactly the certificate
/// it encodes.
pub proof fn lemma_parse_key_cert_payload(m: KeyCertModel)
    ensures
        parse_key_cert(m.payload()) == Ok::<KeyCertModel, Error>(m),
{
    let b = m.payload();
    crate::wire::lemma_be16_roundtrip(m.signing_key_type.spec_wire_id() as int);
    crate::wire::lemma_be16_roundtrip(m.crypto_key_type.spec_wire_id() as int);
    crate::keys::lemma_registry_ids(m.signing_key_type);
    assert(b[0] == be16(m.signing_key_type.spec_wire_id() as int)[0]);
    assert(b[1] == be16(m.signing_key_type.spec_wire_id() as int)[1]);
    assert(b[2] == be16(m.crypto_key_type.spec_wire_id() as int)[0]);
    assert(b[3] == be16(m.crypto_key_type.spec_wire_id() as int)[1]);
    assert(b.skip(4) =~= m.extra_bytes);
}

/// Re-encoding a parsed certificate writes back exactly the bytes that
/// were consumed. The one condition: a certificate without payload must
/// have come from an envelope of the minimal length, since a decoder
/// accepts and discards whatever payload a `Null` or `Hidden` envelope
/// declares.
pub proof fn lemma_certificate_byte_stability(b: Seq<u8>, m: CertModel, n: int)
    requires
        parse_certificate(b) == Ok::<(CertModel, int), Error>((m, n)),
        m matches CertModel::Null ==> n == 3,
        m matches CertModel::Hidden ==> n == 3,
    ensures
        m.enc() == b.take(n),
        m.payload().len() <= 0xFFFF,
{
    broadcast use vstd::utf8::decode_utf8_encode_utf8;

    let len = be16_val(b[1], b[2]);
    let payload = b.subrange(3, 3 + len);
    crate::wire::lemma_be16_inverse(b[1], b[2]);
    match m {
        CertModel::Null => {
            assert(payload =~= m.payload());
        },
        CertModel::Hidden => {
            assert(payload =~= m.payload());
        },
        CertModel::HashCash(s) => {
            assert(m.payload() == payload);
        },
        CertModel::Signed(_) => {},
        CertModel::Multiple(_) => {},
        CertModel::Key(kc) => {
            crate::wire::lemma_be16_inverse(payload[0], payload[1]);
            crate::wire::lemma_be16_inverse(payload[2], payload[3]);
            assert(kc.payload() =~= payload);
        },
    }
    assert(m.enc() =~= b.take(n));
}

/// Parsing bytes that begin with a certificate envelope gives back exactly
/// the certificate it encodes, and consumes exactly the envelope.
pub proof fn lemma_parse_certificate_enc(m: CertModel, rest: Seq<u8>)
    requires
        m.wf(),
    ensures
        parse_certificate(m.enc() + rest) == Ok::<(CertModel, int), Error>(
            (m, m.enc().len() as int),
        ),
{
    broadcast use vstd::utf8::encode_utf8_valid_utf8, vstd::utf8::encode_utf8_decode_utf8;

    let b = m.enc() + rest;
    let payload = m.payload();
    crate::wire::lemma_be16_roundtrip(payload.len() as int);
    assert(b[0] == m.tag());
    assert(b[1] == be16(payload.len() as int)[0]);
    assert(b[2] == be16(payload.len() as int)[1]);
    assert(b.subrange(3, 3 + payload.len() as int) =~= payload);
    match m {
        CertModel::Key(kc) => {
            lemma_parse_key_cert_payload(kc);
        },
        _ => {},
    }
}

} // verus!
