//! Codec for a router's public identity: an encryption key, a signing key,
//! and a declarative certificate, serialized in a legacy fixed-size layout
//! that accommodates variable-length signing algorithms through padding and
//! certificate-carried overflow bytes.

pub mod certificate;
pub mod error;
pub mod identity;
pub mod keys;
pub mod wire;
