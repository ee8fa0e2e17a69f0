use vstd::prelude::*;

verus! {

/// Everything that can go wrong while encoding or decoding an identity.
///
/// Every codec entry point is atomic: on failure nothing is published and no
/// partial value escapes.
#[derive(Clone, Copy, Debug, PartialEq, Eq, Structural)]
pub enum Error {
    /// The input ended before the format required.
    TruncatedInput,
    /// A signing or crypto key wire id outside the registry.
    UnsupportedAlgorithm(u16),
    /// A certificate tag outside the known range.
    UnknownCertificateType(u8),
    /// A hash cash payload that is not valid UTF-8.
    InvalidEncoding,
    /// A byte count that disagrees with the registry (defensive).
    LengthMismatch,
    /// A failure of an underlying byte stream, reported by a caller that
    /// feeds the codec from one.
    IoFailure,
}

} // verus!
