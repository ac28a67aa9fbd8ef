//! Why TLS material is refused.

use vstd::prelude::*;

verus! {

/// A reason for refusing TLS material.
#[derive(Clone, Copy, Debug, PartialEq, Eq, Structural)]
pub enum TlsError {
    /// A certificate PEM was given without its private key.
    KeyPemMissing,
    /// A private key PEM was given without its certificate.
    CertPemMissing,
    /// The certificate path does not resolve.
    CertPathUnresolved,
    /// The private key path does not resolve.
    KeyPathUnresolved,
    /// The trust bundle path does not resolve.
    TrustPathUnresolved,
    /// Certificate and key sit in one directory but resolve into two generations of it.
    MixedGenerations,
    /// A file could not be opened or read.
    Unreadable,
    /// A file holds more than `MAX_TLS_MATERIAL_BYTES` bytes.
    Oversized,
    /// A PEM section could not be decoded.
    InvalidCertificatePem,
    /// No certificate section was found.
    NoCertificate,
    /// A private key section could not be decoded.
    InvalidKeyPem,
    /// No private key section was found.
    NoPrivateKey,
    /// A certificate cannot be a trust anchor.
    InvalidTrustAnchor,
    /// The trust bundle holds no certificate.
    EmptyTrustBundle,
    /// No trust anchor was configured and verification is not switched off.
    MissingTrust,
    /// Certificate chain and key do not make up a TLS configuration.
    InvalidTlsConfig,
    /// The TLS configuration cannot carry QUIC.
    InvalidQuicConfig,
    /// A self-signed certificate could not be made.
    SelfSignedFailed,
    /// The clock stands before 1970.
    ClockBeforeEpoch,
    /// The certificate at this position of the chain is not valid yet.
    NotYetValid { index: usize },
    /// The certificate at this position of the chain is no longer valid.
    Expired { index: usize },
    /// A DER element has another tag than expected.
    UnexpectedDerTag,
    /// The input ends before a DER length.
    MissingDerLength,
    /// A DER length is indefinite or takes more than four bytes.
    UnsupportedDerLength,
    /// The input ends inside a DER length.
    TruncatedDerLength,
    /// A DER element would end beyond the address space.
    DerOffsetOverflow,
    /// The input ends inside a DER value.
    TruncatedDerValue,
    /// The input ends before a validity time.
    MissingTime,
    /// A UTCTime has the wrong length.
    InvalidUtcTime,
    /// A GeneralizedTime has the wrong length.
    InvalidGeneralizedTime,
    /// A validity time is neither a UTCTime nor a GeneralizedTime.
    InvalidTimeTag,
    /// A validity time does not end in `Z`.
    TimeNotUtc,
    /// A validity time has a byte that is no digit.
    InvalidDecimal,
    /// A decimal number does not fit.
    DecimalOverflow,
    /// A month outside 1 to 12.
    InvalidMonth,
    /// A day outside its month.
    InvalidDay,
    /// An hour, minute or second out of range.
    InvalidTimeOfDay,
    /// A certificate ends its validity before it begins.
    InvalidWindow,
    /// A reload interval of zero.
    ZeroReloadInterval,
}

} // verus!
