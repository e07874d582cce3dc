//! The reasons for which decoding or verification fails.

use vstd::prelude::*;

verus! {

/// Why a byte buffer is not a quote.
#[derive(Clone, Copy, Debug, PartialEq, Eq, Structural)]
pub enum DecodeError {
    /// The buffer ends before a fixed or declared field does.
    Truncated,
    /// The pair of TEE type and body type names no known report.
    UnknownBodyType,
    /// The declared body size is not the size of the report that the tags name.
    BodySizeMismatch,
    /// The certification data is of a type other than the two supported.
    UnsupportedCertDataType,
}

/// The check at which the verification of a quote stopped.
#[derive(Clone, Copy, Debug, PartialEq, Eq, Structural)]
pub enum VerifyError {
    /// The header is not one that a quote of the expected version carries.
    InvalidQuoteHeader,
    /// The signing certificate does not chain to the root certificate.
    SigningCertificateNotTrusted,
    /// The TCB info document is not validly signed or not current.
    TcbInfoInvalid,
    /// The enclave identity document is not validly signed or not current.
    EnclaveIdentityInvalid,
    /// The signature over header and body does not verify.
    QuoteSignatureInvalid,
    /// The signature block does not decode.
    MalformedSignatureData(DecodeError),
    /// The certification data is not of the type that the flow handles.
    UnsupportedCertDataType,
    /// The certificate chain of the quoting enclave does not chain to the root.
    CertChainInvalid,
    /// The signature over the quoting enclave's report does not verify.
    QeReportSignatureInvalid,
    /// The quoting enclave's report does not match the identity document.
    QeIdentityMismatch,
    /// The quoting enclave's report does not bind the attestation key.
    QeReportDataMismatch,
    /// The TCB info is not that of the platform's FMSPC.
    FmspcMismatch,
    /// The TCB info is not that of the platform's PCE.
    PceIdMismatch,
    /// The platform's status by the TCB info is a revocation.
    FmspcTcbRevoked,
    /// The TCB info names no TDX module, or none of the module's version.
    TdxModuleUnknown,
    /// The TDX module's status is a revocation.
    TdxModuleTcbRevoked,
    /// The report's module signer or attributes are not the TDX module's.
    TdxModuleMismatch,
}

} // verus!
