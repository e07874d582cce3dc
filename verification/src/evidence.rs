//! What the cryptographic collaborators are asked and what they answered.
//!
//! Certificate chains, signatures and digests are checked outside this
//! library. The functions here build the exact byte strings that are to be
//! checked, and `Evidence` carries the answers into the verification.

use vstd::prelude::*;
use vstd::slice::slice_subrange;
use crate::body::EnclaveReport;
use crate::bytes::{bytes_equal, push_bytes};
use crate::constants::CERT_DATA_PCK_CHAIN;
use crate::enclave_identity::{
    get_qe_tcbstatus, qe_enclave_accepted, validate_qe_enclave, EnclaveIdentityV2,
};
use crate::error::VerifyError;
use crate::status::TcbStatus;
use crate::tcbinfo::SgxExtensions;

verus! {

/// The answers of the collaborators for one quote.
#[derive(Clone, Copy, Debug)]
pub struct Evidence {
    /// The signing certificate of the collateral chains to the root certificate.
    pub signing_cert_trusted: bool,
    /// The TCB info is signed by the signing certificate and current.
    pub tcb_info_valid: bool,
    /// The enclave identity is signed by the signing certificate and current.
    pub enclave_identity_valid: bool,
    /// The quote's signature verifies over the signed message under the
    /// attestation key.
    pub quote_signature_valid: bool,
    /// The certificate chain of the quoting enclave chains to the root certificate.
    pub qe_cert_chain_valid: bool,
    /// The signature over the quoting enclave's report verifies under the
    /// key of the chain's leaf certificate.
    pub qe_report_signature_valid: bool,
    /// SHA-256 of the attestation key followed by the authentication data.
    pub attestation_key_digest: [u8; 32],
    /// The SGX extensions of the chain's leaf certificate.
    pub sgx_extensions: SgxExtensions,
}

/// The attestation key as an uncompressed P-256 point: the byte 4, then
/// the 64 bytes of the key.
pub fn attestation_public_key(key: &[u8; 64]) -> (r: Vec<u8>)
    ensures
        r@ == seq![4u8] + key@,
{
    let mut out: Vec<u8> = Vec::new();
    out.push(4u8);
    assert(out@ =~= seq![4u8]);
    push_bytes(&mut out, key);
    out
}

/// The bytes whose SHA-256 digest the quoting enclave's report must
/// carry: the attestation key, then the authentication data.
pub fn qe_report_data_preimage(key: &[u8; 64], qe_auth_data: &[u8]) -> (r: Vec<u8>)
    ensures
        r@ == key@ + qe_auth_data@,
{
    let mut out: Vec<u8> = Vec::new();
    push_bytes(&mut out, key);
    assert(out@ =~= key@);
    push_bytes(&mut out, qe_auth_data);
    out
}

/// Whether the first 32 bytes of the report's data are the digest.
pub open spec fn report_data_binds(qe_report: EnclaveReport, digest: Seq<u8>) -> bool {
    qe_report.report_data@.subrange(0, 32) == digest
}

/// Checks that the quoting enclave's report binds the attestation key:
/// the first 32 bytes of its report data must be the digest of the key and
/// the authentication data.
pub fn verify_qe_report_data(qe_report: &EnclaveReport, digest: &[u8; 32]) -> (r: bool)
    ensures
        r == report_data_binds(*qe_report, digest@),
{
    let head = slice_subrange(qe_report.report_data.as_slice(), 0, 32);
    bytes_equal(head, digest.as_slice())
}

/// The first failed check of the collateral, or `None`: the signing
/// certificate, then the TCB info, then the enclave identity.
pub open spec fn collateral_error(ev: Evidence) -> Option<VerifyError> {
    if !ev.signing_cert_trusted {
        Some(VerifyError::SigningCertificateNotTrusted)
    } else if !ev.tcb_info_valid {
        Some(VerifyError::TcbInfoInvalid)
    } else if !ev.enclave_identity_valid {
        Some(VerifyError::EnclaveIdentityInvalid)
    } else {
        None
    }
}

/// Checks the collateral in its fixed order.
pub fn check_collateral(ev: &Evidence) -> (r: Result<(), VerifyError>)
    ensures
        match r {
            Ok(_) => collateral_error(*ev) is None,
            Err(e) => collateral_error(*ev) == Some(e),
        },
{
    if !ev.signing_cert_trusted {
        Err(VerifyError::SigningCertificateNotTrusted)
    } else if !ev.tcb_info_valid {
        Err(VerifyError::TcbInfoInvalid)
    } else if !ev.enclave_identity_valid {
        Err(VerifyError::EnclaveIdentityInvalid)
    } else {
        Ok(())
    }
}

/// The first failed check of the quote's signature and the quoting
/// enclave, or `None`. In order: the quote's signature, the type of the
/// certification data behind the quoting enclave's report (a certificate
/// chain), the chain, the signature over the report, the report against
/// the identity document, and the binding of the attestation key.
pub open spec fn quoting_enclave_error(
    ev: Evidence,
    cert_data_type: u16,
    qe_report: EnclaveReport,
    identity: EnclaveIdentityV2,
) -> Option<VerifyError> {
    if !ev.quote_signature_valid {
        Some(VerifyError::QuoteSignatureInvalid)
    } else if cert_data_type != CERT_DATA_PCK_CHAIN {
        Some(VerifyError::UnsupportedCertDataType)
    } else if !ev.qe_cert_chain_valid {
        Some(VerifyError::CertChainInvalid)
    } else if !ev.qe_report_signature_valid {
        Some(VerifyError::QeReportSignatureInvalid)
    } else if !qe_enclave_accepted(qe_report, identity) {
        Some(VerifyError::QeIdentityMismatch)
    } else if !report_data_binds(qe_report, ev.attestation_key_digest@) {
        Some(VerifyError::QeReportDataMismatch)
    } else {
        None
    }
}

/// Checks the quote's signature and the quoting enclave in their fixed order.
pub fn check_quoting_enclave(
    ev: &Evidence,
    cert_data_type: u16,
    qe_report: &EnclaveReport,
    identity: &EnclaveIdentityV2,
) -> (r: Result<(), VerifyError>)
    ensures
        match r {
            Ok(_) => quoting_enclave_error(*ev, cert_data_type, *qe_report, *identity) is None,
            Err(e) => quoting_enclave_error(*ev, cert_data_type, *qe_report, *identity) == Some(e),
        },
{
    if !ev.quote_signature_valid {
        Err(VerifyError::QuoteSignatureInvalid)
    } else if cert_data_type != CERT_DATA_PCK_CHAIN {
        Err(VerifyError::UnsupportedCertDataType)
    } else if !ev.qe_cert_chain_valid {
        Err(VerifyError::CertChainInvalid)
    } else if !ev.qe_report_signature_valid {
        Err(VerifyError::QeReportSignatureInvalid)
    } else if !validate_qe_enclave(qe_report, identity) {
        Err(VerifyError::QeIdentityMismatch)
    } else if !verify_qe_report_data(qe_report, &ev.attestation_key_digest) {
        Err(VerifyError::QeReportDataMismatch)
    } else {
        Ok(())
    }
}

/// The first failed check that every flow shares, or `None`: the
/// collateral, then the quote's signature and the quoting enclave.
pub open spec fn common_error(
    ev: Evidence,
    cert_data_type: u16,
    qe_report: EnclaveReport,
    identity: EnclaveIdentityV2,
) -> Option<VerifyError> {
    if collateral_error(ev) is Some {
        collateral_error(ev)
    } else {
        quoting_enclave_error(ev, cert_data_type, qe_report, identity)
    }
}

/// Runs the checks that every flow shares and hands back the status of
/// the quoting enclave and the platform's SGX extensions.
pub fn common_verify_and_fetch_tcb(
    ev: &Evidence,
    cert_data_type: u16,
    qe_report: &EnclaveReport,
    identity: &EnclaveIdentityV2,
) -> (r: Result<(TcbStatus, SgxExtensions), VerifyError>)
    ensures
        match r {
            Ok((qe_tcb_status, sgx_extensions)) => {
                &&& common_error(*ev, cert_data_type, *qe_report, *identity) is None
                &&& qe_tcb_status == crate::enclave_identity::qe_tcb_status(
                    identity.enclave_identity.tcb_levels@,
                    qe_report.isv_svn,
                )
                &&& sgx_extensions == ev.sgx_extensions
            },
            Err(e) => common_error(*ev, cert_data_type, *qe_report, *identity) == Some(e),
        },
{
    match check_collateral(ev) {
        Err(e) => { return Err(e); },
        Ok(_) => {},
    }
    match check_quoting_enclave(ev, cert_data_type, qe_report, identity) {
        Err(e) => { return Err(e); },
        Ok(_) => {},
    }
    Ok((get_qe_tcbstatus(qe_report, identity), ev.sgx_extensions))
}

} // verus!
