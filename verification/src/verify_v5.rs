//! The verification of quotes of version 5, SGX and TDX.

use vstd::prelude::*;
use crate::body::{EnclaveReport, QuoteBody};
use crate::bytes::{bytes_equal, push_bytes, push_u16, push_u32, u16_le, u32_le};
use crate::cert_data::{CertDataType, QeReportCertData};
use crate::constants::{CERT_DATA_QE_REPORT, SGX_TEE_TYPE};
use crate::enclave_identity::{qe_tcb_status, EnclaveIdentityV2};
use crate::error::VerifyError;
use crate::evidence::{common_error, common_verify_and_fetch_tcb, Evidence};
use crate::header::{check_quote_header, header_is_valid};
use crate::status::{
    combine, converge_tcb_status_with_qe_tcb, converge_tcb_status_with_tdx_module_tcb, TcbStatus,
};
use crate::tcbinfo::{
    get_sgx_tdx_fmspc_tcbstatus_v3, level_advisories_v3, matched_level_v3,
    platform_identity_error, sgx_status_v3, tdx_status_v3, TcbInfoV3,
};
use crate::tdx_module::{
    get_tdx_module_identity_and_tcb, tdx_module_attributes, tdx_module_error,
    tdx_module_mrsigner, tdx_module_status,
};
use crate::version_5::QuoteV5;

verus! {

/// What a verified quote of version 5 attests.
#[derive(Clone, Debug)]
pub struct VerifiedOutput {
    pub quote_version: u16,
    pub tee_type: u32,
    pub tcb_status: TcbStatus,
    pub fmspc: [u8; 6],
    pub quote_type: u16,
    pub quote_body: QuoteBody,
    pub advisory_ids: Vec<String>,
}

impl VerifiedOutput {
    /// Whether two outputs attest the same, field by field.
    pub open spec fn same_as(self, other: VerifiedOutput) -> bool {
        &&& self.quote_version == other.quote_version
        &&& self.tee_type == other.tee_type
        &&& self.tcb_status == other.tcb_status
        &&& self.fmspc == other.fmspc
        &&& self.quote_type == other.quote_type
        &&& self.quote_body == other.quote_body
        &&& self.advisory_ids@ == other.advisory_ids@
    }
}

/// The bytes that the quote's signature is over: the header, the body's
/// type and size, then the body.
pub fn signed_message(quote: &QuoteV5) -> (r: Vec<u8>)
    ensures
        r@ == quote.header.encoding() + u16_le(quote.quote_body_type) + u32_le(
            quote.quote_body_size,
        ) + quote.quote_body.encoding(),
{
    let mut out = quote.header.to_bytes();
    push_u16(&mut out, quote.quote_body_type);
    push_u32(&mut out, quote.quote_body_size);
    let body = quote.quote_body.to_bytes();
    push_bytes(&mut out, body.as_slice());
    out
}

/// Whether the report of a trust domain names the signer and attributes
/// that the document expects of the TDX module. An SGX report names none.
pub open spec fn tdx_module_matches(body: QuoteBody, mrsigner: Seq<u8>, attributes: u64) -> bool {
    match body {
        QuoteBody::SGXQuoteBody(_) => false,
        QuoteBody::TD10QuoteBody(b) => b.mrsignerseam@ == mrsigner && b.seam_attributes
            == attributes,
        QuoteBody::TD15QuoteBody(b) => b.mrsignerseam@ == mrsigner && b.seam_attributes
            == attributes,
    }
}

/// Compares the module signer and attributes of a report with the expected ones.
pub fn check_tdx_module(body: &QuoteBody, mrsigner: &[u8; 48], attributes: u64) -> (r: bool)
    ensures
        r == tdx_module_matches(*body, mrsigner@, attributes),
{
    match body {
        QuoteBody::SGXQuoteBody(_) => false,
        QuoteBody::TD10QuoteBody(b) => bytes_equal(b.mrsignerseam.as_slice(), mrsigner.as_slice())
            && b.seam_attributes == attributes,
        QuoteBody::TD15QuoteBody(b) => bytes_equal(b.mrsignerseam.as_slice(), mrsigner.as_slice())
            && b.seam_attributes == attributes,
    }
}

/// The first failed check of the TDX module, or `None`; an SGX quote has
/// none to fail. In order: the document names the module, the module is
/// not revoked, and the report names the module's signer and attributes.
pub open spec fn v5_module_error(quote: QuoteV5, info: TcbInfoV3) -> Option<VerifyError> {
    let svn = quote.quote_body.spec_tee_tcb_svn();
    if quote.header.tee_type == SGX_TEE_TYPE {
        None
    } else if tdx_module_error(svn, info) is Some {
        tdx_module_error(svn, info)
    } else if tdx_module_status(svn, info) == TcbStatus::TcbRevoked {
        Some(VerifyError::TdxModuleTcbRevoked)
    } else if !tdx_module_matches(
        quote.quote_body,
        tdx_module_mrsigner(svn, info),
        tdx_module_attributes(svn, info),
    ) {
        Some(VerifyError::TdxModuleMismatch)
    } else {
        None
    }
}

/// The platform's status that applies to the quote: the SGX status for
/// an SGX quote, the TDX status for any other.
pub open spec fn v5_platform_status(quote: QuoteV5, info: TcbInfoV3, ev: Evidence) -> TcbStatus {
    if quote.header.tee_type == SGX_TEE_TYPE {
        sgx_status_v3(info.tcb_levels@, ev.sgx_extensions)
    } else {
        tdx_status_v3(
            quote.header.tee_type,
            info.tcb_levels@,
            ev.sgx_extensions,
            quote.quote_body.spec_tee_tcb_svn(),
        )
    }
}

/// The first failed check of the module's and the platform's TCB, or
/// `None`. The TDX module comes first, so that a revoked module fails the
/// quote whatever the platform's levels say; then the TCB info must be the
/// platform's, and the platform's status that applies to the quote must
/// not be a revocation.
pub open spec fn v5_tcb_error(quote: QuoteV5, info: TcbInfoV3, ev: Evidence) -> Option<VerifyError> {
    if v5_module_error(quote, info) is Some {
        v5_module_error(quote, info)
    } else if platform_identity_error(ev.sgx_extensions, info.fmspc@, info.pce_id@) is Some {
        platform_identity_error(ev.sgx_extensions, info.fmspc@, info.pce_id@)
    } else if v5_platform_status(quote, info, ev) == TcbStatus::TcbRevoked {
        Some(VerifyError::FmspcTcbRevoked)
    } else {
        None
    }
}

/// The status that a quote of version 5 ends with: for SGX the platform's
/// SGX status, for TDX the platform's TDX status converged with the
/// module's; either then converged with the quoting enclave's.
pub open spec fn v5_status(
    quote: QuoteV5,
    qe_report: EnclaveReport,
    info: TcbInfoV3,
    identity: EnclaveIdentityV2,
    ev: Evidence,
) -> TcbStatus {
    let qe = qe_tcb_status(identity.enclave_identity.tcb_levels@, qe_report.isv_svn);
    if quote.header.tee_type == SGX_TEE_TYPE {
        combine(v5_platform_status(quote, info, ev), qe)
    } else {
        combine(
            combine(
                v5_platform_status(quote, info, ev),
                tdx_module_status(quote.quote_body.spec_tee_tcb_svn(), info),
            ),
            qe,
        )
    }
}

/// The first failed check of a quote of version 5 once the quoting
/// enclave's report is decoded, or `None`: the collateral, the quote's
/// signature and the quoting enclave, then the module and the platform.
pub open spec fn v5_error(
    quote: QuoteV5,
    cert_data_type: u16,
    qe_report: EnclaveReport,
    info: TcbInfoV3,
    identity: EnclaveIdentityV2,
    ev: Evidence,
) -> Option<VerifyError> {
    if common_error(ev, cert_data_type, qe_report, identity) is Some {
        common_error(ev, cert_data_type, qe_report, identity)
    } else {
        v5_tcb_error(quote, info, ev)
    }
}

/// Whether `out` is what a quote that passed every check attests.
pub open spec fn v5_output(
    out: VerifiedOutput,
    quote: QuoteV5,
    qe_report: EnclaveReport,
    info: TcbInfoV3,
    identity: EnclaveIdentityV2,
    ev: Evidence,
) -> bool {
    &&& out.quote_version == quote.header.version
    &&& out.tee_type == quote.header.tee_type
    &&& out.tcb_status == v5_status(quote, qe_report, info, identity, ev)
    &&& out.fmspc == ev.sgx_extensions.fmspc
    &&& out.quote_type == quote.quote_body_type
    &&& out.quote_body == quote.quote_body
    &&& out.advisory_ids@ == level_advisories_v3(
        info.tcb_levels@,
        matched_level_v3(
            quote.header.tee_type,
            info.tcb_levels@,
            ev.sgx_extensions,
            quote.quote_body.spec_tee_tcb_svn(),
        ),
    )
}

/// Whether `r` is the outcome of the checks that follow the decoding of
/// the quoting enclave's report: the output where none fails, else the
/// first failure.
pub open spec fn v5_outcome(
    r: Result<VerifiedOutput, VerifyError>,
    quote: QuoteV5,
    cert_data_type: u16,
    qe_report: EnclaveReport,
    info: TcbInfoV3,
    identity: EnclaveIdentityV2,
    ev: Evidence,
) -> bool {
    match r {
        Ok(out) => v5_error(quote, cert_data_type, qe_report, info, identity, ev) is None
            && v5_output(out, quote, qe_report, info, identity, ev),
        Err(e) => v5_error(quote, cert_data_type, qe_report, info, identity, ev) == Some(e),
    }
}

/// Verifying the same quote against the same documents and answers gives
/// the same outcome: two outcomes of one input fail alike or attest alike.
pub proof fn lemma_v5_outcome_unique(
    first: Result<VerifiedOutput, VerifyError>,
    second: Result<VerifiedOutput, VerifyError>,
    quote: QuoteV5,
    cert_data_type: u16,
    qe_report: EnclaveReport,
    info: TcbInfoV3,
    identity: EnclaveIdentityV2,
    ev: Evidence,
)
    requires
        v5_outcome(first, quote, cert_data_type, qe_report, info, identity, ev),
        v5_outcome(second, quote, cert_data_type, qe_report, info, identity, ev),
    ensures
        match first {
            Ok(a) => second matches Ok(b) && a.same_as(b),
            Err(e) => second matches Err(f) && e == f,
        },
{
}

/// A revocation is never attested: an outcome that is an output carries a
/// status other than `TcbRevoked`, since a revoked platform, a revoked TDX
/// module and a quoting enclave that is not `OK` each fail the quote.
pub proof fn lemma_v5_output_never_revoked(
    out: VerifiedOutput,
    quote: QuoteV5,
    cert_data_type: u16,
    qe_report: EnclaveReport,
    info: TcbInfoV3,
    identity: EnclaveIdentityV2,
    ev: Evidence,
)
    requires
        v5_outcome(
            Ok::<VerifiedOutput, VerifyError>(out),
            quote,
            cert_data_type,
            qe_report,
            info,
            identity,
            ev,
        ),
    ensures
        out.tcb_status != TcbStatus::TcbRevoked,
        v5_platform_status(quote, info, ev) != TcbStatus::TcbRevoked,
{
}

/// Verifies a quote of version 5 whose quoting-enclave report is decoded.
pub fn verify_quote_dcapv5_with_qe_report(
    quote: &QuoteV5,
    qe_report_cert_data: &QeReportCertData,
    tcb_info_v3: &TcbInfoV3,
    qe_identityv2: &EnclaveIdentityV2,
    evidence: &Evidence,
) -> (r: Result<VerifiedOutput, VerifyError>)
    ensures
        v5_outcome(
            r,
            *quote,
            qe_report_cert_data.qe_cert_data.cert_data_type,
            qe_report_cert_data.qe_report,
            *tcb_info_v3,
            *qe_identityv2,
            *evidence,
        ),
{
    let (qe_tcb_status, sgx_extensions) = match common_verify_and_fetch_tcb(
        evidence,
        qe_report_cert_data.qe_cert_data.cert_data_type,
        &qe_report_cert_data.qe_report,
        qe_identityv2,
    ) {
        Err(e) => { return Err(e); },
        Ok(found) => found,
    };
    let tee_tcb_svn = quote.quote_body.tee_tcb_svn();
    let tee_type: u32 = quote.header.tee_type;
    let mut tdx_module_tcb_status = TcbStatus::OK;
    if tee_type != SGX_TEE_TYPE {
        let (status, tdx_module_mrsigner, tdx_module_attributes) =
            match get_tdx_module_identity_and_tcb(&tee_tcb_svn, tcb_info_v3) {
            Err(e) => { return Err(e); },
            Ok(found) => found,
        };
        if status == TcbStatus::TcbRevoked {
            return Err(VerifyError::TdxModuleTcbRevoked);
        }
        if !check_tdx_module(&quote.quote_body, &tdx_module_mrsigner, tdx_module_attributes) {
            return Err(VerifyError::TdxModuleMismatch);
        }
        tdx_module_tcb_status = status;
    }
    let (sgx_tcb_status, tdx_tcb_status, advisory_ids) = match get_sgx_tdx_fmspc_tcbstatus_v3(
        tee_type,
        &sgx_extensions,
        &tee_tcb_svn,
        tcb_info_v3,
    ) {
        Err(e) => { return Err(e); },
        Ok(found) => found,
    };
    let platform_tcb_status = if tee_type == SGX_TEE_TYPE {
        sgx_tcb_status
    } else {
        tdx_tcb_status
    };
    if platform_tcb_status == TcbStatus::TcbRevoked {
        return Err(VerifyError::FmspcTcbRevoked);
    }
    let mut tcb_status: TcbStatus;
    if tee_type == SGX_TEE_TYPE {
        tcb_status = platform_tcb_status;
    } else {
        tcb_status = converge_tcb_status_with_tdx_module_tcb(
            platform_tcb_status,
            tdx_module_tcb_status,
        );
    }
    tcb_status = converge_tcb_status_with_qe_tcb(tcb_status, qe_tcb_status);
    Ok(
        VerifiedOutput {
            quote_version: quote.header.version,
            tee_type: quote.header.tee_type,
            tcb_status,
            fmspc: sgx_extensions.fmspc,
            quote_type: quote.quote_body_type,
            quote_body: quote.quote_body,
            advisory_ids,
        },
    )
}

/// The first failed check before the quoting enclave's report is at
/// hand, or `None`: the header's shape, the type of the certification data
/// (a quoting-enclave report), then its decoding.
pub open spec fn v5_early_error(quote: QuoteV5) -> Option<VerifyError> {
    if !header_is_valid(quote.header, 5) {
        Some(VerifyError::InvalidQuoteHeader)
    } else if quote.signature.qe_cert_data.cert_data_type != CERT_DATA_QE_REPORT {
        Some(VerifyError::UnsupportedCertDataType)
    } else {
        match QeReportCertData::decode_error(quote.signature.qe_cert_data.cert_data@) {
            Some(e) => Some(VerifyError::MalformedSignatureData(e)),
            None => None,
        }
    }
}

/// Verifies a quote of version 5 against the collateral documents and the
/// collaborators' answers. The checks run in a fixed order and the first
/// failure is returned: what `v5_early_error` lists, then what `v5_error`
/// lists of the quoting-enclave report that the certification data
/// decodes to; past the early checks there is such a report, and the
/// outcome is that of any value it decodes to.
pub fn verify_quote_dcapv5(
    quote: &QuoteV5,
    tcb_info_v3: &TcbInfoV3,
    qe_identityv2: &EnclaveIdentityV2,
    evidence: &Evidence,
) -> (r: Result<VerifiedOutput, VerifyError>)
    ensures
        v5_early_error(*quote) matches Some(e) ==> (r matches Err(f) && f == e),
        v5_early_error(*quote) is None ==> forall|q: QeReportCertData| #[trigger]
            q.parses(quote.signature.qe_cert_data.cert_data@) ==> v5_outcome(
                r,
                *quote,
                q.qe_cert_data.cert_data_type,
                q.qe_report,
                *tcb_info_v3,
                *qe_identityv2,
                *evidence,
            ),
        v5_early_error(*quote) is None ==> exists|q: QeReportCertData| #[trigger]
            q.parses(quote.signature.qe_cert_data.cert_data@),
{
    if !check_quote_header(&quote.header, 5) {
        return Err(VerifyError::InvalidQuoteHeader);
    }
    let qe_report_cert_data = match quote.signature.qe_cert_data.get_cert_data() {
        Ok(CertDataType::QeReportCertData(q)) => q,
        Ok(CertDataType::CertChain(_)) => { return Err(VerifyError::UnsupportedCertDataType); },
        Err(e) => {
            if quote.signature.qe_cert_data.cert_data_type != CERT_DATA_QE_REPORT {
                return Err(VerifyError::UnsupportedCertDataType);
            }
            return Err(VerifyError::MalformedSignatureData(e));
        },
    };
    let r = verify_quote_dcapv5_with_qe_report(
        quote,
        &qe_report_cert_data,
        tcb_info_v3,
        qe_identityv2,
        evidence,
    );
    proof {
        let s = quote.signature.qe_cert_data.cert_data@;
        assert(qe_report_cert_data.parses(s));
        assert forall|q: QeReportCertData| #[trigger] q.parses(s) implies v5_outcome(
            r,
            *quote,
            q.qe_cert_data.cert_data_type,
            q.qe_report,
            *tcb_info_v3,
            *qe_identityv2,
            *evidence,
        ) by {
            qe_report_cert_data.qe_report.lemma_parse_unique(q.qe_report, s);
        }
    }
    r
}

} // verus!
