//! SGX quotes of version 3 and their verification.

use vstd::prelude::*;
use vstd::slice::slice_subrange;
use crate::body::EnclaveReport;
use crate::bytes::{le_u32, push_bytes, read_array, read_u32, read_vec};
use crate::cert_data::{CertData, QeAuthData, QeReportCertData};
use crate::enclave_identity::EnclaveIdentityV2;
use crate::error::{DecodeError, VerifyError};
use crate::evidence::{
    check_collateral, check_quoting_enclave, collateral_error, quoting_enclave_error, Evidence,
};
use crate::header::QuoteHeader;
use crate::status::TcbStatus;
use crate::tcbinfo::{fmspc_tcb_status, get_fmspc_tcbstatus, platform_identity_error, TcbInfoV2};

verus! {

/// An SGX quote of version 3: header, enclave report and the signature
/// block as raw bytes.
#[derive(Clone, Debug)]
pub struct SgxQuote {
    pub header: QuoteHeader,
    pub isv_enclave_report: EnclaveReport,
    pub signature_len: u32,
    pub signature: Vec<u8>,
}

/// The signature block of a quote of version 3.
#[derive(Clone, Debug)]
pub struct SgxQuoteSignatureData {
    pub isv_enclave_report_signature: [u8; 64],
    pub ecdsa_attestation_key: [u8; 64],
    pub qe_report: EnclaveReport,
    pub qe_report_signature: [u8; 64],
    pub qe_auth_data: QeAuthData,
    pub qe_cert_data: CertData,
}

/// What a verified quote of version 3 attests.
#[derive(Clone, Copy, Debug)]
pub struct SgxVerifiedOutput {
    pub tcb_status: TcbStatus,
    pub mr_enclave: [u8; 32],
    pub mr_signer: [u8; 32],
    pub report_data: [u8; 64],
    pub fmspc: [u8; 6],
}

impl SgxQuote {
    /// Why `s` is no quote of version 3, or `None` where it is.
    pub open spec fn decode_error(s: Seq<u8>) -> Option<DecodeError> {
        if s.len() < 436 || s.len() < 436 + le_u32(s, 432) {
            Some(DecodeError::Truncated)
        } else {
            None
        }
    }

    /// Whether `s` starts with exactly this quote.
    pub open spec fn parses(self, s: Seq<u8>) -> bool {
        &&& s.len() >= 436 + self.signature_len
        &&& self.header.parses(s)
        &&& self.isv_enclave_report.parses(s.subrange(48, 432))
        &&& self.signature_len == le_u32(s, 432)
        &&& self.signature@ == s.subrange(436, 436 + self.signature_len)
    }

    /// A quote cut short is refused: where `s` decodes, no prefix shorter
    /// than the quote's own length does.
    pub proof fn lemma_truncated_prefix_fails(s: Seq<u8>, cut: int)
        requires
            SgxQuote::decode_error(s) is None,
            0 <= cut < 436 + le_u32(s, 432),
        ensures
            SgxQuote::decode_error(s.take(cut)) == Some(DecodeError::Truncated),
    {
        if cut >= 436 {
            assert(le_u32(s.take(cut), 432) == le_u32(s, 432));
        }
    }

    /// Decodes a quote of version 3 from the start of `raw_bytes`.
    pub fn from_bytes(raw_bytes: &[u8]) -> (r: Result<SgxQuote, DecodeError>)
        ensures
            match r {
                Ok(q) => SgxQuote::decode_error(raw_bytes@) is None && q.parses(raw_bytes@),
                Err(e) => SgxQuote::decode_error(raw_bytes@) == Some(e),
            },
    {
        let total: usize = raw_bytes.len();
        if total < 436 {
            return Err(DecodeError::Truncated);
        }
        let header = match QuoteHeader::from_bytes(raw_bytes) {
            Ok(h) => h,
            Err(e) => { return Err(e); },
        };
        let isv_enclave_report = match EnclaveReport::from_bytes(slice_subrange(raw_bytes, 48, 432)) {
            Ok(b) => b,
            Err(e) => { return Err(e); },
        };
        let signature_len: u32 = read_u32(raw_bytes, 432);
        if total - 436 < signature_len as usize {
            return Err(DecodeError::Truncated);
        }
        let signature = read_vec(raw_bytes, 436, 436 + signature_len as usize);
        Ok(SgxQuote { header, isv_enclave_report, signature_len, signature })
    }

    /// The bytes that the quote's signature is over: the header, then the
    /// enclave report.
    pub fn signed_message(&self) -> (r: Vec<u8>)
        ensures
            r@ == self.header.encoding() + self.isv_enclave_report.encoding(),
    {
        let mut out = self.header.to_bytes();
        let report = self.isv_enclave_report.to_bytes();
        push_bytes(&mut out, report.as_slice());
        out
    }
}

impl SgxQuoteSignatureData {
    /// What follows signature and key in the block: the quoting enclave's
    /// report with its signature, authentication data and certification data.
    pub open spec fn certification(self) -> QeReportCertData {
        QeReportCertData {
            qe_report: self.qe_report,
            qe_report_signature: self.qe_report_signature,
            qe_auth_data: self.qe_auth_data,
            qe_cert_data: self.qe_cert_data,
        }
    }

    /// Why `s` is no signature block of version 3, or `None` where it is.
    pub open spec fn decode_error(s: Seq<u8>) -> Option<DecodeError> {
        if s.len() < 128 {
            Some(DecodeError::Truncated)
        } else {
            QeReportCertData::decode_error(s.subrange(128, s.len() as int))
        }
    }

    /// Whether `s` starts with exactly this signature block.
    pub open spec fn parses(self, s: Seq<u8>) -> bool {
        &&& s.len() >= 128
        &&& self.isv_enclave_report_signature@ == s.subrange(0, 64)
        &&& self.ecdsa_attestation_key@ == s.subrange(64, 128)
        &&& self.certification().parses(s.subrange(128, s.len() as int))
    }

    /// A signature block cut short is refused: where `s` decodes, no
    /// prefix shorter than the block's own length does.
    pub proof fn lemma_truncated_prefix_fails(s: Seq<u8>, cut: int)
        requires
            SgxQuoteSignatureData::decode_error(s) is None,
            0 <= cut < 128 + QeReportCertData::wire_len(s.subrange(128, s.len() as int)),
        ensures
            SgxQuoteSignatureData::decode_error(s.take(cut)) == Some(DecodeError::Truncated),
    {
        let t = s.take(cut);
        if cut >= 128 {
            let rest = s.subrange(128, s.len() as int);
            assert(t.subrange(128, t.len() as int) =~= rest.take(cut - 128));
            QeReportCertData::lemma_truncated_prefix_fails(rest, cut - 128);
        }
    }

    /// Decodes a signature block of version 3.
    pub fn from_bytes(raw_bytes: &[u8]) -> (r: Result<SgxQuoteSignatureData, DecodeError>)
        ensures
            match r {
                Ok(sig) => SgxQuoteSignatureData::decode_error(raw_bytes@) is None && sig.parses(
                    raw_bytes@,
                ),
                Err(e) => SgxQuoteSignatureData::decode_error(raw_bytes@) == Some(e),
            },
    {
        let total: usize = raw_bytes.len();
        if total < 128 {
            return Err(DecodeError::Truncated);
        }
        let isv_enclave_report_signature = read_array::<64>(raw_bytes, 0);
        let ecdsa_attestation_key = read_array::<64>(raw_bytes, 64);
        match QeReportCertData::from_bytes(slice_subrange(raw_bytes, 128, total)) {
            Ok(q) => Ok(
                SgxQuoteSignatureData {
                    isv_enclave_report_signature,
                    ecdsa_attestation_key,
                    qe_report: q.qe_report,
                    qe_report_signature: q.qe_report_signature,
                    qe_auth_data: q.qe_auth_data,
                    qe_cert_data: q.qe_cert_data,
                },
            ),
            Err(e) => Err(e),
        }
    }
}

/// The first failed check before the signature block is decoded, or
/// `None`: the header's version, then the collateral.
pub open spec fn v3_early_error(quote: SgxQuote, ev: Evidence) -> Option<VerifyError> {
    if quote.header.version != 3 {
        Some(VerifyError::InvalidQuoteHeader)
    } else {
        collateral_error(ev)
    }
}

/// The first failed check of a quote of version 3 once its signature
/// block is decoded, or `None`: the quote's signature and the quoting
/// enclave, then whether the TCB info is the platform's, then whether the
/// platform's status is a revocation.
pub open spec fn v3_error(
    quote: SgxQuote,
    cert_data_type: u16,
    qe_report: EnclaveReport,
    tcbinfov2: TcbInfoV2,
    identity: EnclaveIdentityV2,
    ev: Evidence,
) -> Option<VerifyError> {
    if quoting_enclave_error(ev, cert_data_type, qe_report, identity) is Some {
        quoting_enclave_error(ev, cert_data_type, qe_report, identity)
    } else if platform_identity_error(ev.sgx_extensions, tcbinfov2.fmspc@, tcbinfov2.pce_id@)
        is Some {
        platform_identity_error(ev.sgx_extensions, tcbinfov2.fmspc@, tcbinfov2.pce_id@)
    } else if fmspc_tcb_status(tcbinfov2.tcb_levels@, ev.sgx_extensions) == TcbStatus::TcbRevoked {
        Some(VerifyError::FmspcTcbRevoked)
    } else {
        None
    }
}

/// Whether `out` is what a quote that passed every check attests.
pub open spec fn v3_output(out: SgxVerifiedOutput, quote: SgxQuote, tcbinfov2: TcbInfoV2, ev: Evidence) -> bool {
    &&& out.tcb_status == fmspc_tcb_status(tcbinfov2.tcb_levels@, ev.sgx_extensions)
    &&& out.mr_enclave == quote.isv_enclave_report.mrenclave
    &&& out.mr_signer == quote.isv_enclave_report.mrsigner
    &&& out.report_data == quote.isv_enclave_report.report_data
    &&& out.fmspc == ev.sgx_extensions.fmspc
}

/// Whether `r` is the outcome of the checks that follow the decoding of
/// the signature block: the output where none fails, else the first failure.
pub open spec fn v3_outcome(
    r: Result<SgxVerifiedOutput, VerifyError>,
    quote: SgxQuote,
    cert_data_type: u16,
    qe_report: EnclaveReport,
    tcbinfov2: TcbInfoV2,
    identity: EnclaveIdentityV2,
    ev: Evidence,
) -> bool {
    match r {
        Ok(out) => v3_error(quote, cert_data_type, qe_report, tcbinfov2, identity, ev) is None
            && v3_output(out, quote, tcbinfov2, ev),
        Err(e) => v3_error(quote, cert_data_type, qe_report, tcbinfov2, identity, ev) == Some(e),
    }
}

/// Verifying the same quote against the same documents and answers gives
/// the same outcome: two outcomes of one input fail alike or attest alike.
pub proof fn lemma_v3_outcome_unique(
    first: Result<SgxVerifiedOutput, VerifyError>,
    second: Result<SgxVerifiedOutput, VerifyError>,
    quote: SgxQuote,
    cert_data_type: u16,
    qe_report: EnclaveReport,
    tcbinfov2: TcbInfoV2,
    identity: EnclaveIdentityV2,
    ev: Evidence,
)
    requires
        v3_outcome(first, quote, cert_data_type, qe_report, tcbinfov2, identity, ev),
        v3_outcome(second, quote, cert_data_type, qe_report, tcbinfov2, identity, ev),
    ensures
        first == second,
{
}

/// A revocation is never attested: an outcome that is an output carries a
/// status other than `TcbRevoked`.
pub proof fn lemma_v3_output_never_revoked(
    out: SgxVerifiedOutput,
    quote: SgxQuote,
    cert_data_type: u16,
    qe_report: EnclaveReport,
    tcbinfov2: TcbInfoV2,
    identity: EnclaveIdentityV2,
    ev: Evidence,
)
    requires
        v3_outcome(
            Ok::<SgxVerifiedOutput, VerifyError>(out),
            quote,
            cert_data_type,
            qe_report,
            tcbinfov2,
            identity,
            ev,
        ),
    ensures
        out.tcb_status != TcbStatus::TcbRevoked,
{
}

/// Verifies a quote of version 3 whose signature block is decoded.
pub fn verify_quote_dcapv3_with_signature(
    quote: &SgxQuote,
    signature: &SgxQuoteSignatureData,
    tcbinfov2: &TcbInfoV2,
    qe_identityv2: &EnclaveIdentityV2,
    evidence: &Evidence,
) -> (r: Result<SgxVerifiedOutput, VerifyError>)
    ensures
        v3_outcome(
            r,
            *quote,
            signature.qe_cert_data.cert_data_type,
            signature.qe_report,
            *tcbinfov2,
            *qe_identityv2,
            *evidence,
        ),
{
    match check_quoting_enclave(
        evidence,
        signature.qe_cert_data.cert_data_type,
        &signature.qe_report,
        qe_identityv2,
    ) {
        Err(e) => { return Err(e); },
        Ok(_) => {},
    }
    let tcb_status = match get_fmspc_tcbstatus(&evidence.sgx_extensions, tcbinfov2) {
        Err(e) => { return Err(e); },
        Ok(status) => status,
    };
    if tcb_status == TcbStatus::TcbRevoked {
        return Err(VerifyError::FmspcTcbRevoked);
    }
    Ok(
        SgxVerifiedOutput {
            tcb_status,
            mr_enclave: quote.isv_enclave_report.mrenclave,
            mr_signer: quote.isv_enclave_report.mrsigner,
            report_data: quote.isv_enclave_report.report_data,
            fmspc: evidence.sgx_extensions.fmspc,
        },
    )
}

/// Verifies an SGX quote of version 3 against the collateral documents
/// and the collaborators' answers. The checks run in a fixed order and the
/// first failure is returned: the header's version, the collateral, the
/// decoding of the signature block, then what `v3_error` lists of the
/// block; where the block decodes, the outcome is that of any value it
/// decodes to.
pub fn verify_quote_dcapv3(
    quote: &SgxQuote,
    tcbinfov2: &TcbInfoV2,
    qe_identityv2: &EnclaveIdentityV2,
    evidence: &Evidence,
) -> (r: Result<SgxVerifiedOutput, VerifyError>)
    ensures
        v3_early_error(*quote, *evidence) matches Some(e) ==> r == Err::<
            SgxVerifiedOutput,
            VerifyError,
        >(e),
        v3_early_error(*quote, *evidence) is None ==> match SgxQuoteSignatureData::decode_error(
            quote.signature@,
        ) {
            Some(e) => r == Err::<SgxVerifiedOutput, VerifyError>(
                VerifyError::MalformedSignatureData(e),
            ),
            None => (forall|sig: SgxQuoteSignatureData| #[trigger]
                sig.parses(quote.signature@) ==> v3_outcome(
                    r,
                    *quote,
                    sig.qe_cert_data.cert_data_type,
                    sig.qe_report,
                    *tcbinfov2,
                    *qe_identityv2,
                    *evidence,
                )) && (exists|sig: SgxQuoteSignatureData| #[trigger] sig.parses(quote.signature@)),
        },
{
    if quote.header.version != 3 {
        return Err(VerifyError::InvalidQuoteHeader);
    }
    match check_collateral(evidence) {
        Err(e) => { return Err(e); },
        Ok(_) => {},
    }
    let signature = match SgxQuoteSignatureData::from_bytes(quote.signature.as_slice()) {
        Err(e) => { return Err(VerifyError::MalformedSignatureData(e)); },
        Ok(s) => s,
    };
    let r = verify_quote_dcapv3_with_signature(quote, &signature, tcbinfov2, qe_identityv2, evidence);
    proof {
        let s = quote.signature@;
        let t = s.subrange(128, s.len() as int);
        assert(signature.parses(s));
        assert forall|sig: SgxQuoteSignatureData| #[trigger] sig.parses(s) implies v3_outcome(
            r,
            *quote,
            sig.qe_cert_data.cert_data_type,
            sig.qe_report,
            *tcbinfov2,
            *qe_identityv2,
            *evidence,
        ) by {
            signature.qe_report.lemma_parse_unique(sig.qe_report, t);
        }
    }
    r
}

} // verus!
