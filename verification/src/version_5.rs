//! Quotes of version 5 and the signature block they end with.

use vstd::prelude::*;
use vstd::slice::slice_subrange;
use crate::body::{EnclaveReport, QuoteBody, TD10ReportBody, TD15ReportBody};
use crate::bytes::{le_u16, le_u32, read_array, read_u16, read_u32};
use crate::cert_data::CertData;
use crate::constants::{
    ENCLAVE_REPORT_LEN, SGX_QUOTE_BODY_TYPE, SGX_TEE_TYPE, TD10_QUOTE_BODY_TYPE, TD10_REPORT_LEN,
    TD15_QUOTE_BODY_TYPE, TD15_REPORT_LEN, TDX_TEE_TYPE,
};
use crate::error::DecodeError;
use crate::header::QuoteHeader;

verus! {

/// The signature block of a quote of version 4 or 5.
#[derive(Clone, Debug)]
pub struct QuoteSignatureDataV4 {
    /// The ECDSA signature over header and body, `r` then `s`.
    pub quote_signature: [u8; 64],
    /// The attestation key, `x` then `y`.
    pub ecdsa_attestation_key: [u8; 64],
    /// The certification data of the quoting enclave.
    pub qe_cert_data: CertData,
}

impl QuoteSignatureDataV4 {
    /// Why `s` is no signature block, or `None` where it is.
    pub open spec fn decode_error(s: Seq<u8>) -> Option<DecodeError> {
        if s.len() < 128 {
            Some(DecodeError::Truncated)
        } else {
            CertData::decode_error(s.subrange(128, s.len() as int))
        }
    }

    /// Whether `s` starts with exactly this signature block.
    pub open spec fn parses(self, s: Seq<u8>) -> bool {
        &&& s.len() >= 128
        &&& self.quote_signature@ == s.subrange(0, 64)
        &&& self.ecdsa_attestation_key@ == s.subrange(64, 128)
        &&& self.qe_cert_data.parses(s.subrange(128, s.len() as int))
    }

    /// The number of bytes that the signature block at the start of `s` takes.
    pub open spec fn wire_len(s: Seq<u8>) -> int {
        128 + CertData::wire_len(s.subrange(128, s.len() as int))
    }

    /// A signature block cut short is refused as truncated: where `s`
    /// decodes, no prefix shorter than the block's own length does.
    pub proof fn lemma_truncated_prefix_fails(s: Seq<u8>, cut: int)
        requires
            QuoteSignatureDataV4::decode_error(s) is None,
            0 <= cut < QuoteSignatureDataV4::wire_len(s),
        ensures
            QuoteSignatureDataV4::decode_error(s.take(cut)) == Some(DecodeError::Truncated),
    {
        let t = s.take(cut);
        if cut >= 128 {
            let rest = s.subrange(128, s.len() as int);
            assert(t.subrange(128, t.len() as int) =~= rest.take(cut - 128));
            CertData::lemma_truncated_prefix_fails(rest, cut - 128);
        }
    }

    /// Decodes a signature block: signature, attestation key and
    /// certification data.
    pub fn from_bytes(raw_bytes: &[u8]) -> (r: Result<QuoteSignatureDataV4, DecodeError>)
        ensures
            match r {
                Ok(sig) => QuoteSignatureDataV4::decode_error(raw_bytes@) is None && sig.parses(
                    raw_bytes@,
                ),
                Err(e) => QuoteSignatureDataV4::decode_error(raw_bytes@) == Some(e),
            },
    {
        let total: usize = raw_bytes.len();
        if total < 128 {
            return Err(DecodeError::Truncated);
        }
        let quote_signature = read_array::<64>(raw_bytes, 0);
        let ecdsa_attestation_key = read_array::<64>(raw_bytes, 64);
        match CertData::from_bytes(slice_subrange(raw_bytes, 128, total)) {
            Ok(qe_cert_data) => Ok(
                QuoteSignatureDataV4 { quote_signature, ecdsa_attestation_key, qe_cert_data },
            ),
            Err(e) => Err(e),
        }
    }
}

/// The length of the report that a pair of TEE type and body type names,
/// if it names one.
pub open spec fn body_len(tee_type: u32, body_type: u16) -> Option<int> {
    if tee_type == SGX_TEE_TYPE && body_type == SGX_QUOTE_BODY_TYPE {
        Some(ENCLAVE_REPORT_LEN as int)
    } else if tee_type == TDX_TEE_TYPE && body_type == TD10_QUOTE_BODY_TYPE {
        Some(TD10_REPORT_LEN as int)
    } else if tee_type == TDX_TEE_TYPE && body_type == TD15_QUOTE_BODY_TYPE {
        Some(TD15_REPORT_LEN as int)
    } else {
        None
    }
}

/// A quote of version 5.
#[derive(Clone, Debug)]
pub struct QuoteV5 {
    /// The 48-byte header.
    pub header: QuoteHeader,
    /// The tag that names the kind of the body.
    pub quote_body_type: u16,
    /// The declared size of the body.
    pub quote_body_size: u32,
    /// The report.
    pub quote_body: QuoteBody,
    /// The declared size of the signature block.
    pub signature_len: u32,
    /// The signature block.
    pub signature: QuoteSignatureDataV4,
}

impl QuoteV5 {
    /// Why `s` is no quote of version 5, or `None` where it is. In the
    /// order of the layout: header and body tags, a known pair of tags, a
    /// declared body size equal to the report's, the report and the
    /// signature length, the signature block, and what that block holds.
    pub open spec fn decode_error(s: Seq<u8>) -> Option<DecodeError> {
        if s.len() < 54 {
            Some(DecodeError::Truncated)
        } else {
            match body_len(le_u32(s, 4), le_u16(s, 48)) {
                None => Some(DecodeError::UnknownBodyType),
                Some(n) => if le_u32(s, 50) != n {
                    Some(DecodeError::BodySizeMismatch)
                } else if s.len() < 58 + n {
                    Some(DecodeError::Truncated)
                } else if s.len() < 58 + n + le_u32(s, 54 + n) {
                    Some(DecodeError::Truncated)
                } else {
                    QuoteSignatureDataV4::decode_error(
                        s.subrange(58 + n, 58 + n + le_u32(s, 54 + n)),
                    )
                },
            }
        }
    }

    /// The number of bytes that the quote at the start of `s` takes, where
    /// its tags name a report: header, tags, report, signature length and
    /// signature block.
    pub open spec fn wire_len(s: Seq<u8>) -> int {
        let n = body_len(le_u32(s, 4), le_u16(s, 48)).unwrap();
        58 + n + le_u32(s, 54 + n)
    }

    /// Whether `s` starts with exactly this quote.
    pub open spec fn parses(self, s: Seq<u8>) -> bool {
        &&& s.len() >= 54
        &&& self.header.parses(s)
        &&& self.quote_body_type == le_u16(s, 48)
        &&& self.quote_body_size == le_u32(s, 50)
        &&& body_len(self.header.tee_type, self.quote_body_type) matches Some(n) && {
            &&& s.len() >= 58 + n + self.signature_len
            &&& match self.quote_body {
                QuoteBody::SGXQuoteBody(b) => n == ENCLAVE_REPORT_LEN && b.parses(
                    s.subrange(54, 54 + n),
                ),
                QuoteBody::TD10QuoteBody(b) => n == TD10_REPORT_LEN && b.parses(
                    s.subrange(54, 54 + n),
                ),
                QuoteBody::TD15QuoteBody(b) => n == TD15_REPORT_LEN && b.parses(
                    s.subrange(54, 54 + n),
                ),
            }
            &&& self.signature_len == le_u32(s, 54 + n)
            &&& self.signature.parses(s.subrange(58 + n, 58 + n + self.signature_len))
        }
    }

    /// Decodes a quote of version 5 from the start of `raw_bytes`.
    pub fn from_bytes(raw_bytes: &[u8]) -> (r: Result<QuoteV5, DecodeError>)
        ensures
            match r {
                Ok(q) => QuoteV5::decode_error(raw_bytes@) is None && q.parses(raw_bytes@),
                Err(e) => QuoteV5::decode_error(raw_bytes@) == Some(e),
            },
    {
        let total: usize = raw_bytes.len();
        if total < 54 {
            return Err(DecodeError::Truncated);
        }
        let header = match QuoteHeader::from_bytes(raw_bytes) {
            Ok(h) => h,
            Err(e) => { return Err(e); },
        };
        let quote_body_type: u16 = read_u16(raw_bytes, 48);
        let quote_body_size: u32 = read_u32(raw_bytes, 50);
        let n: usize = if header.tee_type == SGX_TEE_TYPE && quote_body_type
            == SGX_QUOTE_BODY_TYPE {
            ENCLAVE_REPORT_LEN
        } else if header.tee_type == TDX_TEE_TYPE && quote_body_type == TD10_QUOTE_BODY_TYPE {
            TD10_REPORT_LEN
        } else if header.tee_type == TDX_TEE_TYPE && quote_body_type == TD15_QUOTE_BODY_TYPE {
            TD15_REPORT_LEN
        } else {
            return Err(DecodeError::UnknownBodyType);
        };
        if quote_body_size as usize != n {
            return Err(DecodeError::BodySizeMismatch);
        }
        if total < 58 + n {
            return Err(DecodeError::Truncated);
        }
        let body_bytes = slice_subrange(raw_bytes, 54, 54 + n);
        let quote_body = if n == ENCLAVE_REPORT_LEN {
            match EnclaveReport::from_bytes(body_bytes) {
                Ok(b) => QuoteBody::SGXQuoteBody(b),
                Err(e) => { return Err(e); },
            }
        } else if n == TD10_REPORT_LEN {
            match TD10ReportBody::from_bytes(body_bytes) {
                Ok(b) => QuoteBody::TD10QuoteBody(b),
                Err(e) => { return Err(e); },
            }
        } else {
            match TD15ReportBody::from_bytes(body_bytes) {
                Ok(b) => QuoteBody::TD15QuoteBody(b),
                Err(e) => { return Err(e); },
            }
        };
        let signature_len: u32 = read_u32(raw_bytes, 54 + n);
        if total - (58 + n) < signature_len as usize {
            return Err(DecodeError::Truncated);
        }
        let signature_slice = slice_subrange(raw_bytes, 58 + n, 58 + n + signature_len as usize);
        match QuoteSignatureDataV4::from_bytes(signature_slice) {
            Ok(signature) => Ok(
                QuoteV5 {
                    header,
                    quote_body_type,
                    quote_body_size,
                    quote_body,
                    signature_len,
                    signature,
                },
            ),
            Err(e) => Err(e),
        }
    }

    /// A buffer cut short anywhere inside a quote is refused as truncated:
    /// where `s` decodes, no prefix shorter than the quote's own length
    /// does, wherever it is cut: in the header, the report, the signature
    /// length, the signature block or its certification data.
    pub proof fn lemma_truncated_prefix_fails(s: Seq<u8>, cut: int)
        requires
            QuoteV5::decode_error(s) is None,
            0 <= cut < QuoteV5::wire_len(s),
        ensures
            QuoteV5::decode_error(s.take(cut)) == Some(DecodeError::Truncated),
    {
        let t = s.take(cut);
        let n = body_len(le_u32(s, 4), le_u16(s, 48)).unwrap();
        if cut >= 54 {
            assert(le_u32(t, 4) == le_u32(s, 4));
            assert(le_u16(t, 48) == le_u16(s, 48));
            assert(le_u32(t, 50) == le_u32(s, 50));
            if cut >= 58 + n {
                assert(le_u32(t, 54 + n) == le_u32(s, 54 + n));
            }
        }
    }
}

} // verus!
