//! Certification data: the tagged, length-prefixed tail of a signature block.

use vstd::prelude::*;
use vstd::slice::slice_subrange;
use crate::body::EnclaveReport;
use crate::bytes::{le_u16, le_u32, read_array, read_u16, read_u32, read_vec};
use crate::constants::{CERT_DATA_PCK_CHAIN, CERT_DATA_QE_REPORT};
use crate::error::DecodeError;

verus! {

/// Certification data as it stands on the wire: a type tag, a declared size
/// and that many bytes.
#[derive(Clone, Debug)]
pub struct CertData {
    pub cert_data_type: u16,
    pub cert_data_size: u32,
    pub cert_data: Vec<u8>,
}

/// The authentication data of the quoting enclave: a length and that many bytes.
#[derive(Clone, Debug)]
pub struct QeAuthData {
    pub size: u16,
    pub data: Vec<u8>,
}

/// The quoting enclave's report with its signature, its authentication data
/// and the certification data nested behind them.
#[derive(Clone, Debug)]
pub struct QeReportCertData {
    pub qe_report: EnclaveReport,
    pub qe_report_signature: [u8; 64],
    pub qe_auth_data: QeAuthData,
    pub qe_cert_data: CertData,
}

/// What certification data holds, by its type tag.
#[derive(Clone, Debug)]
pub enum CertDataType {
    /// A PEM certificate chain.
    CertChain(Vec<u8>),
    /// A quoting-enclave report and further certification data.
    QeReportCertData(QeReportCertData),
}

/// Whether a type tag is one of the two that are supported.
pub open spec fn cert_data_type_supported(tag: u16) -> bool {
    tag == CERT_DATA_PCK_CHAIN || tag == CERT_DATA_QE_REPORT
}

impl CertData {
    /// Why `s` is no certification data, or `None` where it is: the six
    /// bytes of tag and size must be there, the tag must be supported, and
    /// the declared size must fit in what follows.
    pub open spec fn decode_error(s: Seq<u8>) -> Option<DecodeError> {
        if s.len() < 6 {
            Some(DecodeError::Truncated)
        } else if !cert_data_type_supported(le_u16(s, 0)) {
            Some(DecodeError::UnsupportedCertDataType)
        } else if s.len() < 6 + le_u32(s, 2) {
            Some(DecodeError::Truncated)
        } else {
            None
        }
    }

    /// Whether `s` starts with exactly this certification data.
    pub open spec fn parses(self, s: Seq<u8>) -> bool {
        &&& s.len() >= 6 + self.cert_data_size
        &&& self.cert_data_type == le_u16(s, 0)
        &&& self.cert_data_size == le_u32(s, 2)
        &&& self.cert_data@ == s.subrange(6, 6 + self.cert_data_size)
    }

    /// The number of bytes that the certification data at the start of `s` takes.
    pub open spec fn wire_len(s: Seq<u8>) -> int {
        6 + le_u32(s, 2)
    }

    /// Decodes the certification data at the start of `raw`.
    pub fn from_bytes(raw: &[u8]) -> (r: Result<CertData, DecodeError>)
        ensures
            match r {
                Ok(c) => CertData::decode_error(raw@) is None && c.parses(raw@),
                Err(e) => CertData::decode_error(raw@) == Some(e),
            },
    {
        if raw.len() < 6 {
            return Err(DecodeError::Truncated);
        }
        let cert_data_type: u16 = read_u16(raw, 0);
        let cert_data_size: u32 = read_u32(raw, 2);
        if cert_data_type != CERT_DATA_PCK_CHAIN && cert_data_type != CERT_DATA_QE_REPORT {
            return Err(DecodeError::UnsupportedCertDataType);
        }
        if raw.len() - 6 < cert_data_size as usize {
            return Err(DecodeError::Truncated);
        }
        let cert_data = read_vec(raw, 6, 6 + cert_data_size as usize);
        Ok(CertData { cert_data_type, cert_data_size, cert_data })
    }

    /// Certification data cut short is refused as truncated: where `s`
    /// decodes, no prefix shorter than the data's own length does.
    pub proof fn lemma_truncated_prefix_fails(s: Seq<u8>, cut: int)
        requires
            CertData::decode_error(s) is None,
            0 <= cut < CertData::wire_len(s),
        ensures
            CertData::decode_error(s.take(cut)) == Some(DecodeError::Truncated),
    {
        let t = s.take(cut);
        if cut >= 6 {
            assert(le_u16(t, 0) == le_u16(s, 0));
            assert(le_u32(t, 2) == le_u32(s, 2));
        }
    }

    /// Why the payload cannot be read by its tag, or `None` where it can.
    pub open spec fn payload_error(self) -> Option<DecodeError> {
        if self.cert_data_type == CERT_DATA_PCK_CHAIN {
            None
        } else if self.cert_data_type == CERT_DATA_QE_REPORT {
            QeReportCertData::decode_error(self.cert_data@)
        } else {
            Some(DecodeError::UnsupportedCertDataType)
        }
    }

    /// Reads the payload by its tag: the chain's bytes for a chain, the
    /// decoded nested structure for a quoting-enclave report.
    pub fn get_cert_data(&self) -> (r: Result<CertDataType, DecodeError>)
        ensures
            match r {
                Ok(CertDataType::CertChain(pem)) => self.cert_data_type == CERT_DATA_PCK_CHAIN
                    && pem@ == self.cert_data@,
                Ok(CertDataType::QeReportCertData(q)) => self.cert_data_type
                    == CERT_DATA_QE_REPORT && self.payload_error() is None && q.parses(
                    self.cert_data@,
                ),
                Err(e) => self.payload_error() == Some(e),
            },
    {
        if self.cert_data_type == CERT_DATA_PCK_CHAIN {
            let pem = read_vec(self.cert_data.as_slice(), 0, self.cert_data.len());
            assert(self.cert_data@.subrange(0, self.cert_data@.len() as int) =~= self.cert_data@);
            Ok(CertDataType::CertChain(pem))
        } else if self.cert_data_type == CERT_DATA_QE_REPORT {
            match QeReportCertData::from_bytes(self.cert_data.as_slice()) {
                Ok(q) => Ok(CertDataType::QeReportCertData(q)),
                Err(e) => Err(e),
            }
        } else {
            Err(DecodeError::UnsupportedCertDataType)
        }
    }
}

impl QeReportCertData {
    /// Why `s` is no quoting-enclave report with certification data, or
    /// `None` where it is.
    pub open spec fn decode_error(s: Seq<u8>) -> Option<DecodeError> {
        if s.len() < 450 {
            Some(DecodeError::Truncated)
        } else if s.len() < 450 + le_u16(s, 448) {
            Some(DecodeError::Truncated)
        } else {
            CertData::decode_error(s.subrange(450 + le_u16(s, 448), s.len() as int))
        }
    }

    /// Whether `s` starts with exactly this structure.
    pub open spec fn parses(self, s: Seq<u8>) -> bool {
        &&& s.len() >= 450 + self.qe_auth_data.size
        &&& self.qe_report.parses(s)
        &&& self.qe_report_signature@ == s.subrange(384, 448)
        &&& self.qe_auth_data.size == le_u16(s, 448)
        &&& self.qe_auth_data.data@ == s.subrange(450, 450 + self.qe_auth_data.size)
        &&& self.qe_cert_data.parses(s.subrange(450 + self.qe_auth_data.size, s.len() as int))
    }

    /// The number of bytes that the structure at the start of `s` takes.
    pub open spec fn wire_len(s: Seq<u8>) -> int {
        450 + le_u16(s, 448) + CertData::wire_len(
            s.subrange(450 + le_u16(s, 448), s.len() as int),
        )
    }

    /// A structure cut short is refused as truncated: where `s` decodes,
    /// no prefix shorter than the structure's own length does.
    pub proof fn lemma_truncated_prefix_fails(s: Seq<u8>, cut: int)
        requires
            QeReportCertData::decode_error(s) is None,
            0 <= cut < QeReportCertData::wire_len(s),
        ensures
            QeReportCertData::decode_error(s.take(cut)) == Some(DecodeError::Truncated),
    {
        let t = s.take(cut);
        if cut >= 450 {
            assert(le_u16(t, 448) == le_u16(s, 448));
            let at = 450 + le_u16(s, 448);
            if cut >= at {
                let rest = s.subrange(at, s.len() as int);
                assert(t.subrange(at, t.len() as int) =~= rest.take(cut - at));
                CertData::lemma_truncated_prefix_fails(rest, cut - at);
            }
        }
    }

    /// Decodes the structure at the start of `raw`.
    pub fn from_bytes(raw: &[u8]) -> (r: Result<QeReportCertData, DecodeError>)
        ensures
            match r {
                Ok(q) => QeReportCertData::decode_error(raw@) is None && q.parses(raw@),
                Err(e) => QeReportCertData::decode_error(raw@) == Some(e),
            },
    {
        let total: usize = raw.len();
        if total < 450 {
            return Err(DecodeError::Truncated);
        }
        let qe_report = match EnclaveReport::from_bytes(raw) {
            Ok(report) => report,
            Err(e) => { return Err(e); },
        };
        let qe_report_signature = read_array::<64>(raw, 384);
        let size: u16 = read_u16(raw, 448);
        if total - 450 < size as usize {
            return Err(DecodeError::Truncated);
        }
        let data = read_vec(raw, 450, 450 + size as usize);
        let rest = slice_subrange(raw, 450 + size as usize, total);
        match CertData::from_bytes(rest) {
            Ok(qe_cert_data) => Ok(
                QeReportCertData {
                    qe_report,
                    qe_report_signature,
                    qe_auth_data: QeAuthData { size, data },
                    qe_cert_data,
                },
            ),
            Err(e) => Err(e),
        }
    }
}

} // verus!
