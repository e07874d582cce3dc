//! Sizes and tags of the quote wire format.

use vstd::prelude::*;

verus! {

/// Length of an SGX enclave report in bytes.
pub const ENCLAVE_REPORT_LEN: usize = 384;

/// Length of a TD 1.0 report in bytes.
pub const TD10_REPORT_LEN: usize = 584;

/// Length of a TD 1.5 report in bytes.
pub const TD15_REPORT_LEN: usize = 648;

/// Header tag of an SGX quote.
pub const SGX_TEE_TYPE: u32 = 0x00000000;

/// Header tag of a TDX quote.
pub const TDX_TEE_TYPE: u32 = 0x00000081;

/// Body tag of an SGX enclave report.
pub const SGX_QUOTE_BODY_TYPE: u16 = 1;

/// Body tag of a TD 1.0 report.
pub const TD10_QUOTE_BODY_TYPE: u16 = 2;

/// Body tag of a TD 1.5 report.
pub const TD15_QUOTE_BODY_TYPE: u16 = 3;

/// Certification data that holds a PEM certificate chain.
pub const CERT_DATA_PCK_CHAIN: u16 = 5;

/// Certification data that holds a quoting-enclave report and further
/// certification data.
pub const CERT_DATA_QE_REPORT: u16 = 6;

/// The attestation key type of ECDSA over P-256.
pub const ECDSA_256_WITH_P256_CURVE: u16 = 2;

/// The vendor identifier of Intel's quoting enclave.
pub const INTEL_QE_VENDOR_ID: [u8; 16] = [
    0x93, 0x9A, 0x72, 0x33, 0xF7, 0x9C, 0x4C, 0xA9, 0x94, 0x0A, 0x0D, 0xB3, 0x95, 0x7F, 0x06, 0x07,
];

} // verus!
