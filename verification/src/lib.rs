//! Verification of SGX and TDX attestation quotes: a decoder for the binary
//! quote layout and the rules that turn measurements and collateral documents
//! into one trust status.

pub mod body;
pub mod bytes;
pub mod cert_data;
pub mod constants;
pub mod error;
pub mod evidence;
pub mod enclave_identity;
pub mod header;
pub mod hex_text;
pub mod quote;
pub mod scan;
pub mod status;
pub mod tcbinfo;
pub mod tdx_module;
pub mod verify_v5;
pub mod version_5;
