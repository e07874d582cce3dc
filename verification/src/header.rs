//! The quote header.

use vstd::prelude::*;
use crate::bytes::{
    le_u16, le_u32, lemma_u16_round_trip, lemma_u32_round_trip, push_bytes, push_u16, push_u32,
    read_array, read_u16, read_u32, u16_le, u32_le,
};
use crate::constants::{
    ECDSA_256_WITH_P256_CURVE, INTEL_QE_VENDOR_ID, SGX_TEE_TYPE, TDX_TEE_TYPE,
};
use crate::error::DecodeError;

verus! {

/// The fixed 48-byte prefix of every quote.
#[derive(Clone, Copy, Debug)]
pub struct QuoteHeader {
    /// Version of the quote.
    pub version: u16,
    /// Type of the attestation key.
    pub att_key_type: u16,
    /// The TEE that the quote is for.
    pub tee_type: u32,
    /// Security version of the quoting enclave.
    pub qe_svn: [u8; 2],
    /// Security version of the provisioning certification enclave.
    pub pce_svn: [u8; 2],
    /// Vendor of the quoting enclave.
    pub qe_vendor_id: [u8; 16],
    /// Data of the quoting enclave's vendor.
    pub user_data: [u8; 20],
}

impl QuoteHeader {
    /// Whether the first 48 bytes of `s` hold exactly this header.
    pub open spec fn parses(self, s: Seq<u8>) -> bool {
        &&& s.len() >= 48
        &&& self.version == le_u16(s, 0)
        &&& self.att_key_type == le_u16(s, 2)
        &&& self.tee_type == le_u32(s, 4)
        &&& self.qe_svn@ == s.subrange(8, 10)
        &&& self.pce_svn@ == s.subrange(10, 12)
        &&& self.qe_vendor_id@ == s.subrange(12, 28)
        &&& self.user_data@ == s.subrange(28, 48)
    }

    /// The 48 bytes that stand for this header on the wire.
    pub open spec fn encoding(self) -> Seq<u8> {
        u16_le(self.version)
            + u16_le(self.att_key_type)
            + u32_le(self.tee_type)
            + self.qe_svn@
            + self.pce_svn@
            + self.qe_vendor_id@
            + self.user_data@
    }

    /// Decodes the header at the start of `raw`; fails exactly when `raw`
    /// is shorter than 48 bytes.
    pub fn from_bytes(raw: &[u8]) -> (r: Result<QuoteHeader, DecodeError>)
        ensures
            raw@.len() >= 48 ==> (r matches Ok(x) && x.parses(raw@)),
            raw@.len() < 48 ==> r == Err::<QuoteHeader, DecodeError>(DecodeError::Truncated),
    {
        if raw.len() < 48 {
            return Err(DecodeError::Truncated);
        }
        Ok(
            QuoteHeader {
                version: read_u16(raw, 0),
                att_key_type: read_u16(raw, 2),
                tee_type: read_u32(raw, 4),
                qe_svn: read_array::<2>(raw, 8),
                pce_svn: read_array::<2>(raw, 10),
                qe_vendor_id: read_array::<16>(raw, 12),
                user_data: read_array::<20>(raw, 28),
            },
        )
    }

    /// Writes the header in its wire form.
    pub fn to_bytes(&self) -> (r: Vec<u8>)
        ensures
            r@ == self.encoding(),
            r@.len() == 48,
    {
        let mut out: Vec<u8> = Vec::new();
        push_u16(&mut out, self.version);
        push_u16(&mut out, self.att_key_type);
        push_u32(&mut out, self.tee_type);
        push_bytes(&mut out, &self.qe_svn);
        push_bytes(&mut out, &self.pce_svn);
        push_bytes(&mut out, &self.qe_vendor_id);
        push_bytes(&mut out, &self.user_data);
        proof {
            assert(Seq::<u8>::empty() + u16_le(self.version) =~= u16_le(self.version));
        }
        out
    }

    /// Encoding a header and decoding the bytes gives the header back:
    /// the encoding is 48 bytes long, it parses as `self`, and whatever
    /// parses from it equals `self`.
    pub proof fn lemma_round_trip(self, other: QuoteHeader)
        ensures
            self.encoding().len() == 48,
            self.parses(self.encoding()),
            other.parses(self.encoding()) ==> other == self,
    {
        let s = self.encoding();
        lemma_u16_round_trip(self.version);
        lemma_u16_round_trip(self.att_key_type);
        lemma_u32_round_trip(self.tee_type);
        assert(s.len() == 48);
        assert(u16_le(self.version) =~= s.subrange(0, 2));
        assert(le_u16(s, 0) == le_u16(s.subrange(0, 2), 0));
        assert(u16_le(self.att_key_type) =~= s.subrange(2, 4));
        assert(le_u16(s, 2) == le_u16(s.subrange(2, 4), 0));
        assert(u32_le(self.tee_type) =~= s.subrange(4, 8));
        assert(le_u32(s, 4) == le_u32(s.subrange(4, 8), 0));
        assert(self.qe_svn@ =~= s.subrange(8, 10));
        assert(self.pce_svn@ =~= s.subrange(10, 12));
        assert(self.qe_vendor_id@ =~= s.subrange(12, 28));
        assert(self.user_data@ =~= s.subrange(28, 48));
        if other.parses(s) {
            self.lemma_parse_unique(other, s);
        }
    }

    /// Bytes hold at most one header: two values that parse from the same
    /// bytes are equal.
    pub proof fn lemma_parse_unique(self, other: QuoteHeader, s: Seq<u8>)
        requires
            self.parses(s),
            other.parses(s),
        ensures
            other == self,
    {
        assert(other.qe_svn =~= self.qe_svn);
        assert(other.pce_svn =~= self.pce_svn);
        assert(other.qe_vendor_id =~= self.qe_vendor_id);
        assert(other.user_data =~= self.user_data);
    }
}


/// Whether a header is one that a quote of version `expected_version` may
/// carry: that version, the ECDSA P-256 key type, an SGX or TDX tag and
/// Intel's quoting-enclave vendor.
pub open spec fn header_is_valid(header: QuoteHeader, expected_version: u16) -> bool {
    &&& header.version == expected_version
    &&& header.att_key_type == ECDSA_256_WITH_P256_CURVE
    &&& (header.tee_type == SGX_TEE_TYPE || header.tee_type == TDX_TEE_TYPE)
    &&& header.qe_vendor_id@ == INTEL_QE_VENDOR_ID@
}

/// Checks the shape of a header for a quote of version `expected_version`.
pub fn check_quote_header(header: &QuoteHeader, expected_version: u16) -> (r: bool)
    ensures
        r == header_is_valid(*header, expected_version),
{
    let mut same: bool = true;
    let mut i: usize = 0;
    while i < 16
        invariant
            i <= 16,
            same == (forall|k: int| 0 <= k < i ==> header.qe_vendor_id@[k] == INTEL_QE_VENDOR_ID@[k]),
        decreases 16 - i,
    {
        if header.qe_vendor_id[i] != INTEL_QE_VENDOR_ID[i] {
            same = false;
        }
        i += 1;
    }
    assert(same == (header.qe_vendor_id@ =~= INTEL_QE_VENDOR_ID@));
    header.version == expected_version && header.att_key_type == ECDSA_256_WITH_P256_CURVE && (
    header.tee_type == SGX_TEE_TYPE || header.tee_type == TDX_TEE_TYPE) && same
}

} // verus!
