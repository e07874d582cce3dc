//! The identity document of the quoting enclave and the checks of a
//! quoting-enclave report against it.

use vstd::prelude::*;
use crate::body::EnclaveReport;
use crate::hex_text::{decode_hex, hex_bytes, hex_equals};
use crate::scan::{first_true_from, lemma_first_true_monotonic};
use crate::status::{text_equals, TcbStatus};

verus! {

/// The SVN threshold of one TCB level of an enclave identity.
#[derive(Clone, Debug)]
pub struct EnclaveIdentityV2TcbLevel {
    pub isvsvn: u16,
}

/// One TCB level of an enclave identity: a threshold and the status it names.
#[derive(Clone, Debug)]
pub struct EnclaveIdentityV2TcbLevelItem {
    pub tcb: EnclaveIdentityV2TcbLevel,
    pub tcb_status: String,
}

/// What an enclave identity document says of the enclave. Byte strings are
/// hexadecimal text, as in the document.
#[derive(Clone, Debug)]
pub struct EnclaveIdentityV2Inner {
    pub id: String,
    pub version: u32,
    pub miscselect: String,
    pub miscselect_mask: String,
    pub attributes: String,
    pub attributes_mask: String,
    pub mrsigner: String,
    pub isvprodid: u16,
    pub tcb_levels: Vec<EnclaveIdentityV2TcbLevelItem>,
}

/// An enclave identity document of version 2.
#[derive(Clone, Debug)]
pub struct EnclaveIdentityV2 {
    pub enclave_identity: EnclaveIdentityV2Inner,
}

/// The bytes of `a` under `mask`: as many as the shorter of the two has,
/// each the bitwise and of the two bytes at its place.
pub open spec fn masked(a: Seq<u8>, mask: Seq<u8>) -> Seq<u8> {
    Seq::new(
        if a.len() <= mask.len() {
            a.len()
        } else {
            mask.len()
        },
        |i: int| a[i] & mask[i],
    )
}

/// Whether `a` and `b` are the same under `mask`.
pub open spec fn mask_compare(a: Seq<u8>, b: Seq<u8>, mask: Seq<u8>) -> bool {
    masked(a, mask) == masked(b, mask)
}

/// Compares two byte strings under a mask.
pub fn masked_equal(a: &[u8], b: &[u8], mask: &[u8]) -> (r: bool)
    ensures
        r == mask_compare(a@, b@, mask@),
{
    let la: usize = if a.len() <= mask.len() { a.len() } else { mask.len() };
    let lb: usize = if b.len() <= mask.len() { b.len() } else { mask.len() };
    if la != lb {
        assert(masked(a@, mask@).len() != masked(b@, mask@).len());
        return false;
    }
    let mut i: usize = 0;
    while i < la
        invariant
            i <= la,
            la == lb,
            la == masked(a@, mask@).len(),
            lb == masked(b@, mask@).len(),
            la <= a@.len() && la <= b@.len() && la <= mask@.len(),
            forall|k: int| 0 <= k < i ==> masked(a@, mask@)[k] == masked(b@, mask@)[k],
        decreases la - i,
    {
        if (a[i] & mask[i]) != (b[i] & mask[i]) {
            assert(masked(a@, mask@)[i as int] != masked(b@, mask@)[i as int]);
            return false;
        }
        i += 1;
    }
    assert(masked(a@, mask@) =~= masked(b@, mask@));
    true
}

/// Bits outside the mask never decide: where two byte strings differ only
/// in bits that the mask clears, they compare alike against any third.
pub proof fn lemma_mask_ignores_cleared_bits(a: Seq<u8>, b: Seq<u8>, c: Seq<u8>, mask: Seq<u8>)
    requires
        a.len() == b.len(),
        forall|i: int| 0 <= i < a.len() && i < mask.len() ==> (a[i] ^ b[i]) & mask[i] == 0,
    ensures
        masked(a, mask) == masked(b, mask),
        mask_compare(a, c, mask) == mask_compare(b, c, mask),
{
    assert forall|i: int| 0 <= i < a.len() && i < mask.len() implies a[i] & mask[i] == b[i]
        & mask[i] by {
        let x = a[i];
        let y = b[i];
        let m = mask[i];
        assert((x ^ y) & m == 0 ==> x & m == y & m) by (bit_vector);
    }
    assert(masked(a, mask) =~= masked(b, mask));
}

/// For each level, whether the enclave's SVN reaches its threshold.
pub open spec fn qe_level_flags(levels: Seq<EnclaveIdentityV2TcbLevelItem>, isv_svn: u16) -> Seq<bool> {
    Seq::new(levels.len(), |i: int| levels[i].tcb.isvsvn <= isv_svn)
}

/// The status of the quoting enclave: that of the first level, in the
/// document's order, whose threshold the enclave's SVN reaches;
/// unrecognized where no level is reached.
pub open spec fn qe_tcb_status(levels: Seq<EnclaveIdentityV2TcbLevelItem>, isv_svn: u16) -> TcbStatus {
    let at = first_true_from(qe_level_flags(levels, isv_svn), 0);
    if at < levels.len() {
        TcbStatus::of_text(levels[at].tcb_status@)
    } else {
        TcbStatus::TcbUnrecognized
    }
}

/// A higher SVN is never matched further down the document: the level
/// matched for `high` stands at or before the level matched for `low`.
pub proof fn lemma_qe_level_monotonic(
    levels: Seq<EnclaveIdentityV2TcbLevelItem>,
    low: u16,
    high: u16,
)
    requires
        low <= high,
    ensures
        first_true_from(qe_level_flags(levels, high), 0) <= first_true_from(
            qe_level_flags(levels, low),
            0,
        ),
{
    lemma_first_true_monotonic(qe_level_flags(levels, low), qe_level_flags(levels, high));
}

/// Looks up the status of the quoting enclave in its identity document.
pub fn get_qe_tcbstatus(enclave_report: &EnclaveReport, qe_identityv2: &EnclaveIdentityV2) -> (r:
    TcbStatus)
    ensures
        r == qe_tcb_status(qe_identityv2.enclave_identity.tcb_levels@, enclave_report.isv_svn),
{
    let levels = &qe_identityv2.enclave_identity.tcb_levels;
    let ghost flags = qe_level_flags(levels@, enclave_report.isv_svn);
    let mut i: usize = 0;
    while i < levels.len()
        invariant
            i <= levels@.len(),
            levels@ == qe_identityv2.enclave_identity.tcb_levels@,
            flags == qe_level_flags(levels@, enclave_report.isv_svn),
            first_true_from(flags, 0) == first_true_from(flags, i as int),
        decreases levels@.len() - i,
    {
        if levels[i].tcb.isvsvn <= enclave_report.isv_svn {
            assert(first_true_from(flags, i as int) == i);
            return TcbStatus::str_to_tcb_status(levels[i].tcb_status.as_str());
        }
        assert(!flags[i as int]);
        i += 1;
    }
    assert(first_true_from(flags, i as int) == flags.len());
    TcbStatus::TcbUnrecognized
}

/// Whether a quoting-enclave report is accepted against an identity
/// document: the document is the identity of the quoting enclave in version
/// 2, signer and product id are those of the document, attributes and
/// misc-select are the document's under the document's masks, and the
/// enclave's status by the document is `OK`.
pub open spec fn qe_enclave_accepted(report: EnclaveReport, identity: EnclaveIdentityV2) -> bool {
    let doc = identity.enclave_identity;
    &&& doc.id@ == "QE"@
    &&& doc.version == 2
    &&& hex_bytes(doc.mrsigner@) == Some(report.mrsigner@)
    &&& report.isv_prod_id == doc.isvprodid
    &&& hex_bytes(doc.attributes@) matches Some(attributes) && hex_bytes(
        doc.attributes_mask@,
    ) matches Some(mask) && mask_compare(report.attributes@, attributes, mask)
    &&& hex_bytes(doc.miscselect@) matches Some(miscselect) && hex_bytes(
        doc.miscselect_mask@,
    ) matches Some(mask) && mask_compare(report.misc_select@, miscselect, mask)
    &&& qe_tcb_status(doc.tcb_levels@, report.isv_svn) == TcbStatus::OK
}

/// Whether `bytes` are, under the hexadecimal `mask`, what the hexadecimal
/// `text` stands for.
pub fn hex_masked_equals(text: &str, mask: &str, bytes: &[u8]) -> (r: bool)
    ensures
        r == (hex_bytes(text@) matches Some(expected) && hex_bytes(mask@) matches Some(m)
            && mask_compare(bytes@, expected, m)),
{
    match decode_hex(text) {
        Some(expected) => match decode_hex(mask) {
            Some(m) => masked_equal(bytes, expected.as_slice(), m.as_slice()),
            None => false,
        },
        None => false,
    }
}

/// Checks a quoting-enclave report against the identity document.
pub fn validate_qe_enclave(enclave_report: &EnclaveReport, qe_identityv2: &EnclaveIdentityV2) -> (r:
    bool)
    ensures
        r == qe_enclave_accepted(*enclave_report, *qe_identityv2),
{
    let doc = &qe_identityv2.enclave_identity;
    if !text_equals(doc.id.as_str(), "QE") || doc.version != 2 {
        return false;
    }
    let mrsigner_ok = hex_equals(doc.mrsigner.as_str(), &enclave_report.mrsigner);
    let isvprodid_ok = enclave_report.isv_prod_id == doc.isvprodid;
    let enclave_attributes_ok = hex_masked_equals(
        doc.attributes.as_str(),
        doc.attributes_mask.as_str(),
        &enclave_report.attributes,
    );
    let enclave_miscselect_ok = hex_masked_equals(
        doc.miscselect.as_str(),
        doc.miscselect_mask.as_str(),
        &enclave_report.misc_select,
    );
    let tcb_status = get_qe_tcbstatus(enclave_report, qe_identityv2);
    mrsigner_ok && isvprodid_ok && enclave_attributes_ok && enclave_miscselect_ok && tcb_status
        == TcbStatus::OK
}

/// Bits of the report's attributes and misc-select that the document's
/// masks clear never decide whether the report is accepted.
pub proof fn lemma_acceptance_ignores_masked_bits(
    a: EnclaveReport,
    b: EnclaveReport,
    identity: EnclaveIdentityV2,
)
    requires
        a.mrsigner@ == b.mrsigner@,
        a.isv_prod_id == b.isv_prod_id,
        a.isv_svn == b.isv_svn,
        hex_bytes(identity.enclave_identity.attributes_mask@) matches Some(mask) ==> forall|i: int|
            0 <= i < 16 && i < mask.len() ==> (a.attributes@[i] ^ b.attributes@[i]) & mask[i] == 0,
        hex_bytes(identity.enclave_identity.miscselect_mask@) matches Some(mask) ==> forall|i: int|
            0 <= i < 4 && i < mask.len() ==> (a.misc_select@[i] ^ b.misc_select@[i]) & mask[i]
                == 0,
    ensures
        qe_enclave_accepted(a, identity) == qe_enclave_accepted(b, identity),
{
    let doc = identity.enclave_identity;
    if let Some(mask) = hex_bytes(doc.attributes_mask@) {
        if let Some(attributes) = hex_bytes(doc.attributes@) {
            lemma_mask_ignores_cleared_bits(a.attributes@, b.attributes@, attributes, mask);
        }
    }
    if let Some(mask) = hex_bytes(doc.miscselect_mask@) {
        if let Some(miscselect) = hex_bytes(doc.miscselect@) {
            lemma_mask_ignores_cleared_bits(a.misc_select@, b.misc_select@, miscselect, mask);
        }
    }
}

} // verus!
