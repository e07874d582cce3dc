use dcap_rs::body::{EnclaveReport, QuoteBody, TD10ReportBody};
use dcap_rs::cert_data::{CertData, QeAuthData};
use dcap_rs::constants::INTEL_QE_VENDOR_ID;
use dcap_rs::enclave_identity::{
    get_qe_tcbstatus, hex_masked_equals, masked_equal, validate_qe_enclave,
    EnclaveIdentityV2, EnclaveIdentityV2Inner, EnclaveIdentityV2TcbLevel,
    EnclaveIdentityV2TcbLevelItem,
};
use dcap_rs::error::{DecodeError, VerifyError};
use dcap_rs::evidence::{
    attestation_public_key, common_verify_and_fetch_tcb, qe_report_data_preimage,
    verify_qe_report_data, Evidence,
};
use dcap_rs::header::QuoteHeader;
use dcap_rs::hex_text::hex_equals;
use dcap_rs::quote::{verify_quote_dcapv3, SgxQuote};
use dcap_rs::status::{
    converge_tcb_status, converge_tcb_status_with_qe_tcb, converge_tcb_status_with_tdx_module_tcb,
    text_equals, TcbStatus,
};
use dcap_rs::tcbinfo::{
    components_reached, get_fmspc_tcbstatus, get_sgx_tdx_fmspc_tcbstatus_v3, SgxExtensions,
    TcbInfoV2, TcbInfoV3, TcbLevelV2, TcbLevelV3, TdxModule, TdxModuleIdentity, TdxModuleTcbLevel,
};
use dcap_rs::tdx_module::get_tdx_module_identity_and_tcb;
use dcap_rs::verify_v5::{signed_message, verify_quote_dcapv5};
use dcap_rs::version_5::{QuoteSignatureDataV4, QuoteV5};

const ALL: [TcbStatus; 8] = [
    TcbStatus::OK,
    TcbStatus::TcbSwHardeningNeeded,
    TcbStatus::TcbConfigurationNeeded,
    TcbStatus::TcbConfigurationAndSwHardeningNeeded,
    TcbStatus::TcbOutOfDate,
    TcbStatus::TcbOutOfDateConfigurationNeeded,
    TcbStatus::TcbUnrecognized,
    TcbStatus::TcbRevoked,
];

fn report(isv_svn: u16) -> EnclaveReport {
    let mut bytes = vec![0u8; 384];
    for i in 0..32 {
        bytes[128 + i] = 0xA0 + i as u8;
        bytes[64 + i] = 0x40 + i as u8;
    }
    bytes[16..20].copy_from_slice(&[0x0F, 0xF0, 0x00, 0x01]);
    bytes[48..64].copy_from_slice(&[0x15, 0, 0, 0, 0, 0, 0, 0, 0xE7, 0, 0, 0, 0, 0, 0, 0]);
    bytes[256..258].copy_from_slice(&1u16.to_le_bytes());
    bytes[258..260].copy_from_slice(&isv_svn.to_le_bytes());
    for i in 0..64 {
        bytes[320 + i] = i as u8;
    }
    EnclaveReport::from_bytes(&bytes).unwrap()
}

fn level(isvsvn: u16, status: &str) -> EnclaveIdentityV2TcbLevelItem {
    EnclaveIdentityV2TcbLevelItem {
        tcb: EnclaveIdentityV2TcbLevel { isvsvn },
        tcb_status: status.to_string(),
    }
}

fn identity() -> EnclaveIdentityV2 {
    let r = report(0);
    EnclaveIdentityV2 {
        enclave_identity: EnclaveIdentityV2Inner {
            id: "QE".to_string(),
            version: 2,
            miscselect: "0ff00000".to_string(),
            miscselect_mask: "FFFF0000".to_string(),
            attributes: "11000000000000000000000000000000".to_string(),
            attributes_mask: "fbffffffffffffff0000000000000000".to_string(),
            mrsigner: hex::encode(r.mrsigner),
            isvprodid: 1,
            tcb_levels: vec![level(8, "UpToDate"), level(6, "OutOfDate"), level(2, "Revoked")],
        },
    }
}

fn extensions() -> SgxExtensions {
    SgxExtensions {
        fmspc: [0x00, 0x90, 0x6E, 0xD5, 0x00, 0x00],
        pceid: [0x00, 0x00],
        sgx_tcb_components: [5; 16],
        pcesvn: 11,
    }
}

fn evidence(qe: &EnclaveReport) -> Evidence {
    let mut digest = [0u8; 32];
    digest.copy_from_slice(&qe.report_data[..32]);
    Evidence {
        signing_cert_trusted: true,
        tcb_info_valid: true,
        enclave_identity_valid: true,
        quote_signature_valid: true,
        qe_cert_chain_valid: true,
        qe_report_signature_valid: true,
        attestation_key_digest: digest,
        sgx_extensions: extensions(),
    }
}

fn level_v2(svn: u8, pcesvn: u16, status: &str) -> TcbLevelV2 {
    TcbLevelV2 { sgx_tcb_components: [svn; 16], pcesvn, tcb_status: status.to_string() }
}

fn info_v2() -> TcbInfoV2 {
    TcbInfoV2 {
        fmspc: "00906ed50000".to_string(),
        pce_id: "0000".to_string(),
        tcb_levels: vec![
            level_v2(7, 11, "UpToDate"),
            level_v2(5, 12, "SWHardeningNeeded"),
            level_v2(5, 10, "ConfigurationNeeded"),
            level_v2(1, 1, "OutOfDate"),
        ],
    }
}

fn level_v3(svn: u8, pcesvn: u16, tdx: Option<u8>, status: &str, adv: &str) -> TcbLevelV3 {
    TcbLevelV3 {
        sgx_tcb_components: [svn; 16],
        pcesvn,
        tdx_tcb_components: tdx.map(|t| [t; 16]),
        tcb_status: status.to_string(),
        advisory_ids: vec![adv.to_string()],
    }
}

fn info_v3() -> TcbInfoV3 {
    TcbInfoV3 {
        fmspc: "00906ED50000".to_string(),
        pce_id: "0000".to_string(),
        tcb_levels: vec![
            level_v3(7, 11, Some(4), "UpToDate", "A"),
            level_v3(5, 11, Some(4), "SWHardeningNeeded", "B"),
            level_v3(5, 11, Some(1), "OutOfDate", "C"),
            level_v3(1, 1, None, "OutOfDateConfigurationNeeded", "D"),
        ],
        tdx_module: Some(TdxModule { mrsigner: [0x77; 48], attributes: 0 }),
        tdx_module_identities: vec![
            TdxModuleIdentity {
                version: 1,
                mrsigner: [0x33; 48],
                attributes: 9,
                tcb_levels: vec![
                    TdxModuleTcbLevel { isvsvn: 4, tcb_status: "UpToDate".to_string() },
                    TdxModuleTcbLevel { isvsvn: 2, tcb_status: "OutOfDate".to_string() },
                    TdxModuleTcbLevel { isvsvn: 1, tcb_status: "Revoked".to_string() },
                ],
            },
        ],
    }
}

fn header(version: u16, tee_type: u32) -> QuoteHeader {
    QuoteHeader {
        version,
        att_key_type: 2,
        tee_type,
        qe_svn: [0; 2],
        pce_svn: [0; 2],
        qe_vendor_id: INTEL_QE_VENDOR_ID,
        user_data: [0; 20],
    }
}

fn cert_data(ty: u16, payload: Vec<u8>) -> CertData {
    CertData { cert_data_type: ty, cert_data_size: payload.len() as u32, cert_data: payload }
}

fn nested_bytes(qe: &EnclaveReport, inner_type: u16) -> Vec<u8> {
    let mut v = qe.to_bytes();
    v.extend_from_slice(&[0x51; 64]);
    v.extend_from_slice(&2u16.to_le_bytes());
    v.extend_from_slice(&[1, 2]);
    v.extend_from_slice(&inner_type.to_le_bytes());
    v.extend_from_slice(&3u32.to_le_bytes());
    v.extend_from_slice(b"PEM");
    v
}

fn quote_v5(tee_type: u32, body: QuoteBody, qe: &EnclaveReport) -> QuoteV5 {
    let (ty, size) = match body {
        QuoteBody::SGXQuoteBody(_) => (1u16, 384u32),
        QuoteBody::TD10QuoteBody(_) => (2, 584),
        QuoteBody::TD15QuoteBody(_) => (3, 648),
    };
    let nested = nested_bytes(qe, 5);
    QuoteV5 {
        header: header(5, tee_type),
        quote_body_type: ty,
        quote_body_size: size,
        quote_body: body,
        signature_len: 128 + 6 + nested.len() as u32,
        signature: QuoteSignatureDataV4 {
            quote_signature: [0x11; 64],
            ecdsa_attestation_key: [0x22; 64],
            qe_cert_data: cert_data(6, nested),
        },
    }
}

fn td10(module_svn: u8, module_version: u8, signer: u8, attributes: u64) -> QuoteBody {
    let mut b = TD10ReportBody::from_bytes(&[0u8; 584]).unwrap();
    b.tee_tcb_svn = [4; 16];
    b.tee_tcb_svn[0] = module_svn;
    b.tee_tcb_svn[1] = module_version;
    b.mrsignerseam = [signer; 48];
    b.seam_attributes = attributes;
    QuoteBody::TD10QuoteBody(b)
}

fn quote_v3(qe: &EnclaveReport, inner_type: u16) -> SgxQuote {
    let mut sig = vec![0x11u8; 64];
    sig.extend_from_slice(&[0x22; 64]);
    sig.extend_from_slice(&nested_bytes(qe, inner_type));
    SgxQuote {
        header: header(3, 0),
        isv_enclave_report: report(1),
        signature_len: sig.len() as u32,
        signature: sig,
    }
}

#[test]
fn status_texts() {
    assert_eq!(TcbStatus::str_to_tcb_status("UpToDate"), TcbStatus::OK);
    assert_eq!(TcbStatus::str_to_tcb_status("SWHardeningNeeded"), TcbStatus::TcbSwHardeningNeeded);
    assert_eq!(
        TcbStatus::str_to_tcb_status("ConfigurationAndSWHardeningNeeded"),
        TcbStatus::TcbConfigurationAndSwHardeningNeeded
    );
    assert_eq!(
        TcbStatus::str_to_tcb_status("ConfigurationNeeded"),
        TcbStatus::TcbConfigurationNeeded
    );
    assert_eq!(TcbStatus::str_to_tcb_status("OutOfDate"), TcbStatus::TcbOutOfDate);
    assert_eq!(
        TcbStatus::str_to_tcb_status("OutOfDateConfigurationNeeded"),
        TcbStatus::TcbOutOfDateConfigurationNeeded
    );
    assert_eq!(TcbStatus::str_to_tcb_status("Revoked"), TcbStatus::TcbRevoked);
    assert_eq!(TcbStatus::str_to_tcb_status("uptodate"), TcbStatus::TcbUnrecognized);
    assert_eq!(TcbStatus::str_to_tcb_status(""), TcbStatus::TcbUnrecognized);
    assert!(text_equals("QE", "QE"));
    assert!(!text_equals("QE", "QE "));
}

#[test]
fn convergence_takes_the_less_trusted() {
    for i in 0..7 {
        for j in 0..7 {
            let expected = if i >= j { ALL[i] } else { ALL[j] };
            assert_eq!(converge_tcb_status(ALL[i], ALL[j]), expected);
        }
    }
    assert_eq!(
        converge_tcb_status(TcbStatus::TcbOutOfDate, TcbStatus::TcbSwHardeningNeeded),
        TcbStatus::TcbOutOfDate
    );
    assert_eq!(
        converge_tcb_status_with_qe_tcb(TcbStatus::OK, TcbStatus::TcbConfigurationNeeded),
        TcbStatus::TcbConfigurationNeeded
    );
    assert_eq!(
        converge_tcb_status_with_tdx_module_tcb(
            TcbStatus::TcbConfigurationAndSwHardeningNeeded,
            TcbStatus::TcbConfigurationNeeded
        ),
        TcbStatus::TcbConfigurationAndSwHardeningNeeded
    );
}

#[test]
fn convergence_revoked_dominates() {
    for s in ALL {
        assert_eq!(converge_tcb_status(TcbStatus::TcbRevoked, s), TcbStatus::TcbRevoked);
        assert_eq!(converge_tcb_status(s, TcbStatus::TcbRevoked), TcbStatus::TcbRevoked);
    }
    assert_eq!(
        converge_tcb_status(TcbStatus::TcbUnrecognized, TcbStatus::TcbOutOfDateConfigurationNeeded),
        TcbStatus::TcbUnrecognized
    );
}

#[test]
fn convergence_any_order() {
    for a in ALL {
        for b in ALL {
            assert_eq!(converge_tcb_status(a, b), converge_tcb_status(b, a));
            for c in ALL {
                let left = converge_tcb_status(converge_tcb_status(a, b), c);
                assert_eq!(left, converge_tcb_status(converge_tcb_status(a, c), b));
                assert_eq!(left, converge_tcb_status(a, converge_tcb_status(b, c)));
            }
        }
    }
}

#[test]
fn hex_text_against_bytes() {
    assert!(hex_equals("00906ed50000", &[0x00, 0x90, 0x6E, 0xD5, 0x00, 0x00]));
    assert!(hex_equals("00906ED50000", &[0x00, 0x90, 0x6E, 0xD5, 0x00, 0x00]));
    assert!(hex_equals("", &[]));
    assert!(!hex_equals("3030", b"3030"));
    assert!(!hex_equals("00906ed5000", &[0x00, 0x90, 0x6E, 0xD5, 0x00, 0x00]));
    assert!(!hex_equals("00906ed5000g", &[0x00, 0x90, 0x6E, 0xD5, 0x00, 0x00]));
    assert!(!hex_equals("00906ed50001", &[0x00, 0x90, 0x6E, 0xD5, 0x00, 0x00]));
    assert!(!hex_equals("0090", &[0x00, 0x90, 0x6E]));
}

#[test]
fn masked_comparison() {
    assert!(masked_equal(&[0b1010_1010], &[0b1010_0101], &[0b1111_0000]));
    assert!(!masked_equal(&[0b1010_1010], &[0b0010_1010], &[0b1111_0000]));
    assert!(masked_equal(&[1, 2, 3], &[1, 2, 9], &[0xff, 0xff]));
    assert!(!masked_equal(&[1, 2, 3], &[1, 2], &[0xff, 0xff, 0xff]));
    assert!(masked_equal(&[1, 2, 3], &[7, 8], &[]));
    assert!(hex_masked_equals("ff01", "0fff", &[0x0f, 0x01]));
    assert!(!hex_masked_equals("ff01", "0fff", &[0x0f, 0x02]));
    assert!(!hex_masked_equals("ff0", "0fff", &[0x0f, 0x01]));
    assert!(!hex_masked_equals("ff01", "0fzz", &[0x0f, 0x01]));
}

#[test]
fn masked_out_bits_never_decide() {
    let id = identity();
    let base = report(8);
    assert!(validate_qe_enclave(&base, &id));
    let mut other = base;
    other.attributes[0] ^= 0x04;
    other.attributes[8] = 0x00;
    other.attributes[15] = 0xff;
    other.misc_select[2] = 0xff;
    other.misc_select[3] = 0x80;
    assert!(validate_qe_enclave(&other, &id));
    let mut other = base;
    other.attributes[0] ^= 0x01;
    assert!(!validate_qe_enclave(&other, &id));
    let mut other = base;
    other.misc_select[1] ^= 0x10;
    assert!(!validate_qe_enclave(&other, &id));
}

#[test]
fn qe_status_first_match_in_document_order() {
    let id = identity();
    assert_eq!(get_qe_tcbstatus(&report(9), &id), TcbStatus::OK);
    assert_eq!(get_qe_tcbstatus(&report(8), &id), TcbStatus::OK);
    assert_eq!(get_qe_tcbstatus(&report(7), &id), TcbStatus::TcbOutOfDate);
    assert_eq!(get_qe_tcbstatus(&report(2), &id), TcbStatus::TcbRevoked);
    assert_eq!(get_qe_tcbstatus(&report(1), &id), TcbStatus::TcbUnrecognized);
    let mut unordered = identity();
    unordered.enclave_identity.tcb_levels =
        vec![level(2, "OutOfDate"), level(8, "UpToDate"), level(0, "NoSuchStatus")];
    assert_eq!(get_qe_tcbstatus(&report(9), &unordered), TcbStatus::TcbOutOfDate);
    assert_eq!(get_qe_tcbstatus(&report(1), &unordered), TcbStatus::TcbUnrecognized);
    unordered.enclave_identity.tcb_levels = vec![];
    assert_eq!(get_qe_tcbstatus(&report(9), &unordered), TcbStatus::TcbUnrecognized);
}

#[test]
fn qe_status_never_moves_down_the_document_with_a_higher_svn() {
    let id = identity();
    let order = [TcbStatus::OK, TcbStatus::TcbOutOfDate, TcbStatus::TcbRevoked, TcbStatus::TcbUnrecognized];
    let place = |s: TcbStatus| order.iter().position(|x| *x == s).unwrap();
    let mut last = usize::MAX;
    for svn in 0..12u16 {
        let at = place(get_qe_tcbstatus(&report(svn), &id));
        assert!(at <= last);
        last = at;
    }
}

#[test]
fn qe_enclave_validation_each_condition() {
    let id = identity();
    let r = report(8);
    assert!(validate_qe_enclave(&r, &id));
    let mut d = identity();
    d.enclave_identity.id = "QVE".to_string();
    assert!(!validate_qe_enclave(&r, &d));
    let mut d = identity();
    d.enclave_identity.version = 1;
    assert!(!validate_qe_enclave(&r, &d));
    let mut d = identity();
    d.enclave_identity.mrsigner = hex::encode([0u8; 32]);
    assert!(!validate_qe_enclave(&r, &d));
    let mut d = identity();
    d.enclave_identity.mrsigner = "zz".to_string();
    assert!(!validate_qe_enclave(&r, &d));
    let mut d = identity();
    d.enclave_identity.mrsigner = hex::encode_upper(r.mrsigner);
    assert!(validate_qe_enclave(&r, &d));
    let mut d = identity();
    d.enclave_identity.isvprodid = 2;
    assert!(!validate_qe_enclave(&r, &d));
    let mut d = identity();
    d.enclave_identity.attributes_mask = "xyz".to_string();
    assert!(!validate_qe_enclave(&r, &d));
    assert!(!validate_qe_enclave(&report(7), &id));
    assert!(!validate_qe_enclave(&report(0), &id));
}

#[test]
fn qe_report_data_binding() {
    let r = report(8);
    let mut digest = [0u8; 32];
    digest.copy_from_slice(&r.report_data[..32]);
    assert!(verify_qe_report_data(&r, &digest));
    digest[31] ^= 1;
    assert!(!verify_qe_report_data(&r, &digest));
    let mut key = [0u8; 64];
    key[0] = 9;
    key[63] = 8;
    let pre = qe_report_data_preimage(&key, &[1, 2, 3]);
    assert_eq!(pre.len(), 67);
    assert_eq!(pre[0], 9);
    assert_eq!(pre[63], 8);
    assert_eq!(pre[64..].to_vec(), vec![1, 2, 3]);
    let point = attestation_public_key(&key);
    assert_eq!(point.len(), 65);
    assert_eq!(point[0], 4);
    assert_eq!(point[1..].to_vec(), key.to_vec());
}

#[test]
fn component_comparison() {
    assert!(components_reached(&[3; 16], &[3; 16]));
    let mut level = [3u8; 16];
    level[15] = 4;
    assert!(!components_reached(&level, &[3; 16]));
    assert!(components_reached(&[0; 16], &[255; 16]));
}

#[test]
fn platform_status_v2() {
    let info = info_v2();
    let mut ext = extensions();
    assert_eq!(get_fmspc_tcbstatus(&ext, &info), Ok(TcbStatus::TcbConfigurationNeeded));
    ext.pcesvn = 12;
    assert_eq!(get_fmspc_tcbstatus(&ext, &info), Ok(TcbStatus::TcbSwHardeningNeeded));
    ext.sgx_tcb_components = [7; 16];
    assert_eq!(get_fmspc_tcbstatus(&ext, &info), Ok(TcbStatus::OK));
    ext.sgx_tcb_components[3] = 4;
    assert_eq!(get_fmspc_tcbstatus(&ext, &info), Ok(TcbStatus::TcbOutOfDate));
    ext.sgx_tcb_components[3] = 0;
    assert_eq!(get_fmspc_tcbstatus(&ext, &info), Ok(TcbStatus::TcbUnrecognized));
    let mut ext = extensions();
    ext.fmspc[5] = 1;
    assert_eq!(get_fmspc_tcbstatus(&ext, &info), Err(VerifyError::FmspcMismatch));
    let mut ext = extensions();
    ext.pceid[0] = 1;
    assert_eq!(get_fmspc_tcbstatus(&ext, &info), Err(VerifyError::PceIdMismatch));
}

#[test]
fn platform_status_v3() {
    let info = info_v3();
    let ext = extensions();
    let (sgx, tdx, adv) = get_sgx_tdx_fmspc_tcbstatus_v3(0, &ext, &[0; 16], &info).unwrap();
    assert_eq!(sgx, TcbStatus::TcbSwHardeningNeeded);
    assert_eq!(tdx, TcbStatus::TcbUnrecognized);
    assert_eq!(adv, vec!["B".to_string()]);
    let (sgx, tdx, adv) = get_sgx_tdx_fmspc_tcbstatus_v3(0x81, &ext, &[3; 16], &info).unwrap();
    assert_eq!(sgx, TcbStatus::TcbSwHardeningNeeded);
    assert_eq!(tdx, TcbStatus::TcbOutOfDate);
    assert_eq!(adv, vec!["C".to_string()]);
    let (_, tdx, adv) = get_sgx_tdx_fmspc_tcbstatus_v3(0x81, &ext, &[4; 16], &info).unwrap();
    assert_eq!(tdx, TcbStatus::TcbSwHardeningNeeded);
    assert_eq!(adv, vec!["B".to_string()]);
    let (_, tdx, adv) = get_sgx_tdx_fmspc_tcbstatus_v3(0x81, &ext, &[0; 16], &info).unwrap();
    assert_eq!(tdx, TcbStatus::TcbOutOfDateConfigurationNeeded);
    assert_eq!(adv, vec!["D".to_string()]);
    let mut low = extensions();
    low.sgx_tcb_components = [0; 16];
    let (sgx, tdx, adv) = get_sgx_tdx_fmspc_tcbstatus_v3(0x81, &low, &[9; 16], &info).unwrap();
    assert_eq!(sgx, TcbStatus::TcbUnrecognized);
    assert_eq!(tdx, TcbStatus::TcbUnrecognized);
    assert!(adv.is_empty());
    let mut other = extensions();
    other.fmspc = [1; 6];
    assert_eq!(
        get_sgx_tdx_fmspc_tcbstatus_v3(0, &other, &[0; 16], &info).unwrap_err(),
        VerifyError::FmspcMismatch
    );
}

#[test]
fn platform_status_never_moves_down_with_higher_svns() {
    let info = info_v2();
    let order = [
        TcbStatus::OK,
        TcbStatus::TcbSwHardeningNeeded,
        TcbStatus::TcbConfigurationNeeded,
        TcbStatus::TcbOutOfDate,
        TcbStatus::TcbUnrecognized,
    ];
    let place = |s: TcbStatus| order.iter().position(|x| *x == s).unwrap();
    for svn in 0..9u8 {
        for pcesvn in 0..14u16 {
            let mut low = extensions();
            low.sgx_tcb_components = [svn; 16];
            low.pcesvn = pcesvn;
            let mut high = low;
            high.sgx_tcb_components = [svn + 1; 16];
            high.pcesvn = pcesvn + 1;
            let l = place(get_fmspc_tcbstatus(&low, &info).unwrap());
            let h = place(get_fmspc_tcbstatus(&high, &info).unwrap());
            assert!(h <= l);
        }
    }
}

#[test]
fn tdx_module_lookup() {
    let info = info_v3();
    let mut svn = [0u8; 16];
    assert_eq!(
        get_tdx_module_identity_and_tcb(&svn, &info),
        Ok((TcbStatus::OK, [0x77; 48], 0))
    );
    svn[1] = 1;
    svn[0] = 5;
    assert_eq!(get_tdx_module_identity_and_tcb(&svn, &info), Ok((TcbStatus::OK, [0x33; 48], 9)));
    svn[0] = 3;
    assert_eq!(
        get_tdx_module_identity_and_tcb(&svn, &info),
        Ok((TcbStatus::TcbOutOfDate, [0x33; 48], 9))
    );
    svn[0] = 1;
    assert_eq!(
        get_tdx_module_identity_and_tcb(&svn, &info),
        Ok((TcbStatus::TcbRevoked, [0x33; 48], 9))
    );
    svn[0] = 0;
    assert_eq!(
        get_tdx_module_identity_and_tcb(&svn, &info),
        Ok((TcbStatus::TcbUnrecognized, [0x33; 48], 9))
    );
    svn[1] = 2;
    assert_eq!(get_tdx_module_identity_and_tcb(&svn, &info), Err(VerifyError::TdxModuleUnknown));
    let mut none = info_v3();
    none.tdx_module = None;
    assert_eq!(
        get_tdx_module_identity_and_tcb(&[0; 16], &none),
        Err(VerifyError::TdxModuleUnknown)
    );
}

#[test]
fn sgx_quote_with_everything_in_order_is_ok() {
    let qe = report(8);
    let mut ext_ev = evidence(&qe);
    ext_ev.sgx_extensions.sgx_tcb_components = [7; 16];
    let out = verify_quote_dcapv3(&quote_v3(&qe, 5), &info_v2(), &identity(), &ext_ev).unwrap();
    assert_eq!(out.tcb_status, TcbStatus::OK);
    assert_eq!(out.mr_enclave, report(1).mrenclave);
    assert_eq!(out.mr_signer, report(1).mrsigner);
    assert_eq!(out.report_data, report(1).report_data);
    assert_eq!(out.fmspc, [0x00, 0x90, 0x6E, 0xD5, 0x00, 0x00]);

    let body = QuoteBody::SGXQuoteBody(report(1));
    let out = verify_quote_dcapv5(&quote_v5(0, body, &qe), &info_v3(), &identity(), &ext_ev).unwrap();
    assert_eq!(out.tcb_status, TcbStatus::OK);
    assert_eq!(out.quote_version, 5);
    assert_eq!(out.tee_type, 0);
    assert_eq!(out.quote_type, 1);
    assert_eq!(out.fmspc, [0x00, 0x90, 0x6E, 0xD5, 0x00, 0x00]);
    assert_eq!(out.quote_body.to_bytes(), report(1).to_bytes());
    assert_eq!(out.advisory_ids, vec!["A".to_string()]);
}

#[test]
fn qe_identity_with_another_signer_fails_the_quote() {
    let qe = report(8);
    let mut id = identity();
    id.enclave_identity.mrsigner = hex::encode([0x5Au8; 32]);
    let ev = evidence(&qe);
    assert_eq!(
        verify_quote_dcapv3(&quote_v3(&qe, 5), &info_v2(), &id, &ev).unwrap_err(),
        VerifyError::QeIdentityMismatch
    );
    let body = QuoteBody::SGXQuoteBody(report(1));
    assert_eq!(
        verify_quote_dcapv5(&quote_v5(0, body, &qe), &info_v3(), &id, &ev).unwrap_err(),
        VerifyError::QeIdentityMismatch
    );
}

#[test]
fn tdx_quote_with_revoked_module_fails() {
    let qe = report(8);
    let ev = evidence(&qe);
    let q = quote_v5(0x81, td10(1, 1, 0x33, 9), &qe);
    assert_eq!(
        verify_quote_dcapv5(&q, &info_v3(), &identity(), &ev).unwrap_err(),
        VerifyError::TdxModuleTcbRevoked
    );
    let mut elsewhere = ev;
    elsewhere.sgx_extensions.fmspc = [9; 6];
    assert_eq!(
        verify_quote_dcapv5(&q, &info_v3(), &identity(), &elsewhere).unwrap_err(),
        VerifyError::TdxModuleTcbRevoked
    );
    let fine = quote_v5(0x81, td10(4, 1, 0x33, 9), &qe);
    assert_eq!(
        verify_quote_dcapv5(&fine, &info_v3(), &identity(), &elsewhere).unwrap_err(),
        VerifyError::FmspcMismatch
    );
}

#[test]
fn tdx_quote_converges_platform_and_module() {
    let qe = report(8);
    let ev = evidence(&qe);
    let mut info = info_v3();
    info.tdx_module_identities.push(TdxModuleIdentity {
        version: 4,
        mrsigner: [0x44; 48],
        attributes: 1,
        tcb_levels: vec![
            TdxModuleTcbLevel { isvsvn: 9, tcb_status: "UpToDate".to_string() },
            TdxModuleTcbLevel { isvsvn: 0, tcb_status: "OutOfDate".to_string() },
        ],
    });
    let q = quote_v5(0x81, td10(9, 4, 0x44, 1), &qe);
    let out = verify_quote_dcapv5(&q, &info, &identity(), &ev).unwrap();
    assert_eq!(out.tcb_status, TcbStatus::TcbSwHardeningNeeded);
    assert_eq!(out.advisory_ids, vec!["B".to_string()]);
    assert_eq!(out.tee_type, 0x81);
    assert_eq!(out.quote_type, 2);
    let q = quote_v5(0x81, td10(4, 4, 0x44, 1), &qe);
    let out = verify_quote_dcapv5(&q, &info, &identity(), &ev).unwrap();
    assert_eq!(out.tcb_status, TcbStatus::TcbOutOfDate);
    assert_eq!(out.advisory_ids, vec!["B".to_string()]);
    let q = quote_v5(0x81, td10(4, 0, 0x77, 0), &qe);
    let out = verify_quote_dcapv5(&q, &info, &identity(), &ev).unwrap();
    assert_eq!(out.tcb_status, TcbStatus::TcbOutOfDateConfigurationNeeded);
    assert_eq!(out.advisory_ids, vec!["D".to_string()]);
    let q = quote_v5(0x81, td10(4, 1, 0x33, 9), &qe);
    let out = verify_quote_dcapv5(&q, &info, &identity(), &ev).unwrap();
    assert_eq!(out.tcb_status, TcbStatus::TcbOutOfDate);
    assert_eq!(out.advisory_ids, vec!["C".to_string()]);
    let again = verify_quote_dcapv5(&q, &info, &identity(), &ev).unwrap();
    assert_eq!(again.tcb_status, out.tcb_status);
    assert_eq!(again.advisory_ids, out.advisory_ids);
    assert_eq!(again.fmspc, out.fmspc);
    assert_eq!(again.quote_version, out.quote_version);
    assert_eq!(again.quote_body.to_bytes(), out.quote_body.to_bytes());
}

#[test]
fn tdx_module_values_must_match() {
    let qe = report(8);
    let ev = evidence(&qe);
    for body in [td10(4, 1, 0x34, 9), td10(4, 1, 0x33, 8), QuoteBody::SGXQuoteBody(report(1))] {
        let mut q = quote_v5(0x81, body, &qe);
        q.header.tee_type = 0x81;
        let r = verify_quote_dcapv5(&q, &info_v3(), &identity(), &ev);
        assert_eq!(r.unwrap_err(), VerifyError::TdxModuleMismatch);
    }
    let q = quote_v5(0x81, td10(4, 2, 0x33, 9), &qe);
    assert_eq!(
        verify_quote_dcapv5(&q, &info_v3(), &identity(), &ev).unwrap_err(),
        VerifyError::TdxModuleUnknown
    );
}

#[test]
fn v5_cert_data_of_another_type_fails() {
    let qe = report(8);
    let ev = evidence(&qe);
    let mut q = quote_v5(0, QuoteBody::SGXQuoteBody(report(1)), &qe);
    q.signature.qe_cert_data.cert_data_type = 7;
    assert_eq!(
        verify_quote_dcapv5(&q, &info_v3(), &identity(), &ev).unwrap_err(),
        VerifyError::UnsupportedCertDataType
    );
    q.signature.qe_cert_data.cert_data_type = 5;
    assert_eq!(
        verify_quote_dcapv5(&q, &info_v3(), &identity(), &ev).unwrap_err(),
        VerifyError::UnsupportedCertDataType
    );
    let mut q = quote_v5(0, QuoteBody::SGXQuoteBody(report(1)), &qe);
    q.signature.qe_cert_data.cert_data.truncate(400);
    assert_eq!(
        verify_quote_dcapv5(&q, &info_v3(), &identity(), &ev).unwrap_err(),
        VerifyError::MalformedSignatureData(DecodeError::Truncated)
    );
    let mut q = quote_v5(0, QuoteBody::SGXQuoteBody(report(1)), &qe);
    q.signature.qe_cert_data = cert_data(6, nested_bytes(&qe, 6));
    assert_eq!(
        verify_quote_dcapv5(&q, &info_v3(), &identity(), &ev).unwrap_err(),
        VerifyError::UnsupportedCertDataType
    );
}

#[test]
fn each_failed_check_is_named_in_order() {
    let qe = report(8);
    let good = evidence(&qe);
    let q5 = quote_v5(0, QuoteBody::SGXQuoteBody(report(1)), &qe);
    let q3 = quote_v3(&qe, 5);
    let run5 = |ev: &Evidence| verify_quote_dcapv5(&q5, &info_v3(), &identity(), ev).unwrap_err();
    let run3 = |ev: &Evidence| verify_quote_dcapv3(&q3, &info_v2(), &identity(), ev).unwrap_err();
    let mut ev = good;
    ev.attestation_key_digest[0] ^= 1;
    assert_eq!(run5(&ev), VerifyError::QeReportDataMismatch);
    assert_eq!(run3(&ev), VerifyError::QeReportDataMismatch);
    ev.qe_report_signature_valid = false;
    assert_eq!(run5(&ev), VerifyError::QeReportSignatureInvalid);
    assert_eq!(run3(&ev), VerifyError::QeReportSignatureInvalid);
    ev.qe_cert_chain_valid = false;
    assert_eq!(run5(&ev), VerifyError::CertChainInvalid);
    assert_eq!(run3(&ev), VerifyError::CertChainInvalid);
    ev.quote_signature_valid = false;
    assert_eq!(run5(&ev), VerifyError::QuoteSignatureInvalid);
    assert_eq!(run3(&ev), VerifyError::QuoteSignatureInvalid);
    ev.enclave_identity_valid = false;
    assert_eq!(run5(&ev), VerifyError::EnclaveIdentityInvalid);
    assert_eq!(run3(&ev), VerifyError::EnclaveIdentityInvalid);
    ev.tcb_info_valid = false;
    assert_eq!(run5(&ev), VerifyError::TcbInfoInvalid);
    assert_eq!(run3(&ev), VerifyError::TcbInfoInvalid);
    ev.signing_cert_trusted = false;
    assert_eq!(run5(&ev), VerifyError::SigningCertificateNotTrusted);
    assert_eq!(run3(&ev), VerifyError::SigningCertificateNotTrusted);
    let mut bad = quote_v5(0, QuoteBody::SGXQuoteBody(report(1)), &qe);
    bad.header.version = 4;
    assert_eq!(
        verify_quote_dcapv5(&bad, &info_v3(), &identity(), &ev).unwrap_err(),
        VerifyError::InvalidQuoteHeader
    );
    let mut bad = quote_v3(&qe, 5);
    bad.header.version = 5;
    assert_eq!(
        verify_quote_dcapv3(&bad, &info_v2(), &identity(), &ev).unwrap_err(),
        VerifyError::InvalidQuoteHeader
    );
    let mut ev = good;
    ev.sgx_extensions.pceid = [9, 9];
    assert_eq!(run5(&ev), VerifyError::PceIdMismatch);
    assert_eq!(run3(&ev), VerifyError::PceIdMismatch);
    ev.sgx_extensions.fmspc = [9; 6];
    assert_eq!(run5(&ev), VerifyError::FmspcMismatch);
    assert_eq!(run3(&ev), VerifyError::FmspcMismatch);
}

#[test]
fn v3_signature_block_problems() {
    let qe = report(8);
    let ev = evidence(&qe);
    assert_eq!(
        verify_quote_dcapv3(&quote_v3(&qe, 6), &info_v2(), &identity(), &ev).unwrap_err(),
        VerifyError::UnsupportedCertDataType
    );
    assert_eq!(
        verify_quote_dcapv3(&quote_v3(&qe, 7), &info_v2(), &identity(), &ev).unwrap_err(),
        VerifyError::MalformedSignatureData(DecodeError::UnsupportedCertDataType)
    );
    let mut q = quote_v3(&qe, 5);
    q.signature.truncate(200);
    assert_eq!(
        verify_quote_dcapv3(&q, &info_v2(), &identity(), &ev).unwrap_err(),
        VerifyError::MalformedSignatureData(DecodeError::Truncated)
    );
}

#[test]
fn revoked_platform_fails_the_quote() {
    let qe = report(8);
    let ev = evidence(&qe);
    let mut info = info_v3();
    info.tcb_levels = vec![level_v3(1, 1, Some(0), "Revoked", "R")];
    let q = quote_v5(0x81, td10(4, 1, 0x33, 9), &qe);
    assert_eq!(
        verify_quote_dcapv5(&q, &info, &identity(), &ev).unwrap_err(),
        VerifyError::FmspcTcbRevoked
    );
    let q = quote_v5(0, QuoteBody::SGXQuoteBody(report(1)), &qe);
    assert_eq!(
        verify_quote_dcapv5(&q, &info, &identity(), &ev).unwrap_err(),
        VerifyError::FmspcTcbRevoked
    );
    let mut info2 = info_v2();
    info2.tcb_levels = vec![level_v2(6, 12, "UpToDate"), level_v2(5, 11, "Revoked")];
    assert_eq!(
        verify_quote_dcapv3(&quote_v3(&qe, 5), &info2, &identity(), &ev).unwrap_err(),
        VerifyError::FmspcTcbRevoked
    );
}

#[test]
fn revoked_tdx_status_alone_fails_a_tdx_quote() {
    let qe = report(8);
    let ev = evidence(&qe);
    let mut info = info_v3();
    info.tcb_levels = vec![
        level_v3(5, 11, Some(9), "UpToDate", "A"),
        level_v3(1, 1, Some(0), "Revoked", "R"),
    ];
    let q = quote_v5(0x81, td10(4, 1, 0x33, 9), &qe);
    assert_eq!(
        verify_quote_dcapv5(&q, &info, &identity(), &ev).unwrap_err(),
        VerifyError::FmspcTcbRevoked
    );
    let q = quote_v5(0, QuoteBody::SGXQuoteBody(report(1)), &qe);
    let out = verify_quote_dcapv5(&q, &info, &identity(), &ev).unwrap();
    assert_eq!(out.tcb_status, TcbStatus::OK);
}

#[test]
fn the_status_of_the_other_tee_type_does_not_decide() {
    let qe = report(8);
    let ev = evidence(&qe);
    let mut info = info_v3();
    info.tcb_levels = vec![
        level_v3(5, 11, Some(9), "Revoked", "R"),
        level_v3(1, 1, Some(0), "OutOfDate", "C"),
    ];
    let q = quote_v5(0x81, td10(4, 1, 0x33, 9), &qe);
    let out = verify_quote_dcapv5(&q, &info, &identity(), &ev).unwrap();
    assert_eq!(out.tcb_status, TcbStatus::TcbOutOfDate);
    assert_eq!(out.advisory_ids, vec!["C".to_string()]);
    let q = quote_v5(0, QuoteBody::SGXQuoteBody(report(1)), &qe);
    assert_eq!(
        verify_quote_dcapv5(&q, &info, &identity(), &ev).unwrap_err(),
        VerifyError::FmspcTcbRevoked
    );
}

#[test]
fn unrecognized_platform_is_attested_not_refused() {
    let qe = report(8);
    let mut ev = evidence(&qe);
    ev.sgx_extensions.sgx_tcb_components = [0; 16];
    let q = quote_v5(0, QuoteBody::SGXQuoteBody(report(1)), &qe);
    let out = verify_quote_dcapv5(&q, &info_v3(), &identity(), &ev).unwrap();
    assert_eq!(out.tcb_status, TcbStatus::TcbUnrecognized);
    assert!(out.advisory_ids.is_empty());
    let out = verify_quote_dcapv3(&quote_v3(&qe, 5), &info_v2(), &identity(), &ev).unwrap();
    assert_eq!(out.tcb_status, TcbStatus::TcbUnrecognized);
}

#[test]
fn signed_message_of_a_v5_quote() {
    let qe = report(8);
    let q = quote_v5(0x81, td10(4, 1, 0x33, 9), &qe);
    let m = signed_message(&q);
    assert_eq!(m.len(), 48 + 6 + 584);
    assert_eq!(m[..48].to_vec(), q.header.to_bytes());
    assert_eq!(m[48..50].to_vec(), vec![2, 0]);
    assert_eq!(m[50..54].to_vec(), 584u32.to_le_bytes().to_vec());
    assert_eq!(m[54..].to_vec(), q.quote_body.to_bytes());
    let auth = QeAuthData { size: 2, data: vec![1, 2] };
    assert_eq!(auth.data.len(), auth.size as usize);
}

#[test]
fn shared_checks_hand_back_status_and_extensions() {
    let qe = report(8);
    let ev = evidence(&qe);
    let (status, ext) = common_verify_and_fetch_tcb(&ev, 5, &qe, &identity()).unwrap();
    assert_eq!(status, TcbStatus::OK);
    assert_eq!(ext.fmspc, extensions().fmspc);
    assert_eq!(ext.pcesvn, 11);
    assert_eq!(
        common_verify_and_fetch_tcb(&ev, 6, &qe, &identity()).unwrap_err(),
        VerifyError::UnsupportedCertDataType
    );
    let old = report(7);
    assert_eq!(
        common_verify_and_fetch_tcb(&evidence(&old), 5, &old, &identity()).unwrap_err(),
        VerifyError::QeIdentityMismatch
    );
}
