use dcap_rs::body::{EnclaveReport, QuoteBody, TD10ReportBody, TD15ReportBody};
use dcap_rs::cert_data::{CertData, CertDataType, QeReportCertData};
use dcap_rs::constants::INTEL_QE_VENDOR_ID;
use dcap_rs::error::DecodeError;
use dcap_rs::header::{check_quote_header, QuoteHeader};
use dcap_rs::quote::{SgxQuote, SgxQuoteSignatureData};
use dcap_rs::version_5::{QuoteSignatureDataV4, QuoteV5};

fn counting(start: u8, len: usize) -> Vec<u8> {
    (0..len).map(|i| start.wrapping_add(i as u8)).collect()
}

fn header_bytes(version: u16, tee_type: u32) -> Vec<u8> {
    let mut v = Vec::new();
    v.extend_from_slice(&version.to_le_bytes());
    v.extend_from_slice(&2u16.to_le_bytes());
    v.extend_from_slice(&tee_type.to_le_bytes());
    v.extend_from_slice(&[7, 0]);
    v.extend_from_slice(&[9, 0]);
    v.extend_from_slice(&INTEL_QE_VENDOR_ID);
    v.extend_from_slice(&[0xAB; 20]);
    v
}

fn cert_data_bytes(ty: u16, payload: &[u8]) -> Vec<u8> {
    let mut v = Vec::new();
    v.extend_from_slice(&ty.to_le_bytes());
    v.extend_from_slice(&(payload.len() as u32).to_le_bytes());
    v.extend_from_slice(payload);
    v
}

fn qe_report_cert_bytes(report: &[u8], auth: &[u8], inner: &[u8]) -> Vec<u8> {
    let mut v = Vec::new();
    v.extend_from_slice(report);
    v.extend_from_slice(&[0x51; 64]);
    v.extend_from_slice(&(auth.len() as u16).to_le_bytes());
    v.extend_from_slice(auth);
    v.extend_from_slice(inner);
    v
}

fn signature_bytes(cert: &[u8]) -> Vec<u8> {
    let mut v = Vec::new();
    v.extend_from_slice(&[0x11; 64]);
    v.extend_from_slice(&[0x22; 64]);
    v.extend_from_slice(cert);
    v
}

fn quote_v5_bytes(tee_type: u32, body_type: u16, declared: u32, body: &[u8], sig: &[u8]) -> Vec<u8> {
    let mut v = header_bytes(5, tee_type);
    v.extend_from_slice(&body_type.to_le_bytes());
    v.extend_from_slice(&declared.to_le_bytes());
    v.extend_from_slice(body);
    v.extend_from_slice(&(sig.len() as u32).to_le_bytes());
    v.extend_from_slice(sig);
    v
}

fn sgx_quote_v5() -> Vec<u8> {
    let body = counting(1, 384);
    let nested = qe_report_cert_bytes(&counting(3, 384), &[1, 2, 3], &cert_data_bytes(5, b"PEM"));
    let sig = signature_bytes(&cert_data_bytes(6, &nested));
    quote_v5_bytes(0, 1, 384, &body, &sig)
}

#[test]
fn header_fields_are_little_endian() {
    let bytes = header_bytes(0x0305, 0x81);
    let h = QuoteHeader::from_bytes(&bytes).unwrap();
    assert_eq!(h.version, 0x0305);
    assert_eq!(h.att_key_type, 2);
    assert_eq!(h.tee_type, 0x81);
    assert_eq!(h.qe_svn, [7, 0]);
    assert_eq!(h.pce_svn, [9, 0]);
    assert_eq!(h.qe_vendor_id, INTEL_QE_VENDOR_ID);
    assert_eq!(h.user_data, [0xAB; 20]);
    assert_eq!(h.to_bytes(), bytes);
    assert_eq!(QuoteHeader::from_bytes(&bytes[..47]).unwrap_err(), DecodeError::Truncated);
}

#[test]
fn header_shape_check() {
    let h = QuoteHeader::from_bytes(&header_bytes(5, 0x81)).unwrap();
    assert!(check_quote_header(&h, 5));
    assert!(!check_quote_header(&h, 4));
    let mut other = h;
    other.tee_type = 3;
    assert!(!check_quote_header(&other, 5));
    let mut other = h;
    other.att_key_type = 3;
    assert!(!check_quote_header(&other, 5));
    let mut other = h;
    other.qe_vendor_id[15] = 0;
    assert!(!check_quote_header(&other, 5));
}

#[test]
fn enclave_report_fields_and_round_trip() {
    let bytes = counting(0, 384);
    let r = EnclaveReport::from_bytes(&bytes).unwrap();
    assert_eq!(r.cpu_svn.to_vec(), counting(0, 16));
    assert_eq!(r.misc_select, [16, 17, 18, 19]);
    assert_eq!(r.attributes.to_vec(), counting(48, 16));
    assert_eq!(r.mrenclave.to_vec(), counting(64, 32));
    assert_eq!(r.mrsigner.to_vec(), counting(128, 32));
    assert_eq!(r.isv_prod_id, u16::from_le_bytes([0, 1]));
    assert_eq!(r.isv_svn, u16::from_le_bytes([2, 3]));
    assert_eq!(r.report_data.to_vec(), counting(64, 64));
    assert_eq!(r.to_bytes(), bytes);
    let again = EnclaveReport::from_bytes(&r.to_bytes()).unwrap();
    assert_eq!(again.to_bytes(), bytes);
    assert_eq!(again.isv_svn, r.isv_svn);
    assert_eq!(EnclaveReport::from_bytes(&bytes[..383]).unwrap_err(), DecodeError::Truncated);
}

#[test]
fn td10_report_fields_and_round_trip() {
    let bytes = counting(5, 584);
    let r = TD10ReportBody::from_bytes(&bytes).unwrap();
    assert_eq!(r.tee_tcb_svn.to_vec(), bytes[0..16].to_vec());
    assert_eq!(r.mrseam.to_vec(), bytes[16..64].to_vec());
    assert_eq!(r.mrsignerseam.to_vec(), bytes[64..112].to_vec());
    let mut eight = [0u8; 8];
    eight.copy_from_slice(&bytes[112..120]);
    assert_eq!(r.seam_attributes, u64::from_le_bytes(eight));
    eight.copy_from_slice(&bytes[120..128]);
    assert_eq!(r.td_attributes, u64::from_le_bytes(eight));
    eight.copy_from_slice(&bytes[128..136]);
    assert_eq!(r.xfam, u64::from_le_bytes(eight));
    assert_eq!(r.mrtd.to_vec(), bytes[136..184].to_vec());
    assert_eq!(r.rtmr3.to_vec(), bytes[472..520].to_vec());
    assert_eq!(r.report_data.to_vec(), bytes[520..584].to_vec());
    assert_eq!(r.to_bytes(), bytes);
    assert_eq!(TD10ReportBody::from_bytes(&bytes[..583]).unwrap_err(), DecodeError::Truncated);
}

#[test]
fn td15_report_fields_and_round_trip() {
    let bytes = counting(9, 648);
    let r = TD15ReportBody::from_bytes(&bytes).unwrap();
    assert_eq!(r.tee_tcb_svn.to_vec(), bytes[0..16].to_vec());
    assert_eq!(r.report_data.to_vec(), bytes[520..584].to_vec());
    assert_eq!(r.tee_tcb_svn2.to_vec(), bytes[584..600].to_vec());
    assert_eq!(r.mrservicetd.to_vec(), bytes[600..648].to_vec());
    assert_eq!(r.to_bytes(), bytes);
    assert_eq!(TD15ReportBody::from_bytes(&bytes[..647]).unwrap_err(), DecodeError::Truncated);
}

#[test]
fn u64_extremes_round_trip() {
    let mut r = TD10ReportBody::from_bytes(&[0u8; 584]).unwrap();
    r.seam_attributes = u64::MAX;
    r.td_attributes = 0x0102030405060708;
    r.xfam = 1 << 63;
    let again = TD10ReportBody::from_bytes(&r.to_bytes()).unwrap();
    assert_eq!(again.seam_attributes, u64::MAX);
    assert_eq!(again.td_attributes, 0x0102030405060708);
    assert_eq!(again.xfam, 1 << 63);
    assert_eq!(r.to_bytes()[120..128].to_vec(), vec![8, 7, 6, 5, 4, 3, 2, 1]);
}

#[test]
fn cert_data_decodes_by_tag() {
    let c = CertData::from_bytes(&cert_data_bytes(5, b"chain")).unwrap();
    assert_eq!(c.cert_data_type, 5);
    assert_eq!(c.cert_data_size, 5);
    assert_eq!(c.cert_data, b"chain".to_vec());
    match c.get_cert_data().unwrap() {
        CertDataType::CertChain(pem) => assert_eq!(pem, b"chain".to_vec()),
        CertDataType::QeReportCertData(_) => panic!("a chain was expected"),
    }
    let nested = qe_report_cert_bytes(&counting(3, 384), &[1, 2, 3], &cert_data_bytes(5, b"PEM"));
    let c = CertData::from_bytes(&cert_data_bytes(6, &nested)).unwrap();
    match c.get_cert_data().unwrap() {
        CertDataType::QeReportCertData(q) => {
            assert_eq!(q.qe_report.to_bytes(), counting(3, 384));
            assert_eq!(q.qe_report_signature, [0x51; 64]);
            assert_eq!(q.qe_auth_data.size, 3);
            assert_eq!(q.qe_auth_data.data, vec![1, 2, 3]);
            assert_eq!(q.qe_cert_data.cert_data_type, 5);
            assert_eq!(q.qe_cert_data.cert_data, b"PEM".to_vec());
        }
        CertDataType::CertChain(_) => panic!("a nested report was expected"),
    }
}

#[test]
fn cert_data_rejects_other_tags_and_short_buffers() {
    for tag in [0u16, 1, 2, 3, 4, 7, 8, 0xffff] {
        assert_eq!(
            CertData::from_bytes(&cert_data_bytes(tag, b"x")).unwrap_err(),
            DecodeError::UnsupportedCertDataType
        );
    }
    let bytes = cert_data_bytes(5, b"chain");
    for cut in 0..bytes.len() {
        assert_eq!(CertData::from_bytes(&bytes[..cut]).unwrap_err(), DecodeError::Truncated);
    }
    let raw = CertData { cert_data_type: 7, cert_data_size: 0, cert_data: vec![] };
    assert_eq!(raw.get_cert_data().unwrap_err(), DecodeError::UnsupportedCertDataType);
    let raw = CertData { cert_data_type: 6, cert_data_size: 3, cert_data: vec![1, 2, 3] };
    assert_eq!(raw.get_cert_data().unwrap_err(), DecodeError::Truncated);
}

#[test]
fn nested_report_truncated_at_each_boundary() {
    let nested = qe_report_cert_bytes(&counting(3, 384), &[1, 2, 3], &cert_data_bytes(5, b"PEM"));
    assert!(QeReportCertData::from_bytes(&nested).is_ok());
    for cut in [0usize, 383, 384, 447, 449, 450, 452, 453, 458, nested.len() - 1] {
        assert_eq!(
            QeReportCertData::from_bytes(&nested[..cut]).unwrap_err(),
            DecodeError::Truncated
        );
    }
}

#[test]
fn signature_block_decodes() {
    let sig = signature_bytes(&cert_data_bytes(5, b"chain"));
    let s = QuoteSignatureDataV4::from_bytes(&sig).unwrap();
    assert_eq!(s.quote_signature, [0x11; 64]);
    assert_eq!(s.ecdsa_attestation_key, [0x22; 64]);
    assert_eq!(s.qe_cert_data.cert_data, b"chain".to_vec());
    for cut in [0usize, 63, 64, 127, 128, 133, sig.len() - 1] {
        assert_eq!(
            QuoteSignatureDataV4::from_bytes(&sig[..cut]).unwrap_err(),
            DecodeError::Truncated
        );
    }
}

#[test]
fn quote_v5_decodes_each_body() {
    let bytes = sgx_quote_v5();
    let q = QuoteV5::from_bytes(&bytes).unwrap();
    assert_eq!(q.header.version, 5);
    assert_eq!(q.quote_body_type, 1);
    assert_eq!(q.quote_body_size, 384);
    match q.quote_body {
        QuoteBody::SGXQuoteBody(b) => assert_eq!(b.to_bytes(), counting(1, 384)),
        _ => panic!("an SGX body was expected"),
    }
    assert_eq!(q.signature_len as usize, bytes.len() - 54 - 384 - 4);
    assert_eq!(q.signature.qe_cert_data.cert_data_type, 6);
    assert_eq!(q.quote_body.tee_tcb_svn(), [0u8; 16]);

    let sig = signature_bytes(&cert_data_bytes(5, b"chain"));
    let td10 = counting(2, 584);
    let q = QuoteV5::from_bytes(&quote_v5_bytes(0x81, 2, 584, &td10, &sig)).unwrap();
    match q.quote_body {
        QuoteBody::TD10QuoteBody(b) => assert_eq!(b.to_bytes(), td10),
        _ => panic!("a TD 1.0 body was expected"),
    }
    assert_eq!(q.quote_body.tee_tcb_svn().to_vec(), td10[..16].to_vec());
    let td15 = counting(4, 648);
    let q = QuoteV5::from_bytes(&quote_v5_bytes(0x81, 3, 648, &td15, &sig)).unwrap();
    match q.quote_body {
        QuoteBody::TD15QuoteBody(b) => assert_eq!(b.to_bytes(), td15),
        _ => panic!("a TD 1.5 body was expected"),
    }
    assert_eq!(q.quote_body.to_bytes(), td15);
}

#[test]
fn quote_v5_ignores_bytes_after_the_signature() {
    let mut bytes = sgx_quote_v5();
    let len = bytes.len();
    bytes.extend_from_slice(&[0xEE; 9]);
    let q = QuoteV5::from_bytes(&bytes).unwrap();
    assert_eq!(q.signature_len as usize, len - 442);
}

#[test]
fn quote_v5_unknown_tag_pairs() {
    let sig = signature_bytes(&cert_data_bytes(5, b"chain"));
    for (tee, body, len) in [(0u32, 2u16, 584usize), (0, 3, 648), (0x81, 1, 384), (0x81, 4, 384), (2, 1, 384), (0, 0, 384)] {
        let bytes = quote_v5_bytes(tee, body, len as u32, &counting(0, len), &sig);
        assert_eq!(QuoteV5::from_bytes(&bytes).unwrap_err(), DecodeError::UnknownBodyType);
    }
}

#[test]
fn quote_v5_declared_body_size_is_checked() {
    let sig = signature_bytes(&cert_data_bytes(5, b"chain"));
    let bytes = quote_v5_bytes(0, 1, 383, &counting(0, 384), &sig);
    assert_eq!(QuoteV5::from_bytes(&bytes).unwrap_err(), DecodeError::BodySizeMismatch);
    let bytes = quote_v5_bytes(0x81, 2, 648, &counting(0, 584), &sig);
    assert_eq!(QuoteV5::from_bytes(&bytes).unwrap_err(), DecodeError::BodySizeMismatch);
}

#[test]
fn quote_v5_truncated_everywhere() {
    let bytes = sgx_quote_v5();
    for cut in 0..bytes.len() {
        assert_eq!(
            QuoteV5::from_bytes(&bytes[..cut]).unwrap_err(),
            DecodeError::Truncated,
            "cut at {}",
            cut
        );
    }
    assert!(QuoteV5::from_bytes(&bytes).is_ok());
}

#[test]
fn quote_v5_signature_len_beyond_buffer() {
    let mut bytes = sgx_quote_v5();
    let at = 54 + 384;
    let declared = (bytes.len() - at - 4 + 1) as u32;
    bytes[at..at + 4].copy_from_slice(&declared.to_le_bytes());
    assert_eq!(QuoteV5::from_bytes(&bytes).unwrap_err(), DecodeError::Truncated);
    bytes[at..at + 4].copy_from_slice(&u32::MAX.to_le_bytes());
    assert_eq!(QuoteV5::from_bytes(&bytes).unwrap_err(), DecodeError::Truncated);
}

#[test]
fn quote_v5_unsupported_cert_data_type() {
    let sig = signature_bytes(&cert_data_bytes(7, b"anything"));
    let bytes = quote_v5_bytes(0, 1, 384, &counting(1, 384), &sig);
    assert_eq!(QuoteV5::from_bytes(&bytes).unwrap_err(), DecodeError::UnsupportedCertDataType);
}

#[test]
fn quote_v5_signature_shorter_than_its_fixed_part() {
    let bytes = quote_v5_bytes(0, 1, 384, &counting(1, 384), &[0u8; 100]);
    assert_eq!(QuoteV5::from_bytes(&bytes).unwrap_err(), DecodeError::Truncated);
}

#[test]
fn sgx_quote_v3_decodes() {
    let nested = qe_report_cert_bytes(&counting(3, 384), &[1, 2], &cert_data_bytes(5, b"PEM"));
    let sig = signature_bytes(&nested);
    let mut bytes = header_bytes(3, 0);
    bytes.extend_from_slice(&counting(1, 384));
    bytes.extend_from_slice(&(sig.len() as u32).to_le_bytes());
    bytes.extend_from_slice(&sig);
    let q = SgxQuote::from_bytes(&bytes).unwrap();
    assert_eq!(q.header.version, 3);
    assert_eq!(q.isv_enclave_report.to_bytes(), counting(1, 384));
    assert_eq!(q.signature, sig);
    let mut message = header_bytes(3, 0);
    message.extend_from_slice(&counting(1, 384));
    assert_eq!(q.signed_message(), message);
    let s = SgxQuoteSignatureData::from_bytes(&q.signature).unwrap();
    assert_eq!(s.isv_enclave_report_signature, [0x11; 64]);
    assert_eq!(s.ecdsa_attestation_key, [0x22; 64]);
    assert_eq!(s.qe_report.to_bytes(), counting(3, 384));
    assert_eq!(s.qe_report_signature, [0x51; 64]);
    assert_eq!(s.qe_auth_data.data, vec![1, 2]);
    assert_eq!(s.qe_cert_data.cert_data, b"PEM".to_vec());
    for cut in 0..bytes.len() {
        assert_eq!(SgxQuote::from_bytes(&bytes[..cut]).unwrap_err(), DecodeError::Truncated);
    }
    for cut in 0..sig.len() {
        assert_eq!(
            SgxQuoteSignatureData::from_bytes(&sig[..cut]).unwrap_err(),
            DecodeError::Truncated
        );
    }
}
