//! The three report bodies that a quote can carry.

use vstd::prelude::*;
use crate::bytes::{
    le_u16, le_u64, lemma_u16_round_trip, lemma_u64_round_trip, push_bytes, push_u16, push_u64,
    read_array, read_u16, read_u64, u16_le, u64_le,
};
use crate::error::DecodeError;

verus! {

/// An SGX enclave report: 384 bytes on the wire.
#[derive(Clone, Copy, Debug)]
pub struct EnclaveReport {
    /// Security version of the CPU.
    pub cpu_svn: [u8; 16],
    /// Which extended features are saved on an asynchronous exit.
    pub misc_select: [u8; 4],
    /// Reserved.
    pub reserved_1: [u8; 28],
    /// Attribute flags of the enclave.
    pub attributes: [u8; 16],
    /// Measurement of the enclave.
    pub mrenclave: [u8; 32],
    /// Reserved.
    pub reserved_2: [u8; 32],
    /// Measurement of the key that signed the enclave.
    pub mrsigner: [u8; 32],
    /// Reserved.
    pub reserved_3: [u8; 96],
    /// Product id of the enclave.
    pub isv_prod_id: u16,
    /// Security version of the enclave.
    pub isv_svn: u16,
    /// Reserved.
    pub reserved_4: [u8; 60],
    /// Data that the reporting party chose.
    pub report_data: [u8; 64],
}

impl EnclaveReport {
    /// Whether the first 384 bytes of `s` hold exactly this report.
    pub open spec fn parses(self, s: Seq<u8>) -> bool {
        &&& s.len() >= 384
        &&& self.cpu_svn@ == s.subrange(0, 16)
        &&& self.misc_select@ == s.subrange(16, 20)
        &&& self.reserved_1@ == s.subrange(20, 48)
        &&& self.attributes@ == s.subrange(48, 64)
        &&& self.mrenclave@ == s.subrange(64, 96)
        &&& self.reserved_2@ == s.subrange(96, 128)
        &&& self.mrsigner@ == s.subrange(128, 160)
        &&& self.reserved_3@ == s.subrange(160, 256)
        &&& self.isv_prod_id == le_u16(s, 256)
        &&& self.isv_svn == le_u16(s, 258)
        &&& self.reserved_4@ == s.subrange(260, 320)
        &&& self.report_data@ == s.subrange(320, 384)
    }

    /// The 384 bytes that stand for this report on the wire.
    pub open spec fn encoding(self) -> Seq<u8> {
        self.cpu_svn@
            + self.misc_select@
            + self.reserved_1@
            + self.attributes@
            + self.mrenclave@
            + self.reserved_2@
            + self.mrsigner@
            + self.reserved_3@
            + u16_le(self.isv_prod_id)
            + u16_le(self.isv_svn)
            + self.reserved_4@
            + self.report_data@
    }

    /// Decodes the report at the start of `raw`; fails exactly when `raw`
    /// is shorter than 384 bytes.
    pub fn from_bytes(raw: &[u8]) -> (r: Result<EnclaveReport, DecodeError>)
        ensures
            raw@.len() >= 384 ==> (r matches Ok(x) && x.parses(raw@)),
            raw@.len() < 384 ==> r == Err::<EnclaveReport, DecodeError>(DecodeError::Truncated),
    {
        if raw.len() < 384 {
            return Err(DecodeError::Truncated);
        }
        Ok(
            EnclaveReport {
                cpu_svn: read_array::<16>(raw, 0),
                misc_select: read_array::<4>(raw, 16),
                reserved_1: read_array::<28>(raw, 20),
                attributes: read_array::<16>(raw, 48),
                mrenclave: read_array::<32>(raw, 64),
                reserved_2: read_array::<32>(raw, 96),
                mrsigner: read_array::<32>(raw, 128),
                reserved_3: read_array::<96>(raw, 160),
                isv_prod_id: read_u16(raw, 256),
                isv_svn: read_u16(raw, 258),
                reserved_4: read_array::<60>(raw, 260),
                report_data: read_array::<64>(raw, 320),
            },
        )
    }

    /// Writes the report in its wire form.
    pub fn to_bytes(&self) -> (r: Vec<u8>)
        ensures
            r@ == self.encoding(),
            r@.len() == 384,
    {
        let mut out: Vec<u8> = Vec::new();
        push_bytes(&mut out, &self.cpu_svn);
        push_bytes(&mut out, &self.misc_select);
        push_bytes(&mut out, &self.reserved_1);
        push_bytes(&mut out, &self.attributes);
        push_bytes(&mut out, &self.mrenclave);
        push_bytes(&mut out, &self.reserved_2);
        push_bytes(&mut out, &self.mrsigner);
        push_bytes(&mut out, &self.reserved_3);
        push_u16(&mut out, self.isv_prod_id);
        push_u16(&mut out, self.isv_svn);
        push_bytes(&mut out, &self.reserved_4);
        push_bytes(&mut out, &self.report_data);
        proof {
            assert(Seq::<u8>::empty() + self.cpu_svn@ =~= self.cpu_svn@);
        }
        out
    }

    /// Encoding a report and decoding the bytes gives the report back:
    /// the encoding is 384 bytes long, it parses as `self`, and whatever
    /// parses from it equals `self`.
    pub proof fn lemma_round_trip(self, other: EnclaveReport)
        ensures
            self.encoding().len() == 384,
            self.parses(self.encoding()),
            other.parses(self.encoding()) ==> other == self,
    {
        let s = self.encoding();
        lemma_u16_round_trip(self.isv_prod_id);
        lemma_u16_round_trip(self.isv_svn);
        assert(s.len() == 384);
        assert(self.cpu_svn@ =~= s.subrange(0, 16));
        assert(self.misc_select@ =~= s.subrange(16, 20));
        assert(self.reserved_1@ =~= s.subrange(20, 48));
        assert(self.attributes@ =~= s.subrange(48, 64));
        assert(self.mrenclave@ =~= s.subrange(64, 96));
        assert(self.reserved_2@ =~= s.subrange(96, 128));
        assert(self.mrsigner@ =~= s.subrange(128, 160));
        assert(self.reserved_3@ =~= s.subrange(160, 256));
        assert(u16_le(self.isv_prod_id) =~= s.subrange(256, 258));
        assert(le_u16(s, 256) == le_u16(s.subrange(256, 258), 0));
        assert(u16_le(self.isv_svn) =~= s.subrange(258, 260));
        assert(le_u16(s, 258) == le_u16(s.subrange(258, 260), 0));
        assert(self.reserved_4@ =~= s.subrange(260, 320));
        assert(self.report_data@ =~= s.subrange(320, 384));
        if other.parses(s) {
            self.lemma_parse_unique(other, s);
        }
    }

    /// Bytes hold at most one report: two values that parse from the same
    /// bytes are equal.
    pub proof fn lemma_parse_unique(self, other: EnclaveReport, s: Seq<u8>)
        requires
            self.parses(s),
            other.parses(s),
        ensures
            other == self,
    {
        assert(other.cpu_svn =~= self.cpu_svn);
        assert(other.misc_select =~= self.misc_select);
        assert(other.reserved_1 =~= self.reserved_1);
        assert(other.attributes =~= self.attributes);
        assert(other.mrenclave =~= self.mrenclave);
        assert(other.reserved_2 =~= self.reserved_2);
        assert(other.mrsigner =~= self.mrsigner);
        assert(other.reserved_3 =~= self.reserved_3);
        assert(other.reserved_4 =~= self.reserved_4);
        assert(other.report_data =~= self.report_data);
    }
}

/// A TD 1.0 report: 584 bytes on the wire.
#[derive(Clone, Copy, Debug)]
pub struct TD10ReportBody {
    /// Security versions of the TDX TCB; the first two bytes are those of the TDX module.
    pub tee_tcb_svn: [u8; 16],
    /// Measurement of the TDX module.
    pub mrseam: [u8; 48],
    /// Measurement of the signer of the TDX module.
    pub mrsignerseam: [u8; 48],
    /// Attributes of the TDX module.
    pub seam_attributes: u64,
    /// Attributes of the trust domain.
    pub td_attributes: u64,
    /// Extended features allowed in the trust domain.
    pub xfam: u64,
    /// Measurement of the initial contents of the trust domain.
    pub mrtd: [u8; 48],
    /// Software-defined id of the configuration.
    pub mrconfigid: [u8; 48],
    /// Software-defined id of the owner.
    pub mrowner: [u8; 48],
    /// Software-defined id of the owner's configuration.
    pub mrownerconfig: [u8; 48],
    /// Runtime measurement register 0.
    pub rtmr0: [u8; 48],
    /// Runtime measurement register 1.
    pub rtmr1: [u8; 48],
    /// Runtime measurement register 2.
    pub rtmr2: [u8; 48],
    /// Runtime measurement register 3.
    pub rtmr3: [u8; 48],
    /// Data that the reporting party chose.
    pub report_data: [u8; 64],
}

impl TD10ReportBody {
    /// Whether the first 584 bytes of `s` hold exactly this report.
    pub open spec fn parses(self, s: Seq<u8>) -> bool {
        &&& s.len() >= 584
        &&& self.tee_tcb_svn@ == s.subrange(0, 16)
        &&& self.mrseam@ == s.subrange(16, 64)
        &&& self.mrsignerseam@ == s.subrange(64, 112)
        &&& self.seam_attributes == le_u64(s, 112)
        &&& self.td_attributes == le_u64(s, 120)
        &&& self.xfam == le_u64(s, 128)
        &&& self.mrtd@ == s.subrange(136, 184)
        &&& self.mrconfigid@ == s.subrange(184, 232)
        &&& self.mrowner@ == s.subrange(232, 280)
        &&& self.mrownerconfig@ == s.subrange(280, 328)
        &&& self.rtmr0@ == s.subrange(328, 376)
        &&& self.rtmr1@ == s.subrange(376, 424)
        &&& self.rtmr2@ == s.subrange(424, 472)
        &&& self.rtmr3@ == s.subrange(472, 520)
        &&& self.report_data@ == s.subrange(520, 584)
    }

    /// The 584 bytes that stand for this report on the wire.
    pub open spec fn encoding(self) -> Seq<u8> {
        self.tee_tcb_svn@
            + self.mrseam@
            + self.mrsignerseam@
            + u64_le(self.seam_attributes)
            + u64_le(self.td_attributes)
            + u64_le(self.xfam)
            + self.mrtd@
            + self.mrconfigid@
            + self.mrowner@
            + self.mrownerconfig@
            + self.rtmr0@
            + self.rtmr1@
            + self.rtmr2@
            + self.rtmr3@
            + self.report_data@
    }

    /// Decodes the report at the start of `raw`; fails exactly when `raw`
    /// is shorter than 584 bytes.
    pub fn from_bytes(raw: &[u8]) -> (r: Result<TD10ReportBody, DecodeError>)
        ensures
            raw@.len() >= 584 ==> (r matches Ok(x) && x.parses(raw@)),
            raw@.len() < 584 ==> r == Err::<TD10ReportBody, DecodeError>(DecodeError::Truncated),
    {
        if raw.len() < 584 {
            return Err(DecodeError::Truncated);
        }
        Ok(
            TD10ReportBody {
                tee_tcb_svn: read_array::<16>(raw, 0),
                mrseam: read_array::<48>(raw, 16),
                mrsignerseam: read_array::<48>(raw, 64),
                seam_attributes: read_u64(raw, 112),
                td_attributes: read_u64(raw, 120),
                xfam: read_u64(raw, 128),
                mrtd: read_array::<48>(raw, 136),
                mrconfigid: read_array::<48>(raw, 184),
                mrowner: read_array::<48>(raw, 232),
                mrownerconfig: read_array::<48>(raw, 280),
                rtmr0: read_array::<48>(raw, 328),
                rtmr1: read_array::<48>(raw, 376),
                rtmr2: read_array::<48>(raw, 424),
                rtmr3: read_array::<48>(raw, 472),
                report_data: read_array::<64>(raw, 520),
            },
        )
    }

    /// Writes the report in its wire form.
    pub fn to_bytes(&self) -> (r: Vec<u8>)
        ensures
            r@ == self.encoding(),
            r@.len() == 584,
    {
        let mut out: Vec<u8> = Vec::new();
        push_bytes(&mut out, &self.tee_tcb_svn);
        push_bytes(&mut out, &self.mrseam);
        push_bytes(&mut out, &self.mrsignerseam);
        push_u64(&mut out, self.seam_attributes);
        push_u64(&mut out, self.td_attributes);
        push_u64(&mut out, self.xfam);
        push_bytes(&mut out, &self.mrtd);
        push_bytes(&mut out, &self.mrconfigid);
        push_bytes(&mut out, &self.mrowner);
        push_bytes(&mut out, &self.mrownerconfig);
        push_bytes(&mut out, &self.rtmr0);
        push_bytes(&mut out, &self.rtmr1);
        push_bytes(&mut out, &self.rtmr2);
        push_bytes(&mut out, &self.rtmr3);
        push_bytes(&mut out, &self.report_data);
        proof {
            assert(Seq::<u8>::empty() + self.tee_tcb_svn@ =~= self.tee_tcb_svn@);
        }
        out
    }

    /// Encoding a report and decoding the bytes gives the report back:
    /// the encoding is 584 bytes long, it parses as `self`, and whatever
    /// parses from it equals `self`.
    pub proof fn lemma_round_trip(self, other: TD10ReportBody)
        ensures
            self.encoding().len() == 584,
            self.parses(self.encoding()),
            other.parses(self.encoding()) ==> other == self,
    {
        let s = self.encoding();
        lemma_u64_round_trip(self.seam_attributes);
        lemma_u64_round_trip(self.td_attributes);
        lemma_u64_round_trip(self.xfam);
        assert(s.len() == 584);
        assert(self.tee_tcb_svn@ =~= s.subrange(0, 16));
        assert(self.mrseam@ =~= s.subrange(16, 64));
        assert(self.mrsignerseam@ =~= s.subrange(64, 112));
        assert(u64_le(self.seam_attributes) =~= s.subrange(112, 120));
        assert(le_u64(s, 112) == le_u64(s.subrange(112, 120), 0));
        assert(u64_le(self.td_attributes) =~= s.subrange(120, 128));
        assert(le_u64(s, 120) == le_u64(s.subrange(120, 128), 0));
        assert(u64_le(self.xfam) =~= s.subrange(128, 136));
        assert(le_u64(s, 128) == le_u64(s.subrange(128, 136), 0));
        assert(self.mrtd@ =~= s.subrange(136, 184));
        assert(self.mrconfigid@ =~= s.subrange(184, 232));
        assert(self.mrowner@ =~= s.subrange(232, 280));
        assert(self.mrownerconfig@ =~= s.subrange(280, 328));
        assert(self.rtmr0@ =~= s.subrange(328, 376));
        assert(self.rtmr1@ =~= s.subrange(376, 424));
        assert(self.rtmr2@ =~= s.subrange(424, 472));
        assert(self.rtmr3@ =~= s.subrange(472, 520));
        assert(self.report_data@ =~= s.subrange(520, 584));
        if other.parses(s) {
            self.lemma_parse_unique(other, s);
        }
    }

    /// Bytes hold at most one report: two values that parse from the same
    /// bytes are equal.
    pub proof fn lemma_parse_unique(self, other: TD10ReportBody, s: Seq<u8>)
        requires
            self.parses(s),
            other.parses(s),
        ensures
            other == self,
    {
        assert(other.tee_tcb_svn =~= self.tee_tcb_svn);
        assert(other.mrseam =~= self.mrseam);
        assert(other.mrsignerseam =~= self.mrsignerseam);
        assert(other.mrtd =~= self.mrtd);
        assert(other.mrconfigid =~= self.mrconfigid);
        assert(other.mrowner =~= self.mrowner);
        assert(other.mrownerconfig =~= self.mrownerconfig);
        assert(other.rtmr0 =~= self.rtmr0);
        assert(other.rtmr1 =~= self.rtmr1);
        assert(other.rtmr2 =~= self.rtmr2);
        assert(other.rtmr3 =~= self.rtmr3);
        assert(other.report_data =~= self.report_data);
    }
}

/// A TD 1.5 report: the TD 1.0 fields and two more, 648 bytes on the wire.
#[derive(Clone, Copy, Debug)]
pub struct TD15ReportBody {
    /// Security versions of the TDX TCB; the first two bytes are those of the TDX module.
    pub tee_tcb_svn: [u8; 16],
    /// Measurement of the TDX module.
    pub mrseam: [u8; 48],
    /// Measurement of the signer of the TDX module.
    pub mrsignerseam: [u8; 48],
    /// Attributes of the TDX module.
    pub seam_attributes: u64,
    /// Attributes of the trust domain.
    pub td_attributes: u64,
    /// Extended features allowed in the trust domain.
    pub xfam: u64,
    /// Measurement of the initial contents of the trust domain.
    pub mrtd: [u8; 48],
    /// Software-defined id of the configuration.
    pub mrconfigid: [u8; 48],
    /// Software-defined id of the owner.
    pub mrowner: [u8; 48],
    /// Software-defined id of the owner's configuration.
    pub mrownerconfig: [u8; 48],
    /// Runtime measurement register 0.
    pub rtmr0: [u8; 48],
    /// Runtime measurement register 1.
    pub rtmr1: [u8; 48],
    /// Runtime measurement register 2.
    pub rtmr2: [u8; 48],
    /// Runtime measurement register 3.
    pub rtmr3: [u8; 48],
    /// Data that the reporting party chose.
    pub report_data: [u8; 64],
    /// Security versions of the current TDX TCB.
    pub tee_tcb_svn2: [u8; 16],
    /// Measurement of the service trust domains.
    pub mrservicetd: [u8; 48],
}

impl TD15ReportBody {
    /// Whether the first 648 bytes of `s` hold exactly this report.
    pub open spec fn parses(self, s: Seq<u8>) -> bool {
        &&& s.len() >= 648
        &&& self.tee_tcb_svn@ == s.subrange(0, 16)
        &&& self.mrseam@ == s.subrange(16, 64)
        &&& self.mrsignerseam@ == s.subrange(64, 112)
        &&& self.seam_attributes == le_u64(s, 112)
        &&& self.td_attributes == le_u64(s, 120)
        &&& self.xfam == le_u64(s, 128)
        &&& self.mrtd@ == s.subrange(136, 184)
        &&& self.mrconfigid@ == s.subrange(184, 232)
        &&& self.mrowner@ == s.subrange(232, 280)
        &&& self.mrownerconfig@ == s.subrange(280, 328)
        &&& self.rtmr0@ == s.subrange(328, 376)
        &&& self.rtmr1@ == s.subrange(376, 424)
        &&& self.rtmr2@ == s.subrange(424, 472)
        &&& self.rtmr3@ == s.subrange(472, 520)
        &&& self.report_data@ == s.subrange(520, 584)
        &&& self.tee_tcb_svn2@ == s.subrange(584, 600)
        &&& self.mrservicetd@ == s.subrange(600, 648)
    }

    /// The 648 bytes that stand for this report on the wire.
    pub open spec fn encoding(self) -> Seq<u8> {
        self.tee_tcb_svn@
            + self.mrseam@
            + self.mrsignerseam@
            + u64_le(self.seam_attributes)
            + u64_le(self.td_attributes)
            + u64_le(self.xfam)
            + self.mrtd@
            + self.mrconfigid@
            + self.mrowner@
            + self.mrownerconfig@
            + self.rtmr0@
            + self.rtmr1@
            + self.rtmr2@
            + self.rtmr3@
            + self.report_data@
            + self.tee_tcb_svn2@
            + self.mrservicetd@
    }

    /// Decodes the report at the start of `raw`; fails exactly when `raw`
    /// is shorter than 648 bytes.
    pub fn from_bytes(raw: &[u8]) -> (r: Result<TD15ReportBody, DecodeError>)
        ensures
            raw@.len() >= 648 ==> (r matches Ok(x) && x.parses(raw@)),
            raw@.len() < 648 ==> r == Err::<TD15ReportBody, DecodeError>(DecodeError::Truncated),
    {
        if raw.len() < 648 {
            return Err(DecodeError::Truncated);
        }
        Ok(
            TD15ReportBody {
                tee_tcb_svn: read_array::<16>(raw, 0),
                mrseam: read_array::<48>(raw, 16),
                mrsignerseam: read_array::<48>(raw, 64),
                seam_attributes: read_u64(raw, 112),
                td_attributes: read_u64(raw, 120),
                xfam: read_u64(raw, 128),
                mrtd: read_array::<48>(raw, 136),
                mrconfigid: read_array::<48>(raw, 184),
                mrowner: read_array::<48>(raw, 232),
                mrownerconfig: read_array::<48>(raw, 280),
                rtmr0: read_array::<48>(raw, 328),
                rtmr1: read_array::<48>(raw, 376),
                rtmr2: read_array::<48>(raw, 424),
                rtmr3: read_array::<48>(raw, 472),
                report_data: read_array::<64>(raw, 520),
                tee_tcb_svn2: read_array::<16>(raw, 584),
                mrservicetd: read_array::<48>(raw, 600),
            },
        )
    }

    /// Writes the report in its wire form.
    pub fn to_bytes(&self) -> (r: Vec<u8>)
        ensures
            r@ == self.encoding(),
            r@.len() == 648,
    {
        let mut out: Vec<u8> = Vec::new();
        push_bytes(&mut out, &self.tee_tcb_svn);
        push_bytes(&mut out, &self.mrseam);
        push_bytes(&mut out, &self.mrsignerseam);
        push_u64(&mut out, self.seam_attributes);
        push_u64(&mut out, self.td_attributes);
        push_u64(&mut out, self.xfam);
        push_bytes(&mut out, &self.mrtd);
        push_bytes(&mut out, &self.mrconfigid);
        push_bytes(&mut out, &self.mrowner);
        push_bytes(&mut out, &self.mrownerconfig);
        push_bytes(&mut out, &self.rtmr0);
        push_bytes(&mut out, &self.rtmr1);
        push_bytes(&mut out, &self.rtmr2);
        push_bytes(&mut out, &self.rtmr3);
        push_bytes(&mut out, &self.report_data);
        push_bytes(&mut out, &self.tee_tcb_svn2);
        push_bytes(&mut out, &self.mrservicetd);
        proof {
            assert(Seq::<u8>::empty() + self.tee_tcb_svn@ =~= self.tee_tcb_svn@);
        }
        out
    }

    /// Encoding a report and decoding the bytes gives the report back:
    /// the encoding is 648 bytes long, it parses as `self`, and whatever
    /// parses from it equals `self`.
    pub proof fn lemma_round_trip(self, other: TD15ReportBody)
        ensures
            self.encoding().len() == 648,
            self.parses(self.encoding()),
            other.parses(self.encoding()) ==> other == self,
    {
        let s = self.encoding();
        lemma_u64_round_trip(self.seam_attributes);
        lemma_u64_round_trip(self.td_attributes);
        lemma_u64_round_trip(self.xfam);
        assert(s.len() == 648);
        assert(self.tee_tcb_svn@ =~= s.subrange(0, 16));
        assert(self.mrseam@ =~= s.subrange(16, 64));
        assert(self.mrsignerseam@ =~= s.subrange(64, 112));
        assert(u64_le(self.seam_attributes) =~= s.subrange(112, 120));
        assert(le_u64(s, 112) == le_u64(s.subrange(112, 120), 0));
        assert(u64_le(self.td_attributes) =~= s.subrange(120, 128));
        assert(le_u64(s, 120) == le_u64(s.subrange(120, 128), 0));
        assert(u64_le(self.xfam) =~= s.subrange(128, 136));
        assert(le_u64(s, 128) == le_u64(s.subrange(128, 136), 0));
        assert(self.mrtd@ =~= s.subrange(136, 184));
        assert(self.mrconfigid@ =~= s.subrange(184, 232));
        assert(self.mrowner@ =~= s.subrange(232, 280));
        assert(self.mrownerconfig@ =~= s.subrange(280, 328));
        assert(self.rtmr0@ =~= s.subrange(328, 376));
        assert(self.rtmr1@ =~= s.subrange(376, 424));
        assert(self.rtmr2@ =~= s.subrange(424, 472));
        assert(self.rtmr3@ =~= s.subrange(472, 520));
        assert(self.report_data@ =~= s.subrange(520, 584));
        assert(self.tee_tcb_svn2@ =~= s.subrange(584, 600));
        assert(self.mrservicetd@ =~= s.subrange(600, 648));
        if other.parses(s) {
            self.lemma_parse_unique(other, s);
        }
    }

    /// Bytes hold at most one report: two values that parse from the same
    /// bytes are equal.
    pub proof fn lemma_parse_unique(self, other: TD15ReportBody, s: Seq<u8>)
        requires
            self.parses(s),
            other.parses(s),
        ensures
            other == self,
    {
        assert(other.tee_tcb_svn =~= self.tee_tcb_svn);
        assert(other.mrseam =~= self.mrseam);
        assert(other.mrsignerseam =~= self.mrsignerseam);
        assert(other.mrtd =~= self.mrtd);
        assert(other.mrconfigid =~= self.mrconfigid);
        assert(other.mrowner =~= self.mrowner);
        assert(other.mrownerconfig =~= self.mrownerconfig);
        assert(other.rtmr0 =~= self.rtmr0);
        assert(other.rtmr1 =~= self.rtmr1);
        assert(other.rtmr2 =~= self.rtmr2);
        assert(other.rtmr3 =~= self.rtmr3);
        assert(other.report_data =~= self.report_data);
        assert(other.tee_tcb_svn2 =~= self.tee_tcb_svn2);
        assert(other.mrservicetd =~= self.mrservicetd);
    }
}


/// The report that a quote carries, by kind.
#[derive(Clone, Copy, Debug)]
pub enum QuoteBody {
    SGXQuoteBody(EnclaveReport),
    TD10QuoteBody(TD10ReportBody),
    TD15QuoteBody(TD15ReportBody),
}

impl QuoteBody {
    /// The bytes that stand for the report on the wire.
    pub open spec fn encoding(self) -> Seq<u8> {
        match self {
            QuoteBody::SGXQuoteBody(b) => b.encoding(),
            QuoteBody::TD10QuoteBody(b) => b.encoding(),
            QuoteBody::TD15QuoteBody(b) => b.encoding(),
        }
    }

    /// The TDX SVN vector of the report; sixteen zero bytes for an SGX report.
    pub open spec fn spec_tee_tcb_svn(self) -> Seq<u8> {
        match self {
            QuoteBody::SGXQuoteBody(_) => Seq::new(16, |i: int| 0u8),
            QuoteBody::TD10QuoteBody(b) => b.tee_tcb_svn@,
            QuoteBody::TD15QuoteBody(b) => b.tee_tcb_svn@,
        }
    }

    /// Writes the report in its wire form.
    pub fn to_bytes(&self) -> (r: Vec<u8>)
        ensures
            r@ == self.encoding(),
    {
        match self {
            QuoteBody::SGXQuoteBody(b) => b.to_bytes(),
            QuoteBody::TD10QuoteBody(b) => b.to_bytes(),
            QuoteBody::TD15QuoteBody(b) => b.to_bytes(),
        }
    }

    /// The TDX SVN vector of the report; sixteen zero bytes for an SGX report.
    pub fn tee_tcb_svn(&self) -> (r: [u8; 16])
        ensures
            r@ == self.spec_tee_tcb_svn(),
    {
        match self {
            QuoteBody::SGXQuoteBody(_) => {
                let z = [0u8; 16];
                assert(z@ =~= Seq::new(16, |i: int| 0u8));
                z
            },
            QuoteBody::TD10QuoteBody(b) => b.tee_tcb_svn,
            QuoteBody::TD15QuoteBody(b) => b.tee_tcb_svn,
        }
    }
}

} // verus!
