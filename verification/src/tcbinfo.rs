//! TCB info documents and the lookup of a platform's status in them.

use vstd::prelude::*;
use crate::constants::{SGX_TEE_TYPE, TDX_TEE_TYPE};
use crate::error::VerifyError;
use crate::hex_text::{hex_bytes, hex_equals};
use crate::scan::{first_true_from, lemma_first_true_monotonic};
use crate::status::TcbStatus;

verus! {

/// What the leaf certificate of the platform says of it.
#[derive(Clone, Copy, Debug)]
pub struct SgxExtensions {
    pub fmspc: [u8; 6],
    pub pceid: [u8; 2],
    pub sgx_tcb_components: [u8; 16],
    pub pcesvn: u16,
}

/// One level of a TCB info of version 2.
#[derive(Clone, Debug)]
pub struct TcbLevelV2 {
    pub sgx_tcb_components: [u8; 16],
    pub pcesvn: u16,
    pub tcb_status: String,
}

/// A TCB info document of version 2. FMSPC and PCE id are hexadecimal text.
#[derive(Clone, Debug)]
pub struct TcbInfoV2 {
    pub fmspc: String,
    pub pce_id: String,
    pub tcb_levels: Vec<TcbLevelV2>,
}

/// One level of a TCB info of version 3.
#[derive(Clone, Debug)]
pub struct TcbLevelV3 {
    pub sgx_tcb_components: [u8; 16],
    pub pcesvn: u16,
    pub tdx_tcb_components: Option<[u8; 16]>,
    pub tcb_status: String,
    pub advisory_ids: Vec<String>,
}

/// Signer and attributes of the TDX module of version 0.
#[derive(Clone, Copy, Debug)]
pub struct TdxModule {
    pub mrsigner: [u8; 48],
    pub attributes: u64,
}

/// One level of a TDX module identity.
#[derive(Clone, Debug)]
pub struct TdxModuleTcbLevel {
    pub isvsvn: u8,
    pub tcb_status: String,
}

/// The identity of the TDX module of one major version, with its levels.
#[derive(Clone, Debug)]
pub struct TdxModuleIdentity {
    pub version: u8,
    pub mrsigner: [u8; 48],
    pub attributes: u64,
    pub tcb_levels: Vec<TdxModuleTcbLevel>,
}

/// A TCB info document of version 3. FMSPC and PCE id are hexadecimal text.
#[derive(Clone, Debug)]
pub struct TcbInfoV3 {
    pub fmspc: String,
    pub pce_id: String,
    pub tcb_levels: Vec<TcbLevelV3>,
    pub tdx_module: Option<TdxModule>,
    pub tdx_module_identities: Vec<TdxModuleIdentity>,
}

/// Whether every component of `level` is at most the measured one.
pub open spec fn svn_reached(level: Seq<u8>, measured: Seq<u8>) -> bool {
    forall|i: int| 0 <= i < 16 ==> level[i] <= measured[i]
}

/// Compares sixteen component SVNs of a level with the measured ones.
pub fn components_reached(level: &[u8; 16], measured: &[u8; 16]) -> (r: bool)
    ensures
        r == svn_reached(level@, measured@),
{
    let mut i: usize = 0;
    while i < 16
        invariant
            i <= 16,
            forall|k: int| 0 <= k < i ==> level@[k] <= measured@[k],
        decreases 16 - i,
    {
        if level[i] > measured[i] {
            return false;
        }
        i += 1;
    }
    true
}

/// Whether the platform reaches a level by its SGX components and PCE SVN.
pub open spec fn sgx_level_reached(components: Seq<u8>, pcesvn: u16, platform: SgxExtensions) -> bool {
    svn_reached(components, platform.sgx_tcb_components@) && pcesvn <= platform.pcesvn
}

/// Why a TCB info is not that of the platform, or `None` where it is.
pub open spec fn platform_identity_error(
    platform: SgxExtensions,
    fmspc: Seq<char>,
    pce_id: Seq<char>,
) -> Option<VerifyError> {
    if hex_bytes(fmspc) != Some(platform.fmspc@) {
        Some(VerifyError::FmspcMismatch)
    } else if hex_bytes(pce_id) != Some(platform.pceid@) {
        Some(VerifyError::PceIdMismatch)
    } else {
        None
    }
}

/// Checks that a TCB info is that of the platform's FMSPC and PCE.
pub fn check_platform_identity(platform: &SgxExtensions, fmspc: &str, pce_id: &str) -> (r: Result<
    (),
    VerifyError,
>)
    ensures
        match r {
            Ok(_) => platform_identity_error(*platform, fmspc@, pce_id@) is None,
            Err(e) => platform_identity_error(*platform, fmspc@, pce_id@) == Some(e),
        },
{
    if !hex_equals(fmspc, &platform.fmspc) {
        Err(VerifyError::FmspcMismatch)
    } else if !hex_equals(pce_id, &platform.pceid) {
        Err(VerifyError::PceIdMismatch)
    } else {
        Ok(())
    }
}

/// For each level of a version 2 document, whether the platform reaches it.
pub open spec fn reached_v2(levels: Seq<TcbLevelV2>, platform: SgxExtensions) -> Seq<bool> {
    Seq::new(
        levels.len(),
        |i: int| sgx_level_reached(levels[i].sgx_tcb_components@, levels[i].pcesvn, platform),
    )
}

/// The platform's status by a version 2 document: that of the first level,
/// in the document's order, that the platform reaches; unrecognized where
/// it reaches none.
pub open spec fn fmspc_tcb_status(levels: Seq<TcbLevelV2>, platform: SgxExtensions) -> TcbStatus {
    let at = first_true_from(reached_v2(levels, platform), 0);
    if at < levels.len() {
        TcbStatus::of_text(levels[at].tcb_status@)
    } else {
        TcbStatus::TcbUnrecognized
    }
}

/// Looks up the platform's status in a TCB info of version 2.
pub fn get_fmspc_tcbstatus(sgx_extensions: &SgxExtensions, tcbinfov2: &TcbInfoV2) -> (r: Result<
    TcbStatus,
    VerifyError,
>)
    ensures
        match r {
            Ok(status) => platform_identity_error(
                *sgx_extensions,
                tcbinfov2.fmspc@,
                tcbinfov2.pce_id@,
            ) is None && status == fmspc_tcb_status(tcbinfov2.tcb_levels@, *sgx_extensions),
            Err(e) => platform_identity_error(*sgx_extensions, tcbinfov2.fmspc@, tcbinfov2.pce_id@)
                == Some(e),
        },
{
    match check_platform_identity(
        sgx_extensions,
        tcbinfov2.fmspc.as_str(),
        tcbinfov2.pce_id.as_str(),
    ) {
        Err(e) => { return Err(e); },
        Ok(_) => {},
    }
    let ghost flags = reached_v2(tcbinfov2.tcb_levels@, *sgx_extensions);
    let mut i: usize = 0;
    while i < tcbinfov2.tcb_levels.len()
        invariant
            i <= tcbinfov2.tcb_levels@.len(),
            platform_identity_error(*sgx_extensions, tcbinfov2.fmspc@, tcbinfov2.pce_id@) is None,
            flags == reached_v2(tcbinfov2.tcb_levels@, *sgx_extensions),
            first_true_from(flags, 0) == first_true_from(flags, i as int),
        decreases tcbinfov2.tcb_levels@.len() - i,
    {
        let level = &tcbinfov2.tcb_levels[i];
        if components_reached(&level.sgx_tcb_components, &sgx_extensions.sgx_tcb_components)
            && level.pcesvn <= sgx_extensions.pcesvn {
            assert(first_true_from(flags, i as int) == i);
            return Ok(TcbStatus::str_to_tcb_status(level.tcb_status.as_str()));
        }
        assert(!flags[i as int]);
        i += 1;
    }
    assert(first_true_from(flags, i as int) == flags.len());
    Ok(TcbStatus::TcbUnrecognized)
}

/// A platform with higher SVNs is never matched further down a version 2
/// document: where every component and the PCE SVN of `high` are at least
/// those of `low`, the level matched for `high` stands at or before the
/// level matched for `low`.
pub proof fn lemma_fmspc_level_monotonic(
    levels: Seq<TcbLevelV2>,
    low: SgxExtensions,
    high: SgxExtensions,
)
    requires
        svn_reached(low.sgx_tcb_components@, high.sgx_tcb_components@),
        low.pcesvn <= high.pcesvn,
    ensures
        first_true_from(reached_v2(levels, high), 0) <= first_true_from(reached_v2(levels, low), 0),
{
    let fl = reached_v2(levels, low);
    let fh = reached_v2(levels, high);
    assert forall|k: int| 0 <= k < fl.len() && fl[k] implies fh[k] by {
        assert(svn_reached(levels[k].sgx_tcb_components@, low.sgx_tcb_components@));
        assert(svn_reached(levels[k].sgx_tcb_components@, high.sgx_tcb_components@));
    }
    lemma_first_true_monotonic(fl, fh);
}

/// For each level of a version 3 document, whether the platform reaches it
/// by its SGX components and PCE SVN.
pub open spec fn reached_v3_sgx(levels: Seq<TcbLevelV3>, platform: SgxExtensions) -> Seq<bool> {
    Seq::new(
        levels.len(),
        |i: int| sgx_level_reached(levels[i].sgx_tcb_components@, levels[i].pcesvn, platform),
    )
}

/// Whether the TDX components of a level, if it has any, are reached.
pub open spec fn tdx_components_reached(level: TcbLevelV3, tee_tcb_svn: Seq<u8>) -> bool {
    match level.tdx_tcb_components {
        Some(components) => svn_reached(components@, tee_tcb_svn),
        None => true,
    }
}

/// For each level of a version 3 document, whether the platform reaches it
/// by its SGX components and PCE SVN and the trust domain by its TDX
/// components.
pub open spec fn reached_v3_tdx(
    levels: Seq<TcbLevelV3>,
    platform: SgxExtensions,
    tee_tcb_svn: Seq<u8>,
) -> Seq<bool> {
    Seq::new(
        levels.len(),
        |i: int|
            sgx_level_reached(levels[i].sgx_tcb_components@, levels[i].pcesvn, platform)
                && tdx_components_reached(levels[i], tee_tcb_svn),
    )
}

/// The index of the level that a quote of the given TEE type is matched
/// to: by the SGX components for SGX, by those and the TDX components for
/// TDX; the number of levels where none is matched.
pub open spec fn matched_level_v3(
    tee_type: u32,
    levels: Seq<TcbLevelV3>,
    platform: SgxExtensions,
    tee_tcb_svn: Seq<u8>,
) -> int {
    if tee_type == TDX_TEE_TYPE {
        first_true_from(reached_v3_tdx(levels, platform, tee_tcb_svn), 0)
    } else if tee_type == SGX_TEE_TYPE {
        first_true_from(reached_v3_sgx(levels, platform), 0)
    } else {
        levels.len() as int
    }
}

/// The status of the level at `at`; unrecognized past the last level.
pub open spec fn level_status_v3(levels: Seq<TcbLevelV3>, at: int) -> TcbStatus {
    if 0 <= at < levels.len() {
        TcbStatus::of_text(levels[at].tcb_status@)
    } else {
        TcbStatus::TcbUnrecognized
    }
}

/// The advisories of the level at `at`; none past the last level.
pub open spec fn level_advisories_v3(levels: Seq<TcbLevelV3>, at: int) -> Seq<String> {
    if 0 <= at < levels.len() {
        levels[at].advisory_ids@
    } else {
        Seq::empty()
    }
}

/// The SGX status of the platform by a version 3 document.
pub open spec fn sgx_status_v3(levels: Seq<TcbLevelV3>, platform: SgxExtensions) -> TcbStatus {
    level_status_v3(levels, first_true_from(reached_v3_sgx(levels, platform), 0))
}

/// The TDX status of the platform by a version 3 document: unrecognized
/// for a quote that is not a TDX quote.
pub open spec fn tdx_status_v3(
    tee_type: u32,
    levels: Seq<TcbLevelV3>,
    platform: SgxExtensions,
    tee_tcb_svn: Seq<u8>,
) -> TcbStatus {
    if tee_type == TDX_TEE_TYPE {
        level_status_v3(levels, first_true_from(reached_v3_tdx(levels, platform, tee_tcb_svn), 0))
    } else {
        TcbStatus::TcbUnrecognized
    }
}

/// Copies a list of advisory ids.
pub fn copy_advisories(ids: &Vec<String>) -> (r: Vec<String>)
    ensures
        r@ == ids@,
{
    let mut out: Vec<String> = Vec::new();
    let mut i: usize = 0;
    while i < ids.len()
        invariant
            i <= ids@.len(),
            out@ == ids@.subrange(0, i as int),
        decreases ids@.len() - i,
    {
        out.push(ids[i].clone());
        i += 1;
        assert(out@ =~= ids@.subrange(0, i as int));
    }
    assert(ids@.subrange(0, ids@.len() as int) =~= ids@);
    out
}

/// Looks up the platform's SGX and TDX statuses in a TCB info of version 3,
/// with the advisories of the level that the quote's TEE type is matched to.
pub fn get_sgx_tdx_fmspc_tcbstatus_v3(
    tee_type: u32,
    sgx_extensions: &SgxExtensions,
    tee_tcb_svn: &[u8; 16],
    tcbinfov3: &TcbInfoV3,
) -> (r: Result<(TcbStatus, TcbStatus, Vec<String>), VerifyError>)
    ensures
        match r {
            Ok((sgx, tdx, advisories)) => {
                &&& platform_identity_error(*sgx_extensions, tcbinfov3.fmspc@, tcbinfov3.pce_id@)
                    is None
                &&& sgx == sgx_status_v3(tcbinfov3.tcb_levels@, *sgx_extensions)
                &&& tdx == tdx_status_v3(
                    tee_type,
                    tcbinfov3.tcb_levels@,
                    *sgx_extensions,
                    tee_tcb_svn@,
                )
                &&& advisories@ == level_advisories_v3(
                    tcbinfov3.tcb_levels@,
                    matched_level_v3(tee_type, tcbinfov3.tcb_levels@, *sgx_extensions, tee_tcb_svn@),
                )
            },
            Err(e) => platform_identity_error(*sgx_extensions, tcbinfov3.fmspc@, tcbinfov3.pce_id@)
                == Some(e),
        },
{
    match check_platform_identity(
        sgx_extensions,
        tcbinfov3.fmspc.as_str(),
        tcbinfov3.pce_id.as_str(),
    ) {
        Err(e) => { return Err(e); },
        Ok(_) => {},
    }
    let levels = &tcbinfov3.tcb_levels;
    let count: usize = levels.len();
    let ghost fs = reached_v3_sgx(levels@, *sgx_extensions);
    let ghost ft = reached_v3_tdx(levels@, *sgx_extensions, tee_tcb_svn@);
    let mut sgx_at: usize = count;
    let mut tdx_at: usize = count;
    let mut i: usize = 0;
    while i < count
        invariant
            i <= count,
            count == levels@.len(),
            levels@ == tcbinfov3.tcb_levels@,
            fs == reached_v3_sgx(levels@, *sgx_extensions),
            ft == reached_v3_tdx(levels@, *sgx_extensions, tee_tcb_svn@),
            sgx_at == count ==> first_true_from(fs, 0) == first_true_from(fs, i as int),
            sgx_at != count ==> sgx_at == first_true_from(fs, 0) && sgx_at < i,
            tdx_at == count ==> first_true_from(ft, 0) == first_true_from(ft, i as int),
            tdx_at != count ==> tdx_at == first_true_from(ft, 0) && tdx_at < i,
        decreases count - i,
    {
        let level = &levels[i];
        let sgx_ok = components_reached(
            &level.sgx_tcb_components,
            &sgx_extensions.sgx_tcb_components,
        ) && level.pcesvn <= sgx_extensions.pcesvn;
        let tdx_ok = match &level.tdx_tcb_components {
            Some(components) => components_reached(components, tee_tcb_svn),
            None => true,
        };
        assert(fs[i as int] == sgx_ok);
        assert(ft[i as int] == (sgx_ok && tdx_ok));
        if sgx_at == count && sgx_ok {
            assert(first_true_from(fs, i as int) == i);
            sgx_at = i;
        }
        if tdx_at == count && sgx_ok && tdx_ok {
            assert(first_true_from(ft, i as int) == i);
            tdx_at = i;
        }
        i += 1;
    }
    assert(first_true_from(fs, count as int) == count);
    assert(first_true_from(ft, count as int) == count);
    let sgx_status = if sgx_at < count {
        TcbStatus::str_to_tcb_status(levels[sgx_at].tcb_status.as_str())
    } else {
        TcbStatus::TcbUnrecognized
    };
    let tdx_status = if tee_type == TDX_TEE_TYPE && tdx_at < count {
        TcbStatus::str_to_tcb_status(levels[tdx_at].tcb_status.as_str())
    } else {
        TcbStatus::TcbUnrecognized
    };
    let advisories = if tee_type == TDX_TEE_TYPE && tdx_at < count {
        copy_advisories(&levels[tdx_at].advisory_ids)
    } else if tee_type == SGX_TEE_TYPE && sgx_at < count {
        copy_advisories(&levels[sgx_at].advisory_ids)
    } else {
        Vec::new()
    };
    Ok((sgx_status, tdx_status, advisories))
}

/// A platform with higher SVNs is never matched further down a version 3
/// document, for either TEE type.
pub proof fn lemma_v3_level_monotonic(
    tee_type: u32,
    levels: Seq<TcbLevelV3>,
    low: SgxExtensions,
    low_tee_tcb_svn: Seq<u8>,
    high: SgxExtensions,
    high_tee_tcb_svn: Seq<u8>,
)
    requires
        svn_reached(low.sgx_tcb_components@, high.sgx_tcb_components@),
        low.pcesvn <= high.pcesvn,
        svn_reached(low_tee_tcb_svn, high_tee_tcb_svn),
    ensures
        matched_level_v3(tee_type, levels, high, high_tee_tcb_svn) <= matched_level_v3(
            tee_type,
            levels,
            low,
            low_tee_tcb_svn,
        ),
{
    let sl = reached_v3_sgx(levels, low);
    let sh = reached_v3_sgx(levels, high);
    let tl = reached_v3_tdx(levels, low, low_tee_tcb_svn);
    let th = reached_v3_tdx(levels, high, high_tee_tcb_svn);
    assert forall|k: int| 0 <= k < sl.len() && sl[k] implies sh[k] by {
        assert(svn_reached(levels[k].sgx_tcb_components@, low.sgx_tcb_components@));
        assert(svn_reached(levels[k].sgx_tcb_components@, high.sgx_tcb_components@));
    }
    assert forall|k: int| 0 <= k < tl.len() && tl[k] implies th[k] by {
        assert(svn_reached(levels[k].sgx_tcb_components@, low.sgx_tcb_components@));
        assert(svn_reached(levels[k].sgx_tcb_components@, high.sgx_tcb_components@));
        match levels[k].tdx_tcb_components {
            Some(components) => {
                assert(svn_reached(components@, low_tee_tcb_svn));
                assert(svn_reached(components@, high_tee_tcb_svn));
            },
            None => {},
        }
    }
    lemma_first_true_monotonic(sl, sh);
    lemma_first_true_monotonic(tl, th);
}

} // verus!
