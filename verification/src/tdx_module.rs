//! The identity and status of the TDX module that a trust domain runs on.

use vstd::prelude::*;
use crate::error::VerifyError;
use crate::status::TcbStatus;
use crate::scan::{first_true_from, lemma_first_true_monotonic};
use crate::tcbinfo::{TcbInfoV3, TdxModuleIdentity, TdxModuleTcbLevel};

verus! {

/// For each module identity, whether it is that of the given major version.
pub open spec fn version_flags(identities: Seq<TdxModuleIdentity>, version: u8) -> Seq<bool> {
    Seq::new(identities.len(), |i: int| identities[i].version == version)
}

/// For each level of a module identity, whether the module's SVN reaches it.
pub open spec fn module_level_flags(levels: Seq<TdxModuleTcbLevel>, isv_svn: u8) -> Seq<bool> {
    Seq::new(levels.len(), |i: int| levels[i].isvsvn <= isv_svn)
}

/// The status of the module by the levels of its identity: that of the
/// first level that its SVN reaches; unrecognized where it reaches none.
pub open spec fn module_level_status(levels: Seq<TdxModuleTcbLevel>, isv_svn: u8) -> TcbStatus {
    let at = first_true_from(module_level_flags(levels, isv_svn), 0);
    if at < levels.len() {
        TcbStatus::of_text(levels[at].tcb_status@)
    } else {
        TcbStatus::TcbUnrecognized
    }
}

/// A module with a higher SVN is never matched further down the levels
/// of its identity.
pub proof fn lemma_module_level_monotonic(levels: Seq<TdxModuleTcbLevel>, low: u8, high: u8)
    requires
        low <= high,
    ensures
        first_true_from(module_level_flags(levels, high), 0) <= first_true_from(
            module_level_flags(levels, low),
            0,
        ),
{
    lemma_first_true_monotonic(module_level_flags(levels, low), module_level_flags(levels, high));
}

/// The major version of the TDX module: the second byte of the SVN vector.
pub open spec fn module_version(tee_tcb_svn: Seq<u8>) -> u8 {
    tee_tcb_svn[1]
}

/// The index of the identity of the module's major version.
pub open spec fn module_identity_index(tee_tcb_svn: Seq<u8>, info: TcbInfoV3) -> int {
    first_true_from(version_flags(info.tdx_module_identities@, module_version(tee_tcb_svn)), 0)
}

/// Why the document names no TDX module for the SVN vector, or `None`
/// where it names one: the document must describe the module, and for a
/// major version other than 0 hold an identity of that version.
pub open spec fn tdx_module_error(tee_tcb_svn: Seq<u8>, info: TcbInfoV3) -> Option<VerifyError> {
    if info.tdx_module is None {
        Some(VerifyError::TdxModuleUnknown)
    } else if module_version(tee_tcb_svn) != 0 && module_identity_index(tee_tcb_svn, info)
        >= info.tdx_module_identities@.len() {
        Some(VerifyError::TdxModuleUnknown)
    } else {
        None
    }
}

/// The module's status: `OK` for major version 0, else the status by the
/// levels of the identity of its version, looked up by the first byte of
/// the SVN vector.
pub open spec fn tdx_module_status(tee_tcb_svn: Seq<u8>, info: TcbInfoV3) -> TcbStatus {
    if module_version(tee_tcb_svn) == 0 {
        TcbStatus::OK
    } else {
        module_level_status(
            info.tdx_module_identities@[module_identity_index(tee_tcb_svn, info)].tcb_levels@,
            tee_tcb_svn[0],
        )
    }
}

/// The signer that the document expects of the module.
pub open spec fn tdx_module_mrsigner(tee_tcb_svn: Seq<u8>, info: TcbInfoV3) -> Seq<u8> {
    if module_version(tee_tcb_svn) == 0 {
        info.tdx_module.unwrap().mrsigner@
    } else {
        info.tdx_module_identities@[module_identity_index(tee_tcb_svn, info)].mrsigner@
    }
}

/// The attributes that the document expects of the module.
pub open spec fn tdx_module_attributes(tee_tcb_svn: Seq<u8>, info: TcbInfoV3) -> u64 {
    if module_version(tee_tcb_svn) == 0 {
        info.tdx_module.unwrap().attributes
    } else {
        info.tdx_module_identities@[module_identity_index(tee_tcb_svn, info)].attributes
    }
}

/// Looks up the status of a module in the levels of its identity.
pub fn get_module_level_status(levels: &Vec<TdxModuleTcbLevel>, isv_svn: u8) -> (r: TcbStatus)
    ensures
        r == module_level_status(levels@, isv_svn),
{
    let ghost flags = module_level_flags(levels@, isv_svn);
    let mut i: usize = 0;
    while i < levels.len()
        invariant
            i <= levels@.len(),
            flags == module_level_flags(levels@, isv_svn),
            first_true_from(flags, 0) == first_true_from(flags, i as int),
        decreases levels@.len() - i,
    {
        if levels[i].isvsvn <= isv_svn {
            assert(first_true_from(flags, i as int) == i);
            return TcbStatus::str_to_tcb_status(levels[i].tcb_status.as_str());
        }
        assert(!flags[i as int]);
        i += 1;
    }
    assert(first_true_from(flags, i as int) == flags.len());
    TcbStatus::TcbUnrecognized
}

/// Derives the status, signer and attributes of the TDX module from the
/// SVN vector of a trust domain report and a TCB info of version 3.
pub fn get_tdx_module_identity_and_tcb(tee_tcb_svn: &[u8; 16], tcb_info_v3: &TcbInfoV3) -> (r:
    Result<(TcbStatus, [u8; 48], u64), VerifyError>)
    ensures
        match r {
            Ok((status, mrsigner, attributes)) => {
                &&& tdx_module_error(tee_tcb_svn@, *tcb_info_v3) is None
                &&& status == tdx_module_status(tee_tcb_svn@, *tcb_info_v3)
                &&& mrsigner@ == tdx_module_mrsigner(tee_tcb_svn@, *tcb_info_v3)
                &&& attributes == tdx_module_attributes(tee_tcb_svn@, *tcb_info_v3)
            },
            Err(e) => tdx_module_error(tee_tcb_svn@, *tcb_info_v3) == Some(e),
        },
{
    let module = match &tcb_info_v3.tdx_module {
        Some(m) => m,
        None => { return Err(VerifyError::TdxModuleUnknown); },
    };
    let isv_svn: u8 = tee_tcb_svn[0];
    let version: u8 = tee_tcb_svn[1];
    if version == 0 {
        return Ok((TcbStatus::OK, module.mrsigner, module.attributes));
    }
    let identities = &tcb_info_v3.tdx_module_identities;
    let ghost flags = version_flags(identities@, version);
    let mut i: usize = 0;
    while i < identities.len()
        invariant
            i <= identities@.len(),
            identities@ == tcb_info_v3.tdx_module_identities@,
            tcb_info_v3.tdx_module is Some,
            version == module_version(tee_tcb_svn@),
            version != 0,
            isv_svn == tee_tcb_svn@[0],
            flags == version_flags(identities@, version),
            first_true_from(flags, 0) == first_true_from(flags, i as int),
        decreases identities@.len() - i,
    {
        if identities[i].version == version {
            assert(first_true_from(flags, i as int) == i);
            let status = get_module_level_status(&identities[i].tcb_levels, isv_svn);
            return Ok((status, identities[i].mrsigner, identities[i].attributes));
        }
        assert(!flags[i as int]);
        i += 1;
    }
    assert(first_true_from(flags, i as int) == flags.len());
    Err(VerifyError::TdxModuleUnknown)
}

} // verus!
