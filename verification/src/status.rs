//! The trust classification of a platform and how several of them become one.

use vstd::prelude::*;

verus! {

/// How far the trusted computing base of a platform or enclave can be trusted.
#[derive(Clone, Copy, Debug, PartialEq, Eq, Structural)]
pub enum TcbStatus {
    OK,
    TcbSwHardeningNeeded,
    TcbConfigurationAndSwHardeningNeeded,
    TcbConfigurationNeeded,
    TcbOutOfDate,
    TcbOutOfDateConfigurationNeeded,
    TcbRevoked,
    TcbUnrecognized,
}

/// Whether two texts hold the same characters.
pub fn text_equals(a: &str, b: &str) -> (r: bool)
    ensures
        r == (a@ == b@),
{
    let x: String = a.to_owned();
    let y: String = b.to_owned();
    x == y
}

impl TcbStatus {
    /// The status that a status text of a collateral document names; a text
    /// that names none is unrecognized.
    pub open spec fn of_text(s: Seq<char>) -> TcbStatus {
        if s == "UpToDate"@ {
            TcbStatus::OK
        } else if s == "SWHardeningNeeded"@ {
            TcbStatus::TcbSwHardeningNeeded
        } else if s == "ConfigurationAndSWHardeningNeeded"@ {
            TcbStatus::TcbConfigurationAndSwHardeningNeeded
        } else if s == "ConfigurationNeeded"@ {
            TcbStatus::TcbConfigurationNeeded
        } else if s == "OutOfDate"@ {
            TcbStatus::TcbOutOfDate
        } else if s == "OutOfDateConfigurationNeeded"@ {
            TcbStatus::TcbOutOfDateConfigurationNeeded
        } else if s == "Revoked"@ {
            TcbStatus::TcbRevoked
        } else {
            TcbStatus::TcbUnrecognized
        }
    }

    /// Maps a status text of a collateral document to a status.
    pub fn str_to_tcb_status(s: &str) -> (r: TcbStatus)
        ensures
            r == TcbStatus::of_text(s@),
    {
        if text_equals(s, "UpToDate") {
            TcbStatus::OK
        } else if text_equals(s, "SWHardeningNeeded") {
            TcbStatus::TcbSwHardeningNeeded
        } else if text_equals(s, "ConfigurationAndSWHardeningNeeded") {
            TcbStatus::TcbConfigurationAndSwHardeningNeeded
        } else if text_equals(s, "ConfigurationNeeded") {
            TcbStatus::TcbConfigurationNeeded
        } else if text_equals(s, "OutOfDate") {
            TcbStatus::TcbOutOfDate
        } else if text_equals(s, "OutOfDateConfigurationNeeded") {
            TcbStatus::TcbOutOfDateConfigurationNeeded
        } else if text_equals(s, "Revoked") {
            TcbStatus::TcbRevoked
        } else {
            TcbStatus::TcbUnrecognized
        }
    }

    /// The place of a status in the order of convergence, from most to
    /// least trusted; a revocation stands above everything else.
    pub open spec fn severity(self) -> nat {
        match self {
            TcbStatus::OK => 0,
            TcbStatus::TcbSwHardeningNeeded => 1,
            TcbStatus::TcbConfigurationNeeded => 2,
            TcbStatus::TcbConfigurationAndSwHardeningNeeded => 3,
            TcbStatus::TcbOutOfDate => 4,
            TcbStatus::TcbOutOfDateConfigurationNeeded => 5,
            TcbStatus::TcbUnrecognized => 6,
            TcbStatus::TcbRevoked => 7,
        }
    }

    /// The place of a status in the order of convergence.
    pub fn severity_rank(self) -> (r: u8)
        ensures
            r == self.severity(),
    {
        match self {
            TcbStatus::OK => 0,
            TcbStatus::TcbSwHardeningNeeded => 1,
            TcbStatus::TcbConfigurationNeeded => 2,
            TcbStatus::TcbConfigurationAndSwHardeningNeeded => 3,
            TcbStatus::TcbOutOfDate => 4,
            TcbStatus::TcbOutOfDateConfigurationNeeded => 5,
            TcbStatus::TcbUnrecognized => 6,
            TcbStatus::TcbRevoked => 7,
        }
    }
}

/// The one status that two statuses converge to: a revocation if either is
/// one, else the less trusted of the two.
pub open spec fn combine(a: TcbStatus, b: TcbStatus) -> TcbStatus {
    if a.severity() >= b.severity() {
        a
    } else {
        b
    }
}

/// Converges two statuses into one.
pub fn converge_tcb_status(a: TcbStatus, b: TcbStatus) -> (r: TcbStatus)
    ensures
        r == combine(a, b),
{
    if a.severity_rank() >= b.severity_rank() {
        a
    } else {
        b
    }
}

/// Converges a platform status with the status of the TDX module.
pub fn converge_tcb_status_with_tdx_module_tcb(
    tcb_status: TcbStatus,
    tdx_module_tcb_status: TcbStatus,
) -> (r: TcbStatus)
    ensures
        r == combine(tcb_status, tdx_module_tcb_status),
{
    converge_tcb_status(tcb_status, tdx_module_tcb_status)
}

/// Converges a platform status with the status of the quoting enclave.
pub fn converge_tcb_status_with_qe_tcb(tcb_status: TcbStatus, qe_tcb_status: TcbStatus) -> (r:
    TcbStatus)
    ensures
        r == combine(tcb_status, qe_tcb_status),
{
    converge_tcb_status(tcb_status, qe_tcb_status)
}

/// Convergence does not depend on the order of its arguments.
pub proof fn lemma_combine_commutative(a: TcbStatus, b: TcbStatus)
    ensures
        combine(a, b) == combine(b, a),
{
}

/// Convergence does not depend on how three statuses are grouped.
pub proof fn lemma_combine_associative(a: TcbStatus, b: TcbStatus, c: TcbStatus)
    ensures
        combine(combine(a, b), c) == combine(a, combine(b, c)),
{
}

/// Converging three statuses gives the same status whichever two are
/// taken first.
pub proof fn lemma_combine_any_order(a: TcbStatus, b: TcbStatus, c: TcbStatus)
    ensures
        combine(combine(a, b), c) == combine(combine(a, c), b),
{
}

/// A revocation on either side makes the converged status a revocation.
pub proof fn lemma_revoked_dominates(a: TcbStatus)
    ensures
        combine(TcbStatus::TcbRevoked, a) == TcbStatus::TcbRevoked,
        combine(a, TcbStatus::TcbRevoked) == TcbStatus::TcbRevoked,
{
}

/// Without a revocation, the converged status is one of the two and at
/// least as severe as each; a status converged with itself stays.
pub proof fn lemma_combine_is_least_trusted(a: TcbStatus, b: TcbStatus)
    ensures
        combine(a, b) == a || combine(a, b) == b,
        combine(a, b).severity() >= a.severity(),
        combine(a, b).severity() >= b.severity(),
        combine(a, a) == a,
{
}

} // verus!
