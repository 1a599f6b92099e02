//! The error kinds that the ledger's operations report. All are recoverable
//! and returned to the caller; no operation is process-fatal.

use vstd::prelude::*;

verus! {

/// Why a ledger operation was refused. Every refusing operation leaves the
/// ledger unchanged: validation happens before any mutation.
#[derive(Clone, Copy, Debug, PartialEq, Eq, Structural)]
pub enum LedgerError {
    /// A transfer of amount zero was submitted.
    InvalidAmount,
    /// The identity being registered is already present in the registry.
    ValidatorAlreadyRegistered,
    /// The initial stake offered at registration is below the registration
    /// threshold.
    InsufficientStake,
    /// Block production was requested for an identity absent from the
    /// registry.
    ValidatorNotRegistered,
    /// Block production was requested for a registered identity whose stake
    /// or contribution score is below the qualification thresholds.
    ValidatorNotQualified,
}

} // verus!
