//! The failures of the contract.

use vstd::prelude::*;

verus! {

/// Why an operation of the contract was refused. A refused operation leaves
/// the state as it was.
#[derive(Clone, Copy, Debug, PartialEq, Eq)]
pub enum ContractError {
    /// There is no vesting for the recipient.
    NotFound {},
    /// The time of the call lies before the start of the vesting.
    TimeBeforeVestingStart {},
    /// Only the master may approve or disapprove a tollgate.
    Unauthorized {},
    /// The funds sent are not a single coin of the vesting denom.
    MismatchedAssetType {},
    /// The funds sent differ from the sum of the allocations.
    MismatchedAssetAmount {},
    /// A recipient is allocated twice.
    DuplicatedRecipient {},
    /// No amount has accrued since the last claim.
    NoClaimable {},
    /// The vesting was halted at an earlier tollgate.
    VestingNotActive {},
    /// Every period of the schedule is unlocked already.
    NoTollgateRequired {},
    /// The periods unlocked so far have not all elapsed.
    NextTollgateTimeNotReached {},
}

} // verus!
