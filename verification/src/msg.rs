//! The messages that the contract takes, what comes with them, and what it
//! hands back: a summary of a creation, and the transfers that the host is to
//! perform.

use vstd::prelude::*;

use crate::state::Vesting;

verus! {

/// The settings for creating a new vesting contract.
#[derive(Clone, Debug, PartialEq, Eq)]
pub struct InstantiateMsg {
    /// Master address who can update tollgate / status of all vestings;
    /// the sender of the message where none is given.
    pub master_address: Option<String>,
    /// Address that receives what a halted vesting forfeits.
    pub community_pool_address: String,
    /// Specific vesting denom.
    pub denom: String,
    /// A list of vestings.
    pub vestings: Vec<Vesting>,
}

/// The execute messages of the contract.
#[derive(Clone, Debug, PartialEq, Eq)]
pub enum ExecuteMsg {
    /// Master callable: either unlocks the next tollgate of a vesting or
    /// halts the vesting.
    ApproveTollgate {
        /// Recipient address of a protocol.
        recipient: String,
        /// New vesting status.
        approve: bool,
    },
    /// User callable: claims the unlocked vesting of the sender.
    Claim {},
}

/// The query messages of the contract.
#[derive(Clone, Debug, PartialEq, Eq)]
pub enum QueryMsg {
    /// Returns the vesting information of the specified recipient.
    VestingInfo {
        /// Recipient address of a protocol.
        recipient: String,
    },
}

/// The migrate message of the contract. Migrations take no arguments.
#[derive(Clone, Debug, PartialEq, Eq)]
pub struct MigrateMsg {}

/// An amount of one denom.
#[derive(Clone, Debug, PartialEq, Eq)]
pub struct Coin {
    pub denom: String,
    pub amount: u128,
}

/// Who sent a message, and the funds that came with it.
#[derive(Clone, Debug, PartialEq, Eq)]
pub struct MessageInfo {
    pub sender: String,
    pub funds: Vec<Coin>,
}

/// What a successful instantiation reports.
#[derive(Clone, Debug, PartialEq, Eq)]
pub struct InitSummary {
    /// The address that decides at the tollgates.
    pub master_address: String,
    /// The time at which period 0 begins.
    pub vesting_start_time: u64,
}

/// A transfer that the host is to perform. The contract only decides it.
#[derive(Clone, Debug, PartialEq, Eq)]
pub struct TransferInstruction {
    pub destination: String,
    pub denom: String,
    pub amount: u128,
}

/// A [`TransferInstruction`] as a mathematical value.
pub struct TransferView {
    pub destination: Seq<char>,
    pub denom: Seq<char>,
    pub amount: nat,
}

impl View for TransferInstruction {
    type V = TransferView;

    open spec fn view(&self) -> TransferView {
        TransferView {
            destination: self.destination@,
            denom: self.denom@,
            amount: self.amount as nat,
        }
    }
}

/// The transfer that an operation hands back, if any, as a mathematical value.
pub open spec fn transfer_view(transfer: Option<TransferInstruction>) -> Option<TransferView> {
    match transfer {
        Some(t) => Some(t@),
        None => None,
    }
}

} // verus!
