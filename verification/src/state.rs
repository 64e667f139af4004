//! The parameters of the contract and the record of one recipient, each with
//! its mathematical view and with the condition under which the operations
//! accept it.

use vstd::prelude::*;

use crate::schedule::spec_total_periods;

verus! {

/// The shortest schedule that an allocation can have, in periods.
pub const MIN_TOTAL_PERIODS: u64 = 3;

/// The contract parameters. They are fixed when the contract is created.
#[derive(Clone, Debug, PartialEq, Eq)]
pub struct Config {
    /// Master address who can update tollgate / status of all vestings.
    pub master_address: String,
    /// Address that receives what a halted vesting forfeits.
    pub community_pool_address: String,
    /// Specific vesting denom.
    pub denom: String,
    /// Length of one period, in seconds.
    pub seconds_per_period: u64,
    /// Number of periods that one approved tollgate unlocks.
    pub periods_per_toll: u64,
    /// Start time of this vesting contract, i.e. contract init time.
    pub vesting_start_time: u64,
}

/// A [`Config`] as a mathematical value.
pub struct ConfigView {
    pub master_address: Seq<char>,
    pub community_pool_address: Seq<char>,
    pub denom: Seq<char>,
    pub seconds_per_period: nat,
    pub periods_per_toll: nat,
    pub vesting_start_time: nat,
}

impl ConfigView {
    /// Periods have a length, and one tollgate unlocks no more periods than
    /// the shortest schedule has.
    pub open spec fn wf(self) -> bool {
        &&& self.seconds_per_period > 0
        &&& self.periods_per_toll <= MIN_TOTAL_PERIODS
    }
}

impl View for Config {
    type V = ConfigView;

    open spec fn view(&self) -> ConfigView {
        ConfigView {
            master_address: self.master_address@,
            community_pool_address: self.community_pool_address@,
            denom: self.denom@,
            seconds_per_period: self.seconds_per_period as nat,
            periods_per_toll: self.periods_per_toll as nat,
            vesting_start_time: self.vesting_start_time as nat,
        }
    }
}

impl Config {
    /// Whether `sender` is the master, who alone decides at the tollgates.
    pub fn is_master(&self, sender: &String) -> (yes: bool)
        ensures
            yes == (sender@ == self@.master_address),
    {
        *sender == self.master_address
    }

    /// Whether the parameters are usable: see [`ConfigView::wf`].
    pub fn is_valid(&self) -> (ok: bool)
        ensures
            ok == self@.wf(),
    {
        self.seconds_per_period > 0 && self.periods_per_toll <= MIN_TOTAL_PERIODS
    }
}

/// One allocation: an amount for a recipient.
#[derive(Clone, Debug, PartialEq, Eq)]
pub struct Vesting {
    /// Recipient address of a protocol.
    pub recipient: String,
    /// Vesting amount.
    pub amount: u128,
}

/// The vesting information of each protocol.
#[derive(Debug, PartialEq, Eq)]
pub struct VestingInfo {
    /// Recipient address of a protocol.
    pub recipient: String,
    /// Vesting valid status.
    pub active: bool,
    /// Current approved tollgates, in periods.
    pub approved_periods: u64,
    /// Total vesting periods.
    pub total_periods: u64,
    /// Previously claimed period, start at 0.
    pub last_claimed_period: u64,
    /// Total vesting amount.
    pub total_amount: u128,
    /// Claimed vesting amount.
    pub claimed_amount: u128,
    /// Unclaimed amount.
    pub vested_amount: u128,
    /// Claimable amount for each period.
    pub amount_per_period: u128,
}

/// A [`VestingInfo`] as a mathematical value.
pub struct VestingInfoView {
    pub recipient: Seq<char>,
    pub active: bool,
    pub approved_periods: nat,
    pub total_periods: nat,
    pub last_claimed_period: nat,
    pub total_amount: nat,
    pub claimed_amount: nat,
    pub vested_amount: nat,
    pub amount_per_period: nat,
}

impl VestingInfoView {
    /// What holds of a record from its creation on, whatever was claimed,
    /// approved or disapproved since.
    ///
    /// The schedule is the one derived from the allocation, the periods are
    /// ordered `last_claimed_period <= approved_periods <= total_periods`, and
    /// the amounts follow from the periods: every claimed period was paid in
    /// full; while the vesting is active the rest of the allocation is still
    /// owed, and once it is halted only the unlocked, unclaimed periods are.
    pub open spec fn wf(self) -> bool {
        &&& self.total_periods == spec_total_periods(self.total_amount)
        &&& self.amount_per_period == self.total_amount / self.total_periods
        &&& self.last_claimed_period <= self.approved_periods <= self.total_periods
        &&& self.claimed_amount == self.amount_per_period * self.last_claimed_period
        &&& self.active ==> self.claimed_amount + self.vested_amount == self.total_amount
        &&& !self.active ==> self.vested_amount == self.amount_per_period * (self.approved_periods
            - self.last_claimed_period)
    }
}

impl View for VestingInfo {
    type V = VestingInfoView;

    open spec fn view(&self) -> VestingInfoView {
        VestingInfoView {
            recipient: self.recipient@,
            active: self.active,
            approved_periods: self.approved_periods as nat,
            total_periods: self.total_periods as nat,
            last_claimed_period: self.last_claimed_period as nat,
            total_amount: self.total_amount as nat,
            claimed_amount: self.claimed_amount as nat,
            vested_amount: self.vested_amount as nat,
            amount_per_period: self.amount_per_period as nat,
        }
    }
}

impl Clone for VestingInfo {
    fn clone(&self) -> (copy: Self)
        ensures
            copy == *self,
    {
        VestingInfo {
            recipient: self.recipient.clone(),
            active: self.active,
            approved_periods: self.approved_periods,
            total_periods: self.total_periods,
            last_claimed_period: self.last_claimed_period,
            total_amount: self.total_amount,
            claimed_amount: self.claimed_amount,
            vested_amount: self.vested_amount,
            amount_per_period: self.amount_per_period,
        }
    }
}

} // verus!
