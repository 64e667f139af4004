//! The period accounting on the record of one recipient.
//!
//! Time counts in whole periods since the start of the vesting. At any time
//! the periods that count for a recipient are those that have elapsed, as far
//! as they are unlocked. A claim pays the periods that count and are not paid
//! yet. At a tollgate the next block of periods is unlocked, or the vesting
//! is halted and what is not unlocked is forfeited.
//!
//! [`claim_outcome`] and [`tollgate_outcome`] say what the two operations do,
//! over mathematical values; [`VestingInfo::claim`] and
//! [`VestingInfo::approve_tollgate`] do it.
//!
//! The outcomes divide by the length of a period and multiply the amount of a
//! period by a number of periods. Verus does not work out a quotient or a
//! product of two variables by itself, so a proof about given values states
//! them with literals first, as in `assert(7_776_000int / 2_592_000int == 3)`
//! and `assert(25_000_000_000int * 3int == 75_000_000_000int)`.

use vstd::prelude::*;

use crate::error::ContractError;
use crate::msg::{transfer_view, TransferInstruction, TransferView};
use crate::state::{Config, ConfigView, VestingInfo, VestingInfoView};

verus! {

/// Number of periods over which an allocation of `amount` vests.
pub open spec fn spec_total_periods(amount: nat) -> nat {
    if amount > 300_000_000_000 {
        12
    } else if amount > 150_000_000_000 {
        9
    } else if amount > 75_000_000_000 {
        6
    } else {
        3
    }
}

/// The record of a fresh allocation of `amount` to `recipient`: one tollgate
/// is unlocked, nothing is claimed, everything is owed.
pub open spec fn initial_record(cfg: ConfigView, recipient: Seq<char>, amount: nat)
    -> VestingInfoView {
    VestingInfoView {
        recipient,
        active: true,
        approved_periods: cfg.periods_per_toll,
        total_periods: spec_total_periods(amount),
        last_claimed_period: 0,
        total_amount: amount,
        claimed_amount: 0,
        vested_amount: amount,
        amount_per_period: amount / spec_total_periods(amount),
    }
}

/// Number of whole periods between the start of the vesting and `now`.
pub open spec fn elapsed_periods(cfg: ConfigView, now: nat) -> nat
    recommends
        cfg.wf(),
        cfg.vesting_start_time <= now,
{
    ((now - cfg.vesting_start_time) / (cfg.seconds_per_period as int)) as nat
}

/// Number of periods that count at `now`: those that have elapsed, as far as
/// they are unlocked.
pub open spec fn eligible_periods(cfg: ConfigView, rec: VestingInfoView, now: nat) -> nat {
    if elapsed_periods(cfg, now) < rec.approved_periods {
        elapsed_periods(cfg, now)
    } else {
        rec.approved_periods
    }
}

/// The amount of the periods that count at `now` and are not claimed yet.
/// It is negative where more periods are claimed than count at `now`.
pub open spec fn accrued_amount(cfg: ConfigView, rec: VestingInfoView, now: nat) -> int {
    rec.amount_per_period * (eligible_periods(cfg, rec, now) - rec.last_claimed_period)
}

/// What a claim at `now` does to a record: the record after it and the
/// transfer to the recipient, or the reason why nothing is paid.
pub open spec fn claim_outcome(cfg: ConfigView, rec: VestingInfoView, now: nat) -> Result<
    (VestingInfoView, TransferView),
    ContractError,
> {
    if now < cfg.vesting_start_time {
        Err(ContractError::TimeBeforeVestingStart {  })
    } else if accrued_amount(cfg, rec, now) <= 0 {
        Err(ContractError::NoClaimable {  })
    } else {
        Ok(
            (
                VestingInfoView {
                    claimed_amount: (rec.claimed_amount + accrued_amount(cfg, rec, now)) as nat,
                    vested_amount: (rec.vested_amount - accrued_amount(cfg, rec, now)) as nat,
                    last_claimed_period: eligible_periods(cfg, rec, now),
                    ..rec
                },
                TransferView {
                    destination: rec.recipient,
                    denom: cfg.denom,
                    amount: accrued_amount(cfg, rec, now) as nat,
                },
            ),
        )
    }
}

/// What the decision `approve` at a tollgate does to a record at `now`: the
/// record after it and, for a disapproval, the transfer of the forfeited
/// amount to the community pool; or the reason why no decision is taken.
pub open spec fn tollgate_outcome(cfg: ConfigView, rec: VestingInfoView, approve: bool, now: nat)
    -> Result<(VestingInfoView, Option<TransferView>), ContractError> {
    if !rec.active {
        Err(ContractError::VestingNotActive {  })
    } else if now < cfg.vesting_start_time {
        Err(ContractError::TimeBeforeVestingStart {  })
    } else if rec.approved_periods + cfg.periods_per_toll > rec.total_periods {
        Err(ContractError::NoTollgateRequired {  })
    } else if elapsed_periods(cfg, now) < rec.approved_periods {
        Err(ContractError::NextTollgateTimeNotReached {  })
    } else if approve {
        Ok(
            (
                VestingInfoView {
                    approved_periods: rec.approved_periods + cfg.periods_per_toll,
                    ..rec
                },
                None,
            ),
        )
    } else {
        Ok(
            (
                VestingInfoView {
                    active: false,
                    vested_amount: accrued_amount(cfg, rec, now) as nat,
                    ..rec
                },
                Some(
                    TransferView {
                        destination: cfg.community_pool_address,
                        denom: cfg.denom,
                        amount: (rec.vested_amount - accrued_amount(cfg, rec, now)) as nat,
                    },
                ),
            ),
        )
    }
}

/// Paying a record for `periods` more periods, within its schedule, stays
/// within its allocation.
pub proof fn lemma_accrual_bound(rec: VestingInfoView, periods: nat)
    requires
        rec.wf(),
        rec.last_claimed_period + periods <= rec.total_periods,
    ensures
        rec.claimed_amount + rec.amount_per_period * periods == rec.amount_per_period * (
        rec.last_claimed_period + periods),
        rec.claimed_amount + rec.amount_per_period * periods <= rec.total_amount,
        rec.amount_per_period * rec.total_periods <= rec.total_amount,
{
    let a = rec.amount_per_period as int;
    let t = rec.total_periods as int;
    let l = rec.last_claimed_period as int;
    let k = periods as int;
    let x = rec.total_amount as int;
    assert((x / t) * t <= x) by (nonlinear_arith)
        requires
            0 <= x,
            0 < t,
    ;
    assert(a * l + a * k == a * (l + k)) by (nonlinear_arith);
    assert(a * (l + k) <= a * t) by (nonlinear_arith)
        requires
            0 <= a,
            l + k <= t,
    ;
}

/// The accrued amount is that of the periods that newly count: nothing
/// where none does or where a period pays nothing, and never more than the
/// record still owes.
pub proof fn lemma_accrued_amount(cfg: ConfigView, rec: VestingInfoView, now: nat)
    requires
        rec.wf(),
    ensures
        accrued_amount(cfg, rec, now) <= rec.vested_amount,
        rec.claimed_amount + accrued_amount(cfg, rec, now) <= rec.total_amount,
        rec.claimed_amount + accrued_amount(cfg, rec, now) == rec.amount_per_period
            * eligible_periods(cfg, rec, now),
        accrued_amount(cfg, rec, now) > 0 <==> rec.amount_per_period > 0 && eligible_periods(
            cfg,
            rec,
            now,
        ) > rec.last_claimed_period,
        !rec.active ==> rec.vested_amount - accrued_amount(cfg, rec, now) == rec.amount_per_period
            * (rec.approved_periods - eligible_periods(cfg, rec, now)),
{
    let a = rec.amount_per_period as int;
    let l = rec.last_claimed_period as int;
    let e = eligible_periods(cfg, rec, now) as int;
    let u = rec.approved_periods as int;
    assert(a * l + a * (e - l) == a * e) by (nonlinear_arith);
    assert(a * (u - l) - a * (e - l) == a * (u - e)) by (nonlinear_arith);
    assert(0 <= a * (u - e)) by (nonlinear_arith)
        requires
            0 <= a,
            e <= u,
    ;
    assert(a * (e - l) > 0 <==> a > 0 && e > l) by (nonlinear_arith)
        requires
            0 <= a,
    ;
    if e >= l {
        lemma_accrual_bound(rec, (e - l) as nat);
    } else {
        lemma_accrual_bound(rec, 0);
        assert(a * (e - l) <= 0) by (nonlinear_arith)
            requires
                0 <= a,
                e < l,
        ;
    }
}

/// A claim leaves a record as the operations can have produced it, and
/// pays a positive amount that the record owed.
pub proof fn lemma_claim_outcome(cfg: ConfigView, rec: VestingInfoView, now: nat)
    requires
        rec.wf(),
    ensures
        match claim_outcome(cfg, rec, now) {
            Ok((after, transfer)) => {
                &&& after.wf()
                &&& 0 < transfer.amount <= rec.vested_amount
                &&& after.claimed_amount == rec.claimed_amount + transfer.amount
                &&& after.vested_amount == rec.vested_amount - transfer.amount
                &&& after.claimed_amount <= rec.total_amount
            },
            Err(_) => true,
        },
{
    lemma_accrued_amount(cfg, rec, now);
}

/// A decision at a tollgate leaves a record as the operations can have
/// produced it, and a disapproval splits what the record owed between the
/// recipient and the community pool.
pub proof fn lemma_tollgate_outcome(
    cfg: ConfigView,
    rec: VestingInfoView,
    approve: bool,
    now: nat,
)
    requires
        rec.wf(),
    ensures
        match tollgate_outcome(cfg, rec, approve, now) {
            Ok((after, transfer)) => {
                &&& after.wf()
                &&& eligible_periods(cfg, rec, now) == rec.approved_periods
                &&& approve ==> transfer is None
                &&& !approve ==> transfer is Some && after.vested_amount + transfer->Some_0.amount
                    == rec.vested_amount
            },
            Err(_) => true,
        },
{
    lemma_accrued_amount(cfg, rec, now);
}

/// Derives the length of a vesting schedule from the allocated amount. The
/// length depends on the amount alone: the same amount always has the same
/// schedule.
pub fn total_periods_for(amount: u128) -> (periods: u64)
    ensures
        periods == spec_total_periods(amount as nat),
{
    if amount > 300_000_000_000u128 {
        12u64
    } else if amount > 150_000_000_000u128 {
        9u64
    } else if amount > 75_000_000_000u128 {
        6u64
    } else {
        3u64
    }
}

/// Counts the whole periods between the start of the vesting and `now`.
/// A time before the start is refused.
pub fn periods_elapsed(config: &Config, now: u64) -> (res: Result<u64, ContractError>)
    requires
        config@.wf(),
    ensures
        match res {
            Ok(periods) => config.vesting_start_time <= now && periods == elapsed_periods(
                config@,
                now as nat,
            ),
            Err(e) => now < config.vesting_start_time && e
                == (ContractError::TimeBeforeVestingStart {  }),
        },
{
    if now < config.vesting_start_time {
        Err(ContractError::TimeBeforeVestingStart {  })
    } else {
        Ok((now - config.vesting_start_time) / config.seconds_per_period)
    }
}

impl VestingInfo {
    /// Opens the record of an allocation of `amount` to `recipient`.
    pub fn new(config: &Config, recipient: String, amount: u128) -> (rec: VestingInfo)
        requires
            config@.wf(),
        ensures
            rec@ == initial_record(config@, recipient@, amount as nat),
            rec@.wf(),
    {
        let total_periods: u64 = total_periods_for(amount);
        let rec = VestingInfo {
            recipient,
            active: true,
            approved_periods: config.periods_per_toll,
            total_periods,
            last_claimed_period: 0u64,
            total_amount: amount,
            claimed_amount: 0u128,
            vested_amount: amount,
            amount_per_period: amount / (total_periods as u128),
        };
        assert(rec@.amount_per_period * 0 == 0) by (nonlinear_arith);
        rec
    }

    /// Pays out what has accrued at `now` and is not claimed yet: the
    /// periods that have elapsed, as far as they are unlocked. A halted
    /// vesting still pays what was unlocked when it was halted.
    pub fn claim(&mut self, config: &Config, now: u64) -> (res: Result<
        TransferInstruction,
        ContractError,
    >)
        requires
            old(self)@.wf(),
            config@.wf(),
        ensures
            final(self)@.wf(),
            match claim_outcome(config@, old(self)@, now as nat) {
                Ok((rec, transfer)) => res is Ok && res->Ok_0@ == transfer && final(self)@ == rec,
                Err(e) => res == Err::<TransferInstruction, ContractError>(e) && *final(self)
                    == *old(self),
            },
    {
        let elapsed: u64 = match periods_elapsed(config, now) {
            Ok(n) => n,
            Err(e) => {
                return Err(e);
            },
        };
        let eligible: u64 = if elapsed < self.approved_periods {
            elapsed
        } else {
            self.approved_periods
        };
        proof {
            lemma_accrued_amount(config@, self@, now as nat);
        }
        if eligible <= self.last_claimed_period {
            return Err(ContractError::NoClaimable {  });
        }
        let periods: u64 = eligible - self.last_claimed_period;
        let amount: u128 = self.amount_per_period * (periods as u128);
        if amount == 0 {
            return Err(ContractError::NoClaimable {  });
        }
        self.claimed_amount = self.claimed_amount + amount;
        self.vested_amount = self.vested_amount - amount;
        self.last_claimed_period = eligible;
        Ok(
            TransferInstruction {
                destination: self.recipient.clone(),
                denom: config.denom.clone(),
                amount,
            },
        )
    }

    /// Decides the tollgate that is due at `now`. An approval unlocks the
    /// next `periods_per_toll` periods. A disapproval halts the vesting for
    /// good: the recipient keeps what the unlocked periods still owe, and the
    /// rest of the allocation is handed to the community pool.
    pub fn approve_tollgate(&mut self, config: &Config, approve: bool, now: u64) -> (res: Result<
        Option<TransferInstruction>,
        ContractError,
    >)
        requires
            old(self)@.wf(),
            config@.wf(),
        ensures
            final(self)@.wf(),
            match tollgate_outcome(config@, old(self)@, approve, now as nat) {
                Ok((rec, transfer)) => {
                    &&& res is Ok
                    &&& transfer_view(res->Ok_0) == transfer
                    &&& final(self)@ == rec
                },
                Err(e) => {
                    &&& res == Err::<Option<TransferInstruction>, ContractError>(e)
                    &&& *final(self) == *old(self)
                },
            },
    {
        if !self.active {
            return Err(ContractError::VestingNotActive {  });
        }
        let elapsed: u64 = match periods_elapsed(config, now) {
            Ok(n) => n,
            Err(e) => {
                return Err(e);
            },
        };
        if self.approved_periods + config.periods_per_toll > self.total_periods {
            return Err(ContractError::NoTollgateRequired {  });
        } else if self.approved_periods > elapsed {
            return Err(ContractError::NextTollgateTimeNotReached {  });
        }
        if approve {
            self.approved_periods = self.approved_periods + config.periods_per_toll;
            Ok(None)
        } else {
            let periods: u64 = self.approved_periods - self.last_claimed_period;
            proof {
                lemma_accrued_amount(config@, self@, now as nat);
            }
            let entitled: u128 = self.amount_per_period * (periods as u128);
            let forfeited: u128 = self.vested_amount - entitled;
            self.active = false;
            self.vested_amount = entitled;
            Ok(
                Some(
                    TransferInstruction {
                        destination: config.community_pool_address.clone(),
                        denom: config.denom.clone(),
                        amount: forfeited,
                    },
                ),
            )
        }
    }

    /// Whether the record is one that the operations can have produced: see
    /// [`VestingInfoView::wf`].
    pub fn is_valid(&self) -> (ok: bool)
        ensures
            ok == self@.wf(),
    {
        if self.total_periods != total_periods_for(self.total_amount) {
            return false;
        }
        if self.amount_per_period != self.total_amount / (self.total_periods as u128) {
            return false;
        }
        if self.last_claimed_period > self.approved_periods || self.approved_periods
            > self.total_periods {
            return false;
        }
        proof {
            let a = self@.amount_per_period as int;
            let x = self@.total_amount as int;
            let t = self@.total_periods as int;
            let l = self@.last_claimed_period as int;
            let u = self.approved_periods - self.last_claimed_period;
            assert((x / t) * t <= x) by (nonlinear_arith)
                requires
                    0 <= x,
                    0 < t,
            ;
            assert(0 <= a * l <= a * t && 0 <= a * u <= a * t) by (nonlinear_arith)
                requires
                    0 <= a,
                    0 <= l <= t,
                    0 <= u <= t,
            ;
        }
        let paid: u128 = self.amount_per_period * (self.last_claimed_period as u128);
        if self.claimed_amount != paid {
            return false;
        }
        if self.active {
            self.vested_amount == self.total_amount - self.claimed_amount
        } else {
            self.vested_amount == self.amount_per_period * ((self.approved_periods
                - self.last_claimed_period) as u128)
        }
    }
}

} // verus!
