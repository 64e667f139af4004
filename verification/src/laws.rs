//! What holds of the contract over every run of its operations.
//!
//! A run is a sequence of operations, each of which is applied if it is
//! accepted and skipped if it is refused. [`run`] follows one record,
//! [`after_calls`] the whole state.

use vstd::prelude::*;

use crate::contract::{
    allocates, allocation_of, execute_outcome, instantiate_outcome, try_claim_outcome,
};
use crate::error::ContractError;
use crate::msg::{ExecuteMsg, InstantiateMsg, MessageInfo, TransferView};
use crate::schedule::{
    accrued_amount, claim_outcome, elapsed_periods, eligible_periods, initial_record,
    lemma_accrual_bound, lemma_accrued_amount, lemma_claim_outcome, lemma_tollgate_outcome,
    spec_total_periods, tollgate_outcome,
};
use crate::state::{ConfigView, VestingInfoView};
use crate::store::StoreView;

verus! {

/// An operation on the record of one recipient.
pub enum Operation {
    /// The recipient claims at `now`.
    Claim { now: nat },
    /// The master decides the tollgate at `now`.
    ApproveTollgate { approve: bool, now: nat },
}

/// The record after `op`. A refused operation leaves the record as it was.
pub open spec fn apply(cfg: ConfigView, rec: VestingInfoView, op: Operation) -> VestingInfoView {
    match op {
        Operation::Claim { now } => match claim_outcome(cfg, rec, now) {
            Ok((after, _)) => after,
            Err(_) => rec,
        },
        Operation::ApproveTollgate { approve, now } => match tollgate_outcome(
            cfg,
            rec,
            approve,
            now,
        ) {
            Ok((after, _)) => after,
            Err(_) => rec,
        },
    }
}

/// The record after the operations `ops`, applied in their order.
pub open spec fn run(cfg: ConfigView, rec: VestingInfoView, ops: Seq<Operation>)
    -> VestingInfoView
    decreases ops.len(),
{
    if ops.len() == 0 {
        rec
    } else {
        apply(cfg, run(cfg, rec, ops.drop_last()), ops.last())
    }
}

/// Whether nothing that only grows has shrunk from `before` to `after`, and
/// nothing that is fixed has changed.
pub open spec fn advances(before: VestingInfoView, after: VestingInfoView) -> bool {
    &&& after.recipient == before.recipient
    &&& after.total_amount == before.total_amount
    &&& after.total_periods == before.total_periods
    &&& after.amount_per_period == before.amount_per_period
    &&& after.approved_periods >= before.approved_periods
    &&& after.last_claimed_period >= before.last_claimed_period
    &&& after.claimed_amount >= before.claimed_amount
    &&& !before.active ==> !after.active && after.approved_periods == before.approved_periods
}

/// Tier derivation: the schedule of an allocation has 3, 6, 9 or 12
/// periods, by the size of the allocation alone: 12 above 300_000_000_000,
/// 9 above 150_000_000_000, 6 above 75_000_000_000, and 3 otherwise.
pub proof fn law_tier_derivation(amount: nat)
    ensures
        spec_total_periods(amount) == 12 <==> amount > 300_000_000_000,
        spec_total_periods(amount) == 9 <==> 150_000_000_000 < amount <= 300_000_000_000,
        spec_total_periods(amount) == 6 <==> 75_000_000_000 < amount <= 150_000_000_000,
        spec_total_periods(amount) == 3 <==> amount <= 75_000_000_000,
        spec_total_periods(amount) == 3 || spec_total_periods(amount) == 6 || spec_total_periods(
            amount,
        ) == 9 || spec_total_periods(amount) == 12,
{
}

/// A larger allocation never has a shorter schedule.
pub proof fn law_tier_grows(amount: nat, larger: nat)
    requires
        amount <= larger,
    ensures
        spec_total_periods(amount) <= spec_total_periods(larger),
{
}

/// A fresh record is one that the operations accept, whatever is allocated.
pub proof fn law_initial_record(cfg: ConfigView, recipient: Seq<char>, amount: nat)
    requires
        cfg.wf(),
    ensures
        initial_record(cfg, recipient, amount).wf(),
{
    let rec = initial_record(cfg, recipient, amount);
    assert(rec.amount_per_period * 0 == 0) by (nonlinear_arith);
}

/// One operation, accepted or refused, keeps a record as the operations can
/// have produced it, and never takes back a period or an amount.
pub proof fn law_step(cfg: ConfigView, rec: VestingInfoView, op: Operation)
    requires
        rec.wf(),
    ensures
        apply(cfg, rec, op).wf(),
        advances(rec, apply(cfg, rec, op)),
{
    match op {
        Operation::Claim { now } => {
            lemma_claim_outcome(cfg, rec, now);
            lemma_accrued_amount(cfg, rec, now);
        },
        Operation::ApproveTollgate { approve, now } => {
            lemma_tollgate_outcome(cfg, rec, approve, now);
        },
    }
}

/// Monotonicity: over any sequence of operations the unlocked periods, the
/// last claimed period and the claimed amount never decrease, a halted
/// vesting stays halted, and the allocation and its schedule stay as they
/// are.
pub proof fn law_monotonic(cfg: ConfigView, rec: VestingInfoView, ops: Seq<Operation>)
    requires
        rec.wf(),
    ensures
        run(cfg, rec, ops).wf(),
        advances(rec, run(cfg, rec, ops)),
    decreases ops.len(),
{
    if ops.len() > 0 {
        law_monotonic(cfg, rec, ops.drop_last());
        law_step(cfg, run(cfg, rec, ops.drop_last()), ops.last());
    }
}

/// What a record that the operations accept never breaks: the periods are
/// ordered, the periods together pay no more than the allocation, nothing is
/// owed beyond the allocation, and while the vesting is active what was
/// claimed and what is still owed add up to the allocation.
pub proof fn law_record_invariants(rec: VestingInfoView)
    requires
        rec.wf(),
    ensures
        rec.active ==> rec.claimed_amount + rec.vested_amount == rec.total_amount,
        rec.claimed_amount + rec.vested_amount <= rec.total_amount,
        rec.last_claimed_period <= rec.approved_periods <= rec.total_periods,
        rec.amount_per_period * rec.total_periods <= rec.total_amount,
{
    lemma_accrual_bound(rec, (rec.approved_periods - rec.last_claimed_period) as nat);
}

/// Conservation: in every state that a record reaches from its creation,
/// while the vesting is active, what was claimed and what is still owed add
/// up to the allocation; and the other invariants of a record hold too.
pub proof fn law_conservation(
    cfg: ConfigView,
    recipient: Seq<char>,
    amount: nat,
    ops: Seq<Operation>,
)
    requires
        cfg.wf(),
    ensures
        ({
            let rec = run(cfg, initial_record(cfg, recipient, amount), ops);
            &&& rec.total_amount == amount
            &&& rec.active ==> rec.claimed_amount + rec.vested_amount == amount
            &&& rec.claimed_amount + rec.vested_amount <= amount
            &&& rec.last_claimed_period <= rec.approved_periods <= rec.total_periods
            &&& rec.amount_per_period * rec.total_periods <= amount
        }),
{
    let first = initial_record(cfg, recipient, amount);
    law_initial_record(cfg, recipient, amount);
    law_monotonic(cfg, first, ops);
    law_record_invariants(run(cfg, first, ops));
}

/// A claim that follows a claim at the same time, with no decision at a
/// tollgate between them, finds nothing to claim.
pub proof fn law_claim_idempotent(cfg: ConfigView, rec: VestingInfoView, now: nat)
    requires
        cfg.vesting_start_time <= now,
    ensures
        claim_outcome(cfg, apply(cfg, rec, Operation::Claim { now }), now) == Err::<
            (VestingInfoView, TransferView),
            ContractError,
        >(ContractError::NoClaimable {  }),
{
    let after = apply(cfg, rec, Operation::Claim { now });
    if claim_outcome(cfg, rec, now) is Ok {
        let e = eligible_periods(cfg, rec, now) as int;
        assert(eligible_periods(cfg, after, now) == e);
        assert(after.amount_per_period * (e - e) == 0) by (nonlinear_arith);
    }
}

/// The same for the state of the contract: after a claim of a recipient,
/// paid or refused, a second claim of that recipient at the same time is
/// refused because nothing has accrued.
pub proof fn law_try_claim_idempotent(state: StoreView, now: nat, sender: Seq<char>)
    requires
        state.config.vesting_start_time <= now,
        state.vestings.contains_key(sender),
    ensures
        ({
            let after = match try_claim_outcome(state, now, sender) {
                Ok((after, _)) => after,
                Err(_) => state,
            };
            try_claim_outcome(after, now, sender) == Err::<
                (StoreView, TransferView),
                ContractError,
            >(ContractError::NoClaimable {  })
        }),
{
    law_claim_idempotent(state.config, state.vestings[sender], now);
}

/// A message to the contract, with its sender and the time of the call.
pub struct Call {
    pub now: nat,
    pub sender: Seq<char>,
    pub msg: ExecuteMsg,
}

/// The state after `call`. A refused call leaves the state as it was.
pub open spec fn after_call(state: StoreView, call: Call) -> StoreView {
    match execute_outcome(state, call.now, call.sender, call.msg) {
        Ok((after, _)) => after,
        Err(_) => state,
    }
}

/// The state after the calls `calls`, made in their order.
pub open spec fn after_calls(state: StoreView, calls: Seq<Call>) -> StoreView
    decreases calls.len(),
{
    if calls.len() == 0 {
        state
    } else {
        after_call(after_calls(state, calls.drop_last()), calls.last())
    }
}

/// Whether from `before` to `after` the parameters have stayed as they
/// were, no record was added or removed, and no record has lost a period or
/// an amount.
pub open spec fn store_advances(before: StoreView, after: StoreView) -> bool {
    &&& after.config == before.config
    &&& forall|k: Seq<char>| #[trigger]
        after.vestings.contains_key(k) <==> before.vestings.contains_key(k)
    &&& forall|k: Seq<char>| #[trigger]
        before.vestings.contains_key(k) ==> advances(before.vestings[k], after.vestings[k])
}

/// A contract that is created starts in a state that the operations accept:
/// every recipient has the fresh record of its allocation.
pub proof fn law_instantiate(now: nat, info: MessageInfo, msg: InstantiateMsg)
    requires
        instantiate_outcome(now, info, msg) is Ok,
    ensures
        instantiate_outcome(now, info, msg)->Ok_0.wf(),
        instantiate_outcome(now, info, msg)->Ok_0.config.vesting_start_time == now,
        forall|i: int|
            0 <= i < msg.vestings.len() ==> {
                let state = instantiate_outcome(now, info, msg)->Ok_0;
                let vesting = #[trigger] msg.vestings[i];
                &&& state.vestings.contains_key(vesting.recipient@)
                &&& state.vestings[vesting.recipient@] == initial_record(
                    state.config,
                    vesting.recipient@,
                    vesting.amount as nat,
                )
            },
{
    let state = instantiate_outcome(now, info, msg)->Ok_0;
    let all = msg.vestings@;
    assert forall|k: Seq<char>| #[trigger] state.vestings.contains_key(k) implies {
        &&& state.vestings[k].wf()
        &&& state.vestings[k].recipient == k
    } by {
        law_initial_record(state.config, k, all[allocation_of(all, k)].amount as nat);
    }
    assert forall|i: int| 0 <= i < all.len() implies {
        let vesting = #[trigger] all[i];
        &&& state.vestings.contains_key(vesting.recipient@)
        &&& state.vestings[vesting.recipient@] == initial_record(
            state.config,
            vesting.recipient@,
            vesting.amount as nat,
        )
    } by {
        let k = all[i].recipient@;
        assert(allocates(all, k));
        let j = allocation_of(all, k);
        assert(all[j].recipient@ == k);
        assert(j == i);
    }
}

/// One call, accepted or refused, keeps the state as the operations can
/// have produced it and takes nothing back.
pub proof fn law_call(state: StoreView, call: Call)
    requires
        state.wf(),
    ensures
        after_call(state, call).wf(),
        store_advances(state, after_call(state, call)),
{
    if execute_outcome(state, call.now, call.sender, call.msg) is Ok {
        match call.msg {
            ExecuteMsg::ApproveTollgate { recipient, approve } => {
                law_step(
                    state.config,
                    state.vestings[recipient@],
                    Operation::ApproveTollgate { approve, now: call.now },
                );
            },
            ExecuteMsg::Claim {  } => {
                law_step(
                    state.config,
                    state.vestings[call.sender],
                    Operation::Claim { now: call.now },
                );
            },
        }
    }
}

/// Monotonicity of the contract: over any sequence of calls, by whomever
/// and whenever, the parameters stay as they are, no record is added or
/// removed, and in no record do the unlocked periods, the last claimed
/// period or the claimed amount decrease.
pub proof fn law_calls(state: StoreView, calls: Seq<Call>)
    requires
        state.wf(),
    ensures
        after_calls(state, calls).wf(),
        store_advances(state, after_calls(state, calls)),
    decreases calls.len(),
{
    if calls.len() > 0 {
        let middle = after_calls(state, calls.drop_last());
        law_calls(state, calls.drop_last());
        law_call(middle, calls.last());
        let last = after_calls(state, calls);
        assert forall|k: Seq<char>| #[trigger] state.vestings.contains_key(k) implies advances(
            state.vestings[k],
            last.vestings[k],
        ) by {
            assert(middle.vestings.contains_key(k));
        }
    }
}

/// Conservation in the contract: in every state that a created contract
/// reaches, each record that is still active owes exactly what was
/// allocated and is not claimed yet, and no record owes more.
pub proof fn law_contract_conservation(
    now: nat,
    info: MessageInfo,
    msg: InstantiateMsg,
    calls: Seq<Call>,
    i: int,
)
    requires
        instantiate_outcome(now, info, msg) is Ok,
        0 <= i < msg.vestings.len(),
    ensures
        ({
            let state = after_calls(instantiate_outcome(now, info, msg)->Ok_0, calls);
            let recipient = msg.vestings[i].recipient@;
            let record = state.vestings[recipient];
            &&& state.vestings.contains_key(recipient)
            &&& record.total_amount == msg.vestings[i].amount
            &&& record.active ==> record.claimed_amount + record.vested_amount
                == record.total_amount
            &&& record.claimed_amount + record.vested_amount <= record.total_amount
        }),
{
    let first = instantiate_outcome(now, info, msg)->Ok_0;
    let state = after_calls(first, calls);
    let recipient = msg.vestings[i].recipient@;
    law_instantiate(now, info, msg);
    law_calls(first, calls);
    assert(first.vestings.contains_key(recipient));
    assert(state.vestings.contains_key(recipient));
    law_record_invariants(state.vestings[recipient]);
}

/// Forfeiture: a disapproval at `now` leaves the recipient exactly the
/// amount of the unlocked periods that have elapsed and are not claimed,
/// halts the vesting, and hands the rest of what was owed to the community
/// pool.
pub proof fn law_forfeiture(cfg: ConfigView, rec: VestingInfoView, now: nat)
    requires
        rec.wf(),
        tollgate_outcome(cfg, rec, false, now) is Ok,
    ensures
        ({
            let (after, transfer) = tollgate_outcome(cfg, rec, false, now)->Ok_0;
            let counted = if elapsed_periods(cfg, now) < rec.approved_periods {
                elapsed_periods(cfg, now)
            } else {
                rec.approved_periods
            };
            &&& !after.active
            &&& after.vested_amount == rec.amount_per_period * (counted - rec.last_claimed_period)
            &&& transfer is Some
            &&& transfer->Some_0.amount == rec.vested_amount - after.vested_amount
            &&& transfer->Some_0.destination == cfg.community_pool_address
            &&& transfer->Some_0.denom == cfg.denom
        }),
{
    lemma_tollgate_outcome(cfg, rec, false, now);
    lemma_accrued_amount(cfg, rec, now);
}

/// Once a vesting is halted no tollgate is decided any more, whoever asks
/// and whenever.
pub proof fn law_halted_is_final(cfg: ConfigView, rec: VestingInfoView, approve: bool, now: nat)
    requires
        !rec.active,
    ensures
        tollgate_outcome(cfg, rec, approve, now) == Err::<
            (VestingInfoView, Option<TransferView>),
            ContractError,
        >(ContractError::VestingNotActive {  }),
{
}

/// An allocation too small to pay anything per period is never paid: every
/// claim finds nothing to claim.
pub proof fn law_nothing_accrues_without_amount(cfg: ConfigView, rec: VestingInfoView, now: nat)
    requires
        rec.amount_per_period == 0,
        cfg.vesting_start_time <= now,
    ensures
        claim_outcome(cfg, rec, now) == Err::<(VestingInfoView, TransferView), ContractError>(
            ContractError::NoClaimable {  },
        ),
{
    let d = eligible_periods(cfg, rec, now) - rec.last_claimed_period;
    assert(0 * d == 0) by (nonlinear_arith);
    assert(accrued_amount(cfg, rec, now) == 0);
}

} // verus!
