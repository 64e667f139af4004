//! The operations of the contract on a [`Store`]: creating it, the two
//! execute messages, the query, and the migration.
//!
//! Each operation has an outcome function that says, over mathematical
//! values, which state follows and what is transferred, or why the operation
//! is refused. A refused operation leaves the state as it was.

use vstd::prelude::*;

use crate::error::ContractError;
use crate::msg::{
    transfer_view, ExecuteMsg, InitSummary, InstantiateMsg, MessageInfo, MigrateMsg, QueryMsg,
    TransferInstruction, TransferView,
};
use crate::schedule::{claim_outcome, initial_record, tollgate_outcome};
use crate::state::{Config, ConfigView, Vesting, VestingInfo, VestingInfoView};
use crate::store::{Store, StoreView};

verus! {

/// Amount of seconds in each period.
pub const SECONDS_PER_PERIOD: u64 = 60u64 * 60u64 * 24u64 * 30u64;

/// Number of periods in each tollgate.
pub const PERIODS_PER_TOLL: u64 = 3;

/// The sum of the allocated amounts.
pub open spec fn sum_amounts(vestings: Seq<Vesting>) -> nat
    decreases vestings.len(),
{
    if vestings.len() == 0 {
        0
    } else {
        sum_amounts(vestings.drop_last()) + vestings.last().amount as nat
    }
}

/// Whether one of `vestings` is for `recipient`.
pub open spec fn allocates(vestings: Seq<Vesting>, recipient: Seq<char>) -> bool {
    exists|i: int| 0 <= i < vestings.len() && (#[trigger] vestings[i]).recipient@ == recipient
}

/// The place of an allocation for `recipient` among `vestings`, if there is
/// one.
pub open spec fn allocation_of(vestings: Seq<Vesting>, recipient: Seq<char>) -> int {
    choose|i: int| 0 <= i < vestings.len() && (#[trigger] vestings[i]).recipient@ == recipient
}

/// No recipient is allocated twice.
pub open spec fn distinct_allocations(vestings: Seq<Vesting>) -> bool {
    forall|i: int, j: int|
        0 <= i < j < vestings.len() ==> (#[trigger] vestings[i]).recipient@ != (
        #[trigger] vestings[j]).recipient@
}

/// The parameters of a contract created at `now` by `msg`, sent with `info`.
pub open spec fn initial_config(now: nat, info: MessageInfo, msg: InstantiateMsg) -> ConfigView {
    ConfigView {
        master_address: match msg.master_address {
            Some(address) => address@,
            None => info.sender@,
        },
        community_pool_address: msg.community_pool_address@,
        denom: msg.denom@,
        seconds_per_period: SECONDS_PER_PERIOD as nat,
        periods_per_toll: PERIODS_PER_TOLL as nat,
        vesting_start_time: now,
    }
}

/// The fresh record of each recipient of `vestings`.
pub open spec fn initial_vestings(cfg: ConfigView, vestings: Seq<Vesting>) -> Map<
    Seq<char>,
    VestingInfoView,
> {
    Map::new(
        |recipient: Seq<char>| allocates(vestings, recipient),
        |recipient: Seq<char>|
            initial_record(
                cfg,
                recipient,
                vestings[allocation_of(vestings, recipient)].amount as nat,
            ),
    )
}

/// What creating the contract at `now` gives: the first state, or the reason
/// why the contract is not created. The funds must be a single coin of the
/// vesting denom whose amount is the sum of the allocations, and no recipient
/// may be allocated twice.
pub open spec fn instantiate_outcome(now: nat, info: MessageInfo, msg: InstantiateMsg) -> Result<
    StoreView,
    ContractError,
> {
    if info.funds.len() != 1 || info.funds[0].denom@ != msg.denom@ {
        Err(ContractError::MismatchedAssetType {  })
    } else if info.funds[0].amount != sum_amounts(msg.vestings@) {
        Err(ContractError::MismatchedAssetAmount {  })
    } else if !distinct_allocations(msg.vestings@) {
        Err(ContractError::DuplicatedRecipient {  })
    } else {
        Ok(
            StoreView {
                config: initial_config(now, info, msg),
                vestings: initial_vestings(initial_config(now, info, msg), msg.vestings@),
            },
        )
    }
}

/// What a claim by `sender` at `now` does to the state: the state after it
/// and the transfer to the sender, or the reason why nothing is paid.
pub open spec fn try_claim_outcome(state: StoreView, now: nat, sender: Seq<char>) -> Result<
    (StoreView, TransferView),
    ContractError,
> {
    if !state.vestings.contains_key(sender) {
        Err(ContractError::NotFound {  })
    } else {
        match claim_outcome(state.config, state.vestings[sender], now) {
            Ok((record, transfer)) => Ok((state.with(sender, record), transfer)),
            Err(e) => Err(e),
        }
    }
}

/// What the decision `approve` of `sender` on the tollgate of `recipient`
/// does to the state at `now`: the state after it and, for a disapproval, the
/// transfer to the community pool; or the reason why no decision is taken.
pub open spec fn try_approve_tollgate_outcome(
    state: StoreView,
    now: nat,
    sender: Seq<char>,
    recipient: Seq<char>,
    approve: bool,
) -> Result<(StoreView, Option<TransferView>), ContractError> {
    if sender != state.config.master_address {
        Err(ContractError::Unauthorized {  })
    } else if !state.vestings.contains_key(recipient) {
        Err(ContractError::NotFound {  })
    } else {
        match tollgate_outcome(state.config, state.vestings[recipient], approve, now) {
            Ok((record, transfer)) => Ok((state.with(recipient, record), transfer)),
            Err(e) => Err(e),
        }
    }
}

/// What `msg`, sent by `sender` at `now`, does to the state.
pub open spec fn execute_outcome(state: StoreView, now: nat, sender: Seq<char>, msg: ExecuteMsg)
    -> Result<(StoreView, Option<TransferView>), ContractError> {
    match msg {
        ExecuteMsg::ApproveTollgate { recipient, approve } => try_approve_tollgate_outcome(
            state,
            now,
            sender,
            recipient@,
            approve,
        ),
        ExecuteMsg::Claim {  } => match try_claim_outcome(state, now, sender) {
            Ok((after, transfer)) => Ok((after, Some(transfer))),
            Err(e) => Err(e),
        },
    }
}

/// The sum of a part of the allocations is at most the sum of all.
pub proof fn lemma_sum_amounts_prefix(vestings: Seq<Vesting>, n: int)
    requires
        0 <= n <= vestings.len(),
    ensures
        sum_amounts(vestings.take(n)) <= sum_amounts(vestings),
    decreases vestings.len(),
{
    if n == vestings.len() {
        assert(vestings.take(n) =~= vestings);
    } else {
        assert(vestings.drop_last().take(n) =~= vestings.take(n));
        lemma_sum_amounts_prefix(vestings.drop_last(), n);
    }
}

/// Adds up the allocated amounts; `None` where the sum is beyond `u128`.
pub fn total_allocated(vestings: &Vec<Vesting>) -> (total: Option<u128>)
    ensures
        match total {
            Some(sum) => sum == sum_amounts(vestings@),
            None => sum_amounts(vestings@) > u128::MAX,
        },
{
    let mut sum: u128 = 0;
    let mut i: usize = 0;
    while i < vestings.len()
        invariant
            i <= vestings.len(),
            sum == sum_amounts(vestings@.take(i as int)),
        decreases vestings.len() - i,
    {
        proof {
            assert(vestings@.take(i + 1).drop_last() =~= vestings@.take(i as int));
            lemma_sum_amounts_prefix(vestings@, i + 1);
        }
        match sum.checked_add(vestings[i].amount) {
            Some(next) => {
                sum = next;
            },
            None => {
                return None;
            },
        }
        i += 1;
    }
    proof {
        assert(vestings@.take(i as int) =~= vestings@);
    }
    Some(sum)
}

/// Creates the contract at `now`: fixes its parameters and opens one record
/// for each allocation. Nothing is created unless every check passes.
pub fn instantiate(now: u64, info: MessageInfo, msg: InstantiateMsg) -> (res: Result<
    (Store, InitSummary),
    ContractError,
>)
    ensures
        match instantiate_outcome(now as nat, info, msg) {
            Ok(state) => {
                &&& res is Ok
                &&& res->Ok_0.0@.wf()
                &&& res->Ok_0.0@ == state
                &&& res->Ok_0.1.master_address@ == state.config.master_address
                &&& res->Ok_0.1.vesting_start_time == now
            },
            Err(e) => res == Err::<(Store, InitSummary), ContractError>(e),
        },
{
    // Check sent vesting asset denom
    if info.funds.len() != 1 || info.funds[0].denom != msg.denom {
        return Err(ContractError::MismatchedAssetType {  });
    }
    // Check sent vesting asset amount
    match total_allocated(&msg.vestings) {
        Some(sum) => {
            if info.funds[0].amount != sum {
                return Err(ContractError::MismatchedAssetAmount {  });
            }
        },
        None => {
            return Err(ContractError::MismatchedAssetAmount {  });
        },
    }
    // Set `master_address` as specified; otherwise, the instantiator
    let master_address: String = match &msg.master_address {
        Some(address) => address.clone(),
        None => info.sender.clone(),
    };
    let summary = InitSummary { master_address: master_address.clone(), vesting_start_time: now };
    let config = Config {
        master_address,
        community_pool_address: msg.community_pool_address.clone(),
        denom: msg.denom.clone(),
        seconds_per_period: SECONDS_PER_PERIOD,
        periods_per_toll: PERIODS_PER_TOLL,
        vesting_start_time: now,
    };
    let ghost cfg = initial_config(now as nat, info, msg);
    assert(config@ == cfg);
    let mut store = Store::new(config);
    // Open each recipient's record; all vestings start with one approved tollgate
    let mut i: usize = 0;
    while i < msg.vestings.len()
        invariant
            i <= msg.vestings.len(),
            info.funds.len() == 1,
            info.funds[0].denom@ == msg.denom@,
            info.funds[0].amount == sum_amounts(msg.vestings@),
            cfg == initial_config(now as nat, info, msg),
            cfg.wf(),
            store@.wf(),
            store@.config == cfg,
            distinct_allocations(msg.vestings@.take(i as int)),
            forall|k: Seq<char>| #[trigger]
                store@.vestings.contains_key(k) <==> allocates(msg.vestings@.take(i as int), k),
            forall|j: int|
                0 <= j < i ==> store@.vestings[(#[trigger] msg.vestings[j]).recipient@]
                    == initial_record(
                    cfg,
                    msg.vestings[j].recipient@,
                    msg.vestings[j].amount as nat,
                ),
        decreases msg.vestings.len() - i,
    {
        let ghost done = msg.vestings@.take(i as int);
        let ghost next = msg.vestings@.take(i + 1);
        let ghost before = store@;
        let vesting = &msg.vestings[i];
        if store.contains(&vesting.recipient) {
            proof {
                let j = allocation_of(done, vesting.recipient@);
                assert(done[j] == msg.vestings[j]);
                assert(msg.vestings[j].recipient@ == msg.vestings[i as int].recipient@);
                assert(!distinct_allocations(msg.vestings@));
            }
            return Err(ContractError::DuplicatedRecipient {  });
        }
        let record = VestingInfo::new(store.config(), vesting.recipient.clone(), vesting.amount);
        store.put(record);
        proof {
            assert forall|a: int, b: int| 0 <= a < b < next.len() implies (#[trigger] next[a]).recipient@
                != (#[trigger] next[b]).recipient@ by {
                assert(next[a] == done[a]);
                if b < i {
                    assert(next[b] == done[b]);
                } else {
                    assert(!allocates(done, vesting.recipient@));
                }
            }
            assert forall|k: Seq<char>| #[trigger]
                store@.vestings.contains_key(k) <==> allocates(next, k) by {
                if allocates(done, k) {
                    let j = allocation_of(done, k);
                    assert(next[j] == done[j]);
                }
                if k == vesting.recipient@ {
                    assert(next[i as int].recipient@ == k);
                }
                if allocates(next, k) {
                    let j = allocation_of(next, k);
                    if j < i {
                        assert(done[j] == next[j]);
                    }
                }
            }
            assert forall|j: int| 0 <= j < i + 1 implies store@.vestings[(
            #[trigger] msg.vestings[j]).recipient@] == initial_record(
                cfg,
                msg.vestings[j].recipient@,
                msg.vestings[j].amount as nat,
            ) by {
                if j < i {
                    assert(done[j] == msg.vestings[j]);
                    assert(allocates(done, msg.vestings[j].recipient@));
                    assert(before.vestings.contains_key(msg.vestings[j].recipient@));
                }
            }
        }
        i += 1;
    }
    proof {
        let all = msg.vestings@;
        assert(all.take(i as int) =~= all);
        assert forall|k: Seq<char>| allocates(all, k) implies #[trigger] store@.vestings[k]
            == initial_vestings(cfg, all)[k] by {
            let j = allocation_of(all, k);
            assert(all[j].recipient@ == k);
        }
        assert(store@.vestings =~= initial_vestings(cfg, all));
    }
    Ok((store, summary))
}

/// Claims any eligible vesting amount of the sender.
pub fn try_claim(store: &mut Store, now: u64, info: MessageInfo) -> (res: Result<
    TransferInstruction,
    ContractError,
>)
    ensures
        final(store)@.wf(),
        match try_claim_outcome(old(store)@, now as nat, info.sender@) {
            Ok((state, transfer)) => {
                &&& res is Ok
                &&& res->Ok_0@ == transfer
                &&& final(store)@ == state
            },
            Err(e) => {
                &&& res == Err::<TransferInstruction, ContractError>(e)
                &&& final(store)@ == old(store)@
            },
        },
{
    let mut record = match store.get(&info.sender) {
        Ok(record) => record,
        Err(e) => {
            return Err(e);
        },
    };
    match record.claim(store.config(), now) {
        Ok(transfer) => {
            store.put(record);
            Ok(transfer)
        },
        Err(e) => Err(e),
    }
}

/// Updates the tollgate / approve status of a recipient's vesting. Only the
/// master may do so.
pub fn try_approve_tollgate(
    store: &mut Store,
    now: u64,
    info: MessageInfo,
    recipient: String,
    approve: bool,
) -> (res: Result<Option<TransferInstruction>, ContractError>)
    ensures
        final(store)@.wf(),
        match try_approve_tollgate_outcome(
            old(store)@,
            now as nat,
            info.sender@,
            recipient@,
            approve,
        ) {
            Ok((state, transfer)) => {
                &&& res is Ok
                &&& transfer_view(res->Ok_0) == transfer
                &&& final(store)@ == state
            },
            Err(e) => {
                &&& res == Err::<Option<TransferInstruction>, ContractError>(e)
                &&& final(store)@ == old(store)@
            },
        },
{
    // Can only be called by master_address
    if !store.config().is_master(&info.sender) {
        return Err(ContractError::Unauthorized {  });
    }
    let mut record = match store.get(&recipient) {
        Ok(record) => record,
        Err(e) => {
            return Err(e);
        },
    };
    match record.approve_tollgate(store.config(), approve, now) {
        Ok(transfer) => {
            store.put(record);
            Ok(transfer)
        },
        Err(e) => Err(e),
    }
}

/// Applies an execute message of `info.sender` at `now`.
pub fn execute(store: &mut Store, now: u64, info: MessageInfo, msg: ExecuteMsg) -> (res: Result<
    Option<TransferInstruction>,
    ContractError,
>)
    ensures
        final(store)@.wf(),
        match execute_outcome(old(store)@, now as nat, info.sender@, msg) {
            Ok((state, transfer)) => {
                &&& res is Ok
                &&& transfer_view(res->Ok_0) == transfer
                &&& final(store)@ == state
            },
            Err(e) => {
                &&& res == Err::<Option<TransferInstruction>, ContractError>(e)
                &&& final(store)@ == old(store)@
            },
        },
{
    match msg {
        ExecuteMsg::ApproveTollgate { recipient, approve } => {
            try_approve_tollgate(store, now, info, recipient, approve)
        },
        ExecuteMsg::Claim {  } => match try_claim(store, now, info) {
            Ok(transfer) => Ok(Some(transfer)),
            Err(e) => Err(e),
        },
    }
}

/// Answers a query: the vesting information of the specified recipient.
pub fn query(store: &Store, msg: QueryMsg) -> (res: Result<VestingInfo, ContractError>)
    ensures
        store@.wf(),
        match store@.vestings.get(msg->recipient@) {
            Some(record) => res is Ok && res->Ok_0@ == record,
            None => res == Err::<VestingInfo, ContractError>(ContractError::NotFound {  }),
        },
{
    match msg {
        QueryMsg::VestingInfo { recipient } => store.get(&recipient),
    }
}

/// Migrates the contract. There is nothing to migrate: the state stays as it
/// is and nothing is transferred.
pub fn migrate(store: &mut Store, msg: MigrateMsg) -> (res: Result<
    Option<TransferInstruction>,
    ContractError,
>)
    ensures
        *final(store) == *old(store),
        res == Ok::<Option<TransferInstruction>, ContractError>(None),
{
    Ok(None)
}

} // verus!
