use terra_emergency_vesting::contract::{execute, instantiate, query, SECONDS_PER_PERIOD};
use terra_emergency_vesting::error::ContractError;
use terra_emergency_vesting::msg::{
    Coin, ExecuteMsg, InitSummary, InstantiateMsg, MessageInfo, QueryMsg, TransferInstruction,
};
use terra_emergency_vesting::state::{Vesting, VestingInfo};
use terra_emergency_vesting::store::Store;

fn coin(amount: u128, denom: &str) -> Coin {
    Coin {
        denom: denom.to_string(),
        amount,
    }
}

fn mock_info(sender: &str, funds: &[Coin]) -> MessageInfo {
    MessageInfo {
        sender: sender.to_string(),
        funds: funds.to_vec(),
    }
}

fn mock_env_time(time: u64) -> u64 {
    time
}

fn mock_init() -> (Store, InitSummary) {
    let vestings = vec![
        Vesting {
            recipient: "recipient1".to_string(),
            amount: 300_000_000_001u128,
        },
        Vesting {
            recipient: "recipient2".to_string(),
            amount: 300_000_000_000u128,
        },
    ];

    let total = 300_000_000_001u128 + 300_000_000_000u128;

    let msg = InstantiateMsg {
        master_address: Some("master_address".to_string()),
        community_pool_address: "community_pool_address".to_string(),
        denom: "uluna".to_string(),
        vestings,
    };

    let info = mock_info("addr0000", &[coin(total, "uluna")]);

    // we can just call .unwrap() to assert this was a success
    instantiate(mock_env_time(0), info, msg).unwrap()
}

fn mock_full_init() -> (Store, InitSummary) {
    let vestings = vec![
        Vesting {
            recipient: "recipient1".to_string(),
            amount: 300_000_000_001u128,
        },
        Vesting {
            recipient: "recipient2".to_string(),
            amount: 300_000_000_000u128,
        },
        Vesting {
            recipient: "recipient3".to_string(),
            amount: 150_000_000_001u128,
        },
        Vesting {
            recipient: "recipient4".to_string(),
            amount: 150_000_000_000u128,
        },
        Vesting {
            recipient: "recipient5".to_string(),
            amount: 75_000_000_001u128,
        },
        Vesting {
            recipient: "recipient6".to_string(),
            amount: 75_000_000_000u128,
        },
        Vesting {
            recipient: "recipient7".to_string(),
            amount: 1u128,
        },
    ];

    let total = 300_000_000_001u128
        + 300_000_000_000u128
        + 150_000_000_001u128
        + 150_000_000_000u128
        + 75_000_000_001u128
        + 75_000_000_000u128
        + 1u128;

    let msg = InstantiateMsg {
        master_address: Some("master_address".to_string()),
        community_pool_address: "community_pool_address".to_string(),
        denom: "uluna".to_string(),
        vestings,
    };

    let info = mock_info("addr0000", &[coin(total, "uluna")]);

    // we can just call .unwrap() to assert this was a success
    instantiate(mock_env_time(0), info, msg).unwrap()
}

fn query_vesting(deps: &Store, recipient: String) -> VestingInfo {
    let msg = QueryMsg::VestingInfo {
        recipient: recipient.to_string(),
    };
    query(deps, msg).unwrap()
}

/// The one transfer that a response carries.
fn send(to_address: &str, amount: u128, denom: &str) -> Option<TransferInstruction> {
    Some(TransferInstruction {
        destination: to_address.to_string(),
        denom: denom.to_string(),
        amount,
    })
}

#[test]
fn proper_initialization() {
    let (deps, res) = mock_full_init();
    assert_eq!(
        res,
        InitSummary {
            master_address: "master_address".to_string(),
            vesting_start_time: 0,
        }
    );

    assert_eq!(
        query_vesting(&deps, "recipient1".to_string()),
        VestingInfo {
            recipient: "recipient1".to_string(),
            active: true,
            approved_periods: 3u64,
            total_periods: 12u64,
            last_claimed_period: 0u64,
            total_amount: 300000000001u128,
            claimed_amount: 0u128,
            vested_amount: 300000000001u128,
            amount_per_period: 25000000000u128,
        }
    );

    assert_eq!(
        query_vesting(&deps, "recipient2".to_string()),
        VestingInfo {
            recipient: "recipient2".to_string(),
            active: true,
            approved_periods: 3u64,
            total_periods: 9u64,
            last_claimed_period: 0u64,
            total_amount: 300000000000u128,
            claimed_amount: 0u128,
            vested_amount: 300000000000u128,
            amount_per_period: 33333333333u128,
        }
    );

    assert_eq!(
        query_vesting(&deps, "recipient3".to_string()),
        VestingInfo {
            recipient: "recipient3".to_string(),
            active: true,
            approved_periods: 3u64,
            total_periods: 9u64,
            last_claimed_period: 0u64,
            total_amount: 150000000001u128,
            claimed_amount: 0u128,
            vested_amount: 150000000001u128,
            amount_per_period: 16666666666u128,
        }
    );

    assert_eq!(
        query_vesting(&deps, "recipient4".to_string()),
        VestingInfo {
            recipient: "recipient4".to_string(),
            active: true,
            approved_periods: 3u64,
            total_periods: 6u64,
            last_claimed_period: 0u64,
            total_amount: 150000000000u128,
            claimed_amount: 0u128,
            vested_amount: 150000000000u128,
            amount_per_period: 25000000000u128,
        }
    );

    assert_eq!(
        query_vesting(&deps, "recipient5".to_string()),
        VestingInfo {
            recipient: "recipient5".to_string(),
            active: true,
            approved_periods: 3u64,
            total_periods: 6u64,
            last_claimed_period: 0u64,
            total_amount: 75000000001u128,
            claimed_amount: 0u128,
            vested_amount: 75000000001u128,
            amount_per_period: 12500000000u128,
        }
    );

    assert_eq!(
        query_vesting(&deps, "recipient6".to_string()),
        VestingInfo {
            recipient: "recipient6".to_string(),
            active: true,
            approved_periods: 3u64,
            total_periods: 3u64,
            last_claimed_period: 0u64,
            total_amount: 75000000000u128,
            claimed_amount: 0u128,
            vested_amount: 75000000000u128,
            amount_per_period: 25000000000u128,
        }
    );

    assert_eq!(
        query_vesting(&deps, "recipient7".to_string()),
        VestingInfo {
            recipient: "recipient7".to_string(),
            active: true,
            approved_periods: 3u64,
            total_periods: 3u64,
            last_claimed_period: 0u64,
            total_amount: 1u128,
            claimed_amount: 0u128,
            vested_amount: 1u128,
            amount_per_period: 0u128,
        }
    );
}

#[test]
pub fn test_fail_init() {
    let vestings = vec![
        Vesting {
            recipient: "recipient1".to_string(),
            amount: 300_000_000_001u128,
        },
        Vesting {
            recipient: "recipient2".to_string(),
            amount: 300_000_000_000u128,
        },
    ];

    let msg = InstantiateMsg {
        master_address: Some("master_address".to_string()),
        community_pool_address: "community_pool_address".to_string(),
        denom: "uluna".to_string(),
        vestings,
    };

    let info = mock_info("addr0000", &[coin(1u128, "uluna")]);
    let res = instantiate(mock_env_time(0), info, msg.clone()).unwrap_err();
    assert_eq!(res, ContractError::MismatchedAssetAmount {});

    let info = mock_info("addr0000", &[coin(600_000_000_001u128, "uasset")]);
    let res = instantiate(mock_env_time(0), info, msg).unwrap_err();
    assert_eq!(res, ContractError::MismatchedAssetType {});

    let vestings = vec![
        Vesting {
            recipient: "recipient1".to_string(),
            amount: 300_000_000_001u128,
        },
        Vesting {
            recipient: "recipient1".to_string(),
            amount: 300_000_000_000u128,
        },
    ];

    let msg = InstantiateMsg {
        master_address: Some("master_address".to_string()),
        community_pool_address: "community_pool_address".to_string(),
        denom: "uluna".to_string(),
        vestings,
    };

    let info = mock_info("addr0000", &[coin(600_000_000_001u128, "uluna")]);
    let res = instantiate(mock_env_time(0), info, msg).unwrap_err();
    assert_eq!(res, ContractError::DuplicatedRecipient {});
}

#[test]
fn test_approve_tollgate_and_claim() {
    let (mut deps, _) = mock_init();

    let env = mock_env_time(1);
    let info = mock_info("master_address", &[]);
    let msg = ExecuteMsg::ApproveTollgate {
        recipient: "recipient1".to_string(),
        approve: true,
    };
    let res = execute(&mut deps, env, info, msg).unwrap_err();
    assert_eq!(res, ContractError::NextTollgateTimeNotReached {});

    let env = mock_env_time(SECONDS_PER_PERIOD * 3);
    let info = mock_info("master_address", &[]);
    let msg = ExecuteMsg::ApproveTollgate {
        recipient: "recipient1".to_string(),
        approve: true,
    };
    execute(&mut deps, env, info, msg).unwrap();

    assert_eq!(
        query_vesting(&deps, "recipient1".to_string()),
        VestingInfo {
            recipient: "recipient1".to_string(),
            active: true,
            approved_periods: 6u64,
            total_periods: 12u64,
            last_claimed_period: 0u64,
            total_amount: 300000000001u128,
            claimed_amount: 0u128,
            vested_amount: 300000000001u128,
            amount_per_period: 25000000000u128,
        }
    );

    let env = mock_env_time(SECONDS_PER_PERIOD * 3 + 10);
    let info = mock_info("recipient1", &[]);
    let msg = ExecuteMsg::Claim {};
    let res = execute(&mut deps, env, info, msg).unwrap();
    assert_eq!(res, send("recipient1", 75000000000u128, "uluna"));

    assert_eq!(
        query_vesting(&deps, "recipient1".to_string()),
        VestingInfo {
            recipient: "recipient1".to_string(),
            active: true,
            approved_periods: 6u64,
            total_periods: 12u64,
            last_claimed_period: 3u64,
            total_amount: 300000000001u128,
            claimed_amount: 75000000000u128,
            vested_amount: 225000000001u128,
            amount_per_period: 25000000000u128,
        }
    );

    let env = mock_env_time(SECONDS_PER_PERIOD * 12);
    let info = mock_info("master_address", &[]);
    let msg = ExecuteMsg::ApproveTollgate {
        recipient: "recipient1".to_string(),
        approve: true,
    };
    execute(&mut deps, env, info, msg).unwrap();

    assert_eq!(
        query_vesting(&deps, "recipient1".to_string()),
        VestingInfo {
            recipient: "recipient1".to_string(),
            active: true,
            approved_periods: 9u64,
            total_periods: 12u64,
            last_claimed_period: 3u64,
            total_amount: 300000000001u128,
            claimed_amount: 75000000000u128,
            vested_amount: 225000000001u128,
            amount_per_period: 25000000000u128,
        }
    );

    let env = mock_env_time(SECONDS_PER_PERIOD * 12);
    let info = mock_info("master_address", &[]);
    let msg = ExecuteMsg::ApproveTollgate {
        recipient: "recipient1".to_string(),
        approve: true,
    };
    execute(&mut deps, env, info, msg).unwrap();
    assert_eq!(
        query_vesting(&deps, "recipient1".to_string()),
        VestingInfo {
            recipient: "recipient1".to_string(),
            active: true,
            approved_periods: 12u64,
            total_periods: 12u64,
            last_claimed_period: 3u64,
            total_amount: 300000000001u128,
            claimed_amount: 75000000000u128,
            vested_amount: 225000000001u128,
            amount_per_period: 25000000000u128,
        }
    );

    let env = mock_env_time(SECONDS_PER_PERIOD * 12);
    let info = mock_info("master_address", &[]);
    let msg = ExecuteMsg::ApproveTollgate {
        recipient: "recipient1".to_string(),
        approve: true,
    };
    let res = execute(&mut deps, env, info, msg).unwrap_err();
    assert_eq!(res, ContractError::NoTollgateRequired {});

    let env = mock_env_time(SECONDS_PER_PERIOD * 12);
    let info = mock_info("recipient1", &[]);
    let msg = ExecuteMsg::Claim {};
    let res = execute(&mut deps, env, info, msg).unwrap();
    assert_eq!(res, send("recipient1", 225000000000u128, "uluna"));
    assert_eq!(
        query_vesting(&deps, "recipient1".to_string()),
        VestingInfo {
            recipient: "recipient1".to_string(),
            active: true,
            approved_periods: 12u64,
            total_periods: 12u64,
            last_claimed_period: 12u64,
            total_amount: 300000000001u128,
            claimed_amount: 300000000000u128,
            vested_amount: 1u128,
            amount_per_period: 25000000000u128,
        }
    );
}

#[test]
fn test_disapprove_tollgate_and_claim() {
    let (mut deps, _) = mock_init();

    let env = mock_env_time(SECONDS_PER_PERIOD * 3);
    let info = mock_info("master_address", &[]);
    let msg = ExecuteMsg::ApproveTollgate {
        recipient: "recipient1".to_string(),
        approve: true,
    };
    execute(&mut deps, env, info, msg).unwrap();

    let env = mock_env_time(SECONDS_PER_PERIOD * 3 + 1);
    let info = mock_info("recipient1", &[]);
    let msg = ExecuteMsg::Claim {};
    let res = execute(&mut deps, env, info, msg).unwrap();
    assert_eq!(res, send("recipient1", 75000000000u128, "uluna"));
    assert_eq!(
        query_vesting(&deps, "recipient1".to_string()),
        VestingInfo {
            recipient: "recipient1".to_string(),
            active: true,
            approved_periods: 6u64,
            total_periods: 12u64,
            last_claimed_period: 3u64,
            total_amount: 300000000001u128,
            claimed_amount: 75000000000u128,
            vested_amount: 225000000001u128,
            amount_per_period: 25000000000u128,
        }
    );

    let env = mock_env_time(SECONDS_PER_PERIOD * 6);
    let info = mock_info("master_address", &[]);
    let msg = ExecuteMsg::ApproveTollgate {
        recipient: "recipient1".to_string(),
        approve: true,
    };
    execute(&mut deps, env, info, msg).unwrap();

    let env = mock_env_time(SECONDS_PER_PERIOD * 9);
    let info = mock_info("master_address", &[]);
    let msg = ExecuteMsg::ApproveTollgate {
        recipient: "recipient1".to_string(),
        approve: false,
    };
    let res = execute(&mut deps, env, info, msg).unwrap();
    assert_eq!(res, send("community_pool_address", 75000000001, "uluna"));
    assert_eq!(
        query_vesting(&deps, "recipient1".to_string()),
        VestingInfo {
            recipient: "recipient1".to_string(),
            active: false,
            approved_periods: 9u64,
            total_periods: 12u64,
            last_claimed_period: 3u64,
            total_amount: 300000000001u128,
            claimed_amount: 75000000000u128,
            vested_amount: 150000000000u128,
            amount_per_period: 25000000000u128,
        }
    );

    let env = mock_env_time(SECONDS_PER_PERIOD * 12);
    let info = mock_info("recipient1", &[]);
    let msg = ExecuteMsg::Claim {};
    let res = execute(&mut deps, env, info, msg).unwrap();
    assert_eq!(res, send("recipient1", 150000000000u128, "uluna"));
    assert_eq!(
        query_vesting(&deps, "recipient1".to_string()),
        VestingInfo {
            recipient: "recipient1".to_string(),
            active: false,
            approved_periods: 9u64,
            total_periods: 12u64,
            last_claimed_period: 9u64,
            total_amount: 300000000001u128,
            claimed_amount: 225000000000u128,
            vested_amount: 0u128,
            amount_per_period: 25000000000u128,
        }
    );
}

#[test]
fn test_first_period_claim() {
    let (mut deps, _) = mock_init();

    let env = mock_env_time(SECONDS_PER_PERIOD * 2);
    let info = mock_info("recipient1", &[]);
    let msg = ExecuteMsg::Claim {};
    let res = execute(&mut deps, env, info, msg).unwrap();
    assert_eq!(res, send("recipient1", 50000000000u128, "uluna"));
    assert_eq!(
        query_vesting(&deps, "recipient1".to_string()),
        VestingInfo {
            recipient: "recipient1".to_string(),
            active: true,
            approved_periods: 3u64,
            total_periods: 12u64,
            last_claimed_period: 2u64,
            total_amount: 300000000001u128,
            claimed_amount: 50000000000u128,
            vested_amount: 250000000001u128,
            amount_per_period: 25000000000u128,
        }
    );

    let env = mock_env_time(SECONDS_PER_PERIOD * 3);
    let info = mock_info("recipient1", &[]);
    let msg = ExecuteMsg::Claim {};
    let res = execute(&mut deps, env, info, msg).unwrap();
    assert_eq!(res, send("recipient1", 25000000000u128, "uluna"));
    assert_eq!(
        query_vesting(&deps, "recipient1".to_string()),
        VestingInfo {
            recipient: "recipient1".to_string(),
            active: true,
            approved_periods: 3u64,
            total_periods: 12u64,
            last_claimed_period: 3u64,
            total_amount: 300000000001u128,
            claimed_amount: 75000000000u128,
            vested_amount: 225000000001u128,
            amount_per_period: 25000000000u128,
        }
    );
}

#[test]
fn test_spam_approve() {
    let (mut deps, _) = mock_init();

    let env = mock_env_time(SECONDS_PER_PERIOD * 100);
    let info = mock_info("master_address", &[]);
    let msg = ExecuteMsg::ApproveTollgate {
        recipient: "recipient1".to_string(),
        approve: true,
    };
    execute(&mut deps, env, info.clone(), msg).unwrap();

    let msg = ExecuteMsg::ApproveTollgate {
        recipient: "recipient1".to_string(),
        approve: false,
    };
    execute(&mut deps, env, info.clone(), msg).unwrap();

    let msg = ExecuteMsg::ApproveTollgate {
        recipient: "recipient1".to_string(),
        approve: true,
    };
    let res = execute(&mut deps, env, info.clone(), msg).unwrap_err();

    assert_eq!(res, ContractError::VestingNotActive {})
}

#[test]
fn test_no_claimable() {
    let (mut deps, _) = mock_init();

    let env = mock_env_time(SECONDS_PER_PERIOD * 2);
    let info = mock_info("recipient1", &[]);
    let msg = ExecuteMsg::Claim {};
    let res = execute(&mut deps, env, info.clone(), msg.clone()).unwrap();
    assert_eq!(res, send("recipient1", 50000000000u128, "uluna"));
    assert_eq!(
        query_vesting(&deps, "recipient1".to_string()),
        VestingInfo {
            recipient: "recipient1".to_string(),
            active: true,
            approved_periods: 3u64,
            total_periods: 12u64,
            last_claimed_period: 2u64,
            total_amount: 300000000001u128,
            claimed_amount: 50000000000u128,
            vested_amount: 250000000001u128,
            amount_per_period: 25000000000u128,
        }
    );

    let env = mock_env_time(SECONDS_PER_PERIOD * 2 + 5);
    let msg = ExecuteMsg::Claim {};
    let res = execute(&mut deps, env, info, msg).unwrap_err();
    assert_eq!(res, ContractError::NoClaimable {});
}
