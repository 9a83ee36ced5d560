use staking_contract::core_impl::FungibleTokenReceiver;
use staking_contract::{AccountJson, Context, StakingContract, StakingError};

const FT_CONTRACT_ID: &str = "ft_contract";
const ALICE_DEPOSIT_BALANCE: u128 = 10000000000000000000000000000;

fn call(predecessor: &str, block_index: u64, attached_deposit: u128) -> Context {
    Context {
        predecessor_account_id: predecessor.to_string(),
        current_account_id: "staking_contract".to_string(),
        block_index,
        block_timestamp: block_index * 1_000_000_000,
        epoch_height: 0,
        attached_deposit,
    }
}

fn init() -> StakingContract {
    StakingContract::new_default_config(
        &call("root", 1, 0),
        "alice".to_string(),
        FT_CONTRACT_ID.to_string(),
    )
}

#[test]
fn main_deposit_and_stake_test() {
    let mut staking_contract = init();

    // staking contract storage deposit
    let created = staking_contract
        .storage_deposit(&call("alice", 2, 10_000_000_000_000_000_000_000), None)
        .unwrap();
    assert!(created);

    // the transfer service reports alice's transfer
    let unused = staking_contract
        .ft_on_transfer(
            &call(FT_CONTRACT_ID, 3, 0),
            "alice".to_string(),
            ALICE_DEPOSIT_BALANCE,
            "".to_string(),
        )
        .unwrap();
    assert_eq!(unused, 0);

    let account_json: AccountJson =
        staking_contract.get_account_info(&call("root", 5, 0), "alice".to_string()).unwrap();

    assert_eq!(account_json.account_id, "alice".to_string());
    assert_eq!(account_json.stake_balance, 10000000000000000000000000000);
    assert!(account_json.reward > 0);
    assert_eq!(account_json.unstake_balance, 0);
}

#[test]
fn deposit_and_stake_error_storage_test() {
    let mut staking_contract = init();

    // Deposit without storage deposit
    let outcome = staking_contract.ft_on_transfer(
        &call(FT_CONTRACT_ID, 3, 0),
        "alice".to_string(),
        ALICE_DEPOSIT_BALANCE,
        "".to_string(),
    );

    // Have one error
    assert!(outcome.is_err());

    // assert error type
    if let Err(error) = outcome {
        println!("Error: {}", error.code());
        assert_eq!(error, StakingError::NotFoundAccount);
        assert!(error.code().contains("ERR_NOT_FOUND_ACCOUNT"));
    } else {
        unreachable!();
    }
    assert_eq!(staking_contract.total_stake_balance, 0);
    assert_eq!(staking_contract.total_staker, 0);
}
