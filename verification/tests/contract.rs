use near_sdk::test_utils::{accounts, VMContextBuilder};
use near_sdk::VMContext;
use staking_contract::{Account, Config, Context, StakingContract, StakingError};

fn get_context(is_view: bool) -> VMContextBuilder {
    let mut builder = VMContextBuilder::new();
    builder
        .current_account_id(accounts(0))
        .signer_account_id(accounts(0))
        .predecessor_account_id(accounts(0))
        .is_view(is_view);

    builder
}

/// What the pool is told of a call made in `context`.
fn testing_env(context: VMContext) -> Context {
    Context {
        predecessor_account_id: context.predecessor_account_id,
        current_account_id: context.current_account_id,
        block_index: context.block_index,
        block_timestamp: context.block_timestamp,
        epoch_height: context.epoch_height,
        attached_deposit: context.attached_deposit,
    }
}

#[test]
fn init_default_contract_test() {
    let context = get_context(false);
    let env = testing_env(context.build());

    let contract: StakingContract = StakingContract::new_default_config(
        &env,
        accounts(1).to_string(),
        "ft_contract".to_string(),
    );

    assert_eq!(
        contract.owner_id,
        accounts(1).to_string(),
        "Contract owner should be equal {}",
        accounts(1).to_string()
    );
    assert_eq!(contract.ft_contract_id, "ft_contract".to_string(), "FT contract id should be init data");
    assert_eq!(
        contract.config.reward_numerator,
        Config::default().reward_numerator,
        "Config must be equal default"
    );
    assert_eq!(contract.paused, false);
}

#[test]
fn lib_init_contract_test() {
    let context = get_context(false);
    let env = testing_env(context.build());

    let contract: StakingContract = StakingContract::new(
        &env,
        accounts(1).to_string(),
        "ft_contract".to_string(),
        Config { reward_numerator: 1500, reward_denumerator: 10000000, total_apr: 15 },
    );

    assert_eq!(
        contract.owner_id,
        accounts(1).to_string(),
        "Contract owner should be equal {}",
        accounts(1).to_string()
    );
    assert_eq!(contract.ft_contract_id, "ft_contract".to_string(), "FT contract id should be init data");
    assert_eq!(contract.config.reward_numerator, 1500, "Config must be equal default");
    assert_eq!(contract.config.reward_denumerator, 10000000);
    assert_eq!(contract.paused, false);
}

#[test]
fn lib_deposit_and_stake_test() {
    let mut context = get_context(false);
    context.block_index(0);
    let env = testing_env(context.build());

    let mut contract: StakingContract = StakingContract::new_default_config(
        &env,
        accounts(1).to_string(),
        accounts(1).to_string(),
    );
    contract.internal_create_account(&env, env.predecessor_account_id.clone());

    // Deposit and stake function call from FT contract
    context.predecessor_account_id(accounts(1));
    let env = testing_env(context.build());
    contract
        .internal_deposit_and_stake(&env, accounts(0).to_string(), 10_000_000_000_000)
        .unwrap();

    context.block_index(10);
    context.predecessor_account_id(accounts(0));
    let env = testing_env(context.build());

    // Test deposit balance and
    let upgradable_account = contract.accounts.get(&accounts(0).to_string()).unwrap();
    let account: Account = Account::from(upgradable_account);

    assert_eq!(account.stake_balance, 10_000_000_000_000);
    assert_eq!(account.pre_reward, 0);
    assert_eq!(account.pre_stake_balance, 0);
    assert!(contract.internal_calculate_account_reward(&env, &account).unwrap() > 0);

    // test contract balance
    assert_eq!(contract.total_stake_balance, account.stake_balance);
    assert_eq!(contract.total_staker, 1);
    assert_eq!(contract.pre_reward, 0);
    assert_eq!(contract.last_block_balance_change, 0);

    // Test update stake balance of account
    // Deposit and stake function call from FT contract
    context.predecessor_account_id(accounts(1));
    let env = testing_env(context.build());
    contract
        .internal_deposit_and_stake(&env, accounts(0).to_string(), 20_000_000_000_000)
        .unwrap();

    context.block_index(20);
    context.predecessor_account_id(accounts(0));
    let env = testing_env(context.build());

    // Test deposit balance and
    let upgradable_account_2 = contract.accounts.get(&accounts(0).to_string()).unwrap();
    let account_update: Account = Account::from(upgradable_account_2);

    assert_eq!(account_update.stake_balance, 30_000_000_000_000);
    assert!(account_update.pre_reward > 0);
    assert_eq!(account_update.pre_stake_balance, 10_000_000_000_000);
    assert_eq!(account_update.last_block_balance_change, 10);
    assert!(contract.internal_calculate_account_reward(&env, &account_update).unwrap() > 0);

    // test contract balance
    assert_eq!(contract.total_stake_balance, account_update.stake_balance);
    assert_eq!(contract.total_staker, 1);
    assert!(contract.pre_reward > 0);
    assert_eq!(contract.last_block_balance_change, 10);
}

#[test]
fn unstake_test() {
    let mut context = get_context(false);
    context.block_index(0);
    let env = testing_env(context.build());

    let mut contract: StakingContract = StakingContract::new_default_config(
        &env,
        accounts(1).to_string(),
        accounts(1).to_string(),
    );
    contract.internal_create_account(&env, env.predecessor_account_id.clone());

    // Deposit and stake function call from FT contract
    context.predecessor_account_id(accounts(1));
    let env = testing_env(context.build());
    contract
        .internal_deposit_and_stake(&env, accounts(0).to_string(), 30_000_000_000_000)
        .unwrap();

    context.block_index(10);
    context.epoch_height(10);
    context.predecessor_account_id(accounts(0));
    let env = testing_env(context.build());

    contract.internal_unstake(&env, accounts(0).to_string(), 10_000_000_000_000).unwrap();

    // Test deposit balance and
    let upgradable_account = contract.accounts.get(&accounts(0).to_string()).unwrap();
    let account: Account = Account::from(upgradable_account);

    assert_eq!(account.stake_balance, 20_000_000_000_000);
    assert_eq!(account.unstake_balance, 10_000_000_000_000);
    assert_eq!(account.last_block_balance_change, 10);
    assert_eq!(account.unstake_available_epoch_height, 11);
}

#[test]
fn withdraw_test() {
    let mut context = get_context(false);
    context.block_index(0);
    let env = testing_env(context.build());

    let mut contract: StakingContract = StakingContract::new_default_config(
        &env,
        accounts(1).to_string(),
        accounts(1).to_string(),
    );
    contract.internal_create_account(&env, env.predecessor_account_id.clone());

    context.predecessor_account_id(accounts(1));
    let env = testing_env(context.build());
    contract
        .internal_deposit_and_stake(&env, accounts(0).to_string(), 30_000_000_000_000)
        .unwrap();

    context.block_index(10);
    context.epoch_height(10);
    context.predecessor_account_id(accounts(0));
    let env = testing_env(context.build());
    contract.internal_unstake(&env, accounts(0).to_string(), 10_000_000_000_000).unwrap();

    // the cooldown ends at epoch 11
    assert_eq!(
        contract.internal_withdraw(&env, accounts(0).to_string()),
        Err(StakingError::DisableWithdraw)
    );
    let untouched = Account::from(contract.accounts.get(&accounts(0).to_string()).unwrap());
    assert_eq!(untouched.unstake_balance, 10_000_000_000_000);
    assert_eq!(untouched.unstake_available_epoch_height, 11);

    context.epoch_height(11);
    let env = testing_env(context.build());
    let old_account = contract.internal_withdraw(&env, accounts(0).to_string()).unwrap();
    assert_eq!(old_account.unstake_balance, 10_000_000_000_000);
    assert_eq!(old_account.unstake_available_epoch_height, 11);

    let account = Account::from(contract.accounts.get(&accounts(0).to_string()).unwrap());
    assert_eq!(account.stake_balance, 20_000_000_000_000);
    assert_eq!(account.unstake_balance, 0);
    assert_eq!(account.unstake_start_timestamp, 0);
    assert_eq!(account.unstake_available_epoch_height, 0);
    assert_eq!(contract.total_stake_balance, 20_000_000_000_000);
}
