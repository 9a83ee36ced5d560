use staking_contract::core_impl::PromiseOutcome;
use staking_contract::{Account, Context, StakingContract, StakingError};

const OWNER: &str = "owner";
const FT: &str = "token";
const NAMES: [&str; 3] = ["alice", "bob", "carol"];

fn call(predecessor: &str, block_index: u64, epoch_height: u64) -> Context {
    Context {
        predecessor_account_id: predecessor.to_string(),
        current_account_id: "pool".to_string(),
        block_index,
        block_timestamp: block_index * 1_000,
        epoch_height,
        attached_deposit: 1,
    }
}

fn new_pool() -> StakingContract {
    let mut pool =
        StakingContract::new_default_config(&call(OWNER, 0, 0), OWNER.to_string(), FT.to_string());
    for name in NAMES {
        pool.storage_deposit(&call(name, 0, 0), None).unwrap();
    }
    pool
}

fn record(pool: &StakingContract, account_id: &str) -> Account {
    Account::from(pool.accounts.get(&account_id.to_string()).unwrap())
}

fn assert_totals_are_true(pool: &StakingContract) {
    let stakes: Vec<u128> = NAMES.iter().map(|name| record(pool, name).stake_balance).collect();
    assert_eq!(pool.total_stake_balance, stakes.iter().sum::<u128>());
    assert_eq!(pool.total_staker, stakes.iter().filter(|stake| **stake > 0).count() as u128);
}

#[test]
fn the_totals_follow_every_deposit_and_unstake() {
    let mut pool = new_pool();
    assert_totals_are_true(&pool);

    let steps: [(&str, bool, u128); 12] = [
        ("alice", true, 100),
        ("bob", true, 250),
        ("alice", false, 40),
        ("carol", true, 1),
        ("carol", false, 1),
        ("bob", false, 251),
        ("bob", false, 250),
        ("alice", true, 1_000_000),
        ("dave", true, 5),
        ("carol", true, 77),
        ("alice", false, 1_000_060),
        ("carol", false, 7),
    ];
    let mut block = 1;
    for (name, deposit, amount) in steps {
        let outcome = if deposit {
            pool.internal_deposit_and_stake(&call(FT, block, block / 3), name.to_string(), amount)
        } else {
            pool.internal_unstake(&call(name, block, block / 3), name.to_string(), amount)
        };
        match (name, deposit, amount) {
            ("bob", false, 251) => assert_eq!(outcome, Err(StakingError::AmountMustLessThanBalance)),
            ("dave", _, _) => assert_eq!(outcome, Err(StakingError::NotFoundAccount)),
            _ => assert_eq!(outcome, Ok(())),
        }
        assert_totals_are_true(&pool);
        block += 7;
    }
    assert_eq!(record(&pool, "alice").stake_balance, 0);
    assert_eq!(record(&pool, "bob").stake_balance, 0);
    assert_eq!(record(&pool, "carol").stake_balance, 70);
    assert_eq!(pool.total_stake_balance, 70);
    assert_eq!(pool.total_staker, 1);
}

#[test]
fn the_totals_follow_withdrawals_and_continuations() {
    let mut pool = new_pool();
    pool.internal_deposit_and_stake(&call(FT, 1, 0), "alice".to_string(), 500).unwrap();
    pool.internal_deposit_and_stake(&call(FT, 1, 0), "bob".to_string(), 300).unwrap();
    pool.unstake(&call("alice", 2, 0), 500).unwrap();
    assert_totals_are_true(&pool);

    let snapshot = pool.internal_withdraw(&call("alice", 3, 1), "alice".to_string()).unwrap();
    assert_totals_are_true(&pool);
    pool.internal_deposit_and_stake(&call(FT, 4, 1), "alice".to_string(), 20).unwrap();
    assert_totals_are_true(&pool);
    pool.ft_withdraw_callback(&vec![PromiseOutcome::Failed], "alice".to_string(), snapshot).unwrap();
    assert_totals_are_true(&pool);
    pool.ft_transfer_callback(
        &call("pool", 5, 1),
        &vec![PromiseOutcome::Successful],
        3,
        "bob".to_string(),
    )
    .unwrap();
    assert_totals_are_true(&pool);
    assert_eq!(pool.total_stake_balance, 320);
    assert_eq!(pool.total_staker, 2);
}

#[test]
fn a_deposit_of_nothing_into_an_empty_account_still_counts_a_staker() {
    let mut pool = new_pool();
    pool.internal_deposit_and_stake(&call(FT, 1, 0), "alice".to_string(), 0).unwrap();
    assert_eq!(record(&pool, "alice").stake_balance, 0);
    assert_eq!(pool.total_stake_balance, 0);
    assert_eq!(pool.total_staker, 1);
    // and an unstake of nothing takes the count back
    pool.internal_unstake(&call("alice", 2, 0), "alice".to_string(), 0).unwrap();
    assert_eq!(pool.total_staker, 0);
    assert_eq!(
        pool.internal_unstake(&call("alice", 3, 0), "alice".to_string(), 0),
        Err(StakingError::ArithmeticOverflow)
    );
}

#[test]
fn the_pending_reward_grows_with_the_blocks() {
    let mut pool = new_pool();
    pool.internal_deposit_and_stake(&call(FT, 100, 0), "alice".to_string(), 10_000_000_000_000)
        .unwrap();
    let mut last = 0;
    for block in 100..400 {
        let reward = pool.get_account_reward(&call("x", block, 0), "alice".to_string()).unwrap();
        assert!(reward >= last);
        // exactly the rate times the principal times the blocks gone by
        assert_eq!(reward, 71_500 * (block as u128 - 100));
        last = reward;
    }
    // twice the principal earns twice as much over the same blocks
    pool.internal_deposit_and_stake(&call(FT, 100, 0), "bob".to_string(), 20_000_000_000_000)
        .unwrap();
    assert_eq!(
        pool.get_account_reward(&call("x", 250, 0), "bob".to_string()).unwrap(),
        2 * pool.get_account_reward(&call("x", 250, 0), "alice".to_string()).unwrap()
    );
    // principal in cooldown earns nothing
    pool.internal_unstake(&call("bob", 100, 0), "bob".to_string(), 10_000_000_000_000).unwrap();
    assert_eq!(
        pool.get_account_reward(&call("x", 250, 0), "bob".to_string()).unwrap(),
        pool.get_account_reward(&call("x", 250, 0), "alice".to_string()).unwrap()
    );
}

#[test]
fn a_pause_freezes_the_pending_reward() {
    let mut pool = new_pool();
    pool.internal_deposit_and_stake(&call(FT, 0, 0), "alice".to_string(), 10_000_000_000_000)
        .unwrap();
    pool.pause(&call(OWNER, 50, 0)).unwrap();

    let frozen = 71_500 * 50;
    for block in [50, 51, 60, 1_000, u64::MAX] {
        assert_eq!(pool.get_account_reward(&call("x", block, 0), "alice".to_string()), Ok(frozen));
        assert_eq!(pool.get_pool_info(&call("x", block, 0)).unwrap().total_reward, frozen);
        assert_eq!(
            pool.internal_calculate_account_reward(&call("x", block, 0), &record(&pool, "alice")),
            Ok(frozen)
        );
        assert_eq!(pool.internal_calculate_global_reward(&call("x", block, 0)), Ok(frozen));
    }
    assert!(pool.get_pool_info(&call("x", 60, 0)).unwrap().is_paused);

    // once the pool runs again the blocks count again, and the block of the
    // pause stays on record
    pool.unpause(&call(OWNER, 80, 0)).unwrap();
    assert_eq!(pool.paused_in_block, 50);
    assert_eq!(pool.get_account_reward(&call("x", 80, 0), "alice".to_string()), Ok(71_500 * 80));
    pool.internal_deposit_and_stake(&call(FT, 90, 0), "alice".to_string(), 1).unwrap();
    assert_eq!(record(&pool, "alice").pre_reward, 71_500 * 90);
    assert_eq!(record(&pool, "alice").last_block_balance_change, 90);
}

#[test]
fn an_account_checkpointed_during_a_pause_waits_for_the_pool_to_run() {
    let mut pool = new_pool();
    pool.internal_deposit_and_stake(&call(FT, 0, 0), "alice".to_string(), 10_000_000_000_000)
        .unwrap();
    pool.pause(&call(OWNER, 50, 0)).unwrap();
    pool.unstake(&call("alice", 70, 0), 1).unwrap();
    assert_eq!(record(&pool, "alice").pre_reward, 71_500 * 50);
    assert_eq!(record(&pool, "alice").last_block_balance_change, 70);
    // the reference block now lies before the checkpoint
    assert_eq!(
        pool.get_account_reward(&call("x", 75, 0), "alice".to_string()),
        Err(StakingError::ArithmeticOverflow)
    );
    pool.unpause(&call(OWNER, 80, 0)).unwrap();
    assert!(pool.get_account_reward(&call("x", 80, 0), "alice".to_string()).is_ok());
}

#[test]
fn a_withdrawal_waits_for_the_cooldown() {
    let mut pool = new_pool();
    pool.internal_deposit_and_stake(&call(FT, 0, 0), "alice".to_string(), 90).unwrap();
    pool.unstake(&call("alice", 1, 41), 30).unwrap();
    assert_eq!(record(&pool, "alice").unstake_available_epoch_height, 42);
    let waiting = record(&pool, "alice");

    for epoch in [0, 1, 40, 41] {
        assert_eq!(
            pool.internal_withdraw(&call("alice", 2, epoch), "alice".to_string()),
            Err(StakingError::DisableWithdraw)
        );
        assert_eq!(pool.withdraw(&call("alice", 2, epoch)).unwrap_err(), StakingError::DisableWithdraw);
        assert_eq!(record(&pool, "alice"), waiting);
    }
    for epoch in [42, 43, u64::MAX] {
        let mut at_epoch = new_pool();
        at_epoch.internal_deposit_and_stake(&call(FT, 0, 0), "alice".to_string(), 90).unwrap();
        at_epoch.unstake(&call("alice", 1, 41), 30).unwrap();
        assert_eq!(
            at_epoch.internal_withdraw(&call("alice", 2, epoch), "alice".to_string()),
            Ok(waiting)
        );
        assert_eq!(
            record(&at_epoch, "alice"),
            Account {
                unstake_balance: 0,
                unstake_start_timestamp: 0,
                unstake_available_epoch_height: 0,
                ..waiting
            }
        );
    }
    // an account with nothing in cooldown cannot withdraw at any epoch
    assert_eq!(
        pool.internal_withdraw(&call("bob", 2, 99), "bob".to_string()),
        Err(StakingError::UnstakeBalanceIsZero)
    );
}

#[test]
fn a_second_withdrawal_finds_nothing() {
    let mut pool = new_pool();
    pool.internal_deposit_and_stake(&call(FT, 0, 0), "alice".to_string(), 90).unwrap();
    pool.unstake(&call("alice", 1, 5), 30).unwrap();
    assert_eq!(pool.withdraw(&call("alice", 2, 6)).unwrap().amount, 30);
    for epoch in [6, 7, 100] {
        assert_eq!(
            pool.withdraw(&call("alice", 3, epoch)).unwrap_err(),
            StakingError::UnstakeBalanceIsZero
        );
        assert_eq!(
            pool.internal_withdraw(&call("alice", 3, epoch), "alice".to_string()),
            Err(StakingError::UnstakeBalanceIsZero)
        );
    }
    assert_eq!(record(&pool, "alice").stake_balance, 60);
}

#[test]
fn a_failed_transfer_gives_the_cooldown_back() {
    let mut pool = new_pool();
    pool.internal_deposit_and_stake(&call(FT, 0, 0), "alice".to_string(), 90).unwrap();
    pool.unstake(&call("alice", 1, 5), 30).unwrap();
    let before = record(&pool, "alice");
    assert_eq!(before.unstake_balance, 30);
    assert_eq!(before.unstake_start_timestamp, 1_000);
    assert_eq!(before.unstake_available_epoch_height, 6);

    let snapshot = pool.internal_withdraw(&call("alice", 2, 6), "alice".to_string()).unwrap();
    assert_eq!(snapshot, before);
    assert_eq!(
        pool.ft_withdraw_callback(&vec![PromiseOutcome::Failed], "alice".to_string(), snapshot),
        Ok(0)
    );
    let after = record(&pool, "alice");
    assert_eq!(after.unstake_balance, 30);
    assert_eq!(after.unstake_start_timestamp, 1_000);
    assert_eq!(after.unstake_available_epoch_height, 6);
    assert_eq!(after, before);

    // and the withdrawal can be made again
    assert_eq!(pool.withdraw(&call("alice", 3, 6)).unwrap().amount, 30);
}

#[test]
fn a_second_deposit_checkpoints_the_reward_of_the_first() {
    let mut pool = new_pool();
    pool.internal_deposit_and_stake(&call(FT, 0, 0), "alice".to_string(), 10_000_000_000_000)
        .unwrap();
    assert_eq!(
        pool.get_account_reward(&call("x", 10, 0), "alice".to_string()),
        Ok(10_000_000_000_000 * 715 * 10 / 100_000_000_000)
    );
    pool.internal_deposit_and_stake(&call(FT, 10, 0), "alice".to_string(), 20_000_000_000_000)
        .unwrap();
    assert_eq!(
        record(&pool, "alice"),
        Account {
            stake_balance: 30_000_000_000_000,
            pre_stake_balance: 10_000_000_000_000,
            pre_reward: 715_000,
            last_block_balance_change: 10,
            unstake_balance: 0,
            unstake_start_timestamp: 0,
            unstake_available_epoch_height: 0,
        }
    );
    assert_eq!(pool.pre_reward, 715_000);
    assert_eq!(pool.last_block_balance_change, 10);

    // a thousandth of the principal earns a thousandth of the reward
    let mut pool = new_pool();
    pool.internal_deposit_and_stake(&call(FT, 0, 0), "bob".to_string(), 10_000_000_000).unwrap();
    assert_eq!(pool.get_account_reward(&call("x", 10, 0), "bob".to_string()), Ok(715));
    pool.internal_deposit_and_stake(&call(FT, 10, 0), "bob".to_string(), 20_000_000_000).unwrap();
    assert_eq!(record(&pool, "bob").pre_reward, 715);
    assert_eq!(record(&pool, "bob").pre_stake_balance, 10_000_000_000);
    assert_eq!(record(&pool, "bob").stake_balance, 30_000_000_000);
    assert_eq!(record(&pool, "bob").last_block_balance_change, 10);
}

#[test]
fn an_unstake_can_be_withdrawn_one_epoch_later() {
    let mut pool = new_pool();
    pool.internal_deposit_and_stake(&call(FT, 0, 0), "alice".to_string(), 30_000_000_000_000)
        .unwrap();
    pool.unstake(&call("alice", 10, 10), 10_000_000_000_000).unwrap();
    let account = record(&pool, "alice");
    assert_eq!(account.stake_balance, 20_000_000_000_000);
    assert_eq!(account.unstake_balance, 10_000_000_000_000);
    assert_eq!(account.unstake_available_epoch_height, 11);

    assert_eq!(pool.withdraw(&call("alice", 11, 10)).unwrap_err(), StakingError::DisableWithdraw);
    let dispatch = pool.withdraw(&call("alice", 12, 11)).unwrap();
    assert_eq!(dispatch.amount, 10_000_000_000_000);
    assert_eq!(dispatch.receiver_id, "alice");
    assert_eq!(record(&pool, "alice").unstake_balance, 0);
    assert_eq!(record(&pool, "alice").stake_balance, 20_000_000_000_000);
}

#[test]
fn records_stay_and_checkpointed_reward_only_grows() {
    let mut pool = new_pool();
    let mut last = 0;
    let mut block = 0;
    for round in 0..6u64 {
        block += 10;
        pool.internal_deposit_and_stake(&call(FT, block, round), "alice".to_string(), 1_000_000_000)
            .unwrap();
        assert!(record(&pool, "alice").pre_reward >= last);
        last = record(&pool, "alice").pre_reward;

        block += 10;
        pool.unstake(&call("alice", block, round), 400_000_000).unwrap();
        assert!(record(&pool, "alice").pre_reward >= last);
        last = record(&pool, "alice").pre_reward;

        block += 10;
        let snapshot = pool.internal_withdraw(&call("alice", block, round + 1), "alice".to_string());
        assert_eq!(record(&pool, "alice").pre_reward, last);
        pool.ft_withdraw_callback(
            &vec![PromiseOutcome::Failed],
            "alice".to_string(),
            snapshot.unwrap(),
        )
        .unwrap();
        assert_eq!(record(&pool, "alice").pre_reward, last);
        assert!(pool.accounts.get(&"bob".to_string()).is_some());
        assert!(pool.accounts.get(&"carol".to_string()).is_some());
    }
    assert!(last > 0);

    // only a harvest that was paid out takes the checkpointed reward away
    pool.ft_transfer_callback(
        &call("pool", block, 9),
        &vec![PromiseOutcome::Successful],
        last,
        "alice".to_string(),
    )
    .unwrap();
    assert_eq!(record(&pool, "alice").pre_reward, 0);
    assert_eq!(pool.total_paid_reward_balance, last);
}

#[test]
fn a_pause_holds_until_the_owner_ends_it() {
    let mut pool = new_pool();
    pool.internal_deposit_and_stake(&call(FT, 0, 0), "alice".to_string(), 10_000_000_000_000)
        .unwrap();
    pool.internal_deposit_and_stake(&call(FT, 0, 0), "bob".to_string(), 10_000_000_000_000)
        .unwrap();
    pool.pause(&call(OWNER, 50, 0)).unwrap();
    let frozen = pool.get_account_reward(&call("x", 50, 0), "alice".to_string()).unwrap();

    // what others do, and a second pause, leave alice's pending reward alone
    pool.unstake(&call("bob", 60, 0), 5).unwrap();
    assert_eq!(
        pool.internal_deposit_and_stake(&call(FT, 61, 0), "bob".to_string(), 5),
        Err(StakingError::ContractPaused)
    );
    pool.pause(&call(OWNER, 70, 0)).unwrap();
    assert_eq!(pool.unpause(&call("bob", 71, 0)), Err(StakingError::OwnerRequired));
    assert!(pool.is_paused());
    assert_eq!(pool.paused_in_block, 50);
    assert_eq!(pool.get_account_reward(&call("x", 99, 0), "alice".to_string()), Ok(frozen));
    assert_eq!(frozen, 71_500 * 50);
}
