//! What the pool reports of itself and of its accounts. Nothing here changes
//! the ledger.

use vstd::prelude::*;
use crate::account::{Account, AccountJson};
use crate::context::Context;
use crate::error::StakingError;
use crate::StakingContract;

verus! {

/// What is reported of the pool as a whole.
#[derive(Clone, Copy, Debug, PartialEq, Eq, Structural)]
pub struct PoolInfo {
    /// The sum of the staked principal of all accounts.
    pub total_stake_balance: u128,
    /// The reward that the pool owes now.
    pub total_reward: u128,
    /// The number of accounts that hold staked principal.
    pub total_stakers: u128,
    /// Whether the pool is paused.
    pub is_paused: bool,
}

impl StakingContract {
    /// What [`StakingContract::get_account_reward`] returns.
    pub open spec fn account_reward_report(&self, ctx: &Context, account_id: Seq<char>) -> Result<
        u128,
        StakingError,
    > {
        match self.accounts.spec_get(account_id) {
            None => Err(StakingError::NotFoundAccount),
            Some(stored) => match self.pending_reward(ctx, stored.account()) {
                None => Err(StakingError::ArithmeticOverflow),
                Some(reward) => Ok(reward),
            },
        }
    }

    /// The reward that `account_id` could harvest now: what was checkpointed
    /// plus what has accrued since.
    pub fn get_account_reward(&self, ctx: &Context, account_id: String) -> (r: Result<
        u128,
        StakingError,
    >)
        ensures
            r == self.account_reward_report(ctx, account_id@),
    {
        let upgradable_account = match self.accounts.get(&account_id) {
            Some(stored) => stored,
            None => {
                return Err(StakingError::NotFoundAccount);
            },
        };
        let account = Account::from(upgradable_account);
        match self.checkpoint_reward(ctx, &account) {
            Some(reward) => Ok(reward),
            None => Err(StakingError::ArithmeticOverflow),
        }
    }

    /// The balances of `account_id`, its pending reward, and whether its
    /// cooldown has elapsed at the current epoch.
    pub fn get_account_info(&self, ctx: &Context, account_id: String) -> (r: Result<
        AccountJson,
        StakingError,
    >)
        ensures
            match self.account_reward_report(ctx, account_id@) {
                Err(e) => r == Err::<AccountJson, StakingError>(e),
                Ok(reward) => {
                    let account = self.record(account_id@);
                    &&& r is Ok
                    &&& r->Ok_0.account_id@ == account_id@
                    &&& r->Ok_0.stake_balance == account.stake_balance
                    &&& r->Ok_0.unstake_balance == account.unstake_balance
                    &&& r->Ok_0.reward == reward
                    &&& r->Ok_0.can_withdraw == (account.unstake_available_epoch_height
                        <= ctx.epoch_height)
                    &&& r->Ok_0.start_unstake_timestamp == account.unstake_start_timestamp
                    &&& r->Ok_0.unstake_available_epoch == account.unstake_available_epoch_height
                    &&& r->Ok_0.current_epoch == ctx.epoch_height
                },
            },
    {
        let upgradable_account = match self.accounts.get(&account_id) {
            Some(stored) => stored,
            None => {
                return Err(StakingError::NotFoundAccount);
            },
        };
        let account = Account::from(upgradable_account);
        let reward = match self.checkpoint_reward(ctx, &account) {
            Some(reward) => reward,
            None => {
                return Err(StakingError::ArithmeticOverflow);
            },
        };
        Ok(
            AccountJson {
                account_id,
                stake_balance: account.stake_balance,
                unstake_balance: account.unstake_balance,
                reward,
                can_withdraw: account.unstake_available_epoch_height <= ctx.epoch_height,
                start_unstake_timestamp: account.unstake_start_timestamp,
                unstake_available_epoch: account.unstake_available_epoch_height,
                current_epoch: ctx.epoch_height,
            },
        )
    }

    /// The pool's totals, the reward that it owes now, and whether it is
    /// paused.
    pub fn get_pool_info(&self, ctx: &Context) -> (r: Result<PoolInfo, StakingError>)
        ensures
            match self.total_pending_reward(ctx) {
                None => r == Err::<PoolInfo, StakingError>(StakingError::ArithmeticOverflow),
                Some(reward) => r == Ok::<PoolInfo, StakingError>(
                    PoolInfo {
                        total_stake_balance: self.total_stake_balance,
                        total_reward: reward,
                        total_stakers: self.total_staker,
                        is_paused: self.paused,
                    },
                ),
            },
    {
        match self.checkpoint_global_reward(ctx) {
            Some(total_reward) => Ok(
                PoolInfo {
                    total_stake_balance: self.total_stake_balance,
                    total_reward,
                    total_stakers: self.total_staker,
                    is_paused: self.paused,
                },
            ),
            None => Err(StakingError::ArithmeticOverflow),
        }
    }
}

} // verus!
