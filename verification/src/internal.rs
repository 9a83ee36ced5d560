//! The state machine of the pool: what a deposit, an unstake and a withdrawal
//! do to an account and to the pool's totals.

use vstd::prelude::*;
use crate::account::{Account, UpgradableAccount};
use crate::context::Context;
use crate::error::StakingError;
use crate::laws::{step, Operation};
use crate::ledger::{inserted, lemma_inserted, staked_by};
use crate::reward::{accrue, accrue_spec, reference_block, reference_block_spec};
use crate::{StakingContract, NUM_EPOCHS_TO_UNLOCK};

verus! {

impl StakingContract {
    /// The height against which accrual is measured during the call.
    pub open spec fn reference_block(&self, ctx: &Context) -> u64 {
        reference_block_spec(self.paused, self.paused_in_block, ctx.block_index)
    }

    /// The reward that `account` has earned on its staked principal since its
    /// checkpoint; `None` where it cannot be computed.
    pub open spec fn account_reward(&self, ctx: &Context, account: Account) -> Option<u128> {
        accrue_spec(
            account.stake_balance,
            self.config.reward_numerator,
            self.config.reward_denumerator,
            self.reference_block(ctx),
            account.last_block_balance_change,
        )
    }

    /// The reward that the pool as a whole has earned on its staked total
    /// since its checkpoint; `None` where it cannot be computed.
    pub open spec fn global_reward(&self, ctx: &Context) -> Option<u128> {
        accrue_spec(
            self.total_stake_balance,
            self.config.reward_numerator,
            self.config.reward_denumerator,
            self.reference_block(ctx),
            self.last_block_balance_change,
        )
    }

    /// The reward that `account` could harvest now: what was checkpointed
    /// plus what has accrued since. `None` where it cannot be computed or
    /// does not fit.
    pub open spec fn pending_reward(&self, ctx: &Context, account: Account) -> Option<u128> {
        match self.account_reward(ctx, account) {
            Some(reward) => if account.pre_reward + reward <= u128::MAX {
                Some((account.pre_reward + reward) as u128)
            } else {
                None
            },
            None => None,
        }
    }

    /// The reward that the pool as a whole owes now: what was checkpointed
    /// plus what has accrued since. `None` where it cannot be computed or
    /// does not fit.
    pub open spec fn total_pending_reward(&self, ctx: &Context) -> Option<u128> {
        match self.global_reward(ctx) {
            Some(reward) => if self.pre_reward + reward <= u128::MAX {
                Some((self.pre_reward + reward) as u128)
            } else {
                None
            },
            None => None,
        }
    }

    /// Whether every sum of a deposit of `amount` into `account` stays in
    /// range.
    pub open spec fn deposit_fits(&self, ctx: &Context, account: Account, amount: u128) -> bool {
        &&& account.stake_balance == 0 ==> self.total_staker < u128::MAX
        &&& self.pending_reward(ctx, account) is Some
        &&& account.stake_balance + amount <= u128::MAX
        &&& self.total_pending_reward(ctx) is Some
        &&& self.total_stake_balance + amount <= u128::MAX
    }

    /// Why a deposit of `amount` for `account_id` is rejected, if it is.
    pub open spec fn deposit_rejection(
        &self,
        ctx: &Context,
        account_id: Seq<char>,
        amount: u128,
    ) -> Option<StakingError> {
        match self.accounts.spec_get(account_id) {
            None => Some(StakingError::NotFoundAccount),
            Some(stored) => if self.paused {
                Some(StakingError::ContractPaused)
            } else if self.ft_contract_id@ != ctx.predecessor_account_id@ {
                Some(StakingError::NotValidFtContract)
            } else if !self.deposit_fits(ctx, stored.account(), amount) {
                Some(StakingError::ArithmeticOverflow)
            } else {
                None
            },
        }
    }

    /// The record of `account` after a deposit of `amount`: what has accrued
    /// is checkpointed at the current block and `amount` joins the staked
    /// principal.
    pub open spec fn deposit_record(
        &self,
        ctx: &Context,
        account: Account,
        amount: u128,
    ) -> Account {
        Account {
            pre_stake_balance: account.stake_balance,
            pre_reward: self.pending_reward(ctx, account).unwrap(),
            stake_balance: (account.stake_balance + amount) as u128,
            last_block_balance_change: ctx.block_index,
            ..account
        }
    }

    /// `self` is `before` after a deposit of `amount` for `account_id`: the
    /// account's accrued reward is checkpointed and `amount` joins its staked
    /// principal; the pool's accrued reward is checkpointed and `amount`
    /// joins its staked total; an account that had nothing staked counts as
    /// a new staker.
    pub open spec fn deposited(
        &self,
        before: &StakingContract,
        ctx: &Context,
        account_id: Seq<char>,
        amount: u128,
    ) -> bool {
        let account = before.record(account_id);
        &&& self.accounts@ == inserted(
            before.accounts@,
            account_id,
            UpgradableAccount::Current(before.deposit_record(ctx, account, amount)),
        )
        &&& self.total_staker == before.total_staker + (if account.stake_balance == 0 {
            1int
        } else {
            0int
        })
        &&& self.total_stake_balance == before.total_stake_balance + amount
        &&& self.pre_reward == before.total_pending_reward(ctx).unwrap()
        &&& self.last_block_balance_change == ctx.block_index
        &&& self.total_paid_reward_balance == before.total_paid_reward_balance
        &&& self.same_settings(before)
    }

    /// Whether every sum and difference of an unstake of `amount` from
    /// `account` stays in range.
    pub open spec fn unstake_fits(&self, ctx: &Context, account: Account, amount: u128) -> bool {
        &&& self.pending_reward(ctx, account) is Some
        &&& ctx.epoch_height + NUM_EPOCHS_TO_UNLOCK <= u64::MAX
        &&& account.unstake_balance + amount <= u128::MAX
        &&& account.stake_balance == amount ==> self.total_staker > 0
        &&& self.total_pending_reward(ctx) is Some
        &&& amount <= self.total_stake_balance
    }

    /// Why an unstake of `amount` by `account_id` is rejected, if it is.
    pub open spec fn unstake_rejection(
        &self,
        ctx: &Context,
        account_id: Seq<char>,
        amount: u128,
    ) -> Option<StakingError> {
        match self.accounts.spec_get(account_id) {
            None => Some(StakingError::NotFoundAccount),
            Some(stored) => if amount > stored.account().stake_balance {
                Some(StakingError::AmountMustLessThanBalance)
            } else if !self.unstake_fits(ctx, stored.account(), amount) {
                Some(StakingError::ArithmeticOverflow)
            } else {
                None
            },
        }
    }

    /// The record of `account` after an unstake of `amount`: what has accrued
    /// is checkpointed at the current block, `amount` moves from the staked
    /// principal into cooldown, and the cooldown starts now and ends
    /// `NUM_EPOCHS_TO_UNLOCK` epochs from now.
    pub open spec fn unstake_record(
        &self,
        ctx: &Context,
        account: Account,
        amount: u128,
    ) -> Account {
        Account {
            pre_stake_balance: account.stake_balance,
            pre_reward: self.pending_reward(ctx, account).unwrap(),
            stake_balance: (account.stake_balance - amount) as u128,
            last_block_balance_change: ctx.block_index,
            unstake_available_epoch_height: (ctx.epoch_height + NUM_EPOCHS_TO_UNLOCK) as u64,
            unstake_balance: (account.unstake_balance + amount) as u128,
            unstake_start_timestamp: ctx.block_timestamp,
        }
    }

    /// `self` is `before` after `account_id` unstaked `amount`: the
    /// account's accrued reward is checkpointed, `amount` moves from its
    /// staked principal into cooldown, and the cooldown ends
    /// `NUM_EPOCHS_TO_UNLOCK` epochs from now; the pool's accrued reward is
    /// checkpointed and `amount` leaves its staked total; an account left
    /// with nothing staked no longer counts as a staker.
    pub open spec fn unstaked(
        &self,
        before: &StakingContract,
        ctx: &Context,
        account_id: Seq<char>,
        amount: u128,
    ) -> bool {
        let account = before.record(account_id);
        &&& self.accounts@ == inserted(
            before.accounts@,
            account_id,
            UpgradableAccount::Current(before.unstake_record(ctx, account, amount)),
        )
        &&& self.total_staker == before.total_staker - (if account.stake_balance == amount {
            1int
        } else {
            0int
        })
        &&& self.total_stake_balance == before.total_stake_balance - amount
        &&& self.pre_reward == before.total_pending_reward(ctx).unwrap()
        &&& self.last_block_balance_change == ctx.block_index
        &&& self.total_paid_reward_balance == before.total_paid_reward_balance
        &&& self.same_settings(before)
    }

    /// Why a withdrawal by `account_id` is rejected, if it is: the account
    /// has nothing in cooldown, or the cooldown has not elapsed.
    pub open spec fn withdraw_rejection(&self, ctx: &Context, account_id: Seq<char>) -> Option<
        StakingError,
    > {
        match self.accounts.spec_get(account_id) {
            None => Some(StakingError::NotFoundAccount),
            Some(stored) => if stored.account().unstake_balance == 0 {
                Some(StakingError::UnstakeBalanceIsZero)
            } else if stored.account().unstake_available_epoch_height > ctx.epoch_height {
                Some(StakingError::DisableWithdraw)
            } else {
                None
            },
        }
    }

    /// `self` is `before` after the cooldown fields of `account_id` were
    /// cleared for a withdrawal; nothing else has changed.
    pub open spec fn withdrawn(&self, before: &StakingContract, account_id: Seq<char>) -> bool {
        let account = before.record(account_id);
        &&& self.accounts@ == inserted(
            before.accounts@,
            account_id,
            UpgradableAccount::Current(account.without_cooldown()),
        )
        &&& self.same_totals(before)
        &&& self.same_settings(before)
    }

    /// `self` is `before` with an empty record for `account_id`,
    /// checkpointed at the current block; nothing else has changed.
    pub open spec fn account_created(
        &self,
        before: &StakingContract,
        ctx: &Context,
        account_id: Seq<char>,
    ) -> bool {
        &&& self.accounts@ == inserted(
            before.accounts@,
            account_id,
            UpgradableAccount::Current(Account::empty_spec(ctx.block_index)),
        )
        &&& self.same_totals(before)
        &&& self.same_settings(before)
    }

    /// Records an incoming transfer of `amount` as a stake of `account_id`.
    /// The deposit is rejected where the account has no record, the pool is
    /// paused, the caller is not the transfer service, or a balance would
    /// leave its range or the accrual cannot be computed.
    pub fn internal_deposit_and_stake(
        &mut self,
        ctx: &Context,
        account_id: String,
        amount: u128,
    ) -> (r: Result<(), StakingError>)
        ensures
            match old(self).deposit_rejection(ctx, account_id@, amount) {
                Some(e) => r == Err::<(), StakingError>(e) && *final(self) == *old(self),
                None => r is Ok && final(self).deposited(old(self), ctx, account_id@, amount),
            },
            step(
                old(self),
                final(self),
                Operation::Deposit { ctx: *ctx, account_id: account_id@, amount },
            ),
            old(self).conserves_stake() ==> final(self).conserves_stake(),
            old(self).counts_stakers() && (amount > 0 || staked_by(old(self).accounts@, account_id@)
                > 0) ==> final(self).counts_stakers(),
    {
        let stored = match self.accounts.get(&account_id) {
            Some(stored) => stored,
            None => {
                return Err(StakingError::NotFoundAccount);
            },
        };
        if self.paused {
            return Err(StakingError::ContractPaused);
        }
        if !(self.ft_contract_id == ctx.predecessor_account_id) {
            return Err(StakingError::NotValidFtContract);
        }
        let account = Account::from(stored);
        let total_staker = if account.stake_balance == 0 {
            match self.total_staker.checked_add(1) {
                Some(total_staker) => total_staker,
                None => {
                    return Err(StakingError::ArithmeticOverflow);
                },
            }
        } else {
            self.total_staker
        };
        let pre_reward = match self.checkpoint_reward(ctx, &account) {
            Some(pre_reward) => pre_reward,
            None => {
                return Err(StakingError::ArithmeticOverflow);
            },
        };
        let stake_balance = match account.stake_balance.checked_add(amount) {
            Some(stake_balance) => stake_balance,
            None => {
                return Err(StakingError::ArithmeticOverflow);
            },
        };
        let pool_reward = match self.checkpoint_global_reward(ctx) {
            Some(pool_reward) => pool_reward,
            None => {
                return Err(StakingError::ArithmeticOverflow);
            },
        };
        let total_stake_balance = match self.total_stake_balance.checked_add(amount) {
            Some(total_stake_balance) => total_stake_balance,
            None => {
                return Err(StakingError::ArithmeticOverflow);
            },
        };
        let staked = Account {
            stake_balance,
            pre_stake_balance: account.stake_balance,
            pre_reward,
            last_block_balance_change: ctx.block_index,
            unstake_balance: account.unstake_balance,
            unstake_start_timestamp: account.unstake_start_timestamp,
            unstake_available_epoch_height: account.unstake_available_epoch_height,
        };
        proof {
            use_type_invariant(&self.accounts);
            lemma_inserted(self.accounts@, account_id@, UpgradableAccount::Current(staked));
        }
        self.accounts.insert(&account_id, &UpgradableAccount::from(staked));
        self.total_staker = total_staker;
        self.total_stake_balance = total_stake_balance;
        self.pre_reward = pool_reward;
        self.last_block_balance_change = ctx.block_index;
        Ok(())
    }

    /// Moves `amount` of the staked principal of `account_id` into cooldown.
    /// The unstake is rejected where the account has no record, `amount` is
    /// more than it has staked, or a balance would leave its range or the
    /// accrual cannot be computed.
    pub fn internal_unstake(&mut self, ctx: &Context, account_id: String, amount: u128) -> (r:
        Result<(), StakingError>)
        ensures
            match old(self).unstake_rejection(ctx, account_id@, amount) {
                Some(e) => r == Err::<(), StakingError>(e) && *final(self) == *old(self),
                None => r is Ok && final(self).unstaked(old(self), ctx, account_id@, amount),
            },
            step(
                old(self),
                final(self),
                Operation::Unstake { ctx: *ctx, account_id: account_id@, amount },
            ),
            old(self).conserves_stake() ==> final(self).conserves_stake(),
            old(self).counts_stakers() && staked_by(old(self).accounts@, account_id@) > 0
                ==> final(self).counts_stakers(),
    {
        let stored = match self.accounts.get(&account_id) {
            Some(stored) => stored,
            None => {
                return Err(StakingError::NotFoundAccount);
            },
        };
        let account = Account::from(stored);
        if amount > account.stake_balance {
            return Err(StakingError::AmountMustLessThanBalance);
        }
        let pre_reward = match self.checkpoint_reward(ctx, &account) {
            Some(pre_reward) => pre_reward,
            None => {
                return Err(StakingError::ArithmeticOverflow);
            },
        };
        let stake_balance = account.stake_balance - amount;
        let unstake_available_epoch_height = match ctx.epoch_height.checked_add(
            NUM_EPOCHS_TO_UNLOCK,
        ) {
            Some(epoch) => epoch,
            None => {
                return Err(StakingError::ArithmeticOverflow);
            },
        };
        let unstake_balance = match account.unstake_balance.checked_add(amount) {
            Some(unstake_balance) => unstake_balance,
            None => {
                return Err(StakingError::ArithmeticOverflow);
            },
        };
        let total_staker = if stake_balance == 0 {
            match self.total_staker.checked_sub(1) {
                Some(total_staker) => total_staker,
                None => {
                    return Err(StakingError::ArithmeticOverflow);
                },
            }
        } else {
            self.total_staker
        };
        let pool_reward = match self.checkpoint_global_reward(ctx) {
            Some(pool_reward) => pool_reward,
            None => {
                return Err(StakingError::ArithmeticOverflow);
            },
        };
        let total_stake_balance = match self.total_stake_balance.checked_sub(amount) {
            Some(total_stake_balance) => total_stake_balance,
            None => {
                return Err(StakingError::ArithmeticOverflow);
            },
        };
        let unstaked = Account {
            stake_balance,
            pre_stake_balance: account.stake_balance,
            pre_reward,
            last_block_balance_change: ctx.block_index,
            unstake_balance,
            unstake_start_timestamp: ctx.block_timestamp,
            unstake_available_epoch_height,
        };
        proof {
            use_type_invariant(&self.accounts);
            lemma_inserted(self.accounts@, account_id@, UpgradableAccount::Current(unstaked));
        }
        self.accounts.insert(&account_id, &UpgradableAccount::from(unstaked));
        self.total_staker = total_staker;
        self.total_stake_balance = total_stake_balance;
        self.pre_reward = pool_reward;
        self.last_block_balance_change = ctx.block_index;
        Ok(())
    }

    /// Clears the cooldown fields of `account_id` ahead of the transfer of
    /// its unstaked principal, and returns the record as it was, from which
    /// the fields can be restored should the transfer fail. The withdrawal is
    /// rejected where the account has no record, has nothing in cooldown, or
    /// its cooldown has not elapsed.
    pub fn internal_withdraw(&mut self, ctx: &Context, account_id: String) -> (r: Result<
        Account,
        StakingError,
    >)
        ensures
            match old(self).withdraw_rejection(ctx, account_id@) {
                Some(e) => r == Err::<Account, StakingError>(e) && *final(self) == *old(self),
                None => r == Ok::<Account, StakingError>(
                    old(self).record(account_id@),
                ) && final(self).withdrawn(old(self), account_id@),
            },
            step(
                old(self),
                final(self),
                Operation::Withdraw { ctx: *ctx, account_id: account_id@ },
            ),
            old(self).conserves_stake() ==> final(self).conserves_stake(),
            old(self).counts_stakers() ==> final(self).counts_stakers(),
    {
        let stored = match self.accounts.get(&account_id) {
            Some(stored) => stored,
            None => {
                return Err(StakingError::NotFoundAccount);
            },
        };
        let account = Account::from(stored);
        if account.unstake_balance == 0 {
            return Err(StakingError::UnstakeBalanceIsZero);
        }
        if account.unstake_available_epoch_height > ctx.epoch_height {
            return Err(StakingError::DisableWithdraw);
        }
        let new_account = Account {
            pre_reward: account.pre_reward,
            stake_balance: account.stake_balance,
            pre_stake_balance: account.pre_stake_balance,
            last_block_balance_change: account.last_block_balance_change,
            unstake_balance: 0,
            unstake_start_timestamp: 0,
            unstake_available_epoch_height: 0,
        };
        proof {
            use_type_invariant(&self.accounts);
            lemma_inserted(self.accounts@, account_id@, UpgradableAccount::Current(new_account));
        }
        self.accounts.insert(&account_id, &UpgradableAccount::from(new_account));
        Ok(account)
    }

    /// The reward that `account` has earned on its staked principal since
    /// its checkpoint. Accrual stops at the block in which the pool was
    /// paused.
    pub fn internal_calculate_account_reward(&self, ctx: &Context, account: &Account) -> (r:
        Result<u128, StakingError>)
        ensures
            match self.account_reward(ctx, *account) {
                Some(reward) => r == Ok::<u128, StakingError>(reward),
                None => r == Err::<u128, StakingError>(StakingError::ArithmeticOverflow),
            },
    {
        let lasted_block = reference_block(self.paused, self.paused_in_block, ctx.block_index);
        match accrue(
            account.stake_balance,
            self.config.reward_numerator,
            self.config.reward_denumerator,
            lasted_block,
            account.last_block_balance_change,
        ) {
            Some(reward) => Ok(reward),
            None => Err(StakingError::ArithmeticOverflow),
        }
    }

    /// The reward that the pool as a whole has earned on its staked total
    /// since its checkpoint. Accrual stops at the block in which the pool
    /// was paused.
    pub fn internal_calculate_global_reward(&self, ctx: &Context) -> (r: Result<
        u128,
        StakingError,
    >)
        ensures
            match self.global_reward(ctx) {
                Some(reward) => r == Ok::<u128, StakingError>(reward),
                None => r == Err::<u128, StakingError>(StakingError::ArithmeticOverflow),
            },
    {
        let lasted_block = reference_block(self.paused, self.paused_in_block, ctx.block_index);
        match accrue(
            self.total_stake_balance,
            self.config.reward_numerator,
            self.config.reward_denumerator,
            lasted_block,
            self.last_block_balance_change,
        ) {
            Some(reward) => Ok(reward),
            None => Err(StakingError::ArithmeticOverflow),
        }
    }

    /// The checkpointed reward of `account` plus what has accrued since.
    pub(crate) fn checkpoint_reward(&self, ctx: &Context, account: &Account) -> (r: Option<u128>)
        ensures
            r == self.pending_reward(ctx, *account),
    {
        match self.internal_calculate_account_reward(ctx, account) {
            Ok(reward) => account.pre_reward.checked_add(reward),
            Err(_) => None,
        }
    }

    /// The checkpointed reward of the pool plus what has accrued since.
    pub(crate) fn checkpoint_global_reward(&self, ctx: &Context) -> (r: Option<u128>)
        ensures
            r == self.total_pending_reward(ctx),
    {
        match self.internal_calculate_global_reward(ctx) {
            Ok(reward) => self.pre_reward.checked_add(reward),
            Err(_) => None,
        }
    }

    /// Gives `account` an empty record, checkpointed at the current block.
    /// A record that `account` already had is replaced, so the pool's totals
    /// stay true only where that record held nothing staked.
    pub fn internal_create_account(&mut self, ctx: &Context, account: String)
        ensures
            final(self).account_created(old(self), ctx, account@),
            old(self).conserves_stake() && staked_by(old(self).accounts@, account@) == 0
                ==> final(self).conserves_stake(),
            old(self).counts_stakers() && staked_by(old(self).accounts@, account@) == 0
                ==> final(self).counts_stakers(),
    {
        let new_account = Account {
            stake_balance: 0,
            pre_stake_balance: 0,
            pre_reward: 0,
            last_block_balance_change: ctx.block_index,
            unstake_balance: 0,
            unstake_available_epoch_height: 0,
            unstake_start_timestamp: 0,
        };
        let upgrade_account = UpgradableAccount::from(new_account);
        proof {
            use_type_invariant(&self.accounts);
            lemma_inserted(self.accounts@, account@, upgrade_account);
        }
        self.accounts.insert(&account, &upgrade_account);
    }
}

} // verus!
