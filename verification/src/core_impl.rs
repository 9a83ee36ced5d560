//! The calls that move assets: deposits reported by the transfer service,
//! unstaking, and the two flows that end in an outgoing transfer whose
//! outcome arrives later.

use vstd::prelude::*;
use crate::account::{Account, UpgradableAccount};
use crate::context::Context;
use crate::error::StakingError;
use crate::laws::{step, Operation};
use crate::ledger::{inserted, lemma_inserted, staked_by};
use crate::util::assert_one_yocto;
use crate::{StakingContract, DEPOSIT_ONE_YOCTOR, NO_DEPOSIT};

verus! {

/// The gas given to an outgoing transfer.
pub const FT_TRANSFER_GAS: u64 = 10_000_000_000_000;

/// The gas given to the continuation of a withdrawal.
pub const WITHDRAW_CALLBACK_GAS: u64 = 10_000_000_000_000;

/// The gas given to the continuation of a harvest.
pub const HARVEST_CALLBACK_GAS: u64 = 10_000_000_000_000;

/// What a pool answers to the transfer service when it is told of an
/// incoming transfer.
pub trait FungibleTokenReceiver {
    /// Takes note of `amount` sent by `sender_id` and returns the part of it
    /// that was not used.
    fn ft_on_transfer(
        &mut self,
        ctx: &Context,
        sender_id: String,
        amount: u128,
        msg: String,
    ) -> Result<u128, StakingError>;
}

/// What the pool asks of the transfer service.
pub trait FungibleTokenCore {
    /// Moves `amount` to `receiver_id`.
    fn ft_transfer(&mut self, receiver_id: String, amount: u128, memo: Option<String>);
}

/// The continuations that the pool registers behind an outgoing transfer.
pub trait ExtStakingContract {
    /// Finishes a harvest of `amount` by `account_id`.
    fn ft_transfer_callback(
        &mut self,
        ctx: &Context,
        results: &Vec<PromiseOutcome>,
        amount: u128,
        account_id: String,
    ) -> Result<u128, StakingError>;

    /// Finishes a withdrawal by `account_id`, whose record was `old_account`
    /// when the transfer was sent.
    fn ft_withdraw_callback(
        &mut self,
        results: &Vec<PromiseOutcome>,
        account_id: String,
        old_account: Account,
    ) -> Result<u128, StakingError>;
}

/// What the host reports of a call that was sent earlier.
#[derive(Clone, Copy, Debug, PartialEq, Eq, Structural)]
pub enum PromiseOutcome {
    /// The call has not finished.
    NotReady,
    /// The call succeeded.
    Successful,
    /// The call failed.
    Failed,
}

/// What has to happen once an outgoing transfer has finished, with the data
/// needed to finalize or to roll back.
#[derive(Debug)]
pub enum Continuation {
    /// [`StakingContract::ft_transfer_callback`] is to be called with these
    /// arguments.
    Harvest {
        /// The reward that is being transferred.
        amount: u128,
        /// The account that harvests.
        account_id: String,
    },
    /// [`StakingContract::ft_withdraw_callback`] is to be called with these
    /// arguments.
    Withdraw {
        /// The account that withdraws.
        account_id: String,
        /// The account's record as it was before its cooldown fields were
        /// cleared.
        old_account: Account,
    },
}

/// An outgoing transfer that the host is to send, and the continuation that
/// it is to run, once, when the outcome is known.
#[derive(Debug)]
pub struct TransferDispatch {
    /// The transfer service that is called.
    pub ft_contract_id: String,
    /// Who receives the asset.
    pub receiver_id: String,
    /// How much is transferred.
    pub amount: u128,
    /// The note that goes with the transfer.
    pub memo: Option<String>,
    /// The deposit attached to the transfer.
    pub deposit: u128,
    /// The gas given to the transfer.
    pub gas: u64,
    /// What to run when the outcome is known.
    pub callback: Continuation,
    /// The account on which the continuation runs: the pool itself.
    pub callback_account_id: String,
    /// The deposit attached to the continuation.
    pub callback_deposit: u128,
    /// The gas given to the continuation.
    pub callback_gas: u64,
}

impl TransferDispatch {
    /// The dispatch asks the pool's transfer service to move `amount` to
    /// `receiver_id` with the note `memo`, and names the pool as the place
    /// where the continuation runs.
    pub open spec fn transfers(
        &self,
        pool: &StakingContract,
        ctx: &Context,
        receiver_id: Seq<char>,
        amount: u128,
        memo: Seq<char>,
    ) -> bool {
        &&& self.ft_contract_id@ == pool.ft_contract_id@
        &&& self.receiver_id@ == receiver_id
        &&& self.amount == amount
        &&& self.memo matches Some(note)
        &&& note@ == memo
        &&& self.deposit == DEPOSIT_ONE_YOCTOR
        &&& self.gas == FT_TRANSFER_GAS
        &&& self.callback_account_id@ == ctx.current_account_id@
        &&& self.callback_deposit == NO_DEPOSIT
    }

    /// The dispatch is the one of a withdrawal by `account_id`, whose record
    /// was `old_account`: the whole unstaked principal goes to the account,
    /// and the continuation gets the record to roll back to.
    pub open spec fn is_withdrawal(
        &self,
        pool: &StakingContract,
        ctx: &Context,
        account_id: Seq<char>,
        old_account: Account,
    ) -> bool {
        &&& self.transfers(
            pool,
            ctx,
            account_id,
            old_account.unstake_balance,
            "Staking contract withdraw"@,
        )
        &&& self.callback_gas == WITHDRAW_CALLBACK_GAS
        &&& self.callback matches Continuation::Withdraw { account_id: id, old_account: snapshot }
        &&& id@ == account_id
        &&& snapshot == old_account
    }

    /// The dispatch is the one of a harvest of `reward` by `account_id`: the
    /// reward goes to the account, and the continuation gets the amount to
    /// book.
    pub open spec fn is_harvest(
        &self,
        pool: &StakingContract,
        ctx: &Context,
        account_id: Seq<char>,
        reward: u128,
    ) -> bool {
        &&& self.transfers(pool, ctx, account_id, reward, "Staking contract harvest"@)
        &&& self.callback_gas == HARVEST_CALLBACK_GAS
        &&& self.callback matches Continuation::Harvest { amount, account_id: id }
        &&& id@ == account_id
        &&& amount == reward
    }
}

/// Why a continuation that was handed `results` may not go on, if it may not:
/// it must see exactly one result, and that result must be final.
pub open spec fn protocol_violation(results: Seq<PromiseOutcome>) -> Option<StakingError> {
    if results.len() != 1 {
        Some(StakingError::TooManyResults)
    } else if results[0] == PromiseOutcome::NotReady {
        Some(StakingError::ResultNotReady)
    } else {
        None
    }
}

/// The outcome of the one call that a continuation answers, or the protocol
/// violation that `results` shows.
pub fn single_outcome(results: &Vec<PromiseOutcome>) -> (r: Result<PromiseOutcome, StakingError>)
    ensures
        match protocol_violation(results@) {
            Some(e) => r == Err::<PromiseOutcome, StakingError>(e),
            None => r == Ok::<PromiseOutcome, StakingError>(results@[0]),
        },
{
    if results.len() != 1 {
        return Err(StakingError::TooManyResults);
    }
    match results[0] {
        PromiseOutcome::NotReady => Err(StakingError::ResultNotReady),
        PromiseOutcome::Successful => Ok(PromiseOutcome::Successful),
        PromiseOutcome::Failed => Ok(PromiseOutcome::Failed),
    }
}

impl FungibleTokenReceiver for StakingContract {
    /// Stakes an incoming transfer of `amount` for `sender_id`. The whole
    /// amount is used, so zero is returned.
    fn ft_on_transfer(&mut self, ctx: &Context, sender_id: String, amount: u128, msg: String) -> (r:
        Result<u128, StakingError>)
        ensures
            match old(self).deposit_rejection(ctx, sender_id@, amount) {
                Some(e) => r == Err::<u128, StakingError>(e) && *final(self) == *old(self),
                None => r == Ok::<u128, StakingError>(0) && final(self).deposited(
                    old(self),
                    ctx,
                    sender_id@,
                    amount,
                ),
            },
            step(
                old(self),
                final(self),
                Operation::Deposit { ctx: *ctx, account_id: sender_id@, amount },
            ),
            old(self).conserves_stake() ==> final(self).conserves_stake(),
            old(self).counts_stakers() && (amount > 0 || staked_by(old(self).accounts@, sender_id@)
                > 0) ==> final(self).counts_stakers(),
    {
        match self.internal_deposit_and_stake(ctx, sender_id, amount) {
            Ok(()) => Ok(0),
            Err(e) => Err(e),
        }
    }
}

impl StakingContract {
    /// Why an unstake of `amount` by the caller is rejected, if it is.
    pub open spec fn unstake_call_rejection(&self, ctx: &Context, amount: u128) -> Option<
        StakingError,
    > {
        if ctx.attached_deposit != 1 {
            Some(StakingError::RequireOneYocto)
        } else {
            self.unstake_rejection(ctx, ctx.predecessor_account_id@, amount)
        }
    }

    /// Why a withdrawal by the caller is rejected, if it is.
    pub open spec fn withdraw_call_rejection(&self, ctx: &Context) -> Option<StakingError> {
        if ctx.attached_deposit != 1 {
            Some(StakingError::RequireOneYocto)
        } else {
            self.withdraw_rejection(ctx, ctx.predecessor_account_id@)
        }
    }

    /// Why a harvest by the caller is rejected, if it is.
    pub open spec fn harvest_rejection(&self, ctx: &Context) -> Option<StakingError> {
        if ctx.attached_deposit != 1 {
            Some(StakingError::RequireOneYocto)
        } else {
            match self.accounts.spec_get(ctx.predecessor_account_id@) {
                None => Some(StakingError::NotFoundAccount),
                Some(stored) => match self.pending_reward(ctx, stored.account()) {
                    None => Some(StakingError::ArithmeticOverflow),
                    Some(reward) => if reward == 0 {
                        Some(StakingError::RewardEqualZero)
                    } else {
                        None
                    },
                },
            }
        }
    }

    /// Why the continuation of a harvest of `amount` by `account_id` is
    /// rejected, if it is.
    pub open spec fn harvest_callback_rejection(
        &self,
        results: Seq<PromiseOutcome>,
        amount: u128,
        account_id: Seq<char>,
    ) -> Option<StakingError> {
        if protocol_violation(results) is Some {
            protocol_violation(results)
        } else if results[0] == PromiseOutcome::Failed {
            Some(StakingError::CallFailed)
        } else if !self.has_record(account_id) {
            Some(StakingError::NotFoundAccount)
        } else if self.total_paid_reward_balance + amount > u128::MAX {
            Some(StakingError::ArithmeticOverflow)
        } else {
            None
        }
    }

    /// `self` is `before` after a harvest of `amount` by `account_id` was
    /// paid out: the account's checkpointed reward is zero, its accrual
    /// starts again at the current block, and `amount` is added to the
    /// reward paid by the pool.
    pub open spec fn harvested(
        &self,
        before: &StakingContract,
        ctx: &Context,
        amount: u128,
        account_id: Seq<char>,
    ) -> bool {
        let account = before.record(account_id);
        &&& self.accounts@ == inserted(
            before.accounts@,
            account_id,
            UpgradableAccount::Current(account.paid_out(ctx.block_index)),
        )
        &&& self.total_paid_reward_balance == before.total_paid_reward_balance + amount
        &&& self.total_stake_balance == before.total_stake_balance
        &&& self.total_staker == before.total_staker
        &&& self.pre_reward == before.pre_reward
        &&& self.last_block_balance_change == before.last_block_balance_change
        &&& self.same_settings(before)
    }

    /// Why the continuation of a withdrawal by `account_id` is rejected, if
    /// it is.
    pub open spec fn withdraw_callback_rejection(
        &self,
        results: Seq<PromiseOutcome>,
        account_id: Seq<char>,
    ) -> Option<StakingError> {
        if protocol_violation(results) is Some {
            protocol_violation(results)
        } else if results[0] == PromiseOutcome::Failed && !self.has_record(account_id) {
            Some(StakingError::NotFoundAccount)
        } else {
            None
        }
    }

    /// `self` is `before` after a failed withdrawal of `account_id` was
    /// rolled back: the account has the cooldown fields of `old_account`
    /// again; what the withdrawal never touched is as it was in `before`.
    pub open spec fn rolled_back(
        &self,
        before: &StakingContract,
        account_id: Seq<char>,
        old_account: Account,
    ) -> bool {
        let account = before.record(account_id);
        &&& self.accounts@ == inserted(
            before.accounts@,
            account_id,
            UpgradableAccount::Current(account.with_cooldown_of(old_account)),
        )
        &&& self.same_totals(before)
        &&& self.same_settings(before)
    }

    /// Moves `amount` of the caller's staked principal into cooldown. The
    /// call must carry one yocto.
    pub fn unstake(&mut self, ctx: &Context, amount: u128) -> (r: Result<(), StakingError>)
        ensures
            match old(self).unstake_call_rejection(ctx, amount) {
                Some(e) => r == Err::<(), StakingError>(e) && *final(self) == *old(self),
                None => r is Ok && final(self).unstaked(
                    old(self),
                    ctx,
                    ctx.predecessor_account_id@,
                    amount,
                ),
            },
            ctx.attached_deposit == 1 ==> step(
                old(self),
                final(self),
                Operation::Unstake { ctx: *ctx, account_id: ctx.predecessor_account_id@, amount },
            ),
            old(self).conserves_stake() ==> final(self).conserves_stake(),
            old(self).counts_stakers() && staked_by(
                old(self).accounts@,
                ctx.predecessor_account_id@,
            ) > 0 ==> final(self).counts_stakers(),
    {
        match assert_one_yocto(ctx) {
            Ok(()) => {},
            Err(e) => {
                return Err(e);
            },
        }
        let account_id = ctx.predecessor_account_id.clone();
        self.internal_unstake(ctx, account_id, amount)
    }

    /// Starts the withdrawal of the caller's unstaked principal: clears the
    /// cooldown fields of the caller's record, so that a second withdrawal
    /// finds nothing to send, and returns the transfer to send together with
    /// the continuation that restores the fields should the transfer fail.
    /// The call must carry one yocto.
    pub fn withdraw(&mut self, ctx: &Context) -> (r: Result<TransferDispatch, StakingError>)
        ensures
            match old(self).withdraw_call_rejection(ctx) {
                Some(e) => r == Err::<TransferDispatch, StakingError>(e) && *final(self) == *old(
                    self,
                ),
                None => r is Ok && r->Ok_0.is_withdrawal(
                    old(self),
                    ctx,
                    ctx.predecessor_account_id@,
                    old(self).record(ctx.predecessor_account_id@),
                ) && final(self).withdrawn(old(self), ctx.predecessor_account_id@),
            },
            ctx.attached_deposit == 1 ==> step(
                old(self),
                final(self),
                Operation::Withdraw { ctx: *ctx, account_id: ctx.predecessor_account_id@ },
            ),
            old(self).conserves_stake() ==> final(self).conserves_stake(),
            old(self).counts_stakers() ==> final(self).counts_stakers(),
    {
        match assert_one_yocto(ctx) {
            Ok(()) => {},
            Err(e) => {
                return Err(e);
            },
        }
        let account_id = ctx.predecessor_account_id.clone();
        let old_account = match self.internal_withdraw(ctx, account_id.clone()) {
            Ok(old_account) => old_account,
            Err(e) => {
                return Err(e);
            },
        };
        Ok(
            TransferDispatch {
                ft_contract_id: self.ft_contract_id.clone(),
                receiver_id: account_id.clone(),
                amount: old_account.unstake_balance,
                memo: Some("Staking contract withdraw".to_owned()),
                deposit: DEPOSIT_ONE_YOCTOR,
                gas: FT_TRANSFER_GAS,
                callback: Continuation::Withdraw { account_id, old_account },
                callback_account_id: ctx.current_account_id.clone(),
                callback_deposit: NO_DEPOSIT,
                callback_gas: WITHDRAW_CALLBACK_GAS,
            },
        )
    }

    /// Starts the harvest of the caller's pending reward: returns the
    /// transfer to send together with the continuation that books it once it
    /// has succeeded. The ledger is left as it is until then. The call must
    /// carry one yocto.
    pub fn harvest(&self, ctx: &Context) -> (r: Result<TransferDispatch, StakingError>)
        ensures
            match self.harvest_rejection(ctx) {
                Some(e) => r == Err::<TransferDispatch, StakingError>(e),
                None => r is Ok && r->Ok_0.is_harvest(
                    self,
                    ctx,
                    ctx.predecessor_account_id@,
                    self.pending_reward(
                        ctx,
                        self.record(ctx.predecessor_account_id@),
                    ).unwrap(),
                ),
            },
    {
        match assert_one_yocto(ctx) {
            Ok(()) => {},
            Err(e) => {
                return Err(e);
            },
        }
        let account_id = ctx.predecessor_account_id.clone();
        let upgradable_account = match self.accounts.get(&account_id) {
            Some(stored) => stored,
            None => {
                return Err(StakingError::NotFoundAccount);
            },
        };
        let account = Account::from(upgradable_account);
        let current_reward = match self.checkpoint_reward(ctx, &account) {
            Some(current_reward) => current_reward,
            None => {
                return Err(StakingError::ArithmeticOverflow);
            },
        };
        if current_reward == 0 {
            return Err(StakingError::RewardEqualZero);
        }
        Ok(
            TransferDispatch {
                ft_contract_id: self.ft_contract_id.clone(),
                receiver_id: account_id.clone(),
                amount: current_reward,
                memo: Some("Staking contract harvest".to_owned()),
                deposit: DEPOSIT_ONE_YOCTOR,
                gas: FT_TRANSFER_GAS,
                callback: Continuation::Harvest { amount: current_reward, account_id },
                callback_account_id: ctx.current_account_id.clone(),
                callback_deposit: NO_DEPOSIT,
                callback_gas: HARVEST_CALLBACK_GAS,
            },
        )
    }

    /// The continuation of a harvest. Where the transfer succeeded, the
    /// account's checkpointed reward is set to zero, its accrual starts again
    /// at the current block, `amount` is added to the reward paid by the
    /// pool, and `amount` is returned. Where it failed, nothing was changed
    /// and nothing is changed: the harvest is reported as failed. A call
    /// with no result, several results or a pending result is rejected.
    pub fn ft_transfer_callback(
        &mut self,
        ctx: &Context,
        results: &Vec<PromiseOutcome>,
        amount: u128,
        account_id: String,
    ) -> (r: Result<u128, StakingError>)
        ensures
            match old(self).harvest_callback_rejection(results@, amount, account_id@) {
                Some(e) => r == Err::<u128, StakingError>(e) && *final(self) == *old(self),
                None => r == Ok::<u128, StakingError>(amount) && final(self).harvested(
                    old(self),
                    ctx,
                    amount,
                    account_id@,
                ),
            },
            step(
                old(self),
                final(self),
                Operation::HarvestCallback {
                    ctx: *ctx,
                    results: results@,
                    amount,
                    account_id: account_id@,
                },
            ),
            old(self).conserves_stake() ==> final(self).conserves_stake(),
            old(self).counts_stakers() ==> final(self).counts_stakers(),
    {
        let outcome = match single_outcome(results) {
            Ok(outcome) => outcome,
            Err(e) => {
                return Err(e);
            },
        };
        match outcome {
            PromiseOutcome::Successful => {
                let upgradable_account = match self.accounts.get(&account_id) {
                    Some(stored) => stored,
                    None => {
                        return Err(StakingError::NotFoundAccount);
                    },
                };
                let account = Account::from(upgradable_account);
                let total_paid_reward_balance = match self.total_paid_reward_balance.checked_add(
                    amount,
                ) {
                    Some(total) => total,
                    None => {
                        return Err(StakingError::ArithmeticOverflow);
                    },
                };
                let paid = Account {
                    stake_balance: account.stake_balance,
                    pre_stake_balance: account.pre_stake_balance,
                    pre_reward: 0,
                    last_block_balance_change: ctx.block_index,
                    unstake_balance: account.unstake_balance,
                    unstake_start_timestamp: account.unstake_start_timestamp,
                    unstake_available_epoch_height: account.unstake_available_epoch_height,
                };
                proof {
                    use_type_invariant(&self.accounts);
                    lemma_inserted(self.accounts@, account_id@, UpgradableAccount::Current(paid));
                }
                self.accounts.insert(&account_id, &UpgradableAccount::from(paid));
                self.total_paid_reward_balance = total_paid_reward_balance;
                Ok(amount)
            },
            _ => Err(StakingError::CallFailed),
        }
    }

    /// The continuation of a withdrawal. Where the transfer succeeded, the
    /// amount that was sent is returned and the ledger stays as the
    /// withdrawal left it. Where it failed, the cooldown fields of the
    /// account are set back to those of `old_account` and zero is returned:
    /// nothing was transferred. A call with no result, several results or a
    /// pending result is rejected.
    pub fn ft_withdraw_callback(
        &mut self,
        results: &Vec<PromiseOutcome>,
        account_id: String,
        old_account: Account,
    ) -> (r: Result<u128, StakingError>)
        ensures
            match old(self).withdraw_callback_rejection(results@, account_id@) {
                Some(e) => r == Err::<u128, StakingError>(e) && *final(self) == *old(self),
                None => if results@[0] == PromiseOutcome::Successful {
                    r == Ok::<u128, StakingError>(old_account.unstake_balance) && *final(self)
                        == *old(self)
                } else {
                    r == Ok::<u128, StakingError>(0) && final(self).rolled_back(
                        old(self),
                        account_id@,
                        old_account,
                    )
                },
            },
            step(
                old(self),
                final(self),
                Operation::WithdrawCallback {
                    results: results@,
                    account_id: account_id@,
                    old_account,
                },
            ),
            old(self).conserves_stake() ==> final(self).conserves_stake(),
            old(self).counts_stakers() ==> final(self).counts_stakers(),
    {
        let outcome = match single_outcome(results) {
            Ok(outcome) => outcome,
            Err(e) => {
                return Err(e);
            },
        };
        match outcome {
            PromiseOutcome::Successful => Ok(old_account.unstake_balance),
            _ => {
                let upgradable_account = match self.accounts.get(&account_id) {
                    Some(stored) => stored,
                    None => {
                        return Err(StakingError::NotFoundAccount);
                    },
                };
                let account = Account::from(upgradable_account);
                let restored = Account {
                    stake_balance: account.stake_balance,
                    pre_stake_balance: account.pre_stake_balance,
                    pre_reward: account.pre_reward,
                    last_block_balance_change: account.last_block_balance_change,
                    unstake_balance: old_account.unstake_balance,
                    unstake_start_timestamp: old_account.unstake_start_timestamp,
                    unstake_available_epoch_height: old_account.unstake_available_epoch_height,
                };
                proof {
                    use_type_invariant(&self.accounts);
                    lemma_inserted(
                        self.accounts@,
                        account_id@,
                        UpgradableAccount::Current(restored),
                    );
                }
                self.accounts.insert(&account_id, &UpgradableAccount::from(restored));
                Ok(0)
            },
        }
    }
}

} // verus!
