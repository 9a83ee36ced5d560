//! A staking pool ledger: deposits accrue a linear reward while staked,
//! unstaking starts a cooldown, and principal or reward leaves the pool
//! through a transfer whose outcome arrives later.
//!
//! The pool never reads a clock, a caller or a storage by itself. Every call
//! is handed a [`Context`] with what the host knows of it, and answers with a
//! value: a rejected call returns a [`StakingError`] and leaves the pool as
//! it was; a call that needs a transfer returns the
//! [`core_impl::TransferDispatch`] to send, and the outcome of the transfer
//! comes back through a continuation.
//!
//! - [`wide`] and [`reward`]: the accrual of reward, computed without loss
//!   in 256 bits.
//! - [`account`] and [`ledger`]: the account records and the ledger that
//!   holds one per principal.
//! - [`internal`]: what a deposit, an unstake and a withdrawal do to an
//!   account and to the pool's totals.
//! - [`core_impl`]: the calls that move assets and the continuations of
//!   their transfers.
//! - [`enumeration`]: what the pool reports.
//! - [`laws`]: what holds of every run of the pool.

use vstd::prelude::*;

pub mod account;
pub mod context;
pub mod core_impl;
pub mod enumeration;
pub mod error;
pub mod internal;
pub mod laws;
pub mod ledger;
pub mod reward;
pub mod util;
pub mod wide;

pub use crate::account::{Account, AccountJson, UpgradableAccount};
pub use crate::context::Context;
pub use crate::enumeration::PoolInfo;
pub use crate::error::StakingError;
pub use crate::ledger::AccountLedger;

use crate::laws::{step, Operation};

verus! {

/// The deposit attached to a continuation.
pub const NO_DEPOSIT: u128 = 0;

/// The deposit attached to a transfer.
pub const DEPOSIT_ONE_YOCTOR: u128 = 1;

/// The number of epochs between an unstake and the earliest withdrawal.
pub const NUM_EPOCHS_TO_UNLOCK: u64 = 1;

/// The reward rate: per block, a staked principal earns
/// `reward_numerator / reward_denumerator` of itself.
#[derive(Clone, Copy, Debug, PartialEq, Eq, Structural)]
pub struct Config {
    /// The numerator of the rate per block.
    pub reward_numerator: u32,
    /// The denominator of the rate per block.
    pub reward_denumerator: u64,
    /// The yearly rate in percent that the two are meant to give.
    pub total_apr: u32,
}

impl Config {
    /// A rate is usable when its denominator is positive.
    pub open spec fn wf(self) -> bool {
        self.reward_denumerator > 0
    }

    /// The rate that a pool has when it is given none: about 15% per year at
    /// one block per second.
    pub open spec fn default_spec() -> Config {
        Config { reward_numerator: 715, reward_denumerator: 100000000000, total_apr: 15 }
    }
}

impl Default for Config {
    /// A rate of about 15% per year at one block per second.
    fn default() -> (r: Config)
        ensures
            r == Config::default_spec(),
            r.wf(),
    {
        Config { reward_numerator: 715, reward_denumerator: 100000000000, total_apr: 15 }
    }
}

/// The prefixes under which the pool's collections are stored.
#[derive(Clone, Copy, Debug, PartialEq, Eq, Structural)]
pub enum StorageKey {
    /// The prefix of the account ledger.
    AccountKey,
}

impl StorageKey {
    /// The bytes of the prefix: the number of the variant in one byte.
    pub fn into_storage_key(self) -> (r: Vec<u8>)
        ensures
            r@ == seq![0u8],
    {
        let mut key: Vec<u8> = Vec::new();
        match self {
            StorageKey::AccountKey => key.push(0u8),
        }
        key
    }
}

/// The staking pool: its settings, its totals and the ledger of its
/// accounts.
#[derive(Debug)]
pub struct StakingContract {
    /// The account that administers the pool.
    pub owner_id: String,
    /// The transfer service whose asset is staked here.
    pub ft_contract_id: String,
    /// The reward rate.
    pub config: Config,
    /// The sum of the staked principal of all accounts.
    pub total_stake_balance: u128,
    /// The reward paid out so far.
    pub total_paid_reward_balance: u128,
    /// The number of accounts that hold staked principal.
    pub total_staker: u128,
    /// The pool's reward accrued up to `last_block_balance_change`.
    pub pre_reward: u128,
    /// The block height from which the pool's further accrual is counted.
    pub last_block_balance_change: u64,
    /// The account records.
    pub accounts: AccountLedger,
    /// Whether the pool is paused.
    pub paused: bool,
    /// The block height at which the pool was last paused.
    pub paused_in_block: u64,
}

impl StakingContract {
    /// The pool's staked total is the sum of what its accounts have staked.
    pub open spec fn conserves_stake(&self) -> bool {
        self.total_stake_balance == crate::ledger::total_staked(self.accounts@)
    }

    /// The pool's staker count is the number of accounts that hold staked
    /// principal.
    pub open spec fn counts_stakers(&self) -> bool {
        self.total_staker == crate::ledger::staker_count(self.accounts@)
    }

    /// Whether `account_id` has a record.
    pub open spec fn has_record(&self, account_id: Seq<char>) -> bool {
        self.accounts.spec_get(account_id) is Some
    }

    /// The record of `account_id`, where it has one.
    pub open spec fn record(&self, account_id: Seq<char>) -> Account {
        self.accounts.spec_get(account_id).unwrap().account()
    }

    /// Owner, transfer service, rate and pause state are those of `other`.
    pub open spec fn same_settings(&self, other: &StakingContract) -> bool {
        &&& self.owner_id@ == other.owner_id@
        &&& self.ft_contract_id@ == other.ft_contract_id@
        &&& self.config == other.config
        &&& self.paused == other.paused
        &&& self.paused_in_block == other.paused_in_block
    }

    /// The pool's totals and checkpoint are those of `other`.
    pub open spec fn same_totals(&self, other: &StakingContract) -> bool {
        &&& self.total_stake_balance == other.total_stake_balance
        &&& self.total_paid_reward_balance == other.total_paid_reward_balance
        &&& self.total_staker == other.total_staker
        &&& self.pre_reward == other.pre_reward
        &&& self.last_block_balance_change == other.last_block_balance_change
    }

    /// A pool with the default rate, without accounts, checkpointed at the
    /// current block.
    pub fn new_default_config(ctx: &Context, owner_id: String, ft_contract_id: String) -> (r:
        StakingContract)
        ensures
            r.is_new(ctx, owner_id@, ft_contract_id@, Config::default_spec()),
    {
        Self::new(ctx, owner_id, ft_contract_id, Config::default())
    }

    /// What holds of a pool that was just made: it has the settings it was
    /// given, no account and no balance, is not paused, and is checkpointed
    /// at the current block.
    pub open spec fn is_new(
        &self,
        ctx: &Context,
        owner_id: Seq<char>,
        ft_contract_id: Seq<char>,
        config: Config,
    ) -> bool {
        &&& self.owner_id@ == owner_id
        &&& self.ft_contract_id@ == ft_contract_id
        &&& self.config == config
        &&& self.total_stake_balance == 0
        &&& self.total_paid_reward_balance == 0
        &&& self.total_staker == 0
        &&& self.pre_reward == 0
        &&& self.last_block_balance_change == ctx.block_index
        &&& self.accounts@ == Seq::<(Seq<char>, UpgradableAccount)>::empty()
        &&& !self.paused
        &&& self.paused_in_block == 0
        &&& self.conserves_stake()
        &&& self.counts_stakers()
    }

    /// A pool with the given rate, without accounts, checkpointed at the
    /// current block.
    pub fn new(ctx: &Context, owner_id: String, ft_contract_id: String, config: Config) -> (r:
        StakingContract)
        ensures
            r.is_new(ctx, owner_id@, ft_contract_id@, config),
    {
        StakingContract {
            owner_id,
            ft_contract_id,
            config,
            total_stake_balance: 0,
            total_paid_reward_balance: 0,
            total_staker: 0,
            pre_reward: 0,
            last_block_balance_change: ctx.block_index,
            accounts: AccountLedger::new(),
            paused: false,
            paused_in_block: 0,
        }
    }

    /// What [`StakingContract::get_total_pending_reward`] returns.
    pub open spec fn total_pending_reward_report(&self, ctx: &Context) -> Result<
        u128,
        StakingError,
    > {
        if self.owner_id@ != ctx.predecessor_account_id@ {
            Err(StakingError::OnlyOwnerContract)
        } else {
            match self.total_pending_reward(ctx) {
                None => Err(StakingError::ArithmeticOverflow),
                Some(reward) => Ok(reward),
            }
        }
    }

    /// The reward that the pool as a whole owes now. Only the owner may ask.
    pub fn get_total_pending_reward(&self, ctx: &Context) -> (r: Result<u128, StakingError>)
        ensures
            r == self.total_pending_reward_report(ctx),
    {
        if !(self.owner_id == ctx.predecessor_account_id) {
            return Err(StakingError::OnlyOwnerContract);
        }
        match self.checkpoint_global_reward(ctx) {
            Some(reward) => Ok(reward),
            None => Err(StakingError::ArithmeticOverflow),
        }
    }

    /// Whether the pool is paused.
    pub fn is_paused(&self) -> (r: bool)
        ensures
            r == self.paused,
    {
        self.paused
    }

    /// Why a registration is rejected, if it is.
    pub open spec fn storage_deposit_rejection(&self, ctx: &Context) -> Option<StakingError> {
        if ctx.attached_deposit < 1 {
            Some(StakingError::RequireAtLeastOneYocto)
        } else {
            None
        }
    }

    /// Registers `account_id`, or the caller where none is given: an account
    /// without a record gets an empty one, checkpointed at the current block,
    /// and `true` is returned; an account that has a record keeps it, and
    /// `false` is returned. The call must carry at least one yocto; what the
    /// new record costs is settled by [`crate::util::refund_deposit`].
    pub fn storage_deposit(&mut self, ctx: &Context, account_id: Option<String>) -> (r: Result<
        bool,
        StakingError,
    >)
        ensures
            match old(self).storage_deposit_rejection(ctx) {
                Some(e) => r == Err::<bool, StakingError>(e) && *final(self) == *old(self),
                None => {
                    let account = match account_id {
                        Some(id) => id@,
                        None => ctx.predecessor_account_id@,
                    };
                    if old(self).has_record(account) {
                        r == Ok::<bool, StakingError>(false) && *final(self) == *old(self)
                    } else {
                        r == Ok::<bool, StakingError>(true) && final(self).account_created(
                            old(self),
                            ctx,
                            account,
                        )
                    }
                },
            },
            step(
                old(self),
                final(self),
                Operation::Register {
                    ctx: *ctx,
                    account_id: match account_id {
                        Some(id) => id@,
                        None => ctx.predecessor_account_id@,
                    },
                },
            ),
            old(self).conserves_stake() ==> final(self).conserves_stake(),
            old(self).counts_stakers() ==> final(self).counts_stakers(),
    {
        match crate::util::assert_at_least_one_yocto(ctx) {
            Ok(()) => {},
            Err(e) => {
                return Err(e);
            },
        }
        let account = match account_id {
            Some(id) => id,
            None => ctx.predecessor_account_id.clone(),
        };
        match self.accounts.get(&account) {
            Some(_) => Ok(false),
            None => {
                self.internal_create_account(ctx, account);
                Ok(true)
            },
        }
    }

    /// `self` is `before` after it was paused during the call: a running
    /// pool is paused at the current block; a pool that was paused already
    /// stays paused at the block at which it was.
    pub open spec fn paused_since(&self, before: &StakingContract, ctx: &Context) -> bool {
        *self == (StakingContract {
            paused: true,
            paused_in_block: if before.paused {
                before.paused_in_block
            } else {
                ctx.block_index
            },
            ..*before
        })
    }

    /// `self` is `before` after its pause was ended: the pool runs, and the
    /// block of its last pause stays on record.
    pub open spec fn unpaused(&self, before: &StakingContract) -> bool {
        *self == (StakingContract { paused: false, ..*before })
    }

    /// Pauses the pool: from now on accrual is measured against the current
    /// block, however many blocks go by. Pausing a paused pool changes
    /// nothing. Only the owner may pause.
    pub fn pause(&mut self, ctx: &Context) -> (r: Result<(), StakingError>)
        ensures
            r == old(self).assert_owner_spec(ctx),
            r is Err ==> *final(self) == *old(self),
            r is Ok ==> final(self).paused_since(old(self), ctx),
            step(old(self), final(self), Operation::Pause { ctx: *ctx }),
    {
        match self.assert_owner(ctx) {
            Ok(()) => {},
            Err(e) => {
                return Err(e);
            },
        }
        if !self.paused {
            self.paused = true;
            self.paused_in_block = ctx.block_index;
        }
        Ok(())
    }

    /// Ends a pause: accrual is measured against the running block height
    /// again. The block of the last pause stays on record. Only the owner may
    /// unpause.
    pub fn unpause(&mut self, ctx: &Context) -> (r: Result<(), StakingError>)
        ensures
            r == old(self).assert_owner_spec(ctx),
            r is Err ==> *final(self) == *old(self),
            r is Ok ==> final(self).unpaused(old(self)),
            step(old(self), final(self), Operation::Unpause { ctx: *ctx }),
    {
        match self.assert_owner(ctx) {
            Ok(()) => {},
            Err(e) => {
                return Err(e);
            },
        }
        self.paused = false;
        Ok(())
    }

    /// Takes over the state that an earlier version of the pool left behind;
    /// fails where there is none.
    pub fn migrate(state: Option<StakingContract>) -> (r: Result<StakingContract, StakingError>)
        ensures
            match state {
                Some(contract) => r == Ok::<StakingContract, StakingError>(contract),
                None => r == Err::<StakingContract, StakingError>(StakingError::ReadContractState),
            },
    {
        match state {
            Some(contract) => Ok(contract),
            None => Err(StakingError::ReadContractState),
        }
    }

    /// One where `account_id` has a record, zero where it has none and must
    /// register before it can stake.
    pub fn storage_balance_of(&self, account_id: String) -> (r: u128)
        ensures
            r == (if self.has_record(account_id@) {
                1u128
            } else {
                0u128
            }),
    {
        match self.accounts.get(&account_id) {
            Some(_) => 1,
            None => 0,
        }
    }

    /// What [`StakingContract::assert_owner`] returns.
    pub open spec fn assert_owner_spec(&self, ctx: &Context) -> Result<(), StakingError> {
        if ctx.predecessor_account_id@ == self.owner_id@ {
            Ok(())
        } else {
            Err(StakingError::OwnerRequired)
        }
    }

    /// Accepts the call only from the owner of the pool.
    pub fn assert_owner(&self, ctx: &Context) -> (r: Result<(), StakingError>)
        ensures
            r == self.assert_owner_spec(ctx),
    {
        if ctx.predecessor_account_id == self.owner_id {
            Ok(())
        } else {
            Err(StakingError::OwnerRequired)
        }
    }
}

} // verus!
