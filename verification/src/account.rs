//! The per-principal balance record and the forms in which it is stored and
//! reported.

use vstd::prelude::*;
use vstd::std_specs::convert::FromSpecImpl;

verus! {

/// The balances of one staking principal together with its accrual
/// checkpoint.
#[derive(Clone, Copy, Debug, PartialEq, Eq, Structural)]
pub struct Account {
    /// The principal that is currently staked and earns reward.
    pub stake_balance: u128,
    /// `stake_balance` as it was just before the last change.
    pub pre_stake_balance: u128,
    /// The reward accrued up to `last_block_balance_change`.
    pub pre_reward: u128,
    /// The block height from which further accrual is counted.
    pub last_block_balance_change: u64,
    /// The principal in cooldown, owed to the principal's owner.
    pub unstake_balance: u128,
    /// When the cooldown began.
    pub unstake_start_timestamp: u64,
    /// The epoch from which `unstake_balance` can be withdrawn; zero when
    /// nothing is pending.
    pub unstake_available_epoch_height: u64,
}

/// An account record together with the layout it was stored in. The tag
/// matters only when a record is written back; the ledger's rules read the
/// record inside.
#[derive(Clone, Copy, Debug, PartialEq, Eq, Structural)]
pub enum UpgradableAccount {
    /// A record in the earlier layout.
    Default(Account),
    /// A record in the current layout.
    Current(Account),
}

impl UpgradableAccount {
    /// The record inside, whatever the layout.
    pub open spec fn account(self) -> Account {
        match self {
            UpgradableAccount::Default(account) => account,
            UpgradableAccount::Current(account) => account,
        }
    }
}

impl From<UpgradableAccount> for Account {
    fn from(account: UpgradableAccount) -> (r: Account) {
        match account {
            UpgradableAccount::Default(account) => account,
            UpgradableAccount::Current(account) => account,
        }
    }
}

impl FromSpecImpl<UpgradableAccount> for Account {
    open spec fn obeys_from_spec() -> bool {
        true
    }

    open spec fn from_spec(account: UpgradableAccount) -> Account {
        account.account()
    }
}

impl From<Account> for UpgradableAccount {
    fn from(account: Account) -> (r: UpgradableAccount) {
        UpgradableAccount::Current(account)
    }
}

impl FromSpecImpl<Account> for UpgradableAccount {
    open spec fn obeys_from_spec() -> bool {
        true
    }

    open spec fn from_spec(account: Account) -> UpgradableAccount {
        UpgradableAccount::Current(account)
    }
}

impl Account {
    /// A record with no balance, checkpointed at `block_index`.
    pub open spec fn empty_spec(block_index: u64) -> Account {
        Account {
            stake_balance: 0,
            pre_stake_balance: 0,
            pre_reward: 0,
            last_block_balance_change: block_index,
            unstake_balance: 0,
            unstake_start_timestamp: 0,
            unstake_available_epoch_height: 0,
        }
    }

    /// The record with its cooldown fields cleared and everything else kept.
    pub open spec fn without_cooldown(self) -> Account {
        Account {
            unstake_balance: 0,
            unstake_start_timestamp: 0,
            unstake_available_epoch_height: 0,
            ..self
        }
    }

    /// The record with the cooldown fields of `snapshot` and everything else
    /// kept.
    pub open spec fn with_cooldown_of(self, snapshot: Account) -> Account {
        Account {
            unstake_balance: snapshot.unstake_balance,
            unstake_start_timestamp: snapshot.unstake_start_timestamp,
            unstake_available_epoch_height: snapshot.unstake_available_epoch_height,
            ..self
        }
    }

    /// The record after its pending reward was paid out at `block_index`:
    /// nothing is checkpointed, and accrual starts again at that block.
    pub open spec fn paid_out(self, block_index: u64) -> Account {
        Account { pre_reward: 0, last_block_balance_change: block_index, ..self }
    }

    /// Whether the cooldown fields of the two records are the same.
    pub open spec fn same_cooldown(self, other: Account) -> bool {
        &&& self.unstake_balance == other.unstake_balance
        &&& self.unstake_start_timestamp == other.unstake_start_timestamp
        &&& self.unstake_available_epoch_height == other.unstake_available_epoch_height
    }
}

/// What is reported of one account.
#[derive(Debug)]
pub struct AccountJson {
    /// The principal that the report is about.
    pub account_id: String,
    /// The principal currently staked.
    pub stake_balance: u128,
    /// The principal in cooldown.
    pub unstake_balance: u128,
    /// The reward that could be harvested now.
    pub reward: u128,
    /// Whether the cooldown has elapsed.
    pub can_withdraw: bool,
    /// When the cooldown began.
    pub start_unstake_timestamp: u64,
    /// The epoch from which the unstaked principal can be withdrawn.
    pub unstake_available_epoch: u64,
    /// The epoch at which the report was made.
    pub current_epoch: u64,
}

impl Clone for AccountJson {
    fn clone(&self) -> (r: AccountJson)
        ensures
            r == *self,
    {
        AccountJson {
            account_id: self.account_id.clone(),
            stake_balance: self.stake_balance,
            unstake_balance: self.unstake_balance,
            reward: self.reward,
            can_withdraw: self.can_withdraw,
            start_unstake_timestamp: self.start_unstake_timestamp,
            unstake_available_epoch: self.unstake_available_epoch,
            current_epoch: self.current_epoch,
        }
    }
}

} // verus!
