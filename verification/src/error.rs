//! The conditions under which an operation of the pool is rejected.

use vstd::prelude::*;

verus! {

/// Why an operation was rejected. A rejected operation leaves the ledger as
/// it was.
#[derive(Clone, Copy, Debug, PartialEq, Eq, Structural)]
pub enum StakingError {
    /// No account record exists for the principal.
    NotFoundAccount,
    /// Deposits are not accepted while the pool is paused.
    ContractPaused,
    /// A deposit was reported by someone other than the transfer service.
    NotValidFtContract,
    /// More was to be unstaked than is staked.
    AmountMustLessThanBalance,
    /// Nothing is in cooldown, so nothing can be withdrawn.
    UnstakeBalanceIsZero,
    /// The cooldown has not elapsed yet.
    DisableWithdraw,
    /// There is no reward to harvest.
    RewardEqualZero,
    /// A continuation ran with a number of results other than one.
    TooManyResults,
    /// A continuation ran while its transfer was still pending.
    ResultNotReady,
    /// The transfer of a harvested reward failed.
    CallFailed,
    /// The total pending reward was asked for by someone other than the owner.
    OnlyOwnerContract,
    /// An administrative operation was called by someone other than the owner.
    OwnerRequired,
    /// The call did not carry a deposit of exactly one yocto.
    RequireOneYocto,
    /// The call did not carry a deposit of at least one yocto.
    RequireAtLeastOneYocto,
    /// The attached deposit does not cover the cost of the storage used.
    StorageNotCovered {
        /// The deposit that would have covered it.
        required: u128,
    },
    /// No contract state could be read.
    ReadContractState,
    /// An accrual or a balance update left the representable range, the
    /// reference block lay before a checkpoint, or the reward denominator was
    /// zero.
    ArithmeticOverflow,
}

impl StakingError {
    /// The stable code by which a caller tells the conditions apart.
    pub open spec fn code_spec(self) -> Seq<char> {
        match self {
            StakingError::NotFoundAccount => "ERR_NOT_FOUND_ACCOUNT"@,
            StakingError::ContractPaused => "ERR_CONTRACT_PAUSED"@,
            StakingError::NotValidFtContract => "ERR_NOT_VALID_FT_CONTRACT"@,
            StakingError::AmountMustLessThanBalance => "ERR_AMOUNT_MUST_LESS_THAN_BALANCE"@,
            StakingError::UnstakeBalanceIsZero => "ERR_UNSTAKE_BALANCE_IS_ZERO"@,
            StakingError::DisableWithdraw => "ERR_DISABLE_WITHDRAW"@,
            StakingError::RewardEqualZero => "ERR_REWARD_EQUAL_ZERO"@,
            StakingError::TooManyResults => "ERR_TOO_MANY_RESULTS"@,
            StakingError::ResultNotReady => "ERR_RESULT_NOT_READY"@,
            StakingError::CallFailed => "ERR_CALL_FAILED"@,
            StakingError::OnlyOwnerContract => "ERR_ONLY_OWNER_CONTRACT"@,
            StakingError::OwnerRequired => "Only owner contract can be access"@,
            StakingError::RequireOneYocto => "Require attached deposit of exactly 1 yoctoNear"@,
            StakingError::RequireAtLeastOneYocto => {
                "Require attached deposit of at least 1 yoctoNear"@
            },
            StakingError::StorageNotCovered { .. } => "ERR_STORAGE_NOT_COVERED"@,
            StakingError::ReadContractState => "ERR_READ_CONTRACT_STATE"@,
            StakingError::ArithmeticOverflow => "ERR_ARITHMETIC_OVERFLOW"@,
        }
    }

    /// The stable code by which a caller tells the conditions apart.
    pub fn code(&self) -> (r: String)
        ensures
            r@ == self.code_spec(),
    {
        match self {
            StakingError::NotFoundAccount => "ERR_NOT_FOUND_ACCOUNT".to_owned(),
            StakingError::ContractPaused => "ERR_CONTRACT_PAUSED".to_owned(),
            StakingError::NotValidFtContract => "ERR_NOT_VALID_FT_CONTRACT".to_owned(),
            StakingError::AmountMustLessThanBalance => {
                "ERR_AMOUNT_MUST_LESS_THAN_BALANCE".to_owned()
            },
            StakingError::UnstakeBalanceIsZero => "ERR_UNSTAKE_BALANCE_IS_ZERO".to_owned(),
            StakingError::DisableWithdraw => "ERR_DISABLE_WITHDRAW".to_owned(),
            StakingError::RewardEqualZero => "ERR_REWARD_EQUAL_ZERO".to_owned(),
            StakingError::TooManyResults => "ERR_TOO_MANY_RESULTS".to_owned(),
            StakingError::ResultNotReady => "ERR_RESULT_NOT_READY".to_owned(),
            StakingError::CallFailed => "ERR_CALL_FAILED".to_owned(),
            StakingError::OnlyOwnerContract => "ERR_ONLY_OWNER_CONTRACT".to_owned(),
            StakingError::OwnerRequired => "Only owner contract can be access".to_owned(),
            StakingError::RequireOneYocto => {
                "Require attached deposit of exactly 1 yoctoNear".to_owned()
            },
            StakingError::RequireAtLeastOneYocto => {
                "Require attached deposit of at least 1 yoctoNear".to_owned()
            },
            StakingError::StorageNotCovered { .. } => "ERR_STORAGE_NOT_COVERED".to_owned(),
            StakingError::ReadContractState => "ERR_READ_CONTRACT_STATE".to_owned(),
            StakingError::ArithmeticOverflow => "ERR_ARITHMETIC_OVERFLOW".to_owned(),
        }
    }
}

} // verus!
