//! What holds of the pool across calls: the pool seen as a transition
//! system, and the laws that every run of it obeys.

use vstd::prelude::*;
use crate::account::{Account, UpgradableAccount};
use crate::context::Context;
use crate::core_impl::PromiseOutcome;
use crate::error::StakingError;
use crate::ledger::{
    distinct_ids, inserted, lemma_inserted, staked_by, staker_count, staking, staking_in,
    total_staked,
};
use crate::reward::{lemma_accrued_monotonic, lemma_accrued_proportional};
use crate::StakingContract;

verus! {

/// One call that changes the ledger, with what the host told the pool about
/// it.
pub enum Operation {
    /// [`StakingContract::storage_deposit`] for `account_id`.
    Register { ctx: Context, account_id: Seq<char> },
    /// [`StakingContract::internal_deposit_and_stake`].
    Deposit { ctx: Context, account_id: Seq<char>, amount: u128 },
    /// [`StakingContract::internal_unstake`].
    Unstake { ctx: Context, account_id: Seq<char>, amount: u128 },
    /// [`StakingContract::internal_withdraw`].
    Withdraw { ctx: Context, account_id: Seq<char> },
    /// [`StakingContract::ft_withdraw_callback`].
    WithdrawCallback { results: Seq<PromiseOutcome>, account_id: Seq<char>, old_account: Account },
    /// [`StakingContract::ft_transfer_callback`].
    HarvestCallback {
        ctx: Context,
        results: Seq<PromiseOutcome>,
        amount: u128,
        account_id: Seq<char>,
    },
    /// [`StakingContract::pause`].
    Pause { ctx: Context },
    /// [`StakingContract::unpause`].
    Unpause { ctx: Context },
}

/// Why `before` rejects `op`, if it does.
pub open spec fn rejection(before: &StakingContract, op: Operation) -> Option<StakingError> {
    match op {
        Operation::Register { ctx, account_id } => before.storage_deposit_rejection(&ctx),
        Operation::Deposit { ctx, account_id, amount } => before.deposit_rejection(
            &ctx,
            account_id,
            amount,
        ),
        Operation::Unstake { ctx, account_id, amount } => before.unstake_rejection(
            &ctx,
            account_id,
            amount,
        ),
        Operation::Withdraw { ctx, account_id } => before.withdraw_rejection(&ctx, account_id),
        Operation::WithdrawCallback { results, account_id, old_account } => {
            before.withdraw_callback_rejection(results, account_id)
        },
        Operation::HarvestCallback { ctx, results, amount, account_id } => {
            before.harvest_callback_rejection(results, amount, account_id)
        },
        Operation::Pause { ctx } => match before.assert_owner_spec(&ctx) {
            Err(e) => Some(e),
            Ok(_) => None,
        },
        Operation::Unpause { ctx } => match before.assert_owner_spec(&ctx) {
            Err(e) => Some(e),
            Ok(_) => None,
        },
    }
}

/// `after` is what `op` makes of `before`: an operation that is rejected
/// leaves the pool as it was, one that is accepted changes it as the
/// operation's contract says.
pub open spec fn step(before: &StakingContract, after: &StakingContract, op: Operation) -> bool {
    if rejection(before, op) is Some {
        *after == *before
    } else {
        match op {
            Operation::Register { ctx, account_id } => if before.has_record(account_id) {
                *after == *before
            } else {
                after.account_created(before, &ctx, account_id)
            },
            Operation::Deposit { ctx, account_id, amount } => after.deposited(
                before,
                &ctx,
                account_id,
                amount,
            ),
            Operation::Unstake { ctx, account_id, amount } => after.unstaked(
                before,
                &ctx,
                account_id,
                amount,
            ),
            Operation::Withdraw { ctx, account_id } => after.withdrawn(before, account_id),
            Operation::WithdrawCallback { results, account_id, old_account } => if results[0]
                == PromiseOutcome::Successful {
                *after == *before
            } else {
                after.rolled_back(before, account_id, old_account)
            },
            Operation::HarvestCallback { ctx, results, amount, account_id } => after.harvested(
                before,
                &ctx,
                amount,
                account_id,
            ),
            Operation::Pause { ctx } => after.paused_since(before, &ctx),
            Operation::Unpause { ctx } => after.unpaused(before),
        }
    }
}

/// `states` is a run of the pool under `ops`: each state follows from the one
/// before it by the operation between them.
pub open spec fn run(states: Seq<StakingContract>, ops: Seq<Operation>) -> bool {
    &&& states.len() == ops.len() + 1
    &&& forall|i: int| 0 <= i < ops.len() ==> step(&states[i], &states[i + 1], #[trigger] ops[i])
}

/// An accepted operation that moves nothing for an account that has nothing
/// staked: a deposit of zero, or an unstake of zero. Such an operation
/// changes the pool's staker count although no account began or ceased to
/// stake.
pub open spec fn moves_nothing(before: &StakingContract, op: Operation) -> bool {
    match op {
        Operation::Deposit { ctx, account_id, amount } => {
            &&& rejection(before, op) is None
            &&& amount == 0
            &&& staked_by(before.accounts@, account_id) == 0
        },
        Operation::Unstake { ctx, account_id, amount } => {
            &&& rejection(before, op) is None
            &&& staked_by(before.accounts@, account_id) == 0
        },
        _ => false,
    }
}

/// The record that `op` writes into the ledger of `before`, with the
/// principal that it belongs to; `None` where `op` is rejected or writes
/// none.
pub open spec fn written(before: &StakingContract, op: Operation) -> Option<(Seq<char>, Account)> {
    if rejection(before, op) is Some {
        None
    } else {
        match op {
            Operation::Register { ctx, account_id } => if before.has_record(account_id) {
                None
            } else {
                Some((account_id, Account::empty_spec(ctx.block_index)))
            },
            Operation::Deposit { ctx, account_id, amount } => Some(
                (account_id, before.deposit_record(&ctx, before.record(account_id), amount)),
            ),
            Operation::Unstake { ctx, account_id, amount } => Some(
                (account_id, before.unstake_record(&ctx, before.record(account_id), amount)),
            ),
            Operation::Withdraw { ctx, account_id } => Some(
                (account_id, before.record(account_id).without_cooldown()),
            ),
            Operation::WithdrawCallback { results, account_id, old_account } => if results[0]
                == PromiseOutcome::Successful {
                None
            } else {
                Some((account_id, before.record(account_id).with_cooldown_of(old_account)))
            },
            Operation::HarvestCallback { ctx, results, amount, account_id } => Some(
                (account_id, before.record(account_id).paid_out(ctx.block_index)),
            ),
            Operation::Pause { ctx } => None,
            Operation::Unpause { ctx } => None,
        }
    }
}

/// What one operation does to the ledger: it sets the one record that it
/// writes and leaves every other record alone, so the ledger stays free of
/// duplicates and its sums change by what that record changed.
pub proof fn lemma_step_ledger(before: StakingContract, after: StakingContract, op: Operation)
    requires
        distinct_ids(before.accounts@),
        step(&before, &after, op),
    ensures
        distinct_ids(after.accounts@),
        match written(&before, op) {
            Some((id, account)) => {
                &&& after.accounts@ == inserted(
                    before.accounts@,
                    id,
                    UpgradableAccount::Current(account),
                )
                &&& after.accounts.spec_get(id) == Some(UpgradableAccount::Current(account))
                &&& forall|other: Seq<char>|
                    other != id ==> after.accounts.spec_get(other) == before.accounts.spec_get(
                        other,
                    )
                &&& total_staked(after.accounts@) == total_staked(before.accounts@) - staked_by(
                    before.accounts@,
                    id,
                ) + account.stake_balance
                &&& staker_count(after.accounts@) == staker_count(before.accounts@) - staking_in(
                    before.accounts@,
                    id,
                ) + staking(UpgradableAccount::Current(account))
            },
            None => after.accounts@ == before.accounts@,
        },
{
    match written(&before, op) {
        Some((id, account)) => {
            lemma_inserted(before.accounts@, id, UpgradableAccount::Current(account));
        },
        None => {},
    }
}

/// One operation keeps the staked total equal to the sum of the accounts'
/// stakes; it keeps the staker count equal to the number of accounts with a
/// stake unless it moves nothing for an account without a stake.
pub proof fn lemma_step_preserves(
    before: StakingContract,
    after: StakingContract,
    op: Operation,
)
    requires
        distinct_ids(before.accounts@),
        step(&before, &after, op),
    ensures
        distinct_ids(after.accounts@),
        before.conserves_stake() ==> after.conserves_stake(),
        before.counts_stakers() && !moves_nothing(&before, op) ==> after.counts_stakers(),
{
    lemma_step_ledger(before, after, op);
}

/// Records persist and checkpointed reward only grows: an operation never
/// removes an account's record, and it leaves the account's checkpointed
/// reward at least as large as it was, unless it is the continuation of a
/// harvest, which sets it to zero once the reward has been paid out.
pub proof fn lemma_records_persist(
    before: StakingContract,
    after: StakingContract,
    op: Operation,
    account_id: Seq<char>,
)
    requires
        distinct_ids(before.accounts@),
        step(&before, &after, op),
        before.has_record(account_id),
    ensures
        after.has_record(account_id),
        !(op is HarvestCallback) ==> after.record(account_id).pre_reward >= before.record(
            account_id,
        ).pre_reward,
{
    lemma_step_ledger(before, after, op);
}

/// Conservation: in every run that starts from a pool whose staked total is
/// the sum of what its accounts have staked, the two are equal in every
/// state, whatever operations are applied and whether they are accepted or
/// rejected.
pub proof fn lemma_conservation(states: Seq<StakingContract>, ops: Seq<Operation>)
    requires
        run(states, ops),
        distinct_ids(states[0].accounts@),
        states[0].conserves_stake(),
    ensures
        forall|i: int| 0 <= i < states.len() ==> (#[trigger] states[i]).conserves_stake(),
    decreases ops.len(),
{
    if ops.len() > 0 {
        let n = ops.len() as int;
        lemma_run_prefix(states, ops);
        lemma_conservation(states.drop_last(), ops.drop_last());
        lemma_run_distinct(states.drop_last(), ops.drop_last());
        assert(states.drop_last()[n - 1] == states[n - 1]);
        lemma_step_preserves(states[n - 1], states[n], ops[n - 1]);
        assert forall|i: int| 0 <= i < states.len() implies (
        #[trigger] states[i]).conserves_stake() by {
            if i < n {
                assert(states.drop_last()[i] == states[i]);
            }
        }
    }
}

/// Staker count consistency: in every run that starts from a pool whose
/// staker count is the number of accounts with a stake, and in which no
/// operation moves nothing for an account without a stake, the two are equal
/// in every state.
pub proof fn lemma_staker_count(states: Seq<StakingContract>, ops: Seq<Operation>)
    requires
        run(states, ops),
        distinct_ids(states[0].accounts@),
        states[0].counts_stakers(),
        forall|i: int| 0 <= i < ops.len() ==> !moves_nothing(&states[i], #[trigger] ops[i]),
    ensures
        forall|i: int| 0 <= i < states.len() ==> (#[trigger] states[i]).counts_stakers(),
    decreases ops.len(),
{
    if ops.len() > 0 {
        let n = ops.len() as int;
        lemma_run_prefix(states, ops);
        assert forall|i: int| 0 <= i < ops.drop_last().len() implies !moves_nothing(
            &states.drop_last()[i],
            #[trigger] ops.drop_last()[i],
        ) by {
            assert(ops.drop_last()[i] == ops[i]);
        }
        lemma_staker_count(states.drop_last(), ops.drop_last());
        lemma_run_distinct(states.drop_last(), ops.drop_last());
        assert(states.drop_last()[n - 1] == states[n - 1]);
        lemma_step_preserves(states[n - 1], states[n], ops[n - 1]);
        assert forall|i: int| 0 <= i < states.len() implies (
        #[trigger] states[i]).counts_stakers() by {
            if i < n {
                assert(states.drop_last()[i] == states[i]);
            }
        }
    }
}

/// A run without its last operation is a run.
proof fn lemma_run_prefix(states: Seq<StakingContract>, ops: Seq<Operation>)
    requires
        run(states, ops),
        ops.len() > 0,
    ensures
        run(states.drop_last(), ops.drop_last()),
        states.drop_last()[0] == states[0],
{
    let shorter = states.drop_last();
    let fewer = ops.drop_last();
    assert forall|i: int| 0 <= i < fewer.len() implies step(
        &shorter[i],
        &shorter[i + 1],
        #[trigger] fewer[i],
    ) by {
        assert(fewer[i] == ops[i]);
    }
}

/// No state of a run holds two records of one principal, if the first holds
/// none.
proof fn lemma_run_distinct(states: Seq<StakingContract>, ops: Seq<Operation>)
    requires
        run(states, ops),
        distinct_ids(states[0].accounts@),
    ensures
        forall|i: int| 0 <= i < states.len() ==> distinct_ids((#[trigger] states[i]).accounts@),
    decreases ops.len(),
{
    if ops.len() > 0 {
        let n = ops.len() as int;
        lemma_run_prefix(states, ops);
        lemma_run_distinct(states.drop_last(), ops.drop_last());
        assert(states.drop_last()[n - 1] == states[n - 1]);
        lemma_step_preserves(states[n - 1], states[n], ops[n - 1]);
        assert forall|i: int| 0 <= i < states.len() implies distinct_ids(
            (#[trigger] states[i]).accounts@,
        ) by {
            if i < n {
                assert(states.drop_last()[i] == states[i]);
            }
        }
    }
}

/// Accrual monotonicity: for an account that is not changed, the pending
/// reward at a later reference block is at least the pending reward at an
/// earlier one, and at any reference block it is the checkpointed reward plus
/// the rate applied to the staked principal times the elapsed blocks.
pub proof fn lemma_pending_reward_monotonic(
    pool: StakingContract,
    account: Account,
    earlier: Context,
    later: Context,
)
    requires
        pool.config.wf(),
        account.last_block_balance_change <= pool.reference_block(&earlier) <= pool.reference_block(
            &later,
        ),
    ensures
        pool.pending_reward(&later, account) is Some ==> pool.pending_reward(&earlier, account)
            is Some && pool.pending_reward(&earlier, account).unwrap() <= pool.pending_reward(
            &later,
            account,
        ).unwrap(),
        pool.pending_reward(&later, account) is Some ==> pool.pending_reward(
            &later,
            account,
        ).unwrap() == account.pre_reward + ((account.stake_balance * (pool.reference_block(&later)
            - account.last_block_balance_change)) * pool.config.reward_numerator)
            / (pool.config.reward_denumerator as int),
{
    lemma_accrued_monotonic(
        account.stake_balance as int,
        pool.config.reward_numerator as int,
        pool.config.reward_denumerator as int,
        pool.reference_block(&earlier) - account.last_block_balance_change,
        pool.reference_block(&later) - account.last_block_balance_change,
    );
    lemma_accrued_proportional(
        account.stake_balance as int,
        pool.config.reward_numerator as int,
        pool.config.reward_denumerator as int,
        pool.reference_block(&later) - account.last_block_balance_change,
    );
}

/// Pause freeze: while the pool is paused, the pending reward of an account
/// and of the pool is the same at every block height: it is what had accrued
/// when the pool was paused.
pub proof fn lemma_pause_freezes_accrual(
    pool: StakingContract,
    account: Account,
    ctx1: Context,
    ctx2: Context,
)
    requires
        pool.paused,
    ensures
        pool.reference_block(&ctx1) == pool.paused_in_block,
        pool.pending_reward(&ctx1, account) == pool.pending_reward(&ctx2, account),
        pool.total_pending_reward(&ctx1) == pool.total_pending_reward(&ctx2),
{
}

/// A pause holds: no operation but an accepted unpause ends a pause, and as
/// long as the pool is paused the block of the pause and the rate stay the
/// same, so that a record that is not written keeps the pending reward that
/// it had when the pool was paused, whatever operations are applied to
/// others and however many blocks go by.
pub proof fn lemma_pause_holds(
    before: StakingContract,
    after: StakingContract,
    op: Operation,
    account: Account,
    earlier: Context,
    later: Context,
)
    requires
        step(&before, &after, op),
        before.paused,
    ensures
        !(op is Unpause) ==> after.paused,
        after.paused ==> after.paused_in_block == before.paused_in_block,
        after.paused ==> after.pending_reward(&later, account) == before.pending_reward(
            &earlier,
            account,
        ),
{
}

/// Cooldown gating: a withdrawal is rejected whenever the current epoch lies
/// before the epoch at which the account's cooldown ends; for an account that
/// has principal in cooldown it is accepted in every other case; and an
/// accepted withdrawal clears the account's cooldown fields and changes
/// nothing else of the record.
pub proof fn lemma_cooldown_gating(
    before: StakingContract,
    after: StakingContract,
    ctx: Context,
    account_id: Seq<char>,
)
    requires
        distinct_ids(before.accounts@),
        before.has_record(account_id),
        step(&before, &after, Operation::Withdraw { ctx, account_id }),
    ensures
        ctx.epoch_height < before.record(account_id).unstake_available_epoch_height
            ==> before.withdraw_rejection(&ctx, account_id) is Some && after == before,
        before.record(account_id).unstake_balance > 0 ==> (before.withdraw_rejection(
            &ctx,
            account_id,
        ) is None <==> ctx.epoch_height >= before.record(
            account_id,
        ).unstake_available_epoch_height),
        before.withdraw_rejection(&ctx, account_id) is None ==> after.record(account_id)
            == before.record(account_id).without_cooldown(),
{
    lemma_step_ledger(before, after, Operation::Withdraw { ctx, account_id });
}

/// No double withdrawal: once a withdrawal has been accepted, a second one
/// by the same account is rejected, at whatever epoch it is made, because
/// the first has left nothing in cooldown.
pub proof fn lemma_no_double_withdraw(
    before: StakingContract,
    after: StakingContract,
    first: Context,
    second: Context,
    account_id: Seq<char>,
)
    requires
        distinct_ids(before.accounts@),
        before.withdraw_rejection(&first, account_id) is None,
        step(&before, &after, Operation::Withdraw { ctx: first, account_id }),
    ensures
        after.withdraw_rejection(&second, account_id) == Some(StakingError::UnstakeBalanceIsZero),
        second.predecessor_account_id@ == account_id ==> after.withdraw_call_rejection(&second)
            is Some,
{
    lemma_step_ledger(before, after, Operation::Withdraw { ctx: first, account_id });
}

/// Rollback: when the transfer of a withdrawal fails, the continuation gives
/// the account the cooldown fields that it had just before the withdrawal,
/// whatever was done to the account while the transfer was under way; where
/// nothing was done to it, the whole record is as it was before the
/// withdrawal.
pub proof fn lemma_rollback_restores_cooldown(
    before: StakingContract,
    dispatched: StakingContract,
    resumed: StakingContract,
    after: StakingContract,
    ctx: Context,
    account_id: Seq<char>,
)
    requires
        distinct_ids(before.accounts@),
        before.withdraw_rejection(&ctx, account_id) is None,
        step(&before, &dispatched, Operation::Withdraw { ctx, account_id }),
        distinct_ids(resumed.accounts@),
        resumed.has_record(account_id),
        step(
            &resumed,
            &after,
            Operation::WithdrawCallback {
                results: seq![PromiseOutcome::Failed],
                account_id,
                old_account: before.record(account_id),
            },
        ),
    ensures
        after.has_record(account_id),
        after.record(account_id).same_cooldown(before.record(account_id)),
        resumed.record(account_id) == dispatched.record(account_id) ==> after.record(account_id)
            == before.record(account_id),
{
    lemma_step_ledger(before, dispatched, Operation::Withdraw { ctx, account_id });
    lemma_step_ledger(
        resumed,
        after,
        Operation::WithdrawCallback {
            results: seq![PromiseOutcome::Failed],
            account_id,
            old_account: before.record(account_id),
        },
    );
}

} // verus!
