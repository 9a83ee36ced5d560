//! Checks on the deposit attached to a call.

use vstd::prelude::*;
use crate::context::Context;
use crate::error::StakingError;

verus! {

/// Accepts the call only with a deposit of exactly one yocto.
pub fn assert_one_yocto(ctx: &Context) -> (r: Result<(), StakingError>)
    ensures
        r == (if ctx.attached_deposit == 1 {
            Ok::<(), StakingError>(())
        } else {
            Err::<(), StakingError>(StakingError::RequireOneYocto)
        }),
{
    if ctx.attached_deposit == 1 {
        Ok(())
    } else {
        Err(StakingError::RequireOneYocto)
    }
}

/// Accepts the call only with a deposit of at least one yocto.
pub fn assert_at_least_one_yocto(ctx: &Context) -> (r: Result<(), StakingError>)
    ensures
        r == (if ctx.attached_deposit >= 1 {
            Ok::<(), StakingError>(())
        } else {
            Err::<(), StakingError>(StakingError::RequireAtLeastOneYocto)
        }),
{
    if ctx.attached_deposit >= 1 {
        Ok(())
    } else {
        Err(StakingError::RequireAtLeastOneYocto)
    }
}

/// What [`refund_deposit`] returns.
pub open spec fn refund_spec(ctx: &Context, storage_byte_cost: u128, storage_used: u64) -> Result<
    Option<u128>,
    StakingError,
> {
    let required_cost = storage_byte_cost * storage_used;
    if required_cost > u128::MAX {
        Err(StakingError::ArithmeticOverflow)
    } else if required_cost > ctx.attached_deposit {
        Err(StakingError::StorageNotCovered { required: required_cost as u128 })
    } else if ctx.attached_deposit - required_cost > 1 {
        Ok(Some((ctx.attached_deposit - required_cost) as u128))
    } else {
        Ok(None)
    }
}

/// Settles the deposit attached to a call that used `storage_used` bytes of
/// storage at `storage_byte_cost` each: the call is rejected where the
/// deposit does not cover the cost; what is left over is to be sent back to
/// the caller where it is more than one yocto.
pub fn refund_deposit(ctx: &Context, storage_byte_cost: u128, storage_used: u64) -> (r: Result<
    Option<u128>,
    StakingError,
>)
    ensures
        r == refund_spec(ctx, storage_byte_cost, storage_used),
{
    let required_cost = match storage_byte_cost.checked_mul(storage_used as u128) {
        Some(required_cost) => required_cost,
        None => {
            return Err(StakingError::ArithmeticOverflow);
        },
    };
    if required_cost > ctx.attached_deposit {
        return Err(StakingError::StorageNotCovered { required: required_cost });
    }
    let refund = ctx.attached_deposit - required_cost;
    if refund > 1 {
        Ok(Some(refund))
    } else {
        Ok(None)
    }
}

} // verus!
