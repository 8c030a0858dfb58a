//! A staking program in which tokens earn rewards tick by tick.
//!
//! A manager sets up a farm, its tiers (a lock period and a reward for each
//! tick) and the bonus that it grants to the tokens of a mint. A participant
//! stakes one token against a tier, claims the reward that has fallen due as
//! often as they like, and takes the token back once the lock period is over.
//!
//! The functions of this library decide; they store nothing and move nothing.
//! Each takes the records and addresses that a request refers to, and gives
//! back what is to be stored or removed and the transfer that is to be made,
//! or the reason why the request is refused. The time is an argument.

use vstd::prelude::*;

pub mod custody;
pub mod error;
pub mod instructions;
pub mod laws;
pub mod pubkey;
pub mod reward;
pub mod state;

use crate::custody::{Closing, FarmSigner, Transfer};
use crate::error::StakeError;
use crate::instructions::{
    AddMint, AddTier, Claim, Claimed, CloseTier, FundFarm, InitializeFarm, RemoveMint, Stake,
    Staked, Unstake, Unstaked,
};
use crate::state::{StakeAccount, StakeFarm, StakeMint, StakeTier};

verus! {

/// Creates a farm for `ctx.manager`, with ticks of `tickrate` seconds and
/// rewards in `ctx.reward_mint`. Gives the record to store at
/// `ctx.stake_farm.key`, or `DuplicateRecord` if a farm is stored there
/// already.
pub fn create_farm(ctx: &InitializeFarm, tickrate: i64) -> (r: Result<StakeFarm, StakeError>)
    ensures
        r == ctx.outcome(tickrate),
{
    if ctx.stake_farm.record.is_some() {
        return Err(StakeError::DuplicateRecord);
    }
    Ok(
        StakeFarm {
            bump: ctx.stake_farm_bump,
            manager: ctx.manager,
            tickrate,
            reward_mint: ctx.reward_mint,
        },
    )
}

/// Brings `amount` reward tokens into the farm's reward escrow. Gives the
/// transfer to make, out of the manager's token account and signed by the
/// manager; `MintMismatch` if the tokens are not of the farm's reward mint,
/// else `Unauthorized` if the caller is not the farm's manager.
pub fn fund_farm(ctx: &FundFarm, amount: u64) -> (r: Result<Transfer, StakeError>)
    ensures
        r == ctx.outcome(amount),
{
    if ctx.reward_token_mint != ctx.stake_farm.data.reward_mint {
        return Err(StakeError::MintMismatch);
    }
    if ctx.manager != ctx.stake_farm.data.manager {
        return Err(StakeError::Unauthorized);
    }
    Ok(
        Transfer {
            authority: ctx.manager,
            from: ctx.manager_reward_ata,
            to: ctx.stake_farm_reward_ata,
            amount,
            signer: None,
        },
    )
}

/// Grants `bonus_reward` for each tick to positions that stake `ctx.mint`
/// in the farm. Gives the record to store at `ctx.stake_mint.key`;
/// `Unauthorized` if the caller is not the farm's manager, else
/// `DuplicateRecord` if the farm has a bonus for the mint already.
pub fn add_mint(ctx: &AddMint, bonus_reward: u64) -> (r: Result<StakeMint, StakeError>)
    ensures
        r == ctx.outcome(bonus_reward),
{
    if ctx.manager != ctx.stake_farm.data.manager {
        return Err(StakeError::Unauthorized);
    }
    if ctx.stake_mint.record.is_some() {
        return Err(StakeError::DuplicateRecord);
    }
    Ok(
        StakeMint {
            bump: ctx.stake_mint_bump,
            farm: ctx.stake_farm.key,
            mint: ctx.mint,
            bonus_reward,
        },
    )
}

/// Withdraws the bonus of a mint. Gives the record to remove, its storage
/// paid back to the manager; `Unauthorized` if the caller is not the farm's
/// manager or the bonus is that of another farm. Positions opened with the
/// bonus keep it.
pub fn remove_mint(ctx: &RemoveMint) -> (r: Result<Closing, StakeError>)
    ensures
        r == ctx.outcome(),
{
    if ctx.manager != ctx.stake_farm.data.manager {
        return Err(StakeError::Unauthorized);
    }
    if ctx.stake_mint.data.farm != ctx.stake_farm.key {
        return Err(StakeError::Unauthorized);
    }
    Ok(Closing { record: ctx.stake_mint.key, refund_to: ctx.manager })
}

/// Creates a tier of the farm with the given lock period and reward for each
/// tick. Gives the record to store at `ctx.stake_tier.key`; `Unauthorized`
/// if the caller is not the farm's manager, else `DuplicateRecord` if a tier
/// is stored there already.
pub fn create_tier(ctx: &AddTier, lock_period: i64, reward: u64) -> (r: Result<
    StakeTier,
    StakeError,
>)
    ensures
        r == ctx.outcome(lock_period, reward),
{
    if ctx.manager != ctx.stake_farm.data.manager {
        return Err(StakeError::Unauthorized);
    }
    if ctx.stake_tier.record.is_some() {
        return Err(StakeError::DuplicateRecord);
    }
    Ok(StakeTier { farm: ctx.stake_farm.key, reward, lock_period })
}

/// Removes a tier. Gives the record to remove, its storage paid back to the
/// manager; `Unauthorized` if the caller is not the farm's manager or the
/// tier is that of another farm. Positions opened against the tier are not
/// looked at: they keep the values that they took from it.
pub fn close_tier(ctx: &CloseTier) -> (r: Result<Closing, StakeError>)
    ensures
        r == ctx.outcome(),
{
    if ctx.manager != ctx.stake_farm.data.manager {
        return Err(StakeError::Unauthorized);
    }
    if ctx.stake_tier.data.farm != ctx.stake_farm.key {
        return Err(StakeError::Unauthorized);
    }
    Ok(Closing { record: ctx.stake_tier.key, refund_to: ctx.manager })
}

/// Opens a stake position at `now`: one token of `ctx.token_mint`, staked by
/// `ctx.staker` against `ctx.stake_tier`. Gives the position to store at
/// `ctx.stake_account.key` and the transfer that brings the token into the
/// farm's escrow, signed by the staker. The position starts with nothing
/// claimed, and keeps the tier's lock period and the tier's reward with the
/// mint's bonus as they are now.
///
/// `Unauthorized` if the tier or the bonus is that of another farm, or the
/// bonus is for another mint; else `DuplicateRecord` if the staker has a
/// position for this mint already. Of a request that is in order the
/// function asks that the tier's reward and the bonus add up to no more
/// than a token amount can hold: [`Stake::reward_per_tick`] tells.
pub fn stake(ctx: &Stake, now: i64) -> (r: Result<Staked, StakeError>)
    requires
        ctx.admission() is Ok ==> ctx.effective_reward() <= u64::MAX,
    ensures
        r == ctx.outcome(now),
{
    match ctx.validate() {
        Ok(()) => {},
        Err(refusal) => {
            return Err(refusal);
        },
    }
    let reward: u64 = ctx.reward_per_tick().unwrap();
    let stake_account = StakeAccount {
        bump: ctx.stake_account_bump,
        staker: ctx.staker,
        mint: ctx.token_mint,
        staked_timestamp: now,
        claimed_timestamp: now,
        claimed_tokens: 0,
        lock_period: ctx.stake_tier.data.lock_period,
        stake_tier: ctx.stake_tier.key,
        reward,
    };
    let deposit = Transfer {
        authority: ctx.staker,
        from: ctx.staker_ata,
        to: ctx.stake_farm_ata,
        amount: 1,
        signer: None,
    };
    Ok(Staked { stake_account, deposit })
}

/// Pays the reward that is due on a position at `now`. Gives the transfer
/// out of the farm's reward escrow, signed by the farm, and the position to
/// store in place of the old one.
///
/// The reward is the position's reward for each whole tick since the last
/// claim. For a locked position, all claims together pay no more than the
/// reward for the whole ticks of the lock period: a claim that would reach
/// that cap pays what is left under it. The time of the last claim moves on
/// by the whole ticks only, so that no part of a tick is lost or paid twice.
///
/// `KeyMismatch` if the caller is not the staker on record. Of the staker the
/// function asks that the claim can be made at all: that the farm's ticks
/// have a length, that `now` is not before the last claim, and that the total
/// paid still fits a token amount. [`StakeAccount::accrue`] tells whether it
/// can. Where the token service has no funds for the payout,
/// [`custody::settle`] lets the claim fail as a whole.
pub fn claim(ctx: &Claim, now: i64) -> (r: Result<Claimed, StakeError>)
    requires
        ctx.stake_account.data.staker == ctx.staker ==> ctx.stake_account.data@.claimable(
            ctx.stake_farm.data.tickrate as int,
            now as int,
        ),
    ensures
        r == ctx.outcome(now),
        r matches Ok(claimed) ==> {
            &&& claimed.stake_account@ == ctx.stake_account.data@.claim(
                ctx.stake_farm.data.tickrate as int,
                now as int,
            )
            &&& claimed.payout.amount == ctx.stake_account.data@.payable(
                ctx.stake_farm.data.tickrate as int,
                now as int,
            )
        },
{
    if ctx.stake_account.data.staker != ctx.staker {
        return Err(StakeError::KeyMismatch);
    }
    let accrual = ctx.stake_account.data.accrue(ctx.stake_farm.data.tickrate, now).unwrap();
    let payout = Transfer {
        authority: ctx.stake_farm.key,
        from: ctx.stake_farm_reward_ata,
        to: ctx.staker_reward_ata,
        amount: accrual.reward,
        signer: Some(
            FarmSigner { manager: ctx.stake_farm.data.manager, bump: ctx.stake_farm.data.bump },
        ),
    };
    Ok(Claimed { stake_account: accrual.position, payout })
}

/// Closes a stake position at `now`. Gives the transfer that takes the token
/// out of the farm's escrow, signed by the farm, and the record to remove,
/// its storage paid back to the staker.
///
/// `MintMismatch` if `ctx.token_mint` is not the mint of the position; else
/// `KeyMismatch` if the caller is not the staker on record; else
/// `InvalidUnstake` if the position is locked and `now` is before the end of
/// its lock period.
pub fn unstake(ctx: &Unstake, now: i64) -> (r: Result<Unstaked, StakeError>)
    ensures
        r == ctx.outcome(now),
{
    if ctx.token_mint != ctx.stake_account.data.mint {
        return Err(StakeError::MintMismatch);
    }
    if ctx.stake_account.data.staker != ctx.staker {
        return Err(StakeError::KeyMismatch);
    }
    let position = &ctx.stake_account.data;
    if position.lock_period > 0 && (position.staked_timestamp as i128) > (now as i128) - (
    position.lock_period as i128) {
        return Err(StakeError::InvalidUnstake);
    }
    let withdrawal = Transfer {
        authority: ctx.stake_farm.key,
        from: ctx.stake_farm_ata,
        to: ctx.staker_ata,
        amount: 1,
        signer: Some(
            FarmSigner { manager: ctx.stake_farm.data.manager, bump: ctx.stake_farm.data.bump },
        ),
    };
    Ok(Unstaked { withdrawal, closing: Closing { record: ctx.stake_account.key, refund_to: ctx.staker } })
}

} // verus!
