use crate::pubkey::Pubkey;
use crate::reward::Position;
use vstd::prelude::*;

verus! {

/// A farm: the root of one reward program.
#[derive(Clone, Copy, Debug, PartialEq, Eq)]
pub struct StakeFarm {
    /// The bump of the farm's address.
    pub bump: u8,
    /// The administrator of the farm.
    pub manager: Pubkey,
    /// The length of a tick, in seconds.
    pub tickrate: i64,
    /// The mint of the token that rewards are paid in.
    pub reward_mint: Pubkey,
}

/// A tier of a farm: a lock period and a reward for each tick.
#[derive(Clone, Copy, Debug, PartialEq, Eq)]
pub struct StakeTier {
    /// The farm that the tier belongs to.
    pub farm: Pubkey,
    /// The reward for each tick.
    pub reward: u64,
    /// The lock period, in seconds; not positive for a tier without a lock.
    pub lock_period: i64,
}

/// The bonus that a farm grants for staking the tokens of one mint.
#[derive(Clone, Copy, Debug, PartialEq, Eq)]
pub struct StakeMint {
    /// The bump of the record's address.
    pub bump: u8,
    /// The farm that grants the bonus.
    pub farm: Pubkey,
    /// The mint that the bonus is for.
    pub mint: Pubkey,
    /// The reward added for each tick.
    pub bonus_reward: u64,
}

/// A stake position: one token of one mint, staked by one participant.
#[derive(Clone, Copy, Debug, PartialEq, Eq)]
pub struct StakeAccount {
    /// The bump of the position's address.
    pub bump: u8,
    /// The participant who staked.
    pub staker: Pubkey,
    /// The mint of the staked token.
    pub mint: Pubkey,
    /// When the token was staked.
    pub staked_timestamp: i64,
    /// The end of the last tick that has been paid for.
    pub claimed_timestamp: i64,
    /// All that has been paid out so far.
    pub claimed_tokens: u64,
    /// The tier's lock period at the time of staking.
    pub lock_period: i64,
    /// The tier that the position was opened against.
    pub stake_tier: Pubkey,
    /// The tier's reward and the mint's bonus at the time of staking.
    pub reward: u64,
}

impl View for StakeAccount {
    type V = Position;

    open spec fn view(&self) -> Position {
        Position {
            owner: self.staker,
            asset: self.mint,
            tier: self.stake_tier,
            bump: self.bump,
            opened_at: self.staked_timestamp as int,
            last_claimed_at: self.claimed_timestamp as int,
            claimed_total: self.claimed_tokens as nat,
            lock_period: self.lock_period as int,
            reward_per_tick: self.reward as nat,
        }
    }
}

} // verus!
