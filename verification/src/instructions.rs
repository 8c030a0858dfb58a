use crate::custody::{Closing, FarmSigner, Transfer};
use crate::error::StakeError;
use crate::pubkey::Pubkey;
use crate::state::{StakeAccount, StakeFarm, StakeMint, StakeTier};
use vstd::prelude::*;

verus! {

/// A record and the address that it is stored at.
#[derive(Clone, Copy, Debug, PartialEq, Eq)]
pub struct Account<T> {
    /// The address.
    pub key: Pubkey,
    /// The record.
    pub data: T,
}

/// An address at which a record is to be created, and the record that is
/// stored there now, if there is one. At an address there is one record or
/// none: where there is one, none can be created.
#[derive(Clone, Copy, Debug, PartialEq, Eq)]
pub struct Slot<T> {
    /// The address.
    pub key: Pubkey,
    /// What is stored there now.
    pub record: Option<T>,
}

/// The signing token of a farm.
pub open spec fn signer_of(farm: StakeFarm) -> FarmSigner {
    FarmSigner { manager: farm.manager, bump: farm.bump }
}

/// What the creation of a farm refers to.
#[derive(Clone, Copy, Debug, PartialEq, Eq)]
pub struct InitializeFarm {
    /// Who asks: the manager of the farm to be.
    pub manager: Pubkey,
    /// Where the farm is to be stored.
    pub stake_farm: Slot<StakeFarm>,
    /// The bump of that address.
    pub stake_farm_bump: u8,
    /// The mint of the token that the farm will pay rewards in.
    pub reward_mint: Pubkey,
}

impl InitializeFarm {
    /// What `create_farm` comes to.
    pub open spec fn outcome(self, tickrate: i64) -> Result<StakeFarm, StakeError> {
        if self.stake_farm.record is Some {
            Err(StakeError::DuplicateRecord)
        } else {
            Ok(
                StakeFarm {
                    bump: self.stake_farm_bump,
                    manager: self.manager,
                    tickrate,
                    reward_mint: self.reward_mint,
                },
            )
        }
    }
}

/// What the funding of a farm's reward escrow refers to.
#[derive(Clone, Copy, Debug, PartialEq, Eq)]
pub struct FundFarm {
    /// Who asks, and pays.
    pub manager: Pubkey,
    /// The farm.
    pub stake_farm: Account<StakeFarm>,
    /// The token account that the rewards are taken from.
    pub manager_reward_ata: Pubkey,
    /// The farm's reward escrow.
    pub stake_farm_reward_ata: Pubkey,
    /// The mint of the tokens brought.
    pub reward_token_mint: Pubkey,
}

impl FundFarm {
    /// What `fund_farm` comes to.
    pub open spec fn outcome(self, amount: u64) -> Result<Transfer, StakeError> {
        if self.reward_token_mint != self.stake_farm.data.reward_mint {
            Err(StakeError::MintMismatch)
        } else if self.manager != self.stake_farm.data.manager {
            Err(StakeError::Unauthorized)
        } else {
            Ok(
                Transfer {
                    authority: self.manager,
                    from: self.manager_reward_ata,
                    to: self.stake_farm_reward_ata,
                    amount,
                    signer: None,
                },
            )
        }
    }
}

/// What the creation of a mint's bonus refers to.
#[derive(Clone, Copy, Debug, PartialEq, Eq)]
pub struct AddMint {
    /// Who asks.
    pub manager: Pubkey,
    /// The farm.
    pub stake_farm: Account<StakeFarm>,
    /// Where the bonus is to be stored: the one address of this farm and mint.
    pub stake_mint: Slot<StakeMint>,
    /// The bump of that address.
    pub stake_mint_bump: u8,
    /// The mint that the bonus is for.
    pub mint: Pubkey,
}

impl AddMint {
    /// What `add_mint` comes to.
    pub open spec fn outcome(self, bonus_reward: u64) -> Result<StakeMint, StakeError> {
        if self.manager != self.stake_farm.data.manager {
            Err(StakeError::Unauthorized)
        } else if self.stake_mint.record is Some {
            Err(StakeError::DuplicateRecord)
        } else {
            Ok(
                StakeMint {
                    bump: self.stake_mint_bump,
                    farm: self.stake_farm.key,
                    mint: self.mint,
                    bonus_reward,
                },
            )
        }
    }
}

/// What the removal of a mint's bonus refers to.
#[derive(Clone, Copy, Debug, PartialEq, Eq)]
pub struct RemoveMint {
    /// Who asks.
    pub manager: Pubkey,
    /// The farm.
    pub stake_farm: Account<StakeFarm>,
    /// The bonus to remove.
    pub stake_mint: Account<StakeMint>,
}

impl RemoveMint {
    /// What `remove_mint` comes to.
    pub open spec fn outcome(self) -> Result<Closing, StakeError> {
        if self.manager != self.stake_farm.data.manager {
            Err(StakeError::Unauthorized)
        } else if self.stake_mint.data.farm != self.stake_farm.key {
            Err(StakeError::Unauthorized)
        } else {
            Ok(Closing { record: self.stake_mint.key, refund_to: self.manager })
        }
    }
}

/// What the creation of a tier refers to.
#[derive(Clone, Copy, Debug, PartialEq, Eq)]
pub struct AddTier {
    /// Who asks.
    pub manager: Pubkey,
    /// The farm.
    pub stake_farm: Account<StakeFarm>,
    /// Where the tier is to be stored.
    pub stake_tier: Slot<StakeTier>,
}

impl AddTier {
    /// What `create_tier` comes to.
    pub open spec fn outcome(self, lock_period: i64, reward: u64) -> Result<StakeTier, StakeError> {
        if self.manager != self.stake_farm.data.manager {
            Err(StakeError::Unauthorized)
        } else if self.stake_tier.record is Some {
            Err(StakeError::DuplicateRecord)
        } else {
            Ok(StakeTier { farm: self.stake_farm.key, reward, lock_period })
        }
    }

    /// The same request once `tier` has been stored at the address.
    pub open spec fn with_stored(self, tier: StakeTier) -> AddTier {
        AddTier { stake_tier: Slot { key: self.stake_tier.key, record: Some(tier) }, ..self }
    }
}

/// What the removal of a tier refers to.
#[derive(Clone, Copy, Debug, PartialEq, Eq)]
pub struct CloseTier {
    /// Who asks.
    pub manager: Pubkey,
    /// The farm.
    pub stake_farm: Account<StakeFarm>,
    /// The tier to remove.
    pub stake_tier: Account<StakeTier>,
}

impl CloseTier {
    /// What `close_tier` comes to.
    pub open spec fn outcome(self) -> Result<Closing, StakeError> {
        if self.manager != self.stake_farm.data.manager {
            Err(StakeError::Unauthorized)
        } else if self.stake_tier.data.farm != self.stake_farm.key {
            Err(StakeError::Unauthorized)
        } else {
            Ok(Closing { record: self.stake_tier.key, refund_to: self.manager })
        }
    }
}

/// What the opening of a stake position refers to.
#[derive(Clone, Copy, Debug, PartialEq, Eq)]
pub struct Stake {
    /// Who stakes.
    pub staker: Pubkey,
    /// Where the position is to be stored: the one address of this mint and
    /// staker.
    pub stake_account: Slot<StakeAccount>,
    /// The bump of that address.
    pub stake_account_bump: u8,
    /// The farm.
    pub stake_farm: Account<StakeFarm>,
    /// The bonus that is on record for the mint, if there is one.
    pub stake_mint: Option<StakeMint>,
    /// The tier chosen.
    pub stake_tier: Account<StakeTier>,
    /// The token account that the token is taken from.
    pub staker_ata: Pubkey,
    /// The farm's escrow for the mint.
    pub stake_farm_ata: Pubkey,
    /// The mint of the token staked.
    pub token_mint: Pubkey,
}

/// A stake position opened.
#[derive(Clone, Copy, Debug, PartialEq, Eq)]
pub struct Staked {
    /// The position to store.
    pub stake_account: StakeAccount,
    /// The transfer that brings the token into escrow.
    pub deposit: Transfer,
}

impl Stake {
    /// The bonus for each tick: that of the mint's record, or nothing.
    pub open spec fn bonus(self) -> u64 {
        match self.stake_mint {
            Some(stake_mint) => stake_mint.bonus_reward,
            None => 0,
        }
    }

    /// The reward for each tick that the position will earn.
    pub open spec fn effective_reward(self) -> int {
        self.stake_tier.data.reward + self.bonus()
    }

    /// The tier is one of the farm, and so is the bonus, if there is one.
    pub open spec fn same_farm(self) -> bool {
        &&& self.stake_tier.data.farm == self.stake_farm.key
        &&& self.stake_mint matches Some(stake_mint) ==> stake_mint.farm == self.stake_farm.key
    }

    /// The bonus, if there is one, is for the mint of the token staked.
    pub open spec fn same_mint(self) -> bool {
        self.stake_mint matches Some(stake_mint) ==> stake_mint.mint == self.token_mint
    }

    /// The position that staking at `now` opens.
    pub open spec fn opened(self, now: i64) -> StakeAccount {
        StakeAccount {
            bump: self.stake_account_bump,
            staker: self.staker,
            mint: self.token_mint,
            staked_timestamp: now,
            claimed_timestamp: now,
            claimed_tokens: 0,
            lock_period: self.stake_tier.data.lock_period,
            stake_tier: self.stake_tier.key,
            reward: self.effective_reward() as u64,
        }
    }

    /// The transfer of the one token staked, signed by the staker.
    pub open spec fn deposit(self) -> Transfer {
        Transfer {
            authority: self.staker,
            from: self.staker_ata,
            to: self.stake_farm_ata,
            amount: 1,
            signer: None,
        }
    }

    /// Whether the request is in order, and if not, why.
    pub open spec fn admission(self) -> Result<(), StakeError> {
        if !self.same_farm() {
            Err(StakeError::Unauthorized)
        } else if !self.same_mint() {
            Err(StakeError::Unauthorized)
        } else if self.stake_account.record is Some {
            Err(StakeError::DuplicateRecord)
        } else {
            Ok(())
        }
    }

    /// What `stake` comes to.
    pub open spec fn outcome(self, now: i64) -> Result<Staked, StakeError> {
        match self.admission() {
            Ok(_) => Ok(Staked { stake_account: self.opened(now), deposit: self.deposit() }),
            Err(refusal) => Err(refusal),
        }
    }

    /// Looks whether the request is in order: `Unauthorized` if the tier or
    /// the bonus is that of another farm, or the bonus is for another mint;
    /// else `DuplicateRecord` if the staker has a position for this mint
    /// already.
    pub fn validate(&self) -> (r: Result<(), StakeError>)
        ensures
            r == self.admission(),
    {
        if self.stake_tier.data.farm != self.stake_farm.key {
            return Err(StakeError::Unauthorized);
        }
        match self.stake_mint {
            Some(stake_mint) => {
                if stake_mint.farm != self.stake_farm.key {
                    return Err(StakeError::Unauthorized);
                }
                if stake_mint.mint != self.token_mint {
                    return Err(StakeError::Unauthorized);
                }
            },
            None => {},
        }
        if self.stake_account.record.is_some() {
            return Err(StakeError::DuplicateRecord);
        }
        Ok(())
    }

    /// The reward for each tick that a position opened by this request earns:
    /// the tier's reward and the mint's bonus. `None` if the sum is more than
    /// a token amount can hold.
    pub fn reward_per_tick(&self) -> (r: Option<u64>)
        ensures
            r is Some <==> self.effective_reward() <= u64::MAX,
            r matches Some(reward) ==> reward == self.effective_reward(),
    {
        let bonus: u64 = match self.stake_mint {
            Some(stake_mint) => stake_mint.bonus_reward,
            None => 0,
        };
        self.stake_tier.data.reward.checked_add(bonus)
    }
}

/// What the closing of a stake position refers to.
#[derive(Clone, Copy, Debug, PartialEq, Eq)]
pub struct Unstake {
    /// Who asks.
    pub staker: Pubkey,
    /// The farm.
    pub stake_farm: Account<StakeFarm>,
    /// The position to close.
    pub stake_account: Account<StakeAccount>,
    /// The token account that the token goes back to.
    pub staker_ata: Pubkey,
    /// The farm's escrow for the mint.
    pub stake_farm_ata: Pubkey,
    /// The mint of the token asked for.
    pub token_mint: Pubkey,
}

/// A stake position closed.
#[derive(Clone, Copy, Debug, PartialEq, Eq)]
pub struct Unstaked {
    /// The transfer that takes the token out of escrow.
    pub withdrawal: Transfer,
    /// The removal of the position.
    pub closing: Closing,
}

impl Unstake {
    /// The transfer of the one token staked, signed by the farm.
    pub open spec fn withdrawal(self) -> Transfer {
        Transfer {
            authority: self.stake_farm.key,
            from: self.stake_farm_ata,
            to: self.staker_ata,
            amount: 1,
            signer: Some(signer_of(self.stake_farm.data)),
        }
    }

    /// What `unstake` comes to.
    pub open spec fn outcome(self, now: i64) -> Result<Unstaked, StakeError> {
        if self.token_mint != self.stake_account.data.mint {
            Err(StakeError::MintMismatch)
        } else if self.stake_account.data.staker != self.staker {
            Err(StakeError::KeyMismatch)
        } else if !self.stake_account.data@.matured(now as int) {
            Err(StakeError::InvalidUnstake)
        } else {
            Ok(
                Unstaked {
                    withdrawal: self.withdrawal(),
                    closing: Closing { record: self.stake_account.key, refund_to: self.staker },
                },
            )
        }
    }
}

/// What a claim refers to.
#[derive(Clone, Copy, Debug, PartialEq, Eq)]
pub struct Claim {
    /// Who asks.
    pub staker: Pubkey,
    /// The farm.
    pub stake_farm: Account<StakeFarm>,
    /// The position claimed against.
    pub stake_account: Account<StakeAccount>,
    /// The farm's reward escrow.
    pub stake_farm_reward_ata: Pubkey,
    /// The token account that the reward goes to.
    pub staker_reward_ata: Pubkey,
}

/// A claim granted.
#[derive(Clone, Copy, Debug, PartialEq, Eq)]
pub struct Claimed {
    /// The position to store in place of the old one.
    pub stake_account: StakeAccount,
    /// The transfer that pays the reward.
    pub payout: Transfer,
}

impl Claim {
    /// The transfer of `reward` out of the farm's reward escrow, signed by the
    /// farm.
    pub open spec fn payout(self, reward: u64) -> Transfer {
        Transfer {
            authority: self.stake_farm.key,
            from: self.stake_farm_reward_ata,
            to: self.staker_reward_ata,
            amount: reward,
            signer: Some(signer_of(self.stake_farm.data)),
        }
    }

    /// What `claim` comes to.
    pub open spec fn outcome(self, now: i64) -> Result<Claimed, StakeError> {
        if self.stake_account.data.staker != self.staker {
            Err(StakeError::KeyMismatch)
        } else {
            let accrual = self.stake_account.data.accrual(self.stake_farm.data.tickrate, now);
            Ok(Claimed { stake_account: accrual.position, payout: self.payout(accrual.reward) })
        }
    }
}

} // verus!
