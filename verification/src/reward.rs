use crate::pubkey::Pubkey;
use crate::state::StakeAccount;
use vstd::arithmetic::div_mod::lemma_mod_decreases;
use vstd::arithmetic::mul::lemma_mul_upper_bound;
use vstd::prelude::*;

verus! {

/// A stake position as the accrual rules see it: times and amounts are
/// unbounded integers, so that the rules can be stated without regard to
/// machine limits.
pub struct Position {
    /// The participant who opened the position, and the only one who may claim
    /// against it or close it.
    pub owner: Pubkey,
    /// The mint of the staked token.
    pub asset: Pubkey,
    /// The tier that the position was opened against.
    pub tier: Pubkey,
    /// The bump of the address that the position is stored at.
    pub bump: u8,
    /// When the position was opened.
    pub opened_at: int,
    /// The end of the last tick that has been accounted for.
    pub last_claimed_at: int,
    /// All that has been paid out so far.
    pub claimed_total: nat,
    /// The lock period copied from the tier when the position was opened; a
    /// period that is not positive means that the position is not locked.
    pub lock_period: int,
    /// The reward for each tick, copied from the tier and the mint's bonus when
    /// the position was opened.
    pub reward_per_tick: nat,
}

impl Position {
    /// A locked position cannot be closed before its lock period is over, and
    /// earns no more than the ticks of that period.
    pub open spec fn locked(self) -> bool {
        self.lock_period > 0
    }

    /// The whole ticks of length `tick` between the last claim and `now`.
    pub open spec fn ticks_due(self, tick: int, now: int) -> int {
        (now - self.last_claimed_at) / tick
    }

    /// The time since the last whole tick: it earns nothing yet, and is kept
    /// for the next claim.
    pub open spec fn remainder(self, tick: int, now: int) -> int {
        (now - self.last_claimed_at) % tick
    }

    /// The most that a locked position is ever paid: its reward for each whole
    /// tick of the lock period.
    pub open spec fn cap(self, tick: int) -> int {
        self.reward_per_tick * (self.lock_period / tick)
    }

    /// What a claim at `now` pays: the reward for the ticks due, and for a
    /// locked position no more than what is left under its cap.
    pub open spec fn payable(self, tick: int, now: int) -> int {
        let gross = self.ticks_due(tick, now) * self.reward_per_tick;
        if self.locked() && gross + self.claimed_total >= self.cap(tick) {
            if self.cap(tick) >= self.claimed_total {
                self.cap(tick) - self.claimed_total
            } else {
                0
            }
        } else {
            gross
        }
    }

    /// The position after a claim at `now`.
    pub open spec fn claim(self, tick: int, now: int) -> Position {
        Position {
            last_claimed_at: now - self.remainder(tick, now),
            claimed_total: (self.claimed_total + self.payable(tick, now)) as nat,
            ..self
        }
    }

    /// A locked position has not been paid more than its cap.
    pub open spec fn within_cap(self, tick: int) -> bool {
        self.locked() ==> self.claimed_total <= self.cap(tick)
    }

    /// Whether the position may be closed at `now`: it is not locked, or its
    /// lock period has run out.
    pub open spec fn matured(self, now: int) -> bool {
        !(self.locked() && self.opened_at > now - self.lock_period)
    }

    /// A claim at `now` can be made: ticks have a length, the clock has not
    /// gone back, and the new total fits the 64 bits of a token amount.
    pub open spec fn claimable(self, tick: int, now: int) -> bool {
        &&& tick > 0
        &&& now >= self.last_claimed_at
        &&& self.claimed_total + self.payable(tick, now) <= u64::MAX
    }
}

/// What one claim comes to.
#[derive(Clone, Copy, Debug, PartialEq, Eq)]
pub struct Accrual {
    /// The reward to pay out.
    pub reward: u64,
    /// The position once the reward has been paid.
    pub position: StakeAccount,
}

impl StakeAccount {
    /// What a claim at `now` comes to where it can be made: the reward and
    /// the position after it, in the widths that they are stored in.
    pub open spec fn accrual(self, tickrate: i64, now: i64) -> Accrual {
        let after = self@.claim(tickrate as int, now as int);
        Accrual {
            reward: self@.payable(tickrate as int, now as int) as u64,
            position: StakeAccount {
                claimed_timestamp: after.last_claimed_at as i64,
                claimed_tokens: after.claimed_total as u64,
                ..self
            },
        }
    }

    /// Works out a claim at `now` for a farm whose ticks are `tickrate`
    /// seconds long: the reward for the whole ticks since the last claim,
    /// capped for a locked position, and the position with the reward added
    /// and the ticks accounted for. The part of a tick that has gone by is not
    /// accounted for: it counts at the next claim. There is no result where
    /// the claim cannot be made at all: see [`Position::claimable`].
    pub fn accrue(&self, tickrate: i64, now: i64) -> (r: Option<Accrual>)
        ensures
            r is Some <==> self@.claimable(tickrate as int, now as int),
            r matches Some(a) ==> {
                &&& a == self.accrual(tickrate, now)
                &&& a.reward == self@.payable(tickrate as int, now as int)
                &&& a.position@ == self@.claim(tickrate as int, now as int)
            },
    {
        if tickrate <= 0 || now < self.claimed_timestamp {
            return None;
        }
        let tick: u64 = tickrate as u64;
        let elapsed: u64 = ((now as i128) - (self.claimed_timestamp as i128)) as u64;
        let ticks: u64 = elapsed / tick;
        let remainder: u64 = elapsed % tick;
        let claimed: u128 = self.claimed_tokens as u128;
        proof {
            lemma_mod_decreases(elapsed as nat, tick as nat);
            lemma_mul_upper_bound(ticks as int, u64::MAX as int, self.reward as int, u64::MAX as int);
        }
        let gross: u128 = (ticks as u128) * (self.reward as u128);
        let mut reward: u128 = gross;
        if self.lock_period > 0 {
            let max_ticks: u64 = (self.lock_period as u64) / tick;
            proof {
                lemma_mul_upper_bound(
                    self.reward as int,
                    u64::MAX as int,
                    max_ticks as int,
                    u64::MAX as int,
                );
            }
            let cap: u128 = (self.reward as u128) * (max_ticks as u128);
            if gross + claimed >= cap {
                reward = if cap >= claimed {
                    cap - claimed
                } else {
                    0
                };
            }
        }
        let total: u128 = claimed + reward;
        if total > u64::MAX as u128 {
            return None;
        }
        Some(
            Accrual {
                reward: reward as u64,
                position: StakeAccount {
                    claimed_timestamp: now - (remainder as i64),
                    claimed_tokens: total as u64,
                    ..*self
                },
            },
        )
    }
}

} // verus!
