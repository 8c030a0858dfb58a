use crate::error::StakeError;
use crate::instructions::{Account, AddTier, Claim, Claimed, Stake, Unstake};
use crate::reward::Position;
use vstd::arithmetic::div_mod::{
    lemma_basic_div, lemma_div_is_ordered, lemma_div_pos_is_pos, lemma_fundamental_div_mod,
    lemma_fundamental_div_mod_converse, lemma_mod_bound, lemma_small_mod,
};
use vstd::arithmetic::mul::{lemma_mul_inequality, lemma_mul_nonnegative};
use vstd::prelude::*;

verus! {

impl Position {
    /// The position after claims at each of `times`, in their order.
    pub open spec fn claim_all(self, tick: int, times: Seq<int>) -> Position
        decreases times.len(),
    {
        if times.len() == 0 {
            self
        } else {
            self.claim_all(tick, times.drop_last()).claim(tick, times.last())
        }
    }

    /// The times are none before the position's last claim, and none before
    /// the one in front of it.
    pub open spec fn in_order(self, times: Seq<int>) -> bool {
        &&& forall|i: int| 0 <= i < times.len() ==> self.last_claimed_at <= #[trigger] times[i]
        &&& forall|i: int, j: int| 0 <= i <= j < times.len() ==> times[i] <= times[j]
    }

    /// The ends of the first `n` ticks after the position's last claim.
    pub open spec fn tick_ends(self, tick: int, n: nat) -> Seq<int> {
        Seq::new(n, |i: int| self.last_claimed_at + (i + 1) * tick)
    }
}

/// A claim moves the time of the last claim on by the whole ticks that have
/// gone by, and by no more: what is left to `now` is less than a tick.
pub proof fn law_claim_advances_by_whole_ticks(p: Position, tick: int, now: int)
    requires
        tick > 0,
        now >= p.last_claimed_at,
    ensures
        p.ticks_due(tick, now) >= 0,
        p.claim(tick, now).last_claimed_at == p.last_claimed_at + p.ticks_due(tick, now) * tick,
        p.last_claimed_at <= p.claim(tick, now).last_claimed_at <= now,
        now - p.claim(tick, now).last_claimed_at < tick,
        (p.claim(tick, now).last_claimed_at - p.last_claimed_at) % tick == 0,
{
    let elapsed = now - p.last_claimed_at;
    let ticks = p.ticks_due(tick, now);
    lemma_fundamental_div_mod(elapsed, tick);
    lemma_mod_bound(elapsed, tick);
    lemma_div_pos_is_pos(elapsed, tick);
    lemma_mul_nonnegative(ticks, tick);
    assert((ticks * tick) % tick == 0) by (nonlinear_arith)
        requires
            tick > 0,
    ;
}

/// A claim never takes back what was paid: it pays nothing or more, and the
/// total paid goes up by what it pays.
pub proof fn law_claim_pays_no_less_than_nothing(p: Position, tick: int, now: int)
    requires
        tick > 0,
        now >= p.last_claimed_at,
    ensures
        p.payable(tick, now) >= 0,
        p.claim(tick, now).claimed_total == p.claimed_total + p.payable(tick, now),
        p.claim(tick, now).claimed_total >= p.claimed_total,
{
    lemma_div_pos_is_pos(now - p.last_claimed_at, tick);
    lemma_mul_nonnegative(p.ticks_due(tick, now), p.reward_per_tick as int);
}

/// A claim changes the total paid and the time of the last claim, and
/// nothing else. What a position earns, whose it is and when it can be closed
/// stay as they were when it was opened.
pub proof fn law_claim_keeps_the_terms(p: Position, tick: int, now: int, at: int)
    ensures
        p.claim(tick, now) == (Position {
            last_claimed_at: p.claim(tick, now).last_claimed_at,
            claimed_total: p.claim(tick, now).claimed_total,
            ..p
        }),
        p.claim(tick, now).locked() == p.locked(),
        p.claim(tick, now).matured(at) == p.matured(at),
{
}

/// A claim before a whole tick has gone by pays nothing and changes nothing:
/// neither the total paid nor the time of the last claim.
pub proof fn law_early_claim_changes_nothing(p: Position, tick: int, now: int)
    requires
        tick > 0,
        p.last_claimed_at <= now < p.last_claimed_at + tick,
    ensures
        p.payable(tick, now) == 0,
        p.claim(tick, now) == p,
{
    let elapsed = now - p.last_claimed_at;
    lemma_basic_div(elapsed, tick);
    lemma_small_mod(elapsed as nat, tick as nat);
    assert(0 * p.reward_per_tick == 0);
}

/// However often a position is claimed against before a whole tick has gone
/// by, it stays as it is.
pub proof fn law_early_claims_change_nothing(p: Position, tick: int, times: Seq<int>)
    requires
        tick > 0,
        forall|i: int|
            0 <= i < times.len() ==> p.last_claimed_at <= #[trigger] times[i] < p.last_claimed_at
                + tick,
    ensures
        p.claim_all(tick, times) == p,
    decreases times.len(),
{
    if times.len() > 0 {
        law_early_claims_change_nothing(p, tick, times.drop_last());
        law_early_claim_changes_nothing(p, tick, times.last());
    }
}

/// A claim by the staker before a whole tick has gone by is granted, pays
/// nothing, and leaves the position as it is.
pub proof fn law_early_claim_keeps_the_position(ctx: Claim, now: i64)
    requires
        ctx.staker == ctx.stake_account.data.staker,
        ctx.stake_farm.data.tickrate > 0,
        ctx.stake_account.data.claimed_timestamp <= now < ctx.stake_account.data.claimed_timestamp
            + ctx.stake_farm.data.tickrate,
    ensures
        ctx.outcome(now) == Ok::<Claimed, StakeError>(
            Claimed { stake_account: ctx.stake_account.data, payout: ctx.payout(0) },
        ),
{
    law_early_claim_changes_nothing(
        ctx.stake_account.data@,
        ctx.stake_farm.data.tickrate as int,
        now as int,
    );
}

/// Two claims, one after the other, come to the same as the second alone:
/// what the first paid, the second pays less, and the ticks are counted once.
pub proof fn law_claims_compose(p: Position, tick: int, first: int, second: int)
    requires
        tick > 0,
        p.last_claimed_at <= first <= second,
    ensures
        p.claim(tick, first).claim(tick, second) == p.claim(tick, second),
{
    let rate = p.reward_per_tick as int;
    let e1 = first - p.last_claimed_at;
    let e2 = second - p.last_claimed_at;
    let k1 = e1 / tick;
    let k2 = e2 / tick;
    let q = p.claim(tick, first);
    law_claim_advances_by_whole_ticks(p, tick, first);
    law_claim_advances_by_whole_ticks(p, tick, second);
    law_claim_pays_no_less_than_nothing(p, tick, first);
    lemma_div_is_ordered(e1, e2, tick);
    lemma_fundamental_div_mod(e2, tick);
    lemma_mod_bound(e2, tick);
    // What is left of the second span after the first claim.
    let rest = second - q.last_claimed_at;
    assert(rest == (k2 - k1) * tick + e2 % tick) by (nonlinear_arith)
        requires
            rest == e2 - k1 * tick,
            e2 == tick * k2 + e2 % tick,
    ;
    lemma_fundamental_div_mod_converse(rest, tick, k2 - k1, e2 % tick);
    assert(q.ticks_due(tick, second) == k2 - k1);
    assert(k2 * rate == k1 * rate + (k2 - k1) * rate) by (nonlinear_arith);
    lemma_mul_nonnegative(k1, rate);
    lemma_mul_nonnegative(k2 - k1, rate);
}

/// Claims at times in order come to the same as one claim at the last of
/// them.
pub proof fn law_claims_add_up(p: Position, tick: int, times: Seq<int>)
    requires
        tick > 0,
        times.len() > 0,
        p.in_order(times),
    ensures
        p.claim_all(tick, times) == p.claim(tick, times.last()),
    decreases times.len(),
{
    let front = times.drop_last();
    if front.len() == 0 {
        assert(p.claim_all(tick, front) == p);
    } else {
        law_claims_add_up(p, tick, front);
        law_claims_compose(p, tick, front.last(), times.last());
    }
}

/// One claim after `n` whole ticks comes to the same as `n` claims, one at
/// the end of each tick.
pub proof fn law_claim_by_tick_or_at_once(p: Position, tick: int, n: nat)
    requires
        tick > 0,
    ensures
        p.claim_all(tick, p.tick_ends(tick, n)) == p.claim(tick, p.last_claimed_at + n * tick),
{
    let times = p.tick_ends(tick, n);
    if n == 0 {
        assert(0 * tick == 0);
        law_early_claim_changes_nothing(p, tick, p.last_claimed_at);
    } else {
        assert forall|i: int, j: int| 0 <= i <= j < times.len() implies times[i] <= times[j] by {
            lemma_mul_inequality(i + 1, j + 1, tick);
        }
        assert forall|i: int| 0 <= i < times.len() implies p.last_claimed_at
            <= #[trigger] times[i] by {
            lemma_mul_nonnegative(i + 1, tick);
        }
        law_claims_add_up(p, tick, times);
    }
}

/// A claim keeps a locked position within its cap.
pub proof fn law_claim_keeps_within_cap(p: Position, tick: int, now: int)
    requires
        tick > 0,
        now >= p.last_claimed_at,
        p.within_cap(tick),
    ensures
        p.claim(tick, now).within_cap(tick),
{
    law_claim_pays_no_less_than_nothing(p, tick, now);
}

/// Whatever claims are made against a locked position that is within its
/// cap, in whatever number, the total paid is never more than the cap: the
/// reward for each whole tick of the lock period.
pub proof fn law_claims_keep_within_cap(p: Position, tick: int, times: Seq<int>)
    requires
        tick > 0,
        p.locked(),
        p.within_cap(tick),
        p.in_order(times),
    ensures
        p.claim_all(tick, times).claimed_total <= p.reward_per_tick * (p.lock_period / tick),
        p.claim_all(tick, times).within_cap(tick),
        p.claim_all(tick, times).lock_period == p.lock_period,
        p.claim_all(tick, times).reward_per_tick == p.reward_per_tick,
    decreases times.len(),
{
    if times.len() > 0 {
        let front = times.drop_last();
        law_claims_keep_within_cap(p, tick, front);
        let q = p.claim_all(tick, front);
        if front.len() > 0 {
            law_claims_add_up(p, tick, front);
            law_claim_advances_by_whole_ticks(p, tick, front.last());
        }
        law_claim_keeps_within_cap(q, tick, times.last());
    }
}

/// A position that has just been opened against a locked tier has claimed
/// nothing, and whatever claims follow, the total paid is never more than
/// the reward for each whole tick of the tier's lock period.
pub proof fn law_staked_position_stays_within_cap(
    ctx: Stake,
    now: i64,
    tick: int,
    times: Seq<int>,
)
    requires
        ctx.outcome(now) is Ok,
        ctx.effective_reward() <= u64::MAX,
        ctx.stake_tier.data.lock_period > 0,
        tick > 0,
        ctx.opened(now)@.in_order(times),
    ensures
        ctx.opened(now)@.claim_all(tick, times).claimed_total <= ctx.effective_reward() * (
        ctx.stake_tier.data.lock_period as int / tick),
{
    let p = ctx.opened(now)@;
    lemma_div_pos_is_pos(p.lock_period, tick);
    lemma_mul_nonnegative(p.reward_per_tick as int, p.lock_period / tick);
    law_claims_keep_within_cap(p, tick, times);
}

/// A position opened against a tier without a lock can be closed at any
/// time after, by the one who staked: the token goes back out of the escrow
/// that it went into, to the account that it came from, and the position is
/// removed.
pub proof fn law_unlocked_stake_can_be_undone(staking: Stake, now: i64, unstaking: Unstake, later: i64)
    requires
        staking.outcome(now) is Ok,
        staking.stake_tier.data.lock_period == 0,
        unstaking.staker == staking.staker,
        unstaking.token_mint == staking.token_mint,
        unstaking.staker_ata == staking.staker_ata,
        unstaking.stake_farm_ata == staking.stake_farm_ata,
        unstaking.stake_account == (Account {
            key: staking.stake_account.key,
            data: staking.outcome(now)->Ok_0.stake_account,
        }),
    ensures
        unstaking.outcome(later) is Ok,
        unstaking.outcome(later)->Ok_0.withdrawal.gives_back(
            staking.outcome(now)->Ok_0.deposit,
        ),
        unstaking.outcome(later)->Ok_0.closing.record == staking.stake_account.key,
        unstaking.outcome(later)->Ok_0.closing.refund_to == staking.staker,
{
}

/// A locked position cannot be closed before its lock period is over, and
/// can be from then on: closing it fails with `InvalidUnstake` at any time
/// before the time of staking plus the lock period, and succeeds at that
/// time and at any time after it.
pub proof fn law_lock_holds_until_the_period_is_over(ctx: Unstake, now: i64)
    requires
        ctx.stake_account.data.lock_period > 0,
        ctx.token_mint == ctx.stake_account.data.mint,
        ctx.staker == ctx.stake_account.data.staker,
    ensures
        now < ctx.stake_account.data.staked_timestamp + ctx.stake_account.data.lock_period
            ==> ctx.outcome(now) matches Err(StakeError::InvalidUnstake),
        now >= ctx.stake_account.data.staked_timestamp + ctx.stake_account.data.lock_period
            ==> ctx.outcome(now) is Ok,
{
}

/// Staking a token whose mint is not the one that the bonus on record is
/// for fails with `Unauthorized`, and opens no position.
pub proof fn law_stake_of_another_mint_is_refused(ctx: Stake, now: i64)
    requires
        ctx.stake_mint matches Some(stake_mint) && stake_mint.mint != ctx.token_mint,
    ensures
        ctx.outcome(now) matches Err(StakeError::Unauthorized),
{
}

/// A tier cannot be created twice at one address: once the tier that the
/// first request gave is stored there, a second request fails with
/// `DuplicateRecord`, whatever it asks for.
pub proof fn law_tier_is_created_once(
    ctx: AddTier,
    lock_period: i64,
    reward: u64,
    lock_period_again: i64,
    reward_again: u64,
)
    requires
        ctx.outcome(lock_period, reward) is Ok,
    ensures
        ctx.with_stored(ctx.outcome(lock_period, reward)->Ok_0).outcome(
            lock_period_again,
            reward_again,
        ) matches Err(StakeError::DuplicateRecord),
{
}

} // verus!
