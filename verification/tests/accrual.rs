use fluid_staking::claim;
use fluid_staking::custody::{FarmSigner, Transfer};
use fluid_staking::error::StakeError;
use fluid_staking::instructions::{Account, Claim, Claimed};
use fluid_staking::pubkey::Pubkey;
use fluid_staking::reward::Accrual;
use fluid_staking::state::{StakeAccount, StakeFarm};

fn address(n: u8) -> Pubkey {
    Pubkey { bytes: [n; 32] }
}

fn position(lock_period: i64, reward: u64, since: i64) -> StakeAccount {
    StakeAccount {
        bump: 254,
        staker: address(1),
        mint: address(2),
        staked_timestamp: since,
        claimed_timestamp: since,
        claimed_tokens: 0,
        lock_period,
        stake_tier: address(3),
        reward,
    }
}

fn claim_request(position: StakeAccount, tickrate: i64) -> Claim {
    Claim {
        staker: address(1),
        stake_farm: Account {
            key: address(10),
            data: StakeFarm { bump: 255, manager: address(11), tickrate, reward_mint: address(12) },
        },
        stake_account: Account { key: address(20), data: position },
        stake_farm_reward_ata: address(30),
        staker_reward_ata: address(31),
    }
}

fn paid(position: StakeAccount, tickrate: i64, now: i64) -> Accrual {
    position.accrue(tickrate, now).expect("the claim can be made")
}

#[test]
fn claim_long_after_the_lock_period_pays_the_cap_and_then_nothing() {
    let opened = position(600, 10, 0);
    let first = paid(opened, 60, 3600);
    assert_eq!(first.reward, 100);
    assert_eq!(first.position.claimed_tokens, 100);
    assert_eq!(first.position.claimed_timestamp, 3600);
    let second = paid(first.position, 60, 7200);
    assert_eq!(second.reward, 0);
    assert_eq!(second.position.claimed_tokens, 100);
    assert_eq!(second.position.claimed_timestamp, 7200);
}

#[test]
fn claim_on_an_unlocked_position_keeps_the_part_of_a_tick() {
    let opened = position(0, 5, 0);
    let first = paid(opened, 30, 95);
    assert_eq!(first.reward, 15);
    assert_eq!(first.position.claimed_tokens, 15);
    assert_eq!(first.position.claimed_timestamp, 90);
    // The five seconds left over count towards the next tick.
    let second = paid(first.position, 30, 120);
    assert_eq!(second.reward, 5);
    assert_eq!(second.position.claimed_tokens, 20);
    assert_eq!(second.position.claimed_timestamp, 120);
}

#[test]
fn claim_changes_only_the_time_and_the_total() {
    let opened = position(600, 10, 1_000);
    let after = paid(opened, 60, 1_130).position;
    assert_eq!(
        after,
        StakeAccount { claimed_timestamp: 1_120, claimed_tokens: 20, ..opened }
    );
}

#[test]
fn claim_before_a_whole_tick_pays_nothing() {
    let opened = position(0, 5, 1_000);
    for now in [1_000, 1_001, 1_015, 1_029] {
        let accrual = paid(opened, 30, now);
        assert_eq!(accrual.reward, 0);
        assert_eq!(accrual.position, opened);
    }
}

#[test]
fn repeated_early_claims_change_nothing() {
    let start = paid(position(600, 10, 0), 60, 130).position;
    assert_eq!(start.claimed_tokens, 20);
    assert_eq!(start.claimed_timestamp, 120);
    let mut current = start;
    for now in [120, 125, 150, 179, 179, 179] {
        let accrual = paid(current, 60, now);
        assert_eq!(accrual.reward, 0);
        current = accrual.position;
    }
    assert_eq!(current, start);
}

#[test]
fn claim_at_each_tick_comes_to_the_same_as_one_claim() {
    let opened = position(0, 7, 500);
    let mut current = opened;
    for n in 1..=9 {
        current = paid(current, 45, 500 + n * 45).position;
    }
    let at_once = paid(opened, 45, 500 + 9 * 45).position;
    assert_eq!(current, at_once);
    assert_eq!(at_once.claimed_tokens, 63);
    assert_eq!(at_once.claimed_timestamp, 905);
}

#[test]
fn claim_at_each_tick_comes_to_the_same_as_one_claim_when_capped() {
    let opened = position(300, 7, 500);
    let mut current = opened;
    for n in 1..=9 {
        current = paid(current, 45, 500 + n * 45).position;
    }
    let at_once = paid(opened, 45, 500 + 9 * 45).position;
    assert_eq!(current, at_once);
    // Six whole ticks fit in the lock period.
    assert_eq!(at_once.claimed_tokens, 42);
}

#[test]
fn claims_in_order_come_to_the_same_as_the_last_alone() {
    let opened = position(0, 3, 10);
    let mut current = opened;
    for now in [10, 17, 40, 41, 99, 100, 250] {
        current = paid(current, 20, now).position;
    }
    assert_eq!(current, paid(opened, 20, 250).position);
    assert_eq!(current.claimed_tokens, 36);
    assert_eq!(current.claimed_timestamp, 250);
}

#[test]
fn claims_on_a_locked_position_never_pass_the_cap() {
    let mut current = position(600, 10, 0);
    let mut rewards = Vec::new();
    for now in [120, 500, 700, 10_000, 1_000_000] {
        let accrual = paid(current, 60, now);
        rewards.push(accrual.reward);
        current = accrual.position;
        assert!(current.claimed_tokens <= 100);
    }
    assert_eq!(rewards, vec![20, 60, 20, 0, 0]);
    assert_eq!(current.claimed_tokens, 100);
}

#[test]
fn claim_that_meets_the_cap_exactly_pays_the_full_ticks() {
    let accrual = paid(position(600, 10, 0), 60, 600);
    assert_eq!(accrual.reward, 100);
    let accrual = paid(position(600, 10, 0), 60, 599);
    assert_eq!(accrual.reward, 90);
    assert_eq!(accrual.position.claimed_timestamp, 540);
}

#[test]
fn cap_counts_whole_ticks_of_the_lock_period_only() {
    // 599 seconds hold nine ticks of 60.
    let accrual = paid(position(599, 10, 0), 60, 3600);
    assert_eq!(accrual.reward, 90);
    // A lock period shorter than a tick holds none.
    let accrual = paid(position(59, 10, 0), 60, 3600);
    assert_eq!(accrual.reward, 0);
    assert_eq!(accrual.position.claimed_timestamp, 3600);
}

#[test]
fn position_paid_more_than_its_cap_is_paid_nothing() {
    let over = StakeAccount { claimed_tokens: 120, ..position(600, 10, 0) };
    let accrual = paid(over, 60, 3600);
    assert_eq!(accrual.reward, 0);
    assert_eq!(accrual.position.claimed_tokens, 120);
    assert_eq!(accrual.position.claimed_timestamp, 3600);
}

#[test]
fn position_with_a_negative_lock_period_is_not_capped() {
    let accrual = paid(position(-600, 10, 0), 60, 3600);
    assert_eq!(accrual.reward, 600);
}

#[test]
fn claim_counts_from_a_time_before_the_epoch() {
    let accrual = paid(position(0, 2, -100), 30, 5);
    assert_eq!(accrual.reward, 6);
    assert_eq!(accrual.position.claimed_timestamp, -10);
}

#[test]
fn accrue_needs_ticks_of_some_length() {
    assert_eq!(position(0, 5, 0).accrue(0, 100), None);
    assert_eq!(position(0, 5, 0).accrue(-30, 100), None);
    assert_eq!(position(600, 5, 0).accrue(i64::MIN, 100), None);
}

#[test]
fn accrue_needs_a_clock_that_has_not_gone_back() {
    assert_eq!(position(0, 5, 100).accrue(30, 99), None);
    assert!(position(0, 5, 100).accrue(30, 100).is_some());
}

#[test]
fn accrue_stops_where_the_total_does_not_fit() {
    let rich = position(0, u64::MAX, 0);
    assert_eq!(paid(rich, 10, 10).reward, u64::MAX);
    assert_eq!(rich.accrue(10, 20), None);
    let nearly = StakeAccount { claimed_tokens: u64::MAX - 9, ..position(0, 5, 0) };
    assert_eq!(paid(nearly, 10, 10).position.claimed_tokens, u64::MAX - 4);
    assert_eq!(nearly.accrue(10, 20), None);
}

#[test]
fn accrue_spans_the_whole_range_of_the_clock() {
    let oldest = position(0, 1, i64::MIN);
    let accrual = paid(oldest, 1, i64::MAX);
    assert_eq!(accrual.reward, u64::MAX);
    assert_eq!(accrual.position.claimed_timestamp, i64::MAX);
    let accrual = paid(oldest, i64::MAX, i64::MAX);
    assert_eq!(accrual.reward, 2);
    assert_eq!(accrual.position.claimed_timestamp, i64::MAX - 1);
    assert_eq!(position(0, 2, i64::MIN).accrue(1, i64::MAX), None);
}

#[test]
fn accrue_caps_a_reward_that_would_not_fit_uncapped() {
    let locked = position(3, u64::MAX / 3, i64::MIN);
    let accrual = paid(locked, 1, i64::MAX);
    assert_eq!(accrual.reward, (u64::MAX / 3) * 3);
    // A cap that does not fit cannot be reached.
    assert_eq!(position(4, u64::MAX / 3, i64::MIN).accrue(1, i64::MAX), None);
    assert_eq!(paid(position(4, u64::MAX / 3, 0), 1, 2).reward, (u64::MAX / 3) * 2);
}

#[test]
fn claim_pays_out_of_the_reward_escrow_as_the_farm() {
    let request = claim_request(position(600, 10, 0), 60);
    let claimed = claim(&request, 150).expect("the staker may claim");
    assert_eq!(
        claimed,
        Claimed {
            stake_account: StakeAccount {
                claimed_timestamp: 120,
                claimed_tokens: 20,
                ..position(600, 10, 0)
            },
            payout: Transfer {
                authority: address(10),
                from: address(30),
                to: address(31),
                amount: 20,
                signer: Some(FarmSigner { manager: address(11), bump: 255 }),
            },
        }
    );
}

#[test]
fn claim_goes_by_the_tick_of_the_farm() {
    let held = position(600, 10, 0);
    assert_eq!(claim(&claim_request(held, 60), 3600).unwrap().payout.amount, 100);
    assert_eq!(claim(&claim_request(held, 100), 3600).unwrap().payout.amount, 60);
    assert_eq!(claim(&claim_request(held, 601), 3600).unwrap().payout.amount, 0);
}

#[test]
fn claim_by_another_than_the_staker_is_refused() {
    let mut request = claim_request(position(600, 10, 0), 60);
    request.staker = address(99);
    assert_eq!(claim(&request, 3600), Err(StakeError::KeyMismatch));
}
