//! Fee policy: configuration, collection, distribution, tiers, referral
//! rewards and the staking pool. This layer consumes settlement volume;
//! it takes no part in matching or custody invariants, but its share and
//! reward arithmetic is exact and checked.

use vstd::prelude::*;
use vstd::arithmetic::div_mod::{lemma_fundamental_div_mod, lemma_mod_bound};
use vstd::arithmetic::mul::lemma_mul_inequality;
use crate::exchange::BPS_DENOMINATOR;

verus! {

/// Hard cap on any configured fee rate, in basis points (10%).
pub const MAX_FEE_BPS: u16 = 1000;

/// All distribution shares together, in basis points (100%).
pub const TOTAL_SHARES_BPS: u16 = 10000;

/// Share of distributed fees sent to the treasury.
pub const DEFAULT_TREASURY_SHARE_BPS: u16 = 4000;

/// Share of distributed fees sent to the staking pool.
pub const DEFAULT_STAKER_SHARE_BPS: u16 = 3000;

/// Share of distributed fees sent to liquidity providers.
pub const DEFAULT_LP_SHARE_BPS: u16 = 2000;

/// Fixed-point scale used for rewards per staked token.
pub const REWARD_PRECISION: u64 = 1000000000;

#[derive(Clone, Copy, PartialEq, Eq, Structural, Debug)]
pub enum FeeError {
    InvalidFeePercentage,
    FeeTooHigh,
    InvalidDistributionShares,
    InsufficientFeeBalance,
    NoRewardsToClaim,
    InvalidTierLevel,
    VolumeThresholdTooLow,
    Unauthorized,
    Overflow,
    InvalidTotalShares,
}

#[derive(Clone, Copy, PartialEq, Eq, Structural, Debug)]
pub enum FeeType {
    Trading,
    Withdrawal,
    Listing,
    Subscription,
}

#[derive(Clone, Copy, PartialEq, Eq, Structural, Debug)]
pub enum DistributionTarget {
    Treasury,
    Stakers,
    LiquidityProviders,
    Referrers,
    BurnAddress,
}

/// The share of `amount` at a rate in basis points, rounded down.
pub open spec fn share_of(amount: int, bps: int) -> int {
    amount * bps / (BPS_DENOMINATOR as int)
}

/// Computes [`share_of`] exactly. The scaled product before rounding
/// bounds the result: `TOTAL_SHARES_BPS * r <= amount * bps`, so shares
/// whose rates sum to at most 100% never add up past the amount.
pub fn share_amount(amount: u64, bps: u16) -> (r: u64)
    requires
        bps <= TOTAL_SHARES_BPS,
    ensures
        r == share_of(amount as int, bps as int),
        (TOTAL_SHARES_BPS as int) * r <= amount as int * bps as int,
        r <= amount,
{
    proof {
        let a = amount as int;
        let b = bps as int;
        lemma_mul_inequality(b, TOTAL_SHARES_BPS as int, a);
        assert(a * b == b * a) by (nonlinear_arith);
        assert(a * (TOTAL_SHARES_BPS as int) == (TOTAL_SHARES_BPS as int) * a)
            by (nonlinear_arith);
        lemma_fundamental_div_mod(a * b, 10000);
        lemma_mod_bound(a * b, 10000);
        assert(a * b >= 0) by (nonlinear_arith)
            requires a >= 0, b >= 0;
        assert(a * b <= u64::MAX as int * 10000) by (nonlinear_arith)
            requires 0 <= a <= u64::MAX, 0 <= b <= 10000;
    }
    let wide = (amount as u128) * (bps as u128) / (BPS_DENOMINATOR as u128);
    wide as u64
}

/// Fee configuration: one per deployment.
#[derive(Clone, Copy, PartialEq, Eq, Structural, Debug)]
pub struct FeeConfig {
    pub authority: u64,
    pub fee_collector: u64,
    pub trading_fee_bps: u16,
    pub withdrawal_fee_bps: u16,
    pub listing_fee: u64,
    pub total_fees_collected: u64,
    pub total_fees_distributed: u64,
}

impl FeeConfig {
    /// Creates the fee configuration; rejects a trading or withdrawal fee
    /// above [`MAX_FEE_BPS`].
    pub fn initialize_fee_config(
        authority: u64,
        fee_collector: u64,
        trading_fee_bps: u16,
        withdrawal_fee_bps: u16,
        listing_fee: u64,
    ) -> (r: Result<FeeConfig, FeeError>)
        ensures
            r is Ok <==> trading_fee_bps <= MAX_FEE_BPS && withdrawal_fee_bps <= MAX_FEE_BPS,
            r is Err ==> r == Err::<FeeConfig, FeeError>(FeeError::FeeTooHigh),
            r matches Ok(c) ==> c == (FeeConfig {
                authority,
                fee_collector,
                trading_fee_bps,
                withdrawal_fee_bps,
                listing_fee,
                total_fees_collected: 0,
                total_fees_distributed: 0,
            }),
    {
        if trading_fee_bps > MAX_FEE_BPS {
            return Err(FeeError::FeeTooHigh);
        }
        if withdrawal_fee_bps > MAX_FEE_BPS {
            return Err(FeeError::FeeTooHigh);
        }
        Ok(FeeConfig {
            authority,
            fee_collector,
            trading_fee_bps,
            withdrawal_fee_bps,
            listing_fee,
            total_fees_collected: 0,
            total_fees_distributed: 0,
        })
    }

    /// Updates any subset of the fee parameters. Both rate updates are
    /// validated against [`MAX_FEE_BPS`] before either is applied, so a
    /// rejection changes nothing.
    pub fn update_fee_config(
        &mut self,
        new_trading_fee_bps: Option<u16>,
        new_withdrawal_fee_bps: Option<u16>,
        new_listing_fee: Option<u64>,
    ) -> (r: Result<(), FeeError>)
        ensures
            r is Err <==> (new_trading_fee_bps matches Some(t) && t > MAX_FEE_BPS) || (
            new_withdrawal_fee_bps matches Some(w) && w > MAX_FEE_BPS),
            r is Err ==> r == Err::<(), FeeError>(FeeError::FeeTooHigh) && *final(self) == *old(
                self,
            ),
            r is Ok ==> *final(self) == (FeeConfig {
                trading_fee_bps: if new_trading_fee_bps is Some {
                    new_trading_fee_bps->0
                } else {
                    old(self).trading_fee_bps
                },
                withdrawal_fee_bps: if new_withdrawal_fee_bps is Some {
                    new_withdrawal_fee_bps->0
                } else {
                    old(self).withdrawal_fee_bps
                },
                listing_fee: if new_listing_fee is Some {
                    new_listing_fee->0
                } else {
                    old(self).listing_fee
                },
                ..*old(self)
            }),
    {
        if let Some(t) = new_trading_fee_bps {
            if t > MAX_FEE_BPS {
                return Err(FeeError::FeeTooHigh);
            }
        }
        if let Some(w) = new_withdrawal_fee_bps {
            if w > MAX_FEE_BPS {
                return Err(FeeError::FeeTooHigh);
            }
        }
        if let Some(t) = new_trading_fee_bps {
            self.trading_fee_bps = t;
        }
        if let Some(w) = new_withdrawal_fee_bps {
            self.withdrawal_fee_bps = w;
        }
        if let Some(l) = new_listing_fee {
            self.listing_fee = l;
        }
        Ok(())
    }

    /// Collects the trading fee on `trade_amount`: moves
    /// `trade_amount * trading_fee_bps / 10000` from the trader to the
    /// fee collector and adds it to the running total. A zero fee moves
    /// nothing and succeeds.
    pub fn collect_trading_fee(
        &mut self,
        trade_amount: u64,
        trader_balance: &mut u64,
        collector_balance: &mut u64,
    ) -> (r: Result<(), FeeError>)
        ensures
            r == Err::<(), FeeError>(FeeError::Overflow)
                <==> trade_amount * old(self).trading_fee_bps > u64::MAX
                    || (trade_amount * old(self).trading_fee_bps <= u64::MAX
                        && *old(trader_balance) >= share_of(
                        trade_amount as int,
                        old(self).trading_fee_bps as int,
                    )
                        && (*old(collector_balance) + share_of(
                        trade_amount as int,
                        old(self).trading_fee_bps as int,
                    ) > u64::MAX || (*old(collector_balance) + share_of(
                        trade_amount as int,
                        old(self).trading_fee_bps as int,
                    ) <= u64::MAX && old(self).total_fees_collected + share_of(
                        trade_amount as int,
                        old(self).trading_fee_bps as int,
                    ) > u64::MAX))),
            r == Err::<(), FeeError>(FeeError::InsufficientFeeBalance)
                <==> trade_amount * old(self).trading_fee_bps <= u64::MAX && *old(trader_balance)
                    < share_of(trade_amount as int, old(self).trading_fee_bps as int),
            r is Ok <==> trade_amount * old(self).trading_fee_bps <= u64::MAX && *old(
                trader_balance,
            ) >= share_of(trade_amount as int, old(self).trading_fee_bps as int) && *old(
                collector_balance,
            ) + share_of(trade_amount as int, old(self).trading_fee_bps as int) <= u64::MAX && old(
                self,
            ).total_fees_collected + share_of(trade_amount as int, old(self).trading_fee_bps as int)
                <= u64::MAX,
            r is Err ==> *final(self) == *old(self) && *final(trader_balance) == *old(
                trader_balance,
            ) && *final(collector_balance) == *old(collector_balance),
            r is Ok ==> {
                let fee = share_of(trade_amount as int, old(self).trading_fee_bps as int);
                &&& *final(trader_balance) == *old(trader_balance) - fee
                &&& *final(collector_balance) == *old(collector_balance) + fee
                &&& *final(self) == (FeeConfig {
                    total_fees_collected: (old(self).total_fees_collected + fee) as u64,
                    ..*old(self)
                })
            },
    {
        let scaled = match trade_amount.checked_mul(self.trading_fee_bps as u64) {
            Some(s) => s,
            None => {
                return Err(FeeError::Overflow);
            }
        };
        let fee_amount = scaled / BPS_DENOMINATOR;
        if *trader_balance < fee_amount {
            return Err(FeeError::InsufficientFeeBalance);
        }
        if u64::MAX - fee_amount < *collector_balance {
            return Err(FeeError::Overflow);
        }
        let new_total = match self.total_fees_collected.checked_add(fee_amount) {
            Some(t) => t,
            None => {
                return Err(FeeError::Overflow);
            }
        };
        *trader_balance = *trader_balance - fee_amount;
        *collector_balance = *collector_balance + fee_amount;
        self.total_fees_collected = new_total;
        Ok(())
    }

    /// Distributes `amount` of collected fees: the treasury, staker and
    /// liquidity-provider shares (40%, 30% and 20%, rounded down) leave
    /// the collector for their destinations as one unit, and the running
    /// distributed total grows by `amount`.
    pub fn distribute_fees(
        &mut self,
        amount: u64,
        collector_balance: &mut u64,
        treasury_balance: &mut u64,
        staking_balance: &mut u64,
        lp_balance: &mut u64,
    ) -> (r: Result<(), FeeError>)
        ensures
            r == Err::<(), FeeError>(FeeError::InsufficientFeeBalance)
                <==> amount == 0 || (amount * DEFAULT_TREASURY_SHARE_BPS <= u64::MAX && *old(
                collector_balance,
            ) < share_of(amount as int, DEFAULT_TREASURY_SHARE_BPS as int) + share_of(
                amount as int,
                DEFAULT_STAKER_SHARE_BPS as int,
            ) + share_of(amount as int, DEFAULT_LP_SHARE_BPS as int)),
            amount > 0 ==> {
                let t = share_of(amount as int, DEFAULT_TREASURY_SHARE_BPS as int);
                let s = share_of(amount as int, DEFAULT_STAKER_SHARE_BPS as int);
                let l = share_of(amount as int, DEFAULT_LP_SHARE_BPS as int);
                &&& (r == Err::<(), FeeError>(FeeError::Overflow)
                    <==> amount * DEFAULT_TREASURY_SHARE_BPS > u64::MAX || (*old(
                    collector_balance,
                ) >= t + s + l && (*old(treasury_balance) + t > u64::MAX || *old(staking_balance)
                    + s > u64::MAX || *old(lp_balance) + l > u64::MAX || old(
                    self,
                ).total_fees_distributed + amount > u64::MAX)))
                &&& (r is Ok <==> amount * DEFAULT_TREASURY_SHARE_BPS <= u64::MAX && *old(
                    collector_balance,
                ) >= t + s + l && *old(treasury_balance) + t <= u64::MAX && *old(staking_balance)
                    + s <= u64::MAX && *old(lp_balance) + l <= u64::MAX && old(
                    self,
                ).total_fees_distributed + amount <= u64::MAX)
            },
            r is Err ==> *final(self) == *old(self) && *final(collector_balance) == *old(
                collector_balance,
            ) && *final(treasury_balance) == *old(treasury_balance) && *final(staking_balance)
                == *old(staking_balance) && *final(lp_balance) == *old(lp_balance),
            r is Ok ==> {
                let t = share_of(amount as int, DEFAULT_TREASURY_SHARE_BPS as int);
                let s = share_of(amount as int, DEFAULT_STAKER_SHARE_BPS as int);
                let l = share_of(amount as int, DEFAULT_LP_SHARE_BPS as int);
                &&& *final(collector_balance) == *old(collector_balance) - (t + s + l)
                &&& *final(treasury_balance) == *old(treasury_balance) + t
                &&& *final(staking_balance) == *old(staking_balance) + s
                &&& *final(lp_balance) == *old(lp_balance) + l
                &&& *final(self) == (FeeConfig {
                    total_fees_distributed: (old(self).total_fees_distributed + amount) as u64,
                    ..*old(self)
                })
            },
    {
        if amount == 0 {
            return Err(FeeError::InsufficientFeeBalance);
        }
        if amount.checked_mul(DEFAULT_TREASURY_SHARE_BPS as u64).is_none() {
            return Err(FeeError::Overflow);
        }
        let treasury_amount = share_amount(amount, DEFAULT_TREASURY_SHARE_BPS);
        let staker_amount = share_amount(amount, DEFAULT_STAKER_SHARE_BPS);
        let lp_amount = share_amount(amount, DEFAULT_LP_SHARE_BPS);
        proof {
            let a = amount as int;
            assert(a * 4000 + a * 3000 + a * 2000 == a * 9000) by (nonlinear_arith);
            assert(a * 9000 <= a * 10000) by (nonlinear_arith)
                requires a >= 0;
        }
        let total_out = treasury_amount + staker_amount + lp_amount;
        if *collector_balance < total_out {
            return Err(FeeError::InsufficientFeeBalance);
        }
        if u64::MAX - treasury_amount < *treasury_balance {
            return Err(FeeError::Overflow);
        }
        if u64::MAX - staker_amount < *staking_balance {
            return Err(FeeError::Overflow);
        }
        if u64::MAX - lp_amount < *lp_balance {
            return Err(FeeError::Overflow);
        }
        let new_total = match self.total_fees_distributed.checked_add(amount) {
            Some(t) => t,
            None => {
                return Err(FeeError::Overflow);
            }
        };
        *collector_balance = *collector_balance - total_out;
        *treasury_balance = *treasury_balance + treasury_amount;
        *staking_balance = *staking_balance + staker_amount;
        *lp_balance = *lp_balance + lp_amount;
        self.total_fees_distributed = new_total;
        Ok(())
    }
}

/// A volume-based fee tier.
#[derive(PartialEq, Eq, Debug)]
pub struct FeeTier {
    pub tier_level: u8,
    pub volume_threshold: u64,
    pub discount_bps: u16,
    pub name: String,
    pub is_active: bool,
}

impl FeeTier {
    /// Creates an active fee tier; rejects a level above ten and a
    /// discount above 99%.
    pub fn initialize_fee_tier(tier_level: u8, volume_threshold: u64, discount_bps: u16) -> (r: Result<
        FeeTier,
        FeeError,
    >)
        ensures
            r == Err::<FeeTier, FeeError>(FeeError::InvalidTierLevel) <==> tier_level > 10,
            r == Err::<FeeTier, FeeError>(FeeError::InvalidFeePercentage)
                <==> tier_level <= 10 && discount_bps > 9900,
            r is Ok <==> tier_level <= 10 && discount_bps <= 9900,
            r matches Ok(t) ==> {
                &&& t.tier_level == tier_level
                &&& t.volume_threshold == volume_threshold
                &&& t.discount_bps == discount_bps
                &&& t.is_active
            },
    {
        if tier_level > 10 {
            return Err(FeeError::InvalidTierLevel);
        }
        if discount_bps > 9900 {
            return Err(FeeError::InvalidFeePercentage);
        }
        Ok(FeeTier {
            tier_level,
            volume_threshold,
            discount_bps,
            name: tier_label(tier_level),
            is_active: true,
        })
    }
}

/// The display label of a tier level up to ten.
pub fn tier_label(tier_level: u8) -> (r: String)
    requires
        tier_level <= 10,
{
    match tier_level {
        0 => "Tier 0".to_owned(),
        1 => "Tier 1".to_owned(),
        2 => "Tier 2".to_owned(),
        3 => "Tier 3".to_owned(),
        4 => "Tier 4".to_owned(),
        5 => "Tier 5".to_owned(),
        6 => "Tier 6".to_owned(),
        7 => "Tier 7".to_owned(),
        8 => "Tier 8".to_owned(),
        9 => "Tier 9".to_owned(),
        _ => "Tier 10".to_owned(),
    }
}

/// How one fee distribution splits across its targets.
#[derive(Clone, Copy, PartialEq, Eq, Structural, Debug)]
pub struct FeeDistribution {
    pub fee_config: u64,
    pub distribution_id: u64,
    pub treasury_share_bps: u16,
    pub staker_share_bps: u16,
    pub lp_share_bps: u16,
    pub referrer_share_bps: u16,
    pub burn_share_bps: u16,
    pub timestamp: i64,
}

impl FeeDistribution {
    /// The sum of all five shares; a complete distribution totals
    /// [`TOTAL_SHARES_BPS`].
    pub fn total_bps(&self) -> (r: u16)
        requires
            self.treasury_share_bps + self.staker_share_bps + self.lp_share_bps
                + self.referrer_share_bps + self.burn_share_bps <= u16::MAX,
        ensures
            r == self.treasury_share_bps + self.staker_share_bps + self.lp_share_bps
                + self.referrer_share_bps + self.burn_share_bps,
    {
        self.treasury_share_bps + self.staker_share_bps + self.lp_share_bps
            + self.referrer_share_bps + self.burn_share_bps
    }
}

/// Rewards accrued and claimed by a referrer.
#[derive(Clone, Copy, PartialEq, Eq, Structural, Debug)]
pub struct ReferralAccount {
    pub referrer: u64,
    pub total_referrals: u64,
    pub total_volume: u64,
    pub earned_rewards: u64,
    pub claimed_rewards: u64,
}

impl ReferralAccount {
    /// Rewards earned and not yet claimed; zero when everything earned
    /// has been claimed.
    pub fn unclaimed_rewards(&self) -> (r: u64)
        ensures
            r == if self.earned_rewards >= self.claimed_rewards {
                self.earned_rewards - self.claimed_rewards
            } else {
                0int
            },
    {
        if self.earned_rewards >= self.claimed_rewards {
            self.earned_rewards - self.claimed_rewards
        } else {
            0
        }
    }

    /// Claims every unclaimed reward — the earned total less what was
    /// already claimed, and nothing when the claimed total has caught up
    /// — moving it from the fee collector to the referrer and marking it
    /// claimed. Rejected when nothing is owed.
    pub fn claim_referral_rewards(
        &mut self,
        collector_balance: &mut u64,
        referrer_balance: &mut u64,
    ) -> (r: Result<(), FeeError>)
        ensures
            r == Err::<(), FeeError>(FeeError::NoRewardsToClaim)
                <==> old(self).earned_rewards <= old(self).claimed_rewards,
            r == Err::<(), FeeError>(FeeError::InsufficientFeeBalance)
                <==> old(self).earned_rewards > old(self).claimed_rewards && *old(
                collector_balance,
            ) < old(self).earned_rewards - old(self).claimed_rewards,
            r == Err::<(), FeeError>(FeeError::Overflow)
                <==> old(self).earned_rewards > old(self).claimed_rewards && *old(
                collector_balance,
            ) >= old(self).earned_rewards - old(self).claimed_rewards && *old(referrer_balance)
                + (old(self).earned_rewards - old(self).claimed_rewards) > u64::MAX,
            r is Ok <==> old(self).earned_rewards > old(self).claimed_rewards && *old(
                collector_balance,
            ) >= old(self).earned_rewards - old(self).claimed_rewards && *old(referrer_balance)
                + (old(self).earned_rewards - old(self).claimed_rewards) <= u64::MAX,
            r is Err ==> *final(self) == *old(self) && *final(collector_balance) == *old(
                collector_balance,
            ) && *final(referrer_balance) == *old(referrer_balance),
            r is Ok ==> {
                let unclaimed = old(self).earned_rewards - old(self).claimed_rewards;
                &&& *final(collector_balance) == *old(collector_balance) - unclaimed
                &&& *final(referrer_balance) == *old(referrer_balance) + unclaimed
                &&& *final(self) == (ReferralAccount {
                    claimed_rewards: old(self).earned_rewards,
                    ..*old(self)
                })
            },
    {
        let unclaimed = self.unclaimed_rewards();
        if unclaimed == 0 {
            return Err(FeeError::NoRewardsToClaim);
        }
        if *collector_balance < unclaimed {
            return Err(FeeError::InsufficientFeeBalance);
        }
        if u64::MAX - unclaimed < *referrer_balance {
            return Err(FeeError::Overflow);
        }
        *collector_balance = *collector_balance - unclaimed;
        *referrer_balance = *referrer_balance + unclaimed;
        self.claimed_rewards = self.claimed_rewards + unclaimed;
        Ok(())
    }
}

/// The staking-reward pool fed by fee distributions.
#[derive(Clone, Copy, PartialEq, Eq, Structural, Debug)]
pub struct StakingPool {
    pub fee_config: u64,
    pub total_staked: u64,
    pub total_rewards: u64,
    pub distributed_rewards: u64,
    pub reward_per_token: u64,
    pub last_update: i64,
}

impl StakingPool {
    /// A fresh, empty pool.
    pub fn initialize_staking_pool(fee_config: u64, now: i64) -> (r: StakingPool)
        ensures
            r == (StakingPool {
                fee_config,
                total_staked: 0,
                total_rewards: 0,
                distributed_rewards: 0,
                reward_per_token: 0,
                last_update: now,
            }),
    {
        StakingPool {
            fee_config,
            total_staked: 0,
            total_rewards: 0,
            distributed_rewards: 0,
            reward_per_token: 0,
            last_update: now,
        }
    }

    /// Accrues `amount` of rewards to the pool: the reward per staked
    /// token grows by `amount * REWARD_PRECISION / total_staked`, rounded
    /// down. Rejected when nothing is staked or the amount is zero.
    pub fn distribute_staking_rewards(&mut self, amount: u64, now: i64) -> (r: Result<(), FeeError>)
        ensures
            r == Err::<(), FeeError>(FeeError::InsufficientFeeBalance)
                <==> amount == 0 || old(self).total_staked == 0,
            amount > 0 && old(self).total_staked > 0 ==> {
                let increase = amount * REWARD_PRECISION / old(self).total_staked as int;
                r == Err::<(), FeeError>(FeeError::Overflow)
                    <==> amount * REWARD_PRECISION > u64::MAX || old(self).reward_per_token
                        + increase > u64::MAX || (old(self).reward_per_token + increase <= u64::MAX
                        && old(self).total_rewards + amount > u64::MAX)
            },
            r is Ok <==> amount > 0 && old(self).total_staked > 0 && amount * REWARD_PRECISION
                <= u64::MAX && old(self).reward_per_token + amount * REWARD_PRECISION / old(
                self,
            ).total_staked as int <= u64::MAX && old(self).total_rewards + amount <= u64::MAX,
            r is Err ==> *final(self) == *old(self),
            r is Ok ==> *final(self) == (StakingPool {
                reward_per_token: (old(self).reward_per_token + amount * REWARD_PRECISION / old(
                    self,
                ).total_staked as int) as u64,
                total_rewards: (old(self).total_rewards + amount) as u64,
                last_update: now,
                ..*old(self)
            }),
    {
        if amount == 0 {
            return Err(FeeError::InsufficientFeeBalance);
        }
        if self.total_staked == 0 {
            return Err(FeeError::InsufficientFeeBalance);
        }
        let scaled = match amount.checked_mul(REWARD_PRECISION) {
            Some(s) => s,
            None => {
                return Err(FeeError::Overflow);
            }
        };
        let reward_increase = scaled / self.total_staked;
        let new_per_token = match self.reward_per_token.checked_add(reward_increase) {
            Some(n) => n,
            None => {
                return Err(FeeError::Overflow);
            }
        };
        let new_rewards = match self.total_rewards.checked_add(amount) {
            Some(n) => n,
            None => {
                return Err(FeeError::Overflow);
            }
        };
        self.reward_per_token = new_per_token;
        self.total_rewards = new_rewards;
        self.last_update = now;
        Ok(())
    }
}

} // verus!
