use vstd::prelude::*;

use crate::errors::SystemErrorType;

verus! {

/// The parameters of a storage node's battery.
#[derive(Clone, Copy, Debug)]
pub struct BatteryConfig {
    /// A full battery (100%).
    pub max_charge: u64,
    /// Percentage for the highest rewards.
    pub optimal_threshold: u64,
    /// Percentage for partial rewards.
    pub high_threshold: u64,
    /// Level below which the node may not work.
    pub min_capacity: u64,
    /// Level at or below which the node is suspended.
    pub suspension_threshold: u64,
    pub base_charging_rate: u64,
    pub overlap_multiplier: u64,
    pub discharge_rate: u64,
    pub sync_boost_factor: u64,
    /// Least time between two charges.
    pub charging_cooldown: u64,
    /// How long a suspension lasts.
    pub suspension_period: u64,
}

/// The battery parameters a node gets unless told otherwise.
pub open spec fn default_battery_config() -> BatteryConfig {
    BatteryConfig {
        max_charge: 100,
        optimal_threshold: 98,
        high_threshold: 80,
        min_capacity: 10,
        suspension_threshold: 0,
        base_charging_rate: 1,
        overlap_multiplier: 2,
        discharge_rate: 1,
        sync_boost_factor: 2,
        charging_cooldown: 1000,
        suspension_period: 3600000,
    }
}

impl Default for BatteryConfig {
    fn default() -> (r: Self)
        ensures
            r == default_battery_config(),
    {
        BatteryConfig {
            max_charge: 100,
            optimal_threshold: 98,
            high_threshold: 80,
            min_capacity: 10,
            suspension_threshold: 0,
            base_charging_rate: 1,
            overlap_multiplier: 2,
            discharge_rate: 1,
            sync_boost_factor: 2,
            charging_cooldown: 1000,
            suspension_period: 3600000,
        }
    }
}

/// Reward tiers by battery level and performance.
#[derive(Clone, Copy, Debug, PartialEq, Eq, Structural)]
pub enum RewardTier {
    /// 98-100% battery, high overlap.
    Optimal,
    /// 80-97% battery, good overlap.
    High,
    /// 60-79% battery, minimal overlap.
    Base,
    /// Below 60% battery.
    Reduced,
    /// Suspended, or too little known.
    NoTier,
}

/// The charge a node gains in one charge: the base rate plus its overlap and
/// sync scores times their factors.
pub open spec fn charge_amount(config: BatteryConfig, overlap_score: u64, sync_score: u64) -> int {
    config.base_charging_rate + overlap_score * config.overlap_multiplier + sync_score * config.sync_boost_factor
}

/// The battery level as a percentage of a full battery is at least
/// `threshold`; a battery with no capacity counts as infinitely full when it
/// holds anything and as no percentage at all when it holds nothing.
pub open spec fn percentage_at_least(level: u64, max: u64, threshold: u64) -> bool {
    if max == 0 {
        level > 0
    } else {
        level * 100 >= threshold * max
    }
}

/// A storage node's battery: it charges with the node's overlap and sync
/// scores, drains with work, and suspends the node when empty. Times are in
/// milliseconds of the node's clock.
pub struct BatteryChargingSystem {
    battery_level: u64,
    config: BatteryConfig,
    last_charge_time: u64,
    last_suspension_time: Option<u64>,
    overlap_score: u64,
    sync_score: u64,
    is_suspended: bool,
    has_charged: bool,
}

impl BatteryChargingSystem {
    /// The battery level.
    pub closed spec fn level(&self) -> u64 {
        self.battery_level
    }

    /// The battery parameters.
    pub closed spec fn config(&self) -> BatteryConfig {
        self.config
    }

    /// When the battery last charged.
    pub closed spec fn last_charge(&self) -> u64 {
        self.last_charge_time
    }

    /// When the node was last suspended, if ever.
    pub closed spec fn last_suspension(&self) -> Option<u64> {
        self.last_suspension_time
    }

    /// The node's overlap score.
    pub closed spec fn overlap(&self) -> u64 {
        self.overlap_score
    }

    /// The node's sync score.
    pub closed spec fn sync(&self) -> u64 {
        self.sync_score
    }

    /// Whether the node is suspended.
    pub closed spec fn suspended(&self) -> bool {
        self.is_suspended
    }

    /// Whether the battery has charged since it was made.
    pub closed spec fn charged(&self) -> bool {
        self.has_charged
    }

    /// A charge at `now` falls within the cooldown after the last charge; a
    /// battery that never charged has no cooldown to wait out.
    pub open spec fn in_cooldown(&self, now: u64) -> bool {
        self.charged() && now - self.last_charge() < self.config().charging_cooldown
    }

    /// The level never exceeds a full battery.
    pub closed spec fn wf(&self) -> bool {
        self.battery_level <= self.config.max_charge
    }

    /// A full battery, not suspended, with zero scores, made at `now` and
    /// not yet charged.
    pub fn new(config: BatteryConfig, now: u64) -> (r: Self)
        ensures
            r.wf(),
            r.level() == config.max_charge,
            r.config() == config,
            r.last_charge() == now,
            r.last_suspension() is None,
            r.overlap() == 0,
            r.sync() == 0,
            !r.suspended(),
            !r.charged(),
    {
        BatteryChargingSystem {
            battery_level: config.max_charge,
            config,
            last_charge_time: now,
            last_suspension_time: None,
            overlap_score: 0,
            sync_score: 0,
            is_suspended: false,
            has_charged: false,
        }
    }

    /// Charges the battery at time `now`: refused while suspended or within
    /// the cooldown after the last charge (the first charge has none); a
    /// full battery stays as it is; otherwise the level grows by the charge
    /// amount, capped at a full battery, and `now` becomes the last charge
    /// time.
    pub fn charge(&mut self, now: u64) -> (r: Result<(), SystemErrorType>)
        requires
            old(self).wf(),
            old(self).last_charge() <= now,
            !old(self).suspended() && !old(self).in_cooldown(now) && old(self).level() < old(self).config().max_charge
                ==> charge_amount(old(self).config(), old(self).overlap(), old(self).sync()) <= u64::MAX,
        ensures
            final(self).wf(),
            final(self).config() == old(self).config(),
            final(self).overlap() == old(self).overlap(),
            final(self).sync() == old(self).sync(),
            final(self).suspended() == old(self).suspended(),
            final(self).last_suspension() == old(self).last_suspension(),
            old(self).suspended() ==> r == Err::<(), SystemErrorType>(SystemErrorType::NodeSuspended)
                && final(self).level() == old(self).level() && final(self).last_charge() == old(self).last_charge()
                && final(self).charged() == old(self).charged(),
            !old(self).suspended() && old(self).in_cooldown(now) ==> r == Err::<(), SystemErrorType>(
                SystemErrorType::CooldownPeriod,
            ) && final(self).level() == old(self).level() && final(self).last_charge() == old(self).last_charge()
                && final(self).charged() == old(self).charged(),
            !old(self).suspended() && !old(self).in_cooldown(now) && old(self).level() >= old(self).config().max_charge
                ==> r == Ok::<(), SystemErrorType>(()) && final(self).level() == old(self).level() && final(self).last_charge()
                == old(self).last_charge() && final(self).charged() == old(self).charged(),
            !old(self).suspended() && !old(self).in_cooldown(now) && old(self).level() < old(self).config().max_charge
                ==> r == Ok::<(), SystemErrorType>(()) && final(self).level() == charged_level(*old(self))
                && final(self).last_charge() == now && final(self).charged(),
    {
        if self.is_suspended {
            return Err(SystemErrorType::NodeSuspended);
        }
        if self.has_charged && now - self.last_charge_time < self.config.charging_cooldown {
            return Err(SystemErrorType::CooldownPeriod);
        }
        let current_level = self.battery_level;
        if current_level >= self.config.max_charge {
            return Ok(());
        }
        assert(self.overlap_score * self.config.overlap_multiplier <= u64::MAX) by (nonlinear_arith)
            requires
                self.config.base_charging_rate + self.overlap_score * self.config.overlap_multiplier
                    + self.sync_score * self.config.sync_boost_factor <= u64::MAX,
                self.sync_score * self.config.sync_boost_factor >= 0,
        ;
        assert(self.sync_score * self.config.sync_boost_factor <= u64::MAX) by (nonlinear_arith)
            requires
                self.config.base_charging_rate + self.overlap_score * self.config.overlap_multiplier
                    + self.sync_score * self.config.sync_boost_factor <= u64::MAX,
                self.overlap_score * self.config.overlap_multiplier >= 0,
        ;
        let overlap_bonus = self.overlap_score * self.config.overlap_multiplier;
        let sync_bonus = self.sync_score * self.config.sync_boost_factor;
        let total_charge = self.config.base_charging_rate + overlap_bonus + sync_bonus;
        let new_level = current_level.saturating_add(total_charge);
        let capped_level = if new_level < self.config.max_charge {
            new_level
        } else {
            self.config.max_charge
        };
        self.battery_level = capped_level;
        self.last_charge_time = now;
        self.has_charged = true;
        Ok(())
    }

    /// Spends `amount` of charge for work at time `now`: refused while
    /// suspended or below the minimum capacity; the level drops by the amount
    /// (not below zero), and a level at or below the suspension threshold
    /// suspends the node from `now`.
    pub fn consume_charge(&mut self, amount: u64, now: u64) -> (r: Result<(), SystemErrorType>)
        requires
            old(self).wf(),
        ensures
            final(self).wf(),
            final(self).config() == old(self).config(),
            final(self).overlap() == old(self).overlap(),
            final(self).sync() == old(self).sync(),
            final(self).last_charge() == old(self).last_charge(),
            final(self).charged() == old(self).charged(),
            old(self).suspended() ==> r == Err::<(), SystemErrorType>(SystemErrorType::NodeSuspended) && final(self).level() == old(self).level() && final(self).suspended() == old(self).suspended() && final(self).last_suspension() == old(self).last_suspension(),
            !old(self).suspended() && old(self).level() < old(self).config().min_capacity ==> r == Err::<
                (),
                SystemErrorType,
            >(SystemErrorType::InsufficientCharge) && final(self).level() == old(self).level() && final(self).suspended() == old(self).suspended() && final(self).last_suspension() == old(self).last_suspension(),
            !old(self).suspended() && old(self).level() >= old(self).config().min_capacity ==> {
                let new_level = if old(self).level() >= amount {
                    (old(self).level() - amount) as u64
                } else {
                    0u64
                };
                &&& r == Ok::<(), SystemErrorType>(())
                &&& final(self).level() == new_level
                &&& new_level <= old(self).config().suspension_threshold ==> final(self).suspended()
                    && final(self).last_suspension() == Some(now)
                &&& new_level > old(self).config().suspension_threshold ==> !final(self).suspended()
                    && final(self).last_suspension() == old(self).last_suspension()
            },
    {
        if self.is_suspended {
            return Err(SystemErrorType::NodeSuspended);
        }
        let current_level = self.battery_level;
        if current_level < self.config.min_capacity {
            return Err(SystemErrorType::InsufficientCharge);
        }
        let new_level = current_level.saturating_sub(amount);
        self.battery_level = new_level;
        if new_level <= self.config.suspension_threshold {
            self.suspend(now);
        }
        Ok(())
    }

    /// Suspends the node from `now`.
    fn suspend(&mut self, now: u64)
        ensures
            final(self).battery_level == old(self).battery_level,
            final(self).config == old(self).config,
            final(self).last_charge_time == old(self).last_charge_time,
            final(self).has_charged == old(self).has_charged,
            final(self).overlap_score == old(self).overlap_score,
            final(self).sync_score == old(self).sync_score,
            final(self).is_suspended,
            final(self).last_suspension_time == Some(now),
    {
        self.is_suspended = true;
        self.last_suspension_time = Some(now);
    }

    /// Whether the node is still suspended at `now`: a suspension that has
    /// lasted its period is lifted (and reported as over); a node never
    /// suspended is not.
    pub fn check_suspension(&mut self, now: u64) -> (r: bool)
        requires
            old(self).last_suspension() matches Some(t) ==> t <= now,
        ensures
            final(self).level() == old(self).level(),
            final(self).config() == old(self).config(),
            final(self).last_charge() == old(self).last_charge(),
            final(self).charged() == old(self).charged(),
            final(self).last_suspension() == old(self).last_suspension(),
            final(self).overlap() == old(self).overlap(),
            final(self).sync() == old(self).sync(),
            final(self).wf() == old(self).wf(),
            match old(self).last_suspension() {
                None => !r && final(self).suspended() == old(self).suspended(),
                Some(t) => if now - t >= old(self).config().suspension_period {
                    !r && !final(self).suspended()
                } else {
                    r && final(self).suspended() == old(self).suspended()
                },
            },
    {
        match self.last_suspension_time {
            Some(last) => {
                if now - last >= self.config.suspension_period {
                    self.is_suspended = false;
                    return false;
                }
                true
            },
            None => false,
        }
    }

    /// Records the node's overlap score.
    pub fn update_overlap_score(&mut self, score: u64)
        ensures
            final(self).overlap() == score,
            final(self).level() == old(self).level(),
            final(self).config() == old(self).config(),
            final(self).last_charge() == old(self).last_charge(),
            final(self).charged() == old(self).charged(),
            final(self).last_suspension() == old(self).last_suspension(),
            final(self).sync() == old(self).sync(),
            final(self).suspended() == old(self).suspended(),
            final(self).wf() == old(self).wf(),
    {
        self.overlap_score = score;
    }

    /// Records the node's sync score.
    pub fn update_sync_score(&mut self, score: u64)
        ensures
            final(self).sync() == score,
            final(self).level() == old(self).level(),
            final(self).config() == old(self).config(),
            final(self).last_charge() == old(self).last_charge(),
            final(self).charged() == old(self).charged(),
            final(self).last_suspension() == old(self).last_suspension(),
            final(self).overlap() == old(self).overlap(),
            final(self).suspended() == old(self).suspended(),
            final(self).wf() == old(self).wf(),
    {
        self.sync_score = score;
    }

    /// The battery level.
    pub fn battery_level(&self) -> (r: u64)
        ensures
            r == self.level(),
    {
        self.battery_level
    }

    /// The battery parameters.
    pub fn get_config(&self) -> (r: BatteryConfig)
        ensures
            r == self.config(),
    {
        self.config
    }

    /// Whether the charge percentage reaches the optimal threshold.
    pub fn is_optimal(&self) -> (r: bool)
        ensures
            r == percentage_at_least(self.level(), self.config().max_charge, self.config().optimal_threshold),
    {
        at_least_percent(self.battery_level, self.config.max_charge, self.config.optimal_threshold)
    }

    /// Whether the charge percentage reaches the high threshold but not the
    /// optimal one.
    pub fn is_high(&self) -> (r: bool)
        ensures
            r == (self.config().max_charge != 0 && percentage_at_least(
                self.level(),
                self.config().max_charge,
                self.config().high_threshold,
            ) && !percentage_at_least(self.level(), self.config().max_charge, self.config().optimal_threshold)),
    {
        self.config.max_charge != 0 && at_least_percent(self.battery_level, self.config.max_charge, self.config.high_threshold)
            && !at_least_percent(self.battery_level, self.config.max_charge, self.config.optimal_threshold)
    }

    /// Whether the node is suspended.
    pub fn is_suspended(&self) -> (r: bool)
        ensures
            r == self.suspended(),
    {
        self.is_suspended
    }

    /// When the battery last charged.
    pub fn last_charge_time(&self) -> (r: u64)
        ensures
            r == self.last_charge(),
    {
        self.last_charge_time
    }

    /// The node's overlap score.
    pub fn overlap_score(&self) -> (r: u64)
        ensures
            r == self.overlap(),
    {
        self.overlap_score
    }

    /// The node's sync score.
    pub fn sync_score(&self) -> (r: u64)
        ensures
            r == self.sync(),
    {
        self.sync_score
    }

    /// When the node was last suspended, if ever.
    pub fn last_suspension_time(&self) -> (r: Option<u64>)
        ensures
            r == self.last_suspension(),
    {
        self.last_suspension_time
    }
}

/// The level a due charge leaves: the level plus the charge amount of the
/// battery's scores, capped at a full battery.
pub open spec fn charged_level(b: BatteryChargingSystem) -> int {
    let grown = b.level() + charge_amount(b.config(), b.overlap(), b.sync());
    if grown < b.config().max_charge {
        grown
    } else {
        b.config().max_charge as int
    }
}

/// A new overlap score feeds the next charge: after the score is set to `x`
/// (level, sync score and parameters untouched), a due charge leaves the
/// level at `level + base rate + x * overlap multiplier + sync * sync
/// factor`, capped at a full battery.
pub proof fn lemma_overlap_score_feeds_charge(before: BatteryChargingSystem, after: BatteryChargingSystem, x: u64)
    requires
        after.overlap() == x,
        after.level() == before.level(),
        after.sync() == before.sync(),
        after.config() == before.config(),
    ensures
        charged_level(after) == if before.level() + before.config().base_charging_rate + x
            * before.config().overlap_multiplier + before.sync() * before.config().sync_boost_factor
            < before.config().max_charge {
            before.level() + before.config().base_charging_rate + x * before.config().overlap_multiplier
                + before.sync() * before.config().sync_boost_factor
        } else {
            before.config().max_charge as int
        },
{
}

/// Whether `level` is at least `threshold` percent of `max`.
pub fn at_least_percent(level: u64, max: u64, threshold: u64) -> (r: bool)
    ensures
        r == percentage_at_least(level, max, threshold),
{
    if max == 0 {
        level > 0
    } else {
        let t = threshold as u128;
        let m = max as u128;
        assert(t * m <= 0xffff_ffff_ffff_ffffu128 * 0xffff_ffff_ffff_ffffu128) by (nonlinear_arith)
            requires
                t <= 0xffff_ffff_ffff_ffffu128,
                m <= 0xffff_ffff_ffff_ffffu128,
        ;
        (level as u128) * 100 >= t * m
    }
}

} // verus!
