use vstd::prelude::*;

use crate::battery::BatteryChargingSystem;
use crate::errors::{SystemError, SystemErrorType};

verus! {

/// How the battery is watched: how often (milliseconds), the percentages
/// that raise an alert and a critical alert, the peers needed to charge,
/// and how many operations may run on a critical battery.
#[derive(Clone, Copy, Debug)]
pub struct MonitoringConfig {
    pub check_interval_ms: u64,
    pub alert_threshold: u64,
    pub critical_threshold: u64,
    pub min_peers_for_charging: u64,
    pub max_concurrent_operations: u64,
}

impl Default for MonitoringConfig {
    fn default() -> (r: Self)
        ensures
            r == (MonitoringConfig {
                check_interval_ms: 1000,
                alert_threshold: 20,
                critical_threshold: 10,
                min_peers_for_charging: 3,
                max_concurrent_operations: 5,
            }),
    {
        MonitoringConfig {
            check_interval_ms: 1000,
            alert_threshold: 20,
            critical_threshold: 10,
            min_peers_for_charging: 3,
            max_concurrent_operations: 5,
        }
    }
}

/// What the monitor has counted and measured.
#[derive(Clone, Copy, Debug)]
pub struct BatteryMetrics {
    pub time_since_charge: u64,
    pub overlap_score: u64,
    pub sync_score: u64,
    pub connected_peers: u64,
    pub successful_operations: u64,
    pub failed_operations: u64,
    pub suspension_count: u64,
    pub last_suspension_duration: Option<u64>,
}

/// The battery's percentage is at most `threshold`; never so for a battery
/// with no capacity.
pub open spec fn percentage_at_most(level: u64, max: u64, threshold: u64) -> bool {
    max != 0 && level * 100 <= threshold * max
}

/// Whether `level` is at most `threshold` percent of `max`.
pub fn at_most_percent(level: u64, max: u64, threshold: u64) -> (r: bool)
    ensures
        r == percentage_at_most(level, max, threshold),
{
    if max == 0 {
        return false;
    }
    let l = level as u128;
    let t = threshold as u128;
    let m = max as u128;
    assert(t * m <= 0xffff_ffff_ffff_ffffu128 * 0xffff_ffff_ffff_ffffu128) by (nonlinear_arith)
        requires
            t <= 0xffff_ffff_ffff_ffffu128,
            m <= 0xffff_ffff_ffff_ffffu128,
    ;
    l * 100 <= t * m
}

/// Watches a node's battery: raises alerts, limits operations on a critical
/// battery, decides when to charge, and counts. The timer stays outside.
pub struct BatteryMonitor {
    config: MonitoringConfig,
    metrics: BatteryMetrics,
    operations: u64,
    is_monitoring: bool,
}

impl BatteryMonitor {
    /// The settings.
    pub closed spec fn config(&self) -> MonitoringConfig {
        self.config
    }

    /// The counts.
    pub closed spec fn metrics(&self) -> BatteryMetrics {
        self.metrics
    }

    /// Operations under way.
    pub closed spec fn operations(&self) -> u64 {
        self.operations
    }

    /// Whether the monitoring loop runs.
    pub closed spec fn monitoring(&self) -> bool {
        self.is_monitoring
    }

    /// A monitor with zero counts and no operations, not running.
    pub fn new(config: MonitoringConfig) -> (r: Self)
        ensures
            r.config() == config,
            r.operations() == 0,
            !r.monitoring(),
            r.metrics() == (BatteryMetrics {
                time_since_charge: 0,
                overlap_score: 0,
                sync_score: 0,
                connected_peers: 0,
                successful_operations: 0,
                failed_operations: 0,
                suspension_count: 0,
                last_suspension_duration: None,
            }),
    {
        BatteryMonitor {
            config,
            metrics: BatteryMetrics {
                time_since_charge: 0,
                overlap_score: 0,
                sync_score: 0,
                connected_peers: 0,
                successful_operations: 0,
                failed_operations: 0,
                suspension_count: 0,
                last_suspension_duration: None,
            },
            operations: 0,
            is_monitoring: false,
        }
    }

    /// Starts the monitoring loop; nothing happens when it runs already.
    pub fn start_monitoring(&mut self) -> (r: Result<(), SystemError>)
        ensures
            r is Ok,
            final(self).monitoring(),
            final(self).metrics() == old(self).metrics(),
            final(self).operations() == old(self).operations(),
            final(self).config() == old(self).config(),
    {
        self.is_monitoring = true;
        Ok(())
    }

    /// Stops the monitoring loop.
    pub fn stop_monitoring(&mut self)
        ensures
            !final(self).monitoring(),
            final(self).metrics() == old(self).metrics(),
            final(self).operations() == old(self).operations(),
            final(self).config() == old(self).config(),
    {
        self.is_monitoring = false;
    }

    /// Whether the monitoring loop runs.
    pub fn is_monitoring(&self) -> (r: bool)
        ensures
            r == self.monitoring(),
    {
        self.is_monitoring
    }

    /// Records how many peers are connected.
    pub fn set_connected_peers(&mut self, peers: u64)
        ensures
            final(self).metrics() == (BatteryMetrics { connected_peers: peers, ..old(self).metrics() }),
            final(self).operations() == old(self).operations(),
            final(self).config() == old(self).config(),
            final(self).monitoring() == old(self).monitoring(),
    {
        self.metrics.connected_peers = peers;
    }

    /// One check of the battery: an alert at or below the alert percentage
    /// counts a failed operation when it is at or below the critical one.
    /// The answer is whether enough peers are connected to charge.
    pub fn check_battery_status(&mut self, battery: &BatteryChargingSystem) -> (r: bool)
        requires
            old(self).metrics().failed_operations < u64::MAX,
        ensures
            r == (old(self).metrics().connected_peers >= old(self).config().min_peers_for_charging),
            percentage_at_most(battery.level(), battery.config().max_charge, old(self).config().alert_threshold)
                && percentage_at_most(battery.level(), battery.config().max_charge, old(self).config().critical_threshold)
                ==> final(self).metrics() == (BatteryMetrics {
                failed_operations: (old(self).metrics().failed_operations + 1) as u64,
                ..old(self).metrics()
            }),
            !(percentage_at_most(battery.level(), battery.config().max_charge, old(self).config().alert_threshold)
                && percentage_at_most(battery.level(), battery.config().max_charge, old(self).config().critical_threshold))
                ==> final(self).metrics() == old(self).metrics(),
            final(self).operations() == old(self).operations(),
            final(self).config() == old(self).config(),
            final(self).monitoring() == old(self).monitoring(),
    {
        let level = battery.battery_level();
        let max = battery.get_config().max_charge;
        if at_most_percent(level, max, self.config.alert_threshold) {
            if at_most_percent(level, max, self.config.critical_threshold) {
                self.metrics.failed_operations = self.metrics.failed_operations + 1;
            }
        }
        self.metrics.connected_peers >= self.config.min_peers_for_charging
    }

    /// Refreshes the time since the last charge and, while the node is
    /// suspended, counts the suspension and how long it has lasted.
    pub fn update_metrics(&mut self, battery: &BatteryChargingSystem, now: u64)
        requires
            battery.last_charge() <= now,
            battery.last_suspension() matches Some(t) ==> t <= now,
            old(self).metrics().suspension_count < u64::MAX,
        ensures
            final(self).metrics().time_since_charge == now - battery.last_charge(),
            battery.suspended() ==> final(self).metrics().suspension_count == old(self).metrics().suspension_count + 1
                && final(self).metrics().last_suspension_duration == Some(
                match battery.last_suspension() {
                    Some(t) => (now - t) as u64,
                    None => 0u64,
                },
            ),
            !battery.suspended() ==> final(self).metrics().suspension_count == old(self).metrics().suspension_count
                && final(self).metrics().last_suspension_duration == old(self).metrics().last_suspension_duration,
            final(self).metrics().successful_operations == old(self).metrics().successful_operations,
            final(self).metrics().failed_operations == old(self).metrics().failed_operations,
            final(self).metrics().connected_peers == old(self).metrics().connected_peers,
            final(self).operations() == old(self).operations(),
            final(self).config() == old(self).config(),
            final(self).monitoring() == old(self).monitoring(),
    {
        self.metrics.time_since_charge = now - battery.last_charge_time();
        if battery.is_suspended() {
            self.metrics.suspension_count = self.metrics.suspension_count + 1;
            let duration = match battery.last_suspension_time() {
                Some(t) => now - t,
                None => 0,
            };
            self.metrics.last_suspension_duration = Some(duration);
        }
    }

    /// Starts an operation: refused when the battery is at or below the
    /// critical percentage and the limit of operations is reached.
    pub fn request_operation(&mut self, battery: &BatteryChargingSystem) -> (r: Result<(), SystemError>)
        requires
            old(self).operations() < u64::MAX,
        ensures
            percentage_at_most(battery.level(), battery.config().max_charge, old(self).config().critical_threshold)
                && old(self).operations() >= old(self).config().max_concurrent_operations ==> (r matches Err(e)
                && e.error_type == SystemErrorType::BatteryError) && final(self).operations() == old(self).operations(),
            !(percentage_at_most(battery.level(), battery.config().max_charge, old(self).config().critical_threshold)
                && old(self).operations() >= old(self).config().max_concurrent_operations) ==> r is Ok
                && final(self).operations() == old(self).operations() + 1,
            final(self).metrics() == old(self).metrics(),
            final(self).config() == old(self).config(),
            final(self).monitoring() == old(self).monitoring(),
    {
        let level = battery.battery_level();
        let max = battery.get_config().max_charge;
        if at_most_percent(level, max, self.config.critical_threshold)
            && self.operations >= self.config.max_concurrent_operations {
            return Err(SystemError::new(SystemErrorType::BatteryError, "Too many operations for current battery level"));
        }
        self.operations = self.operations + 1;
        Ok(())
    }

    /// Ends an operation and counts its outcome.
    pub fn complete_operation(&mut self, success: bool)
        requires
            old(self).metrics().successful_operations < u64::MAX,
            old(self).metrics().failed_operations < u64::MAX,
        ensures
            final(self).operations() == if old(self).operations() > 0 {
                (old(self).operations() - 1) as u64
            } else {
                0
            },
            success ==> final(self).metrics() == (BatteryMetrics {
                successful_operations: (old(self).metrics().successful_operations + 1) as u64,
                ..old(self).metrics()
            }),
            !success ==> final(self).metrics() == (BatteryMetrics {
                failed_operations: (old(self).metrics().failed_operations + 1) as u64,
                ..old(self).metrics()
            }),
            final(self).config() == old(self).config(),
            final(self).monitoring() == old(self).monitoring(),
    {
        self.operations = self.operations.saturating_sub(1);
        if success {
            self.metrics.successful_operations = self.metrics.successful_operations + 1;
        } else {
            self.metrics.failed_operations = self.metrics.failed_operations + 1;
        }
    }

    /// The counts.
    pub fn get_metrics(&self) -> (r: BatteryMetrics)
        ensures
            r == self.metrics(),
    {
        self.metrics
    }
}

} // verus!
