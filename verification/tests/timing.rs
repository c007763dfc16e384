use std::time::Duration;

use sanctum::arbiter::{ArbiterError, DaemonConfig};
use sanctum::decision::{
    max_decision_latency, min_decision_latency, DecisionError, LatencyBudget,
};
use sanctum::tui::{DashboardError, RefreshRate};

#[test]
fn validates_latency_boundaries() {
    assert!(LatencyBudget::new(min_decision_latency(), max_decision_latency()).is_ok());
    assert!(LatencyBudget::new(Duration::from_millis(69), max_decision_latency()).is_err());
}

#[test]
fn rejects_zero_sampling_interval() {
    assert!(DaemonConfig::new(Duration::ZERO, 1).is_err());
}

#[test]
fn decision_latency_bounds_are_seventy_and_five_hundred_millis() {
    assert_eq!(min_decision_latency(), Duration::from_millis(70));
    assert_eq!(max_decision_latency(), Duration::from_millis(500));
    let widest = LatencyBudget::widest();
    assert_eq!(widest.minimum, Duration::from_millis(70));
    assert_eq!(widest.maximum, Duration::from_millis(500));
}

#[test]
fn latency_budget_rejects_swapped_and_long_bounds() {
    assert_eq!(
        LatencyBudget::new(Duration::from_millis(200), Duration::from_millis(100)),
        Err(DecisionError::LatencyOutOfBounds)
    );
    assert_eq!(
        LatencyBudget::new(Duration::from_millis(100), Duration::from_millis(501)),
        Err(DecisionError::LatencyOutOfBounds)
    );
    let budget = LatencyBudget::new(Duration::from_millis(100), Duration::from_millis(100)).unwrap();
    assert_eq!(budget.minimum, Duration::from_millis(100));
    assert_eq!(budget.maximum, Duration::from_millis(100));
}

#[test]
fn daemon_config_keeps_interval_and_history() {
    let config = DaemonConfig::new(Duration::from_millis(250), 8).unwrap();
    assert_eq!(config.sampling_interval, Duration::from_millis(250));
    assert_eq!(config.history, 8);
    assert_eq!(
        DaemonConfig::new(Duration::ZERO, 8),
        Err(ArbiterError::ZeroValue { field: "sampling_interval" })
    );
    assert!(DaemonConfig::new(Duration::from_nanos(1), 0).is_ok());
}

#[test]
fn refresh_rate_must_be_positive() {
    assert_eq!(RefreshRate::new(Duration::ZERO), Err(DashboardError::ZeroRefreshRate));
    let rate = RefreshRate::new(Duration::from_millis(250)).unwrap();
    assert_eq!(rate.duration(), Duration::from_millis(250));
}
