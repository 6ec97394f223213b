use smart_refresh::clock::Clock;
use smart_refresh::metrics::mean_length_of;
use smart_refresh::metrics::recent_of;
use smart_refresh::metrics::MetricsCollector;
use smart_refresh::metrics::MetricsResponse;

#[test]
fn metrics_start_at_zero() {
    let collector = MetricsCollector::new_at(1000);
    assert_eq!(
        collector.get_metrics_at(3500),
        MetricsResponse {
            total_switches: 0,
            switches_per_hour: 0,
            avg_time_in_stable_ms: 0,
            uptime_sec: 2,
            drop_count: 0,
            increase_count: 0,
        }
    );
    assert_eq!(collector.get_metrics_at(0).uptime_sec, 0);
}

#[test]
fn switches_are_counted_by_direction() {
    let mut collector = MetricsCollector::new_at(0);
    collector.record_switch_at(90, 60, 1000);
    collector.record_switch_at(60, 65, 4000);
    collector.record_switch_at(65, 65, 6000);
    let metrics = collector.get_metrics_at(10_000);
    assert_eq!(metrics.total_switches, 3);
    assert_eq!(metrics.drop_count, 1);
    assert_eq!(metrics.increase_count, 1);
    assert_eq!(metrics.switches_per_hour, 3);
    // Stays of 1000, 3000 and 2000 milliseconds.
    assert_eq!(metrics.avg_time_in_stable_ms, 2000);
    assert_eq!(metrics.uptime_sec, 10);
}

#[test]
fn only_the_last_hour_counts_per_hour() {
    let mut collector = MetricsCollector::new_at(0);
    collector.record_switch_at(90, 60, 1000);
    collector.record_switch_at(60, 90, 2_000_000);
    collector.record_switch_at(90, 60, 3_601_000);
    // The first lies a full hour before the last and is dropped with it.
    assert_eq!(collector.get_metrics_at(3_601_000).switches_per_hour, 2);
    assert_eq!(collector.get_metrics_at(5_600_000).switches_per_hour, 1);
    assert_eq!(collector.get_metrics_at(7_201_000).switches_per_hour, 0);
    assert_eq!(collector.get_metrics_at(7_200_999).switches_per_hour, 1);
    assert_eq!(recent_of(&vec![0, 10, 20], 3_600_010), vec![20]);
    assert_eq!(recent_of(&vec![u64::MAX], 5), vec![u64::MAX]);
}

#[test]
fn only_the_last_hundred_stays_are_averaged() {
    let mut collector = MetricsCollector::new_at(0);
    collector.record_switch_at(60, 65, 1_000_000);
    let mut t: u64 = 1_000_000;
    for _ in 0..100 {
        t += 10;
        collector.record_switch_at(60, 65, t);
    }
    assert_eq!(collector.get_metrics_at(t).avg_time_in_stable_ms, 10);
    assert_eq!(collector.get_metrics_at(t).total_switches, 101);
    assert_eq!(mean_length_of(&vec![1, 2, 4]), 2);
    assert_eq!(mean_length_of(&vec![u64::MAX, u64::MAX]), u64::MAX);
    assert_eq!(mean_length_of(&Vec::new()), 0);
}

#[test]
fn metrics_read_the_clock() {
    let clock = Clock::start();
    let mut collector = MetricsCollector::new(&clock);
    collector.record_switch(90, 45, &clock);
    let metrics = collector.get_metrics(&clock);
    assert_eq!(metrics.total_switches, 1);
    assert_eq!(metrics.drop_count, 1);
    assert_eq!(metrics.switches_per_hour, 1);
    assert!(metrics.uptime_sec < 60);
}
