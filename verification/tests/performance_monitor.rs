use tos_dream::perf_monitor::{PerformanceConfig, PerformanceMonitor};

#[test]
fn test_performance_monitor_creation() {
    let monitor = PerformanceMonitor::new(0);
    assert!(!monitor.is_alert_active());
    assert_eq!(monitor.total_frames(), 0);
}

#[test]
fn test_fps_recording() {
    let mut monitor = PerformanceMonitor::new(0);
    let mut now = 0;
    for _ in 0..10 {
        now += 16;
        monitor.record_frame(now);
    }
    assert_eq!(monitor.total_frames(), 10);
    assert!(monitor.get_status(now).current_fps_milli > 0);
    assert_eq!(monitor.get_status(now).current_fps_milli, 62_500);
}

#[test]
fn test_alert_threshold() {
    let config = PerformanceConfig {
        target_fps_milli: 60_000,
        alert_threshold_fps_milli: 50_000,
        alert_duration_ms: 100,
        show_suggestions: true,
        max_history_samples: 100,
    };
    let mut monitor = PerformanceMonitor::with_config(config, 0);
    let mut now = 0;
    for _ in 0..20 {
        now += 50;
        monitor.record_frame(now);
    }
    assert!(monitor.is_alert_active() || monitor.get_status(now).alert_duration_ms.is_some());
    assert!(monitor.is_alert_active());
}

#[test]
fn test_suggestions_generation() {
    let mut monitor = PerformanceMonitor::new(0);
    for _ in 0..100 {
        monitor.history.push(10_000);
    }
    monitor.alert_active = true;
    let status = monitor.get_status(0);
    assert!(!status.suggestions.is_empty());
    let descriptions: Vec<_> = status.suggestions.iter().map(|s| s.description()).collect();
    assert!(descriptions.contains(&"Close unused applications"));
    assert_eq!(status.suggestions.len(), 7);
}

#[test]
fn test_dismiss_alert() {
    let mut monitor = PerformanceMonitor::new(0);
    monitor.alert_active = true;
    monitor.alert_start_ms = Some(0);
    monitor.dismiss_alert();
    assert!(!monitor.is_alert_active());
    assert!(monitor.alert_start_ms.is_none());
}

#[test]
fn test_percentile_lows() {
    let mut monitor = PerformanceMonitor::new(0);
    for i in 0..200 {
        let fps = if i % 10 == 0 { 10_000 } else { 60_000 };
        monitor.history.push(fps);
    }
    let (one_percent, point_one_percent) = monitor.percentile_lows().unwrap();
    assert!(one_percent <= 60_000);
    assert!(point_one_percent <= one_percent);
    assert_eq!((one_percent, point_one_percent), (10_000, 10_000));
}

#[test]
fn test_render_overlay() {
    let monitor = PerformanceMonitor::new(0);
    let html = monitor.render_overlay(0);
    assert!(html.contains("performance-overlay"));
    assert!(html.contains("FPS"));
    assert!(html.contains("<span class=\"fps-value\">60.0</span>"));
    assert!(html.contains("<div>Target: 60</div>"));
    assert!(html.contains("performance-alert-inactive"));
}

#[test]
fn good_frame_clears_alert() {
    let mut monitor = PerformanceMonitor::new(0);
    monitor.alert_active = true;
    monitor.alert_start_ms = Some(0);
    monitor.record_frame(10);
    assert!(!monitor.is_alert_active());
    assert!(monitor.alert_start_ms.is_none());
}

#[test]
fn short_low_rate_does_not_alert() {
    let mut monitor = PerformanceMonitor::new(0);
    monitor.record_frame(100);
    monitor.record_frame(200);
    assert!(!monitor.is_alert_active());
    assert_eq!(monitor.alert_start_ms, Some(100));
    let st = monitor.get_status(300);
    assert_eq!(st.alert_duration_ms, Some(200));
    assert_eq!(st.average_fps_milli, 10_000);
    assert_eq!(st.min_fps_milli, 10_000);
}

#[test]
fn frame_history_is_bounded() {
    let config = PerformanceConfig {
        target_fps_milli: 60_000,
        alert_threshold_fps_milli: 30_000,
        alert_duration_ms: 2000,
        show_suggestions: true,
        max_history_samples: 3,
    };
    let mut monitor = PerformanceMonitor::with_config(config, 0);
    for t in 1..=5u64 {
        monitor.record_frame(t * 10);
    }
    assert_eq!(monitor.history.len(), 3);
    assert_eq!(monitor.total_frames(), 5);
}

#[test]
fn too_few_samples_have_no_lows() {
    let monitor = PerformanceMonitor::new(0);
    assert!(monitor.percentile_lows().is_none());
}
