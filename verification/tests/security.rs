use tos_dream::security::{
    html_escape, ConfirmationSession, RiskLevel, SecurityConfig, SecurityEvent, SecurityManager,
    SlideDirection, TactileMethod,
};

#[test]
fn test_security_config_default() {
    let config = SecurityConfig::default();
    assert!(config.enable_detection);
    assert!(config.enable_audit_log);
    assert!(!config.patterns.is_empty());
}

#[test]
fn test_security_manager_new() {
    let manager = SecurityManager::new();
    assert!(manager.audit_log.is_empty());
    assert_eq!(manager.active_sessions.len(), 0);
}

#[test]
fn test_check_dangerous_commands() {
    let manager = SecurityManager::new();
    let result = manager.check_command("rm -rf /");
    assert!(result.is_some());
    let (risk, pattern) = result.unwrap();
    assert_eq!(risk, RiskLevel::Critical);
    assert_eq!(pattern.name, "rm_rf_root");
    let result = manager.check_command("dd if=/dev/zero of=/dev/sda ");
    assert!(result.is_some());
    assert_eq!(result.unwrap().0, RiskLevel::Critical);
    assert!(manager.check_command("ls -la ").is_none());
}

#[test]
fn test_confirmation_session() {
    let mut manager = SecurityManager::new();
    let session = manager.start_confirmation("rm -rf /", "test_user", 99);
    assert!(session.is_some());
    let session = session.unwrap();
    assert_eq!(session.command, "rm -rf /");
    assert_eq!(session.user, "test_user");
    assert_eq!(session.progress_milli, 0);
    assert_eq!(manager.update_progress(session.id, 500), Some(false));
    assert_eq!(manager.update_progress(session.id, 3000), Some(true));
    let completed = manager.complete_confirmation_at(session.id, true, "t");
    assert!(completed.is_some());
    assert_eq!(manager.active_sessions.len(), 0);
    assert!(matches!(manager.audit_log.last(), Some(SecurityEvent::CommandExecuted { .. })));
}

#[test]
fn test_audit_logging() {
    let mut manager = SecurityManager::new();
    let sector_id = 1234;
    manager.start_confirmation("rm -rf /", "test_user", sector_id);
    assert_eq!(manager.audit_log.len(), 2);
    assert_eq!(manager.get_audit_log(10).len(), 2);
    assert_eq!(manager.get_audit_log(1).len(), 1);
    assert!(matches!(manager.get_audit_log(1)[0], SecurityEvent::ConfirmationStarted { .. }));
    assert_eq!(manager.get_user_audit_log("test_user").len(), 2);
    assert_eq!(manager.get_user_audit_log("other").len(), 0);
    assert_eq!(manager.get_sector_audit_log(sector_id).len(), 1);
}

#[test]
fn audit_log_keeps_its_bound() {
    let mut config = SecurityConfig::default();
    config.max_audit_entries = 3;
    let mut manager = SecurityManager::with_config(config);
    manager.start_confirmation_at("rm -rf /", "a", 1, 10, 0, "t1");
    manager.start_confirmation_at("rm -rf /", "b", 1, 11, 0, "t2");
    assert_eq!(manager.audit_log.len(), 3);
    assert!(matches!(&manager.audit_log[0], SecurityEvent::ConfirmationStarted { user, .. } if user == "a"));
}

#[test]
fn security_test_risk_level_ordering() {
    assert!(RiskLevel::Low < RiskLevel::Medium);
    assert!(RiskLevel::Medium < RiskLevel::High);
    assert!(RiskLevel::High < RiskLevel::Critical);
}

#[test]
fn test_tactile_methods() {
    let hold = TactileMethod::Hold { duration_ms: 2000, target: "space".to_string() };
    assert!(matches!(hold, TactileMethod::Hold { duration_ms: 2000, .. }));
    let slider = TactileMethod::Slider { distance_milli: 800, direction: SlideDirection::Right };
    assert!(matches!(slider, TactileMethod::Slider { direction: SlideDirection::Right, .. }));
}

#[test]
fn test_html_escape() {
    assert_eq!(html_escape("<script>"), "&lt;script&gt;");
    assert_eq!(html_escape("\"test\""), "&quot;test&quot;");
    assert_eq!(html_escape("a & b"), "a &amp; b");
}

#[test]
fn test_render_confirmation() {
    let manager = SecurityManager::new();
    let session = ConfirmationSession {
        id: 5,
        command: "rm -rf /".to_string(),
        risk_level: RiskLevel::Critical,
        required_method: TactileMethod::Hold { duration_ms: 3000, target: "space".to_string() },
        progress_milli: 500,
        start_ms: 1_000,
        user: "test".to_string(),
        sector_id: 6,
    };
    let html = manager.render_confirmation(&session, 2_000);
    assert!(html.contains("DANGEROUS COMMAND DETECTED"));
    assert!(html.contains("rm -rf /"));
    assert!(html.contains("CRITICAL"));
    assert!(html.contains("50%"));
    assert!(html.contains("Timeout in 29 seconds"));
}

#[test]
fn render_multibutton_confirmation() {
    let manager = SecurityManager::new();
    let session = ConfirmationSession {
        id: 5,
        command: "<x>".to_string(),
        risk_level: RiskLevel::High,
        required_method: TactileMethod::MultiButton { button_count: 2, buttons: vec!["a".to_string(), "b".to_string()] },
        progress_milli: 1000,
        start_ms: 0,
        user: "test".to_string(),
        sector_id: 6,
    };
    let html = manager.render_confirmation(&session, 0);
    assert!(html.contains("<kbd>a</kbd> + <kbd>b</kbd>"));
    assert!(html.contains("1 OF 2 PRESSED"));
    assert!(html.contains("&lt;x&gt;"));
}

#[test]
fn test_security_dashboard() {
    let mut manager = SecurityManager::new();
    manager.start_confirmation("rm -rf /test", "user1", 1);
    manager.start_confirmation("dd if=/dev/zero of=/dev/sdb", "user2", 2);
    let html = manager.render_security_dashboard();
    assert!(html.contains("Security Dashboard"));
    assert!(html.contains("Total Events"));
    assert!(html.contains("Active Sessions"));
    assert!(html.contains("user1"));
    assert!(html.contains("user2"));
}

#[test]
fn test_timeout() {
    let mut manager = SecurityManager::new();
    manager.config.confirmation_timeout_secs = 0;
    let session = manager.start_confirmation_at("rm -rf /", "test", 1, 77, 5_000, "t").unwrap();
    assert!(manager.check_timeout_at(session.id, 5_000, "t"));
    assert_eq!(manager.active_sessions.len(), 0);
}
