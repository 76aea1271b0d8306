use tos_dream::remote::ConnectionType;
use tos_dream::model::{Application, CommandHub, CommandHubMode, HierarchyLevel, Sector, TosState, Viewport};
use tos_dream::reset::{ResetConfig, ResetError, ResetOperationState, SystemResetOption, TacticalReset, TactileMethod};

fn state() -> TosState {
    let hub = CommandHub {
        id: 10,
        mode: CommandHubMode::Directory,
        prompt: "ls".to_string(),
        applications: vec![
            Application { id: 1, title: "a".to_string(), app_class: "x".to_string(), pid: Some(100) },
            Application { id: 2, title: "b".to_string(), app_class: "y".to_string(), pid: None },
        ],
        active_app_index: Some(0),
        terminal_output: vec!["old".to_string()],
        confirmation_required: None,
        current_directory: "/tmp".to_string(),
        show_hidden_files: false,
        selected_files: vec![],
        context_menu: None,
        shell_listing: None,
        output_mode_centered: false,
        left_region_visible: true,
    };
    TosState {
        current_level: HierarchyLevel::ApplicationFocus,
        sectors: vec![Sector { id: 0xabcdef0123, name: "Alpha".to_string(), color: "#ff9900".to_string(), host: "localhost".to_string(), connection_type: ConnectionType::Local, hubs: vec![hub], participants: vec![], active_hub_index: 0, icon: String::new(), portal_active: false, portal_url: None, description: String::new(), sector_type_name: String::new() }],
        viewports: vec![Viewport {
            sector_index: 0,
            hub_index: 0,
            active_app_index: Some(0),
            current_level: HierarchyLevel::ApplicationFocus,
            bezel_expanded: true,
        }],
        active_viewport_index: 0,
        tactical_lockdown: false,
        escape_count: 2,
        settings_open: false,
        performance_alert: false,
        fps_milli: 60_000,
        comms_visible: false,
        comms_messages: vec![],
    }
}

#[test]
fn test_reset_config_default() {
    let config = ResetConfig::default();
    assert!(config.enable_sector_undo);
    assert_eq!(config.undo_duration_secs, 5);
    assert_eq!(config.countdown_secs, 3);
    assert!(config.save_state_before_reset);
}

#[test]
fn test_tactical_reset_new() {
    let reset = TacticalReset::new();
    assert!(!reset.is_resetting());
    assert!(matches!(reset.state, ResetOperationState::Idle));
}

#[test]
fn test_sector_reset_lifecycle() {
    let mut reset = TacticalReset::new();
    let mut st = state();
    assert!(!reset.is_resetting());
    let pids = reset.initiate_sector_reset_at(&mut st, 77, "/home/u".to_string(), 1_000).unwrap();
    assert_eq!(pids, vec![100]);
    assert!(reset.is_resetting());
    assert!(matches!(reset.state, ResetOperationState::SectorResetting { .. }));
    assert!(reset.can_undo(1_000));
    assert!(reset.undo_remaining_secs(1_000).is_some());
    assert_eq!(st.sectors[0].hubs.len(), 1);
    assert_eq!(st.sectors[0].hubs[0].id, 77);
    assert_eq!(st.viewports[0].current_level, HierarchyLevel::CommandHub);
    assert_eq!(st.escape_count, 0);
    assert_eq!(reset.initiate_sector_reset_at(&mut st, 78, "/".to_string(), 1_001), Err(ResetError::ResetInProgress));
    reset.complete_reset();
    assert!(!reset.is_resetting());
}

#[test]
fn sector_reset_can_be_undone_in_time() {
    let mut reset = TacticalReset::new();
    let mut st = state();
    reset.initiate_sector_reset_at(&mut st, 77, "/home/u".to_string(), 1_000).unwrap();
    assert_eq!(reset.undo_remaining_secs(3_500), Some(3));
    assert!(!reset.can_undo(6_000));
    assert_eq!(reset.undo_sector_reset(&mut st, 2_000), Ok(()));
    assert_eq!(st.sectors[0].hubs[0].id, 10);
    assert_eq!(st.sectors[0].hubs[0].prompt, "ls");
    assert!(!reset.is_resetting());
    assert_eq!(reset.undo_sector_reset(&mut st, 2_000), Err(ResetError::NoResetInProgress));
}

#[test]
fn late_undo_expires() {
    let mut reset = TacticalReset::new();
    let mut st = state();
    reset.initiate_sector_reset_at(&mut st, 77, "/home/u".to_string(), 1_000).unwrap();
    assert_eq!(reset.undo_sector_reset(&mut st, 6_001), Err(ResetError::UndoExpired));
}

#[test]
fn test_system_reset_dialog() {
    let mut reset = TacticalReset::new();
    reset.initiate_system_reset().unwrap();
    assert!(matches!(reset.state, ResetOperationState::SystemDialogShown));
    reset.select_system_option(SystemResetOption::RestartCompositor).unwrap();
    assert!(matches!(reset.state, ResetOperationState::TactileConfirming { .. }));
    reset.cancel_reset();
    assert!(matches!(reset.state, ResetOperationState::Idle));
}

#[test]
fn test_tactile_progress() {
    let mut reset = TacticalReset::new();
    reset.initiate_system_reset().unwrap();
    reset.select_system_option(SystemResetOption::RestartCompositor).unwrap();
    let result = reset.update_tactile_progress(500).unwrap();
    assert!(result.is_none());
    let result = reset.update_tactile_progress(1000).unwrap();
    assert!(result.is_some());
    assert!(matches!(reset.state, ResetOperationState::Countdown { .. }));
}

#[test]
fn multi_button_needs_more_than_full_progress() {
    let mut config = ResetConfig::default();
    config.default_tactile_method = TactileMethod::MultiButton { buttons: 2 };
    let mut reset = TacticalReset::with_config(config);
    reset.initiate_system_reset().unwrap();
    reset.select_system_option(SystemResetOption::LogOut).unwrap();
    assert_eq!(reset.update_tactile_progress(5_000), Ok(None));
    assert_eq!(reset.update_tactile_progress(0), Ok(None));
    assert_eq!(reset.tick_countdown(), None);
}

#[test]
fn test_countdown_tick() {
    let mut reset = TacticalReset::new();
    reset.config.countdown_secs = 3;
    reset.initiate_system_reset().unwrap();
    reset.select_system_option(SystemResetOption::RestartCompositor).unwrap();
    reset.update_tactile_progress(1000).unwrap();
    assert_eq!(reset.countdown_remaining(), Some(3));
    assert!(reset.tick_countdown().is_none());
    assert_eq!(reset.countdown_remaining(), Some(2));
    assert!(reset.tick_countdown().is_none());
    assert_eq!(reset.countdown_remaining(), Some(1));
    assert!(reset.tick_countdown().is_none());
    assert_eq!(reset.countdown_remaining(), Some(0));
    assert!(reset.tick_countdown().is_some());
    assert_eq!(reset.execute_system_reset(SystemResetOption::RestartCompositor), Some("systemctl restart tos-compositor"));
}

#[test]
fn test_reset_error_display() {
    assert_eq!(ResetError::ResetInProgress.to_string(), "A reset is already in progress");
    assert_eq!(ResetError::UndoExpired.to_string(), "Undo time has expired");
    assert_eq!(ResetError::ExecutionFailed("boom".to_string()).to_string(), "Execution failed: boom");
}

#[test]
fn test_render_states() {
    let mut reset = TacticalReset::new();
    assert!(reset.render(0).is_empty());
    reset.initiate_system_reset().unwrap();
    let html = reset.render(0);
    assert!(html.contains("SYSTEM RESET"));
    assert!(html.contains("Restart Compositor"));
    assert!(html.contains("Log Out"));
    reset.select_system_option(SystemResetOption::LogOut).unwrap();
    let html = reset.render(0);
    assert!(html.contains("CONFIRM"));
    assert!(html.contains("progress-bar"));
    assert!(html.contains("Hold for 2 seconds"));
    reset.update_tactile_progress(1000).unwrap();
    let html = reset.render(0);
    assert!(html.contains("countdown-number"));
    assert!(html.contains("Logging Out IN..."));
}

#[test]
fn render_sector_reset_shows_undo() {
    let mut reset = TacticalReset::new();
    let mut st = state();
    reset.initiate_sector_reset_at(&mut st, 77, "/".to_string(), 0).unwrap();
    let html = reset.render(1_000);
    assert!(html.contains("Sector 00000000 has been reset"));
    assert!(html.contains("UNDO RESET (4s)"));
    assert!(!reset.render(9_000).contains("UNDO"));
}
