use tos_dream::remote::ConnectionType;
use tos_dream::minimap::{
    ActivationMethod, MiniMap, MiniMapConfig, MiniMapPosition, MiniMapState, NavigationTarget,
};
use tos_dream::model::{
    Application, CommandHub, CommandHubMode, HierarchyLevel, Sector, TosState, Viewport,
};

fn hub(id: u128) -> CommandHub {
    CommandHub {
        id,
        mode: CommandHubMode::Command,
        prompt: String::new(),
        applications: vec![Application {
            id: 7,
            title: "Editor".to_string(),
            app_class: "editor".to_string(),
            pid: None,
        }],
        active_app_index: Some(0),
        terminal_output: vec![],
        confirmation_required: None,
        current_directory: "/".to_string(),
        show_hidden_files: false,
        selected_files: vec![],
        context_menu: None,
        shell_listing: None,
        output_mode_centered: false,
        left_region_visible: true,
    }
}

fn sector(id: u128, name: &str) -> Sector {
    Sector {
        id,
        name: name.to_string(),
        color: "#ff9900".to_string(),
        host: "localhost".to_string(),
        connection_type: ConnectionType::Local,
        hubs: vec![hub(id * 10)],
        participants: vec![],
        active_hub_index: 0,
        icon: String::new(),
        portal_active: false,
        portal_url: None,
        description: String::new(),
        sector_type_name: String::new(),
    }
}

fn viewport(sector_index: usize, level: HierarchyLevel) -> Viewport {
    Viewport {
        sector_index,
        hub_index: 0,
        active_app_index: Some(0),
        current_level: level,
        bezel_expanded: false,
    }
}

fn state() -> TosState {
    TosState {
        current_level: HierarchyLevel::GlobalOverview,
        sectors: vec![sector(1, "Alpha"), sector(2, "Science"), sector(3, "Engineering")],
        viewports: vec![viewport(0, HierarchyLevel::GlobalOverview)],
        active_viewport_index: 0,
        tactical_lockdown: false,
        escape_count: 0,
        settings_open: false,
        performance_alert: false,
        fps_milli: 60_000,
        comms_visible: false,
        comms_messages: vec![],
    }
}

#[test]
fn test_minimap_default_config() {
    let config = MiniMapConfig::default();
    assert_eq!(config.position, MiniMapPosition::BottomRight);
    assert_eq!((config.width_milli, config.height_milli), (200, 250));
    assert!(config.show_other_sectors);
    assert!(config.show_viewports);
}

#[test]
fn test_minimap_state_transitions() {
    let mut minimap = MiniMap::new();

    assert!(!minimap.is_active());

    minimap.activate();
    assert!(minimap.is_active());

    minimap.deactivate();
    assert!(!minimap.is_active());

    minimap.toggle();
    assert!(minimap.is_active());

    minimap.toggle();
    assert!(!minimap.is_active());
}

#[test]
fn test_activation_methods() {
    let config = MiniMapConfig::default();
    assert!(!config.activation_methods.is_empty());

    let has_hover = config
        .activation_methods
        .iter()
        .any(|m| matches!(m, ActivationMethod::Hover(_)));
    let has_keyboard = config
        .activation_methods
        .iter()
        .any(|m| matches!(m, ActivationMethod::KeyboardShortcut(_)));

    assert!(has_hover);
    assert!(has_keyboard);
}

#[test]
fn test_position_classes() {
    let mut minimap = MiniMap::new();

    minimap.config.position = MiniMapPosition::TopLeft;
    let html = minimap.render(&state());
    assert!(html.contains("minimap-topleft"));

    minimap.config.position = MiniMapPosition::BottomRight;
    let html = minimap.render(&state());
    assert!(html.contains("minimap-bottomright"));
}

#[test]
fn test_render_levels() {
    let mut state = state();
    let minimap = MiniMap::new();

    // Level 1
    let html = minimap.render(&state);
    assert!(html.contains("TACTICAL MINI-MAP"));
    assert!(html.contains("minimap-sectors-grid"));

    // Level 2
    state.current_level = HierarchyLevel::CommandHub;
    let html = minimap.render(&state);
    assert!(html.contains("minimap-current-sector"));

    // Level 3
    state.current_level = HierarchyLevel::ApplicationFocus;
    let html = minimap.render(&state);
    assert!(html.contains("minimap-app-focus"));
}

#[test]
fn passive_opacity_and_legend() {
    let minimap = MiniMap::new();
    let html = minimap.render(&state());
    assert!(html.contains("style=\"opacity: 0.3;\""));
    assert!(html.contains("Level 1: Global | Hover or Ctrl+M to activate"));
    assert!(html.contains("minimap-passive"));
}

#[test]
fn active_global_overview_marks_the_current_sector() {
    let mut minimap = MiniMap::new();
    minimap.activate();
    minimap.selected_sector = Some(1);
    let html = minimap.render(&state());
    assert!(html.contains("style=\"opacity: 0.9;\""));
    assert!(html.contains(
        "<div class=\"minimap-sector minimap-sector-active \" data-sector=\"0\" style=\"border-color: #ff9900;\">"
    ));
    assert!(html.contains("<div class=\"minimap-sector minimap-sector-dimmed minimap-selected\" data-sector=\"1\""));
    assert!(html.contains("<div class=\"sector-hubs\">1 hubs</div>"));
    assert!(html.contains("Click to navigate | Press Ctrl+M to close"));
}

#[test]
fn command_hub_shows_mode_and_other_sectors() {
    let mut s = state();
    s.current_level = HierarchyLevel::CommandHub;
    let html = MiniMap::new().render(&s);
    assert!(html.contains("\u{2318} Command Mode"));
    assert!(html.contains("<div class=\"hub-apps\">1 applications</div>"));
    assert!(html.contains("data-sector=\"1\""));
    assert!(!html.contains("<div class=\"minimap-sector-dimmed\" data-sector=\"0\""));
}

#[test]
fn focus_view_lists_viewports_when_split() {
    let mut s = state();
    s.current_level = HierarchyLevel::ApplicationFocus;
    s.viewports.push(viewport(2, HierarchyLevel::CommandHub));
    let html = MiniMap::new().render(&s);
    assert!(html.contains("Alpha</span> \u{2192} Command \u{2192} <strong>Editor</strong>"));
    assert!(html.contains("<div class=\"app-class\">editor</div>"));
    assert!(html.contains("<div class=\"viewport-id\">VP2</div>"));
    assert!(html.contains("<div class=\"viewport-sector\">Engineering</div>"));
}

#[test]
fn split_view_names_each_level() {
    let mut s = state();
    s.current_level = HierarchyLevel::SplitView;
    s.viewports.push(viewport(1, HierarchyLevel::CommandHub));
    let html = MiniMap::new().render(&s);
    assert!(html.contains("SPLIT VIEW MODE"));
    assert!(html.contains("VP1 \u{25c9}</div>"));
    assert!(html.contains("<div class=\"vp-level\">CommandHub</div>"));
    assert!(html.contains("Split View | Hover or Ctrl+M to activate"));
}

#[test]
fn click_needs_an_active_map() {
    let minimap = MiniMap::new();
    assert!(minimap.handle_click(100, 100, &state()).is_none());
}

#[test]
fn click_picks_a_sector_in_the_grid() {
    let mut minimap = MiniMap::new();
    minimap.activate();
    let s = state();
    // three sectors: two columns, two rows
    assert_eq!(
        minimap.handle_click(100, 100, &s),
        Some(NavigationTarget { sector_index: 0, viewport_index: None })
    );
    assert_eq!(
        minimap.handle_click(600, 100, &s),
        Some(NavigationTarget { sector_index: 1, viewport_index: None })
    );
    assert_eq!(
        minimap.handle_click(100, 600, &s),
        Some(NavigationTarget { sector_index: 2, viewport_index: None })
    );
    assert_eq!(minimap.handle_click(600, 600, &s), None);
    assert_eq!(
        minimap.handle_click(-50, -50, &s),
        Some(NavigationTarget { sector_index: 0, viewport_index: None })
    );
}

#[test]
fn click_in_a_hub_picks_a_viewport() {
    let mut minimap = MiniMap::new();
    minimap.activate();
    let mut s = state();
    s.current_level = HierarchyLevel::CommandHub;
    assert_eq!(
        minimap.handle_click(900, 900, &s),
        Some(NavigationTarget { sector_index: 0, viewport_index: None })
    );
    s.viewports.push(viewport(1, HierarchyLevel::CommandHub));
    assert_eq!(
        minimap.handle_click(900, 100, &s),
        Some(NavigationTarget { sector_index: 0, viewport_index: Some(1) })
    );
}

#[test]
fn hover_dwell_and_exit() {
    let mut minimap = MiniMap::new();
    minimap.handle_hover(10_000, 10_000, 5);
    assert_eq!(minimap.state, MiniMapState::Hovering { start_ms: 5 });
    minimap.handle_hover_exit();
    assert_eq!(minimap.state, MiniMapState::Passive);
    assert!(minimap.last_hover_pos.is_none());

    // a map that needs no dwell activates on arrival
    let mut config = MiniMapConfig::default();
    config.hover_dwell_ms = 0;
    let mut instant = MiniMap::with_config(config);
    instant.handle_hover(0, 0, 0);
    assert!(instant.is_active());
}

#[test]
fn small_moves_keep_a_passive_map_passive() {
    let mut minimap = MiniMap::new();
    minimap.last_hover_pos = Some((0, 0));
    minimap.handle_hover(4_000, -5_000, 9);
    assert_eq!(minimap.state, MiniMapState::Passive);
    minimap.handle_hover(4_000, 0, 9);
    assert_eq!(minimap.state, MiniMapState::Passive);
    minimap.handle_hover(10_000, 0, 9);
    assert_eq!(minimap.state, MiniMapState::Hovering { start_ms: 9 });
}

#[test]
fn holding_still_for_the_dwell_activates() {
    let mut minimap = MiniMap::new();
    minimap.handle_hover(20_000, 20_000, 0);
    assert!(!minimap.is_active());
    minimap.handle_hover(20_000, 20_000, 999);
    assert!(!minimap.is_active());
    minimap.handle_hover(20_000, 20_000, 1000);
    assert!(minimap.is_active());
    minimap.handle_hover(20_000, 20_000, 2000);
    assert!(minimap.is_active());
}

#[test]
fn moving_while_hovering_restarts_the_dwell() {
    let mut minimap = MiniMap::new();
    minimap.handle_hover(0, 0, 0);
    minimap.handle_hover(50_000, 0, 900);
    assert_eq!(minimap.state, MiniMapState::Hovering { start_ms: 900 });
    minimap.handle_hover(50_000, 0, 1500);
    assert!(!minimap.is_active());
    minimap.handle_hover(50_000, 0, 1900);
    assert!(minimap.is_active());
}
