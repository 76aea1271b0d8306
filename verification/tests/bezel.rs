use tos_dream::bezel::{render_bezel, BezelContext, BezelState};
use tos_dream::model::{
    Application, CommandHub, CommandHubMode, HierarchyLevel, Sector, TosState, Viewport,
};
use tos_dream::remote::ConnectionType;

fn hub(applications: Vec<Application>) -> CommandHub {
    let active_app_index = if applications.is_empty() { None } else { Some(0) };
    CommandHub {
        id: 7,
        mode: CommandHubMode::Command,
        prompt: String::new(),
        applications,
        active_app_index,
        terminal_output: Vec::new(),
        confirmation_required: None,
        current_directory: "/".to_string(),
        show_hidden_files: false,
        selected_files: vec![],
        context_menu: None,
        shell_listing: None,
        output_mode_centered: false,
        left_region_visible: true,
    }
}

fn sector(name: &str, icon: &str, hubs: Vec<CommandHub>) -> Sector {
    Sector {
        id: 1,
        name: name.to_string(),
        color: "#ffffff".to_string(),
        host: "LOCAL".to_string(),
        connection_type: ConnectionType::Local,
        hubs,
        participants: vec![],
        active_hub_index: 0,
        icon: icon.to_string(),
        portal_active: false,
        portal_url: None,
        description: "Test".to_string(),
        sector_type_name: "test".to_string(),
    }
}

fn state(level: HierarchyLevel, sectors: Vec<Sector>) -> TosState {
    TosState {
        current_level: level,
        sectors,
        viewports: vec![],
        active_viewport_index: 0,
        tactical_lockdown: false,
        escape_count: 0,
        settings_open: false,
        performance_alert: false,
        fps_milli: 60_000,
        comms_visible: false,
        comms_messages: vec![],
    }
}

fn viewport(level: HierarchyLevel, app: Option<usize>) -> Viewport {
    Viewport {
        sector_index: 0,
        hub_index: 0,
        active_app_index: app,
        current_level: level,
        bezel_expanded: false,
    }
}

fn ctx() -> BezelContext {
    BezelContext {
        local_participant_id: 0,
        can_switch_mode: true,
        can_manage_sector: true,
        priority_tenths: 50,
        app_icon: None,
        suggestions: vec![],
        app_priority_milli: None,
        app_gain_milli: None,
        app_sensitivity_milli: None,
    }
}

#[test]
fn test_render_bezel_l3_collapsed() {
    let app = Application { id: 3, title: "Test App".to_string(), app_class: "TestClass".to_string(), pid: None };
    let s = state(HierarchyLevel::ApplicationFocus, vec![sector("Test Sector", "T", vec![hub(vec![app])])]);
    let vp = viewport(HierarchyLevel::ApplicationFocus, Some(0));
    let html = render_bezel(&s, &vp, HierarchyLevel::ApplicationFocus, BezelState::Collapsed, &ctx());
    assert!(html.contains("tactical-bezel"), "Should contain tactical-bezel class");
    assert!(html.contains("collapsed"), "Should contain collapsed class");
    assert!(html.contains("bezel-title"), "Should contain title class");
    assert!(html.contains("TEST APP // TESTCLASS"), "Should contain app title and class");
    assert!(html.contains("zoom_out"), "Should contain zoom out button/action");
}

#[test]
fn test_render_bezel_l2_hub() {
    let s = state(HierarchyLevel::CommandHub, vec![sector("Hub Sector", "G", vec![hub(vec![])])]);
    let vp = viewport(HierarchyLevel::CommandHub, None);
    let html = render_bezel(&s, &vp, HierarchyLevel::CommandHub, BezelState::Collapsed, &ctx());
    assert!(html.contains("tactical-bezel"), "Should contain tactical-bezel class");
    assert!(html.contains("toggle_output_mode") || html.contains("Perspective"), "Should contain output mode toggle");
    assert!(html.contains("toggle_left_region") || html.contains("Region"), "Should contain left region toggle");
}

#[test]
fn test_render_bezel_l1_global() {
    let s = state(HierarchyLevel::GlobalOverview, vec![sector("Alpha", "A", vec![hub(vec![])])]);
    let vp = viewport(HierarchyLevel::GlobalOverview, None);
    let html = render_bezel(&s, &vp, HierarchyLevel::GlobalOverview, BezelState::Collapsed, &ctx());
    assert!(html.contains("tactical-bezel"), "Should contain tactical-bezel class");
    assert!(html.contains("settings") || html.contains("Gear"), "Should contain settings gear");
    assert!(html.contains("collaboration") || html.contains("Avatars"), "Should contain collaboration indicators");
}

#[test]
fn bezel_without_switch_permission_disables_modes() {
    let s = state(HierarchyLevel::CommandHub, vec![sector("Hub Sector", "G", vec![hub(vec![])])]);
    let vp = viewport(HierarchyLevel::CommandHub, None);
    let mut c = ctx();
    c.can_switch_mode = false;
    let html = render_bezel(&s, &vp, HierarchyLevel::CommandHub, BezelState::Collapsed, &c);
    assert!(html.contains("disabled"));
    assert!(!html.contains("set_mode:Command"));
}

#[test]
fn expanded_bezel_shows_fps_and_title() {
    let s = state(HierarchyLevel::CommandHub, vec![sector("Hub Sector", "G", vec![hub(vec![])])]);
    let vp = viewport(HierarchyLevel::CommandHub, None);
    let html = render_bezel(&s, &vp, HierarchyLevel::CommandHub, BezelState::Expanded, &ctx());
    assert!(html.contains("tactical-bezel expanded priority-medium"));
    assert!(html.contains("HUB SECTOR // EXPANDED TACTICAL VIEW"));
    assert!(html.contains("FPS: 60.0"));
}
