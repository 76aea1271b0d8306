use tos_dream::ai::AiMessage;
use tos_dream::hub_render::{render_hub, HubRenderContext};
use tos_dream::model::{CommandHub, CommandHubMode, HierarchyLevel, Sector, TosState, Viewport};
use tos_dream::remote::ConnectionType;
use tos_dream::search::{SearchDomain, SearchResult, SearchTarget};

fn state(mode: CommandHubMode) -> TosState {
    TosState {
        current_level: HierarchyLevel::CommandHub,
        sectors: vec![Sector {
            id: 1,
            name: "Alpha".to_string(),
            color: "#ff9900".to_string(),
            host: "LOCAL".to_string(),
            connection_type: ConnectionType::Local,
            hubs: vec![CommandHub {
                id: 7,
                mode,
                prompt: "ask".to_string(),
                applications: vec![],
                active_app_index: None,
                terminal_output: vec![],
                confirmation_required: None,
                current_directory: "/".to_string(),
                show_hidden_files: false,
                selected_files: vec![],
                context_menu: None,
                shell_listing: None,
                output_mode_centered: false,
                left_region_visible: true,
            }],
            participants: vec![],
            active_hub_index: 0,
            icon: String::new(),
            portal_active: false,
            portal_url: None,
            description: String::new(),
            sector_type_name: String::new(),
        }],
        viewports: vec![Viewport {
            sector_index: 0,
            hub_index: 0,
            active_app_index: None,
            current_level: HierarchyLevel::CommandHub,
            bezel_expanded: false,
        }],
        active_viewport_index: 0,
        tactical_lockdown: false,
        escape_count: 0,
        settings_open: false,
        performance_alert: false,
        fps_milli: 60_000,
        comms_visible: false,
        comms_messages: vec![],
    }
}

fn ctx() -> HubRenderContext {
    HubRenderContext {
        render_mode: "Full".to_string(),
        following_active: false,
        time: "12:00".to_string(),
        favourites: None,
        suggestions: vec![],
        local_listing: Ok(vec![]),
        app_infos: vec![],
        module_overlays: vec![],
        templates: vec![],
        voice_indicator: String::new(),
        voice_help: None,
        ai_history: vec![],
        ai_generating: false,
        search_results: vec![],
    }
}

#[test]
fn ai_mode_shows_the_conversation() {
    let s = state(CommandHubMode::Ai);
    let mut c = ctx();
    c.ai_history = vec![
        AiMessage { id: 1, role: "user".to_string(), content: "hello".to_string(), timestamp_ms: 0 },
        AiMessage { id: 2, role: "assistant".to_string(), content: "hi there".to_string(), timestamp_ms: 1 },
    ];
    c.ai_generating = true;
    let html = render_hub(&s, &s.viewports[0], &c);
    assert!(html.contains("command-hub mode-ai"));
    assert!(html.contains("<div class=\"ai-msg ai-msg-user\">"));
    assert!(html.contains("<div class=\"ai-role\">ASSISTANT</div>"));
    assert!(html.contains("<div class=\"ai-content\">hi there</div>"));
    assert!(html.contains("PROCESSING..."));
    assert!(html.contains("ai-submit-btn"));
}

#[test]
fn search_mode_shows_results_or_invitation() {
    let s = state(CommandHubMode::Search);
    let html = render_hub(&s, &s.viewports[0], &ctx());
    assert!(html.contains("command-hub mode-search"));
    assert!(html.contains("ENTER QUERY TO SEARCH DOMAINS..."));
    assert!(!html.contains("ai-submit-btn"));
    let mut c = ctx();
    c.search_results = vec![SearchResult {
        id: "r1".to_string(),
        title: "Match".to_string(),
        description: "A file".to_string(),
        domain: SearchDomain::Files,
        relevance_milli: 950,
        priority_score: 5,
        target_location: SearchTarget::FilePath("/tmp/x".to_string()),
    }];
    let html = render_hub(&s, &s.viewports[0], &c);
    assert!(html.contains("search-result staging-item priority-med"));
    assert!(html.contains("search_select:r1"));
    assert_eq!(html.matches("<div class=\"priority-chip\"></div>").count(), 3);
    assert!(html.contains("<span class=\"search-domain\">Files</span>"));
    assert!(html.contains("<span class=\"search-relevance\">95%</span>"));
}
