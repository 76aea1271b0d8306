use tos_dream::dispatch::{Effect, IpcDispatcher, SignalKind};
use tos_dream::earcons::EarconEvent;
use tos_dream::events::SemanticEvent;

use tos_dream::ipc::{parse_request, IpcRequest, ModeRequest, ZoomTarget};
use tos_dream::model::{
    Application, CommandHub, CommandHubMode, HierarchyLevel, Sector, TosState, Viewport,
};
use tos_dream::remote::{ConnectionType, RemoteConnection, RemoteManager};
use tos_dream::security::SecurityManager;

fn hub(id: u128) -> CommandHub {
    CommandHub {
        id,
        mode: CommandHubMode::Directory,
        prompt: String::new(),
        applications: Vec::new(),
        active_app_index: None,
        terminal_output: Vec::new(),
        confirmation_required: None,
        current_directory: "/home/test".to_string(),
        show_hidden_files: false,
        selected_files: vec![],
        context_menu: None,
        shell_listing: None,
        output_mode_centered: false,
        left_region_visible: true,
    }
}

fn create_test_state() -> TosState {
    TosState {
        current_level: HierarchyLevel::CommandHub,
        sectors: vec![Sector {
            id: 1,
            name: "TEST_SECTOR".to_string(),
            color: "blue".to_string(),
            host: "localhost".to_string(),
            connection_type: ConnectionType::Local,
            hubs: vec![hub(100)],
            participants: vec![],
            active_hub_index: 0,
            icon: String::new(),
            portal_active: false,
            portal_url: None,
            description: String::new(),
            sector_type_name: String::new(),
        }],
        viewports: vec![Viewport {
            sector_index: 0,
            hub_index: 0,
            active_app_index: None,
            current_level: HierarchyLevel::CommandHub,
            bezel_expanded: false,
        }],
        active_viewport_index: 0,
        tactical_lockdown: false,
        escape_count: 0,
        settings_open: false,
        performance_alert: true,
        fps_milli: 30_000,
        comms_visible: false,
        comms_messages: vec![],
    }
}

fn dispatcher(state: TosState) -> IpcDispatcher {
    IpcDispatcher::new(state, SecurityManager::new(), RemoteManager::new())
}

#[test]
fn test_dir_pick_file_appends() {
    let mut state = create_test_state();
    state.sectors[0].hubs[0].current_directory = "/home/test".to_string();
    state.sectors[0].hubs[0].prompt = "view".to_string();
    let mut d = dispatcher(state);

    d.handle_request("dir_pick_file:file.txt");
    assert_eq!(d.state.sectors[0].hubs[0].prompt, "view /home/test/file.txt");

    d.handle_request("dir_pick_file:file2.log");
    assert_eq!(
        d.state.sectors[0].hubs[0].prompt,
        "view /home/test/file.txt /home/test/file2.log"
    );
}

#[test]
fn test_dir_action_copy_stages_command() {
    let mut state = create_test_state();
    state.sectors[0].hubs[0].current_directory = "/home/test".to_string();
    state.sectors[0].hubs[0].selected_files.push("file1.txt".to_string());
    state.sectors[0].hubs[0].selected_files.push("file2.txt".to_string());
    let mut d = dispatcher(state);

    d.handle_request("dir_action_copy");

    let prompt = &d.state.sectors[0].hubs[0].prompt;
    assert!(prompt.starts_with("cp "));
    assert!(prompt.contains("file1.txt"));
    assert!(prompt.contains("file2.txt"));
}

#[test]
fn grammar_reads_each_kind_of_request() {
    assert_eq!(parse_request("set_mode:Directory"), IpcRequest::SetMode(ModeRequest::Directory));
    assert_eq!(parse_request("set_mode:Nope"), IpcRequest::Ignored);
    assert_eq!(parse_request("select_sector:+3"), IpcRequest::SelectSector(3));
    assert_eq!(parse_request("select_sector:x"), IpcRequest::Ignored);
    assert_eq!(parse_request("prompt_submit:ls -la"), IpcRequest::PromptSubmit("ls -la".to_string()));
    assert_eq!(parse_request("zoom_to:BufferInspector"), IpcRequest::ZoomTo(ZoomTarget::BufferInspector));
    assert_eq!(parse_request("kill_app"), IpcRequest::KillActiveApp);
    assert_eq!(parse_request("kill_app:abc"), IpcRequest::KillApp("abc".to_string()));
    assert_eq!(
        parse_request("signal_app:id;INT"),
        IpcRequest::SignalApp("id".to_string(), "INT".to_string())
    );
    assert_eq!(parse_request("signal_app:id"), IpcRequest::Ignored);
    assert_eq!(parse_request("set_stream_quality:75:extra"), IpcRequest::SetStreamQuality(75));
    assert_eq!(parse_request("set_stream_quality:300"), IpcRequest::Ignored);
    assert_eq!(
        parse_request("dir_pick_file:it\\'s.txt"),
        IpcRequest::DirPickFile("it's.txt".to_string())
    );
    assert_eq!(
        parse_request("dir_context:a\\'b;12;x"),
        IpcRequest::DirContext("a'b".to_string(), 12, 0)
    );
    assert_eq!(
        parse_request("update_setting:gain:0.5:x"),
        IpcRequest::UpdateSetting("gain".to_string(), "0.5".to_string())
    );
    assert_eq!(
        parse_request("marketplace_add_repo:main|https://example.org"),
        IpcRequest::MarketplaceAddRepo("main".to_string(), "https://example.org".to_string())
    );
    let id = 0x0123_4567_89ab_cdef_0123_4567_89ab_cdefu128;
    assert_eq!(
        parse_request(&format!("confirm_command:{}", uuid::Uuid::from_u128(id).to_string())),
        IpcRequest::ConfirmCommand(id)
    );
    assert_eq!(parse_request("confirm_command:not-a-uuid"), IpcRequest::Ignored);
    assert_eq!(parse_request("ui_ready"), IpcRequest::UiReady);
    assert_eq!(parse_request("something else"), IpcRequest::Ignored);
}

#[test]
fn set_mode_lists_the_directory() {
    let mut d = dispatcher(create_test_state());
    let e = d.handle_request("set_mode:Command");
    assert_eq!(
        e,
        vec![
            Effect::ToggleMode(ModeRequest::Command),
            Effect::PtyWrite { hub_id: 100, text: "ls -la /home/test\n".to_string() },
        ]
    );
}

#[test]
fn prompt_submit_echoes_and_writes_to_the_shell() {
    let mut d = dispatcher(create_test_state());
    d.state.sectors[0].hubs[0].prompt = "echo hi".to_string();
    let e = d.handle_request("prompt_submit:echo hi");
    let h = &d.state.sectors[0].hubs[0];
    assert_eq!(h.prompt, "");
    assert_eq!(h.terminal_output, vec!["> echo hi".to_string()]);
    assert_eq!(e, vec![Effect::PtyWrite { hub_id: 100, text: "echo hi\n".to_string() }]);
}

#[test]
fn hub_commands_stay_in_the_hub() {
    let mut d = dispatcher(create_test_state());
    assert_eq!(d.handle_request("prompt_submit:zoom in"), vec![Effect::ZoomIn]);
    assert_eq!(
        d.handle_request("prompt_submit:mode dir"),
        vec![Effect::ToggleMode(ModeRequest::Directory)]
    );
    assert_eq!(d.handle_request("prompt_submit:out"), vec![Effect::ZoomOut]);
}

#[test]
fn focus_command_focuses_by_title() {
    let mut state = create_test_state();
    state.sectors[0].hubs[0].applications = vec![
        Application { id: 1, title: "Editor".to_string(), app_class: "e".to_string(), pid: None },
        Application { id: 2, title: "Browser".to_string(), app_class: "b".to_string(), pid: None },
    ];
    let mut d = dispatcher(state);
    let e = d.handle_request("prompt_submit:focus browser");
    assert!(e.is_empty());
    assert_eq!(d.state.sectors[0].hubs[0].active_app_index, Some(1));
    assert_eq!(d.state.current_level, HierarchyLevel::ApplicationFocus);
    assert_eq!(d.state.viewports[0].active_app_index, Some(1));
}

#[test]
fn dangerous_command_awaits_confirmation() {
    let mut d = dispatcher(create_test_state());
    let e = d.handle_request("prompt_submit:rm -rf /");
    let required = d.state.sectors[0].hubs[0].confirmation_required.clone().unwrap();
    assert!(required.contains("(Risk: Critical)"), "{}", required);
    assert_eq!(d.security.active_sessions.len(), 1);
    assert_eq!(e, vec![Effect::PtyWrite { hub_id: 100, text: "rm -rf /\n".to_string() }]);
}

#[test]
fn hold_confirms_after_twenty_steps() {
    let mut d = dispatcher(create_test_state());
    d.handle_request("prompt_submit:rm -rf /");
    let id = d.security.active_sessions.key_at(0);
    let request = format!("increment_hold:{}", uuid::Uuid::from_u128(id).to_string());
    for _ in 0..19 {
        assert!(d.handle_request(&request).is_empty());
    }
    let e = d.handle_request(&request);
    assert_eq!(
        e,
        vec![
            Effect::Earcon(EarconEvent::CommandAccepted),
            Effect::PtyWrite { hub_id: 100, text: "rm -rf /\n".to_string() },
        ]
    );
    assert_eq!(d.security.active_sessions.len(), 0);
}

#[test]
fn directory_toggles_and_menus() {
    let mut d = dispatcher(create_test_state());
    d.handle_request("dir_toggle_select:a.txt");
    assert_eq!(d.state.sectors[0].hubs[0].prompt, "view /home/test/a.txt");
    d.handle_request("dir_toggle_select:b.txt");
    assert_eq!(d.state.sectors[0].hubs[0].prompt, "view /home/test/a.txt /home/test/b.txt");
    d.handle_request("dir_toggle_select:a.txt");
    assert_eq!(d.state.sectors[0].hubs[0].selected_files, vec!["b.txt".to_string()]);
    d.handle_request("dir_action_delete");
    assert_eq!(d.state.sectors[0].hubs[0].prompt, "rm b.txt ");
    d.handle_request("dir_context:b.txt;10;20");
    let menu = d.state.sectors[0].hubs[0].context_menu.clone().unwrap();
    assert_eq!((menu.target.as_str(), menu.x, menu.y), ("b.txt", 10, 20));
    assert_eq!(menu.actions, vec!["OPEN", "COPY", "RENAME", "DELETE"]);
    d.handle_request("dir_clear_select");
    assert!(d.state.sectors[0].hubs[0].selected_files.is_empty());
    assert!(d.state.sectors[0].hubs[0].context_menu.is_none());
    d.handle_request("dir_action_paste");
    assert_eq!(d.state.sectors[0].hubs[0].prompt, "cp $CLIPBOARD .");
}

#[test]
fn navigation_up_and_down() {
    let mut d = dispatcher(create_test_state());
    let e = d.handle_request("dir_navigate:..");
    assert_eq!(d.state.sectors[0].hubs[0].current_directory, "/home");
    assert_eq!(
        e,
        vec![
            Effect::PtyWrite { hub_id: 100, text: "cd /home\n".to_string() },
            Effect::PtyWrite { hub_id: 100, text: "LS /home\n".to_string() },
        ]
    );
    let e = d.handle_request("dir_navigate:docs");
    assert_eq!(
        e,
        vec![Effect::EnterIfDirectory { hub_id: 100, path: "/home/docs".to_string() }]
    );
    d.enter_directory("/home/docs");
    assert_eq!(d.state.sectors[0].hubs[0].current_directory, "/home/docs");
}

#[test]
fn application_selection_lists_processes() {
    let mut state = create_test_state();
    let a = 0x11u128;
    let b = 0x22u128;
    state.sectors[0].hubs[0].applications = vec![
        Application { id: a, title: "Shell".to_string(), app_class: "Shell".to_string(), pid: Some(4242) },
        Application { id: b, title: "Dummy".to_string(), app_class: "x".to_string(), pid: None },
    ];
    let mut d = dispatcher(state);
    d.handle_request(&format!("app_toggle_select:{}", uuid::Uuid::from_u128(a).to_string()));
    assert_eq!(d.state.sectors[0].hubs[0].prompt, "manage 4242");
    d.handle_request(&format!("app_toggle_select:{}", uuid::Uuid::from_u128(b).to_string()));
    assert_eq!(d.state.sectors[0].hubs[0].prompt, "manage 4242 [Dummy]");
    let e = d.handle_request("app_batch_kill");
    assert_eq!(e, vec![Effect::Signal { pid: 4242, signal: SignalKind::Kill }]);
    assert!(d.state.sectors[0].hubs[0].applications.is_empty());
    assert!(d.state.sectors[0].hubs[0].selected_files.is_empty());
    assert_eq!(d.state.sectors[0].hubs[0].prompt, "");
}

#[test]
fn signals_reach_the_process_and_only_kill_removes() {
    let mut state = create_test_state();
    let a = 0x33u128;
    state.sectors[0].hubs[0].applications =
        vec![Application { id: a, title: "Top".to_string(), app_class: "x".to_string(), pid: Some(7) }];
    let mut d = dispatcher(state);
    let e = d.handle_request(&format!("signal_app:{};INT", uuid::Uuid::from_u128(a).to_string()));
    assert_eq!(e, vec![Effect::Signal { pid: 7, signal: SignalKind::Int }]);
    assert_eq!(d.state.sectors[0].hubs[0].applications.len(), 1);
    let e = d.handle_request(&format!("signal_app:{};HUP", uuid::Uuid::from_u128(a).to_string()));
    assert_eq!(e, vec![Effect::Signal { pid: 7, signal: SignalKind::Term }]);
    let e = d.handle_request(&format!("kill_app:{}", uuid::Uuid::from_u128(a).to_string()));
    assert_eq!(e, vec![Effect::Signal { pid: 7, signal: SignalKind::Kill }]);
    assert!(d.state.sectors[0].hubs[0].applications.is_empty());
}

#[test]
fn terminating_a_remote_link_drops_the_sector() {
    let mut state = create_test_state();
    let mut remote_sector = state.sectors[0].clone();
    remote_sector.id = 2;
    remote_sector.connection_type = ConnectionType::SSH;
    state.sectors.push(remote_sector);
    state.sectors.push(Sector { id: 3, ..state.sectors[0].clone() });
    state.viewports = vec![
        Viewport { sector_index: 1, ..state.viewports[0] },
        Viewport { sector_index: 0, ..state.viewports[0] },
        Viewport { sector_index: 2, ..state.viewports[0] },
    ];
    let mut remote = RemoteManager::new();
    remote.active_connections.insert(2, RemoteConnection::new(2, ConnectionType::SSH, 0));
    let mut d = IpcDispatcher::new(state, SecurityManager::new(), remote);
    d.handle_request("terminate_remote_link");
    assert_eq!(d.state.sectors.len(), 2);
    assert_eq!(
        d.state.viewports.iter().map(|v| v.sector_index).collect::<Vec<_>>(),
        vec![0, 1]
    );
    assert_eq!(d.state.current_level, HierarchyLevel::GlobalOverview);
    assert_eq!(d.remote.active_connections.len(), 0);
}

#[test]
fn stream_quality_needs_a_link() {
    let mut d = dispatcher(create_test_state());
    assert!(d.handle_request("set_stream_quality:40").is_empty());
    d.remote.active_connections.insert(1, RemoteConnection::new(1, ConnectionType::TOSNative, 0));
    assert_eq!(
        d.handle_request("set_stream_quality:40"),
        vec![Effect::Earcon(EarconEvent::CommandAccepted)]
    );
    assert_eq!(d.remote.active_connections.get(1).unwrap().stream_quality, 40);
}

#[test]
fn state_requests() {
    let mut d = dispatcher(create_test_state());
    d.handle_request("open_settings");
    assert!(d.state.settings_open);
    d.handle_request("close_settings");
    assert!(!d.state.settings_open);
    d.handle_request("optimize_system");
    assert!(!d.state.performance_alert);
    assert_eq!(d.state.fps_milli, 60_000);
    d.handle_request("load_template:Ops");
    assert_eq!(d.state.sectors[0].name, "TEMPLATE: Ops");
    d.handle_request("save_template:Ops");
    assert_eq!(
        d.state.sectors[0].hubs[0].terminal_output,
        vec!["SYSTEM // TEMPLATE EXPORTED: Ops.tos-template".to_string()]
    );
    d.handle_request("zoom_to:DetailInspector");
    assert_eq!(d.state.current_level, HierarchyLevel::DetailInspector);
    assert_eq!(d.state.viewports[0].current_level, HierarchyLevel::DetailInspector);
    assert_eq!(
        d.handle_request("zoom_to:GlobalOverview"),
        vec![Effect::Semantic(SemanticEvent::OpenGlobalOverview)]
    );
    let e = d.handle_request("send_comms:hello");
    assert_eq!(e, vec![Effect::Earcon(EarconEvent::CommandAccepted)]);
    assert_eq!(d.state.comms_messages[0].from, "USER");
    assert_eq!(d.state.comms_messages[0].body, "hello");
    d.handle_request("kill_sector:5");
    assert_eq!(d.state.sectors.len(), 1);
    d.handle_request("kill_sector:0");
    assert!(d.state.sectors.is_empty());
}

#[test]
fn events_pass_through() {
    let mut d = dispatcher(create_test_state());
    assert_eq!(
        d.handle_request("semantic_event:SplitViewport"),
        vec![Effect::Semantic(SemanticEvent::SplitViewport), Effect::SpawnMissingPtys]
    );
    assert_eq!(
        d.handle_request("semantic_event:VoiceCommandStart"),
        vec![Effect::StageCommand("LISTENING...".to_string())]
    );
    assert!(d.handle_request("semantic_event:Dance").is_empty());
    assert_eq!(
        d.handle_request("invite_participant:Operator"),
        vec![Effect::InviteParticipant(tos_dream::collaboration::CollaborationRole::Operator)]
    );
    assert_eq!(
        d.handle_request("play_audio:Unknown"),
        vec![Effect::PlayAudio(tos_dream::audio::AudioEvent::AlertBeep)]
    );
    assert!(d.handle_request("who knows").is_empty());
}

#[test]
fn remote_sector_is_added_and_linked() {
    let mut d = dispatcher(create_test_state());
    let host = d.add_remote_sector_at(9, 900, "/home/remote".to_string(), 1_000);
    assert_eq!(host, "10.0.4.15");
    assert_eq!(d.state.sectors.len(), 2);
    let s = &d.state.sectors[1];
    assert_eq!(s.host, "10.0.4.15");
    assert_eq!(s.connection_type, ConnectionType::SSH);
    assert_eq!(s.hubs[0].id, 900);
    assert_eq!(s.hubs[0].current_directory, "/home/remote");
    assert_eq!(s.description, "Remote session on REMOTE-NODE-01");
    assert!(d.remote.nodes.contains_key(9));
    assert_eq!(d.remote.nodes.get(9).unwrap().hostname, "REMOTE-NODE-01");
}

#[test]
fn connect_remote_names_the_node_by_address() {
    let mut d = dispatcher(create_test_state());
    d.connect_remote_at("192.168.1.7", 5, 500, "/".to_string(), 2_000);
    assert_eq!(d.state.sectors.len(), 2);
    assert_eq!(d.state.sectors[1].connection_type, ConnectionType::TOSNative);
    assert_eq!(d.remote.nodes.get(5).unwrap().hostname, "REMOTE-192.168.1.7");
}

#[test]
fn fresh_remote_sector_gets_new_ids() {
    let mut d = dispatcher(create_test_state());
    let (hub_id, host) = d.add_remote_sector(3_000);
    assert_eq!(host, "10.0.4.15");
    assert_eq!(d.state.sectors[1].hubs[0].id, hub_id);
}

#[test]
fn prompt_in_search_mode_searches() {
    let mut state = create_test_state();
    state.sectors[0].hubs[0].mode = CommandHubMode::Search;
    let mut d = dispatcher(state);
    let effects = d.handle_request("prompt_submit:needle");
    assert_eq!(effects[0], Effect::Search("needle".to_string()));
    assert_eq!(d.state.sectors[0].hubs[0].terminal_output.last().unwrap(), "> needle");
}

#[test]
fn prompt_in_ai_mode_asks_the_assistant() {
    let mut state = create_test_state();
    state.sectors[0].hubs[0].mode = CommandHubMode::Ai;
    let mut d = dispatcher(state);
    let effects = d.handle_request("prompt_submit:what is up");
    assert_eq!(effects[0], Effect::Semantic(SemanticEvent::AiSubmit));
    assert_eq!(d.state.sectors[0].hubs[0].prompt, "what is up");
}
