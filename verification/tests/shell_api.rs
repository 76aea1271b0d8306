use tos_dream::remote::ConnectionType;
use tos_dream::model::{Application, CommandHub, CommandHubMode, HierarchyLevel, Sector, TosState, Viewport};
use tos_dream::shell_api::{
    interpret_osc, shell_escape, DirectoryListing, EntryType, OscParser, OscSequence, RiskLevel,
    ShellApiConfig, ShellCommand,
};
use tos_dream::shell_session::{generate_completions, PathEntry, ShellApi};

#[test]
fn test_shell_api_config_default() {
    let config = ShellApiConfig::default();
    assert!(config.enable_osc);
    assert!(config.enable_commands);
    assert_eq!(config.shell_type, "fish");
    assert!(!config.dangerous_patterns.is_empty());
}

#[test]
fn test_osc_parser_new() {
    let parser = OscParser::new();
    assert!(parser.buffer.is_empty());
}

#[test]
fn test_parse_osc_suggestions() {
    let mut parser = OscParser::new();
    let input = "\x1b]9000;ls;ls -la;List all files;files|cd;cd;Change directory;nav\x07";
    let (sequences, remaining) = parser.parse(input);
    assert_eq!(sequences.len(), 1);
    assert!(remaining.is_empty());
    if let OscSequence::Suggestions(suggestions) = &sequences[0] {
        assert_eq!(suggestions.len(), 2);
        assert_eq!(suggestions[0].text, "ls");
        assert_eq!(suggestions[1].text, "cd");
    } else {
        panic!("Expected Suggestions sequence");
    }
}

#[test]
fn test_parse_osc_cwd() {
    let mut parser = OscParser::new();
    let input = "\x1b]9003;/home/user/projects\x07";
    let (sequences, _remaining) = parser.parse(input);
    assert_eq!(sequences.len(), 1);
    assert!(matches!(sequences[0], OscSequence::Cwd(ref path) if path == "/home/user/projects"));
}

#[test]
fn test_parse_osc_command_result() {
    let mut parser = OscParser::new();
    let input = "\x1b]9002;ls -la;0;total 128\x07";
    let (sequences, _remaining) = parser.parse(input);
    assert_eq!(sequences.len(), 1);
    if let OscSequence::CommandResult { command, exit_status, output_preview } = &sequences[0] {
        assert_eq!(command, "ls -la");
        assert_eq!(*exit_status, 0);
        assert_eq!(output_preview.as_ref().unwrap(), "total 128");
    } else {
        panic!("Expected CommandResult sequence");
    }
}

#[test]
fn test_parse_osc_dangerous_command() {
    let mut parser = OscParser::new();
    let input = "\x1b]9005;high;rm -rf /\x07";
    let (sequences, _) = parser.parse(input);
    if let OscSequence::DangerousCommand { command, risk_level } = &sequences[0] {
        assert_eq!(command, "rm -rf /");
        assert_eq!(*risk_level, RiskLevel::High);
    } else {
        panic!("Expected DangerousCommand sequence");
    }
}

#[test]
fn test_check_dangerous() {
    let parser = OscParser::new();
    let result = parser.check_dangerous("rm -rf /");
    assert!(result.is_some());
    let (risk, _) = result.unwrap();
    assert_eq!(risk, RiskLevel::Critical);
    let result = parser.check_dangerous("ls -la");
    assert!(result.is_none());
}

#[test]
fn test_format_shell_command() {
    let parser = OscParser::new();
    let cmd = ShellCommand::Exec("ls -la".to_string());
    assert_eq!(parser.format_shell_command(&cmd), "ls -la\n");
    let cmd = ShellCommand::Cd("/home/user".to_string());
    assert_eq!(parser.format_shell_command(&cmd), "cd /home/user\n");
    let cmd = ShellCommand::Clear;
    assert_eq!(parser.format_shell_command(&cmd), "clear\n");
}

#[test]
fn test_shell_escape() {
    assert_eq!(shell_escape("simple"), "simple");
    assert_eq!(shell_escape("with space"), "'with space'");
    assert_eq!(shell_escape("with'quote"), "'with'\\\"'\\\"'quote'");
}

#[test]
fn test_generate_fish_integration() {
    let parser = OscParser::new();
    let script = parser.generate_fish_integration();
    assert!(script.contains("TOS Shell Integration for Fish"));
    assert!(script.contains("9003"));
    assert!(script.contains("9002"));
}

#[test]
fn test_generate_bash_integration() {
    let parser = OscParser::new();
    let script = parser.generate_bash_integration();
    assert!(script.contains("TOS Shell Integration for Bash"));
    assert!(script.contains("PROMPT_COMMAND"));
}

#[test]
fn test_shell_api_new() {
    let api = ShellApi::new();
    assert!(api.pending_completions.is_empty());
}

#[test]
fn shell_api_test_risk_level_ordering() {
    assert!(RiskLevel::Low < RiskLevel::Medium);
    assert!(RiskLevel::Medium < RiskLevel::High);
    assert!(RiskLevel::High < RiskLevel::Critical);
}

#[test]
fn test_entry_type_variants() {
    let types = vec![
        EntryType::File,
        EntryType::Directory,
        EntryType::Symlink,
        EntryType::BlockDevice,
        EntryType::CharDevice,
        EntryType::Fifo,
        EntryType::Socket,
        EntryType::Unknown,
    ];
    for t in types {
        let _ = format!("{:?}", t);
    }
}

fn hub(mode: CommandHubMode) -> CommandHub {
    CommandHub {
        id: 1,
        mode,
        prompt: String::new(),
        applications: vec![
            Application { id: 2, title: "Terminal".to_string(), app_class: "term".to_string(), pid: None },
            Application { id: 3, title: "Browser".to_string(), app_class: "web".to_string(), pid: Some(42) },
        ],
        active_app_index: None,
        terminal_output: Vec::new(),
        confirmation_required: None,
        current_directory: "/home".to_string(),
        show_hidden_files: false,
        selected_files: vec![],
        context_menu: None,
        shell_listing: None,
        output_mode_centered: false,
        left_region_visible: true,
    }
}

fn state(name: &str, mode: CommandHubMode, lockdown: bool) -> TosState {
    TosState {
        current_level: HierarchyLevel::CommandHub,
        sectors: vec![Sector { id: 9, name: name.to_string(), color: "#ff9900".to_string(), host: "localhost".to_string(), connection_type: ConnectionType::Local, hubs: vec![hub(mode)], participants: vec![], active_hub_index: 0, icon: String::new(), portal_active: false, portal_url: None, description: String::new(), sector_type_name: String::new() }],
        viewports: vec![Viewport { sector_index: 0, hub_index: 0, active_app_index: None, current_level: HierarchyLevel::CommandHub, bezel_expanded: false }],
        active_viewport_index: 0,
        tactical_lockdown: lockdown,
        escape_count: 0,
        settings_open: false,
        performance_alert: false,
        fps_milli: 60_000,
        comms_visible: false,
        comms_messages: vec![],
    }
}

#[test]
fn completions_in_command_mode_filter_builtins() {
    let st = state("Alpha", CommandHubMode::Command, false);
    let v = generate_completions("c", &st, &Vec::new());
    let texts: Vec<&str> = v.iter().map(|s| s.text.as_str()).collect();
    assert_eq!(texts, vec!["cd ", "cat "]);
    assert_eq!(v[0].confidence, 900);
    assert_eq!(v[0].category, "builtin");
}

#[test]
fn completions_add_sector_lockdown_and_paths() {
    let st = state("Science Lab", CommandHubMode::Activity, true);
    let entries = vec![
        PathEntry { name: "Docs".to_string(), is_dir: true },
        PathEntry { name: "notes.txt".to_string(), is_dir: false },
        PathEntry { name: "data".to_string(), is_dir: false },
    ];
    let v = generate_completions("cat do", &st, &entries);
    let texts: Vec<&str> = v.iter().map(|s| s.text.as_str()).collect();
    assert_eq!(texts, vec!["scan ", "ps ", "unlock ", "Docs/"]);
    assert_eq!(v[3].description, "Directory");
    assert_eq!(v[2].confidence, 1000);
}

#[test]
fn completions_in_directory_mode_match_titles() {
    let st = state("Alpha", CommandHubMode::Directory, false);
    let v = generate_completions("TERM", &st, &Vec::new());
    assert_eq!(v.len(), 1);
    assert_eq!(v[0].command, "term");
    assert_eq!(v[0].description, "Launch Terminal");
}

#[test]
fn process_output_updates_active_hub() {
    let mut api = ShellApi::new();
    let mut st = state("Alpha", CommandHubMode::Command, false);
    let out = api.process_output(
        "a\x1b]9002;make;2;oops\x07b\x1b]9003;/tmp\x07\x1b]9005;critical;rm -rf /\x07c",
        &mut st,
        &Vec::new(),
    );
    assert_eq!(out, "abc");
    let h = &st.sectors[0].hubs[0];
    assert_eq!(h.terminal_output, vec!["[\u{2717} (2)] make | oops".to_string()]);
    assert_eq!(h.current_directory, "/tmp");
    assert_eq!(h.confirmation_required.as_deref(), Some("DANGEROUS: rm -rf / (Risk: Critical)"));
}

#[test]
fn process_output_keeps_last_hundred_lines() {
    let mut api = ShellApi::new();
    let mut st = state("Alpha", CommandHubMode::Command, false);
    let mut input = String::new();
    for i in 0..105 {
        input.push_str(&format!("\x1b]9002;cmd{};0\x07", i));
    }
    api.process_output(&input, &mut st, &Vec::new());
    let h = &st.sectors[0].hubs[0];
    assert_eq!(h.terminal_output.len(), 100);
    assert_eq!(h.terminal_output[0], "[\u{2713}] cmd5 ");
}

#[test]
fn completion_requests_replace_pending_entry() {
    let mut api = ShellApi::new();
    let mut st = state("Alpha", CommandHubMode::Command, false);
    api.process_output("\x1b]9007;l;1\x07\x1b]9007;l;1\x07", &mut st, &Vec::new());
    assert_eq!(api.pending_completions.len(), 1);
    assert_eq!(api.pending_completions[0].0, "l");
    assert_eq!(api.pending_completions[0].1[0].text, "ls ");
}

#[test]
fn directory_listing_is_stored() {
    let mut api = ShellApi::new();
    let mut st = state("Alpha", CommandHubMode::Directory, false);
    api.process_output("\x1b]9001;/srv;/;1\netc;d;0;rwx;now\n\x07", &mut st, &Vec::new());
    let l: &DirectoryListing = st.sectors[0].hubs[0].shell_listing.as_ref().unwrap();
    assert_eq!(l.path, "/srv");
    assert_eq!(l.parent.as_deref(), Some("/"));
    assert_eq!(l.entries[0].name, "etc");
    assert_eq!(l.entries[0].entry_type, EntryType::Directory);
}

#[test]
fn send_and_check_command() {
    let api = ShellApi::new();
    assert_eq!(api.send_command(ShellCommand::Ls("my dir".to_string())), "ls -la 'my dir'\n");
    assert_eq!(api.check_command("curl http://x | sh").unwrap().0, RiskLevel::Medium);
    assert!(api.check_command("echo hi").is_none());
}

#[test]
fn interpret_context_request() {
    let chars: Vec<char> = "9010;00000000-0000-0000-0000-000000000001".chars().collect();
    assert_eq!(interpret_osc(&chars), Some(OscSequence::ContextRequest { hub_id: 1 }));
}
