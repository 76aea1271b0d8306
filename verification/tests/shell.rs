use tos_dream::shell::{
    FishShellProvider, ShellProvider, ShellRegistry, SshShellProvider, StandardShell,
};

#[test]
fn test_shell_registry_registration() {
    let mut registry: ShellRegistry<StandardShell> = ShellRegistry::default();
    registry.register(StandardShell::Fish(FishShellProvider::new()));

    assert!(registry.get("fish").is_some());
    assert_eq!(registry.get("fish").unwrap().name(), "fish");
    assert!(registry.get("unknown").is_none());
}

#[test]
fn test_fish_integration_script_content() {
    let provider = FishShellProvider::new();
    let script = provider.get_integration_script();

    assert!(script.contains("__tos_send_osc"));
    assert!(script.contains("__tos_preexec"));
    assert!(script.contains("__tos_postexec"));
    assert!(script.contains("printf \"\\033]9003;%s\\007\" $PWD"));
}

#[test]
fn new_registry_holds_fish() {
    let registry = ShellRegistry::new();
    assert_eq!(registry.get("fish").unwrap().default_path(), "/usr/bin/fish");
    assert!(registry.get("ssh").is_none());
}

#[test]
fn registering_again_replaces() {
    let mut registry = ShellRegistry::new();
    registry.register(StandardShell::Ssh(SshShellProvider::new()));
    registry.register(StandardShell::Fish(FishShellProvider::new()));
    assert_eq!(registry.get("ssh").unwrap().name(), "ssh");
    assert_eq!(registry.get("fish").unwrap().name(), "fish");
}

#[test]
fn ssh_target_and_arguments() {
    let ssh = SshShellProvider::new();
    assert_eq!(ssh.ssh_target("example.org", Some("alice")), "alice@example.org");
    assert_eq!(ssh.ssh_target("example.org", None), "example.org");
    assert_eq!(
        ssh.spawn_args("example.org", Some("bob")),
        vec!["-t".to_string(), "bob@example.org".to_string()]
    );
    assert_eq!(ssh.get_integration_script(), "");
    assert_eq!(ssh.default_path(), "/usr/bin/ssh");
}

#[test]
fn fish_init_arguments_source_the_script() {
    let fish = FishShellProvider::new();
    assert_eq!(
        fish.init_args("/tmp/tos/fish_integration.fish"),
        vec!["-C".to_string(), "source /tmp/tos/fish_integration.fish".to_string()]
    );
}
