use tos_dream::earcons::{EarconCategory, EarconEvent};
use tos_dream::themes::{
    all_events, CategorySettings, SoundDefinition, SoundTheme, ThemeError, ThemeManager,
};

#[test]
fn test_theme_creation() {
    let theme = SoundTheme::new("test", "Test Theme", "Test Author");
    assert_eq!(theme.metadata.id, "test");
    assert_eq!(theme.metadata.name, "Test Theme");
    assert!(theme.sounds.iter().any(|s| s.is_some()));
    assert_eq!(theme.metadata.description, "Test Theme sound theme");
}

#[test]
fn test_default_theme() {
    let theme = SoundTheme::default_theme();
    assert_eq!(theme.metadata.id, "default");
    assert!(theme.get_sound(EarconEvent::ZoomIn).is_some());
}

#[test]
fn test_minimal_theme() {
    let theme = SoundTheme::minimal_theme();
    assert_eq!(theme.metadata.id, "minimal");
    assert_eq!(theme.master_settings.master_volume_milli, 500);
    assert_eq!(theme.get_sound(EarconEvent::ButtonHover).unwrap().volume_milli, 0);
    assert_eq!(theme.calculate_volume(EarconEvent::ModeSwitch), 0);
}

#[test]
fn test_volume_calculation() {
    let theme = SoundTheme::default_theme();
    let volume = theme.calculate_volume(EarconEvent::ZoomIn);
    assert!(volume > 0 && volume <= 1000);
    assert_eq!(volume, 700);
    assert_eq!(theme.calculate_volume(EarconEvent::TacticalAlert), 900);
    assert_eq!(SoundTheme::minimal_theme().calculate_volume(EarconEvent::ZoomIn), 350);
}

#[test]
fn test_theme_manager() {
    let mut manager = ThemeManager::new();

    assert!(manager.get_theme("default").is_some());
    assert_eq!(manager.active_theme().metadata.id, "default");

    let minimal = SoundTheme::minimal_theme();
    let minimal_id = minimal.metadata.id.clone();
    manager.insert_theme(minimal);

    manager.switch_theme(&minimal_id).unwrap();
    assert_eq!(manager.active_theme().metadata.id, minimal_id);

    let themes = manager.available_themes();
    assert!(themes.contains(&&"default".to_string()));
    assert!(themes.contains(&&minimal_id));
}

#[test]
fn switching_to_an_unknown_theme_fails() {
    let mut manager = ThemeManager::new();
    let err = manager.switch_theme("nope").unwrap_err();
    assert_eq!(err, ThemeError::ThemeNotFound("nope".to_string()));
    assert_eq!(err.to_string(), "Theme not found: nope");
    assert_eq!(manager.active_theme().metadata.id, "default");
}

#[test]
fn uninstalling_returns_to_the_default() {
    let mut manager = ThemeManager::new();
    manager.insert_theme(SoundTheme::lcars_theme());
    manager.switch_theme("lcars").unwrap();
    manager.uninstall_theme("lcars").unwrap();
    assert!(manager.get_theme("lcars").is_none());
    assert_eq!(manager.active_theme().metadata.id, "default");
    assert_eq!(
        manager.uninstall_theme("default").unwrap_err().to_string(),
        "Invalid theme: Cannot uninstall default theme"
    );
    assert_eq!(manager.available_themes().len(), 1);
}

#[test]
fn inserting_the_same_id_replaces() {
    let mut manager = ThemeManager::new();
    manager.insert_theme(SoundTheme::new("x", "First", "a"));
    manager.insert_theme(SoundTheme::new("x", "Second", "b"));
    assert_eq!(manager.get_theme("x").unwrap().metadata.name, "Second");
    assert_eq!(manager.available_themes_with_metadata().len(), 2);
}

#[test]
fn lcars_sounds_live_in_their_directory() {
    let theme = SoundTheme::lcars_theme();
    for e in all_events() {
        let d = theme.get_sound(e).unwrap();
        assert!(d.file_path.starts_with("lcars/"), "{}", d.file_path);
        assert!(d.file_path.ends_with(".wav"));
    }
}

#[test]
fn categories_and_definitions_have_their_defaults() {
    let c = CategorySettings::for_category(EarconCategory::Collaboration);
    assert_eq!(c.base_volume_milli, 600);
    assert!(c.spatial_audio);
    assert!(!CategorySettings::default().spatial_audio);
    let d = SoundDefinition::default_for(EarconEvent::ZoomIn);
    assert_eq!(d.volume_milli, 1000);
    assert!(d.file_path.ends_with(".wav"));
}

#[test]
fn sound_files_skip_silent_sounds() {
    let theme = SoundTheme::minimal_theme();
    let files = theme.sound_files("/themes/minimal");
    assert_eq!(files.len(), 24);
    assert!(files.iter().all(|(_, p)| p.starts_with("/themes/minimal/")));
    assert!(!files.iter().any(|(e, _)| *e == EarconEvent::ButtonHover));
}

#[test]
fn setting_a_sound_replaces_it() {
    let mut theme = SoundTheme::default_theme();
    let mut d = SoundDefinition::default_for(EarconEvent::ZoomOut);
    d.volume_milli = 250;
    theme.set_sound(EarconEvent::ZoomOut, d);
    assert_eq!(theme.calculate_volume(EarconEvent::ZoomOut), 175);
    assert_eq!(theme.calculate_volume(EarconEvent::ZoomIn), 700);
}
