use tos_dream::earcon_player::{EarconPlayer, SpatialPosition};
use tos_dream::earcons::{EarconCategory, EarconEvent};

#[test]
fn test_earcon_player_creation() {
    let player = EarconPlayer::new();
    assert!(player.is_enabled());
    assert_eq!(player.master_volume(), 1000);
}

#[test]
fn test_volume_settings() {
    let mut player = EarconPlayer::new();
    player.set_master_volume(500);
    assert_eq!(player.master_volume(), 500);
    player.set_category_volume(EarconCategory::Navigation, 300);
    assert_eq!(player.category_volume(EarconCategory::Navigation), 300);
}

#[test]
fn test_spatial_position() {
    let center = SpatialPosition::center();
    assert_eq!(center.pan(), 0);
    assert_eq!(center.attenuation(), 1000);
    let left = SpatialPosition::from_sector_position(-500, 0, 0);
    assert_eq!(left.pan(), -500);
    let far = SpatialPosition::from_sector_position(0, 0, 1000);
    assert!(far.attenuation() < 1000);
    assert_eq!(far.attenuation(), 500);
}

#[test]
fn test_mute_unmute() {
    let mut player = EarconPlayer::new();
    assert!(player.is_enabled());
    player.mute();
    assert!(!player.is_enabled());
    player.unmute();
    assert!(player.is_enabled());
}

#[test]
fn test_concurrent_limit() {
    let mut player = EarconPlayer::new();
    player.set_max_concurrent(2);
    player.active_sounds.push(EarconEvent::ZoomIn);
    player.active_sounds.push(EarconEvent::ZoomOut);
    assert_eq!(player.active_sound_count(), 2);
    player.clear_active_sounds();
    assert_eq!(player.active_sound_count(), 0);
}

#[test]
fn test_reset_to_defaults() {
    let mut player = EarconPlayer::new();
    player.set_master_volume(500);
    player.set_enabled(false);
    player.mute();
    player.reset_to_defaults();
    assert_eq!(player.master_volume(), 1000);
    assert!(player.is_enabled());
}

#[test]
fn volume_is_clamped() {
    let mut player = EarconPlayer::new();
    player.set_master_volume(1500);
    assert_eq!(player.master_volume(), 1000);
    player.set_master_volume(-3);
    assert_eq!(player.master_volume(), 0);
    player.set_category_volume(EarconCategory::BezelUi, 2000);
    assert_eq!(player.category_volume(EarconCategory::BezelUi), 1000);
}

#[test]
fn muted_player_plays_nothing() {
    let mut player = EarconPlayer::new();
    player.mute();
    assert_eq!(player.play(EarconEvent::ZoomIn, 1000), None);
}

#[test]
fn repeated_earcon_is_debounced() {
    let mut player = EarconPlayer::new();
    let first = player.play(EarconEvent::ZoomIn, 10_000);
    assert!(first.is_some());
    assert!(first.unwrap() <= 1000);
    assert_eq!(player.play(EarconEvent::ZoomIn, 10_001), None);
    assert!(player.play(EarconEvent::ZoomIn, 20_000).is_some());
}

#[test]
fn max_concurrent_is_at_least_one() {
    let mut player = EarconPlayer::new();
    player.set_max_concurrent(0);
    player.active_sounds.push(EarconEvent::ZoomIn);
    player.active_sounds.push(EarconEvent::ZoomOut);
    assert_eq!(player.active_sound_count(), 2);
}

#[test]
fn category_volume_scales_the_earcon() {
    let mut player = EarconPlayer::new();
    player.set_category_volume(EarconCategory::Navigation, 0);
    assert_eq!(player.play(EarconEvent::ZoomIn, 10_000), Some(0));
}

#[test]
fn reset_restores_new_player_settings() {
    let mut player = EarconPlayer::new();
    player.set_master_volume(500);
    player.set_enabled(false);
    player.set_spatial_audio_enabled(false);
    player.set_max_concurrent(2);
    player.set_category_volume(EarconCategory::Navigation, 100);
    player.reset_to_defaults();
    let fresh = EarconPlayer::new();
    assert_eq!(player.master_volume(), 1000);
    assert!(player.is_enabled());
    assert_eq!(player.is_spatial_audio_enabled(), fresh.is_spatial_audio_enabled());
    assert!(player.is_spatial_audio_enabled());
    assert_eq!(player.max_concurrent, 8);
    assert_eq!(
        player.category_volume(EarconCategory::Navigation),
        fresh.category_volume(EarconCategory::Navigation)
    );
}
