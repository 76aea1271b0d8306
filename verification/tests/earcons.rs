use tos_dream::earcons::{admits_sound, EarconCategory, EarconEvent};

#[test]
fn test_event_categories() {
    assert_eq!(EarconEvent::ZoomIn.category(), EarconCategory::Navigation);
    assert_eq!(EarconEvent::CommandAccepted.category(), EarconCategory::CommandFeedback);
    assert_eq!(EarconEvent::Notification.category(), EarconCategory::SystemStatus);
    assert_eq!(EarconEvent::UserJoined.category(), EarconCategory::Collaboration);
    assert_eq!(EarconEvent::BezelExpand.category(), EarconCategory::BezelUi);
}

#[test]
fn test_event_priorities() {
    assert_eq!(EarconEvent::DangerousCommandWarning.priority(), 10);
    assert_eq!(EarconEvent::TacticalAlert.priority(), 10);
    assert!(EarconEvent::ButtonHover.priority() < EarconEvent::CommandError.priority());
}

#[test]
fn patterns_and_descriptions() {
    assert_eq!(EarconEvent::ZoomIn.sound_pattern(), "ascending_chime");
    assert_eq!(EarconEvent::ToggleHiddenFiles.sound_pattern(), "toggle_click");
    assert_eq!(EarconCategory::SystemStatus.description(), "System status alerts");
}

#[test]
fn concurrency_limit_skips_low_priority_sounds() {
    let active = vec![EarconEvent::ZoomIn, EarconEvent::ButtonHover];
    assert!(admits_sound(&active, 3, EarconEvent::ButtonHover));
    assert!(!admits_sound(&active, 2, EarconEvent::ButtonHover));
    assert!(!admits_sound(&active, 2, EarconEvent::FocusChange));
    assert!(admits_sound(&active, 2, EarconEvent::ZoomOut));
    assert!(admits_sound(&active, 2, EarconEvent::TacticalAlert));
}

#[test]
fn sound_patterns_are_distinct() {
    let all = [
        EarconEvent::ZoomIn, EarconEvent::ZoomOut, EarconEvent::LevelChange, EarconEvent::FocusChange,
        EarconEvent::SplitViewCreated, EarconEvent::SplitViewClosed, EarconEvent::CommandAccepted,
        EarconEvent::CommandError, EarconEvent::CommandCompleted, EarconEvent::DangerousCommandWarning,
        EarconEvent::AutoCompleteSuggestion, EarconEvent::Notification, EarconEvent::TacticalAlert,
        EarconEvent::BatteryLow, EarconEvent::BatteryCritical, EarconEvent::PerformanceWarning,
        EarconEvent::UserJoined, EarconEvent::UserLeft, EarconEvent::CursorShared,
        EarconEvent::FollowingStarted, EarconEvent::FollowingEnded, EarconEvent::BezelExpand,
        EarconEvent::BezelCollapse, EarconEvent::ButtonHover, EarconEvent::ModeSwitch,
        EarconEvent::ToggleHiddenFiles,
    ];
    for (i, a) in all.iter().enumerate() {
        for b in &all[i + 1..] {
            assert_ne!(a.sound_pattern(), b.sound_pattern());
        }
    }
}
