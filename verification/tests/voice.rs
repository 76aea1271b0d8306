use tos_dream::events::SemanticEvent;
use tos_dream::voice::{
    ConfidenceLevel, SpeechToText, VoiceCommandProcessor, VoiceConfig, VoiceError, VoiceState,
};

#[test]
fn test_voice_config_default() {
    let config = VoiceConfig::default();
    assert_eq!(config.wake_word, "computer");
    assert_eq!(config.max_command_duration_secs, 5);
    assert!(config.visual_feedback);
    assert!(config.audio_feedback);
}

#[test]
fn test_confidence_level() {
    assert_eq!(ConfidenceLevel::from_score(900), ConfidenceLevel::High);
    assert_eq!(ConfidenceLevel::from_score(700), ConfidenceLevel::Medium);
    assert_eq!(ConfidenceLevel::from_score(500), ConfidenceLevel::Low);
}

#[test]
fn test_voice_processor_new() {
    let processor = VoiceCommandProcessor::new();
    assert!(matches!(processor.state, VoiceState::Idle));
    assert!(processor.last_command.is_none());
    assert!(processor.command_history.is_empty());
}

#[test]
fn test_parse_navigation_commands() {
    let processor = VoiceCommandProcessor::new();

    let (event, confidence) = processor.parse_command("zoom in");
    assert_eq!(event, SemanticEvent::ZoomIn);
    assert!(confidence > 800);

    let (event, _confidence) = processor.parse_command("go back");
    assert_eq!(event, SemanticEvent::ZoomOut);

    let (event, _) = processor.parse_command("show overview");
    assert_eq!(event, SemanticEvent::OpenGlobalOverview);
}

#[test]
fn test_parse_mode_commands() {
    let processor = VoiceCommandProcessor::new();

    let (event, _) = processor.parse_command("command mode");
    assert_eq!(event, SemanticEvent::ModeCommand);

    let (event, _) = processor.parse_command("directory mode");
    assert_eq!(event, SemanticEvent::ModeDirectory);

    let (event, _) = processor.parse_command("activity mode");
    assert_eq!(event, SemanticEvent::ModeActivity);

    let (event, _) = processor.parse_command("cycle mode");
    assert_eq!(event, SemanticEvent::CycleMode);
}

#[test]
fn test_parse_system_commands() {
    let processor = VoiceCommandProcessor::new();

    let (event, _) = processor.parse_command("reset");
    assert_eq!(event, SemanticEvent::TacticalReset);

    let (event, _) = processor.parse_command("toggle bezel");
    assert_eq!(event, SemanticEvent::ToggleBezel);

    let (event, _) = processor.parse_command("split view");
    assert_eq!(event, SemanticEvent::SplitViewport);
}

#[test]
fn test_custom_commands() {
    let mut processor = VoiceCommandProcessor::new();
    processor
        .config
        .custom_commands
        .push(("test command".to_string(), "zoom_in".to_string()));

    let cmd = processor.process_text("test command").unwrap();
    assert_eq!(cmd.event, SemanticEvent::ZoomIn);
    assert_eq!(cmd.confidence_milli, 950);
}

#[test]
fn test_command_history() {
    let mut processor = VoiceCommandProcessor::new();

    processor.process_text("zoom in");
    processor.process_text("zoom out");
    processor.process_text("reset");

    assert_eq!(processor.command_history.len(), 3);

    let history = processor.get_history(2);
    assert_eq!(history.len(), 2);
    assert_eq!(history[0].raw_text, "reset");

    processor.clear_history();
    assert!(processor.command_history.is_empty());
}

#[test]
fn test_state_transitions() {
    let mut processor = VoiceCommandProcessor::new();

    assert!(matches!(processor.state, VoiceState::Idle));

    processor.simulate_wake_word(1_000);
    assert!(matches!(processor.state, VoiceState::Listening { .. }));
    assert!(processor.is_listening());

    processor.process_text("zoom in");
    assert!(matches!(processor.state, VoiceState::Ready));
    assert!(!processor.is_listening());
}

#[test]
fn test_execute_command() {
    let mut processor = VoiceCommandProcessor::new();

    let cmd = processor.process_text("zoom in").unwrap();
    let event = processor.execute_command(cmd);

    assert!(event.is_some());
    assert_eq!(event.unwrap(), SemanticEvent::ZoomIn);
    assert!(matches!(processor.state, VoiceState::Idle));
}

#[test]
fn test_status_text() {
    let mut processor = VoiceCommandProcessor::new();

    processor.start();
    assert!(processor.get_status_text().contains("Listening"));

    processor.simulate_wake_word(1_000);
    assert!(processor.get_status_text().contains("Listening for command"));

    processor.stop();
    assert!(processor.get_status_text().contains("disabled"));
}

#[test]
fn test_render_indicator() {
    let mut processor = VoiceCommandProcessor::new();

    let html = processor.render_indicator();
    assert!(html.contains("voice-idle"));
    assert!(html.contains("🎤"));

    processor.simulate_wake_word(1_000);
    let html = processor.render_indicator();
    assert!(html.contains("voice-listening"));
    assert!(html.contains("🔴"));
}

#[test]
fn test_voice_error_display() {
    assert_eq!(
        VoiceError::MicrophoneUnavailable.to_string(),
        "Microphone not available"
    );
    assert_eq!(VoiceError::CommandTimeout.to_string(), "Command timeout");
}

#[test]
fn test_stt_engine() {
    let stt = SpeechToText::new("en-US");
    assert_eq!(stt.language, "en-US");
    assert!(stt.model_path.is_none());
}

#[test]
fn test_create_voice_command() {
    let mut processor = VoiceCommandProcessor::new();
    let cmd = processor.create_voice_command("zoom in", 900, 0);

    assert_eq!(cmd.raw_text, "zoom in");
    assert!(matches!(cmd.event, SemanticEvent::ZoomIn));
    assert!(cmd.confidence_milli > 0);
}

#[test]
fn test_voice_processor_with_audio_states() {
    let mut processor = VoiceCommandProcessor::new();
    processor.start();
    processor.stop();
    assert!(!processor.wake_word_active);
    assert!(processor.recording_start_ms.is_none());
}

#[test]
fn default_custom_command_is_recognised_first() {
    let processor = VoiceCommandProcessor::new();
    // "beam me up" is a default custom command for zoom_in
    let (event, confidence) = processor.parse_command("Please BEAM ME UP now");
    assert_eq!(event, SemanticEvent::ZoomIn);
    assert_eq!(confidence, 950);
}

#[test]
fn unknown_text_submits_the_prompt() {
    let mut processor = VoiceCommandProcessor::new();
    let cmd = processor.process_text("make me a sandwich").unwrap();
    assert_eq!(cmd.event, SemanticEvent::SubmitPrompt);
    assert_eq!(cmd.confidence_milli, 300);
    assert_eq!(cmd.confidence_level, ConfidenceLevel::Low);
    assert_eq!(processor.command_history.len(), 1);
}

#[test]
fn history_is_bounded() {
    let mut processor = VoiceCommandProcessor::new();
    for _ in 0..60 {
        processor.process_text("zoom in");
    }
    assert_eq!(processor.command_history.len(), processor.max_history);
}

#[test]
fn confidence_boundaries() {
    assert_eq!(ConfidenceLevel::from_score(850), ConfidenceLevel::High);
    assert_eq!(ConfidenceLevel::from_score(849), ConfidenceLevel::Medium);
    assert_eq!(ConfidenceLevel::from_score(600), ConfidenceLevel::Medium);
    assert_eq!(ConfidenceLevel::from_score(599), ConfidenceLevel::Low);
    assert_eq!(ConfidenceLevel::from_score(0), ConfidenceLevel::Low);
}

#[test]
fn help_lists_commands() {
    let processor = VoiceCommandProcessor::new();
    let html = processor.render_help();
    assert!(html.contains("zoom in"));
}
