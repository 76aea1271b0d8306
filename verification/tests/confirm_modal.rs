use tos_dream::confirm_render::render_confirmation_modal;
use tos_dream::security::{ConfirmationSession, PatternPoint, RiskLevel, TactileMethod};

fn session(method: TactileMethod) -> ConfirmationSession {
    ConfirmationSession {
        id: 0x0123_4567_89ab_cdef_0123_4567_89ab_cdef,
        command: "rm -rf /tmp/x".to_string(),
        risk_level: RiskLevel::High,
        required_method: method,
        progress_milli: 0,
        start_ms: 0,
        user: "host".to_string(),
        sector_id: 1,
    }
}

#[test]
fn voice_confirmation_falls_back_with_its_description() {
    let html = render_confirmation_modal(
        &session(TactileMethod::Voice { phrase: "confirm".to_string(), confidence_milli: 950 }),
        30,
    );
    assert!(html.contains(
        "<div class='fallback-interaction'>Confirmation via Voice { phrase: \"confirm\", confidence_threshold: 0.95 } required. Interaction logic pending.</div>"
    ));
    let whole = render_confirmation_modal(
        &session(TactileMethod::Voice { phrase: "ok".to_string(), confidence_milli: 1000 }),
        30,
    );
    assert!(whole.contains("confidence_threshold: 1.0 }"));
}

#[test]
fn pattern_confirmation_falls_back_with_its_points() {
    let html = render_confirmation_modal(
        &session(TactileMethod::Pattern { sequence: vec![PatternPoint { x: 1, y: 2 }] }),
        30,
    );
    assert!(html.contains("Confirmation via Pattern { sequence: [PatternPoint { x: 1, y: 2 }] } required."));
}

#[test]
fn hold_confirmation_names_its_target() {
    let html = render_confirmation_modal(
        &session(TactileMethod::Hold { duration_ms: 2000, target: "SPACE".to_string() }),
        30,
    );
    assert!(html.contains("SPACE"));
    assert!(html.contains("rm -rf /tmp/x"));
}
