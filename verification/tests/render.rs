use tos_dream::model::{CommsMessage, HierarchyLevel, TosState};
use tos_dream::render::{escape_html, render_comms_overlay, render_settings_modal};

fn state() -> TosState {
    TosState {
        current_level: HierarchyLevel::GlobalOverview,
        sectors: vec![],
        viewports: vec![],
        active_viewport_index: 0,
        tactical_lockdown: false,
        escape_count: 0,
        settings_open: false,
        performance_alert: false,
        fps_milli: 60_000,
        comms_visible: false,
        comms_messages: vec![],
    }
}

#[test]
fn escape_html_covers_the_five_characters() {
    assert_eq!(
        escape_html("<a href='x'>Tom & \"Jerry\"</a>"),
        "&lt;a href=&#39;x&#39;&gt;Tom &amp; &quot;Jerry&quot;&lt;/a&gt;"
    );
    assert_eq!(escape_html("plain"), "plain");
    assert_eq!(escape_html("&amp;"), "&amp;amp;");
}

#[test]
fn hidden_overlays_render_nothing() {
    let s = state();
    assert_eq!(render_comms_overlay(&s), "");
    assert_eq!(render_settings_modal(&s), "");
}

#[test]
fn comms_overlay_shows_the_ten_latest() {
    let mut s = state();
    s.comms_visible = true;
    for i in 0..12 {
        s.comms_messages.push(CommsMessage {
            from: "USER".to_string(),
            body: format!("message {}", i),
            timestamp: "12:00".to_string(),
        });
    }
    let html = render_comms_overlay(&s);
    assert!(html.starts_with("<div class=\"comms-overlay\">"));
    assert!(!html.contains("message 0<"));
    assert!(!html.contains("message 1<"));
    assert!(html.contains("<span class=\"comms-body\">message 2</span>"));
    assert!(html.contains("<span class=\"comms-time\">[12:00]</span>"));
    assert!(html.contains("<span class=\"comms-from\">USER:</span>"));
    assert!(html.contains("message 11"));
    assert!(html.find("message 2<").unwrap() < html.find("message 11").unwrap());
    assert!(html.contains("{ window.ipc.postMessage('send_comms:' + this.value); this.value = ''; }"));
}

#[test]
fn settings_modal_shows_the_frame_rate() {
    let mut s = state();
    s.settings_open = true;
    s.fps_milli = 59_500;
    s.performance_alert = true;
    let html = render_settings_modal(&s);
    assert!(html.contains("value=\"59.5\""));
    assert!(html.contains("min-width: 40px; color: white;\">59.5</span>"));
    assert!(html.contains("<div class=\"toggle-segment active\">LCARS CURVES</div>"));
    assert!(html.contains("<button class=\"bezel-btn mini active\""));
    s.fps_milli = 60_000;
    s.performance_alert = false;
    let html = render_settings_modal(&s);
    assert!(html.contains("value=\"60\""));
    assert!(html.contains("<button class=\"bezel-btn mini \""));
}

#[test]
fn performance_overlay_only_on_alert() {
    assert_eq!(tos_dream::render::render_performance_overlay(12_340, false), "");
    let html = tos_dream::render::render_performance_overlay(12_340, true);
    assert!(html.starts_with("<div class=\"tactical-alert perflo-alert\">"));
    assert!(html.contains("CURRENT FPS: 12.3 // DEPTH THROTTLE ACTIVE"));
    assert!(html.contains("tactical_reset"));
}
